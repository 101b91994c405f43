use fact_core::ebpf::PATH_MAX;
use fact_core::event::{rewrite_file_name, sanitize_d_path, slice_to_string, EventError};
use regex::Regex;

/// Copies raw bytes into a NUL-padded buffer of `n` bytes, as the kernel fills it.
fn bytes_to_c_char_array(bytes: &[u8], n: usize) -> Vec<u8> {
    let mut array = vec![0u8; n];
    let len = bytes.len().min(n - 1);
    for (i, &byte) in bytes.iter().take(len).enumerate() {
        array[i] = byte;
    }
    array
}

fn string_to_c_char_array(s: &str, n: usize) -> Vec<u8> {
    bytes_to_c_char_array(s.as_bytes(), n)
}

#[test]
fn slice_to_string_valid_utf8() {
    let tests = [
        ("hello", "ASCII"),
        ("café", "French"),
        ("файл", "Cyrillic"),
        ("测试文件", "Chinese"),
        ("test🚀file", "Emoji"),
        ("test-файл-测试-🐛.txt", "Mixed Unicode"),
        ("ملف", "Arabic"),
        ("קובץ", "Hebrew"),
        ("ファイル", "Japanese"),
    ];

    for (input, description) in tests {
        let arr = string_to_c_char_array(input, PATH_MAX);
        assert_eq!(slice_to_string(&arr).unwrap(), input, "Failed for {}", description);
    }
}

#[test]
fn slice_to_string_invalid_utf8() {
    let tests: &[(&[u8], &str)] = &[
        (&[0xFF, 0xFE, 0xFD], "Invalid continuation bytes"),
        (b"test\xE2", "Truncated multi-byte sequence"),
        (&[0xC0, 0x80], "Overlong encoding"),
        (b"hello\x80world", "Invalid start byte"),
        (&[0x80], "Lone continuation byte"),
        (b"test\xFF\xFE", "Mixed valid and invalid bytes"),
    ];

    for (bytes, description) in tests {
        let arr = bytes_to_c_char_array(bytes, PATH_MAX);
        assert!(slice_to_string(&arr).is_err(), "Should fail for {}", description);
    }
}

#[test]
fn sanitize_d_path_valid_utf8() {
    let tests = [
        ("/etc/test", "/etc/test", "ASCII"),
        ("/tmp/файл.txt", "/tmp/файл.txt", "Cyrillic"),
        ("/home/user/测试文件.log", "/home/user/测试文件.log", "Chinese"),
        ("/data/🚀rocket.dat", "/data/🚀rocket.dat", "Emoji"),
        ("/var/log/app-данные-数据-🐛.log", "/var/log/app-данные-数据-🐛.log", "Mixed Unicode"),
        ("/home/ملف.txt", "/home/ملف.txt", "Arabic"),
        ("/opt/ファイル.conf", "/opt/ファイル.conf", "Japanese"),
    ];

    for (input, expected, description) in tests {
        let arr = string_to_c_char_array(input, PATH_MAX);
        assert_eq!(sanitize_d_path(&arr), expected.as_bytes(), "Failed for {}", description);
    }
}

#[test]
fn sanitize_d_path_deleted_suffix() {
    let tests = [
        ("/tmp/test.txt (deleted)", "/tmp/test.txt", "ASCII with deleted suffix"),
        ("/tmp/файл.txt (deleted)", "/tmp/файл.txt", "Unicode with deleted suffix"),
        ("/etc/config.yaml", "/etc/config.yaml", "No deleted suffix"),
        ("/var/log/app/debug.log (deleted)", "/var/log/app/debug.log", "Nested path with deleted suffix"),
    ];

    for (input, expected, description) in tests {
        let arr = string_to_c_char_array(input, PATH_MAX);
        assert_eq!(sanitize_d_path(&arr), expected.as_bytes(), "Failed for {}", description);
    }
}

#[test]
fn sanitize_d_path_invalid_utf8() {
    let tests: &[(&[u8], &str, &str)] = &[
        (b"/tmp/\xFF\xFE.txt", r"^/tmp/\u{FFFD}+\.txt$", "Invalid continuation bytes"),
        (b"/var/test\xE2\x80", r"^/var/test\u{FFFD}+$", "Truncated multi-byte sequence"),
        (b"/home/file\x80.log", r"^/home/file\u{FFFD}\.log$", "Invalid start byte"),
        (b"/tmp/\xD1\x84\xFF\xD0\xBB.txt", r"^/tmp/ф\u{FFFD}л\.txt$", "Mixed valid and invalid UTF-8"),
    ];

    for (bytes, pattern, description) in tests {
        let arr = bytes_to_c_char_array(bytes, PATH_MAX);
        let result = sanitize_d_path(&arr);
        let result_str = String::from_utf8_lossy(&result);

        let re = Regex::new(pattern).expect("Invalid regex pattern");
        assert!(
            re.is_match(&result_str),
            "Failed for {}: expected pattern '{}', got '{}'",
            description,
            pattern,
            result_str
        );
    }
}

#[test]
fn sanitize_d_path_invalid_utf8_with_deleted_suffix() {
    let invalid_with_deleted = bytes_to_c_char_array(b"/tmp/\xFF\xFE (deleted)", PATH_MAX);
    let result = sanitize_d_path(&invalid_with_deleted);
    let result_str = String::from_utf8_lossy(&result);

    assert!(result_str.contains("/tmp/"));
    assert!(!result_str.ends_with(" (deleted)"));
    assert!(result_str.contains('\u{FFFD}'));
}

#[test]
fn slice_to_string_stops_at_nul() {
    assert_eq!(slice_to_string(b"abc\0def\0").unwrap(), "abc");
    assert_eq!(slice_to_string(b"\0").unwrap(), "");
    assert_eq!(slice_to_string(b"\xFF\0").unwrap_err(), EventError::InvalidUtf8);
}

#[test]
fn sanitize_d_path_edge_cases() {
    // a file named only by the suffix loses it, leaving the directory
    assert_eq!(sanitize_d_path(b"/tmp/ (deleted)\0"), b"/tmp/".to_vec());
    // directly under the root
    assert_eq!(sanitize_d_path(b"/x (deleted)\0"), b"/x".to_vec());
    // a relative name without directory
    assert_eq!(sanitize_d_path(b"x (deleted)\0"), b"x".to_vec());
    // the suffix in a directory name is kept
    assert_eq!(sanitize_d_path(b"/a (deleted)/b\0"), b"/a (deleted)/b".to_vec());
    // trailing separators are not part of the file name
    assert_eq!(sanitize_d_path(b"/tmp/x (deleted)/\0"), b"/tmp/x".to_vec());
    assert_eq!(sanitize_d_path(b"/tmp//x (deleted)\0"), b"/tmp/x".to_vec());
    // `..` and the root have no file name
    assert_eq!(sanitize_d_path(b"/tmp/..\0"), b"/tmp/..".to_vec());
    assert_eq!(sanitize_d_path(b"/\0"), b"/".to_vec());
    assert_eq!(sanitize_d_path(b"\0"), b"".to_vec());
    // bytes after the NUL are ignored
    assert_eq!(sanitize_d_path(b"/etc/a\0 (deleted)"), b"/etc/a".to_vec());
    // a leading `.` component is kept as the parent
    assert_eq!(sanitize_d_path(b"./x (deleted)\0"), b"./x".to_vec());
    // only the exact suffix is taken off
    assert_eq!(sanitize_d_path(b"/tmp/x(deleted)\0"), b"/tmp/x(deleted)".to_vec());
}

#[test]
fn rewrite_file_name_uses_the_name_text() {
    assert_eq!(rewrite_file_name(b"/tmp/x (deleted)".to_vec(), "x (deleted)"), b"/tmp/x".to_vec());
    assert_eq!(rewrite_file_name(b"/tmp/x".to_vec(), "x"), b"/tmp/x".to_vec());
    // the name is written back as its text, not as the original bytes
    assert_eq!(
        rewrite_file_name(b"/tmp/\xff (deleted)".to_vec(), "\u{FFFD} (deleted)"),
        "/tmp/\u{FFFD}".as_bytes().to_vec()
    );
    assert_eq!(rewrite_file_name(b"/tmp/\xff.log".to_vec(), "\u{FFFD}.log"), "/tmp/\u{FFFD}.log".as_bytes().to_vec());
    // only the file name is rewritten; what follows it stays
    assert_eq!(rewrite_file_name(b"/a/b/./".to_vec(), "c"), b"/a/c/./".to_vec());
    assert_eq!(rewrite_file_name(b"rel (deleted)".to_vec(), "rel (deleted)"), b"rel".to_vec());
    assert_eq!(rewrite_file_name(b"/ (deleted)".to_vec(), " (deleted)"), b"/".to_vec());
    // a path without a file name stays as it is
    assert_eq!(rewrite_file_name(b"/tmp/..".to_vec(), "x"), b"/tmp/..".to_vec());
}

#[test]
fn sanitize_d_path_replaces_invalid_bytes_in_the_file_name_only() {
    assert_eq!(sanitize_d_path(b"/home/file\x80.log\0"), "/home/file\u{FFFD}.log".as_bytes().to_vec());
    assert_eq!(sanitize_d_path(b"/tmp/\xff/\0"), "/tmp/\u{FFFD}/".as_bytes().to_vec());
    // bytes in the directories are kept as they are
    assert_eq!(sanitize_d_path(b"/d\xff/ok\0"), b"/d\xff/ok".to_vec());
}

/// What the sanitizing does when written with std's path handling, for
/// paths that are valid UTF-8.
fn sanitize_with_std(s: &str) -> Vec<u8> {
    let p = std::path::Path::new(s);
    if let Some(file_name) = p.file_name() {
        if let Some(stripped) = file_name.to_string_lossy().strip_suffix(" (deleted)") {
            let joined = p.parent().map(|q| q.join(stripped)).unwrap_or_default();
            return joined.to_str().unwrap().as_bytes().to_vec();
        }
    }
    s.as_bytes().to_vec()
}

#[test]
fn sanitize_d_path_agrees_with_std_paths() {
    let pieces = ["/", ".", "..", "a", "b.c", " (deleted)", "x (deleted)", "//"];
    let mut paths: Vec<String> = vec![String::new()];
    for _ in 0..4 {
        let mut next = Vec::new();
        for p in &paths {
            for piece in pieces {
                next.push(format!("{}{}", p, piece));
            }
        }
        paths.extend(next);
        paths.sort();
        paths.dedup();
    }
    for p in paths {
        let mut buf = p.as_bytes().to_vec();
        buf.push(0);
        assert_eq!(sanitize_d_path(&buf), sanitize_with_std(&p), "differs for {:?}", p);
    }
}
