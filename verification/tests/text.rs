use fs_operations_core::text::{followed_by, is_wire_safe, join_path, octal_text};

#[test]
fn octal_text_of_small_values() {
    assert_eq!(octal_text(0), "0");
    assert_eq!(octal_text(7), "7");
    assert_eq!(octal_text(8), "10");
    assert_eq!(octal_text(0o17), "17");
}

#[test]
fn octal_text_of_common_modes() {
    assert_eq!(octal_text(0o755), "755");
    assert_eq!(octal_text(0o644), "644");
    assert_eq!(octal_text(0o600), "600");
    assert_eq!(octal_text(0o100644), "100644");
}

#[test]
fn octal_text_of_largest_value() {
    assert_eq!(octal_text(u32::MAX), "37777777777");
    assert_eq!(octal_text(u32::MAX), format!("{:o}", u32::MAX));
}

#[test]
fn octal_text_agrees_with_std_formatting() {
    let mut value: u32 = 1;
    for _ in 0..40 {
        assert_eq!(octal_text(value), format!("{:o}", value));
        value = value.wrapping_mul(2654435761).wrapping_add(12345);
    }
}

#[test]
fn followed_by_appends() {
    assert_eq!(followed_by("Deleted: ", "/tmp/x"), "Deleted: /tmp/x");
    assert_eq!(followed_by("", ""), "");
    assert_eq!(followed_by("a", ""), "a");
    assert_eq!(followed_by("", "b"), "b");
}

#[test]
fn join_path_puts_one_separator() {
    assert_eq!(join_path(b"/tmp/src", b"file1.txt"), b"/tmp/src/file1.txt".to_vec());
    assert_eq!(join_path(b"/tmp/src/", b"file1.txt"), b"/tmp/src/file1.txt".to_vec());
    assert_eq!(join_path(b"rel", b"sub"), b"rel/sub".to_vec());
}

#[test]
fn join_path_with_empty_base() {
    assert_eq!(join_path(b"", b"name"), b"name".to_vec());
}

#[test]
fn join_path_with_empty_name() {
    assert_eq!(join_path(b"/tmp/src", b""), b"/tmp/src/".to_vec());
    assert_eq!(join_path(b"/tmp/src/", b""), b"/tmp/src/".to_vec());
    assert_eq!(join_path(b"", b""), Vec::<u8>::new());
}

#[test]
fn join_path_with_absolute_name() {
    assert_eq!(join_path(b"/tmp/src", b"/etc/passwd"), b"/etc/passwd".to_vec());
}

#[test]
fn join_path_agrees_with_std_paths() {
    let cases = [
        ("/tmp/a", "b"),
        ("/tmp/a/", "b"),
        ("", "b"),
        ("a", "/b"),
        ("/", "x"),
        ("a", ""),
        ("répertoire", "fichier é"),
    ];
    for (base, name) in cases {
        let expected = std::path::Path::new(base).join(name);
        assert_eq!(
            join_path(base.as_bytes(), name.as_bytes()),
            expected.to_str().unwrap().as_bytes().to_vec()
        );
    }
}

#[test]
fn join_path_keeps_bytes_that_are_no_text() {
    assert_eq!(join_path(b"/tmp/\xff", b"\x80\xfe"), b"/tmp/\xff/\x80\xfe".to_vec());
    assert_eq!(
        join_path("/tmp/données".as_bytes(), "été.txt".as_bytes()),
        "/tmp/données/été.txt".as_bytes().to_vec()
    );
}

#[test]
fn wire_safe_text() {
    assert!(is_wire_safe("Folder created: /tmp/a"));
    assert!(is_wire_safe(""));
    assert!(is_wire_safe("héllo wörld ✓"));
}

#[test]
fn text_with_nul_is_not_wire_safe() {
    assert!(!is_wire_safe("a\0b"));
    assert!(!is_wire_safe("\0"));
    assert!(!is_wire_safe("trailing\0"));
}
