use axdriver::shellutil::{file_perm_to_rwx, split_whitespace};

fn split_str(s: &str) -> (String, String) {
    let (a, b) = split_whitespace(s.as_bytes());
    (String::from_utf8(a).unwrap(), String::from_utf8(b).unwrap())
}

#[test]
fn split_command_from_arguments() {
    assert_eq!(split_str("cat a.txt b.txt"), ("cat".to_string(), "a.txt b.txt".to_string()));
    assert_eq!(split_str("pwd"), ("pwd".to_string(), "".to_string()));
    assert_eq!(split_str("  ls   /tmp  "), ("ls".to_string(), "/tmp".to_string()));
    assert_eq!(split_str("echo  hello   world"), ("echo".to_string(), "hello   world".to_string()));
}

#[test]
fn split_blank_lines() {
    assert_eq!(split_str(""), ("".to_string(), "".to_string()));
    assert_eq!(split_str("   \t  "), ("".to_string(), "".to_string()));
    assert_eq!(split_str("\nexit\n"), ("exit".to_string(), "".to_string()));
}

#[test]
fn perm_bits_render_as_rwx_column() {
    assert_eq!(&file_perm_to_rwx(0o755), b"rwxr-xr-x");
    assert_eq!(&file_perm_to_rwx(0o644), b"rw-r--r--");
    assert_eq!(&file_perm_to_rwx(0o000), b"---------");
    assert_eq!(&file_perm_to_rwx(0o777), b"rwxrwxrwx");
    assert_eq!(&file_perm_to_rwx(0o421), b"r---w---x");
}
