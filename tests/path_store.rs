use proxy_installer::path_store::{
    export_path_line, export_variable_line, path_value_contains, MutationCause, PathMutator,
    Platform,
};

#[test]
fn unix_append_adds_separator_and_entry() {
    let mut m = PathMutator::new(Platform::Unix, "/usr/bin:/bin".to_string());
    assert_eq!(m.append("/opt/tool").unwrap(), true);
    assert_eq!(m.value(), "/usr/bin:/bin:/opt/tool");
}

#[test]
fn append_twice_keeps_one_occurrence() {
    let mut m = PathMutator::new(Platform::Unix, "/usr/bin".to_string());
    assert_eq!(m.append("/opt/tool").unwrap(), true);
    assert_eq!(m.append("/opt/tool").unwrap(), false);
    assert_eq!(m.value(), "/usr/bin:/opt/tool");
    assert_eq!(m.value().matches("/opt/tool").count(), 1);
}

#[test]
fn append_to_empty_store() {
    let mut m = PathMutator::new(Platform::Windows, String::new());
    assert_eq!(m.append("C:\\Tools").unwrap(), true);
    assert_eq!(m.value(), "C:\\Tools");
}

#[test]
fn append_after_trailing_separator() {
    let mut m = PathMutator::new(Platform::Windows, "C:\\A;".to_string());
    assert_eq!(m.append("C:\\B").unwrap(), true);
    assert_eq!(m.value(), "C:\\A;C:\\B");
}

#[test]
fn windows_membership_ignores_case_and_padding() {
    assert!(path_value_contains("C:\\A; c:\\tools ;D:\\x", "C:\\Tools", Platform::Windows));
    assert!(!path_value_contains("C:\\A;C:\\Toolsx", "C:\\Tools", Platform::Windows));
    let mut m = PathMutator::new(Platform::Windows, "C:\\A; c:\\TOOLS".to_string());
    assert_eq!(m.append("C:\\Tools").unwrap(), false);
    assert_eq!(m.value(), "C:\\A; c:\\TOOLS");
}

#[test]
fn unix_membership_is_exact() {
    assert!(path_value_contains("/a: /b :/c", "/b", Platform::Unix));
    assert!(!path_value_contains("/a:/B", "/b", Platform::Unix));
    assert!(!path_value_contains("/a/b", "/a", Platform::Unix));
}

#[test]
fn long_value_is_kept_whole() {
    let mut old = String::new();
    for i in 0..200 {
        if i > 0 {
            old.push(';');
        }
        old.push_str(&format!("C:\\dir{}", i));
    }
    assert!(old.len() > 1024);
    let mut m = PathMutator::new(Platform::Windows, old.clone());
    assert_eq!(m.append("C:\\new").unwrap(), true);
    assert!(m.value().starts_with(&old));
    assert_eq!(m.value().len(), old.len() + 1 + "C:\\new".len());
    assert!(m.contains("C:\\dir0"));
    assert!(m.contains("C:\\dir199"));
}

#[test]
fn invalid_entries_are_refused() {
    let mut m = PathMutator::new(Platform::Unix, "/bin".to_string());
    for bad in ["", "/a:/b", " /a", "/a "] {
        let e = m.append(bad).unwrap_err();
        assert_eq!(e.entry, bad);
        assert_eq!(e.cause, MutationCause::InvalidEntry);
    }
    assert_eq!(m.value(), "/bin");
}

#[test]
fn export_lines() {
    assert_eq!(export_path_line("/home/u/bin"), "export PATH=\"$PATH:/home/u/bin\"\n");
    assert_eq!(export_variable_line("KEY", "v"), "export KEY=\"v\"\n");
}

#[test]
fn platform_separators() {
    assert_eq!(Platform::Windows.separator(), ';');
    assert_eq!(Platform::Unix.separator(), ':');
    assert!(Platform::Windows.case_insensitive());
    assert!(!Platform::Unix.case_insensitive());
}
