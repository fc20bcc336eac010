use proxy_installer::{is_nodejs_version_sufficient, is_python_version_sufficient};

#[test]
fn test_python_version_parsing() {
    assert!(is_python_version_sufficient("Python 3.8.0"));
    assert!(is_python_version_sufficient("Python 3.11.5"));
    assert!(!is_python_version_sufficient("Python 3.7.9"));
    assert!(!is_python_version_sufficient("Python 2.7.18"));
}

#[test]
fn test_nodejs_version_parsing() {
    assert!(is_nodejs_version_sufficient("v18.17.0"));
    assert!(is_nodejs_version_sufficient("v16.0.0"));
    assert!(!is_nodejs_version_sufficient("v14.21.3"));
}

#[test]
fn python_gate_major_above_three() {
    assert!(is_python_version_sufficient("Python 4.0.0"));
    assert!(is_python_version_sufficient("Python 10.0.1"));
}

#[test]
fn python_gate_malformed_strings() {
    assert!(!is_python_version_sufficient(""));
    assert!(!is_python_version_sufficient("Python"));
    assert!(!is_python_version_sufficient("Python3.8.0"));
    assert!(!is_python_version_sufficient("Python 3.8"));
    assert!(!is_python_version_sufficient("Python x.8.0"));
    assert!(!is_python_version_sufficient("Python 99999999999.1.0"));
}

#[test]
fn python_gate_whitespace_and_plus() {
    assert!(is_python_version_sufficient("  Python\t3.9.1  "));
    assert!(is_python_version_sufficient("Python +3.8.0"));
    assert!(is_python_version_sufficient("Python 3.12.0rc1 extra"));
}

#[test]
fn nodejs_gate_edges() {
    assert!(is_nodejs_version_sufficient("v16.20.2"));
    assert!(!is_nodejs_version_sufficient("v15.14.0"));
    assert!(is_nodejs_version_sufficient("18.0.0"));
    assert!(is_nodejs_version_sufficient("vv20.1.0"));
    assert!(!is_nodejs_version_sufficient("v18"));
    assert!(!is_nodejs_version_sufficient(""));
    assert!(!is_nodejs_version_sufficient("vx.1.0"));
}
