use classifier_core::paths::resolve;
use classifier_core::text::trim_str;

#[test]
fn resolve_exact_paths() {
    let l = resolve("/app/resources");
    assert_eq!(l.backend_dir, "/app/resources/backend");
    assert_eq!(l.start_script, "/app/resources/backend/start_backend.sh");
    assert_eq!(l.classify_script, "/app/resources/backend/classify_image.py");
}

#[test]
fn resolve_empty_root() {
    let l = resolve("");
    assert_eq!(l.backend_dir, "backend");
    assert_eq!(l.start_script, "backend/start_backend.sh");
    assert_eq!(l.classify_script, "backend/classify_image.py");
}

#[test]
fn resolve_trailing_slash() {
    let l = resolve("/app/");
    assert_eq!(l.backend_dir, "/app/backend");
    assert_eq!(l.start_script, "/app/backend/start_backend.sh");
    assert_eq!(l.classify_script, "/app/backend/classify_image.py");
}

#[test]
fn resolve_is_pure() {
    let a = resolve("/opt/deploy");
    let b = resolve("/opt/deploy");
    assert_eq!(a.backend_dir, b.backend_dir);
    assert_eq!(a.start_script, b.start_script);
    assert_eq!(a.classify_script, b.classify_script);
}

#[test]
fn trim_removes_surrounding_whitespace() {
    assert_eq!(trim_str("  dog\n"), "dog");
    assert_eq!(trim_str("dog"), "dog");
    assert_eq!(trim_str("\t cat fish \r\n"), "cat fish");
}

#[test]
fn trim_whitespace_only_is_empty() {
    assert_eq!(trim_str(""), "");
    assert_eq!(trim_str(" \t\r\n"), "");
}
