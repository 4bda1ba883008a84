use classifier_core::classify::classify_stdout;
use classifier_core::errors::ErrorKind;

#[test]
fn strict_json_is_returned_exactly() {
    let raw = "{\"category\":\"cat\",\"confidence\":0.92,\"original_response\":\"cat\"}";
    let r = classify_stdout(raw).unwrap();
    assert_eq!(r.category, "cat");
    assert_eq!(r.confidence.parse::<f64>().unwrap(), 0.92);
    assert_eq!(r.original_response, "cat");
}

#[test]
fn bare_text_becomes_fallback_label() {
    let r = classify_stdout("dog\n").unwrap();
    assert_eq!(r.category, "dog");
    assert_eq!(r.confidence.parse::<f64>().unwrap(), 0.0);
    assert_eq!(r.original_response, "dog");
}

#[test]
fn empty_output_is_parse_failure() {
    let e = classify_stdout("").unwrap_err();
    assert_eq!(e.kind, ErrorKind::ParseFailed);
}

#[test]
fn whitespace_only_output_is_parse_failure() {
    let e = classify_stdout(" \n\t ").unwrap_err();
    assert_eq!(e.kind, ErrorKind::ParseFailed);
}

#[test]
fn missing_original_response_uses_raw_text() {
    let raw = "{\"category\":\"cat\",\"confidence\":0.5}";
    let r = classify_stdout(raw).unwrap();
    assert_eq!(r.category, "cat");
    assert_eq!(r.confidence.parse::<f64>().unwrap(), 0.5);
    assert_eq!(r.original_response, raw);
}

#[test]
fn integer_confidence_is_a_number() {
    let raw = "{\"category\":\"cat\",\"confidence\":1,\"original_response\":\"cat\"}";
    let r = classify_stdout(raw).unwrap();
    assert_eq!(r.confidence.parse::<f64>().unwrap(), 1.0);
}

#[test]
fn extra_json_fields_are_ignored() {
    let raw = "{\"category\":\"cat\",\"confidence\":0.9,\"original_response\":\"cat\",\"meta\":{\"elapsed_ms\":12}}";
    let r = classify_stdout(raw).unwrap();
    assert_eq!(r.category, "cat");
    assert_eq!(r.confidence.parse::<f64>().unwrap(), 0.9);
    assert_eq!(r.original_response, "cat");
}

#[test]
fn non_numeric_confidence_falls_back() {
    let raw = "{\"category\":\"x\",\"confidence\":\"high\",\"original_response\":\"x\"}";
    let r = classify_stdout(raw).unwrap();
    assert_eq!(r.category, raw.trim());
    assert_eq!(r.confidence.parse::<f64>().unwrap(), 0.0);
    assert_eq!(r.original_response, raw.trim());
}

#[test]
fn missing_category_falls_back() {
    let raw = "{\"confidence\":0.9,\"original_response\":\"x\"}\n";
    let r = classify_stdout(raw).unwrap();
    assert_eq!(r.category, raw.trim());
    assert_eq!(r.original_response, raw.trim());
}

#[test]
fn json_non_object_falls_back() {
    let r = classify_stdout("\"dog\"\n").unwrap();
    assert_eq!(r.category, "\"dog\"");
    assert_eq!(r.confidence.parse::<f64>().unwrap(), 0.0);
    assert_eq!(r.original_response, "\"dog\"");
}

#[test]
fn fallback_keeps_multiline_text() {
    let r = classify_stdout("warning: slow model\ndog\n").unwrap();
    assert_eq!(r.category, "warning: slow model\ndog");
    assert_eq!(r.original_response, "warning: slow model\ndog");
}
