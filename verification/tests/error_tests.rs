use onigmo::Error;
use onigmo::ErrorClass;
use onigmo::classify;
use onigmo::compile_accepted;

#[test]
fn classify_syntax_block() {
    assert_eq!(classify(-100), ErrorClass::SyntaxError);
    assert_eq!(classify(-117), ErrorClass::SyntaxError);
    assert_eq!(classify(-199), ErrorClass::SyntaxError);
}

#[test]
fn classify_value_block() {
    assert_eq!(classify(-200), ErrorClass::ValueError);
    assert_eq!(classify(-208), ErrorClass::ValueError);
    assert_eq!(classify(-499), ErrorClass::ValueError);
}

#[test]
fn classify_resource_limits() {
    assert_eq!(classify(-15), ErrorClass::ResourceLimit);
    assert_eq!(classify(-16), ErrorClass::ResourceLimit);
}

#[test]
fn classify_unsupported() {
    assert_eq!(classify(-2), ErrorClass::Unsupported);
    assert_eq!(classify(-402), ErrorClass::Unsupported);
}

#[test]
fn classify_internal_faults() {
    assert_eq!(classify(-5), ErrorClass::InternalFault);
    assert_eq!(classify(-13), ErrorClass::InternalFault);
    assert_eq!(classify(-30), ErrorClass::InternalFault);
    assert_eq!(classify(-500), ErrorClass::InternalFault);
}

#[test]
fn error_keeps_code_class_and_message() {
    let message = String::from("end pattern with unmatched parenthesis");
    let err = Error::new(-117, message.clone());
    assert_eq!(err.code(), -117);
    assert_eq!(err.class(), ErrorClass::SyntaxError);
    assert_eq!(err.message(), &message);
}

#[test]
fn invalid_pattern_status_gives_syntax_error_and_no_handle() {
    // An unbalanced group draws a status from the syntax-error block; the
    // status never yields a usable handle and the error carries a
    // non-empty diagnostic.
    let status: i64 = -117;
    assert!(!compile_accepted(status));
    let err = Error::new(status, String::from("end pattern with unmatched parenthesis"));
    assert_eq!(err.class(), ErrorClass::SyntaxError);
    assert!(!err.message().is_empty());
}

#[test]
fn compile_accepted_only_on_normal_status() {
    assert!(compile_accepted(0));
    assert!(!compile_accepted(-1));
    assert!(!compile_accepted(-117));
    assert!(!compile_accepted(-5));
}

#[test]
fn scan_aborted_error_is_distinguishable() {
    let err = Error::scan_aborted();
    assert_eq!(err.class(), ErrorClass::ScanAborted);
    assert!(!err.message().is_empty());
}

#[test]
fn error_clone_is_independent() {
    let err = Error::new(-208, String::from("invalid backref number"));
    let copy = err.clone();
    drop(err);
    assert_eq!(copy.code(), -208);
    assert_eq!(copy.class(), ErrorClass::ValueError);
    assert_eq!(copy.message().as_str(), "invalid backref number");
}
