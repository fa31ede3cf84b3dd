use octofhir_codegen::error::Error;

#[test]
fn test_lib_loads() {
    assert!(true);
}

#[test]
fn test_error_types() {
    let err = Error::Parser("test error".to_string());
    assert_eq!(err.to_string(), "Parser error: test error");
}

#[test]
fn test_error_types_work() {
    let err = Error::Parser("test".to_string());
    assert!(err.to_string().contains("Parser error"));
}

#[test]
fn error_labels() {
    assert_eq!(Error::Other("plain".to_string()).to_string(), "plain");
    assert_eq!(Error::Config("x".to_string()).to_string(), "Configuration error: x");
    assert_eq!(Error::Io("gone".to_string()).to_string(), "IO error: gone");
}
