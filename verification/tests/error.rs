use vplugin::error::{IoFailure, VPluginError};

#[test]
fn io_failures_are_classified() {
    assert_eq!(VPluginError::from_io(IoFailure::PermissionDenied), VPluginError::PermissionDenied);
    assert_eq!(VPluginError::from_io(IoFailure::NotFound), VPluginError::NoSuchFile);
    assert_eq!(VPluginError::from_io(IoFailure::Interrupted), VPluginError::InvalidPlugin);
    assert_eq!(VPluginError::from_io(IoFailure::UnexpectedEof), VPluginError::InvalidPlugin);
}

#[test]
fn io_failures_without_a_kind_are_internal_errors() {
    assert_eq!(
        VPluginError::from_io(IoFailure::Unsupported),
        VPluginError::InternalError { err: "Unsupported file".to_string() }
    );
    assert_eq!(
        VPluginError::from_io(IoFailure::OutOfMemory),
        VPluginError::InternalError { err: "Host is out of memory".to_string() }
    );
    assert_eq!(
        VPluginError::from_io(IoFailure::Other),
        VPluginError::InternalError { err: "Unknown error.".to_string() }
    );
}

#[test]
fn result_unwrap_gives_the_value() {
    let r: vplugin::Result<i32> = vplugin::Result::Success(7);
    assert!(r.is_success());
    assert_eq!(r.unwrap(), 7);
    let s: vplugin::Result<String> = vplugin::Result::Success("x".to_string());
    assert_eq!(s.unwrap(), "x");
}

#[test]
fn result_failure_is_no_success() {
    let r: vplugin::Result<i32> = vplugin::Result::Failure(VPluginError::MissingSymbol);
    assert!(!r.is_success());
    assert!(matches!(r, vplugin::Result::Failure(VPluginError::MissingSymbol)));
}
