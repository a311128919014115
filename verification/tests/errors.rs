use toolchains::ErrorCause;
use toolchains::ToolchainError;
use toolchains::UnifiedError;

#[test]
fn toolchain_error_messages() {
    let e = ToolchainError::InvalidToolchainName { name: String::from("nightly-x") };
    assert_eq!(e.message(), "invalid toolchain name: nightly-x");
    let e = ToolchainError::UnknownToolchainVersion { version: String::from("1.2.3") };
    assert_eq!(e.message(), "unknown toolchain version: 1.2.3");
}

#[test]
fn bare_cause_displays_as_its_message() {
    let e = UnifiedError::from_cause(ErrorCause::Io { message: String::from("boom") });
    assert!(e.contexts.is_empty());
    assert_eq!(e.display(), "boom");
}

#[test]
fn context_layers_in_display_order() {
    let e = UnifiedError::from_cause(ErrorCause::Io { message: String::from("boom") });
    let e = e.context(String::from("reading toolchains"));
    let e = e.context(String::from("starting up"));
    assert_eq!(e.display(), "starting up: reading toolchains: boom");
}

#[test]
fn context_preserves_cause() {
    let e = UnifiedError::from_cause(ErrorCause::Toolchain {
        error: ToolchainError::InvalidToolchainName { name: String::from("beta") },
    });
    let e = e.context(String::from("first"));
    let e = e.context(String::from("second"));
    assert!(matches!(
        &e.cause,
        ErrorCause::Toolchain { error: ToolchainError::InvalidToolchainName { name } } if name == "beta"
    ));
    assert_eq!(e.contexts.len(), 2);
    assert_eq!(e.display(), "second: first: invalid toolchain name: beta");
}
