use toolchains::ErrorCause;
use toolchains::ToolchainError;
use toolchains::ToolchainId;
use toolchains::UnifiedError;
use toolchains::load_toolchains;
use toolchains::load_toolchains_from_str;
use toolchains::validate_entries;

#[test]
fn io_failure_keeps_the_message() {
    let r = load_toolchains(Err(String::from("No such file or directory (os error 2)")));
    let e: UnifiedError = r.err().unwrap();
    assert!(matches!(
        &e.cause,
        ErrorCause::Io { message } if message == "No such file or directory (os error 2)"
    ));
    assert!(e.contexts.is_empty());
    assert_eq!(e.display(), "No such file or directory (os error 2)");
}

#[test]
fn malformed_text_is_a_deserialize_failure() {
    let r = load_toolchains_from_str("this is not [ valid toml");
    let e = r.err().unwrap();
    assert!(matches!(&e.cause, ErrorCause::Deserialize { message } if !message.is_empty()));
}

#[test]
fn non_string_value_is_a_deserialize_failure() {
    let r = load_toolchains(Ok(String::from("stable = 3")));
    let e = r.err().unwrap();
    assert!(matches!(&e.cause, ErrorCause::Deserialize { .. }));
}

#[test]
fn duplicate_key_is_a_deserialize_failure() {
    let r = load_toolchains_from_str("a = \"/x\"\na = \"/y\"\n");
    let e = r.err().unwrap();
    assert!(matches!(&e.cause, ErrorCause::Deserialize { .. }));
}

#[test]
fn rejected_key_is_a_domain_failure_carrying_the_key() {
    let r = load_toolchains_from_str("alpha = \"/opt/alpha\"\n");
    let e = r.err().unwrap();
    assert!(matches!(
        &e.cause,
        ErrorCause::Toolchain { error: ToolchainError::InvalidToolchainName { name } } if name == "alpha"
    ));
    assert_eq!(e.display(), "invalid toolchain name: alpha");
}

#[test]
fn empty_text_loads_an_empty_table() {
    let table = load_toolchains_from_str("").unwrap();
    assert_eq!(table.len(), 0);
    assert!(table.get("anything").is_none());
}

#[test]
fn empty_read_outcome_loads_an_empty_table() {
    let table = load_toolchains(Ok(String::new())).unwrap();
    assert_eq!(table.len(), 0);
}

#[test]
fn validating_no_entries_yields_the_empty_table() {
    let table = validate_entries(Vec::new()).unwrap();
    assert_eq!(table.len(), 0);
}

#[test]
fn validating_rejects_the_first_entry() {
    let entries = vec![(String::from("beta"), String::from("/opt/beta"))];
    let e = validate_entries(entries).err().unwrap();
    assert!(matches!(&e, ToolchainError::InvalidToolchainName { name } if name == "beta"));
}

#[test]
fn parse_rejects_every_name_for_now() {
    let r = ToolchainId::parse("stable");
    assert!(matches!(
        r,
        Err(ToolchainError::InvalidToolchainName { name }) if name == "stable"
    ));
}
