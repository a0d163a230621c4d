use invariant_reference::absence_violation_message;
use invariant_reference::error_violation_message;
use invariant_reference::naming::Name;
use invariant_reference::naming::NonEmpty;
use invariant_reference::registry::resolve_descriptor;
use invariant_reference::registry::DischargeError;
use invariant_reference::registry::ObligationLedger;
use invariant_reference::Invariant;
use invariant_reference::OptionExt;
use invariant_reference::ResultExt;

#[test]
fn descriptor_defaults_to_one_proof_and_own_name() {
    let d = resolve_descriptor("NonNegative".to_string(), None, None);
    assert_eq!(d.num_proofs, 1);
    assert_eq!(d.message, "NonNegative");
}

#[test]
fn descriptor_keeps_explicit_num_proofs_and_message() {
    let d = resolve_descriptor(
        "NonEmpty".to_string(),
        Some(2),
        Some("the name is not empty".to_string()),
    );
    assert_eq!(d.num_proofs, 2);
    assert_eq!(d.message, "the name is not empty");
}

#[test]
fn obligation_indices_cover_the_declared_range() {
    let d = resolve_descriptor("NonEmpty".to_string(), Some(3), None);
    assert_eq!(d.obligation_indices(), vec![0, 1, 2]);
}

#[test]
fn unwrap_on_present_value_is_identity() {
    let unwrapped: i32 = Some(42).unwrap_under_invariant::<NonEmpty>();
    assert_eq!(unwrapped, 42);
    let text: String = Some("payload".to_string()).unwrap_under_invariant::<NonEmpty>();
    assert_eq!(text, "payload");
}

#[test]
fn unwrap_on_ok_value_is_identity() {
    let ok: Result<i32, String> = Ok(7);
    let unwrapped: i32 = ok.unwrap_under_invariant::<NonEmpty>();
    assert_eq!(unwrapped, 7);
}

#[test]
fn checked_unwrap_on_present_value_is_identity() {
    let r: Result<i32, String> = Some(42).checked_unwrap_under_invariant::<NonEmpty>();
    assert_eq!(r, Ok(42));
}

#[test]
fn checked_unwrap_on_absent_value_names_the_invariant_message() {
    let r: Result<i32, String> = None.checked_unwrap_under_invariant::<NonEmpty>();
    let message = r.expect_err("an absent value must not unwrap");
    assert_eq!(
        message,
        "unwrapping called on absent value; violation of invariant: the name is not empty"
    );
    assert!(message.contains(NonEmpty::message()));
}

#[test]
fn checked_unwrap_on_error_value_names_error_and_invariant_message() {
    let failed: Result<i32, String> = Err("boom".to_string());
    let detail = format!("{:?}", failed.as_ref().expect_err("constructed as an error"));
    let r = failed.checked_unwrap_under_invariant::<NonEmpty>(&detail);
    let message = r.expect_err("an error value must not unwrap");
    assert_eq!(
        message,
        "unwrapping called on error value: \"boom\"; violation of invariant: the name is not empty"
    );
    assert!(message.contains("boom"));
    assert!(message.contains(NonEmpty::message()));
}

#[test]
fn violation_messages_have_the_declared_shape() {
    assert_eq!(
        absence_violation_message("the list is sorted"),
        "unwrapping called on absent value; violation of invariant: the list is sorted"
    );
    assert_eq!(
        error_violation_message("TooLong", "the key fits"),
        "unwrapping called on error value: TooLong; violation of invariant: the key fits"
    );
}

#[test]
fn discharge_marks_exactly_the_declared_index() {
    let d = resolve_descriptor("NonEmpty".to_string(), Some(2), None);
    let mut ledger = ObligationLedger::new(&d);
    assert!(!ledger.is_fully_proven());
    assert_eq!(ledger.declare_proof(0, "the default value is non-empty"), Ok(()));
    assert!(!ledger.is_fully_proven());
    assert_eq!(ledger.declare_proof(1, "checked in the Some branch"), Ok(()));
    assert!(ledger.is_fully_proven());
}

#[test]
fn discharging_the_same_index_twice_is_a_conflict() {
    let d = resolve_descriptor("NonNegative".to_string(), None, None);
    let mut ledger = ObligationLedger::new(&d);
    assert_eq!(ledger.declare_proof(0, "checked on entry"), Ok(()));
    assert_eq!(
        ledger.declare_proof(0, "checked again"),
        Err(DischargeError::AlreadyDischarged)
    );
    assert!(ledger.is_fully_proven());
}

#[test]
fn discharging_an_undeclared_index_is_rejected() {
    let d = resolve_descriptor("NonNegative".to_string(), None, None);
    let mut ledger = ObligationLedger::new(&d);
    assert_eq!(
        ledger.declare_proof(1, "out of the declared range"),
        Err(DischargeError::IndexOutOfRange)
    );
    assert!(!ledger.is_fully_proven());
}

#[test]
fn validating_constructor_accepts_exactly_non_empty_text() {
    let name = Name::new("bob".to_string()).expect("a non-empty name is accepted");
    assert_eq!(name.text(), "bob");
    assert!(Name::new(String::new()).is_none());
}

#[test]
fn default_name_is_non_empty() {
    let name = Name::default_name();
    assert_eq!(name.text(), "anonymous");
    assert_eq!(name.first_char_under_invariant(), 'a');
}

#[test]
fn trusted_first_char_returns_the_first_character() {
    let name = Name::new("bob".to_string()).expect("non-empty");
    assert_eq!(name.first_char_under_invariant(), 'b');
    assert_eq!(name.checked_first_char(), Ok('b'));
}

#[test]
fn unsound_trust_fails_with_the_declared_message() {
    // An empty name reaches the trusted unwrap through the unchecked
    // constructor, a path that never established the invariant.
    let name = Name::from_raw(String::new());
    let r = name.checked_first_char();
    let message = r.expect_err("the empty name has no first character");
    assert_eq!(
        message,
        "unwrapping called on absent value; violation of invariant: the name is not empty"
    );
}
