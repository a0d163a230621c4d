use vstd::prelude::*;

verus! {

/// The text that precedes the invariant's message when an absent value is
/// unwrapped under it.
pub open spec fn absence_prefix() -> Seq<char> {
    "unwrapping called on absent value; violation of invariant: "@
}

/// The diagnostic emitted when a trusted unwrap finds an absent value:
/// the fixed prefix followed by the invariant's own message.
pub open spec fn absence_violation(message: Seq<char>) -> Seq<char> {
    absence_prefix() + message
}

/// The text that precedes the error's rendering when an error-carrying value
/// is unwrapped.
pub open spec fn error_prefix() -> Seq<char> {
    "unwrapping called on error value: "@
}

/// The text between the error's rendering and the invariant's message.
pub open spec fn error_infix() -> Seq<char> {
    "; violation of invariant: "@
}

/// The diagnostic emitted when a trusted unwrap finds an error value: the
/// error's rendering and the invariant's message, joined by fixed text.
pub open spec fn error_violation(detail: Seq<char>, message: Seq<char>) -> Seq<char> {
    error_prefix() + detail + error_infix() + message
}

/// Builds the diagnostic for unwrapping an absent value under an invariant
/// whose declared message is `message`.
pub fn absence_violation_message(message: &str) -> (r: String)
    ensures
        r@ == absence_violation(message@),
{
    let prefix = String::from_str("unwrapping called on absent value; violation of invariant: ");
    prefix.concat(message)
}

/// Builds the diagnostic for unwrapping an error value rendered as `detail`
/// under an invariant whose declared message is `message`.
pub fn error_violation_message(detail: &str, message: &str) -> (r: String)
    ensures
        r@ == error_violation(detail@, message@),
{
    let part = String::from_str("unwrapping called on error value: ");
    let part = part.concat(detail);
    let part = part.concat("; violation of invariant: ");
    part.concat(message)
}

/// The absence diagnostic carries the invariant's message verbatim: the
/// message is exactly the diagnostic's suffix, after the fixed prefix.
pub proof fn lemma_absence_violation_contains_message(message: Seq<char>)
    ensures
        absence_violation(message).len() == absence_prefix().len() + message.len(),
        absence_violation(message).subrange(
            absence_prefix().len() as int,
            absence_violation(message).len() as int,
        ) == message,
{
    assert(absence_violation(message).subrange(
        absence_prefix().len() as int,
        absence_violation(message).len() as int,
    ) =~= message);
}

/// The error diagnostic carries both the error's rendering and the
/// invariant's message verbatim: the rendering follows the fixed prefix, and
/// the message is the diagnostic's suffix.
pub proof fn lemma_error_violation_contains_detail_and_message(
    detail: Seq<char>,
    message: Seq<char>,
)
    ensures
        error_violation(detail, message).len() == error_prefix().len() + detail.len()
            + error_infix().len() + message.len(),
        error_violation(detail, message).subrange(
            error_prefix().len() as int,
            error_prefix().len() as int + detail.len() as int,
        ) == detail,
        error_violation(detail, message).subrange(
            error_violation(detail, message).len() as int - message.len() as int,
            error_violation(detail, message).len() as int,
        ) == message,
{
    assert(error_violation(detail, message).subrange(
        error_prefix().len() as int,
        error_prefix().len() as int + detail.len() as int,
    ) =~= detail);
    assert(error_violation(detail, message).subrange(
        error_violation(detail, message).len() as int - message.len() as int,
        error_violation(detail, message).len() as int,
    ) =~= message);
}

} // verus!
