use vstd::prelude::*;

use crate::messages::absence_violation;
use crate::unwrapping::OptionExt;
use crate::witness::Invariant;
use crate::witness::InvariantProof;

verus! {

/// The invariant that a `Name` holds at least one character.
///
/// Declared with two proof obligations and the message
/// "the name is not empty"; each constructor of `Name` that establishes the
/// property discharges one obligation.
pub struct NonEmpty;

/// Obligation 0 of `NonEmpty`, discharged at `Name::default_name`: the
/// default name is the literal "anonymous", which is not empty.
impl InvariantProof<0> for NonEmpty {}

/// Obligation 1 of `NonEmpty`, discharged in the `Some` branch of
/// `Name::new`: a name is only returned there after its text was checked to
/// hold at least one character.
impl InvariantProof<1> for NonEmpty {}

/// `NonEmpty` stands as a trust witness only while both of its obligations
/// are discharged: remove either `InvariantProof` implementation above and
/// every unwrap under `NonEmpty` stops type-checking.
impl Invariant for NonEmpty where NonEmpty: InvariantProof<0>, NonEmpty: InvariantProof<1> {
    closed spec fn spec_message() -> Seq<char> {
        "the name is not empty"@
    }

    fn message() -> (r: &'static str) {
        "the name is not empty"
    }
}

/// A personal name. The `NonEmpty` invariant asserts that every `Name` the
/// program constructs holds at least one character.
pub struct Name {
    text: String,
}

impl View for Name {
    type V = Seq<char>;

    closed spec fn view(&self) -> Seq<char> {
        self.text@
    }
}

impl Name {
    /// The default name. Obligation 0 of `NonEmpty` is discharged here:
    /// "anonymous" is not empty.
    pub fn default_name() -> (r: Name)
        ensures
            r@ == "anonymous"@,
            r@.len() > 0,
    {
        proof {
            reveal_strlit("anonymous");
        }
        Name { text: String::from_str("anonymous") }
    }

    /// The validating constructor: returns a name exactly when `text` holds
    /// at least one character. Obligation 1 of `NonEmpty` is discharged in
    /// the `Some` branch, on the strength of that check.
    pub fn new(text: String) -> (r: Option<Name>)
        ensures
            text@.len() > 0 ==> (r matches Some(n) && n@ == text@),
            text@.len() == 0 ==> r is None,
    {
        if text.as_str().unicode_len() > 0 {
            Some(Name { text })
        } else {
            None
        }
    }

    /// Constructs a name from raw text with no check at all. A caller that
    /// treats the result as covered by `NonEmpty` makes an unsound claim;
    /// unwraps trusted on it then fail at run time.
    pub fn from_raw(text: String) -> (r: Name)
        ensures
            r@ == text@,
    {
        Name { text }
    }

    /// The name's text.
    pub fn text(&self) -> (r: &str)
        ensures
            r@ == self@,
    {
        self.text.as_str()
    }

    /// The first character, when the name has one.
    pub fn first_char(&self) -> (r: Option<char>)
        ensures
            self@.len() > 0 ==> r == Some(self@[0]),
            self@.len() == 0 ==> r is None,
    {
        if self.text.as_str().unicode_len() > 0 {
            Some(self.text.as_str().get_char(0))
        } else {
            None
        }
    }

    /// The first character, extracted on the strength of `NonEmpty`. The
    /// call type-checks because both obligations of `NonEmpty` are
    /// discharged; the precondition records what that proof claims.
    pub fn first_char_under_invariant(&self) -> (r: char)
        requires
            self@.len() > 0,
        ensures
            r == self@[0],
    {
        self.first_char().unwrap_under_invariant::<NonEmpty>()
    }

    /// The run-time face of the same trust: on a name that reached this
    /// point through an unchecked path and is in fact empty, the result is
    /// the absence diagnostic naming `NonEmpty`'s message.
    pub fn checked_first_char(&self) -> (r: Result<char, String>)
        ensures
            match r {
                Ok(c) => self@.len() > 0 && c == self@[0],
                Err(m) => self@.len() == 0 && m@ == absence_violation(
                    NonEmpty::spec_message(),
                ),
            },
    {
        self.first_char().checked_unwrap_under_invariant::<NonEmpty>()
    }
}

} // verus!

