use vstd::prelude::*;

verus! {

/// A type-level tag naming one invariant of the program.
///
/// A type becomes an `Invariant` only once every one of its declared proof
/// obligations is discharged: the implementation of this trait for a marker
/// type carries one `InvariantProof<N>` bound per obligation index, so the
/// marker is usable as a trust witness exactly when all of them hold.
pub trait Invariant {
    /// The declared message, as a mathematical sequence of characters.
    spec fn spec_message() -> Seq<char>;

    /// The human-readable description declared with the invariant, named by
    /// the diagnostics of every trusted unwrap that fails under it.
    fn message() -> (r: &'static str)
        ensures
            r@ == Self::spec_message(),
    ;
}

/// Marker capability: proof obligation `N` of the implementing invariant has
/// been discharged at some source location of the compiled program.
///
/// Implementing this trait is a permanent, whole-program declaration; it is
/// written beside the code that establishes the invariant, and the
/// justification belongs in a comment there. Implementing the same
/// `(invariant, N)` pair twice is a duplicate-definition error.
pub trait InvariantProof<const N: usize> {}

} // verus!
