use vstd::prelude::*;

verus! {

/// A declared invariant: how many proof obligations it carries and the
/// diagnostic message that failed unwraps under it name.
pub struct Descriptor {
    pub num_proofs: usize,
    pub message: String,
}

impl Descriptor {
    /// A descriptor is well formed when it carries at least one obligation.
    pub open spec fn wf(self) -> bool {
        self.num_proofs >= 1
    }

    /// The obligation indices `0 .. num_proofs`, in order: the annotation
    /// processor emits one discharge bound per index.
    pub fn obligation_indices(&self) -> (r: Vec<usize>)
        ensures
            r@.len() == self.num_proofs,
            forall|i: int| 0 <= i < r@.len() ==> r@[i] == i,
    {
        let mut indices: Vec<usize> = Vec::new();
        let mut i: usize = 0;
        while i < self.num_proofs
            invariant
                i <= self.num_proofs,
                indices@.len() == i,
                forall|j: int| 0 <= j < i ==> indices@[j] == j,
            decreases self.num_proofs - i,
        {
            indices.push(i);
            i = i + 1;
        }
        indices
    }
}

/// Resolves a declaration to its descriptor: `num_proofs` defaults to a
/// single obligation, and `message` defaults to the declared name itself.
pub fn resolve_descriptor(
    name: String,
    num_proofs: Option<usize>,
    message: Option<String>,
) -> (d: Descriptor)
    requires
        num_proofs matches Some(n) ==> n >= 1,
    ensures
        d.wf(),
        d.num_proofs == (if num_proofs is Some {
            num_proofs->Some_0
        } else {
            1usize
        }),
        d.message@ == (if message is Some {
            message->Some_0@
        } else {
            name@
        }),
{
    let n: usize = match num_proofs {
        Some(n) => n,
        None => 1,
    };
    let m: String = match message {
        Some(m) => m,
        None => name,
    };
    Descriptor { num_proofs: n, message: m }
}

/// Why a proof declaration was rejected.
#[derive(Clone, Copy, PartialEq, Eq, Debug)]
pub enum DischargeError {
    /// The index is not one of the descriptor's declared obligations.
    IndexOutOfRange,
    /// The obligation was already discharged at another declaration site.
    AlreadyDischarged,
}

/// The discharge state of one descriptor's obligations.
///
/// This is the lattice that the compile-time machinery walks: every
/// obligation starts undischarged, a proof declaration marks exactly one
/// index, a marked index never reverts, and the descriptor is usable as a
/// trust witness exactly when every index is marked.
pub struct ObligationLedger {
    discharged: Vec<bool>,
}

impl ObligationLedger {
    /// How many obligations the descriptor declared.
    pub closed spec fn num_proofs(self) -> nat {
        self.discharged@.len()
    }

    /// Whether obligation `i` has been discharged.
    pub closed spec fn is_discharged(self, i: int) -> bool {
        0 <= i < self.discharged@.len() && self.discharged@[i]
    }

    /// The invariant is fully proven when every declared obligation is
    /// discharged; only then may it stand as a trust witness.
    pub open spec fn fully_proven(self) -> bool {
        forall|i: int| 0 <= i < self.num_proofs() ==> self.is_discharged(i)
    }

    /// A fresh ledger: all of the descriptor's obligations exist and none is
    /// discharged yet.
    pub fn new(descriptor: &Descriptor) -> (r: ObligationLedger)
        ensures
            r.num_proofs() == descriptor.num_proofs,
            forall|i: int| !r.is_discharged(i),
    {
        let mut discharged: Vec<bool> = Vec::new();
        let mut i: usize = 0;
        while i < descriptor.num_proofs
            invariant
                i <= descriptor.num_proofs,
                discharged@.len() == i,
                forall|j: int| 0 <= j < i ==> !discharged@[j],
            decreases descriptor.num_proofs - i,
        {
            discharged.push(false);
            i = i + 1;
        }
        ObligationLedger { discharged }
    }

    /// Declares obligation `index` discharged. The justification is
    /// documentation only — it records, for a reader of the code, why the
    /// invariant holds at the declaration site — and is not retained.
    ///
    /// Discharge is permanent: no obligation ever reverts, and a second
    /// declaration of the same index is rejected rather than repeated.
    pub fn declare_proof(&mut self, index: usize, _justification: &str) -> (r: Result<
        (),
        DischargeError,
    >)
        ensures
            final(self).num_proofs() == old(self).num_proofs(),
            r is Ok <==> (index < old(self).num_proofs() && !old(self).is_discharged(
                index as int,
            )),
            index >= old(self).num_proofs() ==> r == Err::<(), DischargeError>(
                DischargeError::IndexOutOfRange,
            ),
            index < old(self).num_proofs() && old(self).is_discharged(index as int) ==> r == Err::<
                (),
                DischargeError,
            >(DischargeError::AlreadyDischarged),
            r is Ok ==> final(self).is_discharged(index as int),
            forall|j: int|
                j != index ==> final(self).is_discharged(j) == old(self).is_discharged(j),
            r is Err ==> forall|j: int|
                final(self).is_discharged(j) == old(self).is_discharged(j),
            forall|j: int| old(self).is_discharged(j) ==> final(self).is_discharged(j),
    {
        if index >= self.discharged.len() {
            Err(DischargeError::IndexOutOfRange)
        } else if self.discharged[index] {
            Err(DischargeError::AlreadyDischarged)
        } else {
            self.discharged.set(index, true);
            Ok(())
        }
    }

    /// Whether every obligation has been discharged.
    pub fn is_fully_proven(&self) -> (b: bool)
        ensures
            b == self.fully_proven(),
    {
        let mut i: usize = 0;
        while i < self.discharged.len()
            invariant
                i <= self.discharged@.len(),
                forall|j: int| 0 <= j < i ==> self.is_discharged(j),
            decreases self.discharged@.len() - i,
        {
            if !self.discharged[i] {
                proof {
                    assert(!self.is_discharged(i as int));
                }
                return false;
            }
            i = i + 1;
        }
        true
    }
}

/// One undischarged obligation refutes the whole proof: an invariant with a
/// missing index is not fully proven, however many other indices were
/// discharged.
pub proof fn lemma_missing_obligation_refutes_proof(ledger: ObligationLedger, i: int)
    requires
        0 <= i < ledger.num_proofs(),
        !ledger.is_discharged(i),
    ensures
        !ledger.fully_proven(),
{
}

/// A fully proven invariant has every declared obligation discharged: no
/// index can be missing.
pub proof fn lemma_fully_proven_discharges_each(ledger: ObligationLedger, i: int)
    requires
        ledger.fully_proven(),
        0 <= i < ledger.num_proofs(),
    ensures
        ledger.is_discharged(i),
{
}

} // verus!
