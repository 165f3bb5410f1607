//! The canonical field-encoded transcript data.
//!
//! Every public claim is mixed into the Fiat-Shamir transcript by
//! appending its canonical encoding here, in protocol order. Hashing
//! the collected words into challenges is the backend's work; this
//! crate only fixes what is fed, so that prover and verifier feed the
//! same words and the claims stay reproducible.

use vstd::prelude::*;

use crate::extension::QM31;

verus! {

/// The words fed to the transcript so far, in order.
pub struct Transcript {
    /// The canonical encoding collected so far.
    pub data: Vec<u64>,
}

impl Transcript {
    /// An empty transcript.
    pub fn new() -> (r: Transcript)
        ensures
            r.data@ == Seq::<u64>::empty(),
    {
        let r = Transcript { data: Vec::new() };
        proof {
            assert(r.data@ =~= Seq::<u64>::empty());
        }
        r
    }

    /// Feed one machine word.
    pub fn mix_u64(&mut self, value: u64)
        ensures
            final(self).data@ == old(self).data@.push(value),
    {
        self.data.push(value);
    }

    /// Feed one secure-field element, as its four coordinates in order.
    pub fn mix_felt(&mut self, value: QM31)
        ensures
            final(self).data@ == old(self).data@ + seq![
                value.a.a.value as u64,
                value.a.b.value as u64,
                value.b.a.value as u64,
                value.b.b.value as u64,
            ],
    {
        self.data.push(value.a.a.value as u64);
        self.data.push(value.a.b.value as u64);
        self.data.push(value.b.a.value as u64);
        self.data.push(value.b.b.value as u64);
        proof {
            assert(self.data@ =~= old(self).data@ + seq![
                value.a.a.value as u64,
                value.a.b.value as u64,
                value.b.a.value as u64,
                value.b.b.value as u64,
            ]);
        }
    }
}

} // verus!
