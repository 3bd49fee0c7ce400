use crate::address::Address;
use vstd::prelude::*;

verus! {

/// Proof of authorization for one invocation: the identities that have
/// consented to exactly this call. Privileged operations check it before
/// they touch any state.
#[derive(Debug)]
pub struct Authorization {
    signers: Vec<Address>,
}

impl View for Authorization {
    type V = Set<Seq<char>>;

    closed spec fn view(&self) -> Set<Seq<char>> {
        Set::new(|who: Seq<char>| exists|i: int| 0 <= i < self.signers@.len() && self.signers@[i]@ == who)
    }
}

impl Authorization {
    /// An invocation to which nobody has consented.
    pub fn none() -> (a: Authorization)
        ensures
            a@ == Set::<Seq<char>>::empty(),
    {
        let a = Authorization { signers: Vec::new() };
        assert(a@ =~= Set::<Seq<char>>::empty());
        a
    }

    /// An invocation to which `signer` alone has consented.
    pub fn of(signer: &Address) -> (a: Authorization)
        ensures
            a@ == Set::<Seq<char>>::empty().insert(signer@),
    {
        Authorization::none().and(signer)
    }

    /// The same invocation with the consent of `signer` added.
    pub fn and(self, signer: &Address) -> (a: Authorization)
        ensures
            a@ == self@.insert(signer@),
    {
        let ghost before = self.signers@;
        let mut signers = self.signers;
        signers.push(signer.clone());
        let a = Authorization { signers };
        proof {
            assert forall|who: Seq<char>| a@.contains(who) == self@.insert(signer@).contains(who) by {
                if a@.contains(who) {
                    let i = choose|i: int| 0 <= i < a.signers@.len() && a.signers@[i]@ == who;
                    if i < before.len() {
                        assert(before[i]@ == who);
                    }
                }
                if self@.contains(who) {
                    let i = choose|i: int| 0 <= i < before.len() && before[i]@ == who;
                    assert(a.signers@[i]@ == who);
                }
                if who == signer@ {
                    assert(a.signers@[before.len() as int]@ == who);
                }
            }
            assert(a@ =~= self@.insert(signer@));
        }
        a
    }

    /// Whether `who` has consented to this invocation.
    pub fn permits(&self, who: &Address) -> (b: bool)
        ensures
            b == self@.contains(who@),
    {
        let mut i: usize = 0;
        while i < self.signers.len()
            invariant
                0 <= i <= self.signers@.len(),
                forall|j: int| 0 <= j < i ==> self.signers@[j]@ != who@,
            decreases self.signers@.len() - i,
        {
            if self.signers[i] == *who {
                return true;
            }
            i += 1;
        }
        false
    }
}

} // verus!
