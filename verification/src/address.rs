use vstd::prelude::*;
use vstd::std_specs::cmp::PartialEqSpecImpl;

verus! {

/// An identity on the ledger: an account or a deployed component, named by
/// its textual key. Two addresses are the same identity exactly when their
/// keys are the same text.
#[derive(Debug)]
pub struct Address {
    strkey: String,
}

impl View for Address {
    type V = Seq<char>;

    closed spec fn view(&self) -> Seq<char> {
        self.strkey@
    }
}

impl Address {
    /// The identity named by `strkey`.
    pub fn new(strkey: &str) -> (a: Address)
        ensures
            a@ == strkey@,
    {
        Address { strkey: strkey.to_owned() }
    }

    /// The textual key of this identity.
    pub fn as_str(&self) -> (s: &str)
        ensures
            s@ == self@,
    {
        self.strkey.as_str()
    }

}

/// The identity that an optional address names, if any.
pub open spec fn identity_of(who: Option<Address>) -> Option<Seq<char>> {
    match who {
        Some(a) => Some(a@),
        None => None,
    }
}

impl Clone for Address {
    fn clone(&self) -> (a: Address)
        ensures
            a@ == self@,
    {
        Address { strkey: self.strkey.clone() }
    }
}

impl PartialEq for Address {
    fn eq(&self, other: &Address) -> (b: bool) {
        self.strkey == other.strkey
    }
}

impl Eq for Address {}

impl PartialEqSpecImpl for Address {
    open spec fn obeys_eq_spec() -> bool {
        true
    }

    open spec fn eq_spec(&self, other: &Address) -> bool {
        self@ == other@
    }
}

} // verus!
