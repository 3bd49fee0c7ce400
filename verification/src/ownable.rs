use crate::address::{identity_of, Address};
use crate::auth::Authorization;
use vstd::prelude::*;

verus! {

/// Why the access gate turned an operation down.
#[derive(Clone, Copy, Debug, PartialEq, Eq)]
pub enum OwnableError {
    /// An administrator is already bound.
    OwnerAlreadySet,
    /// No administrator is bound.
    OwnerNotSet,
    /// The administrator has not consented to the invocation.
    Unauthorized,
}

/// The access gate: at most one administrator identity, and the check that
/// privileged operations run before anything else.
#[derive(Debug)]
pub struct Ownable {
    owner: Option<Address>,
}

impl View for Ownable {
    type V = Option<Seq<char>>;

    closed spec fn view(&self) -> Option<Seq<char>> {
        identity_of(self.owner)
    }
}

impl Ownable {
    /// What `enforce_owner_auth` answers at a gate bound to `owner` for an
    /// invocation that `signers` have consented to.
    pub open spec fn spec_enforce(owner: Option<Seq<char>>, signers: Set<Seq<char>>) -> Result<
        Seq<char>,
        OwnableError,
    > {
        match owner {
            None => Err(OwnableError::OwnerNotSet),
            Some(o) => if signers.contains(o) {
                Ok(o)
            } else {
                Err(OwnableError::Unauthorized)
            },
        }
    }

    /// A gate with no administrator.
    pub fn new() -> (g: Ownable)
        ensures
            g@ is None,
    {
        Ownable { owner: None }
    }

    /// Binds `owner` as the administrator. A gate is bound once: a second
    /// binding fails and leaves the first in place.
    pub fn set_owner(&mut self, owner: &Address) -> (r: Result<(), OwnableError>)
        ensures
            old(self)@ is None ==> r is Ok && final(self)@ == Some(owner@),
            old(self)@ is Some ==> r == Err::<(), OwnableError>(OwnableError::OwnerAlreadySet)
                && final(self)@ == old(self)@,
    {
        if self.owner.is_some() {
            return Err(OwnableError::OwnerAlreadySet);
        }
        self.owner = Some(owner.clone());
        Ok(())
    }

    /// The administrator, if one is bound.
    pub fn get_owner(&self) -> (o: Option<Address>)
        ensures
            identity_of(o) == self@,
    {
        match &self.owner {
            Some(a) => Some(a.clone()),
            None => None,
        }
    }

    /// Checks that an administrator is bound and has consented to the
    /// invocation, and returns it.
    pub fn enforce_owner_auth(&self, auth: &Authorization) -> (r: Result<Address, OwnableError>)
        ensures
            match r {
                Ok(a) => Ownable::spec_enforce(self@, auth@) == Ok::<Seq<char>, OwnableError>(a@),
                Err(e) => Ownable::spec_enforce(self@, auth@) == Err::<Seq<char>, OwnableError>(e),
            },
    {
        match &self.owner {
            None => Err(OwnableError::OwnerNotSet),
            Some(a) => {
                if auth.permits(a) {
                    Ok(a.clone())
                } else {
                    Err(OwnableError::Unauthorized)
                }
            },
        }
    }
}

} // verus!
