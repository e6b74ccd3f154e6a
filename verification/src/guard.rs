//! The synchronization guards: three mutual-exclusion domains, each held by
//! at most one caller at a time, kept by one coordinator that is handed to
//! whoever needs a domain.

use vstd::prelude::*;

verus! {

/// A named mutual-exclusion region: each serialises one class of automation
/// operations, and the three protect disjoint resources.
#[derive(Clone, Copy, Debug, PartialEq, Eq, Structural)]
pub enum GuardDomain {
    SelectAll,
    InputNavigation,
    CopyPaste,
}

/// Who holds which domain: a domain that is absent is free.
pub type Holders = Map<GuardDomain, u64>;

/// Whether `caller` may take `domain`: only when nobody holds it.
pub open spec fn grants(holders: Holders, domain: GuardDomain) -> bool {
    !holders.contains_key(domain)
}

/// The holders after `caller` asked for `domain`: it is theirs when it was
/// free, and nothing changes when it was not.
pub open spec fn acquired(holders: Holders, domain: GuardDomain, caller: u64) -> Holders {
    if grants(holders, domain) {
        holders.insert(domain, caller)
    } else {
        holders
    }
}

/// Whether `caller` holds `domain`.
pub open spec fn holds(holders: Holders, domain: GuardDomain, caller: u64) -> bool {
    holders.contains_key(domain) && holders[domain] == caller
}

/// The holders after `caller` gave `domain` back: it is free when it was
/// theirs, and nothing changes when it was not.
pub open spec fn released(holders: Holders, domain: GuardDomain, caller: u64) -> Holders {
    if holds(holders, domain, caller) {
        holders.remove(domain)
    } else {
        holders
    }
}

/// The coordinator of the guard domains.
#[derive(Debug)]
pub struct Coordinator {
    select_all: Option<u64>,
    input_navigation: Option<u64>,
    copy_paste: Option<u64>,
}

impl Coordinator {
    /// The holder of `domain` as the coordinator stores it.
    closed spec fn slot(&self, domain: GuardDomain) -> Option<u64> {
        match domain {
            GuardDomain::SelectAll => self.select_all,
            GuardDomain::InputNavigation => self.input_navigation,
            GuardDomain::CopyPaste => self.copy_paste,
        }
    }

    /// A coordinator with every domain free.
    pub fn new() -> (coordinator: Coordinator)
        ensures
            coordinator@ == Map::<GuardDomain, u64>::empty(),
    {
        let coordinator = Coordinator {
            select_all: None,
            input_navigation: None,
            copy_paste: None,
        };
        assert(coordinator@ =~= Map::<GuardDomain, u64>::empty());
        coordinator
    }

    /// Who holds `domain`, if anyone.
    pub fn holder(&self, domain: GuardDomain) -> (holder: Option<u64>)
        ensures
            holder is Some <==> self@.contains_key(domain),
            holder is Some ==> holder->0 == self@[domain],
    {
        match domain {
            GuardDomain::SelectAll => self.select_all,
            GuardDomain::InputNavigation => self.input_navigation,
            GuardDomain::CopyPaste => self.copy_paste,
        }
    }

    /// Takes `domain` for `caller` if it is free, and says whether it did.
    pub fn try_acquire(&mut self, domain: GuardDomain, caller: u64) -> (granted: bool)
        ensures
            granted == grants(old(self)@, domain),
            final(self)@ == acquired(old(self)@, domain, caller),
    {
        let free = self.holder(domain).is_none();
        if free {
            match domain {
                GuardDomain::SelectAll => {
                    self.select_all = Some(caller);
                },
                GuardDomain::InputNavigation => {
                    self.input_navigation = Some(caller);
                },
                GuardDomain::CopyPaste => {
                    self.copy_paste = Some(caller);
                },
            }
            assert(final(self)@ =~= old(self)@.insert(domain, caller));
        }
        free
    }

    /// Gives `domain` back if `caller` holds it, and says whether it did.
    pub fn release(&mut self, domain: GuardDomain, caller: u64) -> (given_back: bool)
        ensures
            given_back == holds(old(self)@, domain, caller),
            final(self)@ == released(old(self)@, domain, caller),
    {
        let theirs = match self.holder(domain) {
            Some(holder) => holder == caller,
            None => false,
        };
        if theirs {
            match domain {
                GuardDomain::SelectAll => {
                    self.select_all = None;
                },
                GuardDomain::InputNavigation => {
                    self.input_navigation = None;
                },
                GuardDomain::CopyPaste => {
                    self.copy_paste = None;
                },
            }
            assert(final(self)@ =~= old(self)@.remove(domain));
        }
        theirs
    }
}

impl View for Coordinator {
    type V = Holders;

    closed spec fn view(&self) -> Holders {
        Map::new(|d: GuardDomain| self.slot(d) is Some, |d: GuardDomain| self.slot(d)->0)
    }
}

/// The domains are disjoint: taking or giving back one leaves the holder of
/// every other as it was.
pub proof fn lemma_domains_disjoint(
    holders: Holders,
    domain: GuardDomain,
    other: GuardDomain,
    caller: u64,
)
    requires
        domain != other,
    ensures
        acquired(holders, domain, caller).contains_key(other) == holders.contains_key(other),
        released(holders, domain, caller).contains_key(other) == holders.contains_key(other),
        holders.contains_key(other) ==> acquired(holders, domain, caller)[other]
            == holders[other] && released(holders, domain, caller)[other] == holders[other],
{
}

/// A caller never waits for a domain because another domain is held: whether
/// a domain is granted depends on that domain alone.
pub proof fn lemma_no_waiting_across_domains(
    holders: Holders,
    held: GuardDomain,
    wanted: GuardDomain,
    caller: u64,
)
    requires
        held != wanted,
    ensures
        grants(acquired(holders, held, caller), wanted) == grants(holders, wanted),
{
}

/// A domain that was granted is held until it is given back, and nobody else
/// is granted it meanwhile.
pub proof fn lemma_held_excludes(holders: Holders, domain: GuardDomain, caller: u64, other: u64)
    requires
        grants(holders, domain),
    ensures
        holds(acquired(holders, domain, caller), domain, caller),
        !grants(acquired(holders, domain, caller), domain),
        acquired(acquired(holders, domain, caller), domain, other) == acquired(
            holders,
            domain,
            caller,
        ),
        grants(released(acquired(holders, domain, caller), domain, caller), domain),
{
}

} // verus!
