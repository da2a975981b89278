//! The preflight checklist (before launch) and the orbit checklist (before
//! the TLI burn): the crew may go on only once every item is checked.
use vstd::prelude::*;

verus! {

/// Number of items of the preflight checklist.
pub const PREFLIGHT_ITEMS: usize = 10;

/// Number of items of the orbit checklist.
pub const ORBIT_ITEMS: usize = 12;

/// Whether every entry of `s` is set.
pub open spec fn all_set(s: Seq<bool>) -> bool {
    forall|i: int| 0 <= i < s.len() ==> s[i]
}

/// Whether no entry of `s` is set.
pub open spec fn none_set(s: Seq<bool>) -> bool {
    forall|i: int| 0 <= i < s.len() ==> !s[i]
}

fn all_true(s: &[bool]) -> (r: bool)
    ensures
        r == all_set(s@),
{
    let n = s.len();
    let mut i: usize = 0;
    while i < n
        invariant
            n == s@.len(),
            i <= n,
            forall|j: int| 0 <= j < i ==> s@[j],
        decreases n - i,
    {
        if !s[i] {
            return false;
        }
        i = i + 1;
    }
    true
}

/// The systems checked before launch (ECLSS, EPS, GNC, comms, RCS, ICPS, core
/// stage, SRBs, launch abort, FTS), in display order.
pub struct PreflightChecklist {
    pub states: [bool; PREFLIGHT_ITEMS],
}

impl Default for PreflightChecklist {
    fn default() -> (c: Self)
        ensures
            none_set(c.states@),
    {
        let c = PreflightChecklist { states: [false; 10] };
        assert(none_set(c.states@));
        c
    }
}

impl PreflightChecklist {
    /// Whether every item is checked, which enables the GO button.
    pub fn all_ok(&self) -> (r: bool)
        ensures
            r == all_set(self.states@),
    {
        all_true(self.states.as_slice())
    }
}

/// The systems checked in orbit before the TLI burn, in display order.
pub struct OrbitChecklist {
    pub states: [bool; ORBIT_ITEMS],
}

impl Default for OrbitChecklist {
    fn default() -> (c: Self)
        ensures
            none_set(c.states@),
    {
        let c = OrbitChecklist { states: [false; 12] };
        assert(none_set(c.states@));
        c
    }
}

impl OrbitChecklist {
    /// Whether every item is checked, which enables the GO for TLI.
    pub fn all_ok(&self) -> (r: bool)
        ensures
            r == all_set(self.states@),
    {
        all_true(self.states.as_slice())
    }
}

/// Law: a fresh checklist never allows GO, since it has at least one
/// unchecked item.
pub proof fn lemma_fresh_checklist_not_ready(s: Seq<bool>)
    requires
        s.len() > 0,
        none_set(s),
    ensures
        !all_set(s),
{
    assert(!s[0]);
}

} // verus!
