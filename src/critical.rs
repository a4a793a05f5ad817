//! Critical sections: masking the processor's global interrupt enable for a
//! region of code, and restoring exactly the state it had before.
use vstd::prelude::*;

verus! {

/// The interrupt-enable state after entering a critical section from state `enabled`.
pub open spec fn enabled_after_enter(enabled: bool) -> bool {
    false
}

/// The interrupt-enable state after leaving a critical section whose entry found `prior`.
pub open spec fn enabled_after_exit(enabled: bool, prior: bool) -> bool {
    prior
}

/// The interrupt-enable state after `k` nested entries starting from `enabled`.
pub open spec fn entered(enabled: bool, k: nat) -> bool
    decreases k,
{
    if k == 0 {
        enabled
    } else {
        enabled_after_enter(entered(enabled, (k - 1) as nat))
    }
}

/// After `n` nested entries from `enabled`, the state once the `j` innermost
/// sections have been left, each with the token its own entry returned.
pub open spec fn unwound(enabled: bool, n: nat, j: nat) -> bool
    decreases j,
{
    if j == 0 {
        entered(enabled, n)
    } else {
        enabled_after_exit(unwound(enabled, n, (j - 1) as nat), entered(enabled, (n - j) as nat))
    }
}

/// Entering `n` nested critical sections and leaving them in the reverse order
/// gives back the interrupt-enable state found before the first entry, and
/// interrupts stay masked as long as any of the sections is still open.
pub proof fn lemma_nested_sections_restore(enabled: bool, n: nat)
    requires
        n >= 1,
    ensures
        unwound(enabled, n, n) == enabled,
        forall|j: nat| j < n ==> !#[trigger] unwound(enabled, n, j),
{
    assert forall|j: nat| j < n implies !#[trigger] unwound(enabled, n, j) by {
        lemma_unwound_masked(enabled, n, j);
    }
    assert(entered(enabled, 0) == enabled);
}

proof fn lemma_unwound_masked(enabled: bool, n: nat, j: nat)
    requires
        j < n,
    ensures
        !unwound(enabled, n, j),
    decreases j,
{
    if j > 0 {
        lemma_unwound_masked(enabled, n, (j - 1) as nat);
    }
}

/// The processor's global interrupt-enable flag.
pub struct Interrupts {
    enabled: bool,
}

/// Proof that interrupts are masked: returned on entry to a critical section
/// and handed back on exit. It records the state the entry found.
pub struct CriticalSection {
    prior: bool,
}

impl CriticalSection {
    /// The interrupt-enable state found by the entry that made this token.
    pub closed spec fn prior(&self) -> bool {
        self.prior
    }

    pub fn was_enabled(&self) -> (r: bool)
        ensures
            r == self.prior(),
    {
        self.prior
    }
}

impl Interrupts {
    /// Whether interrupts are enabled.
    pub closed spec fn view(&self) -> bool {
        self.enabled
    }

    pub fn new(enabled: bool) -> (r: Interrupts)
        ensures
            r@ == enabled,
    {
        Interrupts { enabled }
    }

    pub fn is_enabled(&self) -> (r: bool)
        ensures
            r == self@,
    {
        self.enabled
    }

    /// Masks interrupts and returns a token holding the state found.
    pub fn enter(&mut self) -> (cs: CriticalSection)
        ensures
            final(self)@ == enabled_after_enter(old(self)@),
            cs.prior() == old(self)@,
    {
        let cs = CriticalSection { prior: self.enabled };
        self.enabled = false;
        cs
    }

    /// Restores the state that the entry which made `cs` found.
    pub fn exit(&mut self, cs: CriticalSection)
        ensures
            final(self)@ == enabled_after_exit(old(self)@, cs.prior()),
    {
        self.enabled = cs.prior;
    }

    /// Runs `f` inside a critical section and restores the interrupt-enable
    /// state afterwards.
    pub fn free<T, F: FnOnce(&CriticalSection) -> T>(&mut self, f: F) -> (r: T)
        requires
            forall|cs: CriticalSection| cs.prior() == old(self)@ ==> f.requires((&cs,)),
        ensures
            final(self)@ == old(self)@,
            exists|cs: CriticalSection| cs.prior() == old(self)@ && f.ensures((&cs,), r),
    {
        let cs = self.enter();
        let r = f(&cs);
        self.exit(cs);
        r
    }
}

} // verus!
