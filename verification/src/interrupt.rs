//! Critical sections
//!
//! A critical section masks the interrupts while a piece of code runs and
//! puts the mask back to what it was. Entering and leaving are two
//! decisions made here; reading PRIMASK and executing `cpsid` and `cpsie`
//! is left to the owner of the hardware, in this order: read PRIMASK,
//! [`enter`], carry out [`disable`], run the code, [`exit`], and carry out
//! [`enable`] if the answer is [`Restore::Unmask`].

use vstd::prelude::*;
use crate::backend::Backend;
use crate::emit::{emission, emit, Emission, Operation};
use crate::register::primask::Primask;

verus! {

/// Critical section token
///
/// Proof that the interrupts are masked. It is made on entry, remembers the
/// mask that the section found, and is used up on exit. It cannot be
/// copied.
#[derive(Debug)]
pub struct CriticalSection {
    prior: Primask,
}

/// What leaving a critical section does to the interrupt mask.
#[derive(Clone, Copy, Debug, PartialEq, Eq, Structural)]
pub enum Restore {
    /// The interrupts were active on entry: they are unmasked.
    Unmask,
    /// The interrupts were masked on entry: they stay masked.
    Keep,
}

/// What leaving a section that found the mask `prior` does.
pub open spec fn restore_of(prior: Primask) -> Restore {
    match prior {
        Primask::Active => Restore::Unmask,
        Primask::Inactive => Restore::Keep,
    }
}

impl CriticalSection {
    /// The interrupt mask that the section found on entry.
    pub closed spec fn prior(&self) -> Primask {
        self.prior
    }
}

/// How the interrupts are masked.
pub fn disable(backend: Backend) -> (e: Emission)
    ensures
        e == emission(backend, Operation::Cpsid),
{
    emit(backend, Operation::Cpsid)
}

/// How the interrupts are unmasked.
pub fn enable(backend: Backend) -> (e: Emission)
    ensures
        e == emission(backend, Operation::Cpsie),
{
    emit(backend, Operation::Cpsie)
}

/// Enters a critical section. `primask` is the register as read just
/// before; the interrupts are to be masked next, whatever it holds.
pub fn enter(primask: Primask) -> (cs: CriticalSection)
    ensures
        cs.prior() == primask,
{
    CriticalSection { prior: primask }
}

/// Leaves the critical section and says what becomes of the mask: the
/// interrupts are unmasked exactly if the section found them active.
pub fn exit(cs: CriticalSection) -> (restore: Restore)
    ensures
        restore == restore_of(cs.prior()),
        restore is Unmask <==> cs.prior() is Active,
{
    match cs.prior {
        Primask::Active => Restore::Unmask,
        Primask::Inactive => Restore::Keep,
    }
}

/// The interrupt mask of the core and the critical sections that are open.
pub struct Nesting {
    /// The mask as the core holds it.
    pub mask: Primask,
    /// The mask that each open section found, the innermost section last.
    pub open: Seq<Primask>,
    /// How often the interrupts were unmasked so far.
    pub unmasked: nat,
}

/// Entering or leaving a section.
pub enum Step {
    /// A section is entered.
    Enter,
    /// The innermost open section is left.
    Exit,
}

/// The core before any section is entered.
pub open spec fn outside(mask: Primask) -> Nesting {
    Nesting { mask, open: Seq::empty(), unmasked: 0 }
}

/// The state after a section is entered: the mask it found is noted, and
/// the interrupts are masked.
pub open spec fn entered(s: Nesting) -> Nesting {
    Nesting { mask: Primask::Inactive, open: s.open.push(s.mask), unmasked: s.unmasked }
}

/// The state after the innermost section is left: the interrupts are
/// unmasked if that section found them active, and left alone if not. With
/// no section open nothing happens.
pub open spec fn exited(s: Nesting) -> Nesting {
    if s.open.len() == 0 {
        s
    } else {
        match restore_of(s.open.last()) {
            Restore::Unmask => Nesting {
                mask: Primask::Active,
                open: s.open.drop_last(),
                unmasked: s.unmasked + 1,
            },
            Restore::Keep => Nesting {
                mask: s.mask,
                open: s.open.drop_last(),
                unmasked: s.unmasked,
            },
        }
    }
}

/// The state after one step.
pub open spec fn stepped(s: Nesting, step: Step) -> Nesting {
    match step {
        Step::Enter => entered(s),
        Step::Exit => exited(s),
    }
}

/// The state after the steps, taken in order.
pub open spec fn run(s: Nesting, steps: Seq<Step>) -> Nesting
    decreases steps.len(),
{
    if steps.len() == 0 {
        s
    } else {
        stepped(run(s, steps.drop_last()), steps.last())
    }
}

/// How many more sections the steps enter than they leave.
pub open spec fn depth(steps: Seq<Step>) -> int
    decreases steps.len(),
{
    if steps.len() == 0 {
        0
    } else {
        depth(steps.drop_last()) + match steps.last() {
            Step::Enter => 1int,
            Step::Exit => -1int,
        }
    }
}

/// Whether the steps are what runs inside one section: they leave only
/// sections that they entered, and leave every one of them.
pub open spec fn balanced(steps: Seq<Step>) -> bool {
    &&& depth(steps) == 0
    &&& forall|k: int| 0 <= k <= steps.len() ==> depth(#[trigger] steps.take(k)) >= 0
}

/// What holds at every point inside a section that was entered from
/// `outer`, after steps that went `level` sections deeper.
spec fn inside(s: Nesting, outer: Primask, level: int) -> bool {
    &&& s.mask is Inactive
    &&& s.unmasked == 0
    &&& s.open.len() == level + 1
    &&& s.open[0] == outer
    &&& forall|i: int| 1 <= i < s.open.len() ==> s.open[i] is Inactive
}

proof fn lemma_inside(outer: Primask, inner: Seq<Step>, k: int)
    requires
        0 <= k <= inner.len(),
        forall|j: int| 0 <= j <= inner.len() ==> depth(#[trigger] inner.take(j)) >= 0,
    ensures
        inside(run(entered(outside(outer)), inner.take(k)), outer, depth(inner.take(k))),
    decreases k,
{
    let start = entered(outside(outer));
    if k == 0 {
        assert(inner.take(0).len() == 0);
    } else {
        lemma_inside(outer, inner, k - 1);
        let now = inner.take(k);
        assert(now.drop_last() =~= inner.take(k - 1));
        assert(now.last() == inner[k - 1]);
        let before = run(start, inner.take(k - 1));
        assert(run(start, now) == stepped(before, inner[k - 1]));
        assert(depth(inner.take(k)) >= 0);
        match inner[k - 1] {
            Step::Enter => {},
            Step::Exit => {
                // The section that is left was entered inside: it found
                // the interrupts masked.
                assert(before.open.len() >= 2);
                assert(before.open.last() is Inactive);
            },
        }
    }
}

/// Nested critical sections restore the outer interrupt mask.
///
/// Take a section entered with the mask `outer`, and inside it any steps
/// that enter and leave further sections, each of them left again.
/// Then the interrupts are masked at every point inside, none of the inner
/// exits unmasks them, and the exit of the outer section brings the mask
/// back to `outer`: it unmasks once if `outer` was active and not at all
/// if it was not.
pub proof fn lemma_nesting_restores_outer(outer: Primask, inner: Seq<Step>)
    requires
        balanced(inner),
    ensures
        forall|k: int|
            0 <= k <= inner.len() ==> {
                let s = run(entered(outside(outer)), #[trigger] inner.take(k));
                s.mask is Inactive && s.unmasked == 0 && s.open.len() >= 1
            },
        exited(run(entered(outside(outer)), inner)).mask == outer,
        exited(run(entered(outside(outer)), inner)).open.len() == 0,
        exited(run(entered(outside(outer)), inner)).unmasked == if outer is Active {
            1nat
        } else {
            0nat
        },
{
    assert forall|k: int| 0 <= k <= inner.len() implies {
        let s = run(entered(outside(outer)), #[trigger] inner.take(k));
        s.mask is Inactive && s.unmasked == 0 && s.open.len() >= 1
    } by {
        lemma_inside(outer, inner, k);
        assert(depth(inner.take(k)) >= 0);
    }
    lemma_inside(outer, inner, inner.len() as int);
    assert(inner.take(inner.len() as int) =~= inner);
}

} // verus!
