use cortex_m::backend::Backend;
use cortex_m::emit::{Argument, Emission, Operation, Routine};
use cortex_m::interrupt::{self, Restore};
use cortex_m::register::primask::Primask;

#[test]
fn a_section_entered_with_interrupts_active_unmasks_on_exit() {
    let cs = interrupt::enter(Primask::Active);
    assert_eq!(interrupt::exit(cs), Restore::Unmask);
}

#[test]
fn a_section_entered_with_interrupts_masked_keeps_them_masked() {
    let cs = interrupt::enter(Primask::Inactive);
    assert_eq!(interrupt::exit(cs), Restore::Keep);
}

/// Runs `depth` sections inside each other on a mask kept by hand, and
/// counts how often it is unmasked.
fn nest(mask: &mut Primask, depth: u32, unmasked: &mut u32) {
    if depth == 0 {
        assert_eq!(*mask, Primask::Inactive);
        return;
    }
    let cs = interrupt::enter(*mask);
    *mask = Primask::Inactive;
    nest(mask, depth - 1, unmasked);
    assert_eq!(*mask, Primask::Inactive);
    match interrupt::exit(cs) {
        Restore::Unmask => {
            *mask = Primask::Active;
            *unmasked += 1;
        }
        Restore::Keep => {}
    }
}

#[test]
fn nested_sections_unmask_once_at_the_outermost_exit() {
    for depth in 1u32..=5 {
        let mut mask = Primask::Active;
        let mut unmasked = 0;
        nest(&mut mask, depth, &mut unmasked);
        assert_eq!(mask, Primask::Active);
        assert_eq!(unmasked, 1);
    }
}

#[test]
fn nested_sections_entered_masked_never_unmask() {
    for depth in 1u32..=5 {
        let mut mask = Primask::Inactive;
        let mut unmasked = 0;
        nest(&mut mask, depth, &mut unmasked);
        assert_eq!(mask, Primask::Inactive);
        assert_eq!(unmasked, 0);
    }
}

#[test]
fn masking_and_unmasking_under_each_backend() {
    assert_eq!(interrupt::disable(Backend::NativeInline), Emission::Inline(Operation::Cpsid));
    assert_eq!(
        interrupt::disable(Backend::ExternalRoutine),
        Emission::Call(Routine::Cpsid, Argument::Void)
    );
    assert_eq!(interrupt::disable(Backend::VerificationStub), Emission::Skip);
    assert_eq!(interrupt::enable(Backend::NativeInline), Emission::Inline(Operation::Cpsie));
    assert_eq!(
        interrupt::enable(Backend::ExternalRoutine),
        Emission::Call(Routine::Cpsie, Argument::Void)
    );
    assert_eq!(interrupt::enable(Backend::VerificationStub), Emission::Skip);
}
