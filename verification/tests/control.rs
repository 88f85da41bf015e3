use cortex_m::backend::Backend;
use cortex_m::emit::{Argument, Emission, Operation, Register, Routine};
use cortex_m::register::control::{self, Control, Fpca, Npriv, Spsel};

#[test]
fn from_bits_keeps_every_bit() {
    for bits in [0u32, 1, 2, 4, 7, 0x8000_0000, 0xdead_beef, u32::MAX] {
        assert_eq!(Control::from_bits(bits).bits(), bits);
    }
}

#[test]
fn fields_are_decoded_from_their_bits() {
    let c = Control::from_bits(0);
    assert_eq!(c.npriv(), Npriv::Privileged);
    assert_eq!(c.spsel(), Spsel::Msp);
    assert_eq!(c.fpca(), Fpca::NotActive);

    let c = Control::from_bits(0b001);
    assert_eq!(c.npriv(), Npriv::Unprivileged);
    assert_eq!(c.spsel(), Spsel::Msp);
    assert_eq!(c.fpca(), Fpca::NotActive);

    let c = Control::from_bits(0b010);
    assert_eq!(c.npriv(), Npriv::Privileged);
    assert_eq!(c.spsel(), Spsel::Psp);
    assert_eq!(c.fpca(), Fpca::NotActive);

    let c = Control::from_bits(0b100);
    assert_eq!(c.npriv(), Npriv::Privileged);
    assert_eq!(c.spsel(), Spsel::Msp);
    assert_eq!(c.fpca(), Fpca::Active);

    let c = Control::from_bits(0xffff_fff8);
    assert_eq!(c.npriv(), Npriv::Privileged);
    assert_eq!(c.spsel(), Spsel::Msp);
    assert_eq!(c.fpca(), Fpca::NotActive);
}

#[test]
fn set_npriv_touches_bit_zero_only() {
    for bits in [0u32, 0b110, 0xffff_fff8, 0xffff_fffe, 0x1234_5670] {
        let mut c = Control::from_bits(bits);
        c.set_npriv(Npriv::Unprivileged);
        assert_eq!(c.bits(), bits | 0b001);
        c.set_npriv(Npriv::Privileged);
        assert_eq!(c.bits(), bits & !0b001);
    }
}

#[test]
fn set_spsel_touches_bit_one_only() {
    for bits in [0u32, 0b101, 0xffff_fff8, 0xffff_fffd, 0x1234_5675] {
        let mut c = Control::from_bits(bits);
        c.set_spsel(Spsel::Psp);
        assert_eq!(c.bits(), bits | 0b010);
        c.set_spsel(Spsel::Msp);
        assert_eq!(c.bits(), bits & !0b010);
    }
}

#[test]
fn set_fpca_touches_bit_two_only() {
    for bits in [0u32, 0b011, 0xffff_fff8, 0xffff_fffb, 0x1234_5673] {
        let mut c = Control::from_bits(bits);
        c.set_fpca(Fpca::Active);
        assert_eq!(c.bits(), bits | 0b100);
        c.set_fpca(Fpca::NotActive);
        assert_eq!(c.bits(), bits & !0b100);
    }
}

#[test]
fn reserved_bits_survive_every_setter() {
    let mut c = Control::from_bits(0xabcd_ef00);
    c.set_npriv(Npriv::Unprivileged);
    c.set_spsel(Spsel::Psp);
    c.set_fpca(Fpca::Active);
    assert_eq!(c.bits(), 0xabcd_ef07);
    c.set_npriv(Npriv::Privileged);
    c.set_spsel(Spsel::Msp);
    c.set_fpca(Fpca::NotActive);
    assert_eq!(c.bits(), 0xabcd_ef00);
}

#[test]
fn a_field_reads_back_as_set() {
    for bits in [0u32, 7, 0xffff_ffff, 0x8000_0002] {
        for npriv in [Npriv::Privileged, Npriv::Unprivileged] {
            let mut c = Control::from_bits(bits);
            c.set_npriv(npriv);
            assert_eq!(c.npriv(), npriv);
        }
        for spsel in [Spsel::Msp, Spsel::Psp] {
            let mut c = Control::from_bits(bits);
            c.set_spsel(spsel);
            assert_eq!(c.spsel(), spsel);
        }
        for fpca in [Fpca::Active, Fpca::NotActive] {
            let mut c = Control::from_bits(bits);
            c.set_fpca(fpca);
            assert_eq!(c.fpca(), fpca);
        }
    }
}

#[test]
fn writing_a_field_back_changes_nothing() {
    for bits in [0u32, 1, 2, 3, 4, 5, 6, 7, 0xffff_ffff, 0x8000_0002] {
        let mut c = Control::from_bits(bits);
        c.set_npriv(c.npriv());
        c.set_spsel(c.spsel());
        c.set_fpca(c.fpca());
        assert_eq!(c.bits(), bits);
    }
}

#[test]
fn set_fpca_twice_is_set_fpca_once() {
    for bits in [0u32, 0b100, 0b011, 0xffff_fffb, 0xffff_ffff] {
        let mut once = Control::from_bits(bits);
        once.set_fpca(Fpca::Active);
        let mut twice = Control::from_bits(bits);
        twice.set_fpca(Fpca::Active);
        twice.set_fpca(Fpca::Active);
        assert_eq!(twice.bits(), once.bits());
        assert_eq!(twice.bits(), bits | 0b100);
        assert_eq!(Control::from_bits(twice.bits()).fpca(), Fpca::Active);
    }
}

#[test]
fn setters_are_idempotent() {
    for bits in [0u32, 7, 0x5555_5555, 0xaaaa_aaaa] {
        for npriv in [Npriv::Privileged, Npriv::Unprivileged] {
            let mut once = Control::from_bits(bits);
            once.set_npriv(npriv);
            let mut twice = Control::from_bits(once.bits());
            twice.set_npriv(npriv);
            assert_eq!(twice.bits(), once.bits());
        }
        for spsel in [Spsel::Msp, Spsel::Psp] {
            let mut once = Control::from_bits(bits);
            once.set_spsel(spsel);
            let mut twice = Control::from_bits(once.bits());
            twice.set_spsel(spsel);
            assert_eq!(twice.bits(), once.bits());
        }
    }
}

#[test]
fn enum_predicates() {
    assert!(Npriv::Privileged.is_privileged());
    assert!(!Npriv::Privileged.is_unprivileged());
    assert!(Npriv::Unprivileged.is_unprivileged());
    assert!(!Npriv::Unprivileged.is_privileged());
    assert!(Spsel::Msp.is_msp());
    assert!(!Spsel::Msp.is_psp());
    assert!(Spsel::Psp.is_psp());
    assert!(!Spsel::Psp.is_msp());
    assert!(Fpca::Active.is_active());
    assert!(!Fpca::Active.is_not_active());
    assert!(Fpca::NotActive.is_not_active());
    assert!(!Fpca::NotActive.is_active());
}

#[test]
fn control_read_under_each_backend() {
    assert_eq!(
        control::read(Backend::NativeInline),
        Emission::Inline(Operation::Read(Register::Control))
    );
    assert_eq!(
        control::read(Backend::ExternalRoutine),
        Emission::Call(Routine::ControlR, Argument::Void)
    );
    assert_eq!(control::read(Backend::VerificationStub), Emission::Symbolic(Register::Control));
}

#[test]
fn control_write_carries_the_whole_word() {
    let mut c = Control::from_bits(0xffff_fff8);
    c.set_spsel(Spsel::Psp);
    assert_eq!(
        control::write(Backend::NativeInline, c),
        Emission::Inline(Operation::Write(Register::Control, 0xffff_fffa))
    );
    assert_eq!(
        control::write(Backend::ExternalRoutine, c),
        Emission::Call(Routine::ControlW, Argument::Word(0xffff_fffa))
    );
}
