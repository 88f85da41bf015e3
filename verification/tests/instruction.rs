use cortex_m::backend::Backend;
use cortex_m::emit::{emit, is_supported, Argument, Emission, Operation, Register, Routine};
use cortex_m::instruction;

const BACKENDS: [Backend; 3] =
    [Backend::NativeInline, Backend::ExternalRoutine, Backend::VerificationStub];

#[test]
fn delay_of_zero_runs_one_iteration() {
    assert_eq!(instruction::delay_iterations(0), 1);
    assert_eq!(
        instruction::delay(Backend::NativeInline, 0),
        Emission::Inline(Operation::BusyLoop(1))
    );
}

#[test]
fn delay_of_the_largest_count_does_not_wrap() {
    assert_eq!(instruction::delay_iterations(u32::MAX), 0x4000_0000);
    assert_eq!(
        instruction::delay(Backend::NativeInline, u32::MAX),
        Emission::Inline(Operation::BusyLoop(0x4000_0000))
    );
    assert_eq!(
        instruction::delay(Backend::ExternalRoutine, u32::MAX),
        Emission::Call(Routine::Delay, Argument::Word(0x4000_0000))
    );
}

#[test]
fn delay_iterations_are_a_quarter_and_one() {
    for (n, iterations) in
        [(1u32, 1u32), (3, 1), (4, 2), (7, 2), (8, 3), (100, 26), (1_000_003, 250_001)]
    {
        assert_eq!(instruction::delay_iterations(n), iterations);
        assert_eq!(
            instruction::delay(Backend::ExternalRoutine, n),
            Emission::Call(Routine::Delay, Argument::Word(iterations))
        );
        // Four cycles an iteration: never fewer than asked, at most four more.
        assert!(4 * u64::from(iterations) > u64::from(n));
        assert!(4 * u64::from(iterations) <= u64::from(n) + 4);
    }
}

#[test]
fn delay_under_the_stub_does_nothing() {
    for n in [0u32, 1, 4, u32::MAX] {
        assert_eq!(instruction::delay(Backend::VerificationStub, n), Emission::Skip);
    }
}

#[test]
fn bkpt_nr_takes_zero_to_thirty_two_everywhere() {
    for backend in BACKENDS {
        for nr in 0u8..=32 {
            assert!(is_supported(backend, Operation::BkptNr(nr)));
            let e = instruction::bkpt_nr(backend, nr);
            match backend {
                Backend::NativeInline => assert_eq!(e, Emission::Inline(Operation::BkptNr(nr))),
                Backend::ExternalRoutine => {
                    assert_eq!(e, Emission::Call(Routine::BkptNr, Argument::Byte(nr)))
                }
                Backend::VerificationStub => assert_eq!(e, Emission::Skip),
            }
        }
    }
}

#[test]
fn bkpt_nr_above_thirty_two_is_not_emitted_in_place() {
    for nr in [33u8, 34, 100, 255] {
        assert!(!is_supported(Backend::NativeInline, Operation::BkptNr(nr)));
        assert!(is_supported(Backend::ExternalRoutine, Operation::BkptNr(nr)));
        assert!(is_supported(Backend::VerificationStub, Operation::BkptNr(nr)));
        assert_eq!(
            instruction::bkpt_nr(Backend::ExternalRoutine, nr),
            Emission::Call(Routine::BkptNr, Argument::Byte(nr))
        );
        assert_eq!(instruction::bkpt_nr(Backend::VerificationStub, nr), Emission::Skip);
    }
}

#[test]
fn plain_instructions_emitted_in_place() {
    let b = Backend::NativeInline;
    assert_eq!(instruction::bkpt(b), Emission::Inline(Operation::Bkpt));
    assert_eq!(instruction::nop(b), Emission::Inline(Operation::Nop));
    assert_eq!(instruction::wfe(b), Emission::Inline(Operation::Wfe));
    assert_eq!(instruction::wfi(b), Emission::Inline(Operation::Wfi));
    assert_eq!(instruction::sev(b), Emission::Inline(Operation::Sev));
    assert_eq!(instruction::isb(b), Emission::Inline(Operation::Isb));
    assert_eq!(instruction::dsb(b), Emission::Inline(Operation::Dsb));
    assert_eq!(instruction::dmb(b), Emission::Inline(Operation::Dmb));
}

#[test]
fn plain_instructions_as_routines() {
    let b = Backend::ExternalRoutine;
    assert_eq!(instruction::bkpt(b), Emission::Call(Routine::Bkpt, Argument::Void));
    assert_eq!(instruction::nop(b), Emission::Call(Routine::Nop, Argument::Void));
    assert_eq!(instruction::wfe(b), Emission::Call(Routine::Wfe, Argument::Void));
    assert_eq!(instruction::wfi(b), Emission::Call(Routine::Wfi, Argument::Void));
    assert_eq!(instruction::sev(b), Emission::Call(Routine::Sev, Argument::Void));
    assert_eq!(instruction::isb(b), Emission::Call(Routine::Isb, Argument::Void));
    assert_eq!(instruction::dsb(b), Emission::Call(Routine::Dsb, Argument::Void));
    assert_eq!(instruction::dmb(b), Emission::Call(Routine::Dmb, Argument::Void));
}

#[test]
fn plain_instructions_under_the_stub() {
    let b = Backend::VerificationStub;
    for e in [
        instruction::bkpt(b),
        instruction::nop(b),
        instruction::wfe(b),
        instruction::wfi(b),
        instruction::sev(b),
        instruction::isb(b),
        instruction::dsb(b),
        instruction::dmb(b),
    ] {
        assert_eq!(e, Emission::Skip);
        assert!(!e.touches_hardware());
    }
}

#[test]
fn what_touches_the_hardware() {
    assert!(Emission::Inline(Operation::Nop).touches_hardware());
    assert!(Emission::InlineMasked(Operation::Nop).touches_hardware());
    assert!(Emission::Call(Routine::Nop, Argument::Void).touches_hardware());
    assert!(!Emission::Skip.touches_hardware());
    assert!(!Emission::Symbolic(Register::Msp).touches_hardware());
}

#[test]
fn routines_and_their_arguments() {
    assert_eq!(Operation::Read(Register::Pc).routine(), None);
    assert_eq!(Operation::Read(Register::Lr).routine(), None);
    assert_eq!(Operation::Write(Register::Pc, 0).routine(), None);
    assert_eq!(Operation::Write(Register::Lr, 0).routine(), None);
    assert_eq!(Operation::Write(Register::Primask, 0).routine(), None);
    assert_eq!(Operation::Read(Register::Basepri).routine(), Some(Routine::BasepriR));
    assert_eq!(Operation::Cpsid.routine(), Some(Routine::Cpsid));
    assert_eq!(Operation::Cpsie.routine(), Some(Routine::Cpsie));
    assert_eq!(Operation::Nop.argument(), Argument::Void);
    assert_eq!(Operation::Read(Register::Msp).argument(), Argument::Void);
    assert_eq!(Operation::BkptNr(7).argument(), Argument::Byte(7));
    assert_eq!(Operation::BusyLoop(9).argument(), Argument::Word(9));
    assert_eq!(Operation::Write(Register::Basepri, 0x80).argument(), Argument::Byte(0x80));
    assert_eq!(Operation::Write(Register::Msp, 0x2000_0000).argument(), Argument::Word(0x2000_0000));
    assert!(Register::Basepri.is_byte());
    assert!(!Register::Control.is_byte());
}

#[test]
fn what_each_backend_supports() {
    for backend in BACKENDS {
        assert!(!is_supported(backend, Operation::Write(Register::Primask, 0)));
        assert!(!is_supported(backend, Operation::Write(Register::Basepri, 0x100)));
        assert!(is_supported(backend, Operation::Write(Register::Basepri, 0xff)));
        assert!(is_supported(backend, Operation::Read(Register::Control)));
        assert!(is_supported(backend, Operation::Nop));
    }
    assert!(is_supported(Backend::NativeInline, Operation::Read(Register::Pc)));
    assert!(!is_supported(Backend::ExternalRoutine, Operation::Read(Register::Pc)));
    assert!(is_supported(Backend::VerificationStub, Operation::Read(Register::Pc)));
    assert!(is_supported(Backend::NativeInline, Operation::Write(Register::Lr, 1)));
    assert!(!is_supported(Backend::ExternalRoutine, Operation::Write(Register::Lr, 1)));
    assert!(!is_supported(Backend::VerificationStub, Operation::Write(Register::Lr, 1)));
    assert!(!is_supported(Backend::VerificationStub, Operation::Write(Register::Control, 1)));
    assert!(is_supported(Backend::VerificationStub, Operation::Write(Register::Msp, 1)));
}

#[test]
fn emit_follows_the_backend() {
    assert_eq!(emit(Backend::NativeInline, Operation::Cpsid), Emission::Inline(Operation::Cpsid));
    assert_eq!(
        emit(Backend::ExternalRoutine, Operation::Cpsie),
        Emission::Call(Routine::Cpsie, Argument::Void)
    );
    assert_eq!(emit(Backend::VerificationStub, Operation::Cpsid), Emission::Skip);
    assert_eq!(
        emit(Backend::VerificationStub, Operation::Read(Register::Psp)),
        Emission::Symbolic(Register::Psp)
    );
}

#[test]
fn what_each_routine_takes_and_returns() {
    assert!(Routine::Nop.accepts(Argument::Void));
    assert!(!Routine::Nop.accepts(Argument::Byte(0)));
    assert!(!Routine::Nop.accepts(Argument::Word(0)));
    assert!(Routine::BkptNr.accepts(Argument::Byte(32)));
    assert!(!Routine::BkptNr.accepts(Argument::Void));
    assert!(Routine::BasepriW.accepts(Argument::Byte(1)));
    assert!(Routine::BasepriWCm7R0p1.accepts(Argument::Byte(1)));
    assert!(!Routine::BasepriW.accepts(Argument::Word(1)));
    assert!(Routine::Delay.accepts(Argument::Word(1)));
    assert!(!Routine::Delay.accepts(Argument::Byte(1)));
    assert!(Routine::ControlW.accepts(Argument::Word(1)));
    assert!(Routine::MspW.accepts(Argument::Word(1)));
    assert!(Routine::PspW.accepts(Argument::Word(1)));
    assert!(Routine::ControlR.accepts(Argument::Void));
    for routine in
        [Routine::ControlR, Routine::Primask, Routine::BasepriR, Routine::MspR, Routine::PspR]
    {
        assert!(routine.returns_value());
    }
    for routine in [Routine::Nop, Routine::Delay, Routine::ControlW, Routine::Cpsid, Routine::Bkpt]
    {
        assert!(!routine.returns_value());
    }
}

#[test]
fn every_call_fits_its_routine() {
    let ops = [
        Operation::Bkpt,
        Operation::BkptNr(200),
        Operation::BusyLoop(3),
        Operation::Nop,
        Operation::Wfe,
        Operation::Wfi,
        Operation::Sev,
        Operation::Isb,
        Operation::Dsb,
        Operation::Dmb,
        Operation::Cpsid,
        Operation::Cpsie,
        Operation::Read(Register::Control),
        Operation::Read(Register::Primask),
        Operation::Read(Register::Basepri),
        Operation::Read(Register::Msp),
        Operation::Read(Register::Psp),
        Operation::Write(Register::Control, 3),
        Operation::Write(Register::Basepri, 0xf0),
        Operation::Write(Register::Msp, 0x2000_0000),
        Operation::Write(Register::Psp, 0x2000_0000),
    ];
    for op in ops {
        assert!(is_supported(Backend::ExternalRoutine, op));
        match emit(Backend::ExternalRoutine, op) {
            Emission::Call(routine, argument) => {
                assert!(routine.accepts(argument));
                assert_eq!(routine.returns_value(), matches!(op, Operation::Read(_)));
            }
            other => panic!("{:?} is no call", other),
        }
    }
}

#[test]
fn try_emit_refuses_what_the_backend_cannot_do() {
    assert_eq!(
        cortex_m::emit::try_emit(Backend::NativeInline, Operation::BkptNr(32)),
        Some(Emission::Inline(Operation::BkptNr(32)))
    );
    assert_eq!(cortex_m::emit::try_emit(Backend::NativeInline, Operation::BkptNr(33)), None);
    assert_eq!(
        cortex_m::emit::try_emit(Backend::ExternalRoutine, Operation::BkptNr(33)),
        Some(Emission::Call(Routine::BkptNr, Argument::Byte(33)))
    );
    assert_eq!(
        cortex_m::emit::try_emit(Backend::ExternalRoutine, Operation::Read(Register::Lr)),
        None
    );
    assert_eq!(
        cortex_m::emit::try_emit(Backend::VerificationStub, Operation::Write(Register::Pc, 0)),
        None
    );
    assert_eq!(
        cortex_m::emit::try_emit(Backend::VerificationStub, Operation::Write(Register::Psp, 0)),
        Some(Emission::Skip)
    );
    assert_eq!(
        cortex_m::emit::try_emit(Backend::NativeInline, Operation::Write(Register::Basepri, 256)),
        None
    );
}
