use capsules::encoding::{decode, encode, CommandWord};
use capsules::gpio_async::{Dispatch, GPIOAsync, InputMode, InterruptMode, PinOp};
use capsules::return_code::ReturnCode;
use capsules::upcall::{Callback, Upcall};

#[test]
fn enable_input_pull_up_on_port_two() {
    let g = GPIOAsync::new(3);
    assert_eq!(
        g.command(5, 0x00_0005_02),
        Dispatch::Port { port: 2, pin: 5, op: PinOp::MakeInput { pull: InputMode::PullUp } }
    );
    let small = GPIOAsync::new(2);
    assert_eq!(small.command(5, 0x00_0005_02), Dispatch::Reply { code: ReturnCode::EINVAL });
}

#[test]
fn input_config_out_of_range_is_invalid() {
    let g = GPIOAsync::new(3);
    assert_eq!(g.command(5, 0x0003_0501), Dispatch::Reply { code: ReturnCode::EINVAL });
    assert_eq!(g.command(7, 0x0003_0501), Dispatch::Reply { code: ReturnCode::EINVAL });
}

#[test]
fn config_uses_low_byte_of_extra() {
    let g = GPIOAsync::new(3);
    assert_eq!(
        g.command(5, 0x0101_0400),
        Dispatch::Port { port: 0, pin: 4, op: PinOp::MakeInput { pull: InputMode::PullDown } }
    );
    assert_eq!(
        g.command(7, 0x0002_0901),
        Dispatch::Port {
            port: 1,
            pin: 9,
            op: PinOp::EnableInterrupt { mode: InterruptMode::EitherEdge, context: 1 }
        }
    );
}

#[test]
fn every_port_command() {
    let g = GPIOAsync::new(2);
    let ops = [
        (1, PinOp::MakeOutput),
        (2, PinOp::SetPin),
        (3, PinOp::ClearPin),
        (4, PinOp::Toggle),
        (6, PinOp::Read),
        (8, PinOp::DisableInterrupt),
        (9, PinOp::Disable),
    ];
    for (n, op) in ops {
        assert_eq!(g.command(n, 0x0701), Dispatch::Port { port: 1, pin: 7, op });
    }
    assert_eq!(
        g.command(7, 0x0701),
        Dispatch::Port {
            port: 1,
            pin: 7,
            op: PinOp::EnableInterrupt { mode: InterruptMode::RisingEdge, context: 1 }
        }
    );
    assert_eq!(
        g.command(7, 0x0001_0701),
        Dispatch::Port {
            port: 1,
            pin: 7,
            op: PinOp::EnableInterrupt { mode: InterruptMode::FallingEdge, context: 1 }
        }
    );
    assert_eq!(
        g.command(5, 0x0002_0701),
        Dispatch::Port { port: 1, pin: 7, op: PinOp::MakeInput { pull: InputMode::PullNone } }
    );
}

#[test]
fn port_count_and_unsupported() {
    let g = GPIOAsync::new(4);
    assert_eq!(g.command(0, 0xFF), Dispatch::Reply { code: ReturnCode::SuccessWithValue { value: 4 } });
    assert_eq!(g.command(10, 0), Dispatch::Reply { code: ReturnCode::ENOSUPPORT });
    assert_eq!(g.command(10, 7), Dispatch::Reply { code: ReturnCode::EINVAL });
    assert_eq!(g.command(1, 4), Dispatch::Reply { code: ReturnCode::EINVAL });
    assert_eq!(g.num_ports(), 4);
}

#[test]
fn notifications_carry_their_tag() {
    let mut g = GPIOAsync::new(1);
    assert_eq!(g.fired(3), None);
    let cb = Callback { app_id: 2, token: 7 };
    assert_eq!(g.subscribe(1, cb), ReturnCode::ENOSUPPORT);
    assert_eq!(g.done(3), None);
    assert_eq!(g.subscribe(0, cb), ReturnCode::SUCCESS);
    assert_eq!(g.fired(3), Some(Upcall { callback: cb, r0: 1, r1: 3, r2: 0 }));
    assert_eq!(g.done(42), Some(Upcall { callback: cb, r0: 0, r1: 42, r2: 0 }));
    let later = Callback { app_id: 5, token: 8 };
    g.subscribe(0, later);
    assert_eq!(g.done(1), Some(Upcall { callback: later, r0: 0, r1: 1, r2: 0 }));
}

#[test]
fn direct_configuration_helpers() {
    let g = GPIOAsync::new(1);
    assert_eq!(g.configure_input_pin(0, 1, 3), Dispatch::Reply { code: ReturnCode::EINVAL });
    assert_eq!(g.configure_interrupt(0, 1, 9), Dispatch::Reply { code: ReturnCode::EINVAL });
    assert_eq!(
        g.configure_interrupt(0, 1, 0),
        Dispatch::Port {
            port: 0,
            pin: 1,
            op: PinOp::EnableInterrupt { mode: InterruptMode::RisingEdge, context: 0 }
        }
    );
}

#[test]
fn command_word_round_trip() {
    for data in [0usize, 0x00_0005_02, 0xFFFF_FFFF, 0x1234_5678, 0x0001_00FF] {
        let w = decode(data);
        assert_eq!(encode(w), data);
    }
    let w = CommandWord { port: 0xAB, pin: 0xCD, extra: 0xBEEF };
    assert_eq!(encode(w), 0xBEEF_CDAB);
    assert_eq!(decode(0xBEEF_CDAB), w);
}

#[test]
fn decode_ignores_high_bits() {
    if usize::BITS > 32 {
        let w = decode((1usize << 40) | 0x0102_0304);
        assert_eq!(w, CommandWord { port: 4, pin: 3, extra: 0x0102 });
    }
}
