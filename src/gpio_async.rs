//! A driver interface for asynchronous GPIO pins, such as those of a GPIO
//! extender: one subscriber, commands packed in one word, and each command
//! forwarded to the indexed port.
use vstd::prelude::*;
use crate::encoding::{decode, decode_spec};
use crate::return_code::ReturnCode;
use crate::upcall::{schedule, schedule_spec, Callback, Upcall};

verus! {

/// Pull resistor of an input pin.
#[derive(Clone, Copy, Debug, PartialEq, Eq, Structural)]
pub enum InputMode {
    PullUp,
    PullDown,
    PullNone,
}

/// Edge on which a pin interrupt fires.
#[derive(Clone, Copy, Debug, PartialEq, Eq, Structural)]
pub enum InterruptMode {
    RisingEdge,
    FallingEdge,
    EitherEdge,
}

/// An operation on one pin of a port.
#[derive(Clone, Copy, Debug, PartialEq, Eq, Structural)]
pub enum PinOp {
    MakeOutput,
    SetPin,
    ClearPin,
    Toggle,
    MakeInput { pull: InputMode },
    Read,
    /// `context` is echoed back by the port when the interrupt fires.
    EnableInterrupt { mode: InterruptMode, context: usize },
    DisableInterrupt,
    Disable,
}

/// What a command asks for: an immediate answer, or an operation that the
/// indexed port performs and whose result is the command's answer.
#[derive(Clone, Copy, Debug, PartialEq, Eq, Structural)]
pub enum Dispatch {
    Reply { code: ReturnCode },
    Port { port: usize, pin: usize, op: PinOp },
}

/// The input mode for a configuration value, if it is one.
pub open spec fn input_mode_spec(config: usize) -> Option<InputMode> {
    if config == 0 {
        Some(InputMode::PullUp)
    } else if config == 1 {
        Some(InputMode::PullDown)
    } else if config == 2 {
        Some(InputMode::PullNone)
    } else {
        None
    }
}

/// The interrupt mode for a configuration value, if it is one.
pub open spec fn interrupt_mode_spec(config: usize) -> Option<InterruptMode> {
    if config == 0 {
        Some(InterruptMode::RisingEdge)
    } else if config == 1 {
        Some(InterruptMode::FallingEdge)
    } else if config == 2 {
        Some(InterruptMode::EitherEdge)
    } else {
        None
    }
}

/// The pin operation of a command number on a decoded word, for the
/// commands that address a port; `None` where the configuration is invalid.
pub open spec fn pin_op_spec(command_num: usize, port: usize, extra: usize) -> Option<PinOp> {
    let config = (extra % 0x100) as usize;
    if command_num == 1 {
        Some(PinOp::MakeOutput)
    } else if command_num == 2 {
        Some(PinOp::SetPin)
    } else if command_num == 3 {
        Some(PinOp::ClearPin)
    } else if command_num == 4 {
        Some(PinOp::Toggle)
    } else if command_num == 5 {
        match input_mode_spec(config) {
            Some(mode) => Some(PinOp::MakeInput { pull: mode }),
            None => None,
        }
    } else if command_num == 6 {
        Some(PinOp::Read)
    } else if command_num == 7 {
        match interrupt_mode_spec(config) {
            Some(mode) => Some(PinOp::EnableInterrupt { mode, context: port }),
            None => None,
        }
    } else if command_num == 8 {
        Some(PinOp::DisableInterrupt)
    } else {
        Some(PinOp::Disable)
    }
}

/// What `command` decides, given the number of ports.
pub open spec fn command_spec(num_ports: usize, command_num: usize, data: usize) -> Dispatch {
    let w = decode_spec(data as nat);
    if command_num == 0 {
        Dispatch::Reply { code: ReturnCode::SuccessWithValue { value: num_ports } }
    } else if w.port >= num_ports {
        Dispatch::Reply { code: ReturnCode::EINVAL }
    } else if command_num > 9 {
        Dispatch::Reply { code: ReturnCode::ENOSUPPORT }
    } else {
        match pin_op_spec(command_num, w.port, w.extra) {
            Some(op) => Dispatch::Port { port: w.port, pin: w.pin, op },
            None => Dispatch::Reply { code: ReturnCode::EINVAL },
        }
    }
}

/// Multiplexes a fixed set of asynchronous GPIO ports for user processes.
/// The last process to subscribe receives every notification.
pub struct GPIOAsync {
    num_ports: usize,
    callback: Option<Callback>,
}

impl GPIOAsync {
    pub closed spec fn num_ports_spec(&self) -> usize {
        self.num_ports
    }

    pub closed spec fn callback_spec(&self) -> Option<Callback> {
        self.callback
    }

    /// A multiplexer over `num_ports` ports, with no subscriber.
    pub fn new(num_ports: usize) -> (r: GPIOAsync)
        ensures
            r.num_ports_spec() == num_ports,
            r.callback_spec() is None,
    {
        GPIOAsync { num_ports, callback: None }
    }

    /// The number of ports.
    pub fn num_ports(&self) -> (r: usize)
        ensures
            r == self.num_ports_spec(),
    {
        self.num_ports
    }

    /// Enables input on a pin with the pull mode that `config` names
    /// (0 pull-up, 1 pull-down, 2 none); any other value is invalid.
    pub fn configure_input_pin(&self, port: usize, pin: usize, config: usize) -> (r: Dispatch)
        ensures
            r == (match input_mode_spec(config) {
                Some(mode) => Dispatch::Port { port, pin, op: PinOp::MakeInput { pull: mode } },
                None => Dispatch::Reply { code: ReturnCode::EINVAL },
            }),
    {
        if config > 2 {
            return Dispatch::Reply { code: ReturnCode::EINVAL };
        }
        let mode = match config {
            0 => InputMode::PullUp,
            1 => InputMode::PullDown,
            _ => InputMode::PullNone,
        };
        Dispatch::Port { port, pin, op: PinOp::MakeInput { pull: mode } }
    }

    /// Enables an interrupt on a pin on the edge that `config` names
    /// (0 rising, 1 falling, 2 either); any other value is invalid. The port
    /// index is handed to the port as the context that the interrupt echoes.
    pub fn configure_interrupt(&self, port: usize, pin: usize, config: usize) -> (r: Dispatch)
        ensures
            r == (match interrupt_mode_spec(config) {
                Some(mode) => Dispatch::Port {
                    port,
                    pin,
                    op: PinOp::EnableInterrupt { mode, context: port },
                },
                None => Dispatch::Reply { code: ReturnCode::EINVAL },
            }),
    {
        if config > 2 {
            return Dispatch::Reply { code: ReturnCode::EINVAL };
        }
        let mode = match config {
            0 => InterruptMode::RisingEdge,
            1 => InterruptMode::FallingEdge,
            _ => InterruptMode::EitherEdge,
        };
        Dispatch::Port { port, pin, op: PinOp::EnableInterrupt { mode, context: port } }
    }

    /// Binds the notification target; only subscription 0 exists, and a new
    /// binding replaces the previous one.
    pub fn subscribe(&mut self, subscribe_num: usize, callback: Callback) -> (r: ReturnCode)
        ensures
            final(self).num_ports_spec() == old(self).num_ports_spec(),
            subscribe_num == 0 ==> r == ReturnCode::SUCCESS && final(self).callback_spec()
                == Some(callback),
            subscribe_num != 0 ==> r == ReturnCode::ENOSUPPORT && final(self).callback_spec()
                == old(self).callback_spec(),
    {
        match subscribe_num {
            0 => {
                self.callback = Some(callback);
                ReturnCode::SUCCESS
            },
            _ => ReturnCode::ENOSUPPORT,
        }
    }

    /// Decodes a command word and decides the command: 0 reports the number
    /// of ports; 1 to 9 address the port in bits 7..0 and the pin in bits
    /// 15..8, with the configuration of 5 and 7 in the low byte of bits
    /// 31..16; other numbers are unsupported. A port out of range is invalid
    /// for every command but 0.
    pub fn command(&self, command_num: usize, data: usize) -> (r: Dispatch)
        ensures
            r == command_spec(self.num_ports_spec(), command_num, data),
    {
        let w = decode(data);
        let port = w.port;
        let pin = w.pin;
        let other = w.extra;
        if command_num != 0 && port >= self.num_ports {
            return Dispatch::Reply { code: ReturnCode::EINVAL };
        }
        assert((other & 0xFF) == other % 0x100) by (bit_vector);
        match command_num {
            0 => Dispatch::Reply { code: ReturnCode::SuccessWithValue { value: self.num_ports } },
            1 => Dispatch::Port { port, pin, op: PinOp::MakeOutput },
            2 => Dispatch::Port { port, pin, op: PinOp::SetPin },
            3 => Dispatch::Port { port, pin, op: PinOp::ClearPin },
            4 => Dispatch::Port { port, pin, op: PinOp::Toggle },
            5 => self.configure_input_pin(port, pin, other & 0xFF),
            6 => Dispatch::Port { port, pin, op: PinOp::Read },
            7 => self.configure_interrupt(port, pin, other & 0xFF),
            8 => Dispatch::Port { port, pin, op: PinOp::DisableInterrupt },
            9 => Dispatch::Port { port, pin, op: PinOp::Disable },
            _ => Dispatch::Reply { code: ReturnCode::ENOSUPPORT },
        }
    }

    /// An interrupt fired on a pin: notifies the subscriber with tag 1 and
    /// the context the port echoed.
    pub fn fired(&self, port_pin_num: usize) -> (r: Option<Upcall>)
        ensures
            r == schedule_spec(self.callback_spec(), 1, port_pin_num, 0),
    {
        schedule(self.callback, 1, port_pin_num, 0)
    }

    /// An operation completed: notifies the subscriber with tag 0 and the
    /// value.
    pub fn done(&self, value: usize) -> (r: Option<Upcall>)
        ensures
            r == schedule_spec(self.callback_spec(), 0, value, 0),
    {
        schedule(self.callback, 0, value, 0)
    }
}

} // verus!
