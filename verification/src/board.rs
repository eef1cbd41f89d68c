//! The board around the chip: what each configurable pin does, and the
//! reference crystal.

use crate::registers::{Operation, Register, Registers};
use vstd::prelude::*;

verus! {

/// What drives the chip's reference input.
#[derive(Clone, Copy, Debug, PartialEq, Eq, Structural)]
pub enum XtalKind {
    /// A bare crystal on the chip's own oscillator.
    XO,
    /// A temperature-compensated oscillator feeding a clipped sine wave.
    TCXO,
}

/// The reference crystal. Its frequency is fixed when the board is built.
#[derive(Clone, Copy, Debug, PartialEq, Eq, Structural)]
pub struct Xtal {
    pub kind: XtalKind,
    /// Frequency in hertz.
    pub freq: u32,
}

/// Above this reference frequency the chip halves the clock it feeds to the
/// receiver chain.
pub const XTAL_DIVIDE_ABOVE: u32 = 24_800_000;

impl Xtal {
    /// The divider between the reference and the receiver clock: 1 or 2.
    pub open spec fn divider(self) -> int {
        if self.freq < XTAL_DIVIDE_ABOVE {
            1
        } else {
            2
        }
    }

    /// Computes `divider`.
    pub fn div(&self) -> (d: u8)
        ensures
            d == self.divider(),
            d == 1 || d == 2,
    {
        if self.freq < XTAL_DIVIDE_ABOVE {
            1
        } else {
            2
        }
    }

    /// Drive strength code for the oscillator.
    pub open spec fn amplitude_code(self) -> int {
        match self.kind {
            XtalKind::TCXO => 0x04,
            XtalKind::XO => if self.freq > 43_000_000 {
                0x0D
            } else {
                0x03
            },
        }
    }

    /// Bias code for the oscillator: off for an external oscillator.
    pub open spec fn bias_code(self) -> int {
        match self.kind {
            XtalKind::TCXO => 0x00,
            XtalKind::XO => 0x07,
        }
    }

    /// Code that tells the chip which divider is in force.
    pub open spec fn divider_code(self) -> int {
        0x0F + self.divider()
    }
}

/// Which voltage-controlled oscillator the synthesizer uses.
#[derive(Clone, Copy, Debug, PartialEq, Eq, Structural)]
pub enum VCO {
    /// The fully integrated oscillator.
    Internal,
    /// The second oscillator with an inductor on the board.
    Inductor,
    /// An oscillator outside the chip.
    External,
}

/// Function of the SYSCLK pin.
#[derive(Clone, Copy, Debug, PartialEq, Eq, Structural)]
pub enum SysClk {
    Low,
    High,
    Z,
    XtalInv,
    XtalDiv1,
    XtalDiv2,
    XtalDiv4,
    XtalDiv8,
    XtalDiv16,
    XtalDiv32,
    XtalDiv64,
    XtalDiv128,
    XtalDiv256,
    XtalDiv512,
    XtalDiv1024,
    LpOsc,
}

/// Function of the DCLK pin.
#[derive(Clone, Copy, Debug, PartialEq, Eq, Structural)]
pub enum DClk {
    Low,
    High,
    Z,
    In,
    Out,
}

/// Function of the DATA pin.
#[derive(Clone, Copy, Debug, PartialEq, Eq, Structural)]
pub enum Data {
    Low,
    High,
    Z,
    FrameIo,
    ModemIo,
    AsyncIo,
    ModemOut,
}

/// Function of the IRQ pin.
#[derive(Clone, Copy, Debug, PartialEq, Eq, Structural)]
pub enum IRQ {
    Low,
    High,
    Z,
    IRQ,
}

/// Function of the ANTSEL pin.
#[derive(Clone, Copy, Debug, PartialEq, Eq, Structural)]
pub enum AntSel {
    Low,
    High,
    Z,
    BbTuneClk,
    TCXO,
    DAC,
    AntSel,
}

/// Function of the PWRAMP pin.
#[derive(Clone, Copy, Debug, PartialEq, Eq, Structural)]
pub enum PwrAmp {
    Low,
    High,
    Z,
    DiBitIn,
    DiBitOut,
    DAC,
    PwrAmp,
    TCXO,
}

impl SysClk {
    /// The code that selects this function in the pin's register.
    #[verifier::opaque]
    pub open spec fn code_of(self) -> int {
        match self {
            SysClk::Low => 0,
            SysClk::High => 1,
            SysClk::Z => 2,
            SysClk::XtalInv => 3,
            SysClk::XtalDiv1 => 4,
            SysClk::XtalDiv2 => 5,
            SysClk::XtalDiv4 => 6,
            SysClk::XtalDiv8 => 7,
            SysClk::XtalDiv16 => 8,
            SysClk::XtalDiv32 => 9,
            SysClk::XtalDiv64 => 10,
            SysClk::XtalDiv128 => 11,
            SysClk::XtalDiv256 => 12,
            SysClk::XtalDiv512 => 13,
            SysClk::XtalDiv1024 => 14,
            SysClk::LpOsc => 15,
        }
    }

    /// Computes `code_of`.
    pub fn code(&self) -> (c: u8)
        ensures
            c == self.code_of(),
            c <= 15,
    {
        proof {
            reveal(SysClk::code_of);
        }
        match self {
            SysClk::Low => 0,
            SysClk::High => 1,
            SysClk::Z => 2,
            SysClk::XtalInv => 3,
            SysClk::XtalDiv1 => 4,
            SysClk::XtalDiv2 => 5,
            SysClk::XtalDiv4 => 6,
            SysClk::XtalDiv8 => 7,
            SysClk::XtalDiv16 => 8,
            SysClk::XtalDiv32 => 9,
            SysClk::XtalDiv64 => 10,
            SysClk::XtalDiv128 => 11,
            SysClk::XtalDiv256 => 12,
            SysClk::XtalDiv512 => 13,
            SysClk::XtalDiv1024 => 14,
            SysClk::LpOsc => 15,
        }
    }
}

impl DClk {
    /// The code that selects this function in the pin's register.
    #[verifier::opaque]
    pub open spec fn code_of(self) -> int {
        match self {
            DClk::Low => 0,
            DClk::High => 1,
            DClk::Z => 2,
            DClk::In => 3,
            DClk::Out => 4,
        }
    }

    /// Computes `code_of`.
    pub fn code(&self) -> (c: u8)
        ensures
            c == self.code_of(),
            c <= 15,
    {
        proof {
            reveal(DClk::code_of);
        }
        match self {
            DClk::Low => 0,
            DClk::High => 1,
            DClk::Z => 2,
            DClk::In => 3,
            DClk::Out => 4,
        }
    }
}

impl Data {
    /// The code that selects this function in the pin's register.
    #[verifier::opaque]
    pub open spec fn code_of(self) -> int {
        match self {
            Data::Low => 0,
            Data::High => 1,
            Data::Z => 2,
            Data::FrameIo => 3,
            Data::ModemIo => 4,
            Data::AsyncIo => 5,
            Data::ModemOut => 7,
        }
    }

    /// Computes `code_of`.
    pub fn code(&self) -> (c: u8)
        ensures
            c == self.code_of(),
            c <= 15,
    {
        proof {
            reveal(Data::code_of);
        }
        match self {
            Data::Low => 0,
            Data::High => 1,
            Data::Z => 2,
            Data::FrameIo => 3,
            Data::ModemIo => 4,
            Data::AsyncIo => 5,
            Data::ModemOut => 7,
        }
    }
}

impl IRQ {
    /// The code that selects this function in the pin's register.
    #[verifier::opaque]
    pub open spec fn code_of(self) -> int {
        match self {
            IRQ::Low => 0,
            IRQ::High => 1,
            IRQ::Z => 2,
            IRQ::IRQ => 3,
        }
    }

    /// Computes `code_of`.
    pub fn code(&self) -> (c: u8)
        ensures
            c == self.code_of(),
            c <= 15,
    {
        proof {
            reveal(IRQ::code_of);
        }
        match self {
            IRQ::Low => 0,
            IRQ::High => 1,
            IRQ::Z => 2,
            IRQ::IRQ => 3,
        }
    }
}

impl AntSel {
    /// The code that selects this function in the pin's register.
    #[verifier::opaque]
    pub open spec fn code_of(self) -> int {
        match self {
            AntSel::Low => 0,
            AntSel::High => 1,
            AntSel::Z => 2,
            AntSel::BbTuneClk => 3,
            AntSel::TCXO => 4,
            AntSel::DAC => 5,
            AntSel::AntSel => 6,
        }
    }

    /// Computes `code_of`.
    pub fn code(&self) -> (c: u8)
        ensures
            c == self.code_of(),
            c <= 15,
    {
        proof {
            reveal(AntSel::code_of);
        }
        match self {
            AntSel::Low => 0,
            AntSel::High => 1,
            AntSel::Z => 2,
            AntSel::BbTuneClk => 3,
            AntSel::TCXO => 4,
            AntSel::DAC => 5,
            AntSel::AntSel => 6,
        }
    }
}

impl PwrAmp {
    /// The code that selects this function in the pin's register.
    #[verifier::opaque]
    pub open spec fn code_of(self) -> int {
        match self {
            PwrAmp::Low => 0,
            PwrAmp::High => 1,
            PwrAmp::Z => 2,
            PwrAmp::DiBitIn => 3,
            PwrAmp::DiBitOut => 4,
            PwrAmp::DAC => 5,
            PwrAmp::PwrAmp => 6,
            PwrAmp::TCXO => 7,
        }
    }

    /// Computes `code_of`.
    pub fn code(&self) -> (c: u8)
        ensures
            c == self.code_of(),
            c <= 15,
    {
        proof {
            reveal(PwrAmp::code_of);
        }
        match self {
            PwrAmp::Low => 0,
            PwrAmp::High => 1,
            PwrAmp::Z => 2,
            PwrAmp::DiBitIn => 3,
            PwrAmp::DiBitOut => 4,
            PwrAmp::DAC => 5,
            PwrAmp::PwrAmp => 6,
            PwrAmp::TCXO => 7,
        }
    }
}

/// One configurable pin: its function, and whether it is pulled up or
/// inverted.
#[derive(Clone, Copy, Debug, PartialEq, Eq)]
pub struct Pin<M> {
    pub mode: M,
    pub pullup: bool,
    pub invert: bool,
}

/// The byte that selects a pin's function: the function code in the low
/// bits, bit 6 for inversion, bit 7 for the pull-up.
pub open spec fn pin_value(code: int, pullup: bool, invert: bool) -> int {
    code + if invert {
        0x40int
    } else {
        0
    } + if pullup {
        0x80int
    } else {
        0
    }
}

/// Computes `pin_value`.
pub fn pin_byte(code: u8, pullup: bool, invert: bool) -> (v: u8)
    requires
        code <= 15,
    ensures
        v == pin_value(code as int, pullup, invert),
{
    let i: u8 = if invert {
        0x40
    } else {
        0
    };
    let p: u8 = if pullup {
        0x80
    } else {
        0
    };
    code + i + p
}

/// Everything about the board that the register compilers depend on.
#[derive(Clone, Copy, Debug, PartialEq, Eq)]
pub struct Board {
    pub sysclk: Pin<SysClk>,
    pub dclk: Pin<DClk>,
    pub data: Pin<Data>,
    pub pwramp: Pin<PwrAmp>,
    pub irq: Pin<IRQ>,
    pub antsel: Pin<AntSel>,
    pub xtal: Xtal,
    pub vco: VCO,
}

impl Board {
    /// The writes that describe this board to the chip: the six pin
    /// functions, then the three oscillator settings.
    pub open spec fn operations(self) -> Seq<Operation> {
        seq![
            Operation::Write {
                register: Register::PinFuncSysClk,
                value: pin_value(
                    self.sysclk.mode.code_of(),
                    self.sysclk.pullup,
                    self.sysclk.invert,
                ) as u32,
            },
            Operation::Write {
                register: Register::PinFuncDClk,
                value: pin_value(self.dclk.mode.code_of(), self.dclk.pullup, self.dclk.invert) as u32,
            },
            Operation::Write {
                register: Register::PinFuncData,
                value: pin_value(self.data.mode.code_of(), self.data.pullup, self.data.invert) as u32,
            },
            Operation::Write {
                register: Register::PinFuncIrq,
                value: pin_value(self.irq.mode.code_of(), self.irq.pullup, self.irq.invert) as u32,
            },
            Operation::Write {
                register: Register::PinFuncAntSel,
                value: pin_value(
                    self.antsel.mode.code_of(),
                    self.antsel.pullup,
                    self.antsel.invert,
                ) as u32,
            },
            Operation::Write {
                register: Register::PinFuncPwrAmp,
                value: pin_value(
                    self.pwramp.mode.code_of(),
                    self.pwramp.pullup,
                    self.pwramp.invert,
                ) as u32,
            },
            Operation::Write { register: Register::PerfF10, value: self.xtal.amplitude_code() as u32 },
            Operation::Write { register: Register::PerfF11, value: self.xtal.bias_code() as u32 },
            Operation::Write { register: Register::PerfF35, value: self.xtal.divider_code() as u32 },
        ]
    }

    /// Records the board's pin functions and oscillator settings, and hands
    /// the board back for the compilers that follow.
    pub fn write(self, radio: &mut Registers) -> (board: Board)
        ensures
            board == self,
            final(radio)@ =~= old(radio)@ + self.operations(),
    {
        let sysclk = pin_byte(self.sysclk.mode.code(), self.sysclk.pullup, self.sysclk.invert);
        radio.write_byte(Register::PinFuncSysClk, sysclk);
        let dclk = pin_byte(self.dclk.mode.code(), self.dclk.pullup, self.dclk.invert);
        radio.write_byte(Register::PinFuncDClk, dclk);
        let data = pin_byte(self.data.mode.code(), self.data.pullup, self.data.invert);
        radio.write_byte(Register::PinFuncData, data);
        let irq = pin_byte(self.irq.mode.code(), self.irq.pullup, self.irq.invert);
        radio.write_byte(Register::PinFuncIrq, irq);
        let antsel = pin_byte(self.antsel.mode.code(), self.antsel.pullup, self.antsel.invert);
        radio.write_byte(Register::PinFuncAntSel, antsel);
        let pwramp = pin_byte(self.pwramp.mode.code(), self.pwramp.pullup, self.pwramp.invert);
        radio.write_byte(Register::PinFuncPwrAmp, pwramp);
        let amplitude: u8 = match self.xtal.kind {
            XtalKind::TCXO => 0x04,
            XtalKind::XO => if self.xtal.freq > 43_000_000 {
                0x0D
            } else {
                0x03
            },
        };
        let bias: u8 = match self.xtal.kind {
            XtalKind::TCXO => 0x00,
            XtalKind::XO => 0x07,
        };
        radio.write_byte(Register::PerfF10, amplitude);
        radio.write_byte(Register::PerfF11, bias);
        let divider: u8 = 0x0F + self.xtal.div();
        radio.write_byte(Register::PerfF35, divider);
        self
    }
}

} // verus!
