//! The channel: how bits are modulated, coded and framed on the air.

use crate::board::Board;
use crate::fixed::{round_div, round_half_up};
use crate::registers::{ConfigurationError, Operation, Register, Registers};
use vstd::prelude::*;

verus! {

/// Modulation code of minimum-shift keying.
pub const MODULATION_MSK: u8 = 0x07;

/// Framing mode code of HDLC, already in its place in the framing register.
pub const FRAMING_HDLC: u8 = 0x04;

/// CRC mode code of the 16-bit CCITT checksum, in its place in the framing
/// register.
pub const FRAMING_CRC_CCITT: u8 = 0x10;

/// Packet-address flag that switches the FEC sync search off.
pub const FEC_SYNC_DISABLE: u8 = 0x20;

/// Packet-address flag for most-significant-bit-first transmission.
pub const MSB_FIRST: u8 = 0x80;

/// Over how many bit times the transmitter ramps up and down.
#[derive(Clone, Copy, Debug, PartialEq, Eq, Structural)]
pub enum SlowRamp {
    Bits1,
    Bits2,
    Bits4,
    Bits8,
}

impl SlowRamp {
    /// The code of this choice in its register.
    pub open spec fn code_of(self) -> int {
        match self {
            SlowRamp::Bits1 => 0,
            SlowRamp::Bits2 => 1,
            SlowRamp::Bits4 => 2,
            SlowRamp::Bits8 => 3,
        }
    }

    /// Computes `code_of`.
    pub fn code(&self) -> (c: u8)
        ensures
            c == self.code_of(),
            c <= 3,
    {
        match self {
            SlowRamp::Bits1 => 0,
            SlowRamp::Bits2 => 1,
            SlowRamp::Bits4 => 2,
            SlowRamp::Bits8 => 3,
        }
    }
}

/// Bandwidth-time product of the Gaussian pulse shape. The chip offers two.
#[derive(Clone, Copy, Debug, PartialEq, Eq, Structural)]
pub enum BT {
    /// BT = 0.3
    ThreeTenths,
    /// BT = 0.5
    Half,
}

impl BT {
    /// The frequency-shaping code.
    pub open spec fn code_of(self) -> int {
        match self {
            BT::ThreeTenths => 2,
            BT::Half => 3,
        }
    }

    /// Computes `code_of`.
    pub fn code(&self) -> (c: u8)
        ensures
            c == self.code_of(),
    {
        match self {
            BT::ThreeTenths => 2,
            BT::Half => 3,
        }
    }
}

/// The modulation scheme.
#[derive(Clone, Copy, Debug, PartialEq, Eq, Structural)]
pub enum Modulation {
    /// Gaussian minimum-shift keying.
    GMSK { ramp: SlowRamp, bt: BT },
}

/// The line coding, as a set of flags.
#[derive(Clone, Copy, Debug, PartialEq, Eq, Structural)]
pub struct Encoding {
    pub invert: bool,
    pub differential: bool,
    pub scramble: bool,
    pub manchester: bool,
    pub nosync: bool,
}

impl Encoding {
    /// No coding at all: non-return-to-zero.
    pub fn nrz() -> (e: Encoding)
        ensures
            e == (Encoding {
                invert: false,
                differential: false,
                scramble: false,
                manchester: false,
                nosync: false,
            }),
    {
        Encoding {
            invert: false,
            differential: false,
            scramble: false,
            manchester: false,
            nosync: false,
        }
    }

    /// Non-return-to-zero inverted: inversion and differential coding.
    pub fn nrzi() -> (e: Encoding)
        ensures
            e == (Encoding {
                invert: true,
                differential: true,
                scramble: false,
                manchester: false,
                nosync: false,
            }),
    {
        Encoding {
            invert: true,
            differential: true,
            scramble: false,
            manchester: false,
            nosync: false,
        }
    }

    /// The same coding with the scrambler switched on.
    pub fn scrambled(self) -> (e: Encoding)
        ensures
            e == (Encoding { scramble: true, ..self }),
    {
        Encoding { scramble: true, ..self }
    }

    /// The encoding register: one bit per flag, `invert` lowest.
    pub open spec fn value(self) -> int {
        (if self.invert {
            1int
        } else {
            0
        }) + (if self.differential {
            2int
        } else {
            0
        }) + (if self.scramble {
            4int
        } else {
            0
        }) + (if self.manchester {
            8int
        } else {
            0
        }) + (if self.nosync {
            16int
        } else {
            0
        })
    }

    /// Computes `value`.
    pub fn bits(&self) -> (b: u8)
        ensures
            b == self.value(),
    {
        let i: u8 = if self.invert {
            1
        } else {
            0
        };
        let d: u8 = if self.differential {
            2
        } else {
            0
        };
        let s: u8 = if self.scramble {
            4
        } else {
            0
        };
        let m: u8 = if self.manchester {
            8
        } else {
            0
        };
        let n: u8 = if self.nosync {
            16
        } else {
            0
        };
        i + d + s + m + n
    }
}

/// Forward error correction. There is nothing to choose: it is off.
#[derive(Clone, Copy, Debug, PartialEq, Eq, Structural)]
pub struct FEC {}

/// How packets are delimited.
#[derive(Clone, Copy, Debug, PartialEq, Eq, Structural)]
pub enum Framing {
    /// No framing: the bits as they come.
    Raw,
    /// HDLC flags and bit stuffing.
    HDLC { fec: FEC },
}

/// The checksum that the chip appends and checks.
#[derive(Clone, Copy, Debug, PartialEq, Eq, Structural)]
pub enum CRC {
    Off,
    /// The 16-bit CCITT polynomial, started from `initial`.
    CCITT { initial: u16 },
}

/// Which bit of a byte goes out first.
#[derive(Clone, Copy, Debug, PartialEq, Eq, Structural)]
pub enum BitOrder {
    LSBFirst,
    MSBFirst,
}

/// Everything that both ends of a link agree on.
#[derive(Clone, Copy, Debug, PartialEq, Eq, Structural)]
pub struct ChannelParameters {
    pub modulation: Modulation,
    pub encoding: Encoding,
    pub framing: Framing,
    pub crc: CRC,
    /// Bits per second.
    pub datarate: u32,
    pub bitorder: BitOrder,
}

/// The register contents that channel parameters compile to.
#[derive(Clone, Copy, Debug, PartialEq, Eq, Structural)]
pub struct ChannelImage {
    pub modulation: u8,
    pub encoding: u8,
    pub framing: u8,
    pub crc_init: u32,
    pub fec: u8,
    pub pkt_addr_cfg: u8,
    pub mod_cfg_f: u8,
    pub fsk_dev: u32,
    pub tx_rate: u32,
}

impl ChannelParameters {
    /// The ramp that the modulation asks of the transmitter.
    pub open spec fn ramp(self) -> SlowRamp {
        match self.modulation {
            Modulation::GMSK { ramp, .. } => ramp,
        }
    }

    /// The pulse shape that the modulation asks for.
    pub open spec fn shape(self) -> BT {
        match self.modulation {
            Modulation::GMSK { bt, .. } => bt,
        }
    }

    /// The framing register: the framing mode and the CRC mode.
    pub open spec fn framing_value(self) -> int {
        (match self.framing {
            Framing::Raw => 0int,
            Framing::HDLC { .. } => FRAMING_HDLC as int,
        }) + (match self.crc {
            CRC::Off => 0int,
            CRC::CCITT { .. } => FRAMING_CRC_CCITT as int,
        })
    }

    /// The CRC start value: the 16-bit start value in both halves of the
    /// 32-bit register, so that it holds whichever half the chip uses.
    pub open spec fn crc_init_value(self) -> int {
        match self.crc {
            CRC::Off => 0,
            CRC::CCITT { initial } => initial * 0x1_0001,
        }
    }

    /// The packet flags: bit order, and the FEC sync search switched off.
    pub open spec fn pkt_addr_cfg_value(self) -> int {
        FEC_SYNC_DISABLE + match self.bitorder {
            BitOrder::LSBFirst => 0int,
            BitOrder::MSBFirst => MSB_FIRST as int,
        }
    }

    /// The transmit bit rate word: `datarate · 2^24 / xtal`, rounded to the
    /// nearest, a tie going up.
    pub open spec fn tx_rate_word(self, board: Board) -> int {
        round_half_up(self.datarate * 0x100_0000, board.xtal.freq as int)
    }

    /// The deviation word. Minimum-shift keying deviates by a quarter of
    /// the bit rate, so it is `datarate · 2^22 / xtal`, rounded to the
    /// nearest, a tie going up.
    pub open spec fn fsk_dev_word(self, board: Board) -> int {
        round_half_up(self.datarate * 0x40_0000, board.xtal.freq as int)
    }

    /// What the parameters compile to on `board`, or the first reason why
    /// they do not: a reference of zero, then a deviation word, then a rate
    /// word of more than 24 bits.
    pub open spec fn compiled(self, board: Board) -> Result<ChannelImage, ConfigurationError> {
        if board.xtal.freq == 0 {
            Err(ConfigurationError::Undefined { register: Register::FskDev })
        } else if self.fsk_dev_word(board) >= 0x100_0000 {
            Err(
                ConfigurationError::OutOfRange {
                    register: Register::FskDev,
                    value: self.fsk_dev_word(board) as u128,
                },
            )
        } else if self.tx_rate_word(board) >= 0x100_0000 {
            Err(
                ConfigurationError::OutOfRange {
                    register: Register::TxRate,
                    value: self.tx_rate_word(board) as u128,
                },
            )
        } else {
            Ok(
                ChannelImage {
                    modulation: MODULATION_MSK,
                    encoding: self.encoding.value() as u8,
                    framing: self.framing_value() as u8,
                    crc_init: self.crc_init_value() as u32,
                    fec: 0,
                    pkt_addr_cfg: self.pkt_addr_cfg_value() as u8,
                    mod_cfg_f: self.shape().code_of() as u8,
                    fsk_dev: self.fsk_dev_word(board) as u32,
                    tx_rate: self.tx_rate_word(board) as u32,
                },
            )
        }
    }

    /// Derives the register contents for these parameters on `board`.
    pub fn compile(&self, board: &Board) -> (r: Result<ChannelImage, ConfigurationError>)
        ensures
            r == self.compiled(*board),
            r matches Ok(image) ==> image.fits(),
    {
        if board.xtal.freq == 0 {
            return Err(ConfigurationError::Undefined { register: Register::FskDev });
        }
        let xtal: u128 = board.xtal.freq as u128;
        let rate: u128 = self.datarate as u128;
        let fsk_dev = round_div(rate * 0x40_0000, xtal);
        if fsk_dev >= 0x100_0000 {
            return Err(ConfigurationError::OutOfRange { register: Register::FskDev, value: fsk_dev });
        }
        let tx_rate = round_div(rate * 0x100_0000, xtal);
        if tx_rate >= 0x100_0000 {
            return Err(ConfigurationError::OutOfRange { register: Register::TxRate, value: tx_rate });
        }
        let mode: u8 = match self.framing {
            Framing::Raw => 0,
            Framing::HDLC { .. } => FRAMING_HDLC,
        };
        let (crc_mode, crc_init): (u8, u32) = match self.crc {
            CRC::Off => (0, 0),
            CRC::CCITT { initial } => (FRAMING_CRC_CCITT, (initial as u32) * 0x1_0001),
        };
        let order: u8 = match self.bitorder {
            BitOrder::LSBFirst => 0,
            BitOrder::MSBFirst => MSB_FIRST,
        };
        let shape: u8 = match self.modulation {
            Modulation::GMSK { bt, .. } => bt.code(),
        };
        Ok(
            ChannelImage {
                modulation: MODULATION_MSK,
                encoding: self.encoding.bits(),
                framing: mode + crc_mode,
                crc_init,
                fec: 0,
                pkt_addr_cfg: FEC_SYNC_DISABLE + order,
                mod_cfg_f: shape,
                fsk_dev: fsk_dev as u32,
                tx_rate: tx_rate as u32,
            },
        )
    }

    /// Compiles the parameters and records their writes. On an error
    /// nothing is recorded.
    pub fn write(self, radio: &mut Registers, board: &Board) -> (r: Result<
        ChannelParameters,
        ConfigurationError,
    >)
        ensures
            match self.compiled(*board) {
                Ok(image) => r == Ok::<ChannelParameters, ConfigurationError>(self) && final(radio)@ =~= old(radio)@ + image.operations(),
                Err(e) => r == Err::<ChannelParameters, ConfigurationError>(e) && final(radio)@
                    == old(radio)@,
            },
    {
        let image = self.compile(board)?;
        image.write(radio);
        Ok(self)
    }
}

impl ChannelImage {
    /// Whether the two 24-bit words fit their registers.
    pub open spec fn fits(self) -> bool {
        self.fsk_dev < 0x100_0000 && self.tx_rate < 0x100_0000
    }

    /// The writes of the image, in the order in which they are made.
    pub open spec fn operations(self) -> Seq<Operation> {
        seq![
            Operation::Write { register: Register::Modulation, value: self.modulation as u32 },
            Operation::Write { register: Register::Encoding, value: self.encoding as u32 },
            Operation::Write { register: Register::Framing, value: self.framing as u32 },
            Operation::Write { register: Register::CrcInit, value: self.crc_init },
            Operation::Write { register: Register::Fec, value: self.fec as u32 },
            Operation::Write { register: Register::PktAddrCfg, value: self.pkt_addr_cfg as u32 },
            Operation::Write { register: Register::ModCfgF, value: self.mod_cfg_f as u32 },
            Operation::Write { register: Register::FskDev, value: self.fsk_dev },
            Operation::Write { register: Register::TxRate, value: self.tx_rate },
        ]
    }

    /// Records the writes of the image.
    pub fn write(&self, radio: &mut Registers)
        requires
            self.fits(),
        ensures
            final(radio)@ =~= old(radio)@ + self.operations(),
    {
        radio.write_byte(Register::Modulation, self.modulation);
        radio.write_byte(Register::Encoding, self.encoding);
        radio.write_byte(Register::Framing, self.framing);
        radio.record(Register::CrcInit, self.crc_init);
        radio.write_byte(Register::Fec, self.fec);
        radio.write_byte(Register::PktAddrCfg, self.pkt_addr_cfg);
        radio.write_byte(Register::ModCfgF, self.mod_cfg_f);
        radio.record(Register::FskDev, self.fsk_dev);
        radio.record(Register::TxRate, self.tx_rate);
    }
}

} // verus!
