//! The sample codec's choice: which numeric type carries a negotiated encoding.
//!
//! The choice is made once, when a session is assembled. Everything behind it
//! is instantiated with the chosen type, so no sample is ever inspected to
//! find out how it is encoded.

use vstd::prelude::*;

verus! {

/// How the bits of a sample are to be read.
#[derive(Clone, Copy, Debug, PartialEq, Eq, Structural)]
pub enum Encoding {
    /// Two's complement integer, silence at zero.
    Signed,
    /// Unsigned integer, silence at half scale.
    Unsigned,
    /// Floating point, silence at zero.
    Float,
    /// Anything else a device may offer.
    Other,
}

/// A negotiated sample format: the encoding and the number of significant bits.
#[derive(Clone, Copy, Debug, PartialEq, Eq, Structural)]
pub struct SampleFormat {
    pub encoding: Encoding,
    pub bits: u32,
}

/// The numeric type that a session is instantiated with.
#[derive(Clone, Copy, Debug, PartialEq, Eq, Structural)]
pub enum Carrier {
    I8,
    I16,
    I32,
    I64,
    U8,
    U16,
    U32,
    U64,
    F32,
    F64,
}

/// Why a session cannot be assembled.
#[derive(Clone, Copy, Debug, PartialEq, Eq, Structural)]
pub enum ConfigError {
    /// The device offers an encoding that no carrier can take.
    UnsupportedFormat,
}

/// The carrier of each supported format. Samples of 24 bits travel in 32.
pub open spec fn carrier_of(format: SampleFormat) -> Option<Carrier> {
    match format.encoding {
        Encoding::Signed => if format.bits == 8 {
            Some(Carrier::I8)
        } else if format.bits == 16 {
            Some(Carrier::I16)
        } else if format.bits == 24 || format.bits == 32 {
            Some(Carrier::I32)
        } else if format.bits == 64 {
            Some(Carrier::I64)
        } else {
            None
        },
        Encoding::Unsigned => if format.bits == 8 {
            Some(Carrier::U8)
        } else if format.bits == 16 {
            Some(Carrier::U16)
        } else if format.bits == 24 || format.bits == 32 {
            Some(Carrier::U32)
        } else if format.bits == 64 {
            Some(Carrier::U64)
        } else {
            None
        },
        Encoding::Float => if format.bits == 32 {
            Some(Carrier::F32)
        } else if format.bits == 64 {
            Some(Carrier::F64)
        } else {
            None
        },
        Encoding::Other => None,
    }
}

impl Carrier {
    /// How the carrier's bits are read.
    pub open spec fn encoding(self) -> Encoding {
        match self {
            Carrier::I8 | Carrier::I16 | Carrier::I32 | Carrier::I64 => Encoding::Signed,
            Carrier::U8 | Carrier::U16 | Carrier::U32 | Carrier::U64 => Encoding::Unsigned,
            Carrier::F32 | Carrier::F64 => Encoding::Float,
        }
    }

    /// Width of the carrier in bits.
    pub open spec fn bits(self) -> nat {
        match self {
            Carrier::I8 | Carrier::U8 => 8,
            Carrier::I16 | Carrier::U16 => 16,
            Carrier::I32 | Carrier::U32 | Carrier::F32 => 32,
            Carrier::I64 | Carrier::U64 | Carrier::F64 => 64,
        }
    }
}

/// Picks the carrier for a negotiated format, or refuses the format.
pub fn select_carrier(format: SampleFormat) -> (r: Result<Carrier, ConfigError>)
    ensures
        r == match carrier_of(format) {
            Some(carrier) => Ok::<Carrier, ConfigError>(carrier),
            None => Err(ConfigError::UnsupportedFormat),
        },
{
    let bits = format.bits;
    let chosen = match format.encoding {
        Encoding::Signed => match bits {
            8 => Some(Carrier::I8),
            16 => Some(Carrier::I16),
            24 | 32 => Some(Carrier::I32),
            64 => Some(Carrier::I64),
            _ => None,
        },
        Encoding::Unsigned => match bits {
            8 => Some(Carrier::U8),
            16 => Some(Carrier::U16),
            24 | 32 => Some(Carrier::U32),
            64 => Some(Carrier::U64),
            _ => None,
        },
        Encoding::Float => match bits {
            32 => Some(Carrier::F32),
            64 => Some(Carrier::F64),
            _ => None,
        },
        Encoding::Other => None,
    };
    match chosen {
        Some(carrier) => Ok(carrier),
        None => Err(ConfigError::UnsupportedFormat),
    }
}

/// A chosen carrier reads its bits the way the format says and is wide enough
/// for every sample of the format.
pub proof fn lemma_carrier_fits(format: SampleFormat)
    requires
        carrier_of(format) is Some,
    ensures
        carrier_of(format)->0.encoding() == format.encoding,
        carrier_of(format)->0.bits() >= format.bits,
{
}

} // verus!
