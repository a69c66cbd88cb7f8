//! Client-side pixel formats: what one element of a pixel sequence holds.

use vstd::prelude::*;

verus! {

/// Channel layout and numeric kind of one pixel element as the application stores it.
///
/// Each name lists the channels in order with their storage type:
/// `U` unsigned and `I` signed integers of the given bit width.
#[derive(Clone, Copy, Debug, PartialEq, Eq, Structural)]
pub enum ClientFormat {
    U8,
    U8U8,
    U8U8U8,
    U8U8U8U8,
    I8,
    I8I8,
    I8I8I8,
    I8I8I8I8,
    U16,
    U16U16,
    U16U16U16,
    U16U16U16U16,
    I16,
    I16I16,
    I16I16I16,
    I16I16I16I16,
    U32,
    U32U32,
    U32U32U32,
    U32U32U32U32,
    I32,
    I32I32,
    I32I32I32,
    I32I32I32I32,
}

/// Numeric kind of a channel.
#[derive(Clone, Copy, Debug, PartialEq, Eq, Structural)]
pub enum ChannelKind {
    Unsigned,
    Signed,
}

impl ClientFormat {
    /// Number of channels in one pixel.
    pub open spec fn channels_spec(self) -> nat {
        match self {
            ClientFormat::U8 => 1,
            ClientFormat::U8U8 => 2,
            ClientFormat::U8U8U8 => 3,
            ClientFormat::U8U8U8U8 => 4,
            ClientFormat::I8 => 1,
            ClientFormat::I8I8 => 2,
            ClientFormat::I8I8I8 => 3,
            ClientFormat::I8I8I8I8 => 4,
            ClientFormat::U16 => 1,
            ClientFormat::U16U16 => 2,
            ClientFormat::U16U16U16 => 3,
            ClientFormat::U16U16U16U16 => 4,
            ClientFormat::I16 => 1,
            ClientFormat::I16I16 => 2,
            ClientFormat::I16I16I16 => 3,
            ClientFormat::I16I16I16I16 => 4,
            ClientFormat::U32 => 1,
            ClientFormat::U32U32 => 2,
            ClientFormat::U32U32U32 => 3,
            ClientFormat::U32U32U32U32 => 4,
            ClientFormat::I32 => 1,
            ClientFormat::I32I32 => 2,
            ClientFormat::I32I32I32 => 3,
            ClientFormat::I32I32I32I32 => 4,
        }
    }

    /// Width in bits of each channel.
    pub open spec fn channel_bits_spec(self) -> nat {
        match self {
            ClientFormat::U8 => 8,
            ClientFormat::U8U8 => 8,
            ClientFormat::U8U8U8 => 8,
            ClientFormat::U8U8U8U8 => 8,
            ClientFormat::I8 => 8,
            ClientFormat::I8I8 => 8,
            ClientFormat::I8I8I8 => 8,
            ClientFormat::I8I8I8I8 => 8,
            ClientFormat::U16 => 16,
            ClientFormat::U16U16 => 16,
            ClientFormat::U16U16U16 => 16,
            ClientFormat::U16U16U16U16 => 16,
            ClientFormat::I16 => 16,
            ClientFormat::I16I16 => 16,
            ClientFormat::I16I16I16 => 16,
            ClientFormat::I16I16I16I16 => 16,
            ClientFormat::U32 => 32,
            ClientFormat::U32U32 => 32,
            ClientFormat::U32U32U32 => 32,
            ClientFormat::U32U32U32U32 => 32,
            ClientFormat::I32 => 32,
            ClientFormat::I32I32 => 32,
            ClientFormat::I32I32I32 => 32,
            ClientFormat::I32I32I32I32 => 32,
        }
    }

    /// Numeric kind of each channel.
    pub open spec fn kind_spec(self) -> ChannelKind {
        match self {
            ClientFormat::U8 => ChannelKind::Unsigned,
            ClientFormat::U8U8 => ChannelKind::Unsigned,
            ClientFormat::U8U8U8 => ChannelKind::Unsigned,
            ClientFormat::U8U8U8U8 => ChannelKind::Unsigned,
            ClientFormat::I8 => ChannelKind::Signed,
            ClientFormat::I8I8 => ChannelKind::Signed,
            ClientFormat::I8I8I8 => ChannelKind::Signed,
            ClientFormat::I8I8I8I8 => ChannelKind::Signed,
            ClientFormat::U16 => ChannelKind::Unsigned,
            ClientFormat::U16U16 => ChannelKind::Unsigned,
            ClientFormat::U16U16U16 => ChannelKind::Unsigned,
            ClientFormat::U16U16U16U16 => ChannelKind::Unsigned,
            ClientFormat::I16 => ChannelKind::Signed,
            ClientFormat::I16I16 => ChannelKind::Signed,
            ClientFormat::I16I16I16 => ChannelKind::Signed,
            ClientFormat::I16I16I16I16 => ChannelKind::Signed,
            ClientFormat::U32 => ChannelKind::Unsigned,
            ClientFormat::U32U32 => ChannelKind::Unsigned,
            ClientFormat::U32U32U32 => ChannelKind::Unsigned,
            ClientFormat::U32U32U32U32 => ChannelKind::Unsigned,
            ClientFormat::I32 => ChannelKind::Signed,
            ClientFormat::I32I32 => ChannelKind::Signed,
            ClientFormat::I32I32I32 => ChannelKind::Signed,
            ClientFormat::I32I32I32I32 => ChannelKind::Signed,
        }
    }

    /// Returns the number of channels in one pixel.
    pub fn get_num_components(&self) -> (r: u8)
        ensures
            r == self.channels_spec(),
    {
        match self {
            ClientFormat::U8 => 1,
            ClientFormat::U8U8 => 2,
            ClientFormat::U8U8U8 => 3,
            ClientFormat::U8U8U8U8 => 4,
            ClientFormat::I8 => 1,
            ClientFormat::I8I8 => 2,
            ClientFormat::I8I8I8 => 3,
            ClientFormat::I8I8I8I8 => 4,
            ClientFormat::U16 => 1,
            ClientFormat::U16U16 => 2,
            ClientFormat::U16U16U16 => 3,
            ClientFormat::U16U16U16U16 => 4,
            ClientFormat::I16 => 1,
            ClientFormat::I16I16 => 2,
            ClientFormat::I16I16I16 => 3,
            ClientFormat::I16I16I16I16 => 4,
            ClientFormat::U32 => 1,
            ClientFormat::U32U32 => 2,
            ClientFormat::U32U32U32 => 3,
            ClientFormat::U32U32U32U32 => 4,
            ClientFormat::I32 => 1,
            ClientFormat::I32I32 => 2,
            ClientFormat::I32I32I32 => 3,
            ClientFormat::I32I32I32I32 => 4,
        }
    }

    /// Returns the width in bits of each channel.
    pub fn get_channel_bits(&self) -> (r: u8)
        ensures
            r == self.channel_bits_spec(),
    {
        match self {
            ClientFormat::U8 => 8,
            ClientFormat::U8U8 => 8,
            ClientFormat::U8U8U8 => 8,
            ClientFormat::U8U8U8U8 => 8,
            ClientFormat::I8 => 8,
            ClientFormat::I8I8 => 8,
            ClientFormat::I8I8I8 => 8,
            ClientFormat::I8I8I8I8 => 8,
            ClientFormat::U16 => 16,
            ClientFormat::U16U16 => 16,
            ClientFormat::U16U16U16 => 16,
            ClientFormat::U16U16U16U16 => 16,
            ClientFormat::I16 => 16,
            ClientFormat::I16I16 => 16,
            ClientFormat::I16I16I16 => 16,
            ClientFormat::I16I16I16I16 => 16,
            ClientFormat::U32 => 32,
            ClientFormat::U32U32 => 32,
            ClientFormat::U32U32U32 => 32,
            ClientFormat::U32U32U32U32 => 32,
            ClientFormat::I32 => 32,
            ClientFormat::I32I32 => 32,
            ClientFormat::I32I32I32 => 32,
            ClientFormat::I32I32I32I32 => 32,
        }
    }

    /// Returns the numeric kind of the channels.
    pub fn get_kind(&self) -> (r: ChannelKind)
        ensures
            r == self.kind_spec(),
    {
        match self {
            ClientFormat::U8 => ChannelKind::Unsigned,
            ClientFormat::U8U8 => ChannelKind::Unsigned,
            ClientFormat::U8U8U8 => ChannelKind::Unsigned,
            ClientFormat::U8U8U8U8 => ChannelKind::Unsigned,
            ClientFormat::I8 => ChannelKind::Signed,
            ClientFormat::I8I8 => ChannelKind::Signed,
            ClientFormat::I8I8I8 => ChannelKind::Signed,
            ClientFormat::I8I8I8I8 => ChannelKind::Signed,
            ClientFormat::U16 => ChannelKind::Unsigned,
            ClientFormat::U16U16 => ChannelKind::Unsigned,
            ClientFormat::U16U16U16 => ChannelKind::Unsigned,
            ClientFormat::U16U16U16U16 => ChannelKind::Unsigned,
            ClientFormat::I16 => ChannelKind::Signed,
            ClientFormat::I16I16 => ChannelKind::Signed,
            ClientFormat::I16I16I16 => ChannelKind::Signed,
            ClientFormat::I16I16I16I16 => ChannelKind::Signed,
            ClientFormat::U32 => ChannelKind::Unsigned,
            ClientFormat::U32U32 => ChannelKind::Unsigned,
            ClientFormat::U32U32U32 => ChannelKind::Unsigned,
            ClientFormat::U32U32U32U32 => ChannelKind::Unsigned,
            ClientFormat::I32 => ChannelKind::Signed,
            ClientFormat::I32I32 => ChannelKind::Signed,
            ClientFormat::I32I32I32 => ChannelKind::Signed,
            ClientFormat::I32I32I32I32 => ChannelKind::Signed,
        }
    }

    /// Returns the size in bytes of one pixel.
    pub fn get_size(&self) -> (r: usize)
        ensures
            r == self.channels_spec() * self.channel_bits_spec() / 8,
    {
        let c = self.get_num_components() as usize;
        let b = self.get_channel_bits() as usize;
        c * b / 8
    }
}

} // verus!
