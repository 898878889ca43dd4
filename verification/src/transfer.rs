//! Deriving the parameters of a one-shot memory-to-memory DMA transfer.
//!
//! A transfer moves `count` beats from a source buffer to a destination
//! buffer. Each side has its own beat width. When both buffers have the same
//! narrow element width, adjacent elements are combined into wider beats as
//! long as the beat count stays whole, because the engine moves the same
//! bytes in fewer beats.

use vstd::prelude::*;

verus! {

/// Number of bytes the engine moves per beat on one side of a transfer.
#[derive(Clone, Copy, PartialEq, Eq, Debug, Structural)]
pub enum TransferWidth {
    Bits8,
    Bits16,
    Bits32,
}

impl TransferWidth {
    /// The width in bytes: 1, 2 or 4.
    pub open spec fn spec_bytes(self) -> nat {
        match self {
            TransferWidth::Bits8 => 1,
            TransferWidth::Bits16 => 2,
            TransferWidth::Bits32 => 4,
        }
    }

    /// The width that is `bytes` wide, if the engine has one.
    pub open spec fn spec_from_bytes(bytes: usize) -> Option<TransferWidth> {
        if bytes == 1 {
            Some(TransferWidth::Bits8)
        } else if bytes == 2 {
            Some(TransferWidth::Bits16)
        } else if bytes == 4 {
            Some(TransferWidth::Bits32)
        } else {
            None
        }
    }

    /// The width in bytes.
    pub fn bytes(self) -> (n: usize)
        ensures
            n == self.spec_bytes(),
    {
        match self {
            TransferWidth::Bits8 => 1,
            TransferWidth::Bits16 => 2,
            TransferWidth::Bits32 => 4,
        }
    }

    /// Looks up the width for a byte count. Only 1, 2 and 4 are representable.
    pub fn from_bytes(bytes: usize) -> (w: Option<TransferWidth>)
        ensures
            w == Self::spec_from_bytes(bytes),
    {
        if bytes == 1 {
            Some(TransferWidth::Bits8)
        } else if bytes == 2 {
            Some(TransferWidth::Bits16)
        } else if bytes == 4 {
            Some(TransferWidth::Bits32)
        } else {
            None
        }
    }
}

/// Why a pair of buffers cannot be turned into a transfer. Both variants are
/// mistakes of the caller, not something that can go wrong at run time.
#[derive(Clone, Copy, PartialEq, Eq, Debug, Structural)]
pub enum ConfigError {
    /// Source and destination hold different numbers of elements.
    LengthMismatch { source_len: usize, destination_len: usize },
    /// A side ended up with a beat width the engine cannot express.
    UnsupportedWidth { bytes: usize },
}

/// Which end of the channel is read from.
#[derive(Clone, Copy, PartialEq, Eq, Debug, Structural)]
pub enum Direction {
    FromPeripheral,
    FromMemory,
}

/// The mode bits of a channel, independent of any register layout.
#[derive(Clone, Copy, PartialEq, Eq, Debug, Structural)]
pub struct ControlWord {
    pub mem2mem: bool,
    pub circular: bool,
    pub direction: Direction,
    pub peripheral_increment: bool,
    pub memory_increment: bool,
    pub peripheral_width: TransferWidth,
    pub memory_width: TransferWidth,
}

/// Everything a channel needs for one transfer. The source is wired to the
/// peripheral side of the channel and the destination to its memory side.
#[derive(Clone, Copy, PartialEq, Eq, Debug, Structural)]
pub struct TransferDescriptor {
    pub source_address: u32,
    pub destination_address: u32,
    pub source_width: TransferWidth,
    pub destination_width: TransferWidth,
    pub count: usize,
}

/// Beat width and beat count after combining elements `width` bytes wide.
///
/// Elements of one byte are combined in fours when the count is a multiple of
/// four; elements of one or two bytes are combined in pairs when the count is
/// even; anything else is left as it is.
pub open spec fn coarsened(width: usize, count: usize) -> (usize, usize) {
    if width == 1 && count % 4 == 0 {
        (4, (count / 4) as usize)
    } else if (width == 1 || width == 2) && count % 2 == 0 {
        ((2 * width) as usize, (count / 2) as usize)
    } else {
        (width, count)
    }
}

/// Source beat width, destination beat width and beat count for buffers of
/// `len` elements. Only buffers of equal element size are coarsened; with
/// different sizes each side keeps its own and the count is `len`.
pub open spec fn derived_beats(src_size: usize, dst_size: usize, len: usize) -> (
    usize,
    usize,
    usize,
) {
    if src_size == dst_size {
        let (width, count) = coarsened(src_size, len);
        (width, width, count)
    } else {
        (src_size, dst_size, len)
    }
}

/// The descriptor for a pair of buffers, or the reason there is none.
///
/// The lengths are compared first. Of two unsupported widths the source's is
/// reported.
pub open spec fn spec_derive(
    source_address: u32,
    src_size: usize,
    src_len: usize,
    destination_address: u32,
    dst_size: usize,
    dst_len: usize,
) -> Result<TransferDescriptor, ConfigError> {
    if src_len != dst_len {
        Err(ConfigError::LengthMismatch { source_len: src_len, destination_len: dst_len })
    } else {
        let (src_width, dst_width, count) = derived_beats(src_size, dst_size, src_len);
        match TransferWidth::spec_from_bytes(src_width) {
            None => Err(ConfigError::UnsupportedWidth { bytes: src_width }),
            Some(source_width) => match TransferWidth::spec_from_bytes(dst_width) {
                None => Err(ConfigError::UnsupportedWidth { bytes: dst_width }),
                Some(destination_width) => Ok(
                    TransferDescriptor {
                        source_address,
                        destination_address,
                        source_width,
                        destination_width,
                        count,
                    },
                ),
            },
        }
    }
}

impl TransferDescriptor {
    /// The mode every transfer of this kind runs in: memory to memory, one
    /// shot, reading from the peripheral side, both addresses advancing.
    pub open spec fn spec_control_word(self) -> ControlWord {
        ControlWord {
            mem2mem: true,
            circular: false,
            direction: Direction::FromPeripheral,
            peripheral_increment: true,
            memory_increment: true,
            peripheral_width: self.source_width,
            memory_width: self.destination_width,
        }
    }

    /// Derives the descriptor for a source of `src_len` elements of
    /// `src_size` bytes at `source_address` and a destination of `dst_len`
    /// elements of `dst_size` bytes at `destination_address`.
    ///
    /// At least one buffer must hold an element: a transfer of nothing has
    /// no defined meaning for the engine.
    pub fn derive(
        source_address: u32,
        src_size: usize,
        src_len: usize,
        destination_address: u32,
        dst_size: usize,
        dst_len: usize,
    ) -> (r: Result<TransferDescriptor, ConfigError>)
        requires
            src_len > 0 || dst_len > 0,
        ensures
            r == spec_derive(
                source_address,
                src_size,
                src_len,
                destination_address,
                dst_size,
                dst_len,
            ),
    {
        if src_len != dst_len {
            return Err(
                ConfigError::LengthMismatch { source_len: src_len, destination_len: dst_len },
            );
        }
        let mut src_width: usize = src_size;
        let mut dst_width: usize = dst_size;
        let mut count: usize = src_len;
        if src_size == dst_size {
            while (src_width == 1 || src_width == 2) && count % 2 == 0
                invariant
                    src_width == dst_width,
                    coarsened(src_width, count) == coarsened(src_size, src_len),
                decreases 4 - src_width,
            {
                src_width = src_width * 2;
                dst_width = dst_width * 2;
                count = count / 2;
            }
        }
        match TransferWidth::from_bytes(src_width) {
            None => Err(ConfigError::UnsupportedWidth { bytes: src_width }),
            Some(source_width) => match TransferWidth::from_bytes(dst_width) {
                None => Err(ConfigError::UnsupportedWidth { bytes: dst_width }),
                Some(destination_width) => Ok(
                    TransferDescriptor {
                        source_address,
                        destination_address,
                        source_width,
                        destination_width,
                        count,
                    },
                ),
            },
        }
    }

    /// The control word to program for this transfer.
    pub fn control_word(&self) -> (word: ControlWord)
        ensures
            word == self.spec_control_word(),
    {
        ControlWord {
            mem2mem: true,
            circular: false,
            direction: Direction::FromPeripheral,
            peripheral_increment: true,
            memory_increment: true,
            peripheral_width: self.source_width,
            memory_width: self.destination_width,
        }
    }
}

/// Derives the transfer that copies `src` to `dst`, element for element.
///
/// `src_addr` and `dst_addr` are the bus addresses of the first elements.
/// Nothing is programmed and nothing is started: the caller writes the
/// descriptor to its channel and runs it.
pub fn dma_set_addr<T1, T2>(src_addr: u32, src: &[T1], dst_addr: u32, dst: &[T2]) -> (r: Result<
    TransferDescriptor,
    ConfigError,
>)
    requires
        src@.len() > 0 || dst@.len() > 0,
    ensures
        r == spec_derive(
            src_addr,
            core::mem::size_of::<T1>(),
            src.len(),
            dst_addr,
            core::mem::size_of::<T2>(),
            dst.len(),
        ),
{
    TransferDescriptor::derive(
        src_addr,
        core::mem::size_of::<T1>(),
        src.len(),
        dst_addr,
        core::mem::size_of::<T2>(),
        dst.len(),
    )
}

/// Buffers of different lengths are always refused, whatever their element
/// sizes: no transfer is derived for the shorter length.
pub proof fn lemma_length_mismatch_rejected(
    source_address: u32,
    src_size: usize,
    src_len: usize,
    destination_address: u32,
    dst_size: usize,
    dst_len: usize,
)
    requires
        src_len != dst_len,
    ensures
        spec_derive(source_address, src_size, src_len, destination_address, dst_size, dst_len)
            == Err::<TransferDescriptor, ConfigError>(
            (ConfigError::LengthMismatch { source_len: src_len, destination_len: dst_len }),
        ),
{
}

/// A transfer is derived exactly for buffers of equal length whose element
/// sizes are both 1, 2 or 4 bytes.
pub proof fn lemma_accepted_iff_supported(
    source_address: u32,
    src_size: usize,
    src_len: usize,
    destination_address: u32,
    dst_size: usize,
    dst_len: usize,
)
    ensures
        spec_derive(source_address, src_size, src_len, destination_address, dst_size, dst_len)
            is Ok <==> src_len == dst_len && TransferWidth::spec_from_bytes(src_size) is Some
            && TransferWidth::spec_from_bytes(dst_size) is Some,
{
}

/// The derived transfer moves exactly the bytes of the buffers: on each side
/// the beat width times the beat count is the element size times the length.
pub proof fn lemma_byte_volume_preserved(
    source_address: u32,
    src_size: usize,
    src_len: usize,
    destination_address: u32,
    dst_size: usize,
    dst_len: usize,
)
    requires
        spec_derive(source_address, src_size, src_len, destination_address, dst_size, dst_len)
            is Ok,
    ensures
        ({
            let d = spec_derive(
                source_address,
                src_size,
                src_len,
                destination_address,
                dst_size,
                dst_len,
            )->Ok_0;
            &&& d.source_width.spec_bytes() * d.count == src_size * src_len
            &&& d.destination_width.spec_bytes() * d.count == dst_size * dst_len
        }),
{
}

/// One-byte elements in a count divisible by four travel as four-byte beats,
/// a quarter as many.
pub proof fn lemma_bytes_in_fours_become_words(
    source_address: u32,
    destination_address: u32,
    len: usize,
)
    requires
        len % 4 == 0,
    ensures
        spec_derive(source_address, 1, len, destination_address, 1, len) == Ok::<
            TransferDescriptor,
            ConfigError,
        >(
            (TransferDescriptor {
                source_address,
                destination_address,
                source_width: TransferWidth::Bits32,
                destination_width: TransferWidth::Bits32,
                count: (len / 4) as usize,
            }),
        ),
{
}

/// An odd number of elements is never coarsened: both sides keep the element
/// size as their beat width and the beat count is the length.
pub proof fn lemma_odd_count_not_coarsened(src_size: usize, dst_size: usize, len: usize)
    requires
        len % 2 == 1,
    ensures
        derived_beats(src_size, dst_size, len) == (src_size, dst_size, len),
{
}

/// An odd number of one-byte elements travels as one-byte beats, one per
/// element.
pub proof fn lemma_odd_bytes_stay_bytes(source_address: u32, destination_address: u32, len: usize)
    requires
        len % 2 == 1,
    ensures
        spec_derive(source_address, 1, len, destination_address, 1, len) == Ok::<
            TransferDescriptor,
            ConfigError,
        >(
            (TransferDescriptor {
                source_address,
                destination_address,
                source_width: TransferWidth::Bits8,
                destination_width: TransferWidth::Bits8,
                count: len,
            }),
        ),
{
}

} // verus!
