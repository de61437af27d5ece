//! The payload codec: how the serialized account state becomes the bytes a
//! record carries, and back.

use vstd::prelude::*;
use vstd::bytes::spec_u32_to_le_bytes;
use vstd::slice::slice_to_vec;
use lz4::block::CompressionMode;
use crate::error::RecordError;

verus! {

/// `lz4::block::CompressionMode`, with its variants: the compressor's family
/// and the level or acceleration it runs at.
#[verifier::external_type_specification]
pub struct ExCompressionMode(lz4::block::CompressionMode);

/// `std::io::Error`, in which `lz4` reports a failure. Only carried.
#[verifier::external_type_specification]
#[verifier::external_body]
pub struct ExIoError(std::io::Error);

/// What `lz4::block::decompress` with no explicit size makes of `wire`: the
/// bytes it returns, or `None` where it reports an error.
pub uninterp spec fn lz4_block_decompressed(wire: Seq<u8>) -> Option<Seq<u8>>;

/// First level at which the ratio-tuned compressor plans a whole block ahead.
pub const LZ4HC_LEVEL_OPT_MIN: i32 = 10;

/// The level the ratio-tuned compressor uses where none is asked for.
pub const LZ4HC_LEVEL_DEFAULT: i32 = 9;

/// Whether `lz4::block::compress` may be handed `src_len` bytes in `mode`.
/// From level 10 on, the ratio-tuned compressor computes addresses in front
/// of its input before it looks at the length; on an empty input these lie
/// outside any buffer and the call reads through them.
pub open spec fn lz4_compress_defined(src_len: nat, mode: Option<CompressionMode>) -> bool {
    src_len == 0 ==> !(mode matches Some(CompressionMode::HIGHCOMPRESSION(level)) && level
        >= LZ4HC_LEVEL_OPT_MIN)
}

/// Number of bytes in front of a frame that give the length of what was
/// compressed.
pub const FRAME_PREFIX_LEN: usize = 4;

/// Most bytes the compressor takes in one block.
pub const LZ4_MAX_INPUT_SIZE: usize = 0x7E00_0000;

/// The four little-endian bytes in front of a frame of `raw_len` bytes.
pub open spec fn frame_prefix(raw_len: nat) -> Seq<u8> {
    spec_u32_to_le_bytes(raw_len as u32)
}

/// `lz4::block::compress`. It takes no more than `i32::MAX` bytes. With the
/// length prepended, whatever bytes it returns are a frame that
/// `lz4::block::decompress` turns back into `src`: the length of `src` as
/// four little-endian bytes, then at least one byte of compressed data.
/// The speed-tuned compressor works in place and returns a frame for every
/// input of at most `LZ4_MAX_INPUT_SIZE` bytes; the ratio-tuned one first
/// asks the allocator for its state, so nothing is said of when it
/// succeeds. Nothing is said of the compressed data itself: which matches
/// the compressor finds depends on the machine's word size and byte order.
/// The one input on which the call does not return is left out.
pub assume_specification[ lz4::block::compress ](
    src: &[u8],
    mode: Option<CompressionMode>,
    prepend_size: bool,
) -> (r: std::io::Result<Vec<u8>>)
    requires
        lz4_compress_defined(src@.len(), mode),
    ensures
        r is Ok ==> src@.len() <= i32::MAX,
        mode matches Some(CompressionMode::FAST(_)) && src@.len() <= LZ4_MAX_INPUT_SIZE ==> r is Ok,
        prepend_size ==> (r matches Ok(out) ==> {
            &&& lz4_block_decompressed(out@) == Some(src@)
            &&& out@.len() > FRAME_PREFIX_LEN
            &&& out@.subrange(0, 4) == frame_prefix(src@.len())
        }),
;

/// `lz4::block::decompress`. Reading the length from the frame, its outcome
/// is a function of the frame alone; a frame too short to hold the length is
/// an error.
pub assume_specification[ lz4::block::decompress ](
    src: &[u8],
    uncompressed_size: Option<i32>,
) -> (r: std::io::Result<Vec<u8>>)
    ensures
        uncompressed_size is None ==> match r {
            Ok(out) => lz4_block_decompressed(src@) == Some(out@),
            Err(_) => lz4_block_decompressed(src@) is None,
        },
        uncompressed_size is None && src@.len() < FRAME_PREFIX_LEN ==> r is Err,
;

/// How the payload of a record is encoded.
#[derive(Clone, Copy, Debug, PartialEq, Eq, Structural, PartialOrd, Ord, Hash)]
pub enum CompressionType {
    /// Stored as it is.
    Uncompressed,
    /// LZ4 tuned for speed, with its acceleration.
    Lz4Fast(u32),
    /// LZ4 tuned for ratio, with its level.
    Lz4(u32),
}

/// The compressor's verdict as this library reports it.
pub fn compression_outcome(outcome: std::io::Result<Vec<u8>>) -> (r: Result<Vec<u8>, RecordError>)
    ensures
        match outcome {
            Ok(wire) => r == Ok::<Vec<u8>, RecordError>(wire),
            Err(_) => r == Err::<Vec<u8>, RecordError>(RecordError::CompressionFailure),
        },
{
    match outcome {
        Ok(wire) => Ok(wire),
        Err(_) => Err(RecordError::CompressionFailure),
    }
}

/// The decompressor's verdict as this library reports it.
pub fn decompression_outcome(outcome: std::io::Result<Vec<u8>>) -> (r: Result<
    Vec<u8>,
    RecordError,
>)
    ensures
        match outcome {
            Ok(raw) => r == Ok::<Vec<u8>, RecordError>(raw),
            Err(_) => r == Err::<Vec<u8>, RecordError>(RecordError::DecodeFailure),
        },
{
    match outcome {
        Ok(raw) => Ok(raw),
        Err(_) => Err(RecordError::DecodeFailure),
    }
}

impl CompressionType {
    /// The bytes that `wire` stands for under this compression type, or
    /// `None` where `wire` is not a valid frame of it.
    pub open spec fn decoded(self, wire: Seq<u8>) -> Option<Seq<u8>> {
        match self {
            CompressionType::Uncompressed => Some(wire),
            CompressionType::Lz4Fast(_) => lz4_block_decompressed(wire),
            CompressionType::Lz4(_) => lz4_block_decompressed(wire),
        }
    }

    /// Whether `wire` is a frame of `raw` under this compression type: it
    /// decodes to `raw`, and a compressed frame also starts with the length of
    /// `raw`.
    pub open spec fn is_frame_of(self, wire: Seq<u8>, raw: Seq<u8>) -> bool {
        &&& self.decoded(wire) == Some(raw)
        &&& self != CompressionType::Uncompressed ==> {
            &&& wire.len() > FRAME_PREFIX_LEN
            &&& wire.subrange(0, 4) == frame_prefix(raw.len())
            &&& raw.len() <= i32::MAX
        }
    }

    /// The mode in which the compressor is run on `raw_len` bytes, or `None`
    /// where the payload is stored as it is. The parameter is handed on as a
    /// signed integer of the same 32 bits. The one exception: an empty input
    /// that asks for level 10 or more is compressed at the default level,
    /// where its frame is the same.
    pub open spec fn spec_compression_mode(self, raw_len: nat) -> Option<CompressionMode> {
        match self {
            CompressionType::Uncompressed => None,
            CompressionType::Lz4Fast(speed) => Some(CompressionMode::FAST(speed as i32)),
            CompressionType::Lz4(level) => Some(
                CompressionMode::HIGHCOMPRESSION(
                    if raw_len == 0 && level as i32 >= LZ4HC_LEVEL_OPT_MIN {
                        LZ4HC_LEVEL_DEFAULT
                    } else {
                        level as i32
                    },
                ),
            ),
        }
    }

    /// Computes the mode in which the compressor is run on `raw_len` bytes.
    pub fn compression_mode(&self, raw_len: usize) -> (r: Option<CompressionMode>)
        ensures
            r == self.spec_compression_mode(raw_len as nat),
            lz4_compress_defined(raw_len as nat, r),
    {
        match *self {
            CompressionType::Uncompressed => None,
            CompressionType::Lz4Fast(speed) => Some(
                CompressionMode::FAST(#[verifier::truncate] (speed as i32)),
            ),
            CompressionType::Lz4(level) => {
                let asked: i32 = #[verifier::truncate] (level as i32);
                if raw_len == 0 && asked >= LZ4HC_LEVEL_OPT_MIN {
                    Some(CompressionMode::HIGHCOMPRESSION(LZ4HC_LEVEL_DEFAULT))
                } else {
                    Some(CompressionMode::HIGHCOMPRESSION(asked))
                }
            },
        }
    }

    /// Turns `raw` into the bytes a record carries. Without compression the
    /// bytes are `raw` itself and the call cannot fail. With compression the
    /// compressor is run in `compression_mode`, and the result is a frame
    /// that decodes to `raw`. The speed-tuned compressor returns one for
    /// every input of at most `LZ4_MAX_INPUT_SIZE` bytes; of the ratio-tuned
    /// one the allocator decides.
    pub fn encode(&self, raw: Vec<u8>) -> (r: Result<Vec<u8>, RecordError>)
        ensures
            *self == CompressionType::Uncompressed ==> r == Ok::<Vec<u8>, RecordError>(raw),
            *self is Lz4Fast && raw@.len() <= LZ4_MAX_INPUT_SIZE ==> r is Ok,
            match r {
                Ok(wire) => self.is_frame_of(wire@, raw@),
                Err(e) => e == RecordError::CompressionFailure && *self
                    != CompressionType::Uncompressed,
            },
    {
        match self.compression_mode(raw.len()) {
            None => Ok(raw),
            Some(mode) => compression_outcome(
                lz4::block::compress(raw.as_slice(), Some(mode), true),
            ),
        }
    }

    /// Turns the bytes a record carries back into what was encoded. Fails
    /// with `DecodeFailure` exactly when `wire` is not a valid frame; a
    /// compressed frame of fewer than four bytes never is. The decompressor
    /// allocates as many bytes as the frame announces, which can be close to
    /// 2 GiB, before it reads the compressed data.
    pub fn decode(&self, wire: &[u8]) -> (r: Result<Vec<u8>, RecordError>)
        ensures
            match r {
                Ok(raw) => self.decoded(wire@) == Some(raw@),
                Err(e) => e == RecordError::DecodeFailure && self.decoded(wire@) is None,
            },
            *self != CompressionType::Uncompressed && wire@.len() < FRAME_PREFIX_LEN ==> r is Err,
    {
        match *self {
            CompressionType::Uncompressed => Ok(slice_to_vec(wire)),
            CompressionType::Lz4Fast(_) => decompression_outcome(
                lz4::block::decompress(wire, None),
            ),
            CompressionType::Lz4(_) => decompression_outcome(lz4::block::decompress(wire, None)),
        }
    }
}

/// The parameter that the compressor is handed: the same number where it
/// fits a signed integer, and 2^32 less where it does not.
pub proof fn lemma_parameter_as_signed(parameter: u32)
    ensures
        parameter <= i32::MAX ==> parameter as i32 == parameter,
        parameter > i32::MAX ==> parameter as i32 == parameter - 0x1_0000_0000,
{
    assert(parameter <= 0x7fff_ffffu32 ==> parameter as i32 == parameter) by (bit_vector);
    assert(parameter > 0x7fff_ffffu32 ==> parameter as i32 == parameter - 0x1_0000_0000)
        by (bit_vector);
}

/// Decoding undoes encoding: if `wire` is a frame of
/// `raw`, then `wire` decodes, and to nothing but `raw`.
pub proof fn lemma_decode_inverts_encode(t: CompressionType, raw: Seq<u8>, wire: Seq<u8>)
    requires
        t.is_frame_of(wire, raw),
    ensures
        t.decoded(wire) == Some(raw),
        forall|other: Seq<u8>| t.is_frame_of(wire, other) ==> other == raw,
{
}

/// Without compression every byte sequence is its own frame.
pub proof fn lemma_uncompressed_round_trip(raw: Seq<u8>)
    ensures
        CompressionType::Uncompressed.is_frame_of(raw, raw),
        CompressionType::Uncompressed.decoded(raw) == Some(raw),
{
}

} // verus!
