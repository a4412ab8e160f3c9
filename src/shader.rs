//! Framing of compiled shader modules: a SPIR-V binary is a sequence of
//! 32-bit words whose first word is the magic number, stored in either byte
//! order. A binary that is not framed so is refused before it reaches the
//! device.

use vstd::prelude::*;

use crate::error::BootstrapError;

verus! {

/// The first word of every SPIR-V module.
pub const SPIRV_MAGIC: u32 = 0x0723_0203;

/// The number of words in a SPIR-V module header.
pub const HEADER_WORDS: usize = 5;

/// The `i`-th word of `b`, read least significant byte first.
pub open spec fn word_le(b: Seq<u8>, i: int) -> int {
    b[4 * i] + 0x100 * b[4 * i + 1] + 0x1_0000 * b[4 * i + 2] + 0x100_0000 * b[4 * i + 3]
}

/// The `i`-th word of `b`, read most significant byte first.
pub open spec fn word_be(b: Seq<u8>, i: int) -> int {
    0x100_0000 * b[4 * i] + 0x1_0000 * b[4 * i + 1] + 0x100 * b[4 * i + 2] + b[4 * i + 3]
}

/// `b` is a whole number of words, holds at least a header, and starts with
/// the magic number in one of the two byte orders.
pub open spec fn well_framed(b: Seq<u8>) -> bool {
    &&& b.len() % 4 == 0
    &&& b.len() >= 4 * HEADER_WORDS
    &&& (word_le(b, 0) == SPIRV_MAGIC || word_be(b, 0) == SPIRV_MAGIC)
}

/// The words of a well-framed `b`, in the byte order its magic number shows.
pub open spec fn words_of(b: Seq<u8>) -> Seq<u32> {
    Seq::new(
        (b.len() / 4) as nat,
        |i: int|
            if word_le(b, 0) == SPIRV_MAGIC {
                word_le(b, i) as u32
            } else {
                word_be(b, i) as u32
            },
    )
}

/// The word made of four bytes, least significant first.
fn join_le(b0: u8, b1: u8, b2: u8, b3: u8) -> (r: u32)
    ensures
        r == b0 + 0x100 * b1 + 0x1_0000 * b2 + 0x100_0000 * b3,
{
    (b0 as u32) + (b1 as u32) * 0x100 + (b2 as u32) * 0x1_0000 + (b3 as u32) * 0x100_0000
}

/// The words of a SPIR-V binary. Fails with `ShaderLoad` when the bytes are
/// not a well-framed module.
pub fn decode_spirv(bytes: &Vec<u8>) -> (r: Result<Vec<u32>, BootstrapError>)
    ensures
        r is Ok <==> well_framed(bytes@),
        r matches Ok(w) ==> w@ == words_of(bytes@),
        r matches Err(e) ==> e == BootstrapError::ShaderLoad,
{
    let n: usize = bytes.len();
    if n % 4 != 0 || n < 4 * HEADER_WORDS {
        return Err(BootstrapError::ShaderLoad);
    }
    let little = join_le(bytes[0], bytes[1], bytes[2], bytes[3]) == SPIRV_MAGIC;
    let big = join_le(bytes[3], bytes[2], bytes[1], bytes[0]) == SPIRV_MAGIC;
    if !little && !big {
        return Err(BootstrapError::ShaderLoad);
    }
    let count: usize = n / 4;
    let mut words: Vec<u32> = Vec::new();
    let mut i: usize = 0;
    while i < count
        invariant
            n == bytes@.len(),
            count == n / 4,
            n % 4 == 0,
            i <= count,
            little == (word_le(bytes@, 0) == SPIRV_MAGIC),
            words@ == words_of(bytes@).take(i as int),
        decreases count - i,
    {
        let w = if little {
            join_le(bytes[4 * i], bytes[4 * i + 1], bytes[4 * i + 2], bytes[4 * i + 3])
        } else {
            join_le(bytes[4 * i + 3], bytes[4 * i + 2], bytes[4 * i + 1], bytes[4 * i])
        };
        words.push(w);
        assert(words@ =~= words_of(bytes@).take(i + 1));
        i = i + 1;
    }
    assert(words_of(bytes@).take(count as int) =~= words_of(bytes@));
    Ok(words)
}

/// Turns the compiler's outcome into module words: its diagnostics become
/// `ShaderCompilation`, a badly framed binary `ShaderLoad`.
pub fn prepare_shader(compiled: Result<Vec<u8>, String>) -> (r: Result<Vec<u32>, BootstrapError>)
    ensures
        compiled matches Err(d) ==> r == Err::<Vec<u32>, BootstrapError>(BootstrapError::ShaderCompilation { diagnostics: d }),
        compiled matches Ok(b) ==> {
            &&& r is Ok <==> well_framed(b@)
            &&& r matches Ok(w) ==> w@ == words_of(b@)
            &&& r matches Err(e) ==> e == BootstrapError::ShaderLoad
        },
{
    match compiled {
        Ok(b) => decode_spirv(&b),
        Err(diagnostics) => Err(BootstrapError::ShaderCompilation { diagnostics }),
    }
}

} // verus!
