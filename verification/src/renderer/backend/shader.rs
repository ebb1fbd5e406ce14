//! Shader modules: SPIR-V bytes are decoded into the words that a shader
//! module is created from.

use vstd::prelude::*;

verus! {

/// `std::io::Error`: why reading failed, carried as it is. Nothing is said
/// of what it holds.
#[verifier::external_type_specification]
#[verifier::external_body]
pub struct ExIoError(std::io::Error);

/// The first word of every SPIR-V module.
pub const SPIRV_MAGIC_NUMBER: u32 = 0x0723_0203;

/// The 32-bit word whose bytes are `b0` to `b3`, lowest first.
pub open spec fn word_of(b0: u8, b1: u8, b2: u8, b3: u8) -> u32 {
    (b0 as u32) | ((b1 as u32) << 8) | ((b2 as u32) << 16) | ((b3 as u32) << 24)
}

/// The words of `bytes` read with the lowest byte of each word first.
pub open spec fn words_le(bytes: Seq<u8>) -> Seq<u32> {
    Seq::new(
        bytes.len() / 4,
        |i: int| word_of(bytes[4 * i], bytes[4 * i + 1], bytes[4 * i + 2], bytes[4 * i + 3]),
    )
}

/// The words of `bytes` read with the highest byte of each word first.
pub open spec fn words_be(bytes: Seq<u8>) -> Seq<u32> {
    Seq::new(
        bytes.len() / 4,
        |i: int| word_of(bytes[4 * i + 3], bytes[4 * i + 2], bytes[4 * i + 1], bytes[4 * i]),
    )
}

/// Why bytes are no SPIR-V module.
#[derive(Clone, Copy, Debug, PartialEq, Eq, Structural)]
pub enum ShaderError {
    /// The number of bytes is no multiple of four.
    LengthNotDivisibleBy4,
    /// The first word is not the magic number, in either byte order, or
    /// there is no word at all.
    MissingMagicNumber,
}

/// The words of a SPIR-V module given as bytes: the bytes are read in the
/// byte order in which the first word is the magic number.
pub open spec fn decoded_spv(bytes: Seq<u8>) -> Result<Seq<u32>, ShaderError> {
    if bytes.len() % 4 != 0 {
        Err(ShaderError::LengthNotDivisibleBy4)
    } else if bytes.len() == 0 {
        Err(ShaderError::MissingMagicNumber)
    } else if words_le(bytes)[0] == SPIRV_MAGIC_NUMBER {
        Ok(words_le(bytes))
    } else if words_be(bytes)[0] == SPIRV_MAGIC_NUMBER {
        Ok(words_be(bytes))
    } else {
        Err(ShaderError::MissingMagicNumber)
    }
}

/// Calls `ash::util::read_spv` on the bytes. It fails where the number of
/// bytes is no multiple of four, and where the first word is not the magic
/// number in either byte order; else it gives the words in the byte order
/// in which the first word is the magic number, whatever the byte order of
/// the machine.
#[verifier::external_body]
fn read_spv(bytes: &Vec<u8>) -> (words: Result<Vec<u32>, std::io::Error>)
    ensures
        match decoded_spv(bytes@) {
            Ok(decoded) => words is Ok && words->Ok_0@ == decoded,
            Err(_) => words is Err,
        },
{
    ash::util::read_spv(&mut std::io::Cursor::new(bytes.as_slice()))
}

/// The code of a shader module.
#[derive(Debug)]
pub struct Shader {
    /// The words of the module.
    pub code: Vec<u32>,
    /// Whether the module was destroyed.
    pub destroyed: bool,
}

impl Shader {
    /// Decodes the bytes of a SPIR-V module.
    pub fn new(bytes: &Vec<u8>) -> (shader: Result<Self, ShaderError>)
        ensures
            match decoded_spv(bytes@) {
                Ok(decoded) => shader is Ok && shader->Ok_0.code@ == decoded
                    && !shader->Ok_0.destroyed,
                Err(e) => shader == Err::<Self, ShaderError>(e),
            },
    {
        match read_spv(bytes) {
            Ok(code) => Ok(Shader { code, destroyed: false }),
            Err(_) => {
                if bytes.len() % 4 != 0 {
                    Err(ShaderError::LengthNotDivisibleBy4)
                } else {
                    Err(ShaderError::MissingMagicNumber)
                }
            },
        }
    }

    /// Marks the module destroyed. A module is destroyed once.
    pub fn destroy(&mut self)
        requires
            !old(self).destroyed,
        ensures
            final(self).destroyed,
            final(self).code == old(self).code,
    {
        self.destroyed = true;
    }
}

} // verus!
