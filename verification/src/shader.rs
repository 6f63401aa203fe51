//! Shader code, as the words that a shader module is created from.

use vstd::prelude::*;
use crate::error::RenderError;

verus! {

/// The 32-bit word that four bytes spell, lowest byte first.
pub open spec fn word_of(b0: u8, b1: u8, b2: u8, b3: u8) -> int {
    b0 + 0x100 * b1 + 0x1_0000 * b2 + 0x100_0000 * b3
}

/// The words that a sequence of bytes spells, four bytes to the word.
pub open spec fn words_of(bytes: Seq<u8>) -> Seq<u32> {
    Seq::new(
        (bytes.len() / 4) as nat,
        |i: int| word_of(bytes[4 * i], bytes[4 * i + 1], bytes[4 * i + 2], bytes[4 * i + 3]) as u32,
    )
}

/// Whether bytes can be shader code: there are some, and they make up whole
/// words.
pub open spec fn is_shader_code(bytes: Seq<u8>) -> bool {
    bytes.len() > 0 && bytes.len() % 4 == 0
}

/// Compiled shader code, held as aligned words.
pub struct Shader {
    /// The driver's handle, zero until the module has been created.
    pub module: u64,
    pub code: Vec<u32>,
}

impl Shader {
    /// Takes the bytes of a compiled shader and lines them up as words.
    ///
    /// Fails where there are no bytes or their number is no multiple of four.
    pub fn from_spv(bytes: &Vec<u8>) -> (shader: Result<Shader, RenderError>)
        ensures
            is_shader_code(bytes@) ==> shader is Ok && shader->Ok_0.module == 0
                && shader->Ok_0.code@ == words_of(bytes@),
            !is_shader_code(bytes@) ==> shader is Err && shader->Err_0
                == RenderError::MisalignedShaderCode,
    {
        if bytes.len() == 0 || bytes.len() % 4 != 0 {
            return Err(RenderError::MisalignedShaderCode);
        }
        let count: usize = bytes.len() / 4;
        let mut code: Vec<u32> = Vec::new();
        let mut i: usize = 0;
        while i < count
            invariant
                count == bytes@.len() / 4,
                bytes@.len() % 4 == 0,
                bytes@.len() <= usize::MAX,
                i <= count,
                code@.len() == i,
                forall|j: int| 0 <= j < i ==> code@[j] == words_of(bytes@)[j],
            decreases count - i,
        {
            let b0: u32 = bytes[4 * i] as u32;
            let b1: u32 = bytes[4 * i + 1] as u32;
            let b2: u32 = bytes[4 * i + 2] as u32;
            let b3: u32 = bytes[4 * i + 3] as u32;
            code.push(b0 + 0x100 * b1 + 0x1_0000 * b2 + 0x100_0000 * b3);
            i += 1;
        }
        Ok(Shader { module: 0, code })
    }

    /// The size of the code in bytes, as a shader module is created with.
    pub fn code_size(&self) -> (size: Option<usize>)
        ensures
            size == if self.code@.len() * 4 <= usize::MAX {
                Some((self.code@.len() * 4) as usize)
            } else {
                None
            },
    {
        self.code.len().checked_mul(4)
    }
}

} // verus!
