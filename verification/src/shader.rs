//! Shader stages: from what the shading-language compiler hands back to the
//! words of a module the device accepts.

use vstd::prelude::*;
use vstd::string::*;

use crate::error::RenderError;
use crate::format::ShaderStage;

verus! {

/// The first word of every SPIR-V module.
pub const SPIRV_MAGIC: u32 = 0x0723_0203;

/// The 32-bit word whose least significant byte is `b0`.
pub open spec fn word_of(b0: u8, b1: u8, b2: u8, b3: u8) -> u32 {
    (b0 as int + 0x100 * (b1 as int) + 0x1_0000 * (b2 as int) + 0x100_0000 * (b3 as int)) as u32
}

/// The bytes read as words stored least significant byte first.
pub open spec fn words_le(bytes: Seq<u8>) -> Seq<u32> {
    Seq::new(
        (bytes.len() / 4) as nat,
        |i: int| word_of(bytes[4 * i], bytes[4 * i + 1], bytes[4 * i + 2], bytes[4 * i + 3]),
    )
}

/// The bytes read as words stored most significant byte first.
pub open spec fn words_be(bytes: Seq<u8>) -> Seq<u32> {
    Seq::new(
        (bytes.len() / 4) as nat,
        |i: int| word_of(bytes[4 * i + 3], bytes[4 * i + 2], bytes[4 * i + 1], bytes[4 * i]),
    )
}

/// The words of a SPIR-V module stored in `bytes`, in whichever byte order
/// puts the magic number first; nothing when the length is not a positive
/// multiple of four or the magic number is missing.
pub open spec fn spirv_words(bytes: Seq<u8>) -> Option<Seq<u32>> {
    if bytes.len() == 0 || bytes.len() % 4 != 0 {
        None
    } else if words_le(bytes)[0] == SPIRV_MAGIC {
        Some(words_le(bytes))
    } else if words_be(bytes)[0] == SPIRV_MAGIC {
        Some(words_be(bytes))
    } else {
        None
    }
}

/// Reads the words of a SPIR-V module from memory.
///
/// Calls `wgpu::read_spirv` on a cursor over the bytes.  Trusted: it returns
/// the words in the byte order that puts the magic number first, and fails
/// on a length that is not a multiple of four and on a missing magic number,
/// which is what [`spirv_words`] says; its error text is dropped.
#[verifier::external_body]
fn read_spirv(bytes: &[u8]) -> (r: Option<Vec<u32>>)
    ensures
        r matches Some(words) ==> spirv_words(bytes@) == Some(words@),
        r is None ==> spirv_words(bytes@) is None,
{
    wgpu::read_spirv(std::io::Cursor::new(bytes)).ok()
}

/// The entry point of every stage of this renderer.
pub open spec fn entry_point_name() -> Seq<char> {
    "main"@
}

/// The diagnostic for compiler output that is not a SPIR-V module.
pub open spec fn not_a_module_text() -> Seq<char> {
    "compiler output is not a SPIR-V module"@
}

/// The program of one pipeline stage, ready for the device.
#[derive(Clone, Debug, PartialEq, Eq)]
pub struct ShaderModule {
    pub stage: ShaderStage,
    pub words: Vec<u32>,
    pub entry_point: String,
}

/// An error that is a failed shader compilation with the given diagnostic.
pub open spec fn is_compile_error(e: RenderError, diagnostic: Seq<char>) -> bool {
    e matches RenderError::ShaderCompileError(d) && d@ == diagnostic
}

/// The diagnostic with which a stage fails, if it fails: the compiler's own
/// when it rejected the source, a fixed one when its output is no module.
pub open spec fn stage_failure(compiled: Result<Vec<u8>, String>) -> Option<Seq<char>> {
    match compiled {
        Err(diagnostic) => Some(diagnostic@),
        Ok(bytes) => if spirv_words(bytes@) is None {
            Some(not_a_module_text())
        } else {
            None
        },
    }
}

impl ShaderModule {
    /// The module is the one for `stage` with the given words, entered at
    /// `main`.
    pub open spec fn holds(self, stage: ShaderStage, words: Seq<u32>) -> bool {
        &&& self.stage == stage
        &&& self.words@ == words
        &&& self.entry_point@ == entry_point_name()
    }

    /// Turns what the compiler handed back for one stage into a module.
    ///
    /// `compiled` is the compiler's output file as bytes, or its diagnostic.
    /// A diagnostic becomes a `ShaderCompileError` that carries it; output
    /// that is not a SPIR-V module becomes a `ShaderCompileError` too.
    pub fn load(stage: ShaderStage, compiled: Result<Vec<u8>, String>) -> (r: Result<
        ShaderModule,
        RenderError,
    >)
        ensures
            match r {
                Ok(module) => stage_failure(compiled) is None && module.holds(
                    stage,
                    spirv_words(compiled->Ok_0@)->Some_0,
                ) && module.words@.len() > 0 && module.words@[0] == SPIRV_MAGIC,
                Err(e) => stage_failure(compiled) matches Some(diagnostic) && is_compile_error(
                    e,
                    diagnostic,
                ),
            },
    {
        match compiled {
            Err(diagnostic) => Err(RenderError::ShaderCompileError(diagnostic)),
            Ok(bytes) => match read_spirv(bytes.as_slice()) {
                None => Err(
                    RenderError::ShaderCompileError(
                        String::from_str("compiler output is not a SPIR-V module"),
                    ),
                ),
                Some(words) => {
                    proof {
                        lemma_spirv_words_start_with_magic(bytes@);
                    }
                    Ok(ShaderModule { stage, words, entry_point: String::from_str("main") })
                },
            },
        }
    }
}

/// A module in either byte order is read to the same words: those that
/// start with the magic number.
pub proof fn lemma_spirv_words_start_with_magic(bytes: Seq<u8>)
    ensures
        spirv_words(bytes) matches Some(words) ==> words.len() == bytes.len() / 4 && words.len()
            > 0 && words[0] == SPIRV_MAGIC,
{
}

} // verus!
