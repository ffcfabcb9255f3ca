//! Shader bytecode: a sequence of 32-bit words, each stored least
//! significant byte first.

use vstd::prelude::*;
use crate::error::StartupError;
use crate::words::{read_word, word_at};

verus! {

/// The words that `bytes` hold, where their number is a multiple of four.
pub open spec fn shader_words(bytes: Seq<u8>) -> Seq<u32> {
    Seq::new(bytes.len() / 4, |i: int| word_at(bytes, 4 * i))
}

/// Turns the bytes of a shader file into the words the graphics API
/// takes. Bytecode whose length is not a multiple of four is refused.
pub fn read_spirv_shader(bytes: &[u8]) -> (result: Result<Vec<u32>, StartupError>)
    ensures
        bytes@.len() % 4 != 0 ==> result == Err::<Vec<u32>, StartupError>(
            StartupError::ShaderLoad,
        ),
        bytes@.len() % 4 == 0 ==> (result matches Ok(words) && words@ == shader_words(bytes@)),
{
    if bytes.len() % 4 != 0 {
        return Err(StartupError::ShaderLoad);
    }
    let length: usize = bytes.len();
    let count: usize = length / 4;
    let mut words: Vec<u32> = Vec::with_capacity(count);
    let mut i: usize = 0;
    while i < count
        invariant
            i <= count,
            length == bytes@.len(),
            length == 4 * count,
            words@.len() == i,
            forall|j: int| 0 <= j < i ==> words@[j] == word_at(bytes@, 4 * j),
        decreases count - i,
    {
        words.push(read_word(bytes, 4 * i));
        i += 1;
    }
    assert(words@ =~= shader_words(bytes@));
    Ok(words)
}

} // verus!
