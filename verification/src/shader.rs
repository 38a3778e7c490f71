//! SPIR-V modules and the shader stages made of them.
use vstd::prelude::*;

use crate::define::{SPV_MAGIC_NUMBER_BE, SPV_MAGIC_NUMBER_LE};
use crate::handle::ShaderModule;

verus! {

/// The `i`th word of `bytes`, least significant byte first.
pub open spec fn little_endian_word(bytes: Seq<u8>, i: int) -> int {
    bytes[4 * i] + 0x100 * bytes[4 * i + 1] + 0x1_0000 * bytes[4 * i + 2] + 0x100_0000 * bytes[4 * i
        + 3]
}

/// The `i`th word of `bytes`, most significant byte first.
pub open spec fn big_endian_word(bytes: Seq<u8>, i: int) -> int {
    0x100_0000 * bytes[4 * i] + 0x1_0000 * bytes[4 * i + 1] + 0x100 * bytes[4 * i + 2] + bytes[4 * i
        + 3]
}

/// Why a byte string is not a SPIR-V module.
#[derive(Clone, Copy, Debug, PartialEq, Eq, Structural)]
pub enum SpirvError {
    /// The length is not a multiple of the word size.
    Length,
    /// There is no first word.
    Empty,
    /// The first word is the magic number in neither byte order.
    Magic,
}

/// What is wrong with `bytes` as a SPIR-V module, if anything is.
pub open spec fn spirv_error(bytes: Seq<u8>) -> Option<SpirvError> {
    if bytes.len() % 4 != 0 {
        Some(SpirvError::Length)
    } else if bytes.len() == 0 {
        Some(SpirvError::Empty)
    } else if little_endian_word(bytes, 0) != SPV_MAGIC_NUMBER_LE && big_endian_word(bytes, 0)
        != SPV_MAGIC_NUMBER_LE {
        Some(SpirvError::Magic)
    } else {
        None
    }
}

/// The words of the module `bytes`, read in the byte order in which the first
/// word is the magic number.
pub open spec fn spirv_words(bytes: Seq<u8>) -> Seq<u32> {
    Seq::new(
        bytes.len() / 4,
        |i: int|
            if little_endian_word(bytes, 0) == SPV_MAGIC_NUMBER_LE {
                little_endian_word(bytes, i) as u32
            } else {
                big_endian_word(bytes, i) as u32
            },
    )
}

/// Reads the `i`th word of `bytes`, least significant byte first.
fn read_little_endian(bytes: &[u8], i: usize) -> (word: u32)
    requires
        4 * i + 3 < bytes.len(),
    ensures
        word == little_endian_word(bytes@, i as int),
{
    bytes[4 * i] as u32 + 0x100 * (bytes[4 * i + 1] as u32) + 0x1_0000 * (bytes[4 * i + 2] as u32)
        + 0x100_0000 * (bytes[4 * i + 3] as u32)
}

/// Reads the `i`th word of `bytes`, most significant byte first.
fn read_big_endian(bytes: &[u8], i: usize) -> (word: u32)
    requires
        4 * i + 3 < bytes.len(),
    ensures
        word == big_endian_word(bytes@, i as int),
{
    0x100_0000 * (bytes[4 * i] as u32) + 0x1_0000 * (bytes[4 * i + 1] as u32) + 0x100 * (bytes[4 * i
        + 2] as u32) + bytes[4 * i + 3] as u32
}

/// A word is the swapped magic number in one byte order exactly when it is the
/// magic number in the other.
proof fn lemma_swapped_magic(bytes: Seq<u8>)
    requires
        bytes.len() >= 4,
    ensures
        little_endian_word(bytes, 0) == SPV_MAGIC_NUMBER_BE <==> big_endian_word(bytes, 0)
            == SPV_MAGIC_NUMBER_LE,
{
}

/// Tells whether `spirv_from_bytes` accepts `bytes`, and if not, why.
pub fn check_spirv(bytes: &[u8]) -> (result: Result<(), SpirvError>)
    ensures
        match result {
            Ok(_) => spirv_error(bytes@) is None,
            Err(error) => spirv_error(bytes@) == Some(error),
        },
{
    if bytes.len() % 4 != 0 {
        return Err(SpirvError::Length);
    }
    if bytes.len() == 0 {
        return Err(SpirvError::Empty);
    }
    let first: u32 = read_little_endian(bytes, 0);
    proof {
        lemma_swapped_magic(bytes@);
    }
    if first == SPV_MAGIC_NUMBER_LE || first == SPV_MAGIC_NUMBER_BE {
        Ok(())
    } else {
        Err(SpirvError::Magic)
    }
}

/// The words of a SPIR-V module, in whichever byte order it was stored.
pub fn spirv_from_bytes(bytes: &[u8]) -> (words: Vec<u32>)
    requires
        spirv_error(bytes@) is None,
    ensures
        words@ == spirv_words(bytes@),
{
    let count: usize = bytes.len() / 4;
    let in_order: bool = read_little_endian(bytes, 0) == SPV_MAGIC_NUMBER_LE;
    let mut words: Vec<u32> = Vec::new();
    let mut i: usize = 0;
    while i < count
        invariant
            i <= count,
            count == bytes@.len() / 4,
            in_order == (little_endian_word(bytes@, 0) == SPV_MAGIC_NUMBER_LE),
            words@ == spirv_words(bytes@).take(i as int),
        decreases count - i,
    {
        let word: u32 = if in_order {
            read_little_endian(bytes, i)
        } else {
            read_big_endian(bytes, i)
        };
        words.push(word);
        i += 1;
    }
    words
}

/// Byte `j` of `word`, counted from the least significant one.
pub open spec fn byte_of_word(word: u32, j: int) -> u8 {
    let shifted = if j == 0 {
        word as int
    } else if j == 1 {
        word as int / 0x100
    } else if j == 2 {
        word as int / 0x1_0000
    } else {
        word as int / 0x100_0000
    };
    (shifted % 0x100) as u8
}

/// A module's words as they are stored least significant byte first.
pub open spec fn stored_little_endian(words: Seq<u32>) -> Seq<u8> {
    Seq::new(4 * words.len(), |k: int| byte_of_word(words[k / 4], k % 4))
}

/// A module's words as they are stored most significant byte first.
pub open spec fn stored_big_endian(words: Seq<u32>) -> Seq<u8> {
    Seq::new(4 * words.len(), |k: int| byte_of_word(words[k / 4], 3 - k % 4))
}

/// A word is put together again from its bytes.
proof fn lemma_word_of_bytes(word: u32)
    ensures
        word == byte_of_word(word, 0) + 0x100 * byte_of_word(word, 1) + 0x1_0000 * byte_of_word(
            word,
            2,
        ) + 0x100_0000 * byte_of_word(word, 3),
{
}

/// Whatever module is read, its first word is the magic number in order, and no
/// byte of it is left over.
pub proof fn spirv_starts_with_magic(bytes: Seq<u8>)
    requires
        spirv_error(bytes) is None,
    ensures
        spirv_words(bytes).len() * 4 == bytes.len(),
        spirv_words(bytes)[0] == SPV_MAGIC_NUMBER_LE,
{
}

/// The byte order in which a module was stored makes no difference: either way
/// the module is accepted and its words come back.
pub proof fn spirv_byte_order_is_immaterial(words: Seq<u32>)
    requires
        words.len() > 0,
        words[0] == SPV_MAGIC_NUMBER_LE,
    ensures
        spirv_error(stored_little_endian(words)) is None,
        spirv_error(stored_big_endian(words)) is None,
        spirv_words(stored_little_endian(words)) == words,
        spirv_words(stored_big_endian(words)) == words,
{
    let little = stored_little_endian(words);
    let big = stored_big_endian(words);
    assert forall|i: int| 0 <= i < words.len() implies little_endian_word(little, i) == words[i]
        && big_endian_word(big, i) == words[i] by {
        lemma_word_of_bytes(words[i]);
    }
    lemma_swapped_magic(little);
    lemma_swapped_magic(big);
    assert(spirv_words(little) =~= words);
    assert(spirv_words(big) =~= words);
}

/// Name of the function with which every shader starts.
pub open spec fn entry_point() -> Seq<char> {
    "main"@
}

/// One stage of a pipeline: the module that holds it and where it starts.
#[derive(Clone, Copy, Debug)]
pub struct ShaderStageCreateInfo {
    pub stage: u32,
    pub module: ShaderModule,
    pub name: &'static str,
}

/// Describes the shader stage `stage` held by `module`.
pub fn shader_stage_create_info(stage: u32, module: ShaderModule) -> (info: ShaderStageCreateInfo)
    ensures
        info.stage == stage,
        info.module == module,
        info.name@ == entry_point(),
{
    ShaderStageCreateInfo { stage, module, name: "main" }
}

/// Whatever the module, its words are its bytes, four by four and none left out,
/// read in the order in which the first four are the magic number.
pub proof fn words_are_read_in_the_order_of_the_magic_number(bytes: Seq<u8>, i: int)
    requires
        bytes.len() % 4 == 0,
        0 <= i < bytes.len() / 4,
    ensures
        spirv_words(bytes).len() == bytes.len() / 4,
        bytes[0] == 0x03 && bytes[1] == 0x02 && bytes[2] == 0x23 && bytes[3] == 0x07
            ==> spirv_words(bytes)[i] == bytes[4 * i] + 0x100 * bytes[4 * i + 1] + 0x1_0000
            * bytes[4 * i + 2] + 0x100_0000 * bytes[4 * i + 3],
        bytes[0] == 0x07 && bytes[1] == 0x23 && bytes[2] == 0x02 && bytes[3] == 0x03
            ==> spirv_words(bytes)[i] == bytes[4 * i + 3] + 0x100 * bytes[4 * i + 2] + 0x1_0000
            * bytes[4 * i + 1] + 0x100_0000 * bytes[4 * i],
{
}

/// A module is whole words, at least one, of which the first is the magic number in
/// either byte order; anything else is refused for the first of these that fails.
pub proof fn modules_are_whole_words_after_the_magic_number(bytes: Seq<u8>)
    ensures
        spirv_error(bytes) == Some(SpirvError::Length) <==> bytes.len() % 4 != 0,
        spirv_error(bytes) == Some(SpirvError::Empty) <==> bytes.len() == 0,
        spirv_error(bytes) is None <==> bytes.len() % 4 == 0 && bytes.len() > 0 && (bytes[0] == 0x03
            && bytes[1] == 0x02 && bytes[2] == 0x23 && bytes[3] == 0x07 || bytes[0] == 0x07
            && bytes[1] == 0x23 && bytes[2] == 0x02 && bytes[3] == 0x03),
{
}

/// Every shader starts with `main`.
pub proof fn shaders_start_with_main()
    ensures
        entry_point() == seq!['m', 'a', 'i', 'n'],
{
    reveal_strlit("main");
    assert(entry_point() =~= seq!['m', 'a', 'i', 'n']);
}

} // verus!
