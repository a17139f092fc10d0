use vstd::prelude::*;

verus! {

/// The first word of every SPIR-V module.
pub const SPIRV_MAGIC_NUMBER: u32 = 0x0723_0203;

/// Size in bytes of the push constants that the fragment shader reads: the
/// time and the sprite's red, green and blue, four 4-byte floats.
pub const PUSH_CONSTANT_SIZE: u32 = 16;

/// Word `i` of `code`, read little-endian.
pub open spec fn le_word(code: Seq<u8>, i: int) -> u32 {
    (code[4 * i] as int + 256 * (code[4 * i + 1] as int) + 65536 * (code[4 * i + 2] as int)
        + 16777216 * (code[4 * i + 3] as int)) as u32
}

/// Word `i` of `code`, read big-endian.
pub open spec fn be_word(code: Seq<u8>, i: int) -> u32 {
    (code[4 * i + 3] as int + 256 * (code[4 * i + 2] as int) + 65536 * (code[4 * i + 1] as int)
        + 16777216 * (code[4 * i] as int)) as u32
}

/// `code` is a whole number of words and starts with the SPIR-V magic
/// number in one of the two byte orders.
pub open spec fn spirv_well_formed(code: Seq<u8>) -> bool {
    &&& code.len() % 4 == 0
    &&& code.len() > 0
    &&& (le_word(code, 0) == SPIRV_MAGIC_NUMBER || be_word(code, 0) == SPIRV_MAGIC_NUMBER)
}

/// The words of `code`, in the byte order in which its first word is the
/// magic number.
pub open spec fn spirv_words(code: Seq<u8>) -> Seq<u32> {
    Seq::new(
        (code.len() / 4) as nat,
        |i: int|
            if le_word(code, 0) == SPIRV_MAGIC_NUMBER {
                le_word(code, i)
            } else {
                be_word(code, i)
            },
    )
}

/// ash's `util::read_spv` on an in-memory cursor over `code`. Its source
/// reads the bytes as native-endian words, swaps every word when the first
/// one is the byte-swapped magic number, and fails when the length is not a
/// multiple of 4 or the first word is then not the magic number (which
/// covers empty input); a cursor over a slice never fails to seek or read.
/// The contract states that outcome, which does not depend on the machine's
/// byte order.
#[verifier::external_body]
fn read_spv_words(code: &[u8]) -> (words: Option<Vec<u32>>)
    ensures
        words is Some <==> spirv_well_formed(code@),
        words matches Some(w) ==> w@ == spirv_words(code@),
{
    ash::util::read_spv(&mut std::io::Cursor::new(code)).ok()
}

/// Decodes the bytes of a compiled shader into the SPIR-V words that a
/// shader module is created from; `None` when they are not SPIR-V.
pub fn decode_shader_code(code: &[u8]) -> (words: Option<Vec<u32>>)
    ensures
        words is Some <==> spirv_well_formed(code@),
        words matches Some(w) ==> w@ == spirv_words(code@),
{
    read_spv_words(code)
}

/// Law of shader decoding: a decoded module has one word per four bytes
/// and starts with the magic number.
pub proof fn law_decoded_shader_starts_with_magic(code: Seq<u8>)
    requires
        spirv_well_formed(code),
    ensures
        spirv_words(code).len() * 4 == code.len(),
        spirv_words(code)[0] == SPIRV_MAGIC_NUMBER,
{
}

} // verus!
