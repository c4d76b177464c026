//! Decoding the compute shader's SPIR-V binary into the 32-bit words that
//! Vulkan takes.

use vstd::prelude::*;
use crate::error::RtxError;

verus! {

/// The first word of every SPIR-V module.
pub open spec fn spv_magic() -> int {
    0x0723_0203
}

/// Word `i` of `bytes` read little-endian.
pub open spec fn le_word(bytes: Seq<u8>, i: int) -> int {
    bytes[4 * i] + bytes[4 * i + 1] * 0x100 + bytes[4 * i + 2] * 0x1_0000 + bytes[4 * i + 3] * 0x100_0000
}

/// Word `i` of `bytes` read big-endian.
pub open spec fn be_word(bytes: Seq<u8>, i: int) -> int {
    bytes[4 * i + 3] + bytes[4 * i + 2] * 0x100 + bytes[4 * i + 1] * 0x1_0000 + bytes[4 * i] * 0x100_0000
}

/// Whether `bytes` is a whole number of words that starts with the SPIR-V
/// magic number in either byte order.
pub open spec fn spv_decodable(bytes: Seq<u8>) -> bool {
    &&& bytes.len() % 4 == 0
    &&& bytes.len() >= 4
    &&& (le_word(bytes, 0) == spv_magic() || be_word(bytes, 0) == spv_magic())
}

/// Word `i` of a SPIR-V module, read in the byte order in which its first
/// word is the magic number.
pub open spec fn spv_word(bytes: Seq<u8>, i: int) -> int {
    if le_word(bytes, 0) == spv_magic() {
        le_word(bytes, i)
    } else {
        be_word(bytes, i)
    }
}

/// Reading a word little-endian puts its first byte lowest and its fourth
/// highest; reading it big-endian does the reverse.
pub proof fn word_byte_order(bytes: Seq<u8>, i: int)
    requires
        0 <= i,
        4 * i + 4 <= bytes.len(),
    ensures
        le_word(bytes, i) % 0x100 == bytes[4 * i],
        le_word(bytes, i) / 0x100_0000 == bytes[4 * i + 3],
        be_word(bytes, i) % 0x100 == bytes[4 * i + 3],
        be_word(bytes, i) / 0x100_0000 == bytes[4 * i],
        0 <= le_word(bytes, i) < 0x1_0000_0000,
        0 <= be_word(bytes, i) < 0x1_0000_0000,
{
    let b0: u8 = bytes[4 * i];
    let b1: u8 = bytes[4 * i + 1];
    let b2: u8 = bytes[4 * i + 2];
    let b3: u8 = bytes[4 * i + 3];
    assert({
        let w = b0 + b1 * 0x100 + b2 * 0x1_0000 + b3 * 0x100_0000;
        &&& w % 0x100 == b0
        &&& w / 0x100_0000 == b3
        &&& 0 <= w < 0x1_0000_0000
    }) by (nonlinear_arith)
        requires 0 <= b0 < 256, 0 <= b1 < 256, 0 <= b2 < 256, 0 <= b3 < 256;
    assert({
        let w = b3 + b2 * 0x100 + b1 * 0x1_0000 + b0 * 0x100_0000;
        &&& w % 0x100 == b3
        &&& w / 0x100_0000 == b0
        &&& 0 <= w < 0x1_0000_0000
    }) by (nonlinear_arith)
        requires 0 <= b0 < 256, 0 <= b1 < 256, 0 <= b2 < 256, 0 <= b3 < 256;
}

/// `bytes` with the byte order of every word reversed.
pub open spec fn swap_word_bytes(bytes: Seq<u8>) -> Seq<u8> {
    Seq::new(bytes.len(), |i: int| bytes[4 * (i / 4) + 3 - i % 4])
}

/// A decoded module always starts with the magic number.
pub proof fn decoded_starts_with_magic(bytes: Seq<u8>)
    requires
        spv_decodable(bytes),
    ensures
        spv_word(bytes, 0) == spv_magic(),
{
}

/// The byte order of a word is told apart by its first word: the magic
/// number reads the same in both orders only if it were a palindrome, which
/// it is not.
proof fn magic_order_unique(bytes: Seq<u8>)
    requires
        bytes.len() >= 4,
        le_word(bytes, 0) == spv_magic(),
    ensures
        be_word(bytes, 0) != spv_magic(),
{
    let b0: u8 = bytes[0];
    let b1: u8 = bytes[1];
    let b2: u8 = bytes[2];
    let b3: u8 = bytes[3];
    assert(b0 == 3 && b1 == 2 && b2 == 0x23 && b3 == 7) by (nonlinear_arith)
        requires
            b0 + b1 * 0x100 + b2 * 0x1_0000 + b3 * 0x100_0000 == 0x0723_0203,
            0 <= b0 < 256, 0 <= b1 < 256, 0 <= b2 < 256, 0 <= b3 < 256;
}

/// Decoding does not depend on the byte order the module was written in:
/// reversing the bytes of every word leaves whether it decodes, and every
/// word it decodes to, unchanged.
pub proof fn decoding_ignores_byte_order(bytes: Seq<u8>)
    requires
        bytes.len() % 4 == 0,
    ensures
        spv_decodable(swap_word_bytes(bytes)) == spv_decodable(bytes),
        spv_decodable(bytes) ==> forall|i: int| 0 <= i < bytes.len() / 4
            ==> spv_word(swap_word_bytes(bytes), i) == #[trigger] spv_word(bytes, i),
{
    let sw = swap_word_bytes(bytes);
    assert forall|i: int| 0 <= i < bytes.len() / 4 implies le_word(sw, i) == be_word(bytes, i)
        && be_word(sw, i) == le_word(bytes, i) by {
        assert((4 * i) / 4 == i && (4 * i) % 4 == 0);
        assert((4 * i + 1) / 4 == i && (4 * i + 1) % 4 == 1);
        assert((4 * i + 2) / 4 == i && (4 * i + 2) % 4 == 2);
        assert((4 * i + 3) / 4 == i && (4 * i + 3) % 4 == 3);
    }
    if bytes.len() >= 4 {
        if le_word(bytes, 0) == spv_magic() {
            magic_order_unique(bytes);
        }
        if le_word(sw, 0) == spv_magic() {
            magic_order_unique(sw);
        }
    }
}

/// The text of the error that ash's `read_spv` reports for input it rejects.
pub open spec fn read_spv_error_text(bytes: Seq<u8>) -> Seq<char> {
    if bytes.len() % 4 != 0 {
        "input length not divisible by 4"@
    } else {
        "input missing SPIR-V magic number"@
    }
}

/// Calls `ash::util::read_spv` on the bytes in memory, keeping the error's
/// text. Claimed, as ash's source shows: the input is accepted exactly when
/// it is a whole number of words starting with the SPIR-V magic number in
/// either byte order, and then every word is read in that byte order; a
/// rejection's text names what was wrong.
#[verifier::external_body]
fn ash_read_spv(bytes: &[u8]) -> (words: Result<Vec<u32>, String>)
    ensures
        words is Ok <==> spv_decodable(bytes@),
        words matches Ok(w) ==> {
            &&& w@.len() == bytes@.len() / 4
            &&& forall|i: int| 0 <= i < w@.len() ==> w@[i] == spv_word(bytes@, i)
        },
        words matches Err(m) ==> m@ == read_spv_error_text(bytes@),
{
    ash::util::read_spv(&mut std::io::Cursor::new(bytes)).map_err(|e| e.to_string())
}

/// Converts a SPIR-V binary into its words. A length that is not a multiple
/// of four is refused up front; otherwise the decoding is ash's.
pub fn read_spv(bytes: &[u8]) -> (words: Result<Vec<u32>, RtxError>)
    ensures
        bytes@.len() % 4 != 0 ==> (words matches Err(e) && e matches RtxError::Init(m)
            && m@ == "SPIR-V size not aligned to 4"@),
        bytes@.len() % 4 == 0 && !spv_decodable(bytes@) ==> (words matches Err(e)
            && e matches RtxError::Init(m) && m@ == "read_spv: input missing SPIR-V magic number"@),
        words is Ok <==> spv_decodable(bytes@),
        words matches Ok(w) ==> {
            &&& w@.len() == bytes@.len() / 4
            &&& forall|i: int| 0 <= i < w@.len() ==> w@[i] == spv_word(bytes@, i)
        },
{
    if bytes.len() % 4 != 0 {
        return Err(RtxError::Init(String::from_str("SPIR-V size not aligned to 4")));
    }
    match ash_read_spv(bytes) {
        Ok(w) => Ok(w),
        Err(m) => {
            proof {
                reveal_strlit("read_spv: ");
                reveal_strlit("input missing SPIR-V magic number");
                reveal_strlit("read_spv: input missing SPIR-V magic number");
                assert("read_spv: "@ + "input missing SPIR-V magic number"@
                    =~= "read_spv: input missing SPIR-V magic number"@);
            }
            Err(RtxError::Init(String::from_str("read_spv: ").concat(m.as_str())))
        },
    }
}

} // verus!
