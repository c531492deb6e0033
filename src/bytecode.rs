//! The bytecode file format: a flat stream of big-endian 32-bit words.
use vstd::prelude::*;
use crate::instruction::{Instruction, encode, encode_spec};

verus! {

/// The big-endian value of the four bytes of `b` from `i`.
pub open spec fn be_value(b: Seq<u8>, i: int) -> int {
    b[i] * 0x100_0000 + b[i + 1] * 0x1_0000 + b[i + 2] * 0x100 + b[i + 3]
}

/// The number of whole words in `b`; a shorter tail is ignored.
pub open spec fn word_count(b: Seq<u8>) -> int {
    (b.len() / 4) as int
}

/// Relies on byteorder's `BigEndian::read_u32`: the four bytes from `at`,
/// most significant first.
#[verifier::external_body]
pub(crate) fn read_word(bytes: &[u8], at: usize) -> (w: u32)
    requires
        at + 4 <= bytes@.len(),
    ensures
        w as int == be_value(bytes@, at as int),
{
    <byteorder::BigEndian as byteorder::ByteOrder>::read_u32(&bytes[at..at + 4])
}

/// Relies on byteorder's `BigEndian::write_u32`: the word as four bytes,
/// most significant first.
#[verifier::external_body]
fn word_bytes(w: u32) -> (b: Vec<u8>)
    ensures
        b@.len() == 4,
        be_value(b@, 0) == w as int,
{
    let mut buf = vec![0u8; 4];
    <byteorder::BigEndian as byteorder::ByteOrder>::write_u32(&mut buf, w);
    buf
}

/// Serialises a program: the word of each instruction, in order.
pub fn encode_program(code: &Vec<Instruction>) -> (b: Vec<u8>)
    requires
        code@.len() * 4 <= usize::MAX,
    ensures
        b@.len() == 4 * code@.len(),
        forall|i: int|
            0 <= i < code@.len() ==> #[trigger] be_value(b@, 4 * i) == encode_spec(code@[i]) as int,
{
    let mut out: Vec<u8> = Vec::new();
    let mut i: usize = 0;
    while i < code.len()
        invariant
            i <= code@.len(),
            code@.len() * 4 <= usize::MAX,
            out@.len() == 4 * i,
            forall|j: int|
                0 <= j < i ==> #[trigger] be_value(out@, 4 * j) == encode_spec(code@[j]) as int,
        decreases code@.len() - i,
    {
        let bs = word_bytes(encode(code[i]));
        let ghost prev = out@;
        out.push(bs[0]);
        out.push(bs[1]);
        out.push(bs[2]);
        out.push(bs[3]);
        assert(out@ == prev + bs@);
        assert forall|j: int| 0 <= j < i + 1 implies #[trigger] be_value(out@, 4 * j) == encode_spec(
            code@[j],
        ) as int by {
            if j < i {
                assert(be_value(out@, 4 * j) == be_value(prev, 4 * j));
            } else {
                assert(be_value(out@, 4 * j) == be_value(bs@, 0));
            }
        }
        i = i + 1;
    }
    out
}

} // verus!
