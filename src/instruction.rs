use vstd::prelude::*;

verus! {

/// One decoded instruction word: opcode, register index, count or depth,
/// and signed displacement or immediate.
#[derive(Debug, Clone, Copy, PartialEq, Eq, Structural)]
pub struct Instruction {
    pub op: u8,
    pub r: u8,
    pub n: u8,
    pub d: i16,
}

impl Instruction {
    /// The record fits the four fields of a word: `op` and `r` take four bits.
    pub open spec fn representable(self) -> bool {
        self.op < 16 && self.r < 16
    }
}

/// The fields of a 32-bit word: bits 31..28, 27..24, 23..16 and 15..0.
pub open spec fn decode_spec(w: u32) -> Instruction {
    Instruction {
        op: (w >> 28u32) as u8,
        r: ((w >> 24u32) & 0xfu32) as u8,
        n: ((w >> 16u32) & 0xffu32) as u8,
        d: (w & 0xffffu32) as u16 as i16,
    }
}

/// The word that holds the four fields; `op` and `r` are cut to four bits.
pub open spec fn encode_spec(i: Instruction) -> u32 {
    (((i.op as u32) & 0xfu32) << 28u32) | (((i.r as u32) & 0xfu32) << 24u32) | ((i.n as u32)
        << 16u32) | (i.d as u16 as u32)
}

/// Unpacks a 32-bit instruction word.
pub fn decode(w: u32) -> (r: Instruction)
    ensures
        r == decode_spec(w),
        r.representable(),
{
    let op = w >> 28u32;
    let r = (w >> 24u32) & 0xfu32;
    let n = (w >> 16u32) & 0xffu32;
    let d = w & 0xffffu32;
    assert(op < 16 && r < 16 && n < 256 && d < 65536) by (bit_vector)
        requires
            op == w >> 28u32,
            r == (w >> 24u32) & 0xfu32,
            n == (w >> 16u32) & 0xffu32,
            d == w & 0xffffu32,
    ;
    Instruction { op: op as u8, r: r as u8, n: n as u8, d: #[verifier::truncate] (d as u16 as i16) }
}

/// Packs an instruction into its 32-bit word.
pub fn encode(i: Instruction) -> (w: u32)
    ensures
        w == encode_spec(i),
{
    (((i.op as u32) & 0xfu32) << 28u32) | (((i.r as u32) & 0xfu32) << 24u32) | ((i.n as u32)
        << 16u32) | (#[verifier::truncate] (i.d as u16) as u32)
}

/// Decoding a word and encoding the record gives the word back.
pub proof fn lemma_encode_decode(w: u32)
    ensures
        encode_spec(decode_spec(w)) == w,
{
    assert(((((w >> 28u32) as u8 as u32) & 0xfu32) << 28u32) | (((((w >> 24u32) & 0xfu32) as u8
        as u32) & 0xfu32) << 24u32) | ((((w >> 16u32) & 0xffu32) as u8 as u32) << 16u32) | ((w
        & 0xffffu32) as u16 as i16 as u16 as u32) == w) by (bit_vector);
}

/// Encoding a representable record and decoding the word gives the record back.
pub proof fn lemma_decode_encode(i: Instruction)
    requires
        i.representable(),
    ensures
        decode_spec(encode_spec(i)) == i,
{
    let op = i.op;
    let r = i.r;
    let n = i.n;
    let d = i.d;
    let w = encode_spec(i);
    assert(w == (((op as u32) & 0xfu32) << 28u32) | (((r as u32) & 0xfu32) << 24u32) | ((n
        as u32) << 16u32) | (d as u16 as u32));
    assert((w >> 28u32) as u8 == op) by (bit_vector)
        requires
            op < 16,
            w == (((op as u32) & 0xfu32) << 28u32) | (((r as u32) & 0xfu32) << 24u32) | ((n
                as u32) << 16u32) | (d as u16 as u32),
    ;
    assert(((w >> 24u32) & 0xfu32) as u8 == r) by (bit_vector)
        requires
            r < 16,
            w == (((op as u32) & 0xfu32) << 28u32) | (((r as u32) & 0xfu32) << 24u32) | ((n
                as u32) << 16u32) | (d as u16 as u32),
    ;
    assert(((w >> 16u32) & 0xffu32) as u8 == n) by (bit_vector)
        requires
            w == (((op as u32) & 0xfu32) << 28u32) | (((r as u32) & 0xfu32) << 24u32) | ((n
                as u32) << 16u32) | (d as u16 as u32),
    ;
    assert((w & 0xffffu32) as u16 as i16 == d) by (bit_vector)
        requires
            w == (((op as u32) & 0xfu32) << 28u32) | (((r as u32) & 0xfu32) << 24u32) | ((n
                as u32) << 16u32) | (d as u16 as u32),
    ;
}

/// Every decoded word names a valid register index.
pub proof fn lemma_decoded_register_valid(w: u32)
    ensures
        decode_spec(w).r < 16,
        decode_spec(w).op < 16,
{
    assert(((w >> 24u32) & 0xfu32) < 16 && (w >> 28u32) < 16) by (bit_vector);
}

impl From<u32> for Instruction {
    fn from(value: u32) -> (r: Instruction) {
        decode(value)
    }
}

impl vstd::std_specs::convert::FromSpecImpl<u32> for Instruction {
    open spec fn obeys_from_spec() -> bool {
        true
    }

    open spec fn from_spec(v: u32) -> Instruction {
        decode_spec(v)
    }
}

impl From<Instruction> for u32 {
    fn from(value: Instruction) -> (r: u32) {
        encode(value)
    }
}

impl vstd::std_specs::convert::FromSpecImpl<Instruction> for u32 {
    open spec fn obeys_from_spec() -> bool {
        true
    }

    open spec fn from_spec(v: Instruction) -> u32 {
        encode_spec(v)
    }
}

/// The assembler's name of register `r`; empty past the sixteen registers.
pub open spec fn reg_name_spec(r: u8) -> Seq<char> {
    if r == 0 {
        seq!['c', 'b']
    } else if r == 1 {
        seq!['c', 't']
    } else if r == 2 {
        seq!['p', 'b']
    } else if r == 3 {
        seq!['p', 't']
    } else if r == 4 {
        seq!['s', 'b']
    } else if r == 5 {
        seq!['s', 't']
    } else if r == 6 {
        seq!['h', 'b']
    } else if r == 7 {
        seq!['h', 't']
    } else if r == 8 {
        seq!['l', 'b']
    } else if r == 9 {
        seq!['l', '1']
    } else if r == 10 {
        seq!['l', '2']
    } else if r == 11 {
        seq!['l', '3']
    } else if r == 12 {
        seq!['l', '4']
    } else if r == 13 {
        seq!['l', '5']
    } else if r == 14 {
        seq!['l', '6']
    } else if r == 15 {
        seq!['c', 'p']
    } else {
        seq![]
    }
}

/// The assembler's name of register `r`, as used by the disassembler.
pub fn get_reg_name(r: u8) -> (s: &'static str)
    ensures
        s@ == reg_name_spec(r),
{
    let s = match r {
        0 => "cb",
        1 => "ct",
        2 => "pb",
        3 => "pt",
        4 => "sb",
        5 => "st",
        6 => "hb",
        7 => "ht",
        8 => "lb",
        9 => "l1",
        10 => "l2",
        11 => "l3",
        12 => "l4",
        13 => "l5",
        14 => "l6",
        15 => "cp",
        _ => "",
    };
    proof {
        reveal_strlit("cb");
        reveal_strlit("ct");
        reveal_strlit("pb");
        reveal_strlit("pt");
        reveal_strlit("sb");
        reveal_strlit("st");
        reveal_strlit("hb");
        reveal_strlit("ht");
        reveal_strlit("lb");
        reveal_strlit("l1");
        reveal_strlit("l2");
        reveal_strlit("l3");
        reveal_strlit("l4");
        reveal_strlit("l5");
        reveal_strlit("l6");
        reveal_strlit("cp");
        reveal_strlit("");
    }
    s
}

} // verus!
