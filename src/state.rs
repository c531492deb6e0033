//! The mathematical model of the machine: its stores and registers as
//! sequences, and the effect of each operation on them.
use vstd::prelude::*;
use crate::errors::TAMError;
use crate::instruction::{Instruction, decode_spec};

verus! {

/// Capacity of the code store and of the data store.
pub const MEM_SIZE: usize = 65535;

/// Register indices, fixed by the bytecode ABI.
pub const CB: usize = 0;
pub const CT: usize = 1;
pub const PB: usize = 2;
pub const PT: usize = 3;
pub const SB: usize = 4;
pub const ST: usize = 5;
pub const HB: usize = 6;
pub const HT: usize = 7;
pub const LB: usize = 8;
pub const CP: usize = 15;

/// What the caller of a step has to do next.
#[derive(Debug, Clone, Copy, PartialEq, Eq, Structural)]
pub enum Action {
    /// Fetch the next instruction.
    Continue,
    /// The program executed `HALT`.
    Halt,
    /// Read one byte and hand it to `complete_input`.
    GetChar,
    /// Read and discard one line of input.
    SkipLine,
    /// Read a line, parse it as a 16-bit integer and hand it to `complete_input`.
    GetInt,
    /// Write this byte as a character.
    PutChar(u8),
    /// Write this value in decimal.
    PutInt(i16),
    /// Write a newline.
    PutEol,
}

/// The machine's code store, data store and register file.
pub struct TamView {
    pub code: Seq<u32>,
    pub data: Seq<i16>,
    pub regs: Seq<usize>,
}

/// A machine state together with what an operation returned.
pub type Outcome<T> = (TamView, Result<T, TAMError>);

impl TamView {
    /// The stores have their fixed capacity and there are sixteen registers.
    pub open spec fn wf(self) -> bool {
        &&& self.code.len() == MEM_SIZE
        &&& self.data.len() == MEM_SIZE
        &&& self.regs.len() == 16
    }

    /// The stack and the heap lie in the data store and do not overlap:
    /// `0 <= ST <= HT + 1 <= MEM_SIZE`.
    pub open spec fn window_ok(self) -> bool {
        self.regs[ST as int] <= self.regs[HT as int] + 1 <= MEM_SIZE
    }

    pub open spec fn reg(self, i: usize) -> usize {
        self.regs[i as int]
    }

    pub open spec fn with_reg(self, i: usize, v: usize) -> TamView {
        TamView { regs: self.regs.update(i as int, v), ..self }
    }

    pub open spec fn with_cell(self, a: usize, v: i16) -> TamView {
        TamView { data: self.data.update(a as int, v), ..self }
    }

    /// The address of the instruction being executed: the advanced `CP` minus one.
    pub open spec fn fault_pc(self) -> usize {
        if self.reg(CP) == 0 {
            0
        } else {
            (self.reg(CP) - 1) as usize
        }
    }
}

/// The absolute address `base + d`, wrapping on the machine word.
pub open spec fn resolve(base: usize, d: i16) -> usize {
    base.wrapping_add_signed(d as isize)
}

/// A data cell read back as an address: its 16-bit pattern, unsigned, so
/// that every address of the data store survives a round trip through a cell.
pub open spec fn as_addr(v: i16) -> usize {
    v as u16 as usize
}

pub open spec fn lift<T>(o: Outcome<T>) -> Outcome<Action> {
    match o.1 {
        Ok(_) => (o.0, Ok(Action::Continue)),
        Err(e) => (o.0, Err(e)),
    }
}

/// Register `i`, if `i` names one of the sixteen.
pub open spec fn reg_spec(s: TamView, i: u8) -> Result<usize, TAMError> {
    if i < 16 {
        Ok(s.reg(i as usize))
    } else {
        Err(TAMError::InvalidRegister(s.fault_pc(), i as usize))
    }
}

/// `register[r] + d`.
pub open spec fn addr_spec(s: TamView, i: Instruction) -> Result<usize, TAMError> {
    match reg_spec(s, i.r) {
        Ok(b) => Ok(resolve(b, i.d)),
        Err(e) => Err(e),
    }
}

/// A data address is live: on the stack below `ST` or on the heap above `HT`.
pub open spec fn check_addr_spec(s: TamView, a: usize) -> Result<(), TAMError> {
    if (a < s.reg(ST) || a > s.reg(HT)) && a < MEM_SIZE {
        Ok(())
    } else {
        Err(TAMError::SegmentationFault(s.fault_pc(), a))
    }
}

/// The stack top stays below the heap top.
pub open spec fn check_stack_spec(s: TamView) -> Result<(), TAMError> {
    if s.reg(ST) < s.reg(HT) {
        Ok(())
    } else {
        Err(TAMError::StackOverflow(s.fault_pc()))
    }
}

/// A control transfer lands below the code top.
pub open spec fn check_code_spec(s: TamView, a: usize) -> Result<(), TAMError> {
    if a < s.reg(CT) {
        Ok(())
    } else {
        Err(TAMError::SegmentationFault(s.fault_pc(), a))
    }
}

/// Writes `v` at `ST` and advances `ST`; past the data store it overflows.
pub open spec fn push_spec(s: TamView, v: i16) -> Outcome<()> {
    let st = s.reg(ST);
    if st < MEM_SIZE {
        (s.with_cell(st, v).with_reg(ST, (st + 1) as usize), Ok(()))
    } else {
        (s, Err(TAMError::StackOverflow(s.fault_pc())))
    }
}

/// Moves `ST` down by one and reads the cell there.
pub open spec fn pop_spec(s: TamView) -> Outcome<i16> {
    let st = s.reg(ST);
    if st == 0 {
        (s, Err(TAMError::StackUnderflow(s.fault_pc())))
    } else if st > MEM_SIZE {
        (s, Err(TAMError::SegmentationFault(s.fault_pc(), (st - 1) as usize)))
    } else {
        (s.with_reg(ST, (st - 1) as usize), Ok(s.data[st - 1]))
    }
}

/// Pushes the `k` cells from address `a` up, each checked before it is read.
pub open spec fn load_cells(s: TamView, a: usize, k: nat) -> Outcome<()>
    decreases k,
{
    if k == 0 {
        (s, Ok(()))
    } else {
        match check_addr_spec(s, a) {
            Err(e) => (s, Err(e)),
            Ok(_) => {
                let (s1, r) = push_spec(s, s.data[a as int]);
                match r {
                    Err(e) => (s1, Err(e)),
                    Ok(_) => load_cells(s1, (a + 1) as usize, (k - 1) as nat),
                }
            },
        }
    }
}

/// Pops `k` cells and writes them to `a, a + 1, ...`, each address checked first.
pub open spec fn store_cells(s: TamView, a: usize, k: nat) -> Outcome<()>
    decreases k,
{
    if k == 0 {
        (s, Ok(()))
    } else {
        match check_addr_spec(s, a) {
            Err(e) => (s, Err(e)),
            Ok(_) => {
                let (s1, r) = pop_spec(s);
                match r {
                    Err(e) => (s1, Err(e)),
                    Ok(v) => store_cells(s1.with_cell(a, v), (a + 1) as usize, (k - 1) as nat),
                }
            },
        }
    }
}

/// Pops `k` cells, appending them to `acc` in the order they come off.
pub open spec fn pop_cells(s: TamView, k: nat, acc: Seq<i16>) -> Outcome<Seq<i16>>
    decreases k,
{
    if k == 0 {
        (s, Ok(acc))
    } else {
        let (s1, r) = pop_spec(s);
        match r {
            Err(e) => (s1, Err(e)),
            Ok(v) => pop_cells(s1, (k - 1) as nat, acc.push(v)),
        }
    }
}

/// Pushes `vals` from its last element down to its first.
pub open spec fn push_back(s: TamView, vals: Seq<i16>) -> Outcome<()>
    decreases vals.len(),
{
    if vals.len() == 0 {
        (s, Ok(()))
    } else {
        let (s1, r) = push_spec(s, vals.last());
        match r {
            Err(e) => (s1, Err(e)),
            Ok(_) => push_back(s1, vals.drop_last()),
        }
    }
}

/// Drops `k` cells from the stack.
pub open spec fn drop_cells(s: TamView, k: nat) -> Outcome<()> {
    if k <= s.reg(ST) {
        (s.with_reg(ST, (s.reg(ST) - k) as usize), Ok(()))
    } else {
        (s, Err(TAMError::StackUnderflow(s.fault_pc())))
    }
}

/// Pushes the frame triple (static link, dynamic link, return address),
/// checks the stack, and enters `target` with `LB` on the new frame.
pub open spec fn enter_frame(s: TamView, target: usize, static_link: i16) -> Outcome<()> {
    let (s1, r1) = push_spec(s, static_link);
    match r1 {
        Err(e) => (s1, Err(e)),
        Ok(_) => {
            let (s2, r2) = push_spec(s1, s.reg(LB) as i16);
            match r2 {
                Err(e) => (s2, Err(e)),
                Ok(_) => {
                    let (s3, r3) = push_spec(s2, s.reg(CP) as i16);
                    match r3 {
                        Err(e) => (s3, Err(e)),
                        Ok(_) => match check_stack_spec(s3) {
                            Err(e) => (s3, Err(e)),
                            Ok(_) => (
                                s3.with_reg(LB, (s3.reg(ST) - 3) as usize).with_reg(CP, target),
                                Ok(()),
                            ),
                        },
                    }
                },
            }
        },
    }
}

/// The value pushed by unary primitive `k` on operand `x`.
pub open spec fn unary_value(k: i16, x: i16) -> i16 {
    if k == 1 {
        x
    } else if k == 2 {
        if x == 0 {
            1
        } else {
            0
        }
    } else if k == 5 {
        wrap16(x + 1)
    } else if k == 6 {
        wrap16(x - 1)
    } else {
        wrap16(-x)
    }
}

/// Two's-complement wrapping of an integer into 16 bits.
pub open spec fn wrap16(x: int) -> i16 {
    let m = x % 65536;
    if m > 32767 {
        (m - 65536) as i16
    } else {
        m as i16
    }
}

pub open spec fn abs(x: int) -> int {
    if x < 0 {
        -x
    } else {
        x
    }
}

/// Division truncated toward zero.
pub open spec fn trunc_div(a: int, b: int) -> int {
    let q = abs(a) / abs(b);
    if (a < 0) != (b < 0) {
        -q
    } else {
        q
    }
}

/// The remainder of truncated division: its sign follows the dividend.
pub open spec fn trunc_rem(a: int, b: int) -> int {
    let m = abs(a) % abs(b);
    if a < 0 {
        -m
    } else {
        m
    }
}

pub open spec fn flag(b: bool) -> i16 {
    if b {
        1
    } else {
        0
    }
}

/// The value pushed by binary primitive `k` on operands `a` (deeper) and `b` (top).
pub open spec fn binary_value(k: i16, a: i16, b: i16) -> i16 {
    if k == 3 {
        flag(wrap16(a * b) != 0)
    } else if k == 4 {
        flag(wrap16(a + b) != 0)
    } else if k == 8 {
        wrap16(a + b)
    } else if k == 9 {
        wrap16(a - b)
    } else if k == 10 {
        wrap16(a * b)
    } else if k == 11 {
        wrap16(trunc_div(a as int, b as int))
    } else if k == 12 {
        trunc_rem(a as int, b as int) as i16
    } else if k == 13 {
        flag(a < b)
    } else if k == 14 {
        flag(a <= b)
    } else if k == 15 {
        flag(a >= b)
    } else if k == 16 {
        flag(a > b)
    } else if k == 17 {
        flag(a == b)
    } else {
        flag(a != b)
    }
}

pub open spec fn is_unary(k: i16) -> bool {
    k == 1 || k == 2 || k == 5 || k == 6 || k == 7
}

pub open spec fn is_binary(k: i16) -> bool {
    k == 3 || k == 4 || (8 <= k <= 18)
}

/// Pops one operand and pushes `unary_value(k, x)`.
pub open spec fn unary_spec(s: TamView, k: i16) -> Outcome<()> {
    let (s1, r) = pop_spec(s);
    match r {
        Err(e) => (s1, Err(e)),
        Ok(x) => push_spec(s1, unary_value(k, x)),
    }
}

/// Pops `b`, then `a`, and pushes `binary_value(k, a, b)`; `div` and `mod`
/// trap on a zero `b` before popping `a`.
pub open spec fn binary_spec(s: TamView, k: i16) -> Outcome<()> {
    let (s1, r1) = pop_spec(s);
    match r1 {
        Err(e) => (s1, Err(e)),
        Ok(b) => if (k == 11 || k == 12) && b == 0 {
            (s1, Err(TAMError::DivideByZero(s.fault_pc())))
        } else {
            let (s2, r2) = pop_spec(s1);
            match r2 {
                Err(e) => (s2, Err(e)),
                Ok(a) => push_spec(s2, binary_value(k, a, b)),
            }
        },
    }
}

/// Pops `n`, lowers `HT` by `n` and pushes the first address of the new block.
pub open spec fn new_spec(s: TamView) -> Outcome<()> {
    let (s1, r) = pop_spec(s);
    match r {
        Err(e) => (s1, Err(e)),
        Ok(v) => {
            let n = as_addr(v);
            if n > s1.reg(HT) {
                (s1, Err(TAMError::StackOverflow(s.fault_pc())))
            } else {
                let ht = (s1.reg(HT) - n) as usize;
                let s2 = s1.with_reg(HT, ht);
                let (s3, r3) = push_spec(s2, ht.wrapping_add(1) as i16);
                match r3 {
                    Err(e) => (s3, Err(e)),
                    Ok(_) => (s3, check_stack_spec(s3)),
                }
            }
        },
    }
}

/// The primitive routine selected by displacement `k` of a call on `PB`.
pub open spec fn primitive_spec(s: TamView, k: i16) -> Outcome<Action> {
    if is_unary(k) {
        lift(unary_spec(s, k))
    } else if is_binary(k) {
        lift(binary_spec(s, k))
    } else if k == 21 {
        (s, Ok(Action::GetChar))
    } else if k == 22 {
        let (s1, r) = pop_spec(s);
        match r {
            Err(e) => (s1, Err(e)),
            Ok(v) => (s1, Ok(Action::PutChar(v as u8))),
        }
    } else if k == 23 {
        (s, Ok(Action::SkipLine))
    } else if k == 24 {
        (s, Ok(Action::PutEol))
    } else if k == 25 {
        (s, Ok(Action::GetInt))
    } else if k == 26 {
        let (s1, r) = pop_spec(s);
        match r {
            Err(e) => (s1, Err(e)),
            Ok(v) => (s1, Ok(Action::PutInt(v))),
        }
    } else if k == 27 {
        lift(new_spec(s))
    } else {
        (s, Err(TAMError::Unimplemented(s.fault_pc())))
    }
}

/// Pops an address, checks it and stores the input value there.
pub open spec fn input_spec(s: TamView, v: i16) -> Outcome<()> {
    let (s1, r) = pop_spec(s);
    match r {
        Err(e) => (s1, Err(e)),
        Ok(a) => match check_addr_spec(s1, as_addr(a)) {
            Err(e) => (s1, Err(e)),
            Ok(_) => (s1.with_cell(as_addr(a), v), Ok(())),
        },
    }
}

/// Finishes a load: a push past the heap top is a stack overflow.
pub open spec fn then_check(o: Outcome<()>) -> Outcome<()> {
    match o.1 {
        Err(e) => o,
        Ok(_) => (o.0, check_stack_spec(o.0)),
    }
}

pub open spec fn load_spec(s: TamView, i: Instruction) -> Outcome<()> {
    match addr_spec(s, i) {
        Err(e) => (s, Err(e)),
        Ok(a) => then_check(load_cells(s, a, i.n as nat)),
    }
}

pub open spec fn loada_spec(s: TamView, i: Instruction) -> Outcome<()> {
    match addr_spec(s, i) {
        Err(e) => (s, Err(e)),
        Ok(a) => match check_addr_spec(s, a) {
            Err(e) => (s, Err(e)),
            Ok(_) => then_check(push_spec(s, a as i16)),
        },
    }
}

pub open spec fn loadi_spec(s: TamView, i: Instruction) -> Outcome<()> {
    let (s1, r) = pop_spec(s);
    match r {
        Err(e) => (s1, Err(e)),
        Ok(a) => then_check(load_cells(s1, as_addr(a), i.n as nat)),
    }
}

pub open spec fn store_spec(s: TamView, i: Instruction) -> Outcome<()> {
    match addr_spec(s, i) {
        Err(e) => (s, Err(e)),
        Ok(a) => then_check(store_cells(s, a, i.n as nat)),
    }
}

pub open spec fn storei_spec(s: TamView, i: Instruction) -> Outcome<()> {
    let (s1, r) = pop_spec(s);
    match r {
        Err(e) => (s1, Err(e)),
        Ok(a) => then_check(store_cells(s1, as_addr(a), i.n as nat)),
    }
}

/// A call on `PB` with displacement `1..=27` runs a primitive; any other
/// call enters a frame at `register[r] + d`, linked to `register[n]`.
pub open spec fn is_primitive_call(i: Instruction) -> bool {
    i.r == PB && 0 < i.d < 28
}

pub open spec fn call_spec(s: TamView, i: Instruction) -> Outcome<Action> {
    if is_primitive_call(i) {
        primitive_spec(s, i.d)
    } else {
        match addr_spec(s, i) {
            Err(e) => (s, Err(e)),
            Ok(t) => match check_code_spec(s, t) {
                Err(e) => (s, Err(e)),
                Ok(_) => match reg_spec(s, i.n) {
                    Err(e) => (s, Err(e)),
                    Ok(sl) => lift(enter_frame(s, t, sl as i16)),
                },
            },
        }
    }
}

pub open spec fn calli_spec(s: TamView) -> Outcome<()> {
    let (s1, r1) = pop_spec(s);
    match r1 {
        Err(e) => (s1, Err(e)),
        Ok(a) => match check_code_spec(s1, as_addr(a)) {
            Err(e) => (s1, Err(e)),
            Ok(_) => {
                let (s2, r2) = pop_spec(s1);
                match r2 {
                    Err(e) => (s2, Err(e)),
                    Ok(sl) => enter_frame(s2, as_addr(a), sl),
                }
            },
        },
    }
}

/// `RETURN n, d`: keeps the top `n` cells, drops the frame and `d` argument
/// cells below it, pushes the kept cells back, and resumes the caller.
pub open spec fn return_spec(s: TamView, i: Instruction) -> Outcome<()> {
    let lb = s.reg(LB);
    if lb >= MEM_SIZE - 2 {
        (s, Err(TAMError::SegmentationFault(s.fault_pc(), lb)))
    } else {
        let ret = as_addr(s.data[lb + 2]);
        let dynamic_link = as_addr(s.data[lb + 1]);
        match check_code_spec(s, ret) {
            Err(e) => (s, Err(e)),
            Ok(_) => {
                let (s1, r1) = pop_cells(s, i.n as nat, seq![]);
                match r1 {
                    Err(e) => (s1, Err(e)),
                    Ok(vals) => {
                        let s2 = if s1.reg(ST) > lb {
                            s1.with_reg(ST, lb)
                        } else {
                            s1
                        };
                        let args: nat = if i.d > 0 {
                            i.d as nat
                        } else {
                            0
                        };
                        let (s3, r3) = drop_cells(s2, args);
                        match r3 {
                            Err(e) => (s3, Err(e)),
                            Ok(_) => {
                                let (s4, r4) = push_back(s3, vals);
                                match r4 {
                                    Err(e) => (s4, Err(e)),
                                    Ok(_) => (
                                        s4.with_reg(CP, ret).with_reg(LB, dynamic_link),
                                        Ok(()),
                                    ),
                                }
                            },
                        }
                    },
                }
            },
        }
    }
}

/// `PUSH d`: moves `ST` by `d` and checks the stack.
pub open spec fn push_cells_spec(s: TamView, i: Instruction) -> Outcome<()> {
    let st = s.reg(ST) + i.d;
    if st < 0 {
        (s, Err(TAMError::StackUnderflow(s.fault_pc())))
    } else if st > usize::MAX {
        (s, Err(TAMError::StackOverflow(s.fault_pc())))
    } else {
        let s1 = s.with_reg(ST, st as usize);
        (s1, check_stack_spec(s1))
    }
}

pub open spec fn jump_to(s: TamView, t: usize) -> Outcome<()> {
    match check_code_spec(s, t) {
        Err(e) => (s, Err(e)),
        Ok(_) => (s.with_reg(CP, t), Ok(())),
    }
}

pub open spec fn jump_spec(s: TamView, i: Instruction) -> Outcome<()> {
    match addr_spec(s, i) {
        Err(e) => (s, Err(e)),
        Ok(t) => jump_to(s, t),
    }
}

pub open spec fn jumpi_spec(s: TamView) -> Outcome<()> {
    let (s1, r) = pop_spec(s);
    match r {
        Err(e) => (s1, Err(e)),
        Ok(a) => jump_to(s1, as_addr(a)),
    }
}

pub open spec fn jumpif_spec(s: TamView, i: Instruction) -> Outcome<()> {
    let (s1, r) = pop_spec(s);
    match r {
        Err(e) => (s1, Err(e)),
        Ok(v) => if v == i.n as i16 {
            match addr_spec(s1, i) {
                Err(e) => (s1, Err(e)),
                Ok(t) => jump_to(s1, t),
            }
        } else {
            (s1, Ok(()))
        },
    }
}

/// The effect of one instruction, once fetched (`CP` already advanced).
/// Opcodes without a meaning are no-ops; `POP` is reserved.
pub open spec fn execute_spec(s: TamView, i: Instruction) -> Outcome<Action> {
    if i.op == 0 {
        lift(load_spec(s, i))
    } else if i.op == 1 {
        lift(loada_spec(s, i))
    } else if i.op == 2 {
        lift(loadi_spec(s, i))
    } else if i.op == 3 {
        lift(then_check(push_spec(s, i.d)))
    } else if i.op == 4 {
        lift(store_spec(s, i))
    } else if i.op == 5 {
        lift(storei_spec(s, i))
    } else if i.op == 6 {
        call_spec(s, i)
    } else if i.op == 7 {
        lift(calli_spec(s))
    } else if i.op == 8 {
        lift(return_spec(s, i))
    } else if i.op == 10 {
        lift(push_cells_spec(s, i))
    } else if i.op == 11 {
        (s, Err(TAMError::Unimplemented(s.fault_pc())))
    } else if i.op == 12 {
        lift(jump_spec(s, i))
    } else if i.op == 13 {
        lift(jumpi_spec(s))
    } else if i.op == 14 {
        lift(jumpif_spec(s, i))
    } else if i.op == 15 {
        (s, Ok(Action::Halt))
    } else {
        (s, Ok(Action::Continue))
    }
}

/// The instruction at `CP`, if `CP` lies below the code top.
pub open spec fn fetch_spec(s: TamView) -> Result<Instruction, TAMError> {
    let cp = s.reg(CP);
    if cp < s.reg(CT) && cp < s.code.len() {
        Ok(decode_spec(s.code[cp as int]))
    } else {
        Err(TAMError::SegmentationFault(cp, cp))
    }
}

/// One fetch-decode-execute cycle.
pub open spec fn step_spec(s: TamView) -> Outcome<Action> {
    match fetch_spec(s) {
        Err(e) => (s, Err(e)),
        Ok(i) => execute_spec(s.with_reg(CP, (s.reg(CP) + 1) as usize), i),
    }
}

/// The state from which `run` starts: data zeroed, `CP`, `ST`, `LB` at 0,
/// heap empty.
pub open spec fn reset_spec(s: TamView) -> TamView {
    TamView {
        data: Seq::new(MEM_SIZE as nat, |i: int| 0i16),
        regs: s.regs.update(CP as int, 0).update(ST as int, 0).update(SB as int, 0).update(
            HT as int,
            (MEM_SIZE - 1) as usize,
        ).update(HB as int, (MEM_SIZE - 1) as usize).update(LB as int, 0),
        ..s
    }
}

} // verus!
