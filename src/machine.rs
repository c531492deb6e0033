//! The executable machine: fetch, decode and execute over the model of `state`.
use vstd::prelude::*;
use crate::errors::{TAMError, TAMResult};
use crate::instruction::{Instruction, decode};
use crate::bytecode::{be_value, word_count, read_word};
use crate::state::{
    Action, TamView, MEM_SIZE, CT, PB, PT, SB, ST, HB, HT, LB, CP, reg_spec, addr_spec,
    check_addr_spec, check_stack_spec, check_code_spec, push_spec, pop_spec, reset_spec, load_cells,
    store_cells, pop_cells, push_back, drop_cells, enter_frame, return_spec, wrap16, trunc_div,
    trunc_rem, unary_spec, binary_spec, new_spec, primitive_spec, input_spec, load_spec, loada_spec,
    loadi_spec, store_spec, storei_spec, call_spec, calli_spec, push_cells_spec, jump_spec, jumpi_spec,
    jumpif_spec, execute_spec, fetch_spec, step_spec, then_check,
};

verus! {

/// The TAM emulator: code store, data store and register file.
pub struct TAM {
    code: Vec<u32>,
    data: Vec<i16>,
    registers: Vec<usize>,
    trace: bool,
}

impl View for TAM {
    type V = TamView;

    closed spec fn view(&self) -> TamView {
        TamView { code: self.code@, data: self.data@, regs: self.registers@ }
    }
}

/// The registers of a machine just built: primitives anchored at the top,
/// empty stack and heap.
pub open spec fn initial_regs() -> Seq<usize> {
    Seq::new(16, |i: int| 0usize).update(PB as int, (MEM_SIZE - 29) as usize).update(
        PT as int,
        (MEM_SIZE - 1) as usize,
    ).update(HB as int, (MEM_SIZE - 1) as usize).update(HT as int, (MEM_SIZE - 1) as usize)
}

fn zeroed<T: Copy>(v: T, len: usize) -> (r: Vec<T>)
    ensures
        r@ == Seq::new(len as nat, |i: int| v),
{
    let mut r: Vec<T> = Vec::new();
    while r.len() < len
        invariant
            r.len() <= len,
            forall|i: int| 0 <= i < r.len() ==> r@[i] == v,
        decreases len - r.len(),
    {
        r.push(v);
    }
    assert(r@ =~= Seq::new(len as nat, |i: int| v));
    r
}

impl TAM {
    pub open spec fn wf(&self) -> bool {
        self@.wf()
    }

    /// Builds a machine with empty stores.
    ///
    /// `trace` asks the driver to print each instruction as it executes.
    pub fn new(trace: bool) -> (t: TAM)
        ensures
            t.wf(),
            t@.code == Seq::new(MEM_SIZE as nat, |i: int| 0u32),
            t@.data == Seq::new(MEM_SIZE as nat, |i: int| 0i16),
            t@.regs == initial_regs(),
            t.trace() == trace,
    {
        let mut registers = zeroed(0usize, 16);
        registers.set(PB, MEM_SIZE - 29);
        registers.set(PT, MEM_SIZE - 1);
        registers.set(HB, MEM_SIZE - 1);
        registers.set(HT, MEM_SIZE - 1);
        let t = TAM { code: zeroed(0u32, MEM_SIZE), data: zeroed(0i16, MEM_SIZE), registers, trace };
        assert(t@.regs =~= initial_regs());
        t
    }

    pub closed spec fn trace(&self) -> bool {
        self.trace
    }

    /// Whether the driver should print a trace.
    pub fn is_tracing(&self) -> (b: bool)
        ensures
            b == self.trace(),
    {
        self.trace
    }

    /// Register `i`.
    pub fn register(&self, i: usize) -> (v: usize)
        requires
            self.wf(),
            i < 16,
        ensures
            v == self@.reg(i),
    {
        self.registers[i]
    }

    /// Sets register `i` to `v`.
    pub fn set_register(&mut self, i: usize, v: usize)
        requires
            old(self).wf(),
            i < 16,
        ensures
            final(self)@ == old(self)@.with_reg(i, v),
            final(self).trace() == old(self).trace(),
    {
        self.registers.set(i, v);
    }

    /// The data cell at `a`.
    pub fn data_at(&self, a: usize) -> (v: i16)
        requires
            self.wf(),
            a < MEM_SIZE,
        ensures
            v == self@.data[a as int],
    {
        self.data[a]
    }

    /// Writes `v` into data cell `a`.
    pub fn set_data(&mut self, a: usize, v: i16)
        requires
            old(self).wf(),
            a < MEM_SIZE,
        ensures
            final(self)@ == old(self)@.with_cell(a, v),
            final(self).trace() == old(self).trace(),
    {
        self.data.set(a, v);
    }

    /// The code word at `a`.
    pub fn code_at(&self, a: usize) -> (w: u32)
        requires
            self.wf(),
            a < MEM_SIZE,
        ensures
            w == self@.code[a as int],
    {
        self.code[a]
    }

    /// Writes `w` into code word `a`.
    pub fn set_code(&mut self, a: usize, w: u32)
        requires
            old(self).wf(),
            a < MEM_SIZE,
        ensures
            final(self)@.code == old(self)@.code.update(a as int, w),
            final(self)@.data == old(self)@.data,
            final(self)@.regs == old(self)@.regs,
            final(self).trace() == old(self).trace(),
    {
        self.code.set(a, w);
    }

    /// Zeroes the data store and resets `CP`, `ST`, `SB`, `HT`, `HB` and `LB`.
    pub fn reset_data(&mut self)
        requires
            old(self).wf(),
        ensures
            final(self)@ == reset_spec(old(self)@),
            final(self).wf(),
            final(self).trace() == old(self).trace(),
    {
        let mut i: usize = 0;
        while i < MEM_SIZE
            invariant
                self.wf(),
                self.code@ == old(self).code@,
                self.registers@ == old(self).registers@,
                self.trace == old(self).trace,
                i <= MEM_SIZE,
                forall|j: int| 0 <= j < i ==> self.data@[j] == 0i16,
            decreases MEM_SIZE - i,
        {
            self.data.set(i, 0);
            i = i + 1;
        }
        self.registers.set(CP, 0);
        self.registers.set(ST, 0);
        self.registers.set(SB, 0);
        self.registers.set(HT, MEM_SIZE - 1);
        self.registers.set(HB, MEM_SIZE - 1);
        self.registers.set(LB, 0);
        assert(self@.data =~= reset_spec(old(self)@).data);
        assert(self@.regs =~= reset_spec(old(self)@).regs);
    }

    fn fault_pc(&self) -> (pc: usize)
        requires
            self.wf(),
        ensures
            pc == self@.fault_pc(),
    {
        let cp = self.registers[CP];
        if cp == 0 {
            0
        } else {
            cp - 1
        }
    }

    fn set_reg(&mut self, i: usize, v: usize)
        requires
            old(self).wf(),
            i < 16,
        ensures
            final(self)@ == old(self)@.with_reg(i, v),
            final(self).trace == old(self).trace,
            final(self).wf(),
    {
        self.registers.set(i, v);
    }

    fn read_reg(&self, i: u8) -> (r: TAMResult<usize>)
        requires
            self.wf(),
        ensures
            r == reg_spec(self@, i),
    {
        if i < 16 {
            Ok(self.registers[i as usize])
        } else {
            Err(TAMError::InvalidRegister(self.fault_pc(), i as usize))
        }
    }

    fn push_data(&mut self, dat: i16) -> (r: TAMResult<()>)
        requires
            old(self).wf(),
        ensures
            (final(self)@, r) == push_spec(old(self)@, dat),
            final(self).trace == old(self).trace,
            final(self).wf(),
    {
        let st = self.registers[ST];
        if st < MEM_SIZE {
            self.data.set(st, dat);
            self.registers.set(ST, st + 1);
            Ok(())
        } else {
            Err(TAMError::StackOverflow(self.fault_pc()))
        }
    }

    fn pop_data(&mut self) -> (r: TAMResult<i16>)
        requires
            old(self).wf(),
        ensures
            (final(self)@, r) == pop_spec(old(self)@),
            final(self).trace == old(self).trace,
            final(self).wf(),
    {
        let st = self.registers[ST];
        if st == 0 {
            Err(TAMError::StackUnderflow(self.fault_pc()))
        } else if st > MEM_SIZE {
            Err(TAMError::SegmentationFault(self.fault_pc(), st - 1))
        } else {
            self.registers.set(ST, st - 1);
            Ok(self.data[st - 1])
        }
    }

    fn check_addr(&self, addr: usize) -> (r: TAMResult<()>)
        requires
            self.wf(),
        ensures
            r == check_addr_spec(self@, addr),
    {
        if (addr < self.registers[ST] || addr > self.registers[HT]) && addr < MEM_SIZE {
            Ok(())
        } else {
            Err(TAMError::SegmentationFault(self.fault_pc(), addr))
        }
    }

    fn check_stack(&self) -> (r: TAMResult<()>)
        requires
            self.wf(),
        ensures
            r == check_stack_spec(self@),
    {
        if self.registers[ST] < self.registers[HT] {
            Ok(())
        } else {
            Err(TAMError::StackOverflow(self.fault_pc()))
        }
    }

    fn check_code(&self, addr: usize) -> (r: TAMResult<()>)
        requires
            self.wf(),
        ensures
            r == check_code_spec(self@, addr),
    {
        if addr < self.registers[CT] {
            Ok(())
        } else {
            Err(TAMError::SegmentationFault(self.fault_pc(), addr))
        }
    }

    fn get_addr(&self, instr: Instruction) -> (r: TAMResult<usize>)
        requires
            self.wf(),
        ensures
            r == addr_spec(self@, instr),
    {
        let base = self.read_reg(instr.r)?;
        Ok(base.wrapping_add_signed(instr.d as isize))
    }
}

pub open spec fn view_vals(r: TAMResult<Vec<i16>>) -> Result<Seq<i16>, TAMError> {
    match r {
        Ok(v) => Ok(v@),
        Err(e) => Err(e),
    }
}

impl TAM {
    fn load_from(&mut self, addr: usize, n: u8) -> (r: TAMResult<()>)
        requires
            old(self).wf(),
        ensures
            (final(self)@, r) == load_cells(old(self)@, addr, n as nat),
            final(self).trace == old(self).trace,
            final(self).wf(),
    {
        let mut a = addr;
        let mut i: u8 = 0;
        while i < n
            invariant
                self.wf(),
                self.trace == old(self).trace,
                i <= n,
                load_cells(self@, a, (n - i) as nat) == load_cells(old(self)@, addr, n as nat),
            decreases n - i,
        {
            self.check_addr(a)?;
            let dat = self.data[a];
            self.push_data(dat)?;
            a = a + 1;
            i = i + 1;
        }
        Ok(())
    }

    fn store_to(&mut self, addr: usize, n: u8) -> (r: TAMResult<()>)
        requires
            old(self).wf(),
        ensures
            (final(self)@, r) == store_cells(old(self)@, addr, n as nat),
            final(self).trace == old(self).trace,
            final(self).wf(),
    {
        let mut a = addr;
        let mut i: u8 = 0;
        while i < n
            invariant
                self.wf(),
                self.trace == old(self).trace,
                i <= n,
                store_cells(self@, a, (n - i) as nat) == store_cells(old(self)@, addr, n as nat),
            decreases n - i,
        {
            self.check_addr(a)?;
            let dat = self.pop_data()?;
            self.data.set(a, dat);
            a = a + 1;
            i = i + 1;
        }
        Ok(())
    }

    fn pop_many(&mut self, n: u8) -> (r: TAMResult<Vec<i16>>)
        requires
            old(self).wf(),
        ensures
            (final(self)@, view_vals(r)) == pop_cells(old(self)@, n as nat, seq![]),
            final(self).trace == old(self).trace,
            final(self).wf(),
    {
        let mut vals: Vec<i16> = Vec::new();
        let mut i: u8 = 0;
        while i < n
            invariant
                self.wf(),
                self.trace == old(self).trace,
                i <= n,
                pop_cells(self@, (n - i) as nat, vals@) == pop_cells(
                    old(self)@,
                    n as nat,
                    seq![],
                ),
            decreases n - i,
        {
            let v = self.pop_data()?;
            vals.push(v);
            i = i + 1;
        }
        Ok(vals)
    }

    fn push_all(&mut self, vals: Vec<i16>) -> (r: TAMResult<()>)
        requires
            old(self).wf(),
        ensures
            (final(self)@, r) == push_back(old(self)@, vals@),
            final(self).trace == old(self).trace,
            final(self).wf(),
    {
        let mut rest = vals;
        while rest.len() > 0
            invariant
                self.wf(),
                self.trace == old(self).trace,
                push_back(self@, rest@) == push_back(old(self)@, vals@),
            decreases rest.len(),
        {
            let ghost before = rest@;
            let v = rest.pop().unwrap();
            assert(v == before.last() && rest@ == before.drop_last());
            self.push_data(v)?;
        }
        Ok(())
    }

    fn drop_data(&mut self, k: usize) -> (r: TAMResult<()>)
        requires
            old(self).wf(),
        ensures
            (final(self)@, r) == drop_cells(old(self)@, k as nat),
            final(self).trace == old(self).trace,
            final(self).wf(),
    {
        let st = self.registers[ST];
        if k <= st {
            self.set_reg(ST, st - k);
            Ok(())
        } else {
            Err(TAMError::StackUnderflow(self.fault_pc()))
        }
    }

    fn push_frame(&mut self, target: usize, static_link: i16) -> (r: TAMResult<()>)
        requires
            old(self).wf(),
        ensures
            (final(self)@, r) == enter_frame(old(self)@, target, static_link),
            final(self).trace == old(self).trace,
            final(self).wf(),
    {
        let dynamic_link = #[verifier::truncate] (self.registers[LB] as i16);
        let ret_addr = #[verifier::truncate] (self.registers[CP] as i16);
        self.push_data(static_link)?;
        self.push_data(dynamic_link)?;
        self.push_data(ret_addr)?;
        self.check_stack()?;
        let st = self.registers[ST];
        self.set_reg(LB, st - 3);
        self.set_reg(CP, target);
        Ok(())
    }

    fn exec_return(&mut self, instr: Instruction) -> (r: TAMResult<()>)
        requires
            old(self).wf(),
        ensures
            (final(self)@, r) == return_spec(old(self)@, instr),
            final(self).trace == old(self).trace,
            final(self).wf(),
    {
        let lb = self.registers[LB];
        if lb >= MEM_SIZE - 2 {
            return Err(TAMError::SegmentationFault(self.fault_pc(), lb));
        }
        let ret_addr = (#[verifier::truncate] (self.data[lb + 2] as u16)) as usize;
        let dynamic_link = (#[verifier::truncate] (self.data[lb + 1] as u16)) as usize;
        self.check_code(ret_addr)?;
        let vals = self.pop_many(instr.n)?;
        if self.registers[ST] > lb {
            self.set_reg(ST, lb);
        }
        let args: usize = if instr.d > 0 {
            instr.d as usize
        } else {
            0
        };
        self.drop_data(args)?;
        self.push_all(vals)?;
        self.set_reg(CP, ret_addr);
        self.set_reg(LB, dynamic_link);
        Ok(())
    }
}

proof fn lemma_wrap16_near(x: int)
    requires
        -65536 <= x < 65536,
    ensures
        wrap16(x) == (if x > 32767 {
            x - 65536
        } else if x < -32768 {
            x + 65536
        } else {
            x
        }) as i16,
{
    if x >= 0 {
        assert(x % 65536 == x);
    } else {
        assert(x % 65536 == x + 65536);
    }
}

/// Wraps a value within one turn of the 16-bit range into it.
fn wrap_i16(x: i32) -> (r: i16)
    requires
        -65536 <= x < 65536,
    ensures
        r == wrap16(x as int),
{
    proof {
        lemma_wrap16_near(x as int);
    }
    if x > 32767 {
        (x - 65536) as i16
    } else if x < -32768 {
        (x + 65536) as i16
    } else {
        x as i16
    }
}

fn magnitude(a: i16) -> (m: u32)
    ensures
        m as int == crate::state::abs(a as int),
{
    if a < 0 {
        (-(a as i32)) as u32
    } else {
        a as u32
    }
}

/// `a / b`, truncated toward zero and wrapped into 16 bits.
fn div16(a: i16, b: i16) -> (q: i16)
    requires
        b != 0,
    ensures
        q == wrap16(trunc_div(a as int, b as int)),
{
    let ua = magnitude(a);
    let ub = magnitude(b);
    let m = ua / ub;
    assert(m <= ua) by (nonlinear_arith)
        requires
            ub >= 1,
            m == ua / ub,
    ;
    let q: i32 = if (a < 0) != (b < 0) {
        -(m as i32)
    } else {
        m as i32
    };
    wrap_i16(q)
}

/// The remainder of `a / b` truncated toward zero; its sign follows `a`.
fn rem16(a: i16, b: i16) -> (q: i16)
    requires
        b != 0,
    ensures
        q == trunc_rem(a as int, b as int) as i16,
{
    let ua = magnitude(a);
    let ub = magnitude(b);
    let m = ua % ub;
    assert(m < ub) by (nonlinear_arith)
        requires
            ub >= 1,
            m == ua % ub,
    ;
    if a < 0 {
        (-(m as i32)) as i16
    } else {
        m as i16
    }
}

impl TAM {
    fn call_unary(&mut self, k: i16) -> (r: TAMResult<()>)
        requires
            old(self).wf(),
            k == 1 || k == 2 || k == 5 || k == 6 || k == 7,
        ensures
            (final(self)@, r) == unary_spec(old(self)@, k),
            final(self).trace == old(self).trace,
            final(self).wf(),
    {
        let x = self.pop_data()?;
        let v = if k == 1 {
            x
        } else if k == 2 {
            if x == 0 {
                1
            } else {
                0
            }
        } else if k == 5 {
            wrap_i16(x as i32 + 1)
        } else if k == 6 {
            wrap_i16(x as i32 - 1)
        } else {
            wrap_i16(-(x as i32))
        };
        self.push_data(v)
    }

    fn call_id(&mut self) -> (r: TAMResult<()>)
        requires
            old(self).wf(),
        ensures
            (final(self)@, r) == unary_spec(old(self)@, 1),
            final(self).trace == old(self).trace,
            final(self).wf(),
    {
        self.call_unary(1)
    }

    fn call_not(&mut self) -> (r: TAMResult<()>)
        requires
            old(self).wf(),
        ensures
            (final(self)@, r) == unary_spec(old(self)@, 2),
            final(self).trace == old(self).trace,
            final(self).wf(),
    {
        self.call_unary(2)
    }

    fn call_inc(&mut self) -> (r: TAMResult<()>)
        requires
            old(self).wf(),
        ensures
            (final(self)@, r) == unary_spec(old(self)@, 5),
            final(self).trace == old(self).trace,
            final(self).wf(),
    {
        self.call_unary(5)
    }

    fn call_dec(&mut self) -> (r: TAMResult<()>)
        requires
            old(self).wf(),
        ensures
            (final(self)@, r) == unary_spec(old(self)@, 6),
            final(self).trace == old(self).trace,
            final(self).wf(),
    {
        self.call_unary(6)
    }

    fn call_neg(&mut self) -> (r: TAMResult<()>)
        requires
            old(self).wf(),
        ensures
            (final(self)@, r) == unary_spec(old(self)@, 7),
            final(self).trace == old(self).trace,
            final(self).wf(),
    {
        self.call_unary(7)
    }

    /// Pops `b`, then `a`, and pushes the value of binary primitive `k`.
    fn call_binary(&mut self, k: i16) -> (r: TAMResult<()>)
        requires
            old(self).wf(),
            k == 3 || k == 4 || (8 <= k <= 18),
        ensures
            (final(self)@, r) == binary_spec(old(self)@, k),
            final(self).trace == old(self).trace,
            final(self).wf(),
    {
        let pc = self.fault_pc();
        let t2 = self.pop_data()?;
        if (k == 11 || k == 12) && t2 == 0 {
            return Err(TAMError::DivideByZero(pc));
        }
        let t1 = self.pop_data()?;
        let v = if k == 3 {
            if t1.wrapping_mul(t2) == 0 {
                0
            } else {
                1
            }
        } else if k == 4 {
            if wrap_i16(t1 as i32 + t2 as i32) == 0 {
                0
            } else {
                1
            }
        } else if k == 8 {
            wrap_i16(t1 as i32 + t2 as i32)
        } else if k == 9 {
            wrap_i16(t1 as i32 - t2 as i32)
        } else if k == 10 {
            t1.wrapping_mul(t2)
        } else if k == 11 {
            div16(t1, t2)
        } else if k == 12 {
            rem16(t1, t2)
        } else if k == 13 {
            if t1 < t2 {
                1
            } else {
                0
            }
        } else if k == 14 {
            if t1 <= t2 {
                1
            } else {
                0
            }
        } else if k == 15 {
            if t1 >= t2 {
                1
            } else {
                0
            }
        } else if k == 16 {
            if t1 > t2 {
                1
            } else {
                0
            }
        } else if k == 17 {
            if t1 == t2 {
                1
            } else {
                0
            }
        } else {
            if t1 != t2 {
                1
            } else {
                0
            }
        };
        self.push_data(v)
    }
}

impl TAM {
    fn call_and(&mut self) -> (r: TAMResult<()>)
        requires
            old(self).wf(),
        ensures
            (final(self)@, r) == binary_spec(old(self)@, 3),
            final(self).trace == old(self).trace,
            final(self).wf(),
    {
        self.call_binary(3)
    }

    fn call_or(&mut self) -> (r: TAMResult<()>)
        requires
            old(self).wf(),
        ensures
            (final(self)@, r) == binary_spec(old(self)@, 4),
            final(self).trace == old(self).trace,
            final(self).wf(),
    {
        self.call_binary(4)
    }

    fn call_add(&mut self) -> (r: TAMResult<()>)
        requires
            old(self).wf(),
        ensures
            (final(self)@, r) == binary_spec(old(self)@, 8),
            final(self).trace == old(self).trace,
            final(self).wf(),
    {
        self.call_binary(8)
    }

    fn call_sub(&mut self) -> (r: TAMResult<()>)
        requires
            old(self).wf(),
        ensures
            (final(self)@, r) == binary_spec(old(self)@, 9),
            final(self).trace == old(self).trace,
            final(self).wf(),
    {
        self.call_binary(9)
    }

    fn call_mul(&mut self) -> (r: TAMResult<()>)
        requires
            old(self).wf(),
        ensures
            (final(self)@, r) == binary_spec(old(self)@, 10),
            final(self).trace == old(self).trace,
            final(self).wf(),
    {
        self.call_binary(10)
    }

    fn call_div(&mut self) -> (r: TAMResult<()>)
        requires
            old(self).wf(),
        ensures
            (final(self)@, r) == binary_spec(old(self)@, 11),
            final(self).trace == old(self).trace,
            final(self).wf(),
    {
        self.call_binary(11)
    }

    fn call_mod(&mut self) -> (r: TAMResult<()>)
        requires
            old(self).wf(),
        ensures
            (final(self)@, r) == binary_spec(old(self)@, 12),
            final(self).trace == old(self).trace,
            final(self).wf(),
    {
        self.call_binary(12)
    }

    fn call_lt(&mut self) -> (r: TAMResult<()>)
        requires
            old(self).wf(),
        ensures
            (final(self)@, r) == binary_spec(old(self)@, 13),
            final(self).trace == old(self).trace,
            final(self).wf(),
    {
        self.call_binary(13)
    }

    fn call_le(&mut self) -> (r: TAMResult<()>)
        requires
            old(self).wf(),
        ensures
            (final(self)@, r) == binary_spec(old(self)@, 14),
            final(self).trace == old(self).trace,
            final(self).wf(),
    {
        self.call_binary(14)
    }

    fn call_ge(&mut self) -> (r: TAMResult<()>)
        requires
            old(self).wf(),
        ensures
            (final(self)@, r) == binary_spec(old(self)@, 15),
            final(self).trace == old(self).trace,
            final(self).wf(),
    {
        self.call_binary(15)
    }

    fn call_gt(&mut self) -> (r: TAMResult<()>)
        requires
            old(self).wf(),
        ensures
            (final(self)@, r) == binary_spec(old(self)@, 16),
            final(self).trace == old(self).trace,
            final(self).wf(),
    {
        self.call_binary(16)
    }

    fn call_eq(&mut self) -> (r: TAMResult<()>)
        requires
            old(self).wf(),
        ensures
            (final(self)@, r) == binary_spec(old(self)@, 17),
            final(self).trace == old(self).trace,
            final(self).wf(),
    {
        self.call_binary(17)
    }

    fn call_ne(&mut self) -> (r: TAMResult<()>)
        requires
            old(self).wf(),
        ensures
            (final(self)@, r) == binary_spec(old(self)@, 18),
            final(self).trace == old(self).trace,
            final(self).wf(),
    {
        self.call_binary(18)
    }

    fn call_new(&mut self) -> (r: TAMResult<()>)
        requires
            old(self).wf(),
        ensures
            (final(self)@, r) == new_spec(old(self)@),
            final(self).trace == old(self).trace,
            final(self).wf(),
    {
        let pc = self.fault_pc();
        let v = self.pop_data()?;
        let n = (#[verifier::truncate] (v as u16)) as usize;
        let ht = self.registers[HT];
        if n > ht {
            return Err(TAMError::StackOverflow(pc));
        }
        let top = ht - n;
        self.set_reg(HT, top);
        self.push_data(#[verifier::truncate] (top.wrapping_add(1) as i16))?;
        self.check_stack()
    }

    fn call_put(&mut self) -> (r: TAMResult<Action>)
        requires
            old(self).wf(),
        ensures
            (final(self)@, r) == primitive_spec(old(self)@, 22),
            final(self).trace == old(self).trace,
            final(self).wf(),
    {
        let c = self.pop_data()?;
        Ok(Action::PutChar(#[verifier::truncate] (c as u8)))
    }

    fn call_putint(&mut self) -> (r: TAMResult<Action>)
        requires
            old(self).wf(),
        ensures
            (final(self)@, r) == primitive_spec(old(self)@, 26),
            final(self).trace == old(self).trace,
            final(self).wf(),
    {
        let v = self.pop_data()?;
        Ok(Action::PutInt(v))
    }

    /// Runs the primitive routine with displacement `off`. Input and output
    /// primitives hand their work to the caller as an `Action`.
    fn exec_call_primitive(&mut self, off: i16) -> (r: TAMResult<Action>)
        requires
            old(self).wf(),
        ensures
            (final(self)@, r) == primitive_spec(old(self)@, off),
            final(self).trace == old(self).trace,
            final(self).wf(),
    {
        match off {
            1 => self.call_id()?,
            2 => self.call_not()?,
            3 => self.call_and()?,
            4 => self.call_or()?,
            5 => self.call_inc()?,
            6 => self.call_dec()?,
            7 => self.call_neg()?,
            8 => self.call_add()?,
            9 => self.call_sub()?,
            10 => self.call_mul()?,
            11 => self.call_div()?,
            12 => self.call_mod()?,
            13 => self.call_lt()?,
            14 => self.call_le()?,
            15 => self.call_ge()?,
            16 => self.call_gt()?,
            17 => self.call_eq()?,
            18 => self.call_ne()?,
            21 => return Ok(Action::GetChar),
            22 => return self.call_put(),
            23 => return Ok(Action::SkipLine),
            24 => return Ok(Action::PutEol),
            25 => return Ok(Action::GetInt),
            26 => return self.call_putint(),
            27 => self.call_new()?,
            _ => return Err(TAMError::Unimplemented(self.fault_pc())),
        }
        Ok(Action::Continue)
    }

    /// Completes `get` or `getint`: pops an address, checks it, and stores
    /// the value that was read there.
    pub fn complete_input(&mut self, value: i16) -> (r: TAMResult<()>)
        requires
            old(self).wf(),
        ensures
            (final(self)@, r) == input_spec(old(self)@, value),
            final(self).trace() == old(self).trace(),
            final(self).wf(),
    {
        let a = self.pop_data()?;
        let addr = (#[verifier::truncate] (a as u16)) as usize;
        self.check_addr(addr)?;
        self.data.set(addr, value);
        Ok(())
    }

    fn exec_load(&mut self, instr: Instruction) -> (r: TAMResult<()>)
        requires
            old(self).wf(),
        ensures
            (final(self)@, r) == load_spec(old(self)@, instr),
            final(self).trace == old(self).trace,
            final(self).wf(),
    {
        let addr = self.get_addr(instr)?;
        self.load_from(addr, instr.n)?;
        self.check_stack()
    }

    fn exec_loada(&mut self, instr: Instruction) -> (r: TAMResult<()>)
        requires
            old(self).wf(),
        ensures
            (final(self)@, r) == loada_spec(old(self)@, instr),
            final(self).trace == old(self).trace,
            final(self).wf(),
    {
        let addr = self.get_addr(instr)?;
        self.check_addr(addr)?;
        self.push_data(#[verifier::truncate] (addr as i16))?;
        self.check_stack()
    }

    fn exec_loadi(&mut self, instr: Instruction) -> (r: TAMResult<()>)
        requires
            old(self).wf(),
        ensures
            (final(self)@, r) == loadi_spec(old(self)@, instr),
            final(self).trace == old(self).trace,
            final(self).wf(),
    {
        let a = self.pop_data()?;
        self.load_from((#[verifier::truncate] (a as u16)) as usize, instr.n)?;
        self.check_stack()
    }

    fn exec_loadl(&mut self, instr: Instruction) -> (r: TAMResult<()>)
        requires
            old(self).wf(),
        ensures
            (final(self)@, r) == then_check(push_spec(old(self)@, instr.d)),
            final(self).trace == old(self).trace,
            final(self).wf(),
    {
        self.push_data(instr.d)?;
        self.check_stack()
    }

    fn exec_store(&mut self, instr: Instruction) -> (r: TAMResult<()>)
        requires
            old(self).wf(),
        ensures
            (final(self)@, r) == store_spec(old(self)@, instr),
            final(self).trace == old(self).trace,
            final(self).wf(),
    {
        let addr = self.get_addr(instr)?;
        self.store_to(addr, instr.n)?;
        self.check_stack()
    }

    fn exec_storei(&mut self, instr: Instruction) -> (r: TAMResult<()>)
        requires
            old(self).wf(),
        ensures
            (final(self)@, r) == storei_spec(old(self)@, instr),
            final(self).trace == old(self).trace,
            final(self).wf(),
    {
        let a = self.pop_data()?;
        self.store_to((#[verifier::truncate] (a as u16)) as usize, instr.n)?;
        self.check_stack()
    }

    fn exec_call(&mut self, instr: Instruction) -> (r: TAMResult<Action>)
        requires
            old(self).wf(),
        ensures
            (final(self)@, r) == call_spec(old(self)@, instr),
            final(self).trace == old(self).trace,
            final(self).wf(),
    {
        if instr.r as usize == PB && instr.d > 0 && instr.d < 28 {
            self.exec_call_primitive(instr.d)
        } else {
            let addr = self.get_addr(instr)?;
            self.check_code(addr)?;
            let static_link = self.read_reg(instr.n)?;
            self.push_frame(addr, #[verifier::truncate] (static_link as i16))?;
            Ok(Action::Continue)
        }
    }

    fn exec_calli(&mut self, _instr: Instruction) -> (r: TAMResult<()>)
        requires
            old(self).wf(),
        ensures
            (final(self)@, r) == calli_spec(old(self)@),
            final(self).trace == old(self).trace,
            final(self).wf(),
    {
        let a = self.pop_data()?;
        let addr = (#[verifier::truncate] (a as u16)) as usize;
        self.check_code(addr)?;
        let static_link = self.pop_data()?;
        self.push_frame(addr, static_link)
    }

    fn exec_push(&mut self, instr: Instruction) -> (r: TAMResult<()>)
        requires
            old(self).wf(),
        ensures
            (final(self)@, r) == push_cells_spec(old(self)@, instr),
            final(self).trace == old(self).trace,
            final(self).wf(),
    {
        let st = self.registers[ST];
        if instr.d < 0 {
            let m = (-(instr.d as i32)) as usize;
            if m > st {
                return Err(TAMError::StackUnderflow(self.fault_pc()));
            }
            self.set_reg(ST, st - m);
        } else {
            let m = instr.d as usize;
            if st > usize::MAX - m {
                return Err(TAMError::StackOverflow(self.fault_pc()));
            }
            self.set_reg(ST, st + m);
        }
        self.check_stack()
    }

    fn exec_pop(&mut self, _instr: Instruction) -> (r: TAMResult<()>)
        requires
            old(self).wf(),
        ensures
            final(self)@ == old(self)@,
            r == Err::<(), TAMError>(TAMError::Unimplemented(old(self)@.fault_pc())),
            final(self).trace == old(self).trace,
            final(self).wf(),
    {
        Err(TAMError::Unimplemented(self.fault_pc()))
    }

    fn jump_to(&mut self, addr: usize) -> (r: TAMResult<()>)
        requires
            old(self).wf(),
        ensures
            (final(self)@, r) == crate::state::jump_to(old(self)@, addr),
            final(self).trace == old(self).trace,
            final(self).wf(),
    {
        self.check_code(addr)?;
        self.set_reg(CP, addr);
        Ok(())
    }

    fn exec_jump(&mut self, instr: Instruction) -> (r: TAMResult<()>)
        requires
            old(self).wf(),
        ensures
            (final(self)@, r) == jump_spec(old(self)@, instr),
            final(self).trace == old(self).trace,
            final(self).wf(),
    {
        let addr = self.get_addr(instr)?;
        self.jump_to(addr)
    }

    fn exec_jumpi(&mut self, _instr: Instruction) -> (r: TAMResult<()>)
        requires
            old(self).wf(),
        ensures
            (final(self)@, r) == jumpi_spec(old(self)@),
            final(self).trace == old(self).trace,
            final(self).wf(),
    {
        let a = self.pop_data()?;
        self.jump_to((#[verifier::truncate] (a as u16)) as usize)
    }

    fn exec_jumpif(&mut self, instr: Instruction) -> (r: TAMResult<()>)
        requires
            old(self).wf(),
        ensures
            (final(self)@, r) == jumpif_spec(old(self)@, instr),
            final(self).trace == old(self).trace,
            final(self).wf(),
    {
        let val = self.pop_data()?;
        if val == instr.n as i16 {
            let addr = self.get_addr(instr)?;
            self.jump_to(addr)
        } else {
            Ok(())
        }
    }

    /// Executes one decoded instruction; `CP` has already been advanced past it.
    pub fn execute(&mut self, instr: Instruction) -> (r: TAMResult<Action>)
        requires
            old(self).wf(),
        ensures
            (final(self)@, r) == execute_spec(old(self)@, instr),
            final(self).trace() == old(self).trace(),
            final(self).wf(),
    {
        match instr.op {
            0 => self.exec_load(instr)?,
            1 => self.exec_loada(instr)?,
            2 => self.exec_loadi(instr)?,
            3 => self.exec_loadl(instr)?,
            4 => self.exec_store(instr)?,
            5 => self.exec_storei(instr)?,
            6 => return self.exec_call(instr),
            7 => self.exec_calli(instr)?,
            8 => self.exec_return(instr)?,
            10 => self.exec_push(instr)?,
            11 => self.exec_pop(instr)?,
            12 => self.exec_jump(instr)?,
            13 => self.exec_jumpi(instr)?,
            14 => self.exec_jumpif(instr)?,
            15 => return Ok(Action::Halt),
            _ => (),
        }
        Ok(Action::Continue)
    }

    fn fetch_decode(&mut self) -> (r: TAMResult<Instruction>)
        requires
            old(self).wf(),
        ensures
            r == fetch_spec(old(self)@),
            r is Ok ==> final(self)@ == old(self)@.with_reg(CP, (old(self)@.reg(CP) + 1) as usize),
            r is Err ==> final(self)@ == old(self)@,
            final(self).trace == old(self).trace,
            final(self).wf(),
    {
        let cp = self.registers[CP];
        if cp < self.registers[CT] && cp < self.code.len() {
            let instr = decode(self.code[cp]);
            self.set_reg(CP, cp + 1);
            Ok(instr)
        } else {
            Err(TAMError::SegmentationFault(cp, cp))
        }
    }

    /// One fetch-decode-execute cycle. `HALT` gives `Action::Halt`; the
    /// input and output primitives give the action that the caller performs.
    pub fn step(&mut self) -> (r: TAMResult<Action>)
        requires
            old(self).wf(),
        ensures
            (final(self)@, r) == step_spec(old(self)@),
            final(self).trace() == old(self).trace(),
            final(self).wf(),
    {
        let instr = self.fetch_decode()?;
        self.execute(instr)
    }
}

/// The code store after loading `b`: its whole words from index 0, zeros after.
pub open spec fn program_store(b: Seq<u8>) -> Seq<u32> {
    Seq::new(
        MEM_SIZE as nat,
        |i: int|
            if i < word_count(b) {
                be_value(b, 4 * i) as u32
            } else {
                0u32
            },
    )
}

impl TAM {
    /// Loads a bytecode image: clears the code store, writes each whole
    /// big-endian word from index 0, and sets `CT` to their count.
    pub fn load_program(&mut self, bytes: &[u8])
        requires
            old(self).wf(),
            word_count(bytes@) <= MEM_SIZE,
        ensures
            final(self).wf(),
            final(self)@.code == program_store(bytes@),
            final(self)@.regs == old(self)@.regs.update(CT as int, word_count(bytes@) as usize),
            final(self)@.data == old(self)@.data,
            final(self).trace() == old(self).trace(),
    {
        let count = bytes.len() / 4;
        let mut i: usize = 0;
        while i < MEM_SIZE
            invariant
                self.wf(),
                self.data@ == old(self).data@,
                self.registers@ == old(self).registers@,
                self.trace == old(self).trace,
                count == word_count(bytes@),
                count <= MEM_SIZE,
                i <= MEM_SIZE,
                forall|j: int| 0 <= j < i ==> self.code@[j] == program_store(bytes@)[j],
            decreases MEM_SIZE - i,
        {
            let w = if i < count {
                read_word(bytes, 4 * i)
            } else {
                0
            };
            self.code.set(i, w);
            i = i + 1;
        }
        self.registers.set(CT, count);
        assert(self@.code =~= program_store(bytes@));
    }
}

} // verus!
