//! Properties of the machine model that hold across operations.
use vstd::prelude::*;
use crate::state::{
    TamView, Outcome, MEM_SIZE, CT, ST, LB, CP, load_cells, store_cells, pop_cells, push_back,
    drop_cells, enter_frame, return_spec, primitive_spec, execute_spec, fetch_spec, step_spec,
    input_spec, check_addr_spec, check_code_spec, push_spec, pop_spec, addr_spec, reg_spec, as_addr,
    is_primitive_call, load_spec, loada_spec, loadi_spec, store_spec, storei_spec, call_spec,
    calli_spec, push_cells_spec, jump_spec, jumpi_spec, jumpif_spec, then_check, Action, SB, resolve,
    wrap16, HT,
};
use crate::instruction::{Instruction, decode_spec, encode_spec, lemma_decode_encode};
use crate::bytecode::{be_value, word_count};
use crate::machine::program_store;

verus! {

/// `t` differs from `s` at most in its data cells and its stack top.
pub open spec fn stack_only(s: TamView, t: TamView) -> bool {
    &&& t.code == s.code
    &&& t.data.len() == s.data.len()
    &&& t.regs.len() == s.regs.len()
    &&& forall|k: int| 0 <= k < 16 && k != ST ==> #[trigger] t.regs[k] == s.regs[k]
}

/// What every operation keeps: the stores' shape, the code and `CT`; on
/// success `CP` either stays or lands below `CT`, and the stack/heap window
/// stays well formed.
pub open spec fn keeps_bounds<T>(s: TamView, o: Outcome<T>) -> bool {
    &&& o.0.wf()
    &&& o.0.code == s.code
    &&& o.0.reg(CT) == s.reg(CT)
    &&& o.1 is Ok ==> (o.0.reg(CP) == s.reg(CP) || o.0.reg(CP) < s.reg(CT))
    &&& (s.window_ok() && o.1 is Ok) ==> o.0.window_ok()
}

proof fn lemma_load_cells(s: TamView, a: usize, k: nat)
    requires
        s.wf(),
    ensures
        stack_only(s, load_cells(s, a, k).0),
    decreases k,
{
    if k > 0 && check_addr_spec(s, a) is Ok {
        let (s1, r) = push_spec(s, s.data[a as int]);
        if r is Ok {
            lemma_load_cells(s1, (a + 1) as usize, (k - 1) as nat);
        }
    }
}

proof fn lemma_store_cells(s: TamView, a: usize, k: nat)
    requires
        s.wf(),
    ensures
        stack_only(s, store_cells(s, a, k).0),
    decreases k,
{
    if k > 0 && check_addr_spec(s, a) is Ok {
        let (s1, r) = pop_spec(s);
        if let Ok(v) = r {
            lemma_store_cells(s1.with_cell(a, v), (a + 1) as usize, (k - 1) as nat);
        }
    }
}

proof fn lemma_pop_cells(s: TamView, k: nat, acc: Seq<i16>)
    requires
        s.wf(),
    ensures
        stack_only(s, pop_cells(s, k, acc).0),
        pop_cells(s, k, acc).1 is Ok ==> pop_cells(s, k, acc).0.reg(ST) == s.reg(ST) - k
            && pop_cells(s, k, acc).1->Ok_0.len() == acc.len() + k,
    decreases k,
{
    if k > 0 {
        let (s1, r) = pop_spec(s);
        if let Ok(v) = r {
            lemma_pop_cells(s1, (k - 1) as nat, acc.push(v));
        }
    }
}

proof fn lemma_push_back(s: TamView, vals: Seq<i16>)
    requires
        s.wf(),
    ensures
        stack_only(s, push_back(s, vals).0),
        push_back(s, vals).1 is Ok ==> push_back(s, vals).0.reg(ST) == s.reg(ST) + vals.len(),
    decreases vals.len(),
{
    if vals.len() > 0 {
        let (s1, r) = push_spec(s, vals.last());
        if r is Ok {
            lemma_push_back(s1, vals.drop_last());
        }
    }
}

proof fn lemma_enter_frame(s: TamView, target: usize, sl: i16)
    requires
        s.wf(),
        target < s.reg(CT),
    ensures
        keeps_bounds(s, enter_frame(s, target, sl)),
{
}

proof fn lemma_primitive(s: TamView, k: i16)
    requires
        s.wf(),
    ensures
        keeps_bounds(s, primitive_spec(s, k)),
{
}

proof fn lemma_return(s: TamView, i: Instruction)
    requires
        s.wf(),
    ensures
        keeps_bounds(s, return_spec(s, i)),
{
    let lb = s.reg(LB);
    if lb < MEM_SIZE - 2 {
        let ret = as_addr(s.data[lb + 2]);
        if check_code_spec(s, ret) is Ok {
            lemma_pop_cells(s, i.n as nat, seq![]);
            let (s1, r1) = pop_cells(s, i.n as nat, seq![]);
            if let Ok(vals) = r1 {
                let s2 = if s1.reg(ST) > lb {
                    s1.with_reg(ST, lb)
                } else {
                    s1
                };
                let args: nat = if i.d > 0 {
                    i.d as nat
                } else {
                    0
                };
                let (s3, r3) = drop_cells(s2, args);
                if r3 is Ok {
                    lemma_push_back(s3, vals);
                }
            }
        }
    }
}

proof fn lemma_load(s: TamView, i: Instruction)
    requires
        s.wf(),
    ensures
        keeps_bounds(s, load_spec(s, i)),
        keeps_bounds(s, loada_spec(s, i)),
        keeps_bounds(s, then_check(push_spec(s, i.d))),
{
    if let Ok(a) = addr_spec(s, i) {
        lemma_load_cells(s, a, i.n as nat);
    }
}

proof fn lemma_loadi(s: TamView, i: Instruction)
    requires
        s.wf(),
    ensures
        keeps_bounds(s, loadi_spec(s, i)),
{
    let (s1, r1) = pop_spec(s);
    if let Ok(a) = r1 {
        lemma_load_cells(s1, as_addr(a), i.n as nat);
    }
}

proof fn lemma_store(s: TamView, i: Instruction)
    requires
        s.wf(),
    ensures
        keeps_bounds(s, store_spec(s, i)),
        keeps_bounds(s, storei_spec(s, i)),
{
    if let Ok(a) = addr_spec(s, i) {
        lemma_store_cells(s, a, i.n as nat);
    }
    let (s1, r1) = pop_spec(s);
    if let Ok(a) = r1 {
        lemma_store_cells(s1, as_addr(a), i.n as nat);
    }
}

proof fn lemma_call(s: TamView, i: Instruction)
    requires
        s.wf(),
    ensures
        keeps_bounds(s, call_spec(s, i)),
        keeps_bounds(s, calli_spec(s)),
{
    if is_primitive_call(i) {
        lemma_primitive(s, i.d);
    } else if let Ok(t) = addr_spec(s, i) {
        if let Ok(sl) = reg_spec(s, i.n) {
            if t < s.reg(CT) {
                lemma_enter_frame(s, t, sl as i16);
            }
        }
    }
    let (s1, r1) = pop_spec(s);
    if let Ok(a) = r1 {
        let (s2, r2) = pop_spec(s1);
        if let Ok(sl) = r2 {
            if as_addr(a) < s.reg(CT) {
                lemma_enter_frame(s2, as_addr(a), sl);
            }
        }
    }
}

proof fn lemma_control(s: TamView, i: Instruction)
    requires
        s.wf(),
    ensures
        keeps_bounds(s, push_cells_spec(s, i)),
        keeps_bounds(s, jump_spec(s, i)),
        keeps_bounds(s, jumpi_spec(s)),
        keeps_bounds(s, jumpif_spec(s, i)),
{
}

proof fn lemma_execute(s: TamView, i: Instruction)
    requires
        s.wf(),
    ensures
        keeps_bounds(s, execute_spec(s, i)),
{
    if i.op <= 1 || i.op == 3 {
        lemma_load(s, i);
    } else if i.op == 2 {
        lemma_loadi(s, i);
    } else if i.op == 4 || i.op == 5 {
        lemma_store(s, i);
    } else if i.op == 6 || i.op == 7 {
        lemma_call(s, i);
    } else if i.op == 8 {
        lemma_return(s, i);
    } else {
        lemma_control(s, i);
    }
}

/// Every instruction that completes keeps the stack/heap window well formed:
/// `0 <= ST <= HT + 1 <= MEM_SIZE` before the step implies it after. The same
/// holds when an input value is stored.
pub proof fn lemma_window_preserved(s: TamView, v: i16)
    requires
        s.wf(),
        s.window_ok(),
    ensures
        step_spec(s).1 is Ok ==> step_spec(s).0.window_ok(),
        input_spec(s, v).1 is Ok ==> input_spec(s, v).0.window_ok(),
{
    if let Ok(i) = fetch_spec(s) {
        lemma_execute(s.with_reg(CP, (s.reg(CP) + 1) as usize), i);
    }
}

/// Unless the instruction executed is the last one of the code, a step that
/// completes leaves `CP` below `CT`, so that the next fetch succeeds.
pub proof fn lemma_cp_below_ct(s: TamView)
    requires
        s.wf(),
        s.reg(CP) + 1 < s.reg(CT),
    ensures
        step_spec(s).1 is Ok ==> step_spec(s).0.reg(CP) < step_spec(s).0.reg(CT),
{
    if let Ok(i) = fetch_spec(s) {
        lemma_execute(s.with_reg(CP, (s.reg(CP) + 1) as usize), i);
    }
}

/// Executes `is` in order from `s`, stopping at the first trap.
pub open spec fn run_all(s: TamView, is: Seq<Instruction>) -> Outcome<Action>
    decreases is.len(),
{
    if is.len() == 0 {
        (s, Ok(Action::Continue))
    } else {
        let (t, r) = execute_spec(s, is[0]);
        match r {
            Ok(_) => run_all(t, is.drop_first()),
            Err(e) => (t, Err(e)),
        }
    }
}

/// `LOADL v`
pub open spec fn loadl(v: i16) -> Instruction {
    Instruction { op: 3, r: 0, n: 0, d: v }
}

/// `LOADA [SB+k]`
pub open spec fn loada_sb(k: i16) -> Instruction {
    Instruction { op: 1, r: SB as u8, n: 0, d: k }
}

/// `STORE 1, [SB+k]`
pub open spec fn store_sb(k: i16) -> Instruction {
    Instruction { op: 4, r: SB as u8, n: 1, d: k }
}

/// `STOREI 1`
pub open spec fn storei_one() -> Instruction {
    Instruction { op: 5, r: 0, n: 1, d: 0 }
}

/// An address of the stores, written to a data cell and read back, is kept.
pub proof fn lemma_cell_round_trip(a: usize)
    requires
        a < MEM_SIZE,
    ensures
        as_addr(a as i16) == a,
{
    let x = a as u64;
    assert(x < 65535u64 ==> (x as i16) as u16 as u64 == x) by (bit_vector);
    assert(a as i16 == x as i16);
}

/// A non-primitive call that completes sets `LB` to the base of a new frame
/// just below the stack top (`LB + 3 == ST`, so `LB < ST`), whose cells hold
/// the caller's `LB` as dynamic link and the caller's `CP` as return address.
pub proof fn lemma_call_frame(s: TamView, i: Instruction)
    requires
        s.wf(),
        i.op == 6,
        !is_primitive_call(i),
    ensures
        ({
            let (t, r) = execute_spec(s, i);
            r is Ok ==> {
                &&& t.reg(LB) + 3 == t.reg(ST)
                &&& t.data[t.reg(LB) + 1] == s.reg(LB) as i16
                &&& t.data[t.reg(LB) + 2] == s.reg(CP) as i16
                &&& t.reg(CP) == addr_spec(s, i)->Ok_0
            }
        }),
{
}

/// Storing a literal through the stack, on a stack that already holds cell
/// `k` and has room for two more: `LOADL v; STORE 1, [SB+k]` and
/// `LOADL v; LOADA [SB+k]; STOREI 1` leave `v` in cell `k`. With `STORE`
/// after `LOADA`, the popped cell is the pushed address, so
/// `LOADL v; LOADA [SB+k]; STORE 1, [SB+k]` leaves `k` in cell `k`, and so
/// `v` exactly when `v == k`.
pub proof fn lemma_store_round_trip(s: TamView, v: i16, k: i16)
    requires
        s.wf(),
        s.reg(SB) == 0,
        0 <= k,
        k < s.reg(ST),
        s.reg(ST) + 2 < s.reg(HT),
        s.reg(HT) < MEM_SIZE,
    ensures
        run_all(s, seq![loadl(v), store_sb(k)]).1 is Ok,
        run_all(s, seq![loadl(v), store_sb(k)]).0.data[k as int] == v,
        run_all(s, seq![loadl(v), loada_sb(k), storei_one()]).1 is Ok,
        run_all(s, seq![loadl(v), loada_sb(k), storei_one()]).0.data[k as int] == v,
        run_all(s, seq![loadl(v), loada_sb(k), store_sb(k)]).1 is Ok,
        run_all(s, seq![loadl(v), loada_sb(k), store_sb(k)]).0.data[k as int] == k,
{
    reveal_with_fuel(run_all, 4);
    reveal_with_fuel(store_cells, 2);
    assert(resolve(0, k) == k as usize);
    let s1 = execute_spec(s, loadl(v)).0;
    assert(seq![loadl(v), store_sb(k)].drop_first() =~= seq![store_sb(k)]);
    assert(seq![store_sb(k)].drop_first() =~= seq![]);
    assert(seq![loadl(v), loada_sb(k), storei_one()].drop_first() =~= seq![loada_sb(k), storei_one()]);
    assert(seq![loada_sb(k), storei_one()].drop_first() =~= seq![storei_one()]);
    assert(seq![storei_one()].drop_first() =~= seq![]);
    assert(seq![loadl(v), loada_sb(k), store_sb(k)].drop_first() =~= seq![loada_sb(k), store_sb(k)]);
    assert(seq![loada_sb(k), store_sb(k)].drop_first() =~= seq![store_sb(k)]);
    let s2 = execute_spec(s1, loada_sb(k)).0;
    assert(s2.data[s2.reg(ST) - 1] == k);
    assert(as_addr(k) == k as usize);
}

/// A non-primitive call followed at its target by `RETURN 0, 0` restores
/// `LB`, `CP` and `ST`, when the caller's `LB` is a data-store address and
/// its `CP` a code address below `CT`.
pub proof fn lemma_call_return(s: TamView, c: Instruction, ret: Instruction)
    requires
        s.wf(),
        c.op == 6,
        !is_primitive_call(c),
        ret.op == 8,
        ret.n == 0,
        ret.d == 0,
        s.reg(LB) < MEM_SIZE,
        s.reg(CT) <= MEM_SIZE,
        s.reg(CP) < s.reg(CT),
    ensures
        ({
            let (s1, r1) = execute_spec(s, c);
            r1 is Ok ==> {
                let (s2, r2) = execute_spec(s1.with_reg(CP, (s1.reg(CP) + 1) as usize), ret);
                &&& r2 is Ok
                &&& s2.reg(LB) == s.reg(LB)
                &&& s2.reg(CP) == s.reg(CP)
                &&& s2.reg(ST) == s.reg(ST)
            }
        }),
{
    let (s1, r1) = execute_spec(s, c);
    if r1 is Ok {
        let f = s1.with_reg(CP, (s1.reg(CP) + 1) as usize);
        assert(pop_cells(f, 0, seq![]) == (f, Ok::<Seq<i16>, crate::errors::TAMError>(seq![])));
        lemma_cell_round_trip(s.reg(CP));
        lemma_cell_round_trip(s.reg(LB));
    }
}

/// `succ`, `pred` and `neg` never trap on a non-empty stack; they replace
/// the top `x` with `x + 1`, `x - 1` and `-x` wrapped into 16 bits.
pub proof fn lemma_unary_wraps(s: TamView, k: i16)
    requires
        s.wf(),
        s.window_ok(),
        1 <= s.reg(ST),
        k == 5 || k == 6 || k == 7,
    ensures
        ({
            let (t, r) = primitive_spec(s, k);
            let x = s.data[s.reg(ST) - 1] as int;
            &&& r is Ok
            &&& t.reg(ST) == s.reg(ST)
            &&& t.data[t.reg(ST) - 1] == wrap16(
                if k == 5 {
                    x + 1
                } else if k == 6 {
                    x - 1
                } else {
                    -x
                },
            )
        }),
{
}

/// `add`, `sub` and `mul` never trap on a stack of two or more cells; they
/// replace `a` and `b` (on top) with `a + b`, `a - b` and `a * b` wrapped
/// into 16 bits.
pub proof fn lemma_binary_wraps(s: TamView, k: i16)
    requires
        s.wf(),
        s.window_ok(),
        2 <= s.reg(ST),
        k == 8 || k == 9 || k == 10,
    ensures
        ({
            let (t, r) = primitive_spec(s, k);
            let a = s.data[s.reg(ST) - 2] as int;
            let b = s.data[s.reg(ST) - 1] as int;
            &&& r is Ok
            &&& t.reg(ST) == s.reg(ST) - 1
            &&& t.data[t.reg(ST) - 1] == wrap16(
                if k == 8 {
                    a + b
                } else if k == 9 {
                    a - b
                } else {
                    a * b
                },
            )
        }),
{
}

/// A program written out by `encode_program` and read back by
/// `load_program` decodes, word by word, to the instructions it was made of.
pub proof fn lemma_image_round_trip(code: Seq<Instruction>, image: Seq<u8>, i: int)
    requires
        code.len() <= MEM_SIZE,
        image.len() == 4 * code.len(),
        forall|j: int| 0 <= j < code.len() ==> #[trigger] be_value(image, 4 * j) == encode_spec(code[j]) as int,
        0 <= i < code.len(),
        code[i].representable(),
    ensures
        word_count(image) == code.len(),
        decode_spec(program_store(image)[i]) == code[i],
{
    assert(be_value(image, 4 * i) == encode_spec(code[i]) as int);
    assert(program_store(image)[i] == encode_spec(code[i]));
    lemma_decode_encode(code[i]);
}

/// `LOADI 1` through an address on top of the stack pushes the cell at that
/// address, for any live cell of the stack below it or of the heap, so the
/// blocks that `new` hands out are readable.
pub proof fn lemma_loadi_reads_cell(s: TamView, i: Instruction, a: usize)
    requires
        s.wf(),
        s.window_ok(),
        1 <= s.reg(ST) < s.reg(HT),
        a < MEM_SIZE,
        a + 1 < s.reg(ST) || a > s.reg(HT),
        s.data[s.reg(ST) - 1] == a as i16,
        i.op == 2,
        i.n == 1,
    ensures
        execute_spec(s, i).1 is Ok,
        execute_spec(s, i).0.reg(ST) == s.reg(ST),
        execute_spec(s, i).0.data[s.reg(ST) - 1] == s.data[a as int],
{
    reveal_with_fuel(load_cells, 2);
    lemma_cell_round_trip(a);
}

} // verus!
