//! Label resolution of the assembler: each symbolic jump or call target is
//! replaced by the code address of the instruction that carries its label.
use vstd::prelude::*;
use crate::instruction::Instruction;

verus! {

/// One assembled instruction, with the label it carries and the label it
/// targets, if any.
#[derive(Clone)]
pub struct InstrData {
    pub label: Option<String>,
    pub data: Instruction,
    pub named_dest: Option<String>,
}

impl InstrData {
    /// An unlabelled instruction with a numeric target.
    pub fn new(op: u8, r: u8, n: u8, d: i16) -> (i: InstrData)
        ensures
            i.label is None,
            i.named_dest is None,
            i.data == (Instruction { op, r, n, d }),
    {
        InstrData { label: None, data: Instruction { op, r, n, d }, named_dest: None }
    }
}

pub open spec fn has_label(i: InstrData, name: Seq<char>) -> bool {
    match i.label {
        Some(l) => l@ == name,
        None => false,
    }
}

/// The last index below `n` whose instruction carries label `name`, or -1.
pub open spec fn last_label(data: Seq<InstrData>, name: Seq<char>, n: int) -> int
    decreases n,
{
    if n <= 0 {
        -1
    } else if has_label(data[n - 1], name) {
        n - 1
    } else {
        last_label(data, name, n - 1)
    }
}

/// The address that label `name` stands for: its last definition wins.
pub open spec fn label_address(data: Seq<InstrData>, name: Seq<char>) -> int {
    last_label(data, name, data.len() as int)
}

/// The instruction's target label, if any, is defined somewhere in `data`.
pub open spec fn dest_defined(data: Seq<InstrData>, i: InstrData) -> bool {
    match i.named_dest {
        Some(nm) => label_address(data, nm@) >= 0,
        None => true,
    }
}

pub open spec fn all_dests_defined(data: Seq<InstrData>) -> bool {
    forall|k: int| 0 <= k < data.len() ==> #[trigger] dest_defined(data, data[k])
}

/// The instruction with its symbolic target replaced by `[CB + address]`.
pub open spec fn resolved(data: Seq<InstrData>, i: InstrData) -> Instruction {
    match i.named_dest {
        Some(nm) => Instruction { r: 0, d: label_address(data, nm@) as i16, ..i.data },
        None => i.data,
    }
}

/// The index of the last instruction labelled `name`.
fn find_label(data: &Vec<InstrData>, name: &String) -> (r: Option<usize>)
    ensures
        match r {
            Some(j) => j == label_address(data@, name@),
            None => label_address(data@, name@) == -1,
        },
{
    let mut i = data.len();
    while i > 0
        invariant
            i <= data@.len(),
            last_label(data@, name@, i as int) == label_address(data@, name@),
        decreases i,
    {
        let found = match &data[i - 1].label {
            Some(l) => String::eq(l, name),
            None => false,
        };
        if found {
            return Some(i - 1);
        }
        i = i - 1;
    }
    None
}

/// The index of the first instruction whose target label is nowhere defined.
pub fn undefined_dest(data: &Vec<InstrData>) -> (r: Option<usize>)
    ensures
        match r {
            Some(k) => k < data@.len() && !dest_defined(data@, data@[k as int]),
            None => all_dests_defined(data@),
        },
{
    let mut k: usize = 0;
    while k < data.len()
        invariant
            k <= data@.len(),
            forall|j: int| 0 <= j < k ==> #[trigger] dest_defined(data@, data@[j]),
        decreases data@.len() - k,
    {
        if let Some(nm) = &data[k].named_dest {
            if find_label(data, nm).is_none() {
                return Some(k);
            }
        }
        k = k + 1;
    }
    None
}

fn set_named_dests(data: &Vec<InstrData>) -> (code: Vec<Instruction>)
    requires
        all_dests_defined(data@),
    ensures
        code@.len() == data@.len(),
        forall|k: int| 0 <= k < data@.len() ==> code@[k] == resolved(data@, #[trigger] data@[k]),
{
    let mut code: Vec<Instruction> = Vec::new();
    let mut k: usize = 0;
    while k < data.len()
        invariant
            k <= data@.len(),
            all_dests_defined(data@),
            code@.len() == k,
            forall|j: int| 0 <= j < k ==> code@[j] == resolved(data@, #[trigger] data@[j]),
        decreases data@.len() - k,
    {
        let d = &data[k];
        assert(dest_defined(data@, data@[k as int]));
        let instr = match &d.named_dest {
            None => d.data,
            Some(nm) => match find_label(data, nm) {
                Some(j) => Instruction { op: d.data.op, r: 0, n: d.data.n, d: #[verifier::truncate] (j as i16) },
                None => d.data,
            },
        };
        code.push(instr);
        k = k + 1;
    }
    code
}

/// Resolves every symbolic target and returns the program's instructions.
pub fn gen_code(data: Vec<InstrData>) -> (code: Vec<Instruction>)
    requires
        all_dests_defined(data@),
    ensures
        code@.len() == data@.len(),
        forall|k: int| 0 <= k < data@.len() ==> code@[k] == resolved(data@, #[trigger] data@[k]),
{
    set_named_dests(&data)
}

} // verus!
