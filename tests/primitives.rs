use tam::errors::TAMError;
use tam::instruction::Instruction;
use tam::machine::TAM;
use tam::state::{Action, CP, HT, MEM_SIZE, ST};

fn ins(op: u8, r: u8, n: u8, d: i16) -> Instruction {
    Instruction { op, r, n, d }
}

/// Pushes `args` and calls primitive `k`; returns the machine and the result.
fn call(k: i16, args: &[i16]) -> (TAM, Result<Action, TAMError>) {
    let mut tam = TAM::new(false);
    tam.set_register(CP, 1);
    for a in args {
        tam.execute(ins(3, 0, 0, *a)).unwrap();
    }
    let r = tam.execute(ins(6, 2, 0, k));
    (tam, r)
}

fn top(k: i16, args: &[i16]) -> i16 {
    let (tam, r) = call(k, args);
    assert_eq!(r, Ok(Action::Continue));
    assert_eq!(tam.register(ST), 1);
    tam.data_at(0)
}

#[test]
fn id_and_not() {
    assert_eq!(top(1, &[-7]), -7);
    assert_eq!(top(2, &[0]), 1);
    assert_eq!(top(2, &[5]), 0);
}

#[test]
fn and_or_follow_product_and_sum() {
    assert_eq!(top(3, &[1, 1]), 1);
    assert_eq!(top(3, &[1, 0]), 0);
    // The product is taken in 16 bits: 256 * 256 wraps to 0.
    assert_eq!(top(3, &[256, 256]), 0);
    assert_eq!(top(3, &[-1, -1]), 1);
    // The sum too: 32767 + 1 wraps to -32768, which is not 0.
    assert_eq!(top(4, &[i16::MAX, 1]), 1);
    assert_eq!(top(4, &[0, 0]), 0);
    assert_eq!(top(4, &[0, 1]), 1);
    // The sum of 1 and -1 is zero, so `or` gives false.
    assert_eq!(top(4, &[1, -1]), 0);
}

#[test]
fn succ_pred_neg_wrap() {
    assert_eq!(top(5, &[41]), 42);
    assert_eq!(top(5, &[i16::MAX]), i16::MIN);
    assert_eq!(top(6, &[i16::MIN]), i16::MAX);
    assert_eq!(top(7, &[5]), -5);
    assert_eq!(top(7, &[i16::MIN]), i16::MIN);
}

#[test]
fn add_sub_mul_wrap() {
    assert_eq!(top(8, &[2, 3]), 5);
    assert_eq!(top(8, &[i16::MAX, 1]), i16::MIN);
    assert_eq!(top(9, &[2, 3]), -1);
    assert_eq!(top(9, &[i16::MIN, 1]), i16::MAX);
    assert_eq!(top(10, &[300, 300]), 300i16.wrapping_mul(300));
    assert_eq!(top(10, &[-6, 7]), -42);
}

#[test]
fn div_truncates_toward_zero() {
    assert_eq!(top(11, &[7, 2]), 3);
    assert_eq!(top(11, &[-7, 2]), -3);
    assert_eq!(top(11, &[7, -2]), -3);
    assert_eq!(top(11, &[i16::MIN, -1]), i16::MIN);
}

#[test]
fn mod_sign_follows_dividend() {
    assert_eq!(top(12, &[7, 3]), 1);
    assert_eq!(top(12, &[-7, 3]), -1);
    assert_eq!(top(12, &[7, -3]), 1);
    assert_eq!(top(12, &[i16::MIN, -1]), 0);
}

#[test]
fn div_and_mod_by_zero_trap() {
    let (_, r) = call(11, &[7, 0]);
    assert_eq!(r, Err(TAMError::DivideByZero(0)));
    let (_, r) = call(12, &[7, 0]);
    assert_eq!(r, Err(TAMError::DivideByZero(0)));
}

#[test]
fn comparisons() {
    assert_eq!(top(13, &[-1, 2]), 1);
    assert_eq!(top(13, &[2, 2]), 0);
    assert_eq!(top(14, &[2, 2]), 1);
    assert_eq!(top(15, &[1, 2]), 0);
    assert_eq!(top(15, &[2, 2]), 1);
    assert_eq!(top(16, &[3, 2]), 1);
    assert_eq!(top(17, &[4, 4]), 1);
    assert_eq!(top(17, &[4, 5]), 0);
    assert_eq!(top(18, &[4, 5]), 1);
}

#[test]
fn binary_on_empty_stack_underflows() {
    let (_, r) = call(8, &[]);
    assert_eq!(r, Err(TAMError::StackUnderflow(0)));
}

#[test]
fn reserved_primitives_are_unimplemented() {
    let (_, r) = call(19, &[]);
    assert_eq!(r, Err(TAMError::Unimplemented(0)));
    let (_, r) = call(20, &[]);
    assert_eq!(r, Err(TAMError::Unimplemented(0)));
}

#[test]
fn output_primitives_hand_back_values() {
    let (tam, r) = call(22, &[0x141]);
    assert_eq!(r, Ok(Action::PutChar(b'A')));
    assert_eq!(tam.register(ST), 0);
    let (tam, r) = call(26, &[-12]);
    assert_eq!(r, Ok(Action::PutInt(-12)));
    assert_eq!(tam.register(ST), 0);
    let (_, r) = call(24, &[]);
    assert_eq!(r, Ok(Action::PutEol));
}

#[test]
fn input_primitives_store_at_popped_address() {
    let (mut tam, r) = call(21, &[7, 0]);
    assert_eq!(r, Ok(Action::GetChar));
    assert_eq!(tam.complete_input(b'x' as i16), Ok(()));
    assert_eq!(tam.data_at(0), b'x' as i16);
    assert_eq!(tam.register(ST), 1);

    let (mut tam, r) = call(25, &[0, 0]);
    assert_eq!(r, Ok(Action::GetInt));
    assert_eq!(tam.complete_input(-300), Ok(()));
    assert_eq!(tam.data_at(0), -300);

    let (_, r) = call(23, &[]);
    assert_eq!(r, Ok(Action::SkipLine));
}

#[test]
fn input_to_free_cell_faults() {
    let (mut tam, r) = call(21, &[5]);
    assert_eq!(r, Ok(Action::GetChar));
    assert_eq!(tam.complete_input(1), Err(TAMError::SegmentationFault(0, 5)));
}

#[test]
fn new_allocates_below_heap_top() {
    let (tam, r) = call(27, &[4]);
    assert_eq!(r, Ok(Action::Continue));
    assert_eq!(tam.register(HT), MEM_SIZE - 1 - 4);
    assert_eq!(tam.data_at(0), (MEM_SIZE - 4) as u16 as i16);
}

#[test]
fn new_too_large_overflows() {
    let (_, r) = call(27, &[-1]);
    assert_eq!(r, Err(TAMError::StackOverflow(0)));
}
