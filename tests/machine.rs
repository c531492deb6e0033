use tam::errors::TAMError;
use tam::instruction::Instruction;
use tam::machine::TAM;
use tam::state::{Action, CP, CT, HT, LB, MEM_SIZE, ST};

fn image(words: &[u32]) -> Vec<u8> {
    let mut bytes = Vec::new();
    for w in words {
        bytes.extend_from_slice(&w.to_be_bytes());
    }
    bytes
}

fn machine_with(words: &[u32]) -> TAM {
    let mut tam = TAM::new(false);
    tam.load_program(&image(words));
    tam.reset_data();
    tam
}

/// Steps until the program halts, traps or asks for I/O.
fn run_until_event(tam: &mut TAM) -> Result<Action, TAMError> {
    for _ in 0..10_000 {
        match tam.step()? {
            Action::Continue => {}
            other => return Ok(other),
        }
    }
    panic!("program did not stop")
}

fn ins(op: u8, r: u8, n: u8, d: i16) -> Instruction {
    Instruction { op, r, n, d }
}

#[test]
fn halt_only() {
    let mut tam = machine_with(&[0xF0000000]);
    assert_eq!(run_until_event(&mut tam), Ok(Action::Halt));
    assert_eq!(tam.register(CP), 1);
    assert_eq!(tam.register(ST), 0);
}

#[test]
fn push_immediate_and_add() {
    let mut tam = machine_with(&[0x30000002, 0x30000003, 0x62000008, 0xF0000000]);
    assert_eq!(run_until_event(&mut tam), Ok(Action::Halt));
    assert_eq!(tam.data_at(0), 5);
    assert_eq!(tam.register(ST), 1);
}

#[test]
fn divide_by_zero() {
    let mut tam = machine_with(&[0x30000007, 0x30000000, 0x6200000B, 0xF0000000]);
    assert_eq!(run_until_event(&mut tam), Err(TAMError::DivideByZero(2)));
}

#[test]
fn segmentation_fault_on_load() {
    let mut tam = machine_with(&[0x04010005, 0xF0000000]);
    assert_eq!(run_until_event(&mut tam), Err(TAMError::SegmentationFault(0, 5)));
}

#[test]
fn stack_overflow_when_heap_top_is_two() {
    let mut tam = TAM::new(false);
    tam.set_register(HT, 2);
    assert_eq!(tam.execute(ins(3, 0, 0, 0)), Ok(Action::Continue));
    // The second push makes ST equal to HT, which is already a collision.
    assert!(matches!(tam.execute(ins(3, 0, 0, 0)), Err(TAMError::StackOverflow(_))));
    assert!(matches!(tam.execute(ins(3, 0, 0, 0)), Err(TAMError::StackOverflow(_))));
}

#[test]
fn nested_call_and_return() {
    // 0: CALL 0,[CB+2]   1: HALT   2: RETURN 0,0
    let code = [
        u32::from(ins(6, 0, 0, 2)),
        u32::from(ins(15, 0, 0, 0)),
        u32::from(ins(8, 0, 0, 0)),
    ];
    let mut tam = machine_with(&code);
    assert_eq!(tam.step(), Ok(Action::Continue));
    assert_eq!(tam.register(LB), 0);
    assert_eq!(tam.register(ST), 3);
    assert_eq!(tam.register(CP), 2);
    assert_eq!(tam.data_at(2), 1);
    assert_eq!(run_until_event(&mut tam), Ok(Action::Halt));
    assert_eq!(tam.register(ST), 0);
    assert_eq!(tam.register(LB), 0);
    assert_eq!(tam.register(CP), 2);
}

#[test]
fn heap_allocation() {
    let mut tam = machine_with(&[0x30000004, 0x6200001B, 0xF0000000]);
    let ht = tam.register(HT);
    assert_eq!(run_until_event(&mut tam), Ok(Action::Halt));
    assert_eq!(tam.register(HT), ht - 4);
    assert_eq!(tam.register(ST), 1);
    assert_eq!(tam.data_at(0), (ht - 3) as u16 as i16);
}

#[test]
fn fetch_decode() {
    let mut tam = TAM::new(false);
    let inst = ins(15, 0, 0, 0);
    tam.set_code(0, u32::from(inst));
    tam.set_register(CT, 1);
    assert_eq!(tam.step(), Ok(Action::Halt));
    assert_eq!(1, tam.register(CP));
}

#[test]
fn fetch_past_code_top_faults() {
    let mut tam = machine_with(&[0x30000001]);
    assert_eq!(tam.step(), Ok(Action::Continue));
    assert_eq!(tam.step(), Err(TAMError::SegmentationFault(1, 1)));
}

fn overflow_case(op: u8) {
    let mut tam = TAM::new(false);
    tam.set_register(CT, 200);
    tam.set_register(CP, 1);
    tam.set_register(ST, 101);
    tam.set_register(HT, 101);
    let res = tam.execute(ins(op, 4, 3, 0));
    assert!(matches!(res, Err(TAMError::StackOverflow(_))), "{:?}", res);
}

#[test]
fn exec_err_overflow_load() {
    overflow_case(0);
}

#[test]
fn exec_err_overflow_loada() {
    overflow_case(1);
}

#[test]
fn exec_err_overflow_loadi() {
    overflow_case(2);
}

#[test]
fn exec_err_overflow_loadl() {
    overflow_case(3);
}

#[test]
fn exec_err_overflow_push() {
    overflow_case(10);
}

#[test]
fn load_ok() {
    let mut tam = TAM::new(false);
    tam.set_data(0, 42);
    tam.set_register(ST, 1);
    assert!(tam.execute(ins(0, 4, 1, 0)).is_ok());
    assert_eq!(2, tam.register(ST));
    assert_eq!(42, tam.data_at(1));
}

#[test]
fn load_err_segfault() {
    let mut tam = TAM::new(false);
    tam.set_register(CP, 1);
    assert_eq!(tam.execute(ins(0, 4, 1, 5)), Err(TAMError::SegmentationFault(0, 5)));
}

#[test]
fn loada_ok() {
    let mut tam = TAM::new(false);
    tam.set_register(ST, 2);
    assert!(tam.execute(ins(1, 4, 0, 1)).is_ok());
    assert_eq!(1, tam.data_at(2));
    assert_eq!(3, tam.register(ST));
}

#[test]
fn loada_err_segfault() {
    let mut tam = TAM::new(false);
    tam.set_register(CP, 1);
    assert_eq!(tam.execute(ins(1, 4, 0, 1)), Err(TAMError::SegmentationFault(0, 1)));
}

#[test]
fn loadl_ok() {
    let mut tam = TAM::new(false);
    assert!(tam.execute(ins(3, 0, 0, -5)).is_ok());
    assert_eq!(-5, tam.data_at(0));
    assert_eq!(1, tam.register(ST));
}

#[test]
fn push() {
    let mut tam = TAM::new(false);
    assert!(tam.execute(ins(10, 0, 0, 2)).is_ok());
    assert_eq!(2, tam.register(ST));
}

#[test]
fn push_negative_underflows_on_empty_stack() {
    let mut tam = TAM::new(false);
    assert_eq!(tam.execute(ins(10, 0, 0, -1)), Err(TAMError::StackUnderflow(0)));
}

#[test]
fn heap_cells_are_addressable() {
    let mut tam = TAM::new(false);
    tam.set_register(HT, 100);
    tam.set_data(101, 9);
    assert!(tam.execute(ins(0, 0, 1, 101)).is_ok());
    assert_eq!(tam.data_at(0), 9);
    // HT itself is the frontier and is not addressable.
    assert_eq!(tam.execute(ins(0, 0, 1, 100)), Err(TAMError::SegmentationFault(0, 100)));
}

#[test]
fn store_and_load_round_trip() {
    let mut tam = TAM::new(false);
    tam.execute(ins(10, 0, 0, 3)).unwrap();
    tam.execute(ins(3, 0, 0, 77)).unwrap();
    tam.execute(ins(4, 4, 1, 1)).unwrap();
    assert_eq!(tam.data_at(1), 77);
    assert_eq!(tam.register(ST), 3);
}

#[test]
fn loadl_loada_store_writes_the_address() {
    let mut tam = TAM::new(false);
    tam.execute(ins(10, 0, 0, 3)).unwrap();
    tam.execute(ins(3, 0, 0, 77)).unwrap();
    tam.execute(ins(1, 4, 0, 1)).unwrap();
    tam.execute(ins(4, 4, 1, 1)).unwrap();
    assert_eq!(tam.data_at(1), 1);
    assert_eq!(tam.data_at(3), 77);
    assert_eq!(tam.register(ST), 4);
}

#[test]
fn loadl_loada_storei_writes_the_value() {
    let mut tam = TAM::new(false);
    tam.execute(ins(10, 0, 0, 3)).unwrap();
    tam.execute(ins(3, 0, 0, 77)).unwrap();
    tam.execute(ins(1, 4, 0, 1)).unwrap();
    tam.execute(ins(5, 0, 1, 0)).unwrap();
    assert_eq!(tam.data_at(1), 77);
    assert_eq!(tam.register(ST), 3);
}

#[test]
fn store_multiple_keeps_source_order() {
    let mut tam = TAM::new(false);
    tam.execute(ins(10, 0, 0, 2)).unwrap();
    tam.execute(ins(3, 0, 0, 10)).unwrap();
    tam.execute(ins(3, 0, 0, 20)).unwrap();
    tam.execute(ins(4, 4, 2, 0)).unwrap();
    // The first value popped (20) goes to the lowest address.
    assert_eq!(tam.data_at(0), 20);
    assert_eq!(tam.data_at(1), 10);
    assert_eq!(tam.register(ST), 2);
}

#[test]
fn loadi_reads_through_an_address() {
    let mut tam = TAM::new(false);
    tam.execute(ins(3, 0, 0, 55)).unwrap();
    tam.execute(ins(3, 0, 0, 0)).unwrap();
    tam.execute(ins(2, 0, 1, 0)).unwrap();
    assert_eq!(tam.data_at(1), 55);
    assert_eq!(tam.register(ST), 2);
}

#[test]
fn call_return_with_result_and_arguments() {
    // 0: LOADL 6   1: CALL LB,[CB+4]   2: HALT   3: HALT
    // 4: LOADL 9   5: RETURN 1,1
    let code = [
        u32::from(ins(3, 0, 0, 6)),
        u32::from(ins(6, 0, 8, 4)),
        u32::from(ins(15, 0, 0, 0)),
        u32::from(ins(15, 0, 0, 0)),
        u32::from(ins(3, 0, 0, 9)),
        u32::from(ins(8, 0, 1, 1)),
    ];
    let mut tam = machine_with(&code);
    assert_eq!(run_until_event(&mut tam), Ok(Action::Halt));
    assert_eq!(tam.register(CP), 3);
    assert_eq!(tam.register(ST), 1);
    assert_eq!(tam.register(LB), 0);
    assert_eq!(tam.data_at(0), 9);
}

#[test]
fn calli_enters_frame() {
    // 0: LOADL 0 (static link)  1: LOADL 3 (target)  2: CALLI  3: RETURN 0,0 ... 4: HALT
    let code = [
        u32::from(ins(3, 0, 0, 0)),
        u32::from(ins(3, 0, 0, 4)),
        u32::from(ins(7, 0, 0, 0)),
        u32::from(ins(15, 0, 0, 0)),
        u32::from(ins(8, 0, 0, 0)),
    ];
    let mut tam = machine_with(&code);
    for _ in 0..3 {
        assert_eq!(tam.step(), Ok(Action::Continue));
    }
    assert_eq!(tam.register(CP), 4);
    assert_eq!(tam.register(LB), 0);
    assert_eq!(tam.register(ST), 3);
    assert_eq!(tam.data_at(2), 3);
    assert_eq!(run_until_event(&mut tam), Ok(Action::Halt));
    assert_eq!(tam.register(ST), 0);
}

#[test]
fn call_beyond_code_top_faults() {
    let mut tam = machine_with(&[u32::from(ins(6, 0, 0, 9))]);
    assert_eq!(tam.step(), Err(TAMError::SegmentationFault(0, 9)));
}

#[test]
fn call_on_pb_zero_is_not_primitive() {
    let mut tam = machine_with(&[u32::from(ins(6, 2, 0, 0))]);
    let pb = tam.register(2);
    assert_eq!(tam.step(), Err(TAMError::SegmentationFault(0, pb)));
}

#[test]
fn jumps() {
    // 0: JUMP [CB+2]  1: HALT  2: LOADL 1  3: JUMPIF 1,[CB+5]  4: HALT  5: LOADL 1  6: JUMPI
    let code = [
        u32::from(ins(12, 0, 0, 2)),
        u32::from(ins(15, 0, 0, 0)),
        u32::from(ins(3, 0, 0, 1)),
        u32::from(ins(14, 0, 1, 5)),
        u32::from(ins(15, 0, 0, 0)),
        u32::from(ins(3, 0, 0, 1)),
        u32::from(ins(13, 0, 0, 0)),
    ];
    let mut tam = machine_with(&code);
    assert_eq!(run_until_event(&mut tam), Ok(Action::Halt));
    assert_eq!(tam.register(CP), 2);
    assert_eq!(tam.register(ST), 0);
}

#[test]
fn jumpif_not_taken_falls_through() {
    let code = [u32::from(ins(3, 0, 0, 0)), u32::from(ins(14, 0, 1, 0)), u32::from(ins(15, 0, 0, 0))];
    let mut tam = machine_with(&code);
    assert_eq!(run_until_event(&mut tam), Ok(Action::Halt));
    assert_eq!(tam.register(CP), 3);
}

#[test]
fn jump_beyond_code_top_faults() {
    let mut tam = machine_with(&[u32::from(ins(12, 0, 0, 1))]);
    assert_eq!(tam.step(), Err(TAMError::SegmentationFault(0, 1)));
}

#[test]
fn pop_opcode_is_unimplemented() {
    let mut tam = TAM::new(false);
    tam.set_register(CP, 4);
    assert_eq!(tam.execute(ins(11, 0, 0, 0)), Err(TAMError::Unimplemented(3)));
}

#[test]
fn unknown_opcode_is_a_no_op() {
    let mut tam = TAM::new(false);
    assert_eq!(tam.execute(ins(9, 0, 0, 0)), Ok(Action::Continue));
    assert_eq!(tam.register(ST), 0);
}

#[test]
fn invalid_register_index() {
    let mut tam = TAM::new(false);
    tam.set_register(CP, 1);
    assert_eq!(tam.execute(ins(1, 16, 0, 0)), Err(TAMError::InvalidRegister(0, 16)));
}

#[test]
fn reset_data_restores_layout() {
    let mut tam = TAM::new(true);
    tam.set_data(3, 8);
    tam.set_register(ST, 9);
    tam.set_register(HT, 50);
    tam.set_register(LB, 4);
    tam.set_register(CP, 7);
    tam.reset_data();
    assert_eq!(tam.data_at(3), 0);
    assert_eq!(tam.register(ST), 0);
    assert_eq!(tam.register(HT), MEM_SIZE - 1);
    assert_eq!(tam.register(LB), 0);
    assert_eq!(tam.register(CP), 0);
    assert!(tam.is_tracing());
}

#[test]
fn new_machine_layout() {
    let tam = TAM::new(false);
    assert_eq!(tam.register(2), MEM_SIZE - 29);
    assert_eq!(tam.register(3), MEM_SIZE - 1);
    assert_eq!(tam.register(6), MEM_SIZE - 1);
    assert_eq!(tam.register(HT), MEM_SIZE - 1);
    assert_eq!(tam.register(ST), 0);
    assert_eq!(tam.register(CT), 0);
    assert!(!tam.is_tracing());
}

#[test]
fn load_program_reads_big_endian_words() {
    let mut tam = TAM::new(false);
    tam.set_code(5, 99);
    tam.load_program(&[0x12, 0x34, 0x56, 0x78, 0xF0, 0, 0, 1, 0xAA]);
    assert_eq!(tam.register(CT), 2);
    assert_eq!(tam.code_at(0), 0x12345678);
    assert_eq!(tam.code_at(1), 0xF0000001);
    assert_eq!(tam.code_at(2), 0);
    assert_eq!(tam.code_at(5), 0);
}

#[test]
fn window_holds_after_each_step() {
    let mut tam = machine_with(&[0x30000004, 0x6200001B, 0x30000001, 0x30000002, 0x62000008, 0xF0000000]);
    loop {
        let r = tam.step();
        let st = tam.register(ST);
        let ht = tam.register(HT);
        assert!(st <= ht + 1 && ht + 1 <= MEM_SIZE);
        if r != Ok(Action::Continue) {
            assert_eq!(r, Ok(Action::Halt));
            break;
        }
        assert!(tam.register(CP) < tam.register(CT));
    }
}

#[test]
fn heap_block_is_written_and_read_through_its_address() {
    // 0: LOADL 4        1: CALL 0,[PB+27]   -> address of the block at data[0]
    // 2: LOADL 123      3: LOAD 1,[SB+0]    -> copy of the address
    // 4: STOREI 1       -> block[0] = 123
    // 5: LOAD 1,[SB+0]  6: LOADI 1          -> push block[0]
    // 7: HALT
    let code = [
        u32::from(ins(3, 0, 0, 4)),
        u32::from(ins(6, 2, 0, 27)),
        u32::from(ins(3, 0, 0, 123)),
        u32::from(ins(0, 4, 1, 0)),
        u32::from(ins(5, 0, 1, 0)),
        u32::from(ins(0, 4, 1, 0)),
        u32::from(ins(2, 0, 1, 0)),
        u32::from(ins(15, 0, 0, 0)),
    ];
    let mut tam = machine_with(&code);
    assert_eq!(run_until_event(&mut tam), Ok(Action::Halt));
    let block = MEM_SIZE - 1 - 4 + 1;
    assert_eq!(tam.register(HT), block - 1);
    assert_eq!(tam.data_at(block), 123);
    assert_eq!(tam.register(ST), 2);
    assert_eq!(tam.data_at(1), 123);
}

#[test]
fn call_and_return_restore_a_deep_frame() {
    // 0: CALL LB,[CB+2]   1: HALT   2: RETURN 0,0
    let code = [
        u32::from(ins(6, 0, 8, 2)),
        u32::from(ins(15, 0, 0, 0)),
        u32::from(ins(8, 0, 0, 0)),
    ];
    let mut tam = machine_with(&code);
    tam.set_register(LB, 40000);
    tam.set_register(ST, 40003);
    assert_eq!(tam.step(), Ok(Action::Continue));
    assert_eq!(tam.register(LB), 40003);
    assert_eq!(tam.step(), Ok(Action::Continue));
    assert_eq!(tam.register(LB), 40000);
    assert_eq!(tam.register(ST), 40003);
    assert_eq!(tam.register(CP), 1);
}
