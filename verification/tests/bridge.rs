use r55::bridge::{
    dispatch, handle_trap, resume_call, resume_sload, resume_sstore, Action, Env, FrameContext,
    InstructionResult,
};
use r55::emulator::{setup_from_elf, RVEmu, TrapKind};
use r55::gas::{AccountAccess, Gas, ABI_DECODE_COST};
use r55::loader::LoadError;
use r55::outcome::{ExecError, ExecutionOutcome};
use r55::primitives::{Address, U256};
use r55::syscall::Syscall;
use r55::testkit::get_selector_from_sig;
use std::collections::HashMap;

const CODE_BASE: u64 = 0x8010_0000;
const BUDGET: u64 = 50_000_000;

fn addi(rd: u32, rs1: u32, imm: i32) -> u32 {
    (((imm as u32) & 0xfff) << 20) | (rs1 << 15) | (rd << 7) | 0x13
}

fn slli(rd: u32, rs1: u32, shamt: u32) -> u32 {
    ((shamt & 0x3f) << 20) | (rs1 << 15) | (1 << 12) | (rd << 7) | 0x13
}

fn div(rd: u32, rs1: u32, rs2: u32) -> u32 {
    (1 << 25) | (rs2 << 20) | (rs1 << 15) | (4 << 12) | (rd << 7) | 0x33
}

fn bne(rs1: u32, rs2: u32, offset: i32) -> u32 {
    let imm = offset as u32;
    (((imm >> 12) & 1) << 31)
        | (((imm >> 5) & 0x3f) << 25)
        | (rs2 << 20)
        | (rs1 << 15)
        | (1 << 12)
        | (((imm >> 1) & 0xf) << 8)
        | (((imm >> 11) & 1) << 7)
        | 0x63
}

const ECALL: u32 = 0x73;
const ILLEGAL: u32 = 0xffff_ffff;

/// Instructions that load a 64-bit constant into a register.
fn li(rd: u32, value: u64) -> Vec<u32> {
    let mut code = vec![addi(rd, 0, ((value >> 55) & 0x1ff) as i32)];
    for shift in [44u32, 33, 22, 11, 0] {
        code.push(slli(rd, rd, 11));
        code.push(addi(rd, rd, ((value >> shift) & 0x7ff) as i32));
    }
    code
}

fn syscall(id: Syscall, args: &[u64]) -> Vec<u32> {
    let mut code = Vec::new();
    for (i, arg) in args.iter().enumerate() {
        code.extend(li(10 + i as u32, *arg));
    }
    code.extend(li(5, id.opcode() as u64));
    code.push(ECALL);
    code
}

/// An ELF file with one loadable segment at `CODE_BASE` that holds the code
/// and then the data.
fn elf(code: &[u32], data: &[u8]) -> Vec<u8> {
    let mut body: Vec<u8> = Vec::new();
    for inst in code {
        body.extend_from_slice(&inst.to_le_bytes());
    }
    body.extend_from_slice(data);
    let mut file: Vec<u8> = vec![0x7f, b'E', b'L', b'F', 2, 1, 1, 0, 0, 0, 0, 0, 0, 0, 0, 0];
    file.extend_from_slice(&2u16.to_le_bytes());
    file.extend_from_slice(&0xf3u16.to_le_bytes());
    file.extend_from_slice(&1u32.to_le_bytes());
    file.extend_from_slice(&CODE_BASE.to_le_bytes());
    file.extend_from_slice(&64u64.to_le_bytes());
    file.extend_from_slice(&0u64.to_le_bytes());
    file.extend_from_slice(&0u32.to_le_bytes());
    file.extend_from_slice(&64u16.to_le_bytes());
    file.extend_from_slice(&56u16.to_le_bytes());
    file.extend_from_slice(&1u16.to_le_bytes());
    file.extend_from_slice(&64u16.to_le_bytes());
    file.extend_from_slice(&0u16.to_le_bytes());
    file.extend_from_slice(&0u16.to_le_bytes());
    file.extend_from_slice(&1u32.to_le_bytes());
    file.extend_from_slice(&5u32.to_le_bytes());
    file.extend_from_slice(&120u64.to_le_bytes());
    file.extend_from_slice(&CODE_BASE.to_le_bytes());
    file.extend_from_slice(&CODE_BASE.to_le_bytes());
    file.extend_from_slice(&(body.len() as u64).to_le_bytes());
    file.extend_from_slice(&(body.len() as u64).to_le_bytes());
    file.extend_from_slice(&4096u64.to_le_bytes());
    file.extend_from_slice(&body);
    file
}

fn data_addr(code: &[u32]) -> u64 {
    CODE_BASE + 4 * code.len() as u64
}

fn address(last: u8) -> Address {
    let mut bytes = [0u8; 20];
    bytes[19] = last;
    Address::from_bytes(&bytes).unwrap()
}

fn context() -> FrameContext {
    FrameContext {
        target_address: address(0x42),
        caller: Address::from_bytes(&[
            1, 2, 3, 4, 5, 6, 7, 8, 9, 10, 11, 12, 13, 14, 15, 16, 17, 18, 19, 20,
        ])
        .unwrap(),
        call_value: U256::from_limbs(7, 8, 9, 10),
        return_data: Vec::new(),
        env: Env {
            origin: address(0x0a),
            gas_price: U256::from_u64(42),
            base_fee: U256::from_u64(11),
            gas_limit: U256::from_u64(30_000_000),
            number: U256::from_u64(100),
            timestamp: U256::from_u64(1_700_000_000),
            chain_id: 1337,
        },
    }
}

/// Runs the machine until an instruction raises an exception, but for no
/// more than `budget` instructions.
fn run_machine(rv: &mut RVEmu, budget: u64) -> Option<TrapKind> {
    for _ in 0..budget {
        if let Err(exception) = rv.emu.cpu.execute() {
            return Some(match exception {
                rvemu::exception::Exception::EnvironmentCallFromMMode => {
                    TrapKind::EnvironmentCallFromMMode
                }
                rvemu::exception::Exception::IllegalInstruction => TrapKind::IllegalInstruction,
                rvemu::exception::Exception::InstructionAccessFault => {
                    TrapKind::InstructionAccessFault
                }
                rvemu::exception::Exception::LoadAccessFault => TrapKind::LoadAccessFault,
                rvemu::exception::Exception::StoreAMOAccessFault => TrapKind::StoreAMOAccessFault,
                _ => TrapKind::Aborted,
            });
        }
    }
    None
}

/// One step of a frame: the machine runs, and the dispatcher says what is to
/// happen next.
fn execute_step(rv: &mut RVEmu, gas: &mut Gas, ctx: &FrameContext, budget: u64) -> Action {
    let trap = run_machine(rv, budget);
    handle_trap(rv, gas, ctx, trap)
}

/// A host with storage: runs the frame until it ends or asks for a call.
fn run(rv: &mut RVEmu, gas: &mut Gas, ctx: &FrameContext, storage: &mut HashMap<U256, U256>) -> Action {
    loop {
        match execute_step(rv, gas, ctx, BUDGET) {
            Action::Continue => {}
            Action::SLoad { key, .. } => {
                let value = storage.get(&key).copied().unwrap_or(U256::from_u64(0));
                match resume_sload(rv, gas, Some((value, false))) {
                    Action::Continue => {}
                    other => return other,
                }
            }
            Action::SStore { key, value, .. } => {
                storage.insert(key, value);
                match resume_sstore(gas, Some(false)) {
                    Action::Continue => {}
                    other => return other,
                }
            }
            other => return other,
        }
    }
}

#[test]
fn sstore_then_sload_returns_the_value() {
    let key = [0x1111u64, 0x2222, 0x3333, 0x4444];
    let value = [0xdead_beef_0000_0001u64, 2, 3, 0xffff_ffff_ffff_ffff];
    let mut code = syscall(
        Syscall::SStore,
        &[key[0], key[1], key[2], key[3], value[0], value[1], value[2], value[3]],
    );
    code.extend(syscall(Syscall::SLoad, &key));
    code.extend(syscall(Syscall::Return, &[0, 0]));
    let mut rv = setup_from_elf(&elf(&code, &[]), &[]).unwrap();
    let mut gas = Gas::new(100_000);
    let ctx = context();
    let mut storage = HashMap::new();

    match execute_step(&mut rv, &mut gas, &ctx, BUDGET) {
        Action::SStore { address: a, key: k, value: v } => {
            assert_eq!(a, ctx.target_address);
            assert_eq!(k, U256::from_limbs(key[0], key[1], key[2], key[3]));
            assert_eq!(v, U256::from_limbs(value[0], value[1], value[2], value[3]));
            storage.insert(k, v);
        }
        other => panic!("unexpected action {:?}", other),
    }
    assert!(matches!(resume_sstore(&mut gas, Some(true)), Action::Continue));
    assert_eq!(gas.remaining(), 100_000 - 2200);

    match execute_step(&mut rv, &mut gas, &ctx, BUDGET) {
        Action::SLoad { address: a, key: k } => {
            assert_eq!(a, ctx.target_address);
            let loaded = storage[&k];
            assert!(matches!(
                resume_sload(&mut rv, &mut gas, Some((loaded, false))),
                Action::Continue
            ));
        }
        other => panic!("unexpected action {:?}", other),
    }
    assert_eq!(gas.remaining(), 100_000 - 2200 - 100);
    assert_eq!(rv.read_reg(10), value[0]);
    assert_eq!(rv.read_reg(11), value[1]);
    assert_eq!(rv.read_reg(12), value[2]);
    assert_eq!(rv.read_reg(13), value[3]);

    match execute_step(&mut rv, &mut gas, &ctx, BUDGET) {
        Action::Return { result, output } => {
            assert_eq!(result, InstructionResult::Return);
            assert!(output.is_empty());
        }
        other => panic!("unexpected action {:?}", other),
    }
}

#[test]
fn unknown_syscall_reverts_with_empty_output() {
    let mut code = li(5, 0x99);
    code.push(ECALL);
    let mut rv = setup_from_elf(&elf(&code, &[]), &[]).unwrap();
    let mut gas = Gas::new(1000);
    assert!(gas.record_cost(300));
    match execute_step(&mut rv, &mut gas, &context(), BUDGET) {
        Action::Return { result, output } => {
            assert_eq!(result, InstructionResult::Revert);
            assert!(output.is_empty());
        }
        other => panic!("unexpected action {:?}", other),
    }
    assert_eq!(gas.limit(), 1000);
    assert_eq!(gas.remaining(), 400);
}

#[test]
fn unknown_syscall_charges_nothing_that_is_not_left() {
    let mut code = li(5, 0x99);
    code.push(ECALL);
    let mut rv = setup_from_elf(&elf(&code, &[]), &[]).unwrap();
    let mut gas = Gas::new(1000);
    assert!(gas.record_cost(600));
    let action = handle_trap(
        &mut rv,
        &mut gas,
        &context(),
        Some(TrapKind::EnvironmentCallFromMMode),
    );
    assert!(matches!(action, Action::Continue) || matches!(action, Action::Return { .. }));
    assert!(gas.remaining() <= 400);
}

#[test]
fn illegal_instruction_reverts_the_frame() {
    let code = vec![addi(10, 0, 1), ILLEGAL];
    let mut rv = setup_from_elf(&elf(&code, &[]), &[]).unwrap();
    let mut gas = Gas::new(5000);
    match execute_step(&mut rv, &mut gas, &context(), BUDGET) {
        Action::Return { result, output } => {
            assert_eq!(result, InstructionResult::Revert);
            assert!(output.is_empty());
        }
        other => panic!("unexpected action {:?}", other),
    }
    assert_eq!(gas.remaining(), 5000);
}

#[test]
fn a_budget_that_runs_out_lets_the_frame_go_on() {
    let mut code = vec![addi(10, 0, 1), addi(10, 10, 1), addi(10, 10, 1)];
    code.extend(syscall(Syscall::Return, &[0, 0]));
    let mut rv = setup_from_elf(&elf(&code, &[]), &[]).unwrap();
    let mut gas = Gas::new(5000);
    let ctx = context();
    assert!(matches!(execute_step(&mut rv, &mut gas, &ctx, 0), Action::Continue));
    assert!(matches!(execute_step(&mut rv, &mut gas, &ctx, 2), Action::Continue));
    assert_eq!(rv.read_reg(10), 2);
    assert!(matches!(
        execute_step(&mut rv, &mut gas, &ctx, BUDGET),
        Action::Return { result: InstructionResult::Return, .. }
    ));
}

#[test]
fn return_hands_out_the_bytes_of_the_ram() {
    let payload = [9u8, 8, 7, 6, 5, 4, 3, 2, 1];
    let probe = syscall(Syscall::Return, &[0, payload.len() as u64]);
    let code = syscall(Syscall::Return, &[data_addr(&probe), payload.len() as u64]);
    let mut rv = setup_from_elf(&elf(&code, &payload), &[]).unwrap();
    let mut gas = Gas::new(100);
    match execute_step(&mut rv, &mut gas, &context(), BUDGET) {
        Action::Return { result, output } => {
            assert_eq!(result, InstructionResult::Return);
            assert_eq!(output, payload.to_vec());
        }
        other => panic!("unexpected action {:?}", other),
    }
    assert_eq!(gas.remaining(), 100);
}

#[test]
fn return_of_a_range_outside_the_ram_reverts() {
    let code = syscall(Syscall::Return, &[0x1000, 4]);
    let mut rv = setup_from_elf(&elf(&code, &[]), &[]).unwrap();
    let mut gas = Gas::new(100);
    match execute_step(&mut rv, &mut gas, &context(), BUDGET) {
        Action::Return { result, output } => {
            assert_eq!(result, InstructionResult::Revert);
            assert!(output.is_empty());
        }
        other => panic!("unexpected action {:?}", other),
    }
}

#[test]
fn revert_with_custom_error() {
    let selector = get_selector_from_sig("MyError(uint256)");
    let mut args = vec![0u8; 32];
    args[31] = 42;
    let mut payload = selector.to_vec();
    payload.extend_from_slice(&args);
    let probe = syscall(Syscall::Revert, &[0, payload.len() as u64]);
    let code = syscall(Syscall::Revert, &[data_addr(&probe), payload.len() as u64]);
    let mut rv = setup_from_elf(&elf(&code, &payload), &[]).unwrap();
    let mut gas = Gas::new(100_000);
    let output = match execute_step(&mut rv, &mut gas, &context(), BUDGET) {
        Action::Return { result, output } => {
            assert_eq!(result, InstructionResult::Revert);
            assert_eq!(output, payload);
            output
        }
        other => panic!("unexpected action {:?}", other),
    };
    assert_eq!(gas.remaining(), 100_000);

    let err = ExecError::UnexpectedExecResult(ExecutionOutcome::Revert { gas_used: 0, output });
    assert!(err.matches_custom_error("MyError(uint256)"));
    assert!(err.matches_custom_error_with_args("MyError(uint256)", args.clone()));
    assert!(err.matches_custom_error_with_args("MyError(uint256)", vec![]));
    args[31] = 43;
    assert!(!err.matches_custom_error_with_args("MyError(uint256)", args));
    assert!(!err.matches_custom_error("OtherError(uint256)"));
    assert!(!err.matches_string_error("MyError(uint256)"));
}

#[test]
fn out_of_gas_below_the_calibration_constant() {
    let rounds: u64 = 400_000;
    let mut code = li(6, rounds);
    code.extend(li(7, 3));
    let top = code.len();
    code.push(div(28, 6, 7));
    code.push(addi(6, 6, -1));
    code.push(bne(6, 0, -8));
    assert_eq!(code.len(), top + 3);
    code.extend(syscall(Syscall::Return, &[0, 0]));
    let mut rv = setup_from_elf(&elf(&code, &[]), &[]).unwrap();
    let limit = 1000;
    assert!(limit < ABI_DECODE_COST);
    let mut gas = Gas::new(limit);
    let mut storage = HashMap::new();
    match run(&mut rv, &mut gas, &context(), &mut storage) {
        Action::Return { result, output } => {
            assert_eq!(result, InstructionResult::OutOfGas);
            assert!(output.is_empty());
        }
        other => panic!("unexpected action {:?}", other),
    }
    assert_eq!(gas.remaining(), limit);

    let tally = rv.tally();
    let divs = tally.iter().find(|(name, _)| name == "div").map(|(_, n)| *n);
    assert_eq!(divs, Some(rounds));
    assert!(r55::gas::r55_gas_used(&tally) > limit);
}

#[test]
fn log_with_two_indexed_topics() {
    let signature = r55::hash::keccak256(b"Transfer(address,address,uint256)");
    let mut topics = signature.clone();
    topics.extend_from_slice(&[0x11u8; 32]);
    topics.extend_from_slice(&[0x22u8; 32]);
    let data = [0xabu8, 0xcd, 0xef];
    let mut payload = topics.clone();
    payload.extend_from_slice(&data);
    let probe = syscall(Syscall::Log, &[0, 3, 0, 3]);
    let base = data_addr(&probe);
    let code = syscall(Syscall::Log, &[base + 96, 3, base, 3]);
    let mut rv = setup_from_elf(&elf(&code, &payload), &[]).unwrap();
    let mut gas = Gas::new(100_000);
    let ctx = context();
    match execute_step(&mut rv, &mut gas, &ctx, BUDGET) {
        Action::Log(record) => {
            assert_eq!(record.address, ctx.target_address);
            assert_eq!(record.data, data.to_vec());
            assert_eq!(record.topics.len(), 3);
            assert_eq!(record.topics[0], signature);
            assert_eq!(record.topics[1], vec![0x11u8; 32]);
            assert_eq!(record.topics[2], vec![0x22u8; 32]);
        }
        other => panic!("unexpected action {:?}", other),
    }
    assert_eq!(gas.remaining(), 100_000);
}

#[test]
fn log_with_topics_outside_the_ram_has_none() {
    let code = syscall(Syscall::Log, &[0x10, 4, 0x20, 2]);
    let mut rv = setup_from_elf(&elf(&code, &[]), &[]).unwrap();
    let mut gas = Gas::new(100_000);
    match execute_step(&mut rv, &mut gas, &context(), BUDGET) {
        Action::Log(record) => {
            assert!(record.data.is_empty());
            assert!(record.topics.is_empty());
        }
        other => panic!("unexpected action {:?}", other),
    }
}

#[test]
fn caller_and_origin_are_packed_into_three_registers() {
    let mut rv = setup_from_elf(&elf(&[ECALL], &[]), &[]).unwrap();
    let mut gas = Gas::new(10);
    let ctx = context();
    assert!(matches!(dispatch(&mut rv, &mut gas, &ctx, Syscall::Caller), Action::Continue));
    assert_eq!(rv.read_reg(10), 0x0102030405060708);
    assert_eq!(rv.read_reg(11), 0x090a0b0c0d0e0f10);
    assert_eq!(rv.read_reg(12), 0x1112131400000000);
    assert_eq!(
        Address::unpack(rv.read_reg(10), rv.read_reg(11), rv.read_reg(12)),
        ctx.caller
    );
    assert!(matches!(dispatch(&mut rv, &mut gas, &ctx, Syscall::Origin), Action::Continue));
    assert_eq!(rv.read_reg(10), 0);
    assert_eq!(rv.read_reg(11), 0);
    assert_eq!(rv.read_reg(12), 0x0000000a00000000);
    assert_eq!(gas.remaining(), 10);
}

#[test]
fn environment_syscalls_answer_in_the_argument_registers() {
    let mut rv = setup_from_elf(&elf(&[ECALL], &[]), &[]).unwrap();
    let mut gas = Gas::new(10);
    let mut ctx = context();
    ctx.return_data = vec![1, 2, 3, 4, 5];
    let word = |rv: &RVEmu| U256::from_limbs(rv.read_reg(10), rv.read_reg(11), rv.read_reg(12), rv.read_reg(13));
    dispatch(&mut rv, &mut gas, &ctx, Syscall::CallValue);
    assert_eq!(word(&rv), ctx.call_value);
    dispatch(&mut rv, &mut gas, &ctx, Syscall::BaseFee);
    assert_eq!(word(&rv), ctx.env.base_fee);
    dispatch(&mut rv, &mut gas, &ctx, Syscall::GasLimit);
    assert_eq!(word(&rv), ctx.env.gas_limit);
    dispatch(&mut rv, &mut gas, &ctx, Syscall::Number);
    assert_eq!(word(&rv), ctx.env.number);
    dispatch(&mut rv, &mut gas, &ctx, Syscall::Timestamp);
    assert_eq!(word(&rv), ctx.env.timestamp);
    dispatch(&mut rv, &mut gas, &ctx, Syscall::GasPrice);
    assert_eq!(word(&rv), ctx.env.gas_price);
    dispatch(&mut rv, &mut gas, &ctx, Syscall::ChainId);
    assert_eq!(rv.read_reg(10), 1337);
    dispatch(&mut rv, &mut gas, &ctx, Syscall::ReturnDataSize);
    assert_eq!(rv.read_reg(10), 5);
    assert_eq!(gas.remaining(), 10);
}

#[test]
fn keccak256_of_memory_goes_to_four_registers() {
    let payload = b"hello world".to_vec();
    let probe = syscall(Syscall::Keccak256, &[0, payload.len() as u64]);
    let code = syscall(Syscall::Keccak256, &[data_addr(&probe), payload.len() as u64]);
    let mut rv = setup_from_elf(&elf(&code, &payload), &[]).unwrap();
    let mut gas = Gas::new(10);
    assert!(matches!(execute_step(&mut rv, &mut gas, &context(), BUDGET), Action::Continue));
    let hash = r55::hash::keccak256(&payload);
    assert_eq!(
        hash,
        vec![
            0x47, 0x17, 0x32, 0x85, 0xa8, 0xd7, 0x34, 0x1e, 0x5e, 0x97, 0x2f, 0xc6, 0x77, 0x28,
            0x63, 0x84, 0xf8, 0x02, 0xf8, 0xef, 0x42, 0xa5, 0xec, 0x5f, 0x03, 0xbb, 0xfa, 0x25,
            0x4c, 0xb0, 0x1f, 0xad
        ]
    );
    assert_eq!(rv.read_reg(13), u64::from_be_bytes(hash[0..8].try_into().unwrap()));
    assert_eq!(rv.read_reg(12), u64::from_be_bytes(hash[8..16].try_into().unwrap()));
    assert_eq!(rv.read_reg(11), u64::from_be_bytes(hash[16..24].try_into().unwrap()));
    assert_eq!(rv.read_reg(10), u64::from_be_bytes(hash[24..32].try_into().unwrap()));
}

#[test]
fn call_asks_for_the_account_and_then_spends_all_gas() {
    let target = Address::from_bytes(&[
        0xa1, 0xa2, 0xa3, 0xa4, 0xb1, 0xb2, 0xb3, 0xb4, 0xb5, 0xb6, 0xb7, 0xb8, 0xc1, 0xc2, 0xc3,
        0xc4, 0xc5, 0xc6, 0xc7, 0xc8,
    ])
    .unwrap();
    let (a0, a1, a2) = target.to_word_limbs();
    assert_eq!(a0, 0xc1c2c3c4c5c6c7c8);
    assert_eq!(a1, 0xb1b2b3b4b5b6b7b8);
    assert_eq!(a2, 0xa1a2a3a4);
    let input = [1u8, 2, 3, 4, 5];
    let probe = syscall(Syscall::Call, &[a0, a1, a2, 5, 0, 5, 0, 0]);
    let code = syscall(Syscall::Call, &[a0, a1, a2, 5, data_addr(&probe), 5, 0, 0]);
    let mut rv = setup_from_elf(&elf(&code, &input), &[]).unwrap();
    let mut gas = Gas::new(100_000);
    let ctx = context();
    let request = match execute_step(&mut rv, &mut gas, &ctx, BUDGET) {
        Action::LoadAccount(request) => request,
        other => panic!("unexpected action {:?}", other),
    };
    assert_eq!(request.target, target);
    assert_eq!(request.value, 5);
    assert_eq!(request.input, input.to_vec());
    assert!(!request.is_static);
    assert_eq!(rv.return_window, None);
    assert_eq!(gas.remaining(), 100_000);

    match resume_call(&mut gas, &ctx, request, AccountAccess::Cold) {
        Action::Call(inputs) => {
            assert_eq!(inputs.gas_limit, 100_000 - 2600 - 9000);
            assert_eq!(inputs.target_address, target);
            assert_eq!(inputs.bytecode_address, target);
            assert_eq!(inputs.caller, ctx.target_address);
            assert_eq!(inputs.value, U256::from_u64(5));
            assert_eq!(inputs.input, input.to_vec());
            assert!(!inputs.is_static);
        }
        other => panic!("unexpected action {:?}", other),
    }
    assert_eq!(gas.remaining(), 0);
}

#[test]
fn call_that_cannot_pay_the_surcharge_is_out_of_gas() {
    let code = syscall(Syscall::StaticCall, &[1, 0, 0, 7, 0, 0, 0, 0]);
    let mut rv = setup_from_elf(&elf(&code, &[]), &[]).unwrap();
    let mut gas = Gas::new(11_599);
    let ctx = context();
    let request = match execute_step(&mut rv, &mut gas, &ctx, BUDGET) {
        Action::LoadAccount(request) => request,
        other => panic!("unexpected action {:?}", other),
    };
    assert!(request.is_static);
    assert_eq!(request.target, address(1));
    match resume_call(&mut gas, &ctx, request, AccountAccess::Cold) {
        Action::Return { result, output } => {
            assert_eq!(result, InstructionResult::OutOfGas);
            assert!(output.is_empty());
        }
        other => panic!("unexpected action {:?}", other),
    }
    assert_eq!(gas.remaining(), 11_599);
}

#[test]
fn call_to_an_account_that_the_host_cannot_load_reverts() {
    let code = syscall(Syscall::Call, &[1, 0, 0, 0, 0, 0, 0, 0]);
    let mut rv = setup_from_elf(&elf(&code, &[]), &[]).unwrap();
    let mut gas = Gas::new(100_000);
    assert!(gas.record_cost(1_000));
    let ctx = context();
    let request = match execute_step(&mut rv, &mut gas, &ctx, BUDGET) {
        Action::LoadAccount(request) => request,
        other => panic!("unexpected action {:?}", other),
    };
    match resume_call(&mut gas, &ctx, request, AccountAccess::Missing) {
        Action::Return { result, output } => {
            assert_eq!(result, InstructionResult::Revert);
            assert!(output.is_empty());
        }
        other => panic!("unexpected action {:?}", other),
    }
    assert_eq!(gas.remaining(), 98_000);
}

#[test]
fn a_number_beyond_one_byte_is_no_syscall() {
    for t0 in [0x1F3u64, 0x133, 0x100, 0x1_0000_0054, u64::MAX] {
        let mut code = li(10, 0);
        code.extend(li(11, 0));
        code.extend(li(5, t0));
        code.push(ECALL);
        let mut rv = setup_from_elf(&elf(&code, &[]), &[]).unwrap();
        let mut gas = Gas::new(1000);
        assert!(gas.record_cost(100));
        match execute_step(&mut rv, &mut gas, &context(), BUDGET) {
            Action::Return { result, output } => {
                assert_eq!(result, InstructionResult::Revert, "{:#x}", t0);
                assert!(output.is_empty());
            }
            other => panic!("unexpected action {:?} for {:#x}", other, t0),
        }
        assert_eq!(gas.remaining(), 800);
        assert_eq!(rv.read_reg(10), 0);
    }
}

#[test]
fn an_aborted_machine_reverts_the_frame() {
    let mut rv = setup_from_elf(&elf(&[ECALL], &[]), &[]).unwrap();
    let mut gas = Gas::new(500);
    match handle_trap(&mut rv, &mut gas, &context(), Some(TrapKind::Aborted)) {
        Action::Return { result, output } => {
            assert_eq!(result, InstructionResult::Revert);
            assert!(output.is_empty());
        }
        other => panic!("unexpected action {:?}", other),
    }
    assert_eq!(gas.remaining(), 500);
}

#[test]
fn create_hands_the_deployment_code_to_the_host() {
    let init_code = r55::codec::encode_init_code(&[0xff, 1, 2, 3], &[9, 9]);
    let probe = syscall(Syscall::Create, &[0, 0, init_code.len() as u64]);
    let code = syscall(Syscall::Create, &[0, data_addr(&probe), init_code.len() as u64]);
    let mut rv = setup_from_elf(&elf(&code, &init_code), &[]).unwrap();
    let mut gas = Gas::new(77_000);
    let ctx = context();
    match execute_step(&mut rv, &mut gas, &ctx, BUDGET) {
        Action::Create(inputs) => {
            assert_eq!(inputs.caller, ctx.target_address);
            assert_eq!(inputs.value, U256::from_u64(0));
            assert_eq!(inputs.init_code, init_code);
            assert_eq!(inputs.gas_limit, 77_000);
        }
        other => panic!("unexpected action {:?}", other),
    }
    assert_eq!(gas.remaining(), 0);
}

#[test]
fn return_create_address_writes_twenty_bytes() {
    let probe = syscall(Syscall::ReturnCreateAddress, &[0]);
    let dest = data_addr(&probe);
    let code = syscall(Syscall::ReturnCreateAddress, &[dest]);
    let mut rv = setup_from_elf(&elf(&code, &[0u8; 24]), &[]).unwrap();
    let created = Address::from_bytes(&[
        20, 19, 18, 17, 16, 15, 14, 13, 12, 11, 10, 9, 8, 7, 6, 5, 4, 3, 2, 1,
    ])
    .unwrap();
    rv.created_address = Some(created);
    let mut gas = Gas::new(10);
    assert!(matches!(execute_step(&mut rv, &mut gas, &context(), BUDGET), Action::Continue));
    assert_eq!(
        rv.read_memory(dest, 24).unwrap(),
        vec![20, 19, 18, 17, 16, 15, 14, 13, 12, 11, 10, 9, 8, 7, 6, 5, 4, 3, 2, 1, 0, 0, 0, 0]
    );
}

#[test]
fn return_data_copy_copies_the_part_that_is_asked_for() {
    let probe = syscall(Syscall::ReturnDataCopy, &[0, 2, 3]);
    let dest = data_addr(&probe);
    let code = syscall(Syscall::ReturnDataCopy, &[dest, 2, 3]);
    let mut rv = setup_from_elf(&elf(&code, &[0xeeu8; 6]), &[]).unwrap();
    let mut gas = Gas::new(10);
    let mut ctx = context();
    ctx.return_data = vec![10, 11, 12, 13, 14, 15];
    assert!(matches!(execute_step(&mut rv, &mut gas, &ctx, BUDGET), Action::Continue));
    assert_eq!(rv.read_memory(dest, 6).unwrap(), vec![12, 13, 14, 0xee, 0xee, 0xee]);
}

#[test]
fn return_data_copy_beyond_the_output_reverts() {
    let code = syscall(Syscall::ReturnDataCopy, &[CODE_BASE + 0x1000, 4, 3]);
    let mut rv = setup_from_elf(&elf(&code, &[]), &[]).unwrap();
    let mut gas = Gas::new(10);
    let mut ctx = context();
    ctx.return_data = vec![10, 11, 12, 13, 14, 15];
    match execute_step(&mut rv, &mut gas, &ctx, BUDGET) {
        Action::Return { result, output } => {
            assert_eq!(result, InstructionResult::Revert);
            assert!(output.is_empty());
        }
        other => panic!("unexpected action {:?}", other),
    }
}

#[test]
fn host_failures_revert_the_frame() {
    let mut rv = setup_from_elf(&elf(&[ECALL], &[]), &[]).unwrap();
    let mut gas = Gas::new(1000);
    assert!(gas.record_cost(100));
    match resume_sload(&mut rv, &mut gas, None) {
        Action::Return { result, output } => {
            assert_eq!(result, InstructionResult::Revert);
            assert!(output.is_empty());
        }
        other => panic!("unexpected action {:?}", other),
    }
    assert_eq!(gas.remaining(), 800);
    match resume_sstore(&mut gas, None) {
        Action::Return { result, .. } => assert_eq!(result, InstructionResult::Revert),
        other => panic!("unexpected action {:?}", other),
    }
    assert_eq!(gas.remaining(), 600);
}

#[test]
fn storage_syscalls_that_cannot_be_paid_are_out_of_gas() {
    let mut rv = setup_from_elf(&elf(&[ECALL], &[]), &[]).unwrap();
    let mut gas = Gas::new(2099);
    match resume_sload(&mut rv, &mut gas, Some((U256::from_u64(5), true))) {
        Action::Return { result, output } => {
            assert_eq!(result, InstructionResult::OutOfGas);
            assert!(output.is_empty());
        }
        other => panic!("unexpected action {:?}", other),
    }
    assert_eq!(gas.remaining(), 2099);
    assert!(matches!(
        resume_sload(&mut rv, &mut gas, Some((U256::from_u64(5), false))),
        Action::Continue
    ));
    assert_eq!(gas.remaining(), 1999);
    assert!(matches!(
        resume_sstore(&mut gas, Some(true)),
        Action::Return { result: InstructionResult::OutOfGas, .. }
    ));
    assert!(matches!(resume_sstore(&mut gas, Some(false)), Action::Continue));
    assert_eq!(gas.remaining(), 1899);
}

#[test]
fn setup_refuses_what_is_no_elf_file() {
    assert!(matches!(setup_from_elf(&[1, 2, 3, 4], &[]), Err(LoadError::GoblinError)));
    assert!(matches!(setup_from_elf(&[], &[]), Err(LoadError::GoblinError)));
}

#[test]
fn setup_puts_the_call_data_at_the_base_of_the_ram() {
    let code = syscall(Syscall::Return, &[0x8000_0000, 8 + 5]);
    let mut rv = setup_from_elf(&elf(&code, &[]), &[1, 2, 3, 4, 5]).unwrap();
    let mut gas = Gas::new(10);
    match execute_step(&mut rv, &mut gas, &context(), BUDGET) {
        Action::Return { result, output } => {
            assert_eq!(result, InstructionResult::Return);
            assert_eq!(output, vec![5, 0, 0, 0, 0, 0, 0, 0, 1, 2, 3, 4, 5]);
        }
        other => panic!("unexpected action {:?}", other),
    }
}
