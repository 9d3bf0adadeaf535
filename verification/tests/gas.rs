use r55::gas::{
    call_cost, has_prefix, multiplier, r55_gas_used, same_text, sload_cost, sstore_cost,
    Gas, ABI_DECODE_COST,
};

fn tally(entries: &[(&str, u64)]) -> Vec<(String, u64)> {
    entries.iter().map(|(name, count)| (name.to_string(), *count)).collect()
}

#[test]
fn instruction_classes() {
    for name in ["div", "divu", "divw", "divuw", "rem", "remu", "remw", "remuw"] {
        assert_eq!(multiplier(name), 25, "{}", name);
    }
    for name in ["mul", "mulh", "mulhsu", "mulhu", "mulw"] {
        assert_eq!(multiplier(name), 5, "{}", name);
    }
    for name in ["lb", "lh", "lw", "ld", "lbu", "lhu", "lwu"] {
        assert_eq!(multiplier(name), 3, "{}", name);
    }
    for name in ["sb", "sh", "sw", "sd", "sc.w", "sc.d"] {
        assert_eq!(multiplier(name), 3, "{}", name);
    }
    for name in ["beq", "bne", "blt", "bge", "bltu", "bgeu", "jal", "jalr"] {
        assert_eq!(multiplier(name), 3, "{}", name);
    }
    for name in ["add", "sub", "addi", "lui", "c.lw", "c.sd", "lr.w", "ecall", "", "di", "l", "slli"] {
        assert_eq!(multiplier(name), 1, "{}", name);
    }
}

#[test]
fn the_charge_is_the_cost_less_the_calibration_constant() {
    assert_eq!(ABI_DECODE_COST, 9_175_538);
    assert_eq!(r55_gas_used(&tally(&[])), 0);
    assert_eq!(r55_gas_used(&tally(&[("add", 9_175_538)])), 0);
    assert_eq!(r55_gas_used(&tally(&[("add", 9_175_539)])), 1);
    assert_eq!(
        r55_gas_used(&tally(&[("add", 9_175_538), ("div", 2), ("mul", 3), ("lw", 4), ("bne", 5)])),
        50 + 15 + 12 + 15
    );
    assert_eq!(r55_gas_used(&tally(&[("div", 400_000)])), 10_000_000 - 9_175_538);
}

#[test]
fn more_instructions_never_cost_less() {
    let mut last = 0;
    for count in [0u64, 1, 1_000_000, 3_058_513, 3_058_514, 10_000_000, u64::MAX / 3, u64::MAX] {
        let gas = r55_gas_used(&tally(&[("lw", count), ("add", 7)]));
        assert!(gas >= last);
        last = gas;
    }
    assert_eq!(r55_gas_used(&tally(&[("lw", 3_058_513), ("add", 7)])), 8);
}

#[test]
fn a_cost_beyond_64_bits_is_the_largest_charge() {
    assert_eq!(r55_gas_used(&tally(&[("div", u64::MAX)])), u64::MAX);
    assert_eq!(r55_gas_used(&tally(&[("add", u64::MAX), ("sub", u64::MAX)])), u64::MAX);
    assert_eq!(r55_gas_used(&tally(&[("add", u64::MAX)])), u64::MAX - 9_175_538);
    assert_eq!(r55_gas_used(&tally(&[("add", u64::MAX), ("sub", 9_175_538)])), u64::MAX);
}

#[test]
fn the_ledger_refuses_what_is_not_left() {
    let mut gas = Gas::new(100);
    assert_eq!((gas.limit(), gas.remaining(), gas.spent()), (100, 100, 0));
    assert!(gas.record_cost(30));
    assert_eq!((gas.limit(), gas.remaining(), gas.spent()), (100, 70, 30));
    assert!(!gas.record_cost(71));
    assert_eq!((gas.limit(), gas.remaining(), gas.spent()), (100, 70, 30));
    assert!(gas.record_cost(70));
    assert_eq!((gas.limit(), gas.remaining(), gas.spent()), (100, 0, 100));
    assert!(gas.record_cost(0));
    assert!(!gas.record_cost(1));
}

#[test]
fn host_equivalent_costs() {
    assert_eq!(sload_cost(true), 2100);
    assert_eq!(sload_cost(false), 100);
    assert_eq!(sstore_cost(true), 2200);
    assert_eq!(sstore_cost(false), 100);
    assert_eq!(call_cost(true, 0), 2600);
    assert_eq!(call_cost(true, u64::MAX), 11_600);
    assert_eq!(call_cost(false, 0), 100);
    assert_eq!(call_cost(false, 7), 9100);
}

#[test]
fn texts_are_compared_by_their_characters() {
    assert!(has_prefix("divu", "div"));
    assert!(has_prefix("div", "div"));
    assert!(has_prefix("div", ""));
    assert!(!has_prefix("di", "div"));
    assert!(!has_prefix("xdiv", "div"));
    assert!(same_text("", ""));
    assert!(same_text("sc.w", "sc.w"));
    assert!(!same_text("sc.w", "sc.d"));
    assert!(!same_text("lb", "lbu"));
    assert!(same_text("größe", "größe"));
}
