use std::collections::{BTreeMap, HashMap, HashSet};
use std::ops::Range;
use syncrim::common::{Component, Condition, Input, OutputType, SignalValue};
use syncrim::components::instr_mem::InstrMem;
use syncrim::components::mips_alu_forward::{AluForward, NO_OP};

fn alu() -> AluForward {
    AluForward::new(
        "alu_forward",
        Input::new("instr", "rs"),
        Input::new("wb", "rd"),
        Input::new("wb", "we"),
        Input::new("wb", "mem_op"),
    )
}

#[test]
fn forwards_when_register_written_and_equal() {
    let a = alu();
    let d = SignalValue::Data;
    assert_eq!(a.clock(d(5), d(5), d(1), d(NO_OP)), d(1));
    assert_eq!(a.clock(d(5), d(6), d(1), d(NO_OP)), d(0));
    assert_eq!(a.clock(d(5), d(5), d(0), d(NO_OP)), d(0));
    assert_eq!(a.clock(d(5), d(5), d(1), d(3)), d(0));
    assert_eq!(a.clock(d(0), d(0), d(2), d(NO_OP)), d(0));
}

#[test]
fn alu_forward_ports() {
    let a = AluForward::rc_new(
        "fwd",
        Input::new("x", "a"),
        Input::new("y", "b"),
        Input::new("z", "we"),
        Input::new("z", "load"),
    );
    let (id, ports) = a.get_id_ports();
    assert_eq!(id, "fwd");
    let names: Vec<&str> = ports.inputs.iter().map(|p| p.port_id.as_str()).collect();
    assert_eq!(names, vec!["a_in", "b_in", "we_in", "load_in"]);
    assert_eq!(ports.inputs[1].input.id, "y");
    assert_eq!(ports.inputs[3].input.field, "load");
    assert_eq!(ports.out_type, OutputType::Combinatorial);
    assert_eq!(ports.outputs, vec!["equals_forward_out".to_string()]);
}

#[test]
fn only_compared_inputs_can_be_reconnected() {
    let mut a = alu();
    a.set_id_port("a_in".to_string(), Input::new("n", "1"));
    assert_eq!(a.a_in.id, "n");
    a.set_id_port("b_in".to_string(), Input::new("m", "2"));
    assert_eq!(a.b_in.id, "m");
    assert_eq!(a.a_in.id, "n");
    a.set_id_port("we_in".to_string(), Input::new("k", "3"));
    assert_eq!(a.we_in.id, "wb");
    assert_eq!(a.we_in.field, "we");
    assert_eq!(a.id, "alu_forward");
}

fn imem(bytes: BTreeMap<usize, u8>, le: bool, breakpoints: HashSet<usize>) -> InstrMem {
    InstrMem {
        id: "imem".to_string(),
        pc: Input::new("pc", "out"),
        bytes,
        range: Range { start: 0, end: 0x1000 },
        breakpoints,
        symbols: HashMap::new(),
        le,
    }
}

#[test]
fn test_inst_mem() {
    let mut instr_mem = BTreeMap::new();
    for i in 0u32..6u32 {
        let bytes = i.to_be_bytes();
        instr_mem.insert((i * 4) as usize, bytes[0]);
        instr_mem.insert((i * 4 + 1) as usize, bytes[1]);
        instr_mem.insert((i * 4 + 2) as usize, bytes[2]);
        instr_mem.insert((i * 4 + 3) as usize, bytes[3]);
    }
    let mem = imem(instr_mem, true, HashSet::new());

    // outputs
    for i in 0..6u32 {
        let (out, cond) = mem.clock(SignalValue::Data(i * 4));
        assert_eq!(out, SignalValue::Data(i));
        assert!(cond.is_ok());
    }
}

#[test]
fn byte_order_flag_selects_the_first_byte() {
    let mut bytes = BTreeMap::new();
    for (k, b) in [0x12u8, 0x34, 0x56, 0x78].iter().enumerate() {
        bytes.insert(0x100 + k, *b);
    }
    let first_high = imem(bytes.clone(), true, HashSet::new());
    assert_eq!(first_high.clock(SignalValue::Data(0x100)).0, SignalValue::Data(0x1234_5678));
    let first_low = imem(bytes, false, HashSet::new());
    assert_eq!(first_low.clock(SignalValue::Data(0x100)).0, SignalValue::Data(0x7856_3412));
    let w: u32 = 0xdead_beef;
    let mut le_bytes = BTreeMap::new();
    for (k, b) in w.to_le_bytes().iter().enumerate() {
        le_bytes.insert(8 + k, *b);
    }
    let m = imem(le_bytes, false, HashSet::new());
    assert_eq!(m.clock(SignalValue::Data(8)).0, SignalValue::Data(w));
}

#[test]
fn breakpoint_halts_with_its_address() {
    let mut bytes = BTreeMap::new();
    for a in 0..16usize {
        bytes.insert(a, a as u8);
    }
    let mut bp = HashSet::new();
    bp.insert(12usize);
    let m = imem(bytes, true, bp);
    let (out, cond) = m.clock(SignalValue::Data(12));
    assert_eq!(out, SignalValue::Data(0x0c0d_0e0f));
    match cond {
        Err(Condition::Halt(msg)) => assert_eq!(msg, "Breakpoint at 12"),
        Ok(()) => panic!("expected a halt"),
    }
    assert!(m.clock(SignalValue::Data(8)).1.is_ok());
}

#[test]
fn instr_mem_ports() {
    let m = imem(BTreeMap::new(), true, HashSet::new());
    let (id, ports) = m.get_id_ports();
    assert_eq!(id, "imem");
    assert_eq!(ports.inputs.len(), 1);
    assert_eq!(ports.inputs[0].port_id, "");
    assert_eq!(ports.inputs[0].input.id, "pc");
    assert_eq!(ports.inputs[0].input.field, "out");
    assert_eq!(ports.outputs, vec!["instruction".to_string()]);
}
