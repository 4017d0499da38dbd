//! The instruction memory of the RISC-V model: it reads the 32-bit
//! instruction at the program counter and halts the simulation at
//! breakpoints.
use std::collections::{BTreeMap, HashMap, HashSet};
use std::ops::Range;
use vstd::prelude::*;

use crate::gui_egui::editor::SnapPriority;
use crate::common::{Component, EguiComponent, Condition, Id, Input, InputPort, InputPortView, OutputType, Ports, PortsView, SignalValue};
use crate::text::{be_byte, decimal, push_decimal, push_str};

verus! {

/// The instruction memory. Its position on the canvas belongs to the front
/// end; here stand its identifier, its contents (byte address to byte), the
/// input that carries the program counter, the address range it covers, the
/// addresses of breakpoints, the symbols of the program and the byte order
/// flag `le`: when it is set the byte at the lowest address is the most
/// significant byte of the instruction, when it is clear it is the least
/// significant one.
pub struct InstrMem {
    pub id: String,
    pub bytes: BTreeMap<usize, u8>,
    pub pc: Input,
    pub range: Range<usize>,
    pub breakpoints: HashSet<usize>,
    pub symbols: HashMap<usize, String>,
    pub le: bool,
}

pub const INSTR_MEM_INSTRUCTION_ID: &'static str = "instruction";

/// The word made of four bytes, `b0` the most significant.
pub open spec fn word_of(b0: u8, b1: u8, b2: u8, b3: u8) -> u32 {
    (b0 * 0x100_0000 + b1 * 0x1_0000 + b2 * 0x100 + b3) as u32
}

/// Whether the four bytes from `pc` on are in memory.
pub open spec fn can_fetch(bytes: Map<usize, u8>, pc: u32) -> bool {
    &&& pc <= u32::MAX - 3
    &&& bytes.contains_key(pc as usize)
    &&& bytes.contains_key((pc + 1) as usize)
    &&& bytes.contains_key((pc + 2) as usize)
    &&& bytes.contains_key((pc + 3) as usize)
}

/// The instruction at `pc`: the four bytes from `pc` on, the first one the
/// most significant when `le` is set and the least significant otherwise.
pub open spec fn fetch_word(bytes: Map<usize, u8>, pc: u32, le: bool) -> u32 {
    let b0 = bytes[pc as usize];
    let b1 = bytes[(pc + 1) as usize];
    let b2 = bytes[(pc + 2) as usize];
    let b3 = bytes[(pc + 3) as usize];
    if le {
        word_of(b0, b1, b2, b3)
    } else {
        word_of(b3, b2, b1, b0)
    }
}

/// The message of the halt at a breakpoint.
pub open spec fn breakpoint_message(pc: u32) -> Seq<char> {
    "Breakpoint at "@ + decimal(pc as nat)
}

fn byte_at(bytes: &BTreeMap<usize, u8>, addr: usize) -> (b: u8)
    requires
        bytes@.contains_key(addr),
    ensures
        b == bytes@[addr],
{
    match bytes.get(&addr) {
        Some(b) => *b,
        None => 0,
    }
}

impl InstrMem {
    /// One clock step with `pc` on the program counter input (it must carry
    /// data, and the four bytes from it on must be in memory): the value of
    /// the output `instruction`, and a halt when `pc` is a breakpoint.
    pub fn clock(&self, pc: SignalValue) -> (r: (SignalValue, Result<(), Condition>))
        requires
            pc is Data,
            can_fetch(self.bytes@, pc->0),
        ensures
            r.0 == SignalValue::Data(fetch_word(self.bytes@, pc->0, self.le)),
            r.1 is Ok <==> !self.breakpoints@.contains(pc->0 as usize),
            r.1 matches Err(Condition::Halt(m)) ==> m@ == breakpoint_message(pc->0),
    {
        let pc: u32 = match pc {
            SignalValue::Data(v) => v,
            _ => 0,
        };
        let b0 = byte_at(&self.bytes, pc as usize) as u32;
        let b1 = byte_at(&self.bytes, (pc + 1) as usize) as u32;
        let b2 = byte_at(&self.bytes, (pc + 2) as usize) as u32;
        let b3 = byte_at(&self.bytes, (pc + 3) as usize) as u32;
        let instr: u32 = if self.le {
            b0 * 0x100_0000 + b1 * 0x1_0000 + b2 * 0x100 + b3
        } else {
            b3 * 0x100_0000 + b2 * 0x1_0000 + b1 * 0x100 + b0
        };
        if !self.breakpoints.contains(&(pc as usize)) {
            (SignalValue::Data(instr), Ok(()))
        } else {
            let mut m = String::new();
            push_str(&mut m, "Breakpoint at ");
            push_decimal(&mut m, pc as u64);
            assert(m@ =~= breakpoint_message(pc));
            (SignalValue::Data(instr), Err(Condition::Halt(m)))
        }
    }
}

impl EguiComponent for InstrMem {
    open spec fn spec_snap_priority(&self) -> SnapPriority {
        SnapPriority::Default
    }

    fn snap_priority(&self) -> (r: SnapPriority) {
        SnapPriority::Default
    }
}

impl Component for InstrMem {
    open spec fn spec_id_ports(&self) -> (Seq<char>, PortsView) {
        (
            self.id@,
            PortsView {
                inputs: seq![InputPortView { port_id: Seq::empty(), input: self.pc@ }],
                out_type: OutputType::Combinatorial,
                outputs: seq![INSTR_MEM_INSTRUCTION_ID@],
            },
        )
    }

    fn get_id_ports(&self) -> (r: (Id, Ports)) {
        let mut inputs: Vec<InputPort> = Vec::new();
        // the program counter input carries no port name
        inputs.push(InputPort { port_id: String::new(), input: self.pc.clone() });
        let mut outputs: Vec<Id> = Vec::new();
        outputs.push(INSTR_MEM_INSTRUCTION_ID.to_owned());
        let r = (self.id.clone(), Ports { inputs, out_type: OutputType::Combinatorial, outputs });
        assert(r.1@.inputs =~= self.spec_id_ports().1.inputs);
        assert(r.1@.outputs =~= self.spec_id_ports().1.outputs);
        r
    }
}

proof fn lemma_bytes_of_word(w: u32)
    ensures
        word_of(be_byte(w, 0), be_byte(w, 1), be_byte(w, 2), be_byte(w, 3)) == w,
{
    assert((w / 0x100_0000) * 0x100_0000 + ((w / 0x1_0000) % 0x100) * 0x1_0000 + ((w / 0x100) % 0x100) * 0x100 + w % 0x100 == w) by (bit_vector);
}

/// The ports an instruction memory reports: one input, carrying its
/// program counter connection under no port name; combinatorial outputs
/// (the instruction follows the program counter within the cycle); and the
/// single output `instruction`. They depend on the identifier and the
/// program counter connection alone.
pub proof fn lemma_instr_mem_ports(m: InstrMem, other: InstrMem)
    ensures
        m.spec_id_ports().0 == m.id@,
        m.spec_id_ports().1.out_type == OutputType::Combinatorial,
        m.spec_id_ports().1.inputs.len() == 1,
        m.spec_id_ports().1.inputs[0].input == m.pc@,
        m.spec_id_ports().1.inputs[0].port_id.len() == 0,
        m.spec_id_ports().1.outputs.len() == 1,
        m.spec_id_ports().1.outputs[0] == "instruction"@,
        other.id@ == m.id@ && other.pc@ == m.pc@ ==> other.spec_id_ports() == m.spec_id_ports(),
{
}

/// A word stored as its bytes, most significant first, from `pc` on is
/// read back by a memory with `le` set; stored least significant first it
/// is read back by a memory with `le` clear.
pub proof fn lemma_fetch_stored_word(bytes: Map<usize, u8>, pc: u32, w: u32, le: bool)
    requires
        can_fetch(bytes, pc),
        bytes[pc as usize] == (if le { be_byte(w, 0) } else { be_byte(w, 3) }),
        bytes[(pc + 1) as usize] == (if le { be_byte(w, 1) } else { be_byte(w, 2) }),
        bytes[(pc + 2) as usize] == (if le { be_byte(w, 2) } else { be_byte(w, 1) }),
        bytes[(pc + 3) as usize] == (if le { be_byte(w, 3) } else { be_byte(w, 0) }),
    ensures
        fetch_word(bytes, pc, le) == w,
{
    lemma_bytes_of_word(w);
}

} // verus!
