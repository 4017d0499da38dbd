//! The forwarding comparator of the pipelined MIPS model: it tells the
//! pipeline whether the register an instruction reads is the one that an
//! earlier, register-writing instruction writes.
use std::rc::Rc;
use vstd::prelude::*;

use crate::gui_egui::editor::SnapPriority;
use crate::common::{Component, EguiComponent, Id, Input, InputPort, InputPortView, OutputType, Ports, PortsView, SignalValue};

verus! {

pub const ALU_FORWARD_A_IN_ID: &'static str = "a_in";

pub const ALU_FORWARD_B_IN_ID: &'static str = "b_in";

pub const ALU_FORWARD_WE_IN_ID: &'static str = "we_in";

pub const ALU_FORWARD_LOAD_IN_ID: &'static str = "load_in";

pub const ALU_FORWARD_OUT_ID: &'static str = "equals_forward_out";

/// The data memory operation of an instruction that does not access memory.
pub const NO_OP: u32 = 0;

/// The forwarding comparator. Its position on the canvas belongs to the
/// front end; here stand its identifier and its four inputs: the two
/// register numbers it compares, the write enable of the writing
/// instruction and that instruction's memory operation.
pub struct AluForward {
    pub id: Id,
    pub a_in: Input,
    pub b_in: Input,
    pub we_in: Input,
    pub load_in: Input,
}

impl Clone for AluForward {
    fn clone(&self) -> (r: Self)
        ensures
            r == *self,
    {
        AluForward {
            id: self.id.clone(),
            a_in: self.a_in.clone(),
            b_in: self.b_in.clone(),
            we_in: self.we_in.clone(),
            load_in: self.load_in.clone(),
        }
    }
}

/// What the comparator outputs for the given input values: `1` when the
/// writing instruction writes the register file, is no load or store, and
/// the two register numbers are equal; `0` otherwise.
pub open spec fn forward_result(a_in: u32, b_in: u32, we_in: u32, load_in: u32) -> u32 {
    if we_in == 1 && load_in == NO_OP && a_in == b_in {
        1
    } else {
        0
    }
}

impl AluForward {
    /// A comparator with the given identifier and inputs.
    pub fn new(id: &str, a_in: Input, b_in: Input, we_in: Input, load_in: Input) -> (r: Self)
        ensures
            r.id@ == id@,
            r.a_in == a_in,
            r.b_in == b_in,
            r.we_in == we_in,
            r.load_in == load_in,
    {
        AluForward { id: id.to_owned(), a_in, b_in, we_in, load_in }
    }

    /// `new`, shared behind an `Rc`.
    pub fn rc_new(id: &str, a_in: Input, b_in: Input, we_in: Input, load_in: Input) -> (r: Rc<Self>)
        ensures
            r.id@ == id@,
            r.a_in == a_in,
            r.b_in == b_in,
            r.we_in == we_in,
            r.load_in == load_in,
    {
        Rc::new(AluForward::new(id, a_in, b_in, we_in, load_in))
    }

    /// One clock step: given the values on the four inputs (all of which
    /// must carry data), the value of the output `equals_forward_out`.
    pub fn clock(&self, a_in: SignalValue, b_in: SignalValue, we_in: SignalValue, load_in: SignalValue) -> (r: SignalValue)
        requires
            a_in is Data,
            b_in is Data,
            we_in is Data,
            load_in is Data,
        ensures
            r == SignalValue::Data(forward_result(a_in->0, b_in->0, we_in->0, load_in->0)),
    {
        let a: u32 = match a_in { SignalValue::Data(v) => v, _ => 0 };
        let b: u32 = match b_in { SignalValue::Data(v) => v, _ => 0 };
        let we: u32 = match we_in { SignalValue::Data(v) => v, _ => 0 };
        let load: u32 = match load_in { SignalValue::Data(v) => v, _ => 0 };
        // forward only for an instruction that writes the register file and
        // is not computing an address for a load or a store
        let result: u32 = if we == 1 && load == NO_OP {
            if a == b { 1 } else { 0 }
        } else {
            0
        };
        SignalValue::Data(result)
    }

    /// Reconnects the input port `target_port_id`. Only the two compared
    /// inputs can be reconnected; any other port name leaves the component
    /// as it is.
    pub fn set_id_port(&mut self, target_port_id: Id, new_input: Input)
        ensures
            final(self).id == old(self).id,
            final(self).we_in == old(self).we_in,
            final(self).load_in == old(self).load_in,
            final(self).a_in == (if target_port_id@ == ALU_FORWARD_A_IN_ID@ { new_input } else { old(self).a_in }),
            final(self).b_in == (if target_port_id@ == ALU_FORWARD_B_IN_ID@ { new_input } else { old(self).b_in }),
    {
        assert(ALU_FORWARD_A_IN_ID@ != ALU_FORWARD_B_IN_ID@) by {
            reveal_strlit("a_in");
            reveal_strlit("b_in");
            assert(ALU_FORWARD_A_IN_ID@[0] != ALU_FORWARD_B_IN_ID@[0]);
        }
        let a_port: String = ALU_FORWARD_A_IN_ID.to_owned();
        let b_port: String = ALU_FORWARD_B_IN_ID.to_owned();
        if target_port_id == a_port {
            self.a_in = new_input;
        } else if target_port_id == b_port {
            self.b_in = new_input;
        }
    }
}

fn input_port(port_id: &str, input: &Input) -> (r: InputPort)
    ensures
        r@ == (InputPortView { port_id: port_id@, input: input@ }),
{
    InputPort { port_id: port_id.to_owned(), input: input.clone() }
}

impl EguiComponent for AluForward {
    open spec fn spec_snap_priority(&self) -> SnapPriority {
        SnapPriority::Default
    }

    fn snap_priority(&self) -> (r: SnapPriority) {
        SnapPriority::Default
    }
}

impl Component for AluForward {
    open spec fn spec_id_ports(&self) -> (Seq<char>, PortsView) {
        (
            self.id@,
            PortsView {
                inputs: seq![
                    InputPortView { port_id: ALU_FORWARD_A_IN_ID@, input: self.a_in@ },
                    InputPortView { port_id: ALU_FORWARD_B_IN_ID@, input: self.b_in@ },
                    InputPortView { port_id: ALU_FORWARD_WE_IN_ID@, input: self.we_in@ },
                    InputPortView { port_id: ALU_FORWARD_LOAD_IN_ID@, input: self.load_in@ },
                ],
                out_type: OutputType::Combinatorial,
                outputs: seq![ALU_FORWARD_OUT_ID@],
            },
        )
    }

    fn get_id_ports(&self) -> (r: (Id, Ports)) {
        let mut inputs: Vec<InputPort> = Vec::new();
        inputs.push(input_port(ALU_FORWARD_A_IN_ID, &self.a_in));
        inputs.push(input_port(ALU_FORWARD_B_IN_ID, &self.b_in));
        inputs.push(input_port(ALU_FORWARD_WE_IN_ID, &self.we_in));
        inputs.push(input_port(ALU_FORWARD_LOAD_IN_ID, &self.load_in));
        let mut outputs: Vec<Id> = Vec::new();
        outputs.push(ALU_FORWARD_OUT_ID.to_owned());
        let r = (self.id.clone(), Ports { inputs, out_type: OutputType::Combinatorial, outputs });
        assert(r.1@.inputs =~= self.spec_id_ports().1.inputs);
        assert(r.1@.outputs =~= self.spec_id_ports().1.outputs);
        r
    }
}

/// The ports the comparator reports: the input ports `a_in`, `b_in`,
/// `we_in` and `load_in`, in that order, each carrying the connection held
/// in the field of the same name; combinatorial outputs; and the single
/// output `equals_forward_out`.
pub proof fn lemma_alu_forward_ports(c: AluForward)
    ensures
        c.spec_id_ports().0 == c.id@,
        c.spec_id_ports().1.out_type == OutputType::Combinatorial,
        c.spec_id_ports().1.inputs.len() == 4,
        c.spec_id_ports().1.inputs[0].port_id == "a_in"@ && c.spec_id_ports().1.inputs[0].input
            == c.a_in@,
        c.spec_id_ports().1.inputs[1].port_id == "b_in"@ && c.spec_id_ports().1.inputs[1].input
            == c.b_in@,
        c.spec_id_ports().1.inputs[2].port_id == "we_in"@ && c.spec_id_ports().1.inputs[2].input
            == c.we_in@,
        c.spec_id_ports().1.inputs[3].port_id == "load_in"@ && c.spec_id_ports().1.inputs[3].input
            == c.load_in@,
        c.spec_id_ports().1.outputs == seq!["equals_forward_out"@],
{
}

/// Reconnecting the compared input `a_in` shows in the ports: the `a_in`
/// port then carries the new connection and every other port keeps its
/// own; the same holds for `b_in`.
pub proof fn lemma_reconnect_shows_in_ports(c: AluForward, after: AluForward, new_input: Input, a: bool)
    requires
        after.id == c.id,
        after.we_in == c.we_in,
        after.load_in == c.load_in,
        a ==> after.a_in == new_input && after.b_in == c.b_in,
        !a ==> after.b_in == new_input && after.a_in == c.a_in,
    ensures
        after.spec_id_ports().1.inputs[if a { 0int } else { 1int }].input == new_input@,
        after.spec_id_ports().1.inputs[if a { 1int } else { 0int }].input == c.spec_id_ports().1.inputs[if a { 1int } else { 0int }].input,
        after.spec_id_ports().1.inputs[2] == c.spec_id_ports().1.inputs[2],
        after.spec_id_ports().1.inputs[3] == c.spec_id_ports().1.inputs[3],
{
}

/// The comparator outputs `1` exactly when forwarding applies and `0`
/// otherwise; it never outputs anything else.
pub proof fn lemma_forward_result_is_flag(a_in: u32, b_in: u32, we_in: u32, load_in: u32)
    ensures
        forward_result(a_in, b_in, we_in, load_in) == 0 || forward_result(a_in, b_in, we_in, load_in) == 1,
        forward_result(a_in, b_in, we_in, load_in) == 1 <==> (we_in == 1 && load_in == NO_OP && a_in == b_in),
{
}

} // verus!
