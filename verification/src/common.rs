//! Types shared by all components: identifiers, inputs, ports, signal
//! values, simulation conditions and the component interface.
use vstd::prelude::*;

use crate::gui_egui::editor::SnapPriority;

verus! {

/// Identifier of a component or of one of its ports.
pub type Id = String;

/// A connection to the output `field` of the component `id`.
pub struct Input {
    pub id: Id,
    pub field: Id,
}

/// An input connection as plain text.
pub struct InputView {
    pub id: Seq<char>,
    pub field: Seq<char>,
}

impl View for Input {
    type V = InputView;

    open spec fn view(&self) -> InputView {
        InputView { id: self.id@, field: self.field@ }
    }
}

impl Input {
    /// An input connected to output `field` of component `id`.
    pub fn new(id: &str, field: &str) -> (r: Input)
        ensures
            r.id@ == id@,
            r.field@ == field@,
    {
        Input { id: id.to_owned(), field: field.to_owned() }
    }
}

impl Clone for Input {
    fn clone(&self) -> (r: Self)
        ensures
            r == *self,
    {
        Input { id: self.id.clone(), field: self.field.clone() }
    }
}

/// A named input port of a component and what it is connected to.
pub struct InputPort {
    pub port_id: Id,
    pub input: Input,
}

/// An input port as plain text.
pub struct InputPortView {
    pub port_id: Seq<char>,
    pub input: InputView,
}

impl View for InputPort {
    type V = InputPortView;

    open spec fn view(&self) -> InputPortView {
        InputPortView { port_id: self.port_id@, input: self.input@ }
    }
}

/// Whether a component's outputs follow its inputs at once or at the clock.
#[derive(Clone, Copy, PartialEq, Eq, Structural, Debug)]
pub enum OutputType {
    Combinatorial,
    Sequential,
}

/// The ports of a component: its input ports, the kind of its outputs and
/// the names of its outputs.
pub struct Ports {
    pub inputs: Vec<InputPort>,
    pub out_type: OutputType,
    pub outputs: Vec<Id>,
}

/// The ports of a component as plain values.
pub struct PortsView {
    pub inputs: Seq<InputPortView>,
    pub out_type: OutputType,
    pub outputs: Seq<Seq<char>>,
}

impl View for Ports {
    type V = PortsView;

    open spec fn view(&self) -> PortsView {
        PortsView {
            inputs: self.inputs@.map_values(|p: InputPort| p@),
            out_type: self.out_type,
            outputs: self.outputs@.map_values(|o: String| o@),
        }
    }
}

/// The identifier and the ports of a component, as plain values.
pub open spec fn id_ports_view(p: (Id, Ports)) -> (Seq<char>, PortsView) {
    (p.0@, p.1@)
}

/// The value of a signal during simulation.
#[derive(Clone, Copy, PartialEq, Eq, Structural, Debug)]
pub enum SignalValue {
    Uninitialized,
    Unknown,
    DontCare,
    Data(u32),
}

/// A condition that stops a simulation step.
pub enum Condition {
    /// The simulation halts, with the reason.
    Halt(String),
}

/// What every component offers the simulator and the editor.
pub trait Component {
    /// The identifier and the ports that `get_id_ports` reports.
    spec fn spec_id_ports(&self) -> (Seq<char>, PortsView);

    /// The component's identifier and its ports.
    fn get_id_ports(&self) -> (r: (Id, Ports))
        ensures
            id_ports_view(r) == self.spec_id_ports(),
    ;
}

/// What a component offers the egui editor beyond the simulator's interface.
pub trait EguiComponent: Component {
    /// The priority that `snap_priority` reports.
    spec fn spec_snap_priority(&self) -> SnapPriority;

    /// How the component takes part in snapping.
    fn snap_priority(&self) -> (r: SnapPriority)
        ensures
            r == self.spec_snap_priority(),
    ;
}


} // verus!
