//! The modes of the editor and the snapping priority of components.
use vstd::prelude::*;

verus! {

/// What the editor is doing at the moment.
#[derive(Clone, Copy, PartialEq, Eq, Structural, Debug)]
pub enum EditorMode {
    Default,
    Wire,
    Input,
    Simulator,
}

/// How a component takes part in snapping while wires are drawn.
#[derive(Clone, Copy, PartialEq, Eq, Structural, Debug)]
pub enum SnapPriority {
    Default,
    Wire,
}

} // verus!
