use std::collections::{BTreeMap, HashMap, HashSet};
use std::ops::Range;
use syncrim::common::{EguiComponent, Id, Input, InputPort, OutputType, Ports, SignalValue};
use syncrim::components::instr_mem::InstrMem;
use syncrim::components::mips_alu_forward::AluForward;
use syncrim::gui_egui::editor::{EditorMode, SnapPriority};
use syncrim::gui_egui::helper::{
    basic_on_hover, editor_mode_to_sense, id_ports_of_all_components,
    id_ports_of_all_components_non_wires, unique_component_name, SenseKind,
};
use std::rc::Rc;

fn ports_with(ids: &[&str]) -> Vec<(Id, Ports)> {
    ids.iter()
        .map(|id| {
            (
                id.to_string(),
                Ports { inputs: vec![], out_type: OutputType::Combinatorial, outputs: vec![] },
            )
        })
        .collect()
}

#[test]
fn unique_name_is_kept_when_free() {
    assert_eq!(unique_component_name(&[], "add"), "add");
    assert_eq!(unique_component_name(&ports_with(&["c1", "add1"]), "add"), "add");
}

#[test]
fn unique_name_appends_ones_until_free() {
    assert_eq!(unique_component_name(&ports_with(&["add"]), "add"), "add1");
    assert_eq!(unique_component_name(&ports_with(&["add1", "add", "c"]), "add"), "add11");
    assert_eq!(unique_component_name(&ports_with(&["add11", "add", "add1"]), "add"), "add111");
    assert_eq!(unique_component_name(&ports_with(&["add", "add11"]), "add"), "add1");
}

fn alu(id: &str) -> AluForward {
    AluForward::new(id, Input::new("a", "o"), Input::new("b", "o"), Input::new("c", "o"), Input::new("d", "o"))
}

fn imem(id: &str) -> InstrMem {
    InstrMem {
        id: id.to_string(),
        bytes: BTreeMap::new(),
        pc: Input::new("pc", "out"),
        range: Range { start: 0, end: 0x100 },
        breakpoints: HashSet::new(),
        symbols: HashMap::new(),
        le: true,
    }
}

fn parts() -> Vec<Rc<dyn EguiComponent>> {
    vec![Rc::new(alu("c1")), Rc::new(imem("imem")), Rc::new(alu("add"))]
}

#[test]
fn all_components_are_listed_in_order() {
    let v = id_ports_of_all_components(&parts());
    let ids: Vec<&str> = v.iter().map(|p| p.0.as_str()).collect();
    assert_eq!(ids, vec!["c1", "imem", "add"]);
    assert_eq!(v[1].1.outputs, vec!["instruction".to_string()]);
    assert_eq!(v[2].1.inputs.len(), 4);
}

#[test]
fn without_wires_both_lists_agree() {
    let cs = parts();
    assert!(cs.iter().all(|c| c.snap_priority() == SnapPriority::Default));
    let all: Vec<String> = id_ports_of_all_components(&cs).into_iter().map(|p| p.0).collect();
    let non_wires: Vec<String> =
        id_ports_of_all_components_non_wires(&cs).into_iter().map(|p| p.0).collect();
    assert_eq!(all, non_wires);
    let same_kind = vec![Rc::new(alu("x")), Rc::new(alu("y"))];
    assert_eq!(id_ports_of_all_components_non_wires(&same_kind).len(), 2);
    let empty: Vec<Rc<AluForward>> = vec![];
    assert!(id_ports_of_all_components_non_wires(&empty).is_empty());
    assert!(id_ports_of_all_components(&empty).is_empty());
}

#[test]
fn wire_mode_senses_hover_only() {
    assert_eq!(editor_mode_to_sense(EditorMode::Wire), SenseKind::Hover);
    assert_eq!(editor_mode_to_sense(EditorMode::Default), SenseKind::All);
    assert_eq!(editor_mode_to_sense(EditorMode::Input), SenseKind::All);
    assert_eq!(editor_mode_to_sense(EditorMode::Simulator), SenseKind::All);
}

fn jump_merge_ports() -> (Id, Ports) {
    (
        "jump_merge".to_string(),
        Ports {
            inputs: vec![
                InputPort {
                    port_id: "merge_instr_addr_in".to_string(),
                    input: Input::new("reg", "out"),
                },
                InputPort { port_id: "merge_jump_addr_in".to_string(), input: Input::new("c1", "out") },
            ],
            out_type: OutputType::Combinatorial,
            outputs: vec!["out".to_string()],
        },
    )
}

#[test]
fn hover_without_simulator_shows_the_id() {
    let h = basic_on_hover(&jump_merge_ports(), None);
    assert_eq!(h.id_line, "id: jump_merge");
    assert!(h.values.is_none());
}

#[test]
fn hover_with_simulator_shows_signals() {
    let ins = vec![SignalValue::Data(0), SignalValue::DontCare];
    let outs = vec![SignalValue::Data(0x1234)];
    let h = basic_on_hover(&jump_merge_ports(), Some((&ins, &outs)));
    assert_eq!(h.id_line, "id: jump_merge");
    let (li, lo) = h.values.unwrap();
    assert_eq!(li, vec!["merge_instr_addr_in <- reg:out (0x00000000)", "merge_jump_addr_in <- c1:out (don't care)"]);
    assert_eq!(lo, vec!["out-> 0x00001234"]);
}

#[test]
fn hover_matches_documented_example() {
    let ins = vec![SignalValue::Data(0), SignalValue::Data(0)];
    let outs = vec![SignalValue::Data(0)];
    let h = basic_on_hover(&jump_merge_ports(), Some((&ins, &outs)));
    assert_eq!(h.id_line, "id: jump_merge");
    let (li, lo) = h.values.unwrap();
    assert_eq!(
        li,
        vec!["merge_instr_addr_in <- reg:out (0x00000000)", "merge_jump_addr_in <- c1:out (0x00000000)"]
    );
    assert_eq!(lo, vec!["out-> 0x00000000"]);
}

#[test]
fn hover_shows_every_signal_state() {
    let ports = (
        "p".to_string(),
        Ports {
            inputs: vec![
                InputPort { port_id: "a".to_string(), input: Input::new("x", "o") },
                InputPort { port_id: "b".to_string(), input: Input::new("y", "o") },
            ],
            out_type: OutputType::Sequential,
            outputs: vec!["q".to_string(), "r".to_string()],
        },
    );
    let ins = vec![SignalValue::Uninitialized, SignalValue::Unknown];
    let outs = vec![SignalValue::DontCare, SignalValue::Uninitialized];
    let (li, lo) = basic_on_hover(&ports, Some((&ins, &outs))).values.unwrap();
    assert_eq!(li, vec!["a <- x:o (Uninitialized)", "b <- y:o (Unknown)"]);
    assert_eq!(lo, vec!["q-> Don't care", "r-> Uninitialized"]);
}
