//! Helpers of the egui front end: fresh component names, the ports of all
//! components, how a component reacts to the pointer in each editor mode,
//! and the text shown when the pointer rests on a component.
use std::rc::Rc;
use vstd::prelude::*;

use crate::common::{
    id_ports_view, EguiComponent, Id, InputPortView, Ports, PortsView, SignalValue,
};
use crate::gui_egui::editor::{EditorMode, SnapPriority};
use crate::text::{digits_value, hex_text, hex_u32, lemma_hex_roundtrip, push_char, push_str};

verus! {

// ----- fresh component names ---------------------------------------------

/// `k` copies of the character `1`.
pub open spec fn ones(k: nat) -> Seq<char> {
    Seq::new(k, |i: int| '1')
}

/// Whether some entry of `id_ports` carries the identifier `name`.
pub open spec fn id_taken(id_ports: Seq<(Id, Ports)>, name: Seq<char>) -> bool {
    exists|j: int| 0 <= j < id_ports.len() && (#[trigger] id_ports[j]).0@ == name
}

/// The length of the longest identifier in `id_ports`.
pub open spec fn longest_id(id_ports: Seq<(Id, Ports)>) -> nat
    decreases id_ports.len(),
{
    if id_ports.len() == 0 {
        0
    } else {
        let rest = longest_id(id_ports.drop_last());
        let l = id_ports.last().0@.len();
        if l > rest {
            l
        } else {
            rest
        }
    }
}

proof fn lemma_longest_id(id_ports: Seq<(Id, Ports)>, j: int)
    requires
        0 <= j < id_ports.len(),
    ensures
        id_ports[j].0@.len() <= longest_id(id_ports),
    decreases id_ports.len(),
{
    if j < id_ports.len() - 1 {
        lemma_longest_id(id_ports.drop_last(), j);
        assert(id_ports.drop_last()[j] == id_ports[j]);
    }
}

fn name_taken(id_ports: &[(Id, Ports)], name: &String) -> (b: bool)
    ensures
        b == id_taken(id_ports@, name@),
{
    let mut i: usize = 0;
    while i < id_ports.len()
        invariant
            i <= id_ports@.len(),
            forall|j: int| 0 <= j < i ==> (#[trigger] id_ports@[j]).0@ != name@,
        decreases id_ports.len() - i,
    {
        if id_ports[i].0 == *name {
            return true;
        }
        i += 1;
    }
    false
}

/// Whether `name` is `id` followed by as few `1`s as make it an identifier
/// that no entry of `id_ports` carries.
pub open spec fn is_unique_name(id_ports: Seq<(Id, Ports)>, id: Seq<char>, name: Seq<char>) -> bool {
    &&& !id_taken(id_ports, name)
    &&& exists|k: nat|
        name == id + #[trigger] ones(k) && forall|j: nat|
            j < k ==> id_taken(id_ports, id + #[trigger] ones(j))
}

/// A name for a new component that no component in `id_ports` carries:
/// `id` itself if it is free, else `id` followed by as few `1`s as make it
/// free.
pub fn unique_component_name(id_ports: &[(Id, Ports)], id: &str) -> (r: String)
    ensures
        is_unique_name(id_ports@, id@, r@),
{
    let mut new_id: String = id.to_owned();
    let ghost mut k: nat = 0;
    assert(new_id@ =~= id@ + ones(0));
    loop
        invariant
            new_id@ == id@ + ones(k),
            forall|j: nat| j < k ==> id_taken(id_ports@, id@ + #[trigger] ones(j)),
        decreases longest_id(id_ports@) + 1 - new_id@.len(),
    {
        if !name_taken(id_ports, &new_id) {
            return new_id;
        }
        proof {
            let j = choose|j: int| 0 <= j < id_ports@.len() && (#[trigger] id_ports@[j]).0@ == new_id@;
            lemma_longest_id(id_ports@, j);
            assert(id_taken(id_ports@, id@ + ones(k)));
        }
        push_char(&mut new_id, '1');
        proof {
            k = k + 1;
        }
        assert(new_id@ =~= id@ + ones(k));
    }
}

/// The fresh name is determined by the identifiers in use and the wanted
/// identifier alone, and it is the wanted identifier itself when that is
/// free.
pub proof fn lemma_unique_name_determined(id_ports: Seq<(Id, Ports)>, id: Seq<char>, a: Seq<char>, b: Seq<char>)
    requires
        is_unique_name(id_ports, id, a),
        is_unique_name(id_ports, id, b),
    ensures
        a == b,
        !id_taken(id_ports, id) ==> a == id,
{
    let ka = choose|k: nat| a == id + #[trigger] ones(k) && forall|j: nat|
        j < k ==> id_taken(id_ports, id + #[trigger] ones(j));
    let kb = choose|k: nat| b == id + #[trigger] ones(k) && forall|j: nat|
        j < k ==> id_taken(id_ports, id + #[trigger] ones(j));
    if ka < kb {
        assert(id_taken(id_ports, id + ones(ka)));
    } else if kb < ka {
        assert(id_taken(id_ports, id + ones(kb)));
    }
    if !id_taken(id_ports, id) {
        assert(id + ones(0) =~= id);
        if ka > 0 {
            assert(id_taken(id_ports, id + ones(0)));
        }
    }
}

// ----- the ports of all components ---------------------------------------

/// The identifiers and ports of all components, in order.
pub open spec fn all_id_ports<C: EguiComponent + ?Sized>(cs: Seq<Rc<C>>) -> Seq<(Seq<char>, PortsView)> {
    cs.map_values(|c: Rc<C>| c.spec_id_ports())
}

/// The identifiers and ports of the components that are not wires, in order.
pub open spec fn non_wire_id_ports<C: EguiComponent + ?Sized>(cs: Seq<Rc<C>>) -> Seq<(Seq<char>, PortsView)>
    decreases cs.len(),
{
    if cs.len() == 0 {
        Seq::empty()
    } else {
        let rest = non_wire_id_ports(cs.drop_last());
        if cs.last().spec_snap_priority() == SnapPriority::Wire {
            rest
        } else {
            rest.push(cs.last().spec_id_ports())
        }
    }
}

/// The identifiers and ports of a list, as plain values.
pub open spec fn id_ports_views(v: Seq<(Id, Ports)>) -> Seq<(Seq<char>, PortsView)> {
    v.map_values(|p: (Id, Ports)| id_ports_view(p))
}

/// The identifier and the ports of every component, in order.
pub fn id_ports_of_all_components<C: EguiComponent + ?Sized>(cs: &Vec<Rc<C>>) -> (r: Vec<(Id, Ports)>)
    ensures
        id_ports_views(r@) == all_id_ports(cs@),
{
    let mut v: Vec<(Id, Ports)> = Vec::new();
    let mut i: usize = 0;
    while i < cs.len()
        invariant
            i <= cs@.len(),
            id_ports_views(v@) == all_id_ports(cs@.take(i as int)),
        decreases cs.len() - i,
    {
        let p = cs[i].get_id_ports();
        let ghost before = v@;
        v.push(p);
        assert(id_ports_views(v@) =~= id_ports_views(before).push(id_ports_view(p)));
        assert(all_id_ports(cs@.take(i + 1)) =~= all_id_ports(cs@.take(i as int)).push(
            cs@[i as int].spec_id_ports(),
        ));
        i += 1;
    }
    assert(cs@.take(cs@.len() as int) =~= cs@);
    v
}

/// Whether a component is not a wire.
pub open spec fn not_wire<C: EguiComponent + ?Sized>() -> spec_fn(Rc<C>) -> bool {
    |c: Rc<C>| c.spec_snap_priority() != SnapPriority::Wire
}

/// The identifier and ports a component reports.
pub open spec fn reported_id_ports<C: EguiComponent + ?Sized>() -> spec_fn(Rc<C>) -> (Seq<char>, PortsView) {
    |c: Rc<C>| c.spec_id_ports()
}

/// The identifier and the ports of every component that is not a wire, in
/// order.
pub fn id_ports_of_all_components_non_wires<C: EguiComponent + ?Sized>(cs: &Vec<Rc<C>>) -> (r: Vec<(Id, Ports)>)
    ensures
        id_ports_views(r@) == non_wire_id_ports(cs@),
        id_ports_views(r@) == cs@.filter(not_wire()).map_values(reported_id_ports()),
{
    let mut v: Vec<(Id, Ports)> = Vec::new();
    let mut i: usize = 0;
    while i < cs.len()
        invariant
            i <= cs@.len(),
            id_ports_views(v@) == non_wire_id_ports(cs@.take(i as int)),
        decreases cs.len() - i,
    {
        let ghost before = v@;
        assert(cs@.take(i + 1).drop_last() =~= cs@.take(i as int));
        match cs[i].snap_priority() {
            SnapPriority::Wire => {},
            _ => {
                let p = cs[i].get_id_ports();
                v.push(p);
                assert(id_ports_views(v@) =~= id_ports_views(before).push(id_ports_view(p)));
            },
        }
        i += 1;
    }
    assert(cs@.take(cs@.len() as int) =~= cs@);
    proof {
        lemma_non_wires_filter(cs@);
    }
    v
}

/// The non-wire list is the list of all components filtered to those that
/// are not wires, in order, each with the identifier and ports it reports;
/// in particular the entry of every component that is not a wire is in it.
pub proof fn lemma_non_wires_filter<C: EguiComponent + ?Sized>(cs: Seq<Rc<C>>)
    ensures
        non_wire_id_ports(cs) == cs.filter(not_wire()).map_values(reported_id_ports()),
        forall|i: int|
            0 <= i < cs.len() && (#[trigger] cs[i]).spec_snap_priority() != SnapPriority::Wire
                ==> non_wire_id_ports(cs).contains(cs[i].spec_id_ports()),
    decreases cs.len(),
{
    reveal(Seq::filter);
    let p = not_wire::<C>();
    let f = reported_id_ports::<C>();
    if cs.len() > 0 {
        let init = cs.drop_last();
        lemma_non_wires_filter(init);
        assert(cs.filter(p) == if p(cs.last()) {
            init.filter(p).push(cs.last())
        } else {
            init.filter(p)
        });
        if p(cs.last()) {
            assert(init.filter(p).push(cs.last()).map_values(f) =~= init.filter(p).map_values(f).push(
                f(cs.last()),
            ));
        }
    } else {
        assert(cs.filter(p).map_values(f) =~= Seq::empty());
    }
    assert forall|i: int|
        0 <= i < cs.len() && (#[trigger] cs[i]).spec_snap_priority() != SnapPriority::Wire implies non_wire_id_ports(
        cs,
    ).contains(cs[i].spec_id_ports()) by {
        cs.filter_lemma(p);
        assert(cs.filter(p).contains(cs[i]));
        let k = choose|k: int| 0 <= k < cs.filter(p).len() && cs.filter(p)[k] == cs[i];
        assert(non_wire_id_ports(cs)[k] == f(cs[i]));
    }
}

/// When no component is a wire, listing the non-wires lists them all.
pub proof fn lemma_non_wires_without_wires<C: EguiComponent + ?Sized>(cs: Seq<Rc<C>>)
    requires
        forall|i: int| 0 <= i < cs.len() ==> (#[trigger] cs[i]).spec_snap_priority() != SnapPriority::Wire,
    ensures
        non_wire_id_ports(cs) == all_id_ports(cs),
    decreases cs.len(),
{
    if cs.len() > 0 {
        let init = cs.drop_last();
        assert forall|i: int| 0 <= i < init.len() implies (#[trigger] init[i]).spec_snap_priority()
            != SnapPriority::Wire by {
            assert(init[i] == cs[i]);
        }
        lemma_non_wires_without_wires(init);
        assert(cs.last() == cs[cs.len() - 1]);
        assert(all_id_ports(cs) =~= all_id_ports(init).push(cs.last().spec_id_ports()));
    } else {
        assert(all_id_ports(cs) =~= Seq::empty());
    }
}

/// Every entry of the non-wire list is the entry of some component that is
/// not a wire, and the list is never longer than the list of all components.
pub proof fn lemma_non_wires_are_components<C: EguiComponent + ?Sized>(cs: Seq<Rc<C>>)
    ensures
        non_wire_id_ports(cs).len() <= cs.len(),
        forall|k: int|
            0 <= k < non_wire_id_ports(cs).len() ==> exists|i: int|
                0 <= i < cs.len() && (#[trigger] cs[i]).spec_snap_priority() != SnapPriority::Wire
                    && cs[i].spec_id_ports() == #[trigger] non_wire_id_ports(cs)[k],
    decreases cs.len(),
{
    if cs.len() > 0 {
        let init = cs.drop_last();
        lemma_non_wires_are_components(init);
        let n = non_wire_id_ports(cs);
        assert forall|k: int| 0 <= k < n.len() implies exists|i: int|
            0 <= i < cs.len() && (#[trigger] cs[i]).spec_snap_priority() != SnapPriority::Wire
                && cs[i].spec_id_ports() == #[trigger] n[k] by {
            if k < non_wire_id_ports(init).len() {
                let i = choose|i: int|
                    0 <= i < init.len() && (#[trigger] init[i]).spec_snap_priority()
                        != SnapPriority::Wire && init[i].spec_id_ports() == non_wire_id_ports(
                        init,
                    )[k];
                assert(init[i] == cs[i]);
            } else {
                assert(cs[cs.len() - 1] == cs.last());
            }
        }
    }
}

// ----- pointer sensitivity -----------------------------------------------

/// Which pointer interactions a component listens to.
#[derive(Clone, Copy, PartialEq, Eq, Structural, Debug)]
pub enum SenseKind {
    /// Only hovering: while wires are drawn, components must not take clicks
    /// or drags.
    Hover,
    /// Hovering, clicks and drags.
    All,
}

/// In wire mode a component only senses hovering; in every other mode it
/// senses everything.
pub fn editor_mode_to_sense(editor_mode: EditorMode) -> (r: SenseKind)
    ensures
        r == (if editor_mode == EditorMode::Wire {
            SenseKind::Hover
        } else {
            SenseKind::All
        }),
{
    match editor_mode {
        EditorMode::Wire => SenseKind::Hover,
        _ => SenseKind::All,
    }
}

// ----- hover text --------------------------------------------------------

/// How a signal value is shown; `dont_care` is the text for a don't-care.
pub open spec fn signal_text(v: SignalValue, dont_care: Seq<char>) -> Seq<char> {
    match v {
        SignalValue::Uninitialized => "Uninitialized"@,
        SignalValue::Unknown => "Unknown"@,
        SignalValue::DontCare => dont_care,
        SignalValue::Data(x) => hex_text(x),
    }
}

/// The line shown for an input port whose connection carries `v`.
pub open spec fn input_hover_line(p: InputPortView, v: SignalValue) -> Seq<char> {
    p.port_id + " <- "@ + p.input.id + ":"@ + p.input.field + " ("@ + signal_text(
        v,
        "don't care"@,
    ) + ")"@
}

/// The line shown for an output that carries `v`: the output's name, then
/// `-> ` and the value.
pub open spec fn output_hover_line(output: Seq<char>, v: SignalValue) -> Seq<char> {
    output + "-> "@ + signal_text(v, "Don't care"@)
}

/// What the hover lines show for each signal value, the same in input and
/// output lines except for the wording of a don't-care: `Uninitialized`,
/// `Unknown`, `don't care` (input) or `Don't care` (output), and for data
/// ten characters, `0x` and hexadecimal digits that read back as the value.
pub proof fn lemma_hover_value_texts(port: InputPortView, output: Seq<char>, v: SignalValue)
    ensures
        ({
            let input_prefix = port.port_id + " <- "@ + port.input.id + ":"@ + port.input.field + " ("@;
            let output_prefix = output + "-> "@;
            &&& v == SignalValue::Uninitialized ==> input_hover_line(port, v) == input_prefix
                + "Uninitialized"@ + ")"@ && output_hover_line(output, v) == output_prefix
                + "Uninitialized"@
            &&& v == SignalValue::Unknown ==> input_hover_line(port, v) == input_prefix + "Unknown"@
                + ")"@ && output_hover_line(output, v) == output_prefix + "Unknown"@
            &&& v == SignalValue::DontCare ==> input_hover_line(port, v) == input_prefix
                + "don't care"@ + ")"@ && output_hover_line(output, v) == output_prefix
                + "Don't care"@
            &&& v matches SignalValue::Data(x) ==> input_hover_line(port, v) == input_prefix
                + hex_text(x) + ")"@ && output_hover_line(output, v) == output_prefix + hex_text(x)
                && hex_text(x).len() == 10 && hex_text(x).take(2) == "0x"@ && digits_value(
                hex_text(x).skip(2),
                16,
            ) == x
        }),
{
    if let SignalValue::Data(x) = v {
        lemma_hex_roundtrip(x);
        reveal_strlit("0x");
        assert(hex_text(x).take(2) =~= "0x"@);
    }
}

/// The text shown when the pointer rests on a component: a line with its
/// identifier and, while a simulation runs, a line per input port and a
/// line per output with the values they carry.
pub struct HoverText {
    pub id_line: String,
    pub values: Option<(Vec<String>, Vec<String>)>,
}

fn push_signal_text(s: &mut String, v: SignalValue, dont_care: &str)
    ensures
        final(s)@ == old(s)@ + signal_text(v, dont_care@),
{
    match v {
        SignalValue::Uninitialized => push_str(s, "Uninitialized"),
        SignalValue::Unknown => push_str(s, "Unknown"),
        SignalValue::DontCare => push_str(s, dont_care),
        SignalValue::Data(x) => {
            let h = hex_u32(x);
            push_str(s, h.as_str());
        },
    }
}

/// The hover text of a component with identifier and ports `id_ports`.
/// `values` holds, while a simulation runs, the value on the connection of
/// each input port and the value of each output, in the order of the ports.
pub fn basic_on_hover(
    id_ports: &(Id, Ports),
    values: Option<(&Vec<SignalValue>, &Vec<SignalValue>)>,
) -> (r: HoverText)
    requires
        values matches Some((ins, outs)) ==> ins.len() == id_ports.1.inputs.len() && outs.len()
            == id_ports.1.outputs.len(),
    ensures
        r.id_line@ == "id: "@ + id_ports.0@,
        values is None <==> r.values is None,
        values matches Some((ins, outs)) ==> r.values matches Some((li, lo)) && li.len()
            == ins.len() && lo.len() == outs.len() && (forall|i: int|
            0 <= i < li.len() ==> (#[trigger] li[i])@ == input_hover_line(
                id_ports.1.inputs[i]@,
                ins[i],
            )) && (forall|i: int|
            0 <= i < lo.len() ==> (#[trigger] lo[i])@ == output_hover_line(
                id_ports.1.outputs[i]@,
                outs[i],
            )),
{
    let mut id_line = String::new();
    push_str(&mut id_line, "id: ");
    push_str(&mut id_line, id_ports.0.as_str());
    assert(id_line@ =~= "id: "@ + id_ports.0@);
    match values {
        None => HoverText { id_line, values: None },
        Some((ins, outs)) => {
            let ports = &id_ports.1;
            let mut li: Vec<String> = Vec::new();
            let mut i: usize = 0;
            while i < ports.inputs.len()
                invariant
                    i <= ports.inputs@.len(),
                    ins.len() == ports.inputs.len(),
                    li.len() == i,
                    forall|j: int|
                        0 <= j < i ==> (#[trigger] li[j])@ == input_hover_line(
                            ports.inputs[j]@,
                            ins[j],
                        ),
                decreases ports.inputs.len() - i,
            {
                let p = &ports.inputs[i];
                let mut s = String::new();
                push_str(&mut s, p.port_id.as_str());
                push_str(&mut s, " <- ");
                push_str(&mut s, p.input.id.as_str());
                push_str(&mut s, ":");
                push_str(&mut s, p.input.field.as_str());
                push_str(&mut s, " (");
                push_signal_text(&mut s, ins[i], "don't care");
                push_str(&mut s, ")");
                assert(s@ =~= input_hover_line(ports.inputs[i as int]@, ins[i as int]));
                li.push(s);
                i += 1;
            }
            let mut lo: Vec<String> = Vec::new();
            let mut k: usize = 0;
            while k < ports.outputs.len()
                invariant
                    k <= ports.outputs@.len(),
                    outs.len() == ports.outputs.len(),
                    lo.len() == k,
                    forall|j: int|
                        0 <= j < k ==> (#[trigger] lo[j])@ == output_hover_line(
                            ports.outputs[j]@,
                            outs[j],
                        ),
                decreases ports.outputs.len() - k,
            {
                let mut s = String::new();
                push_str(&mut s, ports.outputs[k].as_str());
                push_str(&mut s, "-> ");
                push_signal_text(&mut s, outs[k], "Don't care");
                assert(s@ =~= output_hover_line(ports.outputs[k as int]@, outs[k as int]));
                lo.push(s);
                k += 1;
            }
            HoverText { id_line, values: Some((li, lo)) }
        },
    }
}

} // verus!
