//! Change detection between two controller snapshots: one `ChangeEvent` per
//! field whose value differs, in a fixed canonical field order (directional
//! flags, face buttons, shoulder/trigger fields, system flags, then the four
//! stick axes). Equality is exact; no shaping or deadzone policy is applied
//! here, so "what changed" stays separate from "how it is presented".

use vstd::prelude::*;
use crate::hid::DS4State;

verus! {

/// The fixed, deterministic enumeration of all snapshot fields, in canonical
/// diff order.
#[derive(Debug, Clone, Copy, PartialEq, Eq, Structural)]
pub enum Field {
    Up,
    Down,
    Left,
    Right,
    Square,
    Cross,
    Circle,
    Triangle,
    L1,
    L2,
    R1,
    R2,
    L3,
    R3,
    L2Analog,
    R2Analog,
    Ps,
    Touchpad,
    Start,
    Select,
    Lsx,
    Lsy,
    Rsx,
    Rsy,
}

/// The value one field carries: a boolean flag or an 8-bit analog sample.
#[derive(Debug, Clone, Copy, PartialEq, Eq, Structural)]
pub enum FieldValue {
    Flag(bool),
    Axis(u8),
}

/// One field that differs between two snapshots, with the value it had in
/// the prior snapshot and the value it has in the next one. Constructed and
/// consumed within one frame.
#[derive(Debug, Clone, Copy, PartialEq, Eq, Structural)]
pub struct ChangeEvent {
    pub field: Field,
    pub prior: FieldValue,
    pub next: FieldValue,
}

/// The contribution of one boolean field to the diff: empty when the values
/// agree, otherwise exactly one event.
pub open spec fn flag_delta(f: Field, pv: bool, cv: bool) -> Seq<ChangeEvent> {
    if pv == cv {
        Seq::empty()
    } else {
        seq![ChangeEvent { field: f, prior: FieldValue::Flag(pv), next: FieldValue::Flag(cv) }]
    }
}

/// The contribution of one analog field to the diff: empty when the values
/// agree, otherwise exactly one event.
pub open spec fn axis_delta(f: Field, pv: u8, cv: u8) -> Seq<ChangeEvent> {
    if pv == cv {
        Seq::empty()
    } else {
        seq![ChangeEvent { field: f, prior: FieldValue::Axis(pv), next: FieldValue::Axis(cv) }]
    }
}

/// The directional-flag contributions to the diff, in canonical order.
pub open spec fn direction_deltas(p: DS4State, c: DS4State) -> Seq<ChangeEvent> {
    flag_delta(Field::Up, p.up, c.up) + flag_delta(Field::Down, p.down, c.down) + flag_delta(
        Field::Left,
        p.left,
        c.left,
    ) + flag_delta(Field::Right, p.right, c.right)
}

/// The face-button contributions to the diff, in canonical order.
pub open spec fn face_deltas(p: DS4State, c: DS4State) -> Seq<ChangeEvent> {
    flag_delta(Field::Square, p.square, c.square) + flag_delta(Field::Cross, p.cross, c.cross)
        + flag_delta(Field::Circle, p.circle, c.circle) + flag_delta(
        Field::Triangle,
        p.triangle,
        c.triangle,
    )
}

/// The shoulder and trigger contributions to the diff, in canonical order.
pub open spec fn shoulder_deltas(p: DS4State, c: DS4State) -> Seq<ChangeEvent> {
    flag_delta(Field::L1, p.l1, c.l1) + flag_delta(Field::L2, p.l2, c.l2) + flag_delta(
        Field::R1,
        p.r1,
        c.r1,
    ) + flag_delta(Field::R2, p.r2, c.r2) + flag_delta(Field::L3, p.l3, c.l3) + flag_delta(
        Field::R3,
        p.r3,
        c.r3,
    ) + axis_delta(Field::L2Analog, p.l2_analog, c.l2_analog) + axis_delta(
        Field::R2Analog,
        p.r2_analog,
        c.r2_analog,
    )
}

/// The system-flag contributions to the diff, in canonical order.
pub open spec fn system_deltas(p: DS4State, c: DS4State) -> Seq<ChangeEvent> {
    flag_delta(Field::Ps, p.ps, c.ps) + flag_delta(Field::Touchpad, p.touchpad, c.touchpad)
        + flag_delta(Field::Start, p.start, c.start) + flag_delta(
        Field::Select,
        p.select,
        c.select,
    )
}

/// The analog-stick contributions to the diff, in canonical order.
pub open spec fn stick_deltas(p: DS4State, c: DS4State) -> Seq<ChangeEvent> {
    axis_delta(Field::Lsx, p.lsx, c.lsx) + axis_delta(Field::Lsy, p.lsy, c.lsy) + axis_delta(
        Field::Rsx,
        p.rsx,
        c.rsx,
    ) + axis_delta(Field::Rsy, p.rsy, c.rsy)
}

/// The full diff of two snapshots: the concatenation of every field's
/// contribution, in canonical order.
#[verifier::opaque]
pub open spec fn diff_spec(p: DS4State, c: DS4State) -> Seq<ChangeEvent> {
    direction_deltas(p, c) + face_deltas(p, c) + shoulder_deltas(p, c) + system_deltas(p, c)
        + stick_deltas(p, c)
}

/// Appends the diff contribution of one boolean field.
fn push_flag(out: &mut Vec<ChangeEvent>, f: Field, pv: bool, cv: bool)
    ensures
        final(out)@ == old(out)@ + flag_delta(f, pv, cv),
{
    if pv != cv {
        out.push(ChangeEvent { field: f, prior: FieldValue::Flag(pv), next: FieldValue::Flag(cv) });
    }
    assert(out@ =~= old(out)@ + flag_delta(f, pv, cv));
}

/// Appends the diff contribution of one analog field.
fn push_axis(out: &mut Vec<ChangeEvent>, f: Field, pv: u8, cv: u8)
    ensures
        final(out)@ == old(out)@ + axis_delta(f, pv, cv),
{
    if pv != cv {
        out.push(ChangeEvent { field: f, prior: FieldValue::Axis(pv), next: FieldValue::Axis(cv) });
    }
    assert(out@ =~= old(out)@ + axis_delta(f, pv, cv));
}

/// Collects the directional-flag changes.
fn direction_changes(prev: &DS4State, curr: &DS4State) -> (r: Vec<ChangeEvent>)
    ensures
        r@ == direction_deltas(*prev, *curr),
{
    let mut out: Vec<ChangeEvent> = Vec::new();
    let ghost base = out@;
    push_flag(&mut out, Field::Up, prev.up, curr.up);
    proof {
        Seq::<ChangeEvent>::add_empty_left(base, flag_delta(Field::Up, prev.up, curr.up));
    }
    push_flag(&mut out, Field::Down, prev.down, curr.down);
    push_flag(&mut out, Field::Left, prev.left, curr.left);
    push_flag(&mut out, Field::Right, prev.right, curr.right);
    out
}

/// Collects the face-button changes.
fn face_changes(prev: &DS4State, curr: &DS4State) -> (r: Vec<ChangeEvent>)
    ensures
        r@ == face_deltas(*prev, *curr),
{
    let mut out: Vec<ChangeEvent> = Vec::new();
    let ghost base = out@;
    push_flag(&mut out, Field::Square, prev.square, curr.square);
    proof {
        Seq::<ChangeEvent>::add_empty_left(
            base,
            flag_delta(Field::Square, prev.square, curr.square),
        );
    }
    push_flag(&mut out, Field::Cross, prev.cross, curr.cross);
    push_flag(&mut out, Field::Circle, prev.circle, curr.circle);
    push_flag(&mut out, Field::Triangle, prev.triangle, curr.triangle);
    out
}

/// Collects the shoulder and trigger changes.
fn shoulder_changes(prev: &DS4State, curr: &DS4State) -> (r: Vec<ChangeEvent>)
    ensures
        r@ == shoulder_deltas(*prev, *curr),
{
    let mut out: Vec<ChangeEvent> = Vec::new();
    let ghost base = out@;
    push_flag(&mut out, Field::L1, prev.l1, curr.l1);
    proof {
        Seq::<ChangeEvent>::add_empty_left(base, flag_delta(Field::L1, prev.l1, curr.l1));
    }
    push_flag(&mut out, Field::L2, prev.l2, curr.l2);
    push_flag(&mut out, Field::R1, prev.r1, curr.r1);
    push_flag(&mut out, Field::R2, prev.r2, curr.r2);
    push_flag(&mut out, Field::L3, prev.l3, curr.l3);
    push_flag(&mut out, Field::R3, prev.r3, curr.r3);
    push_axis(&mut out, Field::L2Analog, prev.l2_analog, curr.l2_analog);
    push_axis(&mut out, Field::R2Analog, prev.r2_analog, curr.r2_analog);
    out
}

/// Collects the system-flag changes.
fn system_changes(prev: &DS4State, curr: &DS4State) -> (r: Vec<ChangeEvent>)
    ensures
        r@ == system_deltas(*prev, *curr),
{
    let mut out: Vec<ChangeEvent> = Vec::new();
    let ghost base = out@;
    push_flag(&mut out, Field::Ps, prev.ps, curr.ps);
    proof {
        Seq::<ChangeEvent>::add_empty_left(base, flag_delta(Field::Ps, prev.ps, curr.ps));
    }
    push_flag(&mut out, Field::Touchpad, prev.touchpad, curr.touchpad);
    push_flag(&mut out, Field::Start, prev.start, curr.start);
    push_flag(&mut out, Field::Select, prev.select, curr.select);
    out
}

/// Collects the analog-stick changes.
fn stick_changes(prev: &DS4State, curr: &DS4State) -> (r: Vec<ChangeEvent>)
    ensures
        r@ == stick_deltas(*prev, *curr),
{
    let mut out: Vec<ChangeEvent> = Vec::new();
    let ghost base = out@;
    push_axis(&mut out, Field::Lsx, prev.lsx, curr.lsx);
    proof {
        Seq::<ChangeEvent>::add_empty_left(base, axis_delta(Field::Lsx, prev.lsx, curr.lsx));
    }
    push_axis(&mut out, Field::Lsy, prev.lsy, curr.lsy);
    push_axis(&mut out, Field::Rsx, prev.rsx, curr.rsx);
    push_axis(&mut out, Field::Rsy, prev.rsy, curr.rsy);
    out
}

/// Compares two snapshots and returns one event per differing field, in
/// canonical field order. Two equal snapshots yield an empty sequence.
pub fn diff(prev: &DS4State, curr: &DS4State) -> (r: Vec<ChangeEvent>)
    ensures
        r@ == diff_spec(*prev, *curr),
{
    proof {
        reveal(diff_spec);
    }
    let mut out = direction_changes(prev, curr);
    let mut group = face_changes(prev, curr);
    out.append(&mut group);
    let mut group = shoulder_changes(prev, curr);
    out.append(&mut group);
    let mut group = system_changes(prev, curr);
    out.append(&mut group);
    let mut group = stick_changes(prev, curr);
    out.append(&mut group);
    out
}

/// Diffing any snapshot against itself yields no events.
pub proof fn lemma_diff_identical(s: DS4State)
    ensures
        diff_spec(s, s) == Seq::<ChangeEvent>::empty(),
{
    reveal(diff_spec);
    assert(diff_spec(s, s) =~= Seq::<ChangeEvent>::empty());
}

/// When two snapshots differ in exactly the `lsx` field, the diff is exactly
/// one event naming that field, carrying the prior and the next sample.
pub proof fn lemma_diff_single_lsx(p: DS4State, c: DS4State)
    requires
        p.lsx != c.lsx,
        c == (DS4State { lsx: c.lsx, ..p }),
    ensures
        diff_spec(p, c) == seq![
            ChangeEvent {
                field: Field::Lsx,
                prior: FieldValue::Axis(p.lsx),
                next: FieldValue::Axis(c.lsx),
            },
        ],
{
    reveal(diff_spec);
    assert(diff_spec(p, c) =~= seq![
        ChangeEvent {
            field: Field::Lsx,
            prior: FieldValue::Axis(p.lsx),
            next: FieldValue::Axis(c.lsx),
        },
    ]);
}

} // verus!
