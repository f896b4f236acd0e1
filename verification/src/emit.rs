//! Frame emission: consumes the change events of one frame and produces the
//! ordered batch of sink actions for it. Digital flags become button
//! actions through a fixed 1:1 field-to-capability mapping; a directional
//! pair becomes a single signed tri-state hat action, issued once per frame
//! when either member changes; analog changes pass a per-axis deadzone
//! filter and response curve. Every frame's batch ends with exactly one
//! commit action, which asks the sink to apply the batch atomically.

use vstd::prelude::*;
use crate::curve::Curve;
use crate::curve::shape;
use crate::curve::shape_spec;
use crate::curve::lemma_shape_endpoints;
use crate::diff::ChangeEvent;
use crate::diff::Field;
use crate::diff::FieldValue;
use crate::diff::diff;
use crate::diff::diff_spec;
use crate::diff::lemma_diff_identical;
use crate::diff::lemma_diff_single_lsx;
use crate::hid::DS4State;

verus! {

/// The analog sticks report over the full 8-bit range.
pub const ANALOG_MAX: u8 = 255;

/// The fixed enumeration of digital button capabilities of the sink.
#[derive(Debug, Clone, Copy, PartialEq, Eq, Structural)]
pub enum ButtonKey {
    West,
    South,
    East,
    North,
    Tl,
    Tl2,
    Tr,
    Tr2,
    Mode,
    Touch,
    Start,
    Select,
}

/// The two axes of the directional hat.
#[derive(Debug, Clone, Copy, PartialEq, Eq, Structural)]
pub enum HatAxis {
    X,
    Y,
}

/// The four absolute stick axes of the sink.
#[derive(Debug, Clone, Copy, PartialEq, Eq, Structural)]
pub enum StickAxis {
    LeftX,
    LeftY,
    RightX,
    RightY,
}

/// One action against the sink's capability model: a digital button state, a
/// signed tri-state hat position, an absolute stick sample, or the commit
/// marker that closes a frame's batch.
#[derive(Debug, Clone, Copy, PartialEq, Eq, Structural)]
pub enum Action {
    Button { key: ButtonKey, pressed: bool },
    Hat { axis: HatAxis, value: i8 },
    Stick { axis: StickAxis, value: u8 },
    Commit,
}

/// Deadzone policy of one axis: a sample whose distance from `center` is at
/// most `threshold` is treated as noise and replaced by the `rest` output;
/// any other sample passes through the axis's response curve.
#[derive(Debug, Clone, Copy)]
pub struct Deadzone {
    pub center: u8,
    pub threshold: u8,
    pub rest: u8,
}

/// Per-axis presentation policy: the response curve, and an optional
/// deadzone applied before it.
#[derive(Debug, Clone, Copy)]
pub struct AxisConfig {
    pub curve: Curve,
    pub deadzone: Option<Deadzone>,
}

/// The presentation policy of all four stick axes.
#[derive(Debug, Clone, Copy)]
pub struct EmitConfig {
    pub lsx: AxisConfig,
    pub lsy: AxisConfig,
    pub rsx: AxisConfig,
    pub rsy: AxisConfig,
}

/// The signed tri-state value of one directional pair: the negative member
/// wins, then the positive member, else center.
pub open spec fn hat_value(neg: bool, pos: bool) -> i8 {
    if neg {
        -1i8
    } else if pos {
        1i8
    } else {
        0i8
    }
}

/// The emitted output for one axis sample: the deadzone replaces a sample
/// near the configured center by the configured rest output, anything else
/// is shaped by the axis's response curve over the 8-bit range.
pub open spec fn axis_output_spec(a: AxisConfig, raw: u8) -> int {
    match a.deadzone {
        Option::Some(dz) => {
            let dist = if raw >= dz.center {
                raw - dz.center
            } else {
                dz.center - raw
            };
            if dist <= dz.threshold {
                dz.rest as int
            } else {
                shape_spec(a.curve, raw as int, ANALOG_MAX as int)
            }
        },
        Option::None => shape_spec(a.curve, raw as int, ANALOG_MAX as int),
    }
}

/// Applies one axis's deadzone filter and response curve to a raw sample.
pub fn axis_output(a: &AxisConfig, raw: u8) -> (r: u8)
    ensures
        r as int == axis_output_spec(*a, raw),
{
    match a.deadzone {
        Option::Some(dz) => {
            let dist: u8 = if raw >= dz.center {
                raw - dz.center
            } else {
                dz.center - raw
            };
            if dist <= dz.threshold {
                dz.rest
            } else {
                shape(a.curve, raw, ANALOG_MAX)
            }
        },
        Option::None => shape(a.curve, raw, ANALOG_MAX),
    }
}

/// The stick action emitted for one axis sample.
pub open spec fn stick_action(axis: StickAxis, a: AxisConfig, raw: u8) -> Action {
    Action::Stick { axis: axis, value: axis_output_spec(a, raw) as u8 }
}

/// The step taken for a change of either vertical directional flag: one hat
/// action recomputed from the pair's current flags, at most once per frame.
pub open spec fn hat_y_step(c: DS4State, hx: bool, hy: bool) -> (Seq<Action>, bool, bool) {
    if hy {
        (Seq::empty(), hx, hy)
    } else {
        (seq![Action::Hat { axis: HatAxis::Y, value: hat_value(c.up, c.down) }], hx, true)
    }
}

/// The step taken for a change of either horizontal directional flag.
pub open spec fn hat_x_step(c: DS4State, hx: bool, hy: bool) -> (Seq<Action>, bool, bool) {
    if hx {
        (Seq::empty(), hx, hy)
    } else {
        (seq![Action::Hat { axis: HatAxis::X, value: hat_value(c.left, c.right) }], true, hy)
    }
}

/// The actions and updated once-per-frame hat flags for one change event,
/// given the current snapshot and the axis configuration. Fields without a
/// sink capability (the stick clicks and the raw trigger magnitudes)
/// produce no action.
pub open spec fn event_step(f: Field, c: DS4State, cfg: EmitConfig, hx: bool, hy: bool) -> (
    Seq<Action>,
    bool,
    bool,
) {
    match f {
        Field::Up => hat_y_step(c, hx, hy),
        Field::Down => hat_y_step(c, hx, hy),
        Field::Left => hat_x_step(c, hx, hy),
        Field::Right => hat_x_step(c, hx, hy),
        Field::Square => (
            seq![Action::Button { key: ButtonKey::West, pressed: c.square }],
            hx,
            hy,
        ),
        Field::Cross => (seq![Action::Button { key: ButtonKey::South, pressed: c.cross }], hx, hy),
        Field::Circle => (seq![Action::Button { key: ButtonKey::East, pressed: c.circle }], hx, hy),
        Field::Triangle => (
            seq![Action::Button { key: ButtonKey::North, pressed: c.triangle }],
            hx,
            hy,
        ),
        Field::L1 => (seq![Action::Button { key: ButtonKey::Tl, pressed: c.l1 }], hx, hy),
        Field::L2 => (seq![Action::Button { key: ButtonKey::Tl2, pressed: c.l2 }], hx, hy),
        Field::R1 => (seq![Action::Button { key: ButtonKey::Tr, pressed: c.r1 }], hx, hy),
        Field::R2 => (seq![Action::Button { key: ButtonKey::Tr2, pressed: c.r2 }], hx, hy),
        Field::L3 => (Seq::empty(), hx, hy),
        Field::R3 => (Seq::empty(), hx, hy),
        Field::L2Analog => (Seq::empty(), hx, hy),
        Field::R2Analog => (Seq::empty(), hx, hy),
        Field::Ps => (seq![Action::Button { key: ButtonKey::Mode, pressed: c.ps }], hx, hy),
        Field::Touchpad => (
            seq![Action::Button { key: ButtonKey::Touch, pressed: c.touchpad }],
            hx,
            hy,
        ),
        Field::Start => (seq![Action::Button { key: ButtonKey::Start, pressed: c.start }], hx, hy),
        Field::Select => (
            seq![Action::Button { key: ButtonKey::Select, pressed: c.select }],
            hx,
            hy,
        ),
        Field::Lsx => (seq![stick_action(StickAxis::LeftX, cfg.lsx, c.lsx)], hx, hy),
        Field::Lsy => (seq![stick_action(StickAxis::LeftY, cfg.lsy, c.lsy)], hx, hy),
        Field::Rsx => (seq![stick_action(StickAxis::RightX, cfg.rsx, c.rsx)], hx, hy),
        Field::Rsy => (seq![stick_action(StickAxis::RightY, cfg.rsy, c.rsy)], hx, hy),
    }
}

/// The actions of a whole event sequence, processed in order, threading the
/// once-per-frame hat flags through the steps.
pub open spec fn process_events(evs: Seq<ChangeEvent>, c: DS4State, cfg: EmitConfig) -> (
    Seq<Action>,
    bool,
    bool,
)
    decreases evs.len(),
{
    if evs.len() == 0 {
        (Seq::empty(), false, false)
    } else {
        let prev = process_events(evs.drop_last(), c, cfg);
        let st = event_step(evs.last().field, c, cfg, prev.1, prev.2);
        (prev.0 + st.0, st.1, st.2)
    }
}

/// The full ordered action batch of one frame: the per-event actions in
/// event order, closed by exactly one commit marker.
pub open spec fn frame_actions_spec(p: DS4State, c: DS4State, cfg: EmitConfig) -> Seq<Action> {
    process_events(diff_spec(p, c), c, cfg).0.push(Action::Commit)
}

/// Appends one action.
fn push_one(acts: &mut Vec<Action>, a: Action)
    ensures
        final(acts)@ == old(acts)@ + seq![a],
{
    acts.push(a);
    assert(acts@ =~= old(acts)@ + seq![a]);
}

/// Performs the step of one change event: appends its actions and returns
/// the updated once-per-frame hat flags.
fn apply_event(f: Field, curr: &DS4State, cfg: &EmitConfig, hx: bool, hy: bool, acts: &mut Vec<
    Action,
>) -> (r: (bool, bool))
    ensures
        final(acts)@ == old(acts)@ + event_step(f, *curr, *cfg, hx, hy).0,
        r.0 == event_step(f, *curr, *cfg, hx, hy).1,
        r.1 == event_step(f, *curr, *cfg, hx, hy).2,
{
    match f {
        Field::Up | Field::Down => {
            if hy {
                assert(acts@ =~= old(acts)@ + Seq::<Action>::empty());
                (hx, hy)
            } else {
                let v: i8 = if curr.up {
                    -1
                } else if curr.down {
                    1
                } else {
                    0
                };
                push_one(acts, Action::Hat { axis: HatAxis::Y, value: v });
                (hx, true)
            }
        },
        Field::Left | Field::Right => {
            if hx {
                assert(acts@ =~= old(acts)@ + Seq::<Action>::empty());
                (hx, hy)
            } else {
                let v: i8 = if curr.left {
                    -1
                } else if curr.right {
                    1
                } else {
                    0
                };
                push_one(acts, Action::Hat { axis: HatAxis::X, value: v });
                (true, hy)
            }
        },
        Field::Square => {
            push_one(acts, Action::Button { key: ButtonKey::West, pressed: curr.square });
            (hx, hy)
        },
        Field::Cross => {
            push_one(acts, Action::Button { key: ButtonKey::South, pressed: curr.cross });
            (hx, hy)
        },
        Field::Circle => {
            push_one(acts, Action::Button { key: ButtonKey::East, pressed: curr.circle });
            (hx, hy)
        },
        Field::Triangle => {
            push_one(acts, Action::Button { key: ButtonKey::North, pressed: curr.triangle });
            (hx, hy)
        },
        Field::L1 => {
            push_one(acts, Action::Button { key: ButtonKey::Tl, pressed: curr.l1 });
            (hx, hy)
        },
        Field::L2 => {
            push_one(acts, Action::Button { key: ButtonKey::Tl2, pressed: curr.l2 });
            (hx, hy)
        },
        Field::R1 => {
            push_one(acts, Action::Button { key: ButtonKey::Tr, pressed: curr.r1 });
            (hx, hy)
        },
        Field::R2 => {
            push_one(acts, Action::Button { key: ButtonKey::Tr2, pressed: curr.r2 });
            (hx, hy)
        },
        Field::L3 | Field::R3 | Field::L2Analog | Field::R2Analog => {
            assert(acts@ =~= old(acts)@ + Seq::<Action>::empty());
            (hx, hy)
        },
        Field::Ps => {
            push_one(acts, Action::Button { key: ButtonKey::Mode, pressed: curr.ps });
            (hx, hy)
        },
        Field::Touchpad => {
            push_one(acts, Action::Button { key: ButtonKey::Touch, pressed: curr.touchpad });
            (hx, hy)
        },
        Field::Start => {
            push_one(acts, Action::Button { key: ButtonKey::Start, pressed: curr.start });
            (hx, hy)
        },
        Field::Select => {
            push_one(acts, Action::Button { key: ButtonKey::Select, pressed: curr.select });
            (hx, hy)
        },
        Field::Lsx => {
            let v: u8 = axis_output(&cfg.lsx, curr.lsx);
            push_one(acts, Action::Stick { axis: StickAxis::LeftX, value: v });
            (hx, hy)
        },
        Field::Lsy => {
            let v: u8 = axis_output(&cfg.lsy, curr.lsy);
            push_one(acts, Action::Stick { axis: StickAxis::LeftY, value: v });
            (hx, hy)
        },
        Field::Rsx => {
            let v: u8 = axis_output(&cfg.rsx, curr.rsx);
            push_one(acts, Action::Stick { axis: StickAxis::RightX, value: v });
            (hx, hy)
        },
        Field::Rsy => {
            let v: u8 = axis_output(&cfg.rsy, curr.rsy);
            push_one(acts, Action::Stick { axis: StickAxis::RightY, value: v });
            (hx, hy)
        },
    }
}

/// Turns the change events of one frame into their per-field actions, in
/// event order, without the closing commit marker.
pub fn emit_changes(changes: &Vec<ChangeEvent>, curr: &DS4State, cfg: &EmitConfig) -> (acts: Vec<
    Action,
>)
    ensures
        acts@ == process_events(changes@, *curr, *cfg).0,
{
    let mut acts: Vec<Action> = Vec::new();
    let mut hx: bool = false;
    let mut hy: bool = false;
    let mut i: usize = 0;
    while i < changes.len()
        invariant
            i <= changes@.len(),
            acts@ == process_events(changes@.take(i as int), *curr, *cfg).0,
            hx == process_events(changes@.take(i as int), *curr, *cfg).1,
            hy == process_events(changes@.take(i as int), *curr, *cfg).2,
        decreases changes@.len() - i,
    {
        let ev = changes[i];
        proof {
            assert(changes@.take(i as int + 1).drop_last() =~= changes@.take(i as int));
            assert(changes@.take(i as int + 1).last() == changes@[i as int]);
        }
        let st = apply_event(ev.field, curr, cfg, hx, hy, &mut acts);
        hx = st.0;
        hy = st.1;
        i = i + 1;
    }
    proof {
        assert(changes@.take(changes@.len() as int) =~= changes@);
    }
    acts
}

/// The actions of one frame, from the previous and the current snapshot:
/// the diff's per-field actions followed by exactly one commit marker. A
/// frame without changes still commits, so consumers see a heartbeat.
pub fn frame_actions(prev: &DS4State, curr: &DS4State, cfg: &EmitConfig) -> (acts: Vec<Action>)
    ensures
        acts@ == frame_actions_spec(*prev, *curr, *cfg),
{
    let changes = diff(prev, curr);
    let mut acts = emit_changes(&changes, curr, cfg);
    acts.push(Action::Commit);
    acts
}

/// The axis configuration this pipeline runs with: the table-driven curve
/// on the left stick, the identity curve on the right stick, and a wide
/// deadzone on the right stick's horizontal axis.
pub open spec fn default_config_spec() -> EmitConfig {
    EmitConfig {
        lsx: AxisConfig { curve: Curve::Custom, deadzone: Option::None },
        lsy: AxisConfig { curve: Curve::Custom, deadzone: Option::None },
        rsx: AxisConfig {
            curve: Curve::Linear,
            deadzone: Option::Some(Deadzone { center: 128, threshold: 100, rest: 127 }),
        },
        rsy: AxisConfig { curve: Curve::Linear, deadzone: Option::None },
    }
}

/// Builds the default axis configuration.
pub fn default_config() -> (cfg: EmitConfig)
    ensures
        cfg == default_config_spec(),
{
    EmitConfig {
        lsx: AxisConfig { curve: Curve::Custom, deadzone: Option::None },
        lsy: AxisConfig { curve: Curve::Custom, deadzone: Option::None },
        rsx: AxisConfig {
            curve: Curve::Linear,
            deadzone: Option::Some(Deadzone { center: 128, threshold: 100, rest: 127 }),
        },
        rsy: AxisConfig { curve: Curve::Linear, deadzone: Option::None },
    }
}

/// A frame whose snapshot equals the retained state produces no field
/// actions: only the commit marker is emitted.
pub proof fn lemma_unchanged_frame_commits_only(s: DS4State, cfg: EmitConfig)
    ensures
        frame_actions_spec(s, s, cfg) == seq![Action::Commit],
{
    lemma_diff_identical(s);
    assert(frame_actions_spec(s, s, cfg) =~= seq![Action::Commit]);
}

/// Processing a single-event sequence takes exactly that event's step from
/// the initial hat flags.
proof fn lemma_process_single(ev: ChangeEvent, c: DS4State, cfg: EmitConfig)
    ensures
        process_events(seq![ev], c, cfg).0 == event_step(ev.field, c, cfg, false, false).0,
{
    let evs = seq![ev];
    let step = event_step(ev.field, c, cfg, false, false);
    assert(process_events(evs, c, cfg).0 == Seq::<Action>::empty() + step.0) by {
        reveal_with_fuel(process_events, 2);
        assert(evs.drop_last() =~= Seq::<ChangeEvent>::empty());
        assert(evs.last() == ev);
    };
    Seq::<Action>::add_empty_left(Seq::empty(), step.0);
}

/// A frame in which exactly the `lsx` sample changed, on an axis without a
/// deadzone, emits exactly one stick action carrying the curve-shaped new
/// sample, followed by exactly one commit. When the new sample is the top
/// of the range, the emitted value is the top of the range for every curve
/// family.
pub proof fn lemma_single_lsx_frame(p: DS4State, c: DS4State, cfg: EmitConfig)
    requires
        p.lsx != c.lsx,
        c == (DS4State { lsx: c.lsx, ..p }),
        cfg.lsx.deadzone is None,
    ensures
        frame_actions_spec(p, c, cfg) == seq![
            Action::Stick {
                axis: StickAxis::LeftX,
                value: shape_spec(cfg.lsx.curve, c.lsx as int, 255) as u8,
            },
            Action::Commit,
        ],
        c.lsx == 255 ==> frame_actions_spec(p, c, cfg) == seq![
            Action::Stick { axis: StickAxis::LeftX, value: 255 },
            Action::Commit,
        ],
{
    lemma_diff_single_lsx(p, c);
    let ev = ChangeEvent {
        field: Field::Lsx,
        prior: FieldValue::Axis(p.lsx),
        next: FieldValue::Axis(c.lsx),
    };
    let evs = seq![ev];
    lemma_process_single(ev, c, cfg);
    let step = event_step(Field::Lsx, c, cfg, false, false);
    assert(step.0 == seq![stick_action(StickAxis::LeftX, cfg.lsx, c.lsx)]);
    assert(stick_action(StickAxis::LeftX, cfg.lsx, c.lsx) == (Action::Stick {
        axis: StickAxis::LeftX,
        value: shape_spec(cfg.lsx.curve, c.lsx as int, 255) as u8,
    }));
    assert(frame_actions_spec(p, c, cfg) == process_events(evs, c, cfg).0.push(Action::Commit));
    if c.lsx == 255 {
        lemma_shape_endpoints(cfg.lsx.curve, 255);
        assert(shape_spec(cfg.lsx.curve, 255, 255) == 255);
    }
}

/// No per-event step ever emits the commit marker: it is reserved for the
/// end of the frame.
proof fn lemma_process_no_commit(evs: Seq<ChangeEvent>, c: DS4State, cfg: EmitConfig)
    ensures
        forall|i: int|
            0 <= i < process_events(evs, c, cfg).0.len() ==> process_events(evs, c, cfg).0[i]
                != Action::Commit,
    decreases evs.len(),
{
    if evs.len() > 0 {
        lemma_process_no_commit(evs.drop_last(), c, cfg);
    }
}

/// Every frame's batch holds exactly one commit marker, and it stands at
/// the end, after all per-field actions.
pub proof fn lemma_frame_single_commit(p: DS4State, c: DS4State, cfg: EmitConfig)
    ensures
        frame_actions_spec(p, c, cfg).len() >= 1,
        frame_actions_spec(p, c, cfg).last() == Action::Commit,
        forall|i: int|
            0 <= i < frame_actions_spec(p, c, cfg).len() - 1 ==> frame_actions_spec(p, c, cfg)[i]
                != Action::Commit,
{
    lemma_process_no_commit(diff_spec(p, c), c, cfg);
}

} // verus!
