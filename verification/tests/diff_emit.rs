//! Diff and emission scenarios: empty diffs, single-field diffs, the
//! deadzone filter, hat-pair collapsing and the per-frame commit marker.

use ds4linux::diff::ChangeEvent;
use ds4linux::diff::Field;
use ds4linux::diff::FieldValue;
use ds4linux::diff::diff;
use ds4linux::emit::Action;
use ds4linux::emit::AxisConfig;
use ds4linux::emit::ButtonKey;
use ds4linux::emit::Deadzone;
use ds4linux::emit::HatAxis;
use ds4linux::emit::StickAxis;
use ds4linux::emit::axis_output;
use ds4linux::emit::default_config;
use ds4linux::emit::frame_actions;
use ds4linux::curve::Curve;
use ds4linux::hid::DS4State;

fn pressed_state() -> DS4State {
    let mut s = DS4State::initial_state();
    s.up = true;
    s.square = true;
    s.l1 = true;
    s.lsx = 0x40;
    s.rsy = 0xC0;
    s
}

#[test]
fn diff_of_identical_states_is_empty() {
    let s = pressed_state();
    assert_eq!(diff(&s, &s), vec![]);
    let z = DS4State::initial_state();
    assert_eq!(diff(&z, &z), vec![]);
}

#[test]
fn diff_of_single_lsx_change_names_lsx() {
    let a = pressed_state();
    let mut b = a;
    b.lsx = 0xFF;
    let events = diff(&a, &b);
    assert_eq!(events, vec![
        ChangeEvent {
            field: Field::Lsx,
            prior: FieldValue::Axis(0x40),
            next: FieldValue::Axis(0xFF),
        },
    ]);
}

#[test]
fn diff_lists_fields_in_canonical_order() {
    let a = DS4State::initial_state();
    let mut b = a;
    b.cross = true;
    b.down = true;
    b.rsx = 9;
    b.ps = true;
    let events = diff(&a, &b);
    let fields: Vec<Field> = events.iter().map(|e| e.field).collect();
    assert_eq!(fields, vec![Field::Down, Field::Cross, Field::Ps, Field::Rsx]);
}

#[test]
fn deadzone_clamps_near_center_and_passes_outside() {
    let cfg = default_config();
    // The right stick's horizontal axis carries the deadzone: center 128,
    // threshold 100, rest output 127.
    assert_eq!(axis_output(&cfg.rsx, 128), 127);
    assert_eq!(axis_output(&cfg.rsx, 28), 127);
    assert_eq!(axis_output(&cfg.rsx, 228), 127);
    assert_eq!(axis_output(&cfg.rsx, 27), 27);
    assert_eq!(axis_output(&cfg.rsx, 229), 229);
    assert_eq!(axis_output(&cfg.rsx, 0), 0);
    assert_eq!(axis_output(&cfg.rsx, 255), 255);
}

#[test]
fn axis_without_deadzone_shapes_every_sample() {
    let a = AxisConfig { curve: Curve::Custom, deadzone: None };
    assert_eq!(axis_output(&a, 0), 0);
    assert_eq!(axis_output(&a, 6), 7);
    assert_eq!(axis_output(&a, 128), 128);
    assert_eq!(axis_output(&a, 255), 255);
}

#[test]
fn deadzone_boundary_respects_configuration() {
    let a = AxisConfig {
        curve: Curve::Linear,
        deadzone: Some(Deadzone { center: 128, threshold: 10, rest: 127 }),
    };
    assert_eq!(axis_output(&a, 138), 127);
    assert_eq!(axis_output(&a, 139), 139);
    assert_eq!(axis_output(&a, 118), 127);
    assert_eq!(axis_output(&a, 117), 117);
}

#[test]
fn lsx_change_emits_shaped_stick_action_then_commit() {
    let cfg = default_config();
    let prev = DS4State::initial_state();
    let mut curr = prev;
    curr.lsx = 0xFF;
    let acts = frame_actions(&prev, &curr, &cfg);
    assert_eq!(acts, vec![
        Action::Stick { axis: StickAxis::LeftX, value: 255 },
        Action::Commit,
    ]);
}

#[test]
fn unchanged_frame_emits_commit_only() {
    let cfg = default_config();
    let s = pressed_state();
    assert_eq!(frame_actions(&s, &s, &cfg), vec![Action::Commit]);
}

#[test]
fn directional_pair_emits_one_hat_action() {
    let cfg = default_config();
    let prev = DS4State::initial_state();
    let mut curr = prev;
    curr.up = true;
    let acts = frame_actions(&prev, &curr, &cfg);
    assert_eq!(acts, vec![Action::Hat { axis: HatAxis::Y, value: -1 }, Action::Commit]);
}

#[test]
fn swapping_pair_members_still_emits_one_hat_action() {
    let cfg = default_config();
    let mut prev = DS4State::initial_state();
    prev.up = true;
    let mut curr = DS4State::initial_state();
    curr.down = true;
    // Both members of the vertical pair changed; exactly one hat action is
    // issued, recomputed from the current pair.
    let acts = frame_actions(&prev, &curr, &cfg);
    assert_eq!(acts, vec![Action::Hat { axis: HatAxis::Y, value: 1 }, Action::Commit]);
}

#[test]
fn released_pair_recenters_hat() {
    let cfg = default_config();
    let mut prev = DS4State::initial_state();
    prev.left = true;
    let curr = DS4State::initial_state();
    let acts = frame_actions(&prev, &curr, &cfg);
    assert_eq!(acts, vec![Action::Hat { axis: HatAxis::X, value: 0 }, Action::Commit]);
}

#[test]
fn button_changes_map_to_their_capabilities() {
    let cfg = default_config();
    let prev = DS4State::initial_state();
    let mut curr = prev;
    curr.square = true;
    curr.cross = true;
    curr.r2 = true;
    curr.touchpad = true;
    let acts = frame_actions(&prev, &curr, &cfg);
    assert_eq!(acts, vec![
        Action::Button { key: ButtonKey::West, pressed: true },
        Action::Button { key: ButtonKey::South, pressed: true },
        Action::Button { key: ButtonKey::Tr2, pressed: true },
        Action::Button { key: ButtonKey::Touch, pressed: true },
        Action::Commit,
    ]);
}

#[test]
fn stick_clicks_produce_no_action() {
    let cfg = default_config();
    let prev = DS4State::initial_state();
    let mut curr = prev;
    curr.l3 = true;
    curr.r3 = true;
    let acts = frame_actions(&prev, &curr, &cfg);
    assert_eq!(acts, vec![Action::Commit]);
}

#[test]
fn mixed_frame_keeps_canonical_action_order() {
    let cfg = default_config();
    let prev = DS4State::initial_state();
    let mut curr = prev;
    curr.up = true;
    curr.square = true;
    curr.lsx = 0x20;
    curr.rsx = 0xF0;
    let acts = frame_actions(&prev, &curr, &cfg);
    assert_eq!(acts, vec![
        Action::Hat { axis: HatAxis::Y, value: -1 },
        Action::Button { key: ButtonKey::West, pressed: true },
        Action::Stick { axis: StickAxis::LeftX, value: 46 },
        Action::Stick { axis: StickAxis::RightX, value: 0xF0 },
        Action::Commit,
    ]);
}
