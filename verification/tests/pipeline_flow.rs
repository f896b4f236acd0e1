//! End-to-end pipeline scenarios: raw 64-byte reports in, decoded snapshots
//! and ordered action batches out, with the retained state advanced between
//! frames as the processing loop would.

use ds4linux::emit::Action;
use ds4linux::emit::HatAxis;
use ds4linux::emit::StickAxis;
use ds4linux::emit::default_config;
use ds4linux::hid::DS4State;
use ds4linux::hid::DecodeError;
use ds4linux::hid::decode;
use ds4linux::pipeline::process_report;

/// A neutral report: sticks at rest, directional pad on the reserved
/// "nothing pressed" code, no buttons.
fn neutral_report() -> [u8; 64] {
    let mut buf: [u8; 64] = [0; 64];
    buf[1] = 0x80;
    buf[2] = 0x80;
    buf[3] = 0x80;
    buf[4] = 0x80;
    buf[5] = 0x08;
    buf
}

#[test]
fn wrong_length_is_rejected_with_the_length() {
    let cfg = default_config();
    let prev = DS4State::initial_state();
    let short: [u8; 10] = [0; 10];
    assert_eq!(
        process_report(&prev, &short, &cfg),
        Err(DecodeError::WrongLength { actual: 10 })
    );
    let long: [u8; 65] = [0; 65];
    assert_eq!(
        process_report(&prev, &long, &cfg),
        Err(DecodeError::WrongLength { actual: 65 })
    );
}

#[test]
fn decode_accepts_exactly_64_bytes() {
    let buf = neutral_report();
    assert!(decode(&buf).is_ok());
    assert_eq!(decode(&buf[..32]), Err(DecodeError::WrongLength { actual: 32 }));
}

#[test]
fn two_frames_differing_in_lsx_emit_one_shaped_action() {
    let cfg = default_config();
    let mut first = neutral_report();
    first[1] = 0x00;
    let mut second = first;
    second[1] = 0xFF;

    let prev = DS4State::initial_state();
    let (state1, acts1) = process_report(&prev, &first, &cfg).unwrap();
    // The first frame moved the sticks off the initial zero samples.
    assert!(!acts1.is_empty());
    assert_eq!(*acts1.last().unwrap(), Action::Commit);

    let (state2, acts2) = process_report(&state1, &second, &cfg).unwrap();
    assert_eq!(state2.lsx, 0xFF);
    assert_eq!(acts2, vec![
        Action::Stick { axis: StickAxis::LeftX, value: 255 },
        Action::Commit,
    ]);
}

#[test]
fn identical_frame_emits_commit_only() {
    let cfg = default_config();
    let buf = neutral_report();
    let prev = DS4State::initial_state();
    let (state1, _) = process_report(&prev, &buf, &cfg).unwrap();
    let (state2, acts) = process_report(&state1, &buf, &cfg).unwrap();
    assert_eq!(state1, state2);
    assert_eq!(acts, vec![Action::Commit]);
}

#[test]
fn first_frame_diffs_against_the_initial_state() {
    let cfg = default_config();
    let mut buf = neutral_report();
    buf[1] = 0x00;
    buf[2] = 0x00;
    buf[3] = 0x00;
    buf[4] = 0x00;
    buf[5] = 0x00;
    // Low nibble 0 encodes Up; every analog sample equals the initial zero.
    let prev = DS4State::initial_state();
    let (state, acts) = process_report(&prev, &buf, &cfg).unwrap();
    assert!(state.up);
    assert_eq!(acts, vec![Action::Hat { axis: HatAxis::Y, value: -1 }, Action::Commit]);
}

#[test]
fn rejected_frame_keeps_the_baseline_for_the_next_one() {
    let cfg = default_config();
    let buf = neutral_report();
    let prev = DS4State::initial_state();
    let (state1, _) = process_report(&prev, &buf, &cfg).unwrap();
    // A wrong-length read leaves the loop's retained state untouched; the
    // next full report diffs against the same baseline.
    assert!(process_report(&state1, &buf[..63], &cfg).is_err());
    let (_, acts) = process_report(&state1, &buf, &cfg).unwrap();
    assert_eq!(acts, vec![Action::Commit]);
}
