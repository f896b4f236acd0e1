//! The per-frame pipeline: decode a raw report against the retained
//! previous snapshot, diff, shape and emit. The caller owns the retained
//! snapshot: it starts from `DS4State::initial_state()`, passes it in with
//! every report, and replaces it with the returned snapshot only once the
//! frame's actions have all been delivered to the sink, so a failed
//! delivery never silently advances the baseline. A rejected report leaves
//! the retained snapshot untouched.

use vstd::prelude::*;
use crate::emit::Action;
use crate::emit::EmitConfig;
use crate::emit::frame_actions;
use crate::emit::frame_actions_spec;
use crate::hid::DS4State;
use crate::hid::DecodeError;
use crate::hid::decode;
use crate::hid::decoded;

verus! {

/// Processes one raw report: decodes it, diffs it against the retained
/// snapshot, and returns the new snapshot together with the frame's ordered
/// action batch. A buffer of any length other than 64 is rejected with its
/// offending length and produces no actions.
pub fn process_report(prev: &DS4State, buf: &[u8], cfg: &EmitConfig) -> (r: Result<
    (DS4State, Vec<Action>),
    DecodeError,
>)
    ensures
        buf@.len() == 64 <==> r is Ok,
        r is Ok ==> r->Ok_0.0 == decoded(buf@),
        r is Ok ==> r->Ok_0.1@ == frame_actions_spec(*prev, decoded(buf@), *cfg),
        r is Err ==> r->Err_0 == (DecodeError::WrongLength { actual: buf@.len() as usize }),
{
    let curr = match decode(buf) {
        Ok(s) => s,
        Err(e) => {
            return Err(e);
        },
    };
    let acts = frame_actions(prev, &curr, cfg);
    Ok((curr, acts))
}

} // verus!
