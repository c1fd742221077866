//! The mathematical model of an animator and of one advance step.
//!
//! All timing is exact integer arithmetic: elapsed time and countdowns are in
//! microseconds, speed is in thousandths of a code point per second, so
//! `elapsed * speed` reaches one full code point at `REVEAL_SCALE`.

use vstd::prelude::*;
use crate::text::repeat_seq;

verus! {

/// Microseconds per second times speed units per code point per second:
/// `elapsed_micros * speed` counts whole revealed code points in units of this.
pub const REVEAL_SCALE: u64 = 1_000_000_000;

/// Model of an animation state: how an advance step treats the animator.
pub enum StateModel {
    /// Counting down the given microseconds before the reveal starts.
    Waiting(nat),
    /// Reveal finished or explicitly aborted; a completion notification may
    /// still be pending.
    Stopped,
    /// All progress frozen.
    Paused,
    /// Actively revealing.
    Playing,
}

/// Model of an animator: the target text as code points, the integer timing
/// state, and the padding configuration.
#[verifier::ext_equal]
pub struct AnimatorModel {
    /// The full target text.
    pub text: Seq<char>,
    /// Reveal speed, in thousandths of a code point per second.
    pub speed: nat,
    pub state: StateModel,
    /// Delay in microseconds between the full reveal and the completion
    /// notification; zero notifies at the moment of completion.
    pub wait_until_finish: nat,
    /// Whether displayed text is right-padded to the full text's width.
    pub fill_spaces: bool,
    /// The padding unit.
    pub fill_char: Seq<char>,
    /// Microseconds of unpaused reveal time in the current run.
    pub elapsed: nat,
    /// Microseconds left until the pending completion notification, if any.
    pub end_timer: Option<nat>,
}

impl AnimatorModel {
    /// Validity: the elapsed reveal time never passes the reveal's end (which
    /// also keeps all timing products within machine bounds), and a pending
    /// notification countdown exists only in the `Stopped` state.
    pub open spec fn wf(self) -> bool {
        &&& (self.elapsed == 0 || (self.speed > 0 && self.elapsed * self.speed
            <= self.text.len() * REVEAL_SCALE))
        &&& (self.end_timer matches Some(r) ==> self.state is Stopped && r > 0)
    }
}

/// Whether `elapsed` microseconds at `speed` reveal all `len` code points.
/// A speed of zero never completes.
pub open spec fn reveal_complete(elapsed: nat, speed: nat, len: nat) -> bool {
    speed > 0 && elapsed * speed >= len * REVEAL_SCALE
}

/// How many code points `elapsed` microseconds at `speed` reveal, at most `len`.
pub open spec fn revealed_count(elapsed: nat, speed: nat, len: nat) -> nat {
    vstd::math::min(len as int, (elapsed * speed) as int / (REVEAL_SCALE as int)) as nat
}

/// The least number of microseconds after which `len` code points at `speed`
/// are fully revealed: `len / speed` seconds, rounded up to whole microseconds.
pub open spec fn duration_micros(len: nat, speed: nat) -> nat
    recommends
        speed > 0,
{
    ((len * REVEAL_SCALE + speed - 1) / (speed as int)) as nat
}

/// What a playing animator displays after `elapsed` microseconds: the revealed
/// prefix, right-padded to the full width when filling is on.
pub open spec fn display_playing(m: AnimatorModel, elapsed: nat) -> Seq<char> {
    let visible = revealed_count(elapsed, m.speed, m.text.len());
    let prefix = m.text.subrange(0, visible as int);
    if m.fill_spaces {
        prefix + repeat_seq(m.fill_char, (m.text.len() - visible) as nat)
    } else {
        prefix
    }
}

/// What a waiting animator forces onto the display: nothing, or full-width
/// padding when filling is on.
pub open spec fn blank_display(m: AnimatorModel) -> Seq<char> {
    if m.fill_spaces {
        repeat_seq(m.fill_char, m.text.len())
    } else {
        Seq::empty()
    }
}

/// The outcome of one advance step: the animator afterwards, the string to
/// write to the display (`None` leaves the display untouched), and whether the
/// completion notification fires on this step.
#[verifier::ext_equal]
pub struct StepResult {
    pub post: AnimatorModel,
    pub display: Option<Seq<char>>,
    pub finished: bool,
}

/// One advance step of a playing animator by `delta` microseconds.
///
/// If the accumulated time completes the reveal, the full text is displayed,
/// the reveal timer resets, the state becomes `Stopped`, and the completion
/// either fires now (no configured delay) or starts its countdown. Otherwise
/// the elapsed time advances (a zero speed makes no progress and never
/// completes) and the partial reveal is displayed.
pub open spec fn step_playing(m: AnimatorModel, delta: nat) -> StepResult {
    let e = m.elapsed + delta;
    if reveal_complete(e, m.speed, m.text.len()) {
        StepResult {
            post: AnimatorModel {
                state: StateModel::Stopped,
                elapsed: 0,
                end_timer: if m.wait_until_finish > 0 {
                    Some(m.wait_until_finish)
                } else {
                    None
                },
                ..m
            },
            display: Some(m.text),
            finished: m.wait_until_finish == 0,
        }
    } else {
        let e2: nat = if m.speed == 0 {
            m.elapsed
        } else {
            e
        };
        StepResult {
            post: AnimatorModel { elapsed: e2, ..m },
            display: Some(display_playing(m, e2)),
            finished: false,
        }
    }
}

/// One advance step by `delta` microseconds. `display_empty` tells whether the
/// host's display currently holds the empty string.
///
/// `Waiting` counts down, forcing the display blank meanwhile; when the
/// countdown ends, the time left over counts toward the reveal in this same
/// step. `Paused` changes nothing. `Stopped` only counts down a pending
/// notification, firing it exactly when the countdown ends.
pub open spec fn spec_step(m: AnimatorModel, delta: nat, display_empty: bool) -> StepResult {
    match m.state {
        StateModel::Playing => step_playing(m, delta),
        StateModel::Waiting(w) => if delta >= w {
            step_playing(
                AnimatorModel { state: StateModel::Playing, ..m },
                (delta - w) as nat,
            )
        } else {
            StepResult {
                post: AnimatorModel { state: StateModel::Waiting((w - delta) as nat), ..m },
                display: if display_empty {
                    None
                } else {
                    Some(blank_display(m))
                },
                finished: false,
            }
        },
        StateModel::Paused => StepResult { post: m, display: None, finished: false },
        StateModel::Stopped => match m.end_timer {
            Option::None => StepResult { post: m, display: None, finished: false },
            Option::Some(r) => if delta >= r {
                StepResult {
                    post: AnimatorModel { end_timer: None, ..m },
                    display: None,
                    finished: true,
                }
            } else {
                StepResult {
                    post: AnimatorModel { end_timer: Some((r - delta) as nat), ..m },
                    display: None,
                    finished: false,
                }
            },
        },
    }
}

/// Restart from the beginning: `Playing` with the reveal timer reset and any
/// pending notification dropped.
pub open spec fn play_model(m: AnimatorModel) -> AnimatorModel {
    AnimatorModel { state: StateModel::Playing, elapsed: 0, end_timer: None, ..m }
}

/// Restart after a countdown of `w` microseconds.
pub open spec fn play_with_wait_model(m: AnimatorModel, w: nat) -> AnimatorModel {
    AnimatorModel { state: StateModel::Waiting(w), elapsed: 0, end_timer: None, ..m }
}

/// Freeze: progress is preserved, a pending notification is dropped.
pub open spec fn pause_model(m: AnimatorModel) -> AnimatorModel {
    AnimatorModel { state: StateModel::Paused, end_timer: None, ..m }
}

/// Continue from the preserved progress.
pub open spec fn resume_model(m: AnimatorModel) -> AnimatorModel {
    AnimatorModel { state: StateModel::Playing, end_timer: None, ..m }
}

/// Explicit abort: `Stopped`, reveal timer reset, no pending notification —
/// an aborted reveal never notifies.
pub open spec fn stop_model(m: AnimatorModel) -> AnimatorModel {
    AnimatorModel { state: StateModel::Stopped, elapsed: 0, end_timer: None, ..m }
}

/// Force the state; a pending notification survives only in `Stopped`,
/// keeping the animator valid.
pub open spec fn with_state_model(m: AnimatorModel, st: StateModel) -> AnimatorModel {
    AnimatorModel {
        state: st,
        end_timer: if st is Stopped {
            m.end_timer
        } else {
            None
        },
        ..m
    }
}

/// Change the speed; progress against the old speed is discarded.
pub open spec fn with_speed_model(m: AnimatorModel, speed: nat) -> AnimatorModel {
    AnimatorModel { speed: speed, elapsed: 0, ..m }
}

} // verus!
