//! Laws of the animator, stated and proved over the model in [`crate::model`].
//!
//! Each exec operation's contract ties it to a model function; these lemmas
//! say what the model functions guarantee across whole frames and runs.

use vstd::prelude::*;
use crate::model::{
    AnimatorModel, StateModel, REVEAL_SCALE, blank_display, duration_micros, pause_model,
    play_model, resume_model, reveal_complete, revealed_count, spec_step, step_playing,
    stop_model,
};
use crate::text::lemma_repeat_seq_len;

verus! {

/// The reveal duration is the exact completion threshold: after `duration`
/// microseconds the reveal of `len` code points at `speed` is complete, and
/// after any shorter time it is not.
pub proof fn lemma_duration_is_threshold(len: nat, speed: nat)
    requires
        speed > 0,
    ensures
        reveal_complete(duration_micros(len, speed), speed, len),
        forall|t: nat| t < duration_micros(len, speed) ==> !reveal_complete(t, speed, len),
{
    let l = (len * REVEAL_SCALE) as int;
    let s = speed as int;
    let d = (l + s - 1) / s;
    assert(d * s >= l && (d - 1) * s < l) by (nonlinear_arith)
        requires
            s >= 1,
            l >= 0,
            d == (l + s - 1) / s,
    ;
    assert forall|t: nat| t < duration_micros(len, speed) implies !reveal_complete(
        t,
        speed,
        len,
    ) by {
        assert((t as int) * s <= (d - 1) * s) by (nonlinear_arith)
            requires
                t as int <= d - 1,
                s >= 0,
        ;
    }
}

/// Advancing a fresh playing animator by exactly its duration completes the
/// reveal in that step: the state becomes `Stopped` and the full text is
/// displayed.
pub proof fn lemma_advance_by_duration_completes(m: AnimatorModel, display_empty: bool)
    requires
        m.state is Playing,
        m.elapsed == 0,
        m.speed > 0,
    ensures
        ({
            let r = spec_step(m, duration_micros(m.text.len(), m.speed), display_empty);
            &&& r.post.state is Stopped
            &&& r.display == Some(m.text)
        }),
{
    lemma_duration_is_threshold(m.text.len(), m.speed);
}

/// `p` is what a code-point-safe reveal may show of `s`: its first `p.len()`
/// code points, whole.
pub open spec fn is_code_point_prefix(p: Seq<char>, s: Seq<char>) -> bool {
    p.len() <= s.len() && p == s.subrange(0, p.len() as int)
}

proof fn lemma_step_playing_prefix(m: AnimatorModel, delta: nat)
    requires
        !m.fill_spaces,
    ensures
        step_playing(m, delta).display matches Some(d) ==> is_code_point_prefix(d, m.text),
{
    if reveal_complete(m.elapsed + delta, m.speed, m.text.len()) {
        assert(m.text =~= m.text.subrange(0, m.text.len() as int));
    }
}

/// Without fill padding, whatever an advance step writes to the display is a
/// whole-code-point prefix of the target text: the reveal never splits a
/// multi-byte character.
pub proof fn lemma_display_never_splits_code_point(
    m: AnimatorModel,
    delta: nat,
    display_empty: bool,
)
    requires
        !m.fill_spaces,
    ensures
        spec_step(m, delta, display_empty).display matches Some(d) ==> is_code_point_prefix(
            d,
            m.text,
        ),
{
    match m.state {
        StateModel::Playing => lemma_step_playing_prefix(m, delta),
        StateModel::Waiting(w) => {
            if delta >= w {
                lemma_step_playing_prefix(
                    AnimatorModel { state: StateModel::Playing, ..m },
                    (delta - w) as nat,
                );
            } else {
                assert(Seq::<char>::empty() =~= m.text.subrange(0, 0));
            }
        },
        StateModel::Paused => {},
        StateModel::Stopped => {},
    }
}

/// Stopping an already-stopped-by-stop animator changes nothing: one `stop`
/// and two in a row end in the very same state.
pub proof fn lemma_stop_idempotent(m: AnimatorModel)
    ensures
        stop_model(stop_model(m)) == stop_model(m),
{
}

/// An explicit stop never leads to a completion notification: after `stop`,
/// an advance step by any delta fires nothing, writes nothing, and leaves the
/// animator as `stop` left it — so the same holds for every later step.
pub proof fn lemma_no_notification_after_stop(m: AnimatorModel, delta: nat, display_empty: bool)
    ensures
        ({
            let r = spec_step(stop_model(m), delta, display_empty);
            &&& !r.finished
            &&& r.display is None
            &&& r.post == stop_model(m)
        }),
{
}

/// Pausing freezes progress and resuming continues it: play for `d1`, pause
/// for `d2`, resume and play for `d3`, and the reveal has seen exactly
/// `d1 + d3` microseconds — the paused time leaves no trace.
pub proof fn lemma_pause_resume_preserves_progress(
    m: AnimatorModel,
    d1: nat,
    d2: nat,
    d3: nat,
    display_empty: bool,
)
    requires
        m.speed > 0,
        !reveal_complete(d1 + d3, m.speed, m.text.len()),
    ensures
        ({
            let a1 = spec_step(play_model(m), d1, display_empty).post;
            let a2 = spec_step(pause_model(a1), d2, display_empty).post;
            let a3 = spec_step(resume_model(a2), d3, display_empty).post;
            &&& a1.elapsed == d1
            &&& a2 == pause_model(a1)
            &&& a3.elapsed == d1 + d3
        }),
{
    assert(d1 * m.speed <= (d1 + d3) * m.speed) by (nonlinear_arith)
        requires
            d1 <= d1 + d3,
            m.speed >= 0,
    ;
}

/// A waiting countdown ticks down without revealing anything and forces a
/// non-blank display back to blank; when the countdown ends, the time left
/// over counts toward the reveal in that same step.
pub proof fn lemma_waiting_countdown(m: AnimatorModel, w: nat, delta: nat, display_empty: bool)
    requires
        m.state == StateModel::Waiting(w),
    ensures
        delta < w ==> ({
            let r = spec_step(m, delta, display_empty);
            &&& r.post == AnimatorModel { state: StateModel::Waiting((w - delta) as nat), ..m }
            &&& !r.finished
            &&& (display_empty ==> r.display is None)
            &&& (!display_empty ==> r.display == Some(blank_display(m)))
        }),
        delta >= w ==> spec_step(m, delta, display_empty) == step_playing(
            AnimatorModel { state: StateModel::Playing, ..m },
            (delta - w) as nat,
        ),
{
}

/// With a configured finish delay, completing the reveal does not notify at
/// once: the full text is displayed, the countdown starts at the configured
/// delay, and the notification fires exactly on the step that exhausts it.
pub proof fn lemma_deferred_completion(m: AnimatorModel, d1: nat, d2: nat, display_empty: bool)
    requires
        m.state is Playing,
        m.wait_until_finish > 0,
        reveal_complete(m.elapsed + d1, m.speed, m.text.len()),
    ensures
        ({
            let r1 = spec_step(m, d1, display_empty);
            let r2 = spec_step(r1.post, d2, display_empty);
            &&& !r1.finished
            &&& r1.display == Some(m.text)
            &&& r1.post.state is Stopped
            &&& r1.post.end_timer == Some(m.wait_until_finish)
            &&& (d2 >= m.wait_until_finish ==> r2.finished && r2.post.end_timer is None)
            &&& (d2 < m.wait_until_finish ==> !r2.finished && r2.post.end_timer == Some(
                (m.wait_until_finish - d2) as nat,
            ))
        }),
{
}

proof fn lemma_step_playing_fill_width(m: AnimatorModel, delta: nat)
    requires
        m.fill_spaces,
        m.fill_char.len() == 1,
    ensures
        step_playing(m, delta).display matches Some(d) ==> d.len() == m.text.len(),
{
    if !reveal_complete(m.elapsed + delta, m.speed, m.text.len()) {
        let e2: nat = if m.speed == 0 {
            m.elapsed
        } else {
            m.elapsed + delta
        };
        let visible = revealed_count(e2, m.speed, m.text.len());
        lemma_repeat_seq_len(m.fill_char, (m.text.len() - visible) as nat);
    }
}

/// The fill policy keeps the width constant: with filling on and a
/// one-code-point fill unit, every string an advance step writes to the
/// display has exactly the full text's code-point length.
pub proof fn lemma_fill_keeps_width(m: AnimatorModel, delta: nat, display_empty: bool)
    requires
        m.fill_spaces,
        m.fill_char.len() == 1,
    ensures
        spec_step(m, delta, display_empty).display matches Some(d) ==> d.len() == m.text.len(),
{
    match m.state {
        StateModel::Playing => lemma_step_playing_fill_width(m, delta),
        StateModel::Waiting(w) => {
            if delta >= w {
                lemma_step_playing_fill_width(
                    AnimatorModel { state: StateModel::Playing, ..m },
                    (delta - w) as nat,
                );
            } else {
                lemma_repeat_seq_len(m.fill_char, m.text.len());
            }
        },
        StateModel::Paused => {},
        StateModel::Stopped => {},
    }
}

} // verus!
