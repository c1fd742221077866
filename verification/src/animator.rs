//! The typewriter animator: its data, control operations, and the per-frame
//! advance step, each proved against the model in [`crate::model`].

use vstd::prelude::*;
use crate::model::{
    AnimatorModel, StateModel, REVEAL_SCALE, blank_display, duration_micros, pause_model,
    play_model, play_with_wait_model, resume_model, spec_step, step_playing, stop_model,
    with_speed_model, with_state_model,
};
use crate::text::{append_repeated, code_point_len, code_point_prefix, repeat_seq};

verus! {

/// The animation state, as held by an animator. Countdowns are in microseconds.
#[derive(Clone, Copy, Debug, PartialEq, Eq, Structural)]
pub enum TextAnimationState {
    /// Waiting the given microseconds before playing.
    Waiting(u64),
    Stopped,
    Paused,
    Playing,
}

impl View for TextAnimationState {
    type V = StateModel;

    open spec fn view(&self) -> StateModel {
        match self {
            TextAnimationState::Waiting(w) => StateModel::Waiting(*w as nat),
            TextAnimationState::Stopped => StateModel::Stopped,
            TextAnimationState::Paused => StateModel::Paused,
            TextAnimationState::Playing => StateModel::Playing,
        }
    }
}

impl Default for TextAnimationState {
    fn default() -> (st: Self)
        ensures
            st@ is Playing,
    {
        TextAnimationState::Playing
    }
}

/// Animates text by revealing one code point after another, like a typewriter.
///
/// Speed is in thousandths of a code point per second; all times are in
/// microseconds. Drive it by calling [`TextSimpleAnimator::advance`] once per
/// frame.
pub struct TextSimpleAnimator {
    pub text: String,
    /// Thousandths of a code point revealed per second.
    pub speed: u32,
    pub state: TextAnimationState,
    /// Microseconds between the full reveal and the completion notification.
    pub micros_wait_until_finish: u64,
    /// Pad the displayed text with `fill_spaces_char` to the full text's width.
    pub fill_spaces: bool,
    pub fill_spaces_char: String,
    elapsed_micros: u128,
    end_timer_micros: Option<u64>,
}

impl View for TextSimpleAnimator {
    type V = AnimatorModel;

    closed spec fn view(&self) -> AnimatorModel {
        AnimatorModel {
            text: self.text@,
            speed: self.speed as nat,
            state: self.state@,
            wait_until_finish: self.micros_wait_until_finish as nat,
            fill_spaces: self.fill_spaces,
            fill_char: self.fill_spaces_char@,
            elapsed: self.elapsed_micros as nat,
            end_timer: match self.end_timer_micros {
                Some(r) => Some(r as nat),
                None => None,
            },
        }
    }
}

/// What one advance step asks of the host: the string to write to the display
/// (`None` leaves the display as it is), and whether the completion
/// notification fires on this step.
pub struct AdvanceOutput {
    pub display: Option<String>,
    pub finished: bool,
}

impl TextSimpleAnimator {
    /// Validity of the animator's timing state; every operation here preserves it.
    pub open spec fn wf(&self) -> bool {
        self@.wf()
    }

    /// A fresh animator for `text`, playing from the start at `speed`
    /// thousandths of a code point per second, with no finish delay and no
    /// padding.
    pub fn new(text: &str, speed: u32) -> (a: TextSimpleAnimator)
        ensures
            a@ == (AnimatorModel {
                text: text@,
                speed: speed as nat,
                state: StateModel::Playing,
                wait_until_finish: 0,
                fill_spaces: false,
                fill_char: " "@,
                elapsed: 0,
                end_timer: None,
            }),
            a.wf(),
    {
        TextSimpleAnimator {
            text: text.to_owned(),
            speed,
            state: TextAnimationState::Playing,
            micros_wait_until_finish: 0,
            fill_spaces: false,
            fill_spaces_char: " ".to_owned(),
            elapsed_micros: 0,
            end_timer_micros: None,
        }
    }

    /// The code-point length of the target text: the displayed width the fill
    /// policy maintains.
    pub fn max_text_length(&self) -> (n: usize)
        ensures
            n == self@.text.len(),
    {
        code_point_len(self.text.as_str())
    }

    /// How many microseconds of play the full reveal takes: the code-point
    /// length divided by the speed, rounded up to whole microseconds.
    pub fn duration(&self) -> (d: u128)
        requires
            self@.speed > 0,
        ensures
            d == duration_micros(self@.text.len(), self@.speed),
    {
        let len = code_point_len(self.text.as_str());
        proof {
            assert((len as int) * (REVEAL_SCALE as int) <= (u64::MAX as int) * (
            REVEAL_SCALE as int)) by (nonlinear_arith)
                requires
                    len <= u64::MAX,
            ;
        }
        let num: u128 = (len as u128) * (REVEAL_SCALE as u128) + (self.speed as u128 - 1);
        num / (self.speed as u128)
    }

    pub fn with_state(self, state: TextAnimationState) -> (a: Self)
        ensures
            a@ == with_state_model(self@, state@),
            self.wf() ==> a.wf(),
    {
        let keep_end = match state {
            TextAnimationState::Stopped => true,
            _ => false,
        };
        TextSimpleAnimator {
            state,
            end_timer_micros: if keep_end {
                self.end_timer_micros
            } else {
                None
            },
            ..self
        }
    }

    /// Changes the speed; any reveal progress is discarded against the new speed.
    pub fn with_speed(self, speed: u32) -> (a: Self)
        ensures
            a@ == with_speed_model(self@, speed as nat),
            self.wf() ==> a.wf(),
    {
        TextSimpleAnimator { speed, elapsed_micros: 0, ..self }
    }

    pub fn with_fill_spaces(self, fill: bool) -> (a: Self)
        ensures
            a@ == (AnimatorModel { fill_spaces: fill, ..self@ }),
            self.wf() ==> a.wf(),
    {
        TextSimpleAnimator { fill_spaces: fill, ..self }
    }

    pub fn with_fill_spaces_char(self, fill_char: &str) -> (a: Self)
        ensures
            a@ == (AnimatorModel { fill_char: fill_char@, ..self@ }),
            self.wf() ==> a.wf(),
    {
        TextSimpleAnimator { fill_spaces_char: fill_char.to_owned(), ..self }
    }

    /// Sets the delay, in microseconds, between the full reveal and the
    /// completion notification.
    pub fn with_wait_until_finish(self, micros: u64) -> (a: Self)
        ensures
            a@ == (AnimatorModel { wait_until_finish: micros as nat, ..self@ }),
            self.wf() ==> a.wf(),
    {
        TextSimpleAnimator { micros_wait_until_finish: micros, ..self }
    }

    /// Starts in `Waiting` for the given microseconds before playing.
    pub fn with_wait_before(self, micros: u64) -> (a: Self)
        ensures
            a@ == with_state_model(self@, StateModel::Waiting(micros as nat)),
            self.wf() ==> a.wf(),
    {
        TextSimpleAnimator {
            state: TextAnimationState::Waiting(micros),
            end_timer_micros: None,
            ..self
        }
    }

    /// Restarts the reveal after a countdown of the given microseconds.
    pub fn play_with_wait_before(&mut self, micros: u64)
        ensures
            final(self)@ == play_with_wait_model(old(self)@, micros as nat),
            final(self).wf(),
    {
        self.state = TextAnimationState::Waiting(micros);
        self.elapsed_micros = 0;
        self.end_timer_micros = None;
    }

    /// Restarts the reveal from the beginning.
    pub fn play(&mut self)
        ensures
            final(self)@ == play_model(old(self)@),
            final(self).wf(),
    {
        self.state = TextAnimationState::Playing;
        self.elapsed_micros = 0;
        self.end_timer_micros = None;
    }

    /// Freezes all progress; `resume` continues where the reveal left off.
    pub fn pause(&mut self)
        ensures
            final(self)@ == pause_model(old(self)@),
            old(self).wf() ==> final(self).wf(),
    {
        self.state = TextAnimationState::Paused;
        self.end_timer_micros = None;
    }

    /// Continues a paused reveal from its preserved progress.
    pub fn resume(&mut self)
        ensures
            final(self)@ == resume_model(old(self)@),
            old(self).wf() ==> final(self).wf(),
    {
        self.state = TextAnimationState::Playing;
        self.end_timer_micros = None;
    }

    /// Same as [`TextSimpleAnimator::resume`].
    pub fn unpause(&mut self)
        ensures
            final(self)@ == resume_model(old(self)@),
            old(self).wf() ==> final(self).wf(),
    {
        self.resume();
    }

    /// Aborts the reveal: `Stopped`, timer reset, and no completion
    /// notification, now or later.
    pub fn stop(&mut self)
        ensures
            final(self)@ == stop_model(old(self)@),
            final(self).wf(),
    {
        self.state = TextAnimationState::Stopped;
        self.end_timer_micros = None;
        self.elapsed_micros = 0;
    }

    /// Decides [`TextSimpleAnimator::wf`] at run time, for unverified hosts:
    /// after writing to the public fields directly, a host can test validity
    /// before driving the animator again. Every operation here keeps a valid
    /// animator valid.
    pub fn is_valid(&self) -> (b: bool)
        ensures
            b == self.wf(),
    {
        let len = code_point_len(self.text.as_str());
        let elapsed_ok: bool = if self.elapsed_micros == 0 {
            true
        } else if self.speed == 0 {
            false
        } else {
            proof {
                assert((len as int) * (REVEAL_SCALE as int) <= (u64::MAX as int) * (
                REVEAL_SCALE as int)) by (nonlinear_arith)
                    requires
                        len <= u64::MAX,
                ;
            }
            match self.elapsed_micros.checked_mul(self.speed as u128) {
                Some(p) => p <= (len as u128) * (REVEAL_SCALE as u128),
                None => false,
            }
        };
        let end_ok: bool = match self.end_timer_micros {
            None => true,
            Some(r) => r > 0 && (match self.state {
                TextAnimationState::Stopped => true,
                _ => false,
            }),
        };
        elapsed_ok && end_ok
    }

    /// The string a waiting animator forces onto a non-blank display: empty,
    /// or the full text's width of padding when filling is on.
    fn blank_display_string(&self) -> (r: String)
        ensures
            r@ == blank_display(self@),
    {
        if self.fill_spaces {
            let len = code_point_len(self.text.as_str());
            let mut r = String::new();
            append_repeated(&mut r, self.fill_spaces_char.as_str(), len);
            proof {
                assert(r@ =~= repeat_seq(self@.fill_char, self@.text.len()));
            }
            r
        } else {
            String::new()
        }
    }

    /// One step of a playing animator; the `Playing` arm of the advance step.
    fn advance_playing(&mut self, delta_micros: u64) -> (out: AdvanceOutput)
        requires
            old(self).wf(),
            old(self)@.state is Playing,
        ensures
            final(self)@ == step_playing(old(self)@, delta_micros as nat).post,
            final(self).wf(),
            out.finished == step_playing(old(self)@, delta_micros as nat).finished,
            (match out.display {
                Some(s) => step_playing(old(self)@, delta_micros as nat).display == Some(s@),
                None => step_playing(old(self)@, delta_micros as nat).display is None,
            }),
    {
        let len = code_point_len(self.text.as_str());
        proof {
            if self@.elapsed != 0 {
                // the well-formedness bound on elapsed * speed bounds elapsed itself
                assert(self@.elapsed <= self@.text.len() * (REVEAL_SCALE as nat))
                    by (nonlinear_arith)
                    requires
                        self@.speed >= 1,
                        self@.elapsed * self@.speed <= self@.text.len() * (REVEAL_SCALE as nat),
                ;
            }
            assert((len as int) * (REVEAL_SCALE as int) <= (u64::MAX as int) * (
            REVEAL_SCALE as int)) by (nonlinear_arith)
                requires
                    len <= u64::MAX,
            ;
        }
        let e: u128 = self.elapsed_micros + (delta_micros as u128);
        let target: u128 = (len as u128) * (REVEAL_SCALE as u128);
        let finished: bool = if self.speed > 0 {
            proof {
                assert((e as int) * (self@.speed as int) <= ((u64::MAX as int) * (
                REVEAL_SCALE as int) + (u64::MAX as int)) * (u32::MAX as int))
                    by (nonlinear_arith)
                    requires
                        0 <= e as int <= (u64::MAX as int) * (REVEAL_SCALE as int) + (
                        u64::MAX as int),
                        0 <= self@.speed <= u32::MAX,
                ;
            }
            e * (self.speed as u128) >= target
        } else {
            false
        };
        if finished {
            self.elapsed_micros = 0;
            self.state = TextAnimationState::Stopped;
            let display = Some(self.text.clone());
            if self.micros_wait_until_finish > 0 {
                self.end_timer_micros = Some(self.micros_wait_until_finish);
                AdvanceOutput { display, finished: false }
            } else {
                self.end_timer_micros = None;
                AdvanceOutput { display, finished: true }
            }
        } else {
            let visible: usize;
            if self.speed == 0 {
                visible = 0;
            } else {
                self.elapsed_micros = e;
                let v: u128 = e * (self.speed as u128) / (REVEAL_SCALE as u128);
                proof {
                    assert((e as int) * (self@.speed as int) / (REVEAL_SCALE as int) < len as int)
                        by (nonlinear_arith)
                        requires
                            (e as int) * (self@.speed as int) < (len as int) * (
                            REVEAL_SCALE as int),
                            0 <= (e as int) * (self@.speed as int),
                            REVEAL_SCALE > 0,
                    ;
                }
                visible = v as usize;
            }
            let prefix = code_point_prefix(self.text.as_str(), visible);
            let out_str: String = if self.fill_spaces {
                let mut d = prefix;
                append_repeated(&mut d, self.fill_spaces_char.as_str(), len - visible);
                d
            } else {
                prefix
            };
            AdvanceOutput { display: Some(out_str), finished: false }
        }
    }

    /// One frame of animation: advances the animator by `delta_micros`
    /// microseconds, which may be zero or arbitrarily large.
    ///
    /// `display_is_empty` reports whether the host's display currently holds
    /// the empty string; a waiting animator forces a non-blank display back to
    /// blank. The output says what to write to the display (`None`: leave it)
    /// and whether the completion notification fires on this frame; an
    /// explicit [`TextSimpleAnimator::stop`] never leads to one.
    pub fn advance(&mut self, delta_micros: u64, display_is_empty: bool) -> (out: AdvanceOutput)
        requires
            old(self).wf(),
        ensures
            final(self)@ == spec_step(old(self)@, delta_micros as nat, display_is_empty).post,
            final(self).wf(),
            out.finished == spec_step(old(self)@, delta_micros as nat, display_is_empty).finished,
            (match out.display {
                Some(s) => spec_step(old(self)@, delta_micros as nat, display_is_empty).display
                    == Some(s@),
                None => spec_step(old(self)@, delta_micros as nat, display_is_empty).display
                    is None,
            }),
    {
        match self.state {
            TextAnimationState::Playing => self.advance_playing(delta_micros),
            TextAnimationState::Waiting(w) => {
                if delta_micros >= w {
                    self.state = TextAnimationState::Playing;
                    self.advance_playing(delta_micros - w)
                } else {
                    self.state = TextAnimationState::Waiting(w - delta_micros);
                    let display = if display_is_empty {
                        None
                    } else {
                        Some(self.blank_display_string())
                    };
                    AdvanceOutput { display, finished: false }
                }
            },
            TextAnimationState::Paused => AdvanceOutput { display: None, finished: false },
            TextAnimationState::Stopped => {
                match self.end_timer_micros {
                    None => AdvanceOutput { display: None, finished: false },
                    Some(r) => {
                        if delta_micros >= r {
                            self.end_timer_micros = None;
                            AdvanceOutput { display: None, finished: true }
                        } else {
                            self.end_timer_micros = Some(r - delta_micros);
                            AdvanceOutput { display: None, finished: false }
                        }
                    },
                }
            },
        }
    }

    pub fn is_playing(&self) -> (r: bool)
        ensures
            r == (self@.state is Playing),
    {
        match self.state {
            TextAnimationState::Playing => true,
            _ => false,
        }
    }

    pub fn is_paused(&self) -> (r: bool)
        ensures
            r == (self@.state is Paused),
    {
        match self.state {
            TextAnimationState::Paused => true,
            _ => false,
        }
    }

    pub fn is_stopped(&self) -> (r: bool)
        ensures
            r == (self@.state is Stopped),
    {
        match self.state {
            TextAnimationState::Stopped => true,
            _ => false,
        }
    }

    pub fn is_waiting(&self) -> (r: bool)
        ensures
            r == (self@.state is Waiting),
    {
        match self.state {
            TextAnimationState::Waiting(_) => true,
            _ => false,
        }
    }
}

impl Default for TextSimpleAnimator {
    /// An empty text revealed at three code points per second.
    fn default() -> (a: Self)
        ensures
            a@ == (AnimatorModel {
                text: ""@,
                speed: 3000,
                state: StateModel::Playing,
                wait_until_finish: 0,
                fill_spaces: false,
                fill_char: " "@,
                elapsed: 0,
                end_timer: None,
            }),
            a.wf(),
    {
        TextSimpleAnimator::new("", 3000)
    }
}

} // verus!
