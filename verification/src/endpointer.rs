//! The timing of an adaptive endpointer: how long speech has been heard, how
//! long silence has followed it, and when an utterance starts and ends. The
//! loudness comparisons that feed it are made by the caller; this module
//! counts milliseconds and decides.
use vstd::prelude::*;

verus! {

#[derive(Debug, Clone, Copy, PartialEq, Eq, Structural)]
pub enum EndpointerDecision {
    Continue,
    SpeechStarted,
    EndOfSpeech,
}

#[derive(Debug, Clone, PartialEq, Eq)]
pub enum EndpointerError {
    InvalidConfiguration(&'static str),
    InvalidObservation(&'static str),
}

impl EndpointerError {
    /// The text a user is shown for this error.
    pub fn message(&self) -> (message: &'static str)
        ensures
            message == (match *self {
                EndpointerError::InvalidConfiguration(m) => m,
                EndpointerError::InvalidObservation(m) => m,
            }),
    {
        match self {
            EndpointerError::InvalidConfiguration(m) => m,
            EndpointerError::InvalidObservation(m) => m,
        }
    }
}

/// Adds two millisecond counters, reporting overflow as an invalid observation.
pub fn checked_add_ms(current: u32, additional: u32, message: &'static str) -> (result: Result<
    u32,
    EndpointerError,
>)
    ensures
        match result {
            Ok(sum) => sum == current + additional,
            Err(e) => current + additional > u32::MAX && e == EndpointerError::InvalidObservation(
                message,
            ),
        },
{
    match current.checked_add(additional) {
        Some(sum) => Ok(sum),
        None => Err(EndpointerError::InvalidObservation(message)),
    }
}

/// Where an utterance stands: not yet started, being spoken, or over.
#[derive(Debug, Clone, Copy, PartialEq, Eq, Structural)]
pub enum EndpointerPhase {
    Waiting,
    Speech,
    Ended,
}

/// The order in which an utterance passes through its phases.
pub open spec fn phase_rank(phase: EndpointerPhase) -> int {
    match phase {
        EndpointerPhase::Waiting => 0,
        EndpointerPhase::Speech => 1,
        EndpointerPhase::Ended => 2,
    }
}

/// What one observation asks of the caller besides the decision: whether the
/// observed level belongs in the noise-floor estimate.
#[derive(Debug, Clone, Copy, PartialEq, Eq, Structural)]
pub struct EndpointerStep {
    pub decision: EndpointerDecision,
    pub update_noise_floor: bool,
}

/// The timing state of an endpointer, as numbers.
pub struct TimingView {
    pub minimum_speech_ms: nat,
    pub trailing_silence_limit_ms: nat,
    pub phase: EndpointerPhase,
    pub candidate_speech_ms: nat,
    pub trailing_silence_ms: nat,
}

/// The timing state of an endpointer: the two durations it was configured
/// with, its phase, and its two running counters.
#[derive(Debug, Clone, Copy, PartialEq, Eq)]
pub struct EndpointerTiming {
    minimum_speech_ms: u32,
    trailing_silence_limit_ms: u32,
    phase: EndpointerPhase,
    candidate_speech_ms: u32,
    trailing_silence_ms: u32,
}

impl View for EndpointerTiming {
    type V = TimingView;

    closed spec fn view(&self) -> TimingView {
        TimingView {
            minimum_speech_ms: self.minimum_speech_ms as nat,
            trailing_silence_limit_ms: self.trailing_silence_limit_ms as nat,
            phase: self.phase,
            candidate_speech_ms: self.candidate_speech_ms as nat,
            trailing_silence_ms: self.trailing_silence_ms as nat,
        }
    }
}

/// Both configured durations are positive and every counter fits a `u32`.
pub open spec fn timing_wf(v: TimingView) -> bool {
    &&& 0 < v.minimum_speech_ms <= u32::MAX
    &&& 0 < v.trailing_silence_limit_ms <= u32::MAX
    &&& v.candidate_speech_ms <= u32::MAX
    &&& v.trailing_silence_ms <= u32::MAX
}

/// A fresh endpointer: waiting, with nothing counted.
pub open spec fn initial_timing(minimum_speech_ms: nat, trailing_silence_limit_ms: nat) -> TimingView {
    TimingView {
        minimum_speech_ms,
        trailing_silence_limit_ms,
        phase: EndpointerPhase::Waiting,
        candidate_speech_ms: 0,
        trailing_silence_ms: 0,
    }
}

pub open spec fn step(decision: EndpointerDecision, update_noise_floor: bool) -> EndpointerStep {
    EndpointerStep { decision, update_noise_floor }
}

/// One observation lasting `duration_ms`. `reaches_start` says whether its
/// level reaches the start threshold, `reaches_continue` whether it reaches
/// the continue threshold. While waiting, loud observations accumulate until
/// the minimum speech duration and a quiet one starts the count over (and
/// feeds the noise floor); during speech, quiet observations accumulate until
/// the trailing-silence limit and a loud one starts that count over. Once the
/// utterance is over every observation reports its end. An observation of no
/// duration, and a counter that would overflow, are refused with no change.
pub open spec fn spec_observe(
    v: TimingView,
    reaches_start: bool,
    reaches_continue: bool,
    duration_ms: nat,
) -> Result<(TimingView, EndpointerStep), EndpointerError> {
    if duration_ms == 0 {
        Err(EndpointerError::InvalidObservation("endpointer observation is invalid"))
    } else {
        match v.phase {
            EndpointerPhase::Ended => Ok((v, step(EndpointerDecision::EndOfSpeech, false))),
            EndpointerPhase::Waiting => if reaches_start {
                let candidate = v.candidate_speech_ms + duration_ms;
                if candidate > u32::MAX {
                    Err(EndpointerError::InvalidObservation("candidate speech duration overflowed"))
                } else if candidate >= v.minimum_speech_ms {
                    Ok(
                        (
                            TimingView {
                                phase: EndpointerPhase::Speech,
                                candidate_speech_ms: candidate,
                                trailing_silence_ms: 0,
                                ..v
                            },
                            step(EndpointerDecision::SpeechStarted, false),
                        ),
                    )
                } else {
                    Ok(
                        (
                            TimingView { candidate_speech_ms: candidate, ..v },
                            step(EndpointerDecision::Continue, false),
                        ),
                    )
                }
            } else {
                Ok(
                    (
                        TimingView { candidate_speech_ms: 0, ..v },
                        step(EndpointerDecision::Continue, true),
                    ),
                )
            },
            EndpointerPhase::Speech => if reaches_continue {
                Ok(
                    (
                        TimingView { trailing_silence_ms: 0, ..v },
                        step(EndpointerDecision::Continue, false),
                    ),
                )
            } else {
                let silence = v.trailing_silence_ms + duration_ms;
                if silence > u32::MAX {
                    Err(EndpointerError::InvalidObservation("trailing silence duration overflowed"))
                } else if silence >= v.trailing_silence_limit_ms {
                    Ok(
                        (
                            TimingView {
                                phase: EndpointerPhase::Ended,
                                trailing_silence_ms: silence,
                                ..v
                            },
                            step(EndpointerDecision::EndOfSpeech, false),
                        ),
                    )
                } else {
                    Ok(
                        (
                            TimingView { trailing_silence_ms: silence, ..v },
                            step(EndpointerDecision::Continue, false),
                        ),
                    )
                }
            },
        }
    }
}

impl EndpointerTiming {
    /// A waiting endpointer that needs `minimum_speech_ms` of speech to start
    /// an utterance and `trailing_silence_ms` of silence to end it; both must
    /// be non-zero.
    pub fn new(minimum_speech_ms: u32, trailing_silence_ms: u32) -> (result: Result<
        Self,
        EndpointerError,
    >)
        ensures
            match result {
                Ok(timing) => {
                    &&& minimum_speech_ms > 0 && trailing_silence_ms > 0
                    &&& timing@ == initial_timing(
                        minimum_speech_ms as nat,
                        trailing_silence_ms as nat,
                    )
                },
                Err(e) => {
                    &&& minimum_speech_ms == 0 || trailing_silence_ms == 0
                    &&& e == EndpointerError::InvalidConfiguration(
                        "endpointer speech and silence durations must be non-zero",
                    )
                },
            },
    {
        if minimum_speech_ms == 0 || trailing_silence_ms == 0 {
            return Err(
                EndpointerError::InvalidConfiguration(
                    "endpointer speech and silence durations must be non-zero",
                ),
            );
        }
        Ok(
            EndpointerTiming {
                minimum_speech_ms,
                trailing_silence_limit_ms: trailing_silence_ms,
                phase: EndpointerPhase::Waiting,
                candidate_speech_ms: 0,
                trailing_silence_ms: 0,
            },
        )
    }

    pub fn phase(&self) -> (phase: EndpointerPhase)
        ensures
            phase == self@.phase,
    {
        self.phase
    }

    pub fn candidate_speech_ms(&self) -> (ms: u32)
        ensures
            ms == self@.candidate_speech_ms,
    {
        self.candidate_speech_ms
    }

    pub fn trailing_silence_ms(&self) -> (ms: u32)
        ensures
            ms == self@.trailing_silence_ms,
    {
        self.trailing_silence_ms
    }

    /// Records one observation; see `spec_observe`. On an error nothing
    /// changes.
    pub fn observe(&mut self, reaches_start: bool, reaches_continue: bool, duration_ms: u32) -> (result:
        Result<EndpointerStep, EndpointerError>)
        requires
            timing_wf(old(self)@),
        ensures
            timing_wf(final(self)@),
            match spec_observe(old(self)@, reaches_start, reaches_continue, duration_ms as nat) {
                Ok((next, s)) => result == Ok::<EndpointerStep, EndpointerError>(s) && final(self)@
                    == next,
                Err(e) => result == Err::<EndpointerStep, EndpointerError>(e) && final(self)@ == old(
                    self,
                )@,
            },
    {
        if duration_ms == 0 {
            return Err(EndpointerError::InvalidObservation("endpointer observation is invalid"));
        }
        match self.phase {
            EndpointerPhase::Ended => Ok(
                EndpointerStep { decision: EndpointerDecision::EndOfSpeech, update_noise_floor: false },
            ),
            EndpointerPhase::Waiting => {
                if reaches_start {
                    let candidate = checked_add_ms(
                        self.candidate_speech_ms,
                        duration_ms,
                        "candidate speech duration overflowed",
                    )?;
                    self.candidate_speech_ms = candidate;
                    if candidate >= self.minimum_speech_ms {
                        self.phase = EndpointerPhase::Speech;
                        self.trailing_silence_ms = 0;
                        return Ok(
                            EndpointerStep {
                                decision: EndpointerDecision::SpeechStarted,
                                update_noise_floor: false,
                            },
                        );
                    }
                    return Ok(
                        EndpointerStep {
                            decision: EndpointerDecision::Continue,
                            update_noise_floor: false,
                        },
                    );
                }
                self.candidate_speech_ms = 0;
                Ok(EndpointerStep { decision: EndpointerDecision::Continue, update_noise_floor: true })
            },
            EndpointerPhase::Speech => {
                if reaches_continue {
                    self.trailing_silence_ms = 0;
                    return Ok(
                        EndpointerStep {
                            decision: EndpointerDecision::Continue,
                            update_noise_floor: false,
                        },
                    );
                }
                let silence = checked_add_ms(
                    self.trailing_silence_ms,
                    duration_ms,
                    "trailing silence duration overflowed",
                )?;
                self.trailing_silence_ms = silence;
                if silence >= self.trailing_silence_limit_ms {
                    self.phase = EndpointerPhase::Ended;
                    return Ok(
                        EndpointerStep {
                            decision: EndpointerDecision::EndOfSpeech,
                            update_noise_floor: false,
                        },
                    );
                }
                Ok(EndpointerStep { decision: EndpointerDecision::Continue, update_noise_floor: false })
            },
        }
    }

    /// Starts over: waiting, with nothing counted and the same durations.
    pub fn reset(&mut self)
        ensures
            final(self)@ == initial_timing(
                old(self)@.minimum_speech_ms,
                old(self)@.trailing_silence_limit_ms,
            ),
    {
        self.phase = EndpointerPhase::Waiting;
        self.candidate_speech_ms = 0;
        self.trailing_silence_ms = 0;
    }
}

/// An endpointer's phase never goes back: waiting, speech and end come in
/// that order, and only `reset` returns to waiting.
pub proof fn law_phase_never_regresses(
    v: TimingView,
    reaches_start: bool,
    reaches_continue: bool,
    duration_ms: nat,
)
    ensures
        spec_observe(v, reaches_start, reaches_continue, duration_ms) matches Ok((next, _))
            ==> phase_rank(next.phase) >= phase_rank(v.phase),
{
}

/// Once the end of speech has been reported it is reported for every later
/// observation, and nothing changes.
pub proof fn law_end_of_speech_is_final(
    v: TimingView,
    reaches_start: bool,
    reaches_continue: bool,
    duration_ms: nat,
)
    requires
        v.phase == EndpointerPhase::Ended,
        duration_ms > 0,
    ensures
        spec_observe(v, reaches_start, reaches_continue, duration_ms) == Ok::<
            (TimingView, EndpointerStep),
            EndpointerError,
        >((v, step(EndpointerDecision::EndOfSpeech, false))),
{
}

/// Speech starts only after at least the minimum speech duration has been
/// counted, and an utterance ends only after at least the trailing-silence
/// limit has been counted.
pub proof fn law_decisions_need_their_durations(
    v: TimingView,
    reaches_start: bool,
    reaches_continue: bool,
    duration_ms: nat,
)
    ensures
        spec_observe(v, reaches_start, reaches_continue, duration_ms) matches Ok((next, s)) ==> {
            &&& s.decision == EndpointerDecision::SpeechStarted ==> v.phase
                == EndpointerPhase::Waiting && next.candidate_speech_ms >= v.minimum_speech_ms
            &&& (s.decision == EndpointerDecision::EndOfSpeech && v.phase != EndpointerPhase::Ended)
                ==> v.phase == EndpointerPhase::Speech && next.trailing_silence_ms
                >= v.trailing_silence_limit_ms
        },
{
}

/// Only a quiet observation while waiting feeds the noise floor.
pub proof fn law_noise_floor_learns_only_while_waiting(
    v: TimingView,
    reaches_start: bool,
    reaches_continue: bool,
    duration_ms: nat,
)
    ensures
        spec_observe(v, reaches_start, reaches_continue, duration_ms) matches Ok((_, s))
            ==> (s.update_noise_floor <==> v.phase == EndpointerPhase::Waiting && !reaches_start),
{
}

} // verus!
