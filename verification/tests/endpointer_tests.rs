use blcvoice::endpointer::{
    checked_add_ms, EndpointerDecision, EndpointerError, EndpointerPhase, EndpointerStep,
    EndpointerTiming,
};

fn timing() -> EndpointerTiming {
    EndpointerTiming::new(120, 800).expect("default durations are valid")
}

fn decision(result: Result<EndpointerStep, EndpointerError>) -> EndpointerDecision {
    result.expect("observation is valid").decision
}

#[test]
fn sustained_speech_then_silence_reaches_the_end() {
    let mut timing = timing();
    assert_eq!(decision(timing.observe(true, true, 60)), EndpointerDecision::Continue);
    assert_eq!(decision(timing.observe(true, true, 60)), EndpointerDecision::SpeechStarted);
    assert_eq!(decision(timing.observe(false, false, 400)), EndpointerDecision::Continue);
    assert_eq!(timing.trailing_silence_ms(), 400);
    assert_eq!(decision(timing.observe(false, false, 400)), EndpointerDecision::EndOfSpeech);
    assert_eq!(timing.phase(), EndpointerPhase::Ended);
}

#[test]
fn a_short_burst_does_not_start_speech_and_quiet_feeds_the_noise_floor() {
    let mut timing = timing();
    assert_eq!(
        timing.observe(true, true, 50),
        Ok(EndpointerStep { decision: EndpointerDecision::Continue, update_noise_floor: false })
    );
    assert_eq!(
        timing.observe(false, false, 50),
        Ok(EndpointerStep { decision: EndpointerDecision::Continue, update_noise_floor: true })
    );
    assert_eq!(timing.phase(), EndpointerPhase::Waiting);
    assert_eq!(timing.candidate_speech_ms(), 0);
}

#[test]
fn speech_that_continues_clears_the_silence_count() {
    let mut timing = timing();
    assert_eq!(decision(timing.observe(true, true, 120)), EndpointerDecision::SpeechStarted);
    assert_eq!(decision(timing.observe(false, false, 700)), EndpointerDecision::Continue);
    assert_eq!(decision(timing.observe(false, true, 10)), EndpointerDecision::Continue);
    assert_eq!(timing.trailing_silence_ms(), 0);
    assert_eq!(decision(timing.observe(false, false, 700)), EndpointerDecision::Continue);
}

#[test]
fn the_end_of_speech_is_reported_for_every_later_observation() {
    let mut timing = timing();
    timing.observe(true, true, 120).unwrap();
    timing.observe(false, false, 800).unwrap();
    assert_eq!(
        timing.observe(true, true, 5),
        Ok(EndpointerStep { decision: EndpointerDecision::EndOfSpeech, update_noise_floor: false })
    );
    assert_eq!(timing.phase(), EndpointerPhase::Ended);
}

#[test]
fn reset_returns_to_waiting_with_nothing_counted() {
    let mut timing = timing();
    assert_eq!(decision(timing.observe(true, true, 120)), EndpointerDecision::SpeechStarted);
    timing.reset();
    assert_eq!(timing.phase(), EndpointerPhase::Waiting);
    assert_eq!(timing.candidate_speech_ms(), 0);
    assert_eq!(timing.trailing_silence_ms(), 0);
}

#[test]
fn zero_durations_are_refused() {
    assert_eq!(
        EndpointerTiming::new(120, 0),
        Err(EndpointerError::InvalidConfiguration(
            "endpointer speech and silence durations must be non-zero"
        ))
    );
    assert_eq!(
        EndpointerTiming::new(0, 800),
        Err(EndpointerError::InvalidConfiguration(
            "endpointer speech and silence durations must be non-zero"
        ))
    );
    let mut timing = timing();
    assert_eq!(
        timing.observe(true, true, 0),
        Err(EndpointerError::InvalidObservation("endpointer observation is invalid"))
    );
}

#[test]
fn an_overflowing_count_is_refused_without_change() {
    let mut timing = EndpointerTiming::new(u32::MAX, 1).unwrap();
    assert_eq!(decision(timing.observe(true, true, 10)), EndpointerDecision::Continue);
    let error = timing.observe(true, true, u32::MAX).unwrap_err();
    assert_eq!(
        error,
        EndpointerError::InvalidObservation("candidate speech duration overflowed")
    );
    assert_eq!(error.message(), "candidate speech duration overflowed");
    assert_eq!(timing.candidate_speech_ms(), 10);
    assert_eq!(checked_add_ms(u32::MAX, 1, "x"), Err(EndpointerError::InvalidObservation("x")));
    assert_eq!(checked_add_ms(2, 3, "x"), Ok(5));
}
