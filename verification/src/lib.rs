use vstd::prelude::*;

pub mod text;
pub mod session;
pub mod coordinator;
pub mod platform;
pub mod shortcuts;
pub mod insertion;
pub mod insertion_backends;
pub mod audio;
pub mod asr;
pub mod audio_processing;
pub mod pipeline;
pub mod models;
pub mod personalization;
pub mod storage;
pub mod text_rules;
pub mod settings;
pub mod shortcut_service;
pub mod shortcut_coordinator;
pub mod desktop;
pub mod dictation_slot;
pub mod history;
pub mod eis;
pub mod capture_control;
pub mod sorting;
pub mod discovery;
pub mod runtime_work;
pub mod endpointer;
pub mod recording;
pub mod dictation_flow;

verus! {

} // verus!
