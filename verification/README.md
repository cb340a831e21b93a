# blcvoice

The core of BLCVoice, a local-first desktop dictation tool (press a shortcut,
speak, and the text is typed where you are working), written in Verus: each
public function states what it returns in `requires`/`ensures`, and Verus
proves it.

## Layout

- `src/` — the verified library.
  - `session`, `coordinator`, `runtime_work`, `dictation_slot`,
    `dictation_flow`, `capture_control`: the dictation lifecycle, its single
    active session and the work attached to it; how the desktop service
    starts and finishes a dictation and keeps its recognizer between them.
  - `shortcuts`, `shortcut_service`, `shortcut_coordinator`: global-shortcut
    backends per platform, the toggle and push-to-talk controller, and the
    coordinator that serialises shortcut-driven dictations.
  - `platform`, `insertion`, `insertion_backends`, `eis`: the desktop
    environment, the insertion backend it calls for, text validation, X11
    keysyms and scratch keys, EIS text chunking and the EIS device state.
  - `audio`, `discovery`, `audio_processing`, `pipeline`, `recording`,
    `endpointer`, `asr`: devices and hosts, device ordering, frame limits,
    preprocessing block sizes and the bookkeeping of whole-utterance
    resampling, capture reads and finalization, voice-activity analyses,
    endpointer timing, recognizer options and the checks around the speech
    engine.
  - `models`, `settings`, `text_rules`, `personalization`, `storage`,
    `history`, `desktop`: the model catalog, persisted settings, dictionary and
    replacement rules, history records and the messages shown to the user.
  - `text`, `sorting`: string and ordering facts shared by the above.
- `tests/` — tests of the library's public functions.
- `app/` — the command-line shell around the library: settings and rules
  files, the SQLite stores, model downloads, the dictation service's calls to
  the recognizer and the capture side, the X11 connection, microphone
  discovery through cpal, the transcribe.cpp recognizer, and the
  floating-point audio arithmetic.

Public proof functions named `law_*` state properties that relate several
operations; their doc comments say each in words.
