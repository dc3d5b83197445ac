//! Scenario tests for the audio polling bridge and the real-time playback
//! adapter: exact frame counts, atomicity, the no-block guard policy, the
//! state machine, and song imports against a stub synthesizer script.

use beepbox_bridge::guard::GuardState;
use beepbox_bridge::js::{accept_polled_channels, poll_audio, JSContext, PollError};
use beepbox_bridge::synthesizer::{
    write_frames, AudioFrame, EngineState, ImportError, MixFatal, Synthesizer,
};
use beepbox_bridge::utils::Variant;

/// Installs an audio context, a script processor, and a deterministic
/// process callback that fills both channels with 0.5.
const CONSTANT_HALF_SETUP: &str = "
var ctx = new AudioContext();
var proc = ctx.createScriptProcessor(0, 0, 2);
proc.onaudioprocess = function (ev) {
    var left = ev.outputBuffer.getChannelData(0);
    var right = ev.outputBuffer.getChannelData(1);
    for (var i = 0; i < ev.outputBuffer.length; i++) {
        left[i] = 0.5;
        right[i] = 0.5;
    }
};
void 0;
";

/// A process callback that writes the frame index into the left channel and
/// its negation into the right channel.
const INDEX_SETUP: &str = "
var ctx = new AudioContext();
var proc = ctx.createScriptProcessor(0, 0, 2);
proc.onaudioprocess = function (ev) {
    var left = ev.outputBuffer.getChannelData(0);
    var right = ev.outputBuffer.getChannelData(1);
    for (var i = 0; i < ev.outputBuffer.length; i++) {
        left[i] = i;
        right[i] = -i;
    }
};
void 0;
";

/// A stand-in for the synthesizer script: the global API contract the
/// embedded script is expected to expose.
const STUB_SYNTH: &str = "
globalThis.beepbox = {
    Synth: function () {
        this.song = null;
        this.playing = false;
        this.effectsReset = 0;
        this.play = function () { this.playing = true; };
        this.pause = function () { this.playing = false; };
        this.resetEffects = function () { this.effectsReset += 1; };
        this.setSong = function (s) {
            if (typeof s !== 'string' || s.length === 0) {
                throw new Error('song payload rejected');
            }
            this.song = s;
        };
    }
};
";

fn engine_with(setup: &str) -> JSContext {
    let mut js = JSContext::new().expect("engine construction failed");
    js.run("setup", setup).expect("setup script failed");
    js
}

fn sentinel_frames(n: usize) -> Vec<AudioFrame> {
    vec![AudioFrame { left: 7, right: 9 }; n]
}

#[test]
fn poll_writes_exactly_the_required_frames() {
    let mut js = engine_with(CONSTANT_HALF_SETUP);
    let mut left: Vec<u32> = Vec::new();
    let mut right: Vec<u32> = Vec::new();
    poll_audio(&mut js, 128, &mut left, &mut right).expect("poll failed");
    assert_eq!(left.len(), 128);
    assert_eq!(right.len(), 128);
    let half = 0.5f32.to_bits();
    assert!(left.iter().all(|&b| b == half));
    assert!(right.iter().all(|&b| b == half));
}

#[test]
fn poll_zero_frames_is_allowed() {
    let mut js = engine_with(CONSTANT_HALF_SETUP);
    let mut left: Vec<u32> = Vec::new();
    let mut right: Vec<u32> = Vec::new();
    poll_audio(&mut js, 0, &mut left, &mut right).expect("poll failed");
    assert!(left.is_empty() && right.is_empty());
}

#[test]
fn poll_is_repeatable_for_a_deterministic_callback() {
    let mut js = engine_with(INDEX_SETUP);
    let mut l1: Vec<u32> = Vec::new();
    let mut r1: Vec<u32> = Vec::new();
    poll_audio(&mut js, 64, &mut l1, &mut r1).expect("first poll failed");
    let mut l2: Vec<u32> = Vec::new();
    let mut r2: Vec<u32> = Vec::new();
    poll_audio(&mut js, 64, &mut l2, &mut r2).expect("second poll failed");
    assert_eq!(l1, l2);
    assert_eq!(r1, r2);
    assert_eq!(l1[3], 3.0f32.to_bits());
    assert_eq!(r1[3], (-3.0f32).to_bits());
}

#[test]
fn poll_without_context_reports_not_ready_and_leaves_outputs() {
    let mut js = JSContext::new().expect("engine construction failed");
    let mut left: Vec<u32> = vec![11, 22];
    let mut right: Vec<u32> = vec![33];
    let err = poll_audio(&mut js, 16, &mut left, &mut right).expect_err("no context yet");
    assert!(matches!(err, PollError::NoActiveContext));
    assert_eq!(left, vec![11, 22]);
    assert_eq!(right, vec![33]);
}

#[test]
fn poll_without_callback_reports_missing_callback() {
    let mut js = JSContext::new().expect("engine construction failed");
    js.run("setup", "var c = new AudioContext(); c.createScriptProcessor(0, 0, 2);")
        .expect("setup failed");
    let mut left: Vec<u32> = Vec::new();
    let mut right: Vec<u32> = Vec::new();
    let err = poll_audio(&mut js, 16, &mut left, &mut right).expect_err("no callback yet");
    assert!(matches!(err, PollError::MissingCallback));
    assert!(left.is_empty() && right.is_empty());
}

#[test]
fn poll_with_throwing_callback_leaves_outputs_untouched() {
    let mut js = JSContext::new().expect("engine construction failed");
    js.run(
        "setup",
        "var c = new AudioContext();\n\
         var p = c.createScriptProcessor(0, 0, 2);\n\
         p.onaudioprocess = function () { throw new Error('callback exploded'); };\n\
         void 0;",
    )
    .expect("setup failed");
    let mut left: Vec<u32> = vec![5];
    let mut right: Vec<u32> = vec![6];
    let err = poll_audio(&mut js, 8, &mut left, &mut right).expect_err("callback throws");
    match err {
        PollError::Script(e) => assert!(e.message.contains("callback exploded")),
        other => panic!("expected a script failure, got {:?}", other),
    }
    assert_eq!(left, vec![5]);
    assert_eq!(right, vec![6]);
}

#[test]
fn mix_fills_destination_with_produced_samples() {
    let mut s = Synthesizer::init().expect("engine construction failed");
    s.eval(CONSTANT_HALF_SETUP).expect("setup failed");
    let mut dest = sentinel_frames(128);
    let written = s.mix(&mut dest, 128).expect("mix must not escalate");
    assert_eq!(written, 128);
    let half = 0.5f32.to_bits();
    assert!(dest.iter().all(|f| f.left == half && f.right == half));
    assert!(matches!(s.playback_state(), EngineState::Active));
}

#[test]
fn mix_writes_only_the_requested_prefix() {
    let mut s = Synthesizer::init().expect("engine construction failed");
    s.eval(CONSTANT_HALF_SETUP).expect("setup failed");
    let mut dest = sentinel_frames(8);
    let written = s.mix(&mut dest, 5).expect("mix must not escalate");
    assert_eq!(written, 5);
    let half = 0.5f32.to_bits();
    assert!(dest[..5].iter().all(|f| f.left == half && f.right == half));
    assert!(dest[5..].iter().all(|f| f.left == 7 && f.right == 9));
}

#[test]
fn mix_without_context_yields_silence_without_error() {
    let mut s = Synthesizer::init().expect("engine construction failed");
    let mut dest = sentinel_frames(32);
    let written = s.mix(&mut dest, 32).expect("not ready is not an error");
    assert_eq!(written, 0);
    assert!(dest.iter().all(|f| f.left == 7 && f.right == 9));
    assert!(matches!(s.playback_state(), EngineState::Idle));
    assert!(s.take_logs().is_empty());
}

#[test]
fn mix_without_callback_yields_silence_and_marks_active() {
    let mut s = Synthesizer::init().expect("engine construction failed");
    s.eval("var c = new AudioContext(); c.createScriptProcessor(0, 0, 2);")
        .expect("setup failed");
    let mut dest = sentinel_frames(32);
    let written = s.mix(&mut dest, 32).expect("not ready is not an error");
    assert_eq!(written, 0);
    assert!(dest.iter().all(|f| f.left == 7 && f.right == 9));
    assert!(matches!(s.playback_state(), EngineState::Active));
}

#[test]
fn contended_mix_returns_zero_frames_without_blocking() {
    let mut s = Synthesizer::init().expect("engine construction failed");
    s.eval(CONSTANT_HALF_SETUP).expect("setup failed");
    s.hold_guard();
    let mut dest = sentinel_frames(16);
    let written = s.mix(&mut dest, 16).expect("contention is not fatal");
    assert_eq!(written, 0);
    assert!(dest.iter().all(|f| f.left == 7 && f.right == 9));
    assert!(matches!(s.guard_state(), GuardState::Held));
    s.release_guard();
    let written = s.mix(&mut dest, 16).expect("mix after release");
    assert_eq!(written, 16);
}

#[test]
fn poisoned_guard_escalates_mix() {
    let mut s = Synthesizer::init().expect("engine construction failed");
    s.poison_guard();
    let mut dest = sentinel_frames(4);
    let err = s.mix(&mut dest, 4).expect_err("poison escalates");
    assert!(matches!(err, MixFatal::GuardPoisoned));
    assert!(dest.iter().all(|f| f.left == 7 && f.right == 9));
}

#[test]
fn throwing_callback_downgrades_to_silence_plus_log_line() {
    let mut s = Synthesizer::init().expect("engine construction failed");
    s.eval(
        "var c = new AudioContext();\n\
         var p = c.createScriptProcessor(0, 0, 2);\n\
         p.onaudioprocess = function () { throw new Error('tick went wrong'); };\n\
         void 0;",
    )
    .expect("setup failed");
    let mut dest = sentinel_frames(8);
    let written = s.mix(&mut dest, 8).expect("tick must complete");
    assert_eq!(written, 0);
    assert!(dest.iter().all(|f| f.left == 7 && f.right == 9));
    let logs = s.take_logs();
    assert!(logs.iter().any(|l| l.message.contains("tick went wrong")));
    let written = s.mix(&mut dest, 8).expect("next tick still runs");
    assert_eq!(written, 0);
}

#[test]
fn ready_runs_script_and_instantiates_synth() {
    let mut s = Synthesizer::init().expect("engine construction failed");
    s.ready(STUB_SYNTH).expect("ready failed");
    assert!(matches!(
        s.eval("typeof synth === 'object'").unwrap(),
        Variant::Bool(true)
    ));
}

#[test]
fn ready_without_synth_api_fails_with_init_label() {
    let mut s = Synthesizer::init().expect("engine construction failed");
    let err = s.ready("var unrelated = 1;").expect_err("no synth API");
    assert_eq!(err.source_label, "synth_init");
}

#[test]
fn resume_and_pause_drive_the_synth_object() {
    let mut s = Synthesizer::init().expect("engine construction failed");
    s.ready(STUB_SYNTH).expect("ready failed");
    s.resume().expect("resume failed");
    assert!(matches!(s.eval("synth.playing").unwrap(), Variant::Bool(true)));
    assert!(matches!(
        s.eval("synth.effectsReset").unwrap(),
        Variant::Number(b) if b == 1.0f64.to_bits()
    ));
    s.pause().expect("pause failed");
    assert!(matches!(s.eval("synth.playing").unwrap(), Variant::Bool(false)));
}

#[test]
fn resume_without_ready_surfaces_script_error() {
    let mut s = Synthesizer::init().expect("engine construction failed");
    let err = s.resume().expect_err("no synth yet");
    assert_eq!(err.source_label, "resume");
}

#[test]
fn import_hands_payload_to_the_song_entry() {
    let mut s = Synthesizer::init().expect("engine construction failed");
    s.ready(STUB_SYNTH).expect("ready failed");
    s.import(Ok(String::from("{\"beats\": 8}"))).expect("import failed");
    assert_eq!(s.songs_loaded(), 1);
    assert!(matches!(
        s.eval("synth.song").unwrap(),
        Variant::Str(t) if t == "{\"beats\": 8}"
    ));
}

#[test]
fn failed_load_reports_io_error_and_keeps_previous_song() {
    let mut s = Synthesizer::init().expect("engine construction failed");
    s.ready(STUB_SYNTH).expect("ready failed");
    s.import(Ok(String::from("first song"))).expect("import failed");
    let err = s
        .import(Err(String::from("could not read /no/such/file")))
        .expect_err("load failed");
    assert!(matches!(err, ImportError::ImportIoError(m) if m.contains("/no/such/file")));
    assert_eq!(s.songs_loaded(), 1);
    assert!(matches!(
        s.eval("synth.song").unwrap(),
        Variant::Str(t) if t == "first song"
    ));
}

#[test]
fn rejected_payload_reports_script_error_and_keeps_previous_song() {
    let mut s = Synthesizer::init().expect("engine construction failed");
    s.ready(STUB_SYNTH).expect("ready failed");
    s.import(Ok(String::from("good song"))).expect("import failed");
    let err = s.import(Ok(String::new())).expect_err("stub rejects empty payloads");
    match err {
        ImportError::ImportScriptError(e) => {
            assert!(e.message.contains("song payload rejected"));
        }
        other => panic!("expected a script rejection, got {:?}", other),
    }
    assert_eq!(s.songs_loaded(), 1);
    assert!(matches!(
        s.eval("synth.song").unwrap(),
        Variant::Str(t) if t == "good song"
    ));
}

#[test]
fn active_state_is_never_left() {
    let mut s = Synthesizer::init().expect("engine construction failed");
    s.eval(CONSTANT_HALF_SETUP).expect("setup failed");
    let mut dest = sentinel_frames(4);
    s.mix(&mut dest, 4).expect("mix failed");
    assert!(matches!(s.playback_state(), EngineState::Active));
    s.eval("activeAudioContext = undefined").expect("teardown failed");
    let written = s.mix(&mut dest, 4).expect("mix failed");
    assert_eq!(written, 0);
    assert!(matches!(s.playback_state(), EngineState::Active));
}

#[test]
fn write_frames_interleaves_in_channel_order() {
    let mut dest = sentinel_frames(5);
    let left: Vec<u32> = vec![1, 2, 3];
    let right: Vec<u32> = vec![10, 20, 30];
    write_frames(&mut dest, &left, &right, 3);
    assert_eq!(dest.len(), 5);
    assert!(dest[0].left == 1 && dest[0].right == 10);
    assert!(dest[1].left == 2 && dest[1].right == 20);
    assert!(dest[2].left == 3 && dest[2].right == 30);
    assert!(dest[3].left == 7 && dest[3].right == 9);
    assert!(dest[4].left == 7 && dest[4].right == 9);
}

#[test]
fn accept_polled_channels_takes_exact_lengths_bit_for_bit() {
    let mut out_left: Vec<u32> = vec![99];
    let mut out_right: Vec<u32> = vec![98];
    let accepted =
        accept_polled_channels(2, vec![1, 2], vec![3, 4], &mut out_left, &mut out_right);
    assert!(accepted);
    assert_eq!(out_left, vec![1, 2]);
    assert_eq!(out_right, vec![3, 4]);
}

#[test]
fn accept_polled_channels_rejects_wrong_lengths_untouched() {
    let mut out_left: Vec<u32> = vec![99];
    let mut out_right: Vec<u32> = vec![98];
    let accepted = accept_polled_channels(2, vec![1], vec![3, 4], &mut out_left, &mut out_right);
    assert!(!accepted);
    assert_eq!(out_left, vec![99]);
    assert_eq!(out_right, vec![98]);
    let accepted = accept_polled_channels(2, vec![1, 2], vec![3], &mut out_left, &mut out_right);
    assert!(!accepted);
    assert_eq!(out_left, vec![99]);
    assert_eq!(out_right, vec![98]);
}

#[test]
fn process_callback_receives_the_audio_context() {
    let mut js = JSContext::new().expect("engine construction failed");
    js.run(
        "setup",
        "var ctx = new AudioContext();\n\
         var proc = ctx.createScriptProcessor(0, 0, 2);\n\
         proc.onaudioprocess = function (ev) { ctx.receiverOk = (this === ctx); };\n\
         void 0;",
    )
    .expect("setup failed");
    let mut left: Vec<u32> = Vec::new();
    let mut right: Vec<u32> = Vec::new();
    poll_audio(&mut js, 4, &mut left, &mut right).expect("poll failed");
    let ok = js.run("probe", "ctx.receiverOk").expect("probe failed");
    assert!(matches!(ok, Variant::Bool(true)));
}
