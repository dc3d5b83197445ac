//! Scenario tests that drive the real embedded engine through the
//! synthesizer's control path: evaluation, exception capture, the emulated
//! environment's globals, console routing, and the performance clock.

use beepbox_bridge::js_console::Severity;
use beepbox_bridge::synthesizer::Synthesizer;
use beepbox_bridge::utils::Variant;

fn new_engine() -> Synthesizer {
    Synthesizer::init().expect("engine construction failed")
}

#[test]
fn run_simple_assignment_yields_host_value() {
    let mut s = new_engine();
    let v = s.eval("globalThis.x = 40 + 2;").expect("eval failed");
    assert!(matches!(v, Variant::Number(b) if b == 42.0f64.to_bits()));
}

#[test]
fn eval_reads_back_stored_global() {
    let mut s = new_engine();
    s.eval("globalThis.x = 40 + 2;").expect("eval failed");
    let v = s.eval("x").expect("eval failed");
    assert!(matches!(v, Variant::Number(b) if b == 42.0f64.to_bits()));
}

#[test]
fn property_access_failure_is_captured_and_engine_survives() {
    let mut s = new_engine();
    let err = s.eval("({}).nonexistent.prop").expect_err("should fail");
    assert_eq!(err.source_label, "eval");
    assert!(!err.message.is_empty());
    let m = err.message.to_lowercase();
    assert!(m.contains("prop") || m.contains("undefined") || m.contains("null"));
    let v = s.eval("1 + 1").expect("engine should keep running");
    assert!(matches!(v, Variant::Number(b) if b == 2.0f64.to_bits()));
}

#[test]
fn eval_marshals_each_value_kind() {
    let mut s = new_engine();
    assert!(matches!(s.eval("null").unwrap(), Variant::Nil));
    assert!(matches!(s.eval("undefined").unwrap(), Variant::Nil));
    assert!(matches!(s.eval("void 0").unwrap(), Variant::Nil));
    assert!(matches!(s.eval("true").unwrap(), Variant::Bool(true)));
    assert!(matches!(s.eval("false").unwrap(), Variant::Bool(false)));
    assert!(matches!(s.eval("'abc'").unwrap(), Variant::Str(t) if t == "abc"));
    assert!(matches!(s.eval("({a: 1})").unwrap(), Variant::ObjectStub));
    assert!(
        matches!(s.eval("0.5").unwrap(), Variant::Number(b) if b == 0.5f64.to_bits())
    );
}

#[test]
fn eval_function_value_is_unsupported() {
    let mut s = new_engine();
    let err = s.eval("(function () {})").expect_err("functions are unsupported");
    assert_eq!(err.source_label, "eval");
}

#[test]
fn second_audio_context_replaces_first_in_active_lookup() {
    let mut s = new_engine();
    s.eval("var first = new AudioContext(); var second = new AudioContext();")
        .expect("setup failed");
    let replaced = s.eval("activeAudioContext === second").expect("probe failed");
    assert!(matches!(replaced, Variant::Bool(true)));
    let still_first = s.eval("activeAudioContext === first").expect("probe failed");
    assert!(matches!(still_first, Variant::Bool(false)));
}

#[test]
fn browser_style_globals_are_present() {
    let mut s = new_engine();
    assert!(matches!(
        s.eval("typeof navigator === 'object'").unwrap(),
        Variant::Bool(true)
    ));
    assert!(matches!(
        s.eval("typeof document === 'object'").unwrap(),
        Variant::Bool(true)
    ));
    assert!(matches!(
        s.eval("window === globalThis && global === globalThis").unwrap(),
        Variant::Bool(true)
    ));
}

#[test]
fn console_lines_reach_the_log_sink_with_severities() {
    let mut s = new_engine();
    s.eval("console.log('hello', {a: 1}); console.warn('careful'); console.error(123)")
        .expect("eval failed");
    let logs = s.take_logs();
    assert_eq!(logs.len(), 3);
    assert!(matches!(logs[0].severity, Severity::Info));
    assert_eq!(logs[0].message, "hello {\"a\":1}");
    assert!(matches!(logs[1].severity, Severity::Warn));
    assert_eq!(logs[1].message, "careful");
    assert!(matches!(logs[2].severity, Severity::Error));
    assert_eq!(logs[2].message, "123");
    assert!(s.take_logs().is_empty());
}

#[test]
fn console_info_debug_trace_are_informational() {
    let mut s = new_engine();
    s.eval("console.info('i'); console.debug('d'); console.trace('t')")
        .expect("eval failed");
    let logs = s.take_logs();
    assert_eq!(logs.len(), 3);
    assert!(logs.iter().all(|l| matches!(l.severity, Severity::Info)));
}

#[test]
fn console_with_unserializable_argument_degrades_to_placeholder() {
    let mut s = new_engine();
    s.eval("console.log('big:', 10n)").expect("console must not raise");
    let logs = s.take_logs();
    assert_eq!(logs.len(), 1);
    assert_eq!(logs[0].message, "big: (value could not be serialized)");
}

#[test]
fn console_with_undefined_argument_degrades_to_placeholder() {
    let mut s = new_engine();
    s.eval("console.log(undefined)").expect("console must not raise");
    let logs = s.take_logs();
    assert_eq!(logs.len(), 1);
    assert_eq!(logs[0].message, "(value could not be serialized)");
}

#[test]
fn performance_now_is_monotonic_across_calls() {
    let mut s = new_engine();
    let mut last = -1.0f64;
    for _ in 0..5 {
        let v = s.eval("performance.now()").expect("eval failed");
        match v {
            Variant::Number(bits) => {
                let ms = f64::from_bits(bits);
                assert!(ms >= 0.0);
                assert!(ms >= last);
                last = ms;
            }
            _ => panic!("performance.now() did not return a number"),
        }
    }
}

#[test]
fn script_error_carries_script_exception_message() {
    let mut s = new_engine();
    let err = s
        .eval("throw new Error('from the script side')")
        .expect_err("throw must surface");
    assert!(err.message.contains("from the script side"));
}

#[test]
fn audio_context_exposes_fixed_sample_rate() {
    let mut s = new_engine();
    let v = s.eval("new AudioContext().sampleRate").expect("eval failed");
    assert!(matches!(v, Variant::Number(b) if b == 44100.0f64.to_bits()));
}

#[test]
fn audio_context_starts_paused_and_follows_resume_and_close() {
    let mut s = new_engine();
    s.eval("var a = new AudioContext();").expect("setup failed");
    assert!(matches!(s.eval("a.playing").unwrap(), Variant::Bool(false)));
    s.eval("a.resume();").expect("resume failed");
    assert!(matches!(s.eval("a.playing").unwrap(), Variant::Bool(true)));
    s.eval("a.close();").expect("close failed");
    assert!(matches!(s.eval("a.playing").unwrap(), Variant::Bool(false)));
}

#[test]
fn get_channel_data_maps_indices_to_channels() {
    let mut s = new_engine();
    s.eval("var c = new AudioContext(); var p = c.createScriptProcessor(0, 0, 2);")
        .expect("setup failed");
    assert!(matches!(
        s.eval("c.outputBuffer.getChannelData(0) === c.outputBuffer.leftChannelBuffer")
            .unwrap(),
        Variant::Bool(true)
    ));
    assert!(matches!(
        s.eval("c.outputBuffer.getChannelData(1) === c.outputBuffer.rightChannelBuffer")
            .unwrap(),
        Variant::Bool(true)
    ));
    assert!(matches!(
        s.eval("typeof c.outputBuffer.getChannelData(2) === 'undefined'").unwrap(),
        Variant::Bool(true)
    ));
}

#[test]
fn script_processor_has_no_op_connect_and_disconnect() {
    let mut s = new_engine();
    s.eval("var c = new AudioContext(); var p = c.createScriptProcessor(0, 0, 2);")
        .expect("setup failed");
    assert!(matches!(
        s.eval("p.connect(undefined); p.disconnect(); true").unwrap(),
        Variant::Bool(true)
    ));
}
