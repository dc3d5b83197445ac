//! The script engine context: owns the sandboxed runtime and the persistent
//! global execution context, and is the single choke-point for exception
//! capture and scoped execution.
//!
//! Every entry into the engine funnels through one trusted evaluation wrapper
//! that traps exceptions and converts them into a [`ScriptError`], so no
//! script failure ever unwinds past this module.  The emulated browser
//! environment (AudioContext, console, performance, stub globals) is
//! installed once, as a bootstrap script, when the context is created.
//!
//! Values cross the boundary as plain data only: probe expressions reduce the
//! last completion value to a tag, integer bit patterns, or a string, and the
//! verified code on this side makes every decision about them.

use vstd::prelude::*;

use crate::js_console::{console_arg_of, console_entry_for_level, ConsoleArg, LogEntry};
use crate::performance::{start_performance_timer, PerformanceClock};
use crate::utils::{decode_number_bits, decode_value_tag, RawValue, ValueTag};

verus! {

#[verifier::external_type_specification]
#[verifier::external_body]
pub struct ExRuntime(rquickjs::Runtime);

#[verifier::external_type_specification]
#[verifier::external_body]
pub struct ExContext(rquickjs::Context);

#[verifier::external_type_specification]
#[verifier::external_body]
pub struct ExJsError(rquickjs::Error);

/// Relies on rquickjs `Runtime::new`: creates an isolated engine runtime.
#[verifier::external_body]
fn new_runtime() -> (r: Result<rquickjs::Runtime, rquickjs::Error>) {
    rquickjs::Runtime::new()
}

/// Relies on rquickjs `Context::full`: creates a global execution context
/// with the standard intrinsics on the given runtime.
#[verifier::external_body]
fn new_context(rt: &rquickjs::Runtime) -> (r: Result<rquickjs::Context, rquickjs::Error>) {
    rquickjs::Context::full(rt)
}

/// Relies on the `Display` implementation of rquickjs `Error`: renders an
/// engine error as text.
#[verifier::external_body]
fn js_error_message(e: &rquickjs::Error) -> (r: String) {
    format!("{e}")
}

/// Relies on rquickjs `Ctx::eval_with_options` and `Ctx::catch`: evaluates
/// source as non-strict global code against the persistent context, stores
/// the completion value in the global `__lastResult`, and returns a raised
/// exception's message and stack as the error string.
#[verifier::external_body]
fn eval_capture(ctx: &rquickjs::Context, src: &str) -> (r: Result<(), String>) {
    ctx.with(|c| {
        let mut opts = rquickjs::context::EvalOptions::default();
        opts.strict = false;
        match c.eval_with_options::<rquickjs::Value, _>(src, opts) {
            Ok(v) => c.globals().set("__lastResult", v).map_err(|e| e.to_string()),
            Err(_) => match c.catch().as_exception() {
                Some(ex) => Err(
                    format!("{}\n{}", ex.message().unwrap_or_default(), ex.stack().unwrap_or_default()),
                ),
                None => Err("internal engine error".to_string()),
            },
        }
    })
}

/// Relies on rquickjs `Ctx::eval` and the `FromJs` conversion for `Vec<u32>`:
/// evaluates a fixed probe expression expected to yield an array of 32-bit
/// non-negative integers.
#[verifier::external_body]
fn probe_u32s(ctx: &rquickjs::Context, src: &str) -> (r: Result<Vec<u32>, String>) {
    ctx.with(|c| c.eval::<Vec<u32>, _>(src).map_err(|e| e.to_string()))
}

/// Relies on rquickjs `Ctx::eval` and the `FromJs` conversion for `String`:
/// evaluates a fixed probe expression expected to yield a string.
#[verifier::external_body]
fn probe_string(ctx: &rquickjs::Context, src: &str) -> (r: Result<String, String>) {
    ctx.with(|c| c.eval::<String, _>(src).map_err(|e| e.to_string()))
}

/// Relies on rquickjs `Object::set` on the context's globals: binds a global
/// name to a 32-bit integer value.
#[verifier::external_body]
fn set_global_u32(ctx: &rquickjs::Context, name: &str, value: u32) -> (r: Result<(), String>) {
    ctx.with(|c| c.globals().set(name, value).map_err(|e| e.to_string()))
}

/// Relies on rquickjs `Object::set` on the context's globals: binds a global
/// name to a string value, without evaluating the string.
#[verifier::external_body]
fn set_global_string(ctx: &rquickjs::Context, name: &str, value: &str) -> (r: Result<(), String>) {
    ctx.with(|c| c.globals().set(name, value).map_err(|e| e.to_string()))
}

/// The environment installed once at context creation: aliases of the global
/// object, stub `navigator` and `document`, a buffering `console`, a
/// `performance` clock fed from the host side, and the Web-Audio-like
/// `AudioContext` whose script processor owns the two channel buffers.
const BOOTSTRAP_SRC: &'static str = r#"
globalThis.global = globalThis;
globalThis.window = globalThis;
globalThis.navigator = {};
globalThis.document = {};
globalThis.__consoleBuf = [];
(function () {
    function part(a) {
        if (typeof a === 'string') { return [0, a]; }
        try {
            var s = JSON.stringify(a);
            if (typeof s === 'string') { return [1, s]; }
            return [2, ''];
        } catch (e) {
            return [2, ''];
        }
    }
    function record(level) {
        return function () {
            var parts = [];
            for (var i = 0; i < arguments.length; i++) { parts.push(part(arguments[i])); }
            globalThis.__consoleBuf.push([level, parts]);
        };
    }
    globalThis.console = {
        log: record(0), info: record(1), debug: record(2),
        trace: record(3), warn: record(4), error: record(5)
    };
})();
globalThis.__perfLo = 0;
globalThis.__perfHi = 0;
globalThis.__perfLoNext = 0;
globalThis.__perfHiNext = 0;
globalThis.performance = {
    now: function () { return globalThis.__perfHi * 4294967296 + globalThis.__perfLo; }
};
globalThis.__maxSamples = 1048576;
globalThis.AudioContext = function () {
    var ctx = this;
    ctx.sampleRate = 44100;
    ctx.playing = false;
    ctx.createScriptProcessor = function () {
        var processor = {
            sampleRate: 44100,
            connect: function () {},
            disconnect: function () {}
        };
        ctx.scriptProcessor = processor;
        var left = new Float32Array(globalThis.__maxSamples);
        var right = new Float32Array(globalThis.__maxSamples);
        ctx.outputBuffer = {
            length: 0,
            leftChannelBuffer: left,
            rightChannelBuffer: right,
            getChannelData: function (i) {
                if (i === 0) { return left; }
                if (i === 1) { return right; }
                return undefined;
            }
        };
        return processor;
    };
    ctx.resume = function () { ctx.playing = true; };
    ctx.close = function () { ctx.playing = false; };
    globalThis.activeAudioContext = ctx;
};
"#;

/// Classifies the last completion value: its tag, and for booleans the value.
const TAG_PROBE: &'static str = r#"
(function () {
    var v = globalThis.__lastResult;
    if (v === undefined) { return [0]; }
    if (v === null) { return [1]; }
    var t = typeof v;
    if (t === 'number') { return [2]; }
    if (t === 'boolean') { return [3, v ? 1 : 0]; }
    if (t === 'string') { return [4]; }
    if (t === 'object') { return [5]; }
    return [6];
})()
"#;

/// The 64-bit IEEE-754 bit pattern of the last completion value, as two
/// 32-bit halves, low half first.
const NUMBER_BITS_PROBE: &'static str = r#"
(function () {
    var d = new DataView(new ArrayBuffer(8));
    d.setFloat64(0, globalThis.__lastResult, true);
    return [d.getUint32(0, true), d.getUint32(4, true)];
})()
"#;

/// The last completion value, which the tag probe showed to be a string.
const STRING_PROBE: &'static str = r#"globalThis.__lastResult"#;

/// How many console entries are buffered.
const CONSOLE_COUNT_PROBE: &'static str = r#"[globalThis.__consoleBuf.length]"#;

/// Level and argument count of the oldest buffered console entry.
const CONSOLE_HEAD_PROBE: &'static str = r#"
(function () {
    var e = globalThis.__consoleBuf[0];
    return [e[0], e[1].length];
})()
"#;

/// Kind of one argument of the oldest buffered console entry: already a
/// string, serialized by the engine, or unserializable.
const CONSOLE_PART_KIND_PROBE: &'static str =
    r#"[globalThis.__consoleBuf[0][1][globalThis.__argIndex][0]]"#;

/// Text of one argument of the oldest buffered console entry.
const CONSOLE_PART_TEXT_PROBE: &'static str =
    r#"globalThis.__consoleBuf[0][1][globalThis.__argIndex][1]"#;

/// Removes the oldest buffered console entry.
const CONSOLE_POP_PROBE: &'static str = r#"(globalThis.__consoleBuf.shift(), [])"#;

/// Commits a staged clock reading: both halves become visible to
/// `performance.now()` in one evaluation, so the script never observes a
/// torn pair (which could read as a backwards step once the high half is
/// non-zero).
const COMMIT_CLOCK_PROBE: &'static str =
    r#"(globalThis.__perfLo = globalThis.__perfLoNext, globalThis.__perfHi = globalThis.__perfHiNext, [])"#;

/// Engine creation failed; fatal at startup.
#[derive(Debug)]
pub struct EngineInitError {
    /// What went wrong.
    pub message: String,
}

/// A captured script exception, converted into an ordinary result at the
/// scoped-execution boundary.  Never crosses that boundary as an unwind.
#[derive(Debug)]
pub struct ScriptError {
    /// The exception's message and stack.
    pub message: String,
    /// The label of the execution during which it was raised.
    pub source_label: String,
}

/// One sandboxed runtime plus its persistent global execution context, the
/// performance clock feeding `performance.now()`, and the buffered lines for
/// the host's log sink.
pub struct JSContext {
    runtime: rquickjs::Runtime,
    context: rquickjs::Context,
    clock: PerformanceClock,
    logs: Vec<LogEntry>,
}

impl JSContext {
    /// The buffered log lines, for contracts.
    pub closed spec fn spec_logs(&self) -> Seq<LogEntry> {
        self.logs@
    }

    /// The performance clock's largest reported value, for contracts.
    pub closed spec fn spec_clock_last(&self) -> u64 {
        self.clock.spec_last()
    }

    /// Creates an isolated runtime and persistent global context, installs
    /// the emulated browser environment, and starts the performance clock.
    pub fn new() -> (r: Result<JSContext, EngineInitError>)
        ensures
            r matches Ok(c) ==> c.spec_logs() == Seq::<LogEntry>::empty()
                && c.spec_clock_last() == 0,
    {
        let rt = match new_runtime() {
            Ok(rt) => rt,
            Err(e) => {
                return Err(EngineInitError { message: js_error_message(&e) });
            }
        };
        let ctx = match new_context(&rt) {
            Ok(c) => c,
            Err(e) => {
                return Err(EngineInitError { message: js_error_message(&e) });
            }
        };
        match eval_capture(&ctx, BOOTSTRAP_SRC) {
            Ok(()) => {}
            Err(m) => {
                return Err(EngineInitError { message: m });
            }
        }
        Ok(
            JSContext {
                runtime: rt,
                context: ctx,
                clock: start_performance_timer(),
                logs: Vec::new(),
            },
        )
    }

    /// Opens one scoped execution: advances the performance clock and
    /// publishes the new reading to the script environment, so that
    /// `performance.now()` stays monotonically non-decreasing.
    pub(crate) fn begin_scope(&mut self) -> (r: Result<(), String>)
        ensures
            final(self).spec_clock_last() >= old(self).spec_clock_last(),
            final(self).spec_logs() == old(self).spec_logs(),
    {
        let ms = self.clock.now();
        let lo: u32 = (ms & 0xFFFF_FFFF) as u32;
        let hi: u32 = (ms >> 32) as u32;
        match set_global_u32(&self.context, "__perfLoNext", lo) {
            Ok(()) => {}
            Err(m) => {
                return Err(m);
            }
        }
        match set_global_u32(&self.context, "__perfHiNext", hi) {
            Ok(()) => {}
            Err(m) => {
                return Err(m);
            }
        }
        match probe_u32s(&self.context, COMMIT_CLOCK_PROBE) {
            Ok(_) => Ok(()),
            Err(m) => Err(m),
        }
    }

    /// Binds a global name to a string value without evaluating the string;
    /// used to hand payload text to the script safely.
    pub(crate) fn set_string_global(&mut self, name: &str, value: &str) -> (r: Result<(), String>)
        ensures
            *final(self) == *old(self),
    {
        set_global_string(&self.context, name, value)
    }

    /// Evaluates source text against the persistent global context inside one
    /// scoped execution with exception trapping; on success leaves the
    /// completion value behind for extraction.
    pub(crate) fn eval_scoped(&mut self, src: &str) -> (r: Result<(), String>)
        ensures
            *final(self) == *old(self),
    {
        eval_capture(&self.context, src)
    }

    /// Reduces the last completion value to a raw tagged value: probes the
    /// tag, then the payload the tag calls for.
    pub(crate) fn extract_last_result(&self) -> (r: Result<RawValue, String>) {
        let tag_v = match probe_u32s(&self.context, TAG_PROBE) {
            Ok(t) => t,
            Err(m) => {
                return Err(m);
            }
        };
        let tag = match decode_value_tag(&tag_v) {
            Some(t) => t,
            None => {
                return Err("value probe returned nothing".to_owned());
            }
        };
        match tag {
            ValueTag::Undefined => Ok(RawValue::Undefined),
            ValueTag::Null => Ok(RawValue::Null),
            ValueTag::Number => {
                let halves = match probe_u32s(&self.context, NUMBER_BITS_PROBE) {
                    Ok(b) => b,
                    Err(m) => {
                        return Err(m);
                    }
                };
                match decode_number_bits(&halves) {
                    Some(bits) => Ok(RawValue::Number(bits)),
                    None => Err("number probe returned the wrong shape".to_owned()),
                }
            }
            ValueTag::Bool(b) => Ok(RawValue::Bool(b)),
            ValueTag::Str => {
                match probe_string(&self.context, STRING_PROBE) {
                    Ok(s) => Ok(RawValue::Str(s)),
                    Err(m) => Err(m),
                }
            }
            ValueTag::Object => Ok(RawValue::Object),
            ValueTag::Other => Ok(RawValue::Other),
        }
    }

    /// Moves every buffered console entry into the host-side log lines,
    /// formatting each with the verified console formatter.  Only ever
    /// appends log lines; never touches the performance clock.
    pub(crate) fn drain_console(&mut self) -> (r: Result<(), String>)
        ensures
            final(self).spec_logs().len() >= old(self).spec_logs().len(),
            final(self).spec_clock_last() == old(self).spec_clock_last(),
    {
        let count_v = match probe_u32s(&self.context, CONSOLE_COUNT_PROBE) {
            Ok(c) => c,
            Err(m) => {
                return Err(m);
            }
        };
        if count_v.len() == 0 {
            return Err("console probe returned nothing".to_owned());
        }
        let count = count_v[0];
        let mut done: u32 = 0;
        while done < count
            invariant
                self.clock.spec_last() == old(self).spec_clock_last(),
                self.logs@.len() >= old(self).spec_logs().len(),
            decreases count - done,
        {
            let head = match probe_u32s(&self.context, CONSOLE_HEAD_PROBE) {
                Ok(h) => h,
                Err(m) => {
                    return Err(m);
                }
            };
            if head.len() < 2 {
                return Err("console probe returned nothing".to_owned());
            }
            let level = head[0];
            let nparts = head[1];
            let mut args: Vec<ConsoleArg> = Vec::new();
            let mut j: u32 = 0;
            while j < nparts
                invariant
                    self.clock.spec_last() == old(self).spec_clock_last(),
                    self.logs@.len() >= old(self).spec_logs().len(),
                decreases nparts - j,
            {
                match set_global_u32(&self.context, "__argIndex", j) {
                    Ok(()) => {}
                    Err(m) => {
                        return Err(m);
                    }
                }
                let kind_v = match probe_u32s(&self.context, CONSOLE_PART_KIND_PROBE) {
                    Ok(k) => k,
                    Err(m) => {
                        return Err(m);
                    }
                };
                if kind_v.len() == 0 {
                    return Err("console probe returned nothing".to_owned());
                }
                let kind = kind_v[0];
                if kind == 0 || kind == 1 {
                    match probe_string(&self.context, CONSOLE_PART_TEXT_PROBE) {
                        Ok(s) => args.push(console_arg_of(kind, s)),
                        Err(m) => {
                            return Err(m);
                        }
                    }
                } else {
                    args.push(console_arg_of(kind, String::new()));
                }
                j = j + 1;
            }
            self.logs.push(console_entry_for_level(level, &args));
            match probe_u32s(&self.context, CONSOLE_POP_PROBE) {
                Ok(_) => {}
                Err(m) => {
                    return Err(m);
                }
            }
            done = done + 1;
        }
        Ok(())
    }

    /// Compiles and executes top-level source inside one scoped execution,
    /// returning the last expression's value through value marshalling.
    /// Exceptions never propagate past this call: any raised exception comes
    /// back as a [`ScriptError`] labelled with `filename`.  Console output
    /// produced by the script is appended to the log lines either way, and
    /// the performance clock never goes backwards.
    pub fn run(&mut self, filename: &str, src: &str) -> (r: Result<
        crate::utils::Variant,
        ScriptError,
    >)
        ensures
            final(self).spec_clock_last() >= old(self).spec_clock_last(),
            final(self).spec_logs().len() >= old(self).spec_logs().len(),
            r matches Err(e) ==> e.source_label@ == filename@,
    {
        match self.begin_scope() {
            Ok(()) => {}
            Err(m) => {
                return Err(ScriptError { message: m, source_label: filename.to_owned() });
            }
        }
        match self.eval_scoped(src) {
            Ok(()) => {}
            Err(m) => {
                let _ = self.drain_console();
                return Err(ScriptError { message: m, source_label: filename.to_owned() });
            }
        }
        let raw = match self.extract_last_result() {
            Ok(raw) => raw,
            Err(m) => {
                let _ = self.drain_console();
                return Err(ScriptError { message: m, source_label: filename.to_owned() });
            }
        };
        let _ = self.drain_console();
        match crate::utils::js_value_to_godot_variant(raw) {
            Ok(v) => Ok(v),
            Err(_) => Err(
                ScriptError {
                    message: "script returned a value of unsupported type".to_owned(),
                    source_label: filename.to_owned(),
                },
            ),
        }
    }

    /// Hands every buffered log line to the caller and clears the buffer.
    pub fn take_logs(&mut self) -> (r: Vec<LogEntry>)
        ensures
            final(self).spec_logs() == Seq::<LogEntry>::empty(),
            r@ == old(self).spec_logs(),
            final(self).spec_clock_last() == old(self).spec_clock_last(),
    {
        let mut out: Vec<LogEntry> = Vec::new();
        core::mem::swap(&mut out, &mut self.logs);
        out
    }

    /// Appends one line to the host-side log buffer.
    pub(crate) fn push_log(&mut self, entry: LogEntry)
        ensures
            final(self).spec_logs() == old(self).spec_logs().push(entry),
            final(self).spec_clock_last() == old(self).spec_clock_last(),
    {
        self.logs.push(entry);
    }
}

/// Capacity, in frames, of each pre-allocated script-heap channel buffer.
/// Required frame counts never exceed it; the playback adapter clamps.
pub const MAX_SAMPLES: usize = 1024 * 1024;

/// Whether a virtual audio context is registered as the active one.
const HAS_CONTEXT_PROBE: &'static str = r#"
[(typeof globalThis.activeAudioContext === 'object'
    && globalThis.activeAudioContext !== null) ? 1 : 0]
"#;

/// Whether the active context's script processor has a process callback.
const HAS_CALLBACK_PROBE: &'static str = r#"
(function () {
    var c = globalThis.activeAudioContext;
    if (typeof c !== 'object' || c === null) { return [0]; }
    var p = c.scriptProcessor;
    if (typeof p !== 'object' || p === null) { return [0]; }
    return [typeof p.onaudioprocess === 'function' ? 1 : 0];
})()
"#;

/// Sets the output buffer length to the required frame count, builds the
/// transient event object wrapping the output buffer, and invokes the
/// process callback synchronously with the audio context as receiver.
const INVOKE_CALLBACK_SRC: &'static str = r#"
(function () {
    var c = globalThis.activeAudioContext;
    var buffer = c.outputBuffer;
    buffer.length = globalThis.__pollFrames;
    var ev = { outputBuffer: buffer };
    c.scriptProcessor.onaudioprocess.call(c, ev);
})()
"#;

/// The first `__pollFrames` samples of the left channel buffer, each as the
/// 32-bit IEEE-754 bit pattern of the sample.
const READ_LEFT_PROBE: &'static str = r#"
(function () {
    var b = globalThis.activeAudioContext.outputBuffer.leftChannelBuffer;
    var n = globalThis.__pollFrames;
    var u = new Uint32Array(b.buffer, 0, n);
    var out = [];
    for (var i = 0; i < n; i++) { out.push(u[i]); }
    return out;
})()
"#;

/// The first `__pollFrames` samples of the right channel buffer, each as the
/// 32-bit IEEE-754 bit pattern of the sample.
const READ_RIGHT_PROBE: &'static str = r#"
(function () {
    var b = globalThis.activeAudioContext.outputBuffer.rightChannelBuffer;
    var n = globalThis.__pollFrames;
    var u = new Uint32Array(b.buffer, 0, n);
    var out = [];
    for (var i = 0; i < n; i++) { out.push(u[i]); }
    return out;
})()
"#;

/// Why one audio poll produced no samples.
#[derive(Debug)]
pub enum PollError {
    /// The script has not constructed an audio context yet.  Not ready, not
    /// an error: the caller stays silent.
    NoActiveContext,
    /// The script has not installed a process callback yet.  Not ready, not
    /// an error: the caller stays silent.
    MissingCallback,
    /// The process callback raised an exception; it was captured.
    Script(ScriptError),
    /// The engine itself misbehaved (a probe failed or returned the wrong
    /// shape).
    Engine(String),
}

/// Accepts the two channel vectors read out of the script heap: exactly when
/// both hold the required number of samples, they replace the outputs bit
/// for bit, with no clamping, gain staging or any other transformation: the
/// script is authoritative for amplitude.  Any other shape leaves both
/// outputs untouched.
pub fn accept_polled_channels(
    required_frames: usize,
    left: Vec<u32>,
    right: Vec<u32>,
    out_left: &mut Vec<u32>,
    out_right: &mut Vec<u32>,
) -> (accepted: bool)
    ensures
        accepted == (left@.len() == required_frames && right@.len() == required_frames),
        accepted ==> final(out_left)@ == left@ && final(out_right)@ == right@,
        !accepted ==> final(out_left)@ == old(out_left)@ && final(out_right)@ == old(
            out_right,
        )@,
{
    if left.len() == required_frames && right.len() == required_frames {
        *out_left = left;
        *out_right = right;
        true
    } else {
        false
    }
}

/// Drives one process step of the emulated audio graph and extracts the
/// produced samples: looks up the installed process callback, sets the output
/// buffer length, invokes the callback synchronously with the context as
/// receiver, and copies exactly `required_frames` samples per channel out of
/// the script heap, each the untransformed bit pattern of the sample the
/// callback left there (see [`accept_polled_channels`]).
///
/// Atomicity: either both outputs are replaced by exactly `required_frames`
/// samples (as 32-bit IEEE-754 bit patterns), or neither output is touched.
/// Console output from the callback is preserved either way, and the
/// performance clock never goes backwards.
pub fn poll_audio(
    js: &mut JSContext,
    required_frames: usize,
    out_left: &mut Vec<u32>,
    out_right: &mut Vec<u32>,
) -> (r: Result<(), PollError>)
    requires
        required_frames <= MAX_SAMPLES,
    ensures
        r matches Ok(_) ==> final(out_left)@.len() == required_frames && final(out_right)@.len()
            == required_frames,
        r matches Err(_) ==> final(out_left)@ == old(out_left)@ && final(out_right)@ == old(
            out_right,
        )@,
        final(js).spec_clock_last() >= old(js).spec_clock_last(),
        final(js).spec_logs().len() >= old(js).spec_logs().len(),
{
    match js.begin_scope() {
        Ok(()) => {}
        Err(m) => {
            return Err(PollError::Engine(m));
        }
    }
    let has_ctx = match probe_u32s(&js.context, HAS_CONTEXT_PROBE) {
        Ok(v) => v,
        Err(m) => {
            return Err(PollError::Engine(m));
        }
    };
    if !(has_ctx.len() == 1 && has_ctx[0] == 1) {
        return Err(PollError::NoActiveContext);
    }
    let has_cb = match probe_u32s(&js.context, HAS_CALLBACK_PROBE) {
        Ok(v) => v,
        Err(m) => {
            return Err(PollError::Engine(m));
        }
    };
    if !(has_cb.len() == 1 && has_cb[0] == 1) {
        return Err(PollError::MissingCallback);
    }
    match set_global_u32(&js.context, "__pollFrames", required_frames as u32) {
        Ok(()) => {}
        Err(m) => {
            return Err(PollError::Engine(m));
        }
    }
    match eval_capture(&js.context, INVOKE_CALLBACK_SRC) {
        Ok(()) => {}
        Err(m) => {
            let _ = js.drain_console();
            return Err(
                PollError::Script(
                    ScriptError { message: m, source_label: "audio_poll".to_owned() },
                ),
            );
        }
    }
    let left = match probe_u32s(&js.context, READ_LEFT_PROBE) {
        Ok(v) => v,
        Err(m) => {
            let _ = js.drain_console();
            return Err(PollError::Engine(m));
        }
    };
    let right = match probe_u32s(&js.context, READ_RIGHT_PROBE) {
        Ok(v) => v,
        Err(m) => {
            let _ = js.drain_console();
            return Err(PollError::Engine(m));
        }
    };
    let _ = js.drain_console();
    if accept_polled_channels(required_frames, left, right, out_left, out_right) {
        Ok(())
    } else {
        Err(PollError::Engine("channel probe returned the wrong length".to_owned()))
    }
}

} // verus!
