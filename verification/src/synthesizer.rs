//! The host-facing synthesizer object: engine lifecycle, the control path
//! (ready, resume, pause, import, eval) and the real-time tick path (mix).
//!
//! The tick path applies the no-block concurrency policy: one bounded
//! try-acquire of the execution guard, silence on contention, and escalation
//! only on a poisoned guard.  Every internal tick failure degrades to zero
//! frames plus a log line, so one bad tick never halts subsequent ticks.

use vstd::prelude::*;
use vstd::string::StringSliceAdditionalSpecFns;

use crate::guard::{ExecutionGuard, GuardState, TryAcquire};
use crate::js::{
    poll_audio, EngineInitError, JSContext, PollError, ScriptError, MAX_SAMPLES,
};
use crate::js_console::{LogEntry, Severity};
use crate::utils::Variant;

verus! {

/// One interleaved stereo frame, each channel as the 32-bit IEEE-754 bit
/// pattern of its sample.  The host reinterprets the bits as floats.
#[derive(Clone, Copy, PartialEq, Eq, Structural, Debug)]
pub struct AudioFrame {
    /// Left channel sample bits.
    pub left: u32,
    /// Right channel sample bits.
    pub right: u32,
}

/// The playback adapter's state machine.  `Idle` means ready but no virtual
/// audio context registered yet; `Active` fires the first time the script
/// constructs one, and there is no reverse transition.  A failed construction
/// leaves no synthesizer behind at all.
#[derive(Clone, Copy, PartialEq, Eq, Structural, Debug)]
pub enum EngineState {
    /// Ready; the script has not constructed an audio context yet.
    Idle,
    /// A virtual audio context has been observed; producing.
    Active,
}

/// The one fatal runtime condition on the tick path.
#[derive(Clone, Copy, PartialEq, Eq, Structural, Debug)]
pub enum MixFatal {
    /// A prior holder of the execution guard failed catastrophically.
    /// Recovery is process-level: abort or full engine re-creation.
    GuardPoisoned,
}

/// Where an import path is resolved.
#[derive(Clone, Copy, PartialEq, Eq, Structural, Debug)]
pub enum ImportSource {
    /// A recognized resource URI, resolved by the host resource loader.
    HostResource,
    /// A plain filesystem path.
    FileSystem,
}

/// Why an import was aborted.  Playback state is unaffected either way.
#[derive(Debug)]
pub enum ImportError {
    /// The payload could not be read (not found or unreadable).
    ImportIoError(String),
    /// The script rejected the payload.
    ImportScriptError(ScriptError),
}

/// Whether a path names a host resource: it starts with the bytes of the
/// resource URI prefix `res://` in ASCII.
pub open spec fn is_host_resource_path(path: &str) -> bool {
    &&& path.spec_bytes().len() >= 6
    &&& path.spec_bytes()[0] == 114u8
    &&& path.spec_bytes()[1] == 101u8
    &&& path.spec_bytes()[2] == 115u8
    &&& path.spec_bytes()[3] == 58u8
    &&& path.spec_bytes()[4] == 47u8
    &&& path.spec_bytes()[5] == 47u8
}

/// Decides how an import path is loaded: a path with the recognized resource
/// URI prefix goes to the host resource loader, anything else is read as a
/// plain filesystem path.
pub fn classify_import_path(path: &str) -> (r: ImportSource)
    ensures
        r == ImportSource::HostResource <==> is_host_resource_path(path),
{
    let b = path.as_bytes();
    if b.len() >= 6 && b[0] == 114 && b[1] == 101 && b[2] == 115 && b[3] == 58 && b[4] == 47
        && b[5] == 47 {
        ImportSource::HostResource
    } else {
        ImportSource::FileSystem
    }
}

/// The frame count one tick actually services: the requested count, clamped
/// to the capacity of the script-heap channel buffers.
pub open spec fn clamped_frames(frames: usize) -> usize {
    if frames <= MAX_SAMPLES {
        frames
    } else {
        MAX_SAMPLES
    }
}

/// The song counter after one more successful import.
pub open spec fn next_song_count(n: u64) -> u64 {
    if n < u64::MAX {
        (n + 1) as u64
    } else {
        n
    }
}

/// The control snippet that instantiates the script's synthesizer object.
const SYNTH_INIT_SRC: &'static str = "synth = new beepbox.Synth()";

/// The control snippet behind `resume`.
const RESUME_SRC: &'static str = "synth.resetEffects(); synth.play()";

/// The control snippet behind `pause`.
const PAUSE_SRC: &'static str = "synth.pause()";

/// The control snippet that hands an import payload to the script's
/// song-loading entry.  The payload text is bound to a global beforehand,
/// never spliced into source, so its content cannot change the code run.
const SET_SONG_SRC: &'static str = "synth.setSong(globalThis.__importPayload)";

/// Interleaves polled channel samples into the front of the destination, in
/// the host's native frame layout: frame `i` carries left channel sample `i`
/// and right channel sample `i`, bit for bit, and everything past the
/// written prefix is left unchanged.
pub fn write_frames(dest: &mut Vec<AudioFrame>, left: &Vec<u32>, right: &Vec<u32>, n: usize)
    requires
        n <= old(dest)@.len(),
        n <= left@.len(),
        n <= right@.len(),
    ensures
        final(dest)@.len() == old(dest)@.len(),
        forall|i: int|
            0 <= i < n ==> final(dest)@[i] == (AudioFrame {
                left: left@[i],
                right: right@[i],
            }),
        forall|i: int| n <= i < old(dest)@.len() ==> final(dest)@[i] == old(dest)@[i],
{
    let mut i: usize = 0;
    while i < n
        invariant
            i <= n,
            n <= dest@.len(),
            n <= left@.len(),
            n <= right@.len(),
            dest@.len() == old(dest)@.len(),
            forall|j: int| i <= j < dest@.len() ==> dest@[j] == old(dest)@[j],
            forall|j: int|
                0 <= j < i ==> dest@[j] == (AudioFrame { left: left@[j], right: right@[j] }),
        decreases n - i,
    {
        dest[i] = AudioFrame { left: left[i], right: right[i] };
        i = i + 1;
    }
}

/// The host-facing synthesizer: one engine instance, the execution guard,
/// the playback state machine, and a count of successfully imported songs.
pub struct Synthesizer {
    js: JSContext,
    guard: ExecutionGuard,
    state: EngineState,
    songs_loaded: u64,
}

impl Synthesizer {
    /// The guard's state, for contracts.
    pub closed spec fn spec_guard(&self) -> GuardState {
        self.guard.spec_state()
    }

    /// The playback state, for contracts.
    pub closed spec fn spec_state(&self) -> EngineState {
        self.state
    }

    /// How many imports have succeeded, for contracts.
    pub closed spec fn spec_songs_loaded(&self) -> u64 {
        self.songs_loaded
    }

    /// The buffered log lines, for contracts.
    pub closed spec fn spec_logs(&self) -> Seq<LogEntry> {
        self.js.spec_logs()
    }

    /// Builds the engine instance and installs the emulated environment.
    /// Failure is fatal at startup: no synthesizer exists then.
    pub fn init() -> (r: Result<Synthesizer, EngineInitError>)
        ensures
            r matches Ok(s) ==> s.spec_guard() == GuardState::Open && s.spec_state()
                == EngineState::Idle && s.spec_songs_loaded() == 0,
    {
        let js = match JSContext::new() {
            Ok(js) => js,
            Err(e) => {
                return Err(e);
            }
        };
        Ok(
            Synthesizer {
                js,
                guard: ExecutionGuard::new(),
                state: EngineState::Idle,
                songs_loaded: 0,
            },
        )
    }

    /// Loads the synthesizer script into the global context and runs its one
    /// initialization call.  Any raised exception comes back labelled with
    /// the script's name or the initialization label.
    pub fn ready(&mut self, script_source: &str) -> (r: Result<(), ScriptError>)
        requires
            old(self).spec_guard() == GuardState::Open,
        ensures
            final(self).spec_guard() == GuardState::Open,
            final(self).spec_state() == old(self).spec_state(),
            final(self).spec_songs_loaded() == old(self).spec_songs_loaded(),
            r matches Err(e) ==> e.source_label@ == "beepbox_synth.js"@ || e.source_label@
                == "synth_init"@,
    {
        let _t = self.guard.try_acquire();
        let first = self.js.run("beepbox_synth.js", script_source);
        match first {
            Ok(_) => {}
            Err(e) => {
                self.guard.release();
                return Err(e);
            }
        }
        let second = self.js.run("synth_init", SYNTH_INIT_SRC);
        self.guard.release();
        match second {
            Ok(_) => Ok(()),
            Err(e) => Err(e),
        }
    }

    /// Invokes the fixed control snippet that starts playback.
    pub fn resume(&mut self) -> (r: Result<(), ScriptError>)
        requires
            old(self).spec_guard() == GuardState::Open,
        ensures
            final(self).spec_guard() == GuardState::Open,
            final(self).spec_state() == old(self).spec_state(),
            final(self).spec_songs_loaded() == old(self).spec_songs_loaded(),
            r matches Err(e) ==> e.source_label@ == "resume"@,
    {
        let _t = self.guard.try_acquire();
        let result = self.js.run("resume", RESUME_SRC);
        self.guard.release();
        match result {
            Ok(_) => Ok(()),
            Err(e) => Err(e),
        }
    }

    /// Invokes the fixed control snippet that pauses playback.
    pub fn pause(&mut self) -> (r: Result<(), ScriptError>)
        requires
            old(self).spec_guard() == GuardState::Open,
        ensures
            final(self).spec_guard() == GuardState::Open,
            final(self).spec_state() == old(self).spec_state(),
            final(self).spec_songs_loaded() == old(self).spec_songs_loaded(),
            r matches Err(e) ==> e.source_label@ == "pause"@,
    {
        let _t = self.guard.try_acquire();
        let result = self.js.run("pause", PAUSE_SRC);
        self.guard.release();
        match result {
            Ok(_) => Ok(()),
            Err(e) => Err(e),
        }
    }

    /// Executes arbitrary script text and returns its value as a host
    /// variant.  A debug escape hatch, not part of the steady-state pipeline.
    pub fn eval(&mut self, code: &str) -> (r: Result<Variant, ScriptError>)
        requires
            old(self).spec_guard() == GuardState::Open,
        ensures
            final(self).spec_guard() == GuardState::Open,
            final(self).spec_state() == old(self).spec_state(),
            final(self).spec_songs_loaded() == old(self).spec_songs_loaded(),
            r matches Err(e) ==> e.source_label@ == "eval"@,
    {
        let _t = self.guard.try_acquire();
        let result = self.js.run("eval", code);
        self.guard.release();
        result
    }

    /// Hands a loaded song payload to the script's song-loading entry.
    ///
    /// The caller resolves the path (see [`classify_import_path`]) and loads
    /// the text; a failed load arrives as `Err` and is returned as
    /// [`ImportError::ImportIoError`] with the synthesizer completely
    /// untouched, so any previously loaded song remains active.  A payload
    /// the script rejects comes back as [`ImportError::ImportScriptError`],
    /// and the song count is unchanged; only a successful hand-off counts.
    pub fn import(&mut self, loaded: Result<String, String>) -> (r: Result<(), ImportError>)
        requires
            old(self).spec_guard() == GuardState::Open,
        ensures
            final(self).spec_guard() == GuardState::Open,
            final(self).spec_state() == old(self).spec_state(),
            loaded matches Err(m) ==> r == Err::<(), ImportError>(ImportError::ImportIoError(m)) && *final(self)
                == *old(self),
            r matches Ok(_) ==> final(self).spec_songs_loaded() == next_song_count(
                old(self).spec_songs_loaded(),
            ) && (loaded matches Ok(_)),
            r matches Err(_) ==> final(self).spec_songs_loaded() == old(
                self,
            ).spec_songs_loaded(),
    {
        let contents = match loaded {
            Ok(c) => c,
            Err(m) => {
                return Err(ImportError::ImportIoError(m));
            }
        };
        let _t = self.guard.try_acquire();
        match self.js.set_string_global("__importPayload", contents.as_str()) {
            Ok(()) => {}
            Err(m) => {
                self.guard.release();
                return Err(
                    ImportError::ImportScriptError(
                        ScriptError { message: m, source_label: "import".to_owned() },
                    ),
                );
            }
        }
        let result = self.js.run("import", SET_SONG_SRC);
        self.guard.release();
        match result {
            Ok(_) => {
                if self.songs_loaded < u64::MAX {
                    self.songs_loaded = self.songs_loaded + 1;
                }
                Ok(())
            }
            Err(e) => Err(ImportError::ImportScriptError(e)),
        }
    }

    /// Hands every buffered log line to the host's log sink and clears the
    /// buffer.
    pub fn take_logs(&mut self) -> (r: Vec<LogEntry>)
        requires
            old(self).spec_guard() == GuardState::Open,
        ensures
            final(self).spec_guard() == GuardState::Open,
            final(self).spec_logs() == Seq::<LogEntry>::empty(),
            r@ == old(self).spec_logs(),
            final(self).spec_state() == old(self).spec_state(),
            final(self).spec_songs_loaded() == old(self).spec_songs_loaded(),
    {
        let _t = self.guard.try_acquire();
        let logs = self.js.take_logs();
        self.guard.release();
        logs
    }

    /// The playback adapter's current state.
    pub fn playback_state(&self) -> (r: EngineState)
        ensures
            r == self.spec_state(),
    {
        self.state
    }

    /// How many imports have succeeded so far.
    pub fn songs_loaded(&self) -> (r: u64)
        ensures
            r == self.spec_songs_loaded(),
    {
        self.songs_loaded
    }

    /// The execution guard's current state.
    pub fn guard_state(&self) -> (r: GuardState)
        ensures
            r == self.spec_guard(),
    {
        if self.guard.is_poisoned() {
            GuardState::Poisoned
        } else if self.guard.is_held() {
            GuardState::Held
        } else {
            GuardState::Open
        }
    }

    /// Marks the execution guard poisoned.  The host calls this when a prior
    /// engine entry failed catastrophically while holding the guard.
    pub fn poison_guard(&mut self)
        ensures
            final(self).spec_guard() == GuardState::Poisoned,
            final(self).spec_state() == old(self).spec_state(),
            final(self).spec_songs_loaded() == old(self).spec_songs_loaded(),
    {
        self.guard.poison();
    }

    /// Seizes the guard, standing for another call source currently inside
    /// the engine; lets hosts and tests exercise the tick path's contention
    /// policy.
    pub fn hold_guard(&mut self)
        requires
            old(self).spec_guard() == GuardState::Open,
        ensures
            final(self).spec_guard() == GuardState::Held,
            final(self).spec_state() == old(self).spec_state(),
            final(self).spec_songs_loaded() == old(self).spec_songs_loaded(),
    {
        let _t = self.guard.try_acquire();
    }

    /// Releases a guard seized with [`Synthesizer::hold_guard`].
    pub fn release_guard(&mut self)
        requires
            old(self).spec_guard() == GuardState::Held,
        ensures
            final(self).spec_guard() == GuardState::Open,
            final(self).spec_state() == old(self).spec_state(),
            final(self).spec_songs_loaded() == old(self).spec_songs_loaded(),
    {
        self.guard.release();
    }

    /// The per-tick entry point.  Tries the execution guard exactly once:
    /// on contention it returns zero frames without waiting; a poisoned
    /// guard is the one condition that escalates, and it is reported if and
    /// only if it holds.  Otherwise it polls the audio bridge for the
    /// destination's frame count (clamped to the buffer capacity) and writes
    /// the produced frames into the front of the destination in the host's
    /// frame layout (see [`write_frames`]); every internal failure is
    /// downgraded to zero frames plus a log line.  Zero frames
    /// always means an untouched destination, a written prefix leaves the
    /// rest of the destination unchanged, and playback state never leaves
    /// `Active`.
    pub fn mix(&mut self, dest: &mut Vec<AudioFrame>, frames: usize) -> (r: Result<
        usize,
        MixFatal,
    >)
        requires
            frames <= old(dest)@.len(),
        ensures
            (r matches Err(_)) <==> old(self).spec_guard() == GuardState::Poisoned,
            r matches Err(_) ==> final(dest)@ == old(dest)@ && *final(self) == *old(self),
            old(self).spec_guard() == GuardState::Held ==> r == Ok::<usize, MixFatal>(0usize) && final(dest)@ == old(
                dest,
            )@ && *final(self) == *old(self),
            r matches Ok(k) ==> k == 0 || k == clamped_frames(frames),
            r == Ok::<usize, MixFatal>(0usize) ==> final(dest)@ == old(dest)@,
            r matches Ok(k) ==> final(dest)@.len() == old(dest)@.len() && (forall|i: int|
                k <= i < old(dest)@.len() ==> final(dest)@[i] == old(dest)@[i]),
            old(self).spec_guard() == GuardState::Open ==> final(self).spec_guard()
                == GuardState::Open,
            old(self).spec_state() == EngineState::Active ==> final(self).spec_state()
                == EngineState::Active,
            r matches Ok(k) ==> k > 0 ==> final(self).spec_state() == EngineState::Active,
            final(self).spec_state() == EngineState::Active || final(self).spec_state() == old(
                self,
            ).spec_state(),
            final(self).spec_logs().len() >= old(self).spec_logs().len(),
            final(self).spec_songs_loaded() == old(self).spec_songs_loaded(),
    {
        match self.guard.try_acquire() {
            TryAcquire::Contended => {
                return Ok(0);
            }
            TryAcquire::Poisoned => {
                return Err(MixFatal::GuardPoisoned);
            }
            TryAcquire::Acquired => {}
        }
        let n = if frames <= MAX_SAMPLES {
            frames
        } else {
            MAX_SAMPLES
        };
        let mut left: Vec<u32> = Vec::new();
        let mut right: Vec<u32> = Vec::new();
        let polled = poll_audio(&mut self.js, n, &mut left, &mut right);
        match polled {
            Ok(()) => {
                self.state = EngineState::Active;
                write_frames(dest, &left, &right, n);
                self.guard.release();
                Ok(n)
            }
            Err(PollError::NoActiveContext) => {
                self.guard.release();
                Ok(0)
            }
            Err(PollError::MissingCallback) => {
                self.state = EngineState::Active;
                self.guard.release();
                Ok(0)
            }
            Err(PollError::Script(e)) => {
                self.js.push_log(LogEntry { severity: Severity::Error, message: e.message });
                self.guard.release();
                Ok(0)
            }
            Err(PollError::Engine(m)) => {
                self.js.push_log(LogEntry { severity: Severity::Error, message: m });
                self.guard.release();
                Ok(0)
            }
        }
    }
}

} // verus!
