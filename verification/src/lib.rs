//! Embeds a sandboxed JavaScript engine inside a real-time audio host so that
//! a browser-oriented synthesizer script can generate sound without a browser.
//!
//! The host periodically requests fixed-size blocks of interleaved stereo
//! samples; the script computes them against a small emulated Web-Audio-like
//! environment.  The crate covers the scripting bridge: engine lifecycle and
//! exception capture, the emulated audio-graph environment, the
//! tick-synchronous protocol moving samples from script-owned buffers into the
//! host's buffer under a strict no-block policy, and value marshalling across
//! the engine boundary.
//!
//! Sample values travel through this crate as raw IEEE-754 single-precision
//! bit patterns (`u32`), so that the copy protocol can be verified without
//! floating-point reasoning; the host converts bit patterns back to floats.

pub mod guard;
pub mod js;
pub mod js_console;
pub mod performance;
pub mod synthesizer;
pub mod utils;
