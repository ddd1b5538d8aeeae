//! The configuration object built once at startup and handed to each
//! component: window geometry, buffer capacity, fixed axis ranges, how
//! the payload word is to be read, and how the render loop acquires
//! samples from the ingestion channel.
//!
//! Two deployments of this system have been observed, and they disagree
//! on the payload interpretation, the y-axis floor and the channel
//! discipline; both stand here as named profiles rather than one being
//! guessed authoritative.

use vstd::prelude::*;

verus! {

/// How the 32-bit payload word is read into a physical value.
#[derive(Clone, Copy, PartialEq, Eq, Structural, Debug)]
pub enum PayloadKind {
    /// A two's-complement signed integer.
    Int32,
    /// A binary32 number.
    Float32,
}

/// How the render loop takes samples from the ingestion channel.
#[derive(Clone, Copy, PartialEq, Eq, Structural, Debug)]
pub enum Discipline {
    /// Try for one sample, redraw either way, then sleep a fixed delay.
    PollWithDelay,
    /// Block until a sample arrives and process exactly one per wake.
    Blocking,
}

/// Everything fixed at startup. Axis bounds are whole pascals and whole
/// seconds in both observed deployments, so they are carried as
/// integers; the renderer widens them when it draws.
#[derive(Clone, Copy, PartialEq, Eq, Structural, Debug)]
pub struct Config {
    /// Display surface width in pixels.
    pub width: usize,
    /// Display surface height in pixels.
    pub height: usize,
    /// Sliding-window capacity in samples.
    pub capacity: usize,
    /// The x axis runs from zero to this many seconds.
    pub x_max_seconds: u64,
    /// The y axis floor, in pascals.
    pub y_min_pa: i64,
    /// The y axis ceiling, in pascals.
    pub y_max_pa: i64,
    /// How the payload word is read.
    pub payload: PayloadKind,
    /// How the loop acquires samples.
    pub discipline: Discipline,
    /// Delay between frames under [`Discipline::PollWithDelay`], in
    /// milliseconds.
    pub frame_delay_ms: u64,
}

impl Config {
    /// A configuration the rest of the crate can be built on.
    pub open spec fn wf(self) -> bool {
        &&& self.width >= 1
        &&& self.height >= 1
        &&& self.capacity >= 1
        &&& self.x_max_seconds >= 1
        &&& self.y_min_pa < self.y_max_pa
    }

    /// The deployment whose payload is a binary32 word: y axis from
    /// -50,000 Pa, samples taken blocking, one per wake.
    pub fn float_profile() -> (c: Config)
        ensures
            c.wf(),
            c == (Config {
                width: 1600,
                height: 800,
                capacity: 1000,
                x_max_seconds: 120,
                y_min_pa: -50_000i64,
                y_max_pa: 2_500,
                payload: PayloadKind::Float32,
                discipline: Discipline::Blocking,
                frame_delay_ms: 0,
            }),
    {
        Config {
            width: 1600,
            height: 800,
            capacity: 1000,
            x_max_seconds: 120,
            y_min_pa: -50_000,
            y_max_pa: 2_500,
            payload: PayloadKind::Float32,
            discipline: Discipline::Blocking,
            frame_delay_ms: 0,
        }
    }

    /// The deployment whose payload is a signed integer word: y axis
    /// from -100,000 Pa, samples polled with a fixed frame delay.
    pub fn int_profile() -> (c: Config)
        ensures
            c.wf(),
            c == (Config {
                width: 1600,
                height: 800,
                capacity: 1000,
                x_max_seconds: 120,
                y_min_pa: -100_000i64,
                y_max_pa: 2_500,
                payload: PayloadKind::Int32,
                discipline: Discipline::PollWithDelay,
                frame_delay_ms: 15,
            }),
    {
        Config {
            width: 1600,
            height: 800,
            capacity: 1000,
            x_max_seconds: 120,
            y_min_pa: -100_000,
            y_max_pa: 2_500,
            payload: PayloadKind::Int32,
            discipline: Discipline::PollWithDelay,
            frame_delay_ms: 15,
        }
    }
}

} // verus!
