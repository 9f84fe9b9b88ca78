//! Progress accounting: phases, their fixed windows of the global 0-100 bar,
//! and the events handed to the observer.

use vstd::prelude::*;

verus! {

/// A phase of the flash run, as shown to the observer.
#[derive(Clone, Copy, Debug, PartialEq, Eq, Structural)]
pub enum Phase {
    Download,
    Write,
    Configure,
    Eject,
    Complete,
}

/// First global percent of a phase's window.
pub open spec fn window_start(p: Phase) -> u32 {
    match p {
        Phase::Download => 0,
        Phase::Write => 25,
        Phase::Configure => 75,
        Phase::Eject => 90,
        Phase::Complete => 100,
    }
}

/// Last global percent of a phase's window.
pub open spec fn window_end(p: Phase) -> u32 {
    match p {
        Phase::Download => 25,
        Phase::Write => 75,
        Phase::Configure => 90,
        Phase::Eject => 100,
        Phase::Complete => 100,
    }
}

/// A sub-progress of 0-100 within a phase, mapped into the phase's window.
pub open spec fn in_window(p: Phase, sub: u32) -> u32 {
    (window_start(p) + sub * (window_end(p) - window_start(p)) / 100) as u32
}

/// `done` out of `total` as a percent, capped at `cap`; zero when the total
/// is unknown.
pub open spec fn ratio_percent(done: u64, total: u64, cap: u32) -> u32 {
    if total == 0 {
        0
    } else if done * 100 / (total as int) >= cap {
        cap
    } else {
        (done * 100 / (total as int)) as u32
    }
}

/// The observer's name of a phase.
pub open spec fn phase_name(p: Phase) -> Seq<char> {
    match p {
        Phase::Download => "download"@,
        Phase::Write => "write"@,
        Phase::Configure => "configure"@,
        Phase::Eject => "eject"@,
        Phase::Complete => "complete"@,
    }
}

impl Phase {
    /// The observer's name of the phase.
    pub fn name(&self) -> (r: &'static str)
        ensures
            r@ == phase_name(*self),
    {
        match self {
            Phase::Download => "download",
            Phase::Write => "write",
            Phase::Configure => "configure",
            Phase::Eject => "eject",
            Phase::Complete => "complete",
        }
    }

    /// First global percent of the phase's window.
    pub fn start(&self) -> (r: u32)
        ensures
            r == window_start(*self),
    {
        match self {
            Phase::Download => 0,
            Phase::Write => 25,
            Phase::Configure => 75,
            Phase::Eject => 90,
            Phase::Complete => 100,
        }
    }

    /// Last global percent of the phase's window.
    pub fn end(&self) -> (r: u32)
        ensures
            r == window_end(*self),
    {
        match self {
            Phase::Download => 25,
            Phase::Write => 75,
            Phase::Configure => 90,
            Phase::Eject => 100,
            Phase::Complete => 100,
        }
    }
}

/// Maps a phase's own 0-100 sub-progress into its window of the global bar.
pub fn global_percent(phase: Phase, sub: u32) -> (r: u32)
    requires
        sub <= 100,
    ensures
        r == in_window(phase, sub),
        window_start(phase) <= r <= window_end(phase),
{
    let s = phase.start();
    let e = phase.end();
    assert(sub * (e - s) / 100 <= e - s) by (nonlinear_arith)
        requires
            sub <= 100,
            s <= e,
    ;
    s + sub * (e - s) / 100
}

/// `done` out of `total` as a percent, capped at `cap` (zero when the total
/// is unknown).
pub fn percent_of(done: u64, total: u64, cap: u32) -> (r: u32)
    ensures
        r == ratio_percent(done, total, cap),
        r <= cap,
{
    if total == 0 {
        return 0;
    }
    let q: u128 = (done as u128) * 100 / (total as u128);
    if q >= cap as u128 {
        cap
    } else {
        q as u32
    }
}

/// One progress event as the observer receives it.
pub struct FlashProgress {
    pub step: String,
    pub percent: u32,
    pub message: String,
    pub speed: Option<String>,
}

impl FlashProgress {
    /// Builds the event of a phase at a global percent.
    pub fn new(phase: Phase, percent: u32, message: &str, speed: Option<&str>) -> (r: FlashProgress)
        ensures
            r.step@ == phase_name(phase),
            r.percent == percent,
            r.message@ == message@,
            r.speed is Some <==> speed is Some,
            speed is Some ==> r.speed->0@ == speed->0@,
    {
        let sp = match speed {
            Some(s) => Some(String::from_str(s)),
            None => None,
        };
        FlashProgress {
            step: String::from_str(phase.name()),
            percent,
            message: String::from_str(message),
            speed: sp,
        }
    }
}

impl FlashProgress {
    /// Builds an event under any phase name (the orchestrator's steps have
    /// their own).
    pub fn named(step: &str, percent: u32, message: &str) -> (r: FlashProgress)
        ensures
            r.step@ == step@,
            r.percent == percent,
            r.message@ == message@,
            r.speed is None,
    {
        FlashProgress {
            step: String::from_str(step),
            percent,
            message: String::from_str(message),
            speed: None,
        }
    }
}

} // verus!
