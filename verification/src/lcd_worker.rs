//! Decisions of the thread that owns the LCD: when to open or release the
//! panel, when to keep it alive, and which readings are worth a new frame.
//! The thread itself, its channel and the device I/O belong to the caller,
//! which performs the returned actions and reports their outcome.

use crate::config::TempSource;
use crate::control::{gauge_key, GaugeFrame, GaugeKey};
use crate::smoothing::{smoothed, Smoother};
use vstd::prelude::*;

verus! {

/// Messages the control loop posts to the LCD thread.
#[derive(Clone, Copy, Debug, PartialEq, Eq, Structural)]
pub enum Command {
    SetEnabled(bool),
    Show { source: TempSource, temp_mdeg: Option<i32> },
    Shutdown,
}

/// Whether `next`, found queued behind a `Show`, replaces it: only a newer
/// `Show` does; anything else waits for the next round, in order.
pub fn supersedes(next: &Command) -> (b: bool)
    ensures
        b == (next is Show),
{
    match next {
        Command::Show { .. } => true,
        _ => false,
    }
}

/// One step of draining the queue behind a `Show` about to run.
#[derive(Clone, Copy, Debug, PartialEq, Eq, Structural)]
pub enum DrainStep {
    /// A newer `Show` replaces the one about to run; keep draining.
    Continue(Command),
    /// Stop draining: run `cmd`, and hold back `held`, if any, for the next
    /// round.
    Run { cmd: Command, held: Option<Command> },
}

pub open spec fn drain_result(latest: Command, next: Option<Command>) -> DrainStep {
    match next {
        None => DrainStep::Run { cmd: latest, held: None },
        Some(n) => if n is Show {
            DrainStep::Continue(n)
        } else {
            DrainStep::Run { cmd: latest, held: Some(n) }
        },
    }
}

/// Decides one step of draining the queue while `latest` waits to run and
/// `next` is the command found queued behind it (`None` once the queue is
/// empty): a newer reading replaces `latest`, anything else stops the
/// draining and waits for the next round, in order.
pub fn drain_step(latest: Command, next: Option<Command>) -> (s: DrainStep)
    ensures
        s == drain_result(latest, next),
{
    match next {
        None => DrainStep::Run { cmd: latest, held: None },
        Some(n) => if supersedes(&n) {
            DrainStep::Continue(n)
        } else {
            DrainStep::Run { cmd: latest, held: Some(n) }
        },
    }
}

/// What turning the gauge on or off takes.
pub enum EnableAction<C> {
    /// Try to open the device.
    Open,
    /// Hand this controller's panel back to the built-in screen.
    Release(C),
    Nothing,
}

/// What a keep-alive deadline takes.
#[derive(Clone, Copy, Debug, PartialEq, Eq, Structural)]
pub enum TickAction {
    /// Re-commit the frame on screen.
    Commit,
    /// The panel is wanted but not open: retry opening it.
    Open,
    Nothing,
}

/// State of the LCD thread, generic over the device controller `C`.
pub struct WorkerState<C> {
    pub want_enabled: bool,
    pub ctl: Option<C>,
    /// An open failure has been reported since the panel was last wanted.
    pub init_failed_logged: bool,
    pub smoother: Smoother,
    pub last_source: Option<TempSource>,
    pub last_rendered: Option<GaugeKey>,
}

/// Weight of each new reading in the LCD thread's moving average, in
/// thousandths.
pub const WORKER_SMOOTHING_PERMILLE: u32 = 300;

impl<C> WorkerState<C> {
    /// The state before any command: panel not wanted, nothing open.
    pub fn new() -> (s: Self)
        ensures
            !s.want_enabled,
            s.ctl is None,
            !s.init_failed_logged,
            s.smoother.current() is None,
            s.smoother.alpha() == WORKER_SMOOTHING_PERMILLE,
            s.last_source is None,
            s.last_rendered is None,
    {
        WorkerState {
            want_enabled: false,
            ctl: None,
            init_failed_logged: false,
            smoother: Smoother::new(WORKER_SMOOTHING_PERMILLE),
            last_source: None,
            last_rendered: None,
        }
    }

    /// Records whether the gauge is wanted and says what that takes: open
    /// the device if wanted and closed (a fresh failure will be reported
    /// again), release it if open and no longer wanted.
    pub fn set_enabled(&mut self, enabled: bool) -> (a: EnableAction<C>)
        ensures
            final(self).want_enabled == enabled,
            final(self).smoother == old(self).smoother,
            final(self).last_source == old(self).last_source,
            final(self).last_rendered == old(self).last_rendered,
            enabled && old(self).ctl is None ==> a is Open && !final(self).init_failed_logged
                && final(self).ctl is None,
            !enabled && old(self).ctl is Some ==> (a matches EnableAction::Release(c) && Some(c)
                == old(self).ctl) && final(self).ctl is None && final(self).init_failed_logged
                == old(self).init_failed_logged,
            enabled == old(self).ctl is Some ==> a is Nothing && final(self).ctl == old(self).ctl
                && final(self).init_failed_logged == old(self).init_failed_logged,
    {
        self.want_enabled = enabled;
        if enabled && self.ctl.is_none() {
            self.init_failed_logged = false;
            EnableAction::Open
        } else if !enabled && self.ctl.is_some() {
            match self.ctl.take() {
                Some(c) => EnableAction::Release(c),
                None => EnableAction::Nothing,
            }
        } else {
            EnableAction::Nothing
        }
    }

    /// The keep-alive deadline: re-commit if open, retry opening if wanted.
    pub fn tick(&self) -> (a: TickAction)
        ensures
            a == (if self.ctl is Some {
                TickAction::Commit
            } else if self.want_enabled {
                TickAction::Open
            } else {
                TickAction::Nothing
            }),
    {
        if self.ctl.is_some() {
            TickAction::Commit
        } else if self.want_enabled {
            TickAction::Open
        } else {
            TickAction::Nothing
        }
    }

    /// The device opened: the gauge starts over from a fresh average and
    /// renders its next reading.
    pub fn opened(&mut self, ctl: C)
        ensures
            final(self).ctl == Some(ctl),
            !final(self).init_failed_logged,
            final(self).smoother.current() is None,
            final(self).smoother.alpha() == old(self).smoother.alpha(),
            final(self).last_rendered is None,
            final(self).want_enabled == old(self).want_enabled,
            final(self).last_source == old(self).last_source,
    {
        self.ctl = Some(ctl);
        self.init_failed_logged = false;
        self.smoother.reset();
        self.last_rendered = None;
    }

    /// The device failed to open. Returns whether this is the first failure
    /// since the panel was wanted, the one worth a warning; later retries
    /// only merit a debug note.
    pub fn open_failed(&mut self) -> (first: bool)
        ensures
            first == !old(self).init_failed_logged,
            final(self).init_failed_logged,
            final(self).ctl == old(self).ctl,
            final(self).want_enabled == old(self).want_enabled,
            final(self).smoother == old(self).smoother,
            final(self).last_source == old(self).last_source,
            final(self).last_rendered == old(self).last_rendered,
    {
        let first = !self.init_failed_logged;
        self.init_failed_logged = true;
        first
    }

    /// The device stopped answering (a failed commit or upload): drop it so
    /// the next deadline re-opens it, and render afresh once it is back.
    pub fn device_failed(&mut self)
        ensures
            final(self).ctl is None,
            final(self).last_rendered is None,
            final(self).want_enabled == old(self).want_enabled,
            final(self).init_failed_logged == old(self).init_failed_logged,
            final(self).smoother == old(self).smoother,
            final(self).last_source == old(self).last_source,
    {
        self.ctl = None;
        self.last_rendered = None;
    }

    /// A new reading to show. Nothing happens while the panel is closed.
    /// Switching source restarts the average. The frame is skipped when the
    /// panel already shows this source at the same whole-degree value.
    pub fn show(&mut self, source: TempSource, temp_mdeg: Option<i32>) -> (f: Option<GaugeFrame>)
        ensures
            final(self).ctl == old(self).ctl,
            final(self).want_enabled == old(self).want_enabled,
            final(self).init_failed_logged == old(self).init_failed_logged,
            final(self).last_rendered == old(self).last_rendered,
            final(self).smoother.alpha() == old(self).smoother.alpha(),
            old(self).ctl is None ==> f is None && final(self).smoother == old(self).smoother
                && final(self).last_source == old(self).last_source,
            old(self).ctl is Some ==> ({
                let prev = if old(self).last_source == Some(source) {
                    old(self).smoother.current()
                } else {
                    None
                };
                let v = final(self).smoother.current();
                &&& final(self).last_source == Some(source)
                &&& match smoothed(prev, temp_mdeg, old(self).smoother.alpha()) {
                    Some(x) => v == Some(x as i64),
                    None => v is None,
                }
                &&& if old(self).last_rendered == Some(gauge_key(source, v)) {
                    f is None
                } else {
                    f == Some(GaugeFrame { source, temp_udeg: v, key: gauge_key(source, v) })
                }
            }),
    {
        if self.ctl.is_none() {
            return None;
        }
        let same = match self.last_source {
            Some(s) => s == source,
            None => false,
        };
        if !same {
            self.smoother.reset();
            self.last_source = Some(source);
        }
        let v = self.smoother.update(temp_mdeg);
        let key = crate::control::gauge_key_of(source, v);
        let shown = match self.last_rendered {
            Some(k) => k == key,
            None => false,
        };
        if shown {
            None
        } else {
            Some(GaugeFrame { source, temp_udeg: v, key })
        }
    }

    /// A frame reached the panel.
    pub fn rendered(&mut self, key: GaugeKey)
        ensures
            final(self).last_rendered == Some(key),
            final(self).ctl == old(self).ctl,
            final(self).want_enabled == old(self).want_enabled,
            final(self).init_failed_logged == old(self).init_failed_logged,
            final(self).smoother == old(self).smoother,
            final(self).last_source == old(self).last_source,
    {
        self.last_rendered = Some(key);
    }
}

} // verus!
