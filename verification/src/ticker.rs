use crate::request::{RequestView, UniverseGridRequest};
use crate::universe::{Universe, UniverseView};
use vstd::prelude::*;

verus! {

/// How long a ticker waits before each generation.
pub const TICK_PERIOD_MS: u64 = 200;

/// What has happened to a ticker.
#[derive(Debug, Clone, Copy, PartialEq, Eq, Structural)]
pub enum TickerEvent {
    /// Its thread has begun.
    Spawned,
    /// The stopper was probed; the probe was delivered if the other end is still
    /// there to receive it.
    Probed { delivered: bool },
    /// The wait is over.
    Slept,
    /// The request was posted to the grid.
    Posted,
}

/// What a ticker does next.
#[derive(Debug)]
pub enum TickerAction {
    /// Probe the stopper.
    Probe,
    /// Wait.
    Sleep { delay_ms: u64 },
    /// Post a request to the grid.
    Post(UniverseGridRequest),
    /// End for good.
    Exit,
}

/// The mathematical content of an action.
pub enum TickerActionView {
    Probe,
    Sleep { delay_ms: u64 },
    Post(RequestView),
    Exit,
}

impl View for TickerAction {
    type V = TickerActionView;

    open spec fn view(&self) -> TickerActionView {
        match *self {
            TickerAction::Probe => TickerActionView::Probe,
            TickerAction::Sleep { delay_ms } => TickerActionView::Sleep { delay_ms },
            TickerAction::Post(request) => TickerActionView::Post(request@),
            TickerAction::Exit => TickerActionView::Exit,
        }
    }
}

impl TickerAction {
    /// A universe that is posted is rectangular.
    pub open spec fn wf(&self) -> bool {
        match *self {
            TickerAction::Post(request) => request.wf(),
            _ => true,
        }
    }
}

impl UniverseView {
    /// What a ticker over this universe does after an event: it goes on as long as
    /// its probes are delivered, and posts a new generation after each wait.
    pub open spec fn ticker_action(self, event: TickerEvent) -> TickerActionView {
        match event {
            TickerEvent::Spawned => TickerActionView::Probe,
            TickerEvent::Probed { delivered: true } => TickerActionView::Sleep {
                delay_ms: TICK_PERIOD_MS,
            },
            TickerEvent::Probed { delivered: false } => TickerActionView::Exit,
            TickerEvent::Slept => TickerActionView::Post(
                RequestView::Redraw(Some(self.next_generation())),
            ),
            TickerEvent::Posted => TickerActionView::Probe,
        }
    }

    /// The universe of a ticker after an event.
    pub open spec fn after_ticker_event(self, event: TickerEvent) -> UniverseView {
        if event is Slept {
            self.next_generation()
        } else {
            self
        }
    }
}

/// The simulation behind a running grid, with a universe of its own.
#[derive(Debug)]
pub struct Ticker {
    universe: Universe,
}

impl View for Ticker {
    type V = UniverseView;

    closed spec fn view(&self) -> UniverseView {
        self.universe@
    }
}

impl Ticker {
    pub closed spec fn wf(&self) -> bool {
        self.universe.wf()
    }

    /// A ticker that starts from `universe`.
    pub fn new(universe: Universe) -> (ticker: Ticker)
        requires
            universe.wf(),
        ensures
            ticker.wf(),
            ticker@ == universe@,
    {
        Ticker { universe }
    }

    /// Reacts to an event with the next thing to do.
    pub fn on_event(&mut self, event: TickerEvent) -> (action: TickerAction)
        requires
            old(self).wf(),
        ensures
            final(self).wf(),
            final(self)@ == old(self)@.after_ticker_event(event),
            action.wf(),
            action@ == old(self)@.ticker_action(event),
    {
        match event {
            TickerEvent::Spawned => TickerAction::Probe,
            TickerEvent::Probed { delivered } => {
                if delivered {
                    TickerAction::Sleep { delay_ms: TICK_PERIOD_MS }
                } else {
                    TickerAction::Exit
                }
            },
            TickerEvent::Slept => {
                self.universe.tick();
                TickerAction::Post(UniverseGridRequest::Redraw(Some(self.universe.clone())))
            },
            TickerEvent::Posted => TickerAction::Probe,
        }
    }
}

} // verus!
