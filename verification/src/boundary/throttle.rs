//! Time-budgeted progress emission: bursts of updates are coalesced so that the listener
//! sees at most one update per interval, and the latest update is never lost.

use vstd::prelude::*;
use crate::boundary::events::ScanProgressPayload;

verus! {

/// Where throttled progress goes.
pub trait ProgressSink {
    /// The sink went from `self` to `after` by receiving `payload`. What receiving does
    /// to a sink is left to each implementation.
    closed spec fn received(&self, after: &Self, payload: ScanProgressPayload) -> bool {
        true
    }

    fn emit_progress(&mut self, payload: ScanProgressPayload)
        ensures
            old(self).received(final(self), payload),
    ;
}

/// Coalesces progress updates. Times are monotonic instants in nanoseconds.
pub struct ProgressThrottler<S: ProgressSink> {
    min_interval_nanos: u64,
    last_emitted: Option<u64>,
    coalesced: Option<ScanProgressPayload>,
    sink: S,
    emitted: Ghost<Seq<ScanProgressPayload>>,
    deliveries: Ghost<Seq<(S, S)>>,
    latest: Ghost<Option<ScanProgressPayload>>,
}

/// The time from `last` to `now`, or zero when `now` is earlier.
pub open spec fn elapsed(now: u64, last: u64) -> u64 {
    if now >= last { (now - last) as u64 } else { 0 }
}

impl<S: ProgressSink> ProgressThrottler<S> {
    /// The payloads handed to the sink so far, in order.
    pub closed spec fn emitted(&self) -> Seq<ScanProgressPayload> {
        self.emitted@
    }

    /// For each emitted payload, the sink before and after it received that payload.
    pub closed spec fn deliveries(&self) -> Seq<(S, S)> {
        self.deliveries@
    }

    /// The most recently recorded payload, if any.
    pub closed spec fn latest(&self) -> Option<ScanProgressPayload> {
        self.latest@
    }

    /// The payload held back for later emission, if any.
    pub closed spec fn pending(&self) -> Option<ScanProgressPayload> {
        self.coalesced
    }

    pub closed spec fn last_emitted_at(&self) -> Option<u64> {
        self.last_emitted
    }

    pub closed spec fn interval(&self) -> u64 {
        self.min_interval_nanos
    }

    /// The sink that receives the emitted updates.
    pub closed spec fn held_sink(&self) -> S {
        self.sink
    }

    /// The latest payload is either held back or was the last one emitted, and every
    /// emitted payload was received by the sink, in order.
    pub open spec fn wf(&self) -> bool {
        &&& match self.latest() {
            None => self.pending() is None,
            Some(p) => self.pending() == Some(p) || (self.pending() is None
                && self.emitted().len() > 0 && self.emitted().last() == p),
        }
        &&& self.deliveries().len() == self.emitted().len()
        &&& forall|k: int|
            0 <= k < self.emitted().len() ==> (#[trigger] self.deliveries()[k]).0.received(
                &self.deliveries()[k].1,
                self.emitted()[k],
            )
    }

    pub fn new(min_interval_nanos: u64, sink: S) -> (t: Self)
        ensures
            t.wf(),
            t.emitted() == Seq::<ScanProgressPayload>::empty(),
            t.latest() is None,
            t.last_emitted_at() is None,
            t.interval() == min_interval_nanos,
            t.held_sink() == sink,
    {
        ProgressThrottler {
            min_interval_nanos,
            last_emitted: None,
            coalesced: None,
            sink,
            emitted: Ghost(Seq::empty()),
            deliveries: Ghost(Seq::empty()),
            latest: Ghost(None),
        }
    }

    /// Records a progress update at `now`: emitted at once when the interval has elapsed
    /// since the last emission (or nothing was emitted yet), otherwise held back, replacing
    /// any update held back before.
    pub fn record(&mut self, payload: ScanProgressPayload, now: u64)
        requires
            old(self).wf(),
        ensures
            final(self).wf(),
            final(self).latest() == Some(payload),
            final(self).interval() == old(self).interval(),
            ({
                let due = match old(self).last_emitted_at() {
                    None => true,
                    Some(last) => elapsed(now, last) >= old(self).interval(),
                };
                if due {
                    &&& final(self).emitted() == old(self).emitted().push(payload)
                    &&& old(self).held_sink().received(&final(self).held_sink(), payload)
                    &&& final(self).deliveries() == old(self).deliveries().push(
                        (old(self).held_sink(), final(self).held_sink()),
                    )
                    &&& final(self).last_emitted_at() == Some(now)
                    &&& final(self).pending() is None
                } else {
                    &&& final(self).emitted() == old(self).emitted()
                    &&& final(self).held_sink() == old(self).held_sink()
                    &&& final(self).deliveries() == old(self).deliveries()
                    &&& final(self).last_emitted_at() == old(self).last_emitted_at()
                    &&& final(self).pending() == Some(payload)
                }
            }),
    {
        let due = match self.last_emitted {
            None => true,
            Some(last) => {
                let gap = if now >= last { now - last } else { 0 };
                gap >= self.min_interval_nanos
            },
        };
        if due {
            self.last_emitted = Some(now);
            self.coalesced = None;
            let ghost p = payload;
            let ghost before = self.sink;
            self.sink.emit_progress(payload);
            proof {
                self.emitted@ = self.emitted@.push(p);
                self.deliveries@ = self.deliveries@.push((before, self.sink));
                self.latest@ = Some(p);
            }
        } else {
            let ghost p = payload;
            self.coalesced = Some(payload);
            proof {
                self.latest@ = Some(p);
            }
        }
    }

    /// Emits the held-back update when the interval has elapsed at `now`.
    pub fn poll_emit_due(&mut self, now: u64)
        requires
            old(self).wf(),
        ensures
            final(self).wf(),
            final(self).latest() == old(self).latest(),
            final(self).interval() == old(self).interval(),
            ({
                let due = old(self).last_emitted_at() matches Some(last) && elapsed(now, last)
                    >= old(self).interval() && old(self).pending() is Some;
                if due {
                    &&& final(self).emitted() == old(self).emitted().push(old(self).pending()->0)
                    &&& old(self).held_sink().received(&final(self).held_sink(), old(self).pending()->0)
                    &&& final(self).deliveries() == old(self).deliveries().push(
                        (old(self).held_sink(), final(self).held_sink()),
                    )
                    &&& final(self).last_emitted_at() == Some(now)
                    &&& final(self).pending() is None
                } else {
                    &&& final(self).emitted() == old(self).emitted()
                    &&& final(self).held_sink() == old(self).held_sink()
                    &&& final(self).deliveries() == old(self).deliveries()
                    &&& final(self).last_emitted_at() == old(self).last_emitted_at()
                    &&& final(self).pending() == old(self).pending()
                }
            }),
    {
        match self.last_emitted {
            Some(last) => {
                let gap = if now >= last { now - last } else { 0 };
                if gap >= self.min_interval_nanos {
                    let pending = self.coalesced.take();
                    match pending {
                        Some(payload) => {
                            self.last_emitted = Some(now);
                            let ghost p = payload;
                            let ghost before = self.sink;
                            self.sink.emit_progress(payload);
                            proof {
                                self.emitted@ = self.emitted@.push(p);
                                self.deliveries@ = self.deliveries@.push((before, self.sink));
                            }
                        },
                        None => {},
                    }
                }
            },
            None => {},
        }
    }

    /// Emits the held-back update, if any. Afterwards the last emitted update is the
    /// latest one recorded.
    pub fn flush(&mut self)
        requires
            old(self).wf(),
        ensures
            final(self).wf(),
            final(self).latest() == old(self).latest(),
            final(self).pending() is None,
            final(self).last_emitted_at() == old(self).last_emitted_at(),
            final(self).interval() == old(self).interval(),
            match old(self).pending() {
                Some(p) => {
                    &&& final(self).emitted() == old(self).emitted().push(p)
                    &&& old(self).held_sink().received(&final(self).held_sink(), p)
                    &&& final(self).deliveries() == old(self).deliveries().push(
                        (old(self).held_sink(), final(self).held_sink()),
                    )
                },
                None => {
                    &&& final(self).emitted() == old(self).emitted()
                    &&& final(self).held_sink() == old(self).held_sink()
                    &&& final(self).deliveries() == old(self).deliveries()
                },
            },
    {
        let pending = self.coalesced.take();
        match pending {
            Some(payload) => {
                let ghost p = payload;
                let ghost before = self.sink;
                self.sink.emit_progress(payload);
                proof {
                    self.emitted@ = self.emitted@.push(p);
                    self.deliveries@ = self.deliveries@.push((before, self.sink));
                }
            },
            None => {},
        }
    }

    /// The sink that receives the emitted updates.
    pub fn sink(&self) -> (s: &S)
        ensures
            *s == self.held_sink(),
    {
        &self.sink
    }

    /// The sink, to be changed in place; the throttler's own state stays as it was.
    pub fn sink_mut(&mut self) -> (s: &mut S)
        ensures
            *s == old(self).held_sink(),
            final(self).held_sink() == *final(s),
            final(self).emitted() == old(self).emitted(),
            final(self).deliveries() == old(self).deliveries(),
            final(self).latest() == old(self).latest(),
            final(self).pending() == old(self).pending(),
            final(self).last_emitted_at() == old(self).last_emitted_at(),
            final(self).interval() == old(self).interval(),
    {
        &mut self.sink
    }
}

/// After a flush, the last update handed to the sink is the latest one recorded: no
/// coalesced progress is ever lost.
pub proof fn law_flush_delivers_latest<S: ProgressSink>(t: ProgressThrottler<S>)
    requires
        t.wf(),
        t.pending() is None,
        t.latest() is Some,
    ensures
        t.emitted().len() > 0,
        t.emitted().last() == t.latest()->0,
        t.deliveries().last().0.received(&t.deliveries().last().1, t.latest()->0),
{
}

/// The sink received every emitted payload, in the order they were emitted: the `k`-th
/// delivery took the sink from its state before to its state after by that payload.
pub proof fn law_sink_receives_what_is_emitted<S: ProgressSink>(t: ProgressThrottler<S>, k: int)
    requires
        t.wf(),
        0 <= k < t.emitted().len(),
    ensures
        t.deliveries().len() == t.emitted().len(),
        t.deliveries()[k].0.received(&t.deliveries()[k].1, t.emitted()[k]),
{
}

} // verus!
