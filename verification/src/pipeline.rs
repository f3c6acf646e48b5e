//! The event and metric pipelines' buffering rules: when a batch goes to
//! the store in bulk, and when buffered metrics go to the analytics
//! tracker. The async loops around them only move batches; every
//! decision is here.

use vstd::prelude::*;
use crate::event::Event;
use crate::metrics::Metric;

verus! {

/// How many buffered metrics force a flush to the tracker.
pub const MAX_BUFFER_SIZE: usize = 1000;

/// The event collector's buffer: fills to its capacity, then hands the
/// whole batch to a bulk insert.
pub struct EventBuffer {
    pub buffer: Vec<Event>,
    pub capacity: usize,
}

impl EventBuffer {
    /// A buffer holding fewer events than its capacity.
    pub open spec fn wf(&self) -> bool {
        self.capacity >= 1 && self.buffer@.len() < self.capacity
    }

    /// An empty buffer that flushes at `capacity` events.
    pub fn new(capacity: usize) -> (r: EventBuffer)
        requires
            capacity >= 1,
        ensures
            r.wf(),
            r.capacity == capacity,
            r.buffer@.len() == 0,
    {
        EventBuffer { buffer: Vec::new(), capacity }
    }

    /// Take in one event. Exactly when the buffer reaches its capacity,
    /// the whole batch comes out for one bulk insert and the buffer is
    /// empty again.
    pub fn offer(&mut self, event: Event) -> (r: Option<Vec<Event>>)
        requires
            old(self).wf(),
        ensures
            final(self).wf(),
            final(self).capacity == old(self).capacity,
            r is Some <==> old(self).buffer@.len() + 1 == old(self).capacity,
            r matches Some(batch) ==> batch@ =~= old(self).buffer@.push(event) && batch@.len()
                == old(self).capacity && final(self).buffer@.len() == 0,
            r is None ==> final(self).buffer@ =~= old(self).buffer@.push(event),
    {
        self.buffer.push(event);
        if self.buffer.len() == self.capacity {
            let mut batch: Vec<Event> = Vec::new();
            std::mem::swap(&mut batch, &mut self.buffer);
            Some(batch)
        } else {
            None
        }
    }

    /// The inactivity timeout fired: a non-empty buffer is flushed whole.
    pub fn on_timeout(&mut self) -> (r: Option<Vec<Event>>)
        requires
            old(self).wf(),
        ensures
            final(self).wf(),
            final(self).capacity == old(self).capacity,
            r is Some <==> old(self).buffer@.len() > 0,
            r matches Some(batch) ==> batch@ =~= old(self).buffer@ && final(self).buffer@.len()
                == 0,
            r is None ==> final(self)@ == old(self)@,
    {
        if self.buffer.len() > 0 {
            let mut batch: Vec<Event> = Vec::new();
            std::mem::swap(&mut batch, &mut self.buffer);
            Some(batch)
        } else {
            None
        }
    }

    /// The channel closed: drain what remains for one final flush; an
    /// already empty buffer is left as it is.
    pub fn on_close(&mut self) -> (r: Option<Vec<Event>>)
        requires
            old(self).wf(),
        ensures
            final(self).wf(),
            r is Some <==> old(self).buffer@.len() > 0,
            r matches Some(batch) ==> batch@ =~= old(self).buffer@ && final(self).buffer@.len()
                == 0,
            r is None ==> final(self).buffer@ == old(self).buffer@,
            final(self).buffer@.len() == 0,
    {
        self.on_timeout()
    }
}

impl View for EventBuffer {
    type V = Seq<Event>;

    open spec fn view(&self) -> Seq<Event> {
        self.buffer@
    }
}

/// The metric collector's tracker buffer: passthrough metrics are not
/// tracked; the rest queue up for `track_many` until the buffer is full
/// or the collector goes idle.
pub struct TrackerBuffer {
    pub buffer: Vec<Metric>,
    pub max: usize,
}

impl TrackerBuffer {
    /// A buffer strictly below its flush threshold.
    pub open spec fn wf(&self) -> bool {
        self.max >= 1 && self.buffer@.len() < self.max
    }

    /// An empty buffer that flushes at `max` metrics.
    pub fn new(max: usize) -> (r: TrackerBuffer)
        requires
            max >= 1,
        ensures
            r.wf(),
            r.max == max,
            r.buffer@.len() == 0,
    {
        TrackerBuffer { buffer: Vec::new(), max }
    }

    /// Take in one metric after its counters were upserted: passthrough
    /// metrics are dropped here; any other queues, and a full buffer
    /// comes out whole for the tracker.
    pub fn observe(&mut self, metric: Metric) -> (r: Option<Vec<Metric>>)
        requires
            old(self).wf(),
        ensures
            final(self).wf(),
            final(self).max == old(self).max,
            metric.metric_type is Passthrough ==> r is None && final(self).buffer@ == old(
                self,
            ).buffer@,
            !(metric.metric_type is Passthrough) ==> {
                &&& (r is Some <==> old(self).buffer@.len() + 1 == old(self).max)
                &&& (r matches Some(batch) ==> batch@ =~= old(self).buffer@.push(metric)
                    && final(self).buffer@.len() == 0)
                &&& (r is None ==> final(self).buffer@ =~= old(self).buffer@.push(metric))
            },
    {
        if metric.is_passthrough() {
            return None;
        }
        self.buffer.push(metric);
        if self.buffer.len() == self.max {
            let mut batch: Vec<Metric> = Vec::new();
            std::mem::swap(&mut batch, &mut self.buffer);
            Some(batch)
        } else {
            None
        }
    }

    /// The collector went idle or is shutting down: flush what is queued;
    /// an already empty buffer is left as it is. Either way nothing stays
    /// behind.
    pub fn flush(&mut self) -> (r: Option<Vec<Metric>>)
        requires
            old(self).wf(),
        ensures
            final(self).wf(),
            final(self).max == old(self).max,
            r is Some <==> old(self).buffer@.len() > 0,
            r matches Some(batch) ==> batch@ =~= old(self).buffer@ && final(self).buffer@.len()
                == 0,
            r is None ==> final(self).buffer@ == old(self).buffer@,
            final(self).buffer@.len() == 0,
    {
        if self.buffer.len() > 0 {
            let mut batch: Vec<Metric> = Vec::new();
            std::mem::swap(&mut batch, &mut self.buffer);
            Some(batch)
        } else {
            None
        }
    }
}

/// The two documents one metric upserts into: the tenant's, and the
/// fleet-wide one under the configured system id.
pub fn upsert_client_ids(metric: &Metric, metric_system_id: &str) -> (r: (String, String))
    ensures
        r.0@ == crate::metrics::spec_ownership(*metric).client_id@,
        r.1@ == metric_system_id@,
{
    (metric.ownership().client_id.clone(), metric_system_id.to_owned())
}

} // verus!
