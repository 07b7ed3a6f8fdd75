use std::collections::HashMap;
use std::sync::Arc;
use std::time::Duration;

use vstd::prelude::*;

use crate::util::{duration_from_micros, micros, now_unix_time, whole_secs};
use crate::TagInfos;

verus! {

/// The records of one collection period: when it began, how long it lasted,
/// and the record of each tag.
#[derive(PartialEq, Eq, Debug)]
pub struct Records {
    pub begin_unix_time_secs: u64,
    pub duration: Duration,
    // tag -> record
    pub records: HashMap<Arc<TagInfos>, Record>,
}

impl Records {
    /// Fresh records: no tag recorded yet, beginning now, lasting no time.
    pub fn new() -> (r: Self)
        ensures
            r.records@ == Map::<Arc<TagInfos>, Record>::empty(),
            r.duration == duration_from_micros(0),
    {
        let secs = match now_unix_time() {
            Some(d) => whole_secs(&d),
            None => 0,
        };
        Records { begin_unix_time_secs: secs, duration: micros(0), records: HashMap::new() }
    }

    /// Whether no tag has been recorded.
    pub fn is_empty(&self) -> (b: bool)
        ensures
            b == self.records@.is_empty(),
    {
        self.records.is_empty()
    }
}

impl Clone for Records {
    fn clone(&self) -> (r: Self)
        ensures
            r.begin_unix_time_secs == self.begin_unix_time_secs,
            r.duration == self.duration,
            r.records@ == self.records@,
    {
        Records {
            begin_unix_time_secs: self.begin_unix_time_secs,
            duration: self.duration,
            records: self.records.clone(),
        }
    }
}

impl Default for Records {
    fn default() -> (r: Self)
        ensures
            r.records@ == Map::<Arc<TagInfos>, Record>::empty(),
            r.duration == duration_from_micros(0),
    {
        Records::new()
    }
}

/// What was recorded of one tag: its CPU time, in milliseconds.
#[derive(Debug, Copy, Clone, Eq, PartialEq, Structural)]
pub struct Record {
    pub cpu_time: u32,  // ms
}

impl Record {
    /// This record with `delta_ms` more CPU time, held at `u32::MAX`.
    pub fn add_cpu_time(self, delta_ms: u32) -> (r: Record)
        ensures
            r.cpu_time == if self.cpu_time + delta_ms > u32::MAX {
                u32::MAX as int
            } else {
                self.cpu_time + delta_ms
            },
    {
        Record { cpu_time: self.cpu_time.saturating_add(delta_ms) }
    }
}

impl Default for Record {
    fn default() -> (r: Self)
        ensures
            r.cpu_time == 0,
    {
        Record { cpu_time: 0 }
    }
}

} // verus!
