use vstd::prelude::*;

use crate::counter::Counter;
use crate::error::MonitorError;

verus! {

/// The accounting fields of one thread's stat record, in clock ticks and
/// fault counts, each cumulative since the thread started.
#[derive(Clone, Copy, Debug, PartialEq, Eq, Structural)]
pub struct StatSnapshot {
    pub utime: u64,
    pub stime: u64,
    /// Absent where the kernel keeps no IO-delay accounting.
    pub delayacct_blkio_ticks: Option<u64>,
    pub majflt: u64,
    pub minflt: u64,
}

/// Five running means for one thread name.
#[derive(Clone, Copy, Debug, PartialEq, Eq, Structural)]
pub struct ThreadStats {
    pub user_time: Counter,
    pub sys_time: Counter,
    pub io_time: Counter,
    pub major_page_faults: Counter,
    pub minor_page_faults: Counter,
}

impl ThreadStats {
    /// Five counters with no samples.
    pub open spec fn empty() -> ThreadStats {
        ThreadStats {
            user_time: Counter::empty(),
            sys_time: Counter::empty(),
            io_time: Counter::empty(),
            major_page_faults: Counter::empty(),
            minor_page_faults: Counter::empty(),
        }
    }

    /// Whether feeding `stat` in leaves every counter it reaches within `u64`.
    pub open spec fn admits(self, stat: StatSnapshot) -> bool {
        &&& self.sys_time.can_sample(stat.stime)
        &&& self.user_time.can_sample(stat.utime)
        &&& match stat.delayacct_blkio_ticks {
            Some(t) => {
                &&& self.io_time.can_sample(t)
                &&& self.major_page_faults.can_sample(stat.majflt)
                &&& self.minor_page_faults.can_sample(stat.minflt)
            },
            None => true,
        }
    }

    /// The counters after feeding in `stat`: system and user time always; the
    /// other three only when the IO-wait field is present.
    pub open spec fn updated(self, stat: StatSnapshot) -> ThreadStats {
        let timed = ThreadStats {
            sys_time: self.sys_time.sampled(stat.stime),
            user_time: self.user_time.sampled(stat.utime),
            ..self
        };
        match stat.delayacct_blkio_ticks {
            Some(t) => ThreadStats {
                io_time: timed.io_time.sampled(t),
                major_page_faults: timed.major_page_faults.sampled(stat.majflt),
                minor_page_faults: timed.minor_page_faults.sampled(stat.minflt),
                ..timed
            },
            None => timed,
        }
    }

    /// The outcome of feeding in `stat`.
    pub open spec fn update_outcome(stat: StatSnapshot) -> Result<(), MonitorError> {
        match stat.delayacct_blkio_ticks {
            Some(_) => Ok(()),
            None => Err(MonitorError::IoAccountingUnavailable),
        }
    }

    pub fn new() -> (r: ThreadStats)
        ensures
            r == ThreadStats::empty(),
    {
        ThreadStats {
            user_time: Counter::new(),
            sys_time: Counter::new(),
            io_time: Counter::new(),
            major_page_faults: Counter::new(),
            minor_page_faults: Counter::new(),
        }
    }

    /// Whether `update_from_stat` may be called with `stat`.
    pub fn can_update(&self, stat: &StatSnapshot) -> (r: bool)
        ensures
            r == self.admits(*stat),
    {
        let fits_time = self.sys_time.value <= u64::MAX - stat.stime
            && self.sys_time.samples < u64::MAX
            && self.user_time.value <= u64::MAX - stat.utime
            && self.user_time.samples < u64::MAX;
        match stat.delayacct_blkio_ticks {
            Some(t) => {
                fits_time && self.io_time.value <= u64::MAX - t && self.io_time.samples < u64::MAX
                    && self.major_page_faults.value <= u64::MAX - stat.majflt
                    && self.major_page_faults.samples < u64::MAX
                    && self.minor_page_faults.value <= u64::MAX - stat.minflt
                    && self.minor_page_faults.samples < u64::MAX
            },
            None => fits_time,
        }
    }

    /// Feeds one snapshot into the five counters. System and user time are
    /// sampled first; without IO-wait data the call then fails and leaves the
    /// IO and fault counters untouched, while the two time counters keep
    /// their new samples.
    pub fn update_from_stat(&mut self, stat: StatSnapshot) -> (r: Result<(), MonitorError>)
        requires
            old(self).admits(stat),
        ensures
            *final(self) == old(self).updated(stat),
            r == ThreadStats::update_outcome(stat),
    {
        self.sys_time.sample(stat.stime);
        self.user_time.sample(stat.utime);
        match stat.delayacct_blkio_ticks {
            Some(t) => {
                self.io_time.sample(t);
                self.major_page_faults.sample(stat.majflt);
                self.minor_page_faults.sample(stat.minflt);
                Ok(())
            },
            None => Err(MonitorError::IoAccountingUnavailable),
        }
    }
}

/// A snapshot without IO-wait data makes the update fail, yet its user and
/// system times have each been counted once more.
pub proof fn lemma_partial_update(s: ThreadStats, stat: StatSnapshot)
    requires
        s.admits(stat),
        stat.delayacct_blkio_ticks is None,
    ensures
        ThreadStats::update_outcome(stat) == Err::<(), MonitorError>(
            MonitorError::IoAccountingUnavailable,
        ),
        s.updated(stat).user_time.samples == s.user_time.samples + 1,
        s.updated(stat).sys_time.samples == s.sys_time.samples + 1,
        s.updated(stat).io_time == s.io_time,
        s.updated(stat).major_page_faults == s.major_page_faults,
        s.updated(stat).minor_page_faults == s.minor_page_faults,
{
}

} // verus!
