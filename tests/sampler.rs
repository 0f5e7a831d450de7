use thread_sampler::counter::{Counter, Reading};
use thread_sampler::error::MonitorError;
use thread_sampler::progress::{parse_slot, Progress, EPOCH_SLOTS, MARGIN_SLOTS};
use thread_sampler::registry::ThreadRegistry;
use thread_sampler::sampling::{Action, Phase, SamplingLoop};
use thread_sampler::stats::{StatSnapshot, ThreadStats};

fn mean_and_spread(r: Reading) -> (f64, f64) {
    match r {
        Reading::NoData => (f64::NAN, f64::INFINITY),
        Reading::Mean { sum, count } => (sum as f64 / count as f64, 0.0),
    }
}

fn snap(utime: u64, stime: u64, io: Option<u64>, majflt: u64, minflt: u64) -> StatSnapshot {
    StatSnapshot { utime, stime, delayacct_blkio_ticks: io, majflt, minflt }
}

#[test]
fn empty_counter_has_no_mean() {
    let c = Counter::new();
    assert_eq!(c.get(), Reading::NoData);
    let (mean, spread) = mean_and_spread(c.get());
    assert!(mean.is_nan());
    assert!(spread.is_infinite());
}

#[test]
fn counter_of_ten_and_twenty() {
    let mut c = Counter::new();
    c.sample(10);
    c.sample(20);
    assert_eq!(c.get(), Reading::Mean { sum: 30, count: 2 });
    assert_eq!(mean_and_spread(c.get()), (15.0, 0.0));
}

#[test]
fn sampling_n_times_adds_n() {
    let mut c = Counter::new();
    c.sample(7);
    let before = c.samples;
    let values: Vec<u64> = vec![0, 5, u64::MAX / 4, 3, 0];
    for v in &values {
        c.sample(*v);
    }
    assert_eq!(c.samples, before + values.len() as u64);
    assert_eq!(c.value, 7 + 5 + u64::MAX / 4 + 3);
}

#[test]
fn same_name_merges_into_one_entry() {
    let mut reg = ThreadRegistry::new();
    let s = snap(1, 2, Some(3), 4, 5);
    assert_eq!(reg.observe("worker".to_string(), s), Ok(()));
    assert_eq!(reg.observe("worker".to_string(), snap(11, 12, Some(13), 14, 15)), Ok(()));
    assert_eq!(reg.len(), 1);
    let st = reg.get(&"worker".to_string()).unwrap();
    assert_eq!(st.user_time, Counter { value: 12, samples: 2 });
    assert_eq!(st.sys_time, Counter { value: 14, samples: 2 });
    assert_eq!(st.io_time, Counter { value: 16, samples: 2 });
    assert_eq!(st.major_page_faults, Counter { value: 18, samples: 2 });
    assert_eq!(st.minor_page_faults, Counter { value: 20, samples: 2 });
}

#[test]
fn different_names_stay_apart() {
    let mut reg = ThreadRegistry::new();
    assert_eq!(reg.observe("a".to_string(), snap(1, 2, Some(3), 4, 5)), Ok(()));
    assert_eq!(reg.observe("b".to_string(), snap(6, 7, Some(8), 9, 10)), Ok(()));
    assert_eq!(reg.len(), 2);
    assert_eq!(reg.name_at(0), "a");
    assert_eq!(reg.name_at(1), "b");
    let a = reg.stats_at(0);
    let b = reg.stats_at(1);
    assert_eq!(a.user_time, Counter { value: 1, samples: 1 });
    assert_eq!(b.user_time, Counter { value: 6, samples: 1 });
    assert_eq!(b.minor_page_faults, Counter { value: 10, samples: 1 });
    assert_eq!(reg.get(&"c".to_string()), None);
}

#[test]
fn missing_io_data_fails_after_times_are_counted() {
    let mut st = ThreadStats::new();
    let r = st.update_from_stat(snap(5, 6, None, 7, 8));
    assert_eq!(r, Err(MonitorError::IoAccountingUnavailable));
    assert_eq!(st.user_time, Counter { value: 5, samples: 1 });
    assert_eq!(st.sys_time, Counter { value: 6, samples: 1 });
    assert_eq!(st.io_time, Counter::new());
    assert_eq!(st.major_page_faults, Counter::new());
    assert_eq!(st.minor_page_faults, Counter::new());
}

#[test]
fn registry_keeps_partial_update_of_new_name() {
    let mut reg = ThreadRegistry::new();
    let r = reg.observe("t".to_string(), snap(5, 6, None, 7, 8));
    assert_eq!(r, Err(MonitorError::IoAccountingUnavailable));
    let st = reg.get(&"t".to_string()).unwrap();
    assert_eq!(st.user_time.samples, 1);
    assert_eq!(st.io_time.samples, 0);
}

#[test]
fn full_and_half_epoch_progress() {
    let full = Progress::from_output(b"432000").unwrap();
    assert_eq!(full.epochs(), 1);
    assert_eq!(full.slot_in_epoch(), 0);
    assert_eq!(full.slot as f64 / EPOCH_SLOTS as f64, 1.0);
    let half = Progress::from_output(b"216000\n").unwrap();
    assert_eq!(half.epochs(), 0);
    assert_eq!(half.slot_in_epoch() * 2, EPOCH_SLOTS);
    assert_eq!(half.slot as f64 / EPOCH_SLOTS as f64, 0.5);
}

#[test]
fn slot_parsing() {
    assert_eq!(parse_slot(b"123"), Ok(123));
    assert_eq!(parse_slot(b"  \t123\r\n"), Ok(123));
    assert_eq!(parse_slot(b"0"), Ok(0));
    assert_eq!(parse_slot(b"18446744073709551615"), Ok(u64::MAX));
    assert_eq!(parse_slot(b"18446744073709551616"), Err(MonitorError::OracleParseError));
    assert_eq!(parse_slot(b""), Err(MonitorError::OracleParseError));
    assert_eq!(parse_slot(b" \n"), Err(MonitorError::OracleParseError));
    assert_eq!(parse_slot(b"12a"), Err(MonitorError::OracleParseError));
    assert_eq!(parse_slot(b"1 2"), Err(MonitorError::OracleParseError));
    assert_eq!(parse_slot(b"-5"), Err(MonitorError::OracleParseError));
}

#[test]
fn boundary_from_ninety_five_hundredths() {
    // 0.95 of an epoch
    let start = Progress { slot: 410400 };
    assert_eq!(start.end_point(), 475200);
    assert_eq!(475200u128, (EPOCH_SLOTS + MARGIN_SLOTS) as u128);
    let mut lp = SamplingLoop::new(true);
    lp.begin(Ok(start));
    assert_eq!(lp.phase, Phase::Sampling);
    assert_eq!(lp.on_progress(Ok(Progress { slot: 432000 })), Action::SampleThreads);
    assert_eq!(lp.on_progress(Ok(Progress { slot: 475199 })), Action::SampleThreads);
    assert_eq!(lp.phase, Phase::Sampling);
    assert_eq!(lp.on_progress(Ok(Progress { slot: 475200 })), Action::Stop);
    assert_eq!(lp.phase, Phase::StoppedByBoundary);
    assert_eq!(lp.exit_code(), Some(0));
    assert!(lp.report().is_some());
}

#[test]
fn boundary_from_whole_epoch() {
    assert_eq!(Progress { slot: 864000 }.end_point(), 864000 + 43200);
    assert_eq!(Progress { slot: 0 }.end_point(), 43200);
    assert_eq!(Progress { slot: 1 }.end_point(), 432000 + 43200);
}

#[test]
fn dead_target_exits_with_one_and_no_report() {
    let lp = SamplingLoop::new(false);
    assert_eq!(lp.phase, Phase::StoppedByAbsence);
    assert_eq!(lp.exit_code(), Some(1));
    assert!(lp.report().is_none());
}

#[test]
fn oracle_failure_fails_the_run() {
    let mut lp = SamplingLoop::new(true);
    lp.begin(Err(MonitorError::OracleUnavailable));
    assert_eq!(lp.phase, Phase::Failed(MonitorError::OracleUnavailable));
    let mut lp = SamplingLoop::new(true);
    lp.begin(Ok(Progress { slot: 100 }));
    assert_eq!(lp.exit_code(), None);
    assert_eq!(lp.on_progress(Err(MonitorError::OracleParseError)), Action::Stop);
    assert_eq!(lp.phase, Phase::Failed(MonitorError::OracleParseError));
    assert_eq!(lp.exit_code(), Some(1));
    assert!(lp.report().is_none());
}

#[test]
fn thread_errors_fail_the_run() {
    let mut lp = SamplingLoop::new(true);
    lp.begin(Ok(Progress { slot: 100 }));
    assert!(lp.on_thread(Ok(("main".to_string(), snap(1, 1, Some(1), 1, 1)))));
    assert!(!lp.on_thread(Err(MonitorError::ThreadEnumerationFailed)));
    assert_eq!(lp.phase, Phase::Failed(MonitorError::ThreadEnumerationFailed));
    assert_eq!(lp.registry.len(), 1);

    let mut lp = SamplingLoop::new(true);
    lp.begin(Ok(Progress { slot: 100 }));
    assert!(!lp.on_thread(Ok(("main".to_string(), snap(1, 1, None, 1, 1)))));
    assert_eq!(lp.phase, Phase::Failed(MonitorError::IoAccountingUnavailable));
}

#[test]
fn percent_of_last_epoch() {
    let mut lp = SamplingLoop::new(true);
    lp.begin(Ok(Progress { slot: 410400 }));
    assert_eq!(lp.percent_done(Progress { slot: 0 }), 0);
    assert_eq!(lp.percent_done(Progress { slot: 43200 }), 0);
    assert_eq!(lp.percent_done(Progress { slot: 43201 }), 0);
    assert_eq!(lp.percent_done(Progress { slot: 259200 }), 50);
    assert_eq!(lp.percent_done(Progress { slot: 475199 }), 99);
}

#[test]
fn overflow_is_detected_before_observing() {
    let mut reg = ThreadRegistry::new();
    let big = snap(u64::MAX, 0, Some(0), 0, 0);
    assert!(reg.can_observe(&"x".to_string(), &big));
    assert_eq!(reg.observe("x".to_string(), big), Ok(()));
    assert!(!reg.can_observe(&"x".to_string(), &snap(1, 0, Some(0), 0, 0)));
    assert!(reg.can_observe(&"x".to_string(), &snap(0, 0, None, u64::MAX, 0)));
}
