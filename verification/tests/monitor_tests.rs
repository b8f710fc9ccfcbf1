use sweepwatch::address::parse_address;
use sweepwatch::address::Address;
use sweepwatch::errors::QueryError;
use sweepwatch::monitor::poll_once;
use sweepwatch::monitor::BlacklistMonitor;

fn watched() -> Address {
    parse_address(b"0xdAC17F958D2ee523a2206206994597C13D831ec7").unwrap()
}

#[test]
fn transition_table() {
    let w = watched();

    // flagged -> flagged: silent, status kept at the observation.
    let (s, ev) = poll_once(&w, true, Ok(true)).unwrap();
    assert!(s);
    assert!(ev.is_none());

    // clear -> clear: silent.
    let (s, ev) = poll_once(&w, false, Ok(false)).unwrap();
    assert!(!s);
    assert!(ev.is_none());

    // clear -> flagged: entering the flagged state is silent.
    let (s, ev) = poll_once(&w, false, Ok(true)).unwrap();
    assert!(s);
    assert!(ev.is_none());

    // flagged -> clear: exactly one event, naming the watched address.
    let (s, ev) = poll_once(&w, true, Ok(false)).unwrap();
    assert!(!s);
    let ev = ev.expect("the clearing edge must notify");
    assert_eq!(ev.address, w);
}

#[test]
fn query_failure_keeps_status_and_reports() {
    let w = watched();
    assert_eq!(poll_once(&w, true, Err(QueryError)).unwrap_err(), QueryError);

    let mut monitor = BlacklistMonitor::initialize(true);
    let r = monitor.observe(&w, Err(QueryError));
    assert_eq!(r.unwrap_err(), QueryError);
    assert!(monitor.last_status);

    // The failed tick inferred nothing: the clearing is still seen later.
    let r = monitor.observe(&w, Ok(false));
    assert!(r.unwrap().is_some());
    assert!(!monitor.last_status);
}

#[test]
fn bootstrap_read_never_notifies() {
    // Initialization takes the first successful read as-is and can produce
    // no event, whichever value the read had.
    let monitor = BlacklistMonitor::initialize(true);
    assert!(monitor.last_status);
    let monitor = BlacklistMonitor::initialize(false);
    assert!(!monitor.last_status);
}

#[test]
fn observed_sequence_notifies_twice() {
    // Observed values after a bootstrap read of `true`: notifications come
    // exactly at the third and sixth observations.
    let w = watched();
    let observations = [true, true, false, false, true, false];
    let mut monitor = BlacklistMonitor::initialize(true);
    let mut notified_at: Vec<usize> = Vec::new();
    for (i, &value) in observations.iter().enumerate() {
        let event = monitor.observe(&w, Ok(value)).unwrap();
        if event.is_some() {
            notified_at.push(i + 1);
        }
        assert_eq!(monitor.last_status, value);
    }
    assert_eq!(notified_at, vec![3, 6]);
}
