use rabbit_client::error::AppError;
use rabbit_client::offset_tracker::{sled_outcome, OffsetTracker};

fn fresh_path(tag: &str) -> String {
    let nanos = std::time::SystemTime::now()
        .duration_since(std::time::UNIX_EPOCH)
        .map(|d| d.as_nanos())
        .unwrap_or(0);
    format!("/tmp/rabbit_client_tests/{tag}_{nanos}")
}

fn open(tag: &str) -> OffsetTracker {
    match OffsetTracker::new("rabbit_consumer_offset".to_string(), &fresh_path(tag)) {
        Ok(t) => t,
        Err(e) => panic!("could not open tracker: {e:?}"),
    }
}

fn read(t: &OffsetTracker) -> Option<u64> {
    match t.read() {
        Ok(v) => v,
        Err(e) => panic!("read failed: {e:?}"),
    }
}

#[test]
fn fresh_tracker_reads_nothing() {
    let t = open("fresh");
    assert_eq!(read(&t), None);
}

#[test]
fn read_returns_last_written_offset() {
    let mut t = open("write");
    assert!(t.write(17).is_ok());
    assert_eq!(read(&t), Some(17));
    assert!(t.write(0).is_ok());
    assert_eq!(read(&t), Some(0));
    assert!(t.write(u64::MAX).is_ok());
    assert_eq!(read(&t), Some(u64::MAX));
}

#[test]
fn store_without_flush_is_read_back() {
    let mut t = open("store");
    assert!(t.store(99_999).is_ok());
    assert_eq!(read(&t), Some(99_999));
}

fn open_raw(path: &str) -> sled::Db {
    match sled::open(path) {
        Ok(db) => db,
        Err(e) => panic!("{e:?}"),
    }
}

fn open_at(path: &str) -> OffsetTracker {
    match OffsetTracker::new("rabbit_consumer_offset".to_string(), &path.to_string()) {
        Ok(t) => t,
        Err(e) => panic!("{e:?}"),
    }
}

#[test]
fn written_offset_is_big_endian_under_the_name() {
    let path = fresh_path("layout");
    {
        let mut t = open_at(&path);
        assert!(t.write(258).is_ok());
    }
    let db = open_raw(&path);
    let raw = db.get("rabbit_consumer_offset").ok().flatten().map(|v| v.to_vec());
    assert_eq!(raw, Some(vec![0, 0, 0, 0, 0, 0, 1, 2]));
}

#[test]
fn write_leaves_other_keys() {
    let path = fresh_path("others");
    {
        let db = open_raw(&path);
        let _ = db.insert("other", vec![9u8, 9]);
        let _ = db.flush();
    }
    {
        let mut t = open_at(&path);
        assert!(t.write(5).is_ok());
        assert!(t.write(6).is_ok());
        assert_eq!(read(&t), Some(6));
    }
    let db = open_raw(&path);
    let raw = db.get("other").ok().flatten().map(|v| v.to_vec());
    assert_eq!(raw, Some(vec![9, 9]));
}

#[test]
fn malformed_stored_value_is_a_local_error() {
    let path = fresh_path("malformed");
    {
        let db = open_raw(&path);
        let _ = db.insert("rabbit_consumer_offset", vec![1u8, 2, 3]);
        let _ = db.flush();
    }
    let t = open_at(&path);
    match t.read() {
        Err(AppError::Local(m)) => assert_eq!(m, "Invalid offset format in sled db"),
        other => panic!("expected a local error, got {other:?}"),
    }
}

#[test]
fn offset_survives_reopening() {
    let path = fresh_path("reopen");
    {
        let mut t = match OffsetTracker::new("rabbit_consumer_offset".to_string(), &path) {
            Ok(t) => t,
            Err(e) => panic!("{e:?}"),
        };
        assert!(t.write(4242).is_ok());
    }
    let t = match OffsetTracker::new("rabbit_consumer_offset".to_string(), &path) {
        Ok(t) => t,
        Err(e) => panic!("{e:?}"),
    };
    assert_eq!(read(&t), Some(4242));
}

#[test]
fn read_outcome_maps_each_lookup() {
    assert!(matches!(OffsetTracker::read_outcome(Ok(None)), Ok(None)));
    assert!(matches!(OffsetTracker::read_outcome(Ok(Some(vec![0, 0, 0, 0, 0, 0, 0, 7]))), Ok(Some(7))));
    assert!(matches!(OffsetTracker::read_outcome(Ok(Some(vec![7]))), Err(AppError::Local(_))));
    let failed = OffsetTracker::read_outcome(Err(sled::Error::Unsupported("x".to_string())));
    assert!(matches!(failed, Err(AppError::Sled(_))));
}

#[test]
fn from_opened_keeps_the_database() {
    let db = match sled::Config::new().temporary(true).open() {
        Ok(db) => db,
        Err(e) => panic!("{e:?}"),
    };
    let mut t = match OffsetTracker::from_opened("rabbit_consumer_offset".to_string(), Ok(db)) {
        Ok(t) => t,
        Err(e) => panic!("{e:?}"),
    };
    assert_eq!(read(&t), None);
    assert!(t.write(31).is_ok());
    assert_eq!(read(&t), Some(31));
}

#[test]
fn from_opened_passes_the_error_on() {
    let r = OffsetTracker::from_opened("x".to_string(), Err(sled::Error::Unsupported("no".to_string())));
    assert!(matches!(r, Err(AppError::Sled(sled::Error::Unsupported(_)))));
}

#[test]
fn sled_outcome_maps_results() {
    assert!(matches!(sled_outcome(Ok::<usize, sled::Error>(3)), Ok(())));
    let failed = sled_outcome::<usize>(Err(sled::Error::ReportableBug("b".to_string())));
    assert!(matches!(failed, Err(AppError::Sled(sled::Error::ReportableBug(_)))));
}
