use rabbit_client::error::AppError;
use rabbit_client::reading::{
    production_report_due, start_offset, MessageStep, ReadProgress, StartOffset, MESSAGE_LIMIT,
    REPORT_INTERVAL,
};

#[test]
fn start_offset_resumes_from_stored_offset() {
    assert_eq!(start_offset(&Ok(Some(1234))), StartOffset::Offset(1234));
    assert_eq!(start_offset(&Ok(Some(0))), StartOffset::Offset(0));
}

#[test]
fn start_offset_starts_at_first_otherwise() {
    assert_eq!(start_offset(&Ok(None)), StartOffset::First);
    assert_eq!(start_offset(&Err(AppError::Local("x".to_string()))), StartOffset::First);
}

#[test]
fn read_progress_counts_only_messages_with_body() {
    let mut p = ReadProgress::new();
    assert_eq!(p.counted(), 0);
    let s = p.on_message(true);
    assert_eq!(s, MessageStep { forward: true, report: false, stop: false });
    let s = p.on_message(false);
    assert_eq!(s, MessageStep { forward: false, report: false, stop: false });
    assert_eq!(p.counted(), 1);
}

#[test]
fn read_progress_reports_and_stops_at_limit() {
    let mut p = ReadProgress::new();
    let mut reports = 0;
    let mut forwarded = 0;
    loop {
        let s = p.on_message(true);
        if s.forward {
            forwarded += 1;
        }
        if s.report {
            reports += 1;
            assert_eq!(p.counted() % REPORT_INTERVAL, 0);
        }
        if s.stop {
            break;
        }
    }
    assert_eq!(forwarded, MESSAGE_LIMIT);
    assert_eq!(p.counted(), 100_000);
    assert_eq!(reports, 10);
}

#[test]
fn read_progress_reports_at_ten_thousand() {
    let mut p = ReadProgress::new();
    for _ in 0..9_999 {
        assert!(!p.on_message(true).report);
    }
    assert!(!p.on_message(false).report);
    let s = p.on_message(true);
    assert!(s.report && s.forward && !s.stop);
}

#[test]
fn production_reports_every_ten_thousand() {
    assert!(production_report_due(0));
    assert!(!production_report_due(1));
    assert!(production_report_due(10_000));
    assert!(!production_report_due(99_999));
    assert!(production_report_due(90_000));
}
