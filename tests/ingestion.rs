use gd_metadata::ingest::{
    fields_set, merge_parsed, merge_tag, FailureReason, Ingestion, LookupOutcome, LookupResult, RunError,
};
use gd_metadata::tag::{ReleaseDate, TagRead, TagRecord};
use gd_metadata::track::make_io_err;

fn result(title: &str, uploader: Option<&str>, display: Option<&str>) -> LookupResult {
    LookupResult {
        title: title.to_string(),
        uploader: uploader.map(|s| s.to_string()),
        webpage_url: None,
        url: None,
        upload_date: None,
        display_id: display.map(|s| s.to_string()),
    }
}

#[test]
fn scenario_merge_title_artist_backref() {
    let res = result("Song", Some("Artist"), Some("123"));
    let tag = merge_tag(TagRead::NoTag, &res, "123").unwrap();
    assert_eq!(tag.title.as_deref(), Some("Song"));
    assert_eq!(tag.artist.as_deref(), Some("Artist"));
    assert_eq!(tag.custom_text.as_deref(), Some("123"));
    assert!(tag.released.is_none());
    assert!(tag.source_link.is_none());
    assert!(tag.file_link.is_none());
}

#[test]
fn merge_keeps_fields_the_result_lacks() {
    let mut old = TagRecord::empty();
    old.title = Some("Old".to_string());
    old.artist = Some("Someone".to_string());
    old.file_link = Some("f".to_string());
    let mut res = result("New", None, Some("9"));
    res.webpage_url = Some("https://example.org/9".to_string());
    let tag = merge_tag(TagRead::Found(old), &res, "9").unwrap();
    assert_eq!(tag.title.as_deref(), Some("New"));
    assert_eq!(tag.artist.as_deref(), Some("Someone"));
    assert_eq!(tag.source_link.as_deref(), Some("https://example.org/9"));
    assert_eq!(tag.file_link.as_deref(), Some("f"));
    assert_eq!(tag.custom_text.as_deref(), Some("9"));
}

#[test]
fn merge_parses_upload_date() {
    let mut res = result("S", None, Some("1"));
    res.upload_date = Some("2019-01-02".to_string());
    let tag = merge_tag(TagRead::Unparsable, &res, "1").unwrap();
    let d = tag.released.unwrap();
    assert_eq!(d.year, 2019);
    assert_eq!(d.month, Some(1));
    assert_eq!(d.day, Some(2));
    assert_eq!(d.hour, None);
}

#[test]
fn merge_compact_date_reads_as_year() {
    let mut res = result("S", None, Some("1"));
    res.upload_date = Some("20190102".to_string());
    let tag = merge_tag(TagRead::NoTag, &res, "1").unwrap();
    assert_eq!(tag.released.unwrap().year, 20190102);
}

#[test]
fn merge_rejects_malformed_date() {
    let mut res = result("S", None, Some("1"));
    res.upload_date = Some("December".to_string());
    let r = merge_tag(TagRead::NoTag, &res, "1");
    assert!(matches!(r, Err(FailureReason::MalformedDate(ref s)) if s == "December"));
}

#[test]
fn merge_parsed_uses_given_date() {
    let mut res = result("S", None, Some("1"));
    res.upload_date = Some("whatever".to_string());
    let date = ReleaseDate { year: 2001, month: Some(3), day: None, hour: None, minute: None, second: None };
    let tag = merge_parsed(TagRecord::empty(), &res, "1", Some(date)).unwrap();
    assert_eq!(tag.released, Some(date));
    assert!(matches!(merge_parsed(TagRecord::empty(), &res, "1", None), Err(FailureReason::MalformedDate(_))));
}

#[test]
fn merge_fails_on_other_read_error() {
    let res = result("S", None, Some("1"));
    let r = merge_tag(TagRead::Other(make_io_err("busy")), &res, "1");
    assert!(matches!(r, Err(FailureReason::TagRead(ref e)) if e.message == "busy"));
}

#[test]
fn scenario_not_found_is_skipped() {
    let mut run = Ingestion::new("music".to_string());
    let r = run.on_lookup(
        "123".to_string(),
        LookupOutcome::ExitFailure { code: 1, stderr: "ERROR: HTTP Error 404: Not Found".to_string() },
    );
    assert!(matches!(r, Ok(None)));
    assert_eq!(run.outcome.skipped_count(), 1);
    assert_eq!(run.outcome.not_found, vec!["123".to_string()]);
    assert_eq!(run.outcome.failed_count(), 0);
    assert_eq!(run.outcome.written_count(), 0);
}

#[test]
fn other_exit_failure_fails_item() {
    let mut run = Ingestion::new("music".to_string());
    let r = run.on_lookup(
        "5".to_string(),
        LookupOutcome::ExitFailure { code: 2, stderr: "HTTP Error 500".to_string() },
    );
    assert!(matches!(r, Ok(None)));
    assert_eq!(run.outcome.failed_count(), 1);
    assert!(matches!(run.outcome.failures[0].reason, FailureReason::LookupFailed { code: 2, .. }));
}

#[test]
fn scenario_playlist_unsupported() {
    let mut run = Ingestion::new("music".to_string());
    let r = run.on_lookup("123".to_string(), LookupOutcome::Playlist);
    assert!(matches!(r, Ok(None)));
    assert_eq!(run.outcome.failed_count(), 1);
    assert_eq!(run.outcome.failures[0].id, "123");
    assert!(matches!(run.outcome.failures[0].reason, FailureReason::BatchResultsUnsupported));
    assert_eq!(run.outcome.written_count(), 0);
}

#[test]
fn missing_display_id_fails_item() {
    let mut run = Ingestion::new("music".to_string());
    let r = run.on_lookup("7".to_string(), LookupOutcome::Track(result("S", None, None)));
    assert!(matches!(r, Ok(None)));
    assert_eq!(run.outcome.failed_count(), 1);
    assert!(matches!(run.outcome.failures[0].reason, FailureReason::MissingDisplayId));
}

#[test]
fn invalid_display_id_fails_item() {
    let mut run = Ingestion::new("music".to_string());
    let r = run.on_lookup("7".to_string(), LookupOutcome::Track(result("S", None, Some("x/7"))));
    assert!(matches!(r, Ok(None)));
    assert!(matches!(run.outcome.failures[0].reason, FailureReason::InvalidDisplayId(ref d) if d == "x/7"));
}

#[test]
fn timeout_fails_item() {
    let mut run = Ingestion::new("music".to_string());
    assert!(matches!(run.on_lookup("8".to_string(), LookupOutcome::Timeout), Ok(None)));
    assert!(matches!(run.outcome.failures[0].reason, FailureReason::LookupTimeout));
}

#[test]
fn transport_and_payload_abort() {
    let mut run = Ingestion::new("music".to_string());
    let r = run.on_lookup("1".to_string(), LookupOutcome::Transport("no binary".to_string()));
    assert!(matches!(r, Err(RunError::Transport(ref d)) if d == "no binary"));
    let r = run.on_lookup("1".to_string(), LookupOutcome::MalformedPayload("bad json".to_string()));
    assert!(matches!(r, Err(RunError::MalformedPayload(_))));
    assert_eq!(run.outcome.failed_count() + run.outcome.skipped_count() + run.outcome.written_count(), 0);
}

#[test]
fn full_item_written() {
    let mut run = Ingestion::new("music".to_string());
    let req = run
        .on_lookup("123".to_string(), LookupOutcome::Track(result("Song", Some("Artist"), Some("123"))))
        .unwrap()
        .unwrap();
    assert_eq!(req.id, "123");
    assert_eq!(req.path, "music/123.mp3");
    let w = run.on_tag_read(req, TagRead::NoTag).unwrap();
    assert_eq!(w.path, "music/123.mp3");
    assert_eq!(w.tag.custom_text.as_deref(), Some("123"));
    assert_eq!(w.tag.title.as_deref(), Some("Song"));
    run.on_write(w.id, Ok(()));
    assert_eq!(run.outcome.written, vec!["123".to_string()]);
    assert_eq!(run.outcome.failed_count(), 0);
}

#[test]
fn read_and_write_failures_recorded() {
    let mut run = Ingestion::new("m".to_string());
    let req = run
        .on_lookup("4".to_string(), LookupOutcome::Track(result("S", None, Some("4"))))
        .unwrap()
        .unwrap();
    assert!(run.on_tag_read(req, TagRead::Other(make_io_err("io"))).is_none());
    assert!(matches!(run.outcome.failures[0].reason, FailureReason::TagRead(_)));
    run.on_write("4".to_string(), Err(make_io_err("disk full")));
    assert_eq!(run.outcome.failed_count(), 2);
    assert!(matches!(run.outcome.failures[1].reason, FailureReason::TagWrite(ref e) if e.message == "disk full"));
}

#[test]
fn fields_set_counts_present_values() {
    let mut res = result("S", Some("A"), Some("1"));
    assert_eq!(fields_set(&res), 3);
    res.upload_date = Some("2020".to_string());
    res.webpage_url = Some("w".to_string());
    res.url = Some("u".to_string());
    assert_eq!(fields_set(&res), 6);
    assert_eq!(fields_set(&result("S", None, None)), 2);
}
