//! Tests of the bodies, the gating decisions, the X-protocol state
//! machines, the URI-list parser, the format cache and the builder.

use core::time::Duration;

use clipwatch::body::{Body, RawImage};
use clipwatch::error::{ClipboardError, ErrorWrapper};
use clipwatch::event_listener::ClipboardEventListenerBuilder;
use clipwatch::formats::{Format, FormatCache, Formats};
use clipwatch::gating::{can_access_format, check_reported_size, content_is_not_empty, SizeCheck};
use clipwatch::observer::{counter_poll_event, observer_step, publish_decision, LoopAction,
    PollEvent};
use clipwatch::policy::Resolution;
use clipwatch::xproto::{atoms_from_property, available_text_format, cheap_size_probe_applies,
    classify_property_read, incr_wait_step, length_probe_decision, read_le_word,
    selection_wait_step, ChunkEvent, ChunkStep, IncrTransfer, LengthProbe, PropertyReadStart,
    WaitEvent, WaitStep};
use clipwatch::uri::paths_from_uri_list;
use clipwatch::error::to_read_error;

#[test]
fn body_constructors_build_their_variant() {
    assert_eq!(
        Body::new_text(String::from("hi")),
        Body::PlainText(String::from("hi"))
    );
    assert_eq!(
        Body::new_html(String::from("<p>hi</p>")),
        Body::Html(String::from("<p>hi</p>"))
    );
    assert_eq!(
        Body::new_png(vec![1, 2], Some(String::from("/p"))),
        Body::PngImage { bytes: vec![1, 2], path: Some(String::from("/p")) }
    );
    assert_eq!(
        Body::new_custom(String::from("application/x-test"), vec![9]),
        Body::Custom { name: String::from("application/x-test"), data: vec![9] }
    );
    assert_eq!(
        Body::new_file_list(vec![String::from("/a")]),
        Body::FileList(vec![String::from("/a")])
    );
    assert_eq!(
        Body::new_image(vec![0, 0, 0], 1, 1, None),
        Body::RawImage(RawImage { bytes: vec![0, 0, 0], width: 1, height: 1, path: None })
    );
}

#[test]
fn has_path() {
    let with = RawImage { bytes: vec![1], width: 1, height: 1, path: Some(String::from("/x")) };
    let without = RawImage { bytes: vec![1], width: 1, height: 1, path: None };
    assert!(with.has_path());
    assert!(!without.has_path());
}

#[test]
fn to_read_error_wraps_message() {
    assert_eq!(
        to_read_error(String::from("boom")),
        ErrorWrapper::ReadError(ClipboardError::ReadError(String::from("boom")))
    );
}

#[test]
fn check_reported_size_decisions() {
    assert_eq!(check_reported_size(0, None), SizeCheck::Empty);
    assert_eq!(check_reported_size(0, Some(10)), SizeCheck::Empty);
    assert_eq!(check_reported_size(10, Some(10)), SizeCheck::Proceed);
    assert_eq!(check_reported_size(11, Some(10)), SizeCheck::TooLarge);
    assert_eq!(check_reported_size(u64::MAX, None), SizeCheck::Proceed);
    assert_eq!(check_reported_size(u32::MAX as u64 + 1, Some(u32::MAX)), SizeCheck::TooLarge);
}

#[test]
fn can_access_format_decisions() {
    assert_eq!(can_access_format(false, None, None), Ok(false));
    assert_eq!(can_access_format(true, None, None), Ok(true));
    assert_eq!(can_access_format(true, Some(100), None), Ok(true));
    assert_eq!(
        can_access_format(true, None, Some(10)),
        Err(ErrorWrapper::FormatUnavailable)
    );
    assert_eq!(
        can_access_format(true, Some(0), Some(10)),
        Err(ErrorWrapper::EmptyContent)
    );
    assert_eq!(
        can_access_format(true, Some(11), Some(10)),
        Err(ErrorWrapper::SizeTooLarge)
    );
    assert_eq!(can_access_format(true, Some(10), Some(10)), Ok(true));
}

#[test]
fn content_is_not_empty_decisions() {
    assert_eq!(content_is_not_empty(""), Err(ErrorWrapper::EmptyContent));
    assert_eq!(content_is_not_empty("x"), Ok(true));
}

#[test]
fn observer_step_decisions() {
    assert!(matches!(observer_step(true, PollEvent::Change), LoopAction::Stop));
    assert!(matches!(
        observer_step(false, PollEvent::Change),
        LoopAction::ResolveChange
    ));
    assert!(matches!(observer_step(false, PollEvent::NoChange), LoopAction::Sleep));
    match observer_step(false, PollEvent::MonitorError(String::from("io"))) {
        LoopAction::PublishFatal(e) => {
            assert_eq!(e, ClipboardError::MonitorFailed(String::from("io")));
        }
        other => panic!("expected a fatal publish, got {other:?}"),
    }
}

#[test]
fn counter_poll_event_detects_difference() {
    assert!(matches!(counter_poll_event(3, 4), PollEvent::Change));
    assert!(matches!(counter_poll_event(4, 4), PollEvent::NoChange));
}

#[test]
fn publish_decision_outcomes() {
    match publish_decision(Resolution::Publish(Body::PlainText(String::from("v")))) {
        Some(Ok(shared)) => assert_eq!(*shared, Body::PlainText(String::from("v"))),
        other => panic!("expected a published body, got {other:?}"),
    }
    assert!(publish_decision(Resolution::Skip).is_none());
    match publish_decision(Resolution::Fail(ClipboardError::NoMatchingFormat)) {
        Some(Err(e)) => assert_eq!(e, ClipboardError::NoMatchingFormat),
        other => panic!("expected a published error, got {other:?}"),
    }
}

#[test]
fn le_word_reads_least_significant_first() {
    let bytes = vec![0x78, 0x56, 0x34, 0x12];
    assert_eq!(read_le_word(&bytes, 0), 0x12345678);
    let longer = vec![0xFF, 0x01, 0x00, 0x00, 0x00];
    assert_eq!(read_le_word(&longer, 1), 1);
}

#[test]
fn atoms_parsing_filters_bookkeeping_and_drops_tail() {
    // Atoms 1, 2, 3 in 32-bit little-endian words, with a trailing byte.
    let bytes = vec![1, 0, 0, 0, 2, 0, 0, 0, 3, 0, 0, 0, 99];
    let ignored = vec![2];
    assert_eq!(atoms_from_property(&bytes, &ignored), vec![1, 3]);
    assert_eq!(atoms_from_property(&vec![], &ignored), Vec::<u32>::new());
}

#[test]
fn text_format_preference_order() {
    let available = vec![40, 41, 42];
    assert_eq!(available_text_format(&available, 41, 42, 40), Some(41));
    assert_eq!(available_text_format(&available, 7, 42, 40), Some(42));
    assert_eq!(available_text_format(&available, 7, 8, 40), Some(40));
    assert_eq!(available_text_format(&available, 7, 8, 9), None);
}

#[test]
fn selection_wait_decisions() {
    assert_eq!(selection_wait_step(5, 9, 100, &WaitEvent::NoEvent), WaitStep::SleepRetry);
    assert_eq!(selection_wait_step(5, 9, 100, &WaitEvent::Unrelated), WaitStep::Ignore);
    // Stale notification.
    assert_eq!(
        selection_wait_step(
            5,
            9,
            100,
            &WaitEvent::SelectionNotify { requestor: 5, selection: 9, property: 3, seq: 99 }
        ),
        WaitStep::Ignore
    );
    // Someone else's notification.
    assert_eq!(
        selection_wait_step(
            5,
            9,
            100,
            &WaitEvent::SelectionNotify { requestor: 6, selection: 9, property: 3, seq: 100 }
        ),
        WaitStep::Ignore
    );
    // The owner refused the conversion.
    assert_eq!(
        selection_wait_step(
            5,
            9,
            100,
            &WaitEvent::SelectionNotify { requestor: 5, selection: 9, property: 0, seq: 100 }
        ),
        WaitStep::Refused
    );
    assert_eq!(
        selection_wait_step(
            5,
            9,
            100,
            &WaitEvent::SelectionNotify { requestor: 5, selection: 9, property: 3, seq: 100 }
        ),
        WaitStep::Ready { property: 3 }
    );
}

#[test]
fn property_classification() {
    match classify_property_read(77, 77, vec![1, 2]) {
        PropertyReadStart::Incremental => {}
        other => panic!("expected an incremental transfer, got {other:?}"),
    }
    match classify_property_read(33, 77, vec![1, 2]) {
        PropertyReadStart::Direct(v) => assert_eq!(v, vec![1, 2]),
        other => panic!("expected a direct read, got {other:?}"),
    }
}

#[test]
fn incremental_transfer_assembles_chunks() {
    let mut t = IncrTransfer::begin();
    assert!(!t.is_complete());
    t.feed_chunk(vec![1, 2]);
    t.feed_chunk(vec![3]);
    assert!(!t.is_complete());
    // The zero-length chunk terminates the transfer.
    t.feed_chunk(vec![]);
    assert!(t.is_complete());
    assert_eq!(t.take_data(), vec![1, 2, 3]);
}

#[test]
fn incremental_transfer_of_nothing_is_empty() {
    let mut t = IncrTransfer::begin();
    t.feed_chunk(vec![]);
    assert!(t.is_complete());
    assert_eq!(t.take_data(), Vec::<u8>::new());
}

#[test]
fn incr_wait_decisions() {
    assert_eq!(incr_wait_step(7, &ChunkEvent::NoEvent), ChunkStep::SleepRetry);
    assert_eq!(incr_wait_step(7, &ChunkEvent::Unrelated), ChunkStep::Ignore);
    assert_eq!(
        incr_wait_step(7, &ChunkEvent::PropertyNotify { atom: 7, new_value: true }),
        ChunkStep::FetchChunk
    );
    assert_eq!(
        incr_wait_step(7, &ChunkEvent::PropertyNotify { atom: 7, new_value: false }),
        ChunkStep::Ignore
    );
    assert_eq!(
        incr_wait_step(7, &ChunkEvent::PropertyNotify { atom: 8, new_value: true }),
        ChunkStep::Ignore
    );
}

#[test]
fn size_probe_plan() {
    assert!(cheap_size_probe_applies(Some(10), true));
    assert!(!cheap_size_probe_applies(None, true));
    assert!(!cheap_size_probe_applies(Some(10), false));
}

#[test]
fn length_probe_decisions() {
    assert_eq!(length_probe_decision(&vec![0, 0], 10), LengthProbe::Fallback);
    assert_eq!(length_probe_decision(&vec![0, 0, 0, 0], 10), LengthProbe::Empty);
    assert_eq!(length_probe_decision(&vec![10, 0, 0, 0], 10), LengthProbe::ReadData);
    assert_eq!(length_probe_decision(&vec![11, 0, 0, 0], 10), LengthProbe::TooLarge);
}

#[test]
fn uri_list_parsing_decodes_file_lines() {
    let payload = b"file:///tmp/x.txt\r\nhttp://example.com/\nfile:///a%20b\n".to_vec();
    let paths = paths_from_uri_list(&payload);
    assert_eq!(
        paths,
        vec![String::from("/tmp/x.txt"), String::from("/a b")]
    );
}

#[test]
fn uri_list_edge_cases() {
    assert_eq!(paths_from_uri_list(&Vec::new()), Vec::<String>::new());
    // No trailing newline on the last line.
    assert_eq!(
        paths_from_uri_list(&b"file:///last".to_vec()),
        vec![String::from("/last")]
    );
    // A file line whose escape decodes to invalid UTF-8 is dropped.
    assert_eq!(
        paths_from_uri_list(&b"file:///bad%FF\nfile:///ok\n".to_vec()),
        vec![String::from("/ok")]
    );
}

#[test]
fn formats_membership() {
    let formats = Formats::from_vec(vec![
        Format::new(String::from("text/html"), 31),
        Format::new(String::from("image/png"), 32),
    ]);
    assert_eq!(formats.len(), 2);
    assert_eq!(formats.get(0).name(), "text/html");
    assert_eq!(formats.get(1).id(), 32);
    assert!(formats.contains_id(31));
    assert!(!formats.contains_id(99));
}

#[test]
fn format_cache_keeps_resolutions() {
    let mut cache = FormatCache::new();
    assert!(cache.lookup(7).is_none());
    cache.insert(Format::new(String::from("text/html"), 7));
    assert_eq!(cache.lookup(7).map(String::as_str), Some("text/html"));
    assert!(cache.lookup(8).is_none());
}

#[test]
fn builder_collects_options() {
    let builder = ClipboardEventListenerBuilder::new();
    assert!(builder.interval.is_none());
    assert!(builder.max_bytes.is_none());
    assert!(builder.custom_formats.is_empty());

    let builder = builder
        .interval(Duration::from_millis(100))
        .with_custom_formats(vec![String::from("application/x-test")])
        .max_size(10 * 1024 * 1024);
    assert_eq!(builder.interval, Some(Duration::from_millis(100)));
    assert_eq!(builder.max_bytes, Some(10 * 1024 * 1024));
    assert_eq!(builder.custom_formats, vec![String::from("application/x-test")]);
}
