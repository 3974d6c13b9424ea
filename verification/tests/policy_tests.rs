//! Tests of the extraction policy: priority order, size gating,
//! idempotence, and the scenarios one whole resolution cycle goes through.

use clipwatch::body::Body;
use clipwatch::error::ClipboardError;
use clipwatch::policy::{
    resolve_catalog, OutcomeTable, ReadOutcome, ReadRequest, Resolution, Resolver, TierCatalog,
};

fn catalog(
    custom_present: Vec<bool>,
    png: bool,
    raw_image: bool,
    file_list: bool,
    html: bool,
    text: bool,
) -> TierCatalog {
    let any_formats = custom_present.iter().any(|b| *b) || png || raw_image || file_list || html
        || text;
    TierCatalog { custom_present, png, raw_image, file_list, html, text, any_formats }
}

fn absent_table(customs: usize) -> OutcomeTable {
    let mut custom = Vec::new();
    for _ in 0..customs {
        custom.push(ReadOutcome::Unavailable);
    }
    OutcomeTable {
        custom,
        png: ReadOutcome::Unavailable,
        raw_image: ReadOutcome::Unavailable,
        file_list: ReadOutcome::Unavailable,
        html: ReadOutcome::Unavailable,
        text: ReadOutcome::Unavailable,
    }
}

#[test]
fn plain_text() {
    let cat = catalog(vec![], false, false, false, false, true);
    let mut table = absent_table(0);
    table.text = ReadOutcome::Text(String::from("they're taking the hobbits to Isengard!"));
    let r = resolve_catalog(cat, vec![], &table, true);
    assert_eq!(
        r,
        Resolution::Publish(Body::PlainText(String::from(
            "they're taking the hobbits to Isengard!"
        )))
    );
}

#[test]
fn html() {
    let cat = catalog(vec![], false, false, false, true, true);
    let mut table = absent_table(0);
    table.html = ReadOutcome::Text(String::from(
        "<h1>they're taking the hobbits to Isengard!</h1>",
    ));
    table.text = ReadOutcome::Text(String::from("they're taking the hobbits to Isengard!"));
    let r = resolve_catalog(cat, vec![], &table, true);
    // HTML outranks the plain text that is present at the same time.
    assert_eq!(
        r,
        Resolution::Publish(Body::Html(String::from(
            "<h1>they're taking the hobbits to Isengard!</h1>"
        )))
    );
}

#[test]
fn file_list() {
    let cat = catalog(vec![], false, false, true, false, false);
    let mut table = absent_table(0);
    table.file_list = ReadOutcome::Files(vec![String::from("/tmp/x.txt")]);
    let r = resolve_catalog(cat, vec![], &table, true);
    match r {
        Resolution::Publish(Body::FileList(files)) => {
            assert_eq!(files.len(), 1);
            assert_eq!(files[0], "/tmp/x.txt");
        }
        other => panic!("expected a file list, got {other:?}"),
    }
}

#[test]
fn png_with_single_file_path_attached() {
    // A PNG image together with a one-entry file list: the single path is
    // attached to the image.
    let cat = catalog(vec![], true, false, true, false, false);
    let mut table = absent_table(0);
    table.png = ReadOutcome::Bytes(vec![0x89, 0x50, 0x4E, 0x47]);
    table.file_list = ReadOutcome::Files(vec![String::from("/path/to/file")]);
    let r = resolve_catalog(cat, vec![], &table, true);
    assert_eq!(
        r,
        Resolution::Publish(Body::PngImage {
            bytes: vec![0x89, 0x50, 0x4E, 0x47],
            path: Some(String::from("/path/to/file")),
        })
    );
}

#[test]
fn png_with_multi_entry_file_list_gets_no_path() {
    // A file list with more than one entry is never an image path hint.
    let cat = catalog(vec![], true, false, true, false, false);
    let mut table = absent_table(0);
    table.png = ReadOutcome::Bytes(vec![1, 2, 3]);
    table.file_list = ReadOutcome::Files(vec![String::from("/a"), String::from("/b")]);
    let r = resolve_catalog(cat, vec![], &table, true);
    assert_eq!(
        r,
        Resolution::Publish(Body::PngImage { bytes: vec![1, 2, 3], path: None })
    );
}

#[test]
fn raw_image_with_single_file_path_attached() {
    // A platform-native image together with a one-entry file list: the
    // single path is attached to the normalized image.
    let cat = catalog(vec![], false, true, true, false, false);
    let mut table = absent_table(0);
    table.raw_image = ReadOutcome::Image { bytes: vec![255, 0, 0], width: 1, height: 1 };
    table.file_list = ReadOutcome::Files(vec![String::from("/shot.tiff")]);
    let r = resolve_catalog(cat, vec![], &table, true);
    match r {
        Resolution::Publish(Body::RawImage(img)) => {
            assert_eq!(img.bytes, vec![255, 0, 0]);
            assert_eq!((img.width, img.height), (1, 1));
            assert_eq!(img.path.as_deref(), Some("/shot.tiff"));
        }
        other => panic!("expected a raw image with a path, got {other:?}"),
    }
}

#[test]
fn custom_format_takes_priority() {
    // A monitored custom format outranks a simultaneously present image
    // and text.
    let cat = catalog(vec![true], true, false, false, true, true);
    let mut table = absent_table(1);
    table.custom[0] = ReadOutcome::Bytes(vec![0x01, 0x02]);
    table.png = ReadOutcome::Bytes(vec![9, 9, 9]);
    table.html = ReadOutcome::Text(String::from("<p>x</p>"));
    table.text = ReadOutcome::Text(String::from("x"));
    let r = resolve_catalog(cat, vec![String::from("application/x-test")], &table, true);
    assert_eq!(
        r,
        Resolution::Publish(Body::Custom {
            name: String::from("application/x-test"),
            data: vec![0x01, 0x02],
        })
    );
}

#[test]
fn custom_formats_keep_caller_order() {
    let cat = catalog(vec![true, true], false, false, false, false, false);
    let mut table = absent_table(2);
    table.custom[0] = ReadOutcome::Bytes(vec![1]);
    table.custom[1] = ReadOutcome::Bytes(vec![2]);
    let customs = vec![String::from("application/x-first"), String::from("application/x-second")];
    let r = resolve_catalog(cat, customs, &table, true);
    assert_eq!(
        r,
        Resolution::Publish(Body::Custom {
            name: String::from("application/x-first"),
            data: vec![1],
        })
    );
}

#[test]
fn priority_order_over_full_catalog() {
    // Every tier present and readable: the raw image is chosen only once
    // PNG is gone, the file list only once both images are gone, and so on.
    let mut table = absent_table(0);
    table.png = ReadOutcome::Bytes(vec![1]);
    table.raw_image = ReadOutcome::Image { bytes: vec![2], width: 1, height: 1 };
    table.file_list = ReadOutcome::Files(vec![String::from("/a"), String::from("/b")]);
    table.html = ReadOutcome::Text(String::from("<p>h</p>"));
    table.text = ReadOutcome::Text(String::from("t"));

    let all = catalog(vec![], true, true, true, true, true);
    match resolve_catalog(all, vec![], &table, true) {
        Resolution::Publish(Body::PngImage { .. }) => {}
        other => panic!("expected the PNG tier, got {other:?}"),
    }

    let no_png = catalog(vec![], false, true, true, true, true);
    match resolve_catalog(no_png, vec![], &table, true) {
        Resolution::Publish(Body::RawImage(img)) => {
            assert_eq!(img.bytes, vec![2]);
            assert_eq!((img.width, img.height), (1, 1));
        }
        other => panic!("expected the raw image tier, got {other:?}"),
    }

    let no_images = catalog(vec![], false, false, true, true, true);
    match resolve_catalog(no_images, vec![], &table, true) {
        Resolution::Publish(Body::FileList(f)) => assert_eq!(f.len(), 2),
        other => panic!("expected the file list tier, got {other:?}"),
    }

    let text_only = catalog(vec![], false, false, false, false, true);
    assert_eq!(
        resolve_catalog(text_only, vec![], &table, true),
        Resolution::Publish(Body::PlainText(String::from("t")))
    );
}

#[test]
fn priority_over_every_catalog_subset() {
    // Exhaustively over every subset of the five built-in tiers, with
    // every tier readable: the selected variant is always the present
    // tier of highest priority.
    for mask in 0u32..32 {
        let png = mask & 1 != 0;
        let raw = mask & 2 != 0;
        let files = mask & 4 != 0;
        let html = mask & 8 != 0;
        let text = mask & 16 != 0;
        let mut table = absent_table(0);
        table.png = ReadOutcome::Bytes(vec![1]);
        table.raw_image = ReadOutcome::Image { bytes: vec![2], width: 1, height: 1 };
        table.file_list = ReadOutcome::Files(vec![String::from("/a"), String::from("/b")]);
        table.html = ReadOutcome::Text(String::from("h"));
        table.text = ReadOutcome::Text(String::from("t"));
        let cat = catalog(vec![], png, raw, files, html, text);
        let r = resolve_catalog(cat, vec![], &table, true);
        match r {
            Resolution::Publish(Body::PngImage { .. }) => assert!(png),
            Resolution::Publish(Body::RawImage(_)) => assert!(!png && raw),
            Resolution::Publish(Body::FileList(_)) => assert!(!png && !raw && files),
            Resolution::Publish(Body::Html(_)) => assert!(!png && !raw && !files && html),
            Resolution::Publish(Body::PlainText(_)) => {
                assert!(!png && !raw && !files && !html && text)
            }
            Resolution::Skip => assert_eq!(mask, 0),
            other => panic!("unexpected resolution {other:?}"),
        }
    }
}

#[test]
fn size_gated_tier_never_appears_in_result() {
    // Exhaustively over every subset with the PNG tier gated by size: the
    // result is never a PNG body, and never an outright failure.
    for mask in 0u32..16 {
        let raw = mask & 1 != 0;
        let files = mask & 2 != 0;
        let html = mask & 4 != 0;
        let text = mask & 8 != 0;
        let mut table = absent_table(0);
        table.png = ReadOutcome::TooLarge;
        table.raw_image = ReadOutcome::Image { bytes: vec![2], width: 1, height: 1 };
        table.file_list = ReadOutcome::Files(vec![String::from("/a"), String::from("/b")]);
        table.html = ReadOutcome::Text(String::from("h"));
        table.text = ReadOutcome::Text(String::from("t"));
        let cat = catalog(vec![], true, raw, files, html, text);
        let r = resolve_catalog(cat, vec![], &table, true);
        match r {
            Resolution::Publish(Body::PngImage { .. }) => {
                panic!("a size-gated tier appeared in the result")
            }
            Resolution::Fail(e) => panic!("size gating must not fail the cycle: {e:?}"),
            Resolution::Skip => assert_eq!(mask, 0),
            Resolution::Publish(_) => assert_ne!(mask, 0),
        }
    }
}

#[test]
fn resolution_is_idempotent() {
    // The same catalog and byte content, resolved twice with no change in
    // between, yields structurally equal bodies.
    let mut table = absent_table(0);
    table.png = ReadOutcome::Bytes(vec![5, 6, 7]);
    table.file_list = ReadOutcome::Files(vec![String::from("/img.png")]);
    let first = resolve_catalog(
        catalog(vec![], true, false, true, false, false),
        vec![],
        &table,
        true,
    );
    let second = resolve_catalog(
        catalog(vec![], true, false, true, false, false),
        vec![],
        &table,
        true,
    );
    assert_eq!(first, second);
}

#[test]
fn size_gated_image_falls_through_to_text() {
    // The image exceeds the limit; resolution falls through to plain text
    // instead of failing outright.
    let cat = catalog(vec![], true, false, false, false, true);
    let mut table = absent_table(0);
    table.png = ReadOutcome::TooLarge;
    table.text = ReadOutcome::Text(String::from("fallback"));
    let r = resolve_catalog(cat, vec![], &table, true);
    assert_eq!(r, Resolution::Publish(Body::PlainText(String::from("fallback"))));
}

#[test]
fn size_gated_only_tier_yields_no_event() {
    // An image beyond the limit, with nothing else present: the cycle
    // produces no event at all, not an error.
    let cat = catalog(vec![], true, false, false, false, false);
    let mut table = absent_table(0);
    table.png = ReadOutcome::TooLarge;
    let r = resolve_catalog(cat, vec![], &table, true);
    assert_eq!(r, Resolution::Skip);
}

#[test]
fn empty_content_falls_through() {
    // Empty content for a format is "effectively absent": resolution
    // continues with the next tier.
    let cat = catalog(vec![], true, false, false, false, true);
    let mut table = absent_table(0);
    table.png = ReadOutcome::Bytes(vec![]);
    table.text = ReadOutcome::Text(String::from("after empty"));
    let r = resolve_catalog(cat, vec![], &table, true);
    assert_eq!(r, Resolution::Publish(Body::PlainText(String::from("after empty"))));
}

#[test]
fn unknown_formats_only_is_no_matching_format() {
    // The clipboard advertises formats, but none of the known kinds.
    let cat = catalog(vec![], false, false, false, false, false);
    let cat = TierCatalog { any_formats: true, ..cat };
    let table = absent_table(0);
    let r = resolve_catalog(cat, vec![], &table, true);
    assert_eq!(r, Resolution::Fail(ClipboardError::NoMatchingFormat));
}

#[test]
fn empty_catalog_is_skipped() {
    let cat = catalog(vec![], false, false, false, false, false);
    let table = absent_table(0);
    let r = resolve_catalog(cat, vec![], &table, true);
    assert_eq!(r, Resolution::Skip);
}

#[test]
fn read_failure_surfaces_as_read_error() {
    let cat = catalog(vec![], true, false, false, false, true);
    let mut table = absent_table(0);
    table.png = ReadOutcome::Failed(String::from("conversion timed out"));
    table.text = ReadOutcome::Text(String::from("never reached"));
    let r = resolve_catalog(cat, vec![], &table, true);
    assert_eq!(
        r,
        Resolution::Fail(ClipboardError::ReadError(String::from("conversion timed out")))
    );
}

#[test]
fn marker_formats_surface_as_custom_bodies() {
    // Exclusion markers set by other applications can be monitored as
    // custom formats: a snapshot carrying one yields a custom body named
    // after it, ahead of the actual content, so a consumer can veto the
    // item.
    let customs = vec![
        String::from("ExcludeClipboardContentFromMonitorProcessing"),
        String::from("CanIncludeInClipboardHistory"),
    ];
    let cat = catalog(vec![false, true], false, false, false, false, true);
    let mut table = absent_table(2);
    table.custom[1] = ReadOutcome::Bytes(vec![1]);
    table.text = ReadOutcome::Text(String::from("secret"));
    let r = resolve_catalog(cat, customs, &table, true);
    assert_eq!(
        r,
        Resolution::Publish(Body::Custom {
            name: String::from("CanIncludeInClipboardHistory"),
            data: vec![1],
        })
    );
}

#[test]
fn gate_veto_skips_cycle_without_reads() {
    let cat = catalog(vec![], false, false, false, false, true);
    let mut table = absent_table(0);
    table.text = ReadOutcome::Text(String::from("vetoed"));
    let r = resolve_catalog(cat, vec![], &table, false);
    assert_eq!(r, Resolution::Skip);
}

#[test]
fn resolver_requests_follow_priority() {
    // Driving the state machine by hand: the gatekeeper check comes first, then the
    // PNG read, then the file-list hint read, and the cycle is decided.
    let cat = catalog(vec![], true, false, true, false, false);
    let mut resolver = Resolver::new(cat, vec![]);
    assert_eq!(resolver.request(), Some(ReadRequest::ConsultGate));
    resolver.advance_gate(true);
    assert_eq!(resolver.request(), Some(ReadRequest::ReadPng));
    resolver.advance(ReadOutcome::Bytes(vec![7, 8]));
    assert_eq!(resolver.request(), Some(ReadRequest::ReadFileListHint));
    resolver.advance(ReadOutcome::Files(vec![String::from("/pic.png")]));
    assert_eq!(resolver.request(), None);
    assert!(resolver.is_done());
    assert_eq!(
        resolver.into_result(),
        Resolution::Publish(Body::PngImage {
            bytes: vec![7, 8],
            path: Some(String::from("/pic.png")),
        })
    );
}

#[test]
fn resolver_gate_veto_issues_no_read() {
    let cat = catalog(vec![], true, true, true, true, true);
    let mut resolver = Resolver::new(cat, vec![]);
    resolver.advance_gate(false);
    assert_eq!(resolver.request(), None);
    assert_eq!(resolver.into_result(), Resolution::Skip);
}

#[test]
fn size_limit_applies_to_images_and_customs_only() {
    assert!(ReadRequest::ReadPng.size_limited());
    assert!(ReadRequest::ReadRawImage.size_limited());
    assert!(ReadRequest::ReadCustom { index: 0 }.size_limited());
    assert!(!ReadRequest::ReadHtml.size_limited());
    assert!(!ReadRequest::ReadText.size_limited());
    assert!(!ReadRequest::ReadFileList.size_limited());
    assert!(!ReadRequest::ReadFileListHint.size_limited());
}
