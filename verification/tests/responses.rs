use partial_file::{
    Body, PartialFile, PartialFileRange, RangeHeader, ResolvedWindow, ResponseOutcome,
};

fn file_of(length: u64) -> PartialFile {
    PartialFile { length: Some(length) }
}

#[test]
fn range_inside_file_gets_partial_content() {
    let outcome = file_of(1000).respond_to(Some("bytes=500-999"));
    assert_eq!(outcome.status(), 206);
    assert_eq!(outcome.content_range().as_deref(), Some("bytes 500-999/1000"));
    assert_eq!(outcome.content_length(), Some(500));
    assert_eq!(outcome.accept_ranges(), "bytes");
    assert_eq!(outcome.body(), Some(Body { start: 500, len: Some(500) }));
}

#[test]
fn open_range_past_end_is_refused() {
    let outcome = file_of(1000).respond_to(Some("bytes=1500-"));
    assert_eq!(outcome.status(), 416);
    assert_eq!(outcome.content_range().as_deref(), Some("bytes */1000"));
    assert_eq!(outcome.content_length(), None);
    assert_eq!(outcome.accept_ranges(), "bytes");
    assert_eq!(outcome.body(), None);
}

#[test]
fn suffix_gets_tail_of_file() {
    let outcome = file_of(1000).respond_to(Some("bytes=-200"));
    assert_eq!(outcome.status(), 206);
    assert_eq!(
        outcome,
        ResponseOutcome::Partial(ResolvedWindow { start: 800, end: 999 }, 1000)
    );
    assert_eq!(outcome.content_range().as_deref(), Some("bytes 800-999/1000"));
    assert_eq!(outcome.content_length(), Some(200));
}

#[test]
fn oversize_suffix_gets_whole_file() {
    let outcome = file_of(1000).respond_to(Some("bytes=-5000"));
    assert_eq!(outcome.status(), 206);
    assert_eq!(
        outcome,
        ResponseOutcome::Partial(ResolvedWindow { start: 0, end: 999 }, 1000)
    );
    assert_eq!(outcome.content_range().as_deref(), Some("bytes 0-999/1000"));
    assert_eq!(outcome.content_length(), Some(1000));
}

#[test]
fn unparseable_header_is_refused() {
    let outcome = file_of(1000).respond_to(Some("bytes=abc"));
    assert_eq!(outcome.status(), 416);
    assert_eq!(outcome.content_range().as_deref(), Some("bytes */1000"));
    assert_eq!(outcome, ResponseOutcome::Unsatisfiable(Some(1000)));
}

#[test]
fn absent_header_serves_whole_file() {
    for length in [0u64, 1, 1000, u64::MAX] {
        let outcome = file_of(length).respond_to(None);
        assert_eq!(outcome, ResponseOutcome::Full(Some(length)));
        assert_eq!(outcome.status(), 200);
        assert_eq!(outcome.content_length(), Some(length));
        assert_eq!(outcome.content_range(), None);
        assert_eq!(outcome.accept_ranges(), "bytes");
        assert_eq!(outcome.body(), Some(Body { start: 0, len: Some(length) }));
    }
}

#[test]
fn absent_header_with_unknown_length_streams_all() {
    let outcome = PartialFile { length: None }.respond_to(None);
    assert_eq!(outcome, ResponseOutcome::Full(None));
    assert_eq!(outcome.status(), 200);
    assert_eq!(outcome.content_length(), None);
    assert_eq!(outcome.body(), Some(Body { start: 0, len: None }));
}

#[test]
fn unknown_length_makes_every_range_unsatisfiable() {
    let file = PartialFile { length: None };
    for header in [Some("bytes=0-0"), Some("bytes=5-"), Some("bytes=-5"), Some("bytes=abc")] {
        let outcome = file.respond_to(header);
        assert_eq!(outcome, ResponseOutcome::Unsatisfiable(None));
        assert_eq!(outcome.status(), 416);
        assert_eq!(outcome.content_range(), None);
        assert_eq!(outcome.content_length(), None);
        assert_eq!(outcome.accept_ranges(), "bytes");
        assert_eq!(outcome.body(), None);
    }
}

#[test]
fn content_length_is_window_length() {
    let file = file_of(1000);
    let ranges = [
        PartialFileRange::FromTo(0, 0),
        PartialFileRange::FromTo(10, 19),
        PartialFileRange::FromTo(990, 2000),
        PartialFileRange::AllFrom(1),
        PartialFileRange::Last(1),
        PartialFileRange::Last(1000),
        PartialFileRange::Last(1001),
    ];
    for range in ranges {
        match file.get_partial(range) {
            ResponseOutcome::Partial(window, file_length) => {
                let outcome = ResponseOutcome::Partial(window, file_length);
                assert_eq!(file_length, 1000);
                assert_eq!(outcome.content_length(), Some(window.end - window.start + 1));
                assert_eq!(
                    outcome.body(),
                    Some(Body { start: window.start, len: Some(window.end - window.start + 1) })
                );
            }
            other => panic!("range {:?} gave {:?}", range, other),
        }
    }
}

#[test]
fn get_partial_resolves_or_refuses() {
    let file = file_of(1000);
    assert_eq!(
        file.get_partial(PartialFileRange::FromTo(990, 2000)),
        ResponseOutcome::Partial(ResolvedWindow { start: 990, end: 999 }, 1000)
    );
    assert_eq!(
        file.get_partial(PartialFileRange::AllFrom(1000)),
        ResponseOutcome::Unsatisfiable(Some(1000))
    );
    assert_eq!(
        file.get_partial(PartialFileRange::FromTo(5, 4)),
        ResponseOutcome::Unsatisfiable(Some(1000))
    );
    assert_eq!(
        file.get_partial(PartialFileRange::Last(0)),
        ResponseOutcome::Unsatisfiable(Some(1000))
    );
    assert_eq!(
        PartialFile { length: None }.get_partial(PartialFileRange::AllFrom(0)),
        ResponseOutcome::Unsatisfiable(None)
    );
}

#[test]
fn empty_file_refuses_every_range() {
    let file = file_of(0);
    for header in ["bytes=0-0", "bytes=0-", "bytes=-1", "bytes=-0"] {
        let outcome = file.respond_to(Some(header));
        assert_eq!(outcome, ResponseOutcome::Unsatisfiable(Some(0)));
        assert_eq!(outcome.status(), 416);
        assert_eq!(outcome.content_range().as_deref(), Some("bytes */0"));
    }
}

#[test]
fn respond_follows_header_kind() {
    let file = file_of(10);
    assert_eq!(file.respond(RangeHeader::Absent), ResponseOutcome::Full(Some(10)));
    assert_eq!(
        file.respond(RangeHeader::Unparseable),
        ResponseOutcome::Unsatisfiable(Some(10))
    );
    assert_eq!(
        file.respond(RangeHeader::Requested(PartialFileRange::FromTo(2, 3))),
        ResponseOutcome::Partial(ResolvedWindow { start: 2, end: 3 }, 10)
    );
    assert_eq!(
        file.respond(RangeHeader::Requested(PartialFileRange::AllFrom(10))),
        ResponseOutcome::Unsatisfiable(Some(10))
    );
}

#[test]
fn several_ranges_serve_only_first() {
    let outcome = file_of(1000).respond_to(Some("bytes=0-99,200-299"));
    assert_eq!(
        outcome,
        ResponseOutcome::Partial(ResolvedWindow { start: 0, end: 99 }, 1000)
    );
    assert_eq!(outcome.content_range().as_deref(), Some("bytes 0-99/1000"));
    assert_eq!(outcome.content_length(), Some(100));
}

#[test]
fn start_after_end_is_refused() {
    let outcome = file_of(1000).respond_to(Some("bytes=20-10"));
    assert_eq!(outcome.status(), 416);
    assert_eq!(outcome.content_range().as_deref(), Some("bytes */1000"));
}

#[test]
fn content_range_writes_numbers_in_decimal() {
    let single = ResponseOutcome::Partial(ResolvedWindow { start: 0, end: 0 }, 1);
    assert_eq!(single.content_range().as_deref(), Some("bytes 0-0/1"));
    let wide = ResponseOutcome::Partial(
        ResolvedWindow { start: 1234567890, end: 18446744073709551614 },
        u64::MAX,
    );
    assert_eq!(
        wide.content_range().as_deref(),
        Some("bytes 1234567890-18446744073709551614/18446744073709551615")
    );
    assert_eq!(
        ResponseOutcome::Unsatisfiable(Some(10)).content_range().as_deref(),
        Some("bytes */10")
    );
    assert_eq!(ResponseOutcome::Unsatisfiable(None).content_range(), None);
    assert_eq!(ResponseOutcome::Full(Some(10)).content_range(), None);
}

#[test]
fn status_is_one_of_three() {
    assert_eq!(ResponseOutcome::Full(None).status(), 200);
    assert_eq!(ResponseOutcome::Full(Some(3)).status(), 200);
    assert_eq!(
        ResponseOutcome::Partial(ResolvedWindow { start: 1, end: 2 }, 3).status(),
        206
    );
    assert_eq!(ResponseOutcome::Unsatisfiable(Some(3)).status(), 416);
    assert_eq!(ResponseOutcome::Unsatisfiable(None).status(), 416);
}
