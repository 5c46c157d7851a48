use url_titles::input::non_blank_lines;
use url_titles::label::{generic_line, page_line, video_line, LookupError, VideoMeta};
use url_titles::replay::{replay_line, run_recorded, Recording};
use url_titles::schedule::{plan, ConfigError, Step};
use url_titles::selector::{after_lookup, classify, first_action, Action, Next, Strategy};
use url_titles::text::contains;
use url_titles::video::{is_video_url, video_id};

fn s(t: &str) -> String {
    t.to_string()
}

fn meta(channel: &str, date: &str, title: &str) -> VideoMeta {
    VideoMeta {
        channel: Some(s(channel)),
        date: Some(s(date)),
        title: Some(s(title)),
    }
}

fn empty_recording() -> Recording {
    Recording {
        pages: vec![],
        lookups: vec![],
    }
}

#[test]
fn two_line_input_end_to_end() {
    let urls = vec![
        s("https://example.com/page"),
        s("https://video.example/watch?v=abc123"),
    ];
    let rec = Recording {
        pages: vec![(s("https://example.com/page"), s("<title>Hello</title>"))],
        lookups: vec![(s("abc123"), Ok(meta("Chan", "2020-01-01", "Demo")))],
    };
    let out = run_recorded(&urls, 3, "video.example", &rec).unwrap();
    assert_eq!(
        out,
        vec![
            s("https://example.com/page --- Hello"),
            s("Chan (2020-01-01) https://video.example/watch?v=abc123 -- Demo"),
        ]
    );
}

#[test]
fn chunk_size_one_keeps_order() {
    let urls = vec![s("https://a.test/"), s("https://b.test/"), s("https://c.test/")];
    let rec = Recording {
        pages: vec![
            (s("https://c.test/"), s("<html><head><title>C</title></head></html>")),
            (s("https://a.test/"), s("<title>A</title>")),
            (s("https://b.test/"), s("<title>B</title>")),
        ],
        lookups: vec![],
    };
    let out = run_recorded(&urls, 1, "youtube", &rec).unwrap();
    assert_eq!(
        out,
        vec![
            s("https://a.test/ --- A"),
            s("https://b.test/ --- B"),
            s("https://c.test/ --- C"),
        ]
    );
    assert_eq!(plan(3, 1).unwrap().len(), 5);
}

#[test]
fn output_does_not_depend_on_chunk_size() {
    let urls: Vec<String> = (0..7).map(|i| format!("https://p{}.test/", i)).collect();
    let rec = Recording {
        pages: (0..7)
            .map(|i| (format!("https://p{}.test/", i), format!("<title>T{}</title>", i)))
            .collect(),
        lookups: vec![],
    };
    let one = run_recorded(&urls, 1, "youtube", &rec).unwrap();
    for size in 2..10 {
        assert_eq!(run_recorded(&urls, size, "youtube", &rec).unwrap(), one);
    }
    assert_eq!(one.len(), 7);
    assert_eq!(one[4], s("https://p4.test/ --- T4"));
}

#[test]
fn replay_twice_is_identical() {
    let urls = vec![
        s("https://www.youtube.com/watch?v=xyz&t=3"),
        s("https://x.test/"),
    ];
    let rec = Recording {
        pages: vec![(s("https://x.test/"), s("<p>no title</p>"))],
        lookups: vec![(s("xyz"), Ok(meta("C", "20200101", "T")))],
    };
    let first = run_recorded(&urls, 2, "youtube", &rec).unwrap();
    let second = run_recorded(&urls, 2, "youtube", &rec).unwrap();
    assert_eq!(first, second);
    assert_eq!(
        first,
        vec![
            s("C (20200101) https://www.youtube.com/watch?v=xyz&t=3 -- T"),
            s("https://x.test/ --- Title not found"),
        ]
    );
}

#[test]
fn video_url_without_identifier_uses_page_title() {
    let url = s("https://www.youtube.com/channel/abc");
    let rec = Recording {
        pages: vec![(url.clone(), s("<title>Channel page</title>"))],
        lookups: vec![],
    };
    assert_eq!(classify(&url, "youtube"), Strategy::Video);
    assert!(matches!(first_action(&url, "youtube"), Action::Fetch));
    assert_eq!(
        replay_line(&url, "youtube", &rec),
        s("https://www.youtube.com/channel/abc --- Channel page")
    );
}

#[test]
fn unavailable_lookup_uses_page_title() {
    let url = s("https://www.youtube.com/watch?v=abc");
    let rec = Recording {
        pages: vec![(url.clone(), s("<title>Fallback</title>"))],
        lookups: vec![(s("abc"), Err(LookupError::Unavailable))],
    };
    assert_eq!(
        replay_line(&url, "youtube", &rec),
        s("https://www.youtube.com/watch?v=abc --- Fallback")
    );
}

#[test]
fn every_lookup_error_falls_back() {
    let url = "https://www.youtube.com/watch?v=abc";
    for e in [
        LookupError::Timeout,
        LookupError::NotFound,
        LookupError::MalformedResponse,
        LookupError::Unavailable,
    ] {
        assert!(matches!(after_lookup(url, &Err(e)), Next::Fetch));
    }
}

#[test]
fn missing_field_falls_back() {
    let url = "https://www.youtube.com/watch?v=abc";
    let partial = VideoMeta {
        channel: Some(s("Chan")),
        date: None,
        title: Some(s("Demo")),
    };
    assert!(video_line(url, &partial).is_none());
    assert!(matches!(after_lookup(url, &Ok(partial)), Next::Fetch));
    match after_lookup(url, &Ok(meta("Chan", "2021", "Demo"))) {
        Next::Done(line) => assert_eq!(line, "Chan (2021) https://www.youtube.com/watch?v=abc -- Demo"),
        Next::Fetch => panic!("a complete record gives a video line"),
    }
}

#[test]
fn unrecorded_page_and_lookup() {
    let urls = vec![s("https://www.youtube.com/watch?v=q"), s("https://gone.test/")];
    let out = run_recorded(&urls, 5, "youtube", &empty_recording()).unwrap();
    assert_eq!(
        out,
        vec![
            s("https://www.youtube.com/watch?v=q --- Title not found"),
            s("https://gone.test/ --- Title not found"),
        ]
    );
}

#[test]
fn zero_chunk_size_is_refused() {
    let urls = vec![s("https://a.test/")];
    assert_eq!(
        run_recorded(&urls, 0, "youtube", &empty_recording()).unwrap_err(),
        ConfigError::ZeroChunkSize
    );
    assert_eq!(plan(4, 0).unwrap_err(), ConfigError::ZeroChunkSize);
}

#[test]
fn empty_url_list_gives_no_lines() {
    let out = run_recorded(&vec![], 3, "youtube", &empty_recording()).unwrap();
    assert!(out.is_empty());
    assert!(plan(0, 3).unwrap().is_empty());
}

#[test]
fn plan_splits_with_short_last_chunk() {
    assert_eq!(
        plan(7, 3).unwrap(),
        vec![
            Step::Run { start: 0, end: 3 },
            Step::Pause,
            Step::Run { start: 3, end: 6 },
            Step::Pause,
            Step::Run { start: 6, end: 7 },
        ]
    );
    assert_eq!(plan(6, 3).unwrap().len(), 3);
    assert_eq!(plan(2, 5).unwrap(), vec![Step::Run { start: 0, end: 2 }]);
}

#[test]
fn blank_lines_are_skipped() {
    let lines = vec![s("https://a.test/"), s(""), s("https://b.test/"), s("")];
    let urls = non_blank_lines(&lines);
    assert_eq!(urls, vec![s("https://a.test/"), s("https://b.test/")]);
    let rec = empty_recording();
    assert_eq!(run_recorded(&urls, 1, "youtube", &rec).unwrap().len(), 2);
    assert!(non_blank_lines(&vec![s(""), s("")]).is_empty());
}

#[test]
fn video_identifier_parsing() {
    assert_eq!(video_id("https://www.youtube.com/watch?v=dQw4w9WgXcQ"), Some(s("dQw4w9WgXcQ")));
    assert_eq!(video_id("https://www.youtube.com/watch?list=L&v=abc&t=9"), Some(s("abc")));
    assert_eq!(video_id("https://www.youtube.com/watch?v="), None);
    assert_eq!(video_id("https://www.youtube.com/watch?v=&x=1"), None);
    assert_eq!(video_id("https://www.youtube.com/watch?dev=1"), None);
    assert_eq!(video_id("https://youtu.be/abc"), None);
    assert_eq!(video_id("v=abc"), None);
}

#[test]
fn classification_is_by_substring() {
    assert!(is_video_url("https://www.youtube.com/watch?v=a", "youtube"));
    assert!(is_video_url("https://example.com/?ref=youtube", "youtube"));
    assert!(!is_video_url("https://example.com/", "youtube"));
    assert!(!is_video_url("you", "youtube"));
    assert!(contains("abc", ""));
    assert!(contains("abcabd", "abd"));
    assert!(!contains("abcab", "abd"));
    assert_eq!(classify("https://example.com/", "youtube"), Strategy::Generic);
}

#[test]
fn line_formats() {
    assert_eq!(generic_line("u", Some("t")), "u --- t");
    assert_eq!(generic_line("u", None), "u --- Title not found");
    assert_eq!(generic_line("u", Some("")), "u --- ");
    assert_eq!(
        video_line("u", &meta("c", "d", "t")),
        Some(s("c (d) u -- t"))
    );
}

#[test]
fn page_title_is_parsed_from_html() {
    let body = "<!DOCTYPE html><html><head><title>First</title></head><body><title>Second</title></body></html>";
    assert_eq!(page_line("u", Some(body)), "u --- First");
    assert_eq!(page_line("u", Some("<title>A &amp; B</title>")), "u --- A & B");
    assert_eq!(page_line("u", Some("<html><body>none</body></html>")), "u --- Title not found");
    assert_eq!(page_line("u", None), "u --- Title not found");
}
