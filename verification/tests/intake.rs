use dgg_embeds::cache::{Cache, CacheEntry};
use dgg_embeds::intake::{Action, Event, Failure, HelixReply, Intake, Message, Notice, Row};
use dgg_embeds::oembed::{oembed_url, YoutubeOEmbed};

fn message(data: &str, timestamp: i64) -> Message {
    Message { data: data.to_string(), timestamp }
}

fn step(intake: &mut Intake, cache: &mut Cache, event: Event) -> Action {
    assert!(intake.accepts(&event));
    intake.step(cache, event)
}

fn titles(titles: &[&str]) -> Event {
    Event::Helix(HelixReply::Titles(titles.iter().map(|t| t.to_string()).collect()))
}

fn inserted(action: Action) -> (Row, Option<Notice>) {
    match action {
        Action::Insert(row, notice) => (row, notice),
        other => panic!("{:?}", other),
    }
}

fn check_row(row: &Row, timest: i64, link: &str, platform: &str, channel: &str, title: &str) {
    assert_eq!(row.timest, timest);
    assert_eq!(row.link, link);
    assert_eq!(row.platform, platform);
    assert_eq!(row.channel, channel);
    assert_eq!(row.title, title);
}

fn asked(data: &str, cache: &mut Cache) -> (Intake, Action) {
    let mut intake = Intake::new(&message(data, 1_500));
    let action = step(&mut intake, cache, Event::Go);
    (intake, action)
}

#[test]
fn a_message_without_embeds_is_finished_at_once() {
    let mut cache = Cache::new();
    let (intake, action) = asked("hello there", &mut cache);
    assert!(matches!(action, Action::Finish));
    assert!(!intake.accepts(&Event::Go));
}

#[test]
fn strims_is_stored_without_asking() {
    let mut cache = Cache::new();
    let (mut intake, action) = asked("https://strims.gg/angelthump/AbC", &mut cache);
    let (row, notice) = inserted(action);
    check_row(&row, 1, "strims.gg/angelthump/AbC", "strims.gg", "angelthump/AbC", "");
    assert_eq!(notice, None);
    assert!(matches!(step(&mut intake, &mut cache, Event::Go), Action::Finish));
    assert!(cache.is_empty());
}

#[test]
fn a_live_stream_is_stored_and_remembered() {
    let mut cache = Cache::new();
    let (mut intake, action) = asked("#twitch/Destiny", &mut cache);
    assert!(matches!(action, Action::AskStream(login) if login == "Destiny"));
    let (row, notice) = inserted(step(&mut intake, &mut cache, titles(&["first", "second"])));
    check_row(&row, 1, "#twitch/destiny", "twitch", "Destiny", "first");
    assert_eq!(notice, None);
    assert_eq!(cache.title("#twitch/destiny"), Some("first".to_string()));

    let (_, action) = asked("#twitch/DESTINY", &mut cache);
    let (row, _) = inserted(action);
    check_row(&row, 1, "#twitch/destiny", "twitch", "DESTINY", "first");

    cache.retain_young(1_500 + 60_000);
    let (_, action) = asked("#twitch/destiny", &mut cache);
    assert!(matches!(action, Action::AskStream(_)));
}

#[test]
fn streams_are_stored_in_small_letters() {
    for link in ["#twitch/ABCDEFGHIJKLMNOPQRSTUVWXYZ", "#twitch/a[b]^`\\-Z_09z", "#twitch/@@@"] {
        let mut cache = Cache::new();
        let mut intake = Intake::new(&message(link, 0));
        match step(&mut intake, &mut cache, Event::Go) {
            Action::AskStream(login) => {
                let (row, _) = inserted(step(&mut intake, &mut cache, titles(&["t"])));
                assert_eq!(row.link, link.to_lowercase());
                assert_eq!(format!("#twitch/{}", login), link);
                assert_eq!(row.channel, login);
            }
            action => assert!(link.contains('@') && matches!(action, Action::Finish)),
        }
    }
}

#[test]
fn what_is_not_found_is_passed_over() {
    let mut cache = Cache::new();
    let (mut intake, _) = asked("#twitch/offline strims.gg/angelthump/abc", &mut cache);
    let (row, _) = inserted(step(&mut intake, &mut cache, titles(&[])));
    assert_eq!(row.link, "strims.gg/angelthump/abc");
    assert!(cache.is_empty());

    let (mut intake, _) = asked("#twitch-vod/123", &mut cache);
    assert!(matches!(step(&mut intake, &mut cache, titles(&[])), Action::Finish));
    let (mut intake, _) = asked("#twitch-clip/abc", &mut cache);
    assert!(matches!(step(&mut intake, &mut cache, titles(&[])), Action::Finish));
}

#[test]
fn videos_and_clips_are_stored_and_not_remembered() {
    let mut cache = Cache::new();
    let (mut intake, action) = asked("#twitch-vod/123", &mut cache);
    assert!(matches!(action, Action::AskVideo(id) if id == "123"));
    let (row, _) = inserted(step(&mut intake, &mut cache, titles(&["a video"])));
    check_row(&row, 1, "#twitch-vod/123", "twitch-vod", "123", "a video");

    let (mut intake, action) = asked("#twitch-clip/AbC", &mut cache);
    assert!(matches!(action, Action::AskClip(id) if id == "AbC"));
    let (row, _) = inserted(step(&mut intake, &mut cache, titles(&["a clip"])));
    check_row(&row, 1, "#twitch-clip/AbC", "twitch-clip", "AbC", "a clip");
    assert!(cache.is_empty());
}

#[test]
fn a_remembered_video_does_not_heed_the_reply() {
    let mut cache = Cache::new();
    let entry = CacheEntry {
        timestamp: 1,
        platform: "twitch-vod".to_string(),
        channel: "123".to_string(),
        title: "remembered".to_string(),
    };
    cache.insert("#twitch-vod/123".to_string(), entry);
    let (mut intake, action) = asked("#twitch-vod/123", &mut cache);
    assert!(matches!(action, Action::AskVideo(_)));
    let reply = Event::Helix(HelixReply::Broken);
    let (row, _) = inserted(step(&mut intake, &mut cache, reply));
    assert_eq!(row.title, "remembered");
}

#[test]
fn a_failed_request_for_a_stream_is_noted() {
    for status in [None, Some(500), Some(503)] {
        let mut cache = Cache::new();
        let (mut intake, _) = asked("#twitch/abc", &mut cache);
        let reply = Event::Helix(HelixReply::Unreachable(status));
        let (row, notice) = inserted(step(&mut intake, &mut cache, reply));
        check_row(&row, 1, "#twitch/abc", "twitch", "abc", "");
        assert_eq!(notice, Some(Notice::RequestFailed));
        assert!(cache.is_empty());
    }
}

#[test]
fn a_failed_request_for_a_video_needs_a_status() {
    for link in ["#twitch-vod/123", "#twitch-clip/abc"] {
        let mut cache = Cache::new();
        let (mut intake, _) = asked(link, &mut cache);
        let reply = Event::Helix(HelixReply::Unreachable(Some(503)));
        let (row, notice) = inserted(step(&mut intake, &mut cache, reply));
        assert_eq!(row.title, "");
        assert_eq!(notice, Some(Notice::ServiceUnavailable));

        let (mut intake, _) = asked(link, &mut cache);
        let reply = Event::Helix(HelixReply::Unreachable(Some(429)));
        assert_eq!(inserted(step(&mut intake, &mut cache, reply)).1, None);

        let (mut intake, _) = asked(link, &mut cache);
        let reply = Event::Helix(HelixReply::Unreachable(None));
        let action = step(&mut intake, &mut cache, reply);
        assert!(matches!(action, Action::Fail(Failure::NoStatus)));
        assert!(!intake.accepts(&Event::Go));
    }
}

#[test]
fn refusals_are_noted_by_their_status() {
    let expected = [
        (429, Some(Notice::TooManyRequests)),
        (503, Some(Notice::ServiceUnavailable)),
        (401, None),
    ];
    for link in ["#twitch/abc", "#twitch-vod/123", "#twitch-clip/abc"] {
        for (status, expected) in expected {
            let mut cache = Cache::new();
            let (mut intake, _) = asked(link, &mut cache);
            let reply = Event::Helix(HelixReply::Refused(status));
            let (row, notice) = inserted(step(&mut intake, &mut cache, reply));
            assert_eq!((row.link.as_str(), row.title.as_str()), (link, ""));
            assert_eq!(notice, expected);
        }
    }
}

#[test]
fn garbled_replies_are_stored_and_broken_requests_give_up() {
    for link in ["#twitch/abc", "#twitch-vod/123", "#twitch-clip/abc"] {
        let mut cache = Cache::new();
        let (mut intake, _) = asked(link, &mut cache);
        let reply = Event::Helix(HelixReply::Garbled);
        let (row, notice) = inserted(step(&mut intake, &mut cache, reply));
        assert_eq!((row.title.as_str(), notice), ("", None));

        let (mut intake, _) = asked(link, &mut cache);
        let reply = Event::Helix(HelixReply::Broken);
        let action = step(&mut intake, &mut cache, reply);
        assert!(matches!(action, Action::Fail(Failure::BrokenRequest)));
    }
}

#[test]
fn a_youtube_video_is_stored_under_its_author_and_remembered() {
    let mut cache = Cache::new();
    let (mut intake, action) = asked("#youtube/dQw4w9WgXcQ", &mut cache);
    assert!(matches!(action, Action::AskOembed(url) if url
        == "https://www.youtube.com/oembed?url=https%3A%2F%2Fyoutu.be%2FdQw4w9WgXcQ&format=json"));
    let action = step(&mut intake, &mut cache, Event::OembedStatus(200));
    assert!(matches!(action, Action::ReadOembed));
    let body = YoutubeOEmbed { title: "A Song".to_string(), author_name: "Rick".to_string() };
    let (row, _) = inserted(step(&mut intake, &mut cache, Event::OembedBody(Some(body))));
    check_row(&row, 1, "#youtube/dQw4w9WgXcQ", "youtube", "Rick", "A Song");
    assert_eq!(cache.title("#youtube/dQw4w9WgXcQ"), Some("A Song".to_string()));

    let (_, action) = asked("#youtube/dQw4w9WgXcQ", &mut cache);
    let (row, _) = inserted(action);
    check_row(&row, 1, "#youtube/dQw4w9WgXcQ", "youtube", "dQw4w9WgXcQ", "A Song");

    let (_, action) = asked("#youtube/dqw4w9wgxcq", &mut cache);
    assert!(matches!(action, Action::AskOembed(_)));
}

#[test]
fn youtube_can_refuse_fail_and_answer_nonsense() {
    let mut cache = Cache::new();
    let (mut intake, _) = asked("#youtube/abc", &mut cache);
    let action = step(&mut intake, &mut cache, Event::OembedStatus(404));
    assert!(matches!(action, Action::Finish));

    let (mut intake, _) = asked("#youtube/abc", &mut cache);
    let (row, notice) = inserted(step(&mut intake, &mut cache, Event::OembedUnreachable));
    check_row(&row, 1, "#youtube/abc", "youtube", "abc", "");
    assert_eq!(notice, Some(Notice::RequestFailed));

    let (mut intake, _) = asked("#youtube/abc", &mut cache);
    step(&mut intake, &mut cache, Event::OembedStatus(200));
    let action = step(&mut intake, &mut cache, Event::OembedBody(None));
    assert!(matches!(action, Action::Fail(Failure::BadOembed)));
    assert!(cache.is_empty());
}

#[test]
fn rows_follow_the_links() {
    let mut cache = Cache::new();
    let text = "#twitch/one #twitch/gone #twitch-vod/222 #youtube/333 strims.gg/angelthump/four";
    let mut intake = Intake::new(&message(text, 61_999));
    let mut rows: Vec<String> = Vec::new();
    let mut event = Event::Go;
    loop {
        event = match step(&mut intake, &mut cache, event) {
            Action::AskStream(login) if login == "gone" => titles(&[]),
            Action::AskStream(_) | Action::AskVideo(_) | Action::AskClip(_) => titles(&["t"]),
            Action::AskOembed(_) => Event::OembedStatus(200),
            Action::ReadOembed => Event::OembedBody(Some(YoutubeOEmbed {
                title: "t".to_string(),
                author_name: "a".to_string(),
            })),
            Action::Insert(row, _) => {
                assert_eq!(row.timest, 61);
                rows.push(row.link);
                Event::Go
            }
            Action::Fail(failure) => panic!("{:?}", failure),
            Action::Finish => break,
        };
    }
    assert_eq!(
        rows,
        vec!["#twitch/one", "#twitch-vod/222", "#youtube/333", "strims.gg/angelthump/four"]
    );
}

#[test]
fn times_are_rounded_towards_zero() {
    let cases = [
        (0, 0),
        (999, 0),
        (1_000, 1),
        (1_634_000_123_456, 1_634_000_123),
        (-1, 0),
        (-1_999, -1),
        (i64::MIN, i64::MIN / 1000),
        (i64::MAX, i64::MAX / 1000),
    ];
    for (millis, seconds) in cases {
        let links = vec!["strims.gg/angelthump/abc".to_string()];
        let mut intake = Intake::from_links(millis, links);
        let mut cache = Cache::new();
        let (row, _) = inserted(step(&mut intake, &mut cache, Event::Go));
        assert_eq!(row.timest, seconds);
    }
}

#[test]
fn only_the_awaited_event_is_accepted() {
    let mut cache = Cache::new();
    let mut intake = Intake::new(&message("#twitch/abc #youtube/abc", 0));
    assert!(intake.accepts(&Event::Go));
    assert!(!intake.accepts(&titles(&[])));
    step(&mut intake, &mut cache, Event::Go);
    assert!(!intake.accepts(&Event::Go));
    assert!(!intake.accepts(&Event::OembedStatus(200)));
    step(&mut intake, &mut cache, titles(&[]));
    assert!(intake.accepts(&Event::OembedStatus(200)));
    assert!(intake.accepts(&Event::OembedUnreachable));
    assert!(!intake.accepts(&Event::OembedBody(None)));
    step(&mut intake, &mut cache, Event::OembedStatus(200));
    assert!(intake.accepts(&Event::OembedBody(None)));
}

#[test]
fn odd_ids_are_escaped_in_the_address() {
    assert_eq!(
        oembed_url("a[b]^`\\ é&"),
        "https://www.youtube.com/oembed?url=https%3A%2F%2Fyoutu.be%2Fa%5Bb%5D%5E%60%5C+%C3%A9%26&format=json"
    );
    assert_eq!(
        oembed_url("a-b_c.d*9"),
        "https://www.youtube.com/oembed?url=https%3A%2F%2Fyoutu.be%2Fa-b_c.d*9&format=json"
    );
}
