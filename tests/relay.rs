use slack_relay::{
    classify, diagnostic_text, dispatch, first_unparseable, normalize, normalize_markup, render,
    Action, AppHomeOpened, AppMention, EngineOutcome, EngineReport, Event, EventCallback, FileRef,
    Message, MessageEvent, Section, SectionKind, UrlVerification, APOLOGY, HOME_GREETING,
};

fn s(t: &str) -> String {
    t.to_string()
}

fn comment(t: &str) -> Section {
    Section { kind: SectionKind::Comment, text: s(t) }
}

fn data(t: &str) -> Section {
    Section { kind: SectionKind::Data, text: s(t) }
}

fn file(mimetype: &str) -> FileRef {
    FileRef { url_private_download: s("https://files.example/f"), mimetype: s(mimetype) }
}

fn message(channel_type: &str, user: &str, text: &str) -> Event {
    Event::EventCallback(EventCallback {
        event: MessageEvent::Message(Message {
            channel: s("D1"),
            text: s(text),
            user: s(user),
            channel_type: s(channel_type),
            ts: s("1.0"),
            files: vec![file("text/plain")],
        }),
    })
}

fn mention(user: &str, text: &str) -> Event {
    Event::EventCallback(EventCallback {
        event: MessageEvent::AppMention(AppMention {
            channel: s("C1"),
            text: s(text),
            user: s(user),
            ts: s("1.0"),
            files: vec![],
        }),
    })
}

#[test]
fn normalize_strips_bot_mention() {
    assert_eq!(normalize("<@U1> hello", "U1"), " hello");
}

#[test]
fn normalize_strips_every_bot_mention() {
    assert_eq!(normalize_markup("<@U1>a<@U1>b<@U1>", "U1"), "ab");
}

#[test]
fn normalize_collapses_decorated_link() {
    assert_eq!(normalize("<http://x|click>", "U1"), "click");
}

#[test]
fn normalize_collapses_bare_link() {
    assert_eq!(normalize("<http://x>", "U1"), "http://x");
}

#[test]
fn normalize_keeps_other_mentions_as_text() {
    assert_eq!(normalize("<@U2> hi", "U1"), "@U2 hi");
}

#[test]
fn normalize_leaves_unclosed_markup() {
    assert_eq!(normalize("a < b", "U1"), "a < b");
    assert_eq!(normalize("x <> y", "U1"), "x <> y");
    assert_eq!(normalize("<|x>", "U1"), "|x");
}

#[test]
fn normalize_applies_rewrites_in_order() {
    assert_eq!(normalize("see <@U1><https://a.example|docs> or <mailto:x@y>", "U1"), "see docs or mailto:x@y");
}

#[test]
fn normalize_is_idempotent_on_plain_text() {
    let t = "what is 2+2";
    let once = normalize(t, "U1");
    assert_eq!(once, t);
    assert_eq!(normalize(&once, "U1"), once);
}

#[test]
fn normalize_of_empty_text_is_empty() {
    assert_eq!(normalize("", "U1"), "");
}

#[test]
fn normalize_expands_emoji_shorthand() {
    assert_eq!(normalize("hi :smile:", "U1"), "hi \u{1F604}");
    assert_eq!(normalize(":not_an_emoji_404:", "U1"), ":not_an_emoji_404:");
}

#[test]
fn own_direct_message_is_ignored() {
    assert!(matches!(dispatch(message("im", "BOT", "hello"), "BOT"), Action::Ignore));
}

#[test]
fn direct_message_from_user_is_processed() {
    match dispatch(message("im", "U9", "<@BOT> hi"), "BOT") {
        Action::Process(req) => {
            assert_eq!(req.channel, "D1");
            assert_eq!(req.text, " hi");
            assert_eq!(req.files.len(), 1);
            assert_eq!(req.files[0].mimetype, "text/plain");
        }
        _ => panic!("expected the message to be processed"),
    }
}

#[test]
fn shared_channel_message_is_ignored() {
    assert!(matches!(dispatch(message("channel", "U9", "hello"), "BOT"), Action::Ignore));
}

#[test]
fn handshake_echoes_challenge() {
    let event = Event::UrlVerification(UrlVerification { token: s("tok"), challenge: s("abc123") });
    match dispatch(event, "BOT") {
        Action::Challenge(reply) => assert_eq!(reply.challenge, "abc123"),
        _ => panic!("expected the challenge to be echoed"),
    }
}

#[test]
fn home_opened_publishes_welcome() {
    let event = Event::EventCallback(EventCallback {
        event: MessageEvent::AppHomeOpened(AppHomeOpened { user: s("U7") }),
    });
    match dispatch(event, "BOT") {
        Action::PublishHome(p) => {
            assert_eq!(p.user_id, "U7");
            assert_eq!(p.view.ty, "home");
            assert_eq!(p.view.blocks.len(), 1);
            assert_eq!(p.view.blocks[0].ty, "section");
            let text = p.view.blocks[0].text.as_ref().unwrap();
            assert_eq!(text.ty, "mrkdwn");
            assert_eq!(text.text, HOME_GREETING);
        }
        _ => panic!("expected the home view to be published"),
    }
}

#[test]
fn unknown_notification_is_ignored() {
    let event = Event::EventCallback(EventCallback { event: MessageEvent::Other });
    assert!(matches!(dispatch(event, "BOT"), Action::Ignore));
}

#[test]
fn sections_render_in_order() {
    let outcome = EngineOutcome::Rendered(vec![comment("a"), data("b"), comment("c")]);
    let replies = render(&outcome, "C1", true);
    assert_eq!(replies.len(), 3);
    assert_eq!(replies[0].text.as_deref(), Some("a"));
    assert!(replies[0].blocks.is_none());
    assert!(replies[1].text.is_none());
    let blocks = replies[1].blocks.as_ref().unwrap();
    assert_eq!(blocks.len(), 1);
    assert_eq!(blocks[0].ty, "section");
    assert_eq!(blocks[0].text.as_ref().unwrap().text, "```b```");
    assert_eq!(replies[2].text.as_deref(), Some("c"));
    for r in &replies {
        assert_eq!(r.channel, "C1");
        assert!(r.thread_ts.is_none());
        assert!(!r.reply_broadcast);
    }
}

#[test]
fn empty_output_renders_nothing() {
    assert!(render(&EngineOutcome::Rendered(vec![]), "C1", true).is_empty());
}

#[test]
fn unintelligible_renders_apology_or_nothing() {
    let replies = render(&EngineOutcome::Unintelligible, "C1", true);
    assert_eq!(replies.len(), 1);
    assert_eq!(replies[0].text.as_deref(), Some(APOLOGY));
    assert_eq!(APOLOGY, "Sorry, I can't understand your request.");
    assert!(render(&EngineOutcome::Unintelligible, "C1", false).is_empty());
}

#[test]
fn failure_relays_last_diagnostic() {
    let report = EngineReport::CommandErrors(vec![vec![comment("E1")], vec![comment("E2")], vec![comment("E3")]]);
    let outcome = classify(report);
    let replies = render(&outcome, "C1", true);
    assert_eq!(replies.len(), 1);
    assert_eq!(replies[0].text.as_deref(), Some("E3"));
    assert!(replies[0].blocks.is_none());
}

#[test]
fn diagnostic_joins_sections_by_line() {
    assert_eq!(diagnostic_text(&vec![comment("bad"), data("input")]), "bad\ninput");
    assert_eq!(diagnostic_text(&vec![]), "");
}

#[test]
fn classify_keeps_resolved_and_unintelligible() {
    match classify(EngineReport::Resolved(vec![comment("4")])) {
        EngineOutcome::Rendered(secs) => {
            assert_eq!(secs.len(), 1);
            assert_eq!(secs[0].text, "4");
        }
        _ => panic!("expected rendered output"),
    }
    assert!(matches!(classify(EngineReport::Unintelligible), EngineOutcome::Unintelligible));
}

#[test]
fn unparseable_media_type_is_found() {
    let files = vec![file("text/plain"), file("not a media type"), file("image/png")];
    assert_eq!(first_unparseable(&files), Some(1));
    assert_eq!(first_unparseable(&vec![file("text/plain"), file("image/png")]), None);
    assert_eq!(first_unparseable(&vec![]), None);
}

#[test]
fn mention_runs_end_to_end() {
    let req = match dispatch(mention("U5", "<@BOT> what is 2+2"), "BOT") {
        Action::Process(req) => req,
        _ => panic!("expected the mention to be processed"),
    };
    assert_eq!(req.text, " what is 2+2");
    assert_eq!(req.text.trim(), "what is 2+2");
    let outcome = classify(EngineReport::Resolved(vec![comment("4")]));
    let replies = render(&outcome, &req.channel, true);
    assert_eq!(replies.len(), 1);
    assert_eq!(replies[0].channel, "C1");
    assert_eq!(replies[0].text.as_deref(), Some("4"));
    assert!(replies[0].blocks.is_none());
}
