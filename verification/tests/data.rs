use bot_lib::config::{Config, ConfigFile};
use bot_lib::data::{
    find_response_now, on_watch_signal, reply_for, respond, Reply, RespondError, WatchAction,
    WatchSignal,
};
use bot_lib::gating::{Draw, NEVER};
use bot_lib::response::{Outcome, ResponseEntry, ResponseKind};

fn text_of(reply: Reply) -> String {
    match reply {
        Reply::Text { content } => content,
        other => panic!("no text: {:?}", other),
    }
}

#[test]
fn a_text_response_replies_with_its_text() {
    let kind = ResponseKind::Text { content: "I use Arch btw".to_owned() };
    assert_eq!(text_of(respond(&kind).unwrap()), "I use Arch btw");
}

#[test]
fn no_response_replies_with_nothing() {
    assert!(matches!(respond(&ResponseKind::Nothing), Ok(Reply::Nothing)));
}

#[test]
fn image_responses_reply_with_their_image() {
    let image = ResponseKind::Image { path: "./assets/a.png".to_owned() };
    match respond(&image).unwrap() {
        Reply::Image { path } => assert_eq!(path, "./assets/a.png"),
        other => panic!("no image: {:?}", other),
    }
    let both = ResponseKind::TextAndImage {
        content: "TKINTER MENTIONED".to_owned(),
        path: "./assets/tkinter.png".to_owned(),
    };
    match respond(&both).unwrap() {
        Reply::TextAndImage { content, path } => {
            assert_eq!(content, "TKINTER MENTIONED");
            assert_eq!(path, "./assets/tkinter.png");
        }
        other => panic!("no text and image: {:?}", other),
    }
}

#[test]
fn a_random_text_response_replies_with_one_of_its_texts() {
    let texts = vec!["one".to_owned(), "two".to_owned(), "three".to_owned()];
    let kind = ResponseKind::RandomText { content: texts.clone() };
    let mut seen = vec![false; 3];
    for _ in 0..400 {
        let chosen = text_of(respond(&kind).unwrap());
        let at = texts.iter().position(|t| *t == chosen).unwrap();
        seen[at] = true;
    }
    assert_eq!(seen, vec![true, true, true]);
}

#[test]
fn a_random_text_response_without_texts_fails() {
    let kind = ResponseKind::RandomText { content: vec![] };
    assert_eq!(respond(&kind).unwrap_err(), RespondError::EmptyResponses);
}

#[test]
fn the_reply_for_a_choice_that_was_made() {
    let kind = ResponseKind::RandomText { content: vec!["one".to_owned(), "two".to_owned()] };
    let two = "two".to_owned();
    assert_eq!(text_of(reply_for(&kind, Some(&two)).unwrap()), "two");
    assert_eq!(reply_for(&kind, None).unwrap_err(), RespondError::EmptyResponses);
    let fixed = ResponseKind::Text { content: "fixed".to_owned() };
    assert_eq!(text_of(reply_for(&fixed, Some(&two)).unwrap()), "fixed");
}

#[test]
fn only_a_completed_write_calls_for_a_reload() {
    assert_eq!(on_watch_signal(WatchSignal::WriteCompleted), WatchAction::Reload);
    assert_eq!(on_watch_signal(WatchSignal::Other), WatchAction::Ignore);
    assert_eq!(on_watch_signal(WatchSignal::Failed), WatchAction::Report);
}

#[test]
fn a_response_at_the_present_time() {
    let file = ConfigFile {
        default_text_detect_cooldown: Some(3_600),
        guild_id: 0,
        help_text: None,
        bot_react_role_id: 0,
        responses: vec![ResponseEntry {
            name: "rust".to_owned(),
            hit_rate: None,
            ruleset: "r rust".to_owned(),
            message_response: ResponseKind::Text { content: "hi".to_owned() },
            cooldown: None,
            unskippable: false,
        }],
        default_hit_rate: 1.0f64.to_bits(),
        skip_hit_rate_text: String::new(),
        skip_duration_text: String::new(),
        class_categories: vec![],
    };
    let mut config = Config::create_from_file("c", file).unwrap();
    let draws = vec![Draw::from_bits(0.5f64.to_bits()).unwrap()];
    let found = find_response_now(&mut config, "rust", &draws);
    let now = found.now;
    assert!(found.response.is_some());
    assert_eq!(found.outcomes, vec![Outcome::Hit]);
    assert!(now > 1_600_000_000_000);
    assert_eq!(config.responses[0].last_triggered(), now);
    let later = find_response_now(&mut config, "rust", &draws);
    assert!(later.response.is_none());
    assert_eq!(later.outcomes, vec![Outcome::CoolingDown]);
    assert!(later.now >= now);
    assert_eq!(config.responses[0].last_triggered(), now);
    assert_ne!(now, NEVER);
    let none = find_response_now(&mut config, "crab", &draws);
    assert_eq!(none.outcomes, vec![Outcome::NoMatch]);
}
