use bot_lib::data::Reply;
use bot_lib::text_detection::{
    canned_reply, cooldown_checker, register_detectors, text_detection, Canned, Detectors,
    NO_RESPONSE,
};

fn content(reply: Reply) -> String {
    match reply {
        Reply::Text { content } => content,
        other => panic!("no text: {:?}", other),
    }
}

#[test]
fn the_cooldown_holds_while_no_more_than_it_has_passed() {
    // last reply at 2024-01-01T00:00:00Z, message at 00:00:45Z
    let mut last = 1_704_067_200_000;
    assert!(!cooldown_checker(&mut last, 45, 1_704_067_245_000));
    assert_eq!(last, 1_704_067_200_000);
    assert!(cooldown_checker(&mut last, 45, 1_704_067_245_001));
    assert_eq!(last, 1_704_067_245_001);
}

#[test]
fn the_cooldown_is_met_once_it_has_passed() {
    let mut last = 10_000;
    assert!(!cooldown_checker(&mut last, 45, 54_999));
    assert_eq!(last, 10_000);
    assert!(!cooldown_checker(&mut last, 45, 55_000));
    assert_eq!(last, 10_000);
    assert!(cooldown_checker(&mut last, 45, 55_001));
    assert_eq!(last, 55_001);
    assert!(!cooldown_checker(&mut last, 45, 55_002));
    assert_eq!(last, 55_001);
}

#[test]
fn the_cooldown_is_checked_without_overflow() {
    let mut last = i64::MAX;
    assert!(!cooldown_checker(&mut last, i64::MAX, i64::MAX));
    let mut last = NO_RESPONSE;
    assert!(cooldown_checker(&mut last, 45, 0));
    assert_eq!(last, 0);
}

#[test]
fn the_built_in_detectors() {
    let mut data = Detectors::new(45);
    assert_eq!(data.len(), 0);
    register_detectors(&mut data);
    assert_eq!(data.len(), 5);
    let names: Vec<&str> = (0..5).map(|i| data.detector(i).name()).collect();
    assert_eq!(names, vec!["rust", "tkinter", "arch", "goop", "1984"]);
    let patterns: Vec<&str> = (0..5).map(|i| data.detector(i).pattern()).collect();
    assert_eq!(patterns, vec!["rust", "tkinter", "arch", "goop", "1984"]);
    assert_eq!(data.detector(3).action(), Canned::Goop);
    assert_eq!(data.detector(4).last_response(), NO_RESPONSE);
}

#[test]
fn a_pattern_that_is_refused_is_not_registered() {
    let mut data = Detectors::new(45);
    assert!(!data.register("bad", "(", Canned::Arch));
    assert_eq!(data.len(), 0);
    assert!(data.register("good", "a+", Canned::Arch));
    assert_eq!(data.len(), 1);
}

#[test]
fn the_first_detector_that_matches_replies() {
    let mut data = Detectors::new(45);
    register_detectors(&mut data);
    assert_eq!(data.check_should_respond("nothing"), None);
    assert_eq!(data.check_should_respond("I use arch and rust"), Some(0));
    assert_eq!(data.check_should_respond("monarch"), Some(2));
    let reply = data.reply_to("monarch", 100_000, 0, false).unwrap();
    assert_eq!(content(reply), "I use Arch btw");
    assert_eq!(data.detector(2).last_response(), 100_000);
    assert!(data.reply_to("monarch", 144_999, 0, false).is_none());
    assert!(data.reply_to("monarch", 145_000, 0, false).is_none());
    assert_eq!(data.detector(2).last_response(), 100_000);
    assert!(data.reply_to("monarch", 145_001, 0, false).is_some());
    assert_eq!(data.detector(2).last_response(), 145_001);
    assert!(data.reply_to("1984", 145_001, 0, false).is_some());
}

#[test]
fn the_canned_replies() {
    assert_eq!(content(canned_reply(Canned::Rust, 0, false)), "Rust? Oh, you mean the game?");
    assert_eq!(
        content(canned_reply(Canned::Rust, 1, false)),
        "RUST MENTIONED :crab: :crab: :crab:"
    );
    assert_eq!(content(canned_reply(Canned::Rust, 7, true)), "<@216767618923757568>");
    assert_eq!(
        content(canned_reply(Canned::Rust, 253, true)),
        "Rust is simply the best programming language. Nothing else can compare. I am naming my kids Rust and Ferris."
    );
    assert_eq!(
        content(canned_reply(Canned::Rust, 254, true)),
        "Launch the Polaris,\nthe end doesn't scare us\nWhen will this cease?\nThe warheads will all rust in peace!"
    );
    assert_eq!(content(canned_reply(Canned::Rust, 255, true)), "Rust? Oh, you mean the game?");
    assert_eq!(
        content(canned_reply(Canned::Goop, 0, true)),
        "https://tenor.com/view/gunge-gunged-slime-slimed-dunk-gif-21115557"
    );
    assert_eq!(
        content(canned_reply(Canned::Goop, 0, false)),
        "https://tenor.com/view/goop-goop-house-jello-gif-23114313"
    );
    assert_eq!(
        content(canned_reply(Canned::Orwell, 9, false)),
        "https://tenor.com/view/1984-gif-19260546"
    );
    match canned_reply(Canned::Tkinter, 0, false) {
        Reply::TextAndImage { content, path } => {
            assert_eq!(content, "TKINTER MENTIONED");
            assert_eq!(path, "./assets/tkinter.png");
        }
        other => panic!("no text and image: {:?}", other),
    }
}

#[test]
fn detection_draws_its_own_numbers() {
    let mut data = Detectors::new(45);
    register_detectors(&mut data);
    let goop = [
        "https://tenor.com/view/gunge-gunged-slime-slimed-dunk-gif-21115557",
        "https://tenor.com/view/goop-goop-house-jello-gif-23114313",
    ];
    let mut seen = [false, false];
    for i in 0..200 {
        let reply = content(text_detection(&mut data, "goop", i * 45_001).unwrap());
        let at = goop.iter().position(|t| *t == reply).unwrap();
        seen[at] = true;
    }
    assert_eq!(seen, [true, true]);
    assert!(text_detection(&mut data, "goop", 199 * 45_001 + 45_000).is_none());
    assert!(text_detection(&mut data, "nothing", 0).is_none());
}
