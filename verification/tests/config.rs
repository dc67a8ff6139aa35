use bot_lib::config::{get_default_text_detect_cooldown, Config, ConfigError, ConfigFile, ReactRole};
use bot_lib::gating::{Draw, HitRate, NEVER};
use bot_lib::response::{
    EntryError, GlobalDefaults, Outcome, RegisteredResponse, ResponseEntry, ResponseKind,
};
use bot_lib::ruleset::{ParseError, ParseErrorKind, Ruleset};

fn draw(value: f64) -> Draw {
    Draw::from_bits(value.to_bits()).unwrap()
}

fn draws(values: &[f64]) -> Vec<Draw> {
    values.iter().map(|v| draw(*v)).collect()
}

fn text(content: &str) -> ResponseKind {
    ResponseKind::Text { content: content.to_owned() }
}

fn entry(name: &str, rules: &str, content: &str) -> ResponseEntry {
    ResponseEntry {
        name: name.to_owned(),
        hit_rate: None,
        ruleset: rules.to_owned(),
        message_response: text(content),
        cooldown: None,
        unskippable: false,
    }
}

fn file(responses: Vec<ResponseEntry>) -> ConfigFile {
    ConfigFile {
        default_text_detect_cooldown: Some(10),
        guild_id: 7,
        help_text: Some("help".to_owned()),
        bot_react_role_id: 9,
        responses,
        default_hit_rate: 1.0f64.to_bits(),
        skip_hit_rate_text: "kf please".to_owned(),
        skip_duration_text: "kf now".to_owned(),
        class_categories: vec![1, 2, 3],
    }
}

fn two_responses() -> Config {
    Config::create_from_file(
        "config.toml",
        file(vec![entry("rust", "r rust", "RUST MENTIONED"), entry("any", "r r", "an r")]),
    )
    .unwrap()
}

#[test]
fn the_default_configuration() {
    let config = Config::default();
    assert_eq!(get_default_text_detect_cooldown(), 45);
    assert_eq!(config.defaults.default_text_detect_cooldown, 45);
    assert_eq!(config.defaults.default_hit_rate, HitRate::always());
    assert_eq!(config.defaults.skip_hit_rate_text, "");
    assert_eq!(config.defaults.skip_duration_text, "");
    assert_eq!(config.guild_id, 0);
    assert_eq!(config.help_text, None);
    assert_eq!(config.bot_react_role_id, 0);
    assert!(config.responses.is_empty());
    assert_eq!(config.config_path, "");
    assert!(config.bot_react_role_members.is_empty());
    assert!(config.class_categories.is_empty());
}

#[test]
fn a_file_makes_a_configuration() {
    let config = two_responses();
    assert_eq!(config.defaults.default_text_detect_cooldown, 10);
    assert_eq!(config.defaults.default_hit_rate, HitRate::always());
    assert_eq!(config.defaults.skip_hit_rate_text, "kf please");
    assert_eq!(config.defaults.skip_duration_text, "kf now");
    assert_eq!(config.guild_id, 7);
    assert_eq!(config.help_text.as_deref(), Some("help"));
    assert_eq!(config.bot_react_role_id, 9);
    assert_eq!(config.config_path, "config.toml");
    assert_eq!(config.class_categories, vec![1, 2, 3]);
    assert!(config.bot_react_role_members.is_empty());
    assert_eq!(config.responses.len(), 2);
    assert_eq!(config.responses[0].name(), "rust");
    assert_eq!(config.responses[1].name(), "any");
    assert_eq!(config.responses[1].last_triggered(), NEVER);
}

#[test]
fn a_file_without_a_cooldown_gets_the_default() {
    let mut f = file(vec![]);
    f.default_text_detect_cooldown = None;
    let config = Config::create_from_file("c", f).unwrap();
    assert_eq!(config.defaults.default_text_detect_cooldown, 45);
}

#[test]
fn a_default_hit_rate_out_of_range_is_refused_first() {
    let mut f = file(vec![entry("bad", "nonsense", "x")]);
    f.default_hit_rate = 2.0f64.to_bits();
    assert_eq!(Config::create_from_file("c", f).unwrap_err(), ConfigError::DefaultHitRate);
}

#[test]
fn the_first_entry_that_is_refused_is_reported() {
    let mut bad_rate = entry("rate", "r fine", "x");
    bad_rate.hit_rate = Some((-1.0f64).to_bits());
    let f = file(vec![entry("ok", "r ok", "x"), bad_rate, entry("bad", "nonsense", "x")]);
    assert_eq!(
        Config::create_from_file("c", f).unwrap_err(),
        ConfigError::Response { position: 1, error: EntryError::HitRate }
    );

    let f = file(vec![entry("ok", "r ok", "x"), entry("bad", "r a\n\nwhat", "x")]);
    assert_eq!(
        Config::create_from_file("c", f).unwrap_err(),
        ConfigError::Response {
            position: 1,
            error: EntryError::Rules(ParseError {
                line: 2,
                kind: ParseErrorKind::UnrecognizedLine
            }),
        }
    );
}

#[test]
fn the_first_response_that_is_selected_wins() {
    let mut config = two_responses();
    let found = config.find_response("rust", 1_000, &draws(&[0.5, 0.5])).unwrap();
    assert_eq!(*found, text("RUST MENTIONED"));
    assert_eq!(config.responses[0].last_triggered(), 1_000);
    assert_eq!(config.responses[1].last_triggered(), NEVER);
}

#[test]
fn a_response_that_is_blocked_gives_way_to_the_next() {
    let mut config = two_responses();
    assert!(config.find_response("rust", 1_000, &draws(&[0.5, 0.5])).is_some());
    let found = config.find_response("rust", 2_000, &draws(&[0.5, 0.5])).unwrap();
    assert_eq!(*found, text("an r"));
    assert_eq!(config.responses[0].last_triggered(), 1_000);
    assert_eq!(config.responses[1].last_triggered(), 2_000);
    assert!(config.find_response("rust", 3_000, &draws(&[0.5, 0.5])).is_none());
    assert_eq!(config.responses[0].last_triggered(), 1_000);
    assert_eq!(config.responses[1].last_triggered(), 2_000);
}

#[test]
fn each_response_has_its_own_draw() {
    let mut f = file(vec![entry("rust", "r rust", "first"), entry("any", "r r", "second")]);
    f.default_hit_rate = 0.5f64.to_bits();
    let mut config = Config::create_from_file("c", f).unwrap();
    let found = config.find_response("rust", 0, &draws(&[0.6, 0.4])).unwrap();
    assert_eq!(*found, text("second"));
    let mut config2 = Config::create_from_file(
        "c",
        {
            let mut f = file(vec![entry("rust", "r rust", "first"), entry("any", "r r", "second")]);
            f.default_hit_rate = 0.5f64.to_bits();
            f
        },
    )
    .unwrap();
    let found = config2.find_response("rust", 0, &draws(&[0.4, 0.6])).unwrap();
    assert_eq!(*found, text("first"));
}

#[test]
fn the_outcomes_of_the_responses_that_are_tried() {
    let mut f = file(vec![
        entry("crab", "r crab", "no"),
        entry("rust", "r rust", "first"),
        entry("any", "r r", "second"),
        entry("last", "", "third"),
    ]);
    f.default_hit_rate = 0.5f64.to_bits();
    let mut config = Config::create_from_file("c", f).unwrap();
    let all = draws(&[0.1, 0.6, 0.4, 0.1]);
    assert_eq!(
        config.outcomes("rust", 1_000, &all),
        vec![Outcome::NoMatch, Outcome::Missed, Outcome::Hit]
    );
    assert_eq!(config.responses[2].last_triggered(), NEVER);
    assert_eq!(*config.find_response("rust", 1_000, &all).unwrap(), text("second"));
    assert_eq!(
        config.outcomes("rust", 2_000, &all),
        vec![Outcome::NoMatch, Outcome::Missed, Outcome::CoolingDown, Outcome::Hit]
    );
    assert_eq!(
        config.outcomes("rust", 2_000, &draws(&[0.1, 0.6])),
        vec![Outcome::NoMatch, Outcome::Missed]
    );
    assert_eq!(config.outcomes("rust", 2_000, &draws(&[])), vec![]);
    assert_eq!(
        config.responses[1].judge("rust", &config.defaults, 2_000, draw(0.5)),
        Outcome::Hit
    );
    assert_eq!(
        config.responses[2].judge("rust kf now", &config.defaults, 2_000, draw(0.6)),
        Outcome::Missed
    );
}

#[test]
fn a_response_without_a_draw_is_not_tried() {
    let mut config = two_responses();
    assert!(config.find_response("rust", 1_000, &draws(&[])).is_none());
    assert!(config.find_response("r", 1_000, &draws(&[0.5])).is_none());
    assert_eq!(config.responses[1].last_triggered(), NEVER);
    let found = config.find_response("r", 1_000, &draws(&[0.5, 0.5, 0.5])).unwrap();
    assert_eq!(*found, text("an r"));
}

#[test]
fn no_response_for_a_message_that_nothing_matches() {
    let mut config = two_responses();
    assert!(config.find_response("hello", 1_000, &draws(&[0.0, 0.0])).is_none());
    assert_eq!(config.responses[0].last_triggered(), NEVER);
    assert_eq!(config.responses[1].last_triggered(), NEVER);
    let mut empty = Config::default();
    assert!(empty.find_response("rust", 1_000, &[].to_vec()).is_none());
}

#[test]
fn a_reload_that_fails_changes_nothing() {
    let mut config = two_responses();
    config.bot_react_role_members.push(ReactRole { react: true, user_id: 5 });
    assert!(config.find_response("rust", 1_000, &draws(&[0.5, 0.5])).is_some());

    assert!(!config.reload(None));
    assert_eq!(config, two_responses());
    assert_eq!(config.responses[0].last_triggered(), 1_000);
    assert_eq!(config.help_text.as_deref(), Some("help"));
    assert_eq!(config.bot_react_role_members, vec![ReactRole { react: true, user_id: 5 }]);

    assert!(!config.reload(Some(file(vec![entry("broken", "r (", "x")]))));
    assert_eq!(config, two_responses());
    assert_eq!(config.responses.len(), 2);
    assert_eq!(config.responses[0].last_triggered(), 1_000);
    assert_eq!(config.defaults.skip_duration_text, "kf now");
    assert_eq!(config.bot_react_role_members, vec![ReactRole { react: true, user_id: 5 }]);
    let saved = config.save();
    assert_eq!(saved.responses.len(), 2);
    assert_eq!(saved.responses[0].ruleset, "r rust");
}

#[test]
fn a_reload_that_succeeds_replaces_the_whole() {
    let mut config = two_responses();
    assert!(config.find_response("rust", 1_000, &draws(&[0.5, 0.5])).is_some());
    let mut next = file(vec![entry("rust", "r rust", "new")]);
    next.guild_id = 8;
    assert!(config.reload(Some(next)));
    assert_eq!(config.guild_id, 8);
    assert_eq!(config.config_path, "config.toml");
    assert_eq!(config.responses.len(), 1);
    assert_eq!(config.responses[0].last_triggered(), NEVER);
    assert_eq!(*config.find_response("rust", 1_001, &draws(&[0.5])).unwrap(), text("new"));
}

#[test]
fn what_is_saved_reads_back() {
    let mut f = file(vec![entry("rust", "r rust\n\n!r crab\n", "RUST MENTIONED")]);
    f.responses[0].hit_rate = Some(0.1f64.to_bits());
    f.responses[0].cooldown = Some(-3);
    f.responses[0].unskippable = true;
    f.responses.push(ResponseEntry {
        name: "many".to_owned(),
        hit_rate: None,
        ruleset: String::new(),
        message_response: ResponseKind::RandomText {
            content: vec!["a".to_owned(), "b".to_owned()],
        },
        cooldown: None,
        unskippable: false,
    });
    f.default_hit_rate = 0.3f64.to_bits();
    let mut config = Config::create_from_file("path.toml", f).unwrap();
    config.bot_react_role_members.push(ReactRole { react: false, user_id: 1 });
    assert!(config.find_response("rust kf please", 50, &draws(&[0.9, 0.9])).is_some());

    let saved = config.save();
    assert_eq!(saved.default_text_detect_cooldown, Some(10));
    assert_eq!(saved.guild_id, 7);
    assert_eq!(saved.help_text.as_deref(), Some("help"));
    assert_eq!(saved.bot_react_role_id, 9);
    assert_eq!(saved.default_hit_rate, 0.3f64.to_bits());
    assert_eq!(f64::from_bits(saved.default_hit_rate), 0.3);
    assert_eq!(saved.skip_hit_rate_text, "kf please");
    assert_eq!(saved.skip_duration_text, "kf now");
    assert_eq!(saved.class_categories, vec![1, 2, 3]);
    assert_eq!(saved.responses.len(), 2);
    assert_eq!(saved.responses[0].ruleset, "r rust\n\n!r crab\n");
    assert_eq!(saved.responses[0].hit_rate, Some(0.1f64.to_bits()));
    assert_eq!(saved.responses[0].cooldown, Some(-3));
    assert!(saved.responses[0].unskippable);

    let again = Config::create_from_file("path.toml", saved).unwrap();
    assert_eq!(again, config);
    assert_eq!(again.help_text, config.help_text);
    assert_eq!(again.defaults.skip_duration_text, config.defaults.skip_duration_text);
    assert_eq!(again.responses[0].unskippable(), config.responses[0].unskippable());
    assert_eq!(again.responses[0].ruleset().source(), "r rust\n\n!r crab\n");
    assert_eq!(config.responses[0].last_triggered(), NEVER);
    assert_eq!(config.responses[1].last_triggered(), 50);
    assert_eq!(again.responses[1].last_triggered(), NEVER);
    assert!(again.bot_react_role_members.is_empty());
}

#[test]
fn configurations_compare_by_all_that_their_files_hold() {
    let a = two_responses();
    let mut b = two_responses();
    assert_eq!(a, b);
    b.bot_react_role_members.push(ReactRole { react: true, user_id: 1 });
    assert!(b.find_response("rust", 1_000, &draws(&[0.5, 0.5])).is_some());
    assert_eq!(a, b);
    let mut skip = two_responses();
    skip.defaults.skip_duration_text = "other".to_owned();
    assert_ne!(a, skip);
    let mut help = two_responses();
    help.help_text = None;
    assert_ne!(a, help);
    let mut help = two_responses();
    help.help_text = Some("other".to_owned());
    assert_ne!(a, help);
    b.guild_id = 1;
    assert_ne!(a, b);
    let mut c = two_responses();
    c.class_categories.push(4);
    assert_ne!(a, c);
    let mut d = two_responses();
    d.responses.pop();
    assert_ne!(a, d);
    let mut e = two_responses();
    e.defaults.skip_hit_rate_text = "x".to_owned();
    assert_ne!(a, e);
    let mut g = two_responses();
    g.config_path = "elsewhere".to_owned();
    assert_ne!(a, g);
    let mut h = two_responses();
    h.defaults.default_text_detect_cooldown = 11;
    assert_ne!(a, h);
    let mut i = two_responses();
    i.bot_react_role_id = 10;
    assert_ne!(a, i);
}

#[test]
fn configurations_differ_with_one_response() {
    let unskippable = |flag: bool| {
        let mut first = entry("rust", "r rust", "RUST MENTIONED");
        first.unskippable = flag;
        Config::create_from_file("config.toml", file(vec![first])).unwrap()
    };
    assert_eq!(unskippable(true), unskippable(true));
    assert_ne!(unskippable(true), unskippable(false));
}

#[test]
fn should_deserialize_properly() {
    let test_input = r#"
bot_react_role_id = 123456789109876
default_hit_rate = 1.0
guild_id = 123456789109876
skip_hit_rate_text = "kf please"

[[starboards]]
reaction_count = 3
emote_name = "star"
channel_id = 123456789109876

[[responses]]
name = "1984"
ruleset = '''
r 1234
!r 4312
'''
content = "literally 1984""#;

    let table: toml::Table = test_input.parse().unwrap();
    let integer = |key: &str| table.get(key).and_then(|v| v.as_integer());
    let string = |key: &str| table.get(key).and_then(|v| v.as_str()).map(|s| s.to_owned());
    let mut responses = Vec::new();
    for declared in table["responses"].as_array().unwrap() {
        responses.push(ResponseEntry {
            name: declared["name"].as_str().unwrap().to_owned(),
            hit_rate: declared.get("hit_rate").map(|v| v.as_float().unwrap().to_bits()),
            ruleset: declared["ruleset"].as_str().unwrap().to_owned(),
            message_response: ResponseKind::Text {
                content: declared["content"].as_str().unwrap().to_owned(),
            },
            cooldown: declared.get("cooldown").map(|v| v.as_integer().unwrap()),
            unskippable: declared.get("unskippable").map(|v| v.as_bool().unwrap()).unwrap_or(false),
        });
    }
    let decoded = ConfigFile {
        default_text_detect_cooldown: integer("default_text_detect_cooldown"),
        guild_id: integer("guild_id").unwrap() as u64,
        help_text: string("help_text"),
        bot_react_role_id: integer("bot_react_role_id").unwrap() as u64,
        responses,
        default_hit_rate: table["default_hit_rate"].as_float().unwrap().to_bits(),
        skip_hit_rate_text: string("skip_hit_rate_text").unwrap(),
        skip_duration_text: string("skip_duration_text").unwrap_or_default(),
        class_categories: vec![],
    };

    let config = Config::create_from_file("", decoded).unwrap();

    assert_eq!(
        config,
        Config {
            guild_id: 123456789109876,
            bot_react_role_id: 123456789109876,
            responses: vec![RegisteredResponse::new(
                "1984".to_owned(),
                None,
                Ruleset::parse("r 1234\n!r 4312").unwrap(),
                ResponseKind::Text { content: "literally 1984".to_owned() },
                None,
                false,
            )],
            defaults: GlobalDefaults {
                default_text_detect_cooldown: get_default_text_detect_cooldown(),
                default_hit_rate: HitRate::always(),
                skip_hit_rate_text: "kf please".to_owned(),
                skip_duration_text: String::new(),
            },
            ..Default::default()
        }
    );
}
