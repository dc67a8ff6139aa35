//! The configuration snapshot: the global defaults, the registered responses
//! in the order in which they were declared, and the settings that the rest
//! of the bot reads. A snapshot is made from the decoded contents of a
//! configuration file and replaced as a whole by the next one.

use crate::gating::{Draw, HitRate, DEFAULT_COOLDOWN, NEVER, UNIT_BITS};
use crate::response::{
    entry_of, read_entry, same_text, DefaultsView, EntryError, EntryView, GlobalDefaults,
    Outcome, RegisteredResponse, ResponseEntry, ResponseKind, ResponseView,
};
use crate::text::{chars_of, contains_token, has_token};
use std::sync::Arc;
use vstd::prelude::*;
use vstd::string::StringExecFns;

verus! {

/// A member's choice about the bot's reactions.
#[derive(Clone, Copy, Debug, PartialEq, Eq, Structural)]
pub struct ReactRole {
    pub react: bool,
    pub user_id: u64,
}

/// The decoded contents of a configuration file.
#[derive(Debug)]
pub struct ConfigFile {
    /// The default cooldown in seconds, where the file names one.
    pub default_text_detect_cooldown: Option<i64>,
    pub guild_id: u64,
    pub help_text: Option<String>,
    pub bot_react_role_id: u64,
    pub responses: Vec<ResponseEntry>,
    /// The bit pattern of the default hit rate.
    pub default_hit_rate: u64,
    pub skip_hit_rate_text: String,
    pub skip_duration_text: String,
    pub class_categories: Vec<u64>,
}

/// The contents of a configuration file as the contracts see them.
pub struct FileView {
    pub default_text_detect_cooldown: Option<i64>,
    pub guild_id: u64,
    pub help_text: Option<Seq<char>>,
    pub bot_react_role_id: u64,
    pub responses: Seq<EntryView>,
    pub default_hit_rate: u64,
    pub skip_hit_rate_text: Seq<char>,
    pub skip_duration_text: Seq<char>,
    pub class_categories: Seq<u64>,
}

/// The characters of a text that may be absent.
pub open spec fn text_view(text: Option<String>) -> Option<Seq<char>> {
    match text {
        Some(text) => Some(text@),
        None => None,
    }
}

/// The views of the entries of a file, in their order.
pub open spec fn entry_views(entries: Seq<ResponseEntry>) -> Seq<EntryView> {
    Seq::new(entries.len(), |i: int| entries[i]@)
}

impl View for ConfigFile {
    type V = FileView;

    open spec fn view(&self) -> FileView {
        FileView {
            default_text_detect_cooldown: self.default_text_detect_cooldown,
            guild_id: self.guild_id,
            help_text: text_view(self.help_text),
            bot_react_role_id: self.bot_react_role_id,
            responses: entry_views(self.responses@),
            default_hit_rate: self.default_hit_rate,
            skip_hit_rate_text: self.skip_hit_rate_text@,
            skip_duration_text: self.skip_duration_text@,
            class_categories: self.class_categories@,
        }
    }
}

/// Why the contents of a configuration file were refused.
#[derive(Clone, Copy, Debug, PartialEq, Eq, Structural)]
pub enum ConfigError {
    /// The default hit rate is no number from 0 to 1.
    DefaultHitRate,
    /// The entry at `position`, the first entry being at 0, was refused.
    Response { position: usize, error: EntryError },
}

/// The configuration of the bot: one snapshot, which a reload replaces as a
/// whole.
#[derive(Debug)]
pub struct Config {
    /// The defaults of the responses.
    pub defaults: GlobalDefaults,
    /// The id of the guild the bot is in.
    pub guild_id: u64,
    /// The help text of the bot.
    pub help_text: Option<String>,
    /// The role id of the bot react role.
    pub bot_react_role_id: u64,
    /// The replies that the bot can make, in the order in which they are
    /// tried.
    pub responses: Vec<RegisteredResponse>,
    /// The path of the file that the configuration was read from.
    pub config_path: String,
    /// The members with the bot react role, as last seen. No file holds
    /// them.
    pub bot_react_role_members: Vec<ReactRole>,
    /// The class categories that the bot looks after.
    pub class_categories: Vec<u64>,
}

/// A configuration as the contracts see it.
pub struct ConfigView {
    pub defaults: DefaultsView,
    pub guild_id: u64,
    pub help_text: Option<Seq<char>>,
    pub bot_react_role_id: u64,
    pub responses: Seq<ResponseView>,
    pub config_path: Seq<char>,
    pub bot_react_role_members: Seq<ReactRole>,
    pub class_categories: Seq<u64>,
}

/// The views of the responses of a registry, in their order.
pub open spec fn response_views(responses: Seq<RegisteredResponse>) -> Seq<ResponseView> {
    Seq::new(responses.len(), |i: int| responses[i]@)
}

/// The bit patterns of the given draws, in their order.
pub open spec fn draw_bits(draws: Seq<Draw>) -> Seq<u64> {
    Seq::new(draws.len(), |i: int| draws[i]@)
}

impl View for Config {
    type V = ConfigView;

    open spec fn view(&self) -> ConfigView {
        ConfigView {
            defaults: self.defaults@,
            guild_id: self.guild_id,
            help_text: text_view(self.help_text),
            bot_react_role_id: self.bot_react_role_id,
            responses: response_views(self.responses@),
            config_path: self.config_path@,
            bot_react_role_members: self.bot_react_role_members@,
            class_categories: self.class_categories@,
        }
    }
}

/// The position of the first response, from position `from` on, that is
/// selected for a message, each response with the draw at its own position.
/// A response without a draw at its position is not tried, nor is any
/// response behind it.
pub open spec fn first_selected(
    responses: Seq<ResponseView>,
    defaults: DefaultsView,
    message: Seq<char>,
    now: i64,
    draws: Seq<u64>,
    from: int,
) -> Option<int>
    decreases responses.len() - from,
{
    if from < 0 || from >= responses.len() || from >= draws.len() {
        None
    } else if responses[from].selected(defaults, message, now, draws[from]) {
        Some(from)
    } else {
        first_selected(responses, defaults, message, now, draws, from + 1)
    }
}

/// The responses that the first `count` entries declare, or the first of
/// these entries that was refused.
pub open spec fn read_entries(entries: Seq<EntryView>, count: nat) -> Result<
    Seq<ResponseView>,
    ConfigError,
>
    decreases count,
{
    if count == 0 {
        Ok(Seq::empty())
    } else {
        let position = (count - 1) as nat;
        match read_entries(entries, position) {
            Err(e) => Err(e),
            Ok(before) => match read_entry(entries[position as int]) {
                Err(error) => Err(ConfigError::Response { position: position as usize, error }),
                Ok(response) => Ok(before.push(response)),
            },
        }
    }
}

/// The configuration that the contents of the file at `config_path` make.
/// A default hit rate that is no number from 0 to 1 is refused first, then
/// the first entry that is refused. No response of the new configuration was
/// ever triggered, and no member is known yet.
pub open spec fn read_config(config_path: Seq<char>, file: FileView) -> Result<
    ConfigView,
    ConfigError,
> {
    if file.default_hit_rate > UNIT_BITS {
        Err(ConfigError::DefaultHitRate)
    } else {
        match read_entries(file.responses, file.responses.len()) {
            Err(e) => Err(e),
            Ok(responses) => Ok(
                ConfigView {
                    defaults: DefaultsView {
                        default_text_detect_cooldown: match file.default_text_detect_cooldown {
                            Some(cooldown) => cooldown,
                            None => DEFAULT_COOLDOWN,
                        },
                        default_hit_rate: file.default_hit_rate,
                        skip_hit_rate_text: file.skip_hit_rate_text,
                        skip_duration_text: file.skip_duration_text,
                    },
                    guild_id: file.guild_id,
                    help_text: file.help_text,
                    bot_react_role_id: file.bot_react_role_id,
                    responses,
                    config_path,
                    bot_react_role_members: Seq::empty(),
                    class_categories: file.class_categories,
                },
            ),
        }
    }
}

impl ConfigView {
    /// What every configuration is whose responses this library made.
    pub open spec fn valid(self) -> bool {
        &&& self.defaults.default_hit_rate <= UNIT_BITS
        &&& forall|i: int| 0 <= i < self.responses.len() ==> (#[trigger] self.responses[i]).valid()
    }

    /// The configuration after one message: the first response that is
    /// selected counts as triggered at `now`; nothing else changes.
    pub open spec fn after(self, message: Seq<char>, now: i64, draws: Seq<u64>) -> ConfigView {
        match first_selected(self.responses, self.defaults, message, now, draws, 0) {
            Some(hit) => ConfigView {
                responses: self.responses.update(hit, self.responses[hit].triggered_at(now)),
                ..self
            },
            None => self,
        }
    }

    /// How each response that is tried fares with a message: the responses
    /// are tried in their order, up to the first that is selected, and each
    /// with the draw at its own position.
    pub open spec fn outcomes(self, message: Seq<char>, now: i64, draws: Seq<u64>) -> Seq<
        Outcome,
    > {
        let tried = match first_selected(self.responses, self.defaults, message, now, draws, 0) {
            Some(hit) => hit + 1,
            None => if draws.len() < self.responses.len() {
                draws.len() as int
            } else {
                self.responses.len() as int
            },
        };
        Seq::new(
            tried as nat,
            |i: int| self.responses[i].outcome(self.defaults, message, now, draws[i]),
        )
    }

    /// What is written to the file of the configuration: all of it but its
    /// path, the members seen, and the times at which its responses were
    /// last triggered.
    pub open spec fn saved(self) -> FileView {
        FileView {
            default_text_detect_cooldown: Some(self.defaults.default_text_detect_cooldown),
            guild_id: self.guild_id,
            help_text: self.help_text,
            bot_react_role_id: self.bot_react_role_id,
            responses: Seq::new(self.responses.len(), |i: int| entry_of(self.responses[i])),
            default_hit_rate: self.defaults.default_hit_rate,
            skip_hit_rate_text: self.defaults.skip_hit_rate_text,
            skip_duration_text: self.defaults.skip_duration_text,
            class_categories: self.class_categories,
        }
    }

    /// Whether two configurations count as equal: they agree in all that
    /// their files hold and in their paths. The members seen and the times at
    /// which the responses were last given do not count.
    pub open spec fn same_as(self, other: ConfigView) -> bool {
        &&& self.defaults == other.defaults
        &&& self.guild_id == other.guild_id
        &&& self.help_text == other.help_text
        &&& self.bot_react_role_id == other.bot_react_role_id
        &&& same_responses(self.responses, other.responses)
        &&& self.config_path == other.config_path
        &&& self.class_categories == other.class_categories
    }

    /// The configuration as it is when it was just read: no response of it
    /// was ever triggered, and no member is known.
    pub open spec fn fresh(self) -> ConfigView {
        ConfigView {
            responses: Seq::new(
                self.responses.len(),
                |i: int| self.responses[i].triggered_at(NEVER),
            ),
            bot_react_role_members: Seq::empty(),
            ..self
        }
    }
}

/// An entry that is refused among the first entries is the one that the
/// whole file is refused for.
proof fn lemma_refusal_stays(entries: Seq<EntryView>, count: nat, more: nat)
    requires
        count <= more,
        read_entries(entries, count) is Err,
    ensures
        read_entries(entries, more) == read_entries(entries, count),
    decreases more,
{
    if count < more {
        lemma_refusal_stays(entries, count, (more - 1) as nat);
    }
}

/// The entries of valid responses read back as these responses, untriggered.
proof fn lemma_entries_read_back(responses: Seq<ResponseView>, count: nat)
    requires
        count <= responses.len(),
        forall|i: int| 0 <= i < responses.len() ==> (#[trigger] responses[i]).valid(),
    ensures
        read_entries(Seq::new(responses.len(), |i: int| entry_of(responses[i])), count) == Ok::<
            Seq<ResponseView>,
            ConfigError,
        >(Seq::new(count, |i: int| responses[i].triggered_at(NEVER))),
    decreases count,
{
    let entries = Seq::new(responses.len(), |i: int| entry_of(responses[i]));
    if count == 0 {
        assert(Seq::new(0, |i: int| responses[i].triggered_at(NEVER)) =~= Seq::<
            ResponseView,
        >::empty());
    } else {
        let position = count - 1;
        lemma_entries_read_back(responses, position as nat);
        assert(responses[position].valid());
        assert(read_entry(entries[position]) == Ok::<ResponseView, EntryError>(
            responses[position].triggered_at(NEVER),
        ));
        assert(Seq::new(count, |i: int| responses[i].triggered_at(NEVER)) =~= Seq::new(
            position as nat,
            |i: int| responses[i].triggered_at(NEVER),
        ).push(responses[position].triggered_at(NEVER)));
    }
}

/// The default cooldown of the text detection, in seconds.
pub fn get_default_text_detect_cooldown() -> (cooldown: i64)
    ensures
        cooldown == DEFAULT_COOLDOWN,
{
    DEFAULT_COOLDOWN
}

impl Default for Config {
    /// The configuration without responses: every number is 0 and every
    /// text empty, but for a cooldown of 45 seconds and a hit rate of 1.
    fn default() -> (config: Config)
        ensures
            config@ == (ConfigView {
                defaults: DefaultsView {
                    default_text_detect_cooldown: DEFAULT_COOLDOWN,
                    default_hit_rate: UNIT_BITS,
                    skip_hit_rate_text: Seq::empty(),
                    skip_duration_text: Seq::empty(),
                },
                guild_id: 0,
                help_text: None,
                bot_react_role_id: 0,
                responses: Seq::empty(),
                config_path: Seq::empty(),
                bot_react_role_members: Seq::empty(),
                class_categories: Seq::empty(),
            }),
    {
        let config = Config {
            defaults: GlobalDefaults {
                default_text_detect_cooldown: get_default_text_detect_cooldown(),
                default_hit_rate: HitRate::always(),
                skip_hit_rate_text: String::new(),
                skip_duration_text: String::new(),
            },
            guild_id: 0,
            help_text: None,
            bot_react_role_id: 0,
            responses: Vec::new(),
            config_path: String::new(),
            bot_react_role_members: Vec::new(),
            class_categories: Vec::new(),
        };
        assert(config@.responses =~= Seq::empty());
        config
    }
}

/// A copy of the given numbers, in their order.
fn copy_ids(ids: &Vec<u64>) -> (copy: Vec<u64>)
    ensures
        copy@ == ids@,
{
    let mut copy: Vec<u64> = Vec::new();
    let mut i: usize = 0;
    while i < ids.len()
        invariant
            i <= ids.len(),
            copy@ == ids@.take(i as int),
        decreases ids.len() - i,
    {
        copy.push(ids[i]);
        i += 1;
    }
    assert(copy@ =~= ids@);
    copy
}

impl Config {
    /// Makes the configuration that the decoded contents of the file at
    /// `config_path` describe, or says why they are refused.
    pub fn create_from_file(config_path: &str, file: ConfigFile) -> (r: Result<
        Config,
        ConfigError,
    >)
        ensures
            match r {
                Ok(config) => read_config(config_path@, file@) == Ok::<ConfigView, ConfigError>(
                    config@,
                ),
                Err(e) => read_config(config_path@, file@) == Err::<ConfigView, ConfigError>(e),
            },
    {
        let ghost entries = file@.responses;
        let default_hit_rate = match HitRate::from_bits(file.default_hit_rate) {
            None => {
                return Err(ConfigError::DefaultHitRate);
            },
            Some(rate) => rate,
        };
        let mut responses: Vec<RegisteredResponse> = Vec::new();
        let mut position: usize = 0;
        let ConfigFile {
            default_text_detect_cooldown,
            guild_id,
            help_text,
            bot_react_role_id,
            responses: declared,
            default_hit_rate: _,
            skip_hit_rate_text,
            skip_duration_text,
            class_categories,
        } = file;
        assert(response_views(responses@) =~= Seq::empty());
        let count: usize = declared.len();
        for entry in it: declared
            invariant
                entries == file@.responses,
                entries == entry_views(it.seq()),
                entries.len() == count,
                file.default_hit_rate <= UNIT_BITS,
                position == it.index(),
                read_entries(entries, position as nat) == Ok::<Seq<ResponseView>, ConfigError>(
                    response_views(responses@),
                ),
        {
            assert(entries[position as int] == entry@);
            match RegisteredResponse::from_entry(entry) {
                Err(error) => {
                    proof {
                        lemma_refusal_stays(entries, (position + 1) as nat, entries.len());
                    }
                    return Err(ConfigError::Response { position, error });
                },
                Ok(response) => {
                    let ghost before = response_views(responses@);
                    responses.push(response);
                    assert(response_views(responses@) =~= before.push(response@));
                },
            }
            position = position + 1;
        }
        Ok(
            Config {
                defaults: GlobalDefaults {
                    default_text_detect_cooldown: match default_text_detect_cooldown {
                        Some(cooldown) => cooldown,
                        None => get_default_text_detect_cooldown(),
                    },
                    default_hit_rate,
                    skip_hit_rate_text,
                    skip_duration_text,
                },
                guild_id,
                help_text,
                bot_react_role_id,
                responses,
                config_path: String::from_str(config_path),
                bot_react_role_members: Vec::new(),
                class_categories,
            },
        )
    }

    /// Takes over the contents of the configuration file as they were just
    /// decoded, `None` standing for a file that could not be read or
    /// decoded. Contents that make a configuration replace this one as a
    /// whole. Where there are none, or they are refused, this configuration
    /// stays as it is, down to the times of its responses. Says whether the
    /// configuration was replaced.
    pub fn reload(&mut self, file: Option<ConfigFile>) -> (replaced: bool)
        ensures
            match file {
                Some(contents) => match read_config(old(self)@.config_path, contents@) {
                    Ok(config) => replaced && final(self)@ == config,
                    Err(_) => !replaced && *final(self) == *old(self),
                },
                None => !replaced && *final(self) == *old(self),
            },
    {
        match file {
            Some(contents) => match Config::create_from_file(self.config_path.as_str(), contents) {
                Ok(config) => {
                    *self = config;
                    true
                },
                Err(_) => false,
            },
            None => false,
        }
    }

    /// What is to be written to the file of the configuration. Read again
    /// from the same path, it makes this configuration as it is when fresh.
    pub fn save(&self) -> (file: ConfigFile)
        ensures
            file@ == self@.saved(),
            read_config(self@.config_path, file@) == Ok::<ConfigView, ConfigError>(
                self@.fresh(),
            ),
    {
        let mut entries: Vec<ResponseEntry> = Vec::new();
        let mut i: usize = 0;
        while i < self.responses.len()
            invariant
                i <= self.responses.len(),
                entries@.len() == i,
                forall|j: int| 0 <= j < i ==> (#[trigger] entries@[j])@ == entry_of(self.responses@[j]@),
                forall|j: int| 0 <= j < i ==> (#[trigger] self.responses@[j])@.valid(),
            decreases self.responses.len() - i,
        {
            entries.push(self.responses[i].to_entry());
            i += 1;
        }
        let help_text = match &self.help_text {
            Some(text) => Some(text.clone()),
            None => None,
        };
        let file = ConfigFile {
            default_text_detect_cooldown: Some(self.defaults.default_text_detect_cooldown),
            guild_id: self.guild_id,
            help_text,
            bot_react_role_id: self.bot_react_role_id,
            responses: entries,
            default_hit_rate: self.defaults.default_hit_rate.bits(),
            skip_hit_rate_text: self.defaults.skip_hit_rate_text.clone(),
            skip_duration_text: self.defaults.skip_duration_text.clone(),
            class_categories: copy_ids(&self.class_categories),
        };
        proof {
            assert(file@.responses =~= self@.saved().responses);
            assert(self@.valid());
            lemma_fresh_reads_back(self@);
        }
        file
    }

    /// Says how each response that `find_response` tries fares with a
    /// message that arrives at `now`, and changes nothing: the answers for
    /// the responses in their order, the last of them a hit where a response
    /// is found.
    pub fn outcomes(&self, message: &str, now: i64, draws: &Vec<Draw>) -> (r: Vec<Outcome>)
        ensures
            r@ == self@.outcomes(message@, now, draw_bits(draws@)),
    {
        let ghost view = self@;
        let ghost bits = draw_bits(draws@);
        let text = chars_of(message);
        let skip_cooldown = has_token(&text, &chars_of(self.defaults.skip_duration_text.as_str()));
        let skip_hit_rate = has_token(&text, &chars_of(self.defaults.skip_hit_rate_text.as_str()));
        let n: usize = if draws.len() < self.responses.len() {
            draws.len()
        } else {
            self.responses.len()
        };
        let mut r: Vec<Outcome> = Vec::new();
        let mut i: usize = 0;
        while i < n
            invariant
                i <= n,
                n <= self.responses@.len(),
                n <= draws@.len(),
                n == self.responses@.len() || n == draws@.len(),
                view == self@,
                bits == draw_bits(draws@),
                skip_cooldown == contains_token(message@, self.defaults.skip_duration_text@),
                skip_hit_rate == contains_token(message@, self.defaults.skip_hit_rate_text@),
                r@.len() == i,
                forall|j: int|
                    0 <= j < i ==> r@[j] == (#[trigger] view.responses[j]).outcome(
                        view.defaults,
                        message@,
                        now,
                        bits[j],
                    ),
                first_selected(view.responses, view.defaults, message@, now, bits, 0)
                    == first_selected(view.responses, view.defaults, message@, now, bits, i as int),
            decreases n - i,
        {
            assert(view.responses[i as int] == self.responses@[i as int]@);
            assert(bits[i as int] == draws@[i as int]@);
            let outcome = self.responses[i].judge_with(
                message,
                skip_cooldown,
                skip_hit_rate,
                &self.defaults,
                now,
                draws[i],
            );
            r.push(outcome);
            if outcome == Outcome::Hit {
                assert(r@ =~= view.outcomes(message@, now, bits));
                return r;
            }
            i += 1;
        }
        assert(r@ =~= view.outcomes(message@, now, bits));
        r
    }

    /// Finds the response to a message that arrives at `now`: the first
    /// response, in the order of their declaration, that the message
    /// selects. That response counts as triggered at `now`; nothing else
    /// changes. `draws` holds one draw for each response, in their order;
    /// where it holds fewer, the responses that are left without a draw are
    /// not tried.
    pub fn find_response(&mut self, message: &str, now: i64, draws: &Vec<Draw>) -> (r: Option<
        Arc<ResponseKind>,
    >)
        ensures
            match first_selected(
                old(self)@.responses,
                old(self)@.defaults,
                message@,
                now,
                draw_bits(draws@),
                0,
            ) {
                Some(hit) => r matches Some(content) && content@ == old(self)@.responses[hit].content,
                None => r is None,
            },
            final(self)@ == old(self)@.after(message@, now, draw_bits(draws@)),
    {
        let ghost before = self@;
        let ghost bits = draw_bits(draws@);
        let text = chars_of(message);
        let skip_cooldown = has_token(&text, &chars_of(self.defaults.skip_duration_text.as_str()));
        let skip_hit_rate = has_token(&text, &chars_of(self.defaults.skip_hit_rate_text.as_str()));
        let n: usize = if draws.len() < self.responses.len() {
            draws.len()
        } else {
            self.responses.len()
        };
        let mut i: usize = 0;
        while i < n
            invariant
                i <= n,
                n <= self.responses@.len(),
                n <= draws@.len(),
                n == self.responses@.len() || n == draws@.len(),
                bits == draw_bits(draws@),
                before == old(self)@,
                self@ == before,
                skip_cooldown == contains_token(message@, self.defaults.skip_duration_text@),
                skip_hit_rate == contains_token(message@, self.defaults.skip_hit_rate_text@),
                first_selected(before.responses, before.defaults, message@, now, bits, 0)
                    == first_selected(
                    before.responses,
                    before.defaults,
                    message@,
                    now,
                    bits,
                    i as int,
                ),
            decreases n - i,
        {
            assert(before.responses[i as int] == self.responses@[i as int]@);
            assert(bits[i as int] == draws@[i as int]@);
            let found = self.responses[i].respond_to(
                message,
                skip_cooldown,
                skip_hit_rate,
                &self.defaults,
                now,
                draws[i],
            );
            if found.is_some() {
                assert(self@.responses =~= before.responses.update(
                    i as int,
                    before.responses[i as int].triggered_at(now),
                ));
                return found;
            }
            assert(self@.responses =~= before.responses);
            i += 1;
        }
        None
    }
}

/// Round trip: what a valid configuration saves reads back, from its own
/// path, as that configuration when fresh.
pub proof fn lemma_fresh_reads_back(config: ConfigView)
    requires
        config.valid(),
    ensures
        read_config(config.config_path, config.saved()) == Ok::<ConfigView, ConfigError>(
            config.fresh(),
        ),
{
    lemma_entries_read_back(config.responses, config.responses.len());
    assert(config.saved().responses =~= Seq::new(
        config.responses.len(),
        |i: int| entry_of(config.responses[i]),
    ));
}

/// Whether two vectors hold the same numbers in the same order.
fn same_ids(left: &Vec<u64>, right: &Vec<u64>) -> (same: bool)
    ensures
        same == (left@ == right@),
{
    if left.len() != right.len() {
        return false;
    }
    let mut i: usize = 0;
    while i < left.len()
        invariant
            i <= left.len(),
            left.len() == right.len(),
            forall|j: int| 0 <= j < i ==> left@[j] == right@[j],
        decreases left.len() - i,
    {
        if left[i] != right[i] {
            return false;
        }
        i += 1;
    }
    assert(left@ =~= right@);
    true
}

/// Whether two texts that may be absent hold the same characters, or are
/// both absent.
fn same_optional_text(left: &Option<String>, right: &Option<String>) -> (same: bool)
    ensures
        same == (text_view(*left) == text_view(*right)),
{
    match (left, right) {
        (None, None) => true,
        (Some(a), Some(b)) => same_text(a, b),
        _ => false,
    }
}

/// Whether two registries hold equal responses in the same order.
pub open spec fn same_responses(left: Seq<ResponseView>, right: Seq<ResponseView>) -> bool {
    &&& left.len() == right.len()
    &&& forall|i: int| 0 <= i < left.len() ==> (#[trigger] left[i]).same_as(right[i])
}

impl PartialEq for Config {
    /// Two configurations are equal where they agree in all that their
    /// files hold and in their paths: the defaults with both skip texts, the
    /// guild, the help text, the role, the class categories, and equal
    /// responses in the same order. What is known only while the bot runs
    /// does not count: the members seen, and the times at which the
    /// responses were last given.
    fn eq(&self, other: &Config) -> (same: bool) {
        if !(self.defaults.default_text_detect_cooldown
            == other.defaults.default_text_detect_cooldown && self.guild_id == other.guild_id
            && self.bot_react_role_id == other.bot_react_role_id
            && self.defaults.default_hit_rate.bits() == other.defaults.default_hit_rate.bits()
            && same_text(&self.defaults.skip_hit_rate_text, &other.defaults.skip_hit_rate_text)
            && same_text(&self.defaults.skip_duration_text, &other.defaults.skip_duration_text)
            && same_optional_text(&self.help_text, &other.help_text) && same_text(
            &self.config_path,
            &other.config_path,
        ) && same_ids(
            &self.class_categories,
            &other.class_categories,
        )) {
            return false;
        }
        if self.responses.len() != other.responses.len() {
            return false;
        }
        let mut i: usize = 0;
        while i < self.responses.len()
            invariant
                i <= self.responses.len(),
                self.responses.len() == other.responses.len(),
                forall|j: int|
                    0 <= j < i ==> (#[trigger] self@.responses[j]).same_as(other@.responses[j]),
            decreases self.responses.len() - i,
        {
            if !self.responses[i].eq(&other.responses[i]) {
                assert(!self@.responses[i as int].same_as(other@.responses[i as int]));
                return false;
            }
            i += 1;
        }
        true
    }
}

impl vstd::std_specs::cmp::PartialEqSpecImpl for Config {
    open spec fn obeys_eq_spec() -> bool {
        true
    }

    open spec fn eq_spec(&self, other: &Config) -> bool {
        self@.same_as(other@)
    }
}

/// What a configuration saves reads back as a configuration that is equal to
/// it: a round trip through its file changes nothing that `==` counts.
pub proof fn lemma_fresh_is_equal(config: ConfigView)
    ensures
        config.fresh().same_as(config),
        config.same_as(config.fresh()),
{
}

} // verus!
