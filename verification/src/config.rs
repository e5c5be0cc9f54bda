//! Commands, filters, command-line options and the configuration they adjust.
use crate::cache::Cache;
use crate::ident::{parse_uuid, uuid_from_text};
use crate::error::ConfigError;
use crate::text::{
    all_ascii, ascii_lower, lowercase, parse_u32, parse_u32_spec, str_eq, to_lowercase, trim, trimmed,
};
use std::path::PathBuf;
use vstd::prelude::*;

verus! {

/// How a project is picked out: by working-set number, by identifier, or by
/// a text its description contains.
#[derive(Debug, Clone)]
pub enum FilterType {
    ID(u32),
    Uuid(u128),
    Filter(String),
}

/// The mathematical content of a [`FilterType`].
pub enum FilterKind {
    ID(u32),
    Uuid(u128),
    Filter(Seq<char>),
}

impl View for FilterType {
    type V = FilterKind;

    open spec fn view(&self) -> FilterKind {
        match self {
            FilterType::ID(n) => FilterKind::ID(*n),
            FilterType::Uuid(u) => FilterKind::Uuid(*u),
            FilterType::Filter(s) => FilterKind::Filter(s@),
        }
    }
}

/// The filter a text stands for: a number if it reads as one, else an
/// identifier if it reads as one, else the text itself.
pub open spec fn filter_from_text(s: Seq<char>) -> FilterKind {
    match parse_u32_spec(s) {
        Some(n) => FilterKind::ID(n),
        None => match uuid_from_text(s) {
            Some(u) => FilterKind::Uuid(u),
            None => FilterKind::Filter(s),
        },
    }
}

impl FilterType {
    /// Reads a filter from a command-line argument; every text is accepted.
    pub fn from_str(input: &str) -> (r: Result<FilterType, String>)
        ensures
            r matches Ok(f) && f@ == filter_from_text(input@),
            parse_u32_spec(input@) is None && !(input@.len() == 32 || input@.len() == 36
                || input@.len() == 38 || input@.len() == 45) ==> (r matches Ok(f) && f@
                == FilterKind::Filter(input@)),
    {
        match parse_u32(input) {
            Some(id) => Ok(FilterType::ID(id)),
            None => match parse_uuid(input) {
                Some(u) => Ok(FilterType::Uuid(u)),
                None => Ok(FilterType::Filter(input.to_owned())),
            },
        }
    }
}

impl std::str::FromStr for FilterType {
    type Err = String;

    fn from_str(input: &str) -> (r: Result<FilterType, String>)
        ensures
            r matches Ok(f) && f@ == filter_from_text(input@),
    {
        FilterType::from_str(input)
    }
}

/// The command given on the command line.
#[derive(Debug, Clone)]
pub enum CommandType {
    Init,
    Reset,
    List,
    Count,
    Add,
    Query(FilterType),
}

/// The mathematical content of a [`CommandType`].
pub enum CommandKind {
    Init,
    Reset,
    List,
    Count,
    Add,
    Query(FilterKind),
}

impl View for CommandType {
    type V = CommandKind;

    open spec fn view(&self) -> CommandKind {
        match self {
            CommandType::Init => CommandKind::Init,
            CommandType::Reset => CommandKind::Reset,
            CommandType::List => CommandKind::List,
            CommandType::Count => CommandKind::Count,
            CommandType::Add => CommandKind::Add,
            CommandType::Query(f) => CommandKind::Query(f@),
        }
    }
}

/// The command a text stands for: one of the keywords, compared after
/// lowercasing, or else a query with the filter the text stands for.
pub open spec fn command_from_text(s: Seq<char>) -> CommandKind {
    let low = lowercase(s);
    if low == "init"@ {
        CommandKind::Init
    } else if low == "reset"@ {
        CommandKind::Reset
    } else if low == "list"@ {
        CommandKind::List
    } else if low == "count"@ {
        CommandKind::Count
    } else if low == "add"@ {
        CommandKind::Add
    } else {
        CommandKind::Query(filter_from_text(s))
    }
}

impl CommandType {
    /// Reads a command from a command-line argument; every text is accepted.
    pub fn from_str(input: &str) -> (r: Result<CommandType, String>)
        ensures
            r matches Ok(c) && c@ == command_from_text(input@),
            all_ascii(input@) ==> lowercase(input@) == input@.map_values(|c: char| ascii_lower(c)),
    {
        let low = to_lowercase(input);
        let l = low.as_str();
        if str_eq(l, "init") {
            Ok(CommandType::Init)
        } else if str_eq(l, "reset") {
            Ok(CommandType::Reset)
        } else if str_eq(l, "list") {
            Ok(CommandType::List)
        } else if str_eq(l, "count") {
            Ok(CommandType::Count)
        } else if str_eq(l, "add") {
            Ok(CommandType::Add)
        } else {
            match FilterType::from_str(input) {
                Ok(query) => Ok(CommandType::Query(query)),
                Err(e) => Err(e),
            }
        }
    }
}

impl std::str::FromStr for CommandType {
    type Err = String;

    fn from_str(input: &str) -> (r: Result<CommandType, String>)
        ensures
            r matches Ok(c) && c@ == command_from_text(input@),
    {
        CommandType::from_str(input)
    }
}

/// The argument is none of the command keywords once lowercased.
pub open spec fn no_keyword(s: Seq<char>) -> bool {
    let low = lowercase(s);
    low != "init"@ && low != "reset"@ && low != "list"@ && low != "count"@ && low != "add"@
}

/// An argument that is no keyword is a query with the filter that a filter
/// argument reads: a decimal number queries that working-set number, a
/// hyphenated identifier that identifier, and any other text the descriptions.
pub proof fn lemma_command_query(s: Seq<char>, n: u32, u: u128)
    requires
        no_keyword(s),
    ensures
        command_from_text(s) == CommandKind::Query(filter_from_text(s)),
        s == crate::text::decimal(n as nat) ==> command_from_text(s) == CommandKind::Query(
            FilterKind::ID(n),
        ),
        s.len() > 8 && s[8] == '-' && uuid_from_text(s) == Some(u) ==> command_from_text(s)
            == CommandKind::Query(FilterKind::Uuid(u)),
        parse_u32_spec(s) is None && uuid_from_text(s) is None ==> command_from_text(s)
            == CommandKind::Query(FilterKind::Filter(s)),
{
    if s == crate::text::decimal(n as nat) {
        lemma_filter_decimal(n);
    }
    if s.len() > 8 && s[8] == '-' && uuid_from_text(s) == Some(u) {
        lemma_filter_hyphenated_uuid(s, u);
    }
}

/// Each keyword, once lowercased, is read as its command.
pub proof fn lemma_command_keywords(s: Seq<char>)
    ensures
        lowercase(s) == "init"@ ==> command_from_text(s) == CommandKind::Init,
        lowercase(s) == "reset"@ ==> command_from_text(s) == CommandKind::Reset,
        lowercase(s) == "list"@ ==> command_from_text(s) == CommandKind::List,
        lowercase(s) == "count"@ ==> command_from_text(s) == CommandKind::Count,
        lowercase(s) == "add"@ ==> command_from_text(s) == CommandKind::Add,
{
    reveal_strlit("init");
    reveal_strlit("reset");
    reveal_strlit("list");
    reveal_strlit("count");
    reveal_strlit("add");
    assert("init"@.len() == 4 && "list"@.len() == 4 && "init"@[0] != "list"@[0]);
    assert("reset"@.len() == 5 && "count"@.len() == 5 && "reset"@[0] != "count"@[0]);
    assert("add"@.len() == 3);
}

/// A number written in decimal selects the project with that working-set number.
pub proof fn lemma_filter_decimal(n: u32)
    ensures
        filter_from_text(crate::text::decimal(n as nat)) == FilterKind::ID(n),
{
    crate::text::lemma_parse_decimal_u32(n);
}

/// A text that the identifier parser accepts and that has a '-' ninth
/// (as every hyphenated identifier has) selects that identifier.
pub proof fn lemma_filter_hyphenated_uuid(t: Seq<char>, u: u128)
    requires
        t.len() > 8,
        t[8] == '-',
        uuid_from_text(t) == Some(u),
    ensures
        filter_from_text(t) == FilterKind::Uuid(u),
{
    let body = if t.len() > 0 && t[0] == '+' {
        t.drop_first()
    } else {
        t
    };
    if t[0] == '+' {
        assert(body[7] == t[8]);
        assert(!crate::text::is_digit(body[7]));
    } else {
        assert(!crate::text::is_digit(body[8]));
    }
}

/// The task binary named by the output of a `which task` lookup: the output
/// without surrounding white space; no binary at all when nothing is left.
pub fn task_bin_path(output: &str) -> (r: Result<String, ConfigError>)
    ensures
        trimmed(output@).len() == 0 ==> r == Err::<String, ConfigError>(ConfigError::NoTask),
        trimmed(output@).len() > 0 ==> (r matches Ok(p) && p@ == trimmed(output@)),
        (forall|i: int| 0 <= i < output@.len() ==> #[trigger] crate::text::is_white_space(
            output@[i],
        )) ==> r == Err::<String, ConfigError>(ConfigError::NoTask),
{
    proof {
        if forall|i: int| 0 <= i < output@.len() ==> #[trigger] crate::text::is_white_space(
            output@[i],
        ) {
            crate::text::lemma_trim_blank(output@);
        }
    }
    let path = trim(output);
    if path.as_str().is_empty() {
        Err(ConfigError::NoTask)
    } else {
        Ok(path)
    }
}

/// The command-line options.
pub struct Cli {
    /// Command to run (init, list, add, reset or a project ID)
    pub command: Option<CommandType>,
    /// Optional subcommand to work on
    pub subcommand: Option<String>,
    /// Display all projects (Override config)
    pub long: bool,
    /// Force a refresh of the cache file
    pub refresh: bool,
    /// Disable cache entirely for this run
    pub no_cache: bool,
    /// Display only projects without tasks
    pub short: bool,
    /// Display output with color
    pub color: bool,
}

/// The settings of a run.
pub struct ProjwarriorConfig {
    pub storage_path: PathBuf,
    pub task_path: PathBuf,
    pub short: bool,
    pub color: bool,
    pub use_cache: bool,
    pub cache_length: u64,
    pub cache: Option<Cache>,
    pub sync_url: Option<String>,
    pub sync_client_id: Option<u128>,
    pub sync_secret: Option<String>,
}

impl ProjwarriorConfig {
    /// The default settings around the given task binary and project store:
    /// long listing, colour, a cache valid for 60 seconds, no sync server.
    pub fn with_paths(task_path: PathBuf, storage_path: PathBuf) -> (c: ProjwarriorConfig)
        ensures
            c.task_path == task_path,
            c.storage_path == storage_path,
            !c.short,
            c.color,
            c.use_cache,
            c.cache_length == 60,
            c.cache is None,
            c.sync_url is None,
            c.sync_client_id is None,
            c.sync_secret is None,
    {
        ProjwarriorConfig {
            task_path,
            storage_path,
            short: false,
            color: true,
            use_cache: true,
            cache_length: 60,
            cache: None,
            sync_url: None,
            sync_client_id: None,
            sync_secret: None,
        }
    }
}

/// The cache to read and write: the configured one, where the configuration uses a cache.
pub fn cache_in_use(cfg: &ProjwarriorConfig) -> (r: Option<&Cache>)
    ensures
        r is Some <==> (cfg.use_cache && cfg.cache is Some),
        r matches Some(c) ==> cfg.cache == Some(*c),
{
    if cfg.use_cache {
        match &cfg.cache {
            Some(c) => Some(c),
            None => None,
        }
    } else {
        None
    }
}

/// Whether the short listing is shown: `--long` forces the long one,
/// `--short` alone the short one, and otherwise the configuration decides.
pub open spec fn short_listing(args_short: bool, args_long: bool, cfg_short: bool) -> bool {
    if args_short || args_long {
        !args_long
    } else {
        cfg_short
    }
}

/// `--long` always gives the long listing, `--short` without it the short
/// one, and without either the configuration decides.
pub proof fn lemma_listing_choice(args_short: bool, args_long: bool, cfg_short: bool)
    ensures
        args_long ==> !short_listing(args_short, args_long, cfg_short),
        args_short && !args_long ==> short_listing(args_short, args_long, cfg_short),
        !args_short && !args_long ==> short_listing(args_short, args_long, cfg_short) == cfg_short,
{
}

/// The loaded configuration with the command-line options laid over it.
/// `cache` is what setting up the cache gave, where the configuration uses one.
pub fn apply_cli(args: &Cli, cfg: ProjwarriorConfig, cache: Option<Cache>) -> (r: ProjwarriorConfig)
    ensures
        r.short == short_listing(args.short, args.long, cfg.short),
        r.cache == (if args.no_cache {
            None
        } else {
            cache
        }),
        r.color == (args.color || cfg.color),
        r.storage_path == cfg.storage_path,
        r.task_path == cfg.task_path,
        r.use_cache == cfg.use_cache,
        r.cache_length == cfg.cache_length,
        r.sync_url == cfg.sync_url,
        r.sync_client_id == cfg.sync_client_id,
        r.sync_secret == cfg.sync_secret,
{
    let short = if args.short || args.long {
        !args.long
    } else {
        cfg.short
    };
    let color = if args.color {
        true
    } else {
        cfg.color
    };
    ProjwarriorConfig {
        short,
        cache: if args.no_cache {
            None
        } else {
            cache
        },
        color,
        ..cfg
    }
}

} // verus!
