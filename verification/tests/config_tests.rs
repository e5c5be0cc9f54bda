use projwarrior::cache::Cache;
use projwarrior::config::{apply_cli, Cli, CommandType, FilterType, ProjwarriorConfig};
use std::path::PathBuf;

fn cli(long: bool, short: bool, no_cache: bool, color: bool) -> Cli {
    Cli {
        command: None,
        subcommand: None,
        long,
        refresh: false,
        no_cache,
        short,
        color,
    }
}

fn config(short: bool, color: bool) -> ProjwarriorConfig {
    let mut c = ProjwarriorConfig::with_paths(PathBuf::from("/usr/bin/task"), PathBuf::from("/tmp/p.sqlite"));
    c.short = short;
    c.color = color;
    c
}

#[test]
fn filter_number_is_id() {
    assert!(matches!(FilterType::from_str("3"), Ok(FilterType::ID(3))));
    assert!(matches!(FilterType::from_str("+12"), Ok(FilterType::ID(12))));
}

#[test]
fn filter_uuid_is_uuid() {
    let text = "67e55044-10b1-426f-9247-bb680e5fe0c8";
    let expected = uuid::Uuid::parse_str(text).unwrap().as_u128();
    match FilterType::from_str(text) {
        Ok(FilterType::Uuid(u)) => assert_eq!(u, expected),
        other => panic!("unexpected {other:?}"),
    }
}

#[test]
fn filter_other_text_is_text() {
    match FilterType::from_str("garden") {
        Ok(FilterType::Filter(s)) => assert_eq!(s, "garden"),
        other => panic!("unexpected {other:?}"),
    }
    // too large for a number, not an identifier
    match FilterType::from_str("4294967296") {
        Ok(FilterType::Filter(s)) => assert_eq!(s, "4294967296"),
        other => panic!("unexpected {other:?}"),
    }
}

#[test]
fn command_keywords_ignore_case() {
    assert!(matches!(CommandType::from_str("init"), Ok(CommandType::Init)));
    assert!(matches!(CommandType::from_str("RESET"), Ok(CommandType::Reset)));
    assert!(matches!(CommandType::from_str("List"), Ok(CommandType::List)));
    assert!(matches!(CommandType::from_str("count"), Ok(CommandType::Count)));
    assert!(matches!(CommandType::from_str("aDd"), Ok(CommandType::Add)));
}

#[test]
fn command_other_is_query() {
    assert!(matches!(CommandType::from_str("5"), Ok(CommandType::Query(FilterType::ID(5)))));
    match CommandType::from_str("Lists") {
        Ok(CommandType::Query(FilterType::Filter(s))) => assert_eq!(s, "Lists"),
        other => panic!("unexpected {other:?}"),
    }
}

#[test]
fn command_from_str_trait() {
    let c: CommandType = "count".parse().unwrap();
    assert!(matches!(c, CommandType::Count));
}

#[test]
fn defaults_around_paths() {
    let c = ProjwarriorConfig::with_paths(PathBuf::from("/bin/task"), PathBuf::from("/data/p.sqlite"));
    assert_eq!(c.task_path, PathBuf::from("/bin/task"));
    assert_eq!(c.storage_path, PathBuf::from("/data/p.sqlite"));
    assert!(!c.short);
    assert!(c.color);
    assert!(c.use_cache);
    assert_eq!(c.cache_length, 60);
    assert!(c.cache.is_none());
}

#[test]
fn long_overrides_short() {
    assert!(!apply_cli(&cli(true, true, false, false), config(true, false), None).short);
    assert!(!apply_cli(&cli(true, false, false, false), config(true, false), None).short);
    assert!(apply_cli(&cli(false, true, false, false), config(false, false), None).short);
    assert!(apply_cli(&cli(false, false, false, false), config(true, false), None).short);
    assert!(!apply_cli(&cli(false, false, false, false), config(false, false), None).short);
}

#[test]
fn color_flag_only_turns_colour_on() {
    assert!(apply_cli(&cli(false, false, false, true), config(false, false), None).color);
    assert!(apply_cli(&cli(false, false, false, false), config(false, true), None).color);
    assert!(!apply_cli(&cli(false, false, false, false), config(false, false), None).color);
}

#[test]
fn no_cache_drops_the_cache() {
    let cache = Cache::from_parts(PathBuf::from("/tmp/tasks.json"), 60);
    assert!(apply_cli(&cli(false, false, true, false), config(false, false), Some(cache)).cache.is_none());
    let cache = Cache::from_parts(PathBuf::from("/tmp/tasks.json"), 60);
    let kept = apply_cli(&cli(false, false, false, false), config(false, false), Some(cache)).cache;
    assert_eq!(kept.unwrap().path(), &PathBuf::from("/tmp/tasks.json"));
}

#[test]
fn cache_age_against_timeout() {
    let cache = Cache::from_parts(PathBuf::from("/tmp/tasks.json"), 60);
    assert!(cache.validate_age(0).is_ok());
    assert!(cache.validate_age(59).is_ok());
    assert_eq!(cache.validate_age(60), Err("Cache invalid - Refresh required".to_string()));
    assert!(cache.validate_age(1000).is_err());
    assert_eq!(cache.timeout(), 60);
}
