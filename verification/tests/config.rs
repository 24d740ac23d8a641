//! Configuration resolution, parsing and record basics.

use deities::init_fields::{Env, InitFields};
use deities::mortal::{Mortal, MortalKind};
use deities::parse::{parse_i32, parse_i64, parse_u64, split_fields, str_eq, trim_str};
use deities::service::{DefinitionFault, Service};

fn record() -> Service {
    Service::default()
}

#[test]
fn it_works() {
}

#[test]
fn parse_u64_accepts_plain_and_signed_digits() {
    assert_eq!(parse_u64("0"), Some(0));
    assert_eq!(parse_u64("42"), Some(42));
    assert_eq!(parse_u64("+5"), Some(5));
    assert_eq!(parse_u64("007"), Some(7));
    assert_eq!(parse_u64("18446744073709551615"), Some(u64::MAX));
}

#[test]
fn parse_u64_rejects_junk_and_overflow() {
    assert_eq!(parse_u64(""), None);
    assert_eq!(parse_u64("+"), None);
    assert_eq!(parse_u64("-1"), None);
    assert_eq!(parse_u64(" 5"), None);
    assert_eq!(parse_u64("5 "), None);
    assert_eq!(parse_u64("12a"), None);
    assert_eq!(parse_u64("18446744073709551616"), None);
}

#[test]
fn parse_i64_handles_signs_and_limits() {
    assert_eq!(parse_i64("-1"), Some(-1));
    assert_eq!(parse_i64("+17"), Some(17));
    assert_eq!(parse_i64("9223372036854775807"), Some(i64::MAX));
    assert_eq!(parse_i64("-9223372036854775808"), Some(i64::MIN));
    assert_eq!(parse_i64("9223372036854775808"), None);
    assert_eq!(parse_i64("-9223372036854775809"), None);
    assert_eq!(parse_i64("--1"), None);
}

#[test]
fn parse_i32_matches_the_narrow_range() {
    assert_eq!(parse_i32("2147483647"), Some(i32::MAX));
    assert_eq!(parse_i32("-2147483648"), Some(i32::MIN));
    assert_eq!(parse_i32("2147483648"), None);
    assert_eq!(parse_i32("woof"), None);
}

#[test]
fn trim_and_split_behave_like_text_utilities() {
    assert_eq!(trim_str("  123\n"), "123");
    assert_eq!(trim_str("\t\r\n "), "");
    assert_eq!(trim_str("a b"), "a b");
    assert!(str_eq("same", "same"));
    assert!(!str_eq("same", "sane"));
    let fields = split_fields(" one  two\nthree ");
    assert_eq!(fields, vec!["one".to_string(), "two".to_string(), "three".to_string()]);
    assert!(split_fields("   ").is_empty());
}

#[test]
fn name_is_derived_from_the_definition_file() {
    // The property traced through the whole stack: redis.ini names redis.
    let svc = Service { ini_file: Some("redis.ini".to_string()), ..record() };
    assert_eq!(svc.name(), "redis");
}

#[test]
fn name_prefers_the_explicit_name_and_strips_from_the_first_dot() {
    let explicit = Service {
        name: Some("cache".to_string()),
        ini_file: Some("redis.ini".to_string()),
        ..record()
    };
    assert_eq!(explicit.name(), "cache");
    let dotted = Service { ini_file: Some("a.b.c".to_string()), ..record() };
    assert_eq!(dotted.name(), "a");
    let plain = Service { ini_file: Some("nodots".to_string()), ..record() };
    assert_eq!(plain.name(), "nodots");
    assert_eq!(record().name(), "");
}

#[test]
fn intervals_resolve_field_then_environment_then_default() {
    let env = Env::default();
    assert_eq!(record().checks_interval(&env), 3000);
    assert_eq!(record().checks_url_timeout(&env), 10000);
    assert_eq!(record().deathwatches_interval(&env), 2000);
    let explicit = Service { checks_interval: Some(5), ..record() };
    assert_eq!(explicit.checks_interval(&env), 5);
    let from_env = Env { checks_interval: Some("250".to_string()), ..Env::default() };
    assert_eq!(record().checks_interval(&from_env), 250);
}

#[test]
fn environment_overrides_are_floored_and_fall_back_on_junk() {
    let low = Env {
        checks_interval: Some("50".to_string()),
        checks_url_timeout: Some("10".to_string()),
        deathwatches_interval: Some("1".to_string()),
        ..Env::default()
    };
    assert_eq!(record().checks_interval(&low), 100);
    assert_eq!(record().checks_url_timeout(&low), 1000);
    assert_eq!(record().deathwatches_interval(&low), 2000);
    let junk = Env { checks_interval: Some("often".to_string()), ..Env::default() };
    assert_eq!(record().checks_interval(&junk), 3000);
}

#[test]
fn disk_minimums_resolve_field_then_environment_then_default() {
    let env = Env::default();
    assert_eq!(record().disk_minimum_space(&env), 3000);
    assert_eq!(record().disk_minimum_inodes(&env), 4096);
    let overridden = Env {
        disk_minimum_space: Some("1234".to_string()),
        disk_minimum_inodes: Some("99".to_string()),
        ..Env::default()
    };
    assert_eq!(record().disk_minimum_space(&overridden), 1234);
    assert_eq!(record().disk_minimum_inodes(&overridden), 99);
    let explicit = Service { disk_minimum_space: Some(7), ..record() };
    assert_eq!(explicit.disk_minimum_space(&overridden), 7);
}

#[test]
fn identity_and_notifier_fall_back_as_documented() {
    let env = Env::default();
    assert_eq!(record().user(&env), "nobody");
    assert_eq!(record().slack_webhook_url(&env), "");
    assert_eq!(record().slack_alert_channel(&env), "#ops-status");
    assert_eq!(record().work_dir(), "/tmp");
    let shell = Env { user: Some("admin".to_string()), ..Env::default() };
    assert_eq!(record().user(&shell), "admin");
    let darwin = Env { sysname: "Darwin".to_string(), ..Env::default() };
    assert_eq!(record().group(&darwin), "staff");
    let linux = Env { sysname: "Linux".to_string(), ..Env::default() };
    assert_eq!(record().group(&linux), "nobody");
    let explicit = Service { group: Some("wheel".to_string()), ..record() };
    assert_eq!(explicit.group(&darwin), "wheel");
}

#[test]
fn from_attaches_the_file_name_or_reports_the_fault() {
    let decoded = Service { start: Some("run".to_string()), ..record() };
    match Service::from("web.ini".to_string(), Ok(decoded)) {
        Ok(svc) => {
            assert_eq!(svc.ini_file(), "web.ini");
            assert_eq!(svc.start.as_deref(), Some("run"));
        }
        Err(_) => panic!("a decoded record must load"),
    }
    let load = Service::from(
        "web.ini".to_string(),
        Err(DefinitionFault::Access { cause: "no such file".to_string() }),
    );
    match load {
        Err(m) => assert_eq!(m.kind(), MortalKind::DefinitionLoadFailure),
        Ok(_) => panic!("an unreadable definition must not load"),
    }
    let decode = Service::from(
        "web.ini".to_string(),
        Err(DefinitionFault::Decode { cause: "bad key".to_string() }),
    );
    match decode {
        Err(m) => assert_eq!(m.kind(), MortalKind::DefinitionDecodeFailure),
        Ok(_) => panic!("an undecodable definition must not load"),
    }
}

#[test]
fn describe_lists_only_configured_targets() {
    let bare = Service { ini_file: Some("redis.ini".to_string()), ..record() };
    assert_eq!(bare.describe(), "Service(name: redis, ini: redis.ini)");
    let full = Service {
        ini_file: Some("redis.ini".to_string()),
        pid_file: Some("/run/redis.pid".to_string()),
        unix_socket: Some("/run/redis.sock".to_string()),
        urls: Some(vec!["http://a/".to_string(), "http://b/".to_string()]),
        ..record()
    };
    assert_eq!(
        full.describe(),
        "Service(name: redis, ini: redis.ini, pid_file: /run/redis.pid, \
         unix_socket: /run/redis.sock, urls: [http://a/, http://b/])"
    );
}

#[test]
fn mortal_success_variants_are_distinguished() {
    let svc = record();
    let ok = Mortal::OkAllChecks { service: svc.clone(), amount: 2 };
    assert!(ok.is_success());
    assert_eq!(ok.kind(), MortalKind::OkAllChecks);
    let bad = Mortal::CheckNoServiceChecks { service: svc };
    assert!(!bad.is_success());
    assert_eq!(bad.kind(), MortalKind::CheckNoServiceChecks);
}
