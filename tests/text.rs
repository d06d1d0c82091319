use district::lang::{
    compose_log_message, get_discord_timestamp, get_translation, handle_log_with_data, same_text,
    JsonValueNotObject, Translations,
};
use district::config::{BotConfig, ConfigBot, ConfigBotCommands, ConfigServer};
use district::server::DistrictServer;
use district::text::{chars_of, parse_u64, replace, to_decimal};

#[test]
fn replace_matches_std() {
    let cases = [("aaa", "aa", "b"), ("{t}{t}", "{t}", "9"), ("héllo wörld", "ö", "o"), ("", "x", "y"), ("abc", "", "z")];
    for (s, p, r) in cases {
        if p.is_empty() {
            assert_eq!(replace(s, p, r), s);
        } else {
            assert_eq!(replace(s, p, r), s.replace(p, r));
        }
    }
}

#[test]
fn decimal_text() {
    assert_eq!(to_decimal(0), "0");
    assert_eq!(to_decimal(1090), "1090");
    assert_eq!(to_decimal(u64::MAX), u64::MAX.to_string());
}

#[test]
fn parse_matches_std() {
    for s in ["0", "+7", "123456789012345678", "18446744073709551615", "18446744073709551616", "", "+", "-1", "1 ", "12a", "007"] {
        assert_eq!(parse_u64(s), s.parse::<u64>().ok(), "{}", s);
    }
}

#[test]
fn chars_and_equality() {
    assert_eq!(chars_of("añb"), vec!['a', 'ñ', 'b']);
    assert!(same_text("abc", "abc"));
    assert!(!same_text("abc", "abd"));
    assert!(!same_text("ab", "abc"));
}

fn lang() -> Translations {
    let mut t = Translations::new();
    t.insert("logs.join".to_string(), "{player} joined with {n} {tags}".to_string());
    t.insert("logs.quiet".to_string(), String::new());
    t.insert("utils.timestamp".to_string(), "[{t}]".to_string());
    t
}

#[test]
fn translations_later_entry_wins() {
    let mut t = lang();
    assert_eq!(get_translation(&t, "logs.join").unwrap(), "{player} joined with {n} {tags}");
    t.insert("logs.join".to_string(), "again".to_string());
    assert_eq!(get_translation(&t, "logs.join").unwrap(), "again");
    assert_eq!(get_translation(&t, "missing"), None);
}

#[test]
fn discord_timestamp() {
    assert_eq!(get_discord_timestamp(None, 1700000000), "<t:1700000000:R>");
    assert_eq!(get_discord_timestamp(Some(&lang()), 5), "[5]");
    assert_eq!(get_discord_timestamp(Some(&Translations::new()), 5), "<t:5:R>");
}

#[test]
fn log_message_fills_parameters() {
    let params = vec![
        ("player".to_string(), JsonValueNotObject::String("Bob".to_string())),
        ("n".to_string(), JsonValueNotObject::Number("3".to_string())),
        ("tags".to_string(), JsonValueNotObject::Array(vec!["a".to_string(), "b".to_string()])),
    ];
    let m = compose_log_message(&lang(), "join", "[5]", &params).unwrap();
    assert_eq!(m, "[5]: Bob joined with 3 a, b");
    assert_eq!(compose_log_message(&lang(), "quiet", "[5]", &params), None);
    assert_eq!(compose_log_message(&lang(), "unknown", "[5]", &vec![]).unwrap(), "[5]: logs.unknown");
}

#[test]
fn value_texts() {
    assert_eq!(JsonValueNotObject::Null.value_text(), "null");
    assert_eq!(JsonValueNotObject::Bool(true).value_text(), "true");
    assert_eq!(JsonValueNotObject::Bool(false).value_text(), "false");
    assert_eq!(JsonValueNotObject::Array(vec![]).value_text(), "");
}

#[test]
fn log_line_goes_into_the_buffer() {
    let cfg = ConfigServer {
        id: 3,
        name: "gamma".to_string(),
        channel_id: "77".to_string(),
        bot: BotConfig::ConfigBot(ConfigBot {
            token: "t".to_string(),
            active_guild_id: 123456789012345678,
            default_presence: None,
            commands: ConfigBotCommands { info_command: None, db_search: None, send_command: None },
        }),
    };
    let mut s = DistrictServer::new(cfg, 0);
    let params = vec![("player".to_string(), JsonValueNotObject::String("Ann".to_string()))];
    assert!(handle_log_with_data(&mut s, &lang(), "join", &params, 9, 100).is_none());
    assert_eq!(s.buffer, vec!["[9]: Ann joined with {n} {tags}".to_string()]);
    let b = handle_log_with_data(&mut s, &lang(), "other", &vec![], 9, 3000).unwrap();
    assert_eq!(b.text, "[9]: Ann joined with {n} {tags}\n[9]: logs.other");
    assert!(handle_log_with_data(&mut s, &lang(), "quiet", &vec![], 9, 9000).is_none());
    assert_eq!(s.buffer.len(), 2);
}
