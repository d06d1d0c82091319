use district::auth::{
    authorize_db, authorize_log, authorize_ws, check_db_auth, check_log_auth, check_ws_auth,
    AuthError, WebsocketAuthError,
};
use district::config::{BotConfig, BotConfigError, ConfigApp, ConfigBotCommands, ServerBotConfig};
use district::pages::{static_index_page, static_test};
use district::commands::{CommandHandlerEnum, SearchCriterion, SendCommand};
use district::records::{LeaderboardRecordType, PlayerVerification, PunishmentType};
use district::timer::{sweep_plan, InactivitySweep, ReconciliationClock};

fn app_config() -> ConfigApp {
    let mut c = ConfigApp::create();
    c.auth.db = "db-secret".to_string();
    c.auth.log = "log-secret".to_string();
    c.auth.ws = "ws-secret".to_string();
    c
}

fn server_bot(token: &str, guild: u64) -> BotConfig {
    BotConfig::ServerBotConfig(ServerBotConfig {
        token: token.to_string(),
        active_guild_id: guild,
        use_presence: None,
        default_presence: None,
        active_presence: None,
        commands: ConfigBotCommands { info_command: Some(8), db_search: None, send_command: None },
    })
}

#[test]
fn default_config_values() {
    let c = ConfigApp::create();
    assert_eq!(c.server_port, 9005);
    assert_eq!(c.server_address, "0.0.0.0");
    assert_eq!(c.lang_path, "./lang.json");
    assert!(c.servers.is_empty());
    assert_eq!(c.main_bot.get_token(), "");
    assert_eq!(c.main_bot.get_operational_guild_id(), 0);
    assert_eq!(c.main_bot.validate(), Err(BotConfigError::EmptyToken));
}

#[test]
fn bot_config_validation() {
    assert_eq!(server_bot("t", 10000000000000000).validate(), Err(BotConfigError::InvalidGuildId));
    assert_eq!(server_bot("t", 10000000000000001).validate(), Ok(()));
    assert_eq!(server_bot("", 10000000000000001).validate(), Err(BotConfigError::EmptyToken));
    assert_eq!(server_bot("t", 1).commands().info_command, Some(8));
}

#[test]
fn secrets_are_compared_exactly() {
    let c = app_config();
    assert!(check_log_auth("log-secret".to_string(), &c));
    assert!(!check_log_auth("db-secret".to_string(), &c));
    assert!(check_db_auth("db-secret".to_string(), &c));
    assert!(!check_db_auth("db-secret ".to_string(), &c));
    assert!(check_ws_auth("ws-secret".to_string(), &c));
    assert!(!check_ws_auth(String::new(), &c));
}

#[test]
fn header_authorization_outcomes() {
    let c = app_config();
    assert_eq!(authorize_log(Some("log-secret".to_string()), &c).unwrap().0, "log-secret");
    assert_eq!(authorize_log(Some("x".to_string()), &c).err(), Some(AuthError::Invalid));
    assert_eq!(authorize_db(None, &c).err(), Some(AuthError::Missing));
    assert_eq!(authorize_db(Some("db-secret".to_string()), &c).unwrap().0, "db-secret");
}

#[test]
fn relay_authorization_prefers_cookie() {
    let c = app_config();
    let ok = authorize_ws(Some("ws-secret".to_string()), Some("x".to_string()), &c);
    assert_eq!(ok.unwrap().0, "ws-secret");
    let bad_cookie = authorize_ws(Some("x".to_string()), Some("ws-secret".to_string()), &c);
    assert_eq!(bad_cookie.err(), Some(WebsocketAuthError::Invalid));
    let header = authorize_ws(None, Some("ws-secret".to_string()), &c);
    assert!(header.is_ok());
    assert_eq!(authorize_ws(None, None, &c).err(), Some(WebsocketAuthError::Missing));
}

#[test]
fn stored_numbers_round_trip() {
    for n in 0..8 {
        assert_eq!(PlayerVerification::from_i64(n).unwrap().as_u8() as i64, n);
    }
    assert!(PlayerVerification::from_i64(8).is_none());
    for n in 0..4 {
        assert_eq!(PunishmentType::from_i64(n).unwrap().as_u8() as i64, n);
    }
    assert!(PunishmentType::from_i64(-1).is_none());
    for n in 0..6 {
        assert_eq!(LeaderboardRecordType::from_i64(n).unwrap().as_u8() as i64, n);
    }
    assert!(LeaderboardRecordType::from_i64(6).is_none());
    assert_eq!(LeaderboardRecordType::from_u8(4), Some(LeaderboardRecordType::Losses));
    assert!(LeaderboardRecordType::from_u8(6).is_none());
    assert!(PlayerVerification::Full.is_verified());
    assert!(!PlayerVerification::Pending.is_verified());
    assert!(PlayerVerification::Suspended.is_verification_banned());
}

#[test]
fn search_criterion_by_number() {
    assert_eq!(SearchCriterion::from_i64(2), SearchCriterion::Usernames);
    assert_eq!(SearchCriterion::from_i64(9), SearchCriterion::Unknown);
}

#[test]
fn commands_by_name() {
    assert_eq!(CommandHandlerEnum::from_name("send_command"), Some(CommandHandlerEnum::SendCommand(SendCommand)));
    assert!(matches!(CommandHandlerEnum::from_name("info"), Some(CommandHandlerEnum::InfoCommand(_))));
    assert!(matches!(CommandHandlerEnum::from_name("db_search"), Some(CommandHandlerEnum::DbSearchCommand(_))));
    assert_eq!(CommandHandlerEnum::from_name("infos"), None);
}

#[test]
fn clock_cadence() {
    let mut clock = ReconciliationClock::new();
    let mut passes = 0;
    let mut sweeps = 0;
    for _ in 0..3600 {
        let d = clock.advance();
        if d.reconcile {
            passes += 1;
        }
        if d.sweep {
            sweeps += 1;
        }
    }
    assert_eq!(clock.ticks, 3600);
    assert_eq!(passes, 180);
    assert_eq!(sweeps, 1);
}

#[test]
fn sweeps_follow_thresholds() {
    let mut c = ConfigApp::create().databases;
    assert!(sweep_plan(&c).is_empty());
    c.player_db_auto_clear_strict = Some(30);
    c.player_db_auto_clear_normal = Some(0);
    assert_eq!(sweep_plan(&c), vec![InactivitySweep { days: 30, do_not_track_only: true }]);
    c.player_db_auto_clear_normal = Some(90);
    assert_eq!(
        sweep_plan(&c),
        vec![
            InactivitySweep { days: 30, do_not_track_only: true },
            InactivitySweep { days: 90, do_not_track_only: false }
        ]
    );
}

#[test]
fn static_pages() {
    assert!(static_index_page().starts_with("<title>DISTRICT Server</title>"));
    assert_eq!(static_test(), "YES!");
}
