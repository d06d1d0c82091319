use district::config::{BotConfig, ConfigBotCommands, ConfigServer, PresenceConfig, ServerBotConfig};
use district::server::DistrictServer;
use district::status::{choose_presence, presence_text, DistrictServerStatus, Liveness};

fn open_status(last_heard: i64) -> DistrictServerStatus {
    DistrictServerStatus {
        open: true,
        tps: 20,
        max_tps: 20,
        player_ids: Some(vec![11, 12, 13]),
        player_count: 3,
        max_player_count: 50,
        last_heard: Some(last_heard),
    }
}

fn presence(name: &str) -> PresenceConfig {
    PresenceConfig {
        status: "online".to_string(),
        kind: 0,
        name: name.to_string(),
        url: "https://example.org".to_string(),
    }
}

#[test]
fn stale_server_loses_players_but_stays_open() {
    let now = 100_000;
    let mut st = open_status(now - 600);
    assert_eq!(st.liveness(now), Liveness::Stale);
    st.reconcile_liveness(now);
    assert_eq!(st.player_count, 0);
    assert_eq!(st.player_ids, None);
    assert!(st.open);
    assert_eq!(st.last_heard, Some(now - 600));
}

#[test]
fn silent_server_is_disconnected() {
    let now = 100_000;
    let mut st = open_status(now - 1100);
    assert_eq!(st.liveness(now), Liveness::Disconnected);
    st.reconcile_liveness(now);
    assert!(!st.open);
    assert_eq!(st.last_heard, None);
    assert_eq!(st.player_count, 0);
}

#[test]
fn fresh_server_is_untouched() {
    let now = 100_000;
    let mut st = open_status(now - 500);
    assert_eq!(st.liveness(now), Liveness::Fresh);
    st.reconcile_liveness(now);
    assert_eq!(st.player_count, 3);
    assert_eq!(st.player_ids, Some(vec![11, 12, 13]));
}

#[test]
fn exactly_one_thousand_seconds_is_only_stale() {
    let now = 5000;
    let mut st = open_status(now - 1000);
    st.reconcile_liveness(now);
    assert!(st.open);
    assert_eq!(st.player_count, 0);
}

#[test]
fn closed_server_is_left_alone() {
    let mut st = open_status(0);
    st.open = false;
    st.reconcile_liveness(i64::MAX);
    assert_eq!(st.player_count, 3);
    assert_eq!(st.last_heard, Some(0));
    let mut never = DistrictServerStatus::new();
    never.reconcile_liveness(1_000_000);
    assert!(!never.open);
    assert_eq!(never.liveness(1_000_000), Liveness::Disconnected);
}

#[test]
fn extreme_timestamps_do_not_overflow() {
    let mut st = open_status(i64::MIN);
    st.reconcile_liveness(i64::MAX);
    assert!(!st.open);
}

#[test]
fn presence_fills_counts() {
    assert_eq!(presence_text("{players}/{max_players} online", 7, 64), "7/64 online");
    assert_eq!(presence_text("{players} {players}", 0, 1), "0 0");
    assert_eq!(presence_text("no placeholders", 1, 2), "no placeholders");
}

#[test]
fn presence_uses_active_template_while_open() {
    let st = open_status(10);
    let idle = presence("Sleeping");
    let active = presence("{players} playing");
    let p = choose_presence(&st, Some(&idle), Some(&active)).unwrap();
    assert_eq!(p.name, "3 playing");
    assert_eq!(p.state, "{players} playing");
    assert_eq!(p.status, district::config::LocalOnlineStatus::Online);
}

#[test]
fn presence_uses_idle_template_when_closed() {
    let st = DistrictServerStatus::new();
    let idle = presence("Sleeping {players}");
    let active = presence("{players} playing");
    let p = choose_presence(&st, Some(&idle), Some(&active)).unwrap();
    assert_eq!(p.name, "Sleeping {players}");
    assert!(choose_presence(&st, None, Some(&active)).is_none());
}

#[test]
fn reconcile_pass_decays_and_flushes() {
    let cfg = ConfigServer {
        id: 1,
        name: "beta".to_string(),
        channel_id: "99".to_string(),
        bot: BotConfig::ServerBotConfig(ServerBotConfig {
            token: "t".to_string(),
            active_guild_id: 123456789012345678,
            use_presence: None,
            default_presence: Some(presence("idle")),
            active_presence: Some(presence("{players}/{max_players}")),
            commands: ConfigBotCommands { info_command: None, db_search: None, send_command: None },
        }),
    };
    let mut s = DistrictServer::new(cfg, 0);
    s.status = open_status(1000);
    assert!(s.send_message("hello".to_string(), 100).is_none());
    let out = s.reconcile(1600, 5000);
    assert_eq!(s.status.player_count, 0);
    assert!(s.status.open);
    assert_eq!(out.presence.unwrap().name, "0/50");
    assert_eq!(out.batch.unwrap().text, "hello");
    let out2 = s.reconcile(2200, 5000);
    assert!(!s.status.open);
    assert_eq!(out2.presence.unwrap().name, "idle");
}
