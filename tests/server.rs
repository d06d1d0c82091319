use district::config::{BotConfig, ConfigBot, ConfigBotCommands, ConfigServer};
use district::relay::{WsResponseStatus, WsResponses};
use district::server::{find_id, find_server, DistrictServer};
use district::status::StatusReport;

fn config(channel: &str) -> ConfigServer {
    ConfigServer {
        id: 7,
        name: "alpha".to_string(),
        channel_id: channel.to_string(),
        bot: BotConfig::ConfigBot(ConfigBot {
            token: "token".to_string(),
            active_guild_id: 123456789012345678,
            default_presence: None,
            commands: ConfigBotCommands { info_command: None, db_search: None, send_command: None },
        }),
    }
}

#[test]
fn throttle_merges_two_sends_into_one_flush() {
    let mut s = DistrictServer::new(config("42"), 0);
    assert!(s.send_message("first".to_string(), 1600).is_none());
    let batch = s.send_message("second".to_string(), 2100).expect("window passed");
    assert_eq!(batch.channel, 42);
    assert_eq!(batch.text, "first\nsecond");
    s.mark_sent(2100);
    assert!(s.buffer.is_empty());
    assert_eq!(s.last_sent, 2100);
}

#[test]
fn empty_flush_does_nothing() {
    let s = DistrictServer::new(config("42"), 0);
    assert!(s.try_clear_buffer(1_000_000).is_none());
    assert_eq!(s.last_sent, 0);
}

#[test]
fn end_to_end_burst_is_sent_once() {
    let mut s = DistrictServer::new(config("987654321"), 10_000);
    assert!(s.send_message("x".to_string(), 10_100).is_none());
    assert!(s.send_message("y".to_string(), 10_500).is_none());
    assert!(s.send_message("x".to_string(), 11_000).is_none());
    assert!(s.try_clear_buffer(11_500).is_none());
    let batch = s.try_clear_buffer(12_500).expect("idle flush");
    assert_eq!(batch.channel, 987654321);
    assert_eq!(batch.text, "x x2\ny");
    s.mark_sent(12_500);
    assert!(s.buffer.is_empty());
    assert_eq!(s.last_sent, 12_500);
    assert!(s.try_clear_buffer(20_000).is_none());
}

#[test]
fn idle_flush_needs_more_than_the_window() {
    let mut s = DistrictServer::new(config("5"), 0);
    assert!(s.send_message("a".to_string(), 100).is_none());
    assert!(s.try_clear_buffer(2000).is_none());
    assert_eq!(s.try_clear_buffer(2001).unwrap().text, "a");
}

#[test]
fn send_at_exactly_the_window_flushes() {
    let mut s = DistrictServer::new(config("5"), 0);
    assert_eq!(s.send_message("a".to_string(), 2000).unwrap().text, "a");
}

#[test]
fn unbound_channel_buffers_nothing() {
    let mut s = DistrictServer::new(config(""), 0);
    assert!(s.send_message("a".to_string(), 5000).is_none());
    assert!(s.buffer.is_empty());
}

#[test]
fn unparsable_channel_keeps_buffer() {
    let mut s = DistrictServer::new(config("general"), 0);
    assert!(s.send_message("a".to_string(), 5000).is_none());
    assert_eq!(s.buffer, vec!["a".to_string()]);
    assert!(s.try_clear_buffer(9000).is_none());
}

#[test]
fn failed_delivery_keeps_buffer_for_retry() {
    let mut s = DistrictServer::new(config("5"), 0);
    let first = s.send_message("a".to_string(), 3000).unwrap();
    assert_eq!(first.text, "a");
    // not marked as sent: the next trigger sends the same lines again
    assert_eq!(s.try_clear_buffer(3500).unwrap().text, "a");
}

#[test]
fn earlier_clock_counts_as_no_time() {
    let mut s = DistrictServer::new(config("5"), 5000);
    assert!(s.send_message("a".to_string(), 1000).is_none());
    assert!(s.try_clear_buffer(1000).is_none());
}

#[test]
fn status_report_sets_last_heard() {
    let mut s = DistrictServer::new(config("5"), 0);
    s.record_status(
        StatusReport {
            open: true,
            tps: 20,
            max_tps: 20,
            player_ids: Some(vec![1, 2]),
            player_count: 2,
            max_player_count: 10,
        },
        1234,
    );
    assert!(s.status.open);
    assert_eq!(s.status.player_count, 2);
    assert_eq!(s.status.last_heard, Some(1234));
}

#[test]
fn queued_commands_keep_order() {
    let mut s = DistrictServer::new(config("5"), 0);
    s.queue_command("say hi");
    s.queue_command("stop");
    assert_eq!(s.ws_msgs.len(), 2);
    match &s.ws_msgs[1] {
        WsResponses::Command(c) => {
            assert_eq!(c.command, "stop");
            assert_eq!(c.status, WsResponseStatus::Success);
        }
        _ => panic!("expected a command"),
    }
}

#[test]
fn find_server_by_id() {
    let servers = vec![DistrictServer::new(config("1"), 0)];
    assert_eq!(find_server(&servers, 7), Some(0));
    assert_eq!(find_server(&servers, 8), None);
    assert_eq!(find_id(&vec![3, 7, 7], 7), Some(1));
    assert_eq!(find_id(&vec![3], 7), None);
}

#[test]
fn new_server_has_fresh_status() {
    let s = DistrictServer::new(config("5"), 0);
    assert!(!s.status.open);
    assert_eq!((s.status.tps, s.status.max_tps), (0, 0));
    assert_eq!((s.status.player_count, s.status.max_player_count), (0, 0));
    assert_eq!(s.status.player_ids, None);
    assert_eq!(s.status.last_heard, None);
    assert!(s.buffer.is_empty() && s.ws_msgs.is_empty());
}
