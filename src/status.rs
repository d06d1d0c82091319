//! What is known of a managed server's process, how that knowledge decays
//! when the process falls silent, and the presence text derived from it.
use vstd::prelude::*;

use crate::config::{LocalOnlineStatus, PresenceConfig, status_of_name};
use crate::text::{decimal, replace, replace_all, to_decimal};

verus! {

/// After this many seconds of silence the player list is no longer trusted.
pub const STALE_AFTER_SECS: i64 = 500;

/// After this many seconds of silence the server counts as disconnected.
pub const DISCONNECT_AFTER_SECS: i64 = 1000;

/// The last status snapshot of a managed server.
#[derive(Debug)]
pub struct DistrictServerStatus {
    pub open: bool,
    pub tps: u8,
    pub max_tps: u8,
    pub player_ids: Option<Vec<u64>>,
    pub player_count: u16,
    pub max_player_count: u16,
    /// When the last status report came in, in seconds since the epoch.
    pub last_heard: Option<i64>,
}

/// A status report sent by a server's process.
#[derive(Debug)]
pub struct StatusReport {
    pub open: bool,
    pub tps: u8,
    pub max_tps: u8,
    pub player_ids: Option<Vec<u64>>,
    pub player_count: u16,
    pub max_player_count: u16,
}

/// How fresh the knowledge of a server is.
#[derive(Clone, Copy, Debug, PartialEq, Eq, Structural)]
pub enum Liveness {
    Fresh,
    Stale,
    Disconnected,
}

/// Seconds of silence at `now`, when the server is open and was heard from.
pub open spec fn silence(st: DistrictServerStatus, now: i64) -> Option<int> {
    match st.last_heard {
        Some(h) => if st.open {
            Some(now - h)
        } else {
            None
        },
        None => None,
    }
}

/// The liveness of a status at `now`.
pub open spec fn liveness_spec(st: DistrictServerStatus, now: i64) -> Liveness {
    match silence(st, now) {
        Some(d) => if d > DISCONNECT_AFTER_SECS {
            Liveness::Disconnected
        } else if d > STALE_AFTER_SECS {
            Liveness::Stale
        } else {
            Liveness::Fresh
        },
        None => if st.open {
            Liveness::Fresh
        } else {
            Liveness::Disconnected
        },
    }
}

/// The status after one reconciliation pass at `now`: past the stale limit
/// the player list is emptied, past the disconnect limit the server is also
/// closed and forgotten; otherwise nothing changes.
pub open spec fn decayed(st: DistrictServerStatus, now: i64) -> DistrictServerStatus {
    match silence(st, now) {
        Some(d) => if d > DISCONNECT_AFTER_SECS {
            DistrictServerStatus {
                player_count: 0,
                player_ids: None,
                open: false,
                last_heard: None,
                ..st
            }
        } else if d > STALE_AFTER_SECS {
            DistrictServerStatus { player_count: 0, player_ids: None, ..st }
        } else {
            st
        },
        None => st,
    }
}

impl DistrictServerStatus {
    /// The status of a server that has not reported yet.
    pub fn new() -> (r: DistrictServerStatus)
        ensures
            !r.open,
            r.tps == 0,
            r.max_tps == 0,
            r.player_ids is None,
            r.player_count == 0,
            r.max_player_count == 0,
            r.last_heard is None,
    {
        DistrictServerStatus {
            open: false,
            tps: 0,
            max_tps: 0,
            player_ids: None,
            player_count: 0,
            max_player_count: 0,
            last_heard: None,
        }
    }

    /// The status that `report`, received at `now`, makes.
    pub fn from_report(report: StatusReport, now: i64) -> (r: DistrictServerStatus)
        ensures
            r.open == report.open,
            r.tps == report.tps,
            r.max_tps == report.max_tps,
            r.player_ids == report.player_ids,
            r.player_count == report.player_count,
            r.max_player_count == report.max_player_count,
            r.last_heard == Some(now),
    {
        DistrictServerStatus {
            open: report.open,
            tps: report.tps,
            max_tps: report.max_tps,
            player_ids: report.player_ids,
            player_count: report.player_count,
            max_player_count: report.max_player_count,
            last_heard: Some(now),
        }
    }

    /// How fresh this status is at `now`.
    pub fn liveness(&self, now: i64) -> (r: Liveness)
        ensures
            r == liveness_spec(*self, now),
    {
        match self.last_heard {
            Some(h) if self.open => {
                let d: i128 = now as i128 - h as i128;
                if d > DISCONNECT_AFTER_SECS as i128 {
                    Liveness::Disconnected
                } else if d > STALE_AFTER_SECS as i128 {
                    Liveness::Stale
                } else {
                    Liveness::Fresh
                }
            },
            _ => if self.open {
                Liveness::Fresh
            } else {
                Liveness::Disconnected
            },
        }
    }

    /// One reconciliation pass at `now` over this status.
    pub fn reconcile_liveness(&mut self, now: i64)
        ensures
            *final(self) == decayed(*old(self), now),
    {
        if let Some(h) = self.last_heard {
            if self.open {
                let d: i128 = now as i128 - h as i128;
                if d > STALE_AFTER_SECS as i128 {
                    self.player_count = 0;
                    self.player_ids = None;
                    if d > DISCONNECT_AFTER_SECS as i128 {
                        self.open = false;
                        self.last_heard = None;
                    }
                }
            }
        }
    }
}

/// A presence to push to the chat platform: the online status, the
/// activity kind, the activity text, the activity's state line and a link.
#[derive(Debug)]
pub struct PresenceUpdate {
    pub status: LocalOnlineStatus,
    pub kind: u8,
    pub name: String,
    pub state: String,
    pub url: String,
}

/// `template` with the player count and the player limit filled in.
pub open spec fn presence_text_spec(template: Seq<char>, players: u16, max_players: u16) -> Seq<
    char,
> {
    replace_all(
        replace_all(template, "{players}"@, decimal(players as nat)),
        "{max_players}"@,
        decimal(max_players as nat),
    )
}

/// `template` with `{players}` and `{max_players}` replaced by the numbers.
pub fn presence_text(template: &str, players: u16, max_players: u16) -> (r: String)
    ensures
        r@ == presence_text_spec(template@, players, max_players),
{
    let p = to_decimal(players as u64);
    let m = to_decimal(max_players as u64);
    let first = replace(template, "{players}", p.as_str());
    replace(first.as_str(), "{max_players}", m.as_str())
}

/// The presence that `status` calls for: while the server is open and was
/// heard from, the active template with the numbers filled in; otherwise the
/// idle template as it stands. None when that template is missing.
pub open spec fn chosen_presence(
    st: DistrictServerStatus,
    idle: Option<PresenceConfig>,
    active: Option<PresenceConfig>,
) -> Option<(LocalOnlineStatus, u8, Seq<char>, Seq<char>, Seq<char>)> {
    if st.last_heard is Some && st.open {
        match active {
            Some(p) => Some(
                (
                    status_of_name(p.status@),
                    p.kind,
                    presence_text_spec(p.name@, st.player_count, st.max_player_count),
                    p.name@,
                    p.url@,
                ),
            ),
            None => None,
        }
    } else {
        match idle {
            Some(p) => Some((status_of_name(p.status@), p.kind, p.name@, p.name@, p.url@)),
            None => None,
        }
    }
}

/// The fields of a presence update.
pub open spec fn update_view(u: Option<PresenceUpdate>) -> Option<
    (LocalOnlineStatus, u8, Seq<char>, Seq<char>, Seq<char>),
> {
    match u {
        Some(p) => Some((p.status, p.kind, p.name@, p.state@, p.url@)),
        None => None,
    }
}

/// The presence to push for `status`, from the idle and active templates.
pub fn choose_presence(
    status: &DistrictServerStatus,
    idle: Option<&PresenceConfig>,
    active: Option<&PresenceConfig>,
) -> (r: Option<PresenceUpdate>)
    ensures
        update_view(r) == chosen_presence(
            *status,
            crate::config::presence_of(idle),
            crate::config::presence_of(active),
        ),
{
    if status.last_heard.is_some() && status.open {
        match active {
            Some(p) => Some(
                PresenceUpdate {
                    status: LocalOnlineStatus::from_name(p.status.as_str()),
                    kind: p.kind,
                    name: presence_text(p.name.as_str(), status.player_count, status.max_player_count),
                    state: p.name.clone(),
                    url: p.url.clone(),
                },
            ),
            None => None,
        }
    } else {
        match idle {
            Some(p) => Some(
                PresenceUpdate {
                    status: LocalOnlineStatus::from_name(p.status.as_str()),
                    kind: p.kind,
                    name: p.name.clone(),
                    state: p.name.clone(),
                    url: p.url.clone(),
                },
            ),
            None => None,
        }
    }
}

} // verus!
