//! The records that the persistence collaborator stores, and the numbers
//! their kinds are stored as.
use vstd::prelude::*;

verus! {

/// Where a player's account verification stands.
#[derive(Clone, Copy, Debug, PartialEq, Eq, Structural)]
pub enum PlayerVerification {
    Unverified,
    Created,
    Pending,
    Success,
    Full,
    Expired,
    Banned,
    Suspended,
}

/// The stored number of a verification state.
pub open spec fn verification_code(v: PlayerVerification) -> u8 {
    match v {
        PlayerVerification::Unverified => 0,
        PlayerVerification::Created => 1,
        PlayerVerification::Pending => 2,
        PlayerVerification::Success => 3,
        PlayerVerification::Full => 4,
        PlayerVerification::Expired => 5,
        PlayerVerification::Banned => 6,
        PlayerVerification::Suspended => 7,
    }
}

impl PlayerVerification {
    /// The stored number, 0 to 7.
    pub fn as_u8(&self) -> (r: u8)
        ensures
            r == verification_code(*self),
    {
        match self {
            PlayerVerification::Unverified => 0,
            PlayerVerification::Created => 1,
            PlayerVerification::Pending => 2,
            PlayerVerification::Success => 3,
            PlayerVerification::Full => 4,
            PlayerVerification::Expired => 5,
            PlayerVerification::Banned => 6,
            PlayerVerification::Suspended => 7,
        }
    }

    /// The state stored as `n`, if there is one.
    pub fn from_i64(n: i64) -> (r: Option<PlayerVerification>)
        ensures
            r matches Some(v) ==> verification_code(v) == n,
            r is None <==> !(0 <= n <= 7),
    {
        if n == 0 {
            Some(PlayerVerification::Unverified)
        } else if n == 1 {
            Some(PlayerVerification::Created)
        } else if n == 2 {
            Some(PlayerVerification::Pending)
        } else if n == 3 {
            Some(PlayerVerification::Success)
        } else if n == 4 {
            Some(PlayerVerification::Full)
        } else if n == 5 {
            Some(PlayerVerification::Expired)
        } else if n == 6 {
            Some(PlayerVerification::Banned)
        } else if n == 7 {
            Some(PlayerVerification::Suspended)
        } else {
            None
        }
    }

    /// Whether a player in this state counts as verified.
    pub fn is_verified(&self) -> (r: bool)
        ensures
            r == (*self == PlayerVerification::Success || *self == PlayerVerification::Full),
    {
        match self {
            PlayerVerification::Success | PlayerVerification::Full => true,
            _ => false,
        }
    }

    /// Whether a player in this state is barred from verifying.
    pub fn is_verification_banned(&self) -> (r: bool)
        ensures
            r == (*self == PlayerVerification::Banned || *self == PlayerVerification::Suspended),
    {
        match self {
            PlayerVerification::Banned | PlayerVerification::Suspended => true,
            _ => false,
        }
    }
}

/// The kind of a punishment.
#[derive(Clone, Copy, Debug, PartialEq, Eq, Structural)]
pub enum PunishmentType {
    NoPunishment,
    Ban,
    Kick,
    Mute,
}

/// The stored number of a punishment kind.
pub open spec fn punishment_code(p: PunishmentType) -> u8 {
    match p {
        PunishmentType::NoPunishment => 0,
        PunishmentType::Ban => 1,
        PunishmentType::Kick => 2,
        PunishmentType::Mute => 3,
    }
}

impl PunishmentType {
    /// The stored number, 0 to 3.
    pub fn as_u8(&self) -> (r: u8)
        ensures
            r == punishment_code(*self),
    {
        match self {
            PunishmentType::NoPunishment => 0,
            PunishmentType::Ban => 1,
            PunishmentType::Kick => 2,
            PunishmentType::Mute => 3,
        }
    }

    /// The kind stored as `n`, if there is one.
    pub fn from_i64(n: i64) -> (r: Option<PunishmentType>)
        ensures
            r matches Some(p) ==> punishment_code(p) == n,
            r is None <==> !(0 <= n <= 3),
    {
        if n == 0 {
            Some(PunishmentType::NoPunishment)
        } else if n == 1 {
            Some(PunishmentType::Ban)
        } else if n == 2 {
            Some(PunishmentType::Kick)
        } else if n == 3 {
            Some(PunishmentType::Mute)
        } else {
            None
        }
    }
}

/// The kind of a leaderboard sample.
#[derive(Clone, Copy, Debug, PartialEq, Eq, Structural)]
pub enum LeaderboardRecordType {
    PlayTime,
    Kills,
    Deaths,
    Wins,
    Losses,
    Assists,
}

/// The stored number of a leaderboard kind.
pub open spec fn record_code(t: LeaderboardRecordType) -> u8 {
    match t {
        LeaderboardRecordType::PlayTime => 0,
        LeaderboardRecordType::Kills => 1,
        LeaderboardRecordType::Deaths => 2,
        LeaderboardRecordType::Wins => 3,
        LeaderboardRecordType::Losses => 4,
        LeaderboardRecordType::Assists => 5,
    }
}

impl LeaderboardRecordType {
    /// The stored number, 0 to 5.
    pub fn as_u8(&self) -> (r: u8)
        ensures
            r == record_code(*self),
    {
        match self {
            LeaderboardRecordType::PlayTime => 0,
            LeaderboardRecordType::Kills => 1,
            LeaderboardRecordType::Deaths => 2,
            LeaderboardRecordType::Wins => 3,
            LeaderboardRecordType::Losses => 4,
            LeaderboardRecordType::Assists => 5,
        }
    }

    /// The kind numbered `val`, if there is one.
    pub fn from_u8(val: u8) -> (r: Option<LeaderboardRecordType>)
        ensures
            r matches Some(t) ==> record_code(t) == val,
            r is None <==> val > 5,
    {
        LeaderboardRecordType::from_i64(val as i64)
    }

    /// The kind stored as `n`, if there is one.
    pub fn from_i64(n: i64) -> (r: Option<LeaderboardRecordType>)
        ensures
            r matches Some(t) ==> record_code(t) == n,
            r is None <==> !(0 <= n <= 5),
    {
        if n == 0 {
            Some(LeaderboardRecordType::PlayTime)
        } else if n == 1 {
            Some(LeaderboardRecordType::Kills)
        } else if n == 2 {
            Some(LeaderboardRecordType::Deaths)
        } else if n == 3 {
            Some(LeaderboardRecordType::Wins)
        } else if n == 4 {
            Some(LeaderboardRecordType::Losses)
        } else if n == 5 {
            Some(LeaderboardRecordType::Assists)
        } else {
            None
        }
    }
}

/// A sample of a server's player count.
#[derive(Clone, Copy, Debug, PartialEq, Eq, Structural)]
pub struct DatabasePlayerCount {
    pub timestamp: u64,
    pub player_count: u32,
    pub server_id: u64,
}

/// A change to a player's verification.
#[derive(Debug)]
pub struct DatabaseModifyPlayerVerification {
    pub player_id: u64,
    pub steam_id: String,
    pub discord_id: Option<String>,
    pub verified_status: PlayerVerification,
    pub code: Option<String>,
}

/// A player joining a server.
#[derive(Debug)]
pub struct DatabasePlayerJoin {
    pub username: String,
    pub steam_id: String,
    pub ip_addr: String,
    pub do_not_track: bool,
}

/// A punishment to record against a player.
#[derive(Debug)]
pub struct DatabasePlayerPunishment {
    pub username: String,
    pub steam_id: String,
    pub ip: String,
    pub reason: String,
    pub punishment_duration: u32,
    pub issuer_steam_id: String,
    pub issuer_name: String,
    pub issuer_ip: String,
    pub punishment_type: PunishmentType,
}

} // verus!
