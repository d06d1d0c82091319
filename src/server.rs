//! A managed server: its status, its pending notification lines and the
//! commands queued for its process, with the rules that decide when the
//! pending lines go out as one message.
use vstd::prelude::*;

use crate::batcher::{batch_text, compose_batch, texts};
use crate::config::{ConfigServer, active_template, idle_template};
use crate::relay::{WsCommandResponse, WsResponseStatus, WsResponseType, WsResponses};
use crate::status::{
    DistrictServerStatus,
    PresenceUpdate,
    StatusReport,
    chosen_presence,
    choose_presence,
    decayed,
    update_view,
};
use crate::text::{parse_u64, parse_u64_spec};

verus! {

/// Milliseconds that must pass between two batches of one server.
pub const BATCH_WINDOW_MS: u64 = 2000;

/// A message ready to be sent: the channel it goes to and its text.
#[derive(Debug)]
pub struct PendingBatch {
    pub channel: u64,
    pub text: String,
}

/// The channel and text of a batch, if there is one.
pub open spec fn batch_view(b: Option<PendingBatch>) -> Option<(u64, Seq<char>)> {
    match b {
        Some(p) => Some((p.channel, p.text@)),
        None => None,
    }
}

/// Milliseconds from `since` to `now`, zero when `now` is earlier.
pub open spec fn elapsed(since: u64, now: u64) -> nat {
    if now >= since {
        (now - since) as nat
    } else {
        0
    }
}

/// The batch that `buffer` makes for the channel written `channel`: none
/// when the channel is not a number, the buffer is empty, or the text
/// comes out empty.
pub open spec fn pending_spec(channel: Seq<char>, buffer: Seq<Seq<char>>) -> Option<
    (u64, Seq<char>),
> {
    match parse_u64_spec(channel) {
        Some(id) => if buffer.len() > 0 && batch_text(buffer).len() > 0 {
            Some((id, batch_text(buffer)))
        } else {
            None
        },
        None => None,
    }
}

/// What a new line does: the buffer it leaves, and the batch it releases.
/// Without a channel nothing is buffered; otherwise the line is appended, and
/// the whole buffer goes out once the window since the last batch has passed.
pub open spec fn send_outcome(
    channel: Seq<char>,
    buffer: Seq<Seq<char>>,
    last_sent: u64,
    line: Seq<char>,
    now: u64,
) -> (Seq<Seq<char>>, Option<(u64, Seq<char>)>) {
    if channel.len() == 0 {
        (buffer, None)
    } else if elapsed(last_sent, now) >= BATCH_WINDOW_MS {
        (buffer.push(line), pending_spec(channel, buffer.push(line)))
    } else {
        (buffer.push(line), None)
    }
}

/// What the periodic pass releases: the buffer, once it is not empty and more
/// than the window has passed since the last batch.
pub open spec fn idle_flush_outcome(
    channel: Seq<char>,
    buffer: Seq<Seq<char>>,
    last_sent: u64,
    now: u64,
) -> Option<(u64, Seq<char>)> {
    if buffer.len() > 0 && elapsed(last_sent, now) > BATCH_WINDOW_MS {
        pending_spec(channel, buffer)
    } else {
        None
    }
}

/// Lines are held back within the window: a line sent before the window has
/// passed releases nothing, and the next line, sent once it has, releases one
/// message made of both lines and all that was pending before.
pub proof fn throttle_merges_lines(
    channel: Seq<char>,
    buffer: Seq<Seq<char>>,
    last_sent: u64,
    first: Seq<char>,
    t1: u64,
    second: Seq<char>,
    t2: u64,
)
    requires
        channel.len() > 0,
        elapsed(last_sent, t1) < BATCH_WINDOW_MS,
        elapsed(last_sent, t2) >= BATCH_WINDOW_MS,
    ensures
        send_outcome(channel, buffer, last_sent, first, t1) == (buffer.push(first), None::<
            (u64, Seq<char>),
        >),
        send_outcome(channel, buffer.push(first), last_sent, second, t2) == (
            buffer.push(first).push(second),
            pending_spec(channel, buffer.push(first).push(second)),
        ),
{
}

/// An empty buffer never releases a message, whatever the time.
pub proof fn empty_buffer_never_flushes(channel: Seq<char>, last_sent: u64, now: u64)
    ensures
        idle_flush_outcome(channel, Seq::empty(), last_sent, now) is None,
        pending_spec(channel, Seq::empty()) is None,
{
}

/// A managed server.
#[derive(Debug)]
pub struct DistrictServer {
    pub id: u64,
    pub name: String,
    pub channel_id: String,
    pub status: DistrictServerStatus,
    /// Envelopes waiting for the server's relay connection, oldest first.
    pub ws_msgs: Vec<WsResponses>,
    /// Notification lines waiting for the next batch, oldest first.
    pub buffer: Vec<String>,
    /// When the last batch went out, in milliseconds.
    pub last_sent: u64,
    pub srv_cfg: ConfigServer,
}

/// What one reconciliation pass asks to be done for a server.
#[derive(Debug)]
pub struct PassOutcome {
    pub presence: Option<PresenceUpdate>,
    pub batch: Option<PendingBatch>,
}

impl DistrictServer {
    /// A server as configured, created at `now` (milliseconds): nothing
    /// pending, nothing heard yet.
    pub fn new(srv_cfg: ConfigServer, now: u64) -> (r: DistrictServer)
        ensures
            r.id == srv_cfg.id,
            r.name@ == srv_cfg.name@,
            r.channel_id@ == srv_cfg.channel_id@,
            r.srv_cfg == srv_cfg,
            r.buffer@.len() == 0,
            r.ws_msgs@.len() == 0,
            r.last_sent == now,
            !r.status.open,
            r.status.tps == 0,
            r.status.max_tps == 0,
            r.status.player_ids is None,
            r.status.player_count == 0,
            r.status.max_player_count == 0,
            r.status.last_heard is None,
    {
        DistrictServer {
            id: srv_cfg.id,
            name: srv_cfg.name.clone(),
            channel_id: srv_cfg.channel_id.clone(),
            status: DistrictServerStatus::new(),
            ws_msgs: Vec::new(),
            buffer: Vec::new(),
            last_sent: now,
            srv_cfg,
        }
    }

    /// The batch that the current buffer makes, if any.
    fn pending(&self) -> (r: Option<PendingBatch>)
        ensures
            batch_view(r) == pending_spec(self.channel_id@, texts(self.buffer@)),
    {
        let channel = match parse_u64(self.channel_id.as_str()) {
            Some(c) => c,
            None => return None,
        };
        if self.buffer.len() == 0 {
            return None;
        }
        let text = compose_batch(&self.buffer);
        if text.as_str().unicode_len() == 0 {
            return None;
        }
        Some(PendingBatch { channel, text })
    }

    /// Queue the notification line `data` at `now` (milliseconds). Returns
    /// the batch to send when the window since the last one has passed.
    /// The buffer is kept until `mark_sent` reports the batch delivered.
    pub fn send_message(&mut self, data: String, now: u64) -> (r: Option<PendingBatch>)
        ensures
            (texts(final(self).buffer@), batch_view(r)) == send_outcome(
                old(self).channel_id@,
                texts(old(self).buffer@),
                old(self).last_sent,
                data@,
                now,
            ),
            old(self).channel_id@.len() > 0 ==> final(self).buffer@ == old(self).buffer@.push(
                data,
            ),
            old(self).channel_id@.len() == 0 ==> final(self).buffer@ == old(self).buffer@,
            final(self).id == old(self).id,
            final(self).name == old(self).name,
            final(self).channel_id == old(self).channel_id,
            final(self).status == old(self).status,
            final(self).ws_msgs == old(self).ws_msgs,
            final(self).last_sent == old(self).last_sent,
            final(self).srv_cfg == old(self).srv_cfg,
    {
        if self.channel_id.as_str().unicode_len() == 0 {
            return None;
        }
        let ghost before = self.buffer@;
        self.buffer.push(data);
        assert(texts(self.buffer@) =~= texts(before).push(data@));
        if now >= self.last_sent && now - self.last_sent >= BATCH_WINDOW_MS {
            self.pending()
        } else {
            None
        }
    }

    /// The batch that the periodic pass sends at `now` (milliseconds): the
    /// buffer, when it is not empty and more than the window has passed.
    pub fn try_clear_buffer(&self, now: u64) -> (r: Option<PendingBatch>)
        ensures
            batch_view(r) == idle_flush_outcome(
                self.channel_id@,
                texts(self.buffer@),
                self.last_sent,
                now,
            ),
    {
        if self.buffer.len() == 0 {
            return None;
        }
        if now < self.last_sent || now - self.last_sent <= BATCH_WINDOW_MS {
            return None;
        }
        self.pending()
    }

    /// The batch handed out at `now` (milliseconds) was delivered: the
    /// buffer is cleared and the window starts again.
    pub fn mark_sent(&mut self, now: u64)
        ensures
            final(self).buffer@.len() == 0,
            final(self).last_sent == now,
            final(self).id == old(self).id,
            final(self).name == old(self).name,
            final(self).channel_id == old(self).channel_id,
            final(self).status == old(self).status,
            final(self).ws_msgs == old(self).ws_msgs,
            final(self).srv_cfg == old(self).srv_cfg,
    {
        self.buffer = Vec::new();
        self.last_sent = now;
    }

    /// A status report received at `now` (seconds) replaces the status.
    pub fn record_status(&mut self, report: StatusReport, now: i64)
        ensures
            final(self).status.open == report.open,
            final(self).status.tps == report.tps,
            final(self).status.max_tps == report.max_tps,
            final(self).status.player_ids == report.player_ids,
            final(self).status.player_count == report.player_count,
            final(self).status.max_player_count == report.max_player_count,
            final(self).status.last_heard == Some(now),
            final(self).buffer == old(self).buffer,
            final(self).ws_msgs == old(self).ws_msgs,
            final(self).last_sent == old(self).last_sent,
            final(self).id == old(self).id,
            final(self).name == old(self).name,
            final(self).channel_id == old(self).channel_id,
            final(self).srv_cfg == old(self).srv_cfg,
    {
        self.status = DistrictServerStatus::from_report(report, now);
    }

    /// Queue `command` for the server's process, after what is already queued.
    pub fn queue_command(&mut self, command: &str)
        ensures
            final(self).ws_msgs@.len() == old(self).ws_msgs@.len() + 1,
            final(self).ws_msgs@.take(old(self).ws_msgs@.len() as int) == old(self).ws_msgs@,
            final(self).ws_msgs@.last() is Command,
            final(self).ws_msgs@.last()->Command_0.kind == WsResponseType::Command,
            final(self).ws_msgs@.last()->Command_0.message@ == "Ok"@,
            final(self).ws_msgs@.last()->Command_0.status == WsResponseStatus::Success,
            final(self).ws_msgs@.last()->Command_0.command@ == command@,
            final(self).buffer == old(self).buffer,
            final(self).status == old(self).status,
            final(self).last_sent == old(self).last_sent,
            final(self).id == old(self).id,
    {
        let c = WsCommandResponse::create(WsResponseStatus::Success, "Ok", Some(command));
        self.ws_msgs.push(c);
        assert(self.ws_msgs@.take(old(self).ws_msgs@.len() as int) =~= old(self).ws_msgs@);
    }

    /// One reconciliation pass over this server at `now_secs` (for liveness)
    /// and `now_ms` (for batching): the status decays, the presence is
    /// chosen from the decayed status, and the buffer is flushed if idle.
    pub fn reconcile(&mut self, now_secs: i64, now_ms: u64) -> (r: PassOutcome)
        ensures
            final(self).status == decayed(old(self).status, now_secs),
            update_view(r.presence) == chosen_presence(
                final(self).status,
                idle_template(old(self).srv_cfg.bot),
                active_template(old(self).srv_cfg.bot),
            ),
            batch_view(r.batch) == idle_flush_outcome(
                old(self).channel_id@,
                texts(old(self).buffer@),
                old(self).last_sent,
                now_ms,
            ),
            final(self).buffer == old(self).buffer,
            final(self).ws_msgs == old(self).ws_msgs,
            final(self).last_sent == old(self).last_sent,
            final(self).srv_cfg == old(self).srv_cfg,
            final(self).id == old(self).id,
            final(self).channel_id == old(self).channel_id,
    {
        self.status.reconcile_liveness(now_secs);
        let idle = self.srv_cfg.bot.idle_presence();
        let active = self.srv_cfg.bot.active_presence();
        let presence = choose_presence(&self.status, idle, active);
        let batch = self.try_clear_buffer(now_ms);
        PassOutcome { presence, batch }
    }
}

/// The position of `id` in the list of server ids `ids`, the first one if
/// it occurs more than once.
pub fn find_id(ids: &Vec<u64>, id: u64) -> (r: Option<usize>)
    ensures
        r matches Some(i) ==> i < ids@.len() && ids@[i as int] == id && forall|j: int|
            0 <= j < i ==> ids@[j] != id,
        r is None ==> forall|j: int| 0 <= j < ids@.len() ==> ids@[j] != id,
{
    let mut i: usize = 0;
    while i < ids.len()
        invariant
            i <= ids@.len(),
            forall|j: int| 0 <= j < i ==> ids@[j] != id,
        decreases ids.len() - i,
    {
        if ids[i] == id {
            return Some(i);
        }
        i = i + 1;
    }
    None
}

/// The position of the server with id `id` in `servers`, the first one if
/// several share it.
pub fn find_server(servers: &Vec<DistrictServer>, id: u64) -> (r: Option<usize>)
    ensures
        r matches Some(i) ==> i < servers@.len() && servers@[i as int].id == id && forall|j: int|
            0 <= j < i ==> servers@[j].id != id,
        r is None ==> forall|j: int| 0 <= j < servers@.len() ==> servers@[j].id != id,
{
    let mut i: usize = 0;
    while i < servers.len()
        invariant
            i <= servers@.len(),
            forall|j: int| 0 <= j < i ==> servers@[j].id != id,
        decreases servers.len() - i,
    {
        if servers[i].id == id {
            return Some(i);
        }
        i = i + 1;
    }
    None
}

} // verus!
