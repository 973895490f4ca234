//! The single live status message of a channel.
//!
//! A channel shows one message of the bot with the server's state, and that
//! message is kept below everything else that is posted. [`StatusMonitor`]
//! holds what is known of that message and decides, tick by tick, which
//! channel operations are due. The caller performs them and reports the
//! identifiers of the messages it created.
use vstd::prelude::*;
use vstd::string::*;

use crate::language::Language;
use crate::probe::magic;
use crate::probe::new_ping;
use crate::probe::pong_result;
use crate::probe::pong_status;
use crate::probe::split;
use crate::probe::FIELD_SEPARATOR;
use crate::probe::PONG_KIND;
use crate::probe::ping_request;
use crate::probe::PingResult;
use crate::probe::PROBE_TIMEOUT_SECS;
use crate::search::contains;
use crate::search::occurs;
use crate::search::occurs_at;
use crate::text::decimal;
use crate::text::push_decimal;
use crate::text::to_chars;

verus! {

/// Seconds between two updates of the status message.
pub const UPDATE_INTERVAL_SECS: u64 = 30;

/// Seconds between two looks at the newest message of the channel.
pub const WATCH_INTERVAL_SECS: u64 = 5;

/// The title of a status message, by which such a message is recognised.
pub open spec fn banner_title(lang: Language) -> Seq<char> {
    match lang {
        Language::English => "Minecraft Bedrock Server Status"@,
        Language::Japanese => "Minecraft Bedrock サーバー状態"@,
    }
}

/// First part of a status message: title, address and port.
pub open spec fn status_head(lang: Language, ip: Seq<char>, port: u16) -> Seq<char> {
    match lang {
        Language::English => "**"@ + banner_title(lang) + "**\nServer IP: `"@ + ip
            + "`\nPort: `"@ + decimal(port as nat) + "`\n"@,
        Language::Japanese => "**"@ + banner_title(lang) + "**\nサーバーIP: `"@ + ip
            + "`\nポート: `"@ + decimal(port as nat) + "`\n"@,
    }
}

/// Middle part of a status message: the server's state, with the player
/// counts where a probe succeeded.
pub open spec fn status_state(lang: Language, info: Option<PingResult>) -> Seq<char> {
    match (lang, info) {
        (Language::English, Some(p)) => "Status: 🟢 Online\nPlayers: "@ + decimal(
            p.online_players as nat,
        ) + "/"@ + decimal(p.max_players as nat) + "\n"@,
        (Language::English, None) => "Status: 🔴 Offline\n"@,
        (Language::Japanese, Some(p)) => "サーバー状態: 🟢 オンライン\nプレイヤー数: "@
            + decimal(p.online_players as nat) + "/"@ + decimal(p.max_players as nat) + "\n"@,
        (Language::Japanese, None) => "サーバー状態: 🔴 オフライン\n"@,
    }
}

/// Last part of a status message: the time of the update.
pub open spec fn status_tail(lang: Language, clock: Seq<char>) -> Seq<char> {
    match lang {
        Language::English => "Last Updated: "@ + clock,
        Language::Japanese => "最終更新: "@ + clock,
    }
}

/// The text of a status message: the online banner with the player counts
/// of `info`, or the offline banner where there is no probe result.
pub open spec fn status_text(
    lang: Language,
    ip: Seq<char>,
    port: u16,
    info: Option<PingResult>,
    clock: Seq<char>,
) -> Seq<char> {
    status_head(lang, ip, port) + status_state(lang, info) + status_tail(lang, clock)
}

/// The offline banner.
pub open spec fn offline_text(lang: Language, ip: Seq<char>, port: u16, clock: Seq<char>) -> Seq<
    char,
> {
    status_text(lang, ip, port, None, clock)
}

/// Whether `text` is a time of day as hours and minutes, `HH:MM`.
pub open spec fn is_clock(text: Seq<char>) -> bool {
    &&& text.len() == 5
    &&& '0' <= text[0] <= '2'
    &&& '0' <= text[1] <= '9'
    &&& (text[0] == '2' ==> text[1] <= '3')
    &&& text[2] == ':'
    &&& '0' <= text[3] <= '5'
    &&& '0' <= text[4] <= '9'
}

/// `chrono::Local::now()` formatted with `%H:%M`: the local time of day.
/// chrono writes the hour (00 to 23) and the minute (00 to 59) with two
/// digits each; which time it is depends on the clock and the time zone.
#[verifier::external_body]
fn local_clock() -> (r: String)
    ensures
        is_clock(r@),
{
    chrono::Local::now().format("%H:%M").to_string()
}

/// Renders the text of a status message.
pub fn render_status(
    lang: Language,
    ip: &str,
    port: u16,
    info: Option<PingResult>,
    clock: &str,
) -> (r: String)
    ensures
        r@ == status_text(lang, ip@, port, info, clock@),
{
    let mut out = String::from_str("**");
    match lang {
        Language::English => {
            out.append("Minecraft Bedrock Server Status");
            out.append("**\nServer IP: `");
            out.append(ip);
            out.append("`\nPort: `");
        },
        Language::Japanese => {
            out.append("Minecraft Bedrock サーバー状態");
            out.append("**\nサーバーIP: `");
            out.append(ip);
            out.append("`\nポート: `");
        },
    }
    push_decimal(&mut out, port as u64);
    out.append("`\n");
    assert(out@ =~= status_head(lang, ip@, port));
    match info {
        Some(p) => {
            match lang {
                Language::English => {
                    out.append("Status: 🟢 Online\nPlayers: ");
                },
                Language::Japanese => {
                    out.append("サーバー状態: 🟢 オンライン\nプレイヤー数: ");
                },
            }
            push_decimal(&mut out, p.online_players as u64);
            out.append("/");
            push_decimal(&mut out, p.max_players as u64);
            out.append("\n");
        },
        None => {
            match lang {
                Language::English => {
                    out.append("Status: 🔴 Offline\n");
                },
                Language::Japanese => {
                    out.append("サーバー状態: 🔴 オフライン\n");
                },
            }
        },
    }
    assert(out@ =~= status_head(lang, ip@, port) + status_state(lang, info));
    match lang {
        Language::English => {
            out.append("Last Updated: ");
        },
        Language::Japanese => {
            out.append("最終更新: ");
        },
    }
    out.append(clock);
    assert(out@ =~= status_text(lang, ip@, port, info, clock@));
    out
}

/// A message of the channel, as far as the bot looks at it.
#[derive(Debug, Clone, PartialEq, Eq)]
pub struct ChannelMessage {
    pub id: u64,
    pub author_id: u64,
    pub content: String,
}

/// Whether a text carries the title of a status message, in either language.
pub open spec fn is_banner(content: Seq<char>) -> bool {
    occurs(content, banner_title(Language::English)) || occurs(
        content,
        banner_title(Language::Japanese),
    )
}

/// Whether a message is a status message that the account `bot_id` posted.
pub open spec fn is_own_banner(bot_id: u64, message: ChannelMessage) -> bool {
    message.author_id == bot_id && is_banner(message.content@)
}

/// The identifiers of the status messages of `bot_id` among `messages`, in
/// the order of the listing.
pub open spec fn own_banners(bot_id: u64, messages: Seq<ChannelMessage>) -> Seq<u64> {
    messages.filter(|m: ChannelMessage| is_own_banner(bot_id, m)).map_values(
        |m: ChannelMessage| m.id,
    )
}

/// Whether a text carries the title of a status message.
pub fn has_banner_title(content: &str) -> (r: bool)
    ensures
        r == is_banner(content@),
{
    let text = to_chars(content);
    let english = to_chars("Minecraft Bedrock Server Status");
    let japanese = to_chars("Minecraft Bedrock サーバー状態");
    contains(text.as_slice(), english.as_slice()) || contains(
        text.as_slice(),
        japanese.as_slice(),
    )
}

/// An operation on the messages of the channel.
#[derive(Clone, Copy, Debug, PartialEq, Eq, Structural)]
pub enum ChannelOp {
    /// Post a new status message and report its identifier.
    Create,
    /// Replace the text of the message `id`.
    Edit { id: u64 },
    /// Delete the message `id`; a failure is of no consequence.
    Delete { id: u64 },
}

/// The operations that put a fresh status message at the end of the
/// channel: the status message on record, if there is one, goes, and a new
/// one comes.
pub open spec fn repost_ops(posted: Option<u64>) -> Seq<ChannelOp> {
    match posted {
        Some(id) => seq![ChannelOp::Delete { id }, ChannelOp::Create],
        None => seq![ChannelOp::Create],
    }
}

/// Whether the newest message of the channel is one that somebody else
/// wrote and that has not been reacted to yet.
pub open spec fn is_foreign(posted: Option<u64>, last_seen: Option<u64>, latest: u64) -> bool {
    Some(latest) != posted && Some(latest) != last_seen
}

/// The operations that a look at the newest message of the channel leads to.
pub open spec fn watch_ops(
    posted: Option<u64>,
    last_seen: Option<u64>,
    latest: Option<u64>,
) -> Seq<ChannelOp> {
    match latest {
        Some(id) => if is_foreign(posted, last_seen, id) {
            repost_ops(posted)
        } else {
            Seq::empty()
        },
        None => Seq::empty(),
    }
}

/// The newest message that the watcher has seen, after one more look.
pub open spec fn seen_after(last_seen: Option<u64>, latest: Option<u64>) -> Option<u64> {
    match latest {
        Some(id) => Some(id),
        None => last_seen,
    }
}

/// What has to be sent for one probe of the server.
#[derive(Debug, Clone, PartialEq, Eq)]
pub struct ProbeRequest {
    /// Address of the server's game port, as `host:port`.
    pub target: String,
    /// The datagram to send.
    pub packet: Vec<u8>,
    /// Seconds within which the reply must have arrived.
    pub timeout_secs: u64,
}

/// Keeper of the status message of one channel.
///
/// `posted` is the identifier of the status message that the bot believes
/// to be alive, `last_seen` the newest message that the watcher has looked
/// at. Both are absent until the first message is posted or seen.
pub struct StatusMonitor {
    channel_id: u64,
    server_ip: String,
    server_port: u16,
    last_message_id: Option<u64>,
    last_seen_id: Option<u64>,
}

impl StatusMonitor {
    /// The channel that is kept.
    pub closed spec fn channel(&self) -> u64 {
        self.channel_id
    }

    /// The host of the server: the address that is probed and that the
    /// status message shows.
    pub closed spec fn ip(&self) -> Seq<char> {
        self.server_ip@
    }

    /// The game port of the server.
    pub closed spec fn port(&self) -> u16 {
        self.server_port
    }

    /// The status message that is believed to be alive.
    pub closed spec fn posted(&self) -> Option<u64> {
        self.last_message_id
    }

    /// The newest message that the watcher has looked at.
    pub closed spec fn last_seen(&self) -> Option<u64> {
        self.last_seen_id
    }

    /// Whether `self` differs from `before` in nothing but the identifiers
    /// of messages.
    pub open spec fn same_target(&self, before: &StatusMonitor) -> bool {
        &&& self.channel() == before.channel()
        &&& self.ip() == before.ip()
        &&& self.port() == before.port()
    }

    /// A monitor for the channel `channel_id` and the server at the host
    /// `server_ip` and the port `server_port`. No message is on record or seen yet.
    pub fn new(channel_id: u64, server_ip: String, server_port: u16) -> (r: Self)
        ensures
            r.channel() == channel_id,
            r.ip() == server_ip@,
            r.port() == server_port,
            r.posted() is None,
            r.last_seen() is None,
    {
        StatusMonitor {
            channel_id,
            server_ip,
            server_port,
            last_message_id: None,
            last_seen_id: None,
        }
    }

    /// The channel that is kept.
    pub fn channel_id(&self) -> (r: u64)
        ensures
            r == self.channel(),
    {
        self.channel_id
    }

    /// The status message that is believed to be alive.
    pub fn posted_id(&self) -> (r: Option<u64>)
        ensures
            r == self.posted(),
    {
        self.last_message_id
    }

    /// The newest message that the watcher has looked at.
    pub fn last_seen_id(&self) -> (r: Option<u64>)
        ensures
            r == self.last_seen(),
    {
        self.last_seen_id
    }

    /// The startup sweep: the messages to delete so that no status message
    /// of an earlier run stays in the channel. These are the messages of the
    /// listing that `bot_id` wrote and that carry the title of a status
    /// message; all others are left alone.
    pub fn cleanup_old_messages(&self, bot_id: u64, messages: &Vec<ChannelMessage>) -> (r: Vec<
        u64,
    >)
        ensures
            r@ == own_banners(bot_id, messages@),
    {
        let mut stale: Vec<u64> = Vec::new();
        let ghost is_own = |m: ChannelMessage| is_own_banner(bot_id, m);
        let ghost id_of = |m: ChannelMessage| m.id;
        let mut i: usize = 0;
        assert(messages@.take(0).filter(is_own) =~= Seq::<ChannelMessage>::empty());
        while i < messages.len()
            invariant
                i <= messages@.len(),
                is_own == |m: ChannelMessage| is_own_banner(bot_id, m),
                id_of == |m: ChannelMessage| m.id,
                stale@ == messages@.take(i as int).filter(is_own).map_values(id_of),
            decreases messages@.len() - i,
        {
            let message = &messages[i];
            proof {
                let seen = messages@.take(i as int);
                assert(messages@.take(i + 1) =~= seen.push(*message));
                seen.lemma_filter_push(*message, is_own);
                seen.filter(is_own).lemma_push_map_commute(id_of, *message);
            }
            if message.author_id == bot_id && has_banner_title(message.content.as_str()) {
                stale.push(message.id);
            }
            i += 1;
        }
        assert(messages@.take(i as int) =~= messages@);
        stale
    }

    /// The request of one probe sent at `time_ms` (milliseconds since the
    /// epoch): a ping with a fresh client identifier for the address that
    /// the monitor was made with, to be answered within the probe timeout.
    pub fn ping_server(&self, time_ms: u64) -> (r: ProbeRequest)
        ensures
            r.target@ == self.ip() + ":"@ + decimal(self.port() as nat),
            exists|client_id: u64| r.packet@ == ping_request(time_ms, client_id),
            r.timeout_secs == PROBE_TIMEOUT_SECS,
    {
        let mut target = String::from_str(self.server_ip.as_str());
        target.append(":");
        push_decimal(&mut target, self.server_port as u64);
        ProbeRequest { target, packet: new_ping(time_ms), timeout_secs: PROBE_TIMEOUT_SECS }
    }

    /// The text of the status message for the outcome of a probe, stamped
    /// with the local time of day.
    pub fn get_server_status(&self, lang: Language, info: Option<PingResult>) -> (r: String)
        ensures
            exists|clock: Seq<char>|
                is_clock(clock) && r@ == status_text(lang, self.ip(), self.port(), info, clock),
    {
        let clock = local_clock();
        render_status(lang, self.server_ip.as_str(), self.server_port, info, clock.as_str())
    }

    /// The operation that brings the status message up to date: an edit of
    /// the status message on record, or a new message where none is on record.
    pub fn update_status(&self) -> (r: ChannelOp)
        ensures
            r == match self.posted() {
                Some(id) => ChannelOp::Edit { id },
                None => ChannelOp::Create,
            },
    {
        match self.last_message_id {
            Some(id) => ChannelOp::Edit { id },
            None => ChannelOp::Create,
        }
    }

    /// What follows an edit: nothing when it succeeded; when it failed the
    /// message is taken to be gone and a new one is due.
    pub fn edit_finished(&self, edited: bool) -> (r: Option<ChannelOp>)
        ensures
            r == if edited {
                None
            } else {
                Some(ChannelOp::Create)
            },
    {
        if edited {
            None
        } else {
            Some(ChannelOp::Create)
        }
    }

    /// Records that the status message was posted anew as message `id`.
    pub fn message_created(&mut self, id: u64)
        ensures
            final(self).posted() == Some(id),
            final(self).last_seen() == old(self).last_seen(),
            final(self).same_target(old(self)),
    {
        self.last_message_id = Some(id);
    }

    /// The operations that put a fresh status message at the end of the
    /// channel.
    pub fn repost_status(&self) -> (r: Vec<ChannelOp>)
        ensures
            r@ == repost_ops(self.posted()),
    {
        let mut ops: Vec<ChannelOp> = Vec::new();
        match self.last_message_id {
            Some(id) => {
                ops.push(ChannelOp::Delete { id });
            },
            None => {},
        }
        ops.push(ChannelOp::Create);
        assert(ops@ =~= repost_ops(self.posted()));
        ops
    }

    /// Starts the watch: `latest` is the newest message of the channel at
    /// that moment, if the listing gave one. It is not reacted to.
    pub fn watch_from(&mut self, latest: Option<u64>)
        ensures
            final(self).last_seen() == latest,
            final(self).posted() == old(self).posted(),
            final(self).same_target(old(self)),
    {
        self.last_seen_id = latest;
    }

    /// One look of the watcher at the newest message of the channel.
    /// A message that is neither the status message on record nor the one seen at the
    /// look before is somebody else's: the status message is reposted below
    /// it. Whatever was seen is remembered, so that the same message is not
    /// reacted to again. An empty or failed listing (`None`) changes nothing.
    pub fn message_monitor(&mut self, latest: Option<u64>) -> (r: Vec<ChannelOp>)
        ensures
            r@ == watch_ops(old(self).posted(), old(self).last_seen(), latest),
            final(self).last_seen() == seen_after(old(self).last_seen(), latest),
            final(self).posted() == old(self).posted(),
            final(self).same_target(old(self)),
    {
        match latest {
            Some(id) => {
                let foreign = !is_id(self.last_message_id, id) && !is_id(self.last_seen_id, id);
                self.last_seen_id = Some(id);
                if foreign {
                    self.repost_status()
                } else {
                    Vec::new()
                }
            },
            None => Vec::new(),
        }
    }
}

/// Whether `slot` holds the identifier `id`.
fn is_id(slot: Option<u64>, id: u64) -> (r: bool)
    ensures
        r == (slot == Some(id)),
{
    match slot {
        Some(held) => held == id,
        None => false,
    }
}

/// How many of `ops` delete a message.
pub open spec fn deletions(ops: Seq<ChannelOp>) -> nat {
    ops.filter(|op: ChannelOp| op is Delete).len()
}

/// How many of `ops` create a message.
pub open spec fn creations(ops: Seq<ChannelOp>) -> nat {
    ops.filter(|op: ChannelOp| op is Create).len()
}

/// A message of somebody else is reacted to once. When the watcher finds a
/// newest message `foreign` that is neither the status message on record
/// nor the message seen at the look before, it deletes the status message
/// on record, if there is one, and creates one new message, and does
/// nothing else. At the next look the same newest message leads to no
/// operation at all, whichever message is on record by then.
pub proof fn lemma_foreign_message_reposts_once(
    posted: Option<u64>,
    last_seen: Option<u64>,
    foreign: u64,
    posted_later: Option<u64>,
)
    requires
        is_foreign(posted, last_seen, foreign),
    ensures
        watch_ops(posted, last_seen, Some(foreign)) == repost_ops(posted),
        repost_ops(posted).len() == deletions(repost_ops(posted)) + creations(repost_ops(posted)),
        deletions(repost_ops(posted)) == if posted is Some {
            1nat
        } else {
            0nat
        },
        creations(repost_ops(posted)) == 1,
        watch_ops(posted_later, seen_after(last_seen, Some(foreign)), Some(foreign))
            == Seq::<ChannelOp>::empty(),
{
    let is_delete = |op: ChannelOp| op is Delete;
    let is_create = |op: ChannelOp| op is Create;
    let none = Seq::<ChannelOp>::empty();
    assert(none.filter(is_delete) =~= none);
    assert(none.filter(is_create) =~= none);
    match posted {
        Some(id) => {
            let first = none.push(ChannelOp::Delete { id });
            none.lemma_filter_push(ChannelOp::Delete { id }, is_delete);
            none.lemma_filter_push(ChannelOp::Delete { id }, is_create);
            first.lemma_filter_push(ChannelOp::Create, is_delete);
            first.lemma_filter_push(ChannelOp::Create, is_create);
            assert(repost_ops(posted) =~= first.push(ChannelOp::Create));
        },
        None => {
            none.lemma_filter_push(ChannelOp::Create, is_delete);
            none.lemma_filter_push(ChannelOp::Create, is_create);
            assert(repost_ops(posted) =~= none.push(ChannelOp::Create));
        },
    }
}

/// A pong that is not well formed reads as no result, and no result is
/// shown as the offline banner. This holds of a payload that is empty or
/// starts with another byte than the pong kind, of one that does not hold
/// the magic, and of one whose status string has fewer than six fields.
pub proof fn lemma_malformed_pong_shows_offline(
    payload: Seq<u8>,
    observed_at: u64,
    lang: Language,
    ip: Seq<char>,
    port: u16,
    clock: Seq<char>,
)
    requires
        payload.len() == 0 || payload[0] != PONG_KIND || !occurs(payload, magic()) || (pong_status(
            payload,
        ) matches Some(status) && split(status, FIELD_SEPARATOR).len() < 6),
    ensures
        pong_result(payload, observed_at) is None,
        status_text(lang, ip, port, pong_result(payload, observed_at), clock) == offline_text(
            lang,
            ip,
            port,
            clock,
        ),
{
}

/// Every status message carries the title by which the startup sweep
/// recognises the status messages of an earlier run.
pub proof fn lemma_status_text_is_banner(
    lang: Language,
    ip: Seq<char>,
    port: u16,
    info: Option<PingResult>,
    clock: Seq<char>,
)
    ensures
        is_banner(status_text(lang, ip, port, info, clock)),
{
    reveal_strlit("**");
    let text = status_text(lang, ip, port, info, clock);
    let title = banner_title(lang);
    assert(text.subrange(2, 2 + title.len() as int) =~= title);
    assert(occurs_at(text, title, 2));
}

} // verus!
