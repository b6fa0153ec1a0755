use crate::attachment::Attachment;
use crate::attachment::AttachmentView;
use crate::attachment::PartialAttachmentView;
use crate::channel::Channel;
use crate::channel::ChannelView;
use crate::gateway_event::GatewayEvent;
use crate::gateway_event::GatewayEventView;
use crate::gateway_event::GatewayMessage;
use crate::gateway_event::IdentifyPayload;
use crate::guild::Guild;
use crate::guild::GuildView;
use crate::member::Member;
use crate::member::MemberView;
use crate::member::UserLike;
use crate::member::UserLikeView;
use crate::message::Message;
use crate::message::MessageView;
use crate::presence::Presence;
use crate::user::User;
use crate::user::UserView;
use vstd::prelude::*;
use vstd::string::StringSliceAdditionalSpecFns;
use vstd::utf8::encode_utf8;

verus! {

/// The UTF-8 bytes of a piece of text.
pub open spec fn str_bytes(s: Seq<char>) -> Seq<u8> {
    encode_utf8(s)
}

/// The lower-case hex digit of a value below 16.
pub open spec fn hex_digit(n: u8) -> u8 {
    if n < 10 {
        (48 + n) as u8
    } else {
        (87 + n) as u8
    }
}

/// How one byte of string content appears inside a JSON string:
/// quotes and backslashes are escaped, control characters take their
/// short escape or the `\u00..` form, everything else (including
/// UTF-8 continuation bytes) passes through.
pub open spec fn json_escaped_byte(b: u8) -> Seq<u8> {
    if b == 34 {
        seq![92u8, 34u8]
    } else if b == 92 {
        seq![92u8, 92u8]
    } else if b == 8 {
        seq![92u8, 98u8]
    } else if b == 12 {
        seq![92u8, 102u8]
    } else if b == 10 {
        seq![92u8, 110u8]
    } else if b == 13 {
        seq![92u8, 114u8]
    } else if b == 9 {
        seq![92u8, 116u8]
    } else if b < 32 {
        seq![92u8, 117u8, 48u8, 48u8, hex_digit(b / 16), hex_digit(b % 16)]
    } else {
        seq![b]
    }
}

/// The escaped form of a whole byte string.
pub open spec fn json_escaped(s: Seq<u8>) -> Seq<u8>
    decreases s.len(),
{
    if s.len() == 0 {
        Seq::empty()
    } else {
        json_escaped(s.drop_last()) + json_escaped_byte(s.last())
    }
}

/// A JSON string literal: quoted, escaped text.
pub open spec fn json_string(s: Seq<char>) -> Seq<u8> {
    seq![34u8] + json_escaped(str_bytes(s)) + seq![34u8]
}

/// The decimal digits of a number, most significant first.
pub open spec fn dec_digits(n: nat) -> Seq<u8>
    decreases n,
{
    if n < 10 {
        seq![(48 + n) as u8]
    } else {
        dec_digits(n / 10) + seq![(48 + n % 10) as u8]
    }
}

/// A snowflake ID on the wire: its decimal digits in a JSON string,
/// to tolerate 64-bit limits on clients.
pub open spec fn json_id(n: u64) -> Seq<u8> {
    seq![34u8] + dec_digits(n as nat) + seq![34u8]
}

/// An optional JSON string: `null` when absent.
pub open spec fn json_opt_string(s: Option<Seq<char>>) -> Seq<u8> {
    match s {
        Some(s) => json_string(s),
        None => str_bytes("null"@),
    }
}

/// A presence on the wire: its name as a JSON string.
pub open spec fn presence_json(p: Presence) -> Seq<u8> {
    match p {
        Presence::Online => str_bytes("\"ONLINE\""@),
        Presence::Away => str_bytes("\"AWAY\""@),
        Presence::Busy => str_bytes("\"BUSY\""@),
        Presence::Offline => str_bytes("\"OFFLINE\""@),
    }
}

/// An optional presence: `null` when absent.
pub open spec fn opt_presence_json(p: Option<Presence>) -> Seq<u8> {
    match p {
        Some(p) => presence_json(p),
        None => str_bytes("null"@),
    }
}

/// A user on the wire. The stored last presence stays private; the
/// `presence` field carries the displayed presence when set.
pub open spec fn user_json(u: UserView) -> Seq<u8> {
    str_bytes("{\"id\":"@) + json_id(u.id) + str_bytes(",\"username\":"@) + json_string(u.username)
        + str_bytes(",\"display_name\":"@) + json_opt_string(u.display_name) + str_bytes(
        ",\"presence\":"@,
    ) + opt_presence_json(u.displayed_presence) + str_bytes("}"@)
}

/// A guild on the wire.
pub open spec fn guild_json(g: GuildView) -> Seq<u8> {
    str_bytes("{\"id\":"@) + json_id(g.id) + str_bytes(",\"name\":"@) + json_string(g.name)
        + str_bytes(",\"owner_id\":"@) + json_id(g.owner_id) + str_bytes("}"@)
}

/// A channel on the wire, tagged with its kind.
pub open spec fn channel_json(c: ChannelView) -> Seq<u8> {
    str_bytes("{\"type\":\"GUILD_TEXT\",\"id\":"@) + json_id(c.id) + str_bytes(",\"guild_id\":"@)
        + json_id(c.guild_id) + str_bytes(",\"name\":"@) + json_string(c.name) + str_bytes("}"@)
}

/// A member on the wire: the user plus the guild-local fields.
pub open spec fn member_json(m: MemberView) -> Seq<u8> {
    str_bytes("{\"user\":"@) + user_json(m.user) + str_bytes(",\"guild_id\":"@) + json_id(
        m.guild_id,
    ) + str_bytes(",\"nickname\":"@) + json_opt_string(m.nickname) + str_bytes(",\"joined_at\":"@)
        + int_digits(m.joined_at as int) + str_bytes("}"@)
}

/// The decimal form of a signed number.
pub open spec fn int_digits(n: int) -> Seq<u8> {
    if n < 0 {
        seq![45u8] + dec_digits((-n) as nat)
    } else {
        dec_digits(n as nat)
    }
}

/// A user-or-member author on the wire; the two forms are told apart
/// by their fields.
pub open spec fn user_like_json(a: UserLikeView) -> Seq<u8> {
    match a {
        UserLikeView::Member(m) => member_json(m),
        UserLikeView::User(u) => user_json(u),
    }
}

/// An optional author.
pub open spec fn opt_author_json(a: Option<UserLikeView>) -> Seq<u8> {
    match a {
        Some(a) => user_like_json(a),
        None => str_bytes("null"@),
    }
}

/// An attachment on the wire: the metadata alone; binary content
/// never rides on the gateway.
pub open spec fn attachment_json(a: AttachmentView) -> Seq<u8> {
    partial_attachment_json(a.as_partial_view())
}

/// Attachment metadata on the wire.
pub open spec fn partial_attachment_json(a: PartialAttachmentView) -> Seq<u8> {
    str_bytes("{\"id\":"@) + dec_digits(a.id as nat) + str_bytes(",\"filename\":"@) + json_string(
        a.filename,
    ) + str_bytes(",\"content_type\":"@) + json_string(a.content_type) + str_bytes("}"@)
}

/// A comma-separated list of guilds.
pub open spec fn guilds_json(gs: Seq<GuildView>) -> Seq<u8>
    decreases gs.len(),
{
    if gs.len() == 0 {
        Seq::empty()
    } else if gs.len() == 1 {
        guild_json(gs[0])
    } else {
        guilds_json(gs.drop_last()) + str_bytes(","@) + guild_json(gs.last())
    }
}

/// A comma-separated list of members.
pub open spec fn members_json(ms: Seq<MemberView>) -> Seq<u8>
    decreases ms.len(),
{
    if ms.len() == 0 {
        Seq::empty()
    } else if ms.len() == 1 {
        member_json(ms[0])
    } else {
        members_json(ms.drop_last()) + str_bytes(","@) + member_json(ms.last())
    }
}

/// A comma-separated list of channels.
pub open spec fn channels_json(cs: Seq<ChannelView>) -> Seq<u8>
    decreases cs.len(),
{
    if cs.len() == 0 {
        Seq::empty()
    } else if cs.len() == 1 {
        channel_json(cs[0])
    } else {
        channels_json(cs.drop_last()) + str_bytes(","@) + channel_json(cs.last())
    }
}

/// A comma-separated list of attachments.
pub open spec fn attachments_json(ats: Seq<AttachmentView>) -> Seq<u8>
    decreases ats.len(),
{
    if ats.len() == 0 {
        Seq::empty()
    } else if ats.len() == 1 {
        attachment_json(ats[0])
    } else {
        attachments_json(ats.drop_last()) + str_bytes(","@) + attachment_json(ats.last())
    }
}

/// A message on the wire.
pub open spec fn message_json(m: MessageView) -> Seq<u8> {
    str_bytes("{\"id\":"@) + json_id(m.id) + str_bytes(",\"channel_id\":"@) + json_id(m.channel_id)
        + str_bytes(",\"author\":"@) + opt_author_json(m.author) + str_bytes(",\"nonce\":"@)
        + json_opt_string(m.nonce) + str_bytes(",\"content\":"@) + json_opt_string(m.content)
        + str_bytes(",\"attachments\":["@) + attachments_json(m.attachments) + str_bytes("]}"@)
}

/// A whole server-to-client event on the wire: the tagged envelope
/// `{"event": NAME, "data": payload}`, with the payload shapes fixed
/// per variant.
pub open spec fn event_json(e: GatewayEventView) -> Seq<u8> {
    match e {
        GatewayEventView::Hello { heartbeat_interval } => str_bytes(
            "{\"event\":\"HELLO\",\"data\":{\"heartbeat_interval\":"@,
        ) + dec_digits(heartbeat_interval as nat) + str_bytes("}}"@),
        GatewayEventView::Ready { user, guilds } => str_bytes(
            "{\"event\":\"READY\",\"data\":{\"user\":"@,
        ) + user_json(user) + str_bytes(",\"guilds\":["@) + guilds_json(guilds) + str_bytes(
            "]}}"@,
        ),
        GatewayEventView::GuildCreate(p) => str_bytes(
            "{\"event\":\"GUILD_CREATE\",\"data\":{\"guild\":"@,
        ) + guild_json(p.guild) + str_bytes(",\"members\":["@) + members_json(p.members)
            + str_bytes("],\"channels\":["@) + channels_json(p.channels) + str_bytes("]}}"@),
        GatewayEventView::GuildRemove(g) => str_bytes("{\"event\":\"GUILD_REMOVE\",\"data\":"@)
            + guild_json(g) + str_bytes("}"@),
        GatewayEventView::ChannelCreate(c) => str_bytes("{\"event\":\"CHANNEL_CREATE\",\"data\":"@)
            + channel_json(c) + str_bytes("}"@),
        GatewayEventView::ChannelRemove(c) => str_bytes("{\"event\":\"CHANNEL_REMOVE\",\"data\":"@)
            + channel_json(c) + str_bytes("}"@),
        GatewayEventView::MemberCreate(m) => str_bytes("{\"event\":\"MEMBER_CREATE\",\"data\":"@)
            + member_json(m) + str_bytes("}"@),
        GatewayEventView::MemberRemove(m) => str_bytes("{\"event\":\"MEMBER_REMOVE\",\"data\":"@)
            + member_json(m) + str_bytes("}"@),
        GatewayEventView::MessageCreate(m) => str_bytes("{\"event\":\"MESSAGE_CREATE\",\"data\":"@)
            + message_json(m) + str_bytes("}"@),
        GatewayEventView::PresenceUpdate { user_id, presence } => str_bytes(
            "{\"event\":\"PRESENCE_UPDATE\",\"data\":{\"user_id\":"@,
        ) + json_id(user_id) + str_bytes(",\"presence\":"@) + presence_json(presence) + str_bytes(
            "}}"@,
        ),
        GatewayEventView::HeartbeatAck => str_bytes("{\"event\":\"HEARTBEAT_ACK\"}"@),
        GatewayEventView::InvalidSession(reason) => str_bytes(
            "{\"event\":\"INVALID_SESSION\",\"data\":"@,
        ) + json_string(reason) + str_bytes("}"@),
    }
}

/// Splitting a list at `j`: the wire form of the first `j + 1`
/// guilds extends the wire form of the first `j` by one entry.
proof fn lemma_guilds_json_step(gs: Seq<GuildView>, j: int)
    requires
        0 <= j < gs.len(),
    ensures
        guilds_json(gs.take(j + 1)) == guilds_json(gs.take(j)) + if j == 0 {
            Seq::<u8>::empty()
        } else {
            str_bytes(","@)
        } + guild_json(gs[j]),
{
    assert(gs.take(j + 1).drop_last() =~= gs.take(j));
    assert(gs.take(j + 1).last() == gs[j]);
    if j == 0 {
        assert(guilds_json(gs.take(1)) =~= guilds_json(gs.take(0)) + Seq::<u8>::empty()
            + guild_json(gs[0]));
    }
}

/// Splitting a list at `j`, for members.
proof fn lemma_members_json_step(ms: Seq<MemberView>, j: int)
    requires
        0 <= j < ms.len(),
    ensures
        members_json(ms.take(j + 1)) == members_json(ms.take(j)) + if j == 0 {
            Seq::<u8>::empty()
        } else {
            str_bytes(","@)
        } + member_json(ms[j]),
{
    assert(ms.take(j + 1).drop_last() =~= ms.take(j));
    assert(ms.take(j + 1).last() == ms[j]);
    if j == 0 {
        assert(members_json(ms.take(1)) =~= members_json(ms.take(0)) + Seq::<u8>::empty()
            + member_json(ms[0]));
    }
}

/// Splitting a list at `j`, for channels.
proof fn lemma_channels_json_step(cs: Seq<ChannelView>, j: int)
    requires
        0 <= j < cs.len(),
    ensures
        channels_json(cs.take(j + 1)) == channels_json(cs.take(j)) + if j == 0 {
            Seq::<u8>::empty()
        } else {
            str_bytes(","@)
        } + channel_json(cs[j]),
{
    assert(cs.take(j + 1).drop_last() =~= cs.take(j));
    assert(cs.take(j + 1).last() == cs[j]);
    if j == 0 {
        assert(channels_json(cs.take(1)) =~= channels_json(cs.take(0)) + Seq::<u8>::empty()
            + channel_json(cs[0]));
    }
}

/// Splitting a list at `j`, for attachments.
proof fn lemma_attachments_json_step(ats: Seq<AttachmentView>, j: int)
    requires
        0 <= j < ats.len(),
    ensures
        attachments_json(ats.take(j + 1)) == attachments_json(ats.take(j)) + if j == 0 {
            Seq::<u8>::empty()
        } else {
            str_bytes(","@)
        } + attachment_json(ats[j]),
{
    assert(ats.take(j + 1).drop_last() =~= ats.take(j));
    assert(ats.take(j + 1).last() == ats[j]);
    if j == 0 {
        assert(attachments_json(ats.take(1)) =~= attachments_json(ats.take(0)) + Seq::<u8>::empty()
            + attachment_json(ats[0]));
    }
}

/// Append a piece of fixed text.
fn emit_lit(out: &mut Vec<u8>, s: &str)
    ensures
        final(out)@ == old(out)@ + str_bytes(s@),
{
    out.extend_from_slice(s.as_bytes());
}

/// Append the escaped form of raw string content.
fn emit_escaped(out: &mut Vec<u8>, s: &[u8])
    ensures
        final(out)@ == old(out)@ + json_escaped(s@),
{
    let n = s.len();
    let mut i: usize = 0;
    proof {
        assert(s@.take(0) =~= Seq::<u8>::empty());
        assert(out@ =~= old(out)@ + json_escaped(s@.take(0)));
    }
    while i < n
        invariant
            n == s@.len(),
            0 <= i <= n,
            out@ == old(out)@ + json_escaped(s@.take(i as int)),
        decreases n - i,
    {
        let ghost prefix = s@.take(i as int);
        let b = s[i];
        if b == 34 {
            out.push(92);
            out.push(34);
        } else if b == 92 {
            out.push(92);
            out.push(92);
        } else if b == 8 {
            out.push(92);
            out.push(98);
        } else if b == 12 {
            out.push(92);
            out.push(102);
        } else if b == 10 {
            out.push(92);
            out.push(110);
        } else if b == 13 {
            out.push(92);
            out.push(114);
        } else if b == 9 {
            out.push(92);
            out.push(116);
        } else if b < 32 {
            out.push(92);
            out.push(117);
            out.push(48);
            out.push(48);
            let hi = b / 16;
            let lo = b % 16;
            out.push(if hi < 10 { 48 + hi } else { 87 + hi });
            out.push(if lo < 10 { 48 + lo } else { 87 + lo });
        } else {
            out.push(b);
        }
        proof {
            assert(s@.take(i + 1).drop_last() =~= prefix);
            assert(s@.take(i + 1).last() == s@[i as int]);
            assert(json_escaped(s@.take(i + 1)) == json_escaped(prefix) + json_escaped_byte(
                s@[i as int],
            ));
            assert(out@ =~= old(out)@ + json_escaped(s@.take(i + 1)));
        }
        i += 1;
    }
    proof {
        assert(s@.take(n as int) =~= s@);
    }
}

/// Append a JSON string literal.
fn emit_json_string(out: &mut Vec<u8>, s: &str)
    ensures
        final(out)@ == old(out)@ + json_string(s@),
{
    out.push(34);
    emit_escaped(out, s.as_bytes());
    out.push(34);
    proof {
        assert(final(out)@ =~= old(out)@ + json_string(s@));
    }
}

/// Append the decimal digits of a number.
fn emit_dec(out: &mut Vec<u8>, n: u64)
    ensures
        final(out)@ == old(out)@ + dec_digits(n as nat),
    decreases n,
{
    if n >= 10 {
        emit_dec(out, n / 10);
    }
    out.push(48 + (n % 10) as u8);
    proof {
        assert(final(out)@ =~= old(out)@ + dec_digits(n as nat));
    }
}

/// Append the decimal form of a signed number.
fn emit_int(out: &mut Vec<u8>, n: i64)
    ensures
        final(out)@ == old(out)@ + int_digits(n as int),
{
    if n < 0 {
        out.push(45);
        let m: u64 = #[verifier::truncate] ((-(n as i128)) as u64);
        emit_dec(out, m);
        proof {
            assert(final(out)@ =~= old(out)@ + int_digits(n as int));
        }
    } else {
        emit_dec(out, #[verifier::truncate] (n as u64));
    }
}

/// Append a snowflake ID as a quoted decimal string.
fn emit_id(out: &mut Vec<u8>, v: u64)
    ensures
        final(out)@ == old(out)@ + json_id(v),
{
    out.push(34);
    emit_dec(out, v);
    out.push(34);
    proof {
        assert(final(out)@ =~= old(out)@ + json_id(v));
    }
}

/// Append a presence name.
fn emit_presence(out: &mut Vec<u8>, p: &Presence)
    ensures
        final(out)@ == old(out)@ + presence_json(*p),
{
    match p {
        Presence::Online => emit_lit(out, "\"ONLINE\""),
        Presence::Away => emit_lit(out, "\"AWAY\""),
        Presence::Busy => emit_lit(out, "\"BUSY\""),
        Presence::Offline => emit_lit(out, "\"OFFLINE\""),
    }
}

/// Append an optional presence.
fn emit_opt_presence(out: &mut Vec<u8>, p: &Option<Presence>)
    ensures
        final(out)@ == old(out)@ + opt_presence_json(*p),
{
    match p {
        Some(p) => emit_presence(out, p),
        None => emit_lit(out, "null"),
    }
}

/// Append an optional JSON string.
fn emit_opt_string(out: &mut Vec<u8>, s: &Option<String>)
    ensures
        final(out)@ == old(out)@ + json_opt_string(match *s {
            Some(ref s) => Some(s@),
            None => None,
        }),
{
    match s {
        Some(s) => emit_json_string(out, s.as_str()),
        None => emit_lit(out, "null"),
    }
}

/// Append a user.
#[verifier::rlimit(100)]
#[verifier::spinoff_prover]
fn emit_user(out: &mut Vec<u8>, u: &User)
    ensures
        final(out)@ == old(out)@ + user_json(u@),
{
    emit_lit(out, "{\"id\":");
    emit_id(out, u.id.value);
    emit_lit(out, ",\"username\":");
    emit_json_string(out, u.username.as_str());
    emit_lit(out, ",\"display_name\":");
    emit_opt_string(out, &u.display_name);
    emit_lit(out, ",\"presence\":");
    emit_opt_presence(out, &u.displayed_presence);
    emit_lit(out, "}");
    proof {
        assert(final(out)@ =~= old(out)@ + user_json(u@));
    }
}

/// Append a guild.
fn emit_guild(out: &mut Vec<u8>, g: &Guild)
    ensures
        final(out)@ == old(out)@ + guild_json(g@),
{
    emit_lit(out, "{\"id\":");
    emit_id(out, g.id.value);
    emit_lit(out, ",\"name\":");
    emit_json_string(out, g.name.as_str());
    emit_lit(out, ",\"owner_id\":");
    emit_id(out, g.owner_id.value);
    emit_lit(out, "}");
    proof {
        assert(final(out)@ =~= old(out)@ + guild_json(g@));
    }
}

/// Append a channel.
fn emit_channel(out: &mut Vec<u8>, c: &Channel)
    ensures
        final(out)@ == old(out)@ + channel_json(c@),
{
    emit_lit(out, "{\"type\":\"GUILD_TEXT\",\"id\":");
    emit_id(out, c.id().value);
    emit_lit(out, ",\"guild_id\":");
    emit_id(out, c.guild_id().value);
    emit_lit(out, ",\"name\":");
    emit_json_string(out, c.name());
    emit_lit(out, "}");
    proof {
        assert(final(out)@ =~= old(out)@ + channel_json(c@));
    }
}

/// Append a member.
#[verifier::rlimit(100)]
#[verifier::spinoff_prover]
fn emit_member(out: &mut Vec<u8>, m: &Member)
    ensures
        final(out)@ == old(out)@ + member_json(m@),
{
    emit_lit(out, "{\"user\":");
    emit_user(out, &m.user);
    emit_lit(out, ",\"guild_id\":");
    emit_id(out, m.guild_id.value);
    emit_lit(out, ",\"nickname\":");
    emit_opt_string(out, &m.nickname);
    emit_lit(out, ",\"joined_at\":");
    emit_int(out, m.joined_at);
    emit_lit(out, "}");
    proof {
        assert(final(out)@ =~= old(out)@ + member_json(m@));
    }
}

/// Append a user-or-member author.
fn emit_user_like(out: &mut Vec<u8>, a: &UserLike)
    ensures
        final(out)@ == old(out)@ + user_like_json(a@),
{
    match a {
        UserLike::Member(m) => emit_member(out, m),
        UserLike::User(u) => emit_user(out, u),
    }
}

/// Append attachment metadata.
fn emit_attachment(out: &mut Vec<u8>, a: &Attachment)
    ensures
        final(out)@ == old(out)@ + attachment_json(a@),
{
    let (id, filename, content_type): (u8, &String, &String) = match a {
        Attachment::Full(f) => (f.id, &f.filename, &f.content_type),
        Attachment::Partial(p) => (p.id, &p.filename, &p.content_type),
    };
    emit_lit(out, "{\"id\":");
    emit_dec(out, id as u64);
    emit_lit(out, ",\"filename\":");
    emit_json_string(out, filename.as_str());
    emit_lit(out, ",\"content_type\":");
    emit_json_string(out, content_type.as_str());
    emit_lit(out, "}");
    proof {
        assert(final(out)@ =~= old(out)@ + attachment_json(a@));
    }
}


/// Append a comma-separated list of guilds.
fn emit_guilds(out: &mut Vec<u8>, v: &Vec<Guild>)
    ensures
        final(out)@ == old(out)@ + guilds_json(v@.map_values(|g: Guild| g@)),
{
    let ghost gs = v@.map_values(|g: Guild| g@);
    let ghost base = out@;
    let n = v.len();
    let mut j: usize = 0;
    proof {
        assert(gs.take(0) =~= Seq::<GuildView>::empty());
        assert(out@ =~= base + guilds_json(gs.take(0)));
    }
    while j < n
        invariant
            n == v@.len(),
            gs == v@.map_values(|g: Guild| g@),
            gs.len() == n,
            0 <= j <= n,
            out@ == base + guilds_json(gs.take(j as int)),
        decreases n - j,
    {
        if j > 0 {
            emit_lit(out, ",");
        }
        emit_guild(out, &v[j]);
        proof {
            lemma_guilds_json_step(gs, j as int);
            assert(gs[j as int] == v@[j as int]@);
            assert(out@ =~= base + guilds_json(gs.take(j + 1)));
        }
        j += 1;
    }
    proof {
        assert(gs.take(n as int) =~= gs);
    }
}

/// Append a comma-separated list of members.
fn emit_members(out: &mut Vec<u8>, v: &Vec<Member>)
    ensures
        final(out)@ == old(out)@ + members_json(v@.map_values(|m: Member| m@)),
{
    let ghost ms = v@.map_values(|m: Member| m@);
    let ghost base = out@;
    let n = v.len();
    let mut j: usize = 0;
    proof {
        assert(ms.take(0) =~= Seq::<MemberView>::empty());
        assert(out@ =~= base + members_json(ms.take(0)));
    }
    while j < n
        invariant
            n == v@.len(),
            ms == v@.map_values(|m: Member| m@),
            ms.len() == n,
            0 <= j <= n,
            out@ == base + members_json(ms.take(j as int)),
        decreases n - j,
    {
        if j > 0 {
            emit_lit(out, ",");
        }
        emit_member(out, &v[j]);
        proof {
            lemma_members_json_step(ms, j as int);
            assert(ms[j as int] == v@[j as int]@);
            assert(out@ =~= base + members_json(ms.take(j + 1)));
        }
        j += 1;
    }
    proof {
        assert(ms.take(n as int) =~= ms);
    }
}

/// Append a comma-separated list of channels.
fn emit_channels(out: &mut Vec<u8>, v: &Vec<Channel>)
    ensures
        final(out)@ == old(out)@ + channels_json(v@.map_values(|c: Channel| c@)),
{
    let ghost cs = v@.map_values(|c: Channel| c@);
    let ghost base = out@;
    let n = v.len();
    let mut j: usize = 0;
    proof {
        assert(cs.take(0) =~= Seq::<ChannelView>::empty());
        assert(out@ =~= base + channels_json(cs.take(0)));
    }
    while j < n
        invariant
            n == v@.len(),
            cs == v@.map_values(|c: Channel| c@),
            cs.len() == n,
            0 <= j <= n,
            out@ == base + channels_json(cs.take(j as int)),
        decreases n - j,
    {
        if j > 0 {
            emit_lit(out, ",");
        }
        emit_channel(out, &v[j]);
        proof {
            lemma_channels_json_step(cs, j as int);
            assert(cs[j as int] == v@[j as int]@);
            assert(out@ =~= base + channels_json(cs.take(j + 1)));
        }
        j += 1;
    }
    proof {
        assert(cs.take(n as int) =~= cs);
    }
}

/// Append a comma-separated list of attachments.
fn emit_attachments(out: &mut Vec<u8>, v: &Vec<Attachment>)
    ensures
        final(out)@ == old(out)@ + attachments_json(v@.map_values(|a: Attachment| a@)),
{
    let ghost ats = v@.map_values(|a: Attachment| a@);
    let ghost base = out@;
    let n = v.len();
    let mut j: usize = 0;
    proof {
        assert(ats.take(0) =~= Seq::<AttachmentView>::empty());
        assert(out@ =~= base + attachments_json(ats.take(0)));
    }
    while j < n
        invariant
            n == v@.len(),
            ats == v@.map_values(|a: Attachment| a@),
            ats.len() == n,
            0 <= j <= n,
            out@ == base + attachments_json(ats.take(j as int)),
        decreases n - j,
    {
        if j > 0 {
            emit_lit(out, ",");
        }
        emit_attachment(out, &v[j]);
        proof {
            lemma_attachments_json_step(ats, j as int);
            assert(ats[j as int] == v@[j as int]@);
            assert(out@ =~= base + attachments_json(ats.take(j + 1)));
        }
        j += 1;
    }
    proof {
        assert(ats.take(n as int) =~= ats);
    }
}

/// Append a message.
#[verifier::rlimit(100)]
#[verifier::spinoff_prover]
fn emit_message(out: &mut Vec<u8>, m: &Message)
    ensures
        final(out)@ == old(out)@ + message_json(m@),
{
    emit_lit(out, "{\"id\":");
    emit_id(out, m.id.value);
    emit_lit(out, ",\"channel_id\":");
    emit_id(out, m.channel_id.value);
    emit_lit(out, ",\"author\":");
    match &m.author {
        Some(a) => emit_user_like(out, a),
        None => emit_lit(out, "null"),
    }
    emit_lit(out, ",\"nonce\":");
    emit_opt_string(out, &m.nonce);
    emit_lit(out, ",\"content\":");
    emit_opt_string(out, &m.content);
    emit_lit(out, ",\"attachments\":[");
    emit_attachments(out, &m.attachments);
    emit_lit(out, "]}");
    proof {
        assert(final(out)@ =~= old(out)@ + message_json(m@));
    }
}

/// Serialise a server-to-client event to its wire frame.
pub fn encode_event(e: &GatewayEvent) -> (r: Vec<u8>)
    ensures
        r@ == event_json(e@),
{
    let mut out: Vec<u8> = Vec::new();
    match e {
        GatewayEvent::Hello(p) => {
            emit_lit(&mut out, "{\"event\":\"HELLO\",\"data\":{\"heartbeat_interval\":");
            emit_dec(&mut out, p.heartbeat_interval);
            emit_lit(&mut out, "}}");
        },
        GatewayEvent::Ready(p) => {
            emit_lit(&mut out, "{\"event\":\"READY\",\"data\":{\"user\":");
            emit_user(&mut out, &p.user);
            emit_lit(&mut out, ",\"guilds\":[");
            emit_guilds(&mut out, &p.guilds);
            emit_lit(&mut out, "]}}");
        },
        GatewayEvent::GuildCreate(p) => {
            emit_lit(&mut out, "{\"event\":\"GUILD_CREATE\",\"data\":{\"guild\":");
            emit_guild(&mut out, &p.guild);
            emit_lit(&mut out, ",\"members\":[");
            emit_members(&mut out, &p.members);
            emit_lit(&mut out, "],\"channels\":[");
            emit_channels(&mut out, &p.channels);
            emit_lit(&mut out, "]}}");
        },
        GatewayEvent::GuildRemove(g) => {
            emit_lit(&mut out, "{\"event\":\"GUILD_REMOVE\",\"data\":");
            emit_guild(&mut out, g);
            emit_lit(&mut out, "}");
        },
        GatewayEvent::ChannelCreate(c) => {
            emit_lit(&mut out, "{\"event\":\"CHANNEL_CREATE\",\"data\":");
            emit_channel(&mut out, c);
            emit_lit(&mut out, "}");
        },
        GatewayEvent::ChannelRemove(c) => {
            emit_lit(&mut out, "{\"event\":\"CHANNEL_REMOVE\",\"data\":");
            emit_channel(&mut out, c);
            emit_lit(&mut out, "}");
        },
        GatewayEvent::MemberCreate(m) => {
            emit_lit(&mut out, "{\"event\":\"MEMBER_CREATE\",\"data\":");
            emit_member(&mut out, m);
            emit_lit(&mut out, "}");
        },
        GatewayEvent::MemberRemove(m) => {
            emit_lit(&mut out, "{\"event\":\"MEMBER_REMOVE\",\"data\":");
            emit_member(&mut out, m);
            emit_lit(&mut out, "}");
        },
        GatewayEvent::MessageCreate(m) => {
            emit_lit(&mut out, "{\"event\":\"MESSAGE_CREATE\",\"data\":");
            emit_message(&mut out, m);
            emit_lit(&mut out, "}");
        },
        GatewayEvent::PresenceUpdate(p) => {
            emit_lit(&mut out, "{\"event\":\"PRESENCE_UPDATE\",\"data\":{\"user_id\":");
            emit_id(&mut out, p.user_id.value);
            emit_lit(&mut out, ",\"presence\":");
            emit_presence(&mut out, &p.presence);
            emit_lit(&mut out, "}}");
        },
        GatewayEvent::HeartbeatAck => {
            emit_lit(&mut out, "{\"event\":\"HEARTBEAT_ACK\"}");
        },
        GatewayEvent::InvalidSession(reason) => {
            emit_lit(&mut out, "{\"event\":\"INVALID_SESSION\",\"data\":");
            emit_json_string(&mut out, reason.as_str());
            emit_lit(&mut out, "}");
        },
    }
    proof {
        assert(out@ =~= event_json(e@));
    }
    out
}

// ---------------------------------------------------------------
// Inbound frames.
//
// The accepted grammar for client-to-server frames is fixed here:
// the envelope `{"event": NAME, "data": ...}` with the keys in that
// order, JSON whitespace tolerated between tokens, and the token
// carried as a printable-ASCII string without escape sequences
// (tokens are base64url text, which never needs any). Everything
// else is a protocol error and costs the client its connection.
// ---------------------------------------------------------------

/// The content a parsed client frame carries.
pub enum ClientFrameView {
    Identify { token: Seq<u8> },
    Heartbeat,
}

/// JSON whitespace.
pub open spec fn is_ws_byte(b: u8) -> bool {
    b == 32 || b == 9 || b == 10 || b == 13
}

/// A byte allowed inside the token string: printable ASCII except
/// the quote and the backslash.
pub open spec fn is_token_byte(b: u8) -> bool {
    32 <= b < 127 && b != 34 && b != 92
}

/// The position of the first non-whitespace byte at or after `i`.
pub open spec fn spec_skip_ws(s: Seq<u8>, i: int) -> int
    decreases s.len() - i,
    when 0 <= i <= s.len()
{
    if i < s.len() && is_ws_byte(s[i]) {
        spec_skip_ws(s, i + 1)
    } else {
        i
    }
}

/// The position after `lit` when it occurs verbatim at `i`.
pub open spec fn spec_eat_lit(s: Seq<u8>, i: int, lit: Seq<u8>) -> Option<int> {
    if 0 <= i && i + lit.len() <= s.len() && s.subrange(i, i + lit.len()) == lit {
        Some(i + lit.len())
    } else {
        None
    }
}

/// The position of the first byte at or after `i` that may not stand
/// inside a token string.
pub open spec fn spec_scan_token(s: Seq<u8>, i: int) -> int
    decreases s.len() - i,
    when 0 <= i <= s.len()
{
    if i < s.len() && is_token_byte(s[i]) {
        spec_scan_token(s, i + 1)
    } else {
        i
    }
}

/// What the identify arm of the grammar accepts after the event name:
/// `, "data" : { "token" : "<token>" } }` and the end of the frame.
pub open spec fn spec_parse_identify_tail(s: Seq<u8>, i0: int) -> Option<ClientFrameView> {
    let i = spec_skip_ws(s, i0);
    if !(i < s.len() && s[i] == 44) {
        None
    } else {
        let j = spec_skip_ws(s, i + 1);
        match spec_eat_lit(s, j, str_bytes("\"data\""@)) {
            None => None,
            Some(j1) => {
                let k = spec_skip_ws(s, j1);
                if !(k < s.len() && s[k] == 58) {
                    None
                } else {
                    let l = spec_skip_ws(s, k + 1);
                    if !(l < s.len() && s[l] == 123) {
                        None
                    } else {
                        let m = spec_skip_ws(s, l + 1);
                        match spec_eat_lit(s, m, str_bytes("\"token\""@)) {
                            None => None,
                            Some(m1) => {
                                let p = spec_skip_ws(s, m1);
                                if !(p < s.len() && s[p] == 58) {
                                    None
                                } else {
                                    let q = spec_skip_ws(s, p + 1);
                                    if !(q < s.len() && s[q] == 34) {
                                        None
                                    } else {
                                        let e = spec_scan_token(s, q + 1);
                                        if !(e < s.len() && s[e] == 34) {
                                            None
                                        } else {
                                            let t = spec_skip_ws(s, e + 1);
                                            if !(t < s.len() && s[t] == 125) {
                                                None
                                            } else {
                                                let u = spec_skip_ws(s, t + 1);
                                                if !(u < s.len() && s[u] == 125) {
                                                    None
                                                } else if spec_skip_ws(s, u + 1) == s.len() {
                                                    Some(
                                                        ClientFrameView::Identify {
                                                            token: s.subrange(q + 1, e),
                                                        },
                                                    )
                                                } else {
                                                    None
                                                }
                                            }
                                        }
                                    }
                                }
                            },
                        }
                    }
                }
            },
        }
    }
}

/// What the heartbeat arm accepts after the event name: an optional
/// `, "data" : null`, then `}` and the end of the frame.
pub open spec fn spec_parse_heartbeat_tail(s: Seq<u8>, i0: int) -> Option<ClientFrameView> {
    let i = spec_skip_ws(s, i0);
    if i < s.len() && s[i] == 125 {
        if spec_skip_ws(s, i + 1) == s.len() {
            Some(ClientFrameView::Heartbeat)
        } else {
            None
        }
    } else if i < s.len() && s[i] == 44 {
        let j = spec_skip_ws(s, i + 1);
        match spec_eat_lit(s, j, str_bytes("\"data\""@)) {
            None => None,
            Some(j1) => {
                let k = spec_skip_ws(s, j1);
                if !(k < s.len() && s[k] == 58) {
                    None
                } else {
                    let l = spec_skip_ws(s, k + 1);
                    match spec_eat_lit(s, l, str_bytes("null"@)) {
                        None => None,
                        Some(l1) => {
                            let m = spec_skip_ws(s, l1);
                            if !(m < s.len() && s[m] == 125) {
                                None
                            } else if spec_skip_ws(s, m + 1) == s.len() {
                                Some(ClientFrameView::Heartbeat)
                            } else {
                                None
                            }
                        },
                    }
                }
            },
        }
    } else {
        None
    }
}

/// The whole inbound grammar: the envelope opening, the event name,
/// then the arm that name selects.
pub open spec fn spec_parse_client_frame(s: Seq<u8>) -> Option<ClientFrameView> {
    let i = spec_skip_ws(s, 0);
    if !(i < s.len() && s[i] == 123) {
        None
    } else {
        let j = spec_skip_ws(s, i + 1);
        match spec_eat_lit(s, j, str_bytes("\"event\""@)) {
            None => None,
            Some(j1) => {
                let k = spec_skip_ws(s, j1);
                if !(k < s.len() && s[k] == 58) {
                    None
                } else {
                    let l = spec_skip_ws(s, k + 1);
                    match spec_eat_lit(s, l, str_bytes("\"IDENTIFY\""@)) {
                        Some(l1) => spec_parse_identify_tail(s, l1),
                        None => match spec_eat_lit(s, l, str_bytes("\"HEARTBEAT\""@)) {
                            Some(l1) => spec_parse_heartbeat_tail(s, l1),
                            None => None,
                        },
                    }
                }
            },
        }
    }
}

/// Relies on `String::from_utf8`: ASCII bytes are valid UTF-8 and
/// decode to the characters with the same code points.
#[verifier::external_body]
fn ascii_bytes_to_string(v: Vec<u8>) -> (r: String)
    requires
        forall|i: int| 0 <= i < v@.len() ==> 32 <= #[trigger] v@[i] < 127,
    ensures
        r@ == v@.map_values(|b: u8| b as char),
{
    String::from_utf8(v).expect("ASCII bytes are valid UTF-8")
}

fn skip_ws(s: &[u8], i: usize) -> (r: usize)
    requires
        i <= s@.len(),
    ensures
        r == spec_skip_ws(s@, i as int),
        i <= r <= s@.len(),
{
    let n = s.len();
    let mut cur = i;
    while cur < n && (s[cur] == 32 || s[cur] == 9 || s[cur] == 10 || s[cur] == 13)
        invariant
            n == s@.len(),
            i <= cur <= n,
            spec_skip_ws(s@, i as int) == spec_skip_ws(s@, cur as int),
        decreases n - cur,
    {
        cur += 1;
    }
    cur
}

fn eat_lit(s: &[u8], i: usize, lit: &str) -> (r: Option<usize>)
    requires
        i <= s@.len(),
    ensures
        match r {
            Some(j) => Some(j as int) == spec_eat_lit(s@, i as int, lit.spec_bytes()) && i <= j
                <= s@.len(),
            None => spec_eat_lit(s@, i as int, lit.spec_bytes()) is None,
        },
{
    let lb = lit.as_bytes();
    let m = lb.len();
    let n = s.len();
    if n - i < m {
        return None;
    }
    let mut k: usize = 0;
    while k < m
        invariant
            m == lb@.len(),
            lb@ == lit.spec_bytes(),
            n == s@.len(),
            i + m <= n,
            0 <= k <= m,
            forall|t: int| 0 <= t < k ==> s@[i + t] == lb@[t],
        decreases m - k,
    {
        if s[i + k] != lb[k] {
            proof {
                let sub = s@.subrange(i as int, i + m);
                assert(sub[k as int] == s@[i + k]);
                assert(sub[k as int] != lb@[k as int]);
                assert(sub != lb@);
                assert(spec_eat_lit(s@, i as int, lit.spec_bytes()) is None);
            }
            return None;
        }
        k += 1;
    }
    proof {
        assert(s@.subrange(i as int, i + m) =~= lb@);
    }
    Some(i + m)
}

fn scan_token(s: &[u8], i: usize) -> (r: usize)
    requires
        i <= s@.len(),
    ensures
        r == spec_scan_token(s@, i as int),
        i <= r <= s@.len(),
{
    let n = s.len();
    let mut cur = i;
    while cur < n && 32 <= s[cur] && s[cur] < 127 && s[cur] != 34 && s[cur] != 92
        invariant
            n == s@.len(),
            i <= cur <= n,
            spec_scan_token(s@, i as int) == spec_scan_token(s@, cur as int),
        decreases n - cur,
    {
        cur += 1;
    }
    cur
}

/// Parse a client text frame against the inbound grammar. Frames
/// outside the grammar yield `None`; the caller answers those with
/// an invalid-payload close.
pub fn parse_client_message(text: &str) -> (r: Option<GatewayMessage>)
    ensures
        match spec_parse_client_frame(text.spec_bytes()) {
            Some(ClientFrameView::Heartbeat) => r matches Some(GatewayMessage::Heartbeat),
            Some(ClientFrameView::Identify { token }) => (r matches Some(
                GatewayMessage::Identify(p),
            ) && p.token@ == token.map_values(|b: u8| b as char)),
            None => r is None,
        },
{
    let s = text.as_bytes();
    let ghost sv = s@;
    let i = skip_ws(s, 0);
    if !(i < s.len() && s[i] == 123) {
        return None;
    }
    let j = skip_ws(s, i + 1);
    let j1 = match eat_lit(s, j, "\"event\"") {
        Some(j1) => j1,
        None => {
            return None;
        },
    };
    let k = skip_ws(s, j1);
    if !(k < s.len() && s[k] == 58) {
        return None;
    }
    let l = skip_ws(s, k + 1);
    match eat_lit(s, l, "\"IDENTIFY\"") {
        Some(l1) => {
            let i2 = skip_ws(s, l1);
            if !(i2 < s.len() && s[i2] == 44) {
                return None;
            }
            let j2 = skip_ws(s, i2 + 1);
            let j3 = match eat_lit(s, j2, "\"data\"") {
                Some(j3) => j3,
                None => {
                    return None;
                },
            };
            let k2 = skip_ws(s, j3);
            if !(k2 < s.len() && s[k2] == 58) {
                return None;
            }
            let l2 = skip_ws(s, k2 + 1);
            if !(l2 < s.len() && s[l2] == 123) {
                return None;
            }
            let m = skip_ws(s, l2 + 1);
            let m1 = match eat_lit(s, m, "\"token\"") {
                Some(m1) => m1,
                None => {
                    return None;
                },
            };
            let p = skip_ws(s, m1);
            if !(p < s.len() && s[p] == 58) {
                return None;
            }
            let q = skip_ws(s, p + 1);
            if !(q < s.len() && s[q] == 34) {
                return None;
            }
            let e = scan_token(s, q + 1);
            if !(e < s.len() && s[e] == 34) {
                return None;
            }
            let t = skip_ws(s, e + 1);
            if !(t < s.len() && s[t] == 125) {
                return None;
            }
            let u = skip_ws(s, t + 1);
            if !(u < s.len() && s[u] == 125) {
                return None;
            }
            if skip_ws(s, u + 1) != s.len() {
                return None;
            }
            // Copy the token bytes out; the scan only accepted
            // printable ASCII.
            let mut token_bytes: Vec<u8> = Vec::new();
            let mut c = q + 1;
            proof {
                assert(spec_scan_token(sv, q + 1) == e);
                lemma_token_bytes_allowed(sv, q + 1);
            }
            while c < e
                invariant
                    q + 1 <= c <= e <= sv.len(),
                    sv == s@,
                    forall|t: int|
                        q + 1 <= t < e ==> is_token_byte(#[trigger] sv[t]),
                    token_bytes@ == sv.subrange(q + 1, c as int),
                decreases e - c,
            {
                token_bytes.push(s[c]);
                proof {
                    assert(token_bytes@ =~= sv.subrange(q + 1, c + 1));
                }
                c += 1;
            }
            let ghost tb = token_bytes@;
            let token = ascii_bytes_to_string(token_bytes);
            proof {
                assert(token@ == tb.map_values(|b: u8| b as char));
            }
            Some(GatewayMessage::Identify(IdentifyPayload { token }))
        },
        None => {
            let l1 = match eat_lit(s, l, "\"HEARTBEAT\"") {
                Some(l1) => l1,
                None => {
                    return None;
                },
            };
            let i2 = skip_ws(s, l1);
            if i2 < s.len() && s[i2] == 125 {
                if skip_ws(s, i2 + 1) == s.len() {
                    return Some(GatewayMessage::Heartbeat);
                }
                return None;
            }
            if !(i2 < s.len() && s[i2] == 44) {
                return None;
            }
            let j2 = skip_ws(s, i2 + 1);
            let j3 = match eat_lit(s, j2, "\"data\"") {
                Some(j3) => j3,
                None => {
                    return None;
                },
            };
            let k2 = skip_ws(s, j3);
            if !(k2 < s.len() && s[k2] == 58) {
                return None;
            }
            let l2 = skip_ws(s, k2 + 1);
            let l3 = match eat_lit(s, l2, "null") {
                Some(l3) => l3,
                None => {
                    return None;
                },
            };
            let m = skip_ws(s, l3);
            if !(m < s.len() && s[m] == 125) {
                return None;
            }
            if skip_ws(s, m + 1) == s.len() {
                return Some(GatewayMessage::Heartbeat);
            }
            None
        },
    }
}

/// Every byte the token scan ran over is a token byte.
proof fn lemma_token_bytes_allowed(s: Seq<u8>, i: int)
    requires
        0 <= i <= s.len(),
    ensures
        forall|t: int| i <= t < spec_scan_token(s, i) ==> is_token_byte(#[trigger] s[t]),
    decreases s.len() - i,
{
    if i < s.len() && is_token_byte(s[i]) {
        lemma_token_bytes_allowed(s, i + 1);
    }
}

} // verus!
