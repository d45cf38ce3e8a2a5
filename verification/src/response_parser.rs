//! Line framer and grammar dispatcher: reassembles a chunked byte stream
//! into delimiter-terminated lines, and decodes each framed line into one
//! typed message or a recoverable decode error.

use vstd::prelude::*;

verus! {

use crate::message::DecodeError;
use crate::message::DecodeErrorKind;
use crate::message::IrcCommand;
use crate::message::IrcCommandName;
use crate::message::IrcCommandView;
use crate::message::IrcMessage;
use crate::message::IrcMessageView;
use crate::message::JoinParameters;
use crate::message::JoinParametersView;
use crate::message::Channel;
use crate::message::Nickname;
use crate::message::PrivateMessageParameters;
use crate::message::PrivateMessageParametersView;
use crate::message::ReplyCreatedParams;
use crate::message::ReplyCreatedParamsView;
use crate::message::ReplyISupportParams;
use crate::message::ReplyISupportParamsView;
use crate::message::ReplyListChannelsParams;
use crate::message::ReplyListChannelsParamsView;
use crate::message::ReplyListClientUsersParams;
use crate::message::ReplyListClientUsersParamsView;
use crate::message::ReplyListOperatorUsersParams;
use crate::message::ReplyListOperatorUsersParamsView;
use crate::message::ReplyListUnknownUsersParams;
use crate::message::ReplyListUnknownUsersParamsView;
use crate::message::ReplyListUserMeParams;
use crate::message::ReplyListUserMeParamsView;
use crate::message::ReplyMyInfoParams;
use crate::message::ReplyMyInfoParamsView;
use crate::message::ReplyWelcomeParams;
use crate::message::ReplyWelcomeParamsView;
use crate::message::ReplyYourHostParams;
use crate::message::ReplyYourHostParamsView;
use crate::message::User;
use crate::message::UserOrChannel;
use crate::message::spec_command_name;
use crate::text::str_contains_char;
use crate::text::utf8_to_string;
use crate::tokenizer::Tokenizer;
use crate::tokenizer::find_char_from;
use crate::tokenizer::find_first_delim;
use crate::tokenizer::find_sub_from;
use crate::tokenizer::lemma_find_char_from;
use crate::tokenizer::match_at;
use crate::tokenizer::views_of;
use vstd::string::*;
use vstd::utf8::decode_utf8;
use vstd::utf8::decode_utf8_encode_utf8;
use vstd::utf8::valid_utf8;

// ---------------------------------------------------------------------------
// Framing: the byte-level line delimiter.
// ---------------------------------------------------------------------------
/// True when the two-byte line delimiter (carriage return, line feed) stands
/// in `b` at position `k`.
pub open spec fn is_crlf_at(b: Seq<u8>, k: int) -> bool {
    &&& 0 <= k
    &&& k + 2 <= b.len()
    &&& b[k] == 13
    &&& b[k + 1] == 10
}

/// First position at or after `from` where the line delimiter stands in `b`.
pub open spec fn find_crlf_from(b: Seq<u8>, from: int) -> Option<int>
    decreases b.len() - from,
{
    if from < 0 || from + 2 > b.len() {
        None
    } else if is_crlf_at(b, from) {
        Some(from)
    } else {
        find_crlf_from(b, from + 1)
    }
}

/// What `find_crlf_from` returns: the first delimiter position, or nothing.
pub proof fn lemma_find_crlf_from(b: Seq<u8>, from: int)
    requires
        0 <= from,
    ensures
        (match find_crlf_from(b, from) {
            Some(p) => from <= p && is_crlf_at(b, p) && (forall|k: int|
                from <= k < p ==> !is_crlf_at(b, k)),
            None => forall|k: int| from <= k ==> !is_crlf_at(b, k),
        }),
    decreases b.len() - from,
{
    if from + 2 <= b.len() && !is_crlf_at(b, from) {
        lemma_find_crlf_from(b, from + 1);
    }
}

proof fn lemma_find_crlf_from_exact_rec(b: Seq<u8>, i: int, p: int)
    requires
        0 <= i <= p,
        is_crlf_at(b, p),
        forall|k: int| i <= k < p ==> !is_crlf_at(b, k),
    ensures
        find_crlf_from(b, i) == Some(p),
    decreases p - i,
{
    if i < p {
        lemma_find_crlf_from_exact_rec(b, i + 1, p);
    }
}

/// Converse direction: a delimiter at `p` with none before it is what
/// `find_crlf_from` finds.
pub proof fn lemma_find_crlf_from_exact(b: Seq<u8>, p: int)
    requires
        is_crlf_at(b, p),
        forall|k: int| 0 <= k < p ==> !is_crlf_at(b, k),
    ensures
        find_crlf_from(b, 0) == Some(p),
{
    lemma_find_crlf_from_exact_rec(b, 0, p);
}

// ---------------------------------------------------------------------------
// The grammar, stated over character sequences.
// ---------------------------------------------------------------------------
/// The line delimiter as characters.
pub open spec fn crlf_chars() -> Seq<char> {
    seq!['\r', '\n']
}

/// The delimiters that end a positional field: a space, or the line
/// delimiter.
pub open spec fn field_delims() -> Seq<Seq<char>> {
    seq![seq![' '], crlf_chars()]
}

/// The fixed sentinel phrase that ends a capability list.
pub open spec fn spec_sentinel() -> Seq<char> {
    ":are supported by this server"@
}

/// One space-delimited token starting at `i`: the text before the next
/// space, and the position just after that space.
pub open spec fn spec_token(s: Seq<char>, i: int) -> Option<(Seq<char>, int)> {
    match find_char_from(s, i, ' ') {
        None => None,
        Some(j) => Some((s.subrange(i, j), j + 1)),
    }
}

/// One positional field starting at `i`: the text before the next space or
/// line delimiter, whichever comes first, and the position just after the
/// matched delimiter.
pub open spec fn spec_field(s: Seq<char>, i: int) -> Option<(Seq<char>, int)> {
    match find_first_delim(s, i, field_delims()) {
        None => None,
        Some((p, l)) => Some((s.subrange(i, p), p + l)),
    }
}

/// The optional origin prefix: present when the line starts with ':', and
/// then running to the next space.
pub open spec fn spec_origin(s: Seq<char>) -> Result<(Option<Seq<char>>, int), DecodeErrorKind> {
    if s.len() > 0 && s[0] == ':' {
        match spec_token(s, 1) {
            None => Err(DecodeErrorKind::MissingField),
            Some((o, i)) => Ok((Some(o), i)),
        }
    } else {
        Ok((None, 0))
    }
}

/// The trailing free-text message: an optional leading ':' is consumed, and
/// the text up to the line delimiter is taken verbatim.
pub open spec fn spec_trailing(s: Seq<char>, i: int) -> Result<(Seq<char>, int), DecodeErrorKind> {
    let j = if 0 <= i < s.len() && s[i] == ':' {
        i + 1
    } else {
        i
    };
    match find_sub_from(s, j, crlf_chars()) {
        None => Err(DecodeErrorKind::MissingField),
        Some(p) => Ok((s.subrange(j, p), p + 2)),
    }
}

/// True when `c` is a decimal digit.
pub open spec fn is_dec_digit(c: char) -> bool {
    48 <= c as u32 <= 57
}

/// True when every character of `s` is a decimal digit.
pub open spec fn all_dec_digits(s: Seq<char>) -> bool {
    forall|k: int| 0 <= k < s.len() ==> is_dec_digit(#[trigger] s[k])
}

/// The base-10 value of `s` read as digits, most significant first.
pub open spec fn dec_val(s: Seq<char>) -> int
    decreases s.len(),
{
    if s.len() == 0 {
        0
    } else {
        dec_val(s.drop_last()) * 10 + (s.last() as u32 - 48)
    }
}

/// A count field: the token before the next space, read as a base-10
/// non-negative number that fits the native word.
pub open spec fn spec_count(s: Seq<char>, i: int) -> Result<(int, int), DecodeErrorKind> {
    match spec_token(s, i) {
        None => Err(DecodeErrorKind::MissingField),
        Some((tok, j)) => if tok.len() > 0 && all_dec_digits(tok) && dec_val(tok) <= usize::MAX {
            Ok((dec_val(tok), j))
        } else {
            Err(DecodeErrorKind::InvalidNumber)
        },
    }
}

/// A nickname and then a trailing message: the common shape of many replies.
pub open spec fn spec_nick_msg(s: Seq<char>, i: int) -> Result<
    (Seq<char>, Seq<char>, int),
    DecodeErrorKind,
> {
    match spec_token(s, i) {
        None => Err(DecodeErrorKind::MissingField),
        Some((nick, j)) => match spec_trailing(s, j) {
            Err(k) => Err(k),
            Ok((msg, end)) => Ok((nick, msg, end)),
        },
    }
}

/// A nickname, a count, and then a trailing message.
pub open spec fn spec_nick_count_msg(s: Seq<char>, i: int) -> Result<
    (Seq<char>, int, Seq<char>, int),
    DecodeErrorKind,
> {
    match spec_token(s, i) {
        None => Err(DecodeErrorKind::MissingField),
        Some((nick, j)) => match spec_count(s, j) {
            Err(k) => Err(k),
            Ok((v, j2)) => match spec_trailing(s, j2) {
                Err(k) => Err(k),
                Ok((msg, end)) => Ok((nick, v, msg, end)),
            },
        },
    }
}

/// The server-info grammar: nickname, server name, version, user modes,
/// channel modes, and an optional channel-modes-with-parameters field that
/// is absent when the line ends after the channel modes.
pub open spec fn spec_my_info(s: Seq<char>, i: int) -> Result<
    ReplyMyInfoParamsView,
    DecodeErrorKind,
> {
    match spec_token(s, i) {
        None => Err(DecodeErrorKind::MissingField),
        Some((nick, i1)) => match spec_token(s, i1) {
            None => Err(DecodeErrorKind::MissingField),
            Some((server, i2)) => match spec_token(s, i2) {
                None => Err(DecodeErrorKind::MissingField),
                Some((version, i3)) => match spec_token(s, i3) {
                    None => Err(DecodeErrorKind::MissingField),
                    Some((umodes, i4)) => match spec_field(s, i4) {
                        None => Err(DecodeErrorKind::MissingField),
                        Some((cmodes, i5)) => Ok(
                            ReplyMyInfoParamsView {
                                nick,
                                server_name: server,
                                version,
                                available_user_modes: umodes,
                                available_channel_modes: cmodes,
                                channel_modes_with_params: match spec_field(s, i5) {
                                    None => None,
                                    Some((params, _i6)) => Some(params),
                                },
                            },
                        ),
                    },
                },
            },
        },
    }
}

/// The capability-list grammar: space-delimited tokens collected until one
/// begins with ':', which must open the fixed sentinel phrase; the list also
/// ends if the line is exhausted.
pub open spec fn spec_isupport_entries(s: Seq<char>, i: int) -> Result<
    (Seq<Seq<char>>, int),
    DecodeErrorKind,
>
    decreases s.len() - i,
    when 0 <= i <= s.len()
    via spec_isupport_entries_dec
{
    match spec_token(s, i) {
        None => Err(DecodeErrorKind::MissingField),
        Some((tok, j)) => if j >= s.len() {
            Ok((seq![tok], j))
        } else if s[j] == ':' {
            if match_at(s, j, spec_sentinel()) {
                Ok((seq![tok], j + spec_sentinel().len()))
            } else {
                Err(DecodeErrorKind::MissingSentinel)
            }
        } else {
            match spec_isupport_entries(s, j) {
                Err(k) => Err(k),
                Ok((rest, end)) => Ok((seq![tok].add(rest), end)),
            }
        },
    }
}

#[via_fn]
proof fn spec_isupport_entries_dec(s: Seq<char>, i: int) {
    lemma_find_char_from(s, i, ' ');
}

/// The capability-advertisement grammar: a nickname, then the capability
/// list.
pub open spec fn spec_isupport(s: Seq<char>, i: int) -> Result<
    ReplyISupportParamsView,
    DecodeErrorKind,
> {
    match spec_token(s, i) {
        None => Err(DecodeErrorKind::MissingField),
        Some((nick, j)) => match spec_isupport_entries(s, j) {
            Err(k) => Err(k),
            Ok((entries, _end)) => Ok(ReplyISupportParamsView { nick, entries }),
        },
    }
}

/// The JOIN grammar: the rest of the line is a single channel name; a space
/// in it means several channels, which a server-originated line must not
/// carry.
pub open spec fn spec_join(s: Seq<char>, i: int) -> Result<JoinParametersView, DecodeErrorKind> {
    match find_sub_from(s, i, crlf_chars()) {
        None => Err(DecodeErrorKind::MissingField),
        Some(p) => {
            let chan = s.subrange(i, p);
            if exists|k: int| 0 <= k < chan.len() && chan[k] == ' ' {
                Err(DecodeErrorKind::MalformedJoin)
            } else {
                Ok(JoinParametersView { channel: chan })
            }
        },
    }
}

/// The private-message and notice grammar: sender, recipient, and then a
/// trailing message.
pub open spec fn spec_privmsg(s: Seq<char>, i: int) -> Result<
    PrivateMessageParametersView,
    DecodeErrorKind,
> {
    match spec_token(s, i) {
        None => Err(DecodeErrorKind::MissingField),
        Some((sender, i1)) => match spec_token(s, i1) {
            None => Err(DecodeErrorKind::MissingField),
            Some((recipient, i2)) => match spec_trailing(s, i2) {
                Err(k) => Err(k),
                Ok((msg, _end)) => Ok(
                    PrivateMessageParametersView { sender, recipient, message: msg },
                ),
            },
        },
    }
}

/// The grammar routine for one resolved command kind, reading fields from
/// position `i`.
#[verifier::opaque]
pub open spec fn spec_command(name: IrcCommandName, s: Seq<char>, i: int) -> Result<
    IrcCommandView,
    DecodeErrorKind,
> {
    match name {
        IrcCommandName::ReplyWelcome => match spec_nick_msg(s, i) {
            Err(k) => Err(k),
            Ok((nick, msg, _end)) => Ok(
                IrcCommandView::ReplyWelcome(ReplyWelcomeParamsView { nick, message: msg }),
            ),
        },
        IrcCommandName::ReplyYourHost => match spec_nick_msg(s, i) {
            Err(k) => Err(k),
            Ok((nick, msg, _end)) => Ok(
                IrcCommandView::ReplyYourHost(ReplyYourHostParamsView { nick, message: msg }),
            ),
        },
        IrcCommandName::ReplyCreated => match spec_nick_msg(s, i) {
            Err(k) => Err(k),
            Ok((nick, msg, _end)) => Ok(
                IrcCommandView::ReplyCreated(ReplyCreatedParamsView { nick, message: msg }),
            ),
        },
        IrcCommandName::ReplyMyInfo => match spec_my_info(s, i) {
            Err(k) => Err(k),
            Ok(v) => Ok(IrcCommandView::ReplyMyInfo(v)),
        },
        IrcCommandName::ReplyISupport => match spec_isupport(s, i) {
            Err(k) => Err(k),
            Ok(v) => Ok(IrcCommandView::ReplyISupport(v)),
        },
        IrcCommandName::ReplyListClientUsers => match spec_nick_msg(s, i) {
            Err(k) => Err(k),
            Ok((nick, msg, _end)) => Ok(
                IrcCommandView::ReplyListClientUsers(
                    ReplyListClientUsersParamsView { nick, message: msg },
                ),
            ),
        },
        IrcCommandName::ReplyListOperatorUsers => match spec_nick_count_msg(s, i) {
            Err(k) => Err(k),
            Ok((nick, v, msg, _end)) => Ok(
                IrcCommandView::ReplyListOperatorUsers(
                    ReplyListOperatorUsersParamsView {
                        nickname: nick,
                        operator_count: v as nat,
                        message: msg,
                    },
                ),
            ),
        },
        IrcCommandName::ReplyListUnknownUsers => match spec_nick_count_msg(s, i) {
            Err(k) => Err(k),
            Ok((nick, v, msg, _end)) => Ok(
                IrcCommandView::ReplyListUnknownUsers(
                    ReplyListUnknownUsersParamsView {
                        nickname: nick,
                        unknown_user_count: v as nat,
                        message: msg,
                    },
                ),
            ),
        },
        IrcCommandName::ReplyListChannels => match spec_nick_count_msg(s, i) {
            Err(k) => Err(k),
            Ok((nick, v, msg, _end)) => Ok(
                IrcCommandView::ReplyListChannels(
                    ReplyListChannelsParamsView {
                        nickname: nick,
                        channel_count: v as nat,
                        message: msg,
                    },
                ),
            ),
        },
        IrcCommandName::ReplyListUserMe => match spec_nick_msg(s, i) {
            Err(k) => Err(k),
            Ok((nick, msg, _end)) => Ok(
                IrcCommandView::ReplyListUserMe(ReplyListUserMeParamsView { nick, message: msg }),
            ),
        },
        IrcCommandName::Join => match spec_join(s, i) {
            Err(k) => Err(k),
            Ok(v) => Ok(IrcCommandView::Join(v)),
        },
        IrcCommandName::PrivateMessage => match spec_privmsg(s, i) {
            Err(k) => Err(k),
            Ok(v) => Ok(IrcCommandView::PrivateMessage(v)),
        },
        IrcCommandName::Notice => match spec_privmsg(s, i) {
            Err(k) => Err(k),
            Ok(v) => Ok(IrcCommandView::Notice(v)),
        },
    }
}

/// The head of a line: the optional origin, then the command token resolved
/// against the lookup table, and the position where the fields begin.
#[verifier::opaque]
pub open spec fn spec_prelude(s: Seq<char>) -> Result<
    (Option<Seq<char>>, IrcCommandName, int),
    DecodeErrorKind,
> {
    match spec_origin(s) {
        Err(k) => Err(k),
        Ok((origin, i0)) => match spec_token(s, i0) {
            None => Err(DecodeErrorKind::MissingField),
            Some((tok, i1)) => match spec_command_name(tok) {
                None => Err(DecodeErrorKind::UnrecognizedCommand),
                Some(name) => Ok((origin, name, i1)),
            },
        },
    }
}

/// One whole line parsed: the optional origin, the resolved command kind,
/// and the command's fields, or the reason the line is rejected.
pub open spec fn spec_parse_message(s: Seq<char>) -> Result<IrcMessageView, DecodeErrorKind> {
    match spec_prelude(s) {
        Err(k) => Err(k),
        Ok((origin, name, i1)) => match spec_command(name, s, i1) {
            Err(k) => Err(k),
            Ok(cmd) => Ok(IrcMessageView { origin, command_name: name, command: cmd }),
        },
    }
}

/// One framed line decoded end to end: the bytes must be valid text, and the
/// text must parse.
pub open spec fn spec_decode_line(bytes: Seq<u8>) -> Result<IrcMessageView, DecodeErrorKind> {
    if valid_utf8(bytes) {
        spec_parse_message(decode_utf8(bytes))
    } else {
        Err(DecodeErrorKind::InvalidEncoding)
    }
}

// ---------------------------------------------------------------------------
// Laws of the framer and the dispatcher.
// ---------------------------------------------------------------------------
/// Every result that draining a buffer to exhaustion yields, in order: one
/// per complete framed line.
pub open spec fn spec_drain(b: Seq<u8>) -> Seq<Result<IrcMessageView, DecodeErrorKind>>
    decreases b.len(),
    via spec_drain_dec
{
    match find_crlf_from(b, 0) {
        None => seq![],
        Some(p) => seq![spec_decode_line(b.subrange(0, p + 2))].add(
            spec_drain(b.subrange(p + 2, b.len() as int)),
        ),
    }
}

#[via_fn]
proof fn spec_drain_dec(b: Seq<u8>) {
    lemma_find_crlf_from(b, 0);
}

/// The buffer contents after ingesting the chunks one after another.
pub open spec fn ingest_all(buf: Seq<u8>, chunks: Seq<Seq<u8>>) -> Seq<u8>
    decreases chunks.len(),
{
    if chunks.len() == 0 {
        buf
    } else {
        ingest_all(buf + chunks[0], chunks.drop_first())
    }
}

/// Framing idempotence: ingesting a byte stream in one call and ingesting
/// the same bytes split into arbitrarily many smaller chunks leave the
/// framer holding the same bytes, and hence draining the same ordered
/// message sequence.
pub proof fn lemma_framing_idempotence(buf: Seq<u8>, chunks: Seq<Seq<u8>>)
    ensures
        ingest_all(buf, chunks) == buf + chunks.flatten(),
        spec_drain(ingest_all(buf, chunks)) == spec_drain(buf + chunks.flatten()),
    decreases chunks.len(),
{
    if chunks.len() == 0 {
        assert(chunks.flatten() =~= Seq::<u8>::empty());
        assert(buf + chunks.flatten() =~= buf);
    } else {
        lemma_framing_idempotence(buf + chunks[0], chunks.drop_first());
        assert(chunks.first() == chunks[0]);
        assert((buf + chunks[0]) + chunks.drop_first().flatten() =~= buf + chunks.flatten());
    }
}

/// One well-formed frame: at least the delimiter, which stands at the end
/// and nowhere earlier.
pub open spec fn is_frame(l: Seq<u8>) -> bool {
    l.len() >= 2 && find_crlf_from(l, 0) == Some(l.len() - 2)
}

proof fn lemma_find_crlf_concat(l: Seq<u8>, t: Seq<u8>)
    requires
        is_frame(l),
    ensures
        find_crlf_from(l + t, 0) == Some(l.len() - 2),
{
    lemma_find_crlf_from(l, 0);
    let b = l + t;
    assert(b[l.len() - 2] == l[l.len() - 2]);
    assert(b[l.len() - 1] == l[l.len() - 1]);
    assert(is_crlf_at(b, l.len() - 2));
    assert forall|k: int| 0 <= k < l.len() - 2 implies !is_crlf_at(b, k) by {
        assert(b[k] == l[k]);
        assert(b[k + 1] == l[k + 1]);
        assert(!is_crlf_at(l, k));
    }
    lemma_find_crlf_from_exact(b, l.len() - 2);
}

/// First-in first-out ordering: draining a buffer that holds exactly the
/// concatenation of N well-formed frames yields exactly N results, the
/// decode of each frame, in their original order.
pub proof fn lemma_fifo_ordering(lines: Seq<Seq<u8>>)
    requires
        forall|k: int| 0 <= k < lines.len() ==> is_frame(#[trigger] lines[k]),
    ensures
        spec_drain(lines.flatten()) == lines.map_values(|l: Seq<u8>| spec_decode_line(l)),
    decreases lines.len(),
{
    if lines.len() == 0 {
        assert(lines.flatten() =~= Seq::<u8>::empty());
        assert(spec_drain(lines.flatten()) =~= lines.map_values(
            |l: Seq<u8>| spec_decode_line(l),
        ));
    } else {
        let l0 = lines[0];
        let rest = lines.drop_first();
        let b = lines.flatten();
        assert(lines.first() == l0);
        assert(b == l0 + rest.flatten());
        lemma_find_crlf_concat(l0, rest.flatten());
        assert(b.subrange(0, l0.len() as int) =~= l0);
        assert(b.subrange(l0.len() as int, b.len() as int) =~= rest.flatten());
        assert(forall|k: int| 0 <= k < rest.len() ==> is_frame(#[trigger] rest[k]));
        lemma_fifo_ordering(rest);
        assert(spec_drain(b) =~= lines.map_values(|l: Seq<u8>| spec_decode_line(l)));
    }
}

/// Tag and variant consistency: every successfully parsed line carries a
/// parameter record whose variant agrees with the resolved command kind.
pub proof fn lemma_tag_variant_consistency(line: Seq<char>)
    ensures
        (spec_parse_message(line) matches Ok(m) ==> m.command_name == m.command.name()),
{
    reveal(spec_command);
}

// ---------------------------------------------------------------------------
// Verified base-10 parsing.
// ---------------------------------------------------------------------------
proof fn lemma_dec_val_snoc(s: Seq<char>, i: int)
    requires
        0 <= i < s.len(),
    ensures
        dec_val(s.subrange(0, i + 1)) == dec_val(s.subrange(0, i)) * 10 + (s[i] as u32 - 48),
{
    let t = s.subrange(0, i + 1);
    assert(t.drop_last() =~= s.subrange(0, i));
    assert(t.last() == s[i]);
}

proof fn lemma_dec_val_grows(s: Seq<char>, i: int)
    requires
        0 <= i <= s.len(),
        dec_val(s.subrange(0, i)) > 100,
    ensures
        dec_val(s.subrange(0, s.len() as int)) >= dec_val(s.subrange(0, i)),
    decreases s.len() - i,
{
    if i < s.len() {
        lemma_dec_val_snoc(s, i);
        assert(s[i] as u32 >= 0);
        lemma_dec_val_grows(s, i + 1);
    }
}

/// Reads a string as a base-10 non-negative number. Rejects an empty
/// string, any non-digit character, and a value that does not fit the
/// native word.
pub fn str_to_usize(s: &str) -> (r: Result<usize, DecodeErrorKind>)
    ensures
        (if s@.len() > 0 && all_dec_digits(s@) && dec_val(s@) <= usize::MAX {
            r matches Ok(n) && n as int == dec_val(s@)
        } else {
            r matches Err(k) && k == DecodeErrorKind::InvalidNumber
        }),
{
    let n = s.unicode_len();
    if n == 0 {
        return Err(DecodeErrorKind::InvalidNumber);
    }
    let mut acc: usize = 0;
    let mut i: usize = 0;
    while i < n
        invariant
            n == s@.len(),
            i <= n,
            all_dec_digits(s@.subrange(0, i as int)),
            acc as int == dec_val(s@.subrange(0, i as int)),
        decreases n - i,
    {
        let c = s.get_char(i);
        let u = c as u32;
        if u < 48 || u > 57 {
            return Err(DecodeErrorKind::InvalidNumber);
        }
        let d = (u - 48) as usize;
        proof {
            lemma_dec_val_snoc(s@, i as int);
        }
        if acc > (usize::MAX - d) / 10 {
            proof {
                assert(acc * 10 + d > usize::MAX) by (nonlinear_arith)
                    requires
                        acc > (usize::MAX - d) / 10,
                        0 <= d <= 9,
                ;
                lemma_dec_val_grows(s@, i as int + 1);
                assert(s@.subrange(0, s@.len() as int) =~= s@);
            }
            return Err(DecodeErrorKind::InvalidNumber);
        }
        proof {
            assert(acc * 10 + d <= usize::MAX) by (nonlinear_arith)
                requires
                    acc <= (usize::MAX - d) / 10,
                    0 <= d <= 9,
            ;
        }
        acc = acc * 10 + d;
        proof {
            assert(all_dec_digits(s@.subrange(0, i as int + 1))) by {
                assert(forall|k: int|
                    0 <= k < i as int + 1 ==> #[trigger] s@.subrange(0, i as int + 1)[k] == s@[k]);
            }
        }
        i += 1;
    }
    proof {
        assert(s@.subrange(0, n as int) =~= s@);
    }
    Ok(acc)
}

// ---------------------------------------------------------------------------
// The decoder itself.
// ---------------------------------------------------------------------------
/// Owns the not-yet-framed bytes of one connection's incoming stream.
pub struct ResponseParser {
    buffered_data: Vec<u8>,
}

impl View for ResponseParser {
    type V = Seq<u8>;

    closed spec fn view(&self) -> Seq<u8> {
        self.buffered_data@
    }
}

impl ResponseParser {
    pub fn new() -> (r: ResponseParser)
        ensures
            r@ == Seq::<u8>::empty(),
    {
        ResponseParser { buffered_data: Vec::new() }
    }

    /// Appends a chunk of raw transport bytes; no parsing happens here.
    pub fn ingest(&mut self, data: &[u8])
        ensures
            final(self)@ == old(self)@ + data@,
    {
        self.buffered_data.extend_from_slice(data);
    }

    /// The nickname field: the token before the next space.
    pub fn parse_nickname(tokenizer: &mut Tokenizer) -> (r: Result<Nickname, DecodeErrorKind>)
        requires
            old(tokenizer).wf(),
        ensures
            final(tokenizer).wf(),
            final(tokenizer).text() == old(tokenizer).text(),
            (match spec_token(old(tokenizer).text(), old(tokenizer).pos()) {
                Some((tok, j)) => r matches Ok(n) && n@ == tok && final(tokenizer).pos() == j,
                None => r matches Err(k) && k == DecodeErrorKind::MissingField,
            }),
    {
        match tokenizer.read_to(' ') {
            Some(t) => Ok(Nickname(t)),
            None => Err(DecodeErrorKind::MissingField),
        }
    }

    /// The trailing free-text message: an optional leading ':' is consumed,
    /// and the rest of the line before the delimiter is taken verbatim.
    pub fn parse_trailing_message(tokenizer: &mut Tokenizer) -> (r: Result<
        String,
        DecodeErrorKind,
    >)
        requires
            old(tokenizer).wf(),
        ensures
            final(tokenizer).wf(),
            final(tokenizer).text() == old(tokenizer).text(),
            (match spec_trailing(old(tokenizer).text(), old(tokenizer).pos()) {
                Ok((msg, end)) => r matches Ok(m) && m@ == msg && final(tokenizer).pos() == end,
                Err(k) => r matches Err(k2) && k2 == k,
            }),
    {
        match tokenizer.peek() {
            Some(c) if c == ':' => {
                proof {
                    reveal_strlit(":");
                    assert(old(tokenizer).text().subrange(
                        old(tokenizer).pos(),
                        old(tokenizer).pos() + 1,
                    ) =~= ":"@);
                }
                tokenizer.match_str(":");
            },
            _ => {},
        }
        proof {
            reveal_strlit("\r\n");
            assert("\r\n"@ =~= crlf_chars());
        }
        match tokenizer.read_to_str("\r\n") {
            Some(m) => Ok(m),
            None => Err(DecodeErrorKind::MissingField),
        }
    }

    /// A count field: the token before the next space read as a base-10
    /// number.
    pub fn parse_usize(tokenizer: &mut Tokenizer) -> (r: Result<usize, DecodeErrorKind>)
        requires
            old(tokenizer).wf(),
        ensures
            final(tokenizer).wf(),
            final(tokenizer).text() == old(tokenizer).text(),
            (match spec_count(old(tokenizer).text(), old(tokenizer).pos()) {
                Ok((v, j)) => r matches Ok(n) && n as int == v && final(tokenizer).pos() == j,
                Err(k) => r matches Err(k2) && k2 == k,
            }),
    {
        let tok = match tokenizer.read_to(' ') {
            None => {
                return Err(DecodeErrorKind::MissingField);
            },
            Some(t) => t,
        };
        str_to_usize(tok.as_str())
    }

    /// A nickname and then a trailing message: the shape shared by many
    /// replies.
    fn parse_nick_msg(tokenizer: &mut Tokenizer) -> (r: Result<
        (Nickname, String),
        DecodeErrorKind,
    >)
        requires
            old(tokenizer).wf(),
        ensures
            final(tokenizer).wf(),
            final(tokenizer).text() == old(tokenizer).text(),
            (match spec_nick_msg(old(tokenizer).text(), old(tokenizer).pos()) {
                Ok((nick, msg, end)) => r matches Ok(p) && p.0@ == nick && p.1@ == msg
                    && final(tokenizer).pos() == end,
                Err(k) => r matches Err(k2) && k2 == k,
            }),
    {
        let nick = match Self::parse_nickname(tokenizer) {
            Err(k) => {
                return Err(k);
            },
            Ok(n) => n,
        };
        let message = match Self::parse_trailing_message(tokenizer) {
            Err(k) => {
                return Err(k);
            },
            Ok(m) => m,
        };
        Ok((nick, message))
    }

    /// A nickname, a count, and then a trailing message.
    fn parse_nick_count_msg(tokenizer: &mut Tokenizer) -> (r: Result<
        (Nickname, usize, String),
        DecodeErrorKind,
    >)
        requires
            old(tokenizer).wf(),
        ensures
            final(tokenizer).wf(),
            final(tokenizer).text() == old(tokenizer).text(),
            (match spec_nick_count_msg(old(tokenizer).text(), old(tokenizer).pos()) {
                Ok((nick, v, msg, end)) => r matches Ok(p) && p.0@ == nick && p.1 as int == v
                    && p.2@ == msg && final(tokenizer).pos() == end,
                Err(k) => r matches Err(k2) && k2 == k,
            }),
    {
        let nick = match Self::parse_nickname(tokenizer) {
            Err(k) => {
                return Err(k);
            },
            Ok(n) => n,
        };
        let count = match Self::parse_usize(tokenizer) {
            Err(k) => {
                return Err(k);
            },
            Ok(c) => c,
        };
        let message = match Self::parse_trailing_message(tokenizer) {
            Err(k) => {
                return Err(k);
            },
            Ok(m) => m,
        };
        Ok((nick, count, message))
    }

    /// Reads the optional origin prefix, then resolves the command token
    /// against the fixed lookup table.
    fn parse_prelude(tokenizer: &mut Tokenizer) -> (r: Result<
        (Option<String>, IrcCommandName),
        DecodeErrorKind,
    >)
        requires
            old(tokenizer).wf(),
            old(tokenizer).pos() == 0,
        ensures
            final(tokenizer).wf(),
            final(tokenizer).text() == old(tokenizer).text(),
            (match spec_prelude(old(tokenizer).text()) {
                Ok((origin, name, i1)) => r matches Ok(p) && p.0.deep_view() == origin && p.1
                    == name && final(tokenizer).pos() == i1,
                Err(k) => r matches Err(k2) && k2 == k,
            }),
    {
        proof {
            reveal(spec_prelude);
        }
        let origin: Option<String> = match tokenizer.peek() {
            Some(c) if c == ':' => {
                proof {
                    reveal_strlit(":");
                    assert(tokenizer.text().subrange(0, 1) =~= ":"@);
                }
                tokenizer.match_str(":");
                match tokenizer.read_to(' ') {
                    None => {
                        return Err(DecodeErrorKind::MissingField);
                    },
                    Some(o) => Some(o),
                }
            },
            _ => None,
        };
        let raw_command = match tokenizer.read_to(' ') {
            None => {
                return Err(DecodeErrorKind::MissingField);
            },
            Some(t) => t,
        };
        match IrcCommandName::from_token(raw_command.as_str()) {
            None => Err(DecodeErrorKind::UnrecognizedCommand),
            Some(n) => Ok((origin, n)),
        }
    }

    /// Decodes one framed line, delimiter still attached, into a typed
    /// message, or the reason the line is rejected.
    pub fn parse_line(line: &str) -> (r: Result<IrcMessage, DecodeErrorKind>)
        ensures
            (match spec_parse_message(line@) {
                Ok(m) => r matches Ok(msg) && msg@ == m && msg.wf(),
                Err(k) => r matches Err(k2) && k2 == k,
            }),
    {
        let mut tokenizer = Tokenizer::new(line);
        let (origin, name) = match Self::parse_prelude(&mut tokenizer) {
            Err(k) => {
                return Err(k);
            },
            Ok(p) => p,
        };
        match name {
            IrcCommandName::ReplyWelcome => match parse_welcome_command(&mut tokenizer) {
                Err(k) => Err(k),
                Ok(command) => Ok(IrcMessage::new(origin, name, command)),
            },
            IrcCommandName::ReplyYourHost => match parse_your_host_command(&mut tokenizer) {
                Err(k) => Err(k),
                Ok(command) => Ok(IrcMessage::new(origin, name, command)),
            },
            IrcCommandName::ReplyCreated => match parse_created_command(&mut tokenizer) {
                Err(k) => Err(k),
                Ok(command) => Ok(IrcMessage::new(origin, name, command)),
            },
            IrcCommandName::ReplyMyInfo => match parse_my_info_command(&mut tokenizer) {
                Err(k) => Err(k),
                Ok(command) => Ok(IrcMessage::new(origin, name, command)),
            },
            IrcCommandName::ReplyISupport => match parse_isupport_command(&mut tokenizer) {
                Err(k) => Err(k),
                Ok(command) => Ok(IrcMessage::new(origin, name, command)),
            },
            IrcCommandName::ReplyListClientUsers => match parse_list_client_users_command(
                &mut tokenizer,
            ) {
                Err(k) => Err(k),
                Ok(command) => Ok(IrcMessage::new(origin, name, command)),
            },
            IrcCommandName::ReplyListOperatorUsers => match parse_list_operator_users_command(
                &mut tokenizer,
            ) {
                Err(k) => Err(k),
                Ok(command) => Ok(IrcMessage::new(origin, name, command)),
            },
            IrcCommandName::ReplyListUnknownUsers => match parse_list_unknown_users_command(
                &mut tokenizer,
            ) {
                Err(k) => Err(k),
                Ok(command) => Ok(IrcMessage::new(origin, name, command)),
            },
            IrcCommandName::ReplyListChannels => match parse_list_channels_command(
                &mut tokenizer,
            ) {
                Err(k) => Err(k),
                Ok(command) => Ok(IrcMessage::new(origin, name, command)),
            },
            IrcCommandName::ReplyListUserMe => match parse_list_user_me_command(&mut tokenizer) {
                Err(k) => Err(k),
                Ok(command) => Ok(IrcMessage::new(origin, name, command)),
            },
            IrcCommandName::Join => match parse_join_command(&mut tokenizer) {
                Err(k) => Err(k),
                Ok(command) => Ok(IrcMessage::new(origin, name, command)),
            },
            IrcCommandName::PrivateMessage => match parse_private_message_command(&mut tokenizer) {
                Err(k) => Err(k),
                Ok(command) => Ok(IrcMessage::new(origin, name, command)),
            },
            IrcCommandName::Notice => match parse_notice_command(&mut tokenizer) {
                Err(k) => Err(k),
                Ok(command) => Ok(IrcMessage::new(origin, name, command)),
            },
        }
    }

    /// Frames the next buffered line and decodes it. Nothing when no full
    /// line is buffered — the buffer is then byte-for-byte unchanged. A
    /// malformed line is consumed and reported as an error value, so later
    /// lines still parse.
    pub fn parse_next_line(&mut self) -> (r: Option<Result<IrcMessage, DecodeError>>)
        ensures
            (match find_crlf_from(old(self)@, 0) {
                None => r is None && final(self)@ == old(self)@,
                Some(p) => {
                    let lb = old(self)@.subrange(0, p + 2);
                    &&& final(self)@ == old(self)@.subrange(p + 2, old(self)@.len() as int)
                    &&& (match spec_decode_line(lb) {
                        Ok(m) => r matches Some(Ok(msg)) && msg@ == m && msg.wf(),
                        Err(k) => r matches Some(Err(e)) && e.reason == k && e.line@ == lb,
                    })
                },
            }),
    {
        let ghost b0 = old(self)@;
        let line = match self.read_next_line() {
            None => {
                return None;
            },
            Some(Err(e)) => {
                return Some(Err(e));
            },
            Some(Ok(line)) => line,
        };
        match Self::parse_line(line.as_str()) {
            Ok(msg) => Some(Ok(msg)),
            Err(kind) => {
                let bytes = line.as_str().as_bytes_vec();
                proof {
                    match find_crlf_from(b0, 0) {
                        Some(p) => {
                            decode_utf8_encode_utf8(b0.subrange(0, p + 2));
                        },
                        None => {},
                    }
                }
                Some(Err(DecodeError { line: bytes, reason: kind }))
            },
        }
    }

    /// Removes and returns the first complete line, delimiter included,
    /// decoded as text. Nothing when no full line is buffered — the buffer
    /// is then untouched. An encoding error when the framed bytes are not
    /// valid text; the line is consumed all the same, so framing continues.
    pub fn read_next_line(&mut self) -> (r: Option<Result<String, DecodeError>>)
        ensures
            (match find_crlf_from(old(self)@, 0) {
                None => r is None && final(self)@ == old(self)@,
                Some(p) => {
                    let lb = old(self)@.subrange(0, p + 2);
                    &&& final(self)@ == old(self)@.subrange(p + 2, old(self)@.len() as int)
                    &&& (if valid_utf8(lb) {
                        r matches Some(Ok(line)) && line@ == decode_utf8(lb)
                    } else {
                        r matches Some(Err(e)) && e.line@ == lb && e.reason
                            == DecodeErrorKind::InvalidEncoding
                    })
                },
            }),
    {
        let pos = match find_crlf_vec(&self.buffered_data) {
            None => {
                return None;
            },
            Some(p) => p,
        };
        let total = self.buffered_data.len();
        proof {
            lemma_find_crlf_from(self.buffered_data@, 0);
            assert(pos + 2 <= total);
        }
        let end = pos + 2;
        let mut line_bytes: Vec<u8> = Vec::new();
        let mut i: usize = 0;
        while i < end
            invariant
                end <= self.buffered_data@.len(),
                self.buffered_data@ == old(self)@,
                i <= end,
                line_bytes@ == old(self)@.subrange(0, i as int),
            decreases end - i,
        {
            line_bytes.push(self.buffered_data[i]);
            proof {
                assert(old(self)@.subrange(0, i as int).push(old(self)@[i as int]) =~= old(
                    self,
                )@.subrange(0, i as int + 1));
            }
            i += 1;
        }
        let tail = self.buffered_data.split_off(end);
        self.buffered_data = tail;
        match utf8_to_string(line_bytes) {
            Ok(line) => Some(Ok(line)),
            Err(bytes) => Some(
                Err(DecodeError { line: bytes, reason: DecodeErrorKind::InvalidEncoding }),
            ),
        }
    }
}

/// The welcome-reply grammar routine.
fn parse_welcome_command(tokenizer: &mut Tokenizer) -> (r: Result<IrcCommand, DecodeErrorKind>)
    requires
        old(tokenizer).wf(),
    ensures
        final(tokenizer).wf(),
        final(tokenizer).text() == old(tokenizer).text(),
        (match spec_command(IrcCommandName::ReplyWelcome, old(tokenizer).text(), old(tokenizer).pos()) {
            Ok(cv) => r matches Ok(c) && c@ == cv && c@.name() == IrcCommandName::ReplyWelcome,
            Err(k) => r matches Err(k2) && k2 == k,
        }),
{
    proof {
        reveal(spec_command);
    }
    match ResponseParser::parse_nick_msg(tokenizer) {
        Err(k) => Err(k),
        Ok((nick, message)) => Ok(
            IrcCommand::ReplyWelcome(ReplyWelcomeParams::new(&nick, message.as_str())),
        ),
    }
}

/// The your-host-reply grammar routine.
fn parse_your_host_command(tokenizer: &mut Tokenizer) -> (r: Result<IrcCommand, DecodeErrorKind>)
    requires
        old(tokenizer).wf(),
    ensures
        final(tokenizer).wf(),
        final(tokenizer).text() == old(tokenizer).text(),
        (match spec_command(IrcCommandName::ReplyYourHost, old(tokenizer).text(), old(tokenizer).pos()) {
            Ok(cv) => r matches Ok(c) && c@ == cv && c@.name() == IrcCommandName::ReplyYourHost,
            Err(k) => r matches Err(k2) && k2 == k,
        }),
{
    proof {
        reveal(spec_command);
    }
    match ResponseParser::parse_nick_msg(tokenizer) {
        Err(k) => Err(k),
        Ok((nick, message)) => Ok(
            IrcCommand::ReplyYourHost(ReplyYourHostParams::new(&nick, message.as_str())),
        ),
    }
}

/// The server-created-reply grammar routine.
fn parse_created_command(tokenizer: &mut Tokenizer) -> (r: Result<IrcCommand, DecodeErrorKind>)
    requires
        old(tokenizer).wf(),
    ensures
        final(tokenizer).wf(),
        final(tokenizer).text() == old(tokenizer).text(),
        (match spec_command(IrcCommandName::ReplyCreated, old(tokenizer).text(), old(tokenizer).pos()) {
            Ok(cv) => r matches Ok(c) && c@ == cv && c@.name() == IrcCommandName::ReplyCreated,
            Err(k) => r matches Err(k2) && k2 == k,
        }),
{
    proof {
        reveal(spec_command);
    }
    match ResponseParser::parse_nick_msg(tokenizer) {
        Err(k) => Err(k),
        Ok((nick, message)) => Ok(
            IrcCommand::ReplyCreated(ReplyCreatedParams::new(&nick, message.as_str())),
        ),
    }
}

/// The server-info grammar routine, wrapped into its command.
fn parse_my_info_command(tokenizer: &mut Tokenizer) -> (r: Result<IrcCommand, DecodeErrorKind>)
    requires
        old(tokenizer).wf(),
    ensures
        final(tokenizer).wf(),
        final(tokenizer).text() == old(tokenizer).text(),
        (match spec_command(IrcCommandName::ReplyMyInfo, old(tokenizer).text(), old(tokenizer).pos()) {
            Ok(cv) => r matches Ok(c) && c@ == cv && c@.name() == IrcCommandName::ReplyMyInfo,
            Err(k) => r matches Err(k2) && k2 == k,
        }),
{
    proof {
        reveal(spec_command);
    }
    match parse_my_info_params(tokenizer) {
        Err(k) => Err(k),
        Ok(params) => Ok(IrcCommand::ReplyMyInfo(params)),
    }
}

/// The capability-advertisement grammar routine, wrapped into its command.
fn parse_isupport_command(tokenizer: &mut Tokenizer) -> (r: Result<IrcCommand, DecodeErrorKind>)
    requires
        old(tokenizer).wf(),
    ensures
        final(tokenizer).wf(),
        final(tokenizer).text() == old(tokenizer).text(),
        (match spec_command(IrcCommandName::ReplyISupport, old(tokenizer).text(), old(tokenizer).pos()) {
            Ok(cv) => r matches Ok(c) && c@ == cv && c@.name() == IrcCommandName::ReplyISupport,
            Err(k) => r matches Err(k2) && k2 == k,
        }),
{
    proof {
        reveal(spec_command);
    }
    match parse_isupport_params(tokenizer) {
        Err(k) => Err(k),
        Ok(params) => Ok(IrcCommand::ReplyISupport(params)),
    }
}

/// The client-users-reply grammar routine.
fn parse_list_client_users_command(tokenizer: &mut Tokenizer) -> (r: Result<
    IrcCommand,
    DecodeErrorKind,
>)
    requires
        old(tokenizer).wf(),
    ensures
        final(tokenizer).wf(),
        final(tokenizer).text() == old(tokenizer).text(),
        (match spec_command(IrcCommandName::ReplyListClientUsers, old(tokenizer).text(), old(tokenizer).pos()) {
            Ok(cv) => r matches Ok(c) && c@ == cv && c@.name()
                == IrcCommandName::ReplyListClientUsers,
            Err(k) => r matches Err(k2) && k2 == k,
        }),
{
    proof {
        reveal(spec_command);
    }
    match ResponseParser::parse_nick_msg(tokenizer) {
        Err(k) => Err(k),
        Ok((nick, message)) => Ok(
            IrcCommand::ReplyListClientUsers(
                ReplyListClientUsersParams::new(&nick, message.as_str()),
            ),
        ),
    }
}

/// The operators-online-reply grammar routine.
fn parse_list_operator_users_command(tokenizer: &mut Tokenizer) -> (r: Result<
    IrcCommand,
    DecodeErrorKind,
>)
    requires
        old(tokenizer).wf(),
    ensures
        final(tokenizer).wf(),
        final(tokenizer).text() == old(tokenizer).text(),
        (match spec_command(IrcCommandName::ReplyListOperatorUsers, old(tokenizer).text(), old(tokenizer).pos()) {
            Ok(cv) => r matches Ok(c) && c@ == cv && c@.name()
                == IrcCommandName::ReplyListOperatorUsers,
            Err(k) => r matches Err(k2) && k2 == k,
        }),
{
    proof {
        reveal(spec_command);
    }
    match ResponseParser::parse_nick_count_msg(tokenizer) {
        Err(k) => Err(k),
        Ok((nick, count, message)) => Ok(
            IrcCommand::ReplyListOperatorUsers(
                ReplyListOperatorUsersParams::new(&nick, count, message.as_str()),
            ),
        ),
    }
}

/// The unknown-connections-reply grammar routine.
fn parse_list_unknown_users_command(tokenizer: &mut Tokenizer) -> (r: Result<
    IrcCommand,
    DecodeErrorKind,
>)
    requires
        old(tokenizer).wf(),
    ensures
        final(tokenizer).wf(),
        final(tokenizer).text() == old(tokenizer).text(),
        (match spec_command(IrcCommandName::ReplyListUnknownUsers, old(tokenizer).text(), old(tokenizer).pos()) {
            Ok(cv) => r matches Ok(c) && c@ == cv && c@.name()
                == IrcCommandName::ReplyListUnknownUsers,
            Err(k) => r matches Err(k2) && k2 == k,
        }),
{
    proof {
        reveal(spec_command);
    }
    match ResponseParser::parse_nick_count_msg(tokenizer) {
        Err(k) => Err(k),
        Ok((nick, count, message)) => Ok(
            IrcCommand::ReplyListUnknownUsers(
                ReplyListUnknownUsersParams::new(&nick, count, message.as_str()),
            ),
        ),
    }
}

/// The channels-formed-reply grammar routine.
fn parse_list_channels_command(tokenizer: &mut Tokenizer) -> (r: Result<
    IrcCommand,
    DecodeErrorKind,
>)
    requires
        old(tokenizer).wf(),
    ensures
        final(tokenizer).wf(),
        final(tokenizer).text() == old(tokenizer).text(),
        (match spec_command(IrcCommandName::ReplyListChannels, old(tokenizer).text(), old(tokenizer).pos()) {
            Ok(cv) => r matches Ok(c) && c@ == cv && c@.name()
                == IrcCommandName::ReplyListChannels,
            Err(k) => r matches Err(k2) && k2 == k,
        }),
{
    proof {
        reveal(spec_command);
    }
    match ResponseParser::parse_nick_count_msg(tokenizer) {
        Err(k) => Err(k),
        Ok((nick, count, message)) => Ok(
            IrcCommand::ReplyListChannels(
                ReplyListChannelsParams::new(&nick, count, message.as_str()),
            ),
        ),
    }
}

/// The clients-and-servers-reply grammar routine.
fn parse_list_user_me_command(tokenizer: &mut Tokenizer) -> (r: Result<
    IrcCommand,
    DecodeErrorKind,
>)
    requires
        old(tokenizer).wf(),
    ensures
        final(tokenizer).wf(),
        final(tokenizer).text() == old(tokenizer).text(),
        (match spec_command(IrcCommandName::ReplyListUserMe, old(tokenizer).text(), old(tokenizer).pos()) {
            Ok(cv) => r matches Ok(c) && c@ == cv && c@.name() == IrcCommandName::ReplyListUserMe,
            Err(k) => r matches Err(k2) && k2 == k,
        }),
{
    proof {
        reveal(spec_command);
    }
    match ResponseParser::parse_nick_msg(tokenizer) {
        Err(k) => Err(k),
        Ok((nick, message)) => Ok(
            IrcCommand::ReplyListUserMe(ReplyListUserMeParams::new(&nick, message.as_str())),
        ),
    }
}

/// The JOIN grammar routine, wrapped into its command.
fn parse_join_command(tokenizer: &mut Tokenizer) -> (r: Result<IrcCommand, DecodeErrorKind>)
    requires
        old(tokenizer).wf(),
    ensures
        final(tokenizer).wf(),
        final(tokenizer).text() == old(tokenizer).text(),
        (match spec_command(IrcCommandName::Join, old(tokenizer).text(), old(tokenizer).pos()) {
            Ok(cv) => r matches Ok(c) && c@ == cv && c@.name() == IrcCommandName::Join,
            Err(k) => r matches Err(k2) && k2 == k,
        }),
{
    proof {
        reveal(spec_command);
    }
    match parse_join_params(tokenizer) {
        Err(k) => Err(k),
        Ok(params) => Ok(IrcCommand::Join(params)),
    }
}

/// The private-message grammar routine, wrapped into its command.
fn parse_private_message_command(tokenizer: &mut Tokenizer) -> (r: Result<
    IrcCommand,
    DecodeErrorKind,
>)
    requires
        old(tokenizer).wf(),
    ensures
        final(tokenizer).wf(),
        final(tokenizer).text() == old(tokenizer).text(),
        (match spec_command(IrcCommandName::PrivateMessage, old(tokenizer).text(), old(tokenizer).pos()) {
            Ok(cv) => r matches Ok(c) && c@ == cv && c@.name() == IrcCommandName::PrivateMessage,
            Err(k) => r matches Err(k2) && k2 == k,
        }),
{
    proof {
        reveal(spec_command);
    }
    match parse_privmsg_params(tokenizer) {
        Err(k) => Err(k),
        Ok(params) => Ok(IrcCommand::PrivateMessage(params)),
    }
}

/// The notice grammar routine, wrapped into its command.
fn parse_notice_command(tokenizer: &mut Tokenizer) -> (r: Result<IrcCommand, DecodeErrorKind>)
    requires
        old(tokenizer).wf(),
    ensures
        final(tokenizer).wf(),
        final(tokenizer).text() == old(tokenizer).text(),
        (match spec_command(IrcCommandName::Notice, old(tokenizer).text(), old(tokenizer).pos()) {
            Ok(cv) => r matches Ok(c) && c@ == cv && c@.name() == IrcCommandName::Notice,
            Err(k) => r matches Err(k2) && k2 == k,
        }),
{
    proof {
        reveal(spec_command);
    }
    match parse_privmsg_params(tokenizer) {
        Err(k) => Err(k),
        Ok(params) => Ok(IrcCommand::Notice(params)),
    }
}

/// The server-info grammar routine: five positional fields and an optional
/// sixth.
fn parse_my_info_params(tokenizer: &mut Tokenizer) -> (r: Result<
    ReplyMyInfoParams,
    DecodeErrorKind,
>)
    requires
        old(tokenizer).wf(),
    ensures
        final(tokenizer).wf(),
        final(tokenizer).text() == old(tokenizer).text(),
        (match spec_my_info(old(tokenizer).text(), old(tokenizer).pos()) {
            Ok(v) => r matches Ok(p) && p@ == v,
            Err(k) => r matches Err(k2) && k2 == k,
        }),
{
    let nick = match ResponseParser::parse_nickname(tokenizer) {
        Err(k) => {
            return Err(k);
        },
        Ok(n) => n,
    };
    let server = match tokenizer.read_to(' ') {
        None => {
            return Err(DecodeErrorKind::MissingField);
        },
        Some(t) => t,
    };
    let version = match tokenizer.read_to(' ') {
        None => {
            return Err(DecodeErrorKind::MissingField);
        },
        Some(t) => t,
    };
    let umodes = match tokenizer.read_to(' ') {
        None => {
            return Err(DecodeErrorKind::MissingField);
        },
        Some(t) => t,
    };
    let mut delims: Vec<&str> = Vec::new();
    delims.push(" ");
    delims.push("\r\n");
    proof {
        reveal_strlit(" ");
        reveal_strlit("\r\n");
        assert(views_of(delims@) =~~= field_delims());
    }
    let cmodes = match tokenizer.read_to_any(delims.as_slice()) {
        None => {
            return Err(DecodeErrorKind::MissingField);
        },
        Some(t) => t,
    };
    let cmodes_with_params = tokenizer.read_to_any(delims.as_slice());
    let sixth: Option<&str> = match &cmodes_with_params {
        Some(t) => Some(t.as_str()),
        None => None,
    };
    Ok(
        ReplyMyInfoParams::new(
            &nick,
            server.as_str(),
            version.as_str(),
            umodes.as_str(),
            cmodes.as_str(),
            sixth,
        ),
    )
}

/// The capability-advertisement grammar routine: a nickname, then the
/// capability list.
fn parse_isupport_params(tokenizer: &mut Tokenizer) -> (r: Result<
    ReplyISupportParams,
    DecodeErrorKind,
>)
    requires
        old(tokenizer).wf(),
    ensures
        final(tokenizer).wf(),
        final(tokenizer).text() == old(tokenizer).text(),
        (match spec_isupport(old(tokenizer).text(), old(tokenizer).pos()) {
            Ok(v) => r matches Ok(p) && p@ == v,
            Err(k) => r matches Err(k2) && k2 == k,
        }),
{
    let nick = match ResponseParser::parse_nickname(tokenizer) {
        Err(k) => {
            return Err(k);
        },
        Ok(n) => n,
    };
    let entries = match read_isupport_entries(tokenizer) {
        Err(k) => {
            return Err(k);
        },
        Ok(v) => v,
    };
    let entries_slice = entries.as_slice();
    proof {
        assert(entries_slice.deep_view() =~= entries.deep_view());
    }
    Ok(ReplyISupportParams::new(&nick, entries_slice))
}

/// The JOIN grammar routine: the rest of the line is one channel name.
fn parse_join_params(tokenizer: &mut Tokenizer) -> (r: Result<JoinParameters, DecodeErrorKind>)
    requires
        old(tokenizer).wf(),
    ensures
        final(tokenizer).wf(),
        final(tokenizer).text() == old(tokenizer).text(),
        (match spec_join(old(tokenizer).text(), old(tokenizer).pos()) {
            Ok(v) => r matches Ok(p) && p@ == v,
            Err(k) => r matches Err(k2) && k2 == k,
        }),
{
    proof {
        reveal_strlit("\r\n");
        assert("\r\n"@ =~= crlf_chars());
    }
    let channel = match tokenizer.read_to_str("\r\n") {
        None => {
            return Err(DecodeErrorKind::MissingField);
        },
        Some(c) => c,
    };
    if str_contains_char(channel.as_str(), ' ') {
        // Only clients may name several channels in one JOIN.
        return Err(DecodeErrorKind::MalformedJoin);
    }
    Ok(JoinParameters::new(&Channel(channel)))
}

/// The private-message and notice grammar routine: sender, recipient, and a
/// trailing message.
fn parse_privmsg_params(tokenizer: &mut Tokenizer) -> (r: Result<
    PrivateMessageParameters,
    DecodeErrorKind,
>)
    requires
        old(tokenizer).wf(),
    ensures
        final(tokenizer).wf(),
        final(tokenizer).text() == old(tokenizer).text(),
        (match spec_privmsg(old(tokenizer).text(), old(tokenizer).pos()) {
            Ok(v) => r matches Ok(p) && p@ == v,
            Err(k) => r matches Err(k2) && k2 == k,
        }),
{
    let sender = match tokenizer.read_to(' ') {
        None => {
            return Err(DecodeErrorKind::MissingField);
        },
        Some(t) => t,
    };
    let recipient = match tokenizer.read_to(' ') {
        None => {
            return Err(DecodeErrorKind::MissingField);
        },
        Some(t) => t,
    };
    let message = match ResponseParser::parse_trailing_message(tokenizer) {
        Err(k) => {
            return Err(k);
        },
        Ok(m) => m,
    };
    Ok(PrivateMessageParameters::new(&User(sender), &UserOrChannel(recipient), message.as_str()))
}

/// Collects capability tokens until one begins with ':', which must open the
/// fixed sentinel phrase, or until the line is exhausted.
fn read_isupport_entries(tokenizer: &mut Tokenizer) -> (r: Result<Vec<String>, DecodeErrorKind>)
    requires
        old(tokenizer).wf(),
    ensures
        final(tokenizer).wf(),
        final(tokenizer).text() == old(tokenizer).text(),
        (match spec_isupport_entries(old(tokenizer).text(), old(tokenizer).pos()) {
            Ok((entries, end)) => r matches Ok(v) && v.deep_view() == entries
                && final(tokenizer).pos() == end,
            Err(k) => r matches Err(k2) && k2 == k,
        }),
    decreases old(tokenizer).text().len() - old(tokenizer).pos(),
{
    let ghost s = old(tokenizer).text();
    let ghost i0 = old(tokenizer).pos();
    let capability = match tokenizer.read_to(' ') {
        None => {
            return Err(DecodeErrorKind::MissingField);
        },
        Some(c) => c,
    };
    proof {
        lemma_find_char_from(s, i0, ' ');
    }
    match tokenizer.peek() {
        None => {
            let mut v: Vec<String> = Vec::new();
            v.push(capability);
            proof {
                assert(v.deep_view() =~= seq![v@[0]@]);
            }
            Ok(v)
        },
        Some(ch) => {
            if ch == ':' {
                if tokenizer.starts_with(":are supported by this server") {
                    tokenizer.match_str(":are supported by this server");
                    let mut v: Vec<String> = Vec::new();
                    v.push(capability);
                    proof {
                        assert(v.deep_view() =~= seq![v@[0]@]);
                    }
                    Ok(v)
                } else {
                    Err(DecodeErrorKind::MissingSentinel)
                }
            } else {
                match read_isupport_entries(tokenizer) {
                    Err(k) => Err(k),
                    Ok(rest) => {
                        let ghost rest_entries = rest.deep_view();
                        let mut v: Vec<String> = Vec::new();
                        v.push(capability);
                        let mut rest = rest;
                        v.append(&mut rest);
                        proof {
                            assert(v.deep_view() =~= seq![v@[0]@].add(rest_entries));
                        }
                        Ok(v)
                    },
                }
            }
        },
    }
}

/// First position of the line delimiter in `v`.
fn find_crlf_vec(v: &Vec<u8>) -> (r: Option<usize>)
    ensures
        (match find_crlf_from(v@, 0) {
            Some(p) => r matches Some(q) && q as int == p,
            None => r is None,
        }),
{
    let n = v.len();
    if n < 2 {
        return None;
    }
    let mut i: usize = 0;
    while i <= n - 2
        invariant
            n == v@.len(),
            2 <= n,
            i <= n - 1,
            find_crlf_from(v@, 0) == find_crlf_from(v@, i as int),
        decreases n - i,
    {
        if v[i] == 13 && v[i + 1] == 10 {
            return Some(i);
        }
        i += 1;
    }
    None
}

} // verus!
