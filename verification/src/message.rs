//! The data model of decoded protocol messages: semantic identifier wrappers,
//! one parameter record per command kind, the closed command-kind
//! enumeration, the tagged message union, and the decode-error type.

use vstd::prelude::*;

verus! {

use crate::text::str_eq;

/// A nickname on the network.
#[derive(Debug, PartialEq)]
pub struct Nickname(pub String);

impl View for Nickname {
    type V = Seq<char>;

    open spec fn view(&self) -> Seq<char> {
        self.0@
    }
}

impl Clone for Nickname {
    fn clone(&self) -> (r: Self)
        ensures
            r == *self,
    {
        Nickname(self.0.clone())
    }
}

impl Nickname {
    pub fn new(nick: &str) -> (r: Nickname)
        ensures
            r@ == nick@,
    {
        Nickname(nick.to_owned())
    }
}

/// A user name.
#[derive(Debug, PartialEq)]
pub struct User(pub String);

impl View for User {
    type V = Seq<char>;

    open spec fn view(&self) -> Seq<char> {
        self.0@
    }
}

impl Clone for User {
    fn clone(&self) -> (r: Self)
        ensures
            r == *self,
    {
        User(self.0.clone())
    }
}

/// A channel name.
#[derive(Debug, PartialEq)]
pub struct Channel(pub String);

impl View for Channel {
    type V = Seq<char>;

    open spec fn view(&self) -> Seq<char> {
        self.0@
    }
}

impl Clone for Channel {
    fn clone(&self) -> (r: Self)
        ensures
            r == *self,
    {
        Channel(self.0.clone())
    }
}

/// Either a user name or a channel name.
#[derive(Debug, PartialEq)]
pub struct UserOrChannel(pub String);

impl View for UserOrChannel {
    type V = Seq<char>;

    open spec fn view(&self) -> Seq<char> {
        self.0@
    }
}

impl Clone for UserOrChannel {
    fn clone(&self) -> (r: Self)
        ensures
            r == *self,
    {
        UserOrChannel(self.0.clone())
    }
}

/// Mathematical content of `JoinParameters`.
#[verifier::ext_equal]
pub struct JoinParametersView {
    pub channel: Seq<char>,
}

/// Parameters of a JOIN command: the single channel joined.
#[derive(Debug, Clone, PartialEq)]
pub struct JoinParameters {
    channel: Channel,
}

impl View for JoinParameters {
    type V = JoinParametersView;

    closed spec fn view(&self) -> JoinParametersView {
        JoinParametersView { channel: self.channel@ }
    }
}

impl JoinParameters {
    pub fn new(channel: &Channel) -> (r: JoinParameters)
        ensures
            r@ == (JoinParametersView { channel: channel@ }),
    {
        JoinParameters { channel: channel.clone() }
    }
}

/// Mathematical content of `ReplyWelcomeParams`.
#[verifier::ext_equal]
pub struct ReplyWelcomeParamsView {
    pub nick: Seq<char>,
    pub message: Seq<char>,
}

/// Parameters of the welcome reply: a nickname and a free-text message.
#[derive(Debug, Clone, PartialEq)]
pub struct ReplyWelcomeParams {
    pub nick: Nickname,
    pub message: String,
}

impl View for ReplyWelcomeParams {
    type V = ReplyWelcomeParamsView;

    open spec fn view(&self) -> ReplyWelcomeParamsView {
        ReplyWelcomeParamsView { nick: self.nick@, message: self.message@ }
    }
}

impl ReplyWelcomeParams {
    pub fn new(nick: &Nickname, message: &str) -> (r: ReplyWelcomeParams)
        ensures
            r@ == (ReplyWelcomeParamsView { nick: nick@, message: message@ }),
    {
        ReplyWelcomeParams { nick: nick.clone(), message: message.to_owned() }
    }
}

/// Mathematical content of `ReplyYourHostParams`.
#[verifier::ext_equal]
pub struct ReplyYourHostParamsView {
    pub nick: Seq<char>,
    pub message: Seq<char>,
}

/// Parameters of the your-host reply: a nickname and a free-text message.
#[derive(Debug, Clone, PartialEq)]
pub struct ReplyYourHostParams {
    pub nick: Nickname,
    pub message: String,
}

impl View for ReplyYourHostParams {
    type V = ReplyYourHostParamsView;

    open spec fn view(&self) -> ReplyYourHostParamsView {
        ReplyYourHostParamsView { nick: self.nick@, message: self.message@ }
    }
}

impl ReplyYourHostParams {
    pub fn new(nick: &Nickname, message: &str) -> (r: ReplyYourHostParams)
        ensures
            r@ == (ReplyYourHostParamsView { nick: nick@, message: message@ }),
    {
        ReplyYourHostParams { nick: nick.clone(), message: message.to_owned() }
    }
}

/// Mathematical content of `ReplyCreatedParams`.
#[verifier::ext_equal]
pub struct ReplyCreatedParamsView {
    pub nick: Seq<char>,
    pub message: Seq<char>,
}

/// Parameters of the server-created reply: a nickname and a free-text message.
#[derive(Debug, Clone, PartialEq)]
pub struct ReplyCreatedParams {
    pub nick: Nickname,
    pub message: String,
}

impl View for ReplyCreatedParams {
    type V = ReplyCreatedParamsView;

    open spec fn view(&self) -> ReplyCreatedParamsView {
        ReplyCreatedParamsView { nick: self.nick@, message: self.message@ }
    }
}

impl ReplyCreatedParams {
    pub fn new(nick: &Nickname, message: &str) -> (r: ReplyCreatedParams)
        ensures
            r@ == (ReplyCreatedParamsView { nick: nick@, message: message@ }),
    {
        ReplyCreatedParams { nick: nick.clone(), message: message.to_owned() }
    }
}

/// Mathematical content of `ReplyMyInfoParams`.
#[verifier::ext_equal]
pub struct ReplyMyInfoParamsView {
    pub nick: Seq<char>,
    pub server_name: Seq<char>,
    pub version: Seq<char>,
    pub available_user_modes: Seq<char>,
    pub available_channel_modes: Seq<char>,
    pub channel_modes_with_params: Option<Seq<char>>,
}

/// Parameters of the server-info reply: five positional fields and an
/// optional sixth.
#[derive(Debug, Clone, PartialEq)]
pub struct ReplyMyInfoParams {
    pub nick: Nickname,
    pub server_name: String,
    pub version: String,
    pub available_user_modes: String,
    pub available_channel_modes: String,
    pub channel_modes_with_params: Option<String>,
}

impl View for ReplyMyInfoParams {
    type V = ReplyMyInfoParamsView;

    open spec fn view(&self) -> ReplyMyInfoParamsView {
        ReplyMyInfoParamsView {
            nick: self.nick@,
            server_name: self.server_name@,
            version: self.version@,
            available_user_modes: self.available_user_modes@,
            available_channel_modes: self.available_channel_modes@,
            channel_modes_with_params: self.channel_modes_with_params.deep_view(),
        }
    }
}

impl ReplyMyInfoParams {
    pub fn new(
        nick: &Nickname,
        server_name: &str,
        version: &str,
        available_user_modes: &str,
        available_channel_modes: &str,
        channels_modes_with_params: Option<&str>,
    ) -> (r: ReplyMyInfoParams)
        ensures
            r@ == (ReplyMyInfoParamsView {
                nick: nick@,
                server_name: server_name@,
                version: version@,
                available_user_modes: available_user_modes@,
                available_channel_modes: available_channel_modes@,
                channel_modes_with_params: channels_modes_with_params.deep_view(),
            }),
    {
        let sixth: Option<String> = match channels_modes_with_params {
            Some(s) => Some(s.to_owned()),
            None => None,
        };
        ReplyMyInfoParams {
            nick: nick.clone(),
            server_name: server_name.to_owned(),
            version: version.to_owned(),
            available_user_modes: available_user_modes.to_owned(),
            available_channel_modes: available_channel_modes.to_owned(),
            channel_modes_with_params: sixth,
        }
    }
}

/// Mathematical content of `ReplyISupportParams`.
#[verifier::ext_equal]
pub struct ReplyISupportParamsView {
    pub nick: Seq<char>,
    pub entries: Seq<Seq<char>>,
}

/// Parameters of the capability-advertisement reply: a nickname and the
/// ordered capability tokens.
#[derive(Debug, Clone, PartialEq)]
pub struct ReplyISupportParams {
    pub nick: Nickname,
    pub entries: Vec<String>,
}

impl View for ReplyISupportParams {
    type V = ReplyISupportParamsView;

    open spec fn view(&self) -> ReplyISupportParamsView {
        ReplyISupportParamsView { nick: self.nick@, entries: self.entries.deep_view() }
    }
}

impl ReplyISupportParams {
    pub fn new(nickname: &Nickname, entries: &[String]) -> (r: ReplyISupportParams)
        ensures
            r@ == (ReplyISupportParamsView { nick: nickname@, entries: entries.deep_view() }),
    {
        let mut owned: Vec<String> = Vec::new();
        let mut i: usize = 0;
        while i < entries.len()
            invariant
                i <= entries@.len(),
                owned@ == entries@.subrange(0, i as int),
            decreases entries@.len() - i,
        {
            owned.push(entries[i].clone());
            proof {
                assert(entries@.subrange(0, i as int).push(entries@[i as int]) =~= entries@
                    .subrange(0, i as int + 1));
            }
            i += 1;
        }
        proof {
            assert(entries@.subrange(0, entries@.len() as int) =~= entries@);
            assert(owned.deep_view() =~= entries.deep_view());
        }
        ReplyISupportParams { nick: nickname.clone(), entries: owned }
    }
}

/// Mathematical content of `ReplyListClientUsersParams`.
#[verifier::ext_equal]
pub struct ReplyListClientUsersParamsView {
    pub nick: Seq<char>,
    pub message: Seq<char>,
}

/// Parameters of the client-users reply: a nickname and a free-text message.
#[derive(Debug, Clone, PartialEq)]
pub struct ReplyListClientUsersParams {
    pub nick: Nickname,
    pub message: String,
}

impl View for ReplyListClientUsersParams {
    type V = ReplyListClientUsersParamsView;

    open spec fn view(&self) -> ReplyListClientUsersParamsView {
        ReplyListClientUsersParamsView { nick: self.nick@, message: self.message@ }
    }
}

impl ReplyListClientUsersParams {
    pub fn new(nickname: &Nickname, message: &str) -> (r: ReplyListClientUsersParams)
        ensures
            r@ == (ReplyListClientUsersParamsView { nick: nickname@, message: message@ }),
    {
        ReplyListClientUsersParams { nick: nickname.clone(), message: message.to_owned() }
    }
}

/// Mathematical content of `ReplyListOperatorUsersParams`.
#[verifier::ext_equal]
pub struct ReplyListOperatorUsersParamsView {
    pub nickname: Seq<char>,
    pub operator_count: nat,
    pub message: Seq<char>,
}

/// Parameters of the operators-online reply: a nickname, a count and a
/// free-text message.
#[derive(Debug, Clone, PartialEq)]
pub struct ReplyListOperatorUsersParams {
    pub nickname: Nickname,
    pub operator_count: usize,
    pub message: String,
}

impl View for ReplyListOperatorUsersParams {
    type V = ReplyListOperatorUsersParamsView;

    open spec fn view(&self) -> ReplyListOperatorUsersParamsView {
        ReplyListOperatorUsersParamsView {
            nickname: self.nickname@,
            operator_count: self.operator_count as nat,
            message: self.message@,
        }
    }
}

impl ReplyListOperatorUsersParams {
    pub fn new(nickname: &Nickname, operator_count: usize, message: &str) -> (r:
        ReplyListOperatorUsersParams)
        ensures
            r@ == (ReplyListOperatorUsersParamsView {
                nickname: nickname@,
                operator_count: operator_count as nat,
                message: message@,
            }),
    {
        ReplyListOperatorUsersParams {
            nickname: nickname.clone(),
            operator_count,
            message: message.to_owned(),
        }
    }
}

/// Mathematical content of `ReplyListUnknownUsersParams`.
#[verifier::ext_equal]
pub struct ReplyListUnknownUsersParamsView {
    pub nickname: Seq<char>,
    pub unknown_user_count: nat,
    pub message: Seq<char>,
}

/// Parameters of the unknown-connections reply: a nickname, a count and a
/// free-text message.
#[derive(Debug, Clone, PartialEq)]
pub struct ReplyListUnknownUsersParams {
    pub nickname: Nickname,
    pub unknown_user_count: usize,
    pub message: String,
}

impl View for ReplyListUnknownUsersParams {
    type V = ReplyListUnknownUsersParamsView;

    open spec fn view(&self) -> ReplyListUnknownUsersParamsView {
        ReplyListUnknownUsersParamsView {
            nickname: self.nickname@,
            unknown_user_count: self.unknown_user_count as nat,
            message: self.message@,
        }
    }
}

impl ReplyListUnknownUsersParams {
    pub fn new(nickname: &Nickname, unknown_user_count: usize, message: &str) -> (r:
        ReplyListUnknownUsersParams)
        ensures
            r@ == (ReplyListUnknownUsersParamsView {
                nickname: nickname@,
                unknown_user_count: unknown_user_count as nat,
                message: message@,
            }),
    {
        ReplyListUnknownUsersParams {
            nickname: nickname.clone(),
            unknown_user_count,
            message: message.to_owned(),
        }
    }
}

/// Mathematical content of `ReplyListChannelsParams`.
#[verifier::ext_equal]
pub struct ReplyListChannelsParamsView {
    pub nickname: Seq<char>,
    pub channel_count: nat,
    pub message: Seq<char>,
}

/// Parameters of the channels-formed reply: a nickname, a count and a
/// free-text message.
#[derive(Debug, Clone, PartialEq)]
pub struct ReplyListChannelsParams {
    pub nickname: Nickname,
    pub channel_count: usize,
    pub message: String,
}

impl View for ReplyListChannelsParams {
    type V = ReplyListChannelsParamsView;

    open spec fn view(&self) -> ReplyListChannelsParamsView {
        ReplyListChannelsParamsView {
            nickname: self.nickname@,
            channel_count: self.channel_count as nat,
            message: self.message@,
        }
    }
}

impl ReplyListChannelsParams {
    pub fn new(nickname: &Nickname, channel_count: usize, message: &str) -> (r:
        ReplyListChannelsParams)
        ensures
            r@ == (ReplyListChannelsParamsView {
                nickname: nickname@,
                channel_count: channel_count as nat,
                message: message@,
            }),
    {
        ReplyListChannelsParams {
            nickname: nickname.clone(),
            channel_count,
            message: message.to_owned(),
        }
    }
}

/// Mathematical content of `ReplyListUserMeParams`.
#[verifier::ext_equal]
pub struct ReplyListUserMeParamsView {
    pub nick: Seq<char>,
    pub message: Seq<char>,
}

/// Parameters of the clients-and-servers reply: a nickname and a free-text
/// message.
#[derive(Debug, Clone, PartialEq)]
pub struct ReplyListUserMeParams {
    pub nick: Nickname,
    pub message: String,
}

impl View for ReplyListUserMeParams {
    type V = ReplyListUserMeParamsView;

    open spec fn view(&self) -> ReplyListUserMeParamsView {
        ReplyListUserMeParamsView { nick: self.nick@, message: self.message@ }
    }
}

impl ReplyListUserMeParams {
    pub fn new(nickname: &Nickname, message: &str) -> (r: ReplyListUserMeParams)
        ensures
            r@ == (ReplyListUserMeParamsView { nick: nickname@, message: message@ }),
    {
        ReplyListUserMeParams { nick: nickname.clone(), message: message.to_owned() }
    }
}

/// Mathematical content of `PrivateMessageParameters`.
#[verifier::ext_equal]
pub struct PrivateMessageParametersView {
    pub sender: Seq<char>,
    pub recipient: Seq<char>,
    pub message: Seq<char>,
}

/// Parameters of a private message or notice: sender, recipient and the
/// free-text message.
#[derive(Debug, Clone, PartialEq)]
pub struct PrivateMessageParameters {
    sender: User,
    recipient: UserOrChannel,
    message: String,
}

impl View for PrivateMessageParameters {
    type V = PrivateMessageParametersView;

    closed spec fn view(&self) -> PrivateMessageParametersView {
        PrivateMessageParametersView {
            sender: self.sender@,
            recipient: self.recipient@,
            message: self.message@,
        }
    }
}

impl PrivateMessageParameters {
    pub fn new(sender: &User, recipient: &UserOrChannel, message: &str) -> (r:
        PrivateMessageParameters)
        ensures
            r@ == (PrivateMessageParametersView {
                sender: sender@,
                recipient: recipient@,
                message: message@,
            }),
    {
        PrivateMessageParameters {
            sender: sender.clone(),
            recipient: recipient.clone(),
            message: message.to_owned(),
        }
    }
}

/// The closed enumeration of command kinds that the dispatcher recognizes.
#[derive(Debug, Copy, Clone, PartialEq, Eq, Structural)]
pub enum IrcCommandName {
    ReplyWelcome,
    ReplyYourHost,
    ReplyCreated,
    ReplyMyInfo,
    ReplyISupport,
    ReplyListClientUsers,
    ReplyListOperatorUsers,
    ReplyListUnknownUsers,
    ReplyListChannels,
    ReplyListUserMe,
    Join,
    PrivateMessage,
    Notice,
}

/// The fixed lookup table from a raw command token to a command kind.
pub open spec fn spec_command_name(tok: Seq<char>) -> Option<IrcCommandName> {
    if tok == "001"@ {
        Some(IrcCommandName::ReplyWelcome)
    } else if tok == "002"@ {
        Some(IrcCommandName::ReplyYourHost)
    } else if tok == "003"@ {
        Some(IrcCommandName::ReplyCreated)
    } else if tok == "004"@ {
        Some(IrcCommandName::ReplyMyInfo)
    } else if tok == "005"@ {
        Some(IrcCommandName::ReplyISupport)
    } else if tok == "251"@ {
        Some(IrcCommandName::ReplyListClientUsers)
    } else if tok == "252"@ {
        Some(IrcCommandName::ReplyListOperatorUsers)
    } else if tok == "253"@ {
        Some(IrcCommandName::ReplyListUnknownUsers)
    } else if tok == "254"@ {
        Some(IrcCommandName::ReplyListChannels)
    } else if tok == "255"@ {
        Some(IrcCommandName::ReplyListUserMe)
    } else if tok == "JOIN"@ {
        Some(IrcCommandName::Join)
    } else if tok == "PRIVMSG"@ {
        Some(IrcCommandName::PrivateMessage)
    } else if tok == "NOTICE"@ {
        Some(IrcCommandName::Notice)
    } else {
        None
    }
}

impl IrcCommandName {
    /// Resolves a raw command token against the fixed lookup table.
    pub fn from_token(token: &str) -> (r: Option<IrcCommandName>)
        ensures
            r == spec_command_name(token@),
    {
        if str_eq(token, "001") {
            Some(IrcCommandName::ReplyWelcome)
        } else if str_eq(token, "002") {
            Some(IrcCommandName::ReplyYourHost)
        } else if str_eq(token, "003") {
            Some(IrcCommandName::ReplyCreated)
        } else if str_eq(token, "004") {
            Some(IrcCommandName::ReplyMyInfo)
        } else if str_eq(token, "005") {
            Some(IrcCommandName::ReplyISupport)
        } else if str_eq(token, "251") {
            Some(IrcCommandName::ReplyListClientUsers)
        } else if str_eq(token, "252") {
            Some(IrcCommandName::ReplyListOperatorUsers)
        } else if str_eq(token, "253") {
            Some(IrcCommandName::ReplyListUnknownUsers)
        } else if str_eq(token, "254") {
            Some(IrcCommandName::ReplyListChannels)
        } else if str_eq(token, "255") {
            Some(IrcCommandName::ReplyListUserMe)
        } else if str_eq(token, "JOIN") {
            Some(IrcCommandName::Join)
        } else if str_eq(token, "PRIVMSG") {
            Some(IrcCommandName::PrivateMessage)
        } else if str_eq(token, "NOTICE") {
            Some(IrcCommandName::Notice)
        } else {
            None
        }
    }
}

/// Mathematical content of `IrcCommand`.
#[verifier::ext_equal]
pub enum IrcCommandView {
    ReplyWelcome(ReplyWelcomeParamsView),
    ReplyYourHost(ReplyYourHostParamsView),
    ReplyCreated(ReplyCreatedParamsView),
    ReplyMyInfo(ReplyMyInfoParamsView),
    ReplyISupport(ReplyISupportParamsView),
    ReplyListClientUsers(ReplyListClientUsersParamsView),
    ReplyListOperatorUsers(ReplyListOperatorUsersParamsView),
    ReplyListUnknownUsers(ReplyListUnknownUsersParamsView),
    ReplyListChannels(ReplyListChannelsParamsView),
    ReplyListUserMe(ReplyListUserMeParamsView),
    Join(JoinParametersView),
    PrivateMessage(PrivateMessageParametersView),
    Notice(PrivateMessageParametersView),
}

impl IrcCommandView {
    /// The command kind that this parameter record belongs to.
    pub open spec fn name(self) -> IrcCommandName {
        match self {
            IrcCommandView::ReplyWelcome(_) => IrcCommandName::ReplyWelcome,
            IrcCommandView::ReplyYourHost(_) => IrcCommandName::ReplyYourHost,
            IrcCommandView::ReplyCreated(_) => IrcCommandName::ReplyCreated,
            IrcCommandView::ReplyMyInfo(_) => IrcCommandName::ReplyMyInfo,
            IrcCommandView::ReplyISupport(_) => IrcCommandName::ReplyISupport,
            IrcCommandView::ReplyListClientUsers(_) => IrcCommandName::ReplyListClientUsers,
            IrcCommandView::ReplyListOperatorUsers(_) => IrcCommandName::ReplyListOperatorUsers,
            IrcCommandView::ReplyListUnknownUsers(_) => IrcCommandName::ReplyListUnknownUsers,
            IrcCommandView::ReplyListChannels(_) => IrcCommandName::ReplyListChannels,
            IrcCommandView::ReplyListUserMe(_) => IrcCommandName::ReplyListUserMe,
            IrcCommandView::Join(_) => IrcCommandName::Join,
            IrcCommandView::PrivateMessage(_) => IrcCommandName::PrivateMessage,
            IrcCommandView::Notice(_) => IrcCommandName::Notice,
        }
    }
}

/// The tagged union over all parameter record types.
#[derive(Debug, Clone, PartialEq)]
pub enum IrcCommand {
    ReplyWelcome(ReplyWelcomeParams),
    ReplyYourHost(ReplyYourHostParams),
    ReplyCreated(ReplyCreatedParams),
    ReplyMyInfo(ReplyMyInfoParams),
    ReplyISupport(ReplyISupportParams),
    ReplyListClientUsers(ReplyListClientUsersParams),
    ReplyListOperatorUsers(ReplyListOperatorUsersParams),
    ReplyListUnknownUsers(ReplyListUnknownUsersParams),
    ReplyListChannels(ReplyListChannelsParams),
    ReplyListUserMe(ReplyListUserMeParams),
    Join(JoinParameters),
    PrivateMessage(PrivateMessageParameters),
    Notice(PrivateMessageParameters),
}

impl View for IrcCommand {
    type V = IrcCommandView;

    open spec fn view(&self) -> IrcCommandView {
        match self {
            IrcCommand::ReplyWelcome(p) => IrcCommandView::ReplyWelcome(p@),
            IrcCommand::ReplyYourHost(p) => IrcCommandView::ReplyYourHost(p@),
            IrcCommand::ReplyCreated(p) => IrcCommandView::ReplyCreated(p@),
            IrcCommand::ReplyMyInfo(p) => IrcCommandView::ReplyMyInfo(p@),
            IrcCommand::ReplyISupport(p) => IrcCommandView::ReplyISupport(p@),
            IrcCommand::ReplyListClientUsers(p) => IrcCommandView::ReplyListClientUsers(p@),
            IrcCommand::ReplyListOperatorUsers(p) => IrcCommandView::ReplyListOperatorUsers(p@),
            IrcCommand::ReplyListUnknownUsers(p) => IrcCommandView::ReplyListUnknownUsers(p@),
            IrcCommand::ReplyListChannels(p) => IrcCommandView::ReplyListChannels(p@),
            IrcCommand::ReplyListUserMe(p) => IrcCommandView::ReplyListUserMe(p@),
            IrcCommand::Join(p) => IrcCommandView::Join(p@),
            IrcCommand::PrivateMessage(p) => IrcCommandView::PrivateMessage(p@),
            IrcCommand::Notice(p) => IrcCommandView::Notice(p@),
        }
    }
}

/// Mathematical content of `IrcMessage`.
#[verifier::ext_equal]
pub struct IrcMessageView {
    pub origin: Option<Seq<char>>,
    pub command_name: IrcCommandName,
    pub command: IrcCommandView,
}

/// One fully decoded protocol message.
#[derive(Debug)]
pub struct IrcMessage {
    /// The optional origin prefix: the server or sender the line came from.
    pub origin: Option<String>,
    pub command_name: IrcCommandName,
    pub command: IrcCommand,
}

impl View for IrcMessage {
    type V = IrcMessageView;

    open spec fn view(&self) -> IrcMessageView {
        IrcMessageView {
            origin: self.origin.deep_view(),
            command_name: self.command_name,
            command: self.command@,
        }
    }
}

impl IrcMessage {
    /// The tag always agrees with the variant carried in `command`.
    pub open spec fn wf(&self) -> bool {
        self.command_name == self.command@.name()
    }

    pub fn new(origin: Option<String>, command_name: IrcCommandName, command: IrcCommand) -> (r:
        IrcMessage)
        requires
            command_name == command@.name(),
        ensures
            r@ == (IrcMessageView { origin: origin.deep_view(), command_name, command: command@ }),
            r.wf(),
    {
        IrcMessage { origin, command_name, command }
    }
}

/// Why a framed line failed to decode.
#[derive(Debug, Copy, Clone, PartialEq, Eq, Structural)]
pub enum DecodeErrorKind {
    /// The line's bytes are not valid UTF-8 text.
    InvalidEncoding,
    /// The command token names no known command kind.
    UnrecognizedCommand,
    /// A field that the command's grammar expects is missing.
    MissingField,
    /// A count field is not a base-10 number that fits the native word.
    InvalidNumber,
    /// A server-originated JOIN names more than one channel.
    MalformedJoin,
    /// A capability list ends in something other than the fixed sentinel
    /// phrase.
    MissingSentinel,
}

/// A recoverable decode failure: the raw bytes of the offending line,
/// delimiter included, and the reason it was rejected. The line has been
/// consumed, so framing continues with the next line.
#[derive(Debug, Clone, PartialEq)]
pub struct DecodeError {
    pub line: Vec<u8>,
    pub reason: DecodeErrorKind,
}

} // verus!
