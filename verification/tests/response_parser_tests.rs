use irc_codec::Channel;
use irc_codec::DecodeErrorKind;
use irc_codec::IrcCommand;
use irc_codec::IrcCommandName;
use irc_codec::IrcMessage;
use irc_codec::JoinParameters;
use irc_codec::Nickname;
use irc_codec::PrivateMessageParameters;
use irc_codec::ReplyCreatedParams;
use irc_codec::ReplyISupportParams;
use irc_codec::ReplyListChannelsParams;
use irc_codec::ReplyListClientUsersParams;
use irc_codec::ReplyListOperatorUsersParams;
use irc_codec::ReplyListUnknownUsersParams;
use irc_codec::ReplyListUserMeParams;
use irc_codec::ReplyMyInfoParams;
use irc_codec::ReplyWelcomeParams;
use irc_codec::ReplyYourHostParams;
use irc_codec::ResponseParser;
use irc_codec::User;
use irc_codec::UserOrChannel;

fn parse_line(line: &str) -> IrcMessage {
    let mut p = ResponseParser::new();
    p.ingest(line.as_bytes());
    let parsed_msg = p
        .parse_next_line()
        .expect("Failed to parse message")
        .expect("line should decode cleanly");
    assert!(p.parse_next_line().is_none());
    parsed_msg
}

#[test]
fn test_parse_multiple_lines() {
    let mut p = ResponseParser::new();
    p.ingest("JOIN #chan1\r\nJOIN #chan2\r\n".as_bytes());
    let msg1 = p.parse_next_line().unwrap().unwrap();
    assert_eq!(msg1.origin, None);
    assert_eq!(msg1.command_name, IrcCommandName::Join);
    assert_eq!(
        msg1.command,
        IrcCommand::Join(JoinParameters::new(&Channel("#chan1".to_string())))
    );
    let msg2 = p.parse_next_line().unwrap().unwrap();
    assert_eq!(msg2.origin, None);
    assert_eq!(msg2.command_name, IrcCommandName::Join);
    assert_eq!(
        msg2.command,
        IrcCommand::Join(JoinParameters::new(&Channel("#chan2".to_string())))
    );

    assert!(p.parse_next_line().is_none());
}

#[test]
fn test_parse_welcome() {
    let msg =
        parse_line(":irc.example.com 001 phill :Welcome to the IRC Network, phill!s@localhost\r\n");
    assert_eq!(msg.origin, Some("irc.example.com".to_string()));
    assert_eq!(msg.command_name, IrcCommandName::ReplyWelcome);
    assert_eq!(
        msg.command,
        IrcCommand::ReplyWelcome(ReplyWelcomeParams::new(
            &Nickname("phill".to_string()),
            "Welcome to the IRC Network, phill!s@localhost",
        ))
    );
}

#[test]
fn test_parse_your_host() {
    let msg =
        parse_line(":irc.example.com 002 phill :Your host is irc.example.com, running version fake\r\n");
    assert_eq!(msg.origin, Some("irc.example.com".to_string()));
    assert_eq!(msg.command_name, IrcCommandName::ReplyYourHost);
    assert_eq!(
        msg.command,
        IrcCommand::ReplyYourHost(ReplyYourHostParams::new(
            &Nickname("phill".to_string()),
            "Your host is irc.example.com, running version fake",
        ))
    );
}

#[test]
fn test_parse_created() {
    let msg = parse_line(":irc.example.com 003 phill :This server was created on caffeine\r\n");
    assert_eq!(msg.origin, Some("irc.example.com".to_string()));
    assert_eq!(msg.command_name, IrcCommandName::ReplyCreated);
    assert_eq!(
        msg.command,
        IrcCommand::ReplyCreated(ReplyCreatedParams::new(
            &Nickname("phill".to_string()),
            "This server was created on caffeine",
        ))
    );
}

#[test]
fn test_parse_my_info() {
    // One message that does specify the channels with parameters
    let msg = parse_line(
        ":copper.libera.chat 004 phillipt copper.libera.chat solanum-1.0-dev DGIMQRSZaghilopsuwz CFILMPQRSTbcefgijklmnopqrstuvz bkloveqjfI\r\n",
    );
    assert_eq!(msg.origin, Some("copper.libera.chat".to_string()));
    assert_eq!(msg.command_name, IrcCommandName::ReplyMyInfo);
    assert_eq!(
        msg.command,
        IrcCommand::ReplyMyInfo(ReplyMyInfoParams::new(
            &Nickname("phillipt".to_string()),
            &"copper.libera.chat",
            &"solanum-1.0-dev",
            &"DGIMQRSZaghilopsuwz",
            &"CFILMPQRSTbcefgijklmnopqrstuvz",
            Some(&"bkloveqjfI"),
        ))
    );

    // And a message that doesn't specify the channels with parameters
    let msg = parse_line(
        ":copper.libera.chat 004 phillipt copper.libera.chat solanum-1.0-dev DGIMQRSZaghilopsuwz CFILMPQRSTbcefgijklmnopqrstuvz\r\n",
    );
    assert_eq!(msg.origin, Some("copper.libera.chat".to_string()));
    assert_eq!(msg.command_name, IrcCommandName::ReplyMyInfo);
    assert_eq!(
        msg.command,
        IrcCommand::ReplyMyInfo(ReplyMyInfoParams::new(
            &Nickname("phillipt".to_string()),
            &"copper.libera.chat",
            &"solanum-1.0-dev",
            &"DGIMQRSZaghilopsuwz",
            &"CFILMPQRSTbcefgijklmnopqrstuvz",
            None,
        ))
    );
}

#[test]
fn test_parse_i_support() {
    let msg = parse_line(
        ":copper.libera.chat 005 phillipt ACCOUNTEXTBAN=a ETRACE FNC WHOX KNOCK CALLERID=g MONITOR=100 SAFELIST ELIST=CMNTU CHANTYPES=# EXCEPTS INVEX :are supported by this server\r\n",
    );
    assert_eq!(msg.origin, Some("copper.libera.chat".to_string()));
    assert_eq!(msg.command_name, IrcCommandName::ReplyISupport);
    assert_eq!(
        msg.command,
        IrcCommand::ReplyISupport(ReplyISupportParams::new(
            &Nickname("phillipt".to_string()),
            &[
                "ACCOUNTEXTBAN=a".to_string(),
                "ETRACE".to_string(),
                "FNC".to_string(),
                "WHOX".to_string(),
                "KNOCK".to_string(),
                "CALLERID=g".to_string(),
                "MONITOR=100".to_string(),
                "SAFELIST".to_string(),
                "ELIST=CMNTU".to_string(),
                "CHANTYPES=#".to_string(),
                "EXCEPTS".to_string(),
                "INVEX".to_string(),
            ],
        ),)
    )
}

#[test]
fn test_parse_list_client_users() {
    let msg =
        parse_line(":copper.libera.chat 251 phillipt :There are 68 users and 33291 invisible on 28 servers\r\n");
    assert_eq!(msg.origin, Some("copper.libera.chat".to_string()));
    assert_eq!(msg.command_name, IrcCommandName::ReplyListClientUsers);
    assert_eq!(
        msg.command,
        IrcCommand::ReplyListClientUsers(ReplyListClientUsersParams::new(
            &Nickname::new("phillipt"),
            "There are 68 users and 33291 invisible on 28 servers",
        ))
    )
}

#[test]
fn test_parse_list_operator_users() {
    let msg = parse_line(":copper.libera.chat 252 phillipt 40 :IRC Operators online\r\n");
    assert_eq!(msg.origin, Some("copper.libera.chat".to_string()));
    assert_eq!(msg.command_name, IrcCommandName::ReplyListOperatorUsers);
    assert_eq!(
        msg.command,
        IrcCommand::ReplyListOperatorUsers(ReplyListOperatorUsersParams::new(
            &Nickname::new("phillipt"),
            40,
            "IRC Operators online",
        ))
    )
}

#[test]
fn test_parse_list_unknown_users() {
    let msg = parse_line(":copper.libera.chat 253 phillipt 90 :unknown connection(s)\r\n");
    assert_eq!(msg.origin, Some("copper.libera.chat".to_string()));
    assert_eq!(msg.command_name, IrcCommandName::ReplyListUnknownUsers);
    assert_eq!(
        msg.command,
        IrcCommand::ReplyListUnknownUsers(ReplyListUnknownUsersParams::new(
            &Nickname::new("phillipt"),
            90,
            "unknown connection(s)",
        ))
    )
}

#[test]
fn test_parse_list_channels() {
    let msg = parse_line(":copper.libera.chat 254 phillipt 22650 :channels formed\r\n");
    assert_eq!(msg.origin, Some("copper.libera.chat".to_string()));
    assert_eq!(msg.command_name, IrcCommandName::ReplyListChannels);
    assert_eq!(
        msg.command,
        IrcCommand::ReplyListChannels(ReplyListChannelsParams::new(
            &Nickname::new("phillipt"),
            22650,
            "channels formed",
        ))
    )
}

#[test]
fn test_parse_list_user_me() {
    let msg = parse_line(":copper.libera.chat 255 phillipt :I have 2192 clients and 1 servers\r\n");
    assert_eq!(msg.origin, Some("copper.libera.chat".to_string()));
    assert_eq!(msg.command_name, IrcCommandName::ReplyListUserMe);
    assert_eq!(
        msg.command,
        IrcCommand::ReplyListUserMe(ReplyListUserMeParams::new(
            &Nickname::new("phillipt"),
            "I have 2192 clients and 1 servers",
        ))
    )
}

#[test]
fn test_chunked_ingestion_matches_single_call() {
    // Framing idempotence on concrete input: one byte at a time gives the
    // same message as one call with the whole stream.
    let stream = "JOIN #chan1\r\n:srv 252 nick 7 :ops\r\n";
    let mut whole = ResponseParser::new();
    whole.ingest(stream.as_bytes());
    let mut chunked = ResponseParser::new();
    for b in stream.as_bytes() {
        chunked.ingest(&[*b]);
    }
    let w1 = whole.parse_next_line().unwrap().unwrap();
    let c1 = chunked.parse_next_line().unwrap().unwrap();
    assert_eq!(w1.command, c1.command);
    let w2 = whole.parse_next_line().unwrap().unwrap();
    let c2 = chunked.parse_next_line().unwrap().unwrap();
    assert_eq!(w2.command, c2.command);
    assert!(whole.parse_next_line().is_none());
    assert!(chunked.parse_next_line().is_none());
}

#[test]
fn test_partial_line_leaves_buffer_untouched() {
    // No partial consumption: with no delimiter buffered yet, nothing is
    // returned, and a later ingest completing the line still parses.
    let mut p = ResponseParser::new();
    p.ingest("JOIN #ch".as_bytes());
    assert!(p.parse_next_line().is_none());
    assert!(p.parse_next_line().is_none());
    p.ingest("an1\r\n".as_bytes());
    let msg = p.parse_next_line().unwrap().unwrap();
    assert_eq!(
        msg.command,
        IrcCommand::Join(JoinParameters::new(&Channel("#chan1".to_string())))
    );
}

#[test]
fn test_isupport_sentinel_excluded_from_entries() {
    let msg = parse_line(":srv 005 nick A B C :are supported by this server\r\n");
    assert_eq!(msg.origin, Some("srv".to_string()));
    assert_eq!(
        msg.command,
        IrcCommand::ReplyISupport(ReplyISupportParams::new(
            &Nickname::new("nick"),
            &["A".to_string(), "B".to_string(), "C".to_string()],
        ))
    );
}

#[test]
fn test_isupport_missing_sentinel_is_rejected() {
    let mut p = ResponseParser::new();
    p.ingest(":srv 005 nick A :bogus trailer\r\n".as_bytes());
    let err = p.parse_next_line().unwrap().unwrap_err();
    assert_eq!(err.reason, DecodeErrorKind::MissingSentinel);
}

#[test]
fn test_non_numeric_count_is_recoverable() {
    // A malformed count yields an error value and does not destroy the
    // already-buffered following line.
    let mut p = ResponseParser::new();
    p.ingest(":srv 252 nick notanumber :text\r\nJOIN #ok\r\n".as_bytes());
    let err = p.parse_next_line().unwrap().unwrap_err();
    assert_eq!(err.reason, DecodeErrorKind::InvalidNumber);
    assert_eq!(err.line, ":srv 252 nick notanumber :text\r\n".as_bytes());
    let msg = p.parse_next_line().unwrap().unwrap();
    assert_eq!(
        msg.command,
        IrcCommand::Join(JoinParameters::new(&Channel("#ok".to_string())))
    );
    assert!(p.parse_next_line().is_none());
}

#[test]
fn test_multi_channel_join_is_rejected() {
    let mut p = ResponseParser::new();
    p.ingest("JOIN #a #b\r\n".as_bytes());
    let err = p.parse_next_line().unwrap().unwrap_err();
    assert_eq!(err.reason, DecodeErrorKind::MalformedJoin);
}

#[test]
fn test_unrecognized_command_is_rejected() {
    let mut p = ResponseParser::new();
    p.ingest(":srv BOGUS nick :hello\r\n".as_bytes());
    let err = p.parse_next_line().unwrap().unwrap_err();
    assert_eq!(err.reason, DecodeErrorKind::UnrecognizedCommand);
}

#[test]
fn test_missing_field_is_rejected() {
    // A welcome reply whose nickname is the last token: no space follows it,
    // so the nickname field cannot be framed.
    let mut p = ResponseParser::new();
    p.ingest("001 nick\r\n".as_bytes());
    let err = p.parse_next_line().unwrap().unwrap_err();
    assert_eq!(err.reason, DecodeErrorKind::MissingField);
}

#[test]
fn test_invalid_encoding_is_recoverable() {
    let mut p = ResponseParser::new();
    p.ingest(&[0xff, 0xfe, 13, 10]);
    p.ingest("JOIN #ok\r\n".as_bytes());
    let err = p.parse_next_line().unwrap().unwrap_err();
    assert_eq!(err.reason, DecodeErrorKind::InvalidEncoding);
    assert_eq!(err.line, vec![0xff, 0xfe, 13, 10]);
    let msg = p.parse_next_line().unwrap().unwrap();
    assert_eq!(msg.command_name, IrcCommandName::Join);
}

#[test]
fn test_non_ascii_line_decodes() {
    // Exercises the UTF-8 decode of framed bytes on a multi-byte character.
    let msg = parse_line("JOIN #caf\u{e9}\r\n");
    assert_eq!(
        msg.command,
        IrcCommand::Join(JoinParameters::new(&Channel("#caf\u{e9}".to_string())))
    );
}

#[test]
fn test_parse_private_message() {
    let msg = parse_line(":srv PRIVMSG bob #chan :hello there\r\n");
    assert_eq!(msg.origin, Some("srv".to_string()));
    assert_eq!(msg.command_name, IrcCommandName::PrivateMessage);
    assert_eq!(
        msg.command,
        IrcCommand::PrivateMessage(PrivateMessageParameters::new(
            &User("bob".to_string()),
            &UserOrChannel("#chan".to_string()),
            "hello there",
        ))
    );
}

#[test]
fn test_parse_notice() {
    let msg = parse_line(":srv NOTICE bob #chan :fyi\r\n");
    assert_eq!(msg.command_name, IrcCommandName::Notice);
    assert_eq!(
        msg.command,
        IrcCommand::Notice(PrivateMessageParameters::new(
            &User("bob".to_string()),
            &UserOrChannel("#chan".to_string()),
            "fyi",
        ))
    );
}

#[test]
fn test_trailing_message_tolerates_absent_colon() {
    let msg = parse_line(":srv 001 nick Welcome\r\n");
    assert_eq!(
        msg.command,
        IrcCommand::ReplyWelcome(ReplyWelcomeParams::new(&Nickname::new("nick"), "Welcome"))
    );
}

#[test]
fn test_str_to_usize_exact_values() {
    assert_eq!(irc_codec::response_parser::str_to_usize("0"), Ok(0));
    assert_eq!(irc_codec::response_parser::str_to_usize("22650"), Ok(22650));
    assert_eq!(
        irc_codec::response_parser::str_to_usize(""),
        Err(DecodeErrorKind::InvalidNumber)
    );
    assert_eq!(
        irc_codec::response_parser::str_to_usize("12a"),
        Err(DecodeErrorKind::InvalidNumber)
    );
    assert_eq!(
        irc_codec::response_parser::str_to_usize("+40"),
        Err(DecodeErrorKind::InvalidNumber)
    );
    assert_eq!(
        irc_codec::response_parser::str_to_usize("99999999999999999999999999"),
        Err(DecodeErrorKind::InvalidNumber)
    );
}

#[test]
fn test_tag_matches_variant_on_every_decoded_message() {
    let lines = [
        ":irc.example.com 001 phill :Welcome\r\n",
        ":srv 004 n s v um cm\r\n",
        ":srv 005 nick A :are supported by this server\r\n",
        "JOIN #chan\r\n",
        ":srv PRIVMSG a b :m\r\n",
    ];
    for line in lines {
        let msg = parse_line(line);
        let tag_of_variant = match &msg.command {
            IrcCommand::ReplyWelcome(_) => IrcCommandName::ReplyWelcome,
            IrcCommand::ReplyYourHost(_) => IrcCommandName::ReplyYourHost,
            IrcCommand::ReplyCreated(_) => IrcCommandName::ReplyCreated,
            IrcCommand::ReplyMyInfo(_) => IrcCommandName::ReplyMyInfo,
            IrcCommand::ReplyISupport(_) => IrcCommandName::ReplyISupport,
            IrcCommand::ReplyListClientUsers(_) => IrcCommandName::ReplyListClientUsers,
            IrcCommand::ReplyListOperatorUsers(_) => IrcCommandName::ReplyListOperatorUsers,
            IrcCommand::ReplyListUnknownUsers(_) => IrcCommandName::ReplyListUnknownUsers,
            IrcCommand::ReplyListChannels(_) => IrcCommandName::ReplyListChannels,
            IrcCommand::ReplyListUserMe(_) => IrcCommandName::ReplyListUserMe,
            IrcCommand::Join(_) => IrcCommandName::Join,
            IrcCommand::PrivateMessage(_) => IrcCommandName::PrivateMessage,
            IrcCommand::Notice(_) => IrcCommandName::Notice,
        };
        assert_eq!(msg.command_name, tag_of_variant);
    }
}
