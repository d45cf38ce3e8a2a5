//! A verified decoder for a line-oriented chat protocol in the IRC family.
//!
//! Raw bytes arrive from a transport in arbitrary chunks; the decoder
//! reassembles them into complete lines terminated by a carriage-return /
//! line-feed pair, tokenizes each line with a cursor-based reader, and
//! dispatches on the command token to produce a fully typed message or a
//! recoverable decode error.

pub mod message;
pub mod response_parser;
pub mod text;
pub mod tokenizer;

pub use message::Channel;
pub use message::DecodeError;
pub use message::DecodeErrorKind;
pub use message::IrcCommand;
pub use message::IrcCommandName;
pub use message::IrcMessage;
pub use message::JoinParameters;
pub use message::Nickname;
pub use message::PrivateMessageParameters;
pub use message::ReplyCreatedParams;
pub use message::ReplyISupportParams;
pub use message::ReplyListChannelsParams;
pub use message::ReplyListClientUsersParams;
pub use message::ReplyListOperatorUsersParams;
pub use message::ReplyListUnknownUsersParams;
pub use message::ReplyListUserMeParams;
pub use message::ReplyMyInfoParams;
pub use message::ReplyWelcomeParams;
pub use message::ReplyYourHostParams;
pub use message::User;
pub use message::UserOrChannel;
pub use response_parser::ResponseParser;
pub use tokenizer::Tokenizer;
