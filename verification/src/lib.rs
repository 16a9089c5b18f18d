//! Sends formatted notification messages to a Discord channel through the
//! bot REST API: one HTTP POST of a JSON embed payload, authenticated with a
//! bot token, with non-success statuses mapped to a typed error.
//!
//! The library builds and checks everything that can be stated exactly: the
//! endpoint URL, the authorization header, the JSON body with its escaping,
//! and the mapping from HTTP status to success or failure.  The caller
//! performs the actual network exchange with the parts assembled here.

pub mod bot;
pub mod embed;
pub mod error;
pub mod json;

pub use bot::DiscordBot;
pub use bot::RequestParts;
pub use bot::interpret_response;
pub use bot::interpret_status;
pub use embed::DEFAULT_COLOR;
pub use embed::EmbedMessage;
pub use error::NotifyError;
pub use json::u32_to_decimal_string;
