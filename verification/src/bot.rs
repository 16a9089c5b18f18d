//! The notification client: connection parameters fixed at construction,
//! and the assembly of the one outbound POST that each send operation
//! issues, together with the reading of its outcome.

use vstd::prelude::*;
use crate::embed::{EmbedMessage, EmbedView, spec_body_json, DEFAULT_COLOR};
use crate::error::NotifyError;

verus! {

/// The API root used when none is overridden.
pub fn default_api_base_url() -> (s: &'static str)
    ensures
        s@ == "https://discord.com/api/v9"@,
{
    "https://discord.com/api/v9"
}

/// The channel-message endpoint under a given API root.
pub open spec fn spec_message_url(base: Seq<char>, channel_id: Seq<char>) -> Seq<char> {
    base + "/channels/"@ + channel_id + "/messages"@
}

/// The value of the `Authorization` header for a given bot token.
pub open spec fn spec_auth_header(token: Seq<char>) -> Seq<char> {
    "Bot "@ + token
}

/// The embed that a plain notification carries: the client's identifier as
/// title, the message as description, the default colour, and no image.
pub open spec fn spec_notification_embed(identifier: Seq<char>, message: Seq<char>) -> EmbedView {
    EmbedView { title: identifier, description: message, color: DEFAULT_COLOR, image_url: None }
}

/// Whether an HTTP status reports success.
pub open spec fn spec_is_success(status: u16) -> bool {
    200 <= status < 300
}

/// Everything that determines one outbound POST: where it goes, how it
/// authenticates, and the body it carries.  The caller is expected to issue
/// exactly one request from one value of this type.
pub struct RequestParts {
    pub url: String,
    pub auth_header: String,
    pub body: String,
}

/// A notification client: immutable after construction, safe to share.
#[derive(Clone)]
pub struct DiscordBot {
    /// Display identity, used as the title of plain notifications.
    pub identifier: String,
    /// The bot token: a secret, carried only into the authorization header.
    pub token: String,
    /// Opaque identifier of the destination channel.
    pub channel_id: String,
    /// The API root; overridable so tests can point at a local server.
    pub api_base_url: String,
}

impl DiscordBot {
    /// Creates a client against the default API root.  The caller hands in
    /// the token from its credential source; an absent token is a
    /// configuration error, returned before any request could be formed.
    pub fn new(identifier: &str, channel_id: &str, token: Option<String>) -> (r: Result<
        DiscordBot,
        NotifyError,
    >)
        ensures
            match r {
                Ok(bot) => token is Some && bot.identifier@ == identifier@ && bot.token@
                    == token->Some_0@ && bot.channel_id@ == channel_id@ && bot.api_base_url@
                    == "https://discord.com/api/v9"@,
                Err(e) => token is None && e is Configuration,
            },
    {
        Self::new_with_base_url(identifier, channel_id, "https://discord.com/api/v9", token)
    }

    /// Creates a client with an explicit API root; otherwise as `new`.
    pub fn new_with_base_url(
        identifier: &str,
        channel_id: &str,
        base_url: &str,
        token: Option<String>,
    ) -> (r: Result<DiscordBot, NotifyError>)
        ensures
            match r {
                Ok(bot) => token is Some && bot.identifier@ == identifier@ && bot.token@
                    == token->Some_0@ && bot.channel_id@ == channel_id@ && bot.api_base_url@
                    == base_url@,
                Err(e) => token is None && e is Configuration,
            },
    {
        match token {
            Some(t) => Ok(
                DiscordBot {
                    identifier: identifier.to_owned(),
                    token: t,
                    channel_id: channel_id.to_owned(),
                    api_base_url: base_url.to_owned(),
                },
            ),
            None => Err(NotifyError::Configuration),
        }
    }

    /// The endpoint this client posts to.
    pub fn message_url(&self) -> (url: String)
        ensures
            url@ == spec_message_url(self.api_base_url@, self.channel_id@),
    {
        let mut url = self.api_base_url.clone();
        url.append("/channels/");
        url.append(self.channel_id.as_str());
        url.append("/messages");
        url
    }

    /// The value this client sends in the `Authorization` header.
    pub fn auth_header(&self) -> (h: String)
        ensures
            h@ == spec_auth_header(self.token@),
    {
        let mut h = "Bot ".to_owned();
        h.append(self.token.as_str());
        h
    }

    /// Assembles the one POST that a plain notification issues: the
    /// channel-message endpoint, the bot authorization header, and a body
    /// holding a single embed with the client's identifier as title, the
    /// message as description and the default colour.
    pub fn notification_request(&self, message: &str) -> (req: RequestParts)
        ensures
            req.url@ == spec_message_url(self.api_base_url@, self.channel_id@),
            req.auth_header@ == spec_auth_header(self.token@),
            req.body@ == spec_body_json(spec_notification_embed(self.identifier@, message@)),
    {
        let embed = EmbedMessage::new(self.identifier.as_str(), message, DEFAULT_COLOR, None);
        RequestParts {
            url: self.message_url(),
            auth_header: self.auth_header(),
            body: embed.body_json(),
        }
    }

    /// Assembles the POST that an advanced notification issues: the same
    /// endpoint and header, with a body holding a single embed built from
    /// the caller's title, description, colour and optional image URL.
    pub fn advanced_notification_request(
        &self,
        title: &str,
        description: &str,
        color: u32,
        image_url: Option<&str>,
    ) -> (req: RequestParts)
        ensures
            req.url@ == spec_message_url(self.api_base_url@, self.channel_id@),
            req.auth_header@ == spec_auth_header(self.token@),
            req.body@ == spec_body_json(
                EmbedView {
                    title: title@,
                    description: description@,
                    color: color,
                    image_url: match image_url {
                        Some(u) => Some(u@),
                        None => None::<Seq<char>>,
                    },
                },
            ),
    {
        let embed = EmbedMessage::new(title, description, color, image_url);
        RequestParts {
            url: self.message_url(),
            auth_header: self.auth_header(),
            body: embed.body_json(),
        }
    }
}

/// A plain notification is the advanced one specialised: its body is the
/// advanced body built from the client's identifier as title, the message
/// as description, the default colour and no image.
pub proof fn lemma_notification_is_default_advanced(identifier: Seq<char>, message: Seq<char>)
    ensures
        spec_body_json(spec_notification_embed(identifier, message)) == spec_body_json(
            EmbedView {
                title: identifier,
                description: message,
                color: DEFAULT_COLOR,
                image_url: None,
            },
        ),
{
}

/// Reads the outcome of a plain notification: success exactly on a 2xx
/// status, and otherwise an error carrying the status.
pub fn interpret_status(status: u16) -> (r: Result<(), NotifyError>)
    ensures
        r is Ok <==> spec_is_success(status),
        !spec_is_success(status) ==> r == Err::<(), NotifyError>(
            NotifyError::Request { status: Some(status) },
        ),
{
    if 200 <= status && status < 300 {
        Ok(())
    } else {
        Err(NotifyError::Request { status: Some(status) })
    }
}

/// Reads the outcome of an advanced notification: on a 2xx status the
/// response body is handed back unchanged for the caller to decode; on any
/// other status the error carries that status.
pub fn interpret_response(status: u16, response_body: String) -> (r: Result<String, NotifyError>)
    ensures
        r is Ok <==> spec_is_success(status),
        spec_is_success(status) ==> r->Ok_0@ == response_body@,
        !spec_is_success(status) ==> r == Err::<String, NotifyError>(
            NotifyError::Request { status: Some(status) },
        ),
{
    if 200 <= status && status < 300 {
        Ok(response_body)
    } else {
        Err(NotifyError::Request { status: Some(status) })
    }
}

/// The error reported when the exchange fails in transport, before any
/// status arrived.
pub fn transport_error() -> (e: NotifyError)
    ensures
        e == (NotifyError::Request { status: None }),
{
    NotifyError::Request { status: None }
}

} // verus!
