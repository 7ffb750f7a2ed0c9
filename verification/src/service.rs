//! The client itself: its immutable configuration, the strings it
//! derives from it for the token request and the WebSocket handshake,
//! the reading of the access token out of the token endpoint's reply,
//! and the dispatch of inbound envelopes.

use vstd::prelude::*;
use vstd::string::StringExecFns;

use crate::json;
use crate::text::str_eq;

verus! {

/// Relies on the base64 crate's STANDARD engine (`Engine::encode`): the
/// encoding is a function of the input bytes alone; `base64_of` names it.
pub uninterp spec fn base64_of(bytes: Seq<u8>) -> Seq<char>;

#[verifier::external_body]
fn base64_standard(bytes: &[u8]) -> (encoded: String)
    ensures
        encoded@ == base64_of(bytes@),
{
    base64::Engine::encode(&base64::prelude::BASE64_STANDARD, bytes)
}

/// The UTF-8 bytes of `client_id:client_secret`, the text whose
/// base64 encoding the Basic-authorization header carries.
pub open spec fn basic_credentials(client_id: Seq<char>, client_secret: Seq<char>) -> Seq<u8> {
    vstd::utf8::encode_utf8(client_id + ":"@ + client_secret)
}

/// What the dispatcher decided about one inbound text frame.
#[derive(Debug, Clone, PartialEq, Eq)]
pub enum Dispatch {
    /// The frame was not well-formed JSON: it is logged and dropped,
    /// nothing is enqueued and no handler runs.
    Invalid,
    /// The frame parsed, but its `module` field is absent or is not the
    /// string `"message"`: nothing is shown and no handler runs.
    Ignored,
    /// A `"message"` envelope: `pretty` is the rendering of its
    /// `content` member to show, and the handler for a newly created
    /// user runs exactly when `user_created` holds.
    Message { pretty: String, user_created: bool },
}

/// The `module` discriminator of a parsed envelope, when it is a string.
pub open spec fn envelope_module(v: serde_json::Value) -> Option<Seq<char>> {
    json::str_field(v, "module"@)
}

/// The `event` field inside the `content` member of a parsed envelope,
/// when it is a string.
pub open spec fn envelope_event(v: serde_json::Value) -> Option<Seq<char>> {
    json::text_of(json::field_or_null(json::field_or_null(v, "content"@), "event"@))
}

/// The client's immutable configuration: one credential, one gateway
/// URL, and the fixed OAuth base.
pub struct WebSocketService {
    pub account_id: String,
    pub client_id: String,
    pub client_secret: String,
    pub url: String,
    pub oauth_url: String,
}

impl WebSocketService {
    pub fn new(account_id: String, client_id: String, client_secret: String, url: String) -> (s: Self)
        ensures
            s.account_id == account_id,
            s.client_id == client_id,
            s.client_secret == client_secret,
            s.url == url,
            s.oauth_url@ == "https://zoom.us/oauth/"@,
    {
        Self {
            account_id,
            client_id,
            client_secret,
            url,
            oauth_url: String::from_str("https://zoom.us/oauth/"),
        }
    }

    /// The URL of the token request: the OAuth base, the token path and
    /// query, and the account identifier.
    pub fn token_request_url(&self) -> (u: String)
        ensures
            u@ == self.oauth_url@ + "token?grant_type=account_credentials&account_id="@
                + self.account_id@,
    {
        let mut u: String = self.oauth_url.clone();
        u.append("token?grant_type=account_credentials&account_id=");
        u.append(self.account_id.as_str());
        u
    }

    /// The value of the Authorization header of the token request:
    /// `Basic` and the base64 encoding of `client_id:client_secret`.
    pub fn basic_auth_header(&self) -> (h: String)
        ensures
            h@ == "Basic "@ + base64_of(basic_credentials(self.client_id@, self.client_secret@)),
    {
        let mut creds: String = self.client_id.clone();
        creds.append(":");
        creds.append(self.client_secret.as_str());
        let encoded = base64_standard(creds.as_str().as_bytes());
        let mut h: String = String::from_str("Basic ");
        h.append(encoded.as_str());
        h
    }

    /// The URL of the WebSocket handshake: the configured gateway URL
    /// with the access token appended.
    pub fn ws_url(&self, access_token: &str) -> (u: String)
        ensures
            u@ == self.url@ + "&access_token="@ + access_token@,
    {
        let mut u: String = self.url.clone();
        u.append("&access_token=");
        u.append(access_token);
        u
    }

    /// The `access_token` string field of the token endpoint's reply
    /// body: `Some` exactly when the body is JSON whose `access_token`
    /// member is a string. A transport failure, a non-JSON body and a
    /// missing or non-string field all leave the caller without a token,
    /// and one failed acquisition aborts the whole run.
    pub fn extract_access_token(body: &str) -> (t: Option<String>)
        ensures
            json::parsed(body@) is None ==> t is None,
            json::parsed(body@) matches Some(v) ==> (match t {
                Some(tok) => json::str_field(v, "access_token"@) == Some(tok@),
                None => json::str_field(v, "access_token"@) is None,
            }),
    {
        match json::parse_json(body) {
            None => None,
            Some(v) => json::as_text(json::index_field(&v, "access_token")),
        }
    }

    /// Routes one inbound text frame. The frame either is not JSON
    /// (`Invalid`), or carries no `module == "message"` discriminator
    /// (`Ignored`), or is a message envelope whose `content` is rendered
    /// for observability and whose `content.event` selects the handler:
    /// the only entry of the table is `user.created`.
    pub fn message_handler(&self, message: &str) -> (d: Dispatch)
        ensures
            d is Invalid <==> json::parsed(message@) is None,
            json::parsed(message@) matches Some(v) ==> (if envelope_module(v)
                == Some("message"@) {
                d matches Dispatch::Message { pretty, user_created } && pretty@ == json::pretty_of(
                    json::field_or_null(v, "content"@),
                ) && (user_created <==> envelope_event(v) == Some("user.created"@))
            } else {
                d is Ignored
            }),
    {
        match json::parse_json(message) {
            None => Dispatch::Invalid,
            Some(v) => {
                let module = json::as_text(json::index_field(&v, "module"));
                let is_message = match module {
                    Some(m) => str_eq(m.as_str(), "message"),
                    None => false,
                };
                if is_message {
                    let content = json::index_field(&v, "content");
                    let pretty = json::to_pretty(content);
                    let event = json::as_text(json::index_field(content, "event"));
                    let user_created = match event {
                        Some(e) => str_eq(e.as_str(), "user.created"),
                        None => false,
                    };
                    Dispatch::Message { pretty, user_created }
                } else {
                    Dispatch::Ignored
                }
            },
        }
    }
}

} // verus!
