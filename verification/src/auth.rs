//! The authorization callout: it answers a server's question whether a user may connect.
//!
//! A question is a signed request, sealed for the callout if the server has an encryption key. The
//! answer is signed by the callout's issuer and sealed for the server in the same case.
use async_nats::HeaderMap;
use crate::config;
use crate::control::Decision;
use crate::headers;
use crate::headers::get_header;
use crate::jwt;
use crate::jwt::{decode_auth_request, encode_auth_response, encode_user, AuthRequest};
use crate::keys;
use crate::keys::{KeyPair, PublicXKey, XKey};
use crate::text::{concatenate, from_utf8};
use vstd::prelude::*;
use vstd::string::*;

verus! {

/// The header with the public encryption key of the server that asks.
pub const XKEY_HEADER: &'static str = "Nats-Server-Xkey";

/// A callout for an account: the key by which it reads what is sealed for it, the key that signs its
/// answers, and whether a component decides.
pub struct AuthCallout {
    encryption_key: XKey,
    issuer_key: KeyPair,
    account: String,
    component: bool,
}

/// A message as the callout has received it: the bytes of the token in it, and the key of the
/// server, if the message was sealed and the answer is to be.
pub struct Received {
    pub token: Vec<u8>,
    pub peer: Option<PublicXKey>,
}

/// A request for authorization that awaits a verdict.
pub struct Pending {
    pub request: AuthRequest,
    pub peer: Option<PublicXKey>,
}

/// What the callout makes of a token.
pub enum Opening {
    /// It is refused with this answer.
    Refused(Vec<u8>),
    /// It is a request.
    Request(Pending),
}

/// The text of the server's key, if there is one.
pub open spec fn peer_text(peer: Option<PublicXKey>) -> Option<Seq<char>> {
    match peer {
        Some(key) => Some(key.text()),
        None => None,
    }
}

/// The text of the header with the server's key, if there is one.
pub open spec fn xkey_of(headers: Option<&HeaderMap>) -> Option<Seq<char>> {
    match headers {
        Some(h) => headers::first_value(*h, XKEY_HEADER@),
        None => None,
    }
}

/// What a [`Decision`] says when there is no component to make one, when it failed with a text,
/// and when it allows or denies the connection.
pub open spec fn is_allowed(verdict: Result<Option<Decision>, String>) -> bool {
    match verdict {
        Ok(Some(decision)) => decision.allowed,
        Ok(None) => true,
        Err(_) => false,
    }
}

/// The error with which a verdict that does not allow the connection is answered.
pub open spec fn refusal(verdict: Result<Option<Decision>, String>) -> Seq<char> {
    match verdict {
        Err(e) => "error in component: "@ + e@,
        Ok(_) => "denied"@,
    }
}

impl AuthCallout {
    /// The public key and the seed of the pair by which the callout reads what is sealed for it.
    pub closed spec fn encryption(&self) -> (Seq<char>, Seq<char>) {
        (self.encryption_key.public_text(), self.encryption_key.seed_text())
    }

    /// The public key and the seed of the issuer.
    pub closed spec fn issuer(&self) -> (Seq<char>, Seq<char>) {
        (self.issuer_key.public_text(), self.issuer_key.seed_text())
    }

    /// The account whose users the callout authorizes.
    pub closed spec fn account(&self) -> Seq<char> {
        self.account@
    }

    /// Whether a component decides on connections.
    pub closed spec fn has_component(&self) -> bool {
        self.component
    }

    /// `reply` is an answer of this callout: a token signed by the issuer, sealed for the server
    /// if it has a key.
    pub open spec fn is_reply(
        &self,
        peer: Option<Seq<char>>,
        user_nkey: Seq<char>,
        server_id: Seq<char>,
        user_jwt: Seq<char>,
        error: Seq<char>,
        reply: Seq<u8>,
    ) -> bool {
        exists|iat: u64| #[trigger]
            self.is_reply_at(peer, user_nkey, server_id, user_jwt, error, iat, reply)
    }

    /// `reply` is an answer of this callout that was signed in the second `iat`.
    pub open spec fn is_reply_at(
        &self,
        peer: Option<Seq<char>>,
        user_nkey: Seq<char>,
        server_id: Seq<char>,
        user_jwt: Seq<char>,
        error: Seq<char>,
        iat: u64,
        reply: Seq<u8>,
    ) -> bool {
        let token = vstd::utf8::encode_utf8(
            jwt::auth_response_token(
                user_nkey,
                server_id,
                user_jwt,
                error,
                self.issuer().1,
                iat,
            ),
        );
        match peer {
            Some(key) => {
                &&& keys::holds_for(reply, self.encryption().0, key, token)
                &&& reply.len() == token.len() + keys::BOX_OVERHEAD
            },
            None => reply == token,
        }
    }

    /// The callout of a configuration, or the text of what is wrong with one of its seeds.
    pub fn new_from_config(cfg: &config::AuthCallout) -> (r: Result<AuthCallout, String>)
        ensures
            match keys::curve_key_of_seed(cfg.encryption_key_seed@) {
                Err(e) => r matches Err(text) && text@ == e,
                Ok(public) => match keys::key_of_seed(cfg.signing_key_seed@) {
                    Err(e) => r matches Err(text) && text@ == e,
                    Ok(pair) => {
                        &&& r matches Ok(callout)
                        &&& callout.encryption() == (public, cfg.encryption_key_seed@)
                        &&& callout.issuer() == pair
                        &&& callout.account() == cfg.account@
                        &&& callout.has_component() == (cfg.component is Some)
                    },
                },
            },
    {
        let encryption_key = match XKey::from_seed(cfg.encryption_key_seed.as_str()) {
            Ok(key) => key,
            Err(e) => return Err(e),
        };
        let issuer_key = match KeyPair::from_seed(cfg.signing_key_seed.as_str()) {
            Ok(key) => key,
            Err(e) => return Err(e),
        };
        Ok(
            AuthCallout {
                encryption_key,
                issuer_key,
                account: cfg.account.clone(),
                component: cfg.component.is_some(),
            },
        )
    }

    /// What the component that decides on connections is to be called with, if there is one.
    pub fn component_context(&self) -> (r: Option<AuthorizerContext>)
        ensures
            r is Some <==> self.has_component(),
            r matches Some(context) ==> says_nothing(context),
    {
        if self.component {
            Some(authorizer_context())
        } else {
            None
        }
    }

    /// Takes the token out of a message: it is sealed if the server gives its key; a message
    /// without any header has no token. A failure is one that is not answered.
    pub fn receive(&self, headers: Option<&HeaderMap>, payload: &[u8]) -> (r: Result<
        Received,
        String,
    >)
        ensures
            match (headers, xkey_of(headers)) {
                (None, _) => {
                    &&& r matches Ok(received)
                    &&& received.token@ == Seq::<u8>::empty()
                    &&& received.peer is None
                },
                (Some(_), None) => {
                    &&& r matches Ok(received)
                    &&& received.token@ == payload@
                    &&& received.peer is None
                },
                (Some(_), Some(key)) => match keys::curve_key_error(key) {
                    Some(e) => r matches Err(text) && text@ == e,
                    None => match keys::opened(self.encryption().1, payload@, key) {
                        Err(e) => r matches Err(text) && text@ == e,
                        Ok(token) => {
                            &&& r matches Ok(received)
                            &&& received.token@ == token
                            &&& peer_text(received.peer) == Some(key)
                        },
                    },
                },
            },
    {
        let headers = match headers {
            Some(h) => h,
            None => return Ok(Received { token: Vec::new(), peer: None }),
        };
        match get_header(headers, XKEY_HEADER) {
            Some(key) => {
                let peer = match PublicXKey::from_public_key(key.as_str()) {
                    Ok(peer) => peer,
                    Err(e) => return Err(e),
                };
                match self.encryption_key.open(payload, &peer) {
                    Ok(token) => Ok(Received { token, peer: Some(peer) }),
                    Err(e) => Err(e),
                }
            },
            None => {
                let mut token: Vec<u8> = Vec::new();
                token.extend_from_slice(payload);
                assert(token@ =~= payload@);
                Ok(Received { token, peer: None })
            },
        }
    }

    /// Reads the request in a token. A token that is no request is answered with an error, for no
    /// user and no server.
    pub fn read_request(&self, received: Received) -> (r: Opening)
        requires
            vstd::utf8::valid_utf8(received.token@),
        ensures
            match jwt::decoded_auth_request(vstd::utf8::decode_utf8(received.token@)) {
                Ok(request) => {
                    &&& r matches Opening::Request(pending)
                    &&& pending.request@ == request
                    &&& pending.peer == received.peer
                },
                Err(e) => {
                    &&& r matches Opening::Refused(reply)
                    &&& self.is_reply(
                        peer_text(received.peer),
                        Seq::empty(),
                        Seq::empty(),
                        Seq::empty(),
                        "failed to decode JWT: "@ + e,
                        reply@,
                    )
                },
            },
    {
        let token = match from_utf8(received.token.as_slice()) {
            Ok(token) => token,
            Err(_) => String::new(),
        };
        match decode_auth_request(token.as_str()) {
            Ok(request) => Opening::Request(Pending { request, peer: received.peer }),
            Err(e) => {
                proof {
                    reveal_strlit("");
                    assert(""@ =~= Seq::<char>::empty());
                }
                let error = concatenate("failed to decode JWT: ", e.as_str());
                Opening::Refused(self.respond(&received.peer, "", "", "", error.as_str()))
            },
        }
    }

    /// Answers a request, given the verdict on it: what the authorizing component decided, how it
    /// failed, or nothing if there is no component. A user that is allowed in gets a token for
    /// the callout's account; a refusal carries an error and no token.
    pub fn decide(&self, pending: &Pending, verdict: Result<Option<Decision>, String>) -> (r: Vec<
        u8,
    >)
        ensures
            if is_allowed(verdict) {
                exists|iat: u64|
                    self.is_reply(
                        peer_text(pending.peer),
                        pending.request.user_nkey@,
                        pending.request.server_id@,
                        #[trigger] jwt::user_token(
                            pending.request.user_nkey@,
                            pending.request.user_nkey@,
                            self.account(),
                            self.issuer().1,
                            iat,
                        ),
                        Seq::empty(),
                        r@,
                    )
            } else {
                self.is_reply(
                    peer_text(pending.peer),
                    pending.request.user_nkey@,
                    pending.request.server_id@,
                    Seq::empty(),
                    refusal(verdict),
                    r@,
                )
            },
    {
        proof {
            reveal_strlit("");
            assert(""@ =~= Seq::<char>::empty());
        }
        let user = pending.request.user_nkey.as_str();
        let server = pending.request.server_id.as_str();
        match verdict {
            Err(e) => {
                let error = concatenate("error in component: ", e.as_str());
                self.respond(&pending.peer, user, server, "", error.as_str())
            },
            Ok(Some(decision)) if !decision.allowed => {
                self.respond(&pending.peer, user, server, "", "denied")
            },
            Ok(_) => {
                let seed = self.issuer_key.seed();
                let token = encode_user(user, user, self.account.as_str(), seed.as_str());
                let ghost iat = choose|iat: u64|
                    token@ == #[trigger] jwt::user_token(
                        user@,
                        user@,
                        self.account(),
                        self.issuer().1,
                        iat,
                    );
                let r = self.respond(&pending.peer, user, server, token.as_str(), "");
                assert(self.is_reply(
                    peer_text(pending.peer),
                    pending.request.user_nkey@,
                    pending.request.server_id@,
                    jwt::user_token(
                        pending.request.user_nkey@,
                        pending.request.user_nkey@,
                        self.account(),
                        self.issuer().1,
                        iat,
                    ),
                    Seq::empty(),
                    r@,
                ));
                r
            },
        }
    }

    /// An answer of the callout.
    pub fn respond(
        &self,
        peer: &Option<PublicXKey>,
        user_nkey: &str,
        server_id: &str,
        user_jwt: &str,
        error: &str,
    ) -> (r: Vec<u8>)
        ensures
            self.is_reply(peer_text(*peer), user_nkey@, server_id@, user_jwt@, error@, r@),
    {
        let seed = self.issuer_key.seed();
        let token = encode_auth_response(user_nkey, server_id, user_jwt, error, seed.as_str());
        let ghost iat = choose|iat: u64|
            token@ == #[trigger] jwt::auth_response_token(
                user_nkey@,
                server_id@,
                user_jwt@,
                error@,
                self.issuer().1,
                iat,
            );
        let r = match peer {
            Some(key) => self.encryption_key.seal(token.as_str().as_bytes(), key),
            None => token.as_str().as_bytes_vec(),
        };
        assert(self.is_reply_at(
            peer_text(*peer),
            user_nkey@,
            server_id@,
            user_jwt@,
            error@,
            iat,
            r@,
        ));
        r
    }
}

/// An answer that is sealed for a server is not the signed token that a server without a key gets.
pub proof fn sealed_reply_is_not_plain(
    callout: AuthCallout,
    key: Seq<char>,
    user_nkey: Seq<char>,
    server_id: Seq<char>,
    user_jwt: Seq<char>,
    error: Seq<char>,
    iat: u64,
    sealed: Seq<u8>,
    plain: Seq<u8>,
)
    requires
        callout.is_reply_at(Some(key), user_nkey, server_id, user_jwt, error, iat, sealed),
        callout.is_reply_at(None, user_nkey, server_id, user_jwt, error, iat, plain),
    ensures
        sealed != plain,
        keys::holds_for(sealed, callout.encryption().0, key, plain),
{
}

/// What an authorizing component is told of a connection.
#[derive(Debug, PartialEq, Eq)]
pub struct AuthorizerContext {
    pub lattice_id: String,
    pub token: Option<String>,
    pub username: Option<String>,
    pub password: Option<String>,
    pub tls: Option<String>,
}

/// `context` tells an authorizing component nothing.
pub open spec fn says_nothing(context: AuthorizerContext) -> bool {
    &&& context.lattice_id@ == Seq::<char>::empty()
    &&& context.token is None
    &&& context.username is None
    &&& context.password is None
    &&& context.tls is None
}

/// What the callout tells the authorizing component: nothing yet.
pub fn authorizer_context() -> (r: AuthorizerContext)
    ensures
        says_nothing(r),
{
    AuthorizerContext {
        lattice_id: String::new(),
        token: None,
        username: None,
        password: None,
        tls: None,
    }
}

/// The verdict on a connection, given how the call of the authorizing component went and what it
/// returned, if there is a component.
pub fn invoke_component(called: Option<Result<Result<Decision, String>, String>>) -> (r: Result<
    Option<Decision>,
    String,
>)
    ensures
        match called {
            None => r matches Ok(None),
            Some(Ok(Ok(decision))) => r matches Ok(Some(d)) && d == decision,
            Some(Ok(Err(e))) => r matches Err(text) && text@ == "error in callout: "@ + e@,
            Some(Err(e)) => r matches Err(text) && text == e,
        },
{
    match called {
        None => Ok(None),
        Some(Ok(Ok(decision))) => Ok(Some(decision)),
        Some(Ok(Err(e))) => Err(concatenate("error in callout: ", e.as_str())),
        Some(Err(e)) => Err(e),
    }
}

/// The decision of the default authorizing component: everyone is allowed in, with no role.
pub fn authorized(_context: AuthorizerContext) -> (r: Result<Decision, String>)
    ensures
        r matches Ok(decision) && decision.allowed && decision.role is None && decision.metadata
            is None,
{
    Ok(Decision { allowed: true, role: None, metadata: None })
}

} // verus!
