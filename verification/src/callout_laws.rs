//! What the authorization callout promises to the servers that ask it.
use crate::auth;
use crate::auth::{AuthCallout, AuthorizerContext, Opening, Pending, Received};
use crate::config;
use crate::control::Decision;
use crate::headers;
use crate::jwt;
use crate::keys;
use async_nats::HeaderMap;
use vstd::prelude::*;

verus! {

/// A server without a key reads `token` in `reply`, and a server with the key `peer` opens `reply`
/// with its secret and the public key `sender`, and finds `token`.
pub open spec fn says(
    reply: Seq<u8>,
    peer: Option<Seq<char>>,
    sender: Seq<char>,
    token: Seq<u8>,
) -> bool {
    &&& peer is None ==> reply == token
    &&& forall|reader: Seq<char>|
        peer is Some && keys::curve_key_of_seed(reader) == Ok::<Seq<char>, Seq<char>>(
            peer->Some_0,
        ) ==> #[trigger] keys::opened(reader, reply, sender) == Ok::<Seq<u8>, Seq<char>>(token)
}

/// The answer of a callout says a token for the user and the server, signed by the issuer, with
/// the user's token and the error that it is to carry. The server reads it, or opens it with its
/// own secret, and no one else is addressed.
pub proof fn answers_are_for_the_one_who_asked(
    callout: AuthCallout,
    peer: Option<keys::PublicXKey>,
    user_nkey: &str,
    server_id: &str,
    user_jwt: &str,
    error: &str,
    r: Vec<u8>,
)
    requires
        call_ensures(
            AuthCallout::respond,
            (&callout, &peer, user_nkey, server_id, user_jwt, error),
            r,
        ),
    ensures
        exists|iat: u64|
            says(
                r@,
                if peer is Some {
                    Some(peer->Some_0.text())
                } else {
                    None
                },
                callout.encryption().0,
                vstd::utf8::encode_utf8(
                    #[trigger] jwt::auth_response_token(
                        user_nkey@,
                        server_id@,
                        user_jwt@,
                        error@,
                        callout.issuer().1,
                        iat,
                    ),
                ),
            ),
{
    let iat = choose|iat: u64| #[trigger]
        callout.is_reply_at(
            auth::peer_text(peer),
            user_nkey@,
            server_id@,
            user_jwt@,
            error@,
            iat,
            r@,
        );
    let token = jwt::auth_response_token(
        user_nkey@,
        server_id@,
        user_jwt@,
        error@,
        callout.issuer().1,
        iat,
    );
    assert(says(
        r@,
        if peer is Some {
            Some(peer->Some_0.text())
        } else {
            None
        },
        callout.encryption().0,
        vstd::utf8::encode_utf8(token),
    ));
}

/// `r` answers a request with a token for its user, in the account of the callout, and no error.
pub open spec fn lets_in(callout: AuthCallout, pending: Pending, r: Seq<u8>) -> bool {
    exists|made: u64, iat: u64|
        says(
            r,
            if pending.peer is Some {
                Some(pending.peer->Some_0.text())
            } else {
                None
            },
            callout.encryption().0,
            vstd::utf8::encode_utf8(
                #[trigger] jwt::auth_response_token(
                    pending.request.user_nkey@,
                    pending.request.server_id@,
                    #[trigger] jwt::user_token(
                        pending.request.user_nkey@,
                        pending.request.user_nkey@,
                        callout.account(),
                        callout.issuer().1,
                        made,
                    ),
                    Seq::empty(),
                    callout.issuer().1,
                    iat,
                ),
            ),
        )
}

/// `r` answers a request with an error and no token.
pub open spec fn turns_away(
    callout: AuthCallout,
    pending: Pending,
    error: Seq<char>,
    r: Seq<u8>,
) -> bool {
    exists|iat: u64|
        says(
            r,
            if pending.peer is Some {
                Some(pending.peer->Some_0.text())
            } else {
                None
            },
            callout.encryption().0,
            vstd::utf8::encode_utf8(
                #[trigger] jwt::auth_response_token(
                    pending.request.user_nkey@,
                    pending.request.server_id@,
                    Seq::empty(),
                    error,
                    callout.issuer().1,
                    iat,
                ),
            ),
        )
}

/// A user whom the authorizer allows is let in and one whom it does not is turned away, whatever
/// role or metadata the decision has. Without an authorizer everyone is let in; one that failed
/// lets no one in, and its failure is the error.
pub proof fn decisions_are_followed(
    callout: AuthCallout,
    pending: Pending,
    allowed: bool,
    role: Option<String>,
    metadata: Option<Vec<(String, String)>>,
    e: String,
    decided: Vec<u8>,
    undecided: Vec<u8>,
    failed: Vec<u8>,
)
    requires
        call_ensures(
            AuthCallout::decide,
            (
                &callout,
                &pending,
                Ok::<Option<Decision>, String>(Some(Decision { allowed, role, metadata })),
            ),
            decided,
        ),
        call_ensures(
            AuthCallout::decide,
            (&callout, &pending, Ok::<Option<Decision>, String>(None)),
            undecided,
        ),
        call_ensures(
            AuthCallout::decide,
            (&callout, &pending, Err::<Option<Decision>, String>(e)),
            failed,
        ),
    ensures
        allowed ==> lets_in(callout, pending, decided@),
        !allowed ==> turns_away(callout, pending, "denied"@, decided@),
        lets_in(callout, pending, undecided@),
        turns_away(callout, pending, "error in component: "@ + e@, failed@),
{
    if allowed {
        token_lets_in(callout, pending, decided@);
    } else {
        error_turns_away(callout, pending, "denied"@, decided@);
    }
    token_lets_in(callout, pending, undecided@);
    error_turns_away(callout, pending, "error in component: "@ + e@, failed@);
}

/// A reply with a token for the user lets the user in.
proof fn token_lets_in(callout: AuthCallout, pending: Pending, r: Seq<u8>)
    requires
        exists|made: u64|
            callout.is_reply(
                auth::peer_text(pending.peer),
                pending.request.user_nkey@,
                pending.request.server_id@,
                #[trigger] jwt::user_token(
                    pending.request.user_nkey@,
                    pending.request.user_nkey@,
                    callout.account(),
                    callout.issuer().1,
                    made,
                ),
                Seq::empty(),
                r,
            ),
    ensures
        lets_in(callout, pending, r),
{
    let made = choose|made: u64|
        callout.is_reply(
            auth::peer_text(pending.peer),
            pending.request.user_nkey@,
            pending.request.server_id@,
            #[trigger] jwt::user_token(
                pending.request.user_nkey@,
                pending.request.user_nkey@,
                callout.account(),
                callout.issuer().1,
                made,
            ),
            Seq::empty(),
            r,
        );
    let token = jwt::user_token(
        pending.request.user_nkey@,
        pending.request.user_nkey@,
        callout.account(),
        callout.issuer().1,
        made,
    );
    let iat = choose|iat: u64| #[trigger]
        callout.is_reply_at(
            auth::peer_text(pending.peer),
            pending.request.user_nkey@,
            pending.request.server_id@,
            token,
            Seq::empty(),
            iat,
            r,
        );
    let answer = jwt::auth_response_token(
        pending.request.user_nkey@,
        pending.request.server_id@,
        token,
        Seq::empty(),
        callout.issuer().1,
        iat,
    );
    assert(says(
        r,
        if pending.peer is Some {
            Some(pending.peer->Some_0.text())
        } else {
            None
        },
        callout.encryption().0,
        vstd::utf8::encode_utf8(answer),
    ));
}

/// A reply with an error and no token turns the user away.
proof fn error_turns_away(callout: AuthCallout, pending: Pending, error: Seq<char>, r: Seq<u8>)
    requires
        callout.is_reply(
            auth::peer_text(pending.peer),
            pending.request.user_nkey@,
            pending.request.server_id@,
            Seq::empty(),
            error,
            r,
        ),
    ensures
        turns_away(callout, pending, error, r),
{
    let iat = choose|iat: u64| #[trigger]
        callout.is_reply_at(
            auth::peer_text(pending.peer),
            pending.request.user_nkey@,
            pending.request.server_id@,
            Seq::empty(),
            error,
            iat,
            r,
        );
    let answer = jwt::auth_response_token(
        pending.request.user_nkey@,
        pending.request.server_id@,
        Seq::empty(),
        error,
        callout.issuer().1,
        iat,
    );
    assert(says(
        r,
        if pending.peer is Some {
            Some(pending.peer->Some_0.text())
        } else {
            None
        },
        callout.encryption().0,
        vstd::utf8::encode_utf8(answer),
    ));
}

/// The callout of a configuration reads with the encryption seed and signs with the signing seed,
/// for the account that is configured. A seed that cannot be read is the failure, that of the
/// encryption key first. A component is asked exactly if one is configured, and is told nothing.
pub proof fn callout_has_the_configured_keys(
    cfg: config::AuthCallout,
    r: Result<AuthCallout, String>,
)
    requires
        call_ensures(AuthCallout::new_from_config, (&cfg,), r),
    ensures
        match (
            keys::curve_key_of_seed(cfg.encryption_key_seed@),
            keys::key_of_seed(cfg.signing_key_seed@),
        ) {
            (Ok(reads), Ok(signs)) => {
                &&& r matches Ok(callout)
                &&& callout.encryption().0 == reads
                &&& callout.encryption().1 == cfg.encryption_key_seed@
                &&& callout.issuer() == signs
                &&& callout.account() == cfg.account@
                &&& callout.has_component() <==> cfg.component is Some
            },
            (Err(e), _) => r matches Err(text) && text@ == e,
            (Ok(_), Err(e)) => r matches Err(text) && text@ == e,
        },
{
}

/// A message with a server's key is opened with the callout's secret and that key, and is answered
/// under that key. A message without one is taken as it is, and answered in the open; one without
/// any header is empty.
pub proof fn messages_are_opened_for_the_server(
    callout: AuthCallout,
    given: HeaderMap,
    payload: &[u8],
    bare: Result<Received, String>,
    r: Result<Received, String>,
)
    requires
        call_ensures(AuthCallout::receive, (&callout, None, payload), bare),
        call_ensures(AuthCallout::receive, (&callout, Some(&given), payload), r),
    ensures
        bare matches Ok(received) && received.token@.len() == 0 && received.peer is None,
        !headers::header_values(given).contains_key("Nats-Server-Xkey"@) ==> (r matches Ok(received)
            && received.token@ == payload@ && received.peer is None),
        headers::header_values(given).contains_key("Nats-Server-Xkey"@) && headers::header_values(
            given,
        )["Nats-Server-Xkey"@].len() > 0 ==> ({
            let key = headers::header_values(given)["Nats-Server-Xkey"@][0];
            match (
                keys::curve_key_error(key),
                keys::opened(callout.encryption().1, payload@, key),
            ) {
                (Some(e), _) => r matches Err(text) && text@ == e,
                (None, Err(e)) => r matches Err(text) && text@ == e,
                (None, Ok(token)) => r matches Ok(received) && received.token@ == token
                    && received.peer is Some && received.peer->Some_0.text() == key,
            }
        }),
{
}

/// A token that can be decoded is a request of the user and the server in it, to be answered under
/// the key under which it came. Any other is refused, for no user and no server, with a text that
/// says why.
pub proof fn requests_are_read_from_tokens(callout: AuthCallout, received: Received, r: Opening)
    requires
        call_ensures(AuthCallout::read_request, (&callout, received), r),
    ensures
        match jwt::decoded_auth_request(vstd::utf8::decode_utf8(received.token@)) {
            Ok(request) => {
                &&& r matches Opening::Request(pending)
                &&& pending.request.user_nkey@ == request.user_nkey
                &&& pending.request.server_id@ == request.server_id
                &&& pending.peer == received.peer
            },
            Err(e) => {
                &&& r matches Opening::Refused(reply)
                &&& exists|iat: u64|
                    says(
                        reply@,
                        if received.peer is Some {
                            Some(received.peer->Some_0.text())
                        } else {
                            None
                        },
                        callout.encryption().0,
                        vstd::utf8::encode_utf8(
                            #[trigger] jwt::auth_response_token(
                                Seq::empty(),
                                Seq::empty(),
                                Seq::empty(),
                                "failed to decode JWT: "@ + e,
                                callout.issuer().1,
                                iat,
                            ),
                        ),
                    )
            },
        },
{
    if let Err(e) = jwt::decoded_auth_request(vstd::utf8::decode_utf8(received.token@)) {
        if let Opening::Refused(reply) = r {
            let text = "failed to decode JWT: "@ + e;
            let iat = choose|iat: u64| #[trigger]
                callout.is_reply_at(
                    auth::peer_text(received.peer),
                    Seq::empty(),
                    Seq::empty(),
                    Seq::empty(),
                    text,
                    iat,
                    reply@,
                );
            let answer = jwt::auth_response_token(
                Seq::empty(),
                Seq::empty(),
                Seq::empty(),
                text,
                callout.issuer().1,
                iat,
            );
            assert(says(
                reply@,
                if received.peer is Some {
                    Some(received.peer->Some_0.text())
                } else {
                    None
                },
                callout.encryption().0,
                vstd::utf8::encode_utf8(answer),
            ));
        }
    }
}

/// What an authorizing component decided is the verdict; what it refused to decide and how its call
/// failed are failures; without one there is no verdict. A component is asked exactly where there
/// is one. The default component allows everyone.
pub proof fn verdict_is_that_of_the_component(
    called: Option<Result<Result<Decision, String>, String>>,
    r: Result<Option<Decision>, String>,
    callout: AuthCallout,
    asked: Option<AuthorizerContext>,
    context: AuthorizerContext,
    told: AuthorizerContext,
    decided: Result<Decision, String>,
)
    requires
        call_ensures(auth::invoke_component, (called,), r),
        call_ensures(AuthCallout::component_context, (&callout,), asked),
        call_ensures(auth::authorizer_context, (), told),
        call_ensures(auth::authorized, (context,), decided),
    ensures
        called is None ==> (r matches Ok(None)),
        called matches Some(Ok(Ok(decision))) ==> (r matches Ok(Some(d)) && d == decision),
        called matches Some(Ok(Err(e))) ==> (r matches Err(text) && text@ == "error in callout: "@
            + e@),
        called matches Some(Err(e)) ==> (r matches Err(text) && text@ == e@),
        asked is Some <==> callout.has_component(),
        asked matches Some(c) ==> c.lattice_id@.len() == 0 && c.token is None && c.username is None
            && c.password is None && c.tls is None,
        told.lattice_id@.len() == 0 && told.token is None && told.username is None
            && told.password is None && told.tls is None,
        decided matches Ok(decision) && decision.allowed && decision.role is None
            && decision.metadata is None,
{
}

/// Whatever comes in, the callout takes it: every message, every token that is a text, and every
/// verdict on a request.
pub proof fn every_request_is_taken(
    callout: AuthCallout,
    cfg: config::AuthCallout,
    given: Option<&HeaderMap>,
    payload: &[u8],
    received: Received,
    pending: Pending,
    verdict: Result<Option<Decision>, String>,
    called: Option<Result<Result<Decision, String>, String>>,
    context: AuthorizerContext,
)
    ensures
        call_requires(AuthCallout::new_from_config, (&cfg,)),
        call_requires(AuthCallout::receive, (&callout, given, payload)),
        vstd::utf8::valid_utf8(received.token@) ==> call_requires(
            AuthCallout::read_request,
            (&callout, received),
        ),
        call_requires(AuthCallout::decide, (&callout, &pending, verdict)),
        call_requires(auth::invoke_component, (called,)),
        call_requires(auth::authorized, (context,)),
{
}

} // verus!
