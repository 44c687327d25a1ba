//! Signed claims other than those of accounts, by way of the `nats_jwt_rs` crate.
use crate::keys;
use vstd::prelude::*;

verus! {

/// The token of `nats_jwt_rs` for a user: `User::new_claims` with an issuer account, encoded with
/// the key of a seed in the second `iat`.
pub uninterp spec fn user_token(
    name: Seq<char>,
    subject: Seq<char>,
    issuer_account: Seq<char>,
    seed: Seq<char>,
    iat: u64,
) -> Seq<char>;

/// The token of `nats_jwt_rs` for an activation: `Activation::new_claims` with an issuer account
/// and an import subject, encoded with the key of a seed in the second `iat`.
pub uninterp spec fn activation_token(
    name: Seq<char>,
    subject: Seq<char>,
    issuer_account: Seq<char>,
    import_subject: Seq<char>,
    seed: Seq<char>,
    iat: u64,
) -> Seq<char>;

/// The token of `nats_jwt_rs` for an authorization response: `AuthResponse::generic_claim` with
/// an audience, a user token and an error, encoded with the key of a seed in the second `iat`.
pub uninterp spec fn auth_response_token(
    subject: Seq<char>,
    audience: Seq<char>,
    jwt: Seq<char>,
    error: Seq<char>,
    seed: Seq<char>,
    iat: u64,
) -> Seq<char>;

/// What `Claims::<AuthRequest>::decode` of `nats_jwt_rs` makes of a token: the parts of the
/// request that a callout reads, or the text of its error.
pub uninterp spec fn decoded_auth_request(token: Seq<char>) -> Result<AuthRequestView, Seq<char>>;

/// What a callout reads of a request for authorization: the public key made for the user, and
/// the identity of the server that asks.
#[derive(Debug, PartialEq, Eq)]
pub struct AuthRequest {
    pub user_nkey: String,
    pub server_id: String,
}

/// What an [`AuthRequest`] says.
#[verifier::ext_equal]
pub struct AuthRequestView {
    pub user_nkey: Seq<char>,
    pub server_id: Seq<char>,
}

impl View for AuthRequest {
    type V = AuthRequestView;

    open spec fn view(&self) -> AuthRequestView {
        AuthRequestView { user_nkey: self.user_nkey@, server_id: self.server_id@ }
    }
}

/// `Claims::<User>::encode`, which cannot fail with a key that has a seed and a clock
/// past the year 1969. The token also depends on the second in which it was made.
#[verifier::external_body]
pub(crate) fn encode_user(name: &str, subject: &str, issuer_account: &str, seed: &str) -> (r:
    String)
    requires
        keys::key_of_seed(seed@) is Ok,
    ensures
        exists|iat: u64| r@ == #[trigger] user_token(name@, subject@, issuer_account@, seed@, iat),
{
    let mut claims = nats_jwt_rs::user::User::new_claims(name.to_string(), subject.to_string());
    claims.nats.issuer_account = Some(issuer_account.to_string());
    claims.encode(&nkeys::KeyPair::from_seed(seed).unwrap()).unwrap()
}

/// `Claims::<Activation>::encode`, which cannot fail with a key that has a seed and a clock
/// past the year 1969. The token also depends on the second in which it was made.
#[verifier::external_body]
pub(crate) fn encode_activation(
    name: &str,
    subject: &str,
    issuer_account: &str,
    import_subject: &str,
    seed: &str,
) -> (r: String)
    requires
        keys::key_of_seed(seed@) is Ok,
    ensures
        exists|iat: u64|
            r@ == #[trigger] activation_token(
                name@,
                subject@,
                issuer_account@,
                import_subject@,
                seed@,
                iat,
            ),
{
    let name = name.to_string();
    let mut claims = nats_jwt_rs::activation::Activation::new_claims(name, subject.to_string());
    claims.nats.issuer_account = issuer_account.to_string();
    claims.nats.import_subject = import_subject.to_string();
    claims.encode(&nkeys::KeyPair::from_seed(seed).unwrap()).unwrap()
}

/// `Claims::<AuthResponse>::encode`, which cannot fail with a key that has a seed and a clock
/// past the year 1969. The token also depends on the second in which it was made.
#[verifier::external_body]
pub(crate) fn encode_auth_response(
    subject: &str,
    audience: &str,
    jwt: &str,
    error: &str,
    seed: &str,
) -> (r: String)
    requires
        keys::key_of_seed(seed@) is Ok,
    ensures
        exists|iat: u64|
            r@ == #[trigger] auth_response_token(subject@, audience@, jwt@, error@, seed@, iat),
{
    let mut claims = nats_jwt_rs::authorization::AuthResponse::generic_claim(subject.to_string());
    claims.aud = Some(audience.to_string());
    claims.nats.jwt = jwt.to_string();
    claims.nats.error = error.to_string();
    claims.encode(&nkeys::KeyPair::from_seed(seed).unwrap()).unwrap()
}

/// `Claims::<AuthRequest>::decode`, and of the request its user key and the identity of its
/// server.
#[verifier::external_body]
pub(crate) fn decode_auth_request(token: &str) -> (r: Result<AuthRequest, String>)
    ensures
        match r {
            Ok(request) => decoded_auth_request(token@) == Ok::<AuthRequestView, Seq<char>>(
                request@,
            ),
            Err(e) => decoded_auth_request(token@) == Err::<AuthRequestView, Seq<char>>(e@),
        },
{
    match nats_jwt_rs::Claims::<nats_jwt_rs::authorization::AuthRequest>::decode(token) {
        Ok(c) => Ok(AuthRequest { user_nkey: c.nats.user_nkey, server_id: c.nats.server.id }),
        Err(e) => Err(e.to_string()),
    }
}

} // verus!
