//! The authorization callout.
use async_nats::HeaderMap;
use nats_jwt_rs::authorization::{AuthRequest, ClientInfo, ConnectOpts, ServerID};
use nats_jwt_rs::types::GenericFields;
use nats_jwt_rs::user::User;
use nats_jwt_rs::Claims;
use wasmcloud_hub::auth::{
    authorized, authorizer_context, invoke_component, AuthCallout, Opening, Pending, Received,
};
use wasmcloud_hub::config;
use wasmcloud_hub::control::Decision;
use wasmcloud_hub::keys::{PublicXKey, BOX_OVERHEAD};

struct Keys {
    issuer: nkeys::KeyPair,
    callout: nkeys::XKey,
    server: nkeys::XKey,
}

fn keys() -> Keys {
    Keys {
        issuer: nkeys::KeyPair::new_account(),
        callout: nkeys::XKey::new(),
        server: nkeys::XKey::new(),
    }
}

fn configuration(signing: &str, encryption: &str) -> config::AuthCallout {
    config::AuthCallout {
        account: "TARGET".to_string(),
        signing_key_seed: signing.to_string(),
        encryption_key_seed: encryption.to_string(),
        component: None,
        webhook: None,
        credsfile: "".to_string(),
    }
}

fn callout(keys: &Keys) -> AuthCallout {
    match AuthCallout::new_from_config(&configuration(
        &keys.issuer.seed().unwrap(),
        &keys.callout.seed().unwrap(),
    )) {
        Ok(callout) => callout,
        Err(e) => panic!("{}", e),
    }
}

fn request(user: &str, server: &str) -> String {
    let claims = Claims {
        aud: None,
        exp: None,
        iat: 0,
        id: None,
        iss: "".to_string(),
        jti: "".to_string(),
        name: None,
        nats: AuthRequest {
            server: ServerID {
                id: server.to_string(),
                ..Default::default()
            },
            user_nkey: user.to_string(),
            client_info: ClientInfo::default(),
            connect_opts: ConnectOpts::default(),
            client_tls: None,
            request_nonce: None,
            generic_fields: GenericFields::default(),
        },
        nbf: None,
        sub: "S".to_string(),
    };
    claims.encode(&nkeys::KeyPair::new_server()).unwrap()
}

/// The claims in a token, as text.
fn claims_of(token: &str) -> String {
    let alphabet = "ABCDEFGHIJKLMNOPQRSTUVWXYZabcdefghijklmnopqrstuvwxyz0123456789-_";
    let mut bits: u32 = 0;
    let mut n = 0;
    let mut bytes = vec![];
    for c in token.split('.').nth(1).unwrap().chars() {
        bits = (bits << 6) | alphabet.find(c).unwrap() as u32;
        n += 6;
        if n >= 8 {
            n -= 8;
            bytes.push((bits >> n) as u8);
            bits &= (1 << n) - 1;
        }
    }
    String::from_utf8(bytes).unwrap()
}

fn plain_reply(bytes: Vec<u8>) -> String {
    claims_of(&String::from_utf8(bytes).unwrap())
}

fn received(callout: &AuthCallout, headers: Option<&HeaderMap>, payload: &[u8]) -> Received {
    match callout.receive(headers, payload) {
        Ok(received) => received,
        Err(e) => panic!("{}", e),
    }
}

fn pending(callout: &AuthCallout, received: Received) -> Pending {
    match callout.read_request(received) {
        Opening::Request(pending) => pending,
        Opening::Refused(reply) => panic!("{:?}", reply),
    }
}

fn decision(allowed: bool) -> Result<Option<Decision>, String> {
    Ok(Some(Decision {
        allowed,
        role: None,
        metadata: None,
    }))
}

#[test]
fn seeds_are_erased() {
    let mut cfg = configuration("signing", "encryption");
    cfg.erase_seeds();
    assert_eq!(cfg.signing_key_seed, "");
    assert_eq!(cfg.encryption_key_seed, "");
    assert_eq!(cfg.account, "TARGET");
}

#[test]
fn component_is_asked_where_there_is_one() {
    let keys = keys();
    let mut cfg = configuration(
        &keys.issuer.seed().unwrap(),
        &keys.callout.seed().unwrap(),
    );
    match AuthCallout::new_from_config(&cfg) {
        Ok(callout) => assert_eq!(callout.component_context(), None),
        Err(e) => panic!("{}", e),
    }
    cfg.component = Some(config::Component {
        source: config::ComponentSource::Nats(config::NatsSource {
            bucket: "components".to_string(),
            key: "authorizer".to_string(),
        }),
    });
    match AuthCallout::new_from_config(&cfg) {
        Ok(callout) => assert_eq!(callout.component_context(), Some(authorizer_context())),
        Err(e) => panic!("{}", e),
    }
}

#[test]
fn seeds_of_a_callout_have_to_be_keys() {
    let keys = keys();
    let error = |signing: &str, encryption: &str| {
        match AuthCallout::new_from_config(&configuration(signing, encryption)) {
            Ok(_) => panic!("no error"),
            Err(e) => e,
        }
    };
    assert_eq!(
        error("x", "y"),
        "Invalid key length: Bad seed length: 1".to_string()
    );
    assert_eq!(
        error(&keys.issuer.seed().unwrap(), &keys.issuer.seed().unwrap()),
        "Invalid byte prefix: Expected a curve, got Account".to_string()
    );
    assert_eq!(
        error("xyz", &keys.callout.seed().unwrap()),
        "Invalid key length: Bad seed length: 3".to_string()
    );
}

#[test]
fn token_is_taken_out_of_a_message() {
    let keys = keys();
    let callout = callout(&keys);
    let none = received(&callout, None, b"payload");
    assert!(none.token.is_empty());
    assert!(none.peer.is_none());

    let mut headers = HeaderMap::new();
    headers.insert("Other", "header");
    let plain = received(&callout, Some(&headers), b"payload");
    assert_eq!(plain.token, b"payload");
    assert!(plain.peer.is_none());

    headers.insert("Nats-Server-Xkey", keys.server.public_key().as_str());
    let sealed = keys.server.seal(b"payload", &keys.callout).unwrap();
    let opened = received(&callout, Some(&headers), &sealed);
    assert_eq!(opened.token, b"payload");
    assert!(opened.peer.is_some());
    assert_eq!(
        callout.receive(Some(&headers), b"payload").err().unwrap(),
        "Invalid payload: Payload too short"
    );

    headers.insert("Nats-Server-Xkey", "no key");
    assert!(callout
        .receive(Some(&headers), &sealed)
        .err()
        .unwrap()
        .starts_with("Codec failure"));
}

#[test]
fn token_that_is_no_request_is_refused() {
    let keys = keys();
    let callout = callout(&keys);
    let refused = |token: &[u8]| {
        let received = Received {
            token: token.to_vec(),
            peer: None,
        };
        match callout.read_request(received) {
            Opening::Refused(reply) => plain_reply(reply),
            Opening::Request(_) => panic!("not refused"),
        }
    };
    let text = refused(b"");
    assert!(text.contains("\"error\":\"failed to decode JWT: Invalid JWT\""));
    assert!(text.contains("\"jwt\":\"\""));
    assert!(text.contains("\"aud\":\"\""));
    assert!(text.contains(&format!("\"iss\":\"{}\"", keys.issuer.public_key())));
    // An empty subject is left out.
    assert!(!text.contains("\"sub\""));
    assert!(refused(b"a.b.c").contains("\"error\":\"failed to decode JWT: "));
}

#[test]
fn allowed_user_gets_a_token() {
    let keys = keys();
    let callout = callout(&keys);
    let user = nkeys::KeyPair::new_user().public_key();
    for verdict in [Ok(None), decision(true)] {
        let token = request(&user, "SERVER");
        let pending = pending(
            &callout,
            received(&callout, Some(&HeaderMap::new()), token.as_bytes()),
        );
        assert_eq!(pending.request.user_nkey, user);
        assert_eq!(pending.request.server_id, "SERVER");
        let text = plain_reply(callout.decide(&pending, verdict));
        assert!(text.contains("\"type\":\"authorization_response\""));
        assert!(text.contains("\"aud\":\"SERVER\""));
        assert!(text.contains(&format!("\"sub\":\"{}\"", user)));
        assert!(text.contains(&format!("\"iss\":\"{}\"", keys.issuer.public_key())));
        assert!(!text.contains("\"error\""));
        let jwt = text
            .split("\"jwt\":\"")
            .nth(1)
            .unwrap()
            .split('"')
            .next()
            .unwrap()
            .to_string();
        let granted = Claims::<User>::decode(&jwt).unwrap();
        assert_eq!(granted.name, Some(user.clone()));
        assert_eq!(granted.sub, user);
        assert_eq!(granted.iss, keys.issuer.public_key());
        assert_eq!(granted.nats.issuer_account, Some("TARGET".to_string()));
    }
}

#[test]
fn refused_user_gets_an_error_and_no_token() {
    let keys = keys();
    let callout = callout(&keys);
    for (verdict, error) in [
        (decision(false), "denied"),
        (Err("error in callout: no".to_string()), "error in component: error in callout: no"),
    ] {
        let token = request("USER", "SERVER");
        let pending = pending(
            &callout,
            received(&callout, Some(&HeaderMap::new()), token.as_bytes()),
        );
        let text = plain_reply(callout.decide(&pending, verdict));
        assert!(text.contains(&format!("\"error\":\"{}\"", error)));
        assert!(text.contains("\"jwt\":\"\""));
        assert!(text.contains("\"aud\":\"SERVER\""));
        assert!(text.contains("\"sub\":\"USER\""));
    }
}

#[test]
fn sealed_request_gets_a_sealed_reply() {
    let keys = keys();
    let callout = callout(&keys);
    let mut headers = HeaderMap::new();
    headers.insert("Nats-Server-Xkey", keys.server.public_key().as_str());
    let token = request("USER", "SERVER");
    let sealed = keys.server.seal(token.as_bytes(), &keys.callout).unwrap();
    let pending = pending(&callout, received(&callout, Some(&headers), &sealed));
    let reply = callout.decide(&pending, decision(false));
    assert!(keys.callout.open(&reply, &keys.callout).is_err());
    let sender = nkeys::XKey::from_public_key(&keys.callout.public_key()).unwrap();
    let opened = keys.server.open(&reply, &sender).unwrap();
    assert_eq!(reply.len(), opened.len() + BOX_OVERHEAD);
    let text = plain_reply(opened);
    assert!(text.contains("\"error\":\"denied\""));
}

#[test]
fn public_encryption_keys_are_checked() {
    let keys = keys();
    assert!(PublicXKey::from_public_key(&keys.server.public_key()).is_ok());
    assert!(PublicXKey::from_public_key(&keys.issuer.public_key()).is_err());
}

#[test]
fn default_authorizer_allows_everyone() {
    let context = authorizer_context();
    assert_eq!(context.lattice_id, "");
    assert_eq!(context.token, None);
    assert_eq!(
        authorized(context),
        Ok(Decision {
            allowed: true,
            role: None,
            metadata: None
        })
    );
}

#[test]
fn verdict_comes_from_the_component() {
    let yes = || Decision {
        allowed: true,
        role: None,
        metadata: None,
    };
    assert_eq!(invoke_component(None), Ok(None));
    assert_eq!(invoke_component(Some(Ok(Ok(yes())))), Ok(Some(yes())));
    assert_eq!(
        invoke_component(Some(Ok(Err("no".to_string())))),
        Err("error in callout: no".to_string())
    );
    assert_eq!(
        invoke_component(Some(Err("trap".to_string()))),
        Err("trap".to_string())
    );
}
