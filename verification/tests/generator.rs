//! The lattice generator.
use nats_jwt_rs::account::Account;
use wasmcloud_hub::control::{
    Context, CreateLatticeResponse, Lattice, LatticeLifecycleError, LatticePhase, LatticeStatus,
    LifecycleErrorKind, Metadata, SecretValue,
};
use wasmcloud_hub::generator::{
    get_secret, imports, Creation, Drawn, ExportType, Generator, Ready, Signed,
};
use wasmcloud_hub::keys::{KeyPair, PUBLIC_KEY_LENGTH, SEED_LENGTH};

fn lattice(name: &str) -> Lattice {
    Lattice {
        metadata: Metadata {
            name: name.to_string(),
            version: "v1".to_string(),
            uid: "u1".to_string(),
            labels: vec![("k".to_string(), "v".to_string())],
            annotations: vec![],
        },
        account: None,
        description: Some("a lattice".to_string()),
        signing_keys: None,
        deletable: true,
        status: LatticeStatus {
            phase: LatticePhase::Provisioning,
        },
    }
}

fn context(name: &str) -> Context {
    Context {
        lattice: lattice(name),
        additional_metadata: None,
        operator_key: Some("operator".to_string()),
        system_account: Some("system".to_string()),
    }
}

fn account_key(raw: u8) -> nkeys::KeyPair {
    nkeys::KeyPair::new_from_raw(nkeys::KeyPairType::Account, [raw; 32]).unwrap()
}

fn drawn(context: Context) -> Drawn {
    match Generator::create(context) {
        Creation::Started(started) => started.draw(&[1; 32], &[2; 32]),
        Creation::Finished(_) => panic!("finished"),
    }
}

fn secret(seed: &str) -> Result<SecretValue, String> {
    Ok(SecretValue::String(seed.to_string()))
}

fn ready(context: Context, operator: &nkeys::KeyPair, system: &nkeys::KeyPair) -> Ready {
    let drawn = drawn(context);
    assert_eq!(drawn.operator_key(), "operator");
    let operated = match drawn.operator(secret(&operator.seed().unwrap())) {
        Ok(operated) => operated,
        Err(e) => panic!("{:?}", e),
    };
    assert_eq!(operated.system_account(), "system");
    match operated.system(secret(&system.seed().unwrap())) {
        Ok(ready) => ready,
        Err(e) => panic!("{:?}", e),
    }
}

fn signed(context: Context, operator: &nkeys::KeyPair) -> Signed {
    ready(context, operator, &nkeys::KeyPair::new_account()).sign(&[3; 32], &[4; 32])
}

fn error<T>(result: Result<T, LatticeLifecycleError>) -> LatticeLifecycleError {
    match result {
        Ok(_) => panic!("no error"),
        Err(e) => e,
    }
}

fn internal(message: &str) -> LatticeLifecycleError {
    LatticeLifecycleError {
        kind: LifecycleErrorKind::Internal,
        message: Some(message.to_string()),
    }
}

/// The claims in a token, as text.
fn claims(token: &str) -> String {
    let alphabet = "ABCDEFGHIJKLMNOPQRSTUVWXYZabcdefghijklmnopqrstuvwxyz0123456789-_";
    let mut bits: u32 = 0;
    let mut n = 0;
    let mut bytes = vec![];
    for c in token.split('.').nth(1).unwrap().chars() {
        bits = (bits << 6) | alphabet.find(c).unwrap() as u32;
        n += 6;
        if n >= 8 {
            n -= 8;
            bytes.push((bits >> n) as u8);
            bits &= (1 << n) - 1;
        }
    }
    String::from_utf8(bytes).unwrap()
}

#[test]
fn lattice_with_account_is_complete() {
    let mut given = context("demo");
    given.lattice.account = Some("ABC".to_string());
    given.system_account = None;
    let expected = CreateLatticeResponse {
        lattice: given.lattice.clone(),
        account: None,
    };
    match Generator::create(given) {
        Creation::Finished(Ok(response)) => assert_eq!(response, expected),
        _ => panic!("not finished"),
    }
}

#[test]
fn generator_needs_system_account_and_operator() {
    let mut given = context("demo");
    given.system_account = None;
    given.operator_key = None;
    match Generator::create(given) {
        Creation::Finished(Err(e)) => assert_eq!(
            e,
            LatticeLifecycleError {
                kind: LifecycleErrorKind::InvalidArgument,
                message: Some("System account not provided".to_string()),
            }
        ),
        _ => panic!("not finished"),
    }
    let mut given = context("demo");
    given.operator_key = None;
    match Generator::create(given) {
        Creation::Finished(Err(e)) => assert_eq!(
            e,
            LatticeLifecycleError {
                kind: LifecycleErrorKind::InvalidArgument,
                message: Some("Operator key not provided".to_string()),
            }
        ),
        _ => panic!("not finished"),
    }
}

#[test]
fn secrets_have_to_be_texts() {
    assert_eq!(get_secret(secret("s")), Ok("s".to_string()));
    assert_eq!(
        get_secret(Err("gone".to_string())),
        Err(internal("Failed to get operator key: gone"))
    );
    assert_eq!(
        get_secret(Ok(SecretValue::Bytes(vec![1]))),
        Err(internal("Operator key is not a string"))
    );
    assert_eq!(get_secret(secret("")), Err(internal("Operator key is empty")));
}

#[test]
fn signers_have_to_be_keys() {
    assert_eq!(
        error(drawn(context("demo")).operator(secret("no key"))),
        internal("Failed to create operator keypair: Invalid key length: Bad seed length: 6")
    );
    assert_eq!(
        error(drawn(context("demo")).operator(Err("gone".to_string()))),
        internal("Failed to get operator key: gone")
    );
    let operator = nkeys::KeyPair::new_operator().seed().unwrap();
    let operated = |d: Drawn| match d.operator(secret(&operator)) {
        Ok(o) => o,
        Err(e) => panic!("{:?}", e),
    };
    assert_eq!(
        error(operated(drawn(context("demo"))).system(secret("no key"))),
        internal("Failed to create system account keypair: Invalid key length: Bad seed length: 6")
    );
    assert_eq!(
        error(operated(drawn(context("demo"))).system(secret(""))),
        internal("Operator key is empty")
    );
}

#[test]
fn created_lattice_has_an_account_and_its_keys() {
    let operator = nkeys::KeyPair::new_operator();
    let signed = signed(context("demo"), &operator);
    let token = signed.claims();
    let response = match signed.published(Ok(())) {
        Ok(response) => response,
        Err(e) => panic!("{:?}", e),
    };
    let seeds = |keys: &[u8]| -> Vec<String> {
        keys.iter().map(|k| account_key(*k).seed().unwrap()).collect()
    };
    let publics = |keys: &[u8]| -> Vec<String> {
        keys.iter().map(|k| account_key(*k).public_key()).collect()
    };
    let mut expected = lattice("demo");
    expected.account = Some(account_key(1).public_key());
    expected.signing_keys = Some(publics(&[3, 4, 2]));
    assert_eq!(response.lattice, expected);
    let account = response.account.unwrap();
    assert_eq!(account.signing_keys, seeds(&[3, 4, 2]));
    assert_eq!(account.seed, account_key(1).seed().unwrap());
    assert_eq!(account.seed.len(), SEED_LENGTH);
    assert_eq!(account_key(1).public_key().len(), PUBLIC_KEY_LENGTH);
    assert_eq!(account.encoded, token);
    for (seed, public) in account
        .signing_keys
        .iter()
        .zip(expected.signing_keys.unwrap())
    {
        match KeyPair::from_seed(seed) {
            Ok(pair) => assert_eq!(pair.public_key(), public),
            Err(e) => panic!("{}", e),
        }
    }
}

#[test]
fn account_claims_are_signed_by_the_operator() {
    let operator = nkeys::KeyPair::new_operator();
    let mut given = context("demo");
    given.additional_metadata = Some(vec![
        ("team".to_string(), "red".to_string()),
        ("tier".to_string(), "1".to_string()),
    ]);
    let token = signed(given, &operator).claims();
    let text = claims(&token);
    assert!(text.contains(&format!("\"iss\":\"{}\"", operator.public_key())));
    assert!(text.contains(&format!("\"sub\":\"{}\"", account_key(1).public_key())));
    assert!(text.contains("\"name\":\"demo\""));
    assert!(text.contains("\"tags\":[\"team:red\",\"tier:1\"]"));
    assert!(text.contains("\"type\":\"account\""));
    // The account's own key stands without a scope, the two others with one.
    assert!(text.contains(&format!(
        "\"signing_keys\":[\"{}\",{{\"kind\":\"user_scope\",\"key\":\"{}\",\"role\":\"user\"",
        account_key(1).public_key(),
        account_key(3).public_key()
    )));
    assert!(text.contains(&format!(
        "\"key\":\"{}\",\"role\":\"rpc\"",
        account_key(4).public_key()
    )));
    assert!(text.contains("\"wasmbus.ctl.*.demo.>\""));
    for limit in [
        "subs", "data", "payload", "imports", "exports", "conn", "leaf", "mem_storage",
        "disk_storage", "streams", "consumer", "max_ack_pending", "mem_max_stream_bytes",
        "disk_max_stream_bytes",
    ] {
        assert!(text.contains(&format!("\"{}\":-1", limit)));
    }
    assert!(text.contains("\"disallow_bearer\":true"));
    assert!(text.contains("\"wildcards\":true"));
    assert!(text.contains("\"max_bytes_required\":false"));

    let (signed_part, signature) = token.rsplit_once('.').unwrap();
    assert_eq!(signature.len(), 86);
    assert_eq!(signed_part.split('.').count(), 2);
}

#[test]
fn account_without_metadata_has_no_tags() {
    let operator = nkeys::KeyPair::new_operator();
    let text = claims(&signed(context("demo"), &operator).claims());
    assert!(!text.contains("tags"));
    let mut given = context("demo");
    given.additional_metadata = Some(vec![]);
    let text = claims(&signed(given, &operator).claims());
    assert!(text.contains("\"tags\":[]"));
}

#[test]
fn unpublished_account_is_a_failure() {
    let operator = nkeys::KeyPair::new_operator();
    let signed = signed(context("demo"), &operator);
    assert_eq!(
        error(signed.published(Err("NATS SYS client is not enabled".to_string()))),
        internal("Failed to update account: NATS SYS client is not enabled")
    );
}

#[test]
fn scoped_signers_are_added_once() {
    let mut account = Account::new_claims("demo".to_string(), "A".to_string());
    let seeds = Generator::scoped_signers(&mut account, "demo", &[3; 32], &[4; 32]);
    assert_eq!(
        seeds,
        vec![
            account_key(3).seed().unwrap(),
            account_key(4).seed().unwrap()
        ]
    );
    let again = Generator::scoped_signers(&mut account, "demo", &[3; 32], &[4; 32]);
    assert_eq!(again, seeds);
    let keys: Vec<_> = account.nats.signing_keys.iter().collect();
    assert_eq!(keys.len(), 2);
    assert_eq!(keys[0].key, account_key(3).public_key());
    assert_eq!(keys[1].key, account_key(4).public_key());

    let user = keys[0].scope.as_ref().unwrap();
    assert_eq!(user.key, keys[0].key);
    assert_eq!(user.role, Some("user".to_string()));
    let template = user.template.as_ref().unwrap();
    assert_eq!(
        template.permissions.publish.allow,
        vec![
            "wasmbus.cfg.{{account-name()}}.>",
            "wasmbus.evt.{{account-name()}}.>",
            "wasmbus.ctl.*.demo.>",
            "wadm.api.{{account-name()}}.>",
            "wasmcloud.secrets.>",
            "wasmcloud.lattice.list",
            "_INBOX.>",
        ]
    );
    assert_eq!(
        template.permissions.subscribe.allow,
        vec![
            "wasmbus.cfg.{{account-name()}}.>",
            "wasmbus.evt.{{account-name()}}.>",
            "wasmbus.ctl.*.{{account-name()}}.>",
            "wadm.api.{{account-name()}}.>",
            "{{account-name()}}.*.wrpc.>",
            "wasmcloud.lattice.watch",
            "_INBOX.>",
        ]
    );
    assert!(template.permissions.publish.deny.is_empty());
    assert!(template.permissions.subscribe.deny.is_empty());
    assert_eq!(template.permissions.resp.as_ref().unwrap().max_messages, -1);
    assert_eq!(template.bearer_token, None);

    let rpc = keys[1].scope.as_ref().unwrap();
    assert_eq!(rpc.role, Some("rpc".to_string()));
    let template = rpc.template.as_ref().unwrap();
    let subjects = vec!["{{account-name()}}.*.wrpc.>", "_INBOX.>", "$JS.>"];
    assert_eq!(template.permissions.publish.allow, subjects);
    assert_eq!(template.permissions.subscribe.allow, subjects);
    assert_eq!(template.permissions.resp.as_ref().unwrap().max_messages, -1);
}

#[test]
fn imports_are_activated_by_the_system_account() {
    let system = nkeys::KeyPair::new_account();
    let signer = match KeyPair::from_seed(&system.seed().unwrap()) {
        Ok(pair) => pair,
        Err(e) => panic!("{}", e),
    };
    let list = imports("SYSTEM", "ACCOUNT", "demo", &signer);
    let subjects: Vec<&str> = list.iter().map(|i| i.subject.as_str()).collect();
    assert_eq!(
        subjects,
        vec![
            "ACCOUNT.wasmbus.cfg.demo.>",
            "ACCOUNT.wasmbus.evt.demo.>",
            "ACCOUNT.wasmbus.ctl.demo.>",
            "ACCOUNT.wasmcloud.secrets.demo.>",
            "wasmcloud.lattice.list",
            "wasmcloud.lattice.watch",
        ]
    );
    let locals: Vec<&str> = list.iter().map(|i| i.local_subject.as_str()).collect();
    assert_eq!(
        locals,
        vec![
            "wasmbus.cfg.demo.>",
            "wasmbus.evt.demo.>",
            "wasmbus.ctl.demo.>",
            "wasmcloud.secrets.>",
            "",
            "",
        ]
    );
    for (i, import) in list.iter().enumerate() {
        assert_eq!(import.account, "SYSTEM");
        assert_eq!(
            import.export_type,
            if i == 5 {
                ExportType::Stream
            } else {
                ExportType::Service
            }
        );
        let text = claims(&import.token);
        assert!(text.contains(&format!("\"iss\":\"{}\"", system.public_key())));
        assert!(text.contains(&format!("\"name\":\"{}\"", import.subject)));
        assert!(text.contains(&format!("\"import_subject\":\"{}\"", import.subject)));
        assert!(text.contains("\"issuer_account\":\"SYSTEM\""));
        assert!(text.contains("\"sub\":\"ACCOUNT\""));
        assert!(text.contains("\"type\":\"activation\""));
    }
}

#[test]
fn updating_and_deleting_change_nothing() {
    assert_eq!(Generator::update(context("demo")), Ok(lattice("demo")));
    assert_eq!(Generator::delete(lattice("demo")), Ok(lattice("demo")));
}

#[test]
fn scoped_signers_leave_other_claims() {
    let mut account = Account::new_claims("demo".to_string(), "A".to_string());
    account.nats.generic_fields.tags = Some(vec!["kept".to_string()]);
    account.nats.generic_fields.version = 7;
    Generator::scoped_signers(&mut account, "demo", &[3; 32], &[4; 32]);
    assert_eq!(account.nats.signing_keys.len(), 2);
    assert_eq!(account.nats.generic_fields.version, 7);
    assert_eq!(account.nats.generic_fields.tags, Some(vec!["kept".to_string()]));
}
