//! Secrets, keys and buckets.
use wasmcloud_hub::bucket::{open_or_create, BucketStep, OpenError};
use wasmcloud_hub::control::SecretValue;
use wasmcloud_hub::ctl::{
    bootstrap, new_lattice, operator_key_file, read_key, system_key_file, NewSecret,
};
use wasmcloud_hub::keys::{KeyPair, XKey};
use wasmcloud_hub::secrets::{SecretsClient, SECRETS_BUCKET};
use wasmcloud_hub::vm::{
    configure_wasmtime, engine_settings, AllocationStrategy, Ctx, EngineSettings, SecretsError,
    SysRequest,
};

fn client(key: &nkeys::XKey) -> SecretsClient {
    match XKey::from_seed(&key.seed().unwrap()) {
        Ok(key) => SecretsClient::new(key),
        Err(e) => panic!("{}", e),
    }
}

#[test]
fn stored_secret_reads_back() {
    let key = nkeys::XKey::new();
    let client = client(&key);
    for data in ["SUAM", "", "žluť\n"] {
        let stored = client.set(data);
        assert_eq!(stored.len(), data.len() + 44);
        assert_ne!(stored, data.as_bytes());
        assert_eq!(client.get(Some(&stored)), Ok(data.to_string()));
        assert_eq!(key.open(&stored, &key).unwrap(), data.as_bytes());
    }
}

#[test]
fn unreadable_secrets_are_failures() {
    let key = nkeys::XKey::new();
    let secrets = client(&key);
    assert_eq!(secrets.get(None), Err("Secret not found".to_string()));
    assert_eq!(
        secrets.get(Some(&vec![1, 2, 3])),
        Err("unable to decrypt secret :Invalid payload: Payload too short".to_string())
    );
    let other = client(&nkeys::XKey::new()).set("secret");
    assert_eq!(
        secrets.get(Some(&other)),
        Err("unable to decrypt secret :Invalid payload: Cannot decrypt payload".to_string())
    );
    let bytes = key.seal(&[0xff], &key).unwrap();
    assert_eq!(
        secrets.get(Some(&bytes)),
        Err("invalid utf-8 sequence of 1 bytes from index 0".to_string())
    );
}

#[test]
fn missing_bucket_is_created() {
    assert_eq!(open_or_create("B", Ok(())), BucketStep::Use);
    assert_eq!(
        open_or_create("B", Err(OpenError::GetBucket)),
        BucketStep::Create("B".to_string())
    );
    assert_eq!(
        open_or_create("B", Err(OpenError::Other("JetStream error".to_string()))),
        BucketStep::Fail("Failed to get bucket: JetStream error".to_string())
    );
    let client = client(&nkeys::XKey::new());
    assert_eq!(
        client.open_bucket(Err(OpenError::GetBucket)),
        BucketStep::Create(SECRETS_BUCKET.to_string())
    );
    assert_eq!(SECRETS_BUCKET, "WASMCLOUD_ACCOUNT_KEYS");
}

#[test]
fn keys_are_read_from_files() {
    assert_eq!(system_key_file("/k"), "/k/keys/WASMCLOUD SYSTEM.nk");
    assert_eq!(operator_key_file("/k"), "/k/keys/operator-signing.nk");
    let key = nkeys::KeyPair::new_operator();
    let seed = key.seed().unwrap();
    match read_key(&format!(" \t{}\r\n\u{a0}", seed)) {
        Ok(pair) => {
            assert_eq!(pair.public_key(), key.public_key());
            assert_eq!(pair.seed(), seed);
        }
        Err(e) => panic!("{}", e),
    }
    assert!(read_key("no key").is_err());
}

#[test]
fn bootstrap_stores_missing_keys() {
    let seed = "SAAPN4W3EG6KCJGUQTKTJ5GSB5NHK5CHAJL4DBGFUM3HHROI4XUEP4OBK4";
    let key = match KeyPair::from_seed(seed) {
        Ok(pair) => pair,
        Err(e) => panic!("{}", e),
    };
    assert_eq!(
        bootstrap(&key, &Err("Secret not found".to_string())),
        Some(NewSecret {
            name: "ACODERUVFFAWZQDSS6SBIACUA5O6SXF7HJ3YTYXBALHZP3P7R4BUO4J2".to_string(),
            value: seed.to_string(),
        })
    );
    assert_eq!(bootstrap(&key, &Ok("anything".to_string())), None);
}

#[test]
fn new_lattice_has_only_a_name() {
    let lattice = new_lattice("demo".to_string());
    assert_eq!(lattice.metadata.name, "demo");
    assert_eq!(lattice.metadata.version, "");
    assert!(lattice.metadata.labels.is_empty());
    assert_eq!(lattice.account, None);
    assert!(!lattice.deletable);
}

#[test]
fn secrets_are_handed_out_by_handle() {
    let mut ctx = Ctx::new(1, false);
    assert_eq!(
        ctx.get("a".to_string(), false),
        Err(SecretsError::NotFound)
    );
    let a = ctx.get("a".to_string(), true).unwrap();
    let b = ctx.get("b".to_string(), true).unwrap();
    assert_ne!(a, b);
    assert_eq!(ctx.key_of(a), Some("a".to_string()));
    assert_eq!(ctx.key_of(b), Some("b".to_string()));
    assert_eq!(ctx.drop_secret(a), Ok(()));
    assert_eq!(ctx.key_of(a), None);
    assert_eq!(ctx.key_of(b), Some("b".to_string()));
    assert_eq!(
        ctx.drop_secret(a),
        Err("resource not present".to_string())
    );
    // A resource of another type is no secret.
    let other = ctx.table.push(7u64).unwrap().rep();
    assert_eq!(ctx.key_of(other), None);
    assert_eq!(
        ctx.drop_secret(other),
        Err("resource is of another type".to_string())
    );
    // It is gone all the same.
    assert_eq!(
        ctx.drop_secret(other),
        Err("resource not present".to_string())
    );
    // A secret to which something is attached stays.
    let parent = wasmtime::component::Resource::<std::sync::Arc<String>>::new_own(b);
    ctx.table.push_child(8u64, &parent).unwrap();
    assert_eq!(
        ctx.drop_secret(b),
        Err("resource has children".to_string())
    );
    assert_eq!(ctx.key_of(b), Some("b".to_string()));
}

#[test]
fn revealed_secret_is_a_text() {
    let ctx = Ctx::new(1, true);
    assert_eq!(
        ctx.revealed(Ok("seed".to_string())),
        SecretValue::String("seed".to_string())
    );
    assert_eq!(
        ctx.revealed(Err("gone".to_string())),
        SecretValue::String("".to_string())
    );
}

#[test]
fn secret_values_are_overwritten() {
    let mut text = SecretValue::String("seed".to_string());
    text.zeroize();
    assert_eq!(text, SecretValue::String("".to_string()));
    let mut bytes = SecretValue::Bytes(vec![1, 2, 3]);
    bytes.zeroize();
    assert_eq!(bytes, SecretValue::Bytes(vec![]));
}

#[test]
fn system_requests_need_a_connection() {
    let without = Ctx::new(1, false);
    let error = Err("NATS SYS client is not enabled".to_string());
    assert_eq!(without.update("jwt".to_string()), error);
    assert_eq!(without.delete_key("key".to_string()), error);
    let with = Ctx::new(1, true);
    assert_eq!(with.timeout, 1);
    assert_eq!(
        with.update("jwt".to_string()),
        Ok(SysRequest {
            subject: "$SYS.REQ.CLAIMS.UPDATE".to_string(),
            payload: "jwt".to_string()
        })
    );
    assert_eq!(
        with.delete_key("key".to_string()),
        Ok(SysRequest {
            subject: "$SYS.REQ.KEYS.DELETE".to_string(),
            payload: "key".to_string()
        })
    );
}

#[test]
fn engine_runs_components_from_a_pool() {
    assert_eq!(
        engine_settings(),
        EngineSettings {
            component_model: true,
            async_support: true,
            epoch_interruption: true,
            memory_init_cow: false,
            strategy: AllocationStrategy::Pooling,
        }
    );
}

#[test]
fn engine_takes_components_where_the_machine_has_room_for_the_pool() {
    let empty = [0x00, 0x61, 0x73, 0x6d, 0x0d, 0x00, 0x01, 0x00];
    match configure_wasmtime() {
        Ok(engine) => assert!(wasmtime::component::Component::new(&engine, empty).is_ok()),
        Err(e) => assert!(!e.is_empty()),
    }
}
