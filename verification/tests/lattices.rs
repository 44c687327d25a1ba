//! The lattice service, run against a store in memory.
use std::collections::{BTreeMap, BTreeSet};
use wasmcloud_hub::config::{
    Args, Component, ComponentSource, Config, LatticeGenerator, NatsSource,
};
use wasmcloud_hub::control::{
    Context, CreateLatticeResponse, Lattice, LatticePhase, LatticeStatus, LatticeUpdate, Metadata,
    SecretValue,
};
use wasmcloud_hub::effects::{Effect, Outcome};
use wasmcloud_hub::generator::{Creation, Generator};
use wasmcloud_hub::keys::XKey;
use wasmcloud_hub::lattice_wrpc::{
    created, AddStep, DeleteStep, GetStep, LatticeWrpcApi, UpdateStep, LATTICE_BUCKET,
    LATTICE_SUBJECT, OBJ_BUCKET,
};
use wasmcloud_hub::secrets::SecretsClient;

type Created = Result<CreateLatticeResponse, String>;

struct Store {
    buckets: BTreeSet<String>,
    lattices: BTreeMap<String, Lattice>,
    revisions: u64,
    requests: Vec<(String, Vec<u8>)>,
    applications: Vec<u8>,
    printed: Vec<String>,
    generate: Box<dyn Fn(Context) -> Created>,
    failing: Option<&'static str>,
}

impl Store {
    fn new() -> Store {
        Store {
            buckets: BTreeSet::new(),
            lattices: BTreeMap::new(),
            revisions: 0,
            requests: vec![],
            applications: b"[]".to_vec(),
            printed: vec![],
            generate: Box::new(|_| Err("no generator".to_string())),
            failing: None,
        }
    }

    fn perform(&mut self, effect: Effect<Lattice>) -> Outcome<Lattice> {
        match effect {
            Effect::CreateBucket { bucket, replicas } => {
                assert_eq!(replicas, 1);
                if self.failing == Some("create") {
                    return Outcome::Failed("create failed".to_string());
                }
                self.buckets.insert(bucket);
                Outcome::Done
            }
            Effect::OpenBucket { bucket } => {
                assert_eq!(bucket, LATTICE_BUCKET);
                if self.failing == Some("open") {
                    return Outcome::Failed("open failed".to_string());
                }
                Outcome::Done
            }
            Effect::Put { key, lattice } => {
                if self.failing == Some("put") {
                    return Outcome::Failed("put failed".to_string());
                }
                self.revisions += 1;
                self.lattices.insert(key, lattice);
                Outcome::Written(self.revisions)
            }
            Effect::PutEmpty { .. } => panic!("nothing writes nothing"),
            Effect::Update {
                key,
                lattice,
                revision,
            } => {
                if revision != self.revisions {
                    return Outcome::Failed("wrong last sequence".to_string());
                }
                if self.failing == Some("update") {
                    return Outcome::Failed("update failed".to_string());
                }
                self.revisions += 1;
                self.lattices.insert(key, lattice);
                Outcome::Done
            }
            Effect::Get { key } => {
                if self.failing == Some("get") {
                    return Outcome::Failed("get failed".to_string());
                }
                if self.failing == Some("decode") {
                    return Outcome::Unreadable("decode failed".to_string());
                }
                Outcome::Found(self.lattices.get(&key).cloned())
            }
            Effect::Delete { key } => {
                if self.failing == Some("delete") {
                    return Outcome::Failed("delete failed".to_string());
                }
                self.lattices.remove(&key);
                Outcome::Done
            }
            Effect::Request { subject, payload } => {
                if self.failing == Some("request") {
                    return Outcome::Failed("request failed".to_string());
                }
                self.requests.push((subject, payload));
                Outcome::Reply(self.applications.clone())
            }
            Effect::Create { context } => Outcome::Created((self.generate)(context)),
            Effect::Print { line } => {
                self.printed.push(line);
                Outcome::Done
            }
        }
    }

    fn add(
        &mut self,
        api: &LatticeWrpcApi,
        lattice: Lattice,
    ) -> Result<Result<String, String>, String> {
        let mut step = api.add_lattice(lattice);
        loop {
            match step {
                AddStep::Finish(result) => return result,
                AddStep::Do(state, effect) => {
                    let outcome = self.perform(effect);
                    step = api.add_lattice_next(state, outcome);
                }
            }
        }
    }

    fn update(
        &mut self,
        api: &LatticeWrpcApi,
        update: LatticeUpdate,
        paths: &[&str],
    ) -> Result<String, String> {
        let paths = paths.iter().map(|p| p.to_string()).collect();
        let mut step = api.update_lattice(update, paths);
        loop {
            match step {
                UpdateStep::Finish(result) => return result,
                UpdateStep::Do(state, effect) => {
                    let outcome = self.perform(effect);
                    step = api.update_lattice_next(state, outcome);
                }
            }
        }
    }

    fn delete(&mut self, api: &LatticeWrpcApi, name: &str) -> Result<Lattice, String> {
        let mut step = api.delete_lattice(name.to_string());
        loop {
            match step {
                DeleteStep::Finish(result) => return result,
                DeleteStep::Do(state, effect) => {
                    let outcome = self.perform(effect);
                    step = api.delete_lattice_next(state, outcome);
                }
            }
        }
    }

    fn get(&mut self, api: &LatticeWrpcApi, names: &[&str]) -> Result<Vec<Lattice>, String> {
        let mut step = api.get_lattices(names.iter().map(|n| n.to_string()).collect());
        loop {
            match step {
                GetStep::Finish(result) => return result,
                GetStep::Do(state, effect) => {
                    let outcome = self.perform(effect);
                    step = api.get_lattices_next(state, outcome);
                }
            }
        }
    }
}

fn lattice(name: &str) -> Lattice {
    Lattice {
        metadata: Metadata {
            name: name.to_string(),
            version: "".to_string(),
            uid: "".to_string(),
            labels: Default::default(),
            annotations: Default::default(),
        },
        account: None,
        description: None,
        signing_keys: None,
        deletable: false,
        status: LatticeStatus {
            phase: LatticePhase::Provisioning,
        },
    }
}

fn args() -> Args {
    Args {
        lattice_bucket: LATTICE_BUCKET.to_string(),
        work_stream: "WASMCLOUD_WORKQUEUE".to_string(),
        nats_url: "nats://localhost:4222".to_string(),
        nats_credsfile: None,
        nats_sys_credsfile: None,
        config: "".to_string(),
        encryption_key_file: None,
    }
}

fn plain_api() -> LatticeWrpcApi {
    LatticeWrpcApi::new(
        &Config {
            authorization: None,
            lattices: None,
        },
        &args(),
    )
}

fn generating_api(operator: &str, system: &str) -> LatticeWrpcApi {
    LatticeWrpcApi::new(
        &Config {
            lattices: Some(LatticeGenerator {
                component: Component {
                    source: ComponentSource::Nats(NatsSource {
                        bucket: OBJ_BUCKET.to_string(),
                        key: "generator.wasm".to_string(),
                    }),
                },
                secrets_backend: "".to_string(),
                wasmcloud_system_account: system.to_string(),
                operator_public_key: operator.to_string(),
            }),
            authorization: None,
        },
        &args(),
    )
}

fn is_ulid(s: &str) -> bool {
    s.len() == 26
        && s.chars()
            .all(|c| "0123456789ABCDEFGHJKMNPQRSTVWXYZ".contains(c))
}

fn is_uuid(s: &str) -> bool {
    let c: Vec<char> = s.chars().collect();
    c.len() == 36
        && c[14] == '4'
        && "89ab".contains(c[19])
        && c.iter().enumerate().all(|(i, c)| match i {
            8 | 13 | 18 | 23 => *c == '-',
            _ => "0123456789abcdef".contains(*c),
        })
}

#[test]
fn create_lattice() {
    let api = plain_api();
    let mut store = Store::new();

    let health = api.health_check();
    assert!(health.ready);
    assert_eq!(health.message, Some("OK".to_string()));

    let version = store.add(&api, lattice("test")).unwrap().unwrap();
    assert_ne!(version, "");

    assert!(store.buckets.contains("LATTICEDATA_test"));
    assert!(store.buckets.contains("CONFIGDATA_test"));
    assert_eq!(store.buckets.len(), 2);
    let l = store.lattices.get("test").unwrap().clone();
    assert_eq!(l.metadata.name, "test");
    assert_eq!(l.metadata.version, version);
    assert_eq!(l.status.phase, LatticePhase::Created);
    assert_ne!(l.metadata.uid, "");

    let deleted = store.delete(&api, "test").unwrap();
    assert_eq!(deleted.metadata.name, "test");
    assert_eq!(deleted.status.phase, LatticePhase::Deleting);
    assert_eq!(
        store.requests,
        vec![("wadm.api.test.model.list".to_string(), vec![])]
    );
    assert!(store.lattices.is_empty());
}

#[test]
fn update_lattice_test() {
    let api = plain_api();
    let mut store = Store::new();
    let added = store.add(&api, lattice("test")).unwrap().unwrap();

    let update = LatticeUpdate {
        lattice: "test".to_string(),
        account: Some("ABC123".to_string()),
        description: Some("Test".to_string()),
        signing_keys: None,
        deletable: None,
    };
    let version = store
        .update(&api, update, &["account", "description"])
        .unwrap();
    assert_ne!(version, "");
    assert_ne!(version, added);

    let get = store.get(&api, &["test"]).unwrap();
    assert_eq!(get.len(), 1);
    assert_eq!(get[0].account.as_ref().unwrap(), "ABC123");
    assert_eq!(get[0].description.as_ref().unwrap(), "Test");
    assert_eq!(get[0].signing_keys, None);
    assert!(!get[0].deletable);
    assert_eq!(get[0].metadata.version, version);
    assert_eq!(get[0].status.phase, LatticePhase::Created);
}

#[test]
fn watch_test() {
    let api = plain_api();
    let mut store = Store::new();
    store.add(&api, lattice("test")).unwrap().unwrap();

    assert_eq!(api.watch_lattices(None), vec![">".to_string()]);
    assert_eq!(
        api.watch_lattices(Some(vec!["a".to_string(), "b".to_string()])),
        vec!["a".to_string(), "b".to_string()]
    );
    assert_eq!(api.watch_lattices(Some(vec![])), Vec::<String>::new());
    let l = store.lattices.get("test").unwrap().clone();
    assert_eq!(api.watched(Ok(l.clone())), Some(vec![l]));
    assert_eq!(api.watched(Err("no lattice".to_string())), None);
}

/// The lattice generator with its host: secrets that are kept sealed, bytes that are drawn.
fn generate(
    secrets: &SecretsClient,
    stored: &BTreeMap<String, Vec<u8>>,
    context: Context,
) -> Created {
    let fetch = |key: String| {
        secrets
            .get(stored.get(&key))
            .map(SecretValue::String)
            .map_err(|_| "not found".to_string())
    };
    let started = match Generator::create(context) {
        Creation::Finished(result) => return result.map_err(|e| format!("{:?}", e)),
        Creation::Started(started) => started,
    };
    let drawn = started.draw(&[1; 32], &[2; 32]);
    let secret = fetch(drawn.operator_key());
    let operated = drawn.operator(secret).map_err(|e| format!("{:?}", e))?;
    let secret = fetch(operated.system_account());
    let ready = operated.system(secret).map_err(|e| format!("{:?}", e))?;
    let signed = ready.sign(&[3; 32], &[4; 32]);
    assert_eq!(signed.claims().split('.').count(), 3);
    signed.published(Ok(())).map_err(|e| format!("{:?}", e))
}

#[test]
fn test_lattice_generate() {
    let operator_key = nkeys::KeyPair::new_operator();
    let system_key = nkeys::KeyPair::new_account();
    let enc_key = nkeys::XKey::new();
    let secrets = SecretsClient::new(XKey::from_seed(&enc_key.seed().unwrap()).unwrap());
    let mut stored = BTreeMap::new();
    stored.insert(
        operator_key.public_key(),
        secrets.set(&operator_key.seed().unwrap()),
    );
    stored.insert(
        system_key.public_key(),
        secrets.set(&system_key.seed().unwrap()),
    );

    let api = generating_api(&operator_key.public_key(), &system_key.public_key());
    let mut store = Store::new();
    store.generate = Box::new(move |context| generate(&secrets, &stored, context));
    let version = store.add(&api, lattice("test")).unwrap().unwrap();
    assert!(is_ulid(&version));

    let resp = store.get(&api, &["test"]).unwrap();
    assert_eq!(resp.len(), 1);
    let l = resp[0].clone();
    assert_ne!(l.account, None);
    assert_ne!(l.account.as_ref().unwrap(), "");
    let made = nkeys::KeyPair::new_from_raw(nkeys::KeyPairType::Account, [1; 32]).unwrap();
    assert_eq!(l.account, Some(made.public_key()));
    assert_eq!(l.signing_keys.as_ref().unwrap().len(), 3);
    assert_eq!(l.status.phase, LatticePhase::Created);
    assert_eq!(l.metadata.version, version);
    assert_eq!(store.printed.len(), 1);
}

#[test]
fn added_lattice_is_identified() {
    let api = plain_api();
    let mut store = Store::new();
    let version = store.add(&api, lattice("one")).unwrap().unwrap();
    assert!(is_ulid(&version));
    assert!(is_uuid(&store.lattices["one"].metadata.uid));

    let mut versioned = lattice("two");
    versioned.metadata.version = "v1".to_string();
    versioned.metadata.uid = "mine".to_string();
    versioned.metadata.labels = vec![("a".to_string(), "b".to_string())];
    versioned.status.phase = LatticePhase::Deleting;
    let version = store.add(&api, versioned).unwrap().unwrap();
    assert_eq!(version, "v1");
    let two = &store.lattices["two"];
    assert_eq!(two.metadata.version, "v1");
    assert!(is_uuid(&two.metadata.uid));
    assert_eq!(two.metadata.labels, vec![("a".to_string(), "b".to_string())]);
    assert_eq!(two.status.phase, LatticePhase::Created);
}

#[test]
fn lattice_needs_a_name() {
    let api = plain_api();
    let mut store = Store::new();
    assert_eq!(
        store.add(&api, lattice("")),
        Err("Lattice name is required".to_string())
    );
    assert!(store.buckets.is_empty());
    assert!(store.lattices.is_empty());
}

#[test]
fn failing_generator_leaves_a_lattice_in_provision() {
    let api = generating_api("O", "A");
    let mut store = Store::new();
    store.generate = Box::new(|context| {
        assert_eq!(context.operator_key, Some("O".to_string()));
        assert_eq!(context.system_account, Some("A".to_string()));
        assert_eq!(context.additional_metadata, None);
        assert_eq!(context.lattice.metadata.name, "test");
        Err("Failed to create lattice: no".to_string())
    });
    assert_eq!(
        store.add(&api, lattice("test")),
        Ok(Err(
            "Error invoking component: Failed to create lattice: no".to_string()
        ))
    );
    assert_eq!(
        store.lattices["test"].status.phase,
        LatticePhase::Provisioning
    );
}

#[test]
fn generator_without_account_prints_nothing() {
    let api = generating_api("O", "A");
    let mut store = Store::new();
    store.generate = Box::new(|context| {
        let mut lattice = context.lattice;
        lattice.description = Some("completed".to_string());
        Ok(CreateLatticeResponse {
            lattice,
            account: None,
        })
    });
    store.add(&api, lattice("test")).unwrap().unwrap();
    assert!(store.printed.is_empty());
    let l = &store.lattices["test"];
    assert_eq!(l.description, Some("completed".to_string()));
    assert_eq!(l.status.phase, LatticePhase::Created);
}

#[test]
fn failures_of_adding_are_passed_on() {
    let api = plain_api();
    for (failing, text) in [
        ("create", "create failed"),
        ("open", "open failed"),
        ("put", "put failed"),
        ("update", "update failed"),
    ] {
        let mut store = Store::new();
        store.failing = Some(failing);
        assert_eq!(store.add(&api, lattice("test")), Err(text.to_string()));
    }
}

#[test]
fn adding_does_not_overwrite_what_came_in_between() {
    let api = plain_api();
    let mut store = Store::new();
    let mut step = api.add_lattice(lattice("a"));
    let result = loop {
        match step {
            AddStep::Finish(result) => break result,
            AddStep::Do(state, effect) => {
                let writes = matches!(effect, Effect::Put { .. });
                let outcome = store.perform(effect);
                if writes {
                    let mut other = lattice("a");
                    other.description = Some("written in between".to_string());
                    store.perform(Effect::Put {
                        key: "a".to_string(),
                        lattice: other,
                    });
                }
                step = api.add_lattice_next(state, outcome);
            }
        }
    };
    assert_eq!(result, Err("wrong last sequence".to_string()));
    assert_eq!(
        store.lattices["a"].description,
        Some("written in between".to_string())
    );
}

#[test]
fn update_needs_paths_and_a_lattice() {
    let api = plain_api();
    let mut store = Store::new();
    let update = || LatticeUpdate {
        lattice: "test".to_string(),
        account: None,
        description: None,
        signing_keys: None,
        deletable: None,
    };
    assert_eq!(
        store.update(&api, update(), &[]),
        Err("No paths provided for update".to_string())
    );
    assert_eq!(
        store.update(&api, update(), &["account"]),
        Err("Lattice not found".to_string())
    );
    store.add(&api, lattice("test")).unwrap().unwrap();
    for (failing, text) in [
        ("open", "open failed"),
        ("get", "Failed to get lattice"),
        ("decode", "decode failed"),
        ("put", "put failed"),
    ] {
        store.failing = Some(failing);
        assert_eq!(
            store.update(&api, update(), &["account"]),
            Err(text.to_string())
        );
    }
}

#[test]
fn update_changes_what_the_paths_name() {
    let api = plain_api();
    let mut store = Store::new();
    let mut start = lattice("test");
    start.account = Some("A1".to_string());
    start.description = Some("before".to_string());
    start.signing_keys = Some(vec!["K1".to_string()]);
    start.deletable = true;
    let version = store.add(&api, start).unwrap().unwrap();
    let before = store.lattices["test"].clone();

    let update = || LatticeUpdate {
        lattice: "test".to_string(),
        account: None,
        description: Some("after".to_string()),
        signing_keys: Some(vec!["K2".to_string(), "K3".to_string()]),
        deletable: None,
    };
    // Paths that name no field change nothing, not even the version.
    assert_eq!(
        store.update(&api, update(), &["name", "spec.description"]),
        Ok(version)
    );
    assert_eq!(store.lattices["test"], before);

    let version = store
        .update(&api, update(), &["signing_keys", "deletable", "signing_keys", "x"])
        .unwrap();
    let l = store.lattices["test"].clone();
    assert_eq!(
        l.signing_keys,
        Some(vec!["K2".to_string(), "K3".to_string()])
    );
    assert!(!l.deletable);
    assert_eq!(l.account, before.account);
    assert_eq!(l.description, before.description);
    assert_eq!(l.metadata.version, version);
    assert_eq!(l.metadata.uid, before.metadata.uid);

    // A field that is named but not given is taken away.
    store.update(&api, update(), &["account"]).unwrap();
    assert_eq!(store.lattices["test"].account, None);
    assert_eq!(
        store.lattices["test"].description,
        Some("before".to_string())
    );
}

#[test]
fn lattice_with_applications_is_not_deleted() {
    let api = plain_api();
    let mut store = Store::new();
    store.add(&api, lattice("test")).unwrap().unwrap();
    let before = store.lattices.clone();
    for applications in ["[{}]", "", "[ ]", "{}"] {
        store.applications = applications.as_bytes().to_vec();
        assert_eq!(
            store.delete(&api, "test"),
            Err(
                "Lattice has applications. Delete them first before deleting the lattice"
                    .to_string()
            )
        );
        assert_eq!(store.lattices, before);
    }
    store.applications = b"[]".to_vec();
    for (failing, text) in [
        ("open", "open failed"),
        ("get", "Failed to get lattice"),
        ("decode", "decode failed"),
        ("request", "request failed"),
        ("put", "put failed"),
        ("delete", "delete failed"),
    ] {
        store.failing = Some(failing);
        assert_eq!(store.delete(&api, "test"), Err(text.to_string()));
    }
    store.failing = None;
    assert_eq!(
        store.delete(&api, "other"),
        Err("Lattice not found".to_string())
    );
}

#[test]
fn lattices_are_read_in_order() {
    let api = plain_api();
    let mut store = Store::new();
    for name in ["a", "b", "c"] {
        store.add(&api, lattice(name)).unwrap().unwrap();
    }
    let names: Vec<String> = store
        .get(&api, &["c", "a", "c"])
        .unwrap()
        .into_iter()
        .map(|l| l.metadata.name)
        .collect();
    assert_eq!(names, vec!["c", "a", "c"]);
    assert_eq!(store.get(&api, &[]), Ok(vec![]));
    assert_eq!(
        store.get(&api, &["a", "d"]),
        Err("Lattice not found".to_string())
    );
    store.failing = Some("get");
    assert_eq!(
        store.get(&api, &["b"]),
        Err("Failed to get lattice b, get failed".to_string())
    );
    store.failing = Some("decode");
    assert_eq!(store.get(&api, &["b"]), Err("decode failed".to_string()));
    store.failing = Some("open");
    assert_eq!(store.get(&api, &["b"]), Err("open failed".to_string()));
}

#[test]
fn lattices_are_listed() {
    let api = plain_api();
    assert_eq!(api.list_lattices(vec![]), Ok(vec![]));
    assert_eq!(
        api.list_lattices(vec![Ok("a".to_string()), Ok("b".to_string())]),
        Ok(vec!["a".to_string(), "b".to_string()])
    );
    assert_eq!(
        api.list_lattices(vec![
            Ok("a".to_string()),
            Err("first".to_string()),
            Err("second".to_string())
        ]),
        Err("Error getting key: first".to_string())
    );
}

#[test]
fn subject_names_a_lattice() {
    let api = plain_api();
    assert_eq!(
        api.lattice_from_subject(&format!("{}.test", LATTICE_SUBJECT)),
        Ok("test".to_string())
    );
    assert_eq!(
        api.lattice_from_subject("a.b.c.d.e"),
        Ok("d".to_string())
    );
    assert_eq!(api.lattice_from_subject("a.b.c."), Ok("".to_string()));
    assert_eq!(
        api.lattice_from_subject(LATTICE_SUBJECT),
        Err("Invalid subject".to_string())
    );
}

#[test]
fn generator_failures_are_named() {
    let response = CreateLatticeResponse {
        lattice: lattice("test"),
        account: None,
    };
    assert_eq!(
        created(Ok(Err("no".to_string()))),
        Err("Failed to create lattice: no".to_string())
    );
    assert_eq!(created(Err("trap".to_string())), Err("trap".to_string()));
    assert_eq!(
        created(Ok(Ok(response))).unwrap().lattice.metadata.name,
        "test"
    );
}
