//! The lattice service on plain messages, run against a store in memory.
use async_nats::HeaderMap;
use std::collections::{BTreeMap, BTreeSet};
use wasmcloud_hub::bindings::{
    component_lattice, component_status, proto_lattice, proto_status,
};
use wasmcloud_hub::client::{
    LatticeClient, LatticeError, LatticeWatcher, RequestErrorKind, WatcherStep,
};
use wasmcloud_hub::config::{
    Args, Component, ComponentSource, Config, LatticeGenerator, NatsSource,
};
use wasmcloud_hub::control;
use wasmcloud_hub::effects::{Effect, Outcome};
use wasmcloud_hub::formatter::{add_request, update_request};
use wasmcloud_hub::labels::Labels;
use wasmcloud_hub::lattice_proto::{
    content_type_headers, AddStep, DeleteStep, GetStep, LatticeProtoApi, Operation, Reply, Route,
    SendError, UpdateStep, WatchAction, WatchEvent, LATTICE_BUCKET, LATTICE_SUBJECT, MIME_TYPE,
    NO_LATTICE,
};
use wasmcloud_hub::proto::{
    Lattice, LatticePhase, LatticeSpec, LatticeStatus, LatticeUpdate, Metadata,
};

type Created = Result<control::CreateLatticeResponse, String>;

struct Store {
    buckets: BTreeSet<String>,
    lattices: BTreeMap<String, Option<Lattice>>,
    revisions: u64,
    applications: Vec<u8>,
    generate: Box<dyn Fn(control::Context) -> Created>,
    failing: Option<&'static str>,
    opened: usize,
}

impl Store {
    fn new() -> Store {
        Store {
            buckets: BTreeSet::new(),
            lattices: BTreeMap::new(),
            revisions: 0,
            applications: b"[]".to_vec(),
            generate: Box::new(|_| Err("no generator".to_string())),
            failing: None,
            opened: 0,
        }
    }

    fn perform(&mut self, effect: Effect<Lattice>) -> Outcome<Lattice> {
        match effect {
            Effect::CreateBucket { bucket, replicas } => {
                assert_eq!(replicas, 1);
                self.buckets.insert(bucket);
                Outcome::Done
            }
            Effect::OpenBucket { bucket } => {
                assert_eq!(bucket, LATTICE_BUCKET);
                self.opened += 1;
                if self.failing == Some("open") {
                    return Outcome::Failed("open failed".to_string());
                }
                Outcome::Done
            }
            Effect::Put { key, lattice } => {
                if self.failing == Some("put") {
                    return Outcome::Failed("put failed".to_string());
                }
                self.revisions += 1;
                self.lattices.insert(key, Some(lattice));
                Outcome::Written(self.revisions)
            }
            Effect::PutEmpty { key } => {
                self.revisions += 1;
                self.lattices.insert(key, None);
                Outcome::Written(self.revisions)
            }
            Effect::Update {
                key,
                lattice,
                revision,
            } => {
                assert_eq!(revision, self.revisions);
                self.revisions += 1;
                self.lattices.insert(key, Some(lattice));
                Outcome::Done
            }
            Effect::Get { key } => {
                if self.failing == Some("get") {
                    return Outcome::Failed("get failed".to_string());
                }
                if self.failing == Some("decode") {
                    return Outcome::Unreadable("decode failed".to_string());
                }
                match self.lattices.get(&key) {
                    None => Outcome::Found(None),
                    Some(Some(lattice)) => Outcome::Found(Some(lattice.clone())),
                    // No bytes are a message in which nothing is set.
                    Some(None) => Outcome::Found(Some(empty())),
                }
            }
            Effect::Delete { key } => {
                assert!(self.lattices[&key].is_none());
                self.lattices.remove(&key);
                Outcome::Done
            }
            Effect::Request { subject, payload } => {
                assert!(subject.starts_with("wadm.api.") && subject.ends_with(".model.list"));
                assert!(payload.is_empty());
                Outcome::Reply(self.applications.clone())
            }
            Effect::Create { context } => Outcome::Created((self.generate)(context)),
            Effect::Print { .. } => panic!("nothing is printed"),
        }
    }

    fn add(
        &mut self,
        api: &LatticeProtoApi,
        name: &str,
        lattice: Option<Lattice>,
    ) -> Result<String, String> {
        let mut step = api.add_lattice(name, lattice);
        loop {
            match step {
                AddStep::Finish(result) => return result,
                AddStep::Do(state, effect) => {
                    let outcome = self.perform(effect);
                    step = api.add_lattice_next(state, outcome);
                }
            }
        }
    }

    fn update(
        &mut self,
        api: &LatticeProtoApi,
        name: &str,
        update: Option<LatticeUpdate>,
        paths: Option<Vec<String>>,
    ) -> Result<String, String> {
        let mut step = api.update_lattice(name, update, paths);
        loop {
            match step {
                UpdateStep::Finish(result) => return result,
                UpdateStep::Do(state, effect) => {
                    let outcome = self.perform(effect);
                    step = api.update_lattice_next(state, outcome);
                }
            }
        }
    }

    fn delete(&mut self, api: &LatticeProtoApi, name: &str) -> Result<Lattice, String> {
        let mut step = api.delete_lattice(name);
        loop {
            match step {
                DeleteStep::Finish(result) => return result,
                DeleteStep::Do(state, effect) => {
                    let outcome = self.perform(effect);
                    step = api.delete_lattice_next(state, outcome);
                }
            }
        }
    }

    fn get(&mut self, api: &LatticeProtoApi, names: &[&str]) -> Result<Vec<Lattice>, String> {
        let mut step = api.get_lattices(names.iter().map(|n| n.to_string()).collect());
        loop {
            match step {
                GetStep::Finish(result) => return result,
                GetStep::Do(state, effect) => {
                    let outcome = self.perform(effect);
                    step = api.get_lattices_next(state, outcome);
                }
            }
        }
    }

    fn stored(&self, name: &str) -> Lattice {
        self.lattices[name].clone().unwrap()
    }
}

fn api(generator: bool) -> LatticeProtoApi {
    LatticeProtoApi::new(
        &Config {
            authorization: None,
            lattices: if generator {
                Some(LatticeGenerator {
                    component: Component {
                        source: ComponentSource::Nats(NatsSource {
                            bucket: "b".to_string(),
                            key: "k".to_string(),
                        }),
                    },
                    secrets_backend: "".to_string(),
                    wasmcloud_system_account: "A".to_string(),
                    operator_public_key: "O".to_string(),
                })
            } else {
                None
            },
        },
        &Args {
            lattice_bucket: "".to_string(),
            work_stream: "".to_string(),
            nats_url: "url".to_string(),
            nats_credsfile: None,
            nats_sys_credsfile: None,
            config: "".to_string(),
            encryption_key_file: None,
        },
    )
}

fn empty() -> Lattice {
    Lattice {
        meta: None,
        spec: None,
    }
}

fn specified() -> Lattice {
    Lattice {
        meta: Some(Metadata {
            name: "ignored".to_string(),
            labels: Labels::from_pairs(pairs(&[("a", "b")])),
            ..Metadata::default()
        }),
        spec: Some(LatticeSpec {
            account: "ACC".to_string(),
            signing_keys: vec!["K".to_string()],
            description: "text".to_string(),
            status: Some(LatticeStatus { phase: 3 }),
            deletable: false,
        }),
    }
}

fn pairs(list: &[(&str, &str)]) -> Vec<(String, String)> {
    list.iter()
        .map(|(k, v)| (k.to_string(), v.to_string()))
        .collect()
}

fn phase(lattice: &Lattice) -> i32 {
    lattice.spec.as_ref().unwrap().status.unwrap().phase
}

fn paths(list: &[&str]) -> Option<Vec<String>> {
    Some(list.iter().map(|p| p.to_string()).collect())
}

fn values() -> LatticeUpdate {
    LatticeUpdate {
        description: "new".to_string(),
        deletable: true,
        account: "NEW".to_string(),
        signing_keys: vec![],
    }
}

#[test]
fn messages_are_routed() {
    let api = api(false);
    let headers = content_type_headers();
    let route = |subject: &str| {
        api.handle_msg(&format!("{}.{}", LATTICE_SUBJECT, subject), Some(&headers))
            .unwrap()
    };
    let name = || "demo".to_string();
    assert_eq!(route("add.demo"), Route::Operation(Operation::Add(name())));
    assert_eq!(
        route("update.demo"),
        Route::Operation(Operation::Update(name()))
    );
    assert_eq!(
        route("delete.demo.more"),
        Route::Operation(Operation::Delete(name()))
    );
    assert_eq!(route("get.demo"), Route::Operation(Operation::Get));
    assert_eq!(route("watch"), Route::Operation(Operation::Watch));
    assert_eq!(route("watch.demo"), Route::Operation(Operation::Watch));
    assert_eq!(route("get"), Route::NoLattice);
    assert_eq!(route("other"), Route::NoLattice);
    assert_eq!(
        route("other.demo"),
        Route::Operation(Operation::Invalid("other".to_string()))
    );
    assert_eq!(
        api.invalid_operation("other"),
        "Invalid operation: other".to_string()
    );
    assert_eq!(NO_LATTICE, "No lattice specified");
    assert_eq!(
        api.lattice_from_subject("a.b.c.d.e"),
        Some("e".to_string())
    );
    assert_eq!(api.lattice_from_subject("a.b.c.d"), None);
}

#[test]
fn content_type_is_checked() {
    let api = api(false);
    let subject = format!("{}.add.demo", LATTICE_SUBJECT);
    assert_eq!(
        api.handle_msg(&subject, None),
        Err("No headers -- content-type header is missing".to_string())
    );
    let mut headers = HeaderMap::new();
    assert_eq!(
        api.handle_msg(&subject, Some(&headers)),
        Err("No content type header".to_string())
    );
    headers.insert("Content-Type", "text/plain");
    assert_eq!(
        api.handle_msg(&subject, Some(&headers)),
        Err("Invalid content type: text/plain".to_string())
    );
    headers.insert("Content-Type", MIME_TYPE);
    assert!(api.handle_msg(&subject, Some(&headers)).is_ok());
    // The first value counts.
    headers.append("Content-Type", "text/plain");
    assert!(api.handle_msg(&subject, Some(&headers)).is_ok());
}

#[test]
fn results_are_replied() {
    let api = api(false);
    match api.reply(Ok(Some(vec![1, 2]))) {
        Reply::Message(headers, payload) => {
            assert_eq!(payload, vec![1, 2]);
            assert_eq!(headers.len(), 1);
            assert_eq!(headers.get("Content-Type").unwrap().as_str(), MIME_TYPE);
        }
        _ => panic!("no message"),
    }
    assert!(matches!(api.reply(Ok(None)), Reply::Nothing));
    match api.reply(Err("failed".to_string())) {
        Reply::Text(text) => assert_eq!(text, "failed"),
        _ => panic!("no text"),
    }
}

#[test]
fn message_adds_a_lattice() {
    let api = api(false);
    let mut store = Store::new();
    assert_eq!(
        store.add(&api, "demo", None),
        Err("No lattice in request".to_string())
    );
    let version = store.add(&api, "demo", Some(empty())).unwrap();
    assert_eq!(version.len(), 26);
    assert!(store.buckets.contains("LATTICEDATA_demo"));
    assert!(store.buckets.contains("CONFIGDATA_demo"));
    assert_eq!(store.opened, 2);
    let l = store.stored("demo");
    let meta = l.meta.as_ref().unwrap();
    assert_eq!(meta.name, "demo");
    assert_eq!(meta.uid.len(), 36);
    assert_eq!(meta.version.len(), 26);
    assert_ne!(meta.version, version);
    let spec = l.spec.as_ref().unwrap();
    assert!(spec.deletable);
    assert_eq!(spec.description, "");
    assert_eq!(phase(&l), 2);
}

#[test]
fn message_keeps_the_specification() {
    let api = api(false);
    let mut store = Store::new();
    store.add(&api, "demo", Some(specified())).unwrap();
    let l = store.stored("demo");
    assert_eq!(l.meta.as_ref().unwrap().name, "demo");
    assert!(l.meta.as_ref().unwrap().labels.to_pairs().is_empty());
    let spec = l.spec.as_ref().unwrap();
    assert_eq!(spec.account, "ACC");
    assert_eq!(spec.signing_keys, vec!["K".to_string()]);
    assert!(!spec.deletable);
    assert_eq!(phase(&l), 2);
}

#[test]
fn message_has_the_generator_complete_a_lattice() {
    let api = api(true);
    let mut store = Store::new();
    store.generate = Box::new(|context| {
        assert_eq!(context.operator_key, Some("O".to_string()));
        assert_eq!(context.system_account, Some("A".to_string()));
        assert_eq!(context.lattice.account, Some("ACC".to_string()));
        assert_eq!(
            context.lattice.status.phase,
            control::LatticePhase::Provisioning
        );
        let mut lattice = context.lattice;
        lattice.account = None;
        lattice.signing_keys = Some(vec!["S".to_string()]);
        Ok(control::CreateLatticeResponse {
            lattice,
            account: None,
        })
    });
    store.add(&api, "demo", Some(specified())).unwrap();
    let l = store.stored("demo");
    let spec = l.spec.as_ref().unwrap();
    assert_eq!(spec.account, "");
    assert_eq!(spec.signing_keys, vec!["S".to_string()]);
    assert_eq!(phase(&l), 2);

    let mut store = Store::new();
    store.generate = Box::new(|_| Err("no".to_string()));
    assert_eq!(
        store.add(&api, "demo", Some(empty())),
        Err("Error invoking component: no".to_string())
    );
    assert_eq!(phase(&store.stored("demo")), 1);
    store.failing = Some("put");
    assert_eq!(
        store.add(&api, "demo", Some(empty())),
        Err("put failed".to_string())
    );
}

#[test]
fn message_changes_a_lattice() {
    let api = api(false);
    let mut store = Store::new();
    assert_eq!(
        store.update(&api, "demo", Some(values()), None),
        Err("No update mask in request".to_string())
    );
    assert_eq!(
        store.update(&api, "demo", None, paths(&[])),
        Err("No update in request".to_string())
    );
    assert_eq!(
        store.update(&api, "demo", Some(values()), paths(&[])),
        Err("Lattice not found".to_string())
    );
    store.add(&api, "demo", Some(specified())).unwrap();
    let version = store
        .update(
            &api,
            "demo",
            Some(values()),
            paths(&["deletable", "signing_keys", "deletable", "x"]),
        )
        .unwrap();
    let l = store.stored("demo");
    assert_eq!(l.meta.as_ref().unwrap().version, version);
    let spec = l.spec.as_ref().unwrap();
    assert!(spec.deletable);
    assert!(spec.signing_keys.is_empty());
    assert_eq!(spec.account, "ACC");
    assert_eq!(spec.description, "text");

    // A new version is written even if no field is named.
    let again = store
        .update(&api, "demo", Some(values()), paths(&["spec.account"]))
        .unwrap();
    assert_eq!(store.stored("demo").meta.as_ref().unwrap().version, again);
    assert_eq!(store.stored("demo").spec.as_ref().unwrap().account, "ACC");

    store
        .update(&api, "demo", Some(values()), paths(&["account", "description"]))
        .unwrap();
    let l = store.stored("demo");
    assert_eq!(l.spec.as_ref().unwrap().account, "NEW");
    assert_eq!(l.spec.as_ref().unwrap().description, "new");

    store.failing = Some("get");
    assert_eq!(
        store.update(&api, "demo", Some(values()), paths(&["account"])),
        Err("Error getting lattice: get failed".to_string())
    );
    store.failing = Some("put");
    assert_eq!(
        store.update(&api, "demo", Some(values()), paths(&["account"])),
        Err("put failed".to_string())
    );
    store.failing = None;
    store.failing = Some("decode");
    assert_eq!(
        store.update(&api, "demo", Some(values()), paths(&["account"])),
        Err("decode failed".to_string())
    );
}

#[test]
fn message_deletes_a_lattice() {
    let api = api(false);
    let mut store = Store::new();
    assert_eq!(
        store.delete(&api, "demo").err(),
        Some("Lattice not found".to_string())
    );
    store.add(&api, "demo", Some(specified())).unwrap();
    let before = store.stored("demo").meta.unwrap().version;
    store.applications = b"[1]".to_vec();
    assert_eq!(
        store.delete(&api, "demo").err(),
        Some("Lattice has applications. Delete them first before deleting the lattice".to_string())
    );
    assert_eq!(store.stored("demo").meta.unwrap().version, before);
    store.failing = Some("get");
    assert_eq!(
        store.delete(&api, "demo").err(),
        Some("Error getting lattice: get failed".to_string())
    );
    store.failing = None;
    store.applications = b"[]".to_vec();
    let deleted = store.delete(&api, "demo").unwrap();
    assert_eq!(phase(&deleted), 3);
    assert_ne!(deleted.meta.unwrap().version, before);
    assert!(store.lattices.is_empty());
}

#[test]
fn lattice_being_deleted_is_read_as_empty() {
    let api = api(false);
    let mut store = Store::new();
    store.add(&api, "demo", Some(specified())).unwrap();
    let mut step = api.delete_lattice("demo");
    loop {
        match step {
            DeleteStep::Finish(result) => {
                assert!(result.is_ok());
                break;
            }
            DeleteStep::Do(state, effect) => {
                let emptied = matches!(effect, Effect::PutEmpty { .. });
                let outcome = store.perform(effect);
                if emptied {
                    let read = store.get(&api, &["demo"]).unwrap();
                    assert_eq!(read.len(), 1);
                    assert!(read[0].meta.is_none() && read[0].spec.is_none());
                }
                step = api.delete_lattice_next(state, outcome);
            }
        }
    }
    assert_eq!(
        store.get(&api, &["demo"]).err(),
        Some("Lattice not found".to_string())
    );
}

#[test]
fn message_reads_lattices() {
    let api = api(false);
    let mut store = Store::new();
    store.add(&api, "a", Some(empty())).unwrap();
    store.add(&api, "b", Some(empty())).unwrap();
    let names: Vec<String> = store
        .get(&api, &["b", "a"])
        .unwrap()
        .into_iter()
        .map(|l| l.meta.unwrap().name)
        .collect();
    assert_eq!(names, vec!["b", "a"]);
    assert_eq!(store.get(&api, &[]).unwrap().len(), 0);
    assert_eq!(
        store.get(&api, &["a", "c"]).err(),
        Some("Lattice not found".to_string())
    );
    store.failing = Some("get");
    assert_eq!(
        store.get(&api, &["a"]).err(),
        Some("Failed to get lattice a, get failed".to_string())
    );
    store.failing = Some("open");
    assert_eq!(
        store.get(&api, &["a"]).err(),
        Some("open failed".to_string())
    );
}

#[test]
fn watchers_are_sent_lattices() {
    let api = api(false);
    assert_eq!(
        api.watch_lattices(false, vec![]),
        Err("No reply-to subject".to_string())
    );
    assert_eq!(api.watch_lattices(true, vec![]), Ok(vec![">".to_string()]));
    assert_eq!(
        api.watch_lattices(true, vec!["a".to_string()]),
        Ok(vec!["a".to_string()])
    );
    match api.watch_next(WatchEvent::Entry(Ok(specified()))) {
        WatchAction::Send(headers, lattice) => {
            assert_eq!(headers.get("Content-Type").unwrap().as_str(), MIME_TYPE);
            assert_eq!(headers.iter().count(), 1);
            assert_eq!(lattice.meta.unwrap().name, "ignored");
        }
        _ => panic!("not sent"),
    }
    let waits = |event| matches!(api.watch_next(event), WatchAction::Wait);
    assert!(waits(WatchEvent::Entry(Err("no lattice".to_string()))));
    assert!(waits(WatchEvent::Sent(Ok(()))));
    let ends = |event| matches!(api.watch_next(event), WatchAction::Finish(Ok(None)));
    assert!(ends(WatchEvent::Sent(Err(SendError::NoResponders))));
    assert!(ends(WatchEvent::Sent(Err(SendError::TimedOut))));
    assert!(ends(WatchEvent::Ended));
    match api.watch_next(WatchEvent::Sent(Err(SendError::Other("io".to_string())))) {
        WatchAction::Finish(Err(e)) => assert_eq!(e, "io"),
        _ => panic!("no failure"),
    }
}

#[test]
fn lattices_pass_between_the_interfaces() {
    let mut given = specified();
    given.meta.as_mut().unwrap().labels =
        Labels::from_pairs(pairs(&[("a", "1"), ("b", "2"), ("a", "3")]));
    let through = component_lattice(given.clone());
    assert_eq!(through.metadata.name, "ignored");
    assert_eq!(through.account, Some("ACC".to_string()));
    assert_eq!(through.signing_keys, Some(vec!["K".to_string()]));
    assert_eq!(through.description, Some("text".to_string()));
    assert!(!through.deletable);
    assert_eq!(through.status.phase, control::LatticePhase::Deleting);
    let mut labels = through.metadata.labels.clone();
    labels.sort();
    assert_eq!(labels, pairs(&[("a", "3"), ("b", "2")]));

    let back = proto_lattice(through);
    let spec = back.spec.unwrap();
    assert_eq!(spec.account, "ACC");
    assert_eq!(spec.signing_keys, vec!["K".to_string()]);
    assert_eq!(spec.description, "text");
    assert_eq!(spec.status, Some(LatticeStatus { phase: 3 }));
    let mut labels = back.meta.unwrap().labels.to_pairs();
    labels.sort();
    assert_eq!(labels, pairs(&[("a", "3"), ("b", "2")]));

    let nothing = component_lattice(empty());
    assert_eq!(nothing.metadata.name, "");
    assert_eq!(nothing.account, None);
    assert_eq!(nothing.signing_keys, None);
    assert_eq!(nothing.description, None);
    assert_eq!(nothing.status.phase, control::LatticePhase::Provisioning);
    let back = proto_lattice(nothing);
    assert_eq!(back.spec.as_ref().unwrap().account, "");
    assert!(back.spec.as_ref().unwrap().signing_keys.is_empty());
    assert_eq!(phase(&back), 1);
}

#[test]
fn empty_texts_are_missing_when_they_come_back() {
    let mut given = component_lattice(specified());
    given.account = Some("".to_string());
    given.description = Some("".to_string());
    given.signing_keys = Some(vec![]);
    given.metadata.labels = pairs(&[("a", "1"), ("b", "")]);
    given.metadata.annotations = pairs(&[("c", "2")]);
    let back = component_lattice(proto_lattice(given));
    assert_eq!(back.account, None);
    assert_eq!(back.description, None);
    assert_eq!(back.signing_keys, None);
    let mut labels = back.metadata.labels.clone();
    labels.sort();
    assert_eq!(labels, pairs(&[("a", "1"), ("b", "")]));
    assert_eq!(back.metadata.annotations, pairs(&[("c", "2")]));
}

#[test]
fn incomplete_messages_come_back_complete() {
    let mut given = empty();
    let back = proto_lattice(component_lattice(given.clone()));
    assert_eq!(back.meta.as_ref().unwrap().name, "");
    assert_eq!(phase(&back), 1);
    given.spec = specified().spec;
    given.spec.as_mut().unwrap().status = Some(LatticeStatus { phase: 9 });
    let back = proto_lattice(component_lattice(given));
    assert_eq!(phase(&back), 1);
    assert_eq!(back.spec.unwrap().account, "ACC");
}

#[test]
fn phases_have_numbers() {
    for (phase, number) in [
        (LatticePhase::LatticeUnspecified, 0),
        (LatticePhase::LatticeProvisioning, 1),
        (LatticePhase::LatticeCreated, 2),
        (LatticePhase::LatticeDeleting, 3),
    ] {
        assert_eq!(phase.to_i32(), number);
        assert_eq!(LatticePhase::from_i32(number), Some(phase));
    }
    assert_eq!(LatticePhase::from_i32(4), None);
    assert_eq!(LatticePhase::from_i32(-1), None);
    for (number, phase) in [
        (0, control::LatticePhase::Provisioning),
        (1, control::LatticePhase::Provisioning),
        (2, control::LatticePhase::Created),
        (3, control::LatticePhase::Deleting),
        (9, control::LatticePhase::Provisioning),
    ] {
        assert_eq!(component_status(LatticeStatus { phase: number }).phase, phase);
    }
    assert_eq!(
        proto_status(control::LatticeStatus {
            phase: control::LatticePhase::Created
        })
        .phase,
        2
    );
}

#[test]
fn clients_ask_on_the_subject_of_an_operation() {
    let client = LatticeClient::new();
    let add = client.add("demo");
    assert_eq!(add.subject, "wasmcloud.lattice.v1alpha1_proto.add.demo");
    assert_eq!(add.headers.get("Content-Type").unwrap().as_str(), MIME_TYPE);
    let watch = client.watch();
    assert_eq!(watch.subject, "wasmcloud.lattice.v1alpha1_proto.watch");
    assert_eq!(
        client.request("get", "demo").subject,
        "wasmcloud.lattice.v1alpha1_proto.get.demo"
    );
    let api = api(false);
    assert_eq!(
        api.handle_msg(&add.subject, Some(&add.headers)),
        Ok(Route::Operation(Operation::Add("demo".to_string())))
    );
    assert_eq!(
        api.handle_msg(&watch.subject, Some(&watch.headers)),
        Ok(Route::Operation(Operation::Watch))
    );
}

#[test]
fn watchers_acknowledge_what_they_can_decode() {
    let watcher = LatticeWatcher::new();
    assert_eq!(watcher.buffer, 100);
    assert_eq!(watcher.received(Ok(7)), WatcherStep::Forward(7));
    assert_eq!(
        watcher.received::<u8>(Err("bad".to_string())),
        WatcherStep::Skip
    );
}

#[test]
fn lattice_errors_have_texts() {
    assert_eq!(
        LatticeError::Nats(RequestErrorKind::TimedOut).message(),
        "nats error: request timed out"
    );
    assert_eq!(
        LatticeError::Nats(RequestErrorKind::NoResponders).message(),
        "nats error: no responders"
    );
    assert_eq!(
        LatticeError::Nats(RequestErrorKind::Other).message(),
        "nats error: request failed"
    );
    assert_eq!(
        LatticeError::ApiError("no".to_string()).message(),
        "error: no"
    );
}

#[test]
fn requests_are_made_from_arguments() {
    let lattice = add_request("demo".to_string(), "text".to_string(), true);
    let meta = lattice.meta.unwrap();
    assert_eq!(meta.name, "demo");
    assert_eq!(meta.version, "");
    let spec = lattice.spec.unwrap();
    assert_eq!(spec.description, "text");
    assert!(spec.deletable);
    assert_eq!(spec.status, None);

    let (update, paths) = update_request(None, None, None);
    assert_eq!(update.description, "");
    assert!(!update.deletable);
    assert!(paths.is_empty());
    let (update, paths) =
        update_request(Some("d".to_string()), Some(true), Some("A".to_string()));
    assert_eq!(update.description, "d");
    assert_eq!(update.account, "A");
    assert!(update.deletable);
    assert!(update.signing_keys.is_empty());
    assert_eq!(
        paths,
        vec!["spec.description", "spec.deletable", "spec.account"]
    );
    let (_, paths) = update_request(None, Some(false), None);
    assert_eq!(paths, vec!["spec.deletable"]);
}
