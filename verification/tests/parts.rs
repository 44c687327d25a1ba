//! Texts, labels, components and the worker.
use wasmcloud_hub::component::{
    component_bytes, load_component, ImageReference, LoadRequest, Protocol, PullRequest,
    RegistryAuth, OCI_MEDIA_TYPE, WASM_MEDIA_TYPE,
};
use wasmcloud_hub::config::{ComponentSource, NatsSource, OciSource};
use wasmcloud_hub::labels::Labels;
use wasmcloud_hub::text::{concatenate, from_utf8, remove_all, same, split, trim};
use wasmcloud_hub::worker::{acknowledged, command, Command, Worker, WORKER_SUBJECT};

fn image(
    image: &str,
    username: Option<&str>,
    password: Option<&str>,
    insecure: bool,
) -> ComponentSource {
    ComponentSource::Oci(OciSource {
        image: image.to_string(),
        username: username.map(str::to_string),
        password: password.map(str::to_string),
        insecure,
    })
}

fn pull(source: ComponentSource) -> PullRequest {
    match load_component(&source) {
        Ok(LoadRequest::Pull(request)) => request,
        other => panic!("{:?}", other),
    }
}

#[test]
fn texts_are_split_at_separators() {
    for text in ["", ".", "a", "a.b", ".a..b.", "é.ü.x", "no separator"] {
        let expected: Vec<&str> = text.split('.').collect();
        assert_eq!(split(text, '.'), expected);
        assert_eq!(split(text, '.').join("."), text);
    }
}

#[test]
fn substrings_are_removed() {
    for (text, pattern) in [
        ("abcabc", "abc"),
        ("aaa", "aa"),
        ("aXbXc", "X"),
        ("none", "x"),
        ("", "x"),
        ("short", "longer than it"),
        ("keep", ""),
        ("ababab", "aba"),
        ("éxé", "é"),
    ] {
        assert_eq!(remove_all(text, pattern), text.replace(pattern, ""));
    }
}

#[test]
fn white_space_is_trimmed() {
    for text in [
        "",
        "  ",
        "a",
        " a b ",
        "\u{a0}\u{3000}x\u{2028}\u{85}\r\n",
        "\u{200b}x",
        "\t\u{b}x\u{1680}y\u{202f}\u{205f}",
    ] {
        assert_eq!(trim(text), text.trim());
    }
    for code in 0..0x3001u32 {
        if let Some(c) = char::from_u32(code) {
            let text = format!("{}x", c);
            assert_eq!(trim(&text), text.trim());
        }
    }
}

#[test]
fn texts_are_compared_and_joined() {
    assert!(same("a", "a"));
    assert!(!same("a", "b"));
    assert_eq!(concatenate("a", "b"), "ab");
}

#[test]
fn bytes_are_read_as_text() {
    assert_eq!(from_utf8("héllo".as_bytes()), Ok("héllo".to_string()));
    assert_eq!(
        from_utf8(&[b'a', 0xc3]),
        Err("incomplete utf-8 byte sequence from index 1".to_string())
    );
}

#[test]
fn labels_have_distinct_keys() {
    let labels = Labels::new()
        .with("a".to_string(), "1".to_string())
        .with("b".to_string(), "2".to_string())
        .with("a".to_string(), "3".to_string());
    let mut pairs = labels.to_pairs();
    pairs.sort();
    assert_eq!(
        pairs,
        vec![
            ("a".to_string(), "3".to_string()),
            ("b".to_string(), "2".to_string())
        ]
    );
    let mut again = Labels::from_pairs(labels.to_pairs()).to_pairs();
    again.sort();
    assert_eq!(again, pairs);
}

#[test]
fn objects_are_loaded_from_a_bucket() {
    let source = ComponentSource::Nats(NatsSource {
        bucket: "b".to_string(),
        key: "k".to_string(),
    });
    assert_eq!(
        load_component(&source),
        Ok(LoadRequest::Object {
            bucket: "b".to_string(),
            key: "k".to_string()
        })
    );
}

#[test]
fn images_are_pulled_from_a_registry() {
    let request = pull(image("test.com/repo:tag", None, None, false));
    assert_eq!(
        request,
        PullRequest {
            protocol: Protocol::Https,
            accept_invalid_certificates: false,
            auth: RegistryAuth::Anonymous,
            reference: ImageReference {
                registry: "test.com".to_string(),
                repository: "repo".to_string(),
                tag: Some("tag".to_string()),
                digest: None,
            },
            media_types: vec![WASM_MEDIA_TYPE.to_string(), OCI_MEDIA_TYPE.to_string()],
        }
    );
    let insecure = pull(image("busybox", Some("u"), Some("p"), true));
    assert_eq!(insecure.protocol, Protocol::Http);
    assert!(insecure.accept_invalid_certificates);
    assert_eq!(
        insecure.auth,
        RegistryAuth::Basic("u".to_string(), "p".to_string())
    );
    assert_eq!(insecure.reference.registry, "docker.io");
    assert_eq!(insecure.reference.repository, "library/busybox");
    assert_eq!(insecure.reference.tag, Some("latest".to_string()));
    let digest = format!("sha256:{}", "f".repeat(64));
    let by_digest = pull(image(&format!("r.io/x@{}", digest), None, None, false));
    assert_eq!(by_digest.reference.tag, None);
    assert_eq!(by_digest.reference.digest, Some(digest));
}

#[test]
fn login_needs_user_and_password() {
    for (user, password) in [(Some("u"), None), (None, Some("p"))] {
        assert_eq!(
            pull(image("busybox", user, password, false)).auth,
            RegistryAuth::Anonymous
        );
    }
}

#[test]
fn bad_image_names_are_failures() {
    assert_eq!(
        load_component(&image("", None, None, false)),
        Err("repository name must have at least one component".to_string())
    );
    assert_eq!(
        load_component(&image("Upper Case", None, None, false)),
        Err("invalid reference format".to_string())
    );
}

#[test]
fn layers_make_a_component() {
    assert_eq!(component_bytes(&vec![]), Vec::<u8>::new());
    assert_eq!(
        component_bytes(&vec![vec![1, 2], vec![], vec![3]]),
        vec![1, 2, 3]
    );
}

#[test]
fn worker_takes_every_subject_of_its_stream() {
    let worker = Worker::new("WORK".to_string(), "me".to_string());
    assert_eq!(worker.stream, "WORK");
    assert_eq!(worker.parallelism, 5);
    assert_eq!(worker.consumer.name, "me");
    assert_eq!(worker.consumer.max_ack_pending, -1);
    assert_eq!(worker.consumer.max_deliver, 10);
    assert_eq!(worker.consumer.filter_subjects, vec!["WORK.>".to_string()]);
}

#[test]
fn commands_name_an_entity_and_an_action() {
    let expected = Command {
        entity: "lattice".to_string(),
        action: "create".to_string(),
    };
    assert_eq!(
        command(&format!("{}.lattice.create", WORKER_SUBJECT)),
        expected
    );
    assert_eq!(
        command(&format!("{}.lattice.create.more", WORKER_SUBJECT)),
        expected
    );
    assert_eq!(command("lattice.create"), expected);
}

#[test]
fn failed_acknowledgements_are_named() {
    assert_eq!(acknowledged(Ok(())), Ok(()));
    assert_eq!(
        acknowledged(Err("Timeout".to_string())),
        Err("Error double acking message: Timeout".to_string())
    );
}
