//! Loading the bytes of a component from an object store or a registry.
use crate::config::{ComponentSource, OciSource};
use vstd::prelude::*;

verus! {

/// The media type of the layers of a WebAssembly module.
pub const WASM_MEDIA_TYPE: &'static str = "application/vnd.module.wasm.content.layer.v1+wasm";

/// The media type of the layers of an image.
pub const OCI_MEDIA_TYPE: &'static str = "application/vnd.oci.image.layer.v1.tar";

/// How to talk to a registry.
#[derive(Clone, Copy, Debug, PartialEq, Eq, Structural)]
pub enum Protocol {
    Http,
    Https,
}

/// How to log in to a registry.
#[derive(Debug, PartialEq, Eq)]
pub enum RegistryAuth {
    Anonymous,
    Basic(String, String),
}

/// An image of a registry, by tag, by digest or by both.
#[derive(Debug, PartialEq, Eq)]
pub struct ImageReference {
    pub registry: String,
    pub repository: String,
    pub tag: Option<String>,
    pub digest: Option<String>,
}

/// What an [`ImageReference`] says.
#[verifier::ext_equal]
pub struct ImageReferenceView {
    pub registry: Seq<char>,
    pub repository: Seq<char>,
    pub tag: Option<Seq<char>>,
    pub digest: Option<Seq<char>>,
}

impl View for ImageReference {
    type V = ImageReferenceView;

    open spec fn view(&self) -> ImageReferenceView {
        ImageReferenceView {
            registry: self.registry@,
            repository: self.repository@,
            tag: self.tag.deep_view(),
            digest: self.digest.deep_view(),
        }
    }
}

/// What `oci_distribution::Reference::from_str` makes of the name of an image: the reference, or
/// the text of its error.
pub uninterp spec fn image_reference(image: Seq<char>) -> Result<ImageReferenceView, Seq<char>>;

/// `oci_distribution::Reference::from_str`, and the parts of the reference.
#[verifier::external_body]
fn parse_reference(image: &str) -> (r: Result<ImageReference, String>)
    ensures
        match r {
            Ok(reference) => image_reference(image@) == Ok::<ImageReferenceView, Seq<char>>(
                reference@,
            ),
            Err(e) => image_reference(image@) == Err::<ImageReferenceView, Seq<char>>(e@),
        },
{
    match <oci_distribution::Reference as std::str::FromStr>::from_str(image) {
        Ok(reference) => Ok(ImageReference {
            registry: reference.registry().to_string(),
            repository: reference.repository().to_string(),
            tag: reference.tag().map(str::to_string),
            digest: reference.digest().map(str::to_string),
        }),
        Err(e) => Err(e.to_string()),
    }
}

/// What to fetch to have the bytes of a component.
#[derive(Debug, PartialEq, Eq)]
pub enum LoadRequest {
    /// All the bytes of an object in an object store.
    Object { bucket: String, key: String },
    /// The layers of an image.
    Pull(PullRequest),
}

/// How to pull an image.
#[derive(Debug, PartialEq, Eq)]
pub struct PullRequest {
    pub protocol: Protocol,
    pub accept_invalid_certificates: bool,
    pub auth: RegistryAuth,
    pub reference: ImageReference,
    pub media_types: Vec<String>,
}

/// What a [`LoadRequest`] says.
#[verifier::ext_equal]
pub enum LoadRequestView {
    Object { bucket: Seq<char>, key: Seq<char> },
    Pull {
        protocol: Protocol,
        accept_invalid_certificates: bool,
        login: Option<(Seq<char>, Seq<char>)>,
        reference: ImageReferenceView,
        media_types: Seq<Seq<char>>,
    },
}

impl View for LoadRequest {
    type V = LoadRequestView;

    open spec fn view(&self) -> LoadRequestView {
        match self {
            LoadRequest::Object { bucket, key } => LoadRequestView::Object {
                bucket: bucket@,
                key: key@,
            },
            LoadRequest::Pull(p) => LoadRequestView::Pull {
                protocol: p.protocol,
                accept_invalid_certificates: p.accept_invalid_certificates,
                login: match p.auth {
                    RegistryAuth::Anonymous => None,
                    RegistryAuth::Basic(user, password) => Some((user@, password@)),
                },
                reference: p.reference@,
                media_types: p.media_types.deep_view(),
            },
        }
    }
}

/// The login that an image source gives: a user and a password, if it names both.
pub open spec fn login_of(source: OciSource) -> Option<(Seq<char>, Seq<char>)> {
    match (source.username, source.password) {
        (Some(user), Some(password)) => Some((user@, password@)),
        _ => None,
    }
}

/// What to fetch to have the bytes of a component, or the text of what is wrong with the name of
/// its image. An insecure source is pulled over plain HTTP and with whatever certificate there is.
pub open spec fn load_request_of(source: ComponentSource) -> Result<LoadRequestView, Seq<char>> {
    match source {
        ComponentSource::Nats(n) => Ok(
            LoadRequestView::Object { bucket: n.bucket@, key: n.key@ },
        ),
        ComponentSource::Oci(s) => match image_reference(s.image@) {
            Ok(reference) => Ok(
                LoadRequestView::Pull {
                    protocol: if s.insecure {
                        Protocol::Http
                    } else {
                        Protocol::Https
                    },
                    accept_invalid_certificates: s.insecure,
                    login: login_of(s),
                    reference,
                    media_types: seq![WASM_MEDIA_TYPE@, OCI_MEDIA_TYPE@],
                },
            ),
            Err(e) => Err(e),
        },
    }
}

/// What to fetch for an image that `reference` stands for.
pub fn pull_request(source: &OciSource, reference: ImageReference) -> (r: PullRequest)
    ensures
        LoadRequest::Pull(r)@ == (LoadRequestView::Pull {
            protocol: if source.insecure {
                Protocol::Http
            } else {
                Protocol::Https
            },
            accept_invalid_certificates: source.insecure,
            login: login_of(*source),
            reference: reference@,
            media_types: seq![WASM_MEDIA_TYPE@, OCI_MEDIA_TYPE@],
        }),
{
    let auth = match (&source.username, &source.password) {
        (Some(user), Some(password)) => RegistryAuth::Basic(user.clone(), password.clone()),
        _ => RegistryAuth::Anonymous,
    };
    let media_types: Vec<String> = vec![WASM_MEDIA_TYPE.to_owned(), OCI_MEDIA_TYPE.to_owned()];
    assert(media_types.deep_view() =~= seq![WASM_MEDIA_TYPE@, OCI_MEDIA_TYPE@]);
    PullRequest {
        protocol: if source.insecure {
            Protocol::Http
        } else {
            Protocol::Https
        },
        accept_invalid_certificates: source.insecure,
        auth,
        reference,
        media_types,
    }
}

/// What to fetch to have the bytes of a component, or the text of what is wrong with the name of
/// its image.
pub fn load_component(source: &ComponentSource) -> (r: Result<LoadRequest, String>)
    ensures
        match load_request_of(*source) {
            Ok(request) => r matches Ok(l) && l@ == request,
            Err(e) => r matches Err(text) && text@ == e,
        },
{
    match source {
        ComponentSource::Nats(n) => Ok(
            LoadRequest::Object { bucket: n.bucket.clone(), key: n.key.clone() },
        ),
        ComponentSource::Oci(s) => {
            match parse_reference(s.image.as_str()) {
                Ok(reference) => Ok(LoadRequest::Pull(pull_request(s, reference))),
                Err(e) => Err(e),
            }
        },
    }
}

/// The bytes of a component: those of its layers, one after the other.
pub fn component_bytes(layers: &Vec<Vec<u8>>) -> (r: Vec<u8>)
    ensures
        r@ == layers.deep_view().flatten(),
{
    let mut r: Vec<u8> = Vec::new();
    let mut i: usize = 0;
    assert(layers.deep_view().take(0) =~= Seq::<Seq<u8>>::empty());
    while i < layers.len()
        invariant
            i <= layers@.len(),
            r@ == layers.deep_view().take(i as int).flatten(),
        decreases layers@.len() - i,
    {
        let ghost before = layers.deep_view().take(i as int);
        proof {
            assert(layers.deep_view()[i as int] =~= layers@[i as int]@);
            assert(layers.deep_view().take(i + 1) =~= before.push(layers@[i as int]@));
            before.lemma_flatten_push(layers@[i as int]@);
        }
        r.extend_from_slice(layers[i].as_slice());
        assert(r@ =~= before.flatten() + layers@[i as int]@);
        i = i + 1;
    }
    assert(layers.deep_view().take(layers@.len() as int) =~= layers.deep_view());
    r
}

/// A registry is logged in to exactly where a source names both a user and a password.
pub proof fn login_needs_user_and_password(source: OciSource)
    ensures
        login_of(source) is Some <==> source.username is Some && source.password is Some,
{
}

} // verus!
