//! Image manifests and the registry client.
//!
//! A manifest arrives as a JSON document. `manifest_of` says which documents
//! are manifests and what each of them describes; the decoders compute it.

use crate::json::{
    document_of, field_of, items_of, member_of, parse, text_of, trees, unsigned_of, Json, Tree,
};
use crate::fs::{join_path, joined};
use crate::text::{chars_of, find_segment_end, join2, segment_end};
use vstd::prelude::*;
use vstd::string::*;

verus! {

/// What a manifest says of one blob: its media type, its size in bytes and
/// its digest, written `algorithm:hex`.
pub struct BlobDescriptor {
    pub media_type: Seq<char>,
    pub size: u64,
    pub digest: Seq<char>,
}

/// What a manifest describes. The layers stand in the order in which they
/// are applied: a later layer overwrites what an earlier one brought.
pub struct Manifest {
    pub schema_version: u32,
    pub media_type: Seq<char>,
    pub config: BlobDescriptor,
    pub layers: Seq<BlobDescriptor>,
}

/// The descriptor of the configuration blob of an image.
#[derive(Debug, PartialEq, Eq)]
pub struct DockerManifestConfig {
    pub media_type: String,
    pub size: u64,
    pub digest: String,
}

/// The descriptor of one filesystem layer of an image.
#[derive(Debug, PartialEq, Eq)]
pub struct DockerManifestLayer {
    pub media_type: String,
    pub size: u64,
    pub digest: String,
}

/// An image manifest, schema version 2.
#[derive(Debug, PartialEq, Eq)]
pub struct DockerManifest {
    pub schema_version: u32,
    pub media_type: String,
    pub config: DockerManifestConfig,
    pub layers: Vec<DockerManifestLayer>,
}

impl View for DockerManifestConfig {
    type V = BlobDescriptor;

    open spec fn view(&self) -> BlobDescriptor {
        BlobDescriptor { media_type: self.media_type@, size: self.size, digest: self.digest@ }
    }
}

impl View for DockerManifestLayer {
    type V = BlobDescriptor;

    open spec fn view(&self) -> BlobDescriptor {
        BlobDescriptor { media_type: self.media_type@, size: self.size, digest: self.digest@ }
    }
}

impl View for DockerManifest {
    type V = Manifest;

    open spec fn view(&self) -> Manifest {
        Manifest {
            schema_version: self.schema_version,
            media_type: self.media_type@,
            config: self.config@,
            layers: Seq::new(self.layers@.len(), |i: int| self.layers@[i]@),
        }
    }
}

/// The blob that a JSON value describes, if it is a descriptor: a record of
/// the fields `mediaType` (a string), `size` (an integer from 0 to 2^64 - 1)
/// and `digest` (a string).
pub open spec fn descriptor_of(value: Option<Tree>) -> Option<BlobDescriptor> {
    match value {
        Some(record) => {
            let media_type = text_of(field_of(record, "mediaType"@, 0, 3));
            let size = unsigned_of(field_of(record, "size"@, 1, 3));
            let digest = text_of(field_of(record, "digest"@, 2, 3));
            if media_type is Some && size is Some && digest is Some {
                Some(
                    BlobDescriptor {
                        media_type: media_type->0,
                        size: size->0,
                        digest: digest->0,
                    },
                )
            } else {
                None
            }
        },
        None => None,
    }
}

/// The blobs that the elements of an array describe, in the array's order, if
/// every element is a descriptor.
pub open spec fn descriptors_of(items: Option<Seq<Tree>>) -> Option<Seq<BlobDescriptor>> {
    match items {
        Some(items) => {
            if forall|i: int| 0 <= i < items.len() ==> descriptor_of(Some(#[trigger] items[i])) is Some {
                Some(Seq::new(items.len(), |i: int| descriptor_of(Some(items[i]))->0))
            } else {
                None
            }
        },
        None => None,
    }
}

/// The manifest that a JSON value describes, if it is one: a record of the
/// fields `schemaVersion` (an integer from 0 to 2^32 - 1), `mediaType` (a
/// string), `config` (a descriptor) and `layers` (an array of descriptors).
pub open spec fn manifest_of(value: Option<Tree>) -> Option<Manifest> {
    match value {
        Some(record) => {
            let schema_version = unsigned_of(field_of(record, "schemaVersion"@, 0, 4));
            let media_type = text_of(field_of(record, "mediaType"@, 1, 4));
            let config = descriptor_of(field_of(record, "config"@, 2, 4));
            let layers = descriptors_of(items_of(field_of(record, "layers"@, 3, 4)));
            if schema_version is Some && schema_version->0 <= u32::MAX && media_type is Some
                && config is Some && layers is Some {
                Some(
                    Manifest {
                        schema_version: (schema_version->0) as u32,
                        media_type: media_type->0,
                        config: config->0,
                        layers: layers->0,
                    },
                )
            } else {
                None
            }
        },
        None => None,
    }
}

/// Decoding keeps the layers of a manifest as the document lists them: as
/// many, and in the same order.
pub proof fn lemma_layers_keep_order(document: Tree)
    requires
        manifest_of(Some(document)) is Some,
    ensures
        items_of(field_of(document, "layers"@, 3, 4)) is Some,
        ({
            let listed = items_of(field_of(document, "layers"@, 3, 4))->0;
            let decoded = manifest_of(Some(document))->0.layers;
            &&& decoded.len() == listed.len()
            &&& forall|i: int|
                0 <= i < listed.len() ==> descriptor_of(Some(#[trigger] listed[i])) == Some(
                    decoded[i],
                )
        }),
{
}

/// Reads the three fields of a descriptor.
fn read_descriptor(value: &Json) -> (out: Option<(String, u64, String)>)
    ensures
        match out {
            Some(fields) => descriptor_of(Some(value@)) == Some(
                BlobDescriptor { media_type: fields.0@, size: fields.1, digest: fields.2@ },
            ),
            None => descriptor_of(Some(value@)) is None,
        },
{
    let media_type = match value.field("mediaType", 0, 3) {
        Some(found) => found.as_text(),
        None => None,
    };
    let size = match value.field("size", 1, 3) {
        Some(found) => found.as_unsigned(),
        None => None,
    };
    let digest = match value.field("digest", 2, 3) {
        Some(found) => found.as_text(),
        None => None,
    };
    match (media_type, size, digest) {
        (Some(media_type), Some(size), Some(digest)) => Some(
            (media_type.clone(), size, digest.clone()),
        ),
        _ => None,
    }
}

impl DockerManifestConfig {
    /// Decodes the descriptor of a configuration blob.
    pub fn from_json(value: &Json) -> (out: Option<DockerManifestConfig>)
        ensures
            match out {
                Some(config) => descriptor_of(Some(value@)) == Some(config@),
                None => descriptor_of(Some(value@)) is None,
            },
    {
        match read_descriptor(value) {
            Some((media_type, size, digest)) => Some(
                DockerManifestConfig { media_type, size, digest },
            ),
            None => None,
        }
    }
}

impl DockerManifestLayer {
    /// Decodes the descriptor of a layer.
    pub fn from_json(value: &Json) -> (out: Option<DockerManifestLayer>)
        ensures
            match out {
                Some(layer) => descriptor_of(Some(value@)) == Some(layer@),
                None => descriptor_of(Some(value@)) is None,
            },
    {
        match read_descriptor(value) {
            Some((media_type, size, digest)) => Some(
                DockerManifestLayer { media_type, size, digest },
            ),
            None => None,
        }
    }
}

/// Decodes the elements of an array as layers, in the array's order.
fn read_layers(items: &Vec<Json>) -> (out: Option<Vec<DockerManifestLayer>>)
    ensures
        match out {
            Some(layers) => descriptors_of(Some(trees(items@))) == Some(
                Seq::new(layers@.len(), |i: int| layers@[i]@),
            ),
            None => descriptors_of(Some(trees(items@))) is None,
        },
{
    let mut layers: Vec<DockerManifestLayer> = Vec::new();
    let mut at: usize = 0;
    while at < items.len()
        invariant
            at <= items.len(),
            layers@.len() == at,
            forall|i: int|
                0 <= i < at ==> descriptor_of(Some((#[trigger] items@[i])@)) == Some(layers@[i]@),
        decreases items.len() - at,
    {
        match DockerManifestLayer::from_json(&items[at]) {
            Some(layer) => {
                layers.push(layer);
            },
            None => {
                assert(descriptor_of(Some(trees(items@)[at as int])) is None);
                return None;
            },
        }
        at = at + 1;
    }
    assert(Seq::new(trees(items@).len(), |i: int| descriptor_of(Some(trees(items@)[i]))->0) =~= Seq::new(
        layers@.len(),
        |i: int| layers@[i]@,
    ));
    Some(layers)
}

impl DockerManifest {
    /// Decodes a manifest from a JSON document.
    pub fn from_json(value: &Json) -> (out: Option<DockerManifest>)
        ensures
            match out {
                Some(manifest) => manifest_of(Some(value@)) == Some(manifest@),
                None => manifest_of(Some(value@)) is None,
            },
    {
        let schema_version = match value.field("schemaVersion", 0, 4) {
            Some(found) => found.as_unsigned(),
            None => None,
        };
        let media_type = match value.field("mediaType", 1, 4) {
            Some(found) => found.as_text(),
            None => None,
        };
        let config = match value.field("config", 2, 4) {
            Some(found) => DockerManifestConfig::from_json(found),
            None => None,
        };
        let layers = match value.field("layers", 3, 4) {
            Some(found) => match found.as_array() {
                Some(items) => read_layers(items),
                None => None,
            },
            None => None,
        };
        match (schema_version, media_type, config, layers) {
            (Some(schema_version), Some(media_type), Some(config), Some(layers)) => {
                if schema_version <= 0xffff_ffff {
                    Some(
                        DockerManifest {
                            schema_version: schema_version as u32,
                            media_type: media_type.clone(),
                            config,
                            layers,
                        },
                    )
                } else {
                    None
                }
            },
            _ => None,
        }
    }

    /// Decodes a manifest from the bytes of a JSON text.
    pub fn parse(bytes: &[u8]) -> (out: Option<DockerManifest>)
        ensures
            match out {
                Some(manifest) => manifest_of(document_of(bytes@)) == Some(manifest@),
                None => manifest_of(document_of(bytes@)) is None,
            },
    {
        match parse(bytes) {
            Some(document) => DockerManifest::from_json(&document),
            None => None,
        }
    }
}

/// An image, named as `name` or as `name:tag`.
#[derive(Debug, PartialEq, Eq)]
pub struct ImageReference {
    pub name: String,
    pub tag: String,
}

/// The name in an image reference: what stands before the first colon.
pub open spec fn reference_name(image: Seq<char>) -> Seq<char> {
    image.subrange(0, segment_end(image, 0, ':'))
}

/// The tag in an image reference: what stands between the first colon and
/// the second one, or the end; `latest` where the reference has no colon.
pub open spec fn reference_tag(image: Seq<char>) -> Seq<char> {
    let colon = segment_end(image, 0, ':');
    if colon >= image.len() {
        "latest"@
    } else {
        image.subrange(colon + 1, segment_end(image, colon + 1, ':'))
    }
}

impl ImageReference {
    /// Reads an image reference.
    pub fn parse(image: &str) -> (out: ImageReference)
        ensures
            out.name@ == reference_name(image@),
            out.tag@ == reference_tag(image@),
    {
        let chars = chars_of(image);
        let colon = find_segment_end(&chars, 0, ':');
        let name = String::from_str(image.substring_char(0, colon));
        if colon >= chars.len() {
            ImageReference { name, tag: String::from_str("latest") }
        } else {
            let end = find_segment_end(&chars, colon + 1, ':');
            ImageReference { name, tag: String::from_str(image.substring_char(colon + 1, end)) }
        }
    }
}

/// The name of the file that holds a downloaded blob: what follows the first
/// colon of its digest. A digest without a colon gives none.
pub open spec fn blob_file_name(digest: Seq<char>) -> Option<Seq<char>> {
    let colon = segment_end(digest, 0, ':');
    if colon >= digest.len() {
        None
    } else {
        Some(digest.subrange(colon + 1, digest.len() as int))
    }
}

/// One layer to download: what to ask the registry for, and the file to
/// store the answer in.
#[derive(Debug, PartialEq, Eq)]
pub struct LayerPull {
    pub digest: String,
    pub media_type: String,
    pub archive: String,
}

/// One layer to download, by the characters of its strings.
pub struct Pull {
    pub digest: Seq<char>,
    pub media_type: Seq<char>,
    pub archive: Seq<char>,
}

impl View for LayerPull {
    type V = Pull;

    open spec fn view(&self) -> Pull {
        Pull { digest: self.digest@, media_type: self.media_type@, archive: self.archive@ }
    }
}

/// The download of one layer into the directory `into`.
pub open spec fn pull_of(layer: BlobDescriptor, into: Seq<char>) -> Option<Pull> {
    match blob_file_name(layer.digest) {
        Some(name) => Some(
            Pull {
                digest: layer.digest,
                media_type: layer.media_type,
                archive: joined(into, name),
            },
        ),
        None => None,
    }
}

/// The downloads of the layers of a manifest, in the manifest's order.
/// There are none if the digest of any layer has no colon.
pub open spec fn pulls_of(layers: Seq<BlobDescriptor>, into: Seq<char>) -> Option<Seq<Pull>> {
    if forall|i: int| 0 <= i < layers.len() ==> blob_file_name((#[trigger] layers[i]).digest) is Some {
        Some(Seq::new(layers.len(), |i: int| pull_of(layers[i], into)->0))
    } else {
        None
    }
}

/// Finds the name of the file for a blob.
pub fn layer_file_name(digest: &str) -> (out: Option<String>)
    ensures
        match out {
            Some(name) => blob_file_name(digest@) == Some(name@),
            None => blob_file_name(digest@) is None,
        },
{
    let chars = chars_of(digest);
    let colon = find_segment_end(&chars, 0, ':');
    if colon >= chars.len() {
        None
    } else {
        Some(String::from_str(digest.substring_char(colon + 1, chars.len())))
    }
}

/// Plans the download of the layers of a manifest into the directory
/// `dest_dir`: one download for each layer, in the manifest's order.
pub fn pull_image_layers(manifest: &DockerManifest, dest_dir: &str) -> (out: Result<
    Vec<LayerPull>,
    RegistryError,
>)
    ensures
        match out {
            Ok(pulls) => pulls_of(manifest@.layers, dest_dir@) == Some(
                Seq::new(pulls@.len(), |i: int| pulls@[i]@),
            ),
            Err(error) => error == RegistryError::MalformedDigest && pulls_of(
                manifest@.layers,
                dest_dir@,
            ) is None,
        },
{
    let mut pulls: Vec<LayerPull> = Vec::new();
    let mut at: usize = 0;
    while at < manifest.layers.len()
        invariant
            at <= manifest.layers.len(),
            pulls@.len() == at,
            forall|i: int|
                0 <= i < at ==> pull_of(#[trigger] manifest@.layers[i], dest_dir@) == Some(
                    pulls@[i]@,
                ),
        decreases manifest.layers.len() - at,
    {
        let layer = &manifest.layers[at];
        match layer_file_name(layer.digest.as_str()) {
            Some(name) => {
                pulls.push(
                    LayerPull {
                        digest: layer.digest.clone(),
                        media_type: layer.media_type.clone(),
                        archive: join_path(dest_dir, name.as_str()),
                    },
                );
            },
            None => {
                assert(blob_file_name(manifest@.layers[at as int].digest) is None);
                return Err(RegistryError::MalformedDigest);
            },
        }
        at = at + 1;
    }
    assert(Seq::new(manifest@.layers.len(), |i: int| pull_of(manifest@.layers[i], dest_dir@)->0)
        =~= Seq::new(pulls@.len(), |i: int| pulls@[i]@));
    Ok(pulls)
}

/// The downloads of a manifest are as many as its layers and follow their
/// order: the download at each position is that of the layer at the same
/// position.
pub proof fn lemma_pulls_keep_order(layers: Seq<BlobDescriptor>, into: Seq<char>)
    requires
        pulls_of(layers, into) is Some,
    ensures
        pulls_of(layers, into)->0.len() == layers.len(),
        forall|i: int|
            0 <= i < layers.len() ==> (#[trigger] pulls_of(layers, into)->0[i]).digest
                == layers[i].digest,
{
}

/// The endpoints of a registry that the client talks to.
#[derive(Debug, Clone, Copy, PartialEq, Eq, Structural)]
pub enum Endpoint {
    /// The token service.
    Auth,
    /// The manifest of an image.
    Manifest,
    /// One blob of an image.
    Blob,
}

/// Why the registry did not give what was asked for.
#[derive(Debug, Clone, Copy, PartialEq, Eq, Structural)]
pub enum RegistryError {
    /// The endpoint answered with a status outside 200 to 299.
    Status { endpoint: Endpoint, status: u16 },
    /// The token service answered with success, but its answer holds no
    /// string under `token`.
    MissingToken,
    /// The registry answered with success, but its answer is not a manifest.
    MalformedManifest,
    /// A layer's digest is not written `algorithm:hex`.
    MalformedDigest,
    /// An answer came in while the client was waiting for none.
    Unsolicited,
}

/// A `GET` request, as plain values.
#[derive(Debug, PartialEq, Eq)]
pub struct HttpRequest {
    pub url: String,
    /// The value of the `Accept` header.
    pub accept: String,
    /// The value of the `Authorization` header, where one is sent.
    pub authorization: Option<String>,
}

/// A request, by the characters of its parts.
pub struct Request {
    pub url: Seq<char>,
    pub accept: Seq<char>,
    pub authorization: Option<Seq<char>>,
}

impl View for HttpRequest {
    type V = Request;

    open spec fn view(&self) -> Request {
        Request {
            url: self.url@,
            accept: self.accept@,
            authorization: match self.authorization {
                Some(value) => Some(value@),
                None => None,
            },
        }
    }
}

/// Whether a status code reports success.
pub open spec fn is_success(status: u16) -> bool {
    200 <= status <= 299
}

/// The request that asks the token service for a token to pull `image`.
pub open spec fn token_request(image: Seq<char>) -> Request {
    Request {
        url: "https://auth.docker.io/token?service=registry.docker.io&scope=repository:library/"@
            + image + ":pull"@,
        accept: "application/json"@,
        authorization: None,
    }
}

/// The request for the manifest of `image` at `tag`.
pub open spec fn manifest_request(image: Seq<char>, tag: Seq<char>, token: Seq<char>) -> Request {
    Request {
        url: "https://registry.hub.docker.com/v2/library/"@ + image + "/manifests/"@ + tag,
        accept: "application/vnd.docker.distribution.manifest.v2+json"@,
        authorization: Some("Bearer "@ + token),
    }
}

/// The request for the blob `digest` of `image`, asked for as `media_type`.
pub open spec fn blob_request(
    image: Seq<char>,
    digest: Seq<char>,
    media_type: Seq<char>,
    token: Seq<char>,
) -> Request {
    Request {
        url: "https://registry.hub.docker.com/v2/library/"@ + image + "/blobs/"@ + digest,
        accept: media_type,
        authorization: Some("Bearer "@ + token),
    }
}

/// The token that the answer of the token service holds: the string under
/// `token` of a JSON object.
pub open spec fn token_of(document: Option<Tree>) -> Option<Seq<char>> {
    match document {
        Some(answer) => text_of(member_of(answer, "token"@)),
        None => None,
    }
}

/// Reads the token from the answer of the token service.
pub fn token_from_json(answer: &Json) -> (out: Option<String>)
    ensures
        match out {
            Some(token) => token_of(Some(answer@)) == Some(token@),
            None => token_of(Some(answer@)) is None,
        },
{
    let token = match answer.member("token") {
        Some(found) => found.as_text(),
        None => None,
    };
    match token {
        Some(token) => Some(token.clone()),
        None => None,
    }
}

/// The answer that a client is waiting for.
#[derive(Debug, Clone, Copy, PartialEq, Eq, Structural)]
pub enum Awaiting {
    Nothing,
    Token,
    Manifest,
    Layer,
}

/// What a client asks a registry for.
pub enum Call {
    Manifest,
    Layer { digest: Seq<char>, media_type: Seq<char> },
}

/// The state of a client.
pub struct Client {
    pub image: Seq<char>,
    pub tag: Seq<char>,
    /// The bearer token, once the token service has given one.
    pub token: Option<Seq<char>>,
    pub awaiting: Awaiting,
}

impl Client {
    /// The request that `call` sends, and the client that waits for its
    /// answer. A client without a token asks for one first, whatever the
    /// call.
    pub open spec fn start(self, call: Call) -> (Client, Request) {
        match self.token {
            None => (Client { awaiting: Awaiting::Token, ..self }, token_request(self.image)),
            Some(token) => match call {
                Call::Manifest => (
                    Client { awaiting: Awaiting::Manifest, ..self },
                    manifest_request(self.image, self.tag, token),
                ),
                Call::Layer { digest, media_type } => (
                    Client { awaiting: Awaiting::Layer, ..self },
                    blob_request(self.image, digest, media_type, token),
                ),
            },
        }
    }

    /// The client after an answer. Only a successful answer of the token
    /// service that holds a token changes more than what the client waits
    /// for, and only for a client that was waiting for a token.
    pub open spec fn receive(self, status: u16, body: Seq<u8>) -> Client {
        if self.awaiting == Awaiting::Token && is_success(status) && token_of(document_of(body))
            is Some {
            Client { awaiting: Awaiting::Nothing, token: token_of(document_of(body)), ..self }
        } else {
            Client { awaiting: Awaiting::Nothing, ..self }
        }
    }

    /// What the client makes of an answer.
    pub open spec fn outcome(self, status: u16, body: Seq<u8>) -> Answer {
        match self.awaiting {
            Awaiting::Nothing => Answer::Failed(RegistryError::Unsolicited),
            Awaiting::Token => if !is_success(status) {
                Answer::Failed(RegistryError::Status { endpoint: Endpoint::Auth, status })
            } else if token_of(document_of(body)) is Some {
                Answer::Authorized
            } else {
                Answer::Failed(RegistryError::MissingToken)
            },
            Awaiting::Manifest => if !is_success(status) {
                Answer::Failed(RegistryError::Status { endpoint: Endpoint::Manifest, status })
            } else {
                match manifest_of(document_of(body)) {
                    Some(manifest) => Answer::Manifest(manifest),
                    None => Answer::Failed(RegistryError::MalformedManifest),
                }
            },
            Awaiting::Layer => if !is_success(status) {
                Answer::Failed(RegistryError::Status { endpoint: Endpoint::Blob, status })
            } else {
                Answer::Layer
            },
        }
    }
}

/// One call together with the answer that came back for it.
pub struct Exchange {
    pub call: Call,
    pub status: u16,
    pub body: Seq<u8>,
}

impl Client {
    /// The client after one exchange.
    pub open spec fn after(self, exchange: Exchange) -> Client {
        self.start(exchange.call).0.receive(exchange.status, exchange.body)
    }

    /// The client after a series of exchanges.
    pub open spec fn after_all(self, exchanges: Seq<Exchange>) -> Client
        decreases exchanges.len(),
    {
        if exchanges.len() == 0 {
            self
        } else {
            self.after(exchanges.first()).after_all(exchanges.drop_first())
        }
    }

    /// How many of a series of exchanges go to the token service.
    pub open spec fn token_requests(self, exchanges: Seq<Exchange>) -> nat
        decreases exchanges.len(),
    {
        if exchanges.len() == 0 {
            0
        } else {
            let asked: nat = if self.start(exchanges.first().call).1 == token_request(self.image) {
                1
            } else {
                0
            };
            asked + self.after(exchanges.first()).token_requests(exchanges.drop_first())
        }
    }

    /// How many of a series of exchanges leave the client with a token that
    /// it did not hold before.
    pub open spec fn tokens_fetched(self, exchanges: Seq<Exchange>) -> nat
        decreases exchanges.len(),
    {
        if exchanges.len() == 0 {
            0
        } else {
            let fetched: nat = if self.after(exchanges.first()).token != self.token {
                1
            } else {
                0
            };
            fetched + self.after(exchanges.first()).tokens_fetched(exchanges.drop_first())
        }
    }
}

impl Client {
    /// What holds of every client that was made for an image and used: it
    /// waits for an answer of the registry itself only while it holds a
    /// token.
    pub open spec fn consistent(self) -> bool {
        (self.awaiting == Awaiting::Manifest || self.awaiting == Awaiting::Layer)
            ==> self.token is Some
    }
}

/// A client is consistent when it is made, and every call and every answer
/// keeps it so.
pub proof fn lemma_client_stays_consistent(
    client: Client,
    call: Call,
    status: u16,
    body: Seq<u8>,
)
    requires
        client.consistent(),
    ensures
        (Client { image: client.image, tag: client.tag, token: None, awaiting: Awaiting::Nothing })
            .consistent(),
        client.start(call).0.consistent(),
        client.receive(status, body).consistent(),
{
}

/// A request to the registry itself is never one to the token service.
proof fn lemma_token_request_is_distinct(request: Request, image: Seq<char>)
    requires
        request.authorization is Some,
    ensures
        request != token_request(image),
{
}

/// A client that holds a token keeps it, whatever it is asked to do and
/// whatever comes back, and sends nothing to the token service.
pub proof fn lemma_token_is_kept(client: Client, exchanges: Seq<Exchange>)
    requires
        client.token is Some,
    ensures
        client.after_all(exchanges).token == client.token,
        client.token_requests(exchanges) == 0,
        client.tokens_fetched(exchanges) == 0,
    decreases exchanges.len(),
{
    if exchanges.len() > 0 {
        let next = client.after(exchanges.first());
        lemma_token_request_is_distinct(
            client.start(exchanges.first().call).1,
            client.image,
        );
        lemma_token_is_kept(next, exchanges.drop_first());
    }
}

/// Over any series of exchanges a client fetches a token at most once.
pub proof fn lemma_token_fetched_once(client: Client, exchanges: Seq<Exchange>)
    ensures
        client.tokens_fetched(exchanges) <= 1,
    decreases exchanges.len(),
{
    if exchanges.len() > 0 {
        let next = client.after(exchanges.first());
        if next.token != client.token {
            lemma_token_is_kept(next, exchanges.drop_first());
        } else {
            lemma_token_fetched_once(next, exchanges.drop_first());
        }
    }
}

/// What an answer means, with a manifest by what it describes.
pub enum Answer {
    Authorized,
    Manifest(Manifest),
    Layer,
    Failed(RegistryError),
}

/// What an answer of the registry means to the caller.
#[derive(Debug, PartialEq, Eq)]
pub enum Reply {
    /// The client now holds a token: the call that was started is to be
    /// started again, and will then go to the registry itself.
    Authorized,
    /// The manifest that was asked for.
    Manifest(DockerManifest),
    /// The registry sends the blob that was asked for: its body is the
    /// caller's to store.
    Layer,
    /// The call has failed.
    Failed(RegistryError),
}

impl View for Reply {
    type V = Answer;

    open spec fn view(&self) -> Answer {
        match self {
            Reply::Authorized => Answer::Authorized,
            Reply::Manifest(manifest) => Answer::Manifest(manifest@),
            Reply::Layer => Answer::Layer,
            Reply::Failed(error) => Answer::Failed(*error),
        }
    }
}

/// A client of the registry for one image at one tag.
///
/// The client sends nothing itself. `get_manifest` and `download_layer` say
/// which request to send, and `receive` takes the answer. The bearer token is
/// asked for when the first call finds none, and kept from then on.
#[derive(Debug)]
pub struct DockerRegistryClient {
    image: String,
    tag: String,
    token: Option<String>,
    awaiting: Awaiting,
}

impl View for DockerRegistryClient {
    type V = Client;

    closed spec fn view(&self) -> Client {
        Client {
            image: self.image@,
            tag: self.tag@,
            token: match self.token {
                Some(token) => Some(token@),
                None => None,
            },
            awaiting: self.awaiting,
        }
    }
}

/// The request that asks for a token.
fn build_token_request(image: &str) -> (out: HttpRequest)
    ensures
        out@ == token_request(image@),
{
    let mut url = join2(
        "https://auth.docker.io/token?service=registry.docker.io&scope=repository:library/",
        image,
    );
    url.append(":pull");
    HttpRequest { url, accept: String::from_str("application/json"), authorization: None }
}

/// The request for a manifest.
fn build_manifest_request(image: &str, tag: &str, token: &str) -> (out: HttpRequest)
    ensures
        out@ == manifest_request(image@, tag@, token@),
{
    let mut url = join2("https://registry.hub.docker.com/v2/library/", image);
    url.append("/manifests/");
    url.append(tag);
    HttpRequest {
        url,
        accept: String::from_str("application/vnd.docker.distribution.manifest.v2+json"),
        authorization: Some(join2("Bearer ", token)),
    }
}

/// The request for a blob.
fn build_blob_request(image: &str, digest: &str, media_type: &str, token: &str) -> (out:
    HttpRequest)
    ensures
        out@ == blob_request(image@, digest@, media_type@, token@),
{
    let mut url = join2("https://registry.hub.docker.com/v2/library/", image);
    url.append("/blobs/");
    url.append(digest);
    HttpRequest {
        url,
        accept: String::from_str(media_type),
        authorization: Some(join2("Bearer ", token)),
    }
}

impl DockerRegistryClient {
    /// A client for `image` at `tag`, without a token.
    pub fn for_image(image: &str, tag: &str) -> (client: DockerRegistryClient)
        ensures
            client@ == (Client {
                image: image@,
                tag: tag@,
                token: None,
                awaiting: Awaiting::Nothing,
            }),
    {
        DockerRegistryClient {
            image: String::from_str(image),
            tag: String::from_str(tag),
            token: None,
            awaiting: Awaiting::Nothing,
        }
    }

    /// The token that the client holds.
    pub fn token(&self) -> (out: Option<&String>)
        ensures
            match out {
                Some(token) => self@.token == Some(token@),
                None => self@.token is None,
            },
    {
        self.token.as_ref()
    }

    /// The answer that the client is waiting for.
    pub fn awaiting(&self) -> (out: Awaiting)
        ensures
            out == self@.awaiting,
    {
        self.awaiting
    }

    /// Starts the retrieval of the manifest: the request to send next.
    pub fn get_manifest(&mut self) -> (request: HttpRequest)
        ensures
            (final(self)@, request@) == old(self)@.start(Call::Manifest),
    {
        match &self.token {
            None => {
                self.awaiting = Awaiting::Token;
                build_token_request(self.image.as_str())
            },
            Some(token) => {
                let request = build_manifest_request(
                    self.image.as_str(),
                    self.tag.as_str(),
                    token.as_str(),
                );
                self.awaiting = Awaiting::Manifest;
                request
            },
        }
    }

    /// Starts the download of one layer: the request to send next.
    pub fn download_layer(&mut self, blob_hash: &str, media_type: &str) -> (request: HttpRequest)
        ensures
            (final(self)@, request@) == old(self)@.start(
                Call::Layer { digest: blob_hash@, media_type: media_type@ },
            ),
    {
        match &self.token {
            None => {
                self.awaiting = Awaiting::Token;
                build_token_request(self.image.as_str())
            },
            Some(token) => {
                let request = build_blob_request(
                    self.image.as_str(),
                    blob_hash,
                    media_type,
                    token.as_str(),
                );
                self.awaiting = Awaiting::Layer;
                request
            },
        }
    }

    /// Takes the answer to the request that was sent last: its status and,
    /// for the token service and for a manifest, its body. Of the answer to
    /// the request for a layer only the status is read.
    pub fn receive(&mut self, status: u16, body: &[u8]) -> (reply: Reply)
        ensures
            final(self)@ == old(self)@.receive(status, body@),
            reply@ == old(self)@.outcome(status, body@),
    {
        let awaiting = self.awaiting;
        self.awaiting = Awaiting::Nothing;
        let success = 200 <= status && status <= 299;
        match awaiting {
            Awaiting::Nothing => Reply::Failed(RegistryError::Unsolicited),
            Awaiting::Token => {
                if !success {
                    return Reply::Failed(
                        RegistryError::Status { endpoint: Endpoint::Auth, status },
                    );
                }
                let token = match parse(body) {
                    Some(answer) => token_from_json(&answer),
                    None => None,
                };
                match token {
                    Some(token) => {
                        self.token = Some(token);
                        Reply::Authorized
                    },
                    None => Reply::Failed(RegistryError::MissingToken),
                }
            },
            Awaiting::Manifest => {
                if !success {
                    return Reply::Failed(
                        RegistryError::Status { endpoint: Endpoint::Manifest, status },
                    );
                }
                match DockerManifest::parse(body) {
                    Some(manifest) => Reply::Manifest(manifest),
                    None => Reply::Failed(RegistryError::MalformedManifest),
                }
            },
            Awaiting::Layer => {
                if !success {
                    return Reply::Failed(
                        RegistryError::Status { endpoint: Endpoint::Blob, status },
                    );
                }
                Reply::Layer
            },
        }
    }
}

} // verus!
