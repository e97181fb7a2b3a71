use container_launch::images::{
    token_from_json, DockerManifestLayer, DockerRegistryClient, Endpoint, HttpRequest,
    RegistryError, Reply,
};
use container_launch::json::Json;

const MANIFEST: &str = "{\"schemaVersion\":2,\"mediaType\":\"m\",\"config\":{\"mediaType\":\"c\",\"size\":1,\"digest\":\"sha256:00\"},\"layers\":[{\"mediaType\":\"t\",\"size\":5,\"digest\":\"sha256:aa\"}]}";

const TOKEN_URL: &str =
    "https://auth.docker.io/token?service=registry.docker.io&scope=repository:library/alpine:pull";

fn token_request() -> HttpRequest {
    HttpRequest {
        url: TOKEN_URL.to_string(),
        accept: "application/json".to_string(),
        authorization: None,
    }
}

fn authorized_client() -> DockerRegistryClient {
    let mut client = DockerRegistryClient::for_image("alpine", "latest");
    client.get_manifest();
    assert_eq!(client.receive(200, b"{\"token\":\"abc\"}"), Reply::Authorized);
    client
}

#[test]
fn a_new_client_holds_no_token() {
    let client = DockerRegistryClient::for_image("alpine", "latest");
    assert_eq!(client.token(), None);
}

#[test]
fn the_first_call_asks_for_a_token() {
    let mut client = DockerRegistryClient::for_image("alpine", "latest");
    assert_eq!(client.get_manifest(), token_request());
    let mut other = DockerRegistryClient::for_image("alpine", "latest");
    assert_eq!(other.download_layer("sha256:aa", "t"), token_request());
}

#[test]
fn a_token_is_stored_and_sent_as_bearer() {
    let mut client = authorized_client();
    assert_eq!(client.token(), Some(&"abc".to_string()));
    assert_eq!(
        client.get_manifest(),
        HttpRequest {
            url: "https://registry.hub.docker.com/v2/library/alpine/manifests/latest".to_string(),
            accept: "application/vnd.docker.distribution.manifest.v2+json".to_string(),
            authorization: Some("Bearer abc".to_string()),
        }
    );
}

#[test]
fn a_layer_is_asked_for_by_digest_and_media_type() {
    let mut client = authorized_client();
    assert_eq!(
        client.download_layer("sha256:aa", "application/vnd.docker.image.rootfs.diff.tar.gzip"),
        HttpRequest {
            url: "https://registry.hub.docker.com/v2/library/alpine/blobs/sha256:aa".to_string(),
            accept: "application/vnd.docker.image.rootfs.diff.tar.gzip".to_string(),
            authorization: Some("Bearer abc".to_string()),
        }
    );
    assert_eq!(client.receive(200, b""), Reply::Layer);
}

#[test]
fn the_token_is_fetched_once_over_two_calls() {
    let mut client = DockerRegistryClient::for_image("alpine", "latest");
    let mut token_requests = 0;
    let mut manifest = None;
    while manifest.is_none() {
        let request = client.get_manifest();
        let body: &[u8] = if request.url == TOKEN_URL {
            token_requests += 1;
            b"{\"token\":\"abc\",\"expires_in\":300}"
        } else {
            MANIFEST.as_bytes()
        };
        match client.receive(200, body) {
            Reply::Authorized => {}
            Reply::Manifest(found) => manifest = Some(found),
            other => panic!("unexpected reply: {:?}", other),
        }
    }
    let manifest = manifest.unwrap();
    assert_eq!(
        manifest.layers,
        vec![DockerManifestLayer {
            media_type: "t".to_string(),
            size: 5,
            digest: "sha256:aa".to_string()
        }]
    );
    let mut stored = false;
    while !stored {
        let request = client.download_layer(&manifest.layers[0].digest, &manifest.layers[0].media_type);
        if request.url == TOKEN_URL {
            token_requests += 1;
        }
        match client.receive(200, b"") {
            Reply::Authorized => {}
            Reply::Layer => stored = true,
            other => panic!("unexpected reply: {:?}", other),
        }
    }
    assert_eq!(token_requests, 1);
}

#[test]
fn a_refused_token_request_fails_with_its_status() {
    let mut client = DockerRegistryClient::for_image("alpine", "latest");
    client.get_manifest();
    assert_eq!(
        client.receive(401, b"{\"token\":\"abc\"}"),
        Reply::Failed(RegistryError::Status { endpoint: Endpoint::Auth, status: 401 })
    );
    assert_eq!(client.token(), None);
    assert_eq!(client.get_manifest(), token_request());
}

#[test]
fn a_token_answer_without_a_token_fails() {
    let bodies: [&[u8]; 6] = [
        b"{}",
        b"{\"access_token\":\"abc\"}",
        b"{\"token\":7}",
        b"{\"token\":null}",
        b"[\"abc\"]",
        b"not json",
    ];
    for body in bodies {
        let mut client = DockerRegistryClient::for_image("alpine", "latest");
        client.get_manifest();
        assert_eq!(client.receive(200, body), Reply::Failed(RegistryError::MissingToken));
        assert_eq!(client.token(), None);
    }
}

#[test]
fn statuses_from_200_to_299_are_success() {
    for status in [200u16, 204, 299] {
        let mut client = DockerRegistryClient::for_image("alpine", "latest");
        client.get_manifest();
        assert_eq!(client.receive(status, b"{\"token\":\"abc\"}"), Reply::Authorized);
    }
    for status in [0u16, 199, 300, 404, 500, 65535] {
        let mut client = DockerRegistryClient::for_image("alpine", "latest");
        client.get_manifest();
        assert_eq!(
            client.receive(status, b"{\"token\":\"abc\"}"),
            Reply::Failed(RegistryError::Status { endpoint: Endpoint::Auth, status })
        );
    }
}

#[test]
fn a_refused_manifest_request_fails_and_keeps_the_token() {
    let mut client = authorized_client();
    client.get_manifest();
    assert_eq!(
        client.receive(404, MANIFEST.as_bytes()),
        Reply::Failed(RegistryError::Status { endpoint: Endpoint::Manifest, status: 404 })
    );
    assert_eq!(client.token(), Some(&"abc".to_string()));
    let again = client.get_manifest();
    assert_eq!(again.authorization, Some("Bearer abc".to_string()));
}

#[test]
fn an_answer_that_is_no_manifest_fails() {
    let mut client = authorized_client();
    client.get_manifest();
    assert_eq!(
        client.receive(200, b"{\"schemaVersion\":2}"),
        Reply::Failed(RegistryError::MalformedManifest)
    );
}

#[test]
fn a_refused_layer_request_fails_with_its_status() {
    let mut client = authorized_client();
    client.download_layer("sha256:aa", "t");
    assert_eq!(
        client.receive(500, b""),
        Reply::Failed(RegistryError::Status { endpoint: Endpoint::Blob, status: 500 })
    );
}

#[test]
fn an_answer_to_no_request_fails() {
    let mut client = DockerRegistryClient::for_image("alpine", "latest");
    assert_eq!(
        client.receive(200, b"{\"token\":\"abc\"}"),
        Reply::Failed(RegistryError::Unsolicited)
    );
    assert_eq!(client.token(), None);
    let mut authorized = authorized_client();
    assert_eq!(
        authorized.receive(200, MANIFEST.as_bytes()),
        Reply::Failed(RegistryError::Unsolicited)
    );
}

#[test]
fn an_answer_is_taken_once() {
    let mut client = authorized_client();
    client.get_manifest();
    assert!(matches!(client.receive(200, MANIFEST.as_bytes()), Reply::Manifest(_)));
    assert_eq!(
        client.receive(200, MANIFEST.as_bytes()),
        Reply::Failed(RegistryError::Unsolicited)
    );
}

#[test]
fn a_token_is_read_from_a_document() {
    let answer = Json::Object(vec![
        ("expires_in".to_string(), Json::Null),
        ("token".to_string(), Json::Text("abc".to_string())),
    ]);
    assert_eq!(token_from_json(&answer), Some("abc".to_string()));
    assert_eq!(token_from_json(&Json::Object(vec![])), None);
    assert_eq!(token_from_json(&Json::Text("abc".to_string())), None);
    assert_eq!(
        token_from_json(&Json::Object(vec![("token".to_string(), Json::Bool(true))])),
        None
    );
}
