use atoma_proxy::confidential::encrypt;
use atoma_proxy::embeddings::{RequestModelEmbeddings, CONFIDENTIAL_EMBEDDINGS_PATH, EMBEDDINGS_PATH};
use atoma_proxy::pipeline::{
    EmbeddingsPipeline, Phase, PipelineAction, PipelineEvent, RequestMetadata, ThroughputEvent,
};
use atoma_proxy::{AtomaProxyError, ErrorKind};
use base64::Engine;

const PROXY_KEY: [u8; 32] = [11u8; 32];
const NODE_KEY: [u8; 32] = [22u8; 32];
const SALT: [u8; 16] = [33u8; 16];
const NONCE: [u8; 12] = [44u8; 12];

fn public_key(private_key: [u8; 32]) -> [u8; 32] {
    x25519_dalek::PublicKey::from(&x25519_dalek::StaticSecret::from(private_key)).to_bytes()
}

fn metadata(salt: Option<Vec<u8>>, node_key: Option<[u8; 32]>, endpoint: &str) -> RequestMetadata {
    RequestMetadata {
        node_address: "http://node:3000".to_string(),
        node_small_id: 5,
        num_compute_units: 2,
        endpoint: endpoint.to_string(),
        model_name: "text-embedding-ada-002".to_string(),
        salt,
        node_x25519_public_key: node_key,
    }
}

fn plain() -> EmbeddingsPipeline {
    EmbeddingsPipeline::new(metadata(None, None, EMBEDDINGS_PATH), &PROXY_KEY).ok().unwrap()
}

fn confidential() -> EmbeddingsPipeline {
    let m = metadata(Some(SALT.to_vec()), Some(public_key(NODE_KEY)), CONFIDENTIAL_EMBEDDINGS_PATH);
    EmbeddingsPipeline::new(m, &PROXY_KEY).ok().unwrap()
}

/// What the node sends back: `plaintext` sealed under the node's side of the agreement.
fn node_envelope(plaintext: &[u8]) -> Vec<u8> {
    let node_secret =
        x25519_dalek::StaticSecret::from(NODE_KEY).diffie_hellman(&x25519_dalek::PublicKey::from(public_key(PROXY_KEY)));
    let ciphertext = encrypt(node_secret.as_bytes(), plaintext, &SALT, &NONCE, CONFIDENTIAL_EMBEDDINGS_PATH)
        .ok()
        .unwrap();
    let engine = base64::engine::general_purpose::STANDARD;
    format!(
        r#"{{"ciphertext":"{}","nonce":"{}"}}"#,
        engine.encode(&ciphertext),
        engine.encode(NONCE)
    )
    .into_bytes()
}

const ENVELOPE: &str = r#"{"object":"list","model":"text-embedding-ada-002","data":[{"object":"embedding","embedding":[0.5,-1.0],"index":0}],"usage":{"prompt_tokens":2,"total_tokens":2}}"#;

fn forward(p: &mut EmbeddingsPipeline) {
    match p.step(PipelineEvent::Begin) {
        PipelineAction::Forward { url } => assert!(url.starts_with("http://node:3000/v1/")),
        _ => panic!("expected a forward"),
    }
}

fn reply(p: &mut EmbeddingsPipeline, body: Vec<u8>, elapsed_micros: u64) -> ThroughputEvent {
    match p.step(PipelineEvent::NodeReplied { body, elapsed_micros }) {
        PipelineAction::Report { event } => event,
        _ => panic!("expected a report"),
    }
}

fn finish(p: &mut EmbeddingsPipeline) -> Result<Vec<u8>, AtomaProxyError> {
    match p.step(PipelineEvent::Reported) {
        PipelineAction::Respond { body } => Ok(body),
        PipelineAction::Fail { error } => Err(error),
        _ => panic!("expected an answer"),
    }
}

#[test]
fn plain_reply_passes_through_unchanged() {
    let mut p = plain();
    assert_eq!(p.phase(), Phase::Validated);
    assert_eq!(p.node_url(), "http://node:3000/v1/embeddings");
    forward(&mut p);
    assert_eq!(p.phase(), Phase::Forwarded);
    let event = reply(&mut p, ENVELOPE.as_bytes().to_vec(), 1500);
    assert_eq!(p.phase(), Phase::Reporting);
    assert_eq!(event.model_name, "text-embedding-ada-002");
    assert_eq!(event.node_small_id, 5);
    assert_eq!(event.input_tokens, 2);
    assert_eq!(event.output_tokens, 0);
    assert_eq!(event.elapsed_micros, 1500);
    assert_eq!(finish(&mut p).ok().unwrap(), ENVELOPE.as_bytes().to_vec());
    assert_eq!(p.phase(), Phase::Completed);
}

#[test]
fn invalid_request_never_reaches_the_network() {
    let mut forwards = 0;
    let body = br#"{"model":"text-embedding-ada-002"}"#;
    match RequestModelEmbeddings::new(body) {
        Ok(_) => {
            let mut p = plain();
            if let PipelineAction::Forward { .. } = p.step(PipelineEvent::Begin) {
                forwards += 1;
            }
        }
        Err(err) => assert_eq!(err.kind(), ErrorKind::InvalidBody),
    }
    assert_eq!(forwards, 0);
}

#[test]
fn confidential_reply_decrypts_to_the_plaintext() {
    let mut p = confidential();
    assert_eq!(p.node_url(), "http://node:3000/v1/confidential/embeddings");
    forward(&mut p);
    let event = reply(&mut p, node_envelope(ENVELOPE.as_bytes()), 20);
    assert_eq!(event.input_tokens, 2);
    assert_eq!(event.output_tokens, 0);
    assert_eq!(finish(&mut p).ok().unwrap(), ENVELOPE.as_bytes().to_vec());
}

#[test]
fn corrupted_ciphertext_fails_without_a_token_count() {
    let mut p = confidential();
    forward(&mut p);
    let node_secret =
        x25519_dalek::StaticSecret::from(NODE_KEY).diffie_hellman(&x25519_dalek::PublicKey::from(public_key(PROXY_KEY)));
    let mut ciphertext = encrypt(node_secret.as_bytes(), ENVELOPE.as_bytes(), &SALT, &NONCE, "x").ok().unwrap();
    ciphertext[3] ^= 0x01;
    let engine = base64::engine::general_purpose::STANDARD;
    let body = format!(
        r#"{{"ciphertext":"{}","nonce":"{}"}}"#,
        engine.encode(&ciphertext),
        engine.encode(NONCE)
    );
    let event = reply(&mut p, body.into_bytes(), 20);
    assert_eq!(event.input_tokens, 0);
    assert_eq!(event.output_tokens, 0);
    let err = finish(&mut p).err().unwrap();
    assert_eq!(err.kind(), ErrorKind::DecryptionError);
    assert_eq!(err.endpoint(), CONFIDENTIAL_EMBEDDINGS_PATH);
    assert_eq!(err.status_code(), 500);
}

#[test]
fn salt_without_node_key_fails_fast() {
    let m = metadata(Some(SALT.to_vec()), None, CONFIDENTIAL_EMBEDDINGS_PATH);
    let err = EmbeddingsPipeline::new(m, &PROXY_KEY).err().unwrap();
    assert_eq!(err.kind(), ErrorKind::InternalError);
    assert_eq!(err.endpoint(), CONFIDENTIAL_EMBEDDINGS_PATH);
}

#[test]
fn node_key_without_salt_fails_fast() {
    let m = metadata(None, Some(public_key(NODE_KEY)), CONFIDENTIAL_EMBEDDINGS_PATH);
    assert!(EmbeddingsPipeline::new(m, &PROXY_KEY).is_err());
}

#[test]
fn unreachable_node_fails_without_report() {
    let mut p = plain();
    forward(&mut p);
    match p.step(PipelineEvent::NodeUnreachable { message: "refused".to_string() }) {
        PipelineAction::Fail { error } => assert_eq!(
            error,
            AtomaProxyError::InternalError {
                message: "Failed to send embeddings request: refused".to_string(),
                endpoint: EMBEDDINGS_PATH.to_string(),
            }
        ),
        _ => panic!("expected a failure"),
    }
    assert_eq!(p.phase(), Phase::Completed);
    assert!(matches!(p.step(PipelineEvent::Reported), PipelineAction::Ignore));
}

#[test]
fn reply_that_is_not_json_is_internal_error() {
    let mut p = plain();
    forward(&mut p);
    let event = reply(&mut p, b"<html>".to_vec(), 7);
    assert_eq!(event.input_tokens, 0);
    assert_eq!(finish(&mut p).err().unwrap().kind(), ErrorKind::InternalError);
}

#[test]
fn failed_report_fails_the_request() {
    let mut p = plain();
    forward(&mut p);
    reply(&mut p, ENVELOPE.as_bytes().to_vec(), 7);
    match p.step(PipelineEvent::ReportFailed { message: "closed".to_string() }) {
        PipelineAction::Fail { error } => assert_eq!(
            error,
            AtomaProxyError::InternalError {
                message: "Failed to update node throughput performance: closed".to_string(),
                endpoint: EMBEDDINGS_PATH.to_string(),
            }
        ),
        _ => panic!("expected a failure"),
    }
}

#[test]
fn elapsed_time_is_never_zero() {
    let mut p = plain();
    forward(&mut p);
    assert_eq!(reply(&mut p, b"{}".to_vec(), 0).elapsed_micros, 1);
}

#[test]
fn exactly_one_report_whatever_the_events() {
    let mut p = plain();
    let mut reports = 0;
    let events = vec![
        PipelineEvent::Reported,
        PipelineEvent::NodeReplied { body: b"{}".to_vec(), elapsed_micros: 1 },
        PipelineEvent::Begin,
        PipelineEvent::Begin,
        PipelineEvent::NodeReplied { body: b"{}".to_vec(), elapsed_micros: 1 },
        PipelineEvent::NodeReplied { body: b"{}".to_vec(), elapsed_micros: 1 },
        PipelineEvent::Reported,
        PipelineEvent::NodeReplied { body: b"{}".to_vec(), elapsed_micros: 1 },
    ];
    for event in events {
        if let PipelineAction::Report { .. } = p.step(event) {
            reports += 1;
        }
    }
    assert_eq!(reports, 1);
    assert_eq!(p.phase(), Phase::Completed);
}

#[test]
fn decrypted_text_that_is_not_json_is_internal_error() {
    let mut p = confidential();
    forward(&mut p);
    let event = reply(&mut p, node_envelope(b"not json"), 3);
    assert_eq!(event.input_tokens, 0);
    assert_eq!(finish(&mut p).err().unwrap().kind(), ErrorKind::InternalError);
}

#[test]
fn confidential_reply_without_nonce_is_internal_error() {
    let mut p = confidential();
    forward(&mut p);
    let event = reply(&mut p, br#"{"ciphertext":"AAAA"}"#.to_vec(), 3);
    assert_eq!(event.input_tokens, 0);
    let err = finish(&mut p).err().unwrap();
    assert_eq!(err.kind(), ErrorKind::InternalError);
    assert_eq!(err.endpoint(), CONFIDENTIAL_EMBEDDINGS_PATH);
}

#[test]
fn plain_reply_is_not_decrypted() {
    let mut p = plain();
    forward(&mut p);
    let body = node_envelope(ENVELOPE.as_bytes());
    reply(&mut p, body.clone(), 3);
    assert_eq!(finish(&mut p).ok().unwrap(), body);
}
