use vstd::prelude::*;

use crate::confidential::{
    decrypt, decryption, derive_shared_secret, envelope_metadata, extract_node_encryption_metadata,
    x25519_shared, CIPHERTEXT, NONCE,
};
use crate::error::{AtomaProxyError, ErrorKind};
use crate::json::{json_parses, json_str_field, parses_as_json};

verus! {

/// What upstream middleware attaches to a request once it has authenticated
/// it and selected a node.
pub struct RequestMetadata {
    /// Network address of the selected node.
    pub node_address: String,
    /// Identifier of the selected node.
    pub node_small_id: i64,
    /// Estimated compute units of the request.
    pub num_compute_units: u64,
    /// Path of the endpoint on the node.
    pub endpoint: String,
    /// Name of the requested model.
    pub model_name: String,
    /// Salt of a confidential request.
    pub salt: Option<Vec<u8>>,
    /// The selected node's X25519 public key, for a confidential request.
    pub node_x25519_public_key: Option<[u8; 32]>,
}

/// A report for the node-performance tracker, sent once the node has answered.
pub struct ThroughputEvent {
    pub model_name: String,
    pub node_small_id: i64,
    pub input_tokens: u64,
    pub output_tokens: u64,
    /// Time from forwarding to the node's answer, in microseconds; at least one.
    pub elapsed_micros: u64,
}

/// Where a request stands in its pipeline.
#[derive(Clone, Copy, Debug, PartialEq, Eq, Structural)]
pub enum Phase {
    /// Validated upstream, not yet sent to the node.
    Validated,
    /// Sent to the node; its answer is awaited.
    Forwarded,
    /// The node answered; the outcome waits to be reported.
    Reporting,
    /// Answered to the client.
    Completed,
}

/// What the surrounding runtime tells the pipeline.
pub enum PipelineEvent {
    /// The pipeline may start.
    Begin,
    /// The request could not be sent, or no answer came back.
    NodeUnreachable { message: String },
    /// The node answered with these bytes, after this many microseconds.
    NodeReplied { body: Vec<u8>, elapsed_micros: u64 },
    /// The throughput event was handed to the performance tracker.
    Reported,
    /// The performance tracker's channel refused the event.
    ReportFailed { message: String },
}

/// The kind of a [`PipelineEvent`], without its data.
#[derive(Clone, Copy, Debug, PartialEq, Eq, Structural)]
pub enum EventKind {
    Begin,
    NodeUnreachable,
    NodeReplied,
    Reported,
    ReportFailed,
}

impl PipelineEvent {
    pub open spec fn kind_view(&self) -> EventKind {
        match self {
            PipelineEvent::Begin => EventKind::Begin,
            PipelineEvent::NodeUnreachable { .. } => EventKind::NodeUnreachable,
            PipelineEvent::NodeReplied { .. } => EventKind::NodeReplied,
            PipelineEvent::Reported => EventKind::Reported,
            PipelineEvent::ReportFailed { .. } => EventKind::ReportFailed,
        }
    }
}

/// What the pipeline asks the surrounding runtime to do next.
pub enum PipelineAction {
    /// Send the request body to this URL.
    Forward { url: String },
    /// Hand this event to the performance tracker.
    Report { event: ThroughputEvent },
    /// Answer the client with this body.
    Respond { body: Vec<u8> },
    /// Answer the client with this error.
    Fail { error: AtomaProxyError },
    /// Nothing: the event does not apply in the current phase.
    Ignore,
}

/// The phase that follows `p` on an event of kind `e`.
pub open spec fn next_phase(p: Phase, e: EventKind) -> Phase {
    match (p, e) {
        (Phase::Validated, EventKind::Begin) => Phase::Forwarded,
        (Phase::Forwarded, EventKind::NodeUnreachable) => Phase::Completed,
        (Phase::Forwarded, EventKind::NodeReplied) => Phase::Reporting,
        (Phase::Reporting, EventKind::Reported) => Phase::Completed,
        (Phase::Reporting, EventKind::ReportFailed) => Phase::Completed,
        _ => p,
    }
}

/// A throughput event is asked for exactly when the node's answer arrives.
pub open spec fn emits_report(p: Phase, e: EventKind) -> bool {
    p == Phase::Forwarded && e == EventKind::NodeReplied
}

/// The number of throughput events that a run of events asks for, from phase `p`.
pub open spec fn reports(p: Phase, events: Seq<EventKind>) -> nat
    decreases events.len(),
{
    if events.len() == 0 {
        0
    } else {
        (if emits_report(p, events[0]) {
            1nat
        } else {
            0nat
        }) + reports(next_phase(p, events[0]), events.drop_first())
    }
}

/// Whether the node's answer arrives during a run of events, from phase `p`.
pub open spec fn reaches_node(p: Phase, events: Seq<EventKind>) -> bool
    decreases events.len(),
{
    if events.len() == 0 {
        false
    } else {
        emits_report(p, events[0]) || reaches_node(next_phase(p, events[0]), events.drop_first())
    }
}

proof fn lemma_reports_from(p: Phase, events: Seq<EventKind>)
    ensures
        (p == Phase::Validated || p == Phase::Forwarded) ==> reports(p, events) == (if reaches_node(
            p,
            events,
        ) {
            1nat
        } else {
            0nat
        }),
        (p == Phase::Reporting || p == Phase::Completed) ==> reports(p, events) == 0 && !reaches_node(
            p,
            events,
        ),
    decreases events.len(),
{
    if events.len() > 0 {
        lemma_reports_from(next_phase(p, events[0]), events.drop_first());
    }
}

/// Whatever events arrive, in whatever order, a request asks for exactly one
/// throughput event if the node answered it, and for none if it did not.
pub proof fn lemma_one_report_per_answered_request(events: Seq<EventKind>)
    ensures
        reports(Phase::Validated, events) == (if reaches_node(Phase::Validated, events) {
            1nat
        } else {
            0nat
        }),
{
    lemma_reports_from(Phase::Validated, events);
}

/// A result reduced to its bytes or its error's kind.
pub open spec fn result_view(r: Result<Vec<u8>, AtomaProxyError>) -> Result<Seq<u8>, ErrorKind> {
    match r {
        Ok(b) => Ok(b@),
        Err(e) => Err(e.kind_view()),
    }
}

/// What the client gets for a node's answer. A plain request passes a JSON
/// answer through unchanged; a confidential one decrypts the answer's
/// envelope, and the plaintext must be JSON in turn.
pub open spec fn reply_result(confidential: Option<(Seq<u8>, Seq<u8>)>, reply: Seq<u8>) -> Result<
    Seq<u8>,
    ErrorKind,
> {
    if !json_parses(reply) {
        Err(ErrorKind::InternalError)
    } else if confidential is None {
        Ok(reply)
    } else {
        let (shared_secret, salt) = confidential->0;
        match envelope_metadata(reply) {
            None => if json_str_field(reply, CIPHERTEXT@) is None || json_str_field(
                reply,
                NONCE@,
            ) is None {
                Err(ErrorKind::InternalError)
            } else {
                Err(ErrorKind::DecryptionError)
            },
            Some(m) => match decryption(shared_secret, m.0, salt, m.1) {
                None => Err(ErrorKind::DecryptionError),
                Some(plaintext) => if json_parses(plaintext) {
                    Ok(plaintext)
                } else {
                    Err(ErrorKind::InternalError)
                },
            },
        }
    }
}

/// Whether a request carries both halves of the confidential parameters or neither.
pub open spec fn confidentiality_consistent(m: RequestMetadata) -> bool {
    m.salt is Some <==> m.node_x25519_public_key is Some
}

/// The forwarding of one embeddings request to its node, as a state machine
/// that the surrounding runtime drives with events.
pub struct EmbeddingsPipeline {
    metadata: RequestMetadata,
    shared_secret: Option<[u8; 32]>,
    phase: Phase,
    outcome: Option<Result<Vec<u8>, AtomaProxyError>>,
}

impl EmbeddingsPipeline {
    pub closed spec fn phase_view(&self) -> Phase {
        self.phase
    }

    pub closed spec fn metadata_view(&self) -> RequestMetadata {
        self.metadata
    }

    /// The shared secret and salt of a confidential request.
    pub closed spec fn confidential_view(&self) -> Option<(Seq<u8>, Seq<u8>)> {
        if self.shared_secret is Some && self.metadata.salt is Some {
            Some((self.shared_secret->0@, self.metadata.salt->0@))
        } else {
            None
        }
    }

    /// The node's answer as the client will get it, once it has arrived.
    pub closed spec fn outcome_view(&self) -> Option<Result<Seq<u8>, ErrorKind>> {
        match self.outcome {
            Some(r) => Some(result_view(r)),
            None => None,
        }
    }

    pub closed spec fn wf(&self) -> bool {
        &&& (self.phase == Phase::Reporting) == (self.outcome is Some)
        &&& self.shared_secret is Some ==> self.metadata.salt is Some
    }

    /// Starts the pipeline of a request. A request that carries a salt without
    /// the node's public key, or the key without a salt, fails here, before
    /// anything is sent. With both, the shared secret is agreed between the
    /// proxy's private key and the node's public key.
    pub fn new(metadata: RequestMetadata, proxy_private_key: &[u8; 32]) -> (r: Result<
        Self,
        AtomaProxyError,
    >)
        ensures
            r is Err <==> !confidentiality_consistent(metadata),
            r is Err ==> r->Err_0 is InternalError && r->Err_0.endpoint_view() == metadata.endpoint@,
            r is Ok ==> r->Ok_0.wf() && r->Ok_0.phase_view() == Phase::Validated
                && r->Ok_0.metadata_view() == metadata,
            r is Ok && metadata.salt is None ==> r->Ok_0.confidential_view() is None,
            r is Ok && metadata.salt is Some ==> r->Ok_0.confidential_view() == Some(
                (
                    x25519_shared(proxy_private_key@, metadata.node_x25519_public_key->0@),
                    metadata.salt->0@,
                ),
            ),
    {
        let shared_secret = match (&metadata.salt, &metadata.node_x25519_public_key) {
            (Some(_), Some(node_key)) => Some(derive_shared_secret(proxy_private_key, node_key)),
            (None, None) => None,
            _ => {
                return Err(
                    AtomaProxyError::InternalError {
                        message: String::from_str(
                            "Salt and node public key must be both present or both absent",
                        ),
                        endpoint: metadata.endpoint.clone(),
                    },
                );
            },
        };
        Ok(EmbeddingsPipeline { metadata, shared_secret, phase: Phase::Validated, outcome: None })
    }

    /// The phase the pipeline is in.
    pub fn phase(&self) -> (r: Phase)
        ensures
            r == self.phase_view(),
    {
        self.phase
    }

    /// The URL that the request goes to: the node's address followed by the endpoint's path.
    pub fn node_url(&self) -> (r: String)
        ensures
            r@ == self.metadata_view().node_address@ + self.metadata_view().endpoint@,
    {
        let mut url = self.metadata.node_address.clone();
        url.append(self.metadata.endpoint.as_str());
        url
    }

    /// Turns a node's answer into what the client gets.
    pub fn handle_node_reply(&self, reply: Vec<u8>) -> (r: Result<Vec<u8>, AtomaProxyError>)
        requires
            self.wf(),
        ensures
            result_view(r) == reply_result(self.confidential_view(), reply@),
            r is Err ==> r->Err_0.endpoint_view() == self.metadata_view().endpoint@,
    {
        let endpoint = self.metadata.endpoint.as_str();
        if !parses_as_json(reply.as_slice()) {
            return Err(
                AtomaProxyError::InternalError {
                    message: String::from_str("Failed to parse embeddings response"),
                    endpoint: String::from_str(endpoint),
                },
            );
        }
        match (&self.shared_secret, &self.metadata.salt) {
            (Some(shared_secret), Some(salt)) => {
                let metadata = extract_node_encryption_metadata(reply.as_slice(), endpoint)?;
                let plaintext = decrypt(
                    shared_secret,
                    metadata.ciphertext.as_slice(),
                    salt.as_slice(),
                    metadata.nonce.as_slice(),
                    endpoint,
                )?;
                if parses_as_json(plaintext.as_slice()) {
                    Ok(plaintext)
                } else {
                    Err(
                        AtomaProxyError::InternalError {
                            message: String::from_str("Decrypted response is not JSON"),
                            endpoint: String::from_str(endpoint),
                        },
                    )
                }
            },
            _ => Ok(reply),
        }
    }
    /// Advances the pipeline on one event and says what to do next. An event
    /// that does not apply in the current phase changes nothing.
    pub fn step(&mut self, event: PipelineEvent) -> (action: PipelineAction)
        requires
            old(self).wf(),
        ensures
            final(self).wf(),
            final(self).phase_view() == next_phase(old(self).phase_view(), event.kind_view()),
            final(self).metadata_view() == old(self).metadata_view(),
            final(self).confidential_view() == old(self).confidential_view(),
            (action is Report) == emits_report(old(self).phase_view(), event.kind_view()),
            next_phase(old(self).phase_view(), event.kind_view()) == old(self).phase_view()
                ==> action is Ignore,
            old(self).phase_view() == Phase::Validated && event is Begin ==> action is Forward
                && action->url@ == old(self).metadata_view().node_address@
                + old(self).metadata_view().endpoint@,
            old(self).phase_view() == Phase::Forwarded && event is NodeUnreachable ==> action is Fail
                && action->error is InternalError && action->error.message_view()
                == "Failed to send embeddings request: "@ + event->NodeUnreachable_message@
                && action->error.endpoint_view() == old(self).metadata_view().endpoint@,
            old(self).phase_view() == Phase::Forwarded && event is NodeReplied ==> {
                let outcome = reply_result(old(self).confidential_view(), event->body@);
                &&& final(self).outcome_view() == Some(outcome)
                &&& action->event.model_name@ == old(self).metadata_view().model_name@
                &&& action->event.node_small_id == old(self).metadata_view().node_small_id
                &&& action->event.input_tokens == (if outcome is Ok {
                    old(self).metadata_view().num_compute_units
                } else {
                    0
                })
                &&& action->event.output_tokens == 0
                &&& action->event.elapsed_micros == (if event->elapsed_micros == 0 {
                    1
                } else {
                    event->elapsed_micros
                })
            },
            old(self).phase_view() == Phase::Reporting && event is Reported ==> {
                let outcome = old(self).outcome_view()->0;
                &&& outcome is Ok ==> action is Respond && action->body@ == outcome->Ok_0
                &&& outcome is Err ==> action is Fail && action->error.kind_view() == outcome->Err_0
            },
            old(self).phase_view() == Phase::Reporting && event is ReportFailed ==> {
                let outcome = old(self).outcome_view()->0;
                &&& action is Fail
                &&& outcome is Ok ==> action->error is InternalError && action->error.message_view()
                    == "Failed to update node throughput performance: "@
                    + event->ReportFailed_message@
                &&& outcome is Err ==> action->error.kind_view() == outcome->Err_0
            },
    {
        match event {
            PipelineEvent::Begin => {
                if self.phase == Phase::Validated {
                    self.phase = Phase::Forwarded;
                    PipelineAction::Forward { url: self.node_url() }
                } else {
                    PipelineAction::Ignore
                }
            },
            PipelineEvent::NodeUnreachable { message } => {
                if self.phase == Phase::Forwarded {
                    self.phase = Phase::Completed;
                    let mut text = String::from_str("Failed to send embeddings request: ");
                    text.append(message.as_str());
                    PipelineAction::Fail {
                        error: AtomaProxyError::InternalError {
                            message: text,
                            endpoint: self.metadata.endpoint.clone(),
                        },
                    }
                } else {
                    PipelineAction::Ignore
                }
            },
            PipelineEvent::NodeReplied { body, elapsed_micros } => {
                if self.phase == Phase::Forwarded {
                    let outcome = self.handle_node_reply(body);
                    let input_tokens: u64 = if outcome.is_ok() {
                        self.metadata.num_compute_units
                    } else {
                        0
                    };
                    let report = ThroughputEvent {
                        model_name: self.metadata.model_name.clone(),
                        node_small_id: self.metadata.node_small_id,
                        input_tokens,
                        output_tokens: 0,
                        elapsed_micros: if elapsed_micros == 0 {
                            1
                        } else {
                            elapsed_micros
                        },
                    };
                    self.outcome = Some(outcome);
                    self.phase = Phase::Reporting;
                    PipelineAction::Report { event: report }
                } else {
                    PipelineAction::Ignore
                }
            },
            PipelineEvent::Reported => {
                if self.phase == Phase::Reporting {
                    let outcome = self.outcome.take();
                    self.phase = Phase::Completed;
                    match outcome {
                        Some(Ok(body)) => PipelineAction::Respond { body },
                        Some(Err(error)) => PipelineAction::Fail { error },
                        None => PipelineAction::Ignore,
                    }
                } else {
                    PipelineAction::Ignore
                }
            },
            PipelineEvent::ReportFailed { message } => {
                if self.phase == Phase::Reporting {
                    let outcome = self.outcome.take();
                    self.phase = Phase::Completed;
                    match outcome {
                        Some(Err(error)) => PipelineAction::Fail { error },
                        _ => {
                            let mut text = String::from_str(
                                "Failed to update node throughput performance: ",
                            );
                            text.append(message.as_str());
                            PipelineAction::Fail {
                                error: AtomaProxyError::InternalError {
                                    message: text,
                                    endpoint: self.metadata.endpoint.clone(),
                                },
                            }
                        },
                    }
                } else {
                    PipelineAction::Ignore
                }
            },
        }
    }
}

} // verus!
