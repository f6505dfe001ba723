//! The outbound publish capability: a handler module, during its
//! invocation, may hand the host a (topic, payload) pair to publish on the
//! broker. The host forwards exactly that pair, at the configured default
//! quality-of-service level, and reports success to the module only when
//! the broker accepted the publish, keeping broker-level rejection apart
//! from transport failure.

use vstd::prelude::*;
use crate::config::TriggerMetadata;

verus! {

/// An outbound publish, ready for the broker client: the pair the module
/// asked for, at the quality-of-service level the host chose.
#[derive(Debug, Clone, PartialEq, Eq)]
pub struct PublishRequest {
    pub topic: String,
    pub payload: Vec<u8>,
    pub qos: u8,
}

/// The broker client's answer to one publish request.
#[derive(Debug, Clone, PartialEq, Eq)]
pub enum BrokerResponse {
    /// The broker accepted the publish.
    Accepted,
    /// The broker was reached but refused the publish.
    Rejected(String),
    /// The broker could not be reached: a transport failure, not a
    /// broker-level rejection.
    Unreachable(String),
}

/// Why a publish failed, as the invoking module sees it; rejection by the
/// broker stays distinguishable from a connection failure.
#[derive(Debug, Clone, PartialEq, Eq)]
pub enum PublishError {
    Rejected(String),
    Connection(String),
}

/// The request the host forwards for a module's publish: the module's pair
/// unchanged, at the metadata's default quality-of-service level.
pub open spec fn publish_request_spec(
    topic: String,
    payload: Vec<u8>,
    metadata: TriggerMetadata,
) -> PublishRequest {
    PublishRequest { topic, payload, qos: metadata.default_qos }
}

/// How a broker answer settles for the invoking module: success exactly on
/// acceptance, and otherwise the failure of the matching kind.
pub open spec fn settle_publish_spec(response: BrokerResponse) -> Result<(), PublishError> {
    match response {
        BrokerResponse::Accepted => Ok(()),
        BrokerResponse::Rejected(reason) => Err(PublishError::Rejected(reason)),
        BrokerResponse::Unreachable(reason) => Err(PublishError::Connection(reason)),
    }
}

/// Builds the outbound request for a module's publish: the (topic, payload)
/// pair is forwarded byte for byte, and the quality-of-service level is the
/// configured default from the resolved metadata.
pub fn make_publish_request(topic: String, payload: Vec<u8>, metadata: &TriggerMetadata) -> (r:
    PublishRequest)
    ensures
        r == publish_request_spec(topic, payload, *metadata),
        r.topic@ == topic@,
        r.payload@ == payload@,
        r.qos == metadata.default_qos,
{
    PublishRequest { topic, payload, qos: metadata.default_qos }
}

/// Settles the broker's answer into the result the module observes:
/// success if and only if the broker accepted, a rejection kept apart from
/// a transport failure otherwise.
pub fn settle_publish(response: BrokerResponse) -> (r: Result<(), PublishError>)
    ensures
        r == settle_publish_spec(response),
        r matches Ok(_) <==> response matches BrokerResponse::Accepted,
{
    match response {
        BrokerResponse::Accepted => Ok(()),
        BrokerResponse::Rejected(reason) => Err(PublishError::Rejected(reason)),
        BrokerResponse::Unreachable(reason) => Err(PublishError::Connection(reason)),
    }
}

/// The publish capability forwards exactly the pair the module asked for,
/// and the module observes success only if the broker accepts it: for
/// every topic, payload, metadata and broker answer, the forwarded request
/// carries the pair unchanged at the configured default level, and the
/// settled result is success exactly on acceptance.
pub proof fn lemma_publish_exact(
    topic: String,
    payload: Vec<u8>,
    metadata: TriggerMetadata,
    response: BrokerResponse,
)
    ensures
        publish_request_spec(topic, payload, metadata).topic@ == topic@,
        publish_request_spec(topic, payload, metadata).payload@ == payload@,
        publish_request_spec(topic, payload, metadata).qos == metadata.default_qos,
        settle_publish_spec(response) matches Ok(_) <==> response matches BrokerResponse::Accepted,
{
}

} // verus!
