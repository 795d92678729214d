//! The agent's answers to protocol requests. Every failure becomes the one
//! generic `Failure` answer, so a client learns nothing from why a request
//! failed.

use vstd::prelude::*;
use vstd::utf8::encode_utf8;

use crate::cache::find_key;
use crate::cache::Identity;
use crate::cache::IdentityCache;
use crate::cache::lists_cache;
use crate::codec::decode_private_key;
use crate::codec::decode_public_key_blob;
use crate::codec::parse_blob;
use crate::codec::parts_fit;
use crate::codec::private_key_of;
use crate::codec::KeyError;

verus! {

/// The messages of the agent protocol that this agent reads and writes.
#[derive(Debug)]
pub enum ProtocolMessage {
    /// A client asks which keys the agent holds.
    RequestIdentities,
    /// The keys the agent holds.
    IdentitiesAnswer(Vec<Identity>),
    /// A client asks for `data` to be signed with the key whose wire blob
    /// is given; `flags` may ask for another digest, which is not offered.
    SignRequest { public_key_blob: Vec<u8>, data: Vec<u8>, flags: u32 },
    /// A signature, and the name of its algorithm.
    SignResponse { algorithm: String, signature: Vec<u8> },
    /// The request failed.
    Failure,
    /// Any other message of the protocol.
    Other,
}

/// Why a request could not be served. Only local diagnostics see these; the
/// client is sent `Failure` for each.
#[derive(Debug, Clone, Copy, PartialEq, Eq, Structural)]
pub enum AgentError {
    /// A key could not be decoded.
    Key(KeyError),
    /// No private key is known for the requested public key.
    MissingIdentity,
    /// The secret store did not hand over the private key.
    SecretProvider,
    /// The signing primitive failed.
    Crypto,
    /// The request is of a kind this agent does not serve.
    Unsupported,
}

impl AgentError {
    /// A sentence that says what went wrong.
    pub fn describe(&self) -> (r: String)
        ensures
            r@ == match self {
                AgentError::Key(_) => "Something went wrong parsing or using the keys."@,
                AgentError::MissingIdentity => "Public key is not in cache."@,
                AgentError::SecretProvider => "The pass binary failed."@,
                AgentError::Crypto => "OpenSSL failed to sign the payload."@,
                AgentError::Unsupported => "The SSH-Agent protocol is not fully implemented."@,
            },
    {
        match self {
            AgentError::Key(_) => String::from_str("Something went wrong parsing or using the keys."),
            AgentError::MissingIdentity => String::from_str("Public key is not in cache."),
            AgentError::SecretProvider => String::from_str("The pass binary failed."),
            AgentError::Crypto => String::from_str("OpenSSL failed to sign the payload."),
            AgentError::Unsupported => String::from_str(
                "The SSH-Agent protocol is not fully implemented.",
            ),
        }
    }
}

/// What the agent does next with a request.
#[derive(Debug)]
pub enum Step {
    /// Send this answer.
    Reply(ProtocolMessage),
    /// Fetch the private key at `locator` from the secret store, then sign
    /// `data` with it.
    FetchPrivateKey { locator: String, data: Vec<u8> },
}

/// The name of the signature algorithm: `rsa-sha2-512`.
pub open spec fn sha512_algorithm() -> Seq<char> {
    "rsa-sha2-512"@
}

/// The first step of a request, with the reason where it fails.
pub fn dispatch(cache: &IdentityCache, message: ProtocolMessage) -> (r: Result<Step, AgentError>)
    requires
        cache.wf(),
    ensures
        match message {
            ProtocolMessage::RequestIdentities => r matches Ok(
                Step::Reply(ProtocolMessage::IdentitiesAnswer(ids)),
            ) && lists_cache(ids@, cache),
            ProtocolMessage::SignRequest { public_key_blob, data, flags } => match parse_blob(
                public_key_blob@,
            ) {
                Err(e) => r == Err::<Step, AgentError>(AgentError::Key(e)),
                Ok(k) => if find_key(cache.model(), k) < 0 {
                    r == Err::<Step, AgentError>(AgentError::MissingIdentity)
                } else {
                    r matches Ok(Step::FetchPrivateKey { locator: loc, data: d }) && loc@
                        == cache.model()[find_key(cache.model(), k)].1 && d@ == data@
                },
            },
            _ => r == Err::<Step, AgentError>(AgentError::Unsupported),
        },
{
    match message {
        ProtocolMessage::RequestIdentities => {
            Ok(Step::Reply(ProtocolMessage::IdentitiesAnswer(cache.get_identities())))
        },
        ProtocolMessage::SignRequest { public_key_blob, data, flags } => {
            let key = match decode_public_key_blob(public_key_blob.as_slice()) {
                Ok(k) => k,
                Err(e) => return Err(AgentError::Key(e)),
            };
            match cache.lookup(&key) {
                None => Err(AgentError::MissingIdentity),
                Some(locator) => Ok(Step::FetchPrivateKey { locator, data }),
            }
        },
        _ => Err(AgentError::Unsupported),
    }
}

/// The first step of a request as the client sees it: every failure is the
/// answer `Failure`.
pub fn handle(cache: &IdentityCache, message: ProtocolMessage) -> (r: Step)
    requires
        cache.wf(),
    ensures
        match message {
            ProtocolMessage::RequestIdentities => r matches Step::Reply(
                ProtocolMessage::IdentitiesAnswer(ids),
            ) && lists_cache(ids@, cache),
            ProtocolMessage::SignRequest { public_key_blob, data, flags } => match parse_blob(
                public_key_blob@,
            ) {
                Err(_) => r matches Step::Reply(ProtocolMessage::Failure),
                Ok(k) => if find_key(cache.model(), k) < 0 {
                    r matches Step::Reply(ProtocolMessage::Failure)
                } else {
                    r matches Step::FetchPrivateKey { locator: loc, data: d } && loc@
                        == cache.model()[find_key(cache.model(), k)].1 && d@ == data@
                },
            },
            _ => r matches Step::Reply(ProtocolMessage::Failure),
        },
{
    match dispatch(cache, message) {
        Ok(step) => step,
        Err(_) => Step::Reply(ProtocolMessage::Failure),
    }
}

/// The key that a sign request is signed with once the private key text
/// has been fetched (`None` where the fetch failed), or why there is none.
/// A key with a component too long for OpenSSL is a signing failure.
pub open spec fn signing_key(text: Option<Seq<char>>) -> Result<Seq<Seq<u8>>, AgentError> {
    match text {
        None => Err(AgentError::SecretProvider),
        Some(t) => match private_key_of(encode_utf8(t)) {
            Err(e) => Err(AgentError::Key(e)),
            Ok(k) => if parts_fit(k) {
                Ok(k)
            } else {
                Err(AgentError::Crypto)
            },
        },
    }
}

/// The view of an optional string.
pub open spec fn text_view(t: Option<String>) -> Option<Seq<char>> {
    match t {
        Some(s) => Some(s@),
        None => None,
    }
}

/// The answer that a signature, or the signing primitive's refusal, gives.
pub fn response_of(signature: Option<Vec<u8>>) -> (r: Result<ProtocolMessage, AgentError>)
    ensures
        match signature {
            None => r == Err::<ProtocolMessage, AgentError>(AgentError::Crypto),
            Some(s) => r matches Ok(ProtocolMessage::SignResponse { algorithm, signature: sig })
                && algorithm@ == sha512_algorithm() && sig@ == s@,
        },
{
    match signature {
        None => Err(AgentError::Crypto),
        Some(signature) => {
            let algorithm = String::from_str("rsa-sha2-512");
            Ok(ProtocolMessage::SignResponse { algorithm, signature })
        },
    }
}

/// Signs `data` with the private key text fetched from the secret store
/// (`None` where the fetch failed). The decoded key lives only within this
/// call.
///
/// Where a key is had, OpenSSL signs; whatever it returns, the answer is a
/// `rsa-sha2-512` response or a signing failure.
pub fn sign_fetched(private_text: Option<String>, data: &[u8]) -> (r: Result<ProtocolMessage, AgentError>)
    ensures
        match signing_key(text_view(private_text)) {
            Err(e) => r == Err::<ProtocolMessage, AgentError>(e),
            Ok(_) => (r matches Ok(ProtocolMessage::SignResponse { algorithm, signature })
                && algorithm@ == sha512_algorithm()) || r == Err::<ProtocolMessage, AgentError>(
                AgentError::Crypto,
            ),
        },
{
    let text = match private_text {
        None => return Err(AgentError::SecretProvider),
        Some(t) => t,
    };
    let key = match decode_private_key(text.as_str()) {
        Ok(k) => k,
        Err(e) => return Err(AgentError::Key(e)),
    };
    response_of(key.sign_sha512(data))
}

/// The answer to a sign request once the private key text has been
/// fetched: the signature, or `Failure` whatever went wrong.
pub fn finish_sign(private_text: Option<String>, data: &[u8]) -> (r: ProtocolMessage)
    ensures
        match signing_key(text_view(private_text)) {
            Err(_) => r is Failure,
            Ok(_) => (r matches ProtocolMessage::SignResponse { algorithm, signature }
                && algorithm@ == sha512_algorithm()) || r is Failure,
        },
{
    match sign_fetched(private_text, data) {
        Ok(m) => m,
        Err(_) => ProtocolMessage::Failure,
    }
}

} // verus!
