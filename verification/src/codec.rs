//! The documents of the key-broker protocol, encoded and decoded by
//! `serde_json`. The library decides what goes into a document and what is
//! made of one; what the text of a document is, the codec decides.

use crate::chain::is_chain;
use crate::types::{Build, Measurement, Policy, Secret, Start};
use codicon::{Decoder, Encoder};
use serde::Deserialize;
use vstd::prelude::*;

verus! {

/// The JSON text of an object whose members are texts, given as pairs of
/// name and value.
pub uninterp spec fn object_text(members: Seq<(Seq<char>, Seq<char>)>) -> Seq<char>;

/// The JSON text of an object whose members are the texts `members` and, under
/// the name `key`, an object of the texts `inner`.
pub uninterp spec fn nested_object_text(
    members: Seq<(Seq<char>, Seq<char>)>,
    key: Seq<char>,
    inner: Seq<(Seq<char>, Seq<char>)>,
) -> Seq<char>;

/// The text member `key` of the JSON document `doc`, or the codec's message
/// where `doc` is no JSON document or holds no such text.
pub uninterp spec fn text_member_of(doc: Seq<u8>, key: Seq<char>) -> Result<Seq<char>, Seq<char>>;

/// The JSON text of a launch measurement.
pub uninterp spec fn measurement_text(measure: Seq<u8>, mnonce: Seq<u8>) -> Seq<char>;

/// The session identifier, the policy and the two blobs of the vendor's
/// challenge `text`, or the codec's message where `text` is no challenge.
pub uninterp spec fn challenge_of(text: Seq<char>) -> Result<
    (Seq<char>, Policy, Seq<u8>, Seq<u8>),
    Seq<char>,
>;

/// The option bits, initialization vector, integrity code and ciphertext of
/// the secret `doc`, or the codec's message where `doc` is no secret.
pub uninterp spec fn secret_of(doc: Seq<u8>) -> Result<
    (u32, Seq<u8>, Seq<u8>, Seq<u8>),
    Seq<char>,
>;

/// Encodes an object of text members. Builds a `serde_json::Map` of string
/// values and writes it with `Value`'s `to_string`.
#[verifier::external_body]
pub(crate) fn encode_object(members: &Vec<(String, String)>) -> (r: String)
    ensures
        r@ == object_text(members@.map_values(|m: (String, String)| (m.0@, m.1@))),
{
    let map: serde_json::Map<String, serde_json::Value> = members.iter().map(
        |m| (m.0.clone(), serde_json::Value::String(m.1.clone())),
    ).collect();
    serde_json::Value::Object(map).to_string()
}

/// Encodes an object of text members with one member that is itself an object
/// of text members, as `encode_object` does.
#[verifier::external_body]
pub(crate) fn encode_nested_object(
    members: &Vec<(String, String)>,
    key: &str,
    inner: &Vec<(String, String)>,
) -> (r: String)
    ensures
        r@ == nested_object_text(
            members@.map_values(|m: (String, String)| (m.0@, m.1@)),
            key@,
            inner@.map_values(|m: (String, String)| (m.0@, m.1@)),
        ),
{
    let mut map: serde_json::Map<String, serde_json::Value> = members.iter().map(
        |m| (m.0.clone(), serde_json::Value::String(m.1.clone())),
    ).collect();
    let inner: serde_json::Map<String, serde_json::Value> = inner.iter().map(
        |m| (m.0.clone(), serde_json::Value::String(m.1.clone())),
    ).collect();
    map.insert(key.to_string(), serde_json::Value::Object(inner));
    serde_json::Value::Object(map).to_string()
}

/// Reads one text member of a document. Parses with `serde_json::from_slice`
/// and reads the member with `String::deserialize`.
#[verifier::external_body]
pub(crate) fn text_member(doc: &[u8], key: &str) -> (r: Result<String, String>)
    ensures
        r is Ok <==> text_member_of(doc@, key@) is Ok,
        r matches Ok(t) ==> (text_member_of(doc@, key@) matches Ok(v) && v == t@),
        r matches Err(e) ==> (text_member_of(doc@, key@) matches Err(v) && v == e@),
{
    let value: serde_json::Value = serde_json::from_slice(doc).map_err(|e| e.to_string())?;
    String::deserialize(&value[key]).map_err(|e| e.to_string())
}

/// Encodes a launch measurement with `serde_json::to_string`, which does not
/// fail on one.
#[verifier::external_body]
pub(crate) fn encode_measurement(m: &Measurement) -> (r: String)
    ensures
        r@ == measurement_text(m.measure@, m.mnonce@),
{
    let m = sev::launch::sev::Measurement { measure: m.measure, mnonce: m.mnonce };
    serde_json::to_string(&m).unwrap_or_default()
}

/// Encodes the vendor's launch request: decodes the chain, which is one
/// that decodes, with `sev::certs::Chain::decode` and writes a
/// `kbs_types::SevRequest` with `serde_json::to_string`, which does not fail
/// on one. The text holds the certificates as the decoder laid them out in
/// memory, and is not the same on every call.
#[verifier::external_body]
pub(crate) fn encode_launch_request(build: Build, chain: &[u8], workload_id: &str) -> (r: Option<
    String,
>)
    requires
        is_chain(chain@),
    ensures
        r is Some,
{
    let chain = sev::certs::Chain::decode(chain, ()).ok()?;
    let version = sev::Version { major: build.major, minor: build.minor };
    let build = sev::Build { version, build: build.build };
    let workload_id = workload_id.to_string();
    serde_json::to_string(&kbs_types::SevRequest { build, chain, workload_id }).ok()
}

/// Decodes the vendor's challenge with `serde_json::from_str` into a
/// `kbs_types::SevChallenge`, and writes its certificate out with the
/// certificate's own `encode`.
#[verifier::external_body]
pub(crate) fn decode_challenge(text: &str) -> (r: Result<(String, Start), String>)
    ensures
        r is Ok <==> challenge_of(text@) is Ok,
        r matches Ok(c) ==> (challenge_of(text@) matches Ok(v) && v == (
            c.0@,
            c.1.policy,
            c.1.cert@,
            c.1.session@,
        )),
        r matches Err(e) ==> (challenge_of(text@) matches Err(v) && v == e@),
{
    let c: kbs_types::SevChallenge = serde_json::from_str(text).map_err(|e| e.to_string())?;
    let mut cert = Vec::new();
    c.start.cert.encode(&mut cert, ()).map_err(|e| e.to_string())?;
    let (p, s) = (c.start.policy, c.start.session);
    let session = [&s.nonce[..], &s.wrap_tk, &s.wrap_iv, &s.wrap_mac, &s.policy_mac].concat();
    let policy = Policy {
        flags: p.flags.bits(),
        minfw_major: p.minfw.major,
        minfw_minor: p.minfw.minor,
    };
    Ok((c.id, Start { policy, cert, session }))
}

/// Decodes a secret with `serde_json::from_slice` into a
/// `sev::launch::sev::Secret`.
#[verifier::external_body]
pub(crate) fn decode_secret(doc: &[u8]) -> (r: Result<Secret, String>)
    ensures
        r is Ok <==> secret_of(doc@) is Ok,
        r matches Ok(s) ==> (secret_of(doc@) matches Ok(v) && v == (
            s.flags,
            s.iv@,
            s.mac@,
            s.ciphertext@,
        )),
        r matches Err(e) ==> (secret_of(doc@) matches Err(v) && v == e@),
{
    let s: sev::launch::sev::Secret = serde_json::from_slice(doc).map_err(|e| e.to_string())?;
    let (flags, iv, mac) = (s.header.flags.bits(), s.header.iv, s.header.mac);
    Ok(Secret { flags, iv, mac, ciphertext: s.ciphertext })
}

} // verus!
