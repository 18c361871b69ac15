//! The vendor certificate chain, held in its encoded form. The certificates
//! are decoded, put together and encoded by the `sev` crate.

use crate::error::Error;
use codicon::{Decoder, Encoder};
use std::convert::TryFrom;
use vstd::prelude::*;
use vstd::slice::slice_subrange;

verus! {

/// The bytes are an encoded certificate chain: the platform's four
/// certificates, then the vendor's signing and root certificates.
pub uninterp spec fn is_chain(bytes: Seq<u8>) -> bool;

/// The bytes are an encoded platform certificate.
pub uninterp spec fn is_certificate(bytes: Seq<u8>) -> bool;

/// The bytes are the vendor's encoded signing and root certificates.
pub uninterp spec fn is_ca_chain(bytes: Seq<u8>) -> bool;

/// The encoded chain made of the platform's exported certificates, with the
/// chip endorsement certificate `cek` in place of the exported one, and of
/// the vendor's certificates `ca`; none where a part does not decode or the
/// whole does not encode.
pub uninterp spec fn assembled_chain(exported: Seq<u8>, cek: Seq<u8>, ca: Seq<u8>) -> Option<
    Seq<u8>,
>;

/// The length of an encoded vendor certificate of 2048 bits: a version word,
/// sixty bytes of description, then exponent, modulus and signature of 256
/// bytes each.
pub const SMALL_CA_LEN: usize = 832;

/// The length of an encoded vendor certificate of 4096 bits: the same with
/// 512 bytes each.
pub const LARGE_CA_LEN: usize = 1600;

/// The length of the platform's four encoded certificates, which come first
/// in an encoded chain.
pub const PLATFORM_LEN: usize = 8336;

/// The vendor certificate at `at` has its description there and says that it
/// is of version 1 and of `size` times 256 bits, twice over.
pub open spec fn announces(b: Seq<u8>, at: int, size: u8) -> bool {
    &&& 0 <= at
    &&& at + 64 <= b.len()
    &&& b[at] == 1 && b[at + 1] == 0 && b[at + 2] == 0 && b[at + 3] == 0
    &&& b[at + 56] == 0 && b[at + 57] == size && b[at + 58] == 0 && b[at + 59] == 0
    &&& b[at + 60] == 0 && b[at + 61] == size && b[at + 62] == 0 && b[at + 63] == 0
}

/// A vendor certificate at `at` that announces 4096 bits is there in full.
pub open spec fn large_in_full(b: Seq<u8>, at: int) -> bool {
    announces(b, at, 16) ==> at + LARGE_CA_LEN <= b.len()
}

/// Where the second of two vendor certificates begins, if the first is there
/// in full.
pub open spec fn second_at(b: Seq<u8>) -> Option<int> {
    if announces(b, 0, 16) && LARGE_CA_LEN <= b.len() {
        Some(LARGE_CA_LEN as int)
    } else if announces(b, 0, 8) && SMALL_CA_LEN <= b.len() {
        Some(SMALL_CA_LEN as int)
    } else {
        None
    }
}

/// Neither of the vendor's two certificates announces 4096 bits and then
/// breaks off. The decoder of the `sev` crate cannot be given bytes that do.
pub open spec fn ca_in_full(b: Seq<u8>) -> bool {
    &&& large_in_full(b, 0)
    &&& second_at(b) matches Some(at) ==> large_in_full(b, at)
}

/// The vendor's certificates of an encoded chain, which follow the
/// platform's four, are in full.
pub open spec fn chain_in_full(b: Seq<u8>) -> bool {
    PLATFORM_LEN <= b.len() ==> ca_in_full(b.subrange(PLATFORM_LEN as int, b.len() as int))
}

fn announces_at(b: &[u8], at: usize, size: u8) -> (r: bool)
    requires
        at <= LARGE_CA_LEN,
    ensures
        r == announces(b@, at as int, size),
{
    if b.len() < 64 || at > b.len() - 64 {
        return false;
    }
    b[at] == 1 && b[at + 1] == 0 && b[at + 2] == 0 && b[at + 3] == 0 && b[at + 56] == 0 && b[at
        + 57] == size && b[at + 58] == 0 && b[at + 59] == 0 && b[at + 60] == 0 && b[at + 61]
        == size && b[at + 62] == 0 && b[at + 63] == 0
}

fn large_is_in_full(b: &[u8], at: usize) -> (r: bool)
    requires
        at <= LARGE_CA_LEN,
    ensures
        r == large_in_full(b@, at as int),
{
    !announces_at(b, at, 16) || (b.len() >= LARGE_CA_LEN && at <= b.len() - LARGE_CA_LEN)
}

/// Tests that the vendor's certificates are in full.
pub fn is_ca_in_full(b: &[u8]) -> (r: bool)
    ensures
        r == ca_in_full(b@),
{
    if !large_is_in_full(b, 0) {
        return false;
    }
    if announces_at(b, 0, 16) && b.len() >= LARGE_CA_LEN {
        large_is_in_full(b, LARGE_CA_LEN)
    } else if announces_at(b, 0, 8) && b.len() >= SMALL_CA_LEN {
        large_is_in_full(b, SMALL_CA_LEN)
    } else {
        true
    }
}

/// Tests that the vendor's certificates of a chain are in full.
pub fn is_chain_in_full(b: &[u8]) -> (r: bool)
    ensures
        r == chain_in_full(b@),
{
    if b.len() < PLATFORM_LEN {
        return true;
    }
    is_ca_in_full(slice_subrange(b, PLATFORM_LEN, b.len()))
}

/// Tests whether `sev::certs::Chain::decode` accepts the bytes. The decoder
/// fails on what it does not accept, but for vendor certificates that are
/// not in full, on which it may not return.
#[verifier::external_body]
pub(crate) fn chain_decodes(bytes: &[u8]) -> (r: bool)
    requires
        chain_in_full(bytes@),
    ensures
        r == is_chain(bytes@),
{
    sev::certs::Chain::decode(bytes, ()).is_ok()
}

/// Tests whether `sev::certs::sev::Certificate::decode` accepts the bytes.
#[verifier::external_body]
pub(crate) fn certificate_decodes(bytes: &[u8]) -> (r: bool)
    ensures
        r == is_certificate(bytes@),
{
    sev::certs::sev::Certificate::decode(bytes, ()).is_ok()
}

/// Tests whether `sev::certs::ca::Chain::decode` accepts the bytes, which it
/// can be given when both certificates are in full.
#[verifier::external_body]
pub(crate) fn ca_chain_decodes(bytes: &[u8]) -> (r: bool)
    requires
        ca_in_full(bytes@),
    ensures
        r == is_ca_chain(bytes@),
{
    sev::certs::ca::Chain::decode(bytes, ()).is_ok()
}

/// Puts the full chain together: decodes the three parts with the `decode` of
/// `sev::certs::sev::Chain`, `sev::certs::sev::Certificate` and
/// `sev::certs::ca::Chain`, and encodes the whole as a `sev::certs::Chain`.
/// The vendor's certificates are such as decode.
#[verifier::external_body]
pub(crate) fn assemble_chain(exported: &[u8], cek: &[u8], ca: &[u8]) -> (r: Option<Vec<u8>>)
    requires
        is_ca_chain(ca@),
    ensures
        r is Some <==> assembled_chain(exported@, cek@, ca@) is Some,
        r matches Some(c) ==> assembled_chain(exported@, cek@, ca@) == Some(c@),
{
    let mut sev = sev::certs::sev::Chain::decode(exported, ()).ok()?;
    sev.cek = sev::certs::sev::Certificate::decode(cek, ()).ok()?;
    let ca = sev::certs::ca::Chain::decode(ca, ()).ok()?;
    let mut out = Vec::new();
    sev::certs::Chain { ca, sev }.encode(&mut out, ()).ok()?;
    Some(out)
}

/// Derives a launch session on this machine, from fresh random keys: makes a
/// `sev::session::Session` for the default policy of the `sev` crate, which
/// sets no option and asks for no firmware version, and lets its `start`
/// verify the chain, which is one that decodes, and produce the tenant's
/// certificate and the session blob. The certificate comes encoded, so that
/// it decodes again; the blob is the session's five fields, 128 bytes. On
/// failure the error names the step.
#[verifier::external_body]
pub(crate) fn derive_session(chain: &[u8]) -> (r: Result<(Vec<u8>, Vec<u8>), Error>)
    requires
        is_chain(chain@),
    ensures
        r matches Ok(s) ==> is_certificate(s.0@) && s.1@.len() == 128,
        r matches Err(e) ==> e is SessionFromPolicy || e is StartFromSession,
{
    let policy = sev::launch::sev::Policy::default();
    let session = sev::session::Session::try_from(policy).map_err(Error::SessionFromPolicy)?;
    let chain = sev::certs::Chain::decode(chain, ()).map_err(Error::StartFromSession)?;
    let start = session.start(chain).map_err(Error::StartFromSession)?;
    let mut cert = Vec::new();
    start.cert.encode(&mut cert, ()).map_err(Error::StartFromSession)?;
    let s = start.session;
    Ok((cert, [&s.nonce[..], &s.wrap_tk, &s.wrap_iv, &s.wrap_mac, &s.policy_mac].concat()))
}

} // verus!
