//! The plain values that the launch works on.

use vstd::prelude::*;

verus! {

/// The kind of trusted execution environment that a workload asks for.
#[derive(Clone, Copy, Debug, PartialEq, Eq, Structural)]
pub enum Tee {
    Sev,
    Sgx,
    Snp,
    Tdx,
}

impl Tee {
    /// The name that the key broker knows the kind by.
    pub open spec fn spec_name(self) -> Seq<char> {
        match self {
            Tee::Sev => "sev"@,
            Tee::Sgx => "sgx"@,
            Tee::Snp => "snp"@,
            Tee::Tdx => "tdx"@,
        }
    }

    /// The name that the key broker knows the kind by.
    pub fn name(&self) -> (r: &'static str)
        ensures
            r@ == self.spec_name(),
    {
        match self {
            Tee::Sev => "sev",
            Tee::Sgx => "sgx",
            Tee::Snp => "snp",
            Tee::Tdx => "tdx",
        }
    }
}

/// The launch configuration, supplied once and never changed.
#[derive(Clone, Debug)]
pub struct TeeConfig {
    /// Identifies the workload to the key broker.
    pub workload_id: String,
    /// The kind of environment to launch.
    pub tee: Tee,
    /// The vendor's part of the configuration, as the JSON text it came in.
    pub tee_data: String,
    /// The key broker's base URL; empty when the launch is not attested.
    pub attestation_url: String,
}

/// The vendor's part of the configuration.
#[derive(Clone, Debug)]
pub struct SevCertConfig {
    /// Path of a file that holds the certificate chain; empty to download it.
    pub vendor_chain: String,
    pub attestation_server_pubkey: String,
}

/// A range of guest memory, by the host address it is mapped at.
#[derive(Clone, Copy, Debug, PartialEq, Eq, Structural)]
pub struct GuestRegion {
    pub host_addr: u64,
    pub size: u64,
}

/// A range of guest memory that the launch measurement covers.
#[derive(Clone, Copy, Debug, PartialEq, Eq, Structural)]
pub struct MeasuredRegion {
    pub host_addr: u64,
    pub size: usize,
}

/// The firmware's build: version and build number.
#[derive(Clone, Copy, Debug, PartialEq, Eq, Structural)]
pub struct Build {
    pub major: u8,
    pub minor: u8,
    pub build: u8,
}

/// The launch policy: option bits and the least firmware version it accepts.
#[derive(Clone, Copy, Debug, PartialEq, Eq, Structural)]
pub struct Policy {
    pub flags: u16,
    pub minfw_major: u8,
    pub minfw_minor: u8,
}

/// The policy bit that asks for encrypted register state.
pub const ENCRYPTED_STATE: u16 = 4;

impl Policy {
    /// The policy of a launch that no key broker has a say in: no option set,
    /// any firmware accepted.
    pub open spec fn spec_local() -> Policy {
        Policy { flags: 0, minfw_major: 0, minfw_minor: 0 }
    }

    /// The policy of a launch that no key broker has a say in.
    pub fn local() -> (r: Policy)
        ensures
            r == Self::spec_local(),
    {
        Policy { flags: 0, minfw_major: 0, minfw_minor: 0 }
    }

    /// The policy asks for encrypted register state.
    pub open spec fn spec_encrypted_state(self) -> bool {
        self.flags & ENCRYPTED_STATE != 0
    }

    /// The policy asks for encrypted register state.
    #[verifier::when_used_as_spec(spec_encrypted_state)]
    pub fn encrypted_state(self) -> (r: bool)
        ensures
            r == self.spec_encrypted_state(),
    {
        self.flags & ENCRYPTED_STATE != 0
    }
}

/// A negotiated launch session: the policy, the tenant's ephemeral public
/// certificate and the session blob, the last two in the firmware's binary
/// form.
#[derive(Clone, Debug)]
pub struct Start {
    pub policy: Policy,
    pub cert: Vec<u8>,
    pub session: Vec<u8>,
}

/// The launch measurement: the digest and the nonce that went into it.
#[derive(Clone, Copy, Debug)]
pub struct Measurement {
    pub measure: [u8; 32],
    pub mnonce: [u8; 16],
}

/// A secret as the key broker releases it: the packet header (option bits,
/// initialization vector and integrity code) and the ciphertext.
#[derive(Clone, Debug)]
pub struct Secret {
    pub flags: u32,
    pub iv: [u8; 16],
    pub mac: [u8; 32],
    pub ciphertext: Vec<u8>,
}

} // verus!
