//! The errors that a confidential launch can end in.

use vstd::prelude::*;

verus! {

/// Why a launch was abandoned. Nothing is retried: every failure of a
/// collaborator ends the launch with the variant that names the failed step.
///
/// A transport failure carries the client's result code, a failed hypervisor
/// command the error number that it reported, and a malformed document the
/// parser's message.
#[derive(Debug)]
pub enum Error {
    AttestationRequest(u32),
    DecodeAskArk,
    DecodeCek,
    DecodeChain,
    DownloadCek(u32),
    DownloadAskArk(u32),
    EncodeChain,
    /// The platform did not export its certificates.
    ExportChain,
    FetchIdentifier,
    InvalidCpuData,
    OpenChainFile(std::io::Error),
    OpenFirmware(std::io::Error),
    OpenTmpFile,
    ParseAttestationSecret(String),
    ParseSevCertConfig(String),
    ParseSessionResponse(String),
    PlatformStatus,
    MemoryEncryptRegion,
    ReadingCpuData(procfs::ProcError),
    ReadingCoreData,
    SessionFromPolicy(std::io::Error),
    SessionRequest(u32),
    SevInit(i32),
    SevInjectSecret(i32),
    SevLaunchFinish(i32),
    SevLaunchMeasure(i32),
    SevLaunchStart(i32),
    SevLaunchUpdateData(i32),
    SevLaunchUpdateVmsa(i32),
    StartFromSession(std::io::Error),
    UnknownCpuModel,
}

} // verus!
