//! Before a launch: opening the firmware device, reading the vendor's part
//! of the configuration, obtaining the vendor's certificate chain and
//! negotiating the launch session. The chain comes from a local file where
//! the configuration names one, and else from the platform and the vendor's
//! services. The session is negotiated with the key broker where the
//! configuration names one, and else derived on this machine.
//!
//! As with the launch itself, the caller performs each action and reports
//! back; no action of this part is a command to the hypervisor.

use crate::agent::{
    observe, post_headers, CurlAgent, HttpRequest, HttpResponse, Method, HTTP_RETURNED_ERROR,
};
use crate::chain::{
    assemble_chain, assembled_chain, ca_chain_decodes, ca_in_full, certificate_decodes,
    chain_decodes, chain_in_full, derive_session, is_ca_chain, is_ca_in_full, is_certificate,
    is_chain, is_chain_in_full,
};
use crate::codec::{
    challenge_of, decode_challenge, encode_launch_request, encode_object, object_text,
    text_member, text_member_of,
};
use crate::cpu::{find_cpu_model, CoreInfo, CpuModel};
use crate::error::Error;
use crate::launch::{copy_bytes, has_headers, member, AmdSev};
use crate::text::{join, join3};
use crate::types::{Build, Policy, SevCertConfig, Start, TeeConfig};
use vstd::prelude::*;
use vstd::string::StringSliceAdditionalSpecFns;
use vstd::utf8::encode_utf8;

verus! {

/// The address of a chip's endorsement certificate at the vendor's identity
/// service.
pub open spec fn cek_url(id: Seq<char>) -> Seq<char> {
    "https://kdsintf.amd.com/cek/id"@ + "/"@ + id
}

/// The address of the vendor's signing and root certificates for a processor
/// generation.
pub open spec fn ask_ark_url(model: CpuModel) -> Seq<char> {
    "https://developer.amd.com/wp-content/resources/"@ + "/ask_ark_"@ + model.spec_name()
        + ".cert"@
}

/// The address of the key broker's endpoint for new sessions.
pub open spec fn auth_url(base: Seq<char>) -> Seq<char> {
    base + "/kbs/v0/auth"@
}

/// The request for a session: the protocol version, the workload, the kind of
/// environment, and the vendor's launch request as a text of its own.
pub open spec fn session_request_text(config: TeeConfig, launch_request: Seq<char>) -> Seq<char> {
    object_text(
        seq![
            ("version"@, "0.0.0"@),
            ("workload_id"@, config.workload_id@),
            ("tee"@, config.tee.spec_name()),
            ("extra_params"@, launch_request),
        ],
    )
}

/// What the caller is to do next.
pub enum SetupAction {
    /// Open the platform's firmware device.
    OpenFirmware,
    /// Read the vendor's part of the configuration out of this text.
    ParseConfig(String),
    /// Read the file at this path.
    ReadChainFile(String),
    /// Export the platform's certificates, encoded one after the other.
    ExportChain,
    /// Ask the firmware for the chip's identifier.
    FetchIdentifier,
    /// Read what the platform reports of its first core.
    ReadCpuInfo,
    /// Ask the firmware for its build.
    PlatformStatus,
    /// Write the chain to the cache file.
    StoreChain { path: String, bytes: Vec<u8> },
    /// Send this request.
    Send(HttpRequest),
    /// The session is negotiated: the launch can begin.
    Ready(AmdSev),
    /// The launch is abandoned.
    Failed(Error),
    /// The call did not fit the state of the setup. Nothing has changed.
    Rejected,
}

/// How the last action went.
pub enum SetupEvent {
    /// The action succeeded and yields nothing.
    Completed,
    /// The vendor's part of the configuration.
    Config(SevCertConfig),
    /// The vendor's part of the configuration cannot be read; the parser's
    /// message says why.
    ConfigFailed(String),
    /// The bytes of the file, or the exported certificates.
    Bytes(Vec<u8>),
    /// The chip's identifier, as the vendor's service spells it.
    Identifier(String),
    /// What the platform reports of its first core, if it lists one.
    Core(Option<CoreInfo>),
    /// The firmware's build.
    Status(Build),
    /// The answer to the request.
    Response(HttpResponse),
    /// The action failed; nothing more is known.
    Failed,
    /// The cache file was made, but the chain could not be written to it.
    WriteFailed,
    /// Opening or reading a file failed.
    IoFailed(std::io::Error),
    /// Reading the platform's report failed.
    ProcFailed(procfs::ProcError),
    /// The request failed with this result code of the transport.
    TransportFailed(u32),
}

/// The action whose outcome the setup waits for.
#[derive(Clone, Copy, Debug, PartialEq, Eq, Structural)]
pub enum Waiting {
    /// The setup has not begun.
    Start,
    Firmware,
    Config,
    ChainFile,
    Export,
    Identifier,
    Cek,
    CpuInfo,
    AskArk,
    Store,
    Status,
    Session,
    /// The setup is over.
    Nothing,
}

/// Where the cache of a downloaded chain is kept.
pub open spec fn cache_path() -> Seq<char> {
    "/tmp/libkrun-sev.chain"@
}

/// The setup of one launch.
pub struct Setup {
    tee_config: TeeConfig,
    cert_config: SevCertConfig,
    curl_agent: CurlAgent,
    waiting: Waiting,
    exported: Vec<u8>,
    cek: Vec<u8>,
    chain: Vec<u8>,
    /// The method of every request that the caller has been told to send.
    sent: Ghost<Seq<Method>>,
}

impl Setup {
    pub closed spec fn tee_config(&self) -> TeeConfig {
        self.tee_config
    }

    pub closed spec fn cert_config(&self) -> SevCertConfig {
        self.cert_config
    }

    /// The client that talks to the key broker.
    pub closed spec fn agent(&self) -> CurlAgent {
        self.curl_agent
    }

    pub closed spec fn waiting(&self) -> Waiting {
        self.waiting
    }

    /// The platform's exported certificates.
    pub closed spec fn exported(&self) -> Seq<u8> {
        self.exported@
    }

    /// The chip's endorsement certificate.
    pub closed spec fn cek(&self) -> Seq<u8> {
        self.cek@
    }

    /// The certificate chain.
    pub closed spec fn chain(&self) -> Seq<u8> {
        self.chain@
    }

    /// The method of every request that the caller has been told to send.
    pub closed spec fn sent(&self) -> Seq<Method> {
        self.sent@
    }

    /// The configuration names a file that holds the chain.
    pub open spec fn local_chain(&self) -> bool {
        self.cert_config().vendor_chain@.len() > 0
    }

    /// The configuration names a key broker.
    pub open spec fn attested(&self) -> bool {
        self.tee_config().attestation_url@.len() > 0
    }

    /// The setup's invariant. A chain from a local file is not downloaded;
    /// nothing is posted without a key broker, nor before the chain is there;
    /// nothing is sent before the configuration is read; and the chain, once
    /// it is there, is one that decodes.
    pub closed spec fn wf(&self) -> bool {
        &&& (self.waiting is Start || self.waiting is Firmware || self.waiting is Config)
            ==> self.sent@.len() == 0 && !self.local_chain()
        &&& (self.waiting is Store || self.waiting is Status) ==> is_chain(self.chain@)
        &&& self.local_chain() ==> !(self.waiting is Export || self.waiting is Identifier
            || self.waiting is Cek || self.waiting is CpuInfo || self.waiting is AskArk
            || self.waiting is Store)
        &&& !self.attested() ==> !(self.waiting is Status || self.waiting is Session)
        &&& self.local_chain() ==> forall|i: int|
            0 <= i < self.sent@.len() ==> self.sent@[i] is Post
        &&& !self.attested() ==> forall|i: int| 0 <= i < self.sent@.len() ==> self.sent@[i] is Get
        &&& !(self.waiting is Session || self.waiting is Nothing) ==> forall|i: int|
            0 <= i < self.sent@.len() ==> self.sent@[i] is Get
    }

    /// Nothing of the configuration differs between the two.
    pub open spec fn same_config(&self, other: &Self) -> bool {
        self.tee_config() == other.tee_config() && self.cert_config() == other.cert_config()
    }

    /// Nothing that the setup holds differs between the two.
    pub open spec fn same_holdings(&self, other: &Self) -> bool {
        &&& self.exported() == other.exported()
        &&& self.cek() == other.cek()
        &&& self.chain() == other.chain()
        &&& self.agent() == other.agent()
    }

    /// A setup for the configuration, which has not begun. The vendor's part
    /// of the configuration is read in its course.
    pub fn new(tee_config: &TeeConfig) -> (r: Self)
        ensures
            r.wf(),
            r.tee_config() == *tee_config,
            !r.local_chain(),
            r.waiting() is Start,
            r.agent().session() is None,
            r.sent().len() == 0,
    {
        Setup {
            tee_config: TeeConfig {
                workload_id: tee_config.workload_id.clone(),
                tee: tee_config.tee,
                tee_data: tee_config.tee_data.clone(),
                attestation_url: tee_config.attestation_url.clone(),
            },
            cert_config: SevCertConfig {
                vendor_chain: String::new(),
                attestation_server_pubkey: String::new(),
            },
            curl_agent: CurlAgent::new(),
            waiting: Waiting::Start,
            exported: Vec::new(),
            cek: Vec::new(),
            chain: Vec::new(),
            sent: Ghost(Seq::empty()),
        }
    }

    /// What the setup waits for.
    pub fn awaited(&self) -> (r: Waiting)
        ensures
            r == self.waiting(),
    {
        self.waiting
    }

    /// Begins the setup: the firmware device is opened first.
    pub fn begin(&mut self) -> (action: SetupAction)
        requires
            old(self).wf(),
        ensures
            final(self).wf(),
            final(self).same_config(old(self)),
            final(self).same_holdings(old(self)),
            final(self).sent() == old(self).sent(),
            if old(self).waiting() is Start {
                action is OpenFirmware && final(self).waiting() is Firmware
            } else {
                action is Rejected && final(self).waiting() == old(self).waiting()
            },
    {
        if !matches!(self.waiting, Waiting::Start) {
            return SetupAction::Rejected;
        }
        self.waiting = Waiting::Firmware;
        SetupAction::OpenFirmware
    }

    /// The setup ended in failure with the error `e`.
    pub open spec fn failed(&self, before: &Self, action: SetupAction, e: Error) -> bool {
        &&& action == SetupAction::Failed(e)
        &&& self.waiting() is Nothing
        &&& self.sent() == before.sent()
    }

    /// The call was refused and has changed nothing.
    pub open spec fn rejected(&self, before: &Self, action: SetupAction) -> bool {
        &&& action is Rejected
        &&& self.waiting() == before.waiting()
        &&& self.same_holdings(before)
        &&& self.sent() == before.sent()
    }

    /// The caller was told a step that sends nothing.
    pub open spec fn waits(&self, before: &Self, waiting: Waiting) -> bool {
        self.waiting() == waiting && self.sent() == before.sent()
    }

    /// The caller was told to send `req`.
    pub open spec fn sends(&self, before: &Self, waiting: Waiting, req: HttpRequest) -> bool {
        self.waiting() == waiting && self.sent() == before.sent().push(req.method)
    }

    fn fail(&mut self, e: Error) -> (action: SetupAction)
        requires
            old(self).wf(),
        ensures
            final(self).wf(),
            final(self).same_config(old(self)),
            final(self).same_holdings(old(self)),
            final(self).failed(old(self), action, e),
    {
        self.waiting = Waiting::Nothing;
        SetupAction::Failed(e)
    }

    /// `sev` is the controller of a launch with the session `start`, on which
    /// nothing has been done yet.
    pub open spec fn is_fresh(&self, sev: AmdSev, start: Start) -> bool {
        &&& sev.wf()
        &&& sev.tee_config() == self.tee_config()
        &&& sev.start() == start
        &&& sev.state() is Created
        &&& sev.issued().len() == 0
        &&& sev.agent().session() == self.agent().session()
    }

    /// The chain is there and the session is negotiated next: with the key
    /// broker if the configuration names one, and else on this machine, from
    /// fresh random keys, which may fail. A session made here has the local
    /// policy, a certificate that decodes and a blob of 128 bytes.
    pub open spec fn negotiates(&self, before: &Self, action: SetupAction) -> bool {
        if self.attested() {
            action is PlatformStatus && self.waits(before, Waiting::Status)
        } else {
            &&& self.waits(before, Waiting::Nothing)
            &&& match action {
                SetupAction::Ready(sev) => {
                    &&& self.is_fresh(sev, sev.start())
                    &&& sev.start().policy == Policy::spec_local()
                    &&& is_certificate(sev.start().cert@)
                    &&& sev.start().session@.len() == 128
                    &&& sev.session() is None
                    &&& !sev.encrypted_state()
                },
                SetupAction::Failed(e) => e is SessionFromPolicy || e is StartFromSession,
                _ => false,
            }
        }
    }

    fn negotiate(&mut self) -> (action: SetupAction)
        requires
            old(self).wf(),
            !(old(self).waiting() is Session || old(self).waiting() is Nothing),
            !(old(self).waiting() is Start || old(self).waiting() is Firmware || old(
                self,
            ).waiting() is Config),
            is_chain(old(self).chain()),
        ensures
            final(self).wf(),
            final(self).same_config(old(self)),
            final(self).same_holdings(old(self)),
            final(self).negotiates(old(self), action),
    {
        if !self.tee_config.attestation_url.as_str().is_empty() {
            self.waiting = Waiting::Status;
            return SetupAction::PlatformStatus;
        }
        self.waiting = Waiting::Nothing;
        match derive_session(self.chain.as_slice()) {
            Ok((cert, session)) => {
                let agent = self.curl_agent.duplicate();
                match AmdSev::derived(&self.tee_config, cert, session, agent) {
                    Some(sev) => SetupAction::Ready(sev),
                    // A configuration without a key broker always gives a launch.
                    None => SetupAction::Rejected,
                }
            },
            Err(e) => SetupAction::Failed(e),
        }
    }

    /// `req` is a plain retrieval of `url`.
    pub open spec fn is_download(req: HttpRequest, url: Seq<char>) -> bool {
        &&& req.method == Method::Get
        &&& req.url@ == url
        &&& req.headers@.len() == 0
        &&& req.body@.len() == 0
    }

    /// `req` asks the key broker for a session, with the vendor's launch
    /// request `launch_request`.
    pub open spec fn is_session_request(
        &self,
        launch_request: Seq<char>,
        req: HttpRequest,
    ) -> bool {
        &&& req.method == Method::Post
        &&& req.url@ == auth_url(self.tee_config().attestation_url@)
        &&& req.body@ == encode_utf8(session_request_text(self.tee_config(), launch_request))
        &&& has_headers(req, post_headers(self.agent().session()))
    }

    /// The request that asks the key broker for a session, with the vendor's
    /// launch request `launch_request`.
    pub fn session_request(&self, launch_request: &str) -> (req: HttpRequest)
        ensures
            self.is_session_request(launch_request@, req),
    {
        let mut members: Vec<(String, String)> = Vec::new();
        members.push(member("version", "0.0.0"));
        members.push(member("workload_id", self.tee_config.workload_id.as_str()));
        members.push(member("tee", self.tee_config.tee.name()));
        members.push(member("extra_params", launch_request));
        assert(members@.map_values(|m: (String, String)| (m.0@, m.1@)) =~= seq![
            ("version"@, "0.0.0"@),
            ("workload_id"@, self.tee_config.workload_id@),
            ("tee"@, self.tee_config.tee.spec_name()),
            ("extra_params"@, launch_request@),
        ]);
        let body = encode_object(&members);
        let url = join(self.tee_config.attestation_url.as_str(), "/kbs/v0/auth");
        self.curl_agent.post(url.as_str(), body.as_str().as_bytes())
    }

    /// What follows the opening of the firmware device: the vendor's part of
    /// the configuration is read.
    pub open spec fn firmware_rule(
        &self,
        before: &Self,
        event: SetupEvent,
        action: SetupAction,
    ) -> bool {
        &&& self.cert_config() == before.cert_config()
        &&& match event {
            SetupEvent::Completed => {
                &&& self.same_holdings(before)
                &&& action matches SetupAction::ParseConfig(text)
                &&& text@ == before.tee_config().tee_data@
                &&& self.waits(before, Waiting::Config)
            },
            SetupEvent::IoFailed(e) => self.failed(before, action, Error::OpenFirmware(e)),
            _ => self.rejected(before, action),
        }
    }

    /// What follows the reading of the configuration: the chain is read from
    /// the file that the configuration names, or else exported.
    pub open spec fn config_rule(
        &self,
        before: &Self,
        event: SetupEvent,
        action: SetupAction,
    ) -> bool {
        match event {
            SetupEvent::Config(config) => {
                &&& self.cert_config() == config
                &&& self.same_holdings(before)
                &&& if config.vendor_chain@.len() > 0 {
                    &&& action matches SetupAction::ReadChainFile(path)
                    &&& path@ == config.vendor_chain@
                    &&& self.waits(before, Waiting::ChainFile)
                } else {
                    action is ExportChain && self.waits(before, Waiting::Export)
                }
            },
            SetupEvent::ConfigFailed(message) => {
                &&& self.cert_config() == before.cert_config()
                &&& action matches SetupAction::Failed(Error::ParseSevCertConfig(said))
                &&& said@ == message@
                &&& self.waiting() is Nothing
                &&& self.sent() == before.sent()
            },
            _ => self.cert_config() == before.cert_config() && self.rejected(before, action),
        }
    }

    /// What follows the reading of the chain file: the bytes are the chain,
    /// if the vendor's certificates in them are in full and they decode as a
    /// chain.
    pub open spec fn chain_file_rule(
        &self,
        before: &Self,
        event: SetupEvent,
        action: SetupAction,
    ) -> bool {
        match event {
            SetupEvent::Bytes(bytes) => if chain_in_full(bytes@) && is_chain(bytes@) {
                &&& self.chain() == bytes@
                &&& self.exported() == before.exported()
                &&& self.cek() == before.cek()
                &&& self.agent() == before.agent()
                &&& self.negotiates(before, action)
            } else {
                self.failed(before, action, Error::DecodeChain)
            },
            SetupEvent::IoFailed(e) => self.failed(before, action, Error::OpenChainFile(e)),
            _ => self.rejected(before, action),
        }
    }

    /// What follows the export of the platform's certificates.
    pub open spec fn export_rule(
        &self,
        before: &Self,
        event: SetupEvent,
        action: SetupAction,
    ) -> bool {
        match event {
            SetupEvent::Bytes(bytes) => {
                &&& self.exported() == bytes@
                &&& self.cek() == before.cek()
                &&& self.chain() == before.chain()
                &&& self.agent() == before.agent()
                &&& action is FetchIdentifier
                &&& self.waits(before, Waiting::Identifier)
            },
            SetupEvent::Failed => self.failed(before, action, Error::ExportChain),
            _ => self.rejected(before, action),
        }
    }

    /// What follows the chip's identifier: the download of its endorsement
    /// certificate.
    pub open spec fn identifier_rule(
        &self,
        before: &Self,
        event: SetupEvent,
        action: SetupAction,
    ) -> bool {
        match event {
            SetupEvent::Identifier(id) => {
                &&& self.same_holdings(before)
                &&& action matches SetupAction::Send(req)
                &&& Self::is_download(req, cek_url(id@))
                &&& self.sends(before, Waiting::Cek, req)
            },
            SetupEvent::Failed => self.failed(before, action, Error::FetchIdentifier),
            _ => self.rejected(before, action),
        }
    }

    /// What follows the download of the endorsement certificate. An answer
    /// with an error status is a failed download.
    pub open spec fn cek_rule(
        &self,
        before: &Self,
        event: SetupEvent,
        action: SetupAction,
    ) -> bool {
        match event {
            SetupEvent::Response(rsp) => if rsp.spec_refused() {
                self.failed(before, action, Error::DownloadCek(HTTP_RETURNED_ERROR))
            } else if is_certificate(rsp.body@) {
                &&& self.cek() == rsp.body@
                &&& self.exported() == before.exported()
                &&& self.chain() == before.chain()
                &&& self.agent() == before.agent()
                &&& action is ReadCpuInfo
                &&& self.waits(before, Waiting::CpuInfo)
            } else {
                self.failed(before, action, Error::DecodeCek)
            },
            SetupEvent::TransportFailed(code) => self.failed(
                before,
                action,
                Error::DownloadCek(code),
            ),
            _ => self.rejected(before, action),
        }
    }

    /// What follows the platform's report of its first core: the download of
    /// the vendor's certificates for the processor's generation.
    pub open spec fn cpu_info_rule(
        &self,
        before: &Self,
        event: SetupEvent,
        action: SetupAction,
    ) -> bool {
        match event {
            SetupEvent::Core(core) => match crate::cpu::resolve(core) {
                Ok(model) => {
                    &&& self.same_holdings(before)
                    &&& action matches SetupAction::Send(req)
                    &&& Self::is_download(req, ask_ark_url(model))
                    &&& self.sends(before, Waiting::AskArk, req)
                },
                Err(e) => self.failed(before, action, e),
            },
            SetupEvent::ProcFailed(e) => self.failed(before, action, Error::ReadingCpuData(e)),
            _ => self.rejected(before, action),
        }
    }

    /// What follows the download of the vendor's certificates: the chain is
    /// put together and goes to the cache, if it is one that decodes. An
    /// answer with an error status is a failed download; certificates that
    /// are not in full do not decode.
    pub open spec fn ask_ark_rule(
        &self,
        before: &Self,
        event: SetupEvent,
        action: SetupAction,
    ) -> bool {
        match event {
            SetupEvent::Response(rsp) => if rsp.spec_refused() {
                self.failed(before, action, Error::DownloadAskArk(HTTP_RETURNED_ERROR))
            } else if !(ca_in_full(rsp.body@) && is_ca_chain(rsp.body@)) {
                self.failed(before, action, Error::DecodeAskArk)
            } else {
                match assembled_chain(before.exported(), before.cek(), rsp.body@) {
                    Some(chain) => if chain_in_full(chain) && is_chain(chain) {
                        &&& self.chain() == chain
                        &&& self.exported() == before.exported()
                        &&& self.cek() == before.cek()
                        &&& self.agent() == before.agent()
                        &&& action matches SetupAction::StoreChain { path, bytes }
                        &&& path@ == cache_path()
                        &&& bytes@ == chain
                        &&& self.waits(before, Waiting::Store)
                    } else {
                        self.failed(before, action, Error::EncodeChain)
                    },
                    None => self.failed(before, action, Error::EncodeChain),
                }
            },
            SetupEvent::TransportFailed(code) => self.failed(
                before,
                action,
                Error::DownloadAskArk(code),
            ),
            _ => self.rejected(before, action),
        }
    }

    /// What follows the writing of the cache.
    pub open spec fn store_rule(
        &self,
        before: &Self,
        event: SetupEvent,
        action: SetupAction,
    ) -> bool {
        match event {
            SetupEvent::Completed => self.same_holdings(before) && self.negotiates(before, action),
            SetupEvent::Failed => self.failed(before, action, Error::OpenTmpFile),
            SetupEvent::WriteFailed => self.failed(before, action, Error::EncodeChain),
            _ => self.rejected(before, action),
        }
    }

    /// What follows the firmware's build: the request for a session, with the
    /// vendor's launch request for the build, the chain and the workload.
    /// The text of the launch request is the codec's and not told here.
    pub open spec fn status_rule(
        &self,
        before: &Self,
        event: SetupEvent,
        action: SetupAction,
    ) -> bool {
        match event {
            SetupEvent::Status(_) => {
                &&& self.same_holdings(before)
                &&& action matches SetupAction::Send(req)
                &&& exists|launch_request: Seq<char>|
                    self.is_session_request(launch_request, req)
                &&& self.sends(before, Waiting::Session, req)
            },
            SetupEvent::Failed => self.failed(before, action, Error::PlatformStatus),
            _ => self.rejected(before, action),
        }
    }

    /// The setup ended because the key broker's answer could not be read.
    pub open spec fn unreadable(
        &self,
        before: &Self,
        action: SetupAction,
        message: Seq<char>,
    ) -> bool {
        &&& action matches SetupAction::Failed(Error::ParseSessionResponse(said))
        &&& said@ == message
        &&& self.waiting() is Nothing
        &&& self.sent() == before.sent()
    }

    /// What follows the key broker's answer: the challenge in it names the
    /// session and holds the launch session, whose policy says whether
    /// register state is encrypted. An answer with an error status is a
    /// failed request.
    pub open spec fn session_rule(
        &self,
        before: &Self,
        event: SetupEvent,
        action: SetupAction,
    ) -> bool {
        match event {
            SetupEvent::Response(rsp) => if rsp.spec_refused() {
                self.failed(before, action, Error::SessionRequest(HTTP_RETURNED_ERROR))
            } else {
                &&& self.exported() == before.exported()
                &&& self.cek() == before.cek()
                &&& self.chain() == before.chain()
                &&& self.agent().session() == observe(before.agent().session(), rsp.headers@)
                &&& match text_member_of(rsp.body@, "extra_params"@) {
                    Err(message) => self.unreadable(before, action, message),
                    Ok(challenge) => match challenge_of(challenge) {
                        Err(message) => self.unreadable(before, action, message),
                        Ok((id, policy, cert, session)) => {
                            &&& self.waits(before, Waiting::Nothing)
                            &&& action matches SetupAction::Ready(sev)
                            &&& self.is_fresh(sev, sev.start())
                            &&& sev.start().policy == policy
                            &&& sev.start().cert@ == cert
                            &&& sev.start().session@ == session
                            &&& sev.session() == Some(id)
                            &&& sev.encrypted_state() == policy.spec_encrypted_state()
                        },
                    },
                }
            },
            SetupEvent::TransportFailed(code) => self.failed(
                before,
                action,
                Error::SessionRequest(code),
            ),
            _ => self.rejected(before, action),
        }
    }

    /// What the setup makes of an event, by what it was waiting for.
    pub open spec fn rule(&self, before: &Self, event: SetupEvent, action: SetupAction) -> bool {
        match before.waiting() {
            Waiting::Start | Waiting::Nothing => self.rejected(before, action),
            Waiting::Firmware => self.firmware_rule(before, event, action),
            Waiting::Config => self.config_rule(before, event, action),
            Waiting::ChainFile => self.chain_file_rule(before, event, action),
            Waiting::Export => self.export_rule(before, event, action),
            Waiting::Identifier => self.identifier_rule(before, event, action),
            Waiting::Cek => self.cek_rule(before, event, action),
            Waiting::CpuInfo => self.cpu_info_rule(before, event, action),
            Waiting::AskArk => self.ask_ark_rule(before, event, action),
            Waiting::Store => self.store_rule(before, event, action),
            Waiting::Status => self.status_rule(before, event, action),
            Waiting::Session => self.session_rule(before, event, action),
        }
    }

    fn on_firmware(&mut self, event: SetupEvent) -> (action: SetupAction)
        requires
            old(self).wf(),
            old(self).waiting() is Firmware,
        ensures
            final(self).wf(),
            final(self).same_config(old(self)),
            final(self).firmware_rule(old(self), event, action),
    {
        match event {
            SetupEvent::Completed => {
                self.waiting = Waiting::Config;
                SetupAction::ParseConfig(self.tee_config.tee_data.clone())
            },
            SetupEvent::IoFailed(e) => self.fail(Error::OpenFirmware(e)),
            _ => SetupAction::Rejected,
        }
    }

    fn on_config(&mut self, event: SetupEvent) -> (action: SetupAction)
        requires
            old(self).wf(),
            old(self).waiting() is Config,
        ensures
            final(self).wf(),
            final(self).tee_config() == old(self).tee_config(),
            final(self).config_rule(old(self), event, action),
    {
        match event {
            SetupEvent::Config(config) => {
                let path = config.vendor_chain.clone();
                self.cert_config = config;
                if !path.as_str().is_empty() {
                    self.waiting = Waiting::ChainFile;
                    SetupAction::ReadChainFile(path)
                } else {
                    self.waiting = Waiting::Export;
                    SetupAction::ExportChain
                }
            },
            SetupEvent::ConfigFailed(message) => self.fail(Error::ParseSevCertConfig(message)),
            _ => SetupAction::Rejected,
        }
    }

    fn on_chain_file(&mut self, event: SetupEvent) -> (action: SetupAction)
        requires
            old(self).wf(),
            old(self).waiting() is ChainFile,
        ensures
            final(self).wf(),
            final(self).same_config(old(self)),
            final(self).chain_file_rule(old(self), event, action),
    {
        match event {
            SetupEvent::Bytes(bytes) => if is_chain_in_full(bytes.as_slice()) && chain_decodes(
                bytes.as_slice(),
            ) {
                self.chain = bytes;
                self.negotiate()
            } else {
                self.fail(Error::DecodeChain)
            },
            SetupEvent::IoFailed(e) => self.fail(Error::OpenChainFile(e)),
            _ => SetupAction::Rejected,
        }
    }

    fn on_export(&mut self, event: SetupEvent) -> (action: SetupAction)
        requires
            old(self).wf(),
            old(self).waiting() is Export,
        ensures
            final(self).wf(),
            final(self).same_config(old(self)),
            final(self).export_rule(old(self), event, action),
    {
        match event {
            SetupEvent::Bytes(bytes) => {
                self.exported = bytes;
                self.waiting = Waiting::Identifier;
                SetupAction::FetchIdentifier
            },
            SetupEvent::Failed => self.fail(Error::ExportChain),
            _ => SetupAction::Rejected,
        }
    }

    fn on_identifier(&mut self, event: SetupEvent) -> (action: SetupAction)
        requires
            old(self).wf(),
            old(self).waiting() is Identifier,
        ensures
            final(self).wf(),
            final(self).same_config(old(self)),
            final(self).identifier_rule(old(self), event, action),
    {
        match event {
            SetupEvent::Identifier(id) => {
                let url = join3("https://kdsintf.amd.com/cek/id", "/", id.as_str());
                let req = self.curl_agent.get(url.as_str());
                self.waiting = Waiting::Cek;
                proof {
                    self.sent@ = self.sent@.push(Method::Get);
                }
                SetupAction::Send(req)
            },
            SetupEvent::Failed => self.fail(Error::FetchIdentifier),
            _ => SetupAction::Rejected,
        }
    }

    fn on_cek(&mut self, event: SetupEvent) -> (action: SetupAction)
        requires
            old(self).wf(),
            old(self).waiting() is Cek,
        ensures
            final(self).wf(),
            final(self).same_config(old(self)),
            final(self).cek_rule(old(self), event, action),
    {
        match event {
            SetupEvent::Response(rsp) => if rsp.refused() {
                self.fail(Error::DownloadCek(HTTP_RETURNED_ERROR))
            } else if certificate_decodes(rsp.body.as_slice()) {
                self.cek = rsp.body;
                self.waiting = Waiting::CpuInfo;
                SetupAction::ReadCpuInfo
            } else {
                self.fail(Error::DecodeCek)
            },
            SetupEvent::TransportFailed(code) => self.fail(Error::DownloadCek(code)),
            _ => SetupAction::Rejected,
        }
    }

    fn on_cpu_info(&mut self, event: SetupEvent) -> (action: SetupAction)
        requires
            old(self).wf(),
            old(self).waiting() is CpuInfo,
        ensures
            final(self).wf(),
            final(self).same_config(old(self)),
            final(self).cpu_info_rule(old(self), event, action),
    {
        match event {
            SetupEvent::Core(core) => match find_cpu_model(&core) {
                Ok(model) => {
                    let name = join3("/ask_ark_", model.name(), ".cert");
                    let url = join(
                        "https://developer.amd.com/wp-content/resources/",
                        name.as_str(),
                    );
                    assert(url@ =~= ask_ark_url(model));
                    let req = self.curl_agent.get(url.as_str());
                    self.waiting = Waiting::AskArk;
                    proof {
                        self.sent@ = self.sent@.push(Method::Get);
                    }
                    SetupAction::Send(req)
                },
                Err(e) => self.fail(e),
            },
            SetupEvent::ProcFailed(e) => self.fail(Error::ReadingCpuData(e)),
            _ => SetupAction::Rejected,
        }
    }

    fn on_ask_ark(&mut self, event: SetupEvent) -> (action: SetupAction)
        requires
            old(self).wf(),
            old(self).waiting() is AskArk,
        ensures
            final(self).wf(),
            final(self).same_config(old(self)),
            final(self).ask_ark_rule(old(self), event, action),
    {
        match event {
            SetupEvent::Response(rsp) => if rsp.refused() {
                self.fail(Error::DownloadAskArk(HTTP_RETURNED_ERROR))
            } else if !(is_ca_in_full(rsp.body.as_slice()) && ca_chain_decodes(
                rsp.body.as_slice(),
            )) {
                self.fail(Error::DecodeAskArk)
            } else {
                match assemble_chain(
                    self.exported.as_slice(),
                    self.cek.as_slice(),
                    rsp.body.as_slice(),
                ) {
                    Some(chain) => if is_chain_in_full(chain.as_slice()) && chain_decodes(
                        chain.as_slice(),
                    ) {
                        let bytes = copy_bytes(&chain);
                        self.chain = chain;
                        self.waiting = Waiting::Store;
                        SetupAction::StoreChain { path: "/tmp/libkrun-sev.chain".to_owned(), bytes }
                    } else {
                        self.fail(Error::EncodeChain)
                    },
                    None => self.fail(Error::EncodeChain),
                }
            },
            SetupEvent::TransportFailed(code) => self.fail(Error::DownloadAskArk(code)),
            _ => SetupAction::Rejected,
        }
    }

    fn on_store(&mut self, event: SetupEvent) -> (action: SetupAction)
        requires
            old(self).wf(),
            old(self).waiting() is Store,
        ensures
            final(self).wf(),
            final(self).same_config(old(self)),
            final(self).store_rule(old(self), event, action),
    {
        match event {
            SetupEvent::Completed => self.negotiate(),
            SetupEvent::Failed => self.fail(Error::OpenTmpFile),
            SetupEvent::WriteFailed => self.fail(Error::EncodeChain),
            _ => SetupAction::Rejected,
        }
    }

    fn on_status(&mut self, event: SetupEvent) -> (action: SetupAction)
        requires
            old(self).wf(),
            old(self).waiting() is Status,
        ensures
            final(self).wf(),
            final(self).same_config(old(self)),
            final(self).status_rule(old(self), event, action),
    {
        match event {
            SetupEvent::Status(build) => match encode_launch_request(
                build,
                self.chain.as_slice(),
                self.tee_config.workload_id.as_str(),
            ) {
                Some(launch_request) => {
                    let req = self.session_request(launch_request.as_str());
                    self.waiting = Waiting::Session;
                    proof {
                        self.sent@ = self.sent@.push(Method::Post);
                        assert(self.is_session_request(launch_request@, req));
                    }
                    SetupAction::Send(req)
                },
                // A chain that decodes always gives a launch request.
                None => SetupAction::Rejected,
            },
            SetupEvent::Failed => self.fail(Error::PlatformStatus),
            _ => SetupAction::Rejected,
        }
    }

    fn on_session(&mut self, event: SetupEvent) -> (action: SetupAction)
        requires
            old(self).wf(),
            old(self).waiting() is Session,
        ensures
            final(self).wf(),
            final(self).same_config(old(self)),
            final(self).session_rule(old(self), event, action),
    {
        match event {
            SetupEvent::Response(rsp) => {
                if rsp.refused() {
                    return self.fail(Error::SessionRequest(HTTP_RETURNED_ERROR));
                }
                self.curl_agent.receive(&rsp.headers);
                let challenge = match text_member(rsp.body.as_slice(), "extra_params") {
                    Ok(text) => text,
                    Err(message) => {
                        return self.fail(Error::ParseSessionResponse(message));
                    },
                };
                match decode_challenge(challenge.as_str()) {
                    Ok((id, start)) => {
                        let agent = self.curl_agent.duplicate();
                        self.waiting = Waiting::Nothing;
                        SetupAction::Ready(AmdSev::negotiated(&self.tee_config, id, start, agent))
                    },
                    Err(message) => self.fail(Error::ParseSessionResponse(message)),
                }
            },
            SetupEvent::TransportFailed(code) => self.fail(Error::SessionRequest(code)),
            _ => SetupAction::Rejected,
        }
    }

    /// Takes the caller's report on the action under way and says what to do
    /// next.
    ///
    /// A failed action ends the setup with the error that names it, and so
    /// does an answer with an error status, and a download or a file that
    /// does not decode. A report that does not fit the action under way is
    /// refused.
    pub fn step(&mut self, event: SetupEvent) -> (action: SetupAction)
        requires
            old(self).wf(),
        ensures
            final(self).wf(),
            final(self).tee_config() == old(self).tee_config(),
            !(old(self).waiting() is Config) ==> final(self).same_config(old(self)),
            final(self).rule(old(self), event, action),
    {
        match self.waiting {
            Waiting::Start | Waiting::Nothing => SetupAction::Rejected,
            Waiting::Firmware => self.on_firmware(event),
            Waiting::Config => self.on_config(event),
            Waiting::ChainFile => self.on_chain_file(event),
            Waiting::Export => self.on_export(event),
            Waiting::Identifier => self.on_identifier(event),
            Waiting::Cek => self.on_cek(event),
            Waiting::CpuInfo => self.on_cpu_info(event),
            Waiting::AskArk => self.on_ask_ark(event),
            Waiting::Store => self.on_store(event),
            Waiting::Status => self.on_status(event),
            Waiting::Session => self.on_session(event),
        }
    }
}

/// A setup that finds its chain in a local file and has no key broker to
/// talk to sends no request at all.
pub proof fn law_local_setup_is_offline(setup: Setup)
    requires
        setup.wf(),
        setup.local_chain(),
        !setup.attested(),
    ensures
        setup.sent().len() == 0,
{
    if setup.sent().len() > 0 {
        assert(setup.sent()[0] is Post);
        assert(setup.sent()[0] is Get);
    }
}

/// Without a key broker nothing is posted: the session is negotiated without
/// a request. With a local chain file nothing is downloaded.
pub proof fn law_requests_follow_configuration(setup: Setup, at: int)
    requires
        setup.wf(),
        0 <= at < setup.sent().len(),
    ensures
        setup.sent()[at] is Post ==> setup.attested(),
        setup.sent()[at] is Get ==> !setup.local_chain(),
{
}

/// Until the chain is there, nothing goes to the key broker: every request
/// that the setup sends before it asks for a session is a download.
pub proof fn law_chain_precedes_session(setup: Setup, at: int)
    requires
        setup.wf(),
        0 <= at < setup.sent().len(),
        !(setup.waiting() is Session || setup.waiting() is Nothing),
    ensures
        setup.sent()[at] is Get,
{
}

/// The chain that goes to the cache, to the key broker or into a local
/// session is one that decodes. Before the configuration is read, nothing is
/// sent.
pub proof fn law_chain_decodes(setup: Setup)
    requires
        setup.wf(),
    ensures
        setup.waiting() is Store || setup.waiting() is Status ==> is_chain(setup.chain()),
        setup.waiting() is Start || setup.waiting() is Firmware || setup.waiting() is Config
            ==> setup.sent().len() == 0,
{
}

} // verus!
