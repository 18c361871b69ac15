//! The launch controller: it decides which command the hypervisor is given
//! next and which request the key broker is sent, and what a failure means.
//! The caller performs each action and reports back how it went.

use crate::agent::{
    post_headers, CurlAgent, HttpRequest, HttpResponse, Method, HTTP_RETURNED_ERROR,
};
use crate::codec::{
    decode_secret, encode_measurement, encode_nested_object, measurement_text, nested_object_text,
    secret_of,
};
use crate::error::Error;
use crate::plan::{
    attest_len, attest_plan, attest_step, count, launch_plan, lemma_attest_len,
    lemma_attest_order, lemma_count_take, lemma_launch_counts, lemma_launch_start, lemma_places,
    lemma_plan_is_ordered, lemma_prepare_order, may_follow, prepare_plan, prepare_step, prepares,
    rank, times, LaunchState, Step,
};
use crate::text::{join, join3};
use crate::types::{GuestRegion, MeasuredRegion, Measurement, Policy, Secret, Start, TeeConfig};
use vstd::prelude::*;
use vstd::string::StringSliceAdditionalSpecFns;
use vstd::utf8::encode_utf8;

verus! {

/// The guest-physical address that an injected secret is written to.
pub const SECRET_GUEST_ADDR: u64 = 0x20000;

/// A command for the hypervisor. Memory is named by the host address it is
/// mapped at, but for the target of a secret, which is a guest-physical
/// address.
#[derive(Debug)]
pub enum Command {
    Init { encrypted_state: bool },
    RegisterRegion { host_addr: u64, size: u64 },
    LaunchStart { start: Start },
    LaunchUpdateData { host_addr: u64, len: u32 },
    LaunchUpdateVmsa,
    LaunchSecret { secret: Secret, guest_addr: u64 },
    LaunchMeasure,
    LaunchFinish,
}

impl Command {
    /// The number that the secure processor's interface gives the command.
    /// Registering a memory region is a call of its own and has none.
    pub open spec fn spec_code(self) -> Option<u32> {
        match self {
            Command::Init { encrypted_state } => Some(
                if encrypted_state {
                    1u32
                } else {
                    0u32
                },
            ),
            Command::RegisterRegion { .. } => None,
            Command::LaunchStart { .. } => Some(2u32),
            Command::LaunchUpdateData { .. } => Some(3u32),
            Command::LaunchUpdateVmsa => Some(4u32),
            Command::LaunchSecret { .. } => Some(5u32),
            Command::LaunchMeasure => Some(6u32),
            Command::LaunchFinish => Some(7u32),
        }
    }

    /// The command that injects `secret` at the address kept for secrets.
    pub fn inject(secret: Secret) -> (c: Command)
        ensures
            c == (Command::LaunchSecret { secret, guest_addr: SECRET_GUEST_ADDR }),
    {
        Command::LaunchSecret { secret, guest_addr: SECRET_GUEST_ADDR }
    }

    /// The number that the secure processor's interface gives the command.
    pub fn code(&self) -> (r: Option<u32>)
        ensures
            r == self.spec_code(),
    {
        match self {
            Command::Init { encrypted_state } => Some(
                if *encrypted_state {
                    1
                } else {
                    0
                },
            ),
            Command::RegisterRegion { .. } => None,
            Command::LaunchStart { .. } => Some(2),
            Command::LaunchUpdateData { .. } => Some(3),
            Command::LaunchUpdateVmsa => Some(4),
            Command::LaunchSecret { .. } => Some(5),
            Command::LaunchMeasure => Some(6),
            Command::LaunchFinish => Some(7),
        }
    }
}

/// What the caller is to do next.
#[derive(Debug)]
pub enum Action {
    /// Give the hypervisor this command.
    Issue(Command),
    /// Send the key broker this request.
    Send(HttpRequest),
    /// The part of the launch that was asked for is complete.
    Done,
    /// The launch is abandoned.
    Failed(Error),
    /// The call did not fit the state of the launch. Nothing has changed.
    Rejected,
}

/// How the last action went.
#[derive(Debug)]
pub enum Event {
    /// The command succeeded.
    Completed,
    /// The measuring command succeeded and wrote this measurement.
    Measured(Measurement),
    /// The command failed with this error number.
    CommandFailed(i32),
    /// The key broker answered.
    Response(HttpResponse),
    /// The request failed with this result code of the transport.
    TransportFailed(u32),
}

/// The address of the key broker's attestation endpoint.
pub open spec fn attest_url(base: Seq<char>) -> Seq<char> {
    base + "/kbs/v0/attest"@
}

/// The address at which the key broker keeps a workload's secret.
pub open spec fn key_url(base: Seq<char>, workload_id: Seq<char>) -> Seq<char> {
    base + "/kbs/v0/key/"@ + workload_id
}

/// The evidence that goes to the key broker: the session identifier as the
/// nonce, the kind of environment, an empty descriptor of the guest's public
/// key, and the measurement as a text of its own.
pub open spec fn evidence_text(nonce: Seq<char>, measurement: Seq<char>) -> Seq<char> {
    nested_object_text(
        seq![("nonce"@, nonce), ("tee"@, "sev"@), ("tee_evidence"@, measurement)],
        "tee_pubkey"@,
        seq![("algorithm"@, ""@), ("pubkey_length"@, ""@), ("pubkey"@, ""@)],
    )
}

/// The header lines of `req` are `lines`.
pub open spec fn has_headers(req: HttpRequest, lines: Seq<Seq<char>>) -> bool {
    &&& req.headers@.len() == lines.len()
    &&& forall|i: int| 0 <= i < lines.len() ==> (#[trigger] req.headers@[i])@ == lines[i]
}

pub(crate) fn member(name: &str, value: &str) -> (r: (String, String))
    ensures
        r.0@ == name@,
        r.1@ == value@,
{
    (name.to_owned(), value.to_owned())
}

/// The command that encrypts a region has 32 bits for its length: every
/// region is small enough for it.
pub open spec fn fits(regions: Seq<MeasuredRegion>) -> bool {
    forall|i: int| 0 <= i < regions.len() ==> (#[trigger] regions[i]).size <= u32::MAX
}

fn all_fit(regions: &Vec<MeasuredRegion>) -> (r: bool)
    ensures
        r == fits(regions@),
{
    let n = regions.len();
    let mut i: usize = 0;
    while i < n
        invariant
            i <= n == regions@.len(),
            forall|j: int| 0 <= j < i ==> (#[trigger] regions@[j]).size <= u32::MAX,
        decreases n - i,
    {
        if regions[i].size > 0xffff_ffff {
            return false;
        }
        i += 1;
    }
    true
}

/// Which part of the launch is under way.
#[derive(Clone, Copy, Debug, PartialEq, Eq, Structural)]
pub enum Stage {
    Idle,
    Preparing,
    Attesting,
}

/// The state that a launch is in once `step` has completed.
pub open spec fn state_after(step: Step) -> LaunchState {
    match step {
        Step::Init | Step::Region(_) => LaunchState::Initialized,
        Step::LaunchStart => LaunchState::Started,
        Step::UpdateData(_) => LaunchState::DataLoaded,
        Step::UpdateVmsa => LaunchState::VmsaUpdated,
        Step::Measure | Step::Attest | Step::FetchKey => LaunchState::Measured,
        Step::InjectSecret => LaunchState::SecretInjected,
        Step::Finish => LaunchState::Finished,
    }
}

/// The state of a launch of which the steps `completed` have completed.
pub open spec fn state_of(completed: Seq<Step>) -> LaunchState {
    if completed.len() == 0 {
        LaunchState::Created
    } else {
        state_after(completed.last())
    }
}

/// The error that a failed command of `step` ends the launch with.
pub open spec fn command_failure(step: Step, errno: i32) -> Option<Error> {
    match step {
        Step::Init => Some(Error::SevInit(errno)),
        Step::Region(_) => Some(Error::MemoryEncryptRegion),
        Step::LaunchStart => Some(Error::SevLaunchStart(errno)),
        Step::UpdateData(_) => Some(Error::SevLaunchUpdateData(errno)),
        Step::UpdateVmsa => Some(Error::SevLaunchUpdateVmsa(errno)),
        Step::Measure => Some(Error::SevLaunchMeasure(errno)),
        Step::InjectSecret => Some(Error::SevInjectSecret(errno)),
        Step::Finish => Some(Error::SevLaunchFinish(errno)),
        Step::Attest | Step::FetchKey => None,
    }
}

fn failure_of(step: Step, errno: i32) -> (r: Option<Error>)
    ensures
        r == command_failure(step, errno),
{
    match step {
        Step::Init => Some(Error::SevInit(errno)),
        Step::Region(_) => Some(Error::MemoryEncryptRegion),
        Step::LaunchStart => Some(Error::SevLaunchStart(errno)),
        Step::UpdateData(_) => Some(Error::SevLaunchUpdateData(errno)),
        Step::UpdateVmsa => Some(Error::SevLaunchUpdateVmsa(errno)),
        Step::Measure => Some(Error::SevLaunchMeasure(errno)),
        Step::InjectSecret => Some(Error::SevInjectSecret(errno)),
        Step::Finish => Some(Error::SevLaunchFinish(errno)),
        Step::Attest | Step::FetchKey => None,
    }
}

pub(crate) fn copy_bytes(v: &Vec<u8>) -> (r: Vec<u8>)
    ensures
        r@ == v@,
{
    vstd::slice::slice_to_vec(v.as_slice())
}

/// The controller of one launch. It is made from a negotiated session, and
/// from then on only moves forward: through the preparation, then through the
/// attestation, or into failure.
pub struct AmdSev {
    tee_config: TeeConfig,
    start: Start,
    session_id: Option<String>,
    sev_es: bool,
    curl_agent: CurlAgent,
    state: LaunchState,
    stage: Stage,
    /// The place in the current part's plan of the step under way.
    cursor: usize,
    regions: Vec<GuestRegion>,
    measured: Vec<MeasuredRegion>,
    /// Every step that the caller has been told to take, in order.
    issued: Ghost<Seq<Step>>,
}

impl AmdSev {
    pub closed spec fn tee_config(&self) -> TeeConfig {
        self.tee_config
    }

    /// The negotiated session.
    pub closed spec fn start(&self) -> Start {
        self.start
    }

    /// The identifier that the key broker gave the session.
    pub closed spec fn session(&self) -> Option<Seq<char>> {
        match self.session_id {
            Some(id) => Some(id@),
            None => None,
        }
    }

    /// Register state is encrypted.
    pub closed spec fn encrypted_state(&self) -> bool {
        self.sev_es
    }

    /// The client that talks to the key broker.
    pub closed spec fn agent(&self) -> CurlAgent {
        self.curl_agent
    }

    /// The launch is attested to a key broker.
    pub open spec fn attested(&self) -> bool {
        self.tee_config().attestation_url@.len() > 0
    }

    pub closed spec fn state(&self) -> LaunchState {
        self.state
    }

    pub closed spec fn stage(&self) -> Stage {
        self.stage
    }

    /// The guest memory regions that the preparation registers.
    pub closed spec fn regions(&self) -> Seq<GuestRegion> {
        self.regions@
    }

    /// The regions that the measurement covers.
    pub closed spec fn measured(&self) -> Seq<MeasuredRegion> {
        self.measured@
    }

    /// Every step that the caller has been told to take, in order.
    pub closed spec fn issued(&self) -> Seq<Step> {
        self.issued@
    }

    /// The steps of the whole launch.
    pub open spec fn plan(&self) -> Seq<Step> {
        prepare_plan(self.regions().len()) + attest_plan(
            self.measured().len(),
            self.encrypted_state(),
            self.attested(),
        )
    }

    /// The step under way: the one that the caller was last told to take and
    /// has not reported on.
    pub open spec fn pending(&self) -> Option<Step> {
        if self.stage() is Idle {
            None
        } else {
            Some(self.issued().last())
        }
    }

    /// The steps that have completed.
    pub open spec fn completed(&self) -> Seq<Step> {
        if self.stage() is Idle {
            self.issued()
        } else {
            self.issued().drop_last()
        }
    }

    /// The controller's invariant. The steps taken are the beginning of the
    /// plan; a part under way has a step under way; an attested launch has a
    /// session identifier; the state is that of the last completed step.
    pub closed spec fn wf(&self) -> bool {
        let n = self.regions().len();
        let all = attest_len(self.measured().len(), self.sev_es, self.attested());
        &&& self.attested() ==> self.session_id is Some
        &&& self.issued().len() <= self.plan().len()
        &&& self.issued() == self.plan().take(self.issued().len() as int)
        &&& n + self.measured().len() + 8 <= usize::MAX
        &&& match self.stage {
            Stage::Idle => {
                ||| self.issued().len() == 0
                ||| self.issued().len() == n + 2
                ||| self.issued().len() == n + 2 + all
                ||| self.state is Failed
            },
            Stage::Preparing => self.cursor < n + 2 && self.issued().len() == self.cursor + 1,
            Stage::Attesting => self.cursor < all && self.issued().len() == n + 2 + self.cursor + 1,
        }
        &&& self.issued().len() < n + 2 ==> self.measured().len() == 0
        &&& fits(self.measured())
        &&& self.state is Failed ==> self.stage is Idle
        &&& !(self.state is Failed) ==> self.state == state_of(self.completed())
    }

    /// A controller for the negotiated session `start`. A launch that is
    /// attested needs the identifier that the key broker gave the session.
    pub fn new(
        tee_config: &TeeConfig,
        start: Start,
        session_id: Option<String>,
        sev_es: bool,
        curl_agent: CurlAgent,
    ) -> (r: Self)
        requires
            tee_config.attestation_url@.len() > 0 ==> session_id is Some,
        ensures
            r.wf(),
            r.tee_config() == *tee_config,
            r.start() == start,
            r.session() is Some <==> session_id is Some,
            session_id matches Some(id) ==> r.session() == Some(id@),
            r.encrypted_state() == sev_es,
            r.agent() == curl_agent,
            r.state() is Created,
            r.stage() is Idle,
            r.issued().len() == 0,
            r.regions().len() == 0,
            r.measured().len() == 0,
    {
        let tee_config = TeeConfig {
            workload_id: tee_config.workload_id.clone(),
            tee: tee_config.tee,
            tee_data: tee_config.tee_data.clone(),
            attestation_url: tee_config.attestation_url.clone(),
        };
        let r = AmdSev {
            tee_config,
            start,
            session_id,
            sev_es,
            curl_agent,
            state: LaunchState::Created,
            stage: Stage::Idle,
            cursor: 0,
            regions: Vec::new(),
            measured: Vec::new(),
            issued: Ghost(Seq::empty()),
        };
        assert(r.plan().take(0) =~= r.issued());
        r
    }

    /// A controller for a session that the key broker has answered with: the
    /// identifier `id` names the session, and the policy of `start` says
    /// whether register state is encrypted.
    pub fn negotiated(
        tee_config: &TeeConfig,
        id: String,
        start: Start,
        curl_agent: CurlAgent,
    ) -> (r: Self)
        ensures
            r.wf(),
            r.tee_config() == *tee_config,
            r.start() == start,
            r.session() == Some(id@),
            r.encrypted_state() == start.policy.spec_encrypted_state(),
            r.agent() == curl_agent,
            r.state() is Created,
            r.stage() is Idle,
            r.issued().len() == 0,
            r.regions().len() == 0,
            r.measured().len() == 0,
    {
        let sev_es = start.policy.encrypted_state();
        Self::new(tee_config, start, Some(id), sev_es, curl_agent)
    }

    /// A controller for a session that was derived on this machine, of which
    /// `cert` is the tenant's certificate and `session` the session blob. Such
    /// a launch has the local policy, no session identifier, and no encrypted
    /// register state. None where the configuration names a key broker.
    pub fn derived(
        tee_config: &TeeConfig,
        cert: Vec<u8>,
        session: Vec<u8>,
        curl_agent: CurlAgent,
    ) -> (r: Option<Self>)
        ensures
            r is Some <==> tee_config.attestation_url@.len() == 0,
            r matches Some(sev) ==> {
                &&& sev.wf()
                &&& sev.tee_config() == *tee_config
                &&& sev.start().policy == Policy::spec_local()
                &&& sev.start().cert == cert
                &&& sev.start().session == session
                &&& sev.session() is None
                &&& !sev.encrypted_state()
                &&& sev.agent() == curl_agent
                &&& sev.state() is Created
                &&& sev.stage() is Idle
                &&& sev.issued().len() == 0
            },
    {
        if !tee_config.attestation_url.as_str().is_empty() {
            return None;
        }
        let start = Start { policy: Policy::local(), cert, session };
        Some(Self::new(tee_config, start, None, false, curl_agent))
    }

    /// How far the launch has come.
    pub fn launch_state(&self) -> (r: LaunchState)
        ensures
            r == self.state(),
    {
        self.state
    }

    /// Register state is encrypted.
    pub fn sev_es(&self) -> (r: bool)
        ensures
            r == self.encrypted_state(),
    {
        self.sev_es
    }

    /// The identifier that the key broker gave the session, if any.
    pub fn session_id(&self) -> (r: Option<String>)
        ensures
            r is Some <==> self.session() is Some,
            r matches Some(id) ==> self.session() == Some(id@),
    {
        match &self.session_id {
            Some(id) => Some(id.clone()),
            None => None,
        }
    }

    /// Nothing of the session differs between the two controllers.
    pub open spec fn same_session(&self, other: &Self) -> bool {
        &&& self.tee_config() == other.tee_config()
        &&& self.start() == other.start()
        &&& self.session() == other.session()
        &&& self.encrypted_state() == other.encrypted_state()
    }

    /// The two controllers have come equally far.
    pub open spec fn same_progress(&self, other: &Self) -> bool {
        &&& self.state() == other.state()
        &&& self.stage() == other.stage()
        &&& self.issued() == other.issued()
        &&& self.regions() == other.regions()
        &&& self.measured() == other.measured()
        &&& self.agent() == other.agent()
    }

    /// `c` is the command that `step` gives the hypervisor. A step that takes
    /// more than the controller holds, or that talks to the key broker, has
    /// none.
    pub open spec fn is_command(&self, step: Step, c: Command) -> bool {
        match step {
            Step::Init => c == (Command::Init { encrypted_state: self.encrypted_state() }),
            Step::Region(i) => i < self.regions().len() && c == (Command::RegisterRegion {
                host_addr: self.regions()[i as int].host_addr,
                size: self.regions()[i as int].size,
            }),
            Step::LaunchStart => c matches Command::LaunchStart { start } && start.policy
                == self.start().policy && start.cert@ == self.start().cert@ && start.session@
                == self.start().session@,
            Step::UpdateData(i) => i < self.measured().len() && c == (Command::LaunchUpdateData {
                host_addr: self.measured()[i as int].host_addr,
                len: self.measured()[i as int].size as u32,
            }),
            Step::UpdateVmsa => c == Command::LaunchUpdateVmsa,
            Step::Measure => c == Command::LaunchMeasure,
            Step::Finish => c == Command::LaunchFinish,
            Step::Attest | Step::FetchKey | Step::InjectSecret => false,
        }
    }

    fn command_for(&self, step: Step) -> (c: Command)
        requires
            !(step is Attest || step is FetchKey || step is InjectSecret),
            step matches Step::Region(i) ==> i < self.regions().len(),
            step matches Step::UpdateData(i) ==> i < self.measured().len(),
            fits(self.measured()),
        ensures
            self.is_command(step, c),
    {
        match step {
            Step::Init => Command::Init { encrypted_state: self.sev_es },
            Step::Region(i) => Command::RegisterRegion {
                host_addr: self.regions[i].host_addr,
                size: self.regions[i].size,
            },
            Step::LaunchStart => Command::LaunchStart {
                start: Start {
                    policy: self.start.policy,
                    cert: copy_bytes(&self.start.cert),
                    session: copy_bytes(&self.start.session),
                },
            },
            Step::UpdateData(i) => {
                Command::LaunchUpdateData {
                    host_addr: self.measured[i].host_addr,
                    len: self.measured[i].size as u32,
                }
            },
            Step::UpdateVmsa => Command::LaunchUpdateVmsa,
            Step::Measure => Command::LaunchMeasure,
            _ => Command::LaunchFinish,
        }
    }

    /// Begins the preparation: platform initialisation, then the registration
    /// of every region of `regions` as encrypted, then the start of the launch
    /// with the negotiated session. Only a launch on which nothing has been
    /// done yet can be prepared.
    pub fn vm_prepare(&mut self, regions: Vec<GuestRegion>) -> (action: Action)
        requires
            old(self).wf(),
        ensures
            final(self).wf(),
            final(self).same_session(old(self)),
            final(self).agent() == old(self).agent(),
            final(self).measured() == old(self).measured(),
            if old(self).state() is Created && old(self).stage() is Idle && regions.len()
                <= usize::MAX - 8 {
                &&& action matches Action::Issue(c) && final(self).is_command(Step::Init, c)
                &&& final(self).stage() is Preparing
                &&& final(self).state() is Created
                &&& final(self).regions() == regions@
                &&& final(self).issued() == seq![Step::Init]
            } else {
                action is Rejected && final(self).same_progress(old(self))
            },
    {
        if !matches!(self.state, LaunchState::Created) || !matches!(self.stage, Stage::Idle)
            || regions.len() > usize::MAX - 8 {
            return Action::Rejected;
        }
        self.regions = regions;
        self.stage = Stage::Preparing;
        self.cursor = 0;
        proof {
            self.issued@ = seq![Step::Init];
            lemma_attest_len(self.regions@.len(), self.sev_es, self.attested());
            lemma_launch_start(self.regions@.len(), 0, self.sev_es, self.attested());
            assert(self.plan().take(1) =~= seq![Step::Init]);
        }
        Action::Issue(self.command_for(Step::Init))
    }

    /// `req` sends the measurement, written as the text `measurement`, to the
    /// key broker as evidence.
    pub open spec fn is_attest_request(&self, measurement: Seq<char>, req: HttpRequest) -> bool {
        &&& self.session() is Some
        &&& req.method == Method::Post
        &&& req.url@ == attest_url(self.tee_config().attestation_url@)
        &&& req.body@ == encode_utf8(evidence_text(self.session()->0, measurement))
        &&& has_headers(req, post_headers(self.agent().session()))
    }

    /// `req` asks the key broker for the workload's secret.
    pub open spec fn is_key_request(&self, req: HttpRequest) -> bool {
        &&& req.method == Method::Get
        &&& req.url@ == key_url(
            self.tee_config().attestation_url@,
            self.tee_config().workload_id@,
        )
        &&& req.headers@.len() == 0
        &&& req.body@.len() == 0
    }

    /// The request that sends a measurement, written as the text
    /// `measurement`, to the key broker as evidence. The session identifier is
    /// its nonce, so the launch has one.
    pub fn evidence_request(&self, measurement: &str) -> (req: HttpRequest)
        requires
            self.session() is Some,
        ensures
            self.is_attest_request(measurement@, req),
    {
        let nonce = match &self.session_id {
            Some(id) => id.as_str(),
            None => "",
        };
        let mut members: Vec<(String, String)> = Vec::new();
        members.push(member("nonce", nonce));
        members.push(member("tee", "sev"));
        members.push(member("tee_evidence", measurement));
        let mut key: Vec<(String, String)> = Vec::new();
        key.push(member("algorithm", ""));
        key.push(member("pubkey_length", ""));
        key.push(member("pubkey", ""));
        let body = encode_nested_object(&members, "tee_pubkey", &key);
        proof {
            assert(members@.map_values(|m: (String, String)| (m.0@, m.1@)) =~= seq![
                ("nonce"@, nonce@),
                ("tee"@, "sev"@),
                ("tee_evidence"@, measurement@),
            ]);
            assert(key@.map_values(|m: (String, String)| (m.0@, m.1@)) =~= seq![
                ("algorithm"@, ""@),
                ("pubkey_length"@, ""@),
                ("pubkey"@, ""@),
            ]);
        }
        let url = join(self.tee_config.attestation_url.as_str(), "/kbs/v0/attest");
        self.curl_agent.post(url.as_str(), body.as_str().as_bytes())
    }

    fn key_request(&self) -> (req: HttpRequest)
        ensures
            self.is_key_request(req),
    {
        let url = join3(
            self.tee_config.attestation_url.as_str(),
            "/kbs/v0/key/",
            self.tee_config.workload_id.as_str(),
        );
        self.curl_agent.get(url.as_str())
    }

    /// The part of the launch under way has no step left to take.
    pub open spec fn part_ends(&self) -> bool {
        ||| self.stage() is Preparing && self.issued().len() == self.regions().len() + 2
        ||| self.stage() is Attesting && self.issued().len() == self.plan().len()
    }

    /// The step that follows the one under way.
    pub open spec fn next_step(&self) -> Step {
        self.plan()[self.issued().len() as int]
    }

    /// The call was refused and has changed nothing.
    pub open spec fn rejected(&self, before: &Self, action: Action) -> bool {
        action is Rejected && self.same_progress(before)
    }

    /// The launch was abandoned: it has failed, and no step was added.
    pub open spec fn abandoned(&self, before: &Self) -> bool {
        &&& self.state() is Failed
        &&& self.stage() is Idle
        &&& self.issued() == before.issued()
    }

    /// The step under way has completed: the part of the launch has ended, or
    /// the caller has been told the next step.
    pub open spec fn advanced(&self, before: &Self) -> bool {
        &&& before.pending() matches Some(step) && self.state() == state_after(step)
        &&& if before.part_ends() {
            self.stage() is Idle && self.issued() == before.issued()
        } else {
            self.stage() == before.stage() && self.issued() == before.issued().push(
                before.next_step(),
            )
        }
    }

    /// Notes that the step under way has completed, and finds the next.
    fn advance(&mut self) -> (next: Option<Step>)
        requires
            old(self).wf(),
            !(old(self).stage() is Idle),
        ensures
            final(self).wf(),
            final(self).same_session(old(self)),
            final(self).agent() == old(self).agent(),
            final(self).regions() == old(self).regions(),
            final(self).measured() == old(self).measured(),
            final(self).advanced(old(self)),
            next is None <==> old(self).part_ends(),
            next matches Some(step) ==> {
                &&& step == old(self).next_step()
                &&& may_follow(old(self).issued().last(), step, old(self).attested())
                &&& step matches Step::Region(i) ==> i < final(self).regions().len()
                &&& step matches Step::UpdateData(i) ==> i < final(self).measured().len()
            },
    {
        let n = self.regions.len();
        let m = self.measured.len();
        let attested = !self.tee_config.attestation_url.as_str().is_empty();
        let ghost before = *self;
        let ghost first = prepare_plan(n as nat);
        let ghost second = attest_plan(m as nat, self.sev_es, attested);
        proof {
            lemma_attest_len(m as nat, self.sev_es, attested);
            lemma_attest_len(n as nat, self.sev_es, attested);
            assert(self.plan() == first + second);
            assert(self.issued@.last() == self.plan()[self.issued@.len() - 1]);
        }
        let (done, next) = match self.stage {
            Stage::Preparing => {
                let done = prepare_step(n, self.cursor);
                let next = if self.cursor + 1 == n + 2 {
                    None
                } else {
                    proof {
                        lemma_prepare_order(n as nat, self.cursor as int);
                    }
                    Some(prepare_step(n, self.cursor + 1))
                };
                (done, next)
            },
            _ => {
                let done = attest_step(m, self.sev_es, attested, self.cursor);
                let all = m as u64 + (if self.sev_es {
                    1u64
                } else {
                    0u64
                }) + 1 + (if attested {
                    4u64
                } else {
                    1u64
                });
                let next = if self.cursor as u64 + 1 == all {
                    None
                } else {
                    proof {
                        lemma_attest_order(m as nat, self.sev_es, attested, self.cursor as int);
                    }
                    Some(attest_step(m, self.sev_es, attested, self.cursor + 1))
                };
                (done, next)
            },
        };
        assert(done == self.issued@.last());
        self.state = match done {
            Step::Init | Step::Region(_) => LaunchState::Initialized,
            Step::LaunchStart => LaunchState::Started,
            Step::UpdateData(_) => LaunchState::DataLoaded,
            Step::UpdateVmsa => LaunchState::VmsaUpdated,
            Step::Measure | Step::Attest | Step::FetchKey => LaunchState::Measured,
            Step::InjectSecret => LaunchState::SecretInjected,
            Step::Finish => LaunchState::Finished,
        };
        match next {
            Some(step) => {
                self.cursor = self.cursor + 1;
                proof {
                    let k = self.issued@.len() as int;
                    assert(step == self.plan()[k]);
                    self.issued@ = self.issued@.push(step);
                    assert(self.issued@ =~= self.plan().take(k + 1));
                    assert(self.issued@.drop_last() =~= before.issued@);
                }
            },
            None => {
                self.stage = Stage::Idle;
            },
        }
        next
    }

    /// Ends the launch in failure.
    fn abandon(&mut self, e: Error) -> (action: Action)
        requires
            old(self).wf(),
        ensures
            final(self).wf(),
            final(self).same_session(old(self)),
            final(self).agent() == old(self).agent(),
            final(self).regions() == old(self).regions(),
            final(self).measured() == old(self).measured(),
            final(self).abandoned(old(self)),
            action == Action::Failed(e),
    {
        self.state = LaunchState::Failed;
        self.stage = Stage::Idle;
        Action::Failed(e)
    }

    /// Begins the attestation: the encryption of every region of
    /// `measured_regions`, then of the register state if it is to be
    /// encrypted, then the measurement; for an attested launch the exchange of
    /// the measurement for a secret and the injection of the secret; then the
    /// end of the launch. Only a launch whose preparation is complete can be
    /// attested, and only with regions whose length the command has room for:
    /// a region of more than 32 bits in size would be measured in part.
    pub fn vm_attest(&mut self, measured_regions: Vec<MeasuredRegion>) -> (action: Action)
        requires
            old(self).wf(),
        ensures
            final(self).wf(),
            final(self).same_session(old(self)),
            final(self).agent() == old(self).agent(),
            final(self).regions() == old(self).regions(),
            if old(self).state() is Started && old(self).stage() is Idle && old(
                self,
            ).regions().len() + measured_regions.len() + 8 <= usize::MAX && fits(
                measured_regions@,
            ) {
                &&& final(self).measured() == measured_regions@
                &&& final(self).stage() is Attesting
                &&& final(self).state() is Started
                &&& final(self).issued() == old(self).issued().push(final(self).plan()[old(
                    self,
                ).issued().len() as int])
                &&& action matches Action::Issue(c) && final(self).is_command(
                    final(self).issued().last(),
                    c,
                )
            } else {
                action is Rejected && final(self).same_progress(old(self))
            },
    {
        let n = self.regions.len();
        let m = measured_regions.len();
        if !matches!(self.state, LaunchState::Started) || !matches!(self.stage, Stage::Idle) || m
            > usize::MAX - 8 || n > usize::MAX - 8 - m || !all_fit(&measured_regions) {
            return Action::Rejected;
        }
        let attested = !self.tee_config.attestation_url.as_str().is_empty();
        proof {
            lemma_attest_len(m as nat, self.sev_es, attested);
            lemma_attest_len(n as nat, self.sev_es, attested);
            lemma_attest_len(self.measured@.len(), self.sev_es, attested);
            lemma_launch_start(n as nat, self.measured@.len(), self.sev_es, attested);
            let k = self.issued@.len() - 1;
            assert(self.issued@.last() == self.plan()[k]);
            if k >= n + 2 {
                assert(self.plan()[k] == attest_plan(
                    self.measured@.len(),
                    self.sev_es,
                    attested,
                )[k - (n + 2)]);
            } else {
                assert(self.plan()[k] == prepare_plan(n as nat)[k]);
            }
            assert(self.issued@.len() == n + 2);
        }
        let ghost before = *self;
        self.measured = measured_regions;
        self.stage = Stage::Attesting;
        self.cursor = 0;
        let step = attest_step(m, self.sev_es, attested, 0);
        proof {
            assert(before.issued@ =~= prepare_plan(n as nat));
            self.issued@ = self.issued@.push(step);
            assert(self.issued@ =~= self.plan().take(self.issued@.len() as int));
            assert(self.issued@.drop_last() =~= before.issued@);
        }
        Action::Issue(self.command_for(step))
    }

    /// `c` injects the secret that the key broker's answer `doc` holds.
    pub open spec fn is_secret_command(doc: Seq<u8>, c: Command) -> bool {
        &&& secret_of(doc) matches Ok(held)
        &&& c matches Command::LaunchSecret { secret, guest_addr }
        &&& guest_addr == SECRET_GUEST_ADDR
        &&& held == (secret.flags, secret.iv@, secret.mac@, secret.ciphertext@)
    }

    /// What the caller is told once the step under way has completed with
    /// `event`: that the part of the launch is complete, or the next step.
    pub open spec fn told(&self, before: &Self, event: Event, action: Action) -> bool {
        if before.part_ends() {
            action is Done
        } else {
            match before.next_step() {
                Step::Attest => event matches Event::Measured(m) && action matches Action::Send(
                    req,
                ) && self.is_attest_request(measurement_text(m.measure@, m.mnonce@), req),
                Step::FetchKey => action matches Action::Send(req) && self.is_key_request(req),
                Step::InjectSecret => event matches Event::Response(rsp)
                    && action matches Action::Issue(c) && Self::is_secret_command(rsp.body@, c),
                step => action matches Action::Issue(c) && self.is_command(step, c),
            }
        }
    }

    /// Takes the caller's report on the step under way and says what to do
    /// next.
    ///
    /// A failed command or request ends the launch with the error that names
    /// the step, and so does an answer of the key broker with an error
    /// status. A success moves the launch on by one step. The key broker's
    /// answer to the evidence may name the session anew; its answer to the
    /// request for the secret must hold a secret, or the launch ends. A report
    /// that does not fit the step under way is refused.
    pub fn step(&mut self, event: Event) -> (action: Action)
        requires
            old(self).wf(),
        ensures
            final(self).wf(),
            final(self).same_session(old(self)),
            final(self).regions() == old(self).regions(),
            final(self).measured() == old(self).measured(),
            old(self).pending() is None ==> final(self).rejected(old(self), action),
            old(self).pending() matches Some(step) ==> match event {
                Event::CommandFailed(errno) => match command_failure(step, errno) {
                    Some(e) => action == Action::Failed(e) && final(self).abandoned(old(self))
                        && final(self).agent() == old(self).agent(),
                    None => final(self).rejected(old(self), action),
                },
                Event::TransportFailed(code) => if step is Attest || step is FetchKey {
                    &&& action == Action::Failed(Error::AttestationRequest(code))
                    &&& final(self).abandoned(old(self))
                    &&& final(self).agent() == old(self).agent()
                } else {
                    final(self).rejected(old(self), action)
                },
                Event::Completed => if step is Measure || step is Attest || step is FetchKey {
                    final(self).rejected(old(self), action)
                } else {
                    &&& final(self).advanced(old(self))
                    &&& final(self).told(old(self), event, action)
                    &&& final(self).agent() == old(self).agent()
                },
                Event::Measured(_) => if step is Measure {
                    &&& final(self).advanced(old(self))
                    &&& final(self).told(old(self), event, action)
                    &&& final(self).agent() == old(self).agent()
                } else {
                    final(self).rejected(old(self), action)
                },
                Event::Response(rsp) => if (step is Attest || step is FetchKey)
                    && rsp.spec_refused() {
                    &&& action == Action::Failed(Error::AttestationRequest(HTTP_RETURNED_ERROR))
                    &&& final(self).abandoned(old(self))
                    &&& final(self).agent() == old(self).agent()
                } else if step is Attest {
                    &&& final(self).advanced(old(self))
                    &&& final(self).told(old(self), event, action)
                    &&& final(self).agent().session() == crate::agent::observe(
                        old(self).agent().session(),
                        rsp.headers@,
                    )
                } else if step is FetchKey {
                    &&& final(self).agent() == old(self).agent()
                    &&& match secret_of(rsp.body@) {
                        Ok(_) => final(self).advanced(old(self)) && final(self).told(
                            old(self),
                            event,
                            action,
                        ),
                        Err(message) => final(self).abandoned(old(self)) && (
                        action matches Action::Failed(Error::ParseAttestationSecret(said))
                            && said@ == message),
                    }
                } else {
                    final(self).rejected(old(self), action)
                },
            },
    {
        let step = match self.stage {
            Stage::Idle => {
                return Action::Rejected;
            },
            Stage::Preparing => prepare_step(self.regions.len(), self.cursor),
            Stage::Attesting => {
                let attested = !self.tee_config.attestation_url.as_str().is_empty();
                attest_step(self.measured.len(), self.sev_es, attested, self.cursor)
            },
        };
        proof {
            lemma_attest_len(
                self.regions@.len(),
                self.sev_es,
                self.attested(),
            );
            lemma_attest_len(
                self.measured@.len(),
                self.sev_es,
                self.attested(),
            );
            assert(self.pending() == Some(step));
        }
        match event {
            Event::CommandFailed(errno) => match failure_of(step, errno) {
                Some(e) => self.abandon(e),
                None => Action::Rejected,
            },
            Event::TransportFailed(code) => match step {
                Step::Attest | Step::FetchKey => self.abandon(Error::AttestationRequest(code)),
                _ => Action::Rejected,
            },
            Event::Completed => match step {
                Step::Measure | Step::Attest | Step::FetchKey => Action::Rejected,
                _ => match self.advance() {
                    Some(next) => Action::Issue(self.command_for(next)),
                    None => Action::Done,
                },
            },
            Event::Measured(m) => match step {
                Step::Measure => match self.advance() {
                    Some(Step::Attest) => {
                        let measurement = encode_measurement(&m);
                        Action::Send(self.evidence_request(measurement.as_str()))
                    },
                    Some(next) => Action::Issue(self.command_for(next)),
                    None => Action::Done,
                },
                _ => Action::Rejected,
            },
            Event::Response(rsp) => match step {
                Step::Attest if rsp.refused() => self.abandon(
                    Error::AttestationRequest(HTTP_RETURNED_ERROR),
                ),
                Step::FetchKey if rsp.refused() => self.abandon(
                    Error::AttestationRequest(HTTP_RETURNED_ERROR),
                ),
                Step::Attest => {
                    self.curl_agent.receive(&rsp.headers);
                    match self.advance() {
                        Some(_) => Action::Send(self.key_request()),
                        None => Action::Done,
                    }
                },
                Step::FetchKey => match decode_secret(rsp.body.as_slice()) {
                    Ok(secret) => match self.advance() {
                        Some(_) => Action::Issue(Command::inject(secret)),
                        None => Action::Done,
                    },
                    Err(message) => self.abandon(Error::ParseAttestationSecret(message)),
                },
                _ => Action::Rejected,
            },
        }
    }
}

/// The steps that a launch has taken are the beginning of its plan: nothing
/// is left out, repeated or taken out of order.
pub proof fn law_steps_follow_plan(sev: AmdSev)
    requires
        sev.wf(),
    ensures
        sev.issued().len() <= sev.plan().len(),
        sev.issued() == sev.plan().take(sev.issued().len() as int),
        sev.plan() == launch_plan(
            sev.regions().len(),
            sev.measured().len(),
            sev.encrypted_state(),
            sev.attested(),
        ),
{
}

/// A launch never takes a step more often than its plan holds it: it
/// initialises, starts, measures and finishes at most once, encrypts the
/// register state at most once and only if that is asked for, and talks to
/// the key broker only if it is attested.
pub proof fn law_never_more_than_planned(sev: AmdSev, step: Step)
    requires
        sev.wf(),
        !(step is Region),
        !(step is UpdateData),
    ensures
        count(sev.issued(), step) <= times(step, sev.encrypted_state(), sev.attested()),
{
    let n = sev.regions().len();
    let m = sev.measured().len();
    lemma_launch_counts(n, m, sev.encrypted_state(), sev.attested());
    lemma_count_take(sev.plan(), sev.issued().len() as int, step);
}

/// Whatever follows the preparation comes after the start of the launch: no
/// memory is encrypted, nothing measured or injected, and the launch is not
/// finished, before every region is registered and the launch has started.
pub proof fn law_start_comes_first(sev: AmdSev, at: int)
    requires
        sev.wf(),
        0 <= at < sev.issued().len(),
        !prepares(sev.issued()[at]),
    ensures
        at >= sev.regions().len() + 2,
        sev.issued()[sev.regions().len() as int + 1] == Step::LaunchStart,
        forall|i: int|
            1 <= i <= sev.regions().len() ==> #[trigger] sev.issued()[i] == Step::Region(
                (i - 1) as usize,
            ),
{
    let n = sev.regions().len();
    let m = sev.measured().len();
    lemma_attest_len(n, sev.encrypted_state(), sev.attested());
    lemma_attest_len(m, sev.encrypted_state(), sev.attested());
    lemma_places(n, m, sev.encrypted_state(), sev.attested());
    lemma_launch_start(n, m, sev.encrypted_state(), sev.attested());
    assert(sev.issued()[at] == sev.plan()[at]);
    if at < n + 2 {
        assert(sev.plan()[at] == prepare_plan(n)[at]);
    }
    assert(sev.issued()[n as int + 1] == prepare_plan(n)[n as int + 1]);
    assert forall|i: int| 1 <= i <= n implies #[trigger] sev.issued()[i] == Step::Region(
        (i - 1) as usize,
    ) by {
        reveal(prepare_plan);
        assert(sev.issued()[i] == prepare_plan(n)[i]);
    }
}

/// A launch whose preparation is complete has taken the steps of the
/// preparation and no other.
pub proof fn law_started_is_prepared(sev: AmdSev)
    requires
        sev.wf(),
        sev.state() is Started,
    ensures
        sev.issued().len() >= sev.regions().len() + 2,
        sev.issued().take(sev.regions().len() as int + 2) == prepare_plan(sev.regions().len()),
        sev.stage() is Idle ==> sev.issued() == prepare_plan(sev.regions().len()),
{
    let n = sev.regions().len();
    let m = sev.measured().len();
    lemma_attest_len(n, sev.encrypted_state(), sev.attested());
    lemma_attest_len(m, sev.encrypted_state(), sev.attested());
    lemma_places(n, m, sev.encrypted_state(), sev.attested());
    lemma_launch_start(n, m, sev.encrypted_state(), sev.attested());
    let done = sev.completed();
    let k = done.len() - 1;
    assert(done.last() == sev.plan()[k]);
    if k < n + 2 {
        assert(sev.plan()[k] == prepare_plan(n)[k]);
    } else {
        assert(sev.plan()[k] == attest_plan(m, sev.encrypted_state(), sev.attested())[k - (n + 2)]);
    }
    assert(sev.issued().take(n as int + 2) =~= prepare_plan(n));
    if sev.stage() is Idle {
        assert(sev.issued() =~= prepare_plan(n));
    }
}

/// A finished launch has taken every step of its plan: it has measured once
/// and finished once, at its very end, and has encrypted the register state
/// if and only if that was asked for.
pub proof fn law_finished_is_complete(sev: AmdSev)
    requires
        sev.wf(),
        sev.state() is Finished,
    ensures
        sev.stage() is Idle,
        sev.issued() == sev.plan(),
        sev.issued().last() == Step::Finish,
        count(sev.issued(), Step::Measure) == 1,
        count(sev.issued(), Step::Finish) == 1,
        count(sev.issued(), Step::UpdateVmsa) == 1 <==> sev.encrypted_state(),
        count(sev.issued(), Step::UpdateVmsa) == 0 <==> !sev.encrypted_state(),
{
    let n = sev.regions().len();
    let m = sev.measured().len();
    lemma_attest_len(n, sev.encrypted_state(), sev.attested());
    lemma_attest_len(m, sev.encrypted_state(), sev.attested());
    lemma_places(n, m, sev.encrypted_state(), sev.attested());
    lemma_launch_counts(n, m, sev.encrypted_state(), sev.attested());
    let done = sev.completed();
    let k = done.len() - 1;
    assert(done.last() == sev.plan()[k]);
    if k < n + 2 {
        assert(sev.plan()[k] == prepare_plan(n)[k]);
    } else {
        assert(sev.plan()[k] == attest_plan(m, sev.encrypted_state(), sev.attested())[k - (n + 2)]);
    }
    assert(sev.issued() =~= sev.plan());
}

/// The steps of a launch come in order: initialisation, registration of
/// memory, start, encryption of memory, encryption of register state,
/// measurement, evidence, secret, injection, finish. So the secret, if there
/// is one, is injected after the measurement and before the finish, and
/// nothing follows the finish.
pub proof fn law_steps_are_ordered(sev: AmdSev, i: int, j: int)
    requires
        sev.wf(),
        0 <= i < j < sev.issued().len(),
    ensures
        rank(sev.issued()[i]) <= rank(sev.issued()[j]),
        rank(sev.issued()[i]) == rank(sev.issued()[j]) ==> sev.issued()[i] is Region
            || sev.issued()[i] is UpdateData,
        !(sev.issued()[i] is Finish),
{
    lemma_plan_is_ordered(
        sev.regions().len(),
        sev.measured().len(),
        sev.encrypted_state(),
        sev.attested(),
        i,
        j,
    );
    assert(sev.issued()[i] == sev.plan()[i]);
    assert(sev.issued()[j] == sev.plan()[j]);
}

/// While a part of the launch is under way, there is a step under way: the
/// last of the steps taken.
pub proof fn law_part_under_way_has_step(sev: AmdSev)
    requires
        sev.wf(),
        !(sev.stage() is Idle),
    ensures
        sev.issued().len() > 0,
        sev.pending() == Some(sev.issued()[sev.issued().len() - 1]),
{
}

} // verus!
