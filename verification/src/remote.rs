//! Talking to a remote: the progress reports that go to the host, and the
//! adapters that deliver them.

use crate::bridge::BridgeError;
use vstd::prelude::*;
use vstd::string::StringExecFns;

verus! {

/// The low 32 bits of a counter of the engine.
pub open spec fn low32(count: usize) -> u32 {
    (count as int % 0x1_0000_0000) as u32
}

/// A counter of the engine as the host sees it. The host's numbers have 32
/// bits; a larger count wraps round.
pub fn host_count(count: usize) -> (n: u32)
    ensures
        n == low32(count),
        count <= u32::MAX ==> n == count,
{
    let n = #[verifier::truncate]
    (count as u32);
    assert(n == (count as int % 0x1_0000_0000) as u32) by (bit_vector)
        requires
            n == count as u32,
    ;
    n
}

/// The counters of a transfer, as the engine reports them.
#[derive(Clone, Copy, Debug, PartialEq, Eq)]
pub struct RawProgress {
    pub total_objects: usize,
    pub indexed_objects: usize,
    pub received_objects: usize,
    pub local_objects: usize,
    pub total_deltas: usize,
    pub indexed_deltas: usize,
    pub received_bytes: usize,
}

/// The counters of a transfer, as the host is told them.
#[derive(Clone, Copy, Debug, PartialEq, Eq)]
pub struct Progress {
    pub total_objects: u32,
    pub indexed_objects: u32,
    pub received_objects: u32,
    pub local_objects: u32,
    pub total_deltas: u32,
    pub indexed_deltas: u32,
    pub received_bytes: u32,
}

impl RawProgress {
    /// The report that the host gets for these counters.
    pub open spec fn report(self) -> Progress {
        Progress {
            total_objects: low32(self.total_objects),
            indexed_objects: low32(self.indexed_objects),
            received_objects: low32(self.received_objects),
            local_objects: low32(self.local_objects),
            total_deltas: low32(self.total_deltas),
            indexed_deltas: low32(self.indexed_deltas),
            received_bytes: low32(self.received_bytes),
        }
    }
}

impl Progress {
    /// Packs the engine's counters for the host.
    pub fn from_raw(raw: RawProgress) -> (progress: Progress)
        ensures
            progress == raw.report(),
    {
        Progress {
            total_objects: host_count(raw.total_objects),
            indexed_objects: host_count(raw.indexed_objects),
            received_objects: host_count(raw.received_objects),
            local_objects: host_count(raw.local_objects),
            total_deltas: host_count(raw.total_deltas),
            indexed_deltas: host_count(raw.indexed_deltas),
            received_bytes: host_count(raw.received_bytes),
        }
    }
}

/// The state of a push, as the host is told it.
#[derive(Clone, Copy, Debug, PartialEq, Eq)]
pub struct PushProgress {
    pub current: u32,
    pub total: u32,
    pub bytes: u32,
}

impl PushProgress {
    /// Packs the engine's counters for the host.
    pub fn from_raw(current: usize, total: usize, bytes: usize) -> (progress: PushProgress)
        ensures
            progress == (PushProgress {
                current: low32(current),
                total: low32(total),
                bytes: low32(bytes),
            }),
    {
        PushProgress {
            current: host_count(current),
            total: host_count(total),
            bytes: host_count(bytes),
        }
    }
}

/// Whether a transfer goes on after a progress report that the bridge
/// answered with `answer`.
pub open spec fn transfer_continues(answer: Result<(), BridgeError>) -> bool {
    answer is Ok
}

/// Turns the bridge's answer into the engine's boolean: the transfer goes on
/// where the report was delivered and stops where it was not.
pub fn progress_sentinel(answer: Result<(), BridgeError>) -> (go_on: bool)
    ensures
        go_on == transfer_continues(answer),
{
    match answer {
        Ok(_) => true,
        Err(_) => false,
    }
}

/// The adapter that sits in the engine's transfer-progress slot. `invoke` is
/// one synchronous invocation of the script function.
pub fn on_transfer_progress<F>(invoke: F, raw: RawProgress) -> (go_on: bool) where
    F: Fn(Progress) -> Result<(), BridgeError>,

    requires
        forall|report: Progress| call_requires(invoke, (report,)),
    ensures
        exists|answer: Result<(), BridgeError>|
            call_ensures(invoke, (raw.report(),), answer) && go_on == transfer_continues(answer),
{
    let answer = invoke(Progress::from_raw(raw));
    progress_sentinel(answer)
}

/// The adapter that sits in the engine's push-progress slot. The engine asks
/// for no answer, so a report that could not be delivered is dropped; the
/// result says whether it was delivered.
pub fn on_push_transfer_progress<F>(invoke: F, current: usize, total: usize, bytes: usize) -> (delivered: bool) where
    F: Fn(PushProgress) -> Result<(), BridgeError>,

    requires
        forall|report: PushProgress| call_requires(invoke, (report,)),
    ensures
        exists|answer: Result<(), BridgeError>|
            call_ensures(
                invoke,
                (PushProgress { current: low32(current), total: low32(total), bytes: low32(bytes) },),
                answer,
            ) && delivered == (answer is Ok),
{
    let answer = invoke(PushProgress::from_raw(current, total, bytes));
    match answer {
        Ok(_) => true,
        Err(_) => false,
    }
}

/// Whether the counters of `later` are none below those of `earlier`, as
/// they are for two reports of one transfer taken in order.
pub open spec fn not_behind(earlier: RawProgress, later: RawProgress) -> bool {
    &&& earlier.indexed_objects <= later.indexed_objects
    &&& earlier.received_objects <= later.received_objects
    &&& earlier.local_objects <= later.local_objects
    &&& earlier.indexed_deltas <= later.indexed_deltas
    &&& earlier.received_bytes <= later.received_bytes
}

/// Packing keeps the order of the byte counts as long as they fit the host's
/// numbers: of two reports of one transfer, the host never sees the later one
/// with fewer bytes.
pub proof fn lemma_reports_keep_order(earlier: RawProgress, later: RawProgress)
    requires
        not_behind(earlier, later),
        later.received_bytes <= u32::MAX,
    ensures
        earlier.report().received_bytes <= later.report().received_bytes,
        later.report().received_bytes == later.received_bytes,
{
}

/// The kinds of credential.
#[derive(Clone, Copy, Debug, PartialEq, Eq)]
pub enum CredentialType {
    /// Create a "default" credential usable for Negotiate mechanisms like NTLM or
    /// Kerberos authentication.
    Default,
    /// Create a new ssh key credential object used for querying an ssh-agent.
    ///
    /// The username specified is the username to authenticate.
    SSHKeyFromAgent,
    /// Create a new passphrase-protected ssh key credential object.
    SSHKeyFromPath,
    /// Create a new ssh key credential object reading the keys from memory.
    SSHKey,
    /// Create a new plain-text username and password credential object.
    Plain,
}

/// What a credential is made of. Which fields count depends on the kind.
#[derive(Clone, Debug, PartialEq, Eq)]
pub struct Credential {
    pub kind: CredentialType,
    pub username: Option<String>,
    pub public_key_path: Option<String>,
    pub public_key: Option<String>,
    pub private_key_path: Option<String>,
    pub private_key: Option<String>,
    pub passphrase: Option<String>,
    pub password: Option<String>,
}

impl Credential {
    /// Whether the credential holds what its kind cannot do without: the
    /// path of the private key, the private key, or the password.
    pub open spec fn complete(&self) -> bool {
        match self.kind {
            CredentialType::Default => true,
            CredentialType::SSHKeyFromAgent => true,
            CredentialType::SSHKeyFromPath => self.private_key_path is Some,
            CredentialType::SSHKey => self.private_key is Some,
            CredentialType::Plain => self.password is Some,
        }
    }

    /// The name that the credential authenticates: the one given, else the
    /// name that hosts of repositories go by.
    pub open spec fn user_name(&self) -> Seq<char> {
        match self.username {
            Some(name) => name@,
            None => "git"@,
        }
    }

    /// Whether the credential can be handed to the engine.
    pub fn is_complete(&self) -> (complete: bool)
        ensures
            complete == self.complete(),
    {
        match self.kind {
            CredentialType::Default => true,
            CredentialType::SSHKeyFromAgent => true,
            CredentialType::SSHKeyFromPath => self.private_key_path.is_some(),
            CredentialType::SSHKey => self.private_key.is_some(),
            CredentialType::Plain => self.password.is_some(),
        }
    }

    /// The name to authenticate.
    pub fn user(&self) -> (name: String)
        ensures
            name@ == self.user_name(),
    {
        match &self.username {
            Some(name) => name.clone(),
            None => String::from_str("git"),
        }
    }
}

/// Options of the proxy that a transfer goes through.
#[derive(Clone, Debug, Default, PartialEq, Eq)]
pub struct ProxyOptions {
    /// Try to auto-detect the proxy from the git configuration.
    ///
    /// Note that this will override `url` specified before.
    pub auto: Option<bool>,
    /// Specify the exact URL of the proxy to use.
    ///
    /// Note that this will override `auto` specified before.
    pub url: Option<String>,
}

/// How the proxy of a transfer is found.
#[derive(Clone, Debug, PartialEq, Eq)]
pub enum ProxyChoice {
    /// Nothing was asked for: the engine's default stands.
    Unset,
    /// The proxy is looked up in the configuration.
    Auto,
    /// The proxy is the one at this URL.
    Url(String),
}

impl ProxyOptions {
    /// The choice that `self` asks for. A URL overrides the automatic
    /// lookup; only an explicit `true` asks for the lookup.
    pub open spec fn choice_of(self) -> ProxyChoice {
        match self.url {
            Some(url) => ProxyChoice::Url(url),
            None => if self.auto == Some(true) {
                ProxyChoice::Auto
            } else {
                ProxyChoice::Unset
            },
        }
    }

    /// The way the proxy is found.
    pub fn choice(self) -> (choice: ProxyChoice)
        ensures
            choice == self.choice_of(),
    {
        let mut choice = ProxyChoice::Unset;
        if let Some(true) = self.auto {
            choice = ProxyChoice::Auto;
        }
        if let Some(url) = self.url {
            choice = ProxyChoice::Url(url);
        }
        choice
    }
}

/// Configuration for how pruning is done on a fetch
#[derive(Clone, Copy, Debug, PartialEq, Eq)]
pub enum FetchPrune {
    /// Use the setting from the configuration
    Unspecified,
    /// Force pruning on
    On,
    /// Force pruning off
    Off,
}

/// Automatic tag following options.
#[derive(Clone, Copy, Debug, PartialEq, Eq)]
pub enum AutotagOption {
    /// Use the setting from the remote's configuration
    Unspecified,
    /// Ask the server for tags pointing to objects we're already downloading
    Auto,
    /// Don't ask for any tags beyond the refspecs
    NoTags,
    /// Ask for all the tags
    All,
}

/// Remote redirection settings; whether redirects to another host are
/// permitted.
///
/// By default, git will follow a redirect on the initial request
/// (`/info/refs`), but not subsequent requests.
#[derive(Clone, Copy, Debug, PartialEq, Eq)]
pub enum RemoteRedirect {
    /// Do not follow any off-site redirects at any stage of the fetch or push.
    Never,
    /// Allow off-site redirects only upon the initial request. This is the
    /// default.
    Initial,
    /// Allow redirects at any stage in the fetch or push.
    All,
}

} // verus!
