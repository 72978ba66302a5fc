//! An lnrod node: how it is started with its signer, and what its gRPC admin
//! interface is asked.

use vstd::prelude::*;
use crate::codec::{encode_hex, hex_text, public_key_hex, NostrKeys};
use crate::outcome::{bare, during, failing_view, unit_failing_view, Failure};
use crate::process::{spawn_plan, ManagedChild, SpawnPlan};
use crate::text::{cat2, cat3, decimal, decimal_text, join_path, path_in, views};
use crate::util::{provide, recipe_for, Provision};

verus! {

// ---------------------------------------------------------------------------
// Binaries
// ---------------------------------------------------------------------------

/// Where the lnrod binary comes from: `LNROD_BINARY`, or a build of the
/// checkout among the other `projects`. lnrod has a target directory of its own.
pub fn lnrod_binary(named: Option<String>, projects: &str) -> (r: Provision)
    ensures
        match r {
            Provision::Prebuilt(path) => named == Some(path),
            Provision::Build(recipe) => named is None && recipe@ == recipe_for(
                "lnrod"@,
                path_in(projects@, "validating-lightning-signer/lnrod"@),
            ),
        },
{
    let dir = join_path(projects, "validating-lightning-signer/lnrod");
    provide(named, "lnrod", dir.as_str())
}

/// Where the vls-nostr-proxy binary comes from: `VLS_NOSTR_PROXY_BINARY`, or a
/// build of the checkout among the other `projects`.
pub fn nostr_proxy_binary(named: Option<String>, projects: &str) -> (r: Provision)
    ensures
        match r {
            Provision::Prebuilt(path) => named == Some(path),
            Provision::Build(recipe) => named is None && recipe@ == recipe_for(
                "vls-nostr-proxy"@,
                path_in(projects@, "vls-nostr-transport"@),
            ),
        },
{
    let dir = join_path(projects, "vls-nostr-transport");
    provide(named, "vls-nostr-proxy", dir.as_str())
}

// ---------------------------------------------------------------------------
// Waiting for gRPC
// ---------------------------------------------------------------------------

/// A wait until a gRPC endpoint answers a ping.
pub enum GrpcWait<T> {
    /// Connect and ping.
    Attempt,
    /// That failed: has the wait taken too long?
    Clock,
    /// It has not: pause before the next attempt.
    Pause,
    Ended(Result<(), T>),
}

/// What the wait asks for.
pub enum GrpcAsk {
    /// Connect, and make this request.
    Attempt(AdminRequest),
    /// The time since the wait began.
    Elapsed,
    SleepMillis(u64),
    Nothing,
}

/// Whether `ask` is what the wait asks for.
pub open spec fn grpc_asks(wait: GrpcWait<Seq<char>>, ask: GrpcAsk) -> bool {
    match wait {
        GrpcWait::Attempt => ask matches GrpcAsk::Attempt(AdminRequest::Ping { message })
            && message@ == "ready?"@,
        GrpcWait::Clock => ask is Elapsed,
        GrpcWait::Pause => ask == GrpcAsk::SleepMillis(500),
        GrpcWait::Ended(_) => ask is Nothing,
    }
}

/// What a step of the wait takes.
pub enum GrpcEvent {
    /// Whether the connection stood and the ping was answered.
    Attempted(bool),
    /// Nanoseconds since the wait began.
    Elapsed(u128),
    Slept,
}

impl View for GrpcWait<String> {
    type V = GrpcWait<Seq<char>>;

    open spec fn view(&self) -> GrpcWait<Seq<char>> {
        match *self {
            GrpcWait::Attempt => GrpcWait::Attempt,
            GrpcWait::Clock => GrpcWait::Clock,
            GrpcWait::Pause => GrpcWait::Pause,
            GrpcWait::Ended(Ok(())) => GrpcWait::Ended(Ok(())),
            GrpcWait::Ended(Err(e)) => GrpcWait::Ended(Err(e@)),
        }
    }
}

/// What an endpoint that never answered is reported as.
pub open spec fn grpc_timeout(endpoint: Seq<char>) -> Seq<char> {
    "gRPC endpoint "@ + endpoint + " did not become ready in 60s"@
}

impl GrpcWait<Seq<char>> {
    /// The state after `event`. What was not asked for changes nothing.
    pub open spec fn after(self, endpoint: Seq<char>, event: GrpcEvent) -> GrpcWait<Seq<char>> {
        match (self, event) {
            (GrpcWait::Attempt, GrpcEvent::Attempted(answered)) => if answered {
                GrpcWait::Ended(Ok(()))
            } else {
                GrpcWait::Clock
            },
            (GrpcWait::Clock, GrpcEvent::Elapsed(nanos)) => if nanos > 60_000_000_000 {
                GrpcWait::Ended(Err(grpc_timeout(endpoint)))
            } else {
                GrpcWait::Pause
            },
            (GrpcWait::Pause, GrpcEvent::Slept) => GrpcWait::Attempt,
            _ => self,
        }
    }
}

impl GrpcWait<String> {
    /// Retry connecting to lnrod's gRPC endpoint until a Ping succeeds.
    pub fn wait_for_grpc() -> (r: GrpcWait<String>)
        ensures
            r@ == GrpcWait::<Seq<char>>::Attempt,
    {
        GrpcWait::Attempt
    }

    /// What the wait asks for.
    pub fn ask(&self) -> (r: GrpcAsk)
        ensures
            grpc_asks(self@, r),
    {
        match self {
            GrpcWait::Attempt => GrpcAsk::Attempt(readiness_ping()),
            GrpcWait::Clock => GrpcAsk::Elapsed,
            GrpcWait::Pause => GrpcAsk::SleepMillis(500),
            GrpcWait::Ended(_) => GrpcAsk::Nothing,
        }
    }

    /// Takes what happened.
    pub fn step(self, endpoint: &str, event: GrpcEvent) -> (r: GrpcWait<String>)
        ensures
            r@ == self@.after(endpoint@, event),
    {
        match (self, event) {
            (GrpcWait::Attempt, GrpcEvent::Attempted(answered)) => if answered {
                GrpcWait::Ended(Ok(()))
            } else {
                GrpcWait::Clock
            },
            (GrpcWait::Clock, GrpcEvent::Elapsed(nanos)) => if nanos > 60_000_000_000 {
                GrpcWait::Ended(
                    Err(cat3("gRPC endpoint ", endpoint, " did not become ready in 60s")),
                )
            } else {
                GrpcWait::Pause
            },
            (GrpcWait::Pause, GrpcEvent::Slept) => GrpcWait::Attempt,
            (state, _) => state,
        }
    }
}

/// The wait ends well only on an answered ping, and badly only after more than
/// a minute.
pub proof fn grpc_is_ready_only_when_it_answers(
    before: GrpcWait<Seq<char>>,
    endpoint: Seq<char>,
    event: GrpcEvent,
)
    requires
        !(before is Ended),
        before.after(endpoint, event) is Ended,
    ensures
        match before.after(endpoint, event) {
            GrpcWait::Ended(Ok(())) => event == GrpcEvent::Attempted(true),
            GrpcWait::Ended(Err(e)) => e == grpc_timeout(endpoint) && (event matches
                GrpcEvent::Elapsed(nanos) && nanos > 60_000_000_000),
            _ => false,
        },
{
}

// ---------------------------------------------------------------------------
// Starting
// ---------------------------------------------------------------------------

/// What a start is given.
pub struct LnrodSetup {
    pub bitcoind_rpc_url: String,
    pub log_dir: String,
    pub data_dir: String,
    pub relay_url: String,
    pub ln_port: u16,
    pub rpc_port: u16,
    pub vls_port: u16,
    pub proxy: NostrKeys,
    pub signer: NostrKeys,
}

/// What lnrod is given.
pub open spec fn lnrod_args(setup: LnrodSetup) -> Seq<Seq<char>> {
    seq![
        "--regtest"@,
        "--signer"@,
        "vls-grpc"@,
        "--lnport"@,
        decimal(setup.ln_port as nat),
        "--rpcport"@,
        decimal(setup.rpc_port as nat),
        "--vlsport"@,
        decimal(setup.vls_port as nat),
        "--bitcoin"@,
        setup.bitcoind_rpc_url@,
        "--datadir"@,
        setup.data_dir@,
    ]
}

/// What the signer is given.
pub open spec fn lnrod_signer_args(setup: LnrodSetup) -> Seq<Seq<char>> {
    seq![
        "--relay"@,
        setup.relay_url@,
        "--proxy-pubkey"@,
        setup.proxy.public@,
        "--nsec"@,
        hex_text(setup.signer.secret@),
        "--network"@,
        "regtest"@,
        "--integration-test"@,
        "--policy-filter"@,
        "policy-commitment-htlc-routing-balance:warn"@,
        "--policy-filter"@,
        "policy-routing-cltv-delta:warn"@,
    ]
}

/// What the proxy is given.
pub open spec fn proxy_args(setup: LnrodSetup) -> Seq<Seq<char>> {
    seq![
        "--connect"@,
        local_endpoint(setup.vls_port),
        "--relay"@,
        setup.relay_url@,
        "--signer-pubkey"@,
        setup.signer.public@,
        "--nsec"@,
        hex_text(setup.proxy.secret@),
        "--network"@,
        "regtest"@,
    ]
}

/// A gRPC endpoint on this machine.
pub open spec fn local_endpoint(port: u16) -> Seq<char> {
    "http://127.0.0.1:"@ + decimal(port as nat)
}

impl LnrodSetup {
    /// The setup of a node, with fresh keys.
    pub fn prepare(
        bitcoind_rpc_url: &str,
        log_dir: &str,
        data_dir: &str,
        relay_url: &str,
        ports: (u16, u16, u16),
    ) -> (r: LnrodSetup)
        ensures
            r.bitcoind_rpc_url@ == bitcoind_rpc_url@,
            r.log_dir@ == log_dir@,
            r.data_dir@ == data_dir@,
            r.relay_url@ == relay_url@,
            r.ln_port == ports.0,
            r.rpc_port == ports.1,
            r.vls_port == ports.2,
            r.proxy.wf(),
            r.signer.wf(),
    {
        LnrodSetup {
            bitcoind_rpc_url: bitcoind_rpc_url.to_owned(),
            log_dir: log_dir.to_owned(),
            data_dir: data_dir.to_owned(),
            relay_url: relay_url.to_owned(),
            ln_port: ports.0,
            rpc_port: ports.1,
            vls_port: ports.2,
            proxy: NostrKeys::generate(),
            signer: NostrKeys::generate(),
        }
    }

    /// The gRPC endpoint of the admin interface.
    pub fn endpoint(&self) -> (r: String)
        ensures
            r@ == local_endpoint(self.rpc_port),
    {
        let port = decimal_text(self.rpc_port as u128);
        cat2("http://127.0.0.1:", port.as_str())
    }

    /// The node to spawn.
    pub fn lnrod_plan(&self, binary: &str) -> (r: SpawnPlan)
        ensures
            r@ == spawn_plan("lnrod"@, binary@, lnrod_args(*self), self.log_dir@, None),
    {
        let args = vec![
            "--regtest".to_owned(),
            "--signer".to_owned(),
            "vls-grpc".to_owned(),
            "--lnport".to_owned(),
            decimal_text(self.ln_port as u128),
            "--rpcport".to_owned(),
            decimal_text(self.rpc_port as u128),
            "--vlsport".to_owned(),
            decimal_text(self.vls_port as u128),
            "--bitcoin".to_owned(),
            self.bitcoind_rpc_url.clone(),
            "--datadir".to_owned(),
            self.data_dir.clone(),
        ];
        assert(views(args@) =~= lnrod_args(*self));
        ManagedChild::spawn("lnrod", binary, args, self.log_dir.as_str())
    }

    /// The signer to spawn.
    pub fn signer_plan(&self, binary: &str) -> (r: SpawnPlan)
        ensures
            r@ == spawn_plan("eln-signer"@, binary@, lnrod_signer_args(*self), self.log_dir@, None),
    {
        let args = vec![
            "--relay".to_owned(),
            self.relay_url.clone(),
            "--proxy-pubkey".to_owned(),
            self.proxy.public.clone(),
            "--nsec".to_owned(),
            self.signer.secret_hex(),
            "--network".to_owned(),
            "regtest".to_owned(),
            "--integration-test".to_owned(),
            "--policy-filter".to_owned(),
            "policy-commitment-htlc-routing-balance:warn".to_owned(),
            "--policy-filter".to_owned(),
            "policy-routing-cltv-delta:warn".to_owned(),
        ];
        assert(views(args@) =~= lnrod_signer_args(*self));
        ManagedChild::spawn("eln-signer", binary, args, self.log_dir.as_str())
    }

    /// The proxy to spawn.
    pub fn proxy_plan(&self, binary: &str) -> (r: SpawnPlan)
        ensures
            r@ == spawn_plan("vls-nostr-proxy"@, binary@, proxy_args(*self), self.log_dir@, None),
    {
        let port = decimal_text(self.vls_port as u128);
        let args = vec![
            "--connect".to_owned(),
            cat2("http://127.0.0.1:", port.as_str()),
            "--relay".to_owned(),
            self.relay_url.clone(),
            "--signer-pubkey".to_owned(),
            self.signer.public.clone(),
            "--nsec".to_owned(),
            self.proxy.secret_hex(),
            "--network".to_owned(),
            "regtest".to_owned(),
        ];
        assert(views(args@) =~= proxy_args(*self));
        ManagedChild::spawn("vls-nostr-proxy", binary, args, self.log_dir.as_str())
    }
}

/// A binary that a start needs.
#[derive(Clone, Copy, PartialEq, Eq, Structural)]
pub enum LnrodBinary {
    Lnrod,
    Signer,
    Proxy,
}

/// Where the start of an lnrod node stands. `T` is a text and `F` a failure.
///
/// The proxy connects to lnrod's VLS gRPC port and bridges to Nostr; the signer
/// subscribes to Nostr and runs an embedded VLS handler.
pub enum LnrodStage<T, F> {
    /// lnrod blocks waiting for the signer transport to connect, so it comes
    /// first.
    FindLnrod,
    SpawnLnrod { binary: T },
    /// Then the signer, which subscribes and waits for requests.
    FindSigner,
    SpawnSigner { binary: T },
    /// Give the signer time to connect to the relay and subscribe.
    SettleSigner,
    FindProxy,
    SpawnProxy { binary: T },
    /// Once the proxy connects to lnrod and the signer completes init via
    /// Nostr, lnrod starts the admin gRPC server.
    AwaitGrpc,
    Ended(Result<(), F>),
}

/// What a start asks for.
pub enum LnrodAsk {
    Find(LnrodBinary),
    Spawn(SpawnPlan),
    SleepMillis(u64),
    /// Wait until this endpoint answers.
    AwaitGrpc { endpoint: String },
    Nothing,
}

/// What came of it.
pub enum LnrodReply {
    Found(Result<String, Failure>),
    Spawned(Result<(), String>),
    Slept,
    Answered(Result<(), String>),
}

impl View for LnrodStage<String, Failure> {
    type V = LnrodStage<Seq<char>, Seq<Seq<char>>>;

    open spec fn view(&self) -> LnrodStage<Seq<char>, Seq<Seq<char>>> {
        match *self {
            LnrodStage::FindLnrod => LnrodStage::FindLnrod,
            LnrodStage::SpawnLnrod { binary } => LnrodStage::SpawnLnrod { binary: binary@ },
            LnrodStage::FindSigner => LnrodStage::FindSigner,
            LnrodStage::SpawnSigner { binary } => LnrodStage::SpawnSigner { binary: binary@ },
            LnrodStage::SettleSigner => LnrodStage::SettleSigner,
            LnrodStage::FindProxy => LnrodStage::FindProxy,
            LnrodStage::SpawnProxy { binary } => LnrodStage::SpawnProxy { binary: binary@ },
            LnrodStage::AwaitGrpc => LnrodStage::AwaitGrpc,
            LnrodStage::Ended(r) => LnrodStage::Ended(unit_failing_view(r)),
        }
    }
}

/// Whether `ask` is what the start asks for at a stage.
pub open spec fn lnrod_asks(
    stage: LnrodStage<Seq<char>, Seq<Seq<char>>>,
    setup: LnrodSetup,
    ask: LnrodAsk,
) -> bool {
    match (stage, ask) {
        (LnrodStage::FindLnrod, LnrodAsk::Find(which)) => which == LnrodBinary::Lnrod,
        (LnrodStage::SpawnLnrod { binary }, LnrodAsk::Spawn(plan)) => plan@ == spawn_plan(
            "lnrod"@,
            binary,
            lnrod_args(setup),
            setup.log_dir@,
            None,
        ),
        (LnrodStage::FindSigner, LnrodAsk::Find(which)) => which == LnrodBinary::Signer,
        (LnrodStage::SpawnSigner { binary }, LnrodAsk::Spawn(plan)) => plan@ == spawn_plan(
            "eln-signer"@,
            binary,
            lnrod_signer_args(setup),
            setup.log_dir@,
            None,
        ),
        (LnrodStage::SettleSigner, LnrodAsk::SleepMillis(n)) => n == 2000,
        (LnrodStage::FindProxy, LnrodAsk::Find(which)) => which == LnrodBinary::Proxy,
        (LnrodStage::SpawnProxy { binary }, LnrodAsk::Spawn(plan)) => plan@ == spawn_plan(
            "vls-nostr-proxy"@,
            binary,
            proxy_args(setup),
            setup.log_dir@,
            None,
        ),
        (LnrodStage::AwaitGrpc, LnrodAsk::AwaitGrpc { endpoint }) => endpoint@ == local_endpoint(
            setup.rpc_port,
        ),
        (LnrodStage::Ended(_), LnrodAsk::Nothing) => true,
        _ => false,
    }
}

impl LnrodStage<Seq<char>, Seq<Seq<char>>> {
    /// The stage after `reply`. A reply to something else changes nothing.
    pub open spec fn after(self, reply: LnrodReply) -> LnrodStage<Seq<char>, Seq<Seq<char>>> {
        match (self, reply) {
            (LnrodStage::FindLnrod, LnrodReply::Found(r)) => match failing_view(r) {
                Ok(binary) => LnrodStage::SpawnLnrod { binary },
                Err(f) => LnrodStage::Ended(Err(f)),
            },
            (LnrodStage::SpawnLnrod { .. }, LnrodReply::Spawned(r)) => match r {
                Ok(()) => LnrodStage::FindSigner,
                Err(e) => LnrodStage::Ended(Err(bare(e@))),
            },
            (LnrodStage::FindSigner, LnrodReply::Found(r)) => match failing_view(r) {
                Ok(binary) => LnrodStage::SpawnSigner { binary },
                Err(f) => LnrodStage::Ended(Err(f)),
            },
            (LnrodStage::SpawnSigner { .. }, LnrodReply::Spawned(r)) => match r {
                Ok(()) => LnrodStage::SettleSigner,
                Err(e) => LnrodStage::Ended(Err(bare(e@))),
            },
            (LnrodStage::SettleSigner, LnrodReply::Slept) => LnrodStage::FindProxy,
            (LnrodStage::FindProxy, LnrodReply::Found(r)) => match failing_view(r) {
                Ok(binary) => LnrodStage::SpawnProxy { binary },
                Err(f) => LnrodStage::Ended(Err(f)),
            },
            (LnrodStage::SpawnProxy { .. }, LnrodReply::Spawned(r)) => match r {
                Ok(()) => LnrodStage::AwaitGrpc,
                Err(e) => LnrodStage::Ended(Err(bare(e@))),
            },
            (LnrodStage::AwaitGrpc, LnrodReply::Answered(r)) => match r {
                Ok(()) => LnrodStage::Ended(Ok(())),
                Err(e) => LnrodStage::Ended(
                    Err(during("lnrod gRPC did not become ready"@, bare(e@))),
                ),
            },
            _ => self,
        }
    }

    /// How far a start has come.
    pub open spec fn progress(self) -> nat {
        match self {
            LnrodStage::FindLnrod => 0,
            LnrodStage::SpawnLnrod { .. } => 1,
            LnrodStage::FindSigner => 2,
            LnrodStage::SpawnSigner { .. } => 3,
            LnrodStage::SettleSigner => 4,
            LnrodStage::FindProxy => 5,
            LnrodStage::SpawnProxy { .. } => 6,
            LnrodStage::AwaitGrpc => 7,
            LnrodStage::Ended(_) => 8,
        }
    }

    /// The start has failed.
    pub open spec fn failed(self) -> bool {
        self matches LnrodStage::Ended(r) && r is Err
    }
}

impl LnrodStage<String, Failure> {
    /// What the start asks for.
    pub fn ask(&self, setup: &LnrodSetup) -> (r: LnrodAsk)
        ensures
            lnrod_asks(self@, *setup, r),
    {
        match self {
            LnrodStage::FindLnrod => LnrodAsk::Find(LnrodBinary::Lnrod),
            LnrodStage::SpawnLnrod { binary } => LnrodAsk::Spawn(
                setup.lnrod_plan(binary.as_str()),
            ),
            LnrodStage::FindSigner => LnrodAsk::Find(LnrodBinary::Signer),
            LnrodStage::SpawnSigner { binary } => LnrodAsk::Spawn(
                setup.signer_plan(binary.as_str()),
            ),
            LnrodStage::SettleSigner => LnrodAsk::SleepMillis(2000),
            LnrodStage::FindProxy => LnrodAsk::Find(LnrodBinary::Proxy),
            LnrodStage::SpawnProxy { binary } => LnrodAsk::Spawn(
                setup.proxy_plan(binary.as_str()),
            ),
            LnrodStage::AwaitGrpc => LnrodAsk::AwaitGrpc { endpoint: setup.endpoint() },
            LnrodStage::Ended(_) => LnrodAsk::Nothing,
        }
    }

    /// Takes what came of it.
    pub fn step(self, reply: LnrodReply) -> (r: LnrodStage<String, Failure>)
        ensures
            r@ == self@.after(reply),
    {
        match (self, reply) {
            (LnrodStage::FindLnrod, LnrodReply::Found(r)) => match r {
                Ok(binary) => LnrodStage::SpawnLnrod { binary },
                Err(f) => LnrodStage::Ended(Err(f)),
            },
            (LnrodStage::SpawnLnrod { binary }, LnrodReply::Spawned(r)) => match r {
                Ok(()) => LnrodStage::FindSigner,
                Err(e) => LnrodStage::Ended(Err(Failure::new(e))),
            },
            (LnrodStage::FindSigner, LnrodReply::Found(r)) => match r {
                Ok(binary) => LnrodStage::SpawnSigner { binary },
                Err(f) => LnrodStage::Ended(Err(f)),
            },
            (LnrodStage::SpawnSigner { binary }, LnrodReply::Spawned(r)) => match r {
                Ok(()) => LnrodStage::SettleSigner,
                Err(e) => LnrodStage::Ended(Err(Failure::new(e))),
            },
            (LnrodStage::SettleSigner, LnrodReply::Slept) => LnrodStage::FindProxy,
            (LnrodStage::FindProxy, LnrodReply::Found(r)) => match r {
                Ok(binary) => LnrodStage::SpawnProxy { binary },
                Err(f) => LnrodStage::Ended(Err(f)),
            },
            (LnrodStage::SpawnProxy { binary }, LnrodReply::Spawned(r)) => match r {
                Ok(()) => LnrodStage::AwaitGrpc,
                Err(e) => LnrodStage::Ended(Err(Failure::new(e))),
            },
            (LnrodStage::AwaitGrpc, LnrodReply::Answered(r)) => match r {
                Ok(()) => LnrodStage::Ended(Ok(())),
                Err(e) => LnrodStage::Ended(
                    Err(Failure::new(e).context("lnrod gRPC did not become ready")),
                ),
            },
            (stage, _) => stage,
        }
    }
}

/// A start goes through its stages in order and leaves none out: with each
/// reply it fails, stays where it is, or comes one stage further.
pub proof fn lnrod_start_leaves_no_stage_out(
    stage: LnrodStage<Seq<char>, Seq<Seq<char>>>,
    reply: LnrodReply,
)
    ensures
        ({
            let next = stage.after(reply);
            next.failed() || next.progress() == stage.progress() || next.progress()
                == stage.progress() + 1
        }),
{
}

// ---------------------------------------------------------------------------
// The admin interface
// ---------------------------------------------------------------------------

/// A request to the admin interface.
pub enum AdminRequest {
    NodeInfo,
    PeerConnect { node_id: Vec<u8>, address: String },
    ChannelNew { node_id: Vec<u8>, is_public: bool, value_sat: u64, push_msat: u64 },
    ChannelList,
    ChannelClose { channel_id: Vec<u8>, is_force: bool },
    InvoiceNew { value_msat: u64 },
    PaymentSend { invoice: String },
    PaymentKeysend { node_id: Vec<u8>, value_msat: u64 },
    PaymentList,
    Ping { message: String },
}

/// Wrapper around an lnrod child process and its ports.
pub struct LnrodNode {
    pub child: ManagedChild,
    pub proxy_child: Option<ManagedChild>,
    pub signer_child: Option<ManagedChild>,
    pub ln_port: u16,
    pub rpc_port: u16,
}

fn bytes_of(data: &[u8]) -> (r: Vec<u8>)
    ensures
        r@ == data@,
{
    let mut r: Vec<u8> = Vec::new();
    r.extend_from_slice(data);
    assert(r@ =~= data@);
    r
}

impl LnrodNode {
    /// Build (if needed) and start an lnrod node. It is ready once its gRPC
    /// interface is.
    pub fn start() -> (r: LnrodStage<String, Failure>)
        ensures
            r@ == LnrodStage::<Seq<char>, Seq<Seq<char>>>::FindLnrod,
    {
        LnrodStage::FindLnrod
    }

    /// The node that a start gave.
    pub fn started(
        setup: &LnrodSetup,
        child: ManagedChild,
        signer_child: ManagedChild,
        proxy_child: ManagedChild,
    ) -> (r: LnrodNode)
        ensures
            r.child == child,
            r.signer_child == Some(signer_child),
            r.proxy_child == Some(proxy_child),
            r.ln_port == setup.ln_port,
            r.rpc_port == setup.rpc_port,
    {
        LnrodNode {
            child,
            proxy_child: Some(proxy_child),
            signer_child: Some(signer_child),
            ln_port: setup.ln_port,
            rpc_port: setup.rpc_port,
        }
    }

    /// Get this node's public key (node_id) as raw bytes.
    pub fn node_id_bytes(&self) -> (r: AdminRequest)
        ensures
            r is NodeInfo,
    {
        AdminRequest::NodeInfo
    }

    /// A node's public key as hex string.
    pub fn node_id_hex(&self, node_id: &[u8]) -> (r: String)
        ensures
            r@ == hex_text(node_id@),
    {
        encode_hex(node_id)
    }

    /// Connect to a peer.
    pub fn peer_connect(&self, node_id: &[u8], address: &str) -> (r: AdminRequest)
        ensures
            r matches AdminRequest::PeerConnect { node_id: id, address: at } && id@ == node_id@
                && at@ == address@,
    {
        AdminRequest::PeerConnect { node_id: bytes_of(node_id), address: address.to_owned() }
    }

    /// Open a new channel. It is announced.
    pub fn channel_new(&self, node_id: &[u8], value_sat: u64, push_msat: u64) -> (r: AdminRequest)
        ensures
            r matches AdminRequest::ChannelNew {
                node_id: id,
                is_public,
                value_sat: value,
                push_msat: push,
            } && id@ == node_id@ && is_public && value == value_sat && push == push_msat,
    {
        AdminRequest::ChannelNew {
            node_id: bytes_of(node_id),
            is_public: true,
            value_sat,
            push_msat,
        }
    }

    /// List channels.
    pub fn channel_list(&self) -> (r: AdminRequest)
        ensures
            r is ChannelList,
    {
        AdminRequest::ChannelList
    }

    /// Close a channel.
    pub fn channel_close(&self, channel_id: &[u8], force: bool) -> (r: AdminRequest)
        ensures
            r matches AdminRequest::ChannelClose { channel_id: id, is_force } && id@ == channel_id@
                && is_force == force,
    {
        AdminRequest::ChannelClose { channel_id: bytes_of(channel_id), is_force: force }
    }

    /// Create a new invoice.
    pub fn invoice_new(&self, value_msat: u64) -> (r: AdminRequest)
        ensures
            r == (AdminRequest::InvoiceNew { value_msat }),
    {
        AdminRequest::InvoiceNew { value_msat }
    }

    /// Send a payment by bolt11 invoice string.
    pub fn payment_send(&self, invoice: &str) -> (r: AdminRequest)
        ensures
            r matches AdminRequest::PaymentSend { invoice: sent } && sent@ == invoice@,
    {
        AdminRequest::PaymentSend { invoice: invoice.to_owned() }
    }

    /// Send a keysend (spontaneous) payment to a node.
    pub fn payment_keysend(&self, node_id: &[u8], value_msat: u64) -> (r: AdminRequest)
        ensures
            r matches AdminRequest::PaymentKeysend { node_id: id, value_msat: value } && id@
                == node_id@ && value == value_msat,
    {
        AdminRequest::PaymentKeysend { node_id: bytes_of(node_id), value_msat }
    }

    /// List all payments.
    pub fn payment_list(&self) -> (r: AdminRequest)
        ensures
            r is PaymentList,
    {
        AdminRequest::PaymentList
    }

    /// Ping the node.
    pub fn ping(&self) -> (r: AdminRequest)
        ensures
            r matches AdminRequest::Ping { message } && message@ == "hello"@,
    {
        AdminRequest::Ping { message: "hello".to_owned() }
    }
}

/// The ping by which a node is found to be ready.
pub fn readiness_ping() -> (r: AdminRequest)
    ensures
        r matches AdminRequest::Ping { message } && message@ == "ready?"@,
{
    AdminRequest::Ping { message: "ready?".to_owned() }
}

// ---------------------------------------------------------------------------
// What the lists show
// ---------------------------------------------------------------------------

/// A channel as lnrod lists it.
pub struct LnrodChannel {
    pub is_active: bool,
    pub is_pending: bool,
}

/// A payment as lnrod lists it.
pub struct LnrodPayment {
    pub is_outbound: bool,
    pub succeeded: bool,
}

/// Whether a list has a channel that is active and no longer pending.
pub open spec fn some_active(channels: Seq<LnrodChannel>) -> bool {
    exists|i: int|
        0 <= i < channels.len() && (#[trigger] channels[i]).is_active && !channels[i].is_pending
}

/// Whether a list has a payment in a direction that succeeded.
pub open spec fn some_succeeded(payments: Seq<LnrodPayment>, outbound: bool) -> bool {
    exists|i: int|
        0 <= i < payments.len() && (#[trigger] payments[i]).is_outbound == outbound
            && payments[i].succeeded
}

/// Whether a channel is active and no longer pending.
pub fn any_active(channels: &Vec<LnrodChannel>) -> (r: bool)
    ensures
        r == some_active(channels@),
{
    let mut k: usize = 0;
    while k < channels.len()
        invariant
            k <= channels.len(),
            forall|i: int|
                0 <= i < k ==> !((#[trigger] channels@[i]).is_active && !channels@[i].is_pending),
        decreases channels.len() - k,
    {
        if channels[k].is_active && !channels[k].is_pending {
            assert(channels@[k as int].is_active);
            return true;
        }
        k = k + 1;
    }
    false
}

/// Whether a payment in a direction succeeded.
pub fn any_succeeded(payments: &Vec<LnrodPayment>, outbound: bool) -> (r: bool)
    ensures
        r == some_succeeded(payments@, outbound),
{
    let mut k: usize = 0;
    while k < payments.len()
        invariant
            k <= payments.len(),
            forall|i: int|
                0 <= i < k ==> !((#[trigger] payments@[i]).is_outbound == outbound
                    && payments@[i].succeeded),
        decreases payments.len() - k,
    {
        if payments[k].is_outbound == outbound && payments[k].succeeded {
            assert(payments@[k as int].succeeded);
            return true;
        }
        k = k + 1;
    }
    false
}

/// The three processes of a start find each other. lnrod listens for the proxy on
/// the port that the proxy connects to, and for the admin interface on the port
/// that is waited on. The signer answers the proxy's key and the proxy asks the
/// signer's; both meet on one relay.
pub proof fn the_processes_of_a_start_find_each_other(setup: LnrodSetup)
    requires
        setup.proxy.wf(),
        setup.signer.wf(),
    ensures
        ({
            let node = lnrod_args(setup);
            let signer = lnrod_signer_args(setup);
            let proxy = proxy_args(setup);
            &&& node[7] == "--vlsport"@ && proxy[0] == "--connect"@ && proxy[1]
                == "http://127.0.0.1:"@ + node[8]
            &&& node[5] == "--rpcport"@ && local_endpoint(setup.rpc_port) == "http://127.0.0.1:"@
                + node[6]
            &&& node[3] == "--lnport"@ && node[4] == decimal(setup.ln_port as nat)
            &&& signer[0] == "--relay"@ && proxy[2] == "--relay"@ && signer[1] == proxy[3]
                && signer[1] == setup.relay_url@
            &&& signer[2] == "--proxy-pubkey"@ && proxy[6] == "--nsec"@
            &&& exists|secret: Seq<u8>|
                proxy[7] == #[trigger] hex_text(secret) && signer[3] == public_key_hex(secret)
            &&& signer[4] == "--nsec"@ && proxy[4] == "--signer-pubkey"@
            &&& exists|secret: Seq<u8>|
                signer[5] == #[trigger] hex_text(secret) && proxy[5] == public_key_hex(secret)
            &&& node[9] == "--bitcoin"@ && node[10] == setup.bitcoind_rpc_url@
            &&& node[11] == "--datadir"@ && node[12] == setup.data_dir@
        }),
{
    assert(proxy_args(setup)[7] == hex_text(setup.proxy.secret@));
    assert(lnrod_signer_args(setup)[5] == hex_text(setup.signer.secret@));
}

/// What is spawned is what was found last, under the name of what it is and with
/// a log of that name: lnrod first, then the signer, and the proxy last.
pub proof fn what_was_found_is_spawned(
    setup: LnrodSetup,
    lnrod: String,
    signer: String,
    proxy: String,
    ask: LnrodAsk,
)
    ensures
        ({
            let at1 = LnrodStage::<Seq<char>, Seq<Seq<char>>>::FindLnrod.after(
                LnrodReply::Found(Ok(lnrod)),
            );
            let at2 = at1.after(LnrodReply::Spawned(Ok(()))).after(LnrodReply::Found(Ok(signer)));
            let at3 = at2.after(LnrodReply::Spawned(Ok(()))).after(LnrodReply::Slept).after(
                LnrodReply::Found(Ok(proxy)),
            );
            let at4 = at3.after(LnrodReply::Spawned(Ok(())));
            &&& lnrod_asks(at1, setup, ask) ==> (ask matches LnrodAsk::Spawn(plan)
                && plan@.program == lnrod@ && plan@.name == "lnrod"@ && plan@.args == lnrod_args(
                setup,
            ) && plan@.log_path == path_in(setup.log_dir@, plan@.name + ".log"@) && plan@.cwd is None)
            &&& lnrod_asks(at2, setup, ask) ==> (ask matches LnrodAsk::Spawn(plan)
                && plan@.program == signer@ && plan@.name == "eln-signer"@ && plan@.args
                == lnrod_signer_args(setup) && plan@.log_path == path_in(
                setup.log_dir@,
                plan@.name + ".log"@,
            ) && plan@.cwd is None)
            &&& lnrod_asks(at3, setup, ask) ==> (ask matches LnrodAsk::Spawn(plan)
                && plan@.program == proxy@ && plan@.name == "vls-nostr-proxy"@ && plan@.args
                == proxy_args(setup) && plan@.log_path == path_in(
                setup.log_dir@,
                plan@.name + ".log"@,
            ) && plan@.cwd is None)
            &&& lnrod_asks(at4, setup, ask) ==> (ask matches LnrodAsk::AwaitGrpc { endpoint }
                && endpoint@ == "http://127.0.0.1:"@ + decimal(setup.rpc_port as nat))
            &&& at4.after(LnrodReply::Answered(Ok(()))) == LnrodStage::<
                Seq<char>,
                Seq<Seq<char>>,
            >::Ended(Ok(()))
        }),
{
}

/// A list shows an active channel exactly when one of its channels is active and
/// not pending, and a payment in a direction exactly when one in that direction
/// succeeded.
pub proof fn lists_show_what_they_hold(
    channels: Seq<LnrodChannel>,
    payments: Seq<LnrodPayment>,
    outbound: bool,
)
    ensures
        !some_active(channels) <==> forall|i: int|
            0 <= i < channels.len() ==> !(#[trigger] channels[i]).is_active
                || channels[i].is_pending,
        !some_succeeded(payments, outbound) <==> forall|i: int|
            0 <= i < payments.len() ==> (#[trigger] payments[i]).is_outbound != outbound
                || !payments[i].succeeded,
{
}

/// A reply to something else than what a start asks for changes nothing, and one
/// that says that what was asked for failed ends it.
pub proof fn a_start_takes_only_what_it_asks_for(
    stage: LnrodStage<Seq<char>, Seq<Seq<char>>>,
    setup: LnrodSetup,
    ask: LnrodAsk,
    reply: LnrodReply,
)
    requires
        lnrod_asks(stage, setup, ask),
    ensures
        ({
            let next = stage.after(reply);
            match (ask, reply) {
                (LnrodAsk::Find(_), LnrodReply::Found(r)) => next.failed() <==> r is Err,
                (LnrodAsk::Spawn(_), LnrodReply::Spawned(r)) => next.failed() <==> r is Err,
                (LnrodAsk::AwaitGrpc { .. }, LnrodReply::Answered(r)) => next.failed() <==> r is Err,
                (LnrodAsk::SleepMillis(n), LnrodReply::Slept) => n == 2000 && next is FindProxy,
                _ => next == stage,
            }
        }),
{
}

/// A ping that is answered ends the wait for gRPC well. One that is not leads to
/// another after half a second, while a minute has not passed.
pub proof fn grpc_is_waited_for(
    endpoint: Seq<char>,
    answered: bool,
    nanos: u128,
    ask: GrpcAsk,
)
    ensures
        ({
            let next = GrpcWait::<Seq<char>>::Attempt.after(
                endpoint,
                GrpcEvent::Attempted(answered),
            );
            let then = next.after(endpoint, GrpcEvent::Elapsed(nanos));
            &&& answered <==> next == GrpcWait::<Seq<char>>::Ended(Ok(()))
            &&& !answered ==> (grpc_asks(next, ask) <==> ask is Elapsed)
            &&& !answered && nanos <= 60 * 1_000_000_000 ==> (grpc_asks(then, ask) <==> ask
                == GrpcAsk::SleepMillis(500)) && then.after(endpoint, GrpcEvent::Slept) is Attempt
            &&& !answered && nanos > 60 * 1_000_000_000 ==> then is Ended && !(then == GrpcWait::<
                Seq<char>,
            >::Ended(Ok(())))
        }),
{
}

} // verus!
