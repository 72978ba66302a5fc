//! A dln-node under test: how it is started, and how it is driven.
//!
//! All test operations go through the Nostr interface — NCC for control
//! commands (open/close/list channels) and NWC for wallet commands
//! (pay_invoice, get_balance, get_info).

use vstd::prelude::*;
use crate::bitcoind::BitcoindHarness;
use crate::codec::{hex_text, public_key_hex, NostrKeys};
use crate::control::{
    begins, channels_view, close_channel_request, control_request, has_channel_with,
    has_ready_channel_with, list_channels_request, lists_channel, lists_ready_channel,
    open_channel_params, open_channel_request, ControlCall, ControlPlane, CONTROL_RESPONSE_KIND,
};
use crate::events::{check_relay_url, relay_url_error, EventDraft};
use crate::grants::{control_grant, control_grant_body, grant, wallet_grant, wallet_grant_body};
use crate::json::JsonView;
use crate::outcome::{bare, failing_view, unit_failing_view, Failure};
use crate::process::{spawn_plan, ManagedChild, SpawnPlan};
use crate::text::{join_path, option_view, path_in, views};
use crate::util::{provide, recipe_for, Provision};
use crate::wallet::{
    begins_wallet_call, make_new_address_reply, new_address, reply_failing_view, Outgoing, WalletCall,
    WalletReply, WalletRequest, WALLET_RESPONSE_KIND,
};

verus! {

// ---------------------------------------------------------------------------
// Configuration
// ---------------------------------------------------------------------------

/// What a node reads from its config.toml.
pub struct LdkConfig {
    pub node: LdkNodeConfig,
    pub nostr: LdkNostrConfig,
    pub wallet: LdkWalletConfig,
    pub bitcoind: LdkBitcoindConfig,
    /// Absent where the node signs itself.
    pub signer: Option<LdkSignerConfig>,
}

/// How a node signs.
#[derive(Clone, Copy, PartialEq, Eq, Structural)]
pub enum SignerMode {
    /// The node signs itself.
    Plain,
    /// An eln-signer does, which it reaches over Nostr.
    Nostr,
}

pub struct LdkNodeConfig {
    pub network: String,
    pub listening_port: u16,
    pub data_dir: String,
}

pub struct LdkNostrConfig {
    pub relay: String,
    pub private_key: String,
}

pub struct LdkWalletConfig {
    pub max_channel_size_sats: u64,
    pub min_channel_size_sats: u64,
    pub auto_accept_channels: bool,
}

pub struct LdkBitcoindConfig {
    pub rpc_host: String,
    pub rpc_port: u16,
    pub rpc_user: String,
    pub rpc_password: String,
}

pub struct LdkSignerConfig {
    pub transport: String,
    pub relay: String,
    pub nsec: String,
    pub signer_pubkey: String,
}

/// What a start is given: where things are, and the keys of everyone involved.
pub struct NodeSetup {
    pub mode: SignerMode,
    pub relay_url: String,
    pub output_dir: String,
    pub miner_address: String,
    pub ln_port: u16,
    /// The chain's network name.
    pub network: String,
    /// False on a chain that we do not control.
    pub can_mine: bool,
    pub rpc_host: String,
    pub rpc_port: u16,
    pub rpc_user: String,
    pub rpc_password: String,
    /// The node itself.
    pub service: NostrKeys,
    /// Who sends it control requests.
    pub controller: NostrKeys,
    /// Who sends it wallet requests.
    pub client: NostrKeys,
    /// Who grants the two what they may do.
    pub owner: NostrKeys,
    /// The node's side of the line to its signer.
    pub proxy: NostrKeys,
    /// The signer's side of that line.
    pub signer: NostrKeys,
}

impl NodeSetup {
    /// All keys are key pairs.
    pub open spec fn wf(&self) -> bool {
        &&& self.service.wf()
        &&& self.controller.wf()
        &&& self.client.wf()
        &&& self.owner.wf()
        &&& self.proxy.wf()
        &&& self.signer.wf()
    }

    /// The setup of a node on a chain, with fresh keys.
    pub fn prepare(
        mode: SignerMode,
        bitcoind: &BitcoindHarness,
        miner_address: &str,
        relay_url: &str,
        output_dir: &str,
        ln_port: u16,
    ) -> (r: NodeSetup)
        ensures
            r.wf(),
            r.mode == mode,
            r.relay_url@ == relay_url@,
            r.output_dir@ == output_dir@,
            r.miner_address@ == miner_address@,
            r.ln_port == ln_port,
            r.network@ == bitcoind@.network,
            r.can_mine == bitcoind@.owned,
            r.rpc_host@ == "127.0.0.1"@,
            r.rpc_port == bitcoind@.rpc_port,
            r.rpc_user@ == bitcoind@.rpc_user,
            r.rpc_password@ == bitcoind@.rpc_password,
    {
        NodeSetup {
            mode,
            relay_url: relay_url.to_owned(),
            output_dir: output_dir.to_owned(),
            miner_address: miner_address.to_owned(),
            ln_port,
            network: bitcoind.network().to_owned(),
            can_mine: bitcoind.can_mine(),
            rpc_host: bitcoind.rpc_host().to_owned(),
            rpc_port: bitcoind.rpc_port(),
            rpc_user: bitcoind.rpc_user().to_owned(),
            rpc_password: bitcoind.rpc_password().to_owned(),
            service: NostrKeys::generate(),
            controller: NostrKeys::generate(),
            client: NostrKeys::generate(),
            owner: NostrKeys::generate(),
            proxy: NostrKeys::generate(),
            signer: NostrKeys::generate(),
        }
    }

    /// The configuration of the node that runs in the directory `cwd`.
    pub fn config(&self, cwd: &str) -> (r: LdkConfig)
        ensures
            is_config(r, *self, cwd@),
    {
        LdkConfig {
            node: LdkNodeConfig {
                network: self.network.clone(),
                listening_port: self.ln_port,
                data_dir: join_path(cwd, "data"),
            },
            nostr: LdkNostrConfig {
                relay: self.relay_url.clone(),
                private_key: self.service.secret_hex(),
            },
            wallet: LdkWalletConfig {
                max_channel_size_sats: 10_000_000,
                min_channel_size_sats: 20_000,
                auto_accept_channels: true,
            },
            bitcoind: LdkBitcoindConfig {
                rpc_host: self.rpc_host.clone(),
                rpc_port: self.rpc_port,
                rpc_user: self.rpc_user.clone(),
                rpc_password: self.rpc_password.clone(),
            },
            signer: match self.mode {
                SignerMode::Plain => None,
                SignerMode::Nostr => Some(
                    LdkSignerConfig {
                        transport: "nostr".to_owned(),
                        relay: self.relay_url.clone(),
                        nsec: self.proxy.secret_hex(),
                        signer_pubkey: self.signer.public.clone(),
                    },
                ),
            },
        }
    }

    /// The signer to spawn.
    pub fn signer_plan(&self, binary: &str) -> (r: SpawnPlan)
        ensures
            r@ == spawn_plan(
                "alice-eln-signer"@,
                binary@,
                signer_args(*self),
                self.output_dir@,
                None,
            ),
    {
        let args = vec![
            "--relay".to_owned(),
            self.relay_url.clone(),
            "--proxy-pubkey".to_owned(),
            self.proxy.public.clone(),
            "--nsec".to_owned(),
            self.signer.secret_hex(),
            "--network".to_owned(),
            self.network.clone(),
            "--integration-test".to_owned(),
            "--protocol-version".to_owned(),
            "6".to_owned(),
            "--policy-filter".to_owned(),
            "policy-commitment-htlc-routing-balance:warn".to_owned(),
            "--policy-filter".to_owned(),
            "policy-routing-balanced:warn".to_owned(),
        ];
        assert(views(args@) =~= signer_args(*self));
        ManagedChild::spawn("alice-eln-signer", binary, args, self.output_dir.as_str())
    }

    /// The node to spawn.
    pub fn node_plan(&self, binary: &str, cwd: &str) -> (r: SpawnPlan)
        ensures
            r@ == spawn_plan(
                "dln-node"@,
                binary@,
                Seq::empty(),
                self.output_dir@,
                Some(cwd@),
            ),
    {
        let args: Vec<String> = vec![];
        assert(views(args@) =~= Seq::empty());
        ManagedChild::spawn_with_cwd(
            "dln-node",
            binary,
            args,
            self.output_dir.as_str(),
            Some(cwd.to_owned()),
        )
    }
}

/// Whether a configuration is that of the node that runs in `cwd`.
pub open spec fn is_config(config: LdkConfig, setup: NodeSetup, cwd: Seq<char>) -> bool {
    &&& config.node.network@ == setup.network@
    &&& config.node.listening_port == setup.ln_port
    &&& config.node.data_dir@ == path_in(cwd, "data"@)
    &&& config.nostr.relay@ == setup.relay_url@
    &&& config.nostr.private_key@ == hex_text(setup.service.secret@)
    &&& config.wallet.max_channel_size_sats == 10_000_000
    &&& config.wallet.min_channel_size_sats == 20_000
    &&& config.wallet.auto_accept_channels
    &&& config.bitcoind.rpc_host@ == setup.rpc_host@
    &&& config.bitcoind.rpc_port == setup.rpc_port
    &&& config.bitcoind.rpc_user@ == setup.rpc_user@
    &&& config.bitcoind.rpc_password@ == setup.rpc_password@
    &&& match config.signer {
        Some(signer) => {
            &&& setup.mode == SignerMode::Nostr
            &&& signer.transport@ == "nostr"@
            &&& signer.relay@ == setup.relay_url@
            &&& signer.nsec@ == hex_text(setup.proxy.secret@)
            &&& signer.signer_pubkey@ == setup.signer.public@
        },
        None => setup.mode == SignerMode::Plain,
    }
}

/// What the signer is given.
pub open spec fn signer_args(setup: NodeSetup) -> Seq<Seq<char>> {
    seq![
        "--relay"@,
        setup.relay_url@,
        "--proxy-pubkey"@,
        setup.proxy.public@,
        "--nsec"@,
        hex_text(setup.signer.secret@),
        "--network"@,
        setup.network@,
        "--integration-test"@,
        "--protocol-version"@,
        "6"@,
        "--policy-filter"@,
        "policy-commitment-htlc-routing-balance:warn"@,
        "--policy-filter"@,
        "policy-routing-balanced:warn"@,
    ]
}

// ---------------------------------------------------------------------------
// Binaries
// ---------------------------------------------------------------------------

/// Where the eln-signer binary comes from: `ELN_SIGNER_BINARY`, or a build of
/// the checkout among the other `projects`.
pub fn eln_signer_binary(named: Option<String>, projects: &str) -> (r: Provision)
    ensures
        match r {
            Provision::Prebuilt(path) => named == Some(path),
            Provision::Build(recipe) => named is None && recipe@ == recipe_for(
                "eln-signer"@,
                path_in(projects@, "eln-signer"@),
            ),
        },
{
    let dir = join_path(projects, "eln-signer");
    provide(named, "eln-signer", dir.as_str())
}

/// Where the dln-node binary comes from: `DLN_NODE_BINARY`, else
/// `ELN_NODE_BINARY`, else a build of `/home/rene/git/dln-node`.
pub fn dln_node_binary(dln_named: Option<String>, eln_named: Option<String>) -> (r: Provision)
    ensures
        match r {
            Provision::Prebuilt(path) => dln_named == Some(path) || dln_named is None && eln_named
                == Some(path),
            Provision::Build(recipe) => dln_named is None && eln_named is None && recipe@
                == recipe_for("dln-node"@, "/home/rene/git/dln-node"@),
        },
{
    match dln_named {
        Some(path) => Provision::Prebuilt(path),
        None => provide(eln_named, "dln-node", "/home/rene/git/dln-node"),
    }
}

// ---------------------------------------------------------------------------
// Starting
// ---------------------------------------------------------------------------

/// How long a node's funds may take to confirm on a chain that we do not
/// control, in seconds. A block is about a minute there, and a stalled miner
/// must surface as a timeout naming the chain rather than as a hang.
pub const FUNDING_SECS: u64 = 1200;

/// A binary that a start needs.
#[derive(Clone, Copy, PartialEq, Eq, Structural)]
pub enum NodeBinary {
    Signer,
    Node,
}

/// Where the start of a node stands. `T` is a text and `F` a failure; `id` is
/// the node's own public key once it is known.
pub enum StartStage<T, F> {
    /// Connect as the owner.
    ConnectOwner,
    SettleOwner,
    /// Publish the grants, before anything is spawned.
    GrantControl,
    GrantWallet,
    /// Then the signer, where the node does not sign itself.
    FindSigner,
    SpawnSigner { binary: T },
    /// Give the signer time to connect to the relay and subscribe.
    SettleSigner,
    PickDir,
    MakeDir { cwd: T },
    MakeDataDir { cwd: T },
    WriteConfig { cwd: T },
    FindNode { cwd: T },
    SpawnNode { cwd: T, binary: T },
    /// Connect as the wallet's client.
    ConnectWallet,
    SettleWallet,
    SubscribeWallet,
    /// Poll the node until it says who it is, for a minute.
    AskInfo,
    InfoClock,
    InfoPause,
    /// Fund its on-chain wallet: mine on a chain of ours, and wait for the
    /// chain's own miners elsewhere.
    AskAddress { id: T },
    Fund { id: T, address: T },
    Confirm { id: T, txid: T },
    /// Poll its balance until the funds are there, for half a minute.
    AskBalance { id: T },
    BalanceClock { id: T },
    BalancePause { id: T },
    /// Connect as the controller.
    ConnectControl { id: T },
    SettleControl { id: T },
    SubscribeControl { id: T },
    /// The node is ready, and this is its id; or it is not, for this reason.
    Ended(Result<T, F>),
}

impl View for StartStage<String, Failure> {
    type V = StartStage<Seq<char>, Seq<Seq<char>>>;

    open spec fn view(&self) -> StartStage<Seq<char>, Seq<Seq<char>>> {
        match *self {
            StartStage::ConnectOwner => StartStage::ConnectOwner,
            StartStage::SettleOwner => StartStage::SettleOwner,
            StartStage::GrantControl => StartStage::GrantControl,
            StartStage::GrantWallet => StartStage::GrantWallet,
            StartStage::FindSigner => StartStage::FindSigner,
            StartStage::SpawnSigner { binary } => StartStage::SpawnSigner { binary: binary@ },
            StartStage::SettleSigner => StartStage::SettleSigner,
            StartStage::PickDir => StartStage::PickDir,
            StartStage::MakeDir { cwd } => StartStage::MakeDir { cwd: cwd@ },
            StartStage::MakeDataDir { cwd } => StartStage::MakeDataDir { cwd: cwd@ },
            StartStage::WriteConfig { cwd } => StartStage::WriteConfig { cwd: cwd@ },
            StartStage::FindNode { cwd } => StartStage::FindNode { cwd: cwd@ },
            StartStage::SpawnNode { cwd, binary } => StartStage::SpawnNode {
                cwd: cwd@,
                binary: binary@,
            },
            StartStage::ConnectWallet => StartStage::ConnectWallet,
            StartStage::SettleWallet => StartStage::SettleWallet,
            StartStage::SubscribeWallet => StartStage::SubscribeWallet,
            StartStage::AskInfo => StartStage::AskInfo,
            StartStage::InfoClock => StartStage::InfoClock,
            StartStage::InfoPause => StartStage::InfoPause,
            StartStage::AskAddress { id } => StartStage::AskAddress { id: id@ },
            StartStage::Fund { id, address } => StartStage::Fund { id: id@, address: address@ },
            StartStage::Confirm { id, txid } => StartStage::Confirm { id: id@, txid: txid@ },
            StartStage::AskBalance { id } => StartStage::AskBalance { id: id@ },
            StartStage::BalanceClock { id } => StartStage::BalanceClock { id: id@ },
            StartStage::BalancePause { id } => StartStage::BalancePause { id: id@ },
            StartStage::ConnectControl { id } => StartStage::ConnectControl { id: id@ },
            StartStage::SettleControl { id } => StartStage::SettleControl { id: id@ },
            StartStage::SubscribeControl { id } => StartStage::SubscribeControl { id: id@ },
            StartStage::Ended(r) => StartStage::Ended(failing_view(r)),
        }
    }
}

/// What a start asks for.
pub enum StartAsk {
    /// Connect to the relay with this secret key.
    Connect { secret: Vec<u8> },
    SleepMillis(u64),
    /// Sign with the key that connected last, and publish.
    Publish(EventDraft),
    Find(NodeBinary),
    Spawn { which: NodeBinary, plan: SpawnPlan },
    /// A temporary directory path of its own, under this prefix.
    TmpDir { prefix: String },
    MakeDir { path: String },
    /// Serialize the configuration and write it.
    Write { path: String, config: LdkConfig },
    Subscribe { kind: u16, author: String },
    Wallet(WalletRequest<String>),
    /// The time since the first request of this poll.
    Elapsed,
    SendToAddress { address: String, sats: u64 },
    Mine { blocks: u64, address: String },
    /// Wait until a transaction has this many confirmations, for so many seconds
    /// at most.
    Confirmations { txid: String, want: u64, secs: u64 },
    Nothing,
}

/// What came of it.
pub enum StartReply {
    /// It was done.
    Done,
    /// It was tried.
    Tried(Result<(), String>),
    /// What was found, made or written, or why it was not.
    Found(Result<String, Failure>),
    Wrote(Result<(), Failure>),
    Wallet(Result<WalletReply<String>, Failure>),
    /// Nanoseconds since the first request of this poll.
    Elapsed(u128),
    /// The id of the transaction that was sent.
    Sent(String),
    /// How many confirmations a transaction has, or why it has too few.
    Confirmed(Result<u64, String>),
}

/// Whether `ask` is what the start asks for at a stage.
pub open spec fn start_asks(
    stage: StartStage<Seq<char>, Seq<Seq<char>>>,
    setup: NodeSetup,
    ask: StartAsk,
) -> bool {
    match (stage, ask) {
        (StartStage::ConnectOwner, StartAsk::Connect { secret }) => secret@ == setup.owner.secret@,
        (StartStage::SettleOwner, StartAsk::SleepMillis(n)) => n == 1000,
        (StartStage::GrantControl, StartAsk::Publish(draft)) => draft@ == grant(
            setup.service.public@,
            setup.controller.public@,
            control_grant_body(),
        ),
        (StartStage::GrantWallet, StartAsk::Publish(draft)) => draft@ == grant(
            setup.service.public@,
            setup.client.public@,
            wallet_grant_body(),
        ),
        (StartStage::FindSigner, StartAsk::Find(which)) => which == NodeBinary::Signer,
        (StartStage::SpawnSigner { binary }, StartAsk::Spawn { which, plan }) => which
            == NodeBinary::Signer && plan@ == spawn_plan(
            "alice-eln-signer"@,
            binary,
            signer_args(setup),
            setup.output_dir@,
            None,
        ),
        (StartStage::SettleSigner, StartAsk::SleepMillis(n)) => n == 2000,
        (StartStage::PickDir, StartAsk::TmpDir { prefix }) => prefix@ == "ldk-ctrl"@,
        (StartStage::MakeDir { cwd }, StartAsk::MakeDir { path }) => path@ == cwd,
        (StartStage::MakeDataDir { cwd }, StartAsk::MakeDir { path }) => path@ == path_in(
            cwd,
            "data"@,
        ),
        (StartStage::WriteConfig { cwd }, StartAsk::Write { path, config }) => path@ == path_in(
            cwd,
            "config.toml"@,
        ) && is_config(config, setup, cwd),
        (StartStage::FindNode { .. }, StartAsk::Find(which)) => which == NodeBinary::Node,
        (StartStage::SpawnNode { cwd, binary }, StartAsk::Spawn { which, plan }) => which
            == NodeBinary::Node && plan@ == spawn_plan(
            "dln-node"@,
            binary,
            Seq::empty(),
            setup.output_dir@,
            Some(cwd),
        ),
        (StartStage::ConnectWallet, StartAsk::Connect { secret }) => secret@
            == setup.client.secret@,
        (StartStage::SettleWallet, StartAsk::SleepMillis(n)) => n == 1000,
        (StartStage::SubscribeWallet, StartAsk::Subscribe { kind, author }) => kind
            == WALLET_RESPONSE_KIND && author@ == setup.service.public@,
        (StartStage::AskInfo, StartAsk::Wallet(request)) => request is GetInfo,
        (StartStage::InfoClock, StartAsk::Elapsed) => true,
        (StartStage::InfoPause, StartAsk::SleepMillis(n)) => n == 1000,
        (StartStage::AskAddress { .. }, StartAsk::Wallet(request)) => request is MakeNewAddress,
        (StartStage::Fund { address: to, .. }, StartAsk::SendToAddress { address, sats }) => address@
            == to && sats == 5_000_000,
        (StartStage::Confirm { .. }, StartAsk::Mine { blocks, address }) => setup.can_mine && blocks
            == 1 && address@ == setup.miner_address@,
        (StartStage::Confirm { txid: sent, .. }, StartAsk::Confirmations { txid, want, secs }) =>
        !setup.can_mine && txid@ == sent && want == 1 && secs == FUNDING_SECS,
        (StartStage::AskBalance { .. }, StartAsk::Wallet(request)) => request is GetBalance,
        (StartStage::BalanceClock { .. }, StartAsk::Elapsed) => true,
        (StartStage::BalancePause { .. }, StartAsk::SleepMillis(n)) => n == 500,
        (StartStage::ConnectControl { .. }, StartAsk::Connect { secret }) => secret@
            == setup.controller.secret@,
        (StartStage::SettleControl { .. }, StartAsk::SleepMillis(n)) => n == 1000,
        (StartStage::SubscribeControl { .. }, StartAsk::Subscribe { kind, author }) => kind
            == CONTROL_RESPONSE_KIND && author@ == setup.service.public@,
        (StartStage::Ended(_), StartAsk::Nothing) => true,
        _ => false,
    }
}

/// The stage to go on with where something was tried, or the end.
pub open spec fn next_if_ok(
    tried: Result<(), String>,
    next: StartStage<Seq<char>, Seq<Seq<char>>>,
) -> StartStage<Seq<char>, Seq<Seq<char>>> {
    match tried {
        Ok(()) => next,
        Err(e) => StartStage::Ended(Err(bare(e@))),
    }
}

/// Whether a reply gives a balance at which the node counts as funded, in
/// millisatoshis.
pub open spec fn is_funded(result: Result<WalletReply<Seq<char>>, Seq<Seq<char>>>) -> bool {
    result matches Ok(reply) && reply.balance() matches Ok(balance) && balance >= 4_000_000_000
}

/// The node's id that a reply gives, if it gives one.
pub open spec fn id_in(result: Result<WalletReply<Seq<char>>, Seq<Seq<char>>>) -> Option<
    Seq<char>,
> {
    match result {
        Ok(reply) => reply.pubkey(),
        Err(_) => None,
    }
}

impl StartStage<Seq<char>, Seq<Seq<char>>> {
    /// The stage after `reply`. A reply to something else changes nothing.
    pub open spec fn after(self, setup: NodeSetup, reply: StartReply) -> StartStage<
        Seq<char>,
        Seq<Seq<char>>,
    > {
        match (self, reply) {
            (StartStage::ConnectOwner, StartReply::Tried(r)) => next_if_ok(
                r,
                StartStage::SettleOwner,
            ),
            (StartStage::SettleOwner, StartReply::Done) => StartStage::GrantControl,
            (StartStage::GrantControl, StartReply::Tried(r)) => next_if_ok(
                r,
                StartStage::GrantWallet,
            ),
            (StartStage::GrantWallet, StartReply::Tried(r)) => next_if_ok(
                r,
                if setup.mode == SignerMode::Nostr {
                    StartStage::FindSigner
                } else {
                    StartStage::PickDir
                },
            ),
            (StartStage::FindSigner, StartReply::Found(r)) => match failing_view(r) {
                Ok(binary) => StartStage::SpawnSigner { binary },
                Err(f) => StartStage::Ended(Err(f)),
            },
            (StartStage::SpawnSigner { .. }, StartReply::Tried(r)) => next_if_ok(
                r,
                StartStage::SettleSigner,
            ),
            (StartStage::SettleSigner, StartReply::Done) => StartStage::PickDir,
            (StartStage::PickDir, StartReply::Found(r)) => match failing_view(r) {
                Ok(cwd) => StartStage::MakeDir { cwd },
                Err(f) => StartStage::Ended(Err(f)),
            },
            (StartStage::MakeDir { cwd }, StartReply::Tried(r)) => next_if_ok(
                r,
                StartStage::MakeDataDir { cwd },
            ),
            (StartStage::MakeDataDir { cwd }, StartReply::Tried(r)) => next_if_ok(
                r,
                StartStage::WriteConfig { cwd },
            ),
            (StartStage::WriteConfig { cwd }, StartReply::Wrote(r)) => match unit_failing_view(r) {
                Ok(()) => StartStage::FindNode { cwd },
                Err(f) => StartStage::Ended(Err(f)),
            },
            (StartStage::FindNode { cwd }, StartReply::Found(r)) => match failing_view(r) {
                Ok(binary) => StartStage::SpawnNode { cwd, binary },
                Err(f) => StartStage::Ended(Err(f)),
            },
            (StartStage::SpawnNode { .. }, StartReply::Tried(r)) => match relay_url_error(
                setup.relay_url@,
            ) {
                None => next_if_ok(r, StartStage::ConnectWallet),
                Some(e) => next_if_ok(r, StartStage::Ended(Err(bare(e)))),
            },
            (StartStage::ConnectWallet, StartReply::Tried(r)) => next_if_ok(
                r,
                StartStage::SettleWallet,
            ),
            (StartStage::SettleWallet, StartReply::Done) => StartStage::SubscribeWallet,
            (StartStage::SubscribeWallet, StartReply::Tried(r)) => next_if_ok(
                r,
                StartStage::AskInfo,
            ),
            (StartStage::AskInfo, StartReply::Wallet(r)) => match id_in(reply_failing_view(r)) {
                Some(id) => StartStage::AskAddress { id },
                None => StartStage::InfoClock,
            },
            (StartStage::InfoClock, StartReply::Elapsed(nanos)) => if nanos > 60_000_000_000 {
                StartStage::Ended(Err(bare("timeout waiting for dln-node get_info (60s)"@)))
            } else {
                StartStage::InfoPause
            },
            (StartStage::InfoPause, StartReply::Done) => StartStage::AskInfo,
            (StartStage::AskAddress { id }, StartReply::Wallet(r)) => match new_address(
                reply_failing_view(r),
            ) {
                Ok(address) => StartStage::Fund { id, address },
                Err(f) => StartStage::Ended(Err(f)),
            },
            (StartStage::Fund { id, .. }, StartReply::Sent(txid)) => StartStage::Confirm {
                id,
                txid: txid@,
            },
            (StartStage::Confirm { id, .. }, StartReply::Done) => if setup.can_mine {
                StartStage::AskBalance { id }
            } else {
                self
            },
            (StartStage::Confirm { id, .. }, StartReply::Confirmed(r)) => if setup.can_mine {
                self
            } else {
                match r {
                    Ok(_) => StartStage::AskBalance { id },
                    Err(e) => StartStage::Ended(Err(bare(e@))),
                }
            },
            (StartStage::AskBalance { id }, StartReply::Wallet(r)) => if is_funded(
                reply_failing_view(r),
            ) {
                StartStage::ConnectControl { id }
            } else {
                StartStage::BalanceClock { id }
            },
            (StartStage::BalanceClock { id }, StartReply::Elapsed(nanos)) => if nanos
                > 30_000_000_000 {
                StartStage::Ended(Err(bare("dln-node funding timeout"@)))
            } else {
                StartStage::BalancePause { id }
            },
            (StartStage::BalancePause { id }, StartReply::Done) => StartStage::AskBalance { id },
            (StartStage::ConnectControl { id }, StartReply::Tried(r)) => next_if_ok(
                r,
                StartStage::SettleControl { id },
            ),
            (StartStage::SettleControl { id }, StartReply::Done) => StartStage::SubscribeControl {
                id,
            },
            (StartStage::SubscribeControl { id }, StartReply::Tried(r)) => next_if_ok(
                r,
                StartStage::Ended(Ok(id)),
            ),
            _ => self,
        }
    }

    /// How far a start has come. The stages of one poll count as one.
    pub open spec fn progress(self) -> nat {
        match self {
            StartStage::ConnectOwner => 0,
            StartStage::SettleOwner => 1,
            StartStage::GrantControl => 2,
            StartStage::GrantWallet => 3,
            StartStage::FindSigner => 4,
            StartStage::SpawnSigner { .. } => 5,
            StartStage::SettleSigner => 6,
            StartStage::PickDir => 7,
            StartStage::MakeDir { .. } => 8,
            StartStage::MakeDataDir { .. } => 9,
            StartStage::WriteConfig { .. } => 10,
            StartStage::FindNode { .. } => 11,
            StartStage::SpawnNode { .. } => 12,
            StartStage::ConnectWallet => 13,
            StartStage::SettleWallet => 14,
            StartStage::SubscribeWallet => 15,
            StartStage::AskInfo | StartStage::InfoClock | StartStage::InfoPause => 16,
            StartStage::AskAddress { .. } => 17,
            StartStage::Fund { .. } => 18,
            StartStage::Confirm { .. } => 19,
            StartStage::AskBalance { .. } | StartStage::BalanceClock { .. }
            | StartStage::BalancePause { .. } => 20,
            StartStage::ConnectControl { .. } => 21,
            StartStage::SettleControl { .. } => 22,
            StartStage::SubscribeControl { .. } => 23,
            StartStage::Ended(_) => 24,
        }
    }

    /// The start has failed.
    pub open spec fn failed(self) -> bool {
        self matches StartStage::Ended(r) && r is Err
    }

    /// The node's id, once it is known.
    pub open spec fn known_id(self) -> Option<Seq<char>> {
        match self {
            StartStage::AskAddress { id } | StartStage::Fund { id, .. } | StartStage::Confirm {
                id,
                ..
            }
            | StartStage::AskBalance { id } | StartStage::BalanceClock { id }
            | StartStage::BalancePause { id } | StartStage::ConnectControl { id }
            | StartStage::SettleControl { id } | StartStage::SubscribeControl { id } => Some(id),
            StartStage::Ended(Ok(id)) => Some(id),
            _ => None,
        }
    }
}

fn go_on(tried: Result<(), String>, next: StartStage<String, Failure>) -> (r: StartStage<
    String,
    Failure,
>)
    ensures
        r@ == next_if_ok(tried, next@),
{
    match tried {
        Ok(()) => next,
        Err(e) => StartStage::Ended(Err(Failure::new(e))),
    }
}

fn funded(result: &Result<WalletReply<String>, Failure>) -> (r: bool)
    ensures
        r == is_funded(reply_failing_view(*result)),
{
    match result {
        Ok(reply) => match reply.to_get_balance() {
            Ok(balance) => balance >= 4_000_000_000,
            Err(_) => false,
        },
        Err(_) => false,
    }
}

fn found_id(result: &Result<WalletReply<String>, Failure>) -> (r: Option<String>)
    ensures
        option_view(r) == id_in(reply_failing_view(*result)),
{
    match result {
        Ok(reply) => reply.to_pubkey(),
        Err(_) => None,
    }
}

/// Something that a start waits for. The time that it asks for is counted from
/// when the wait began.
#[derive(Clone, Copy, PartialEq, Eq, Structural)]
pub enum StartWait {
    Info,
    Balance,
}

/// What a stage waits for, if anything.
pub open spec fn start_wait<T, F>(stage: StartStage<T, F>) -> Option<StartWait> {
    match stage {
        StartStage::AskInfo | StartStage::InfoClock | StartStage::InfoPause => Some(
            StartWait::Info,
        ),
        StartStage::AskBalance { .. } | StartStage::BalanceClock { .. } | StartStage::BalancePause {
            ..
        } => Some(StartWait::Balance),
        _ => None,
    }
}

impl StartStage<String, Failure> {
    /// What the start waits for, if anything. It never asks for the time elsewhere.
    pub fn wait(&self) -> (r: Option<StartWait>)
        ensures
            r == start_wait(*self),
            r is None ==> forall|setup: NodeSetup, ask: StartAsk|
                start_asks(self@, setup, ask) ==> !(ask is Elapsed),
    {
        match self {
            StartStage::AskInfo | StartStage::InfoClock | StartStage::InfoPause => Some(
                StartWait::Info,
            ),
            StartStage::AskBalance { .. } | StartStage::BalanceClock { .. }
            | StartStage::BalancePause { .. } => Some(StartWait::Balance),
            _ => None,
        }
    }

    /// What the start asks for.
    pub fn ask(&self, setup: &NodeSetup) -> (r: StartAsk)
        ensures
            start_asks(self@, *setup, r),
    {
        match self {
            StartStage::ConnectOwner => StartAsk::Connect { secret: setup.owner.secret.clone() },
            StartStage::SettleOwner => StartAsk::SleepMillis(1000),
            StartStage::GrantControl => StartAsk::Publish(
                control_grant(setup.service.public.as_str(), setup.controller.public.as_str()),
            ),
            StartStage::GrantWallet => StartAsk::Publish(
                wallet_grant(setup.service.public.as_str(), setup.client.public.as_str()),
            ),
            StartStage::FindSigner => StartAsk::Find(NodeBinary::Signer),
            StartStage::SpawnSigner { binary } => StartAsk::Spawn {
                which: NodeBinary::Signer,
                plan: setup.signer_plan(binary.as_str()),
            },
            StartStage::SettleSigner => StartAsk::SleepMillis(2000),
            StartStage::PickDir => StartAsk::TmpDir { prefix: "ldk-ctrl".to_owned() },
            StartStage::MakeDir { cwd } => StartAsk::MakeDir { path: cwd.clone() },
            StartStage::MakeDataDir { cwd } => StartAsk::MakeDir {
                path: join_path(cwd.as_str(), "data"),
            },
            StartStage::WriteConfig { cwd } => StartAsk::Write {
                path: join_path(cwd.as_str(), "config.toml"),
                config: setup.config(cwd.as_str()),
            },
            StartStage::FindNode { .. } => StartAsk::Find(NodeBinary::Node),
            StartStage::SpawnNode { cwd, binary } => StartAsk::Spawn {
                which: NodeBinary::Node,
                plan: setup.node_plan(binary.as_str(), cwd.as_str()),
            },
            StartStage::ConnectWallet => StartAsk::Connect { secret: setup.client.secret.clone() },
            StartStage::SettleWallet => StartAsk::SleepMillis(1000),
            StartStage::SubscribeWallet => StartAsk::Subscribe {
                kind: WALLET_RESPONSE_KIND,
                author: setup.service.public.clone(),
            },
            StartStage::AskInfo => StartAsk::Wallet(WalletRequest::GetInfo),
            StartStage::InfoClock => StartAsk::Elapsed,
            StartStage::InfoPause => StartAsk::SleepMillis(1000),
            StartStage::AskAddress { .. } => StartAsk::Wallet(WalletRequest::MakeNewAddress),
            StartStage::Fund { address, .. } => StartAsk::SendToAddress {
                address: address.clone(),
                sats: 5_000_000,
            },
            StartStage::Confirm { txid, .. } => if setup.can_mine {
                StartAsk::Mine { blocks: 1, address: setup.miner_address.clone() }
            } else {
                StartAsk::Confirmations { txid: txid.clone(), want: 1, secs: FUNDING_SECS }
            },
            StartStage::AskBalance { .. } => StartAsk::Wallet(WalletRequest::GetBalance),
            StartStage::BalanceClock { .. } => StartAsk::Elapsed,
            StartStage::BalancePause { .. } => StartAsk::SleepMillis(500),
            StartStage::ConnectControl { .. } => StartAsk::Connect {
                secret: setup.controller.secret.clone(),
            },
            StartStage::SettleControl { .. } => StartAsk::SleepMillis(1000),
            StartStage::SubscribeControl { .. } => StartAsk::Subscribe {
                kind: CONTROL_RESPONSE_KIND,
                author: setup.service.public.clone(),
            },
            StartStage::Ended(_) => StartAsk::Nothing,
        }
    }

    /// Takes what came of it.
    pub fn step(self, setup: &NodeSetup, reply: StartReply) -> (r: StartStage<String, Failure>)
        ensures
            r@ == self@.after(*setup, reply),
    {
        match (self, reply) {
            (StartStage::ConnectOwner, StartReply::Tried(r)) => go_on(r, StartStage::SettleOwner),
            (StartStage::SettleOwner, StartReply::Done) => StartStage::GrantControl,
            (StartStage::GrantControl, StartReply::Tried(r)) => go_on(r, StartStage::GrantWallet),
            (StartStage::GrantWallet, StartReply::Tried(r)) => match setup.mode {
                SignerMode::Nostr => go_on(r, StartStage::FindSigner),
                SignerMode::Plain => go_on(r, StartStage::PickDir),
            },
            (StartStage::FindSigner, StartReply::Found(r)) => match r {
                Ok(binary) => StartStage::SpawnSigner { binary },
                Err(f) => StartStage::Ended(Err(f)),
            },
            (StartStage::SpawnSigner { binary }, StartReply::Tried(r)) => go_on(
                r,
                StartStage::SettleSigner,
            ),
            (StartStage::SettleSigner, StartReply::Done) => StartStage::PickDir,
            (StartStage::PickDir, StartReply::Found(r)) => match r {
                Ok(cwd) => StartStage::MakeDir { cwd },
                Err(f) => StartStage::Ended(Err(f)),
            },
            (StartStage::MakeDir { cwd }, StartReply::Tried(r)) => go_on(
                r,
                StartStage::MakeDataDir { cwd },
            ),
            (StartStage::MakeDataDir { cwd }, StartReply::Tried(r)) => go_on(
                r,
                StartStage::WriteConfig { cwd },
            ),
            (StartStage::WriteConfig { cwd }, StartReply::Wrote(r)) => match r {
                Ok(()) => StartStage::FindNode { cwd },
                Err(f) => StartStage::Ended(Err(f)),
            },
            (StartStage::FindNode { cwd }, StartReply::Found(r)) => match r {
                Ok(binary) => StartStage::SpawnNode { cwd, binary },
                Err(f) => StartStage::Ended(Err(f)),
            },
            (StartStage::SpawnNode { cwd, binary }, StartReply::Tried(r)) => match check_relay_url(
                setup.relay_url.as_str(),
            ) {
                Ok(()) => go_on(r, StartStage::ConnectWallet),
                Err(e) => go_on(r, StartStage::Ended(Err(Failure::new(e)))),
            },
            (StartStage::ConnectWallet, StartReply::Tried(r)) => go_on(
                r,
                StartStage::SettleWallet,
            ),
            (StartStage::SettleWallet, StartReply::Done) => StartStage::SubscribeWallet,
            (StartStage::SubscribeWallet, StartReply::Tried(r)) => go_on(r, StartStage::AskInfo),
            (StartStage::AskInfo, StartReply::Wallet(r)) => match found_id(&r) {
                Some(id) => StartStage::AskAddress { id },
                None => StartStage::InfoClock,
            },
            (StartStage::InfoClock, StartReply::Elapsed(nanos)) => if nanos > 60_000_000_000 {
                StartStage::Ended(
                    Err(Failure::new("timeout waiting for dln-node get_info (60s)".to_owned())),
                )
            } else {
                StartStage::InfoPause
            },
            (StartStage::InfoPause, StartReply::Done) => StartStage::AskInfo,
            (StartStage::AskAddress { id }, StartReply::Wallet(r)) => match make_new_address_reply(
                r,
            ) {
                Ok(address) => StartStage::Fund { id, address },
                Err(f) => StartStage::Ended(Err(f)),
            },
            (StartStage::Fund { id, address }, StartReply::Sent(txid)) => StartStage::Confirm {
                id,
                txid,
            },
            (StartStage::Confirm { id, txid }, StartReply::Done) => if setup.can_mine {
                StartStage::AskBalance { id }
            } else {
                StartStage::Confirm { id, txid }
            },
            (StartStage::Confirm { id, txid }, StartReply::Confirmed(r)) => if setup.can_mine {
                StartStage::Confirm { id, txid }
            } else {
                match r {
                    Ok(_) => StartStage::AskBalance { id },
                    Err(e) => StartStage::Ended(Err(Failure::new(e))),
                }
            },
            (StartStage::AskBalance { id }, StartReply::Wallet(r)) => if funded(&r) {
                StartStage::ConnectControl { id }
            } else {
                StartStage::BalanceClock { id }
            },
            (StartStage::BalanceClock { id }, StartReply::Elapsed(nanos)) => if nanos
                > 30_000_000_000 {
                StartStage::Ended(Err(Failure::new("dln-node funding timeout".to_owned())))
            } else {
                StartStage::BalancePause { id }
            },
            (StartStage::BalancePause { id }, StartReply::Done) => StartStage::AskBalance { id },
            (StartStage::ConnectControl { id }, StartReply::Tried(r)) => go_on(
                r,
                StartStage::SettleControl { id },
            ),
            (StartStage::SettleControl { id }, StartReply::Done) => StartStage::SubscribeControl {
                id,
            },
            (StartStage::SubscribeControl { id }, StartReply::Tried(r)) => go_on(
                r,
                StartStage::Ended(Ok(id)),
            ),
            (stage, _) => stage,
        }
    }
}

/// A start goes through its stages in order and leaves none out, but for those of
/// the signer where the node signs itself: with each reply it fails, stays where
/// it is, or comes one stage further. So the grants are on the relay before the
/// signer and the node are spawned.
pub proof fn start_leaves_no_stage_out(
    stage: StartStage<Seq<char>, Seq<Seq<char>>>,
    setup: NodeSetup,
    reply: StartReply,
)
    ensures
        ({
            let next = stage.after(setup, reply);
            next.failed() || next.progress() == stage.progress() || next.progress()
                == stage.progress() + 1 || (setup.mode == SignerMode::Plain && stage is GrantWallet
                && next is PickDir)
        }),
        (stage is SpawnSigner || stage is SpawnNode) ==> stage.progress() > StartStage::<
            Seq<char>,
            Seq<Seq<char>>,
        >::GrantWallet.progress() > StartStage::<
            Seq<char>,
            Seq<Seq<char>>,
        >::GrantControl.progress(),
{
}

/// A failed attempt never carries a start further: where something was tried and
/// failed, or a reply of the wallet failed, the start does not advance.
pub proof fn start_advances_only_on_success(
    stage: StartStage<Seq<char>, Seq<Seq<char>>>,
    setup: NodeSetup,
    reply: StartReply,
)
    requires
        match reply {
            StartReply::Tried(r) => r is Err,
            StartReply::Found(r) => r is Err,
            StartReply::Wrote(r) => r is Err,
            StartReply::Wallet(r) => r is Err,
            StartReply::Confirmed(r) => r is Err,
            _ => false,
        },
    ensures
        ({
            let next = stage.after(setup, reply);
            next.failed() || next.progress() == stage.progress()
        }),
{
}

/// On a chain that we do not control a start mines nothing: the funds of the node
/// are confirmed by others, or the start fails.
pub proof fn a_start_mines_only_where_it_may(
    stage: StartStage<Seq<char>, Seq<Seq<char>>>,
    setup: NodeSetup,
    ask: StartAsk,
    reply: StartReply,
)
    requires
        !setup.can_mine,
    ensures
        start_asks(stage, setup, ask) ==> !(ask is Mine),
        stage is Confirm && stage.after(setup, reply) != stage ==> (reply matches
            StartReply::Confirmed(r) && (stage.after(setup, reply).failed() <==> r is Err)),
{
}

/// Where a start stands after these replies.
pub open spec fn start_after(setup: NodeSetup, replies: Seq<StartReply>) -> StartStage<
    Seq<char>,
    Seq<Seq<char>>,
>
    decreases replies.len(),
{
    if replies.len() == 0 {
        StartStage::ConnectOwner
    } else {
        start_after(setup, replies.drop_last()).after(setup, replies.last())
    }
}

/// A node that signs itself is started without a signer.
pub proof fn a_plain_start_spawns_no_signer(setup: NodeSetup, replies: Seq<StartReply>)
    requires
        setup.mode == SignerMode::Plain,
    ensures
        !(start_after(setup, replies) is FindSigner),
        !(start_after(setup, replies) is SpawnSigner),
        !(start_after(setup, replies) is SettleSigner),
    decreases replies.len(),
{
    if replies.len() > 0 {
        a_plain_start_spawns_no_signer(setup, replies.drop_last());
    }
}

/// Whether a reply of the wallet gives this id.
pub open spec fn gives_id(reply: StartReply, id: Seq<char>) -> bool {
    reply matches StartReply::Wallet(r) && id_in(reply_failing_view(r)) == Some(id)
}

/// Whether a reply of the wallet gives a balance at which the node counts as
/// funded.
pub open spec fn shows_funds(reply: StartReply) -> bool {
    reply matches StartReply::Wallet(r) && is_funded(reply_failing_view(r))
}

proof fn start_keeps_to_what_it_saw(setup: NodeSetup, replies: Seq<StartReply>)
    ensures
        start_after(setup, replies).known_id() matches Some(id) ==> exists|i: int|
            0 <= i < replies.len() && gives_id(#[trigger] replies[i], id),
        start_after(setup, replies).progress() >= 21 && !start_after(
            setup,
            replies,
        ).failed() ==> exists|i: int|
            0 <= i < replies.len() && shows_funds(#[trigger] replies[i]),
    decreases replies.len(),
{
    if replies.len() > 0 {
        let n = replies.len() - 1;
        let before = replies.drop_last();
        start_keeps_to_what_it_saw(setup, before);
        let stage = start_after(setup, before);
        let next = stage.after(setup, replies.last());
        assert(replies[n] == replies.last());
        if let Some(id) = next.known_id() {
            if stage.known_id() is Some {
                assert(stage.known_id() == Some(id));
                let i = choose|i: int| 0 <= i < before.len() && gives_id(#[trigger] before[i], id);
                assert(gives_id(replies[i], id));
            } else {
                assert(gives_id(replies[n], id));
            }
        }
        if next.progress() >= 21 && !next.failed() {
            if stage.progress() >= 21 {
                assert(!stage.failed());
                let i = choose|i: int| 0 <= i < before.len() && shows_funds(#[trigger] before[i]);
                assert(shows_funds(replies[i]));
            } else {
                assert(shows_funds(replies[n]));
            }
        }
    }
}

/// How often funds were sent to the node.
pub open spec fn times_sent(setup: NodeSetup, replies: Seq<StartReply>) -> nat
    decreases replies.len(),
{
    if replies.len() == 0 {
        0
    } else {
        times_sent(setup, replies.drop_last()) + (if start_after(setup, replies.drop_last()) is Fund
            && replies.last() is Sent {
            1nat
        } else {
            0
        })
    }
}

/// How often a block was mined on the funds, where we may mine, or the chain's
/// own miners were waited for to the end, where we may not.
pub open spec fn times_confirmed(setup: NodeSetup, replies: Seq<StartReply>) -> nat
    decreases replies.len(),
{
    if replies.len() == 0 {
        0
    } else {
        times_confirmed(setup, replies.drop_last()) + (if start_after(setup, replies.drop_last())
            is Confirm && (if setup.can_mine {
            replies.last() is Done
        } else {
            replies.last() is Confirmed
        }) {
            1nat
        } else {
            0
        })
    }
}

/// A start sends funds only where it is to fund the node, and mines or waits for
/// confirmations only where it is to confirm that.
pub proof fn funds_are_asked_for_at_their_stages(
    stage: StartStage<Seq<char>, Seq<Seq<char>>>,
    setup: NodeSetup,
    ask: StartAsk,
)
    requires
        start_asks(stage, setup, ask),
    ensures
        ask is SendToAddress <==> stage is Fund,
        ask is Mine <==> stage is Confirm && setup.can_mine,
        ask is Confirmations <==> stage is Confirm && !setup.can_mine,
{
}

/// A start sends funds at most once and confirms them at most once, and only when
/// they were sent. One that ends well has done both exactly once: it mined a
/// single block where it may, and waited a single time where it may not.
pub proof fn a_node_is_funded_once(setup: NodeSetup, replies: Seq<StartReply>)
    ensures
        times_confirmed(setup, replies) <= times_sent(setup, replies) <= 1,
        start_after(setup, replies) is Confirm ==> times_sent(setup, replies) == 1
            && times_confirmed(setup, replies) == 0,
        !start_after(setup, replies).failed() ==> {
            &&& times_sent(setup, replies) == 1 <==> start_after(setup, replies).progress() >= 19
            &&& times_confirmed(setup, replies) == 1 <==> start_after(setup, replies).progress()
                >= 20
        },
        start_after(setup, replies) matches StartStage::Ended(Ok(_)) ==> times_sent(setup, replies)
            == 1 && times_confirmed(setup, replies) == 1,
    decreases replies.len(),
{
    if replies.len() > 0 {
        a_node_is_funded_once(setup, replies.drop_last());
    }
}

/// A node counts as started under an id that its own information gave, and only
/// where its balance was seen to be at least four million sats.
pub proof fn a_started_node_is_known_and_funded(
    setup: NodeSetup,
    replies: Seq<StartReply>,
    id: Seq<char>,
)
    requires
        start_after(setup, replies) == StartStage::<Seq<char>, Seq<Seq<char>>>::Ended(Ok(id)),
    ensures
        exists|i: int| 0 <= i < replies.len() && gives_id(#[trigger] replies[i], id),
        exists|i: int| 0 <= i < replies.len() && shows_funds(#[trigger] replies[i]),
{
    start_keeps_to_what_it_saw(setup, replies);
}

// ---------------------------------------------------------------------------
// How the parts of a start fit together
// ---------------------------------------------------------------------------

/// Whether `ask` is what a start asks for after the first `i` of these replies.
pub open spec fn asked_at(
    setup: NodeSetup,
    replies: Seq<StartReply>,
    i: int,
    ask: StartAsk,
) -> bool {
    start_asks(start_after(setup, replies.take(i)), setup, ask)
}

/// The directory that a stage works in, if it has one.
spec fn dir_of(stage: StartStage<Seq<char>, Seq<Seq<char>>>) -> Option<Seq<char>> {
    match stage {
        StartStage::MakeDir { cwd } | StartStage::MakeDataDir { cwd } | StartStage::WriteConfig {
            cwd,
        }
        | StartStage::FindNode { cwd } | StartStage::SpawnNode { cwd, .. } => Some(cwd),
        _ => None,
    }
}

/// One more reply.
proof fn one_more(setup: NodeSetup, replies: Seq<StartReply>, i: int)
    requires
        0 <= i < replies.len(),
    ensures
        start_after(setup, replies.take(i + 1)) == start_after(setup, replies.take(i)).after(
            setup,
            replies[i],
        ),
{
    assert(replies.take(i + 1).drop_last() =~= replies.take(i));
    assert(replies.take(i + 1).last() == replies[i]);
}

/// A start stays in its directory until the node is spawned.
proof fn the_directory_is_kept(setup: NodeSetup, replies: Seq<StartReply>, i: int, j: int)
    requires
        0 <= i <= j <= replies.len(),
        dir_of(start_after(setup, replies.take(i))) is Some,
    ensures
        dir_of(start_after(setup, replies.take(j))) == dir_of(start_after(setup, replies.take(i)))
            || start_after(setup, replies.take(j)).progress() > 12,
    decreases j - i,
{
    if i < j {
        the_directory_is_kept(setup, replies, i, j - 1);
        one_more(setup, replies, j - 1);
    }
}

/// The node runs where its configuration is: where a start asked to write a
/// configuration to a path and later asks to spawn the node, the node is given a
/// working directory, the path is that of config.toml in it, and the data
/// directory that the configuration names is data in it.
pub proof fn the_node_runs_where_its_configuration_is(
    setup: NodeSetup,
    replies: Seq<StartReply>,
    i: int,
    j: int,
    path: String,
    config: LdkConfig,
    plan: SpawnPlan,
)
    requires
        0 <= i <= j <= replies.len(),
        asked_at(setup, replies, i, StartAsk::Write { path, config }),
        asked_at(setup, replies, j, StartAsk::Spawn { which: NodeBinary::Node, plan }),
    ensures
        plan@.cwd matches Some(dir) && path@ == path_in(dir, "config.toml"@)
            && config.node.data_dir@ == path_in(dir, "data"@),
{
    the_directory_is_kept(setup, replies, i, j);
}

/// Whether, after the first `i` replies, a start had the directory `dir` made.
pub open spec fn had_made(
    setup: NodeSetup,
    replies: Seq<StartReply>,
    i: int,
    dir: Seq<char>,
) -> bool {
    &&& replies[i] matches StartReply::Tried(Ok(_))
    &&& forall|ask: StartAsk| #[trigger]
        asked_at(setup, replies, i, ask) ==> (ask matches StartAsk::MakeDir { path } && path@
            == dir)
}

/// Whether, after the first `i` replies, a start had a configuration of the node
/// written to config.toml in the directory `dir`.
pub open spec fn had_written(
    setup: NodeSetup,
    replies: Seq<StartReply>,
    i: int,
    dir: Seq<char>,
) -> bool {
    &&& replies[i] matches StartReply::Wrote(Ok(_))
    &&& forall|ask: StartAsk| #[trigger]
        asked_at(setup, replies, i, ask) ==> (ask matches StartAsk::Write { path, config } && path@
            == path_in(dir, "config.toml"@) && config.node.data_dir@ == path_in(dir, "data"@))
}

/// Whether, after the first `i` replies, a start picked the directory `dir`.
pub open spec fn had_picked(
    setup: NodeSetup,
    replies: Seq<StartReply>,
    i: int,
    dir: Seq<char>,
) -> bool {
    &&& replies[i] matches StartReply::Found(Ok(found)) && found@ == dir
    &&& forall|ask: StartAsk| #[trigger]
        asked_at(setup, replies, i, ask) ==> (ask matches StartAsk::TmpDir { prefix } && prefix@
            == "ldk-ctrl"@)
}

/// Whether, after the first `i` replies, a start found a binary at a path.
pub open spec fn had_found(
    setup: NodeSetup,
    replies: Seq<StartReply>,
    i: int,
    which: NodeBinary,
    binary: Seq<char>,
) -> bool {
    &&& replies[i] matches StartReply::Found(Ok(found)) && found@ == binary
    &&& forall|ask: StartAsk| #[trigger]
        asked_at(setup, replies, i, ask) ==> ask == StartAsk::Find(which)
}

/// What a stage of a start rests on.
spec fn prepared(setup: NodeSetup, replies: Seq<StartReply>, n: int) -> bool {
    let stage = start_after(setup, replies.take(n));
    &&& stage matches StartStage::SpawnSigner { binary } ==> exists|i: int|
        0 <= i < n && #[trigger] had_found(setup, replies, i, NodeBinary::Signer, binary)
    &&& stage matches StartStage::SpawnNode { binary, .. } ==> exists|i: int|
        0 <= i < n && #[trigger] had_found(setup, replies, i, NodeBinary::Node, binary)
    &&& dir_of(stage) matches Some(dir) ==> {
        &&& exists|i: int| 0 <= i < n && #[trigger] had_picked(setup, replies, i, dir)
        &&& stage.progress() > 8 ==> exists|i: int|
            0 <= i < n && #[trigger] had_made(setup, replies, i, dir)
        &&& stage.progress() > 9 ==> exists|i: int|
            0 <= i < n && #[trigger] had_made(setup, replies, i, path_in(dir, "data"@))
        &&& stage.progress() > 10 ==> exists|i: int|
            0 <= i < n && #[trigger] had_written(setup, replies, i, dir)
    }
}

#[verifier::spinoff_prover]
proof fn stages_are_prepared(setup: NodeSetup, replies: Seq<StartReply>, n: int)
    requires
        0 <= n <= replies.len(),
    ensures
        prepared(setup, replies, n),
    decreases n,
{
    if n > 0 {
        let i: int = n - 1;
        stages_are_prepared(setup, replies, i);
        one_more(setup, replies, i);
        let before = start_after(setup, replies.take(i));
        let stage = start_after(setup, replies.take(n));
        if let StartStage::SpawnSigner { binary } = stage {
            if before is FindSigner {
                assert(had_found(setup, replies, i, NodeBinary::Signer, binary));
            }
        }
        if let StartStage::SpawnNode { binary, .. } = stage {
            if before is FindNode {
                assert(had_found(setup, replies, i, NodeBinary::Node, binary));
            }
        }
        if let Some(dir) = dir_of(stage) {
            if before is PickDir {
                assert(had_picked(setup, replies, i, dir));
            }
            if before is MakeDir && stage is MakeDataDir {
                assert(had_made(setup, replies, i, dir));
            }
            if before is MakeDataDir && stage is WriteConfig {
                assert(had_made(setup, replies, i, path_in(dir, "data"@)));
            }
            if before is WriteConfig && stage is FindNode {
                assert(had_written(setup, replies, i, dir));
            }
        }
    } else {
        assert(replies.take(0).len() == 0);
    }
}

/// What is spawned was found, and is prepared for: a start asks to spawn a binary
/// only by the path at which that binary was found, and the node only in a
/// directory that was picked and made, with its data directory and its
/// configuration in it.
pub proof fn what_is_spawned_is_prepared_for(
    setup: NodeSetup,
    replies: Seq<StartReply>,
    n: int,
    which: NodeBinary,
    plan: SpawnPlan,
)
    requires
        0 <= n <= replies.len(),
        asked_at(setup, replies, n, StartAsk::Spawn { which, plan }),
    ensures
        exists|i: int| 0 <= i < n && #[trigger] had_found(setup, replies, i, which, plan@.program),
        which == NodeBinary::Node <==> plan@.cwd is Some,
        plan@.cwd matches Some(dir) ==> {
            &&& exists|i: int| 0 <= i < n && #[trigger] had_picked(setup, replies, i, dir)
            &&& exists|i: int| 0 <= i < n && #[trigger] had_made(setup, replies, i, dir)
            &&& exists|i: int|
                0 <= i < n && #[trigger] had_made(setup, replies, i, path_in(dir, "data"@))
            &&& exists|i: int| 0 <= i < n && #[trigger] had_written(setup, replies, i, dir)
        },
{
    stages_are_prepared(setup, replies, n);
    match start_after(setup, replies.take(n)) {
        StartStage::SpawnSigner { binary } | StartStage::SpawnNode { binary, .. } => {
            assert(plan@.program == binary);
            let i = choose|i: int|
                0 <= i < n && #[trigger] had_found(setup, replies, i, which, binary);
            assert(had_found(setup, replies, i, which, plan@.program));
        },
        _ => {},
    }
}

/// The two processes of a start do not share a log, and both logs are in the
/// output directory.
pub proof fn the_processes_of_a_start_log_apart(
    setup: NodeSetup,
    one: StartStage<Seq<char>, Seq<Seq<char>>>,
    other: StartStage<Seq<char>, Seq<Seq<char>>>,
    signer: SpawnPlan,
    node: SpawnPlan,
)
    requires
        start_asks(one, setup, StartAsk::Spawn { which: NodeBinary::Signer, plan: signer }),
        start_asks(other, setup, StartAsk::Spawn { which: NodeBinary::Node, plan: node }),
    ensures
        signer@.log_path == path_in(setup.output_dir@, "alice-eln-signer.log"@),
        node@.log_path == path_in(setup.output_dir@, "dln-node.log"@),
        node@.args.len() == 0,
{
    reveal_strlit("alice-eln-signer");
    reveal_strlit("dln-node");
    reveal_strlit(".log");
    reveal_strlit("alice-eln-signer.log");
    reveal_strlit("dln-node.log");
    assert("alice-eln-signer"@ + ".log"@ =~= "alice-eln-signer.log"@);
    assert("dln-node"@ + ".log"@ =~= "dln-node.log"@);
}

/// The node and its signer reach each other: the signer answers the key that the
/// node's configuration signs with, the configuration names the key that the
/// signer signs with, and both are on one relay and one network. The
/// configuration has a signer exactly where the node does not sign itself.
pub proof fn the_node_and_its_signer_reach_each_other(
    setup: NodeSetup,
    one: StartStage<Seq<char>, Seq<Seq<char>>>,
    other: StartStage<Seq<char>, Seq<Seq<char>>>,
    plan: SpawnPlan,
    path: String,
    config: LdkConfig,
)
    requires
        setup.wf(),
        start_asks(one, setup, StartAsk::Spawn { which: NodeBinary::Signer, plan }),
        start_asks(other, setup, StartAsk::Write { path, config }),
    ensures
        config.signer is Some <==> setup.mode == SignerMode::Nostr,
        config.signer matches Some(signer) ==> {
            let args = plan@.args;
            &&& signer.transport@ == "nostr"@
            &&& args[0] == "--relay"@ && args[1] == signer.relay@ && args[1]
                == config.nostr.relay@
            &&& args[2] == "--proxy-pubkey"@ && exists|secret: Seq<u8>|
                signer.nsec@ == #[trigger] hex_text(secret) && args[3] == public_key_hex(secret)
            &&& args[4] == "--nsec"@ && exists|secret: Seq<u8>|
                args[5] == #[trigger] hex_text(secret) && signer.signer_pubkey@ == public_key_hex(
                    secret,
                )
            &&& args[6] == "--network"@ && args[7] == config.node.network@
        },
{
    assert(plan@.args == signer_args(setup));
    assert(plan@.args[3] == public_key_hex(setup.proxy.secret@));
    assert(plan@.args[5] == hex_text(setup.signer.secret@));
    if let Some(signer) = config.signer {
        assert(signer.nsec@ == hex_text(setup.proxy.secret@));
    }
}

/// Who is granted what is who asks for it: the key that the node runs with is
/// the one whose grants are published and whose answers are subscribed to. The
/// control methods are granted to the key that connects for control, the wallet
/// methods to the one that connects for the wallet and that asks on its line.
pub proof fn the_granted_keys_are_those_that_ask(
    setup: NodeSetup,
    path: String,
    config: LdkConfig,
    cwd: Seq<char>,
    id: Seq<char>,
    control_grants: EventDraft,
    wallet_grants: EventDraft,
    control: Vec<u8>,
    wallet: Vec<u8>,
    control_kind: u16,
    control_author: String,
    wallet_kind: u16,
    wallet_author: String,
)
    requires
        setup.wf(),
        start_asks(StartStage::WriteConfig { cwd }, setup, StartAsk::Write { path, config }),
        start_asks(StartStage::GrantControl, setup, StartAsk::Publish(control_grants)),
        start_asks(StartStage::GrantWallet, setup, StartAsk::Publish(wallet_grants)),
        start_asks(StartStage::ConnectControl { id }, setup, StartAsk::Connect { secret: control }),
        start_asks(StartStage::ConnectWallet, setup, StartAsk::Connect { secret: wallet }),
        start_asks(
            StartStage::SubscribeControl { id },
            setup,
            StartAsk::Subscribe { kind: control_kind, author: control_author },
        ),
        start_asks(
            StartStage::SubscribeWallet,
            setup,
            StartAsk::Subscribe { kind: wallet_kind, author: wallet_author },
        ),
    ensures
        control_kind == 23199 && wallet_kind == 23195,
        exists|secret: Seq<u8>|
            {
                &&& config.nostr.private_key@ == #[trigger] hex_text(secret)
                &&& control_author@ == public_key_hex(secret)
                &&& wallet_author@ == public_key_hex(secret)
                &&& control_grants@ == grant(
                    public_key_hex(secret),
                    public_key_hex(control@),
                    control_grant_body(),
                )
                &&& wallet_grants@ == grant(
                    public_key_hex(secret),
                    public_key_hex(wallet@),
                    wallet_grant_body(),
                )
            },
{
    assert(config.nostr.private_key@ == hex_text(setup.service.secret@));
}

/// The configuration says what the setup does: the network, the relay, the port
/// that the node listens on and how its chain is reached.
pub proof fn the_configuration_follows_the_setup(
    setup: NodeSetup,
    stage: StartStage<Seq<char>, Seq<Seq<char>>>,
    path: String,
    config: LdkConfig,
)
    requires
        start_asks(stage, setup, StartAsk::Write { path, config }),
    ensures
        config.node.network@ == setup.network@,
        config.node.listening_port == setup.ln_port,
        config.nostr.relay@ == setup.relay_url@,
        config.bitcoind.rpc_host@ == setup.rpc_host@ && config.bitcoind.rpc_port == setup.rpc_port
            && config.bitcoind.rpc_user@ == setup.rpc_user@ && config.bitcoind.rpc_password@
            == setup.rpc_password@,
        config.wallet.min_channel_size_sats == 20_000 && config.wallet.max_channel_size_sats
            == 10_000_000 && config.wallet.auto_accept_channels,
{
}

/// Whether, after the first `i` replies, a start was given this address.
pub open spec fn was_given(
    setup: NodeSetup,
    replies: Seq<StartReply>,
    i: int,
    address: Seq<char>,
) -> bool {
    &&& replies[i] matches StartReply::Wallet(r) && new_address(reply_failing_view(r)) == Ok::<
        Seq<char>,
        Seq<Seq<char>>,
    >(address)
    &&& forall|ask: StartAsk| #[trigger]
        asked_at(setup, replies, i, ask) ==> ask == StartAsk::Wallet(WalletRequest::MakeNewAddress)
}

/// Whether, after the first `i` replies, a start sent five million sats and was
/// told this transaction id.
pub open spec fn was_sent(
    setup: NodeSetup,
    replies: Seq<StartReply>,
    i: int,
    txid: Seq<char>,
) -> bool {
    &&& replies[i] matches StartReply::Sent(sent) && sent@ == txid
    &&& forall|ask: StartAsk| #[trigger]
        asked_at(setup, replies, i, ask) ==> (ask matches StartAsk::SendToAddress { sats, .. }
            && sats == 5_000_000)
}

/// What the funding of a stage rests on.
spec fn funds_follow(setup: NodeSetup, replies: Seq<StartReply>, n: int) -> bool {
    let stage = start_after(setup, replies.take(n));
    &&& stage matches StartStage::Fund { address, .. } ==> exists|i: int|
        0 <= i < n && #[trigger] was_given(setup, replies, i, address)
    &&& stage matches StartStage::Confirm { txid, .. } ==> exists|i: int|
        0 <= i < n && #[trigger] was_sent(setup, replies, i, txid)
}

#[verifier::spinoff_prover]
proof fn funds_are_followed(setup: NodeSetup, replies: Seq<StartReply>, n: int)
    requires
        0 <= n <= replies.len(),
    ensures
        funds_follow(setup, replies, n),
    decreases n,
{
    if n > 0 {
        let i: int = n - 1;
        funds_are_followed(setup, replies, i);
        one_more(setup, replies, i);
        let before = start_after(setup, replies.take(i));
        let stage = start_after(setup, replies.take(n));
        if let StartStage::Fund { address, .. } = stage {
            if before is AskAddress {
                assert(was_given(setup, replies, i, address));
            }
        }
        if let StartStage::Confirm { txid, .. } = stage {
            if before is Fund {
                assert(was_sent(setup, replies, i, txid));
            }
        }
    } else {
        assert(replies.take(0).len() == 0);
    }
}

/// The funds go to the node and are followed: they are sent to an address that
/// the node's wallet gave when it was asked for one, and what is waited for is
/// one confirmation of the transaction that sent them. Where we may mine, one
/// block is mined instead, to the miner's address.
pub proof fn the_funds_go_to_the_node(
    setup: NodeSetup,
    replies: Seq<StartReply>,
    n: int,
    ask: StartAsk,
)
    requires
        0 <= n <= replies.len(),
        asked_at(setup, replies, n, ask),
    ensures
        ask matches StartAsk::SendToAddress { address, sats } ==> sats == 5_000_000 && exists|
            i: int,
        | 0 <= i < n && #[trigger] was_given(setup, replies, i, address@),
        ask matches StartAsk::Confirmations { txid, want, secs } ==> want == 1 && secs == 1200
            && exists|i: int| 0 <= i < n && #[trigger] was_sent(setup, replies, i, txid@),
        ask matches StartAsk::Mine { blocks, address } ==> blocks == 1 && address@
            == setup.miner_address@,
{
    funds_are_followed(setup, replies, n);
}

/// A node is waited for as long as it is owed: it is asked who it is again while
/// a minute has not passed, and for its balance while half a minute has not. A
/// balance of four fifths of what was sent is enough, and less is not.
pub proof fn a_node_is_waited_for(
    setup: NodeSetup,
    id: Seq<char>,
    nanos: u128,
    reply: Result<WalletReply<String>, Failure>,
)
    ensures
        ({
            let next = StartStage::<Seq<char>, Seq<Seq<char>>>::InfoClock.after(
                setup,
                StartReply::Elapsed(nanos),
            );
            if nanos <= 60 * 1_000_000_000 {
                next.after(setup, StartReply::Done) is AskInfo
            } else {
                next.failed()
            }
        }),
        ({
            let next = StartStage::BalanceClock { id }.after(setup, StartReply::Elapsed(nanos));
            if nanos <= 30 * 1_000_000_000 {
                next.after(setup, StartReply::Done) == StartStage::<
                    Seq<char>,
                    Seq<Seq<char>>,
                >::AskBalance { id }
            } else {
                next.failed()
            }
        }),
        ({
            let next = StartStage::AskBalance { id }.after(setup, StartReply::Wallet(reply));
            let balance = match reply_failing_view(reply) {
                Ok(told) => match told.balance() {
                    Ok(msat) => msat as int,
                    Err(_) => -1,
                },
                Err(_) => -1,
            };
            next is ConnectControl <==> 5 * balance >= 4 * 5_000_000 * 1000
        }),
{
}

/// A start that is answered well gets to its end: whatever it asks for, there is
/// a reply that carries it one stage further, and a relay address that cannot be
/// used is the one thing in the setup that stops it.
pub proof fn a_start_can_go_on(
    setup: NodeSetup,
    stage: StartStage<Seq<char>, Seq<Seq<char>>>,
    txid: String,
    path: String,
)
    requires
        relay_url_error(setup.relay_url@) is None,
    ensures
        match stage {
            StartStage::ConnectOwner | StartStage::GrantControl | StartStage::GrantWallet
            | StartStage::SpawnSigner { .. } | StartStage::MakeDir { .. }
            | StartStage::MakeDataDir { .. } | StartStage::SpawnNode { .. }
            | StartStage::ConnectWallet | StartStage::SubscribeWallet
            | StartStage::ConnectControl { .. } => {
                let next = stage.after(setup, StartReply::Tried(Ok(())));
                !next.failed() && next.progress() > stage.progress()
            },
            StartStage::SettleOwner | StartStage::SettleSigner | StartStage::SettleWallet
            | StartStage::SettleControl { .. } => {
                stage.after(setup, StartReply::Done).progress() == stage.progress() + 1
            },
            StartStage::FindSigner | StartStage::PickDir | StartStage::FindNode { .. } => {
                let next = stage.after(setup, StartReply::Found(Ok(path)));
                !next.failed() && next.progress() == stage.progress() + 1
            },
            StartStage::WriteConfig { .. } => {
                stage.after(setup, StartReply::Wrote(Ok(()))) is FindNode
            },
            StartStage::Fund { .. } => stage.after(setup, StartReply::Sent(txid)) is Confirm,
            StartStage::Confirm { .. } => if setup.can_mine {
                stage.after(setup, StartReply::Done) is AskBalance
            } else {
                stage.after(setup, StartReply::Confirmed(Ok(1))) is AskBalance
            },
            StartStage::SubscribeControl { id } => stage.after(setup, StartReply::Tried(Ok(())))
                == StartStage::<Seq<char>, Seq<Seq<char>>>::Ended(Ok(id)),
            _ => true,
        },
{
}

/// Whether a reply is of the sort that something asked for is answered with.
pub open spec fn replies_to(ask: StartAsk, reply: StartReply) -> bool {
    match ask {
        StartAsk::Connect { .. } | StartAsk::Publish(_) | StartAsk::Spawn { .. }
        | StartAsk::MakeDir { .. } | StartAsk::Subscribe { .. } => reply is Tried,
        StartAsk::SleepMillis(_) | StartAsk::Mine { .. } => reply is Done,
        StartAsk::Find(_) | StartAsk::TmpDir { .. } => reply is Found,
        StartAsk::Write { .. } => reply is Wrote,
        StartAsk::Wallet(_) => reply is Wallet,
        StartAsk::Elapsed => reply is Elapsed,
        StartAsk::SendToAddress { .. } => reply is Sent,
        StartAsk::Confirmations { .. } => reply is Confirmed,
        StartAsk::Nothing => false,
    }
}

/// A reply to something else than what a start asks for changes nothing. One that
/// says that what was asked for failed ends the start, with the reason that it
/// gives, where the wallet is not being polled.
pub proof fn a_start_takes_only_what_it_asks_for(
    stage: StartStage<Seq<char>, Seq<Seq<char>>>,
    setup: NodeSetup,
    ask: StartAsk,
    reply: StartReply,
)
    requires
        start_asks(stage, setup, ask),
    ensures
        !replies_to(ask, reply) ==> stage.after(setup, reply) == stage,
        replies_to(ask, reply) ==> match reply {
            StartReply::Tried(Err(e)) => stage.after(setup, reply) == StartStage::<
                Seq<char>,
                Seq<Seq<char>>,
            >::Ended(Err(seq![e@])),
            StartReply::Confirmed(Err(e)) => stage.after(setup, reply) == StartStage::<
                Seq<char>,
                Seq<Seq<char>>,
            >::Ended(Err(seq![e@])),
            StartReply::Found(Err(f)) => stage.after(setup, reply) == StartStage::<
                Seq<char>,
                Seq<Seq<char>>,
            >::Ended(Err(f@)),
            StartReply::Wrote(Err(f)) => stage.after(setup, reply) == StartStage::<
                Seq<char>,
                Seq<Seq<char>>,
            >::Ended(Err(f@)),
            StartReply::Wallet(Err(_)) => ask == StartAsk::Wallet(WalletRequest::MakeNewAddress)
                ==> stage.after(setup, reply).failed(),
            _ => true,
        },
{
}

// ---------------------------------------------------------------------------
// A running node
// ---------------------------------------------------------------------------

/// Blackbox dln-node node managed as a child process.
pub struct ElnNode {
    pub child: ManagedChild,
    pub signer_child: Option<ManagedChild>,
    pub ln_port: u16,
    pub node_id: String,
    /// The line for control requests.
    pub control: ControlPlane,
    /// The line for wallet requests.
    pub wallet: ControlPlane,
}

impl ElnNode {
    /// Start dln-node as a child process, publish Nostr grants,
    /// wait for readiness, and fund the on-chain wallet.
    pub fn start() -> (r: StartStage<String, Failure>)
        ensures
            r@ == StartStage::<Seq<char>, Seq<Seq<char>>>::ConnectOwner,
    {
        StartStage::ConnectOwner
    }

    /// The line on which the wallet is asked during a start.
    pub fn wallet_line(setup: &NodeSetup) -> (r: ControlPlane)
        ensures
            r@.secret == setup.client.secret@,
            r@.service == setup.service.public@,
    {
        ControlPlane { secret: setup.client.secret.clone(), service: setup.service.public.clone() }
    }

    /// The node that a start gave.
    pub fn started(
        setup: NodeSetup,
        node_id: String,
        child: ManagedChild,
        signer_child: Option<ManagedChild>,
    ) -> (r: ElnNode)
        ensures
            r.node_id@ == node_id@,
            r.ln_port == setup.ln_port,
            r.child == child,
            r.signer_child == signer_child,
            r.control@.secret == setup.controller.secret@,
            r.control@.service == setup.service.public@,
            r.wallet@.secret == setup.client.secret@,
            r.wallet@.service == setup.service.public@,
    {
        let wallet = Self::wallet_line(&setup);
        ElnNode {
            child,
            signer_child,
            ln_port: setup.ln_port,
            node_id,
            control: ControlPlane {
                secret: setup.controller.secret,
                service: setup.service.public,
            },
            wallet,
        }
    }

    pub fn node_id(&self) -> (r: String)
        ensures
            r@ == self.node_id@,
    {
        self.node_id.clone()
    }

    /// Open a channel via NCC. `push_amount` is in **sats** (the NCC handler
    /// converts to msat internally).
    pub fn open_channel(&self, node_id: &str, addr: &str, amount: u64, push_amount: Option<u64>) -> (r:
        ControlCall<EventDraft, serde_json::Value, Failure>)
        ensures
            begins(
                r,
                self.control@,
                control_request(
                    "open_channel"@,
                    open_channel_params(node_id@, addr@, amount, push_amount),
                ),
            ),
    {
        let payload = open_channel_request(node_id, addr, amount, push_amount);
        ControlCall::send_ncc_request(&self.control, &payload)
    }

    /// List channels via NCC.
    pub fn list_channels(&self) -> (r: ControlCall<EventDraft, serde_json::Value, Failure>)
        ensures
            begins(
                r,
                self.control@,
                control_request("list_channels"@, JsonView::empty()),
            ),
    {
        let payload = list_channels_request();
        ControlCall::send_ncc_request(&self.control, &payload)
    }

    /// Close a channel via NCC.
    pub fn close_channel(&self, channel_id: &str, force: bool) -> (r: ControlCall<
        EventDraft,
        serde_json::Value,
        Failure,
    >)
        ensures
            begins(
                r,
                self.control@,
                control_request(
                    "close_channel"@,
                    JsonView::empty().with("id"@, JsonView::Text(channel_id@)).with(
                        "force"@,
                        JsonView::Bool(force),
                    ),
                ),
            ),
    {
        let payload = close_channel_request(channel_id, force);
        ControlCall::send_ncc_request(&self.control, &payload)
    }

    /// Check if there is any channel with the given node_id (any state) in a
    /// listing of this node's channels.
    pub fn has_channel_with(&self, listed: &Result<Vec<serde_json::Value>, Failure>, node_id: &str) -> (r:
        bool)
        ensures
            r == lists_channel(channels_view(*listed), node_id@),
    {
        has_channel_with(listed, node_id)
    }

    /// Check if there is an active (ready + usable) channel with the given
    /// node_id in a listing of this node's channels.
    pub fn has_ready_channel_with(
        &self,
        listed: &Result<Vec<serde_json::Value>, Failure>,
        node_id: &str,
    ) -> (r: bool)
        ensures
            r == lists_ready_channel(channels_view(*listed), node_id@),
    {
        has_ready_channel_with(listed, node_id)
    }

    /// Pay a Lightning invoice via NWC.
    pub fn pay_invoice(&self, invoice: &str) -> (r: WalletCall<
        Outgoing,
        WalletReply<String>,
        Failure,
    >)
        ensures
            begins_wallet_call(r, self.wallet@, WalletRequest::PayInvoice(invoice@)),
    {
        let request = WalletRequest::PayInvoice(invoice.to_owned());
        WalletCall::send_nwc_request(&self.wallet, &request)
    }

    /// Get on-chain + lightning balance in millisatoshis via NWC.
    pub fn get_balance_msat(&self) -> (r: WalletCall<Outgoing, WalletReply<String>, Failure>)
        ensures
            begins_wallet_call(r, self.wallet@, WalletRequest::<Seq<char>>::GetBalance),
    {
        let request: WalletRequest<String> = WalletRequest::GetBalance;
        WalletCall::send_nwc_request(&self.wallet, &request)
    }
}

} // verus!
