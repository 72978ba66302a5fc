//! The exchange's scenarios: two chains, four nodes, and a swap between them.
//!
//! A scenario is a list of steps. A run takes one step after the other: it asks
//! for something, takes what came of it, and goes on or ends. Whoever runs it
//! performs what is asked; everything that is decided is decided here.

use vstd::prelude::*;
use crate::bitcoind::AttachConfig;
use crate::codec::{bolt11_hash, read_bolt11_hash, NostrKeys};
use crate::legs::{Legs, Party};
use crate::outcome::during;
use crate::text::{cat2, option_view, quoted, result_view};

verus! {

/// Which scenario is run.
#[derive(Clone, Copy, PartialEq, Eq, Structural)]
pub enum Kind {
    /// The exchange's topology, before any swap runs over it.
    TwoChains,
    /// An atomic swap across two chains that both have v1 headers.
    LightningSwap,
    /// The same with a chain that has activated BLAKE2b.
    SwapOnBtk,
    /// The same on two live chains that nobody here can mine on.
    SwapOnSignets,
}

/// One of the two chains.
#[derive(Clone, Copy, PartialEq, Eq, Structural)]
pub enum Chain {
    Core,
    Knots,
}

/// The block whose header is checked.
#[derive(Clone, Copy, PartialEq, Eq, Structural)]
pub enum At {
    Height(u64),
    /// The tips as they were first read.
    CoreTip,
    KnotsTip,
    /// The block that the Knots channel's funding is in.
    Funding,
}

/// A step of a scenario.
#[derive(Clone, Copy, PartialEq, Eq, Structural)]
pub enum Step {
    /// Build the node for the Knots chain.
    BuildKnots,
    /// No binary may be put on both chains.
    RefuseOverride,
    /// Start a chain of our own, or attach to one that is not.
    StartCore,
    StartKnots,
    AttachCore,
    AttachKnots,
    /// Neither chain may be ours to mine.
    RefuseMining,
    CoreAddress,
    KnotsAddress,
    MineCore(u64),
    MineKnots(u64),
    /// The two chains are reached on different ports.
    CheckPorts,
    /// Heights, as `getblockchaininfo` gives them.
    KnotsBefore,
    CoreHeight,
    KnotsAfter,
    /// Mining on one chain moved that chain only.
    CheckIndependence,
    /// Heights, as `getblockcount` gives them.
    CoreTip,
    KnotsTip,
    CheckTips,
    /// A block's header has a format.
    Header { chain: Chain, at: At, want: u64 },
    StartRelay,
    StartNode(Party),
    /// The four nodes are four.
    CheckIds,
    OpenCore,
    OpenKnots,
    AwaitChannels,
    /// No node sees a channel of the other chain.
    CoreSeesKnots,
    KnotsSeesCore,
    /// Where the Knots channel was funded.
    FundingTx,
    FundingHeight,
    CheckActivated,
    /// The swap itself.
    MakeSecret,
    AliceBefore,
    BobBefore,
    AliceInvoice,
    BobInvoice,
    CheckInvoices,
    RunLegs,
    AwaitBalances,
    AliceAfter,
    BobAfter,
}

/// Height at which the Knots chain activates BLAKE2b. Both channels are
/// funded well above it, so no block either leg depends on is v1.
pub const ACTIVATION_HEIGHT: u64 = 115;

/// Mined on the Knots chain before anything else happens — past both
/// coinbase maturity and the activation height.
pub const KNOTS_PREMINE: u64 = 130;

pub const CHANNEL_SATS: u64 = 2_000_000;

pub const PUSH_MSAT: u64 = 500_000;

/// Distinct per chain, so a balance assertion cannot pass by coincidence.
pub const CORE_LEG_MSAT: u64 = 120_000;

pub const KNOTS_LEG_MSAT: u64 = 250_000;

/// What comes before the swap.
#[verifier::opaque]
pub open spec fn prelude(kind: Kind) -> Seq<Step> {
    match kind {
        Kind::TwoChains => seq![
            Step::BuildKnots,
            Step::StartCore,
            Step::StartKnots,
            Step::CoreAddress,
            Step::KnotsAddress,
            Step::MineCore(110),
            Step::MineKnots(110),
            Step::CheckPorts,
            Step::KnotsBefore,
            Step::MineCore(5),
            Step::CoreHeight,
            Step::KnotsAfter,
            Step::CheckIndependence,
            Step::StartRelay,
            Step::StartNode(Party::AliceCore),
            Step::StartNode(Party::BobCore),
            Step::StartNode(Party::AliceKnots),
            Step::StartNode(Party::BobKnots),
            Step::CheckIds,
            Step::OpenCore,
            Step::OpenKnots,
            Step::AwaitChannels,
            Step::CoreSeesKnots,
            Step::KnotsSeesCore,
        ],
        Kind::LightningSwap => seq![
            Step::BuildKnots,
            Step::StartCore,
            Step::StartKnots,
            Step::CoreAddress,
            Step::KnotsAddress,
            Step::MineCore(110),
            Step::MineKnots(110),
            Step::StartRelay,
            Step::StartNode(Party::AliceCore),
            Step::StartNode(Party::BobCore),
            Step::StartNode(Party::AliceKnots),
            Step::StartNode(Party::BobKnots),
            Step::OpenCore,
            Step::OpenKnots,
            Step::AwaitChannels,
        ],
        Kind::SwapOnBtk => seq![
            Step::BuildKnots,
            Step::RefuseOverride,
            Step::StartCore,
            Step::StartKnots,
            Step::CoreAddress,
            Step::KnotsAddress,
            Step::MineCore(110),
            Step::MineKnots(KNOTS_PREMINE),
            Step::Header { chain: Chain::Core, at: At::Height(110), want: 1 },
            Step::Header { chain: Chain::Knots, at: At::Height(114), want: 1 },
            Step::Header { chain: Chain::Knots, at: At::Height(ACTIVATION_HEIGHT), want: 2 },
            Step::Header { chain: Chain::Knots, at: At::Height(KNOTS_PREMINE), want: 2 },
            Step::StartRelay,
            Step::StartNode(Party::AliceCore),
            Step::StartNode(Party::BobCore),
            Step::StartNode(Party::AliceKnots),
            Step::StartNode(Party::BobKnots),
            Step::OpenCore,
            Step::OpenKnots,
            Step::AwaitChannels,
            Step::FundingTx,
            Step::FundingHeight,
            Step::CheckActivated,
            Step::Header { chain: Chain::Knots, at: At::Funding, want: 2 },
        ],
        Kind::SwapOnSignets => seq![
            Step::BuildKnots,
            Step::RefuseOverride,
            Step::AttachCore,
            Step::AttachKnots,
            Step::RefuseMining,
            Step::CoreTip,
            Step::KnotsTip,
            Step::CheckTips,
            Step::Header { chain: Chain::Core, at: At::CoreTip, want: 1 },
            Step::Header { chain: Chain::Knots, at: At::KnotsTip, want: 2 },
            Step::Header { chain: Chain::Knots, at: At::Height(1), want: 2 },
            Step::StartRelay,
            Step::CoreAddress,
            Step::KnotsAddress,
            Step::StartNode(Party::AliceCore),
            Step::StartNode(Party::BobCore),
            Step::StartNode(Party::AliceKnots),
            Step::StartNode(Party::BobKnots),
            Step::OpenCore,
            Step::OpenKnots,
            Step::AwaitChannels,
            Step::FundingTx,
            Step::FundingHeight,
            Step::Header { chain: Chain::Knots, at: At::Funding, want: 2 },
        ],
    }
}

/// The swap.
#[verifier::opaque]
pub open spec fn swap() -> Seq<Step> {
    seq![
        Step::MakeSecret,
        Step::AliceBefore,
        Step::BobBefore,
        Step::AliceInvoice,
        Step::BobInvoice,
        Step::CheckInvoices,
        Step::RunLegs,
        Step::AwaitBalances,
        Step::AliceAfter,
        Step::BobAfter,
    ]
}

/// The steps of a scenario.
pub open spec fn program(kind: Kind) -> Seq<Step> {
    match kind {
        Kind::TwoChains => prelude(kind),
        _ => prelude(kind) + swap(),
    }
}

/// The steps of a scenario.
pub fn steps(kind: Kind) -> (r: Vec<Step>)
    ensures
        r@ == program(kind),
{
    proof {
        reveal(prelude);
        reveal(swap);
    }
    let mut r = match kind {
        Kind::TwoChains => vec![
            Step::BuildKnots,
            Step::StartCore,
            Step::StartKnots,
            Step::CoreAddress,
            Step::KnotsAddress,
            Step::MineCore(110),
            Step::MineKnots(110),
            Step::CheckPorts,
            Step::KnotsBefore,
            Step::MineCore(5),
            Step::CoreHeight,
            Step::KnotsAfter,
            Step::CheckIndependence,
            Step::StartRelay,
            Step::StartNode(Party::AliceCore),
            Step::StartNode(Party::BobCore),
            Step::StartNode(Party::AliceKnots),
            Step::StartNode(Party::BobKnots),
            Step::CheckIds,
            Step::OpenCore,
            Step::OpenKnots,
            Step::AwaitChannels,
            Step::CoreSeesKnots,
            Step::KnotsSeesCore,
        ],
        Kind::LightningSwap => vec![
            Step::BuildKnots,
            Step::StartCore,
            Step::StartKnots,
            Step::CoreAddress,
            Step::KnotsAddress,
            Step::MineCore(110),
            Step::MineKnots(110),
            Step::StartRelay,
            Step::StartNode(Party::AliceCore),
            Step::StartNode(Party::BobCore),
            Step::StartNode(Party::AliceKnots),
            Step::StartNode(Party::BobKnots),
            Step::OpenCore,
            Step::OpenKnots,
            Step::AwaitChannels,
        ],
        Kind::SwapOnBtk => vec![
            Step::BuildKnots,
            Step::RefuseOverride,
            Step::StartCore,
            Step::StartKnots,
            Step::CoreAddress,
            Step::KnotsAddress,
            Step::MineCore(110),
            Step::MineKnots(KNOTS_PREMINE),
            Step::Header { chain: Chain::Core, at: At::Height(110), want: 1 },
            Step::Header { chain: Chain::Knots, at: At::Height(114), want: 1 },
            Step::Header { chain: Chain::Knots, at: At::Height(ACTIVATION_HEIGHT), want: 2 },
            Step::Header { chain: Chain::Knots, at: At::Height(KNOTS_PREMINE), want: 2 },
            Step::StartRelay,
            Step::StartNode(Party::AliceCore),
            Step::StartNode(Party::BobCore),
            Step::StartNode(Party::AliceKnots),
            Step::StartNode(Party::BobKnots),
            Step::OpenCore,
            Step::OpenKnots,
            Step::AwaitChannels,
            Step::FundingTx,
            Step::FundingHeight,
            Step::CheckActivated,
            Step::Header { chain: Chain::Knots, at: At::Funding, want: 2 },
        ],
        Kind::SwapOnSignets => vec![
            Step::BuildKnots,
            Step::RefuseOverride,
            Step::AttachCore,
            Step::AttachKnots,
            Step::RefuseMining,
            Step::CoreTip,
            Step::KnotsTip,
            Step::CheckTips,
            Step::Header { chain: Chain::Core, at: At::CoreTip, want: 1 },
            Step::Header { chain: Chain::Knots, at: At::KnotsTip, want: 2 },
            Step::Header { chain: Chain::Knots, at: At::Height(1), want: 2 },
            Step::StartRelay,
            Step::CoreAddress,
            Step::KnotsAddress,
            Step::StartNode(Party::AliceCore),
            Step::StartNode(Party::BobCore),
            Step::StartNode(Party::AliceKnots),
            Step::StartNode(Party::BobKnots),
            Step::OpenCore,
            Step::OpenKnots,
            Step::AwaitChannels,
            Step::FundingTx,
            Step::FundingHeight,
            Step::Header { chain: Chain::Knots, at: At::Funding, want: 2 },
        ],
    };
    assert(r@ =~= prelude(kind));
    match kind {
        Kind::TwoChains => {},
        _ => {
            let mut rest = vec![
                Step::MakeSecret,
                Step::AliceBefore,
                Step::BobBefore,
                Step::AliceInvoice,
                Step::BobInvoice,
                Step::CheckInvoices,
                Step::RunLegs,
                Step::AwaitBalances,
                Step::AliceAfter,
                Step::BobAfter,
            ];
            assert(rest@ =~= swap());
            r.append(&mut rest);
        },
    }
    assert(r@ =~= program(kind));
    r
}

// ---------------------------------------------------------------------------
// What differs between the scenarios
// ---------------------------------------------------------------------------

/// Whether a scenario mines to get its channels confirmed.
pub open spec fn mines(kind: Kind) -> bool {
    kind != Kind::SwapOnSignets
}

/// The features that the Knots build has where the environment names none.
pub open spec fn default_features(kind: Kind) -> Option<Seq<char>> {
    match kind {
        Kind::SwapOnBtk | Kind::SwapOnSignets => Some("blake2b"@),
        _ => None,
    }
}

/// How long channels may take to get ready, in seconds. On a live chain a block
/// takes about a minute, and channel opens need several.
pub open spec fn channel_secs(kind: Kind) -> u64 {
    if kind == Kind::SwapOnSignets {
        1200
    } else {
        180
    }
}

/// How long both legs may take to be held, in seconds.
pub open spec fn legs_secs(kind: Kind) -> u64 {
    if kind == Kind::SwapOnSignets {
        180
    } else {
        120
    }
}

/// How long the balances may take to settle, in seconds.
pub open spec fn balance_secs(kind: Kind) -> u64 {
    if kind == Kind::SwapOnSignets {
        120
    } else {
        60
    }
}

/// What the invoices say they are for.
pub open spec fn alice_purpose(kind: Kind) -> Seq<char> {
    if kind == Kind::SwapOnSignets {
        "swap: alice receives btc"@
    } else {
        "swap: alice receives core"@
    }
}

pub open spec fn bob_purpose(kind: Kind) -> Seq<char> {
    if kind == Kind::SwapOnSignets {
        "swap: bob receives btk"@
    } else {
        "swap: bob receives knots"@
    }
}

/// What a Core leg that settled with another preimage is reported as.
pub open spec fn leg_mismatch(kind: Kind) -> Seq<char> {
    if kind == Kind::SwapOnSignets {
        "the BTC leg settled with a different preimage"@
    } else {
        "the core leg settled with a different preimage"@
    }
}

/// How many looks decide that the channels are ready.
pub open spec fn looks(kind: Kind) -> u8 {
    if kind == Kind::TwoChains {
        4
    } else {
        2
    }
}

/// Who looks for an active channel with whom, at each look.
pub open spec fn look(kind: Kind, i: u8) -> (Party, Party) {
    if kind == Kind::TwoChains {
        if i == 0 {
            (Party::BobCore, Party::AliceCore)
        } else if i == 1 {
            (Party::AliceCore, Party::BobCore)
        } else if i == 2 {
            (Party::AliceKnots, Party::BobKnots)
        } else {
            (Party::BobKnots, Party::AliceKnots)
        }
    } else if i == 0 {
        (Party::BobCore, Party::AliceCore)
    } else {
        (Party::AliceKnots, Party::BobKnots)
    }
}

/// The chain that a node serves.
pub open spec fn chain_of(party: Party) -> Chain {
    match party {
        Party::AliceCore | Party::BobCore => Chain::Core,
        Party::AliceKnots | Party::BobKnots => Chain::Knots,
    }
}

/// What a node is called.
pub open spec fn name_of(party: Party) -> Seq<char> {
    match party {
        Party::AliceCore => "alice-core"@,
        Party::BobCore => "bob-core"@,
        Party::AliceKnots => "alice-knots"@,
        Party::BobKnots => "bob-knots"@,
    }
}

/// What a header that has another format than it should is evidence of.
pub open spec fn header_context(kind: Kind, chain: Chain, at: At) -> Option<Seq<char>> {
    match (kind, chain, at) {
        (Kind::SwapOnBtk, Chain::Core, _) => Some("the BTC chain should be v1"@),
        (Kind::SwapOnSignets, Chain::Core, _) => Some("the BTC chain should be v1"@),
        (Kind::SwapOnSignets, Chain::Knots, At::KnotsTip) => Some("the BTK chain should be v2"@),
        (Kind::SwapOnSignets, Chain::Knots, At::Height(_)) => Some(
            "BTK activates at height 1, so block 1 should already be v2"@,
        ),
        _ => None,
    }
}

/// A failure, in a context if there is one.
pub open spec fn perhaps_during(context: Option<Seq<char>>, failure: Seq<Seq<char>>) -> Seq<
    Seq<char>,
> {
    match context {
        Some(c) => during(c, failure),
        None => failure,
    }
}

// ---------------------------------------------------------------------------
// What a run finds out
// ---------------------------------------------------------------------------

/// A node that runs: its id, and the port it listens on.
pub struct Peer<T> {
    pub id: T,
    pub port: u16,
}

/// A header that was checked.
#[derive(Clone, Copy, PartialEq, Eq, Structural)]
pub struct HeaderFact {
    pub chain: Chain,
    pub height: u64,
    pub want: u64,
}

/// What a run has found out. `T` is a text and `H` a list of headers.
pub struct Facts<T, H> {
    pub knots_binary: T,
    pub core_port: u16,
    pub knots_port: u16,
    pub core_ours: bool,
    pub knots_ours: bool,
    pub core_addr: T,
    pub knots_addr: T,
    pub knots_before: u64,
    pub core_height: u64,
    pub knots_after: u64,
    pub headers: H,
    pub relay_url: T,
    pub alice_core: Peer<T>,
    pub bob_core: Peer<T>,
    pub alice_knots: Peer<T>,
    pub bob_knots: Peer<T>,
    pub funding_txid: T,
    pub funding_height: u64,
    pub secret: T,
    pub payment_hash: T,
    pub alice_before: u64,
    pub bob_before: u64,
    pub alice_invoice: T,
    pub bob_invoice: T,
    /// The preimage that both legs settled with.
    pub preimage: T,
    /// The balances at which the wait for them ended.
    pub alice_seen: u64,
    pub bob_seen: u64,
    pub alice_after: u64,
    pub bob_after: u64,
}

impl View for Peer<String> {
    type V = Peer<Seq<char>>;

    open spec fn view(&self) -> Peer<Seq<char>> {
        Peer { id: self.id@, port: self.port }
    }
}

impl View for Facts<String, Vec<HeaderFact>> {
    type V = Facts<Seq<char>, Seq<HeaderFact>>;

    open spec fn view(&self) -> Facts<Seq<char>, Seq<HeaderFact>> {
        Facts {
            knots_binary: self.knots_binary@,
            core_port: self.core_port,
            knots_port: self.knots_port,
            core_ours: self.core_ours,
            knots_ours: self.knots_ours,
            core_addr: self.core_addr@,
            knots_addr: self.knots_addr@,
            knots_before: self.knots_before,
            core_height: self.core_height,
            knots_after: self.knots_after,
            headers: self.headers@,
            relay_url: self.relay_url@,
            alice_core: self.alice_core@,
            bob_core: self.bob_core@,
            alice_knots: self.alice_knots@,
            bob_knots: self.bob_knots@,
            funding_txid: self.funding_txid@,
            funding_height: self.funding_height,
            secret: self.secret@,
            payment_hash: self.payment_hash@,
            alice_before: self.alice_before,
            bob_before: self.bob_before,
            alice_invoice: self.alice_invoice@,
            bob_invoice: self.bob_invoice@,
            preimage: self.preimage@,
            alice_seen: self.alice_seen,
            bob_seen: self.bob_seen,
            alice_after: self.alice_after,
            bob_after: self.bob_after,
        }
    }
}

/// Nothing is known of a node.
pub open spec fn no_peer() -> Peer<Seq<char>> {
    Peer { id: Seq::empty(), port: 0 }
}

impl Facts<Seq<char>, Seq<HeaderFact>> {
    /// Nothing is known.
    pub open spec fn none() -> Facts<Seq<char>, Seq<HeaderFact>> {
        Facts {
            knots_binary: Seq::empty(),
            core_port: 0,
            knots_port: 0,
            core_ours: false,
            knots_ours: false,
            core_addr: Seq::empty(),
            knots_addr: Seq::empty(),
            knots_before: 0,
            core_height: 0,
            knots_after: 0,
            headers: Seq::empty(),
            relay_url: Seq::empty(),
            alice_core: no_peer(),
            bob_core: no_peer(),
            alice_knots: no_peer(),
            bob_knots: no_peer(),
            funding_txid: Seq::empty(),
            funding_height: 0,
            secret: Seq::empty(),
            payment_hash: Seq::empty(),
            alice_before: 0,
            bob_before: 0,
            alice_invoice: Seq::empty(),
            bob_invoice: Seq::empty(),
            preimage: Seq::empty(),
            alice_seen: 0,
            bob_seen: 0,
            alice_after: 0,
            bob_after: 0,
        }
    }

    /// What is known of a node.
    pub open spec fn peer(self, party: Party) -> Peer<Seq<char>> {
        match party {
            Party::AliceCore => self.alice_core,
            Party::BobCore => self.bob_core,
            Party::AliceKnots => self.alice_knots,
            Party::BobKnots => self.bob_knots,
        }
    }

    /// With what is known of a node.
    pub open spec fn with_peer(self, party: Party, peer: Peer<Seq<char>>) -> Facts<
        Seq<char>,
        Seq<HeaderFact>,
    > {
        match party {
            Party::AliceCore => Facts { alice_core: peer, ..self },
            Party::BobCore => Facts { bob_core: peer, ..self },
            Party::AliceKnots => Facts { alice_knots: peer, ..self },
            Party::BobKnots => Facts { bob_knots: peer, ..self },
        }
    }

    /// The address that blocks of a chain are mined to.
    pub open spec fn address(self, chain: Chain) -> Seq<char> {
        match chain {
            Chain::Core => self.core_addr,
            Chain::Knots => self.knots_addr,
        }
    }

    /// The height of the block whose header is checked.
    pub open spec fn height(self, at: At) -> u64 {
        match at {
            At::Height(n) => n,
            At::CoreTip => self.core_height,
            At::KnotsTip => self.knots_before,
            At::Funding => self.funding_height,
        }
    }

    /// How many different ids the four nodes have.
    pub open spec fn distinct_ids(self) -> nat {
        let (a, b, c, d) = (
            self.alice_core.id,
            self.bob_core.id,
            self.alice_knots.id,
            self.bob_knots.id,
        );
        1 + (if b != a {
            1nat
        } else {
            0
        }) + (if c != a && c != b {
            1nat
        } else {
            0
        }) + (if d != a && d != b && d != c {
            1nat
        } else {
            0
        })
    }

    /// The four ids, as a list shows them.
    pub open spec fn shown_ids(self) -> Seq<char> {
        "["@ + quoted(self.alice_core.id) + ", "@ + quoted(self.bob_core.id) + ", "@ + quoted(
            self.alice_knots.id,
        ) + ", "@ + quoted(self.bob_knots.id) + "]"@
    }

    /// The legs of the swap, at their beginning.
    pub open spec fn legs(self, kind: Kind) -> Legs<Seq<char>, Seq<Seq<char>>> {
        Legs::<Seq<char>, Seq<Seq<char>>>::begun(
            self.secret,
            self.payment_hash,
            self.alice_invoice,
            self.bob_invoice,
            legs_secs(kind),
        )
    }

    /// Why the invoices cannot be those of the two legs, if they cannot: they
    /// must differ, and both carry the agreed hash.
    pub open spec fn invoice_fault(self) -> Option<Seq<char>> {
        if self.alice_invoice == self.bob_invoice {
            Some("both legs produced the same invoice"@)
        } else {
            match hash_fault("alice"@, self.alice_invoice, self.payment_hash) {
                Some(e) => Some(e),
                None => hash_fault("bob"@, self.bob_invoice, self.payment_hash),
            }
        }
    }
}

/// The payment hash of an invoice, or why there is none.
pub open spec fn hash_of(invoice: Seq<char>) -> Result<Seq<char>, Seq<char>> {
    match bolt11_hash(invoice) {
        Ok(hash) => Ok(hash),
        Err(e) => Err("invoice did not parse: "@ + e),
    }
}

/// What is wrong with an invoice that should carry a hash, if anything.
pub open spec fn hash_fault(who: Seq<char>, invoice: Seq<char>, hash: Seq<char>) -> Option<
    Seq<char>,
> {
    match hash_of(invoice) {
        Err(e) => Some(e),
        Ok(carried) => if carried == hash {
            None
        } else {
            Some(who + "'s invoice does not carry the agreed payment hash"@)
        },
    }
}

/// Extract the payment hash from a BOLT11 invoice's tagged fields.
pub fn invoice_payment_hash(invoice: &str) -> (r: Result<String, String>)
    ensures
        result_view(r) == hash_of(invoice@),
{
    match read_bolt11_hash(invoice) {
        Ok(hash) => Ok(hash),
        Err(e) => Err(cat2("invoice did not parse: ", e.as_str())),
    }
}

/// What is wrong with an invoice that should carry the hash `payment_hash`,
/// where `carried` is the hash that was read in it.
pub fn hash_disagreement(who: &str, carried: Result<String, String>, payment_hash: &str) -> (r: Option<
    String,
>)
    ensures
        match carried {
            Err(e) => r == Some(e),
            Ok(c) => if c@ == payment_hash@ {
                r is None
            } else {
                r matches Some(e) && e@ == who@
                    + "'s invoice does not carry the agreed payment hash"@
            },
        },
{
    match carried {
        Err(e) => Some(e),
        Ok(c) => if c == payment_hash.to_owned() {
            None
        } else {
            Some(cat2(who, "'s invoice does not carry the agreed payment hash"))
        },
    }
}

// ---------------------------------------------------------------------------
// The environment, live chains and secrets
// ---------------------------------------------------------------------------

/// What is wrong with a variable that names a binary for all nodes, where the two
/// chains need different ones: that it is set, whatever it holds.
pub open spec fn override_fault(named: Option<Seq<char>>) -> Option<Seq<char>> {
    match named {
        Some(_) => Some(
            "DLN_NODE_BINARY is set, which would put the same binary on both chains and defeat the point of this scenario"@,
        ),
        None => None,
    }
}

/// Refuses a variable that names a binary for all nodes, where it is set. One
/// that is set but empty is set.
pub fn refuse_override(named: &Option<String>) -> (r: Option<String>)
    ensures
        option_view(r) == override_fault(option_view(*named)),
        r is Some <==> named is Some,
{
    match named {
        Some(_) => Some(
            "DLN_NODE_BINARY is set, which would put the same binary on both chains and defeat the point of this scenario".to_owned(),
        ),
        None => None,
    }
}

/// The environment variable that holds the password of a treasury's node: which
/// one depends on the port that the node is reached on.
pub fn treasury_password_var(port: u16) -> (r: &'static str)
    ensures
        r@ == if port == 48333 {
            "BTC_TREASURY_RPCPASS"@
        } else {
            "BTK_TREASURY_RPCPASS"@
        },
{
    if port == 48333 {
        "BTC_TREASURY_RPCPASS"
    } else {
        "BTK_TREASURY_RPCPASS"
    }
}

/// How to reach the treasury's node on a live chain. The host is this machine
/// where the environment names none; the password must be there.
pub fn attach_cfg(
    port: u16,
    network: &str,
    label: &str,
    host: Option<String>,
    password: Option<String>,
) -> (r: Result<AttachConfig, String>)
    ensures
        match password {
            Some(p) => r matches Ok(cfg) && cfg.rpc_host@ == (match host {
                Some(h) => h@,
                None => "127.0.0.1"@,
            }) && cfg.rpc_port == port && cfg.rpc_user@ == "treas"@ && cfg.rpc_password@ == p@
                && cfg.wallet@ == "treasury"@ && cfg.network@ == network@ && cfg.label@ == label@,
            None => r matches Err(e) && e@
                == "treasury RPC password must be in the environment"@,
        },
{
    let rpc_password = match password {
        Some(p) => p,
        None => return Err("treasury RPC password must be in the environment".to_owned()),
    };
    let rpc_host = match host {
        Some(h) => h,
        None => "127.0.0.1".to_owned(),
    };
    Ok(
        AttachConfig {
            rpc_host,
            rpc_port: port,
            rpc_user: "treas".to_owned(),
            rpc_password,
            wallet: "treasury".to_owned(),
            network: network.to_owned(),
            label: label.to_owned(),
        },
    )
}

/// The bytes of a fresh secret: those of a secret key that nobody uses.
pub fn fresh_secret() -> (r: Vec<u8>)
    ensures
        r@.len() == 32,
        exists|keys: NostrKeys| keys.wf() && #[trigger] keys.secret@ == r@,
{
    let keys = NostrKeys::generate();
    let ghost drawn = keys;
    assert(drawn.wf() && drawn.secret@ == keys.secret@);
    keys.secret
}

} // verus!
