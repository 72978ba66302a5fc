//! A run of a scenario of the exchange.

use vstd::prelude::*;
use vstd::string::StringExecFns;
use crate::bitcoind::{
    activating_launch, core_launch, knots_launch, BitcoindHarness, LaunchPlan, LaunchView,
};
use crate::codec::{encode_hex, hex_text, sha256, sha256_digest};
use crate::control::{channels_view, funding_of, funding_txid};
use crate::dln_node_client::SignerMode;
use crate::exchange::{
    alice_purpose, balance_secs, bob_purpose, chain_of, channel_secs, default_features,
    hash_disagreement, header_context, invoice_payment_hash, leg_mismatch, look, looks, mines,
    name_of, no_peer, override_fault, perhaps_during, prelude, program, refuse_override, steps, swap,
    At, Chain, Facts, HeaderFact, Kind, Peer, Step, ACTIVATION_HEIGHT, CHANNEL_SATS, CORE_LEG_MSAT, KNOTS_LEG_MSAT, PUSH_MSAT,
};
use crate::header::{HeaderCheck, HeaderStage};
use crate::legs::{Legs, Party};
use crate::outcome::{bare, during, failing_view, unit_failing_view, Failure};
use crate::text::{cat2, cat3, cat4, decimal, decimal_text, option_view, quote};
use crate::util::{wait_for, within, Waited};
use crate::wallet::amount_view;

verus! {

/// Where a run stands within a step.
pub enum Stage<F> {
    /// At its beginning.
    Begin,
    /// In a wait for channels: mine on the second chain too.
    MineKnots,
    /// In a wait for channels: look for one.
    Look(u8),
    /// In a wait for balances: look at the second.
    LookBob,
    /// In a wait: has it taken too long?
    Clock,
    /// In a wait: it has not, pause before looking again.
    Pause,
    /// The run is over: it passed, or it failed.
    Ended(Result<(), F>),
}

/// A run of a scenario. `T` is a text, `F` a failure and `H` a list of headers.
pub struct Run<T, F, H> {
    pub kind: Kind,
    /// How many steps are done.
    pub done: usize,
    pub stage: Stage<F>,
    pub facts: Facts<T, H>,
}

/// What a run asks for.
pub enum Ask {
    /// Build the node for the Knots chain, with these features where the
    /// environment names none.
    BuildKnots { features: Option<String> },
    /// The binary that the environment names for all nodes, if it names one.
    NodeOverride,
    Launch { chain: Chain, plan: LaunchPlan },
    Attach { chain: Chain, port: u16, network: String, label: String },
    NewAddress(Chain),
    Mine { chain: Chain, blocks: u64, address: String },
    /// The height of a chain's tip, from `getblockchaininfo` or from
    /// `getblockcount`.
    Height { chain: Chain, from_info: bool },
    /// Run this check to its end.
    CheckHeader { chain: Chain, check: HeaderCheck<String, serde_json::Value> },
    StartRelay,
    StartNode {
        party: Party,
        name: String,
        signer: SignerMode,
        chain: Chain,
        binary: Option<String>,
        miner: String,
        relay_url: String,
    },
    OpenChannel { party: Party, peer: String, address: String, sats: u64, push: u64 },
    /// Whether a node has an active channel with another.
    HasReady { party: Party, peer: String },
    /// Whether a node has any channel with another.
    HasAny { party: Party, peer: String },
    /// The channels of a node.
    Channels(Party),
    /// The height of the block that a transaction is in.
    TxHeight { chain: Chain, txid: String },
    /// The bytes of a fresh secret.
    Secret,
    Balance(Party),
    HoldInvoice { party: Party, msat: u64, payment_hash: String, purpose: String },
    /// Run these legs to their end.
    RunLegs(Legs<String, Failure>),
    /// The time since this step began.
    Elapsed,
    SleepSecs(u64),
    /// Nothing but to go on.
    Proceed,
    /// Nothing: the run is over.
    Nothing,
}

/// What came of it.
pub enum Answer {
    Done,
    Flag(bool),
    Text(String),
    /// What a variable of the environment holds, where it is set.
    Named(Option<String>),
    Found(Result<String, Failure>),
    Tried(Result<(), Failure>),
    /// A chain is reached on this port, and may be ours.
    Chain { port: u16, ours: bool },
    Height(Result<u64, String>),
    Header(HeaderCheck<String, serde_json::Value>),
    Node(Result<Peer<String>, Failure>),
    Channels(Result<Vec<serde_json::Value>, Failure>),
    Bytes(Vec<u8>),
    Amount(Result<u64, Failure>),
    Legs(Legs<String, Failure>),
    /// Nanoseconds since this step began.
    Elapsed(u128),
}

impl View for Stage<Failure> {
    type V = Stage<Seq<Seq<char>>>;

    open spec fn view(&self) -> Stage<Seq<Seq<char>>> {
        match *self {
            Stage::Begin => Stage::Begin,
            Stage::MineKnots => Stage::MineKnots,
            Stage::Look(i) => Stage::Look(i),
            Stage::LookBob => Stage::LookBob,
            Stage::Clock => Stage::Clock,
            Stage::Pause => Stage::Pause,
            Stage::Ended(r) => Stage::Ended(unit_failing_view(r)),
        }
    }
}

impl View for Run<String, Failure, Vec<HeaderFact>> {
    type V = Run<Seq<char>, Seq<Seq<char>>, Seq<HeaderFact>>;

    open spec fn view(&self) -> Run<Seq<char>, Seq<Seq<char>>, Seq<HeaderFact>> {
        Run { kind: self.kind, done: self.done, stage: self.stage@, facts: self.facts@ }
    }
}

/// The view of a node or a failure.
pub open spec fn peer_view(r: Result<Peer<String>, Failure>) -> Result<
    Peer<Seq<char>>,
    Seq<Seq<char>>,
> {
    match r {
        Ok(peer) => Ok(peer@),
        Err(f) => Err(f@),
    }
}

/// Where a step is taken up, after `done` steps.
pub open spec fn opening(kind: Kind, done: int) -> Stage<Seq<Seq<char>>> {
    if done >= program(kind).len() {
        Stage::Ended(Ok(()))
    } else if program(kind)[done] == Step::AwaitChannels && !mines(kind) {
        Stage::Look(0)
    } else {
        Stage::Begin
    }
}

/// What comes of an answer. `F` is a failure and `G` what is known.
pub enum Reaction<F, G> {
    /// Nothing: it answered something else.
    Stay,
    /// The step is done, and this is known.
    Next(G),
    /// The step goes on elsewhere.
    At(Stage<F>),
    /// The wait for balances goes on with the second.
    LookBob(G),
    Fail(F),
}

/// What comes of a check that found `fault`, if it found one.
pub open spec fn checked(
    facts: Facts<Seq<char>, Seq<HeaderFact>>,
    fault: Option<Seq<char>>,
) -> Reaction<Seq<Seq<char>>, Facts<Seq<char>, Seq<HeaderFact>>> {
    match fault {
        Some(e) => Reaction::Fail(bare(e)),
        None => Reaction::Next(facts),
    }
}

/// Whether a step only checks what is known.
pub open spec fn only_checks(s: Step) -> bool {
    s is RefuseMining || s is CheckPorts || s is CheckIndependence || s is CheckTips
        || s is CheckIds || s is CheckActivated || s is CheckInvoices
}

/// Whether a step is one of the swap.
pub open spec fn swaps(s: Step) -> bool {
    s is MakeSecret || s is AliceBefore || s is BobBefore || s is AliceInvoice || s is BobInvoice
        || s is RunLegs || s is AwaitBalances || s is AliceAfter || s is BobAfter
}

/// Whether a step is about the relay or the nodes.
pub open spec fn drives_nodes(s: Step) -> bool {
    s is StartRelay || s is StartNode || s is OpenCore || s is OpenKnots || s is AwaitChannels
        || s is CoreSeesKnots || s is KnotsSeesCore || s is FundingTx || s is FundingHeight
}

/// What the chain of the Knots nodes is started with.
pub open spec fn knots_plan(kind: Kind) -> LaunchView {
    if kind == Kind::SwapOnBtk {
        activating_launch(ACTIVATION_HEIGHT as nat)
    } else {
        knots_launch()
    }
}

/// The address of a node on this machine.
pub open spec fn local_address(port: u16) -> Seq<char> {
    "127.0.0.1:"@ + decimal(port as nat)
}

/// Seconds in nanoseconds.
pub open spec fn nanos(secs: u64) -> nat {
    secs as nat * 1_000_000_000
}

impl Run<Seq<char>, Seq<Seq<char>>, Seq<HeaderFact>> {
    /// A run before its first step.
    pub open spec fn begun(kind: Kind) -> Run<Seq<char>, Seq<Seq<char>>, Seq<HeaderFact>> {
        Run {
            kind,
            done: 0,
            stage: Stage::Begin,
            facts: Facts::<Seq<char>, Seq<HeaderFact>>::none(),
        }
    }

    /// The step that is being taken.
    pub open spec fn current(self) -> Step {
        program(self.kind)[self.done as int]
    }

    /// A run that is not over has a step to take, and stands at a place that
    /// this step has; one that passed has taken all of them.
    pub open spec fn wf(self) -> bool {
        &&& self.done <= program(self.kind).len()
        &&& !(self.stage is Ended) ==> self.done < program(self.kind).len()
        &&& self.passed() ==> self.done == program(self.kind).len()
        &&& self.stage is MineKnots ==> self.current() is AwaitChannels && mines(self.kind)
        &&& self.stage is Look ==> self.current() is AwaitChannels
        &&& self.stage is LookBob ==> self.current() is AwaitBalances
        &&& self.stage is Clock || self.stage is Pause ==> self.current() is AwaitChannels
            || self.current() is AwaitBalances
        &&& self.stage is Begin && self.current() is AwaitChannels ==> mines(self.kind)
    }

    /// The run passed.
    pub open spec fn passed(self) -> bool {
        self.stage matches Stage::Ended(r) && r is Ok
    }

    /// The run after this step, with what is known then.
    pub open spec fn next(self, facts: Facts<Seq<char>, Seq<HeaderFact>>) -> Run<
        Seq<char>,
        Seq<Seq<char>>,
        Seq<HeaderFact>,
    > {
        Run {
            kind: self.kind,
            done: (self.done + 1) as usize,
            stage: opening(self.kind, self.done + 1),
            facts,
        }
    }

    /// The run, ended by a failure.
    pub open spec fn failed(self, failure: Seq<Seq<char>>) -> Run<
        Seq<char>,
        Seq<Seq<char>>,
        Seq<HeaderFact>,
    > {
        Run { stage: Stage::Ended(Err(failure)), ..self }
    }

    /// The run at another place of the same step.
    pub open spec fn at(self, stage: Stage<Seq<Seq<char>>>) -> Run<
        Seq<char>,
        Seq<Seq<char>>,
        Seq<HeaderFact>,
    > {
        Run { stage, ..self }
    }

    /// What is wrong with what is known, where a step checks that.
    pub open spec fn fault(self) -> Option<Seq<char>> {
        let f = self.facts;
        match self.current() {
            Step::RefuseMining => if f.core_ours || f.knots_ours {
                Some("this scenario must hold no mining authority on either chain"@)
            } else {
                None
            },
            Step::CheckPorts => if f.core_port == f.knots_port {
                Some("both harnesses bound the same RPC port"@)
            } else {
                None
            },
            Step::CheckIndependence => if f.core_height != 115 {
                Some("core height "@ + decimal(f.core_height as nat) + ", expected 115"@)
            } else if f.knots_after != f.knots_before {
                Some(
                    "mining on core moved knots: "@ + decimal(f.knots_before as nat) + " -> "@
                        + decimal(f.knots_after as nat),
                )
            } else {
                None
            },
            Step::CheckTips => if f.core_height == 0 || f.knots_before == 0 {
                Some("a chain reported height 0 — is it still syncing?"@)
            } else {
                None
            },
            Step::CheckIds => if f.distinct_ids() != 4 {
                Some(
                    "expected four distinct node_ids, got "@ + decimal(f.distinct_ids()) + ": "@
                        + f.shown_ids(),
                )
            } else {
                None
            },
            Step::CheckActivated => if f.funding_height < ACTIVATION_HEIGHT {
                Some(
                    "the BTK channel was funded in block "@ + decimal(f.funding_height as nat)
                        + ", below activation at 115 — this leg did not open on a BLAKE2b chain"@,
                )
            } else {
                None
            },
            Step::CheckInvoices => f.invoice_fault(),
            _ => None,
        }
    }
}

/// Whether `ask` is what a run asks for.
pub open spec fn run_asks(run: Run<Seq<char>, Seq<Seq<char>>, Seq<HeaderFact>>, ask: Ask) -> bool {
    let f = run.facts;
    match run.stage {
        Stage::Ended(_) => ask is Nothing,
        Stage::Clock => ask is Elapsed,
        Stage::Pause => ask == Ask::SleepSecs(2),
        Stage::MineKnots => ask matches Ask::Mine { chain, blocks, address } && chain
            == Chain::Knots && blocks == 1 && address@ == f.knots_addr,
        Stage::Look(i) => ask matches Ask::HasReady { party, peer } && party == look(run.kind, i).0
            && peer@ == f.peer(look(run.kind, i).1).id,
        Stage::LookBob => ask == Ask::Balance(Party::BobKnots),
        Stage::Begin => match run.current() {
            Step::BuildKnots => ask matches Ask::BuildKnots { features } && option_view(features)
                == default_features(run.kind),
            Step::RefuseOverride => ask is NodeOverride,
            Step::StartCore => ask matches Ask::Launch { chain, plan } && chain == Chain::Core
                && plan@ == core_launch(),
            Step::StartKnots => ask matches Ask::Launch { chain, plan } && chain == Chain::Knots
                && plan@ == knots_plan(run.kind),
            Step::AttachCore => ask matches Ask::Attach { chain, port, network, label } && chain
                == Chain::Core && port == 48333 && network@ == "signet"@ && label@ == "btc.signet"@,
            Step::AttachKnots => ask matches Ask::Attach { chain, port, network, label } && chain
                == Chain::Knots && port == 48332 && network@ == "signet"@ && label@
                == "btk.signet"@,
            Step::CoreAddress => ask == Ask::NewAddress(Chain::Core),
            Step::KnotsAddress => ask == Ask::NewAddress(Chain::Knots),
            Step::MineCore(n) => ask matches Ask::Mine { chain, blocks, address } && chain
                == Chain::Core && blocks == n && address@ == f.core_addr,
            Step::MineKnots(n) => ask matches Ask::Mine { chain, blocks, address } && chain
                == Chain::Knots && blocks == n && address@ == f.knots_addr,
            Step::KnotsBefore | Step::KnotsAfter => ask == (Ask::Height {
                chain: Chain::Knots,
                from_info: true,
            }),
            Step::CoreHeight => ask == (Ask::Height { chain: Chain::Core, from_info: true }),
            Step::CoreTip => ask == (Ask::Height { chain: Chain::Core, from_info: false }),
            Step::KnotsTip => ask == (Ask::Height { chain: Chain::Knots, from_info: false }),
            Step::Header { chain, at, want } => ask matches Ask::CheckHeader { chain: c, check } && c
                == chain && check@ == HeaderCheck::<Seq<char>, crate::json::JsonView>::begun(
                f.height(at),
                want,
            ),
            Step::StartRelay => ask is StartRelay,
            Step::StartNode(who) => ask matches Ask::StartNode {
                party,
                name,
                signer,
                chain,
                binary,
                miner,
                relay_url,
            } && party == who && name@ == name_of(who) && signer == SignerMode::Plain && chain
                == chain_of(who) && option_view(binary) == (if chain_of(who) == Chain::Knots {
                Some(f.knots_binary)
            } else {
                None
            }) && miner@ == f.address(chain_of(who)) && relay_url@ == f.relay_url,
            Step::OpenCore => ask matches Ask::OpenChannel { party, peer, address, sats, push }
                && party == Party::BobCore && peer@ == f.alice_core.id && address@
                == local_address(f.alice_core.port) && sats == CHANNEL_SATS && push == PUSH_MSAT,
            Step::OpenKnots => ask matches Ask::OpenChannel { party, peer, address, sats, push }
                && party == Party::AliceKnots && peer@ == f.bob_knots.id && address@
                == local_address(f.bob_knots.port) && sats == CHANNEL_SATS && push == PUSH_MSAT,
            Step::AwaitChannels => ask matches Ask::Mine { chain, blocks, address } && chain
                == Chain::Core && blocks == 1 && address@ == f.core_addr,
            Step::CoreSeesKnots => ask matches Ask::HasAny { party, peer } && party
                == Party::AliceCore && peer@ == f.bob_knots.id,
            Step::KnotsSeesCore => ask matches Ask::HasAny { party, peer } && party
                == Party::AliceKnots && peer@ == f.bob_core.id,
            Step::FundingTx => ask == Ask::Channels(Party::AliceKnots),
            Step::FundingHeight => ask matches Ask::TxHeight { chain, txid } && chain
                == Chain::Knots && txid@ == f.funding_txid,
            Step::MakeSecret => ask is Secret,
            Step::AliceBefore | Step::AliceAfter | Step::AwaitBalances => ask == Ask::Balance(
                Party::AliceCore,
            ),
            Step::BobBefore | Step::BobAfter => ask == Ask::Balance(Party::BobKnots),
            Step::AliceInvoice => ask matches Ask::HoldInvoice {
                party,
                msat,
                payment_hash,
                purpose,
            } && party == Party::AliceCore && msat == CORE_LEG_MSAT && payment_hash@
                == f.payment_hash && purpose@ == alice_purpose(run.kind),
            Step::BobInvoice => ask matches Ask::HoldInvoice {
                party,
                msat,
                payment_hash,
                purpose,
            } && party == Party::BobKnots && msat == KNOTS_LEG_MSAT && payment_hash@
                == f.payment_hash && purpose@ == bob_purpose(run.kind),
            Step::RunLegs => ask matches Ask::RunLegs(legs) && legs@ == f.legs(run.kind),
            _ => ask is Proceed,
        },
    }
}

/// Whether legs are those that a swap began.
pub open spec fn same_terms(
    a: Legs<Seq<char>, Seq<Seq<char>>>,
    b: Legs<Seq<char>, Seq<Seq<char>>>,
) -> bool {
    a.secret == b.secret && a.payment_hash == b.payment_hash && a.alice_invoice == b.alice_invoice
        && a.bob_invoice == b.bob_invoice
}

impl Run<Seq<char>, Seq<Seq<char>>, Seq<HeaderFact>> {
    /// The run after a wait has looked at the clock.
    pub open spec fn after_clock(self, elapsed: nat) -> Run<
        Seq<char>,
        Seq<Seq<char>>,
        Seq<HeaderFact>,
    > {
        if self.current() is AwaitChannels {
            match within(
                "both channels ready"@,
                nanos(channel_secs(self.kind)),
                false,
                elapsed,
            ) {
                Waited::Expired(e) => self.failed(
                    perhaps_during(
                        if mines(self.kind) {
                            None
                        } else {
                            Some("channels never confirmed — are both miners producing?"@)
                        },
                        bare(e),
                    ),
                ),
                _ => self.at(Stage::Pause),
            }
        } else {
            match within("balances to settle"@, nanos(balance_secs(self.kind)), false, elapsed) {
                Waited::Expired(e) => self.failed(bare(e)),
                _ => self.at(Stage::Pause),
            }
        }
    }

    /// What comes of an answer at the beginning of a step that is about a
    /// chain.
    pub open spec fn chain_reaction(self, answer: Answer) -> Reaction<
        Seq<Seq<char>>,
        Facts<Seq<char>, Seq<HeaderFact>>,
    > {
        let f = self.facts;
        match self.current() {
            Step::BuildKnots => match answer {
                Answer::Found(r) => match failing_view(r) {
                    Ok(path) => Reaction::Next(Facts { knots_binary: path, ..f }),
                    Err(e) => Reaction::Fail(e),
                },
                _ => Reaction::Stay,
            },
            Step::RefuseOverride => match answer {
                Answer::Named(named) => checked(f, override_fault(option_view(named))),
                _ => Reaction::Stay,
            },
            Step::StartCore | Step::AttachCore => match answer {
                Answer::Chain { port, ours } => Reaction::Next(
                    Facts { core_port: port, core_ours: ours, ..f },
                ),
                _ => Reaction::Stay,
            },
            Step::StartKnots | Step::AttachKnots => match answer {
                Answer::Chain { port, ours } => Reaction::Next(
                    Facts { knots_port: port, knots_ours: ours, ..f },
                ),
                _ => Reaction::Stay,
            },
            Step::CoreAddress => match answer {
                Answer::Text(s) => Reaction::Next(Facts { core_addr: s@, ..f }),
                _ => Reaction::Stay,
            },
            Step::KnotsAddress => match answer {
                Answer::Text(s) => Reaction::Next(Facts { knots_addr: s@, ..f }),
                _ => Reaction::Stay,
            },
            Step::MineCore(_) | Step::MineKnots(_) => match answer {
                Answer::Done => Reaction::Next(f),
                _ => Reaction::Stay,
            },
            Step::KnotsBefore | Step::KnotsTip | Step::CoreHeight | Step::CoreTip
            | Step::KnotsAfter => match answer {
                Answer::Height(r) => match r {
                    Ok(n) => Reaction::Next(self.with_height(n)),
                    Err(e) => Reaction::Fail(bare(e@)),
                },
                _ => Reaction::Stay,
            },
            _ => Reaction::Stay,
        }
    }

    /// What is known once a step has read a height.
    pub open spec fn with_height(self, n: u64) -> Facts<Seq<char>, Seq<HeaderFact>> {
        let f = self.facts;
        match self.current() {
            Step::KnotsBefore | Step::KnotsTip => Facts { knots_before: n, ..f },
            Step::KnotsAfter => Facts { knots_after: n, ..f },
            _ => Facts { core_height: n, ..f },
        }
    }

    /// What comes of an answer at the beginning of a step that checks a header.
    pub open spec fn header_reaction(self, chain: Chain, at: At, want: u64, answer: Answer) -> Reaction<
        Seq<Seq<char>>,
        Facts<Seq<char>, Seq<HeaderFact>>,
    > {
        let f = self.facts;
        match answer {
            Answer::Header(check) => if check.height
                == f.height(at) && check.want == want {
                match check@.stage {
                    HeaderStage::Done(Ok(())) => Reaction::Next(
                        Facts {
                            headers: f.headers.push(
                                HeaderFact { chain, height: f.height(at), want },
                            ),
                            ..f
                        },
                    ),
                    HeaderStage::Done(Err(e)) => Reaction::Fail(
                        perhaps_during(header_context(self.kind, chain, at), bare(e)),
                    ),
                    _ => Reaction::Stay,
                }
            } else {
                Reaction::Stay
            },
            _ => Reaction::Stay,
        }
    }

    /// What comes of an answer at the beginning of a step that is about a node.
    pub open spec fn node_reaction(self, answer: Answer) -> Reaction<
        Seq<Seq<char>>,
        Facts<Seq<char>, Seq<HeaderFact>>,
    > {
        let f = self.facts;
        match (self.current(), answer) {
            (Step::StartRelay, Answer::Text(s)) => Reaction::Next(Facts { relay_url: s@, ..f }),
            (Step::StartNode(party), Answer::Node(r)) => match peer_view(r) {
                Ok(peer) => Reaction::Next(f.with_peer(party, peer)),
                Err(e) => Reaction::Fail(during(name_of(party) + " failed to start"@, e)),
            },
            (Step::OpenCore, Answer::Tried(r)) => match unit_failing_view(r) {
                Ok(()) => Reaction::Next(f),
                Err(e) => Reaction::Fail(during("core channel open failed"@, e)),
            },
            (Step::OpenKnots, Answer::Tried(r)) => match unit_failing_view(r) {
                Ok(()) => Reaction::Next(f),
                Err(e) => Reaction::Fail(during("knots channel open failed"@, e)),
            },
            (Step::AwaitChannels, Answer::Done) => Reaction::At(Stage::MineKnots),
            (Step::CoreSeesKnots, Answer::Flag(seen)) => checked(f, 
                if seen {
                    Some("a Core node sees a Knots channel"@)
                } else {
                    None
                },
            ),
            (Step::KnotsSeesCore, Answer::Flag(seen)) => checked(f, 
                if seen {
                    Some("a Knots node sees a Core channel"@)
                } else {
                    None
                },
            ),
            (Step::FundingTx, Answer::Channels(r)) => match channels_view(r) {
                Err(e) => Reaction::Fail(e),
                Ok(channels) => match funding_of(channels, f.bob_knots.id, 0) {
                    Ok(txid) => Reaction::Next(Facts { funding_txid: txid, ..f }),
                    Err(e) => Reaction::Fail(bare(e)),
                },
            },
            (Step::FundingHeight, Answer::Height(r)) => match r {
                Ok(n) => Reaction::Next(Facts { funding_height: n, ..f }),
                Err(e) => Reaction::Fail(bare(e@)),
            },
            _ => Reaction::Stay,
        }
    }

    /// What comes of an answer at the beginning of a step of the swap.
    pub open spec fn swap_reaction(self, answer: Answer) -> Reaction<
        Seq<Seq<char>>,
        Facts<Seq<char>, Seq<HeaderFact>>,
    > {
        let f = self.facts;
        match (self.current(), answer) {
            (Step::MakeSecret, Answer::Bytes(bytes)) => Reaction::Next(
                Facts {
                    secret: hex_text(bytes@),
                    payment_hash: hex_text(sha256_digest(bytes@)),
                    ..f
                },
            ),
            (Step::AliceBefore, Answer::Amount(r)) => match amount_view(r) {
                Ok(n) => Reaction::Next(Facts { alice_before: n, ..f }),
                Err(e) => Reaction::Fail(e),
            },
            (Step::BobBefore, Answer::Amount(r)) => match amount_view(r) {
                Ok(n) => Reaction::Next(Facts { bob_before: n, ..f }),
                Err(e) => Reaction::Fail(e),
            },
            (Step::AliceInvoice, Answer::Found(r)) => match failing_view(r) {
                Ok(s) => Reaction::Next(Facts { alice_invoice: s, ..f }),
                Err(e) => Reaction::Fail(during("alice-core make_hold_invoice failed"@, e)),
            },
            (Step::BobInvoice, Answer::Found(r)) => match failing_view(r) {
                Ok(s) => Reaction::Next(Facts { bob_invoice: s, ..f }),
                Err(e) => Reaction::Fail(during("bob-knots make_hold_invoice failed"@, e)),
            },
            (Step::RunLegs, Answer::Legs(legs)) => if same_terms(legs@, f.legs(self.kind))
                && legs@.ended() {
                match legs@.verdict(leg_mismatch(self.kind)) {
                    Ok(preimage) => Reaction::Next(Facts { preimage, ..f }),
                    Err(e) => Reaction::Fail(e),
                }
            } else {
                Reaction::Stay
            },
            (Step::AwaitBalances, Answer::Amount(r)) => match amount_view(r) {
                Ok(n) => if n >= f.alice_before + CORE_LEG_MSAT {
                    Reaction::LookBob(Facts { alice_seen: n, ..f })
                } else {
                    Reaction::At(Stage::Clock)
                },
                Err(e) => Reaction::Fail(e),
            },
            (Step::AliceAfter, Answer::Amount(r)) => match amount_view(r) {
                Ok(n) => Reaction::Next(Facts { alice_after: n, ..f }),
                Err(e) => Reaction::Fail(e),
            },
            (Step::BobAfter, Answer::Amount(r)) => match amount_view(r) {
                Ok(n) => Reaction::Next(Facts { bob_after: n, ..f }),
                Err(e) => Reaction::Fail(e),
            },
            _ => Reaction::Stay,
        }
    }

    /// What comes of an answer at the beginning of a step. An answer to
    /// something else changes nothing.
    pub open spec fn reaction(self, answer: Answer) -> Reaction<
        Seq<Seq<char>>,
        Facts<Seq<char>, Seq<HeaderFact>>,
    > {
        if only_checks(self.current()) {
            if answer is Done {
                checked(self.facts, self.fault())
            } else {
                Reaction::Stay
            }
        } else if swaps(self.current()) {
            self.swap_reaction(answer)
        } else if drives_nodes(self.current()) {
            self.node_reaction(answer)
        } else {
            match self.current() {
                Step::Header { chain, at, want } => self.header_reaction(chain, at, want, answer),
                _ => self.chain_reaction(answer),
            }
        }
    }

    /// The run after a reaction.
    pub open spec fn reacted(
        self,
        reaction: Reaction<Seq<Seq<char>>, Facts<Seq<char>, Seq<HeaderFact>>>,
    ) -> Run<Seq<char>, Seq<Seq<char>>, Seq<HeaderFact>> {
        match reaction {
            Reaction::Stay => self,
            Reaction::Next(facts) => self.next(facts),
            Reaction::At(stage) => self.at(stage),
            Reaction::LookBob(facts) => Run { stage: Stage::LookBob, facts, ..self },
            Reaction::Fail(failure) => self.failed(failure),
        }
    }

    /// The run after `answer`. An answer to something else changes nothing.
    pub open spec fn after(self, answer: Answer) -> Run<
        Seq<char>,
        Seq<Seq<char>>,
        Seq<HeaderFact>,
    > {
        let f = self.facts;
        match (self.stage, answer) {
            (Stage::Begin, _) => self.reacted(self.reaction(answer)),
            (Stage::MineKnots, Answer::Done) => self.at(Stage::Look(0)),
            (Stage::Look(i), Answer::Flag(ready)) => if !ready {
                self.at(Stage::Clock)
            } else if i + 1 >= looks(self.kind) {
                self.next(f)
            } else {
                self.at(Stage::Look((i + 1) as u8))
            },
            (Stage::LookBob, Answer::Amount(r)) => match amount_view(r) {
                Ok(n) => if n >= f.bob_before + KNOTS_LEG_MSAT {
                    self.next(Facts { bob_seen: n, ..f })
                } else {
                    self.at(Stage::Clock)
                },
                Err(e) => self.failed(e),
            },
            (Stage::Clock, Answer::Elapsed(n)) => self.after_clock(n as nat),
            (Stage::Pause, Answer::Done) => self.at(opening(self.kind, self.done as int)),
            _ => self,
        }
    }
}

// ---------------------------------------------------------------------------
// Running
// ---------------------------------------------------------------------------

fn no_text() -> (r: String)
    ensures
        r@ == Seq::<char>::empty(),
{
    String::new()
}

fn unknown() -> (r: Peer<String>)
    ensures
        r@ == no_peer(),
{
    Peer { id: no_text(), port: 0 }
}

fn plain_name(party: Party) -> (r: &'static str)
    ensures
        r@ == name_of(party),
{
    match party {
        Party::AliceCore => "alice-core",
        Party::BobCore => "bob-core",
        Party::AliceKnots => "alice-knots",
        Party::BobKnots => "bob-knots",
    }
}

fn address_of(port: u16) -> (r: String)
    ensures
        r@ == local_address(port),
{
    let digits = decimal_text(port as u128);
    cat2("127.0.0.1:", digits.as_str())
}

fn opening_stage(kind: Kind, done: usize) -> (r: Stage<Failure>)
    ensures
        r@ == opening(kind, done as int),
{
    let program = steps(kind);
    if done >= program.len() {
        Stage::Ended(Ok(()))
    } else if program[done] == Step::AwaitChannels && kind == Kind::SwapOnSignets {
        Stage::Look(0)
    } else {
        Stage::Begin
    }
}

fn look_at(kind: Kind, i: u8) -> (r: (Party, Party))
    ensures
        r == look(kind, i),
{
    if kind == Kind::TwoChains {
        if i == 0 {
            (Party::BobCore, Party::AliceCore)
        } else if i == 1 {
            (Party::AliceCore, Party::BobCore)
        } else if i == 2 {
            (Party::AliceKnots, Party::BobKnots)
        } else {
            (Party::BobKnots, Party::AliceKnots)
        }
    } else if i == 0 {
        (Party::BobCore, Party::AliceCore)
    } else {
        (Party::AliceKnots, Party::BobKnots)
    }
}

fn context_of_header(kind: Kind, chain: Chain, at: At) -> (r: Option<&'static str>)
    ensures
        match r {
            Some(c) => header_context(kind, chain, at) == Some(c@),
            None => header_context(kind, chain, at) is None,
        },
{
    match (kind, chain, at) {
        (Kind::SwapOnBtk, Chain::Core, _) => Some("the BTC chain should be v1"),
        (Kind::SwapOnSignets, Chain::Core, _) => Some("the BTC chain should be v1"),
        (Kind::SwapOnSignets, Chain::Knots, At::KnotsTip) => Some("the BTK chain should be v2"),
        (Kind::SwapOnSignets, Chain::Knots, At::Height(_)) => Some(
            "BTK activates at height 1, so block 1 should already be v2",
        ),
        _ => None,
    }
}

impl Facts<String, Vec<HeaderFact>> {
    fn id(&self, party: Party) -> (r: String)
        ensures
            r@ == self@.peer(party).id,
    {
        match party {
            Party::AliceCore => self.alice_core.id.clone(),
            Party::BobCore => self.bob_core.id.clone(),
            Party::AliceKnots => self.alice_knots.id.clone(),
            Party::BobKnots => self.bob_knots.id.clone(),
        }
    }

    fn block_height(&self, at: At) -> (r: u64)
        ensures
            r == self@.height(at),
    {
        match at {
            At::Height(n) => n,
            At::CoreTip => self.core_height,
            At::KnotsTip => self.knots_before,
            At::Funding => self.funding_height,
        }
    }

    fn with_node(self, party: Party, peer: Peer<String>) -> (r: Facts<String, Vec<HeaderFact>>)
        ensures
            r@ == self@.with_peer(party, peer@),
    {
        match party {
            Party::AliceCore => Facts { alice_core: peer, ..self },
            Party::BobCore => Facts { bob_core: peer, ..self },
            Party::AliceKnots => Facts { alice_knots: peer, ..self },
            Party::BobKnots => Facts { bob_knots: peer, ..self },
        }
    }

    fn begin_legs(&self, kind: Kind) -> (r: Legs<String, Failure>)
        ensures
            r@ == self@.legs(kind),
    {
        let secs: u64 = if kind == Kind::SwapOnSignets {
            180
        } else {
            120
        };
        Legs::begin(
            self.secret.clone(),
            self.payment_hash.clone(),
            self.alice_invoice.clone(),
            self.bob_invoice.clone(),
            secs,
        )
    }

    fn count_ids(&self) -> (r: u8)
        ensures
            r == self@.distinct_ids(),
    {
        let a = &self.alice_core.id;
        let b = &self.bob_core.id;
        let c = &self.alice_knots.id;
        let d = &self.bob_knots.id;
        let mut n: u8 = 1;
        if *b != *a {
            n = n + 1;
        }
        if *c != *a && *c != *b {
            n = n + 1;
        }
        if *d != *a && *d != *b && *d != *c {
            n = n + 1;
        }
        n
    }

    fn show_ids(&self) -> (r: String)
        ensures
            r@ == self@.shown_ids(),
    {
        let a = quote(self.alice_core.id.as_str());
        let b = quote(self.bob_core.id.as_str());
        let c = quote(self.alice_knots.id.as_str());
        let d = quote(self.bob_knots.id.as_str());
        let mut s = cat4("[", a.as_str(), ", ", b.as_str());
        s.append(", ");
        s.append(c.as_str());
        s.append(", ");
        s.append(d.as_str());
        s.append("]");
        s
    }

    fn invoices_wrong(&self) -> (r: Option<String>)
        ensures
            option_view(r) == self@.invoice_fault(),
    {
        if self.alice_invoice == self.bob_invoice {
            return Some("both legs produced the same invoice".to_owned());
        }
        let hash = self.payment_hash.as_str();
        let alice = hash_disagreement(
            "alice",
            invoice_payment_hash(self.alice_invoice.as_str()),
            hash,
        );
        match alice {
            Some(e) => Some(e),
            None => hash_disagreement(
                "bob",
                invoice_payment_hash(self.bob_invoice.as_str()),
                hash,
            ),
        }
    }
}

impl Run<String, Failure, Vec<HeaderFact>> {
    /// Begins a run.
    pub fn begin(kind: Kind) -> (r: Run<String, Failure, Vec<HeaderFact>>)
        ensures
            r@ == Run::<Seq<char>, Seq<Seq<char>>, Seq<HeaderFact>>::begun(kind),
            r@.wf(),
    {
        let facts = Facts {
            knots_binary: no_text(),
            core_port: 0,
            knots_port: 0,
            core_ours: false,
            knots_ours: false,
            core_addr: no_text(),
            knots_addr: no_text(),
            knots_before: 0,
            core_height: 0,
            knots_after: 0,
            headers: Vec::new(),
            relay_url: no_text(),
            alice_core: unknown(),
            bob_core: unknown(),
            alice_knots: unknown(),
            bob_knots: unknown(),
            funding_txid: no_text(),
            funding_height: 0,
            secret: no_text(),
            payment_hash: no_text(),
            alice_before: 0,
            bob_before: 0,
            alice_invoice: no_text(),
            bob_invoice: no_text(),
            preimage: no_text(),
            alice_seen: 0,
            bob_seen: 0,
            alice_after: 0,
            bob_after: 0,
        };
        assert(facts@.headers =~= Seq::empty());
        proof {
            programs_are_short(kind);
        }
        Run { kind, done: 0, stage: Stage::Begin, facts }
    }

    fn step_now(&self) -> (r: Step)
        requires
            self@.wf(),
            !(self@.stage is Ended),
        ensures
            r == self@.current(),
    {
        let program = steps(self.kind);
        program[self.done]
    }

    fn advance(self) -> (r: Run<String, Failure, Vec<HeaderFact>>)
        requires
            self@.done < program(self@.kind).len(),
        ensures
            r@ == self@.next(self@.facts),
    {
        proof {
            programs_are_short(self@.kind);
        }
        let done: usize = self.done + 1;
        Run { kind: self.kind, done, stage: opening_stage(self.kind, done), facts: self.facts }
    }

    fn fail(self, failure: Failure) -> (r: Run<String, Failure, Vec<HeaderFact>>)
        ensures
            r@ == self@.failed(failure@),
    {
        Run { stage: Stage::Ended(Err(failure)), ..self }
    }

    fn moved(self, stage: Stage<Failure>) -> (r: Run<String, Failure, Vec<HeaderFact>>)
        ensures
            r@ == self@.at(stage@),
    {
        Run { stage, ..self }
    }

    /// What is wrong with what is known, where a step checks that.
    fn find_fault(&self, step: Step) -> (r: Option<String>)
        requires
            step == self@.current(),
        ensures
            option_view(r) == self@.fault(),
    {
        let f = &self.facts;
        match step {
            Step::RefuseMining => if f.core_ours || f.knots_ours {
                Some("this scenario must hold no mining authority on either chain".to_owned())
            } else {
                None
            },
            Step::CheckPorts => if f.core_port == f.knots_port {
                Some("both harnesses bound the same RPC port".to_owned())
            } else {
                None
            },
            Step::CheckIndependence => if f.core_height != 115 {
                let n = decimal_text(f.core_height as u128);
                Some(cat3("core height ", n.as_str(), ", expected 115"))
            } else if f.knots_after != f.knots_before {
                let before = decimal_text(f.knots_before as u128);
                let after = decimal_text(f.knots_after as u128);
                Some(
                    cat4(
                        "mining on core moved knots: ",
                        before.as_str(),
                        " -> ",
                        after.as_str(),
                    ),
                )
            } else {
                None
            },
            Step::CheckTips => if f.core_height == 0 || f.knots_before == 0 {
                Some("a chain reported height 0 — is it still syncing?".to_owned())
            } else {
                None
            },
            Step::CheckIds => {
                let n: u8 = f.count_ids();
                if n != 4 {
                    let count = decimal_text(n as u128);
                    let ids = f.show_ids();
                    Some(
                        cat4(
                            "expected four distinct node_ids, got ",
                            count.as_str(),
                            ": ",
                            ids.as_str(),
                        ),
                    )
                } else {
                    None
                }
            },
            Step::CheckActivated => if f.funding_height < ACTIVATION_HEIGHT {
                let n = decimal_text(f.funding_height as u128);
                Some(
                    cat3(
                        "the BTK channel was funded in block ",
                        n.as_str(),
                        ", below activation at 115 — this leg did not open on a BLAKE2b chain",
                    ),
                )
            } else {
                None
            },
            Step::CheckInvoices => f.invoices_wrong(),
            _ => None,
        }
    }

    /// What the run asks for.
    pub fn ask(&self) -> (r: Ask)
        requires
            self@.wf(),
        ensures
            run_asks(self@, r),
    {
        match &self.stage {
            Stage::Ended(_) => Ask::Nothing,
            Stage::Clock => Ask::Elapsed,
            Stage::Pause => Ask::SleepSecs(2),
            Stage::MineKnots => Ask::Mine {
                chain: Chain::Knots,
                blocks: 1,
                address: self.facts.knots_addr.clone(),
            },
            Stage::Look(i) => {
                let (party, other) = look_at(self.kind, *i);
                Ask::HasReady { party, peer: self.facts.id(other) }
            },
            Stage::LookBob => Ask::Balance(Party::BobKnots),
            Stage::Begin => self.ask_step(self.step_now()),
        }
    }

    fn ask_step(&self, step: Step) -> (r: Ask)
        requires
            self@.stage is Begin,
            step == self@.current(),
        ensures
            run_asks(self@, r),
    {
        let f = &self.facts;
        match step {
            Step::BuildKnots => Ask::BuildKnots {
                features: match self.kind {
                    Kind::SwapOnBtk | Kind::SwapOnSignets => Some("blake2b".to_owned()),
                    _ => None,
                },
            },
            Step::RefuseOverride => Ask::NodeOverride,
            Step::StartCore => Ask::Launch { chain: Chain::Core, plan: BitcoindHarness::start() },
            Step::StartKnots => Ask::Launch {
                chain: Chain::Knots,
                plan: if self.kind == Kind::SwapOnBtk {
                    BitcoindHarness::start_knots_activating_at(ACTIVATION_HEIGHT)
                } else {
                    BitcoindHarness::start_knots()
                },
            },
            Step::AttachCore => Ask::Attach {
                chain: Chain::Core,
                port: 48333,
                network: "signet".to_owned(),
                label: "btc.signet".to_owned(),
            },
            Step::AttachKnots => Ask::Attach {
                chain: Chain::Knots,
                port: 48332,
                network: "signet".to_owned(),
                label: "btk.signet".to_owned(),
            },
            Step::CoreAddress => Ask::NewAddress(Chain::Core),
            Step::KnotsAddress => Ask::NewAddress(Chain::Knots),
            Step::MineCore(blocks) => Ask::Mine {
                chain: Chain::Core,
                blocks,
                address: f.core_addr.clone(),
            },
            Step::MineKnots(blocks) => Ask::Mine {
                chain: Chain::Knots,
                blocks,
                address: f.knots_addr.clone(),
            },
            Step::KnotsBefore => Ask::Height { chain: Chain::Knots, from_info: true },
            Step::KnotsAfter => Ask::Height { chain: Chain::Knots, from_info: true },
            Step::CoreHeight => Ask::Height { chain: Chain::Core, from_info: true },
            Step::CoreTip => Ask::Height { chain: Chain::Core, from_info: false },
            Step::KnotsTip => Ask::Height { chain: Chain::Knots, from_info: false },
            Step::Header { chain, at, want } => Ask::CheckHeader {
                chain,
                check: HeaderCheck::assert_header(f.block_height(at), want),
            },
            Step::StartRelay => Ask::StartRelay,
            Step::StartNode(party) => {
                let (chain, binary, miner) = match party {
                    Party::AliceCore => (Chain::Core, None, f.core_addr.clone()),
                    Party::BobCore => (Chain::Core, None, f.core_addr.clone()),
                    Party::AliceKnots => (
                        Chain::Knots,
                        Some(f.knots_binary.clone()),
                        f.knots_addr.clone(),
                    ),
                    Party::BobKnots => (
                        Chain::Knots,
                        Some(f.knots_binary.clone()),
                        f.knots_addr.clone(),
                    ),
                };
                Ask::StartNode {
                    party,
                    name: plain_name(party).to_owned(),
                    signer: SignerMode::Plain,
                    chain,
                    binary,
                    miner,
                    relay_url: f.relay_url.clone(),
                }
            },
            Step::OpenCore => Ask::OpenChannel {
                party: Party::BobCore,
                peer: f.alice_core.id.clone(),
                address: address_of(f.alice_core.port),
                sats: CHANNEL_SATS,
                push: PUSH_MSAT,
            },
            Step::OpenKnots => Ask::OpenChannel {
                party: Party::AliceKnots,
                peer: f.bob_knots.id.clone(),
                address: address_of(f.bob_knots.port),
                sats: CHANNEL_SATS,
                push: PUSH_MSAT,
            },
            Step::AwaitChannels => Ask::Mine {
                chain: Chain::Core,
                blocks: 1,
                address: f.core_addr.clone(),
            },
            Step::CoreSeesKnots => Ask::HasAny {
                party: Party::AliceCore,
                peer: f.bob_knots.id.clone(),
            },
            Step::KnotsSeesCore => Ask::HasAny {
                party: Party::AliceKnots,
                peer: f.bob_core.id.clone(),
            },
            Step::FundingTx => Ask::Channels(Party::AliceKnots),
            Step::FundingHeight => Ask::TxHeight {
                chain: Chain::Knots,
                txid: f.funding_txid.clone(),
            },
            Step::MakeSecret => Ask::Secret,
            Step::AliceBefore => Ask::Balance(Party::AliceCore),
            Step::AliceAfter => Ask::Balance(Party::AliceCore),
            Step::AwaitBalances => Ask::Balance(Party::AliceCore),
            Step::BobBefore => Ask::Balance(Party::BobKnots),
            Step::BobAfter => Ask::Balance(Party::BobKnots),
            Step::AliceInvoice => Ask::HoldInvoice {
                party: Party::AliceCore,
                msat: CORE_LEG_MSAT,
                payment_hash: f.payment_hash.clone(),
                purpose: if self.kind == Kind::SwapOnSignets {
                    "swap: alice receives btc".to_owned()
                } else {
                    "swap: alice receives core".to_owned()
                },
            },
            Step::BobInvoice => Ask::HoldInvoice {
                party: Party::BobKnots,
                msat: KNOTS_LEG_MSAT,
                payment_hash: f.payment_hash.clone(),
                purpose: if self.kind == Kind::SwapOnSignets {
                    "swap: bob receives btk".to_owned()
                } else {
                    "swap: bob receives knots".to_owned()
                },
            },
            Step::RunLegs => Ask::RunLegs(f.begin_legs(self.kind)),
            _ => Ask::Proceed,
        }
    }

    /// Takes what came of it.
    pub fn step(self, answer: Answer) -> (r: Run<String, Failure, Vec<HeaderFact>>)
        requires
            self@.wf(),
        ensures
            r@ == self@.after(answer),
            r@.wf(),
    {
        proof {
            runs_stay_within_their_program(self@, answer);
        }
        match self.stage {
            Stage::Begin => {
                let step = self.step_now();
                self.begin_step(step, answer)
            },
            Stage::MineKnots => match answer {
                Answer::Done => self.moved(Stage::Look(0)),
                _ => self,
            },
            Stage::Look(i) => match answer {
                Answer::Flag(ready) => {
                    let last: u8 = if self.kind == Kind::TwoChains {
                        4
                    } else {
                        2
                    };
                    if !ready {
                        self.moved(Stage::Clock)
                    } else if i >= last - 1 {
                        self.advance()
                    } else {
                        self.moved(Stage::Look(i + 1))
                    }
                },
                _ => self,
            },
            Stage::LookBob => match answer {
                Answer::Amount(r) => match r {
                    Ok(n) => {
                        let want: u128 = self.facts.bob_before as u128 + KNOTS_LEG_MSAT as u128;
                        if n as u128 >= want {
                            let facts = Facts { bob_seen: n, ..self.facts };
                            Run { kind: self.kind, done: self.done, stage: Stage::Begin, facts }.advance()
                        } else {
                            self.moved(Stage::Clock)
                        }
                    },
                    Err(e) => self.fail(e),
                },
                _ => self,
            },
            Stage::Clock => match answer {
                Answer::Elapsed(n) => {
                    let step = self.step_now();
                    self.clock(step, n)
                },
                _ => self,
            },
            Stage::Pause => match answer {
                Answer::Done => {
                    let stage = opening_stage(self.kind, self.done);
                    self.moved(stage)
                },
                _ => self,
            },
            Stage::Ended(r) => Run {
                kind: self.kind,
                done: self.done,
                stage: Stage::Ended(r),
                facts: self.facts,
            },
        }
    }

    fn clock(self, step: Step, elapsed: u128) -> (r: Run<String, Failure, Vec<HeaderFact>>)
        requires
            step == self@.current(),
        ensures
            r@ == self@.after_clock(elapsed as nat),
    {
        if step == Step::AwaitChannels {
            let secs: u128 = if self.kind == Kind::SwapOnSignets {
                1200
            } else {
                180
            };
            match wait_for("both channels ready", secs * 1_000_000_000, false, elapsed) {
                Waited::Expired(e) => if self.kind == Kind::SwapOnSignets {
                    self.fail(
                        Failure::new(e).context(
                            "channels never confirmed — are both miners producing?",
                        ),
                    )
                } else {
                    self.fail(Failure::new(e))
                },
                _ => self.moved(Stage::Pause),
            }
        } else {
            let secs: u128 = if self.kind == Kind::SwapOnSignets {
                120
            } else {
                60
            };
            match wait_for("balances to settle", secs * 1_000_000_000, false, elapsed) {
                Waited::Expired(e) => self.fail(Failure::new(e)),
                _ => self.moved(Stage::Pause),
            }
        }
    }

    fn begin_step(self, step: Step, answer: Answer) -> (r: Run<String, Failure, Vec<HeaderFact>>)
        requires
            self@.wf(),
            self@.stage is Begin,
            step == self@.current(),
        ensures
            r@ == self@.reacted(self@.reaction(answer)),
    {
        let checks = matches!(
            step,
            Step::RefuseMining
                | Step::CheckPorts
                | Step::CheckIndependence
                | Step::CheckTips
                | Step::CheckIds
                | Step::CheckActivated
                | Step::CheckInvoices
        );
        let of_swap = matches!(
            step,
            Step::MakeSecret
                | Step::AliceBefore
                | Step::BobBefore
                | Step::AliceInvoice
                | Step::BobInvoice
                | Step::RunLegs
                | Step::AwaitBalances
                | Step::AliceAfter
                | Step::BobAfter
        );
        let of_nodes = matches!(
            step,
            Step::StartRelay
                | Step::StartNode(_)
                | Step::OpenCore
                | Step::OpenKnots
                | Step::AwaitChannels
                | Step::CoreSeesKnots
                | Step::KnotsSeesCore
                | Step::FundingTx
                | Step::FundingHeight
        );
        if checks {
            match answer {
                Answer::Done => match self.find_fault(step) {
                    Some(e) => self.fail(Failure::new(e)),
                    None => self.advance(),
                },
                _ => self,
            }
        } else if of_swap {
            self.swap_step(step, answer)
        } else if of_nodes {
            self.node_step(step, answer)
        } else {
            match step {
                Step::Header { chain, at, want } => self.header_step(chain, at, want, answer),
                _ => self.chain_step(step, answer),
            }
        }
    }

    fn chain_step(self, step: Step, answer: Answer) -> (r: Run<String, Failure, Vec<HeaderFact>>)
        requires
            self@.wf(),
            self@.stage is Begin,
            step == self@.current(),
        ensures
            r@ == self@.reacted(self@.chain_reaction(answer)),
    {
        match step {
            Step::BuildKnots => match answer {
                Answer::Found(Ok(path)) => {
                    let facts = Facts { knots_binary: path, ..self.facts };
                    Self::over(self.kind, self.done, facts)
                },
                Answer::Found(Err(e)) => self.fail(e),
                _ => self,
            },
            Step::RefuseOverride => match answer {
                Answer::Named(named) => match refuse_override(&named) {
                    Some(e) => self.fail(Failure::new(e)),
                    None => self.advance(),
                },
                _ => self,
            },
            Step::StartCore | Step::AttachCore => match answer {
                Answer::Chain { port, ours } => {
                    let facts = Facts { core_port: port, core_ours: ours, ..self.facts };
                    Self::over(self.kind, self.done, facts)
                },
                _ => self,
            },
            Step::StartKnots | Step::AttachKnots => match answer {
                Answer::Chain { port, ours } => {
                    let facts = Facts { knots_port: port, knots_ours: ours, ..self.facts };
                    Self::over(self.kind, self.done, facts)
                },
                _ => self,
            },
            Step::CoreAddress => match answer {
                Answer::Text(s) => {
                    let facts = Facts { core_addr: s, ..self.facts };
                    Self::over(self.kind, self.done, facts)
                },
                _ => self,
            },
            Step::KnotsAddress => match answer {
                Answer::Text(s) => {
                    let facts = Facts { knots_addr: s, ..self.facts };
                    Self::over(self.kind, self.done, facts)
                },
                _ => self,
            },
            Step::MineCore(_) | Step::MineKnots(_) => match answer {
                Answer::Done => self.advance(),
                _ => self,
            },
            Step::KnotsBefore | Step::KnotsTip | Step::CoreHeight | Step::CoreTip
            | Step::KnotsAfter => match answer {
                Answer::Height(Ok(n)) => {
                    let facts = self.facts;
                    let facts = match step {
                        Step::KnotsBefore | Step::KnotsTip => Facts { knots_before: n, ..facts },
                        Step::KnotsAfter => Facts { knots_after: n, ..facts },
                        _ => Facts { core_height: n, ..facts },
                    };
                    Self::over(self.kind, self.done, facts)
                },
                Answer::Height(Err(e)) => self.fail(Failure::new(e)),
                _ => self,
            },
            _ => self,
        }
    }

    fn header_step(self, chain: Chain, at: At, want: u64, answer: Answer) -> (r: Run<
        String,
        Failure,
        Vec<HeaderFact>,
    >)
        requires
            self@.wf(),
            self@.stage is Begin,
        ensures
            r@ == self@.reacted(self@.header_reaction(chain, at, want, answer)),
    {
        match answer {
            Answer::Header(check) => {
                let height: u64 = self.facts.block_height(at);
                if check.height == height && check.want == want {
                    match check.stage {
                        HeaderStage::Done(Ok(())) => {
                            let mut facts = self.facts;
                            let ghost before = facts@;
                            facts.headers.push(HeaderFact { chain, height, want });
                            assert(facts@ == (Facts {
                                headers: before.headers.push(HeaderFact { chain, height, want }),
                                ..before
                            }));
                            Self::over(self.kind, self.done, facts)
                        },
                        HeaderStage::Done(Err(e)) => match context_of_header(
                            self.kind,
                            chain,
                            at,
                        ) {
                            Some(c) => self.fail(Failure::new(e).context(c)),
                            None => self.fail(Failure::new(e)),
                        },
                        _ => self,
                    }
                } else {
                    self
                }
            },
            _ => self,
        }
    }

    fn node_step(self, step: Step, answer: Answer) -> (r: Run<String, Failure, Vec<HeaderFact>>)
        requires
            self@.wf(),
            self@.stage is Begin,
            step == self@.current(),
        ensures
            r@ == self@.reacted(self@.node_reaction(answer)),
    {
        match (step, answer) {
            (Step::StartRelay, Answer::Text(s)) => {
                let facts = Facts { relay_url: s, ..self.facts };
                Self::over(self.kind, self.done, facts)
            },
            (Step::StartNode(party), Answer::Node(r)) => match r {
                Ok(peer) => {
                    let facts = self.facts.with_node(party, peer);
                    Self::over(self.kind, self.done, facts)
                },
                Err(e) => {
                    let doing = cat2(plain_name(party), " failed to start");
                    self.fail(e.context(doing.as_str()))
                },
            },
            (Step::OpenCore, Answer::Tried(r)) => match r {
                Ok(()) => self.advance(),
                Err(e) => self.fail(e.context("core channel open failed")),
            },
            (Step::OpenKnots, Answer::Tried(r)) => match r {
                Ok(()) => self.advance(),
                Err(e) => self.fail(e.context("knots channel open failed")),
            },
            (Step::AwaitChannels, Answer::Done) => self.moved(Stage::MineKnots),
            (Step::CoreSeesKnots, Answer::Flag(seen)) => if seen {
                self.fail(Failure::new("a Core node sees a Knots channel".to_owned()))
            } else {
                self.advance()
            },
            (Step::KnotsSeesCore, Answer::Flag(seen)) => if seen {
                self.fail(Failure::new("a Knots node sees a Core channel".to_owned()))
            } else {
                self.advance()
            },
            (Step::FundingTx, Answer::Channels(r)) => match r {
                Err(e) => self.fail(e),
                Ok(channels) => match funding_txid(&channels, self.facts.bob_knots.id.as_str()) {
                    Ok(txid) => {
                        let facts = Facts { funding_txid: txid, ..self.facts };
                        Self::over(self.kind, self.done, facts)
                    },
                    Err(e) => self.fail(Failure::new(e)),
                },
            },
            (Step::FundingHeight, Answer::Height(r)) => match r {
                Ok(n) => {
                    let facts = Facts { funding_height: n, ..self.facts };
                    Self::over(self.kind, self.done, facts)
                },
                Err(e) => self.fail(Failure::new(e)),
            },
            _ => self,
        }
    }

    fn swap_step(self, step: Step, answer: Answer) -> (r: Run<String, Failure, Vec<HeaderFact>>)
        requires
            self@.wf(),
            self@.stage is Begin,
            step == self@.current(),
        ensures
            r@ == self@.reacted(self@.swap_reaction(answer)),
    {
        match (step, answer) {
            (Step::MakeSecret, Answer::Bytes(bytes)) => {
                let digest = sha256(bytes.as_slice());
                let facts = Facts {
                    secret: encode_hex(bytes.as_slice()),
                    payment_hash: encode_hex(digest.as_slice()),
                    ..self.facts
                };
                Self::over(self.kind, self.done, facts)
            },
            (Step::AliceBefore, Answer::Amount(r)) => match r {
                Ok(n) => {
                    let facts = Facts { alice_before: n, ..self.facts };
                    Self::over(self.kind, self.done, facts)
                },
                Err(e) => self.fail(e),
            },
            (Step::BobBefore, Answer::Amount(r)) => match r {
                Ok(n) => {
                    let facts = Facts { bob_before: n, ..self.facts };
                    Self::over(self.kind, self.done, facts)
                },
                Err(e) => self.fail(e),
            },
            (Step::AliceInvoice, Answer::Found(r)) => match r {
                Ok(s) => {
                    let facts = Facts { alice_invoice: s, ..self.facts };
                    Self::over(self.kind, self.done, facts)
                },
                Err(e) => self.fail(e.context("alice-core make_hold_invoice failed")),
            },
            (Step::BobInvoice, Answer::Found(r)) => match r {
                Ok(s) => {
                    let facts = Facts { bob_invoice: s, ..self.facts };
                    Self::over(self.kind, self.done, facts)
                },
                Err(e) => self.fail(e.context("bob-knots make_hold_invoice failed")),
            },
            (Step::RunLegs, Answer::Legs(legs)) => {
                let same = legs.secret == self.facts.secret && legs.payment_hash
                    == self.facts.payment_hash && legs.alice_invoice == self.facts.alice_invoice
                    && legs.bob_invoice == self.facts.bob_invoice;
                if !same {
                    return self;
                }
                let mismatch = if self.kind == Kind::SwapOnSignets {
                    "the BTC leg settled with a different preimage"
                } else {
                    "the core leg settled with a different preimage"
                };
                match legs.finish(mismatch) {
                    Some(Ok(preimage)) => {
                        let facts = Facts { preimage, ..self.facts };
                        Self::over(self.kind, self.done, facts)
                    },
                    Some(Err(e)) => self.fail(e),
                    None => self,
                }
            },
            (Step::AwaitBalances, Answer::Amount(r)) => match r {
                Ok(n) => {
                    let want: u128 = self.facts.alice_before as u128 + CORE_LEG_MSAT as u128;
                    if n as u128 >= want {
                        let facts = Facts { alice_seen: n, ..self.facts };
                        Run { kind: self.kind, done: self.done, stage: Stage::LookBob, facts }
                    } else {
                        self.moved(Stage::Clock)
                    }
                },
                Err(e) => self.fail(e),
            },
            (Step::AliceAfter, Answer::Amount(r)) => match r {
                Ok(n) => {
                    let facts = Facts { alice_after: n, ..self.facts };
                    Self::over(self.kind, self.done, facts)
                },
                Err(e) => self.fail(e),
            },
            (Step::BobAfter, Answer::Amount(r)) => match r {
                Ok(n) => {
                    let facts = Facts { bob_after: n, ..self.facts };
                    Self::over(self.kind, self.done, facts)
                },
                Err(e) => self.fail(e),
            },
            _ => self,
        }
    }

    /// The run after a step, with what is known then.
    fn over(kind: Kind, done: usize, facts: Facts<String, Vec<HeaderFact>>) -> (r: Run<
        String,
        Failure,
        Vec<HeaderFact>,
    >)
        requires
            done < program(kind).len(),
        ensures
            r@ == (Run::<Seq<char>, Seq<Seq<char>>, Seq<HeaderFact>> {
                kind,
                done: (done + 1) as usize,
                stage: opening(kind, done + 1),
                facts: facts@,
            }),
    {
        (Run { kind, done, stage: Stage::Begin, facts }).advance()
    }
}

proof fn programs_are_short(kind: Kind)
    ensures
        0 < program(kind).len() < 40,
        program(kind)[0] == Step::BuildKnots,
{
    reveal(prelude);
    reveal(swap);
}

/// A run never counts more steps than its scenario has, and until it is over it
/// has one to take.
pub proof fn runs_stay_within_their_program(
    run: Run<Seq<char>, Seq<Seq<char>>, Seq<HeaderFact>>,
    answer: Answer,
)
    requires
        run.wf(),
    ensures
        run.after(answer).wf(),
{
    programs_are_short(run.kind);
}

} // verus!
