//! The scenario of one dln-node and one lnrod: a channel between them, a
//! payment in each direction, and a cooperative close.
//!
//! Whoever runs it performs what is asked; everything that is decided is
//! decided here.

use vstd::prelude::*;
use vstd::utf8::encode_utf8;
use crate::bitcoind::{core_launch, BitcoindHarness, LaunchPlan};
use crate::codec::{decode_hex, hex_bytes, hex_refusal, hex_text, encode_hex};
use crate::control::{channel_to_close, channels_view, first_channel};
use crate::dln_node_client::SignerMode;
use crate::lnrod_client::{
    any_active, any_succeeded, some_active, some_succeeded, LnrodChannel, LnrodPayment,
};
use crate::outcome::{bare, during, failing_view, unit_failing_view, Failure};
use crate::text::{cat2, decimal, decimal_text};
use crate::util::{until, wait_until, Waited};
use crate::wallet::amount_view;

verus! {

/// Where the scenario stands. `T` is a text and `F` a failure.
pub enum TestStage<T, F> {
    StartChain,
    AskAddress,
    Premine,
    StartRelay,
    StartNode,
    MakeDir,
    StartLnrod,
    AskNodeId,
    /// Fund lnrod with on-chain BTC, for anchor channel fee bumping, where it
    /// names an address.
    AskFunding,
    Fund { address: T },
    ConfirmFund,
    SettleFund,
    /// The dln-node opens the channel to lnrod.
    OpenChannel,
    ConfirmOpen,
    /// Wait until the channel is active on both sides.
    ActiveLnrod,
    ActiveNode { lnrod_active: bool },
    ActiveMine,
    ActiveClock,
    ActivePause,
    /// Let gossip propagate.
    MineGossip,
    SettleGossip,
    /// The dln-node pays lnrod.
    MakeInvoice,
    Pay { invoice: T },
    InboundLook,
    InboundClock,
    InboundPause,
    /// lnrod pays the dln-node, without an invoice.
    Keysend,
    OutboundLook,
    OutboundClock,
    OutboundPause,
    /// Close the channel, from the side that opened it.
    ListChannels,
    CloseChannel { id: T },
    ConfirmClose,
    ClosedLnrod,
    ClosedNode { lnrod_closed: bool },
    ClosedMine,
    ClosedClock,
    ClosedPause,
    AskBalance,
    /// The processes are all still running.
    CheckAlive(Process),
    Kill(Process),
    CleanUp,
    Passed,
    Failed(F),
    /// A wait took too long; this is what it says when it gives up.
    GaveUp(T),
}

/// A process of the scenario.
#[derive(Clone, Copy, PartialEq, Eq, Structural)]
pub enum Process {
    Node,
    NodeSigner,
    Lnrod,
    LnrodProxy,
    LnrodSigner,
}

/// What the scenario has found out. `T` is a text and `B` are bytes.
pub struct TestFacts<T, B> {
    pub miner: T,
    pub relay_url: T,
    /// The id of the dln-node.
    pub node_id: T,
    /// The same in bytes, once lnrod has to pay it.
    pub dest: B,
    pub lnrod_port: u16,
    /// The id of lnrod.
    pub lnrod_id: T,
}

/// A run of the scenario.
pub struct SystemTest<T, F, B> {
    pub stage: TestStage<T, F>,
    pub facts: TestFacts<T, B>,
}

/// What a run asks for.
pub enum TestAsk {
    StartChain { plan: LaunchPlan },
    NewAddress,
    Mine { blocks: u64, address: String },
    StartRelay,
    StartNode { signer: SignerMode, miner: String, relay_url: String },
    /// Make this directory in the output directory.
    MakeDir { name: String },
    /// Start lnrod with its data in this directory of the output directory.
    StartLnrod { data_dir: String, relay_url: String },
    /// lnrod's own public key.
    LnrodId,
    /// An address of lnrod's wallet, which may be empty.
    LnrodAddress,
    SendToAddress { address: String, sats: u64 },
    SleepMillis(u64),
    OpenChannel { peer: String, address: String, sats: u64, push: u64 },
    LnrodChannels,
    /// Whether the dln-node has an active channel with lnrod.
    HasReady { peer: String },
    /// Whether the dln-node has any channel with lnrod.
    HasAny { peer: String },
    /// The time since the first look of this wait.
    Elapsed,
    LnrodInvoice { msat: u64 },
    PayInvoice { invoice: String },
    LnrodPayments,
    /// Send a payment without an invoice. It may fail.
    Keysend { dest: Vec<u8>, msat: u64 },
    NodeChannels,
    CloseChannel { id: String, force: bool },
    Balance,
    CheckAlive(Process),
    Kill(Process),
    /// Remove the output, unless it is to be kept.
    CleanUp,
    Nothing,
}

/// What came of it.
pub enum TestAnswer {
    Done,
    Text(String),
    Flag(bool),
    Tried(Result<(), Failure>),
    Found(Result<String, Failure>),
    /// A node runs, under this id.
    Node(Result<String, Failure>),
    /// lnrod runs, and listens on this port.
    Lnrod(Result<u16, Failure>),
    Bytes(Result<Vec<u8>, Failure>),
    LnrodChannels(Result<Vec<LnrodChannel>, String>),
    LnrodPayments(Result<Vec<LnrodPayment>, String>),
    Channels(Result<Vec<serde_json::Value>, Failure>),
    Amount(Result<u64, Failure>),
    /// Nanoseconds since the first look of this wait.
    Elapsed(u128),
}

impl View for TestStage<String, Failure> {
    type V = TestStage<Seq<char>, Seq<Seq<char>>>;

    open spec fn view(&self) -> TestStage<Seq<char>, Seq<Seq<char>>> {
        match *self {
            TestStage::StartChain => TestStage::StartChain,
            TestStage::AskAddress => TestStage::AskAddress,
            TestStage::Premine => TestStage::Premine,
            TestStage::StartRelay => TestStage::StartRelay,
            TestStage::StartNode => TestStage::StartNode,
            TestStage::MakeDir => TestStage::MakeDir,
            TestStage::StartLnrod => TestStage::StartLnrod,
            TestStage::AskNodeId => TestStage::AskNodeId,
            TestStage::AskFunding => TestStage::AskFunding,
            TestStage::Fund { address } => TestStage::Fund { address: address@ },
            TestStage::ConfirmFund => TestStage::ConfirmFund,
            TestStage::SettleFund => TestStage::SettleFund,
            TestStage::OpenChannel => TestStage::OpenChannel,
            TestStage::ConfirmOpen => TestStage::ConfirmOpen,
            TestStage::ActiveLnrod => TestStage::ActiveLnrod,
            TestStage::ActiveNode { lnrod_active } => TestStage::ActiveNode { lnrod_active },
            TestStage::ActiveMine => TestStage::ActiveMine,
            TestStage::ActiveClock => TestStage::ActiveClock,
            TestStage::ActivePause => TestStage::ActivePause,
            TestStage::MineGossip => TestStage::MineGossip,
            TestStage::SettleGossip => TestStage::SettleGossip,
            TestStage::MakeInvoice => TestStage::MakeInvoice,
            TestStage::Pay { invoice } => TestStage::Pay { invoice: invoice@ },
            TestStage::InboundLook => TestStage::InboundLook,
            TestStage::InboundClock => TestStage::InboundClock,
            TestStage::InboundPause => TestStage::InboundPause,
            TestStage::Keysend => TestStage::Keysend,
            TestStage::OutboundLook => TestStage::OutboundLook,
            TestStage::OutboundClock => TestStage::OutboundClock,
            TestStage::OutboundPause => TestStage::OutboundPause,
            TestStage::ListChannels => TestStage::ListChannels,
            TestStage::CloseChannel { id } => TestStage::CloseChannel { id: id@ },
            TestStage::ConfirmClose => TestStage::ConfirmClose,
            TestStage::ClosedLnrod => TestStage::ClosedLnrod,
            TestStage::ClosedNode { lnrod_closed } => TestStage::ClosedNode { lnrod_closed },
            TestStage::ClosedMine => TestStage::ClosedMine,
            TestStage::ClosedClock => TestStage::ClosedClock,
            TestStage::ClosedPause => TestStage::ClosedPause,
            TestStage::AskBalance => TestStage::AskBalance,
            TestStage::CheckAlive(p) => TestStage::CheckAlive(p),
            TestStage::Kill(p) => TestStage::Kill(p),
            TestStage::CleanUp => TestStage::CleanUp,
            TestStage::Passed => TestStage::Passed,
            TestStage::Failed(f) => TestStage::Failed(f@),
            TestStage::GaveUp(s) => TestStage::GaveUp(s@),
        }
    }
}

impl View for TestFacts<String, Vec<u8>> {
    type V = TestFacts<Seq<char>, Seq<u8>>;

    open spec fn view(&self) -> TestFacts<Seq<char>, Seq<u8>> {
        TestFacts {
            miner: self.miner@,
            relay_url: self.relay_url@,
            node_id: self.node_id@,
            dest: self.dest@,
            lnrod_port: self.lnrod_port,
            lnrod_id: self.lnrod_id@,
        }
    }
}

impl View for SystemTest<String, Failure, Vec<u8>> {
    type V = SystemTest<Seq<char>, Seq<Seq<char>>, Seq<u8>>;

    open spec fn view(&self) -> SystemTest<Seq<char>, Seq<Seq<char>>, Seq<u8>> {
        SystemTest { stage: self.stage@, facts: self.facts@ }
    }
}

/// The process that is looked at after another.
pub open spec fn next_alive(p: Process) -> Option<Process> {
    match p {
        Process::Node => Some(Process::NodeSigner),
        Process::NodeSigner => Some(Process::Lnrod),
        Process::Lnrod => Some(Process::LnrodProxy),
        Process::LnrodProxy => Some(Process::LnrodSigner),
        Process::LnrodSigner => None,
    }
}

/// The process that is killed after another: lnrod comes last.
pub open spec fn next_killed(p: Process) -> Option<Process> {
    match p {
        Process::Node => Some(Process::NodeSigner),
        Process::NodeSigner => Some(Process::LnrodProxy),
        Process::LnrodProxy => Some(Process::LnrodSigner),
        Process::LnrodSigner => Some(Process::Lnrod),
        Process::Lnrod => None,
    }
}

/// Whether `ask` is what a run asks for.
pub open spec fn test_asks(test: SystemTest<Seq<char>, Seq<Seq<char>>, Seq<u8>>, ask: TestAsk) -> bool {
    let f = test.facts;
    match test.stage {
        TestStage::StartChain => ask matches TestAsk::StartChain { plan } && plan@
            == core_launch(),
        TestStage::AskAddress => ask is NewAddress,
        TestStage::Premine => ask matches TestAsk::Mine { blocks, address } && blocks == 110
            && address@ == f.miner,
        TestStage::StartRelay => ask is StartRelay,
        TestStage::StartNode => ask matches TestAsk::StartNode { signer, miner, relay_url }
            && signer == SignerMode::Nostr && miner@ == f.miner && relay_url@ == f.relay_url,
        TestStage::MakeDir => ask matches TestAsk::MakeDir { name } && name@ == "lnrod-data"@,
        TestStage::StartLnrod => ask matches TestAsk::StartLnrod { data_dir, relay_url }
            && data_dir@ == "lnrod-data"@ && relay_url@ == f.relay_url,
        TestStage::AskNodeId => ask is LnrodId,
        TestStage::AskFunding => ask is LnrodAddress,
        TestStage::Fund { address: to } => ask matches TestAsk::SendToAddress { address, sats }
            && address@ == to && sats == 1_000_000,
        TestStage::ConfirmFund | TestStage::ActiveMine | TestStage::ClosedMine => ask matches
            TestAsk::Mine { blocks, address } && blocks == 1 && address@ == f.miner,
        TestStage::SettleFund => ask == TestAsk::SleepMillis(2000),
        TestStage::OpenChannel => ask matches TestAsk::OpenChannel { peer, address, sats, push }
            && peer@ == f.lnrod_id && address@ == "127.0.0.1:"@ + decimal(f.lnrod_port as nat)
            && sats == 2_000_000 && push == 500_000,
        TestStage::ConfirmOpen | TestStage::MineGossip | TestStage::ConfirmClose => ask matches
            TestAsk::Mine { blocks, address } && blocks == 6 && address@ == f.miner,
        TestStage::ActiveLnrod | TestStage::ClosedLnrod => ask is LnrodChannels,
        TestStage::ActiveNode { .. } => ask matches TestAsk::HasReady { peer } && peer@
            == f.lnrod_id,
        TestStage::ClosedNode { .. } => ask matches TestAsk::HasAny { peer } && peer@
            == f.lnrod_id,
        TestStage::ActiveClock | TestStage::InboundClock | TestStage::OutboundClock
        | TestStage::ClosedClock => ask is Elapsed,
        TestStage::ActivePause | TestStage::ClosedPause => ask == TestAsk::SleepMillis(500),
        TestStage::InboundPause => ask == TestAsk::SleepMillis(200),
        TestStage::OutboundPause => ask == TestAsk::SleepMillis(2000),
        TestStage::SettleGossip => ask == TestAsk::SleepMillis(5000),
        TestStage::MakeInvoice => ask == (TestAsk::LnrodInvoice { msat: 10_000_000 }),
        TestStage::Pay { invoice: i } => ask matches TestAsk::PayInvoice { invoice } && invoice@
            == i,
        TestStage::InboundLook | TestStage::OutboundLook => ask is LnrodPayments,
        TestStage::Keysend => ask matches TestAsk::Keysend { dest, msat } && dest@ == f.dest
            && msat == 5_000_000,
        TestStage::ListChannels => ask is NodeChannels,
        TestStage::CloseChannel { id: i } => ask matches TestAsk::CloseChannel { id, force } && id@
            == i && !force,
        TestStage::AskBalance => ask is Balance,
        TestStage::CheckAlive(p) => ask == TestAsk::CheckAlive(p),
        TestStage::Kill(p) => ask == TestAsk::Kill(p),
        TestStage::CleanUp => ask is CleanUp,
        TestStage::Passed | TestStage::Failed(_) | TestStage::GaveUp(_) => ask is Nothing,
    }
}

/// The bytes of an id that is in hexadecimal, or why it is not.
pub open spec fn id_bytes(id: Seq<char>) -> Result<Seq<u8>, Seq<Seq<char>>> {
    match hex_bytes(encode_utf8(id)) {
        Some(bytes) => Ok(bytes),
        None => Err(during("ldk node_id hex decode"@, bare(hex_refusal(encode_utf8(id))))),
    }
}

impl SystemTest<Seq<char>, Seq<Seq<char>>, Seq<u8>> {
    /// A run before its first step.
    pub open spec fn begun() -> SystemTest<Seq<char>, Seq<Seq<char>>, Seq<u8>> {
        SystemTest {
            stage: TestStage::StartChain,
            facts: TestFacts {
                miner: Seq::empty(),
                relay_url: Seq::empty(),
                node_id: Seq::empty(),
                dest: Seq::empty(),
                lnrod_port: 0,
                lnrod_id: Seq::empty(),
            },
        }
    }

    pub open spec fn at(self, stage: TestStage<Seq<char>, Seq<Seq<char>>>) -> SystemTest<
        Seq<char>,
        Seq<Seq<char>>,
        Seq<u8>,
    > {
        SystemTest { stage, ..self }
    }

    /// The run after a wait has looked at the clock.
    pub open spec fn clocked(
        self,
        label: Seq<char>,
        secs: nat,
        elapsed: nat,
        pause: TestStage<Seq<char>, Seq<Seq<char>>>,
    ) -> SystemTest<Seq<char>, Seq<Seq<char>>, Seq<u8>> {
        match until(label, secs * 1_000_000_000, false, elapsed) {
            Waited::Expired(e) => self.at(TestStage::GaveUp(e)),
            _ => self.at(pause),
        }
    }

    /// The run where something that may fail in a context was tried.
    pub open spec fn tried(
        self,
        r: Result<(), Seq<Seq<char>>>,
        context: Seq<char>,
        next: TestStage<Seq<char>, Seq<Seq<char>>>,
    ) -> SystemTest<Seq<char>, Seq<Seq<char>>, Seq<u8>> {
        match r {
            Ok(()) => self.at(next),
            Err(f) => self.at(TestStage::Failed(during(context, f))),
        }
    }

    /// The run after an answer, until the channel is open.
    pub open spec fn after_opening(self, answer: TestAnswer) -> SystemTest<
        Seq<char>,
        Seq<Seq<char>>,
        Seq<u8>,
    > {
        let f = self.facts;
        match (self.stage, answer) {
            (TestStage::StartChain, TestAnswer::Done) => self.at(TestStage::AskAddress),
            (TestStage::AskAddress, TestAnswer::Text(s)) => SystemTest {
                stage: TestStage::Premine,
                facts: TestFacts { miner: s@, ..f },
            },
            (TestStage::Premine, TestAnswer::Done) => self.at(TestStage::StartRelay),
            (TestStage::StartRelay, TestAnswer::Text(s)) => SystemTest {
                stage: TestStage::StartNode,
                facts: TestFacts { relay_url: s@, ..f },
            },
            (TestStage::StartNode, TestAnswer::Node(r)) => match failing_view(r) {
                Ok(id) => SystemTest {
                    stage: TestStage::MakeDir,
                    facts: TestFacts { node_id: id, ..f },
                },
                Err(e) => self.at(TestStage::Failed(during("failed to start dln-node"@, e))),
            },
            (TestStage::MakeDir, TestAnswer::Tried(r)) => match unit_failing_view(r) {
                Ok(()) => self.at(TestStage::StartLnrod),
                Err(e) => self.at(TestStage::Failed(e)),
            },
            (TestStage::StartLnrod, TestAnswer::Lnrod(r)) => match r {
                Ok(port) => SystemTest {
                    stage: TestStage::AskNodeId,
                    facts: TestFacts { lnrod_port: port, ..f },
                },
                Err(e) => self.at(TestStage::Failed(during("failed to start lnrod"@, e@))),
            },
            (TestStage::AskNodeId, TestAnswer::Bytes(r)) => match r {
                Ok(bytes) => SystemTest {
                    stage: TestStage::AskFunding,
                    facts: TestFacts { lnrod_id: hex_text(bytes@), ..f },
                },
                Err(e) => self.at(TestStage::Failed(e@)),
            },
            (TestStage::AskFunding, TestAnswer::Found(r)) => match failing_view(r) {
                Ok(address) => if address.len() == 0 {
                    self.at(TestStage::OpenChannel)
                } else {
                    self.at(TestStage::Fund { address })
                },
                Err(e) => self.at(TestStage::Failed(e)),
            },
            (TestStage::Fund { .. }, TestAnswer::Done) => self.at(TestStage::ConfirmFund),
            (TestStage::ConfirmFund, TestAnswer::Done) => self.at(TestStage::SettleFund),
            (TestStage::SettleFund, TestAnswer::Done) => self.at(TestStage::OpenChannel),
            (TestStage::OpenChannel, TestAnswer::Tried(r)) => self.tried(
                unit_failing_view(r),
                "open_channel failed"@,
                TestStage::ConfirmOpen,
            ),
            (TestStage::ConfirmOpen, TestAnswer::Done) => self.at(TestStage::ActiveLnrod),
            (TestStage::ActiveLnrod, TestAnswer::LnrodChannels(r)) => match r {
                Ok(channels) => self.at(
                    TestStage::ActiveNode { lnrod_active: some_active(channels@) },
                ),
                Err(_) => self.at(TestStage::ActiveClock),
            },
            (TestStage::ActiveNode { lnrod_active }, TestAnswer::Flag(ready)) => if lnrod_active
                && ready {
                self.at(TestStage::MineGossip)
            } else {
                self.at(TestStage::ActiveMine)
            },
            (TestStage::ActiveMine, TestAnswer::Done) => self.at(TestStage::ActiveClock),
            (TestStage::ActiveClock, TestAnswer::Elapsed(n)) => self.clocked(
                "channel active"@,
                60,
                n as nat,
                TestStage::ActivePause,
            ),
            (TestStage::ActivePause, TestAnswer::Done) => self.at(TestStage::ActiveLnrod),
            _ => self,
        }
    }

    /// The run after an answer, while payments are made.
    pub open spec fn after_paying(self, answer: TestAnswer) -> SystemTest<
        Seq<char>,
        Seq<Seq<char>>,
        Seq<u8>,
    > {
        let f = self.facts;
        match (self.stage, answer) {
            (TestStage::MineGossip, TestAnswer::Done) => self.at(TestStage::SettleGossip),
            (TestStage::SettleGossip, TestAnswer::Done) => self.at(TestStage::MakeInvoice),
            (TestStage::MakeInvoice, TestAnswer::Found(r)) => match failing_view(r) {
                Ok(invoice) => self.at(TestStage::Pay { invoice }),
                Err(e) => self.at(TestStage::Failed(during("lnrod invoice_new failed"@, e))),
            },
            (TestStage::Pay { .. }, TestAnswer::Tried(r)) => self.tried(
                unit_failing_view(r),
                "ldk pay_invoice failed"@,
                TestStage::InboundLook,
            ),
            (TestStage::InboundLook, TestAnswer::LnrodPayments(r)) => match r {
                Ok(payments) => if some_succeeded(payments@, false) {
                    match id_bytes(f.node_id) {
                        Ok(dest) => SystemTest {
                            stage: TestStage::Keysend,
                            facts: TestFacts { dest, ..f },
                        },
                        Err(e) => self.at(TestStage::Failed(e)),
                    }
                } else {
                    self.at(TestStage::InboundClock)
                },
                Err(_) => self.at(TestStage::InboundClock),
            },
            (TestStage::InboundClock, TestAnswer::Elapsed(n)) => self.clocked(
                "ldk->lnrod payment succeeded"@,
                30,
                n as nat,
                TestStage::InboundPause,
            ),
            (TestStage::InboundPause, TestAnswer::Done) => self.at(TestStage::InboundLook),
            (TestStage::Keysend, TestAnswer::Done) => self.at(TestStage::OutboundLook),
            (TestStage::OutboundLook, TestAnswer::LnrodPayments(r)) => match r {
                Ok(payments) => if some_succeeded(payments@, true) {
                    self.at(TestStage::ListChannels)
                } else {
                    self.at(TestStage::OutboundClock)
                },
                Err(_) => self.at(TestStage::OutboundClock),
            },
            (TestStage::OutboundClock, TestAnswer::Elapsed(n)) => self.clocked(
                "lnrod->ldk keysend succeeded"@,
                60,
                n as nat,
                TestStage::OutboundPause,
            ),
            (TestStage::OutboundPause, TestAnswer::Done) => self.at(TestStage::Keysend),
            _ => self,
        }
    }

    /// The run after an answer, while the channel is closed and the end is
    /// verified.
    pub open spec fn after_closing(self, answer: TestAnswer) -> SystemTest<
        Seq<char>,
        Seq<Seq<char>>,
        Seq<u8>,
    > {
        match (self.stage, answer) {
            (TestStage::ListChannels, TestAnswer::Channels(r)) => match channels_view(r) {
                Ok(channels) => match first_channel(channels) {
                    Ok(id) => self.at(TestStage::CloseChannel { id }),
                    Err(e) => self.at(TestStage::Failed(bare(e))),
                },
                Err(e) => self.at(TestStage::Failed(e)),
            },
            (TestStage::CloseChannel { .. }, TestAnswer::Tried(r)) => self.tried(
                unit_failing_view(r),
                "close_channel failed"@,
                TestStage::ConfirmClose,
            ),
            (TestStage::ConfirmClose, TestAnswer::Done) => self.at(TestStage::ClosedLnrod),
            (TestStage::ClosedLnrod, TestAnswer::LnrodChannels(r)) => match r {
                Ok(channels) => self.at(
                    TestStage::ClosedNode { lnrod_closed: channels@.len() == 0 },
                ),
                Err(_) => self.at(TestStage::ClosedClock),
            },
            (TestStage::ClosedNode { lnrod_closed }, TestAnswer::Flag(listed)) => if lnrod_closed
                && !listed {
                self.at(TestStage::AskBalance)
            } else {
                self.at(TestStage::ClosedMine)
            },
            (TestStage::ClosedMine, TestAnswer::Done) => self.at(TestStage::ClosedClock),
            (TestStage::ClosedClock, TestAnswer::Elapsed(n)) => self.clocked(
                "channel closed on both sides"@,
                60,
                n as nat,
                TestStage::ClosedPause,
            ),
            (TestStage::ClosedPause, TestAnswer::Done) => self.at(TestStage::ClosedLnrod),
            (TestStage::AskBalance, TestAnswer::Amount(r)) => match amount_view(r) {
                Ok(n) => if n > 0 {
                    self.at(TestStage::CheckAlive(Process::Node))
                } else {
                    self.at(
                        TestStage::Failed(bare("dln-node on-chain balance should be > 0"@)),
                    )
                },
                Err(e) => self.at(TestStage::Failed(e)),
            },
            (TestStage::CheckAlive(p), TestAnswer::Tried(r)) => match unit_failing_view(r) {
                Ok(()) => match next_alive(p) {
                    Some(q) => self.at(TestStage::CheckAlive(q)),
                    None => self.at(TestStage::Kill(Process::Node)),
                },
                Err(e) => self.at(TestStage::Failed(e)),
            },
            (TestStage::Kill(p), TestAnswer::Done) => match next_killed(p) {
                Some(q) => self.at(TestStage::Kill(q)),
                None => self.at(TestStage::CleanUp),
            },
            (TestStage::CleanUp, TestAnswer::Done) => self.at(TestStage::Passed),
            _ => self,
        }
    }

    /// The run after `answer`. An answer to something else changes nothing.
    pub open spec fn after(self, answer: TestAnswer) -> SystemTest<
        Seq<char>,
        Seq<Seq<char>>,
        Seq<u8>,
    > {
        match part(self.stage) {
            Part::Opening => self.after_opening(answer),
            Part::Paying => self.after_paying(answer),
            Part::Closing => self.after_closing(answer),
        }
    }
}

/// A part of the scenario.
#[derive(Clone, Copy, PartialEq, Eq, Structural)]
pub enum Part {
    Opening,
    Paying,
    Closing,
}

/// The part that a stage belongs to.
pub open spec fn part(stage: TestStage<Seq<char>, Seq<Seq<char>>>) -> Part {
    match stage {
        TestStage::StartChain | TestStage::AskAddress | TestStage::Premine
        | TestStage::StartRelay | TestStage::StartNode | TestStage::MakeDir
        | TestStage::StartLnrod | TestStage::AskNodeId | TestStage::AskFunding | TestStage::Fund {
            ..
        } | TestStage::ConfirmFund | TestStage::SettleFund | TestStage::OpenChannel
        | TestStage::ConfirmOpen | TestStage::ActiveLnrod | TestStage::ActiveNode { .. }
        | TestStage::ActiveMine | TestStage::ActiveClock | TestStage::ActivePause => Part::Opening,
        TestStage::MineGossip | TestStage::SettleGossip | TestStage::MakeInvoice | TestStage::Pay {
            ..
        } | TestStage::InboundLook | TestStage::InboundClock | TestStage::InboundPause
        | TestStage::Keysend | TestStage::OutboundLook | TestStage::OutboundClock
        | TestStage::OutboundPause => Part::Paying,
        _ => Part::Closing,
    }
}

/// Something that the scenario waits for. The time that it asks for is counted
/// from when the wait began.
#[derive(Clone, Copy, PartialEq, Eq, Structural)]
pub enum TestWait {
    ChannelActive,
    Inbound,
    Outbound,
    ChannelClosed,
}

/// What a stage waits for, if anything.
pub open spec fn test_wait<T, F>(stage: TestStage<T, F>) -> Option<TestWait> {
    match stage {
        TestStage::ActiveLnrod | TestStage::ActiveNode { .. } | TestStage::ActiveMine
        | TestStage::ActiveClock | TestStage::ActivePause => Some(TestWait::ChannelActive),
        TestStage::InboundLook | TestStage::InboundClock | TestStage::InboundPause => Some(
            TestWait::Inbound,
        ),
        TestStage::Keysend | TestStage::OutboundLook | TestStage::OutboundClock
        | TestStage::OutboundPause => Some(TestWait::Outbound),
        TestStage::ClosedLnrod | TestStage::ClosedNode { .. } | TestStage::ClosedMine
        | TestStage::ClosedClock | TestStage::ClosedPause => Some(TestWait::ChannelClosed),
        _ => None,
    }
}

// ---------------------------------------------------------------------------
// Running
// ---------------------------------------------------------------------------

impl SystemTest<String, Failure, Vec<u8>> {
    /// Begins a run.
    pub fn begin() -> (r: SystemTest<String, Failure, Vec<u8>>)
        ensures
            r@ == SystemTest::<Seq<char>, Seq<Seq<char>>, Seq<u8>>::begun(),
    {
        let facts = TestFacts {
            miner: String::new(),
            relay_url: String::new(),
            node_id: String::new(),
            dest: Vec::new(),
            lnrod_port: 0,
            lnrod_id: String::new(),
        };
        assert(facts@.dest =~= Seq::empty());
        SystemTest { stage: TestStage::StartChain, facts }
    }

    fn mine(&self, blocks: u64) -> (r: TestAsk)
        ensures
            r matches TestAsk::Mine { blocks: n, address } && n == blocks && address@
                == self@.facts.miner,
    {
        TestAsk::Mine { blocks, address: self.facts.miner.clone() }
    }

    /// What the run waits for, if anything. It never asks for the time elsewhere.
    pub fn wait(&self) -> (r: Option<TestWait>)
        ensures
            r == test_wait(self.stage),
            r is None ==> forall|ask: TestAsk| test_asks(self@, ask) ==> !(ask is Elapsed),
    {
        match &self.stage {
            TestStage::ActiveLnrod | TestStage::ActiveNode { .. } | TestStage::ActiveMine
            | TestStage::ActiveClock | TestStage::ActivePause => Some(TestWait::ChannelActive),
            TestStage::InboundLook | TestStage::InboundClock | TestStage::InboundPause => Some(
                TestWait::Inbound,
            ),
            TestStage::Keysend | TestStage::OutboundLook | TestStage::OutboundClock
            | TestStage::OutboundPause => Some(TestWait::Outbound),
            TestStage::ClosedLnrod | TestStage::ClosedNode { .. } | TestStage::ClosedMine
            | TestStage::ClosedClock | TestStage::ClosedPause => Some(TestWait::ChannelClosed),
            _ => None,
        }
    }

    /// What the run asks for.
    pub fn ask(&self) -> (r: TestAsk)
        ensures
            test_asks(self@, r),
    {
        let f = &self.facts;
        match &self.stage {
            TestStage::StartChain => TestAsk::StartChain { plan: BitcoindHarness::start() },
            TestStage::AskAddress => TestAsk::NewAddress,
            TestStage::Premine => self.mine(110),
            TestStage::StartRelay => TestAsk::StartRelay,
            TestStage::StartNode => TestAsk::StartNode {
                signer: SignerMode::Nostr,
                miner: f.miner.clone(),
                relay_url: f.relay_url.clone(),
            },
            TestStage::MakeDir => TestAsk::MakeDir { name: "lnrod-data".to_owned() },
            TestStage::StartLnrod => TestAsk::StartLnrod {
                data_dir: "lnrod-data".to_owned(),
                relay_url: f.relay_url.clone(),
            },
            TestStage::AskNodeId => TestAsk::LnrodId,
            TestStage::AskFunding => TestAsk::LnrodAddress,
            TestStage::Fund { address } => TestAsk::SendToAddress {
                address: address.clone(),
                sats: 1_000_000,
            },
            TestStage::ConfirmFund => self.mine(1),
            TestStage::ActiveMine => self.mine(1),
            TestStage::ClosedMine => self.mine(1),
            TestStage::SettleFund => TestAsk::SleepMillis(2000),
            TestStage::OpenChannel => {
                let port = decimal_text(f.lnrod_port as u128);
                TestAsk::OpenChannel {
                    peer: f.lnrod_id.clone(),
                    address: cat2("127.0.0.1:", port.as_str()),
                    sats: 2_000_000,
                    push: 500_000,
                }
            },
            TestStage::ConfirmOpen => self.mine(6),
            TestStage::MineGossip => self.mine(6),
            TestStage::ConfirmClose => self.mine(6),
            TestStage::ActiveLnrod => TestAsk::LnrodChannels,
            TestStage::ClosedLnrod => TestAsk::LnrodChannels,
            TestStage::ActiveNode { .. } => TestAsk::HasReady { peer: f.lnrod_id.clone() },
            TestStage::ClosedNode { .. } => TestAsk::HasAny { peer: f.lnrod_id.clone() },
            TestStage::ActiveClock => TestAsk::Elapsed,
            TestStage::InboundClock => TestAsk::Elapsed,
            TestStage::OutboundClock => TestAsk::Elapsed,
            TestStage::ClosedClock => TestAsk::Elapsed,
            TestStage::ActivePause => TestAsk::SleepMillis(500),
            TestStage::ClosedPause => TestAsk::SleepMillis(500),
            TestStage::InboundPause => TestAsk::SleepMillis(200),
            TestStage::OutboundPause => TestAsk::SleepMillis(2000),
            TestStage::SettleGossip => TestAsk::SleepMillis(5000),
            TestStage::MakeInvoice => TestAsk::LnrodInvoice { msat: 10_000_000 },
            TestStage::Pay { invoice } => TestAsk::PayInvoice { invoice: invoice.clone() },
            TestStage::InboundLook => TestAsk::LnrodPayments,
            TestStage::OutboundLook => TestAsk::LnrodPayments,
            TestStage::Keysend => TestAsk::Keysend { dest: f.dest.clone(), msat: 5_000_000 },
            TestStage::ListChannels => TestAsk::NodeChannels,
            TestStage::CloseChannel { id } => TestAsk::CloseChannel {
                id: id.clone(),
                force: false,
            },
            TestStage::AskBalance => TestAsk::Balance,
            TestStage::CheckAlive(p) => TestAsk::CheckAlive(*p),
            TestStage::Kill(p) => TestAsk::Kill(*p),
            TestStage::CleanUp => TestAsk::CleanUp,
            TestStage::Passed => TestAsk::Nothing,
            TestStage::Failed(_) => TestAsk::Nothing,
            TestStage::GaveUp(_) => TestAsk::Nothing,
        }
    }

    fn moved(self, stage: TestStage<String, Failure>) -> (r: SystemTest<String, Failure, Vec<u8>>)
        ensures
            r@ == self@.at(stage@),
    {
        SystemTest { stage, ..self }
    }

    fn clock(self, label: &str, secs: u64, elapsed: u128, pause: TestStage<String, Failure>) -> (r:
        SystemTest<String, Failure, Vec<u8>>)
        ensures
            r@ == self@.clocked(label@, secs as nat, elapsed as nat, pause@),
    {
        let timeout: u128 = (secs as u128) * 1_000_000_000;
        match wait_until(label, timeout, false, elapsed) {
            Waited::Expired(e) => self.moved(TestStage::GaveUp(e)),
            _ => self.moved(pause),
        }
    }

    fn attempt(
        self,
        r: Result<(), Failure>,
        context: &str,
        next: TestStage<String, Failure>,
    ) -> (t: SystemTest<String, Failure, Vec<u8>>)
        ensures
            t@ == self@.tried(unit_failing_view(r), context@, next@),
    {
        match r {
            Ok(()) => self.moved(next),
            Err(f) => self.moved(TestStage::Failed(f.context(context))),
        }
    }

    fn part_now(&self) -> (r: Part)
        ensures
            r == part(self@.stage),
    {
        match &self.stage {
            TestStage::StartChain | TestStage::AskAddress | TestStage::Premine
            | TestStage::StartRelay | TestStage::StartNode | TestStage::MakeDir
            | TestStage::StartLnrod | TestStage::AskNodeId | TestStage::AskFunding
            | TestStage::Fund { .. } | TestStage::ConfirmFund | TestStage::SettleFund
            | TestStage::OpenChannel | TestStage::ConfirmOpen | TestStage::ActiveLnrod
            | TestStage::ActiveNode { .. } | TestStage::ActiveMine | TestStage::ActiveClock
            | TestStage::ActivePause => Part::Opening,
            TestStage::MineGossip | TestStage::SettleGossip | TestStage::MakeInvoice
            | TestStage::Pay { .. } | TestStage::InboundLook | TestStage::InboundClock
            | TestStage::InboundPause | TestStage::Keysend | TestStage::OutboundLook
            | TestStage::OutboundClock | TestStage::OutboundPause => Part::Paying,
            _ => Part::Closing,
        }
    }

    /// Takes what came of it.
    pub fn step(self, answer: TestAnswer) -> (r: SystemTest<String, Failure, Vec<u8>>)
        ensures
            r@ == self@.after(answer),
    {
        match self.part_now() {
            Part::Opening => self.opening_step(answer),
            Part::Paying => self.paying_step(answer),
            Part::Closing => self.closing_step(answer),
        }
    }

    fn opening_step(self, answer: TestAnswer) -> (r: SystemTest<String, Failure, Vec<u8>>)
        ensures
            r@ == self@.after_opening(answer),
    {
        let SystemTest { stage, facts } = self;
        match (stage, answer) {
            (TestStage::StartChain, TestAnswer::Done) => SystemTest {
                stage: TestStage::AskAddress,
                facts,
            },
            (TestStage::AskAddress, TestAnswer::Text(s)) => SystemTest {
                stage: TestStage::Premine,
                facts: TestFacts { miner: s, ..facts },
            },
            (TestStage::Premine, TestAnswer::Done) => SystemTest {
                stage: TestStage::StartRelay,
                facts,
            },
            (TestStage::StartRelay, TestAnswer::Text(s)) => SystemTest {
                stage: TestStage::StartNode,
                facts: TestFacts { relay_url: s, ..facts },
            },
            (TestStage::StartNode, TestAnswer::Node(r)) => match r {
                Ok(id) => SystemTest {
                    stage: TestStage::MakeDir,
                    facts: TestFacts { node_id: id, ..facts },
                },
                Err(e) => SystemTest {
                    stage: TestStage::Failed(e.context("failed to start dln-node")),
                    facts,
                },
            },
            (TestStage::MakeDir, TestAnswer::Tried(r)) => match r {
                Ok(()) => SystemTest { stage: TestStage::StartLnrod, facts },
                Err(e) => SystemTest { stage: TestStage::Failed(e), facts },
            },
            (TestStage::StartLnrod, TestAnswer::Lnrod(r)) => match r {
                Ok(port) => SystemTest {
                    stage: TestStage::AskNodeId,
                    facts: TestFacts { lnrod_port: port, ..facts },
                },
                Err(e) => SystemTest {
                    stage: TestStage::Failed(e.context("failed to start lnrod")),
                    facts,
                },
            },
            (TestStage::AskNodeId, TestAnswer::Bytes(r)) => match r {
                Ok(bytes) => SystemTest {
                    stage: TestStage::AskFunding,
                    facts: TestFacts { lnrod_id: encode_hex(bytes.as_slice()), ..facts },
                },
                Err(e) => SystemTest { stage: TestStage::Failed(e), facts },
            },
            (TestStage::AskFunding, TestAnswer::Found(r)) => match r {
                Ok(address) => {
                    let len: usize = vstd::string::StrSliceExecFns::unicode_len(address.as_str());
                    if len == 0 {
                        SystemTest { stage: TestStage::OpenChannel, facts }
                    } else {
                        SystemTest { stage: TestStage::Fund { address }, facts }
                    }
                },
                Err(e) => SystemTest { stage: TestStage::Failed(e), facts },
            },
            (TestStage::Fund { address }, TestAnswer::Done) => SystemTest {
                stage: TestStage::ConfirmFund,
                facts,
            },
            (TestStage::ConfirmFund, TestAnswer::Done) => SystemTest {
                stage: TestStage::SettleFund,
                facts,
            },
            (TestStage::SettleFund, TestAnswer::Done) => SystemTest {
                stage: TestStage::OpenChannel,
                facts,
            },
            (TestStage::OpenChannel, TestAnswer::Tried(r)) => SystemTest {
                stage: TestStage::OpenChannel,
                facts,
            }.attempt(r, "open_channel failed", TestStage::ConfirmOpen),
            (TestStage::ConfirmOpen, TestAnswer::Done) => SystemTest {
                stage: TestStage::ActiveLnrod,
                facts,
            },
            (TestStage::ActiveLnrod, TestAnswer::LnrodChannels(r)) => match r {
                Ok(channels) => SystemTest {
                    stage: TestStage::ActiveNode { lnrod_active: any_active(&channels) },
                    facts,
                },
                Err(_) => SystemTest { stage: TestStage::ActiveClock, facts },
            },
            (TestStage::ActiveNode { lnrod_active }, TestAnswer::Flag(ready)) => if lnrod_active
                && ready {
                SystemTest { stage: TestStage::MineGossip, facts }
            } else {
                SystemTest { stage: TestStage::ActiveMine, facts }
            },
            (TestStage::ActiveMine, TestAnswer::Done) => SystemTest {
                stage: TestStage::ActiveClock,
                facts,
            },
            (TestStage::ActiveClock, TestAnswer::Elapsed(n)) => SystemTest {
                stage: TestStage::ActiveClock,
                facts,
            }.clock("channel active", 60, n, TestStage::ActivePause),
            (TestStage::ActivePause, TestAnswer::Done) => SystemTest {
                stage: TestStage::ActiveLnrod,
                facts,
            },
            (stage, _) => SystemTest { stage, facts },
        }
    }

    fn paying_step(self, answer: TestAnswer) -> (r: SystemTest<String, Failure, Vec<u8>>)
        ensures
            r@ == self@.after_paying(answer),
    {
        let SystemTest { stage, facts } = self;
        match (stage, answer) {
            (TestStage::MineGossip, TestAnswer::Done) => SystemTest {
                stage: TestStage::SettleGossip,
                facts,
            },
            (TestStage::SettleGossip, TestAnswer::Done) => SystemTest {
                stage: TestStage::MakeInvoice,
                facts,
            },
            (TestStage::MakeInvoice, TestAnswer::Found(r)) => match r {
                Ok(invoice) => SystemTest { stage: TestStage::Pay { invoice }, facts },
                Err(e) => SystemTest {
                    stage: TestStage::Failed(e.context("lnrod invoice_new failed")),
                    facts,
                },
            },
            (TestStage::Pay { invoice }, TestAnswer::Tried(r)) => SystemTest {
                stage: TestStage::Pay { invoice },
                facts,
            }.attempt(r, "ldk pay_invoice failed", TestStage::InboundLook),
            (TestStage::InboundLook, TestAnswer::LnrodPayments(r)) => {
                let arrived = match r {
                    Ok(payments) => any_succeeded(&payments, false),
                    Err(_) => false,
                };
                if arrived {
                    match decode_hex(facts.node_id.as_str()) {
                        Ok(dest) => SystemTest {
                            stage: TestStage::Keysend,
                            facts: TestFacts { dest, ..facts },
                        },
                        Err(e) => SystemTest {
                            stage: TestStage::Failed(
                                Failure::new(e).context("ldk node_id hex decode"),
                            ),
                            facts,
                        },
                    }
                } else {
                    SystemTest { stage: TestStage::InboundClock, facts }
                }
            },
            (TestStage::InboundClock, TestAnswer::Elapsed(n)) => SystemTest {
                stage: TestStage::InboundClock,
                facts,
            }.clock("ldk->lnrod payment succeeded", 30, n, TestStage::InboundPause),
            (TestStage::InboundPause, TestAnswer::Done) => SystemTest {
                stage: TestStage::InboundLook,
                facts,
            },
            (TestStage::Keysend, TestAnswer::Done) => SystemTest {
                stage: TestStage::OutboundLook,
                facts,
            },
            (TestStage::OutboundLook, TestAnswer::LnrodPayments(r)) => {
                let arrived = match r {
                    Ok(payments) => any_succeeded(&payments, true),
                    Err(_) => false,
                };
                if arrived {
                    SystemTest { stage: TestStage::ListChannels, facts }
                } else {
                    SystemTest { stage: TestStage::OutboundClock, facts }
                }
            },
            (TestStage::OutboundClock, TestAnswer::Elapsed(n)) => SystemTest {
                stage: TestStage::OutboundClock,
                facts,
            }.clock("lnrod->ldk keysend succeeded", 60, n, TestStage::OutboundPause),
            (TestStage::OutboundPause, TestAnswer::Done) => SystemTest {
                stage: TestStage::Keysend,
                facts,
            },
            (stage, _) => SystemTest { stage, facts },
        }
    }

    fn closing_step(self, answer: TestAnswer) -> (r: SystemTest<String, Failure, Vec<u8>>)
        ensures
            r@ == self@.after_closing(answer),
    {
        let SystemTest { stage, facts } = self;
        match (stage, answer) {
            (TestStage::ListChannels, TestAnswer::Channels(r)) => match r {
                Ok(channels) => match channel_to_close(&channels) {
                    Ok(id) => SystemTest { stage: TestStage::CloseChannel { id }, facts },
                    Err(e) => SystemTest { stage: TestStage::Failed(Failure::new(e)), facts },
                },
                Err(e) => SystemTest { stage: TestStage::Failed(e), facts },
            },
            (TestStage::CloseChannel { id }, TestAnswer::Tried(r)) => SystemTest {
                stage: TestStage::CloseChannel { id },
                facts,
            }.attempt(r, "close_channel failed", TestStage::ConfirmClose),
            (TestStage::ConfirmClose, TestAnswer::Done) => SystemTest {
                stage: TestStage::ClosedLnrod,
                facts,
            },
            (TestStage::ClosedLnrod, TestAnswer::LnrodChannels(r)) => match r {
                Ok(channels) => SystemTest {
                    stage: TestStage::ClosedNode { lnrod_closed: channels.len() == 0 },
                    facts,
                },
                Err(_) => SystemTest { stage: TestStage::ClosedClock, facts },
            },
            (TestStage::ClosedNode { lnrod_closed }, TestAnswer::Flag(listed)) => if lnrod_closed
                && !listed {
                SystemTest { stage: TestStage::AskBalance, facts }
            } else {
                SystemTest { stage: TestStage::ClosedMine, facts }
            },
            (TestStage::ClosedMine, TestAnswer::Done) => SystemTest {
                stage: TestStage::ClosedClock,
                facts,
            },
            (TestStage::ClosedClock, TestAnswer::Elapsed(n)) => SystemTest {
                stage: TestStage::ClosedClock,
                facts,
            }.clock("channel closed on both sides", 60, n, TestStage::ClosedPause),
            (TestStage::ClosedPause, TestAnswer::Done) => SystemTest {
                stage: TestStage::ClosedLnrod,
                facts,
            },
            (TestStage::AskBalance, TestAnswer::Amount(r)) => match r {
                Ok(n) => if n > 0 {
                    SystemTest { stage: TestStage::CheckAlive(Process::Node), facts }
                } else {
                    SystemTest {
                        stage: TestStage::Failed(
                            Failure::new("dln-node on-chain balance should be > 0".to_owned()),
                        ),
                        facts,
                    }
                },
                Err(e) => SystemTest { stage: TestStage::Failed(e), facts },
            },
            (TestStage::CheckAlive(p), TestAnswer::Tried(r)) => match r {
                Ok(()) => {
                    let stage = match p {
                        Process::Node => TestStage::CheckAlive(Process::NodeSigner),
                        Process::NodeSigner => TestStage::CheckAlive(Process::Lnrod),
                        Process::Lnrod => TestStage::CheckAlive(Process::LnrodProxy),
                        Process::LnrodProxy => TestStage::CheckAlive(Process::LnrodSigner),
                        Process::LnrodSigner => TestStage::Kill(Process::Node),
                    };
                    SystemTest { stage, facts }
                },
                Err(e) => SystemTest { stage: TestStage::Failed(e), facts },
            },
            (TestStage::Kill(p), TestAnswer::Done) => {
                let stage = match p {
                    Process::Node => TestStage::Kill(Process::NodeSigner),
                    Process::NodeSigner => TestStage::Kill(Process::LnrodProxy),
                    Process::LnrodProxy => TestStage::Kill(Process::LnrodSigner),
                    Process::LnrodSigner => TestStage::Kill(Process::Lnrod),
                    Process::Lnrod => TestStage::CleanUp,
                };
                SystemTest { stage, facts }
            },
            (TestStage::CleanUp, TestAnswer::Done) => SystemTest {
                stage: TestStage::Passed,
                facts,
            },
            (stage, _) => SystemTest { stage, facts },
        }
    }
}

// ---------------------------------------------------------------------------
// What the scenario guarantees
// ---------------------------------------------------------------------------

/// The run that got these answers.
pub open spec fn tested(answers: Seq<TestAnswer>) -> SystemTest<
    Seq<char>,
    Seq<Seq<char>>,
    Seq<u8>,
>
    decreases answers.len(),
{
    if answers.len() == 0 {
        SystemTest::<Seq<char>, Seq<Seq<char>>, Seq<u8>>::begun()
    } else {
        tested(answers.drop_last()).after(answers.last())
    }
}

/// An answer that shows a channel of lnrod to be active.
pub open spec fn shows_active(answer: TestAnswer) -> bool {
    answer matches TestAnswer::LnrodChannels(Ok(channels)) && some_active(channels@)
}

/// An answer that shows lnrod to have no channel.
pub open spec fn shows_closed(answer: TestAnswer) -> bool {
    answer matches TestAnswer::LnrodChannels(Ok(channels)) && channels@.len() == 0
}

/// An answer that shows a payment of lnrod in a direction to have succeeded.
pub open spec fn shows_payment(answer: TestAnswer, outbound: bool) -> bool {
    answer matches TestAnswer::LnrodPayments(Ok(payments)) && some_succeeded(payments@, outbound)
}

/// An answer that shows the dln-node to have funds.
pub open spec fn shows_funds(answer: TestAnswer) -> bool {
    answer matches TestAnswer::Amount(Ok(n)) && n > 0
}

/// How far a stage is: from 1 the channel was found active, from 2 the first
/// payment arrived, from 3 the second, from 4 the channel was found closed, from
/// 5 the node was found to have funds, from 6 all processes to be alive.
pub open spec fn milestone(stage: TestStage<Seq<char>, Seq<Seq<char>>>) -> nat {
    match stage {
        TestStage::MineGossip | TestStage::SettleGossip | TestStage::MakeInvoice | TestStage::Pay {
            ..
        } | TestStage::InboundLook | TestStage::InboundClock | TestStage::InboundPause => 1,
        TestStage::Keysend | TestStage::OutboundLook | TestStage::OutboundClock
        | TestStage::OutboundPause => 2,
        TestStage::ListChannels | TestStage::CloseChannel { .. } | TestStage::ConfirmClose
        | TestStage::ClosedLnrod | TestStage::ClosedNode { .. } | TestStage::ClosedMine
        | TestStage::ClosedClock | TestStage::ClosedPause => 3,
        TestStage::AskBalance => 4,
        TestStage::CheckAlive(_) => 5,
        TestStage::Kill(_) | TestStage::CleanUp | TestStage::Passed => 6,
        _ => 0,
    }
}

/// A run passes one milestone at a time, and each only on the answer that shows
/// it.
pub proof fn milestones_are_shown(
    test: SystemTest<Seq<char>, Seq<Seq<char>>, Seq<u8>>,
    answer: TestAnswer,
)
    ensures
        ({
            let (m, n) = (milestone(test.stage), milestone(test.after(answer).stage));
            &&& n == m || n == m + 1 || n == 0
            &&& m == 0 && n == 1 ==> (test.stage matches TestStage::ActiveNode { lnrod_active }
                && lnrod_active && answer == TestAnswer::Flag(true))
            &&& m == 1 && n == 2 ==> shows_payment(answer, false)
            &&& m == 2 && n == 3 ==> shows_payment(answer, true)
            &&& m == 3 && n == 4 ==> (test.stage matches TestStage::ClosedNode { lnrod_closed }
                && lnrod_closed && answer == TestAnswer::Flag(false))
            &&& m == 4 && n == 5 ==> shows_funds(answer)
            &&& m == 5 && n == 6 ==> test.stage == TestStage::<
                Seq<char>,
                Seq<Seq<char>>,
            >::CheckAlive(Process::LnrodSigner)
        }),
        test.after(answer).stage matches TestStage::ActiveNode { lnrod_active } && lnrod_active
            && test.stage != test.after(answer).stage ==> shows_active(answer),
        test.after(answer).stage matches TestStage::ClosedNode { lnrod_closed } && lnrod_closed
            && test.stage != test.after(answer).stage ==> shows_closed(answer),
{
}

/// What the answers so far have shown.
pub open spec fn shown(answers: Seq<TestAnswer>) -> bool {
    let stage = tested(answers).stage;
    let m = milestone(stage);
    &&& (stage matches TestStage::ActiveNode { lnrod_active } && lnrod_active) || m >= 1
        ==> exists|i: int| 0 <= i < answers.len() && shows_active(#[trigger] answers[i])
    &&& m >= 2 ==> exists|i: int|
        0 <= i < answers.len() && shows_payment(#[trigger] answers[i], false)
    &&& m >= 3 ==> exists|i: int|
        0 <= i < answers.len() && shows_payment(#[trigger] answers[i], true)
    &&& (stage matches TestStage::ClosedNode { lnrod_closed } && lnrod_closed) || m >= 4
        ==> exists|i: int| 0 <= i < answers.len() && shows_closed(#[trigger] answers[i])
    &&& m >= 5 ==> exists|i: int| 0 <= i < answers.len() && shows_funds(#[trigger] answers[i])
}

proof fn runs_show(answers: Seq<TestAnswer>)
    ensures
        shown(answers),
    decreases answers.len(),
{
    if answers.len() > 0 {
        let before = answers.drop_last();
        runs_show(before);
        milestones_are_shown(tested(before), answers.last());
        assert forall|i: int| 0 <= i < before.len() implies before[i] == answers[i] by {}
        assert(answers.last() == answers[answers.len() - 1]);
        let stage = tested(before).stage;
        let m = milestone(stage);
        if (stage matches TestStage::ActiveNode { lnrod_active } && lnrod_active) || m >= 1 {
            let i = choose|i: int| 0 <= i < before.len() && shows_active(#[trigger] before[i]);
            assert(shows_active(answers[i]));
        }
        if m >= 2 {
            let i = choose|i: int|
                0 <= i < before.len() && shows_payment(#[trigger] before[i], false);
            assert(shows_payment(answers[i], false));
        }
        if m >= 3 {
            let i = choose|i: int|
                0 <= i < before.len() && shows_payment(#[trigger] before[i], true);
            assert(shows_payment(answers[i], true));
        }
        if (stage matches TestStage::ClosedNode { lnrod_closed } && lnrod_closed) || m >= 4 {
            let i = choose|i: int| 0 <= i < before.len() && shows_closed(#[trigger] before[i]);
            assert(shows_closed(answers[i]));
        }
        if m >= 5 {
            let i = choose|i: int| 0 <= i < before.len() && shows_funds(#[trigger] before[i]);
            assert(shows_funds(answers[i]));
        }
    }
}

/// Whether the answer at `i` says that the dln-node has an active channel with
/// lnrod, when lnrod has just shown one.
pub open spec fn node_saw_ready(answers: Seq<TestAnswer>, i: int) -> bool {
    &&& 0 <= i < answers.len()
    &&& tested(answers.take(i)).stage matches TestStage::ActiveNode { lnrod_active } && lnrod_active
    &&& answers[i] == TestAnswer::Flag(true)
}

/// Whether the answer at `i` says that the dln-node has no channel with lnrod,
/// when lnrod has just shown none.
pub open spec fn node_saw_gone(answers: Seq<TestAnswer>, i: int) -> bool {
    &&& 0 <= i < answers.len()
    &&& tested(answers.take(i)).stage matches TestStage::ClosedNode { lnrod_closed } && lnrod_closed
    &&& answers[i] == TestAnswer::Flag(false)
}

/// Whether the answer at `i` says that a process is still running.
pub open spec fn found_alive(answers: Seq<TestAnswer>, i: int, p: Process) -> bool {
    &&& 0 <= i < answers.len()
    &&& tested(answers.take(i)).stage == TestStage::<Seq<char>, Seq<Seq<char>>>::CheckAlive(p)
    &&& answers[i] matches TestAnswer::Tried(r) && r is Ok
}

/// Whether some answer says that a process is still running.
pub open spec fn was_alive(answers: Seq<TestAnswer>, p: Process) -> bool {
    exists|i: int| found_alive(answers, i, p)
}

/// Which place a process has among those that are checked.
pub open spec fn place(p: Process) -> nat {
    match p {
        Process::Node => 0,
        Process::NodeSigner => 1,
        Process::Lnrod => 2,
        Process::LnrodProxy => 3,
        Process::LnrodSigner => 4,
    }
}

/// How many processes were found alive at a stage.
pub open spec fn found_so_far(stage: TestStage<Seq<char>, Seq<Seq<char>>>) -> nat {
    match stage {
        TestStage::CheckAlive(p) => place(p),
        TestStage::Kill(_) | TestStage::CleanUp | TestStage::Passed => 5,
        _ => 0,
    }
}

/// What the dln-node and the processes have shown so far.
pub open spec fn node_shown(answers: Seq<TestAnswer>) -> bool {
    let stage = tested(answers).stage;
    &&& milestone(stage) >= 1 ==> exists|i: int| node_saw_ready(answers, i)
    &&& milestone(stage) >= 4 ==> exists|i: int| node_saw_gone(answers, i)
    &&& forall|p: Process| place(p) < found_so_far(stage) ==> #[trigger] was_alive(answers, p)
}

proof fn earlier_tests_still_count(answers: Seq<TestAnswer>)
    requires
        answers.len() > 0,
    ensures
        forall|i: int| #[trigger]
            node_saw_ready(answers.drop_last(), i) ==> node_saw_ready(answers, i),
        forall|i: int| #[trigger]
            node_saw_gone(answers.drop_last(), i) ==> node_saw_gone(answers, i),
        forall|p: Process| #[trigger]
            was_alive(answers.drop_last(), p) ==> was_alive(answers, p),
        answers.take(answers.len() - 1) == answers.drop_last(),
{
    let before = answers.drop_last();
    assert forall|i: int| 0 <= i < before.len() implies #[trigger] before.take(i) == answers.take(
        i,
    ) by {
        assert(before.take(i) =~= answers.take(i));
    }
    assert(answers.take(answers.len() - 1) =~= before);
    assert forall|p: Process| #[trigger] was_alive(before, p) implies was_alive(answers, p) by {
        let i = choose|i: int| found_alive(before, i, p);
        assert(found_alive(answers, i, p));
    }
}

/// A check that a process is alive is passed only where it is.
proof fn checks_find_processes_alive(
    test: SystemTest<Seq<char>, Seq<Seq<char>>, Seq<u8>>,
    answer: TestAnswer,
)
    ensures
        ({
            let (m, n) = (found_so_far(test.stage), found_so_far(test.after(answer).stage));
            &&& n > 0 ==> n == m || n == m + 1
            &&& n > m && n > 0 ==> (test.stage matches TestStage::CheckAlive(p) && place(p) == m && (
            answer matches TestAnswer::Tried(r) && r is Ok))
        }),
{
}

proof fn runs_show_the_node(answers: Seq<TestAnswer>)
    ensures
        node_shown(answers),
    decreases answers.len(),
{
    if answers.len() > 0 {
        let before = answers.drop_last();
        let last: int = answers.len() - 1;
        let run = tested(before);
        let next = tested(answers);
        runs_show_the_node(before);
        earlier_tests_still_count(answers);
        milestones_are_shown(run, answers.last());
        checks_find_processes_alive(run, answers.last());
        if milestone(next.stage) >= 1 {
            if milestone(run.stage) >= 1 {
                let i = choose|i: int| node_saw_ready(before, i);
                assert(node_saw_ready(answers, i));
            } else {
                assert(node_saw_ready(answers, last));
            }
        }
        if milestone(next.stage) >= 4 {
            if milestone(run.stage) >= 4 {
                let i = choose|i: int| node_saw_gone(before, i);
                assert(node_saw_gone(answers, i));
            } else {
                assert(node_saw_gone(answers, last));
            }
        }
        assert forall|p: Process| place(p) < found_so_far(next.stage) implies #[trigger] was_alive(
            answers,
            p,
        ) by {
            if place(p) < found_so_far(run.stage) {
                assert(was_alive(before, p));
            } else {
                assert(run.stage == TestStage::<Seq<char>, Seq<Seq<char>>>::CheckAlive(p));
                assert(found_alive(answers, last, p));
            }
        }
    }
}

/// The scenario passes only where lnrod's channel was seen to be active, a
/// payment in each direction was seen to succeed, lnrod was then seen without a
/// channel, and the dln-node with funds; and only where the dln-node itself
/// reported the channel ready and later gone, and each of the five processes was
/// answered to be still running.
pub proof fn a_passed_test_paid_both_ways(answers: Seq<TestAnswer>)
    requires
        tested(answers).stage is Passed,
    ensures
        exists|i: int| 0 <= i < answers.len() && shows_active(#[trigger] answers[i]),
        exists|i: int| 0 <= i < answers.len() && shows_payment(#[trigger] answers[i], false),
        exists|i: int| 0 <= i < answers.len() && shows_payment(#[trigger] answers[i], true),
        exists|i: int| 0 <= i < answers.len() && shows_closed(#[trigger] answers[i]),
        exists|i: int| 0 <= i < answers.len() && shows_funds(#[trigger] answers[i]),
        exists|i: int, j: int|
            i < j && #[trigger] node_saw_ready(answers, i) && #[trigger] node_saw_gone(answers, j),
        forall|p: Process| #[trigger] was_alive(answers, p),
{
    runs_show(answers);
    runs_show_the_node(answers);
    let j = choose|j: int| node_saw_gone(answers, j);
    let before = answers.take(j);
    runs_show_the_node(before);
    let i = choose|i: int| node_saw_ready(before, i);
    assert(before.take(i) =~= answers.take(i));
    assert(node_saw_ready(answers, i));
}

// ---------------------------------------------------------------------------
// Where what a run knows came from
// ---------------------------------------------------------------------------

/// The run before it took the answer at `i`.
#[verifier::opaque]
pub open spec fn test_at(answers: Seq<TestAnswer>, i: int) -> SystemTest<
    Seq<char>,
    Seq<Seq<char>>,
    Seq<u8>,
> {
    tested(answers.take(i))
}

/// Whether `ask` is what a run asks for after the first `i` answers.
pub open spec fn test_asked(answers: Seq<TestAnswer>, i: int, ask: TestAsk) -> bool {
    test_asks(test_at(answers, i), ask)
}

/// Whether the answer at `i` is the address that the chain was asked for.
pub open spec fn miner_given(answers: Seq<TestAnswer>, i: int, address: Seq<char>) -> bool {
    &&& answers[i] matches TestAnswer::Text(s) && s@ == address
    &&& forall|ask: TestAsk| #[trigger] test_asked(answers, i, ask) <==> ask is NewAddress
}

/// Whether the answer at `i` is where the relay is, which was then started.
pub open spec fn relay_given(answers: Seq<TestAnswer>, i: int, url: Seq<char>) -> bool {
    &&& answers[i] matches TestAnswer::Text(s) && s@ == url
    &&& forall|ask: TestAsk| #[trigger] test_asked(answers, i, ask) <==> ask is StartRelay
}

/// Whether the answer at `i` is the id of the dln-node, which was then started.
pub open spec fn node_given(answers: Seq<TestAnswer>, i: int, id: Seq<char>) -> bool {
    &&& answers[i] matches TestAnswer::Node(Ok(s)) && s@ == id
    &&& forall|ask: TestAsk| #[trigger] test_asked(answers, i, ask) ==> ask is StartNode
}

/// Whether the answer at `i` says that a directory was made.
pub open spec fn dir_made(answers: Seq<TestAnswer>, i: int, dir: Seq<char>) -> bool {
    &&& answers[i] matches TestAnswer::Tried(Ok(_))
    &&& forall|ask: TestAsk| #[trigger]
        test_asked(answers, i, ask) ==> (ask matches TestAsk::MakeDir { name } && name@ == dir)
}

/// Whether the answer at `i` is the port of lnrod, which was then started.
pub open spec fn port_given(answers: Seq<TestAnswer>, i: int, port: u16) -> bool {
    &&& answers[i] == TestAnswer::Lnrod(Ok(port))
    &&& forall|ask: TestAsk| #[trigger] test_asked(answers, i, ask) ==> ask is StartLnrod
}

/// Whether the answer at `i` is lnrod's own public key.
pub open spec fn lnrod_given(answers: Seq<TestAnswer>, i: int, key: Seq<u8>) -> bool {
    &&& answers[i] matches TestAnswer::Bytes(Ok(b)) && b@ == key
    &&& forall|ask: TestAsk| #[trigger] test_asked(answers, i, ask) <==> ask is LnrodId
}

/// Whether the answer at `i` is an address of lnrod's wallet.
pub open spec fn lnrod_address_given(
    answers: Seq<TestAnswer>,
    i: int,
    address: Seq<char>,
) -> bool {
    &&& answers[i] matches TestAnswer::Found(Ok(s)) && s@ == address
    &&& forall|ask: TestAsk| #[trigger] test_asked(answers, i, ask) <==> ask is LnrodAddress
}

/// Whether the answer at `i` is an invoice of lnrod over ten thousand sats.
pub open spec fn lnrod_invoice_given(
    answers: Seq<TestAnswer>,
    i: int,
    invoice: Seq<char>,
) -> bool {
    &&& answers[i] matches TestAnswer::Found(Ok(s)) && s@ == invoice
    &&& forall|ask: TestAsk| #[trigger]
        test_asked(answers, i, ask) <==> ask == (TestAsk::LnrodInvoice { msat: 10_000_000 })
}

/// Whether the answer at `i` lists the dln-node's channels, with this one first.
pub open spec fn channel_listed(answers: Seq<TestAnswer>, i: int, id: Seq<char>) -> bool {
    &&& answers[i] matches TestAnswer::Channels(r) && channels_view(r) matches Ok(channels)
        && first_channel(channels) == Ok::<Seq<char>, Seq<char>>(id)
    &&& forall|ask: TestAsk| #[trigger] test_asked(answers, i, ask) <==> ask is NodeChannels
}

/// How much of a start a stage is behind.
spec fn started(stage: TestStage<Seq<char>, Seq<Seq<char>>>) -> nat {
    match stage {
        TestStage::StartChain | TestStage::Failed(_) | TestStage::GaveUp(_) => 0,
        TestStage::AskAddress => 1,
        TestStage::Premine => 2,
        TestStage::StartRelay => 3,
        TestStage::StartNode => 4,
        TestStage::MakeDir => 5,
        TestStage::StartLnrod => 6,
        TestStage::AskNodeId => 7,
        TestStage::AskFunding => 8,
        _ => 9,
    }
}

/// What a run knows after `n` answers was given to it.
spec fn sourced(answers: Seq<TestAnswer>, n: int) -> bool {
    let test = test_at(answers, n);
    let s = started(test.stage);
    &&& s >= 2 ==> exists|i: int|
        0 <= i < n && #[trigger] miner_given(answers, i, test.facts.miner)
    &&& s >= 4 ==> exists|i: int|
        0 <= i < n && #[trigger] relay_given(answers, i, test.facts.relay_url)
    &&& s >= 5 ==> exists|i: int|
        0 <= i < n && #[trigger] node_given(answers, i, test.facts.node_id)
    &&& s >= 6 ==> exists|i: int| 0 <= i < n && #[trigger] dir_made(answers, i, "lnrod-data"@)
    &&& s >= 7 ==> exists|i: int|
        0 <= i < n && #[trigger] port_given(answers, i, test.facts.lnrod_port)
    &&& s >= 8 ==> exists|i: int, key: Seq<u8>|
        0 <= i < n && #[trigger] lnrod_given(answers, i, key) && test.facts.lnrod_id == hex_text(
            key,
        )
    &&& test.stage matches TestStage::Fund { address } ==> exists|i: int|
        0 <= i < n && #[trigger] lnrod_address_given(answers, i, address)
    &&& test.stage matches TestStage::Pay { invoice } ==> exists|i: int|
        0 <= i < n && #[trigger] lnrod_invoice_given(answers, i, invoice)
    &&& test.stage matches TestStage::CloseChannel { id } ==> exists|i: int|
        0 <= i < n && #[trigger] channel_listed(answers, i, id)
    &&& milestone(test.stage) >= 2 ==> hex_bytes(encode_utf8(test.facts.node_id)) == Some(
        test.facts.dest,
    )
}

/// How one answer adds to what a run knows.
proof fn an_answer_adds(
    test: SystemTest<Seq<char>, Seq<Seq<char>>, Seq<u8>>,
    answer: TestAnswer,
)
    ensures
        ({
            let next = test.after(answer);
            let (s, t) = (started(test.stage), started(next.stage));
            let (f, g) = (test.facts, next.facts);
            &&& t == 0 || t == s || t == s + 1
            &&& t >= 2 && s >= 2 ==> g.miner == f.miner
            &&& t >= 4 && s >= 4 ==> g.relay_url == f.relay_url
            &&& t >= 5 && s >= 5 ==> g.node_id == f.node_id
            &&& t >= 7 && s >= 7 ==> g.lnrod_port == f.lnrod_port
            &&& t >= 8 && s >= 8 ==> g.lnrod_id == f.lnrod_id
            &&& s == 1 && t == 2 ==> test.stage is AskAddress && (answer matches TestAnswer::Text(a)
                && a@ == g.miner)
            &&& s == 3 && t == 4 ==> test.stage is StartRelay && (answer matches TestAnswer::Text(a)
                && a@ == g.relay_url)
            &&& s == 4 && t == 5 ==> test.stage is StartNode && (answer matches TestAnswer::Node(
                Ok(a),
            ) && a@ == g.node_id)
            &&& s == 5 && t == 6 ==> test.stage is MakeDir && (answer matches TestAnswer::Tried(
                Ok(_),
            ))
            &&& s == 6 && t == 7 ==> test.stage is StartLnrod && answer == TestAnswer::Lnrod(
                Ok(g.lnrod_port),
            )
            &&& s == 7 && t == 8 ==> test.stage is AskNodeId && (answer matches TestAnswer::Bytes(
                Ok(b),
            ) && hex_text(b@) == g.lnrod_id)
            &&& next.stage matches TestStage::Fund { address } ==> test.stage == next.stage
                || test.stage is AskFunding && (answer matches TestAnswer::Found(Ok(a)) && a@
                == address)
            &&& next.stage matches TestStage::Pay { invoice } ==> test.stage == next.stage
                || test.stage is MakeInvoice && (answer matches TestAnswer::Found(Ok(a)) && a@
                == invoice)
            &&& next.stage matches TestStage::CloseChannel { id } ==> test.stage == next.stage
                || test.stage is ListChannels && (answer matches TestAnswer::Channels(r)
                && channels_view(r) matches Ok(channels) && first_channel(channels) == Ok::<
                Seq<char>,
                Seq<char>,
            >(id))
            &&& milestone(next.stage) >= 2 ==> milestone(test.stage) >= 2 && g.dest == f.dest
                && g.node_id == f.node_id || hex_bytes(encode_utf8(g.node_id)) == Some(g.dest)
        }),
{
}

proof fn one_more(answers: Seq<TestAnswer>, i: int)
    requires
        0 <= i < answers.len(),
    ensures
        test_at(answers, i + 1) == test_at(answers, i).after(answers[i]),
{
    reveal(test_at);
    assert(answers.take(i + 1).drop_last() =~= answers.take(i));
    assert(answers.take(i + 1).last() == answers[i]);
}

#[verifier::spinoff_prover]
proof fn runs_are_sourced(answers: Seq<TestAnswer>, n: int)
    requires
        0 <= n <= answers.len(),
    ensures
        sourced(answers, n),
    decreases n,
{
    if n == 0 {
        reveal(test_at);
        assert(answers.take(0).len() == 0);
    } else {
        let i: int = n - 1;
        runs_are_sourced(answers, i);
        one_more(answers, i);
        added_is_sourced(answers, i, test_at(answers, i), test_at(answers, n));
    }
}

/// What one answer adds was given to the run by that answer.
#[verifier::spinoff_prover]
proof fn added_is_sourced(
    answers: Seq<TestAnswer>,
    i: int,
    test: SystemTest<Seq<char>, Seq<Seq<char>>, Seq<u8>>,
    next: SystemTest<Seq<char>, Seq<Seq<char>>, Seq<u8>>,
)
    requires
        0 <= i < answers.len(),
        test == test_at(answers, i),
        next == test_at(answers, i + 1),
        next == test.after(answers[i]),
        sourced(answers, i),
    ensures
        sourced(answers, i + 1),
{
    an_answer_adds(test, answers[i]);
    let (s, t) = (started(test.stage), started(next.stage));
    if s == 1 && t == 2 {
        assert(miner_given(answers, i, next.facts.miner));
    }
    if s == 3 && t == 4 {
        assert(relay_given(answers, i, next.facts.relay_url));
    }
    if s == 4 && t == 5 {
        assert(node_given(answers, i, next.facts.node_id));
    }
    if s == 5 && t == 6 {
        assert(dir_made(answers, i, "lnrod-data"@));
    }
    if s == 6 && t == 7 {
        assert(port_given(answers, i, next.facts.lnrod_port));
    }
    if s == 7 && t == 8 {
        if let TestAnswer::Bytes(Ok(b)) = answers[i] {
            assert(lnrod_given(answers, i, b@));
        }
    }
    if let TestStage::Fund { address } = next.stage {
        if test.stage != next.stage {
            assert(lnrod_address_given(answers, i, address));
        }
    }
    if let TestStage::Pay { invoice } = next.stage {
        if test.stage != next.stage {
            assert(lnrod_invoice_given(answers, i, invoice));
        }
    }
    if let TestStage::CloseChannel { id } = next.stage {
        if test.stage != next.stage {
            assert(channel_listed(answers, i, id));
        }
    }
}

/// What the scenario asks for is about its own parties. Blocks go to the address
/// that the chain gave. The dln-node and lnrod are on the relay that was started,
/// and lnrod's data is in the directory that was made for it. The channel is
/// opened to lnrod: to the key that it gave, on the port that it listens on; and
/// the looks for a channel are for one with that key. Funds go to an address that
/// lnrod gave, the invoice that is paid is lnrod's, what lnrod sends goes to the
/// id of the dln-node, and the channel that is closed is the first that the
/// dln-node lists, without force.
pub proof fn the_scenario_asks_for_its_own_parties(
    answers: Seq<TestAnswer>,
    n: int,
    ask: TestAsk,
)
    requires
        0 <= n <= answers.len(),
        test_asked(answers, n, ask),
    ensures
        match ask {
            TestAsk::Mine { address, .. } => exists|i: int|
                0 <= i < n && #[trigger] miner_given(answers, i, address@),
            TestAsk::StartNode { signer, miner, relay_url } => signer == SignerMode::Nostr && (
            exists|i: int| 0 <= i < n && #[trigger] miner_given(answers, i, miner@)) && (exists|
                i: int,
            | 0 <= i < n && #[trigger] relay_given(answers, i, relay_url@)),
            TestAsk::StartLnrod { data_dir, relay_url } => (exists|i: int|
                0 <= i < n && #[trigger] dir_made(answers, i, data_dir@)) && (exists|i: int|
                0 <= i < n && #[trigger] relay_given(answers, i, relay_url@)),
            TestAsk::SendToAddress { address, sats } => sats == 1_000_000 && (exists|i: int|
                0 <= i < n && #[trigger] lnrod_address_given(answers, i, address@)),
            TestAsk::OpenChannel { peer, address, sats, push } => sats == 2_000_000 && push
                == 500_000 && (exists|i: int, key: Seq<u8>|
                0 <= i < n && #[trigger] lnrod_given(answers, i, key) && peer@ == hex_text(key))
                && (exists|i: int, port: u16|
                0 <= i < n && #[trigger] port_given(answers, i, port) && address@ == "127.0.0.1:"@
                    + decimal(port as nat)),
            TestAsk::HasReady { peer } => exists|i: int, key: Seq<u8>|
                0 <= i < n && #[trigger] lnrod_given(answers, i, key) && peer@ == hex_text(key),
            TestAsk::HasAny { peer } => exists|i: int, key: Seq<u8>|
                0 <= i < n && #[trigger] lnrod_given(answers, i, key) && peer@ == hex_text(key),
            TestAsk::PayInvoice { invoice } => exists|i: int|
                0 <= i < n && #[trigger] lnrod_invoice_given(answers, i, invoice@),
            TestAsk::Keysend { dest, msat } => msat == 5_000_000 && (exists|i: int, id: Seq<char>|
                0 <= i < n && #[trigger] node_given(answers, i, id) && hex_bytes(encode_utf8(id))
                    == Some(dest@)),
            TestAsk::CloseChannel { id, force } => !force && (exists|i: int|
                0 <= i < n && #[trigger] channel_listed(answers, i, id@)),
            _ => true,
        },
{
    runs_are_sourced(answers, n);
}

/// Who is looked at and who is ended, and in what order: the dln-node comes
/// first, its signer after it, and lnrod is ended last, when its signer and its
/// proxy are. Whoever is found to have ended fails the run.
pub proof fn processes_are_checked_and_ended(
    test: SystemTest<Seq<char>, Seq<Seq<char>>, Seq<u8>>,
    p: Process,
    ask: TestAsk,
    reason: Failure,
)
    requires
        test_asks(test, ask),
    ensures
        test.stage == TestStage::<Seq<char>, Seq<Seq<char>>>::CheckAlive(p) ==> ask
            == TestAsk::CheckAlive(p) && test.after(
            TestAnswer::Tried(Err(reason)),
        ).stage is Failed && (test.after(TestAnswer::Tried(Ok(()))).stage is Kill <==> p
            == Process::LnrodSigner),
        test.stage == TestStage::<Seq<char>, Seq<Seq<char>>>::Kill(p) ==> ask == TestAsk::Kill(p)
            && (test.after(TestAnswer::Done).stage is CleanUp <==> p == Process::Lnrod),
        ask == TestAsk::Kill(p) ==> test.stage == TestStage::<
            Seq<char>,
            Seq<Seq<char>>,
        >::Kill(p),
        ask == TestAsk::CheckAlive(p) ==> test.stage == TestStage::<
            Seq<char>,
            Seq<Seq<char>>,
        >::CheckAlive(p),
{
}

/// Whether, after the first `i` answers, a process was ended.
pub open spec fn was_ended(answers: Seq<TestAnswer>, i: int, p: Process) -> bool {
    &&& 0 <= i < answers.len()
    &&& answers[i] is Done
    &&& forall|ask: TestAsk| #[trigger] test_asked(answers, i, ask) <==> ask == TestAsk::Kill(p)
}

/// Whether a process is ended before a stage, if it is one of the last.
spec fn ended_before(stage: TestStage<Seq<char>, Seq<Seq<char>>>, p: Process) -> bool {
    match stage {
        TestStage::Kill(q) => match q {
            Process::Node => false,
            Process::NodeSigner => p == Process::Node,
            Process::LnrodProxy => p == Process::Node || p == Process::NodeSigner,
            Process::LnrodSigner => p != Process::Lnrod && p != Process::LnrodSigner,
            Process::Lnrod => p != Process::Lnrod,
        },
        TestStage::CleanUp | TestStage::Passed => true,
        _ => false,
    }
}

proof fn an_answer_ends_at_most_one(
    test: SystemTest<Seq<char>, Seq<Seq<char>>, Seq<u8>>,
    answer: TestAnswer,
    p: Process,
)
    requires
        ended_before(test.after(answer).stage, p),
        !ended_before(test.stage, p),
    ensures
        test.stage == TestStage::<Seq<char>, Seq<Seq<char>>>::Kill(p),
        answer is Done,
{
}

proof fn processes_are_ended(answers: Seq<TestAnswer>, n: int, p: Process)
    requires
        0 <= n <= answers.len(),
        ended_before(test_at(answers, n).stage, p),
    ensures
        exists|i: int| 0 <= i < n && #[trigger] was_ended(answers, i, p),
    decreases n,
{
    if n == 0 {
        reveal(test_at);
        assert(answers.take(0).len() == 0);
    } else {
        one_more(answers, n - 1);
        if ended_before(test_at(answers, n - 1).stage, p) {
            processes_are_ended(answers, n - 1, p);
        } else {
            an_answer_ends_at_most_one(test_at(answers, n - 1), answers[n - 1], p);
            assert(was_ended(answers, n - 1, p));
        }
    }
}

/// A scenario that passed has ended all of its five processes.
pub proof fn a_passed_test_ended_its_processes(answers: Seq<TestAnswer>, p: Process)
    requires
        tested(answers).stage is Passed,
    ensures
        exists|i: int| 0 <= i < answers.len() && #[trigger] was_ended(answers, i, p),
{
    reveal(test_at);
    assert(answers.take(answers.len() as int) =~= answers);
    processes_are_ended(answers, answers.len() as int, p);
}

/// The waits of the scenario take as long as they may and no longer: half a
/// minute for the invoice to be paid, a minute for each of the others. While
/// there is time, each looks again, the last payment after it was sent again.
pub proof fn the_waits_end_when_their_time_is_up(
    test: SystemTest<Seq<char>, Seq<Seq<char>>, Seq<u8>>,
    elapsed: u128,
    ask: TestAsk,
)
    requires
        test.stage is ActiveClock || test.stage is InboundClock || test.stage is OutboundClock
            || test.stage is ClosedClock,
    ensures
        ({
            let secs: int = if test.stage is InboundClock {
                30
            } else {
                60
            };
            let millis: u64 = if test.stage is InboundClock {
                200
            } else if test.stage is OutboundClock {
                2000
            } else {
                500
            };
            let next = test.after(TestAnswer::Elapsed(elapsed));
            let again = next.after(TestAnswer::Done);
            if elapsed <= secs * 1_000_000_000 {
                &&& test_asks(next, ask) ==> ask == TestAsk::SleepMillis(millis)
                &&& again.facts == test.facts
                &&& test.stage is ActiveClock ==> again.stage is ActiveLnrod
                &&& test.stage is InboundClock ==> again.stage is InboundLook
                &&& test.stage is OutboundClock ==> again.stage is Keysend
                &&& test.stage is ClosedClock ==> again.stage is ClosedLnrod
            } else {
                next.stage is GaveUp
            }
        }),
{
}

/// A look of the scenario that finds what it looks for is enough, and one that
/// does not leads to the clock.
pub proof fn a_look_that_finds_is_enough(
    test: SystemTest<Seq<char>, Seq<Seq<char>>, Seq<u8>>,
    channels: Vec<LnrodChannel>,
    payments: Vec<LnrodPayment>,
    flag: bool,
    error: String,
)
    ensures
        test.stage is ActiveLnrod ==> {
            let next = test.after(TestAnswer::LnrodChannels(Ok(channels)));
            let then = next.after(TestAnswer::Flag(flag));
            &&& then.stage is MineGossip <==> flag && exists|i: int|
                0 <= i < channels@.len() && (#[trigger] channels@[i]).is_active
                    && !channels@[i].is_pending
            &&& !(then.stage is MineGossip) ==> then.after(TestAnswer::Done).stage is ActiveClock
            &&& test.after(TestAnswer::LnrodChannels(Err(error))).stage is ActiveClock
        },
        test.stage is ClosedLnrod ==> {
            let next = test.after(TestAnswer::LnrodChannels(Ok(channels)));
            let then = next.after(TestAnswer::Flag(flag));
            &&& then.stage is AskBalance <==> !flag && channels@.len() == 0
            &&& !(then.stage is AskBalance) ==> then.after(TestAnswer::Done).stage is ClosedClock
            &&& test.after(TestAnswer::LnrodChannels(Err(error))).stage is ClosedClock
        },
        test.stage is OutboundLook ==> {
            let next = test.after(TestAnswer::LnrodPayments(Ok(payments)));
            &&& next.stage is ListChannels <==> exists|i: int|
                0 <= i < payments@.len() && (#[trigger] payments@[i]).is_outbound
                    && payments@[i].succeeded
            &&& !(next.stage is ListChannels) ==> next.stage is OutboundClock
        },
        test.stage is InboundLook ==> {
            let next = test.after(TestAnswer::LnrodPayments(Ok(payments)));
            &&& next.stage is InboundClock <==> !exists|i: int|
                0 <= i < payments@.len() && !(#[trigger] payments@[i]).is_outbound
                    && payments@[i].succeeded
            &&& hex_bytes(encode_utf8(test.facts.node_id)) is Some ==> next.stage is InboundClock
                || next.stage is Keysend
        },
{
}

/// Whether an answer is of the sort that something asked for is answered with.
pub open spec fn answers_to(ask: TestAsk, answer: TestAnswer) -> bool {
    match ask {
        TestAsk::StartChain { .. } | TestAsk::Mine { .. } | TestAsk::SendToAddress { .. }
        | TestAsk::SleepMillis(_) | TestAsk::Keysend { .. } | TestAsk::Kill(_) | TestAsk::CleanUp =>
        answer is Done,
        TestAsk::NewAddress | TestAsk::StartRelay => answer is Text,
        TestAsk::StartNode { .. } => answer is Node,
        TestAsk::MakeDir { .. } | TestAsk::OpenChannel { .. } | TestAsk::PayInvoice { .. }
        | TestAsk::CloseChannel { .. } | TestAsk::CheckAlive(_) => answer is Tried,
        TestAsk::StartLnrod { .. } => answer is Lnrod,
        TestAsk::LnrodId => answer is Bytes,
        TestAsk::LnrodAddress | TestAsk::LnrodInvoice { .. } => answer is Found,
        TestAsk::LnrodChannels => answer is LnrodChannels,
        TestAsk::HasReady { .. } | TestAsk::HasAny { .. } => answer is Flag,
        TestAsk::Elapsed => answer is Elapsed,
        TestAsk::LnrodPayments => answer is LnrodPayments,
        TestAsk::NodeChannels => answer is Channels,
        TestAsk::Balance => answer is Amount,
        TestAsk::Nothing => false,
    }
}

/// An answer to something else than what is asked for changes nothing. One that
/// says that what was asked for failed fails the run, but for a look at lnrod,
/// after which there is another; and nothing else does, but for an id that is not
/// hexadecimal, a list without a channel to close, and a balance of nothing.
pub proof fn the_scenario_takes_only_what_it_asks_for(
    test: SystemTest<Seq<char>, Seq<Seq<char>>, Seq<u8>>,
    ask: TestAsk,
    answer: TestAnswer,
)
    requires
        test_asks(test, ask),
    ensures
        !answers_to(ask, answer) ==> test.after(answer) == test,
        answers_to(ask, answer) ==> {
            let next = test.after(answer);
            match answer {
                TestAnswer::Node(r) => next.stage is Failed <==> r is Err,
                TestAnswer::Tried(r) => next.stage is Failed <==> r is Err,
                TestAnswer::Lnrod(r) => next.stage is Failed <==> r is Err,
                TestAnswer::Bytes(r) => next.stage is Failed <==> r is Err,
                TestAnswer::Found(r) => next.stage is Failed <==> r is Err,
                TestAnswer::Amount(r) => next.stage is Failed <==> !(r matches Ok(n) && n > 0),
                TestAnswer::Channels(r) => next.stage is Failed <==> !(channels_view(r) matches Ok(
                    channels,
                ) && first_channel(channels) is Ok),
                TestAnswer::LnrodPayments(r) => next.stage is Failed ==> test.stage is InboundLook
                    && hex_bytes(encode_utf8(test.facts.node_id)) is None,
                _ => !(next.stage is Failed),
            }
        },
        test.stage is AskFunding ==> (answer matches TestAnswer::Found(Ok(address)) ==> if address@.len()
            == 0 {
            test.after(answer).stage is OpenChannel
        } else {
            test.after(answer).stage is Fund
        }),
{
}

} // verus!
