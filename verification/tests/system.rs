use dln_e2e_harness::dln_node_client::SignerMode;
use dln_e2e_harness::lnrod_client::{LnrodChannel, LnrodPayment};
use dln_e2e_harness::outcome::Failure;
use dln_e2e_harness::system_test::{Process, SystemTest, TestAnswer, TestAsk, TestStage, TestWait};

type T = SystemTest<String, Failure, Vec<u8>>;

fn text(s: &str) -> String {
    s.to_string()
}

fn failed(cause: &str) -> Failure {
    Failure::new(cause.to_string())
}

fn channels(list: Vec<(bool, bool)>) -> TestAnswer {
    let list = list
        .into_iter()
        .map(|(is_active, is_pending)| LnrodChannel { is_active, is_pending })
        .collect();
    TestAnswer::LnrodChannels(Ok(list))
}

fn payments(list: Vec<(bool, bool)>) -> TestAnswer {
    let list = list
        .into_iter()
        .map(|(is_outbound, succeeded)| LnrodPayment { is_outbound, succeeded })
        .collect();
    TestAnswer::LnrodPayments(Ok(list))
}

fn node_channels(list: &str) -> TestAnswer {
    TestAnswer::Channels(Ok(serde_json::from_str(list).unwrap()))
}

/// The answers by which the scenario passes.
fn good() -> Vec<TestAnswer> {
    let ok = || TestAnswer::Tried(Ok(()));
    vec![
        TestAnswer::Done,
        TestAnswer::Text(text("miner")),
        TestAnswer::Done,
        TestAnswer::Text(text("ws://localhost:7")),
        TestAnswer::Node(Ok(text("02ab"))),
        ok(),
        TestAnswer::Lnrod(Ok(9736)),
        TestAnswer::Bytes(Ok(vec![3, 0xcd])),
        TestAnswer::Found(Ok(text("bcrt1q"))),
        TestAnswer::Done,
        TestAnswer::Done,
        TestAnswer::Done,
        ok(),
        TestAnswer::Done,
        channels(vec![(true, false)]),
        TestAnswer::Flag(true),
        TestAnswer::Done,
        TestAnswer::Done,
        TestAnswer::Found(Ok(text("lnbc1"))),
        ok(),
        payments(vec![(false, true)]),
        TestAnswer::Done,
        payments(vec![(false, true), (true, true)]),
        node_channels(r#"[{"id":"c1"}]"#),
        ok(),
        TestAnswer::Done,
        channels(vec![]),
        TestAnswer::Flag(false),
        TestAnswer::Amount(Ok(1)),
        ok(),
        ok(),
        ok(),
        ok(),
        ok(),
        TestAnswer::Done,
        TestAnswer::Done,
        TestAnswer::Done,
        TestAnswer::Done,
        TestAnswer::Done,
        TestAnswer::Done,
    ]
}

fn after(n: usize) -> T {
    good().into_iter().take(n).fold(SystemTest::begin(), |t, a| t.step(a))
}

fn chain(t: T) -> Vec<String> {
    match t.stage {
        TestStage::Failed(f) => f.chain,
        _ => panic!("should have failed"),
    }
}

fn told(t: T) -> String {
    match t.stage {
        TestStage::GaveUp(e) => e,
        _ => panic!("should have given up"),
    }
}

fn name(ask: TestAsk) -> String {
    match ask {
        TestAsk::StartChain { plan } => {
            assert_eq!(plan.image, "ruimarinho/bitcoin-core");
            text("chain")
        }
        TestAsk::NewAddress => text("address"),
        TestAsk::Mine { blocks, address } => format!("mine {blocks} {address}"),
        TestAsk::StartRelay => text("relay"),
        TestAsk::StartNode { signer, miner, relay_url } => {
            assert!(signer == SignerMode::Nostr);
            format!("node {miner} {relay_url}")
        }
        TestAsk::MakeDir { name } => format!("mkdir {name}"),
        TestAsk::StartLnrod { data_dir, relay_url } => format!("lnrod {data_dir} {relay_url}"),
        TestAsk::LnrodId => text("lnrod id"),
        TestAsk::LnrodAddress => text("lnrod address"),
        TestAsk::SendToAddress { address, sats } => format!("send {sats} {address}"),
        TestAsk::SleepMillis(n) => format!("sleep {n}"),
        TestAsk::OpenChannel { peer, address, sats, push } => {
            format!("open {peer} {address} {sats} {push}")
        }
        TestAsk::LnrodChannels => text("lnrod channels"),
        TestAsk::HasReady { peer } => format!("ready {peer}"),
        TestAsk::HasAny { peer } => format!("any {peer}"),
        TestAsk::Elapsed => text("elapsed"),
        TestAsk::LnrodInvoice { msat } => format!("invoice {msat}"),
        TestAsk::PayInvoice { invoice } => format!("pay {invoice}"),
        TestAsk::LnrodPayments => text("payments"),
        TestAsk::Keysend { dest, msat } => format!("keysend {dest:?} {msat}"),
        TestAsk::NodeChannels => text("channels"),
        TestAsk::CloseChannel { id, force } => format!("close {id} {force}"),
        TestAsk::Balance => text("balance"),
        TestAsk::CheckAlive(p) => format!("alive {}", process(p)),
        TestAsk::Kill(p) => format!("kill {}", process(p)),
        TestAsk::CleanUp => text("clean up"),
        TestAsk::Nothing => text("nothing"),
    }
}

fn process(p: Process) -> &'static str {
    match p {
        Process::Node => "node",
        Process::NodeSigner => "node signer",
        Process::Lnrod => "lnrod",
        Process::LnrodProxy => "proxy",
        Process::LnrodSigner => "lnrod signer",
    }
}

#[test]
fn the_scenario_asks_for_everything_in_order() {
    let mut asked = Vec::new();
    let mut t: T = SystemTest::begin();
    for a in good() {
        asked.push(name(t.ask()));
        t = t.step(a);
    }
    assert!(matches!(t.stage, TestStage::Passed));
    assert_eq!(name(t.ask()), "nothing");
    assert_eq!(
        asked,
        vec![
            "chain",
            "address",
            "mine 110 miner",
            "relay",
            "node miner ws://localhost:7",
            "mkdir lnrod-data",
            "lnrod lnrod-data ws://localhost:7",
            "lnrod id",
            "lnrod address",
            "send 1000000 bcrt1q",
            "mine 1 miner",
            "sleep 2000",
            "open 03cd 127.0.0.1:9736 2000000 500000",
            "mine 6 miner",
            "lnrod channels",
            "ready 03cd",
            "mine 6 miner",
            "sleep 5000",
            "invoice 10000000",
            "pay lnbc1",
            "payments",
            "keysend [2, 171] 5000000",
            "payments",
            "channels",
            "close c1 false",
            "mine 6 miner",
            "lnrod channels",
            "any 03cd",
            "balance",
            "alive node",
            "alive node signer",
            "alive lnrod",
            "alive proxy",
            "alive lnrod signer",
            "kill node",
            "kill node signer",
            "kill proxy",
            "kill lnrod signer",
            "kill lnrod",
            "clean up",
        ]
    );
}

#[test]
fn lnrod_without_an_address_is_not_funded() {
    let t = after(8).step(TestAnswer::Found(Ok(String::new())));
    assert!(matches!(t.stage, TestStage::OpenChannel));
}

#[test]
fn a_channel_is_active_on_both_sides_or_mined_for() {
    let t = after(14).step(channels(vec![(true, true)]));
    let t = t.step(TestAnswer::Flag(true));
    assert_eq!(name(t.ask()), "mine 1 miner");
    let t = t.step(TestAnswer::Done);
    assert_eq!(name(t.ask()), "elapsed");
    let t = t.step(TestAnswer::Elapsed(60_000_000_000));
    assert_eq!(name(t.ask()), "sleep 500");
    let t = t.step(TestAnswer::Done).step(TestAnswer::LnrodChannels(Err(text("down"))));
    assert_eq!(name(t.ask()), "elapsed");
    assert_eq!(
        told(t.step(TestAnswer::Elapsed(60_000_000_001))),
        "timeout waiting for: channel active"
    );
}

#[test]
fn payments_are_waited_for() {
    let t = after(20).step(payments(vec![(true, true), (false, false)]));
    let t = t.step(TestAnswer::Elapsed(30_000_000_000));
    assert_eq!(name(t.ask()), "sleep 200");
    let t = t.step(TestAnswer::Done).step(TestAnswer::LnrodPayments(Err(text("down"))));
    assert_eq!(
        told(t.step(TestAnswer::Elapsed(30_000_000_001))),
        "timeout waiting for: ldk->lnrod payment succeeded"
    );
    let t = after(22).step(payments(vec![(false, true)]));
    let t = t.step(TestAnswer::Elapsed(0));
    assert_eq!(name(t.ask()), "sleep 2000");
    let t = t.step(TestAnswer::Done);
    assert_eq!(name(t.ask()), "keysend [2, 171] 5000000");
    let t = t.step(TestAnswer::Done).step(payments(vec![]));
    assert_eq!(
        told(t.step(TestAnswer::Elapsed(60_000_000_001))),
        "timeout waiting for: lnrod->ldk keysend succeeded"
    );
}

#[test]
fn closing_is_waited_for() {
    let t = after(26).step(channels(vec![(false, true)])).step(TestAnswer::Flag(false));
    assert_eq!(name(t.ask()), "mine 1 miner");
    let t = after(26).step(channels(vec![])).step(TestAnswer::Flag(true));
    assert_eq!(name(t.ask()), "mine 1 miner");
    let t = t.step(TestAnswer::Done);
    assert_eq!(
        told(t.step(TestAnswer::Elapsed(60_000_000_001))),
        "timeout waiting for: channel closed on both sides"
    );
    let t = after(26).step(TestAnswer::LnrodChannels(Err(text("down"))));
    let t = t.step(TestAnswer::Elapsed(1)).step(TestAnswer::Done);
    assert_eq!(name(t.ask()), "lnrod channels");
}

#[test]
fn failures_keep_their_context_in_the_scenario() {
    let no = || failed("no");
    assert_eq!(
        chain(after(4).step(TestAnswer::Node(Err(no())))),
        vec!["failed to start dln-node", "no"]
    );
    assert_eq!(chain(after(5).step(TestAnswer::Tried(Err(no())))), vec!["no"]);
    assert_eq!(
        chain(after(6).step(TestAnswer::Lnrod(Err(no())))),
        vec!["failed to start lnrod", "no"]
    );
    assert_eq!(chain(after(7).step(TestAnswer::Bytes(Err(no())))), vec!["no"]);
    assert_eq!(chain(after(8).step(TestAnswer::Found(Err(no())))), vec!["no"]);
    assert_eq!(
        chain(after(12).step(TestAnswer::Tried(Err(no())))),
        vec!["open_channel failed", "no"]
    );
    assert_eq!(
        chain(after(18).step(TestAnswer::Found(Err(no())))),
        vec!["lnrod invoice_new failed", "no"]
    );
    assert_eq!(
        chain(after(19).step(TestAnswer::Tried(Err(no())))),
        vec!["ldk pay_invoice failed", "no"]
    );
    assert_eq!(chain(after(23).step(TestAnswer::Channels(Err(no())))), vec!["no"]);
    assert_eq!(chain(after(23).step(node_channels("[]"))), vec!["no channels to close"]);
    assert_eq!(
        chain(after(24).step(TestAnswer::Tried(Err(no())))),
        vec!["close_channel failed", "no"]
    );
    assert_eq!(
        chain(after(28).step(TestAnswer::Amount(Ok(0)))),
        vec!["dln-node on-chain balance should be > 0"]
    );
    assert_eq!(chain(after(28).step(TestAnswer::Amount(Err(no())))), vec!["no"]);
    for n in 29..34 {
        assert_eq!(chain(after(n).step(TestAnswer::Tried(Err(no())))), vec!["no"]);
    }
}

#[test]
fn a_node_id_must_be_hexadecimal() {
    let t = good().into_iter().take(4).fold(SystemTest::begin(), |t: T, a| t.step(a));
    let t = t.step(TestAnswer::Node(Ok(text("xyz"))));
    let t = good().into_iter().take(21).skip(5).fold(t, |t, a| t.step(a));
    assert_eq!(chain(t), vec!["ldk node_id hex decode", "Odd number of digits"]);
}

#[test]
fn each_wait_has_a_clock_of_its_own() {
    let mut test = SystemTest::begin();
    assert!(test.wait().is_none());
    test.stage = TestStage::ActivePause;
    assert!(test.wait() == Some(TestWait::ChannelActive));
    test.stage = TestStage::InboundLook;
    assert!(test.wait() == Some(TestWait::Inbound));
    test.stage = TestStage::Keysend;
    assert!(test.wait() == Some(TestWait::Outbound));
    test.stage = TestStage::ClosedNode { lnrod_closed: true };
    assert!(test.wait() == Some(TestWait::ChannelClosed));
    test.stage = TestStage::Passed;
    assert!(test.wait().is_none());
}
