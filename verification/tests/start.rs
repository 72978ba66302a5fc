use dln_e2e_harness::bitcoind::{AttachConfig, BitcoindHarness};
use dln_e2e_harness::control::{list_channels_reply, ControlCall};
use dln_e2e_harness::dln_node_client::{
    dln_node_binary, eln_signer_binary, ElnNode, NodeBinary, NodeSetup, StartAsk, StartReply,
    SignerMode, StartStage, StartWait,
};
use dln_e2e_harness::outcome::Failure;
use dln_e2e_harness::process::ManagedChild;
use dln_e2e_harness::util::Provision;
use dln_e2e_harness::wallet::{WalletCall, WalletError, WalletReply, WalletRequest, WalletResult};

type Stage = StartStage<String, Failure>;

fn setup(relay_url: &str) -> NodeSetup {
    let chain = BitcoindHarness::launched(&BitcoindHarness::start(), 32001);
    NodeSetup::prepare(SignerMode::Nostr, &chain, "miner", relay_url, "/out", 9735)
}

fn text(s: &str) -> String {
    s.to_string()
}

fn reply(result: WalletResult<String>) -> StartReply {
    StartReply::Wallet(Ok(WalletReply { error: None, result: Some(result) }))
}

fn info(pubkey: Option<&str>) -> StartReply {
    reply(WalletResult::Info { pubkey: pubkey.map(text) })
}

/// The answers by which a start goes well.
fn good() -> Vec<StartReply> {
    let ok = || StartReply::Tried(Ok(()));
    vec![
        ok(),
        StartReply::Done,
        ok(),
        ok(),
        StartReply::Found(Ok(text("/bin/signer"))),
        ok(),
        StartReply::Done,
        StartReply::Found(Ok(text("/tmp/ldk-ctrl-1"))),
        ok(),
        ok(),
        StartReply::Wrote(Ok(())),
        StartReply::Found(Ok(text("/bin/node"))),
        ok(),
        ok(),
        StartReply::Done,
        ok(),
        info(Some("02ab")),
        reply(WalletResult::Address(text("bcrt1q"))),
        StartReply::Sent(text("ab12")),
        StartReply::Done,
        reply(WalletResult::Balance(4_000_000_000)),
        ok(),
        StartReply::Done,
        ok(),
    ]
}

fn play(setup: &NodeSetup, replies: Vec<StartReply>) -> Stage {
    replies.into_iter().fold(ElnNode::start(), |stage, r| stage.step(setup, r))
}

/// The start after its first `n` good answers.
fn after(setup: &NodeSetup, n: usize) -> Stage {
    let mut replies = good();
    replies.truncate(n);
    play(setup, replies)
}

fn chain(stage: Stage) -> Vec<String> {
    match stage {
        StartStage::Ended(Err(f)) => f.chain,
        _ => panic!("should have failed"),
    }
}

#[test]
fn a_setup_takes_the_chain_and_fresh_keys() {
    let s = setup("ws://localhost:1");
    assert_eq!(s.rpc_host, "127.0.0.1");
    assert_eq!(s.rpc_port, 32001);
    assert_eq!(s.rpc_user, "rpcuser");
    assert_eq!(s.rpc_password, "rpcpass");
    assert_eq!(s.ln_port, 9735);
    assert_ne!(s.service.public, s.owner.public);
}

#[test]
fn a_start_asks_for_everything_in_order() {
    let s = setup("ws://localhost:1");
    let mut asked: Vec<String> = Vec::new();
    let mut stage = ElnNode::start();
    for r in good() {
        asked.push(match stage.ask(&s) {
            StartAsk::Connect { secret } => {
                let who = if secret == s.owner.secret {
                    "owner"
                } else if secret == s.client.secret {
                    "client"
                } else if secret == s.controller.secret {
                    "controller"
                } else {
                    "stranger"
                };
                format!("connect {who}")
            }
            StartAsk::SleepMillis(n) => format!("sleep {n}"),
            StartAsk::Publish(draft) => {
                let grantee = draft.tags[0][1].clone();
                let controller = format!("{}:{}", s.service.public, s.controller.public);
                let client = format!("{}:{}", s.service.public, s.client.public);
                assert_eq!(draft.kind, 30078);
                if grantee == controller {
                    text("grant control")
                } else if grantee == client {
                    text("grant wallet")
                } else {
                    text("grant nobody")
                }
            }
            StartAsk::Find(NodeBinary::Signer) => text("find signer"),
            StartAsk::Find(NodeBinary::Node) => text("find node"),
            StartAsk::Spawn { plan, .. } => format!("spawn {} {}", plan.name, plan.program),
            StartAsk::TmpDir { prefix } => format!("tmp {prefix}"),
            StartAsk::MakeDir { path } => format!("mkdir {path}"),
            StartAsk::Write { path, .. } => format!("write {path}"),
            StartAsk::Subscribe { kind, author } => {
                assert_eq!(author, s.service.public);
                format!("subscribe {kind}")
            }
            StartAsk::Wallet(WalletRequest::GetInfo) => text("info"),
            StartAsk::Wallet(WalletRequest::GetBalance) => text("balance"),
            StartAsk::Wallet(WalletRequest::MakeNewAddress) => text("address"),
            StartAsk::Wallet(WalletRequest::PayInvoice(_) | WalletRequest::PayHeld(_)) => text("pay"),
            StartAsk::Elapsed => text("elapsed"),
            StartAsk::SendToAddress { address, sats } => format!("send {sats} {address}"),
            StartAsk::Mine { blocks, address } => format!("mine {blocks} {address}"),
            StartAsk::Confirmations { .. } => text("confirmations"),
            StartAsk::Nothing => text("nothing"),
        });
        stage = stage.step(&s, r);
    }
    assert_eq!(
        asked,
        vec![
            "connect owner",
            "sleep 1000",
            "grant control",
            "grant wallet",
            "find signer",
            "spawn alice-eln-signer /bin/signer",
            "sleep 2000",
            "tmp ldk-ctrl",
            "mkdir /tmp/ldk-ctrl-1",
            "mkdir /tmp/ldk-ctrl-1/data",
            "write /tmp/ldk-ctrl-1/config.toml",
            "find node",
            "spawn dln-node /bin/node",
            "connect client",
            "sleep 1000",
            "subscribe 23195",
            "info",
            "address",
            "send 5000000 bcrt1q",
            "mine 1 miner",
            "balance",
            "connect controller",
            "sleep 1000",
            "subscribe 23199",
        ]
    );
    assert!(matches!(stage.ask(&s), StartAsk::Nothing));
    assert!(matches!(stage, StartStage::Ended(Ok(id)) if id == "02ab"));
}

#[test]
fn the_signer_is_told_of_the_node() {
    let s = setup("ws://localhost:1");
    let plan = match after(&s, 5).ask(&s) {
        StartAsk::Spawn { plan, .. } => plan,
        _ => panic!("nothing to spawn"),
    };
    assert_eq!(plan.log_path, "/out/alice-eln-signer.log");
    assert_eq!(
        plan.args,
        vec![
            text("--relay"),
            text("ws://localhost:1"),
            text("--proxy-pubkey"),
            s.proxy.public.clone(),
            text("--nsec"),
            s.signer.secret_hex(),
            text("--network"),
            text("regtest"),
            text("--integration-test"),
            text("--protocol-version"),
            text("6"),
            text("--policy-filter"),
            text("policy-commitment-htlc-routing-balance:warn"),
            text("--policy-filter"),
            text("policy-routing-balanced:warn"),
        ]
    );
}

#[test]
fn the_node_is_configured() {
    let s = setup("ws://localhost:1");
    let c = match after(&s, 10).ask(&s) {
        StartAsk::Write { config, .. } => config,
        _ => panic!("nothing to write"),
    };
    assert_eq!(c.node.network, "regtest");
    assert_eq!(c.node.listening_port, 9735);
    assert_eq!(c.node.data_dir, "/tmp/ldk-ctrl-1/data");
    assert_eq!(c.nostr.relay, "ws://localhost:1");
    assert_eq!(c.nostr.private_key, s.service.secret_hex());
    assert_eq!(c.wallet.max_channel_size_sats, 10_000_000);
    assert_eq!(c.wallet.min_channel_size_sats, 20_000);
    assert!(c.wallet.auto_accept_channels);
    assert_eq!(c.bitcoind.rpc_host, "127.0.0.1");
    assert_eq!(c.bitcoind.rpc_port, 32001);
    assert_eq!(c.bitcoind.rpc_user, "rpcuser");
    assert_eq!(c.bitcoind.rpc_password, "rpcpass");
    let signer = c.signer.unwrap();
    assert_eq!(signer.transport, "nostr");
    assert_eq!(signer.relay, "ws://localhost:1");
    assert_eq!(signer.nsec, s.proxy.secret_hex());
    assert_eq!(signer.signer_pubkey, s.signer.public);
}

#[test]
fn every_attempt_may_fail_a_start() {
    let s = setup("ws://localhost:1");
    for n in [0, 2, 3, 5, 8, 9, 12, 13, 15, 21, 23] {
        let stage = after(&s, n).step(&s, StartReply::Tried(Err(text("no"))));
        assert_eq!(chain(stage), vec!["no"]);
    }
    let refused = || Failure::new(text("no")).context("why");
    for n in [4, 7, 11] {
        let stage = after(&s, n).step(&s, StartReply::Found(Err(refused())));
        assert_eq!(chain(stage), vec!["why", "no"]);
    }
    let stage = after(&s, 10).step(&s, StartReply::Wrote(Err(refused())));
    assert_eq!(chain(stage), vec!["why", "no"]);
}

#[test]
fn the_relay_must_have_a_relay_url() {
    let s = setup("http://localhost:1");
    let stage = after(&s, 13);
    assert_eq!(chain(stage), vec!["Unsupported scheme"]);
    let s = setup("ws://localhost:1");
    assert!(matches!(after(&s, 13), StartStage::ConnectWallet));
}

#[test]
fn a_node_is_polled_until_it_says_who_it_is() {
    let s = setup("ws://localhost:1");
    let stage = after(&s, 16).step(&s, info(None));
    assert!(matches!(stage.ask(&s), StartAsk::Elapsed));
    let stage = stage.step(&s, StartReply::Elapsed(60_000_000_000));
    assert!(matches!(stage.ask(&s), StartAsk::SleepMillis(1000)));
    let stage = stage.step(&s, StartReply::Done);
    let down = StartReply::Wallet(Err(Failure::new(text("down"))));
    let stage = stage.step(&s, down).step(&s, StartReply::Elapsed(60_000_000_001));
    assert_eq!(chain(stage), vec!["timeout waiting for dln-node get_info (60s)"]);
}

#[test]
fn a_node_is_polled_until_it_is_funded() {
    let s = setup("ws://localhost:1");
    let stage = after(&s, 20).step(&s, reply(WalletResult::Balance(3_999_999_999)));
    assert!(matches!(stage.ask(&s), StartAsk::Elapsed));
    let stage = stage.step(&s, StartReply::Elapsed(30_000_000_000));
    assert!(matches!(stage.ask(&s), StartAsk::SleepMillis(500)));
    let stage = stage.step(&s, StartReply::Done).step(&s, info(Some("x")));
    let stage = stage.step(&s, StartReply::Elapsed(30_000_000_001));
    assert_eq!(chain(stage), vec!["dln-node funding timeout"]);
}

#[test]
fn a_node_must_give_an_address() {
    let s = setup("ws://localhost:1");
    let error = WalletError { code: text("Other"), message: text("no") };
    let refused = WalletReply { error: Some(error), result: None };
    let stage = after(&s, 17).step(&s, StartReply::Wallet(Ok(refused)));
    assert_eq!(chain(stage), vec!["make_new_address response parse failed", "no [Other]"]);
    let stage = after(&s, 17).step(&s, StartReply::Wallet(Err(Failure::new(text("down")))));
    assert_eq!(chain(stage), vec!["NWC make_new_address failed", "down"]);
}

#[test]
fn a_reply_to_something_else_changes_nothing() {
    let s = setup("ws://localhost:1");
    assert!(matches!(ElnNode::start().step(&s, StartReply::Done), StartStage::ConnectOwner));
    assert!(matches!(after(&s, 2).step(&s, StartReply::Elapsed(1)), StartStage::GrantControl));
}

#[test]
fn binaries_come_from_the_environment_or_a_build() {
    match eln_signer_binary(None, "/p") {
        Provision::Build(r) => {
            assert_eq!(r.dir, "/p/eln-signer");
            assert_eq!(r.args, vec!["build", "--bin", "eln-signer"]);
        }
        Provision::Prebuilt(_) => panic!("nothing was named"),
    }
    let named = |dln: Option<&str>, eln: Option<&str>| match dln_node_binary(
        dln.map(text),
        eln.map(text),
    ) {
        Provision::Prebuilt(path) => path,
        Provision::Build(r) => r.binary,
    };
    assert_eq!(named(Some("/a"), Some("/b")), "/a");
    assert_eq!(named(None, Some("/b")), "/b");
    assert_eq!(named(None, None), "/home/rene/git/dln-node/target/debug/dln-node");
}

#[test]
fn a_started_node_is_driven_on_its_lines() {
    let s = setup("ws://localhost:1");
    let child = ManagedChild::spawned(s.node_plan("/bin/node", "/w"));
    let signer = ManagedChild::spawned(s.signer_plan("/bin/signer"));
    let (controller, client, service) =
        (s.controller.secret.clone(), s.client.secret.clone(), s.service.public.clone());
    assert_eq!(ElnNode::wallet_line(&s).secret, client);
    let node = ElnNode::started(s, text("02ab"), child, Some(signer));
    assert_eq!(node.node_id(), "02ab");
    assert_eq!(node.ln_port, 9735);
    assert_eq!(node.child.name, "dln-node");
    assert!(node.signer_child.is_some());
    assert_eq!(node.control.secret, controller);
    assert_eq!(node.wallet.secret, client);
    assert_eq!(node.control.service, service);
    assert!(matches!(node.open_channel("02cd", "h:1", 5, None), ControlCall::Publish(_)));
    assert!(matches!(node.list_channels(), ControlCall::Publish(_)));
    assert!(matches!(node.close_channel("c1", false), ControlCall::Publish(_)));
    assert!(matches!(node.pay_invoice("lnbc1"), WalletCall::Publish(_)));
    assert!(matches!(node.get_balance_msat(), WalletCall::Publish(_)));
    let listed = list_channels_reply(Ok(serde_json::from_str(
        r#"{"result":{"channels":[{"peer_pubkey":"02cd","state":"pending"}]}}"#,
    )
    .unwrap()));
    assert!(node.has_channel_with(&listed, "02cd"));
    assert!(!node.has_ready_channel_with(&listed, "02cd"));
}

#[test]
fn each_wait_of_a_start_has_a_clock_of_its_own() {
    assert!(ElnNode::start().wait().is_none());
    assert!(StartStage::InfoClock.wait() == Some(StartWait::Info));
    let id = "02aa".to_string();
    assert!(StartStage::AskBalance { id }.wait() == Some(StartWait::Balance));
    assert!(StartStage::Ended(Ok("02aa".to_string())).wait().is_none());
}

fn shared() -> NodeSetup {
    let chain = BitcoindHarness::attach(AttachConfig {
        rpc_host: text("10.0.0.1"),
        rpc_port: 48332,
        rpc_user: text("treas"),
        rpc_password: text("pw"),
        wallet: text("treasury"),
        network: text("signet"),
        label: text("btk.signet"),
    });
    NodeSetup::prepare(SignerMode::Nostr, &chain, "never", "ws://localhost:1", "/out", 9735)
}

#[test]
fn a_node_is_told_which_network_it_is_on() {
    assert_eq!(shared().config("/cwd").node.network, "signet");
    assert_eq!(shared().signer_plan("/bin/signer").args[7], "signet");
    assert_eq!(setup("ws://localhost:1").config("/cwd").node.network, "regtest");
    assert_eq!(setup("ws://localhost:1").signer_plan("/bin/signer").args[7], "regtest");
}

#[test]
fn a_start_waits_where_it_may_not_mine() {
    let s = shared();
    let stage = after(&s, 19);
    match stage.ask(&s) {
        StartAsk::Confirmations { txid, want, secs } => {
            assert_eq!(txid, "ab12");
            assert_eq!(want, 1);
            assert_eq!(secs, 1200);
        }
        _ => panic!("should wait"),
    }
    // Nothing was mined, so that it is done says nothing.
    let stage = stage.step(&s, StartReply::Done);
    assert!(matches!(stage, StartStage::Confirm { .. }));
    let stage = stage.step(&s, StartReply::Confirmed(Ok(1)));
    assert!(matches!(stage, StartStage::AskBalance { .. }));
    let stalled = after(&s, 19).step(&s, StartReply::Confirmed(Err(text("stalled"))));
    assert_eq!(chain(stalled), vec!["stalled"]);
    // On a chain of ours it mines instead.
    let ours = setup("ws://localhost:1");
    let stage = after(&ours, 19).step(&ours, StartReply::Confirmed(Ok(1)));
    assert!(matches!(stage.ask(&ours), StartAsk::Mine { blocks: 1, .. }));
}

#[test]
fn a_node_that_signs_itself_has_no_signer() {
    let chain = BitcoindHarness::launched(&BitcoindHarness::start(), 32001);
    let url = "ws://localhost:1";
    let s = NodeSetup::prepare(SignerMode::Plain, &chain, "miner", url, "/out", 9735);
    assert!(s.config("/cwd").signer.is_none());
    let stage = after(&s, 4);
    assert!(matches!(stage, StartStage::PickDir));
    let found = StartReply::Found(Ok(text("/cwd")));
    assert!(matches!(stage.step(&s, found), StartStage::MakeDir { .. }));
}

#[test]
fn a_spawn_says_what_is_spawned() {
    let s = setup("ws://localhost:1");
    match after(&s, 5).ask(&s) {
        StartAsk::Spawn { which, plan } => {
            assert!(which == NodeBinary::Signer);
            assert_eq!(plan.name, "alice-eln-signer");
        }
        _ => panic!("should spawn"),
    }
    match after(&s, 12).ask(&s) {
        StartAsk::Spawn { which, plan } => {
            assert!(which == NodeBinary::Node);
            assert_eq!(plan.name, "dln-node");
        }
        _ => panic!("should spawn"),
    }
}
