//! Bitcoin Core and Bitcoin Knots backends, and their JSON-RPC interface.

use vstd::prelude::*;
use vstd::string::StringExecFns;
use crate::json::{
    empty_record, field, json_text, json_view, json_views, list, number, render, set_field, text,
    JsonView,
};
use crate::text::{
    cat2, cat3, cat4, cat5, decimal, decimal_text, quote, quoted, signed_decimal, signed_text,
    span_debug, span_text, views,
};

verus! {

const RPC_USER: &'static str = "rpcuser";

const RPC_PASS: &'static str = "rpcpass";

const RPC_PORT: u16 = 18443;

/// How to reach a node this harness did not start.
///
/// A scenario running against a shared chain has no mining authority and
/// cannot choose the chain's parameters, so everything here is discovered
/// rather than decided.
#[derive(Clone, Debug)]
pub struct AttachConfig {
    pub rpc_host: String,
    pub rpc_port: u16,
    pub rpc_user: String,
    pub rpc_password: String,
    pub wallet: String,
    /// `signet`, `regtest`, ... — passed through to dln-node.
    pub network: String,
    /// What to call this chain in errors, e.g. `btk.signet`. Both signets
    /// share a network name, so this is what makes a timeout actionable.
    pub label: String,
}

/// A container to start.
pub struct LaunchPlan {
    pub image: String,
    pub tag: String,
    /// The port to expose.
    pub port: u16,
    pub cmd: Vec<String>,
}

/// What a [`LaunchPlan`] says.
pub struct LaunchView {
    pub image: Seq<char>,
    pub tag: Seq<char>,
    pub port: u16,
    pub cmd: Seq<Seq<char>>,
}

impl View for LaunchPlan {
    type V = LaunchView;

    open spec fn view(&self) -> LaunchView {
        LaunchView { image: self.image@, tag: self.tag@, port: self.port, cmd: views(self.cmd@) }
    }
}

impl LaunchPlan {
    /// What a container that could not be started is reported as.
    pub fn failure(&self, reason: &str) -> (r: String)
        ensures
            r@ == "Failed to start "@ + self@.image + ":"@ + self@.tag + " container: "@ + reason@,
    {
        let mut s = cat5(
            "Failed to start ",
            self.image.as_str(),
            ":",
            self.tag.as_str(),
            " container: ",
        );
        s.append(reason);
        s
    }
}

/// The arguments that every regtest daemon is started with.
pub open spec fn standard_args() -> Seq<Seq<char>> {
    seq![
        "-regtest=1"@,
        "-server=1"@,
        "-txindex=1"@,
        "-printtoconsole"@,
        "-fallbackfee=0.0002"@,
        "-rpcbind=0.0.0.0"@,
        "-rpcallowip=0.0.0.0/0"@,
        "-rpcuser=rpcuser"@,
        "-rpcpassword=rpcpass"@,
    ]
}

/// A regtest daemon of an image, with extra arguments behind the standard ones.
pub open spec fn launch(image: Seq<char>, tag: Seq<char>, extra_args: Seq<Seq<char>>) -> LaunchView {
    LaunchView { image, tag, port: 18443, cmd: standard_args() + extra_args }
}

/// A Bitcoin Core regtest daemon.
pub open spec fn core_launch() -> LaunchView {
    launch("ruimarinho/bitcoin-core"@, "latest"@, Seq::empty())
}

/// A Bitcoin Knots regtest daemon that never activates BLAKE2b.
pub open spec fn knots_launch() -> LaunchView {
    launch("dwdc/bitcoin-knots"@, "29"@, seq!["-blake2b_headline=dwdc regtest level 0"@])
}

/// A Bitcoin Knots regtest daemon that activates BLAKE2b at a height.
pub open spec fn activating_launch(height: nat) -> LaunchView {
    launch(
        "dwdc/bitcoin-knots"@,
        "29"@,
        seq![
            "-testactivationheight=blake2b@"@ + decimal(height),
            "-blake2b_headline=dwdc regtest blake2b activation"@,
            "-walletoldsigs=1"@,
        ],
    )
}

/// The daemons of two activation heights are started alike but for the height:
/// they get the same headline, so that each takes the other's activation block.
pub proof fn the_headline_is_the_same_for_every_height(a: nat, b: nat)
    ensures
        ({
            let n = standard_args().len() as int;
            let one = activating_launch(a);
            let other = activating_launch(b);
            &&& one.cmd[n + 1] == "-blake2b_headline=dwdc regtest blake2b activation"@
            &&& one.cmd[n] == "-testactivationheight=blake2b@"@ + decimal(a)
            &&& one.cmd.len() == n + 3
            &&& other == LaunchView {
                cmd: one.cmd.update(n, "-testactivationheight=blake2b@"@ + decimal(b)),
                ..one
            }
        }),
{
    let n: int = standard_args().len() as int;
    assert(activating_launch(b).cmd =~= activating_launch(a).cmd.update(
        n,
        "-testactivationheight=blake2b@"@ + decimal(b),
    ));
}

/// A chain daemon: how to reach it, and whether this harness started it.
pub struct BitcoindHarness {
    pub rpc_url: String,
    pub rpc_port: u16,
    pub rpc_user: String,
    pub rpc_password: String,
    pub wallet: String,
    pub network: String,
    /// Human name for messages. Both signets report network "signet", so
    /// without this a timeout cannot say which chain stalled.
    pub label: String,
    /// False when attached to a node we did not start — see `attach`.
    /// Dropping the harness must not stop somebody else's node.
    pub owned: bool,
    /// How long a request may take, in seconds.
    pub timeout_secs: u64,
}

/// What a [`BitcoindHarness`] holds.
pub struct ChainView {
    pub rpc_url: Seq<char>,
    pub rpc_port: u16,
    pub rpc_user: Seq<char>,
    pub rpc_password: Seq<char>,
    pub wallet: Seq<char>,
    pub network: Seq<char>,
    pub label: Seq<char>,
    pub owned: bool,
    pub timeout_secs: u64,
}

impl View for BitcoindHarness {
    type V = ChainView;

    open spec fn view(&self) -> ChainView {
        ChainView {
            rpc_url: self.rpc_url@,
            rpc_port: self.rpc_port,
            rpc_user: self.rpc_user@,
            rpc_password: self.rpc_password@,
            wallet: self.wallet@,
            network: self.network@,
            label: self.label@,
            owned: self.owned,
            timeout_secs: self.timeout_secs,
        }
    }
}

/// A request to a daemon: a body to post, with basic authentication.
pub struct RpcRequest {
    pub url: String,
    pub user: String,
    pub password: String,
    pub body: serde_json::Value,
}

/// What an [`RpcRequest`] holds.
pub struct RequestView {
    pub url: Seq<char>,
    pub user: Seq<char>,
    pub password: Seq<char>,
    pub body: JsonView,
}

impl View for RpcRequest {
    type V = RequestView;

    open spec fn view(&self) -> RequestView {
        RequestView {
            url: self.url@,
            user: self.user@,
            password: self.password@,
            body: json_view(self.body),
        }
    }
}

impl ChainView {
    /// The request of a call to this chain's daemon.
    pub open spec fn request(self, call: CallView) -> RequestView {
        RequestView {
            url: self.rpc_url,
            user: self.rpc_user,
            password: self.rpc_password,
            body: rpc_body(call.method, call.params),
        }
    }
}

/// What came of a request.
pub enum HttpReply {
    /// It was not sent, or nothing came back, for this reason.
    Unsent(String),
    /// The body is no JSON, for this reason.
    Undecodable(String),
    /// The status code, the status in words, and the body.
    Received { code: u16, status: String, body: serde_json::Value },
}

/// The body of a JSON-RPC request.
pub open spec fn rpc_body(method: Seq<char>, params: JsonView) -> JsonView {
    JsonView::empty().with("jsonrpc"@, JsonView::Text("1.0"@)).with(
        "id"@,
        JsonView::Text("test"@),
    ).with("method"@, JsonView::Text(method)).with("params"@, params)
}

/// What a reply to a call of `method` means: the result, or why there is none.
pub open spec fn rpc_result(method: Seq<char>, reply: HttpReply) -> Result<JsonView, Seq<char>> {
    match reply {
        HttpReply::Unsent(e) => Err("RPC request failed for "@ + method + ": "@ + e@),
        HttpReply::Undecodable(e) => Err(
            "RPC response JSON decode failed for "@ + method + ": "@ + e@,
        ),
        HttpReply::Received { code, status, body } => {
            let body = json_view(body);
            if !(200 <= code < 300) {
                Err(
                    "RPC HTTP status error for "@ + method + ": "@ + status@ + ", body: "@
                        + json_text(body),
                )
            } else if body.field("error"@) != JsonView::Null {
                Err(
                    "RPC returned error for "@ + method + ": "@ + json_text(body.field("error"@)),
                )
            } else {
                Ok(body.field("result"@))
            }
        },
    }
}

/// The view of what a call gave.
pub open spec fn rpc_view(r: Result<serde_json::Value, String>) -> Result<JsonView, Seq<char>> {
    match r {
        Ok(v) => Ok(json_view(v)),
        Err(e) => Err(e@),
    }
}

impl BitcoindHarness {
    /// Start a Bitcoin Core regtest node.
    pub fn start() -> (r: LaunchPlan)
        ensures
            r@ == core_launch(),
    {
        let r = Self::start_with("ruimarinho/bitcoin-core", "latest", vec![]);
        assert(r@.cmd =~= core_launch().cmd);
        r
    }

    /// Start a Bitcoin Knots regtest node at level 0 — no
    /// `-testactivationheight`, so `Blake2bHeight` stays at `INT_MAX` and
    /// the chain produces only v1 headers (80 bytes, SHA256d).
    ///
    /// `-blake2b_headline` is mandatory: the node refuses to start without
    /// it. Its value is consensus-critical on a real chain but arbitrary on
    /// a regtest chain that never activates.
    pub fn start_knots() -> (r: LaunchPlan)
        ensures
            r@ == knots_launch(),
    {
        let r = Self::start_with(
            "dwdc/bitcoin-knots",
            "29",
            vec!["-blake2b_headline=dwdc regtest level 0".to_owned()],
        );
        assert(r@.cmd =~= knots_launch().cmd);
        r
    }

    /// Start a Bitcoin Knots regtest node that activates BLAKE2b at
    /// `height`, so blocks below it carry v1 headers and blocks at and
    /// above it carry v2 headers.
    ///
    /// The headline is not decoration here. Consensus requires the coinbase
    /// of the activation block to contain it, so a node started with a
    /// different one rejects the chain this one builds.
    ///
    /// Scheduling an activation height makes the wallet sign with
    /// SIGHASH_UNIFIED immediately, but a block below that height may not
    /// carry such a signature, and the node could not mine at all:
    /// `-walletoldsigs=1` keeps it from doing so.
    pub fn start_knots_activating_at(height: u64) -> (r: LaunchPlan)
        ensures
            r@ == activating_launch(height as nat),
    {
        let digits = decimal_text(height as u128);
        let r = Self::start_with(
            "dwdc/bitcoin-knots",
            "29",
            vec![
                cat2("-testactivationheight=blake2b@", digits.as_str()),
                "-blake2b_headline=dwdc regtest blake2b activation".to_owned(),
                "-walletoldsigs=1".to_owned(),
            ],
        );
        assert(r@.cmd =~= activating_launch(height as nat).cmd);
        r
    }

    /// Start whichever backend `BITCOIND_IMPL` selects — `core` (default)
    /// or `knots`. Any other name is refused.
    pub fn start_from_env(selected: Option<String>) -> (r: Result<LaunchPlan, String>)
        ensures
            match selected {
                None => r matches Ok(plan) && plan@ == core_launch(),
                Some(name) => if name@ == "core"@ {
                    r matches Ok(plan) && plan@ == core_launch()
                } else if name@ == "knots"@ {
                    r matches Ok(plan) && plan@ == knots_launch()
                } else {
                    r matches Err(e) && e@ == "unknown BITCOIND_IMPL "@ + quoted(name@)
                        + ", expected core or knots"@
                },
            },
    {
        match selected {
            None => Ok(Self::start()),
            Some(name) => if name == "core".to_owned() {
                Ok(Self::start())
            } else if name == "knots".to_owned() {
                Ok(Self::start_knots())
            } else {
                let shown = quote(name.as_str());
                Err(cat3("unknown BITCOIND_IMPL ", shown.as_str(), ", expected core or knots"))
            },
        }
    }

    /// Start a regtest node from an arbitrary image, with extra daemon args
    /// appended to the standard set.
    pub fn start_with(image: &str, tag: &str, extra_args: Vec<String>) -> (r: LaunchPlan)
        ensures
            r@ == launch(image@, tag@, views(extra_args@)),
    {
        let mut cmd = vec![
            "-regtest=1".to_owned(),
            "-server=1".to_owned(),
            "-txindex=1".to_owned(),
            "-printtoconsole".to_owned(),
            "-fallbackfee=0.0002".to_owned(),
            "-rpcbind=0.0.0.0".to_owned(),
            "-rpcallowip=0.0.0.0/0".to_owned(),
            "-rpcuser=rpcuser".to_owned(),
            "-rpcpassword=rpcpass".to_owned(),
        ];
        let ghost extra = views(extra_args@);
        let mut extra_args = extra_args;
        cmd.append(&mut extra_args);
        assert(views(cmd@) =~= standard_args() + extra);
        LaunchPlan { image: image.to_owned(), tag: tag.to_owned(), port: RPC_PORT, cmd }
    }

    /// The node of a container that was started as planned, where its RPC port
    /// is mapped to `host_port`.
    pub fn launched(plan: &LaunchPlan, host_port: u16) -> (r: BitcoindHarness)
        ensures
            r@ == (ChainView {
                rpc_url: "http://localhost:"@ + decimal(host_port as nat),
                rpc_port: host_port,
                rpc_user: "rpcuser"@,
                rpc_password: "rpcpass"@,
                wallet: "testwallet"@,
                network: "regtest"@,
                label: plan@.image + ":"@ + plan@.tag,
                owned: true,
                timeout_secs: 10,
            }),
    {
        let port = decimal_text(host_port as u128);
        BitcoindHarness {
            rpc_url: cat2("http://localhost:", port.as_str()),
            rpc_port: host_port,
            rpc_user: RPC_USER.to_owned(),
            rpc_password: RPC_PASS.to_owned(),
            wallet: "testwallet".to_owned(),
            network: "regtest".to_owned(),
            label: cat3(plan.image.as_str(), ":", plan.tag.as_str()),
            owned: true,
            timeout_secs: 10,
        }
    }

    /// Attach to a node that is already running and that we do not own.
    ///
    /// The chain is shared, so this harness cannot mine on it: use
    /// `wait_for_confirmations` instead of `mine_blocks`. Dropping it leaves
    /// the node running.
    pub fn attach(cfg: AttachConfig) -> (r: BitcoindHarness)
        ensures
            r@ == (ChainView {
                rpc_url: "http://"@ + cfg.rpc_host@ + ":"@ + decimal(cfg.rpc_port as nat),
                rpc_port: cfg.rpc_port,
                rpc_user: cfg.rpc_user@,
                rpc_password: cfg.rpc_password@,
                wallet: cfg.wallet@,
                network: cfg.network@,
                label: cfg.label@,
                owned: false,
                timeout_secs: 30,
            }),
    {
        let port = decimal_text(cfg.rpc_port as u128);
        BitcoindHarness {
            rpc_url: cat4("http://", cfg.rpc_host.as_str(), ":", port.as_str()),
            rpc_port: cfg.rpc_port,
            rpc_user: cfg.rpc_user,
            rpc_password: cfg.rpc_password,
            wallet: cfg.wallet,
            network: cfg.network,
            label: cfg.label,
            owned: false,
            timeout_secs: 30,
        }
    }

    /// The chain's network name, for anything that has to be told which
    /// chain it is on.
    pub fn network(&self) -> (r: &str)
        ensures
            r@ == self@.network,
    {
        self.network.as_str()
    }

    /// False when attached to a chain we do not control. A scenario that
    /// mines unconditionally is a scenario that cannot run against a real
    /// chain, so this is worth asserting rather than discovering.
    pub fn can_mine(&self) -> (r: bool)
        ensures
            r == self@.owned,
    {
        self.owned
    }

    /// Where the daemon's RPC port is reached from this machine.
    pub fn rpc_host(&self) -> (r: &'static str)
        ensures
            r@ == "127.0.0.1"@,
    {
        "127.0.0.1"
    }

    pub fn rpc_port(&self) -> (r: u16)
        ensures
            r == self@.rpc_port,
    {
        self.rpc_port
    }

    pub fn rpc_user(&self) -> (r: &str)
        ensures
            r@ == self@.rpc_user,
    {
        self.rpc_user.as_str()
    }

    pub fn rpc_password(&self) -> (r: &str)
        ensures
            r@ == self@.rpc_password,
    {
        self.rpc_password.as_str()
    }

    /// Full RPC URL including the http:// scheme.
    pub fn rpc_url_with_auth(&self) -> (r: String)
        ensures
            r@ == "http://"@ + self@.rpc_user + ":"@ + self@.rpc_password + "@127.0.0.1:"@
                + decimal(self@.rpc_port as nat) + "/wallet/"@ + self@.wallet,
    {
        let port = decimal_text(self.rpc_port as u128);
        let mut s = cat5(
            "http://",
            self.rpc_user.as_str(),
            ":",
            self.rpc_password.as_str(),
            "@127.0.0.1:",
        );
        s.append(port.as_str());
        s.append("/wallet/");
        s.append(self.wallet.as_str());
        s
    }

    /// The request of an arbitrary JSON-RPC call.
    pub fn rpc(&self, method: &str, params: serde_json::Value) -> (r: RpcRequest)
        ensures
            r@ == self@.request(CallView { method: method@, params: json_view(params) }),
    {
        let mut body = empty_record();
        set_field(&mut body, "jsonrpc", text("1.0"));
        set_field(&mut body, "id", text("test"));
        set_field(&mut body, "method", text(method));
        set_field(&mut body, "params", params);
        RpcRequest {
            url: self.rpc_url.clone(),
            user: self.rpc_user.clone(),
            password: self.rpc_password.clone(),
            body,
        }
    }
}

/// What a reply to a call of `method` means: the result, or why there is none.
pub fn rpc_call(method: &str, reply: HttpReply) -> (r: Result<serde_json::Value, String>)
    ensures
        rpc_view(r) == rpc_result(method@, reply),
{
    match reply {
        HttpReply::Unsent(e) => Err(cat4("RPC request failed for ", method, ": ", e.as_str())),
        HttpReply::Undecodable(e) => Err(
            cat4("RPC response JSON decode failed for ", method, ": ", e.as_str()),
        ),
        HttpReply::Received { code, status, body } => {
            if !(200 <= code && code < 300) {
                let shown = render(&body);
                let mut e = cat5(
                    "RPC HTTP status error for ",
                    method,
                    ": ",
                    status.as_str(),
                    ", body: ",
                );
                e.append(shown.as_str());
                Err(e)
            } else {
                let error = field(&body, "error");
                if !error.is_null() {
                    let shown = render(error);
                    Err(cat4("RPC returned error for ", method, ": ", shown.as_str()))
                } else {
                    Ok(field(&body, "result").clone())
                }
            }
        },
    }
}

/// A reply gives a result only where the daemon was reached, said so in its
/// status, and reported no error.
pub proof fn rpc_succeeds_only_without_error(method: Seq<char>, reply: HttpReply)
    ensures
        rpc_result(method, reply) is Ok <==> (reply matches HttpReply::Received { code, body, .. }
            && 200 <= code < 300 && json_view(body).field("error"@) == JsonView::Null),
{
}

// ---------------------------------------------------------------------------
// The calls that scenarios make
// ---------------------------------------------------------------------------

/// A JSON-RPC call.
pub struct RpcCall {
    pub method: String,
    pub params: serde_json::Value,
}

/// What an [`RpcCall`] holds.
pub struct CallView {
    pub method: Seq<char>,
    pub params: JsonView,
}

impl View for RpcCall {
    type V = CallView;

    open spec fn view(&self) -> CallView {
        CallView { method: self.method@, params: json_view(self.params) }
    }
}

/// A call of `method` with the items of a list.
pub open spec fn call(method: Seq<char>, params: Seq<JsonView>) -> CallView {
    CallView { method, params: JsonView::List(params) }
}

/// A call without parameters.
pub(crate) fn call0(method: &str) -> (r: RpcCall)
    ensures
        r@ == call(method@, Seq::empty()),
{
    let items: Vec<serde_json::Value> = vec![];
    assert(json_views(items@) =~= Seq::empty());
    RpcCall { method: method.to_owned(), params: list(items) }
}

/// A call with one parameter.
pub(crate) fn call1(method: &str, a: serde_json::Value) -> (r: RpcCall)
    ensures
        r@ == call(method@, seq![json_view(a)]),
{
    let items: Vec<serde_json::Value> = vec![a];
    assert(json_views(items@) =~= seq![json_view(a)]);
    RpcCall { method: method.to_owned(), params: list(items) }
}

/// A call with two parameters.
pub(crate) fn call2(method: &str, a: serde_json::Value, b: serde_json::Value) -> (r: RpcCall)
    ensures
        r@ == call(method@, seq![json_view(a), json_view(b)]),
{
    let items: Vec<serde_json::Value> = vec![a, b];
    assert(json_views(items@) =~= seq![json_view(a), json_view(b)]);
    RpcCall { method: method.to_owned(), params: list(items) }
}

/// What a caller that counts on a call is told where it failed.
pub open spec fn unmet(method: Seq<char>, cause: Seq<char>) -> Seq<char> {
    method + " RPC should succeed: "@ + quoted(cause)
}

impl BitcoindHarness {
    /// The request of a call.
    pub fn request(&self, call: RpcCall) -> (r: RpcRequest)
        ensures
            r@ == self@.request(call@),
    {
        self.rpc(call.method.as_str(), call.params)
    }

    /// The request that creates a wallet.
    pub fn create_wallet(&self, wallet: &str) -> (r: RpcRequest)
        ensures
            r@ == self@.request(call("createwallet"@, seq![JsonView::Text(wallet@)])),
    {
        self.request(call1("createwallet", text(wallet)))
    }

    /// The request for a new address.
    pub fn get_new_address(&self) -> (r: RpcRequest)
        ensures
            r@ == self@.request(call("getnewaddress"@, Seq::empty())),
    {
        self.request(call0("getnewaddress"))
    }

    /// The request that mines blocks to an address.
    pub fn mine_blocks(&self, blocks: u64, address: &str) -> (r: RpcRequest)
        ensures
            r@ == self@.request(
                call(
                    "generatetoaddress"@,
                    seq![JsonView::Int(blocks as int), JsonView::Text(address@)],
                ),
            ),
    {
        self.request(call2("generatetoaddress", number(blocks), text(address)))
    }

    /// The request that sends an amount, in coins, to an address.
    pub fn send_to_address(&self, address: &str, amount_btc: serde_json::Value) -> (r: RpcRequest)
        ensures
            r@ == self@.request(
                call("sendtoaddress"@, seq![JsonView::Text(address@), json_view(amount_btc)]),
            ),
    {
        self.request(call2("sendtoaddress", text(address), amount_btc))
    }
}

/// What a call gave whose success is counted on; the error is what to stop
/// with.
pub fn expect_success(method: &str, result: Result<serde_json::Value, String>) -> (r: Result<
    serde_json::Value,
    String,
>)
    ensures
        match result {
            Ok(v) => r matches Ok(w) && w == v,
            Err(cause) => r matches Err(e) && e@ == unmet(method@, cause@),
        },
{
    match result {
        Ok(v) => Ok(v),
        Err(cause) => {
            let shown = quote(cause.as_str());
            Err(cat3(method, " RPC should succeed: ", shown.as_str()))
        },
    }
}

/// The text that a call gave whose success is counted on; `kind` says what the
/// result should be, and the error is what to stop with.
pub fn expect_text(method: &str, kind: &str, result: Result<serde_json::Value, String>) -> (r: Result<
    String,
    String,
>)
    ensures
        match result {
            Ok(v) => match json_view(v).text() {
                Some(s) => r matches Ok(t) && t@ == s,
                None => r matches Err(e) && e@ == method@ + " result should be a "@ + kind@,
            },
            Err(cause) => r matches Err(e) && e@ == unmet(method@, cause@),
        },
{
    match expect_success(method, result) {
        Ok(v) => match v.as_str() {
            Some(s) => Ok(s.to_owned()),
            None => Err(cat3(method, " result should be a ", kind)),
        },
        Err(e) => Err(e),
    }
}

// ---------------------------------------------------------------------------
// Bringing a node up
// ---------------------------------------------------------------------------

/// A wait until a node answers: at most sixty probes, with a pause after each
/// that failed. A node that we started is then given its wallet.
pub enum Readiness<T> {
    /// Probe the node; this many probes have failed.
    Probe(u8),
    /// Pause; this many probes have failed.
    Pause(u8),
    /// It answered: create its wallet.
    Wallet,
    Ready,
    GaveUp(T),
}

/// What bringing a node up asks for.
pub enum ReadyAsk {
    Call(RpcCall),
    SleepMillis(u64),
    Nothing,
}

/// What came of it.
pub enum ReadyEvent {
    /// What the call gave.
    Called(Result<serde_json::Value, String>),
    Slept,
}

impl View for Readiness<String> {
    type V = Readiness<Seq<char>>;

    open spec fn view(&self) -> Readiness<Seq<char>> {
        match *self {
            Readiness::Probe(n) => Readiness::Probe(n),
            Readiness::Pause(n) => Readiness::Pause(n),
            Readiness::Wallet => Readiness::Wallet,
            Readiness::Ready => Readiness::Ready,
            Readiness::GaveUp(s) => Readiness::GaveUp(s@),
        }
    }
}

/// What a wait that found no node reports.
pub open spec fn not_ready(chain: ChainView) -> Seq<char> {
    chain.label + " RPC at "@ + chain.rpc_url
        + " did not become ready in time — is the node running, and are the credentials right?"@
}

/// Whether `ask` is what bringing a node up asks for.
pub open spec fn ready_asks(state: Readiness<Seq<char>>, chain: ChainView, ask: ReadyAsk) -> bool {
    match state {
        Readiness::Probe(_) => ask matches ReadyAsk::Call(c) && c@ == call(
            "getblockchaininfo"@,
            Seq::empty(),
        ),
        Readiness::Pause(_) => ask == ReadyAsk::SleepMillis(250),
        Readiness::Wallet => ask matches ReadyAsk::Call(c) && c@ == call(
            "createwallet"@,
            seq![JsonView::Text(chain.wallet)],
        ),
        Readiness::Ready | Readiness::GaveUp(_) => ask is Nothing,
    }
}

impl Readiness<Seq<char>> {
    /// The state after `event`. What was not asked for changes nothing.
    pub open spec fn after(self, chain: ChainView, event: ReadyEvent) -> Readiness<Seq<char>> {
        match (self, event) {
            (Readiness::Probe(failed), ReadyEvent::Called(r)) => if r is Ok {
                if chain.owned {
                    Readiness::Wallet
                } else {
                    Readiness::Ready
                }
            } else {
                Readiness::Pause(
                    if failed < 60 {
                        (failed + 1) as u8
                    } else {
                        failed
                    },
                )
            },
            (Readiness::Pause(failed), ReadyEvent::Slept) => if failed < 60 {
                Readiness::Probe(failed)
            } else {
                Readiness::GaveUp(not_ready(chain))
            },
            (Readiness::Wallet, ReadyEvent::Called(r)) => match rpc_view(r) {
                Ok(_) => Readiness::Ready,
                Err(cause) => Readiness::GaveUp(unmet("createwallet"@, cause)),
            },
            _ => self,
        }
    }
}

impl Readiness<String> {
    /// No probe has been made.
    pub fn begin() -> (r: Readiness<String>)
        ensures
            r@ == Readiness::<Seq<char>>::Probe(0),
    {
        Readiness::Probe(0)
    }

    /// What bringing the node up asks for.
    pub fn ask(&self, chain: &BitcoindHarness) -> (r: ReadyAsk)
        ensures
            ready_asks(self@, chain@, r),
    {
        match self {
            Readiness::Probe(_) => ReadyAsk::Call(call0("getblockchaininfo")),
            Readiness::Pause(_) => ReadyAsk::SleepMillis(250),
            Readiness::Wallet => ReadyAsk::Call(
                call1("createwallet", text(chain.wallet.as_str())),
            ),
            Readiness::Ready => ReadyAsk::Nothing,
            Readiness::GaveUp(_) => ReadyAsk::Nothing,
        }
    }

    /// Takes what came of it.
    pub fn step(self, chain: &BitcoindHarness, event: ReadyEvent) -> (r: Readiness<String>)
        ensures
            r@ == self@.after(chain@, event),
    {
        match (self, event) {
            (Readiness::Probe(failed), ReadyEvent::Called(result)) => match result {
                Ok(_) => if chain.owned {
                    Readiness::Wallet
                } else {
                    Readiness::Ready
                },
                Err(_) => if failed < 60 {
                    Readiness::Pause(failed + 1)
                } else {
                    Readiness::Pause(failed)
                },
            },
            (Readiness::Pause(failed), ReadyEvent::Slept) => if failed < 60 {
                Readiness::Probe(failed)
            } else {
                Readiness::GaveUp(
                    cat4(
                        chain.label.as_str(),
                        " RPC at ",
                        chain.rpc_url.as_str(),
                        " did not become ready in time — is the node running, and are the credentials right?",
                    ),
                )
            },
            (Readiness::Wallet, ReadyEvent::Called(result)) => match expect_success(
                "createwallet",
                result,
            ) {
                Ok(_) => Readiness::Ready,
                Err(e) => Readiness::GaveUp(e),
            },
            (state, _) => state,
        }
    }
}

/// The state after each of the first `n` probes failed with `failure` and was
/// followed by its pause.
pub open spec fn after_failed_probes(chain: ChainView, failure: String, n: nat) -> Readiness<
    Seq<char>,
>
    decreases n,
{
    if n == 0 {
        Readiness::Probe(0)
    } else {
        after_failed_probes(chain, failure, (n - 1) as nat).after(
            chain,
            ReadyEvent::Called(Err(failure)),
        ).after(chain, ReadyEvent::Slept)
    }
}

/// A node that does not answer is probed sixty times, no more and no fewer; the
/// first answer ends the probing.
pub proof fn readiness_probes_sixty_times(
    chain: ChainView,
    failure: String,
    answer: serde_json::Value,
    n: nat,
)
    ensures
        n < 60 ==> after_failed_probes(chain, failure, n) == Readiness::<Seq<char>>::Probe(n as u8)
            && !(after_failed_probes(chain, failure, n).after(
            chain,
            ReadyEvent::Called(Ok(answer)),
        ) is Probe),
        n == 60 ==> after_failed_probes(chain, failure, n) == Readiness::GaveUp(not_ready(chain)),
    decreases n,
{
    if 0 < n <= 60 {
        readiness_probes_sixty_times(chain, failure, answer, (n - 1) as nat);
    }
}

/// Where bringing a node up stands after these events.
pub open spec fn brought(chain: ChainView, events: Seq<ReadyEvent>) -> Readiness<Seq<char>>
    decreases events.len(),
{
    if events.len() == 0 {
        Readiness::Probe(0)
    } else {
        brought(chain, events.drop_last()).after(chain, events.last())
    }
}

/// How many calls that create the wallet were made and came back.
pub open spec fn wallet_calls(chain: ChainView, events: Seq<ReadyEvent>) -> nat
    decreases events.len(),
{
    if events.len() == 0 {
        0
    } else {
        wallet_calls(chain, events.drop_last()) + (if brought(chain, events.drop_last()) is Wallet
            && events.last() is Called {
            1nat
        } else {
            0
        })
    }
}

/// How many probes were answered.
pub open spec fn answered_probes(chain: ChainView, events: Seq<ReadyEvent>) -> nat
    decreases events.len(),
{
    if events.len() == 0 {
        0
    } else {
        answered_probes(chain, events.drop_last()) + (if brought(chain, events.drop_last()) is Probe
            && (events.last() matches ReadyEvent::Called(r) && r is Ok) {
            1nat
        } else {
            0
        })
    }
}

/// A node that we started is given its wallet once, and only after it has
/// answered; on one that we did not start none is created.
pub proof fn the_wallet_is_created_once(chain: ChainView, events: Seq<ReadyEvent>)
    ensures
        wallet_calls(chain, events) <= 1,
        brought(chain, events) is Wallet ==> chain.owned && answered_probes(chain, events) == 1
            && wallet_calls(chain, events) == 0,
        brought(chain, events) is Ready ==> answered_probes(chain, events) == 1 && wallet_calls(
            chain,
            events,
        ) == (if chain.owned {
            1nat
        } else {
            0
        }),
        brought(chain, events) is Probe || brought(chain, events) is Pause ==> answered_probes(
            chain,
            events,
        ) == 0 && wallet_calls(chain, events) == 0,
    decreases events.len(),
{
    if events.len() > 0 {
        the_wallet_is_created_once(chain, events.drop_last());
    }
}

// ---------------------------------------------------------------------------
// Waiting for confirmations
// ---------------------------------------------------------------------------

/// Where a wait for confirmations stands.
pub enum ConfirmStage<T> {
    /// Has the wait taken too long?
    Clock,
    /// It has not: ask for the transaction.
    Ask,
    /// Pause before asking again.
    Pause,
    Done(Result<u64, T>),
}

/// A wait for a transaction's confirmations.
///
/// This is what replaces `mine_blocks` on a chain we do not control. It must
/// fail loudly: a scenario that carries on with an unconfirmed channel proves
/// nothing, so the timeout is an error rather than a shrug.
pub struct Confirmations<T> {
    pub txid: T,
    pub want: u64,
    pub label: T,
    pub timeout_secs: u64,
    pub timeout_nanos: u32,
    /// The last count that was seen, and -1 before any was.
    pub last_seen: i64,
    pub stage: ConfirmStage<T>,
}

/// What a step of a wait for confirmations takes.
pub enum ConfirmEvent {
    /// Nanoseconds since the wait began.
    Elapsed(u128),
    /// What the call gave.
    Called(Result<serde_json::Value, String>),
    Slept,
}

/// What a wait for confirmations asks for.
pub enum ConfirmAsk {
    /// The time since the wait began.
    Elapsed,
    Call(RpcCall),
    SleepSecs(u64),
    Nothing,
}

/// Whether `ask` is what a wait for confirmations asks for.
pub open spec fn confirm_asks(wait: Confirmations<Seq<char>>, ask: ConfirmAsk) -> bool {
    match wait.stage {
        ConfirmStage::Clock => ask is Elapsed,
        ConfirmStage::Ask => ask matches ConfirmAsk::Call(c) && c@ == call(
            "gettransaction"@,
            seq![JsonView::Text(wait.txid)],
        ),
        ConfirmStage::Pause => ask == ConfirmAsk::SleepSecs(5),
        ConfirmStage::Done(_) => ask is Nothing,
    }
}

impl View for ConfirmStage<String> {
    type V = ConfirmStage<Seq<char>>;

    open spec fn view(&self) -> ConfirmStage<Seq<char>> {
        match *self {
            ConfirmStage::Clock => ConfirmStage::Clock,
            ConfirmStage::Ask => ConfirmStage::Ask,
            ConfirmStage::Pause => ConfirmStage::Pause,
            ConfirmStage::Done(Ok(n)) => ConfirmStage::Done(Ok(n)),
            ConfirmStage::Done(Err(e)) => ConfirmStage::Done(Err(e@)),
        }
    }
}

impl View for Confirmations<String> {
    type V = Confirmations<Seq<char>>;

    open spec fn view(&self) -> Confirmations<Seq<char>> {
        Confirmations {
            txid: self.txid@,
            want: self.want,
            label: self.label@,
            timeout_secs: self.timeout_secs,
            timeout_nanos: self.timeout_nanos,
            last_seen: self.last_seen,
            stage: self.stage@,
        }
    }
}

/// The count of confirmations that a call gave, if it gave one.
pub open spec fn seen_confirmations(result: Result<JsonView, Seq<char>>) -> Option<int> {
    match result {
        Ok(v) => v.field("confirmations"@).integer(),
        Err(_) => None,
    }
}

impl Confirmations<Seq<char>> {
    /// The nanoseconds that the wait may take.
    pub open spec fn limit(self) -> nat {
        self.timeout_secs as nat * 1_000_000_000 + self.timeout_nanos as nat
    }

    /// What a wait that took too long reports.
    pub open spec fn expiry(self) -> Seq<char> {
        self.txid + " did not reach "@ + decimal(self.want as nat) + " confirmations on "@
            + self.label + " within "@ + span_text(self.timeout_secs, self.timeout_nanos)
            + " (last seen "@ + signed_decimal(self.last_seen as int) + ") — is "@ + self.label
            + " producing blocks?"@
    }

    /// The state after `event`. What was not asked for changes nothing.
    pub open spec fn after(self, event: ConfirmEvent) -> Confirmations<Seq<char>> {
        match (self.stage, event) {
            (ConfirmStage::Clock, ConfirmEvent::Elapsed(nanos)) => Confirmations {
                stage: if nanos < self.limit() {
                    ConfirmStage::Ask
                } else {
                    ConfirmStage::Done(Err(self.expiry()))
                },
                ..self
            },
            (ConfirmStage::Ask, ConfirmEvent::Called(result)) => match seen_confirmations(
                rpc_view(result),
            ) {
                Some(count) => if count >= self.want {
                    Confirmations { stage: ConfirmStage::Done(Ok(count as u64)), ..self }
                } else {
                    Confirmations { stage: ConfirmStage::Pause, last_seen: count as i64, ..self }
                },
                None => Confirmations { stage: ConfirmStage::Pause, ..self },
            },
            (ConfirmStage::Pause, ConfirmEvent::Slept) => Confirmations {
                stage: ConfirmStage::Clock,
                ..self
            },
            _ => self,
        }
    }
}

impl Confirmations<String> {
    /// The call that a wait makes.
    pub fn query(&self) -> (r: RpcCall)
        ensures
            r@ == call("gettransaction"@, seq![JsonView::Text(self@.txid)]),
    {
        call1("gettransaction", text(self.txid.as_str()))
    }

    /// What the wait asks for.
    pub fn ask(&self) -> (r: ConfirmAsk)
        ensures
            confirm_asks(self@, r),
    {
        match &self.stage {
            ConfirmStage::Clock => ConfirmAsk::Elapsed,
            ConfirmStage::Ask => ConfirmAsk::Call(self.query()),
            ConfirmStage::Pause => ConfirmAsk::SleepSecs(5),
            ConfirmStage::Done(_) => ConfirmAsk::Nothing,
        }
    }

    fn expired(&self) -> (r: String)
        requires
            self.timeout_nanos < 1_000_000_000,
        ensures
            r@ == self@.expiry(),
    {
        let want = decimal_text(self.want as u128);
        let span = span_debug(self.timeout_secs, self.timeout_nanos);
        let seen = signed_text(self.last_seen);
        let mut s = cat5(
            self.txid.as_str(),
            " did not reach ",
            want.as_str(),
            " confirmations on ",
            self.label.as_str(),
        );
        s.append(" within ");
        s.append(span.as_str());
        s.append(" (last seen ");
        s.append(seen.as_str());
        s.append(") — is ");
        s.append(self.label.as_str());
        s.append(" producing blocks?");
        s
    }

    /// Takes what was asked for.
    pub fn step(self, event: ConfirmEvent) -> (r: Confirmations<String>)
        requires
            self.timeout_nanos < 1_000_000_000,
        ensures
            r@ == self@.after(event),
            r.timeout_nanos < 1_000_000_000,
    {
        match event {
            ConfirmEvent::Elapsed(nanos) => match self.stage {
                ConfirmStage::Clock => {
                    let limit: u128 = (self.timeout_secs as u128) * 1_000_000_000 + (
                    self.timeout_nanos as u128);
                    if nanos < limit {
                        Confirmations { stage: ConfirmStage::Ask, ..self }
                    } else {
                        let e = self.expired();
                        Confirmations { stage: ConfirmStage::Done(Err(e)), ..self }
                    }
                },
                _ => self,
            },
            ConfirmEvent::Called(result) => match self.stage {
                ConfirmStage::Ask => {
                    let seen = match result {
                        Ok(v) => field(&v, "confirmations").as_i64(),
                        Err(_) => None,
                    };
                    match seen {
                        Some(count) => if count >= 0 && count as u64 >= self.want {
                            Confirmations { stage: ConfirmStage::Done(Ok(count as u64)), ..self }
                        } else {
                            Confirmations { stage: ConfirmStage::Pause, last_seen: count, ..self }
                        },
                        None => Confirmations { stage: ConfirmStage::Pause, ..self },
                    }
                },
                _ => self,
            },
            ConfirmEvent::Slept => match self.stage {
                ConfirmStage::Pause => Confirmations { stage: ConfirmStage::Clock, ..self },
                _ => self,
            },
        }
    }
}

impl BitcoindHarness {
    /// Wait for `txid` to reach `want` confirmations on this chain.
    pub fn wait_for_confirmations(
        &self,
        txid: &str,
        want: u64,
        timeout_secs: u64,
        timeout_nanos: u32,
    ) -> (r: Confirmations<String>)
        requires
            timeout_nanos < 1_000_000_000,
        ensures
            r@ == (Confirmations::<Seq<char>> {
                txid: txid@,
                want,
                label: self@.label,
                timeout_secs,
                timeout_nanos,
                last_seen: (-1) as i64,
                stage: ConfirmStage::Clock,
            }),
            r.timeout_nanos < 1_000_000_000,
    {
        Confirmations {
            txid: txid.to_owned(),
            want,
            label: self.label.clone(),
            timeout_secs,
            timeout_nanos,
            last_seen: -1,
            stage: ConfirmStage::Clock,
        }
    }
}

/// A wait ends well only on a count, seen in a reply, that is what was wanted
/// or more; it ends badly only when its time is up, and then says which chain
/// stalled and what was last seen.
pub proof fn confirmations_are_never_made_up(
    before: Confirmations<Seq<char>>,
    event: ConfirmEvent,
)
    requires
        !(before.stage is Done),
        before.after(event).stage is Done,
    ensures
        match before.after(event).stage {
            ConfirmStage::Done(Ok(count)) => count >= before.want && (event matches
                ConfirmEvent::Called(result) && seen_confirmations(rpc_view(result)) == Some(
                count as int,
            )),
            ConfirmStage::Done(Err(e)) => e == before.expiry() && (event matches
                ConfirmEvent::Elapsed(nanos) && nanos >= before.limit()),
            _ => false,
        },
{
}

/// One round of a wait: what the clock shows decides whether the transaction is
/// asked for at all, and the count in the reply whether that is enough. A count
/// that is at least what was wanted ends the wait with that count, however much
/// more it is; a smaller one is remembered, and the next round begins; without a
/// count nothing changes.
pub proof fn a_round_ends_on_any_count_that_is_enough(
    wait: Confirmations<Seq<char>>,
    elapsed: u128,
    reply: Result<serde_json::Value, String>,
)
    requires
        wait.stage is Clock,
    ensures
        ({
            let in_time = elapsed < wait.timeout_secs * 1_000_000_000 + wait.timeout_nanos;
            let asked = wait.after(ConfirmEvent::Elapsed(elapsed));
            let replied = asked.after(ConfirmEvent::Called(reply));
            let again = replied.after(ConfirmEvent::Slept);
            &&& asked.stage is Ask <==> in_time
            &&& !in_time ==> asked.stage == ConfirmStage::<Seq<char>>::Done(Err(wait.expiry()))
            &&& in_time ==> match reply {
                Ok(v) => match json_view(v) {
                    JsonView::Record(m) => if m.contains_key("confirmations"@) {
                        match m["confirmations"@] {
                            JsonView::Int(count) => if count > i64::MAX || count < i64::MIN {
                                again == wait
                            } else if count >= wait.want {
                                replied.stage == ConfirmStage::<Seq<char>>::Done(Ok(count as u64))
                            } else {
                                again == Confirmations { last_seen: count as i64, ..wait }
                            },
                            _ => again == wait,
                        }
                    } else {
                        again == wait
                    },
                    _ => again == wait,
                },
                Err(_) => again == wait,
            }
        }),
{
}

/// While it lasts, a wait asks for the one transaction that it is for, by its id.
pub proof fn a_wait_asks_for_its_transaction(wait: Confirmations<Seq<char>>, ask: ConfirmAsk)
    requires
        confirm_asks(wait, ask),
    ensures
        ask matches ConfirmAsk::Call(c) ==> {
            &&& c@.method == "gettransaction"@
            &&& c@.params.items() == Some(seq![JsonView::Text(wait.txid)])
            &&& wait.stage is Ask
        },
        ask is Nothing <==> wait.stage is Done,
        ask matches ConfirmAsk::SleepSecs(n) ==> 0 < n <= 5 && wait.stage is Pause,
{
}

/// What a daemon that we launch is told and what it is then asked with agree: its
/// user and its password are those of its arguments, it listens to every host on
/// the port that is exposed, and it runs on the network that the nodes are told.
pub proof fn a_launched_daemon_knows_its_user(
    image: Seq<char>,
    tag: Seq<char>,
    extra: Seq<Seq<char>>,
    harness: ChainView,
)
    requires
        harness.rpc_user == "rpcuser"@,
        harness.rpc_password == "rpcpass"@,
    ensures
        ({
            let plan = launch(image, tag, extra);
            &&& plan.cmd.contains("-rpcuser="@ + harness.rpc_user)
            &&& plan.cmd.contains("-rpcpassword="@ + harness.rpc_password)
            &&& plan.cmd.contains("-regtest=1"@)
            &&& plan.cmd.contains("-server=1"@)
            &&& plan.cmd.contains("-txindex=1"@)
            &&& plan.cmd.contains("-rpcbind=0.0.0.0"@)
            &&& plan.cmd.contains("-rpcallowip=0.0.0.0/0"@)
            &&& forall|i: int|
                0 <= i < extra.len() ==> #[trigger] plan.cmd[plan.cmd.len() - extra.len() + i]
                    == extra[i]
            &&& plan.image == image && plan.tag == tag
        }),
{
    let plan = launch(image, tag, extra);
    reveal_strlit("-rpcuser=");
    reveal_strlit("rpcuser");
    reveal_strlit("-rpcuser=rpcuser");
    reveal_strlit("-rpcpassword=");
    reveal_strlit("rpcpass");
    reveal_strlit("-rpcpassword=rpcpass");
    assert("-rpcuser="@ + "rpcuser"@ =~= "-rpcuser=rpcuser"@);
    assert("-rpcpassword="@ + "rpcpass"@ =~= "-rpcpassword=rpcpass"@);
    assert(plan.cmd[0] == "-regtest=1"@);
    assert(plan.cmd[1] == "-server=1"@);
    assert(plan.cmd[2] == "-txindex=1"@);
    assert(plan.cmd[5] == "-rpcbind=0.0.0.0"@);
    assert(plan.cmd[6] == "-rpcallowip=0.0.0.0/0"@);
    assert(plan.cmd[7] == "-rpcuser=rpcuser"@);
    assert(plan.cmd[8] == "-rpcpassword=rpcpass"@);
}

/// A call that succeeds gives what the daemon gave as its result, and nothing
/// else.
pub proof fn a_successful_call_gives_the_result(
    method: Seq<char>,
    status: String,
    code: u16,
    body: serde_json::Value,
    members: Map<Seq<char>, JsonView>,
)
    requires
        200 <= code < 300,
        json_view(body) == JsonView::Record(members),
        !members.contains_key("error"@) || members["error"@] == JsonView::Null,
    ensures
        members.contains_key("result"@) ==> rpc_result(
            method,
            HttpReply::Received { code, status, body },
        ) == Ok::<JsonView, Seq<char>>(members["result"@]),
        !members.contains_key("result"@) ==> rpc_result(
            method,
            HttpReply::Received { code, status, body },
        ) == Ok::<JsonView, Seq<char>>(JsonView::Null),
{
}

/// A request goes to the chain that it is made of, as that chain's user, and says
/// the method and the parameters of the call.
pub proof fn a_request_carries_its_call(chain: ChainView, c: CallView)
    ensures
        ({
            let r = chain.request(c);
            &&& r.url == chain.rpc_url && r.user == chain.rpc_user && r.password
                == chain.rpc_password
            &&& r.body.field("method"@).text() == Some(c.method)
            &&& r.body.field("params"@) == c.params
            &&& r.body.field("jsonrpc"@).text() == Some("1.0"@)
        }),
{
    reveal_strlit("jsonrpc");
    reveal_strlit("id");
    reveal_strlit("method");
    reveal_strlit("params");
    assert("jsonrpc"@.len() == 7);
    assert("method"@[0] != "params"@[0]);
    assert("id"@.len() == 2);
}

/// The wallet is created by the one call that is made when the node has answered,
/// and by no other: every call before it asks whether the node is there.
pub proof fn bringing_up_asks_for_the_node_and_then_the_wallet(
    state: Readiness<Seq<char>>,
    chain: ChainView,
    ask: ReadyAsk,
)
    requires
        ready_asks(state, chain, ask),
    ensures
        ask matches ReadyAsk::Call(c) ==> {
            &&& (c@.method == "createwallet"@ && c@.params.items() == Some(
                seq![JsonView::Text(chain.wallet)],
            )) <==> state is Wallet
            &&& (c@.method == "getblockchaininfo"@ && c@.params.items() == Some(
                Seq::<JsonView>::empty(),
            )) <==> state is Probe
        },
        ask is Nothing <==> state is Ready || state is GaveUp,
        ask is SleepMillis <==> state is Pause,
{
    reveal_strlit("createwallet");
    reveal_strlit("getblockchaininfo");
    assert("createwallet"@[0] != "getblockchaininfo"@[0]);
}

} // verus!
