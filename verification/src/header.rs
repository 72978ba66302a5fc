//! Block headers: which format a block has, and where a transaction is.
//!
//! A v2 header is 164 bytes long and has bit 31 of its version set; a v1 header
//! is 80 bytes long and has not. A node reports the format too, so that the
//! bytes and the report can be held against each other.

use vstd::prelude::*;
use vstd::string::StringExecFns;
use vstd::utf8::encode_utf8;
use crate::bitcoind::{call, call0, call1, call2, rpc_view, CallView, RpcCall};
use crate::codec::{decode_hex, encode_hex, hex_bytes, hex_refusal, hex_text};
use crate::json::{boolean, field, json_view, number, text, JsonView};
use crate::outcome::unit_view;
use crate::text::{cat2, cat3, cat4, cat5, decimal, decimal_text};

verus! {

/// The number that a node reports for a format: 2 for v2, and 0 for v1.
pub open spec fn reported_for(want: u64) -> int {
    if want == 2 {
        2
    } else {
        0
    }
}

/// How many bytes a header of a format has.
pub open spec fn length_of(want: u64) -> int {
    if want == 2 {
        164
    } else {
        80
    }
}

/// What a node reports as the format of a header: a node that predates the
/// field omits it, which means v1.
pub open spec fn reported_version(verbose: JsonView) -> int {
    match verbose.field("header_version"@).natural() {
        Some(n) => n,
        None => 0,
    }
}

/// Bit 31 of the version that a header's first four bytes hold, low byte first.
pub open spec fn version_bit31(raw: Seq<u8>) -> bool {
    raw[3] >= 128
}

/// The version that a header's first four bytes hold, in hexadecimal.
pub open spec fn version_text(raw: Seq<u8>) -> Seq<char> {
    "0x"@ + hex_text(seq![raw[3], raw[2], raw[1], raw[0]])
}

/// Whether the report and the bytes both say that a header has a format.
pub open spec fn has_format(want: u64, reported: int, raw: Seq<u8>) -> bool {
    &&& reported == reported_for(want)
    &&& raw.len() == length_of(want)
    &&& version_bit31(raw) == (want == 2)
}

/// Where a check of a header stands. `J` is a JSON value.
pub enum HeaderStage<T, J> {
    /// Ask for the hash of the block.
    Hash,
    /// Ask for what the node reports of it.
    Report { hash: J },
    /// Ask for its bytes.
    Bytes { hash: J, reported: u64 },
    Done(Result<(), T>),
}

/// A check that a block's header has a format, from the raw serialization and
/// from the field the RPC reports, so the two cross-check.
pub struct HeaderCheck<T, J> {
    pub height: u64,
    pub want: u64,
    pub stage: HeaderStage<T, J>,
}

impl View for HeaderStage<String, serde_json::Value> {
    type V = HeaderStage<Seq<char>, JsonView>;

    open spec fn view(&self) -> HeaderStage<Seq<char>, JsonView> {
        match *self {
            HeaderStage::Hash => HeaderStage::Hash,
            HeaderStage::Report { hash } => HeaderStage::Report { hash: json_view(hash) },
            HeaderStage::Bytes { hash, reported } => HeaderStage::Bytes {
                hash: json_view(hash),
                reported,
            },
            HeaderStage::Done(r) => HeaderStage::Done(unit_view(r)),
        }
    }
}

impl View for HeaderCheck<String, serde_json::Value> {
    type V = HeaderCheck<Seq<char>, JsonView>;

    open spec fn view(&self) -> HeaderCheck<Seq<char>, JsonView> {
        HeaderCheck { height: self.height, want: self.want, stage: self.stage@ }
    }
}

impl HeaderCheck<Seq<char>, JsonView> {
    /// The check of a block at its beginning.
    pub open spec fn begun(height: u64, want: u64) -> HeaderCheck<Seq<char>, JsonView> {
        HeaderCheck { height, want, stage: HeaderStage::Hash }
    }

    /// The call to make next, until the check is done.
    pub open spec fn asks(self) -> Option<CallView> {
        match self.stage {
            HeaderStage::Hash => Some(
                call("getblockhash"@, seq![JsonView::Int(self.height as int)]),
            ),
            HeaderStage::Report { hash } => Some(call("getblockheader"@, seq![hash])),
            HeaderStage::Bytes { hash, .. } => Some(
                call("getblockheader"@, seq![hash, JsonView::Bool(false)]),
            ),
            HeaderStage::Done(_) => None,
        }
    }

    /// What the bytes that a node gave say, after it reported `reported`.
    pub open spec fn judge(self, reported: u64, raw: JsonView) -> Result<(), Seq<char>> {
        let at = "height "@ + decimal(self.height as nat);
        match raw.text() {
            None => Err("header not a string"@),
            Some(digits) => match hex_bytes(encode_utf8(digits)) {
                None => Err(hex_refusal(encode_utf8(digits))),
                Some(bytes) => if bytes.len() != length_of(self.want) {
                    Err(
                        at + ": header is "@ + decimal(bytes.len()) + " bytes, expected "@
                            + decimal(length_of(self.want) as nat),
                    )
                } else if version_bit31(bytes) != (self.want == 2) {
                    Err(
                        at + ": nVersion is "@ + version_text(bytes)
                            + ", which disagrees with header_version "@ + decimal(
                            reported as nat,
                        ),
                    )
                } else {
                    Ok(())
                },
            },
        }
    }

    /// The state after the call gave `result`.
    pub open spec fn after(self, result: Result<JsonView, Seq<char>>) -> HeaderCheck<
        Seq<char>,
        JsonView,
    > {
        let number = decimal(self.height as nat);
        let stage = match (self.stage, result) {
            (HeaderStage::Hash, Ok(hash)) => HeaderStage::Report { hash },
            (HeaderStage::Hash, Err(e)) => HeaderStage::Done(
                Err("getblockhash("@ + number + ") failed: "@ + e),
            ),
            (HeaderStage::Report { hash }, Ok(verbose)) => {
                let reported = reported_version(verbose);
                if reported == reported_for(self.want) {
                    HeaderStage::Bytes { hash, reported: reported as u64 }
                } else {
                    HeaderStage::Done(
                        Err(
                            "height "@ + number + ": header_version is "@ + decimal(
                                reported as nat,
                            ) + ", expected "@ + decimal(reported_for(self.want) as nat) + " (v"@
                                + decimal(self.want as nat) + ")"@,
                        ),
                    )
                }
            },
            (HeaderStage::Report { .. }, Err(e)) => HeaderStage::Done(
                Err("getblockheader("@ + number + ") failed: "@ + e),
            ),
            (HeaderStage::Bytes { reported, .. }, Ok(raw)) => HeaderStage::Done(
                self.judge(reported, raw),
            ),
            (HeaderStage::Bytes { .. }, Err(e)) => HeaderStage::Done(
                Err("getblockheader("@ + number + ", false) failed: "@ + e),
            ),
            (HeaderStage::Done(r), _) => HeaderStage::Done(r),
        };
        HeaderCheck { stage, ..self }
    }

    /// The check is done and the header has the format.
    pub open spec fn passed(self) -> bool {
        self.stage matches HeaderStage::Done(r) && r is Ok
    }
}

impl HeaderCheck<String, serde_json::Value> {
    /// Begins to check that the block at `height` has the format `want`.
    pub fn assert_header(height: u64, want: u64) -> (r: HeaderCheck<String, serde_json::Value>)
        ensures
            r@ == HeaderCheck::<Seq<char>, JsonView>::begun(height, want),
    {
        HeaderCheck { height, want, stage: HeaderStage::Hash }
    }

    /// The call to make next, until the check is done.
    pub fn ask(&self) -> (r: Option<RpcCall>)
        ensures
            match r {
                Some(c) => self@.asks() == Some(c@),
                None => self@.asks() is None,
            },
    {
        match &self.stage {
            HeaderStage::Hash => Some(call1("getblockhash", number(self.height))),
            HeaderStage::Report { hash } => Some(call1("getblockheader", hash.clone())),
            HeaderStage::Bytes { hash, .. } => Some(
                call2("getblockheader", hash.clone(), boolean(false)),
            ),
            HeaderStage::Done(_) => None,
        }
    }

    fn judged(&self, reported: u64, raw: &serde_json::Value) -> (r: Result<(), String>)
        ensures
            unit_view(r) == self@.judge(reported, json_view(*raw)),
    {
        let height = decimal_text(self.height as u128);
        let digits = match raw.as_str() {
            None => return Err("header not a string".to_owned()),
            Some(digits) => digits,
        };
        let bytes = match decode_hex(digits) {
            Err(e) => return Err(e),
            Ok(bytes) => bytes,
        };
        let want_len: usize = if self.want == 2 {
            164
        } else {
            80
        };
        if bytes.len() != want_len {
            let found = decimal_text(bytes.len() as u128);
            let wanted = decimal_text(want_len as u128);
            let mut e = cat5(
                "height ",
                height.as_str(),
                ": header is ",
                found.as_str(),
                " bytes, expected ",
            );
            e.append(wanted.as_str());
            return Err(e);
        }
        let bit31 = bytes[3] >= 128;
        if bit31 != (self.want == 2) {
            let high_first = vec![bytes[3], bytes[2], bytes[1], bytes[0]];
            assert(high_first@ =~= seq![bytes@[3], bytes@[2], bytes@[1], bytes@[0]]);
            let digits = encode_hex(high_first.as_slice());
            let version = cat2("0x", digits.as_str());
            let reported = decimal_text(reported as u128);
            let mut e = cat4("height ", height.as_str(), ": nVersion is ", version.as_str());
            e.append(", which disagrees with header_version ");
            e.append(reported.as_str());
            return Err(e);
        }
        Ok(())
    }

    /// Takes what the call gave.
    pub fn step(self, result: Result<serde_json::Value, String>) -> (r: HeaderCheck<
        String,
        serde_json::Value,
    >)
        ensures
            r@ == self@.after(rpc_view(result)),
    {
        let height = decimal_text(self.height as u128);
        match self.stage {
            HeaderStage::Hash => match result {
                Ok(hash) => HeaderCheck { stage: HeaderStage::Report { hash }, ..self },
                Err(e) => HeaderCheck {
                    stage: HeaderStage::Done(
                        Err(cat4("getblockhash(", height.as_str(), ") failed: ", e.as_str())),
                    ),
                    ..self
                },
            },
            HeaderStage::Report { hash } => match result {
                Ok(verbose) => {
                    let reported: u64 = match field(&verbose, "header_version").as_u64() {
                        Some(n) => n,
                        None => 0,
                    };
                    let expected: u64 = if self.want == 2 {
                        2
                    } else {
                        0
                    };
                    if reported == expected {
                        HeaderCheck { stage: HeaderStage::Bytes { hash, reported }, ..self }
                    } else {
                        let found = decimal_text(reported as u128);
                        let wanted = decimal_text(expected as u128);
                        let want = decimal_text(self.want as u128);
                        let mut e = cat5(
                            "height ",
                            height.as_str(),
                            ": header_version is ",
                            found.as_str(),
                            ", expected ",
                        );
                        e.append(wanted.as_str());
                        e.append(" (v");
                        e.append(want.as_str());
                        e.append(")");
                        HeaderCheck { stage: HeaderStage::Done(Err(e)), ..self }
                    }
                },
                Err(e) => HeaderCheck {
                    stage: HeaderStage::Done(
                        Err(cat4("getblockheader(", height.as_str(), ") failed: ", e.as_str())),
                    ),
                    ..self
                },
            },
            HeaderStage::Bytes { reported, hash } => match result {
                Ok(raw) => {
                    let blank = HeaderCheck {
                        height: self.height,
                        want: self.want,
                        stage: HeaderStage::Hash,
                    };
                    let verdict = blank.judged(reported, &raw);
                    HeaderCheck { stage: HeaderStage::Done(verdict), ..self }
                },
                Err(e) => HeaderCheck {
                    stage: HeaderStage::Done(
                        Err(
                            cat4(
                                "getblockheader(",
                                height.as_str(),
                                ", false) failed: ",
                                e.as_str(),
                            ),
                        ),
                    ),
                    ..self
                },
            },
            HeaderStage::Done(r) => HeaderCheck { stage: HeaderStage::Done(r), ..self },
        }
    }
}

/// Whether a node gave a block's hash, its report and its bytes, and the report
/// and the bytes both say that the header has a format.
pub open spec fn serves_format(
    want: u64,
    hash: Result<JsonView, Seq<char>>,
    verbose: Result<JsonView, Seq<char>>,
    raw: Result<JsonView, Seq<char>>,
) -> bool {
    &&& hash is Ok
    &&& verbose is Ok
    &&& raw is Ok
    &&& raw->Ok_0.text() is Some
    &&& hex_bytes(encode_utf8(raw->Ok_0.text()->0)) is Some
    &&& has_format(
        want,
        reported_version(verbose->Ok_0),
        hex_bytes(encode_utf8(raw->Ok_0.text()->0))->0,
    )
}

/// The check of a block after its three calls.
pub open spec fn after_calls(
    height: u64,
    want: u64,
    hash: Result<JsonView, Seq<char>>,
    verbose: Result<JsonView, Seq<char>>,
    raw: Result<JsonView, Seq<char>>,
) -> HeaderCheck<Seq<char>, JsonView> {
    HeaderCheck::<Seq<char>, JsonView>::begun(height, want).after(hash).after(verbose).after(raw)
}

/// A check passes exactly when its three calls succeed and the report and the
/// bytes both say the format that was wanted.
pub proof fn header_check_cross_checks(
    height: u64,
    want: u64,
    hash: Result<JsonView, Seq<char>>,
    verbose: Result<JsonView, Seq<char>>,
    raw: Result<JsonView, Seq<char>>,
)
    ensures
        after_calls(height, want, hash, verbose, raw).passed() <==> serves_format(
            want,
            hash,
            verbose,
            raw,
        ),
        after_calls(height, want, hash, verbose, raw).height == height,
        after_calls(height, want, hash, verbose, raw).want == want,
{
}

/// On a chain whose blocks have v1 headers below an activation height and v2
/// headers from there on, a check for v1 passes exactly below that height and
/// one for v2 exactly from there on: the block at that height is v2.
pub proof fn headers_change_at_the_activation(
    activation: u64,
    height: u64,
    hash: Result<JsonView, Seq<char>>,
    verbose: Result<JsonView, Seq<char>>,
    raw: Result<JsonView, Seq<char>>,
)
    requires
        serves_format(
            if height < activation {
                1
            } else {
                2
            },
            hash,
            verbose,
            raw,
        ),
    ensures
        after_calls(height, 1, hash, verbose, raw).passed() <==> height < activation,
        after_calls(height, 2, hash, verbose, raw).passed() <==> height >= activation,
{
    header_check_cross_checks(height, 1, hash, verbose, raw);
    header_check_cross_checks(height, 2, hash, verbose, raw);
}

/// No header has both formats: bytes that pass for one do not pass for the
/// other, whatever is reported.
pub proof fn formats_exclude_each_other(raw: Seq<u8>, reported: int)
    ensures
        !(has_format(1, reported, raw) && has_format(2, reported, raw)),
{
}

// ---------------------------------------------------------------------------
// Heights
// ---------------------------------------------------------------------------

/// The view of a number or the text of an error.
pub open spec fn number_view(r: Result<u64, String>) -> Result<int, Seq<char>> {
    match r {
        Ok(n) => Ok(n as int),
        Err(e) => Err(e@),
    }
}

/// A number that a call gave under the name `method`, or why it gave none.
pub open spec fn number_from(
    method: Seq<char>,
    absent: Seq<char>,
    result: Result<JsonView, Seq<char>>,
) -> Result<int, Seq<char>> {
    match result {
        Err(e) => Err(method + " failed: "@ + e),
        Ok(v) => match v.natural() {
            Some(n) => Ok(n),
            None => Err(absent),
        },
    }
}

fn read_number(method: &str, absent: &str, result: Result<&serde_json::Value, String>) -> (r: Result<
    u64,
    String,
>)
    ensures
        number_view(r) == number_from(
            method@,
            absent@,
            match result {
                Ok(v) => Ok(json_view(*v)),
                Err(e) => Err(e@),
            },
        ),
{
    match result {
        Err(e) => Err(cat3(method, " failed: ", e.as_str())),
        Ok(v) => match v.as_u64() {
            Some(n) => Ok(n),
            None => Err(absent.to_owned()),
        },
    }
}

/// The call for the height of a chain's tip.
pub fn block_count_call() -> (r: RpcCall)
    ensures
        r@ == call("getblockcount"@, Seq::empty()),
{
    call0("getblockcount")
}

/// The height that `getblockcount` gave.
pub fn block_count(result: Result<serde_json::Value, String>) -> (r: Result<u64, String>)
    ensures
        number_view(r) == number_from(
            "getblockcount"@,
            "getblockcount did not return a number"@,
            rpc_view(result),
        ),
{
    match result {
        Ok(v) => read_number("getblockcount", "getblockcount did not return a number", Ok(&v)),
        Err(e) => read_number("getblockcount", "getblockcount did not return a number", Err(e)),
    }
}

/// The call for what a node knows of its chain.
pub fn chain_info_call() -> (r: RpcCall)
    ensures
        r@ == call("getblockchaininfo"@, Seq::empty()),
{
    call0("getblockchaininfo")
}

/// The height that `getblockchaininfo` gave.
pub fn chain_info_height(result: Result<serde_json::Value, String>) -> (r: Result<u64, String>)
    ensures
        number_view(r) == number_from(
            "getblockchaininfo"@,
            "blocks missing"@,
            match rpc_view(result) {
                Ok(v) => Ok(v.field("blocks"@)),
                Err(e) => Err(e),
            },
        ),
{
    match result {
        Ok(v) => read_number("getblockchaininfo", "blocks missing", Ok(field(&v, "blocks"))),
        Err(e) => read_number("getblockchaininfo", "blocks missing", Err(e)),
    }
}

/// Where a search for the block of a transaction stands.
pub enum TxHeight<T> {
    /// Ask for the transaction.
    Transaction { txid: T },
    /// Ask for the header of the block that it is in.
    Block { hash: T },
    Done(Result<u64, T>),
}

impl View for TxHeight<String> {
    type V = TxHeight<Seq<char>>;

    open spec fn view(&self) -> TxHeight<Seq<char>> {
        match *self {
            TxHeight::Transaction { txid } => TxHeight::Transaction { txid: txid@ },
            TxHeight::Block { hash } => TxHeight::Block { hash: hash@ },
            TxHeight::Done(Ok(n)) => TxHeight::Done(Ok(n)),
            TxHeight::Done(Err(e)) => TxHeight::Done(Err(e@)),
        }
    }
}

impl TxHeight<Seq<char>> {
    /// The call to make next, until the search is done.
    pub open spec fn asks(self) -> Option<CallView> {
        match self {
            TxHeight::Transaction { txid } => Some(
                call("getrawtransaction"@, seq![JsonView::Text(txid), JsonView::Bool(true)]),
            ),
            TxHeight::Block { hash } => Some(
                call("getblockheader"@, seq![JsonView::Text(hash)]),
            ),
            TxHeight::Done(_) => None,
        }
    }

    /// The state after the call gave `result`.
    pub open spec fn after(self, result: Result<JsonView, Seq<char>>) -> TxHeight<Seq<char>> {
        match (self, result) {
            (TxHeight::Transaction { txid }, Err(e)) => TxHeight::Done(
                Err("getrawtransaction("@ + txid + ") failed: "@ + e),
            ),
            (TxHeight::Transaction { .. }, Ok(tx)) => match tx.field("blockhash"@).text() {
                Some(hash) => TxHeight::Block { hash },
                None => TxHeight::Done(Err("transaction is unconfirmed"@)),
            },
            (TxHeight::Block { .. }, Err(e)) => TxHeight::Done(
                Err("getblockheader failed: "@ + e),
            ),
            (TxHeight::Block { .. }, Ok(header)) => match header.field("height"@).natural() {
                Some(n) => TxHeight::Done(Ok(n as u64)),
                None => TxHeight::Done(Err("no height in the header"@)),
            },
            (TxHeight::Done(r), _) => TxHeight::Done(r),
        }
    }
}

impl TxHeight<String> {
    /// Begins to search for the height of the block a transaction was confirmed
    /// in.
    pub fn tx_block_height(txid: &str) -> (r: TxHeight<String>)
        ensures
            r@ == (TxHeight::<Seq<char>>::Transaction { txid: txid@ }),
    {
        TxHeight::Transaction { txid: txid.to_owned() }
    }

    /// The call to make next, until the search is done.
    pub fn ask(&self) -> (r: Option<RpcCall>)
        ensures
            match r {
                Some(c) => self@.asks() == Some(c@),
                None => self@.asks() is None,
            },
    {
        match self {
            TxHeight::Transaction { txid } => Some(
                call2("getrawtransaction", text(txid.as_str()), boolean(true)),
            ),
            TxHeight::Block { hash } => Some(call1("getblockheader", text(hash.as_str()))),
            TxHeight::Done(_) => None,
        }
    }

    /// Takes what the call gave.
    pub fn step(self, result: Result<serde_json::Value, String>) -> (r: TxHeight<String>)
        ensures
            r@ == self@.after(rpc_view(result)),
    {
        match self {
            TxHeight::Transaction { txid } => match result {
                Err(e) => TxHeight::Done(
                    Err(cat4("getrawtransaction(", txid.as_str(), ") failed: ", e.as_str())),
                ),
                Ok(tx) => match field(&tx, "blockhash").as_str() {
                    Some(hash) => TxHeight::Block { hash: hash.to_owned() },
                    None => TxHeight::Done(Err("transaction is unconfirmed".to_owned())),
                },
            },
            TxHeight::Block { hash } => match result {
                Err(e) => TxHeight::Done(Err(cat2("getblockheader failed: ", e.as_str()))),
                Ok(header) => match field(&header, "height").as_u64() {
                    Some(n) => TxHeight::Done(Ok(n)),
                    None => TxHeight::Done(Err("no height in the header".to_owned())),
                },
            },
            TxHeight::Done(r) => TxHeight::Done(r),
        }
    }
}

/// A transaction's height is the one in the header of the block that the
/// transaction names, and an unconfirmed transaction has none.
pub proof fn height_is_that_of_the_named_block(
    txid: Seq<char>,
    tx: JsonView,
    header: Result<JsonView, Seq<char>>,
)
    ensures
        ({
            let found = (TxHeight::<Seq<char>>::Transaction { txid }).after(
                Ok::<JsonView, Seq<char>>(tx),
            );
            match tx.field("blockhash"@).text() {
                Some(hash) => {
                    &&& found.asks() == Some(call("getblockheader"@, seq![JsonView::Text(hash)]))
                    &&& header matches Ok(h) ==> h.field("height"@).natural() matches Some(n)
                        ==> found.after(header) == TxHeight::<Seq<char>>::Done(Ok(n as u64))
                },
                None => found == TxHeight::<Seq<char>>::Done(
                    Err("transaction is unconfirmed"@),
                ),
            }
        }),
{
}

/// A check passes exactly when the node gave the block and, for a v2 header, the
/// node reports 2, the header has 164 bytes and bit 31 of its version is set; for
/// any other the node reports 0 or nothing, the header has 80 bytes and the bit
/// is not set. The version is the number that the first four bytes make, low byte
/// first.
pub proof fn a_check_passes_on_the_version_of_the_header(
    height: u64,
    want: u64,
    hash: JsonView,
    verbose: JsonView,
    digits: Seq<char>,
    raw: Seq<u8>,
)
    requires
        hex_bytes(encode_utf8(digits)) == Some(raw),
    ensures
        ({
            let passed = after_calls(
                height,
                want,
                Ok(hash),
                Ok(verbose),
                Ok(JsonView::Text(digits)),
            ).passed();
            let version = raw[0] + 0x100 * raw[1] + 0x1_0000 * raw[2] + 0x100_0000 * raw[3];
            &&& want == 2 ==> (passed <==> verbose.field("header_version"@) == JsonView::Int(2)
                && raw.len() == 164 && version >= 0x8000_0000)
            &&& want != 2 ==> (passed <==> (verbose.field("header_version"@) == JsonView::Int(0)
                || verbose.field("header_version"@).natural() is None) && raw.len() == 80 && version
                < 0x8000_0000)
        }),
{
    header_check_cross_checks(
        height,
        want,
        Ok(hash),
        Ok(verbose),
        Ok(JsonView::Text(digits)),
    );
}

/// A check asks for one block: for the hash of the block at its height, and then
/// for the header of that very hash, once as the node reports it and once as
/// bytes. It asks for nothing more.
pub proof fn a_check_asks_for_one_block(
    height: u64,
    want: u64,
    hash: JsonView,
    verbose: JsonView,
    raw: JsonView,
)
    ensures
        ({
            let first = HeaderCheck::<Seq<char>, JsonView>::begun(height, want);
            let second = first.after(Ok(hash));
            let third = second.after(Ok(verbose));
            &&& first.asks() matches Some(c) && c.method == "getblockhash"@ && c.params
                == JsonView::List(seq![JsonView::Int(height as int)])
            &&& second.asks() matches Some(c) && c.method == "getblockheader"@ && c.params
                == JsonView::List(seq![hash])
            &&& third.asks() matches Some(c) ==> c.method == "getblockheader"@ && c.params
                == JsonView::List(seq![hash, JsonView::Bool(false)])
            &&& third.after(Ok(raw)).asks() is None
            &&& second.height == height && second.want == want && third.height == height
                && third.want == want
        }),
{
}

/// The version that a failed check shows is that of the bytes: eight digits, high
/// byte first, behind `0x`.
pub proof fn the_shown_version_is_that_of_the_bytes(raw: Seq<u8>)
    requires
        raw.len() >= 4,
    ensures
        version_text(raw).len() == 10,
        version_text(raw).take(2) == "0x"@,
        hex_bytes(crate::codec::ascii_bytes(version_text(raw).skip(2))) == Some(
            seq![raw[3], raw[2], raw[1], raw[0]],
        ),
{
    reveal_strlit("0x");
    let bytes = seq![raw[3], raw[2], raw[1], raw[0]];
    assert(version_text(raw).take(2) =~= "0x"@);
    assert(version_text(raw).skip(2) =~= hex_text(bytes));
    crate::codec::hex_reads_back(bytes);
}

/// A search asks for the transaction by its id, and then for the header of the
/// block that the transaction names; its height is what that header has.
pub proof fn a_search_follows_the_transaction(
    txid: Seq<char>,
    hash: Seq<char>,
    n: u64,
    tx: JsonView,
    header: JsonView,
)
    requires
        tx.field("blockhash"@) == JsonView::Text(hash),
        header.field("height"@) == JsonView::Int(n as int),
    ensures
        ({
            let first = TxHeight::<Seq<char>>::Transaction { txid };
            let second = first.after(Ok(tx));
            &&& first.asks() matches Some(c) && c.method == "getrawtransaction"@ && c.params
                == JsonView::List(seq![JsonView::Text(txid), JsonView::Bool(true)])
            &&& second.asks() matches Some(c) && c.method == "getblockheader"@ && c.params
                == JsonView::List(seq![JsonView::Text(hash)])
            &&& second.after(Ok(header)) == TxHeight::<Seq<char>>::Done(Ok(n))
        }),
{
}

} // verus!
