use dln_e2e_harness::codec::{decode_hex, encode_hex};
use dln_e2e_harness::header::{
    block_count, block_count_call, chain_info_call, chain_info_height, HeaderCheck, HeaderStage,
    TxHeight,
};
use serde_json::Value;

type Check = HeaderCheck<String, Value>;

fn json(text: &str) -> Value {
    serde_json::from_str(text).unwrap()
}

fn raw(len: usize, version_high: u8) -> Value {
    let mut bytes = vec![0u8; len];
    bytes[0] = 0x01;
    bytes[3] = version_high;
    Value::from(encode_hex(&bytes))
}

fn verdict(check: Check) -> Result<(), String> {
    match check.stage {
        HeaderStage::Done(r) => r,
        _ => panic!("the check is not done"),
    }
}

fn run(want: u64, verbose: &str, bytes: Value) -> Result<(), String> {
    let check = Check::assert_header(115, want).step(Ok(json("\"00ff\"")));
    let check = check.step(Ok(json(verbose)));
    if let HeaderStage::Done(r) = check.stage {
        return r;
    }
    verdict(check.step(Ok(bytes)))
}

#[test]
fn a_check_makes_three_calls() {
    let check = Check::assert_header(115, 2);
    let call = check.ask().unwrap();
    assert_eq!((call.method.as_str(), call.params), ("getblockhash", json("[115]")));
    let check = check.step(Ok(json("\"00ff\"")));
    let call = check.ask().unwrap();
    assert_eq!((call.method.as_str(), call.params), ("getblockheader", json("[\"00ff\"]")));
    let check = check.step(Ok(json(r#"{"header_version":2}"#)));
    let call = check.ask().unwrap();
    assert_eq!((call.method.as_str(), call.params), ("getblockheader", json("[\"00ff\",false]")));
    let check = check.step(Ok(raw(164, 0x80)));
    assert!(check.ask().is_none());
    assert_eq!(verdict(check), Ok(()));
}

#[test]
fn v1_headers_are_eighty_bytes() {
    assert_eq!(run(1, r#"{"header_version":0}"#, raw(80, 0x20)), Ok(()));
    assert_eq!(run(1, "{}", raw(80, 0x20)), Ok(()));
    assert_eq!(run(2, r#"{"header_version":2}"#, raw(164, 0xa0)), Ok(()));
}

#[test]
fn reports_and_bytes_must_agree() {
    assert_eq!(
        run(1, r#"{"header_version":2}"#, raw(80, 0)).unwrap_err(),
        "height 115: header_version is 2, expected 0 (v1)"
    );
    assert_eq!(
        run(2, "{}", raw(164, 0x80)).unwrap_err(),
        "height 115: header_version is 0, expected 2 (v2)"
    );
    assert_eq!(
        run(2, r#"{"header_version":2}"#, raw(80, 0x80)).unwrap_err(),
        "height 115: header is 80 bytes, expected 164"
    );
    assert_eq!(
        run(1, "{}", raw(164, 0)).unwrap_err(),
        "height 115: header is 164 bytes, expected 80"
    );
    assert_eq!(
        run(2, r#"{"header_version":2}"#, raw(164, 0x7f)).unwrap_err(),
        "height 115: nVersion is 0x7f000001, which disagrees with header_version 2"
    );
    assert_eq!(
        run(1, "{}", raw(80, 0x80)).unwrap_err(),
        "height 115: nVersion is 0x80000001, which disagrees with header_version 0"
    );
}

#[test]
fn bytes_must_be_hexadecimal() {
    assert_eq!(run(1, "{}", json("5")).unwrap_err(), "header not a string");
    assert_eq!(run(1, "{}", json("\"abc\"")).unwrap_err(), "Odd number of digits");
    assert!(run(1, "{}", json("\"zz\"")).unwrap_err().starts_with("Invalid character 'z'"));
}

#[test]
fn failed_calls_name_the_height() {
    let no = || Err("down".to_string());
    assert_eq!(
        verdict(Check::assert_header(7, 1).step(no())).unwrap_err(),
        "getblockhash(7) failed: down"
    );
    assert_eq!(
        verdict(Check::assert_header(7, 1).step(Ok(json("1"))).step(no())).unwrap_err(),
        "getblockheader(7) failed: down"
    );
    assert_eq!(
        verdict(Check::assert_header(7, 1).step(Ok(json("1"))).step(Ok(json("{}"))).step(no()))
            .unwrap_err(),
        "getblockheader(7, false) failed: down"
    );
}

#[test]
fn hexadecimal_reads_back() {
    let bytes = vec![0x00, 0x7f, 0x80, 0xff];
    assert_eq!(encode_hex(&bytes), "007f80ff");
    assert_eq!(decode_hex("007F80ff").unwrap(), bytes);
    assert!(decode_hex("0").is_err());
}

#[test]
fn heights_are_numbers() {
    assert_eq!(block_count_call().method, "getblockcount");
    assert_eq!(block_count(Ok(json("12"))), Ok(12));
    assert_eq!(
        block_count(Ok(json("-1"))).unwrap_err(),
        "getblockcount did not return a number"
    );
    assert_eq!(block_count(Err("down".to_string())).unwrap_err(), "getblockcount failed: down");
    assert_eq!(chain_info_call().method, "getblockchaininfo");
    assert_eq!(chain_info_height(Ok(json(r#"{"blocks":115}"#))), Ok(115));
    assert_eq!(chain_info_height(Ok(json("{}"))).unwrap_err(), "blocks missing");
    assert_eq!(
        chain_info_height(Err("down".to_string())).unwrap_err(),
        "getblockchaininfo failed: down"
    );
}

fn height(state: TxHeight<String>) -> Result<u64, String> {
    match state {
        TxHeight::Done(r) => r,
        _ => panic!("the search is not done"),
    }
}

#[test]
fn a_transaction_is_in_the_block_it_names() {
    let state = TxHeight::tx_block_height("aa");
    let call = state.ask().unwrap();
    assert_eq!((call.method.as_str(), call.params), ("getrawtransaction", json("[\"aa\",true]")));
    let state = state.step(Ok(json(r#"{"blockhash":"bb"}"#)));
    let call = state.ask().unwrap();
    assert_eq!((call.method.as_str(), call.params), ("getblockheader", json("[\"bb\"]")));
    let state = state.step(Ok(json(r#"{"height":121}"#)));
    assert!(state.ask().is_none());
    assert_eq!(height(state), Ok(121));
}

#[test]
fn a_transaction_may_have_no_height() {
    let start = || TxHeight::tx_block_height("aa");
    assert_eq!(height(start().step(Ok(json("{}")))).unwrap_err(), "transaction is unconfirmed");
    assert_eq!(
        height(start().step(Err("x".to_string()))).unwrap_err(),
        "getrawtransaction(aa) failed: x"
    );
    let found = || start().step(Ok(json(r#"{"blockhash":"bb"}"#)));
    assert_eq!(height(found().step(Err("x".to_string()))).unwrap_err(), "getblockheader failed: x");
    assert_eq!(height(found().step(Ok(json("{}")))).unwrap_err(), "no height in the header");
}

#[test]
fn a_chain_changes_its_headers_at_the_activation() {
    let activation = 115;
    for height in [1, 114, 115, 130] {
        let (report, bytes) = if height < activation {
            (r#"{"header_version":0}"#, raw(80, 0x20))
        } else {
            (r#"{"header_version":2}"#, raw(164, 0xa0))
        };
        for want in [1, 2] {
            let check = Check::assert_header(height, want)
                .step(Ok(json("\"aa\"")))
                .step(Ok(json(report)))
                .step(Ok(bytes.clone()));
            let passed = matches!(check.stage, HeaderStage::Done(Ok(())));
            assert_eq!(passed, (want == 1) == (height < activation));
        }
    }
}
