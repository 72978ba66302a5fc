use dln_e2e_harness::outcome::Failure;
use dln_e2e_harness::process::{Glance, ManagedChild};
use dln_e2e_harness::relay::{relay_url, start_relay};
use dln_e2e_harness::text::{decimal_text, join_path, signed_text};
use dln_e2e_harness::util::{
    build_knots_node, knots_node_dir, output_dir, provide, tmp_dir_at, tmp_dir_at_clock,
    unique_tmp_dir, wait_for, wait_until, CargoRun, Provision, Recipe, Waited,
};

fn ended(success: bool) -> CargoRun {
    CargoRun::Ended { success, status: "exit status: 101".to_string() }
}

#[test]
fn numbers_are_written_in_decimal() {
    assert_eq!(decimal_text(0), "0");
    assert_eq!(decimal_text(9), "9");
    assert_eq!(decimal_text(10), "10");
    assert_eq!(decimal_text(1_234_567_890), "1234567890");
    assert_eq!(decimal_text(u128::MAX), u128::MAX.to_string());
    assert_eq!(signed_text(-1), "-1");
    assert_eq!(signed_text(i64::MIN), "-9223372036854775808");
    assert_eq!(signed_text(42), "42");
}

#[test]
fn paths_are_joined_as_directories() {
    for (dir, file) in [("/tmp/a", "b"), ("/tmp/a/", "b"), ("", "b"), ("/tmp", "/etc/x"), ("a", "")] {
        let expected = std::path::Path::new(dir).join(file);
        assert_eq!(join_path(dir, file), expected.to_str().unwrap());
    }
}

#[test]
fn tmp_dirs_name_prefix_and_time() {
    assert_eq!(tmp_dir_at("two-chains", 1234567890), "/tmp/two-chains-1234567890");
}

#[test]
fn a_tmp_dir_needs_a_clock_that_shows_a_time() {
    assert_eq!(tmp_dir_at_clock("x", Some(7)), Some("/tmp/x-7".to_string()));
    assert_eq!(tmp_dir_at_clock("x", Some(0)), Some("/tmp/x-0".to_string()));
    assert_eq!(tmp_dir_at_clock("x", None), None);
}

#[test]
fn tmp_dirs_of_different_times_differ() {
    assert_ne!(tmp_dir_at("x", 1), tmp_dir_at("x", 2));
    assert_ne!(tmp_dir_at("x", 9), tmp_dir_at("x", 90));
    assert_ne!(tmp_dir_at("x", 1), tmp_dir_at("y", 1));
    assert_ne!(tmp_dir_at("x-1", 2), tmp_dir_at("x", 12));
}

#[test]
fn a_unique_tmp_dir_holds_the_present_time() {
    let path = unique_tmp_dir("system-test").unwrap();
    let digits = path.strip_prefix("/tmp/system-test-").unwrap();
    let nanos: u128 = digits.parse().unwrap();
    assert!(nanos > 1_600_000_000_000_000_000);
}

#[test]
fn the_environment_names_the_output_dir() {
    assert_eq!(output_dir(Some("/out".to_string()), "x"), Some("/out".to_string()));
    assert!(output_dir(None, "x").unwrap().starts_with("/tmp/x-"));
}

#[test]
fn wait_until_goes_on_at_the_limit() {
    assert!(matches!(wait_until("channel active", 60, true, 1000), Waited::Ready));
    assert!(matches!(wait_until("channel active", 60, false, 60), Waited::Again));
    match wait_until("channel active", 60, false, 61) {
        Waited::Expired(e) => assert_eq!(e, "timeout waiting for: channel active"),
        _ => panic!("should have expired"),
    }
}

#[test]
fn wait_for_ends_at_the_limit() {
    assert!(matches!(wait_for("both legs held", 60, true, 1000), Waited::Ready));
    assert!(matches!(wait_for("both legs held", 60, false, 59), Waited::Again));
    match wait_for("both legs held", 60, false, 60) {
        Waited::Expired(e) => assert_eq!(e, "timed out waiting for both legs held"),
        _ => panic!("should have expired"),
    }
}

#[test]
fn the_knots_checkout_can_be_named() {
    assert_eq!(knots_node_dir(None), "/home/rene/git/dln-node-knots");
    assert_eq!(knots_node_dir(Some("/k".to_string())), "/k");
}

#[test]
fn knots_builds_take_features() {
    let plain = build_knots_node("/k", true, None).ok().unwrap();
    assert_eq!(plain.args, vec!["build", "--bin", "dln-node"]);
    let empty = build_knots_node("/k", true, Some(String::new())).ok().unwrap();
    assert_eq!(empty.args, vec!["build", "--bin", "dln-node"]);
    let v2 = build_knots_node("/k", true, Some("blake2b".to_string())).ok().unwrap();
    assert_eq!(v2.args, vec!["build", "--bin", "dln-node", "--features", "blake2b"]);
    assert_eq!(v2.dir, "/k");
    assert_eq!(v2.binary, "/k/target/debug/dln-node");
}

#[test]
fn knots_builds_fail_with_their_own_words() {
    let missing = build_knots_node("/k", false, None).err().unwrap();
    assert_eq!(missing.chain, vec!["/k not found"]);

    let build = |run: CargoRun, exists: bool| -> Failure {
        build_knots_node("/k", true, None).ok().unwrap().outcome(run, exists).err().unwrap()
    };
    assert_eq!(
        build(CargoRun::NotRun("no such file".to_string()), true).chain,
        vec!["failed to run cargo build for dln-node-knots", "no such file"]
    );
    assert_eq!(build(ended(false), true).chain, vec!["cargo build failed with exit status: 101"]);
    assert_eq!(build(ended(true), false).chain, vec!["binary not found at /k/target/debug/dln-node"]);
}

#[test]
fn builds_give_the_binary_only_where_it_is() {
    let recipe = || Recipe::named("lnrod", "/p/lnrod");
    assert_eq!(recipe().outcome(ended(true), true).ok().unwrap(), "/p/lnrod/target/debug/lnrod");
    assert_eq!(
        recipe().outcome(ended(false), true).err().unwrap().chain,
        vec!["cargo build lnrod failed with exit status: 101"]
    );
    assert_eq!(
        recipe().outcome(ended(true), false).err().unwrap().chain,
        vec!["lnrod binary not found at /p/lnrod/target/debug/lnrod"]
    );
    assert_eq!(
        recipe().outcome(CargoRun::NotRun("denied".to_string()), true).err().unwrap().chain,
        vec!["failed to run cargo build for lnrod", "denied"]
    );
}

#[test]
fn a_named_binary_is_not_built() {
    match provide(Some("/bin/lnrod".to_string()), "lnrod", "/p") {
        Provision::Prebuilt(path) => assert_eq!(path, "/bin/lnrod"),
        Provision::Build(_) => panic!("should not be built"),
    }
    assert!(matches!(provide(None, "lnrod", "/p"), Provision::Build(_)));
}

#[test]
fn failures_name_the_whole_before_the_part() {
    let f = Failure::new("deadline has elapsed".to_string())
        .context("timeout waiting for NCC response")
        .context("NCC open_channel failed");
    assert_eq!(
        f.chain,
        vec![
            "NCC open_channel failed",
            "timeout waiting for NCC response",
            "deadline has elapsed"
        ]
    );
}

#[test]
fn a_child_logs_under_its_name() {
    let plan = ManagedChild::spawn("lnrod", "/bin/lnrod", vec!["--regtest".to_string()], "/out");
    assert_eq!(plan.name, "lnrod");
    assert_eq!(plan.program, "/bin/lnrod");
    assert_eq!(plan.args, vec!["--regtest"]);
    assert_eq!(plan.log_path, "/out/lnrod.log");
    assert_eq!(plan.cwd, None);
    let plan =
        ManagedChild::spawn_with_cwd("dln-node", "/b", vec![], "/out/", Some("/w".to_string()));
    assert_eq!(plan.log_path, "/out/dln-node.log");
    assert_eq!(plan.cwd, Some("/w".to_string()));
}

#[test]
fn only_a_running_child_is_alive() {
    let mut child = ManagedChild::spawned(ManagedChild::spawn("lnrod", "/b", vec![], "/out"));
    assert_eq!(child.check_alive(&Glance::Running), Ok(()));
    assert_eq!(
        child.check_alive(&Glance::Exited("exit status: 1".to_string())),
        Err("lnrod exited unexpectedly with status exit status: 1. See log: /out/lnrod.log".to_string())
    );
    assert_eq!(
        child.check_alive(&Glance::Failed("no such process".to_string())),
        Err("no such process".to_string())
    );
    assert!(child.kills_on_drop());
    assert!(child.kill());
    assert!(!child.kill());
    assert!(!child.kills_on_drop());
    assert_eq!(child.check_alive(&Glance::Running), Err("lnrod already stopped".to_string()));
}

#[test]
fn the_relay_is_strfry() {
    let plan = start_relay();
    assert_eq!(plan.image, "strfry-strfry");
    assert_eq!(plan.tag, "latest");
    assert_eq!(plan.port, 7777);
    assert_eq!(plan.ready_message, "Started websocket server");
    assert_eq!(relay_url(32768), "ws://localhost:32768");
}
