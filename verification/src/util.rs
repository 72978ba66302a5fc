//! Temporary directories, waiting, and where the binaries under test come from.

use vstd::prelude::*;
use vstd::string::StrSliceExecFns;
use crate::outcome::{bare, during, failing_view, Failure};
use crate::text::{
    cat2, cat3, cat4, decimal, decimal_holds_no_dash, decimal_tells_apart, decimal_text, join_path,
    option_view, or_empty, path_in, views,
};

verus! {

// ---------------------------------------------------------------------------
// Temporary directories
// ---------------------------------------------------------------------------

/// The temporary directory of a prefix at a time, in nanoseconds since the Unix
/// epoch.
pub open spec fn tmp_dir(prefix: Seq<char>, nanos: nat) -> Seq<char> {
    "/tmp/"@ + prefix + "-"@ + decimal(nanos)
}

/// `std::time::SystemTime::now`, as nanoseconds since the Unix epoch; nothing
/// where the clock stands before it. Which time it is, nothing is said of.
#[verifier::external_body]
fn nanos_since_epoch() -> (r: Option<u128>) {
    std::time::SystemTime::now()
        .duration_since(std::time::UNIX_EPOCH)
        .ok()
        .map(|d| d.as_nanos())
}

/// The path of the temporary directory of `prefix` at a time.
pub fn tmp_dir_at(prefix: &str, nanos: u128) -> (r: String)
    ensures
        r@ == tmp_dir(prefix@, nanos as nat),
{
    let digits = decimal_text(nanos);
    cat4("/tmp/", prefix, "-", digits.as_str())
}

/// The temporary directory of a prefix at the time that a clock shows; nothing
/// where it shows none.
pub open spec fn tmp_dir_by(prefix: Seq<char>, clock: Option<u128>) -> Option<Seq<char>> {
    match clock {
        Some(nanos) => Some(tmp_dir(prefix, nanos as nat)),
        None => None,
    }
}

/// The path of the temporary directory of `prefix` at the time that a clock
/// shows, in nanoseconds since the Unix epoch: there is one exactly where it
/// shows a time.
pub fn tmp_dir_at_clock(prefix: &str, clock: Option<u128>) -> (r: Option<String>)
    ensures
        option_view(r) == tmp_dir_by(prefix@, clock),
{
    match clock {
        Some(nanos) => Some(tmp_dir_at(prefix, nanos)),
        None => None,
    }
}

/// A temporary directory path of its own for the present time; nothing where
/// the clock stands before the Unix epoch. The present time is the one thing
/// that it is made of besides the prefix, and nothing is said of that time.
pub fn unique_tmp_dir(prefix: &str) -> (r: Option<String>)
    ensures
        exists|clock: Option<u128>| option_view(r) == #[trigger] tmp_dir_by(prefix@, clock),
{
    let clock = nanos_since_epoch();
    let r = tmp_dir_at_clock(prefix, clock);
    assert(option_view(r) == tmp_dir_by(prefix@, clock));
    r
}

/// Directories that are made for different prefixes or at different times differ:
/// the last dash of a path is where its time begins.
pub proof fn tmp_dirs_are_unique(p: Seq<char>, a: nat, q: Seq<char>, b: nat)
    requires
        p != q || a != b,
    ensures
        tmp_dir(p, a) != tmp_dir(q, b),
{
    if tmp_dir(p, a) == tmp_dir(q, b) {
        let path = tmp_dir(p, a);
        assert(path == "/tmp/"@ + q + "-"@ + decimal(b));
        let head_p = "/tmp/"@ + p;
        let head_q = "/tmp/"@ + q;
        reveal_strlit("-");
        decimal_holds_no_dash(a);
        decimal_holds_no_dash(b);
        assert(path[head_p.len() as int] == '-');
        assert(path[head_q.len() as int] == '-');
        assert(path.len() == head_p.len() + 1 + decimal(a).len());
        assert(path.len() == head_q.len() + 1 + decimal(b).len());
        if head_p.len() < head_q.len() {
            let i: int = head_q.len() - head_p.len() - 1;
            assert(path[head_q.len() as int] == decimal(a)[i]);
        } else if head_q.len() < head_p.len() {
            let i: int = head_p.len() - head_q.len() - 1;
            assert(path[head_p.len() as int] == decimal(b)[i]);
        }
        assert(p =~= path.subrange("/tmp/"@.len() as int, head_p.len() as int));
        assert(q =~= path.subrange("/tmp/"@.len() as int, head_q.len() as int));
        assert(decimal(a) =~= path.skip(head_p.len() as int + 1));
        assert(decimal(b) =~= path.skip(head_q.len() as int + 1));
        decimal_tells_apart(a, b);
    }
}

/// Where a scenario writes: the directory that the environment names, or a
/// temporary one of its own.
pub fn output_dir(named: Option<String>, prefix: &str) -> (r: Option<String>)
    ensures
        named is Some ==> r == named,
        named is None ==> exists|clock: Option<u128>|
            option_view(r) == #[trigger] tmp_dir_by(prefix@, clock),
{
    match named {
        Some(dir) => Some(dir),
        None => unique_tmp_dir(prefix),
    }
}

// ---------------------------------------------------------------------------
// Waiting
// ---------------------------------------------------------------------------

/// What to do after one look at what is waited for.
pub enum Waited<T> {
    /// It is there.
    Ready,
    /// It is not: look again after a pause.
    Again,
    /// It is not, and there is no time left.
    Expired(T),
}

impl View for Waited<String> {
    type V = Waited<Seq<char>>;

    open spec fn view(&self) -> Waited<Seq<char>> {
        match *self {
            Waited::Ready => Waited::Ready,
            Waited::Again => Waited::Again,
            Waited::Expired(s) => Waited::Expired(s@),
        }
    }
}

/// A wait that goes on until more than `timeout` has gone by.
pub open spec fn until(label: Seq<char>, timeout: nat, ready: bool, elapsed: nat) -> Waited<
    Seq<char>,
> {
    if ready {
        Waited::Ready
    } else if elapsed > timeout {
        Waited::Expired("timeout waiting for: "@ + label)
    } else {
        Waited::Again
    }
}

/// A wait that goes on while less than `timeout` has gone by.
pub open spec fn within(what: Seq<char>, timeout: nat, ready: bool, elapsed: nat) -> Waited<
    Seq<char>,
> {
    if ready {
        Waited::Ready
    } else if elapsed < timeout {
        Waited::Again
    } else {
        Waited::Expired("timed out waiting for "@ + what)
    }
}

/// Decides on one look of a wait for `label`. Times are in nanoseconds.
pub fn wait_until(label: &str, timeout: u128, ready: bool, elapsed: u128) -> (r: Waited<String>)
    ensures
        r@ == until(label@, timeout as nat, ready, elapsed as nat),
{
    if ready {
        Waited::Ready
    } else if elapsed > timeout {
        Waited::Expired(cat2("timeout waiting for: ", label))
    } else {
        Waited::Again
    }
}

/// Decides on one look of a wait for `what`. Times are in nanoseconds.
pub fn wait_for(what: &str, timeout: u128, ready: bool, elapsed: u128) -> (r: Waited<String>)
    ensures
        r@ == within(what@, timeout as nat, ready, elapsed as nat),
{
    if ready {
        Waited::Ready
    } else if elapsed < timeout {
        Waited::Again
    } else {
        Waited::Expired(cat2("timed out waiting for ", what))
    }
}

/// Both waits end as soon as what is waited for is there, whatever the time,
/// and neither ends before its time is up otherwise. They differ at the one
/// moment at which the time is up exactly.
pub proof fn waits_differ_at_the_limit(label: Seq<char>, timeout: nat, elapsed: nat)
    ensures
        until(label, timeout, true, elapsed) is Ready,
        within(label, timeout, true, elapsed) is Ready,
        until(label, timeout, false, elapsed) is Expired <==> elapsed > timeout,
        within(label, timeout, false, elapsed) is Expired <==> elapsed >= timeout,
        until(label, timeout, false, timeout) is Again,
        within(label, timeout, false, timeout) is Expired,
{
}

// ---------------------------------------------------------------------------
// Binaries
// ---------------------------------------------------------------------------

/// Default checkout of the Knots build of the node.
pub const KNOTS_NODE_DIR: &'static str = "/home/rene/git/dln-node-knots";

/// How a binary is built with cargo, and what its failures are reported as.
pub struct Recipe {
    /// The checkout that cargo runs in.
    pub dir: String,
    /// What cargo is given.
    pub args: Vec<String>,
    /// Where the binary lies when it is built.
    pub binary: String,
    /// What is being done where cargo cannot be run.
    pub attempt: String,
    /// What precedes cargo's status where it fails.
    pub failure: String,
    /// What precedes the binary's path where there is no such file.
    pub absence: String,
}

/// What a [`Recipe`] says.
pub struct RecipeView {
    pub dir: Seq<char>,
    pub args: Seq<Seq<char>>,
    pub binary: Seq<char>,
    pub attempt: Seq<char>,
    pub failure: Seq<char>,
    pub absence: Seq<char>,
}

impl View for Recipe {
    type V = RecipeView;

    open spec fn view(&self) -> RecipeView {
        RecipeView {
            dir: self.dir@,
            args: views(self.args@),
            binary: self.binary@,
            attempt: self.attempt@,
            failure: self.failure@,
            absence: self.absence@,
        }
    }
}

/// How a run of cargo ended.
pub enum CargoRun {
    /// It could not be run, for this reason.
    NotRun(String),
    /// It ended with this status.
    Ended { success: bool, status: String },
}

/// Where a binary comes from: a path that the environment names, or a build.
pub enum Provision {
    Prebuilt(String),
    Build(Recipe),
}

/// The recipe for the binary `name` of a checkout, reported by that name.
pub open spec fn recipe_for(name: Seq<char>, dir: Seq<char>) -> RecipeView {
    RecipeView {
        dir,
        args: seq!["build"@, "--bin"@, name],
        binary: path_in(dir, "target/debug/"@ + name),
        attempt: "failed to run cargo build for "@ + name,
        failure: "cargo build "@ + name + " failed with "@,
        absence: name + " binary not found at "@,
    }
}

/// The recipe for the Knots build of the node, with cargo features if any are
/// asked for.
pub open spec fn knots_recipe(dir: Seq<char>, features: Seq<char>) -> RecipeView {
    RecipeView {
        dir,
        args: if features.len() == 0 {
            seq!["build"@, "--bin"@, "dln-node"@]
        } else {
            seq!["build"@, "--bin"@, "dln-node"@, "--features"@, features]
        },
        binary: path_in(dir, "target/debug/dln-node"@),
        attempt: "failed to run cargo build for dln-node-knots"@,
        failure: "cargo build failed with "@,
        absence: "binary not found at "@,
    }
}

/// What comes of a build: the path of the binary, or why there is none.
pub open spec fn build_result(recipe: RecipeView, run: CargoRun, exists: bool) -> Result<
    Seq<char>,
    Seq<Seq<char>>,
> {
    match run {
        CargoRun::NotRun(reason) => Err(during(recipe.attempt, bare(reason@))),
        CargoRun::Ended { success, status } => if !success {
            Err(bare(recipe.failure + status@))
        } else if !exists {
            Err(bare(recipe.absence + recipe.binary))
        } else {
            Ok(recipe.binary)
        },
    }
}

impl Recipe {
    /// The recipe for the binary `name` of the checkout at `dir`.
    pub fn named(name: &str, dir: &str) -> (r: Recipe)
        ensures
            r@ == recipe_for(name@, dir@),
    {
        let place = cat2("target/debug/", name);
        let r = Recipe {
            dir: dir.to_owned(),
            args: vec!["build".to_owned(), "--bin".to_owned(), name.to_owned()],
            binary: join_path(dir, place.as_str()),
            attempt: cat2("failed to run cargo build for ", name),
            failure: cat3("cargo build ", name, " failed with "),
            absence: cat2(name, " binary not found at "),
        };
        assert(r@.args =~= recipe_for(name@, dir@).args);
        r
    }

    /// What comes of a run of cargo, where it is told whether the binary is
    /// there afterwards.
    pub fn outcome(self, run: CargoRun, exists: bool) -> (r: Result<String, Failure>)
        ensures
            failing_view(r) == build_result(self@, run, exists),
    {
        match run {
            CargoRun::NotRun(reason) => Err(Failure::new(reason).context(self.attempt.as_str())),
            CargoRun::Ended { success, status } => if !success {
                Err(Failure::new(cat2(self.failure.as_str(), status.as_str())))
            } else if !exists {
                Err(Failure::new(cat2(self.absence.as_str(), self.binary.as_str())))
            } else {
                Ok(self.binary)
            },
        }
    }
}

/// The checkout of the Knots build of the node: the one that the environment
/// names, or the default one.
pub open spec fn knots_dir(named: Option<Seq<char>>) -> Seq<char> {
    match named {
        Some(dir) => dir,
        None => KNOTS_NODE_DIR@,
    }
}

/// The checkout of the Knots build of the node.
pub fn knots_node_dir(named: Option<String>) -> (r: String)
    ensures
        r@ == knots_dir(option_view(named)),
{
    match named {
        Some(dir) => dir,
        None => KNOTS_NODE_DIR.to_owned(),
    }
}

/// How the Knots build of the node is made in the checkout at `dir`: with the
/// cargo features that the environment names, if any. There is no recipe where
/// there is no such directory.
pub fn build_knots_node(dir: &str, is_dir: bool, features: Option<String>) -> (r: Result<
    Recipe,
    Failure,
>)
    ensures
        match r {
            Ok(recipe) => is_dir && recipe@ == knots_recipe(
                dir@,
                or_empty(option_view(features)),
            ),
            Err(failure) => !is_dir && failure@ == bare(
                dir@ + " not found"@,
            ),
        },
{
    if !is_dir {
        return Err(Failure::new(cat2(dir, " not found")));
    }
    let mut args = vec!["build".to_owned(), "--bin".to_owned(), "dln-node".to_owned()];
    let ghost wanted = or_empty(option_view(features));
    match features {
        Some(f) => {
            let len: usize = f.as_str().unicode_len();
            if len > 0 {
                args.push("--features".to_owned());
                args.push(f);
            }
        },
        None => {},
    }
    let recipe = Recipe {
        dir: dir.to_owned(),
        args,
        binary: join_path(dir, "target/debug/dln-node"),
        attempt: "failed to run cargo build for dln-node-knots".to_owned(),
        failure: "cargo build failed with ".to_owned(),
        absence: "binary not found at ".to_owned(),
    };
    assert(recipe@.args =~= knots_recipe(dir@, wanted).args);
    Ok(recipe)
}

/// Where a binary comes from: the path that the environment names, else a build
/// of the binary `name` in the checkout at `dir`.
pub fn provide(named: Option<String>, name: &str, dir: &str) -> (r: Provision)
    ensures
        match r {
            Provision::Prebuilt(path) => named == Some(path),
            Provision::Build(recipe) => named is None && recipe@ == recipe_for(name@, dir@),
        },
{
    match named {
        Some(path) => Provision::Prebuilt(path),
        None => Provision::Build(Recipe::named(name, dir)),
    }
}

/// A build gives the path of its binary exactly when cargo ran, succeeded, and
/// left the binary there.
pub proof fn build_succeeds_only_with_a_binary(recipe: RecipeView, run: CargoRun, exists: bool)
    ensures
        build_result(recipe, run, exists) is Ok <==> exists && (run matches CargoRun::Ended {
            success,
            ..
        } && success),
        build_result(recipe, run, exists) matches Ok(path) ==> path == recipe.binary,
{
}

/// A recipe builds the binary that it gives: cargo is asked for it by the name
/// under which it then lies in the debug directory of the same checkout. Features
/// are handed to cargo exactly where some are named.
pub proof fn a_recipe_builds_the_binary_that_it_gives(
    name: Seq<char>,
    dir: Seq<char>,
    features: Seq<char>,
)
    ensures
        ({
            let r = recipe_for(name, dir);
            &&& r.dir == dir
            &&& r.args.len() == 3 && r.args[0] == "build"@ && r.args[1] == "--bin"@
            &&& r.binary == path_in(dir, "target/debug/"@ + r.args[2])
            &&& r.args[2] == name
        }),
        ({
            let r = knots_recipe(dir, features);
            &&& r.dir == dir
            &&& r.args.len() >= 3 && r.args[0] == "build"@ && r.args[1] == "--bin"@
            &&& r.binary == path_in(dir, "target/debug/"@ + r.args[2])
            &&& features.len() > 0 ==> r.args.len() == 5 && r.args[3] == "--features"@ && r.args[4]
                == features
            &&& features.len() == 0 ==> r.args.len() == 3
        }),
{
    reveal_strlit("target/debug/");
    reveal_strlit("dln-node");
    reveal_strlit("target/debug/dln-node");
    assert("target/debug/"@ + "dln-node"@ =~= "target/debug/dln-node"@);
}

} // verus!
