//! Child processes.
//!
//! What is spawned and where its output goes is decided here; so is what a look
//! at a child means.

use vstd::prelude::*;
use crate::outcome::unit_view;
use crate::text::{cat2, cat5, join_path, option_view, path_in, views};

verus! {

/// What to spawn. Standard output and standard error both go to the log file.
pub struct SpawnPlan {
    pub name: String,
    pub program: String,
    pub args: Vec<String>,
    pub log_path: String,
    pub cwd: Option<String>,
}

/// What a [`SpawnPlan`] says.
pub struct SpawnView {
    pub name: Seq<char>,
    pub program: Seq<char>,
    pub args: Seq<Seq<char>>,
    pub log_path: Seq<char>,
    pub cwd: Option<Seq<char>>,
}

impl View for SpawnPlan {
    type V = SpawnView;

    open spec fn view(&self) -> SpawnView {
        SpawnView {
            name: self.name@,
            program: self.program@,
            args: views(self.args@),
            log_path: self.log_path@,
            cwd: option_view(self.cwd),
        }
    }
}

/// What is spawned under a name: its log stands in `log_dir` and is named after
/// it.
pub open spec fn spawn_plan(
    name: Seq<char>,
    program: Seq<char>,
    args: Seq<Seq<char>>,
    log_dir: Seq<char>,
    cwd: Option<Seq<char>>,
) -> SpawnView {
    SpawnView { name, program, args, log_path: path_in(log_dir, name + ".log"@), cwd }
}

/// What a look at a child found.
pub enum Glance {
    /// The look failed, for this reason.
    Failed(String),
    /// The child has ended with this status.
    Exited(String),
    Running,
}

/// Managed child process: its name, where its log is, and whether it is still
/// held.
pub struct ManagedChild {
    pub name: String,
    pub log_path: String,
    pub held: bool,
}

/// What a check says of a child: it is alive, or why it is not known to be.
pub open spec fn liveness(name: Seq<char>, log_path: Seq<char>, held: bool, glance: Glance) -> Result<
    (),
    Seq<char>,
> {
    if !held {
        Err(name + " already stopped"@)
    } else {
        match glance {
            Glance::Failed(reason) => Err(reason@),
            Glance::Exited(status) => Err(
                name + " exited unexpectedly with status "@ + status@ + ". See log: "@ + log_path,
            ),
            Glance::Running => Ok(()),
        }
    }
}

impl ManagedChild {
    /// What to spawn, in the working directory of the spawning process.
    pub fn spawn(name: &str, program: &str, args: Vec<String>, log_dir: &str) -> (r: SpawnPlan)
        ensures
            r@ == spawn_plan(name@, program@, views(args@), log_dir@, None),
    {
        Self::spawn_with_cwd(name, program, args, log_dir, None)
    }

    /// What to spawn, in the working directory `cwd` if one is given.
    pub fn spawn_with_cwd(
        name: &str,
        program: &str,
        args: Vec<String>,
        log_dir: &str,
        cwd: Option<String>,
    ) -> (r: SpawnPlan)
        ensures
            r@ == spawn_plan(name@, program@, views(args@), log_dir@, option_view(cwd)),
    {
        let log_name = cat2(name, ".log");
        SpawnPlan {
            name: name.to_owned(),
            program: program.to_owned(),
            args,
            log_path: join_path(log_dir, log_name.as_str()),
            cwd,
        }
    }

    /// The child that a plan gave, once it is spawned.
    pub fn spawned(plan: SpawnPlan) -> (r: ManagedChild)
        ensures
            r.name@ == plan@.name,
            r.log_path@ == plan@.log_path,
            r.held,
    {
        ManagedChild { name: plan.name, log_path: plan.log_path, held: true }
    }

    /// Check that the process is still running.
    pub fn check_alive(&self, glance: &Glance) -> (r: Result<(), String>)
        ensures
            unit_view(r) == liveness(self.name@, self.log_path@, self.held, *glance),
    {
        if !self.held {
            return Err(cat2(self.name.as_str(), " already stopped"));
        }
        match glance {
            Glance::Failed(reason) => Err(reason.clone()),
            Glance::Exited(status) => Err(
                cat5(
                    self.name.as_str(),
                    " exited unexpectedly with status ",
                    status.as_str(),
                    ". See log: ",
                    self.log_path.as_str(),
                ),
            ),
            Glance::Running => Ok(()),
        }
    }

    /// Lets go of the child. Tells whether there is a process to kill: there is
    /// one exactly the first time.
    pub fn kill(&mut self) -> (r: bool)
        ensures
            r == old(self).held,
            !final(self).held,
            final(self).name@ == old(self).name@,
            final(self).log_path@ == old(self).log_path@,
    {
        let r = self.held;
        self.held = false;
        r
    }

    /// Whether dropping the child has to kill a process: where nothing else
    /// did.
    pub fn kills_on_drop(&self) -> (r: bool)
        ensures
            r == self.held,
    {
        self.held
    }
}

/// A child that was let go is never reported alive, whatever a look at it
/// finds, and a child that is held is reported alive exactly when it runs.
pub proof fn only_a_held_running_child_is_alive(
    name: Seq<char>,
    log_path: Seq<char>,
    held: bool,
    glance: Glance,
)
    ensures
        liveness(name, log_path, held, glance) is Ok <==> held && glance is Running,
        liveness(name, log_path, false, glance) == Err::<(), Seq<char>>(
            name + " already stopped"@,
        ),
{
}

/// Children of different names write different logs, in the directory that both
/// are given.
pub proof fn logs_are_kept_apart(
    a: Seq<char>,
    b: Seq<char>,
    program: Seq<char>,
    args: Seq<Seq<char>>,
    log_dir: Seq<char>,
    cwd: Option<Seq<char>>,
)
    requires
        a.len() > 0 && a[0] != '/',
        b.len() > 0 && b[0] != '/',
        a != b,
    ensures
        ({
            let one = spawn_plan(a, program, args, log_dir, cwd);
            let other = spawn_plan(b, program, args, log_dir, cwd);
            &&& one.log_path != other.log_path
            &&& one.log_path.take(log_dir.len() as int) == log_dir
            &&& one.name == a && one.program == program && one.args == args && one.cwd == cwd
        }),
{
    reveal_strlit("/");
    let one = spawn_plan(a, program, args, log_dir, cwd).log_path;
    let other = spawn_plan(b, program, args, log_dir, cwd).log_path;
    let head: int = if log_dir.len() == 0 || log_dir.last() == '/' {
        log_dir.len() as int
    } else {
        log_dir.len() as int + 1
    };
    assert((a + ".log"@)[0] == a[0]);
    assert((b + ".log"@)[0] == b[0]);
    assert(one.skip(head) =~= a + ".log"@);
    assert(other.skip(head) =~= b + ".log"@);
    assert(one.take(log_dir.len() as int) =~= log_dir);
    if one == other {
        assert((a + ".log"@).len() == (b + ".log"@).len());
        assert(a =~= (a + ".log"@).take(a.len() as int));
        assert(b =~= (b + ".log"@).take(b.len() as int));
    }
}

} // verus!
