//! Scripts run as child processes of the host: a collection of script
//! locations, and the liveness bookkeeping of one run.
use vstd::prelude::*;
use crate::paths::{file_name, file_name_of, join_path, path_join};

verus! {

/// A script, known by the location of its file.
pub struct Script {
    path: String,
}

impl Script {
    pub closed spec fn spec_path(&self) -> Seq<char> {
        self.path@
    }

    pub fn new(path: String) -> (r: Script)
        ensures
            r.spec_path() == path@,
    {
        Script { path }
    }

    pub fn path(&self) -> (r: &String)
        ensures
            r@ == self.spec_path(),
    {
        &self.path
    }

    /// The script's name: the last component of its location.
    pub fn name(&self) -> (r: Option<String>)
        ensures
            r matches Some(n) ==> file_name_of(self.spec_path()) == Some(n@),
            r is None ==> file_name_of(self.spec_path()) is None,
    {
        file_name(self.path.as_str())
    }
}

/// The first position in `scripts` whose name is `name`, if any.
pub open spec fn first_named(scripts: Seq<Script>, name: Seq<char>) -> Option<int> {
    if exists|i: int| 0 <= i < scripts.len() && file_name_of(scripts[i].spec_path()) == Some(name) {
        Some(choose|i: int|
            0 <= i < scripts.len() && file_name_of(scripts[i].spec_path()) == Some(name) && forall|
                j: int,
            |
                0 <= j < i ==> file_name_of(scripts[j].spec_path()) != Some(name))
    } else {
        None
    }
}

/// The scripts found in a directory.
pub struct ScriptsManager {
    pub scripts: Vec<Script>,
    path: String,
}

impl ScriptsManager {
    pub closed spec fn dir(&self) -> Seq<char> {
        self.path@
    }

    /// The scripts, in order.
    pub closed spec fn listed(&self) -> Seq<Script> {
        self.scripts@
    }

    /// The scripts whose locations a listing of the directory `path` gave, in
    /// listing order.
    pub fn load(path: String, entries: Vec<String>) -> (r: ScriptsManager)
        ensures
            r.dir() == path@,
            r.listed().len() == entries@.len(),
            forall|i: int| 0 <= i < entries@.len() ==> r.listed()[i].spec_path() == entries@[i]@,
    {
        let mut scripts: Vec<Script> = Vec::new();
        let mut i: usize = 0;
        while i < entries.len()
            invariant
                i <= entries@.len(),
                scripts@.len() == i,
                forall|k: int| 0 <= k < i ==> scripts@[k].spec_path() == entries@[k]@,
            decreases entries.len() - i,
        {
            scripts.push(Script::new(entries[i].clone()));
            i = i + 1;
        }
        ScriptsManager { scripts, path }
    }

    /// A script named `name` in the directory; its file is for the caller to
    /// create.
    pub fn new_script(&self, name: String) -> (r: Script)
        ensures
            r.spec_path() == path_join(self.dir(), name@),
    {
        Script::new(join_path(self.path.as_str(), name.as_str()))
    }

    pub fn add_script(&mut self, script: Script)
        ensures
            final(self).dir() == old(self).dir(),
            final(self).listed() == old(self).listed().push(script),
    {
        self.scripts.push(script)
    }

    /// The first script whose name is `name`.
    pub fn get_script(&self, name: String) -> (r: Option<Script>)
        ensures
            r is Some == first_named(self.listed(), name@) is Some,
            r matches Some(s) ==> s.spec_path() == self.listed()[first_named(
                self.listed(),
                name@,
            )->0].spec_path(),
    {
        let mut i: usize = 0;
        while i < self.scripts.len()
            invariant
                i <= self.scripts@.len(),
                forall|k: int|
                    0 <= k < i ==> file_name_of(#[trigger] self.scripts@[k].spec_path()) != Some(
                        name@,
                    ),
            decreases self.scripts.len() - i,
        {
            match self.scripts[i].name() {
                Some(n) => {
                    if n == name {
                        let ghost f = first_named(self.scripts@, name@);
                        assert(f is Some);
                        let ghost j = f->0;
                        assert(j == i) by {
                            if j < i {
                                assert(file_name_of(self.scripts@[j].spec_path()) != Some(name@));
                            }
                        }
                        return Some(Script::new(self.scripts[i].path.clone()));
                    }
                },
                None => {},
            }
            i = i + 1;
        }
        None
    }
}

/// What an observation of a running child process found.
pub enum ProcessStatus {
    /// It has not exited yet.
    Running,
    /// It has exited; whether it reported success.
    Exited(bool),
    /// It could not be observed.
    Unobservable,
}

/// The state of one script run.
#[derive(PartialEq, Eq, Structural, Clone, Copy, Debug)]
pub enum ExecutionState {
    Running,
    FinishedSuccess,
    FinishedError,
}

/// A run has ended, for good.
pub open spec fn is_terminal(s: ExecutionState) -> bool {
    !(s matches ExecutionState::Running)
}

/// The state after an observation: a running run takes what was observed; an
/// ended run stays as it ended.
pub open spec fn observed(s: ExecutionState, status: ProcessStatus) -> ExecutionState {
    match s {
        ExecutionState::Running => match status {
            ProcessStatus::Running => ExecutionState::Running,
            ProcessStatus::Exited(true) => ExecutionState::FinishedSuccess,
            ProcessStatus::Exited(false) => ExecutionState::FinishedError,
            ProcessStatus::Unobservable => ExecutionState::FinishedError,
        },
        _ => s,
    }
}

/// The state after a run reports its outcome: the first outcome sticks.
pub open spec fn finished(s: ExecutionState, succeeded: bool) -> ExecutionState {
    match s {
        ExecutionState::Running => if succeeded {
            ExecutionState::FinishedSuccess
        } else {
            ExecutionState::FinishedError
        },
        _ => s,
    }
}

/// The handle on one script run.
pub struct ScriptExecution {
    state: ExecutionState,
}

impl ScriptExecution {
    pub closed spec fn spec_state(&self) -> ExecutionState {
        self.state
    }

    /// A run that has just been launched.
    pub fn new() -> (r: ScriptExecution)
        ensures
            r.spec_state() == ExecutionState::Running,
    {
        ScriptExecution { state: ExecutionState::Running }
    }

    pub fn state(&self) -> (r: ExecutionState)
        ensures
            r == self.spec_state(),
    {
        self.state
    }

    /// Records an observation of the child process and tells whether the run
    /// is still going.
    pub fn is_alive(&mut self, status: ProcessStatus) -> (r: bool)
        ensures
            final(self).spec_state() == observed(old(self).spec_state(), status),
            r == (final(self).spec_state() == ExecutionState::Running),
    {
        if self.state == ExecutionState::Running {
            self.state = match status {
                ProcessStatus::Running => ExecutionState::Running,
                ProcessStatus::Exited(true) => ExecutionState::FinishedSuccess,
                ProcessStatus::Exited(false) => ExecutionState::FinishedError,
                ProcessStatus::Unobservable => ExecutionState::FinishedError,
            };
        }
        self.state == ExecutionState::Running
    }

    /// Records the outcome that a run reported itself.
    pub fn finish(&mut self, succeeded: bool)
        ensures
            final(self).spec_state() == finished(old(self).spec_state(), succeeded),
    {
        if self.state == ExecutionState::Running {
            self.state = if succeeded {
                ExecutionState::FinishedSuccess
            } else {
                ExecutionState::FinishedError
            };
        }
    }
}

/// Once a run has ended, no observation or outcome changes its state.
pub proof fn terminal_is_stable(s: ExecutionState, status: ProcessStatus, succeeded: bool)
    requires
        is_terminal(s),
    ensures
        observed(s, status) == s,
        finished(s, succeeded) == s,
{
}

/// Each observation or outcome leaves a run running or moves it to an end,
/// never back: a state reached from an ended state is that state.
pub proof fn transitions_are_one_way(s: ExecutionState, status: ProcessStatus)
    ensures
        observed(s, status) == s || (s == ExecutionState::Running && is_terminal(
            observed(s, status),
        )),
{
}

} // verus!
