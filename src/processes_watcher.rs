//! The process guard: a replaceable restriction policy and the decision, for
//! one poll of the host's process table, of which processes to terminate.
use vstd::prelude::*;
use crate::json::string_views;

verus! {

/// A policy deciding whether an executable path is restricted.
pub trait ProcessesFilter {
    /// The paths that the policy restricts.
    spec fn restricts(&self, exe: Seq<char>) -> bool;

    fn is_restricted(&self, exe: &str) -> (r: bool)
        ensures
            r == self.restricts(exe@),
    ;
}

/// Restricts exactly the executables whose full path is one of its paths.
pub struct BlacklistFilter {
    paths: Vec<String>,
}

impl BlacklistFilter {
    pub fn new(paths: Vec<String>) -> (r: BlacklistFilter)
        ensures
            r.paths() == string_views(paths@),
    {
        BlacklistFilter { paths }
    }

    /// The listed paths.
    pub closed spec fn paths(&self) -> Seq<Seq<char>> {
        string_views(self.paths@)
    }
}

impl ProcessesFilter for BlacklistFilter {
    open spec fn restricts(&self, exe: Seq<char>) -> bool {
        self.paths().contains(exe)
    }

    fn is_restricted(&self, exe: &str) -> (r: bool) {
        let exe_owned = String::from_str(exe);
        let mut i: usize = 0;
        while i < self.paths.len()
            invariant
                i <= self.paths@.len(),
                exe_owned@ == exe@,
                forall|k: int| 0 <= k < i ==> self.paths@[k]@ != exe@,
            decreases self.paths.len() - i,
        {
            if self.paths[i] == exe_owned {
                assert(self.paths()[i as int] == exe@);
                return true;
            }
            i = i + 1;
        }
        proof {
            if self.paths().contains(exe@) {
                let k = choose|k: int| 0 <= k < self.paths().len() && self.paths()[k] == exe@;
                assert(self.paths@[k]@ == exe@);
            }
        }
        false
    }
}

/// Restricts nothing.
pub struct NoneFilter {}

impl ProcessesFilter for NoneFilter {
    open spec fn restricts(&self, exe: Seq<char>) -> bool {
        false
    }

    fn is_restricted(&self, exe: &str) -> (r: bool) {
        false
    }
}

/// The restriction policy that the guard holds.
pub enum Filter {
    AllowAll(NoneFilter),
    Blacklist(BlacklistFilter),
}

impl ProcessesFilter for Filter {
    open spec fn restricts(&self, exe: Seq<char>) -> bool {
        match self {
            Filter::AllowAll(f) => f.restricts(exe),
            Filter::Blacklist(f) => f.restricts(exe),
        }
    }

    fn is_restricted(&self, exe: &str) -> (r: bool) {
        match self {
            Filter::AllowAll(f) => f.is_restricted(exe),
            Filter::Blacklist(f) => f.is_restricted(exe),
        }
    }
}

/// One entry of the host's process table: its id and, where it could be
/// obtained, its executable path.
pub struct ProcessEntry {
    pub pid: u32,
    pub exe: Option<String>,
}

/// The ids of the processes in `ps` that `f` restricts, in table order.
/// An entry without a path is skipped.
pub open spec fn victims(f: Filter, ps: Seq<ProcessEntry>) -> Seq<u32>
    decreases ps.len(),
{
    if ps.len() == 0 {
        Seq::empty()
    } else {
        let rest = victims(f, ps.drop_last());
        match ps.last().exe {
            Some(p) => if f.restricts(p@) {
                rest.push(ps.last().pid)
            } else {
                rest
            },
            None => rest,
        }
    }
}

/// The guard: owns the current policy.
pub struct ProcessesWatcher {
    filter: Filter,
}

impl ProcessesWatcher {
    /// The current policy.
    pub closed spec fn policy(&self) -> Filter {
        self.filter
    }

    /// A guard with the policy that restricts nothing.
    pub fn new() -> (r: ProcessesWatcher)
        ensures
            r.policy() matches Filter::AllowAll(_),
    {
        ProcessesWatcher { filter: Filter::AllowAll(NoneFilter {}) }
    }

    /// Replaces the policy.
    pub fn set_filter(&mut self, filter: Filter)
        ensures
            final(self).policy() == filter,
    {
        self.filter = filter;
    }

    /// Whether the current policy restricts `exe`.
    pub fn is_restricted(&self, exe: &str) -> (r: bool)
        ensures
            r == self.policy().restricts(exe@),
    {
        self.filter.is_restricted(exe)
    }

    /// One poll: the ids of the processes in `processes` to terminate.
    pub fn check(&self, processes: &Vec<ProcessEntry>) -> (r: Vec<u32>)
        ensures
            r@ == victims(self.policy(), processes@),
    {
        let mut out: Vec<u32> = Vec::new();
        let mut i: usize = 0;
        while i < processes.len()
            invariant
                i <= processes@.len(),
                out@ == victims(self.filter, processes@.subrange(0, i as int)),
            decreases processes.len() - i,
        {
            assert(processes@.subrange(0, i as int + 1).drop_last() =~= processes@.subrange(
                0,
                i as int,
            ));
            match &processes[i].exe {
                Some(p) => {
                    if self.filter.is_restricted(p.as_str()) {
                        out.push(processes[i].pid);
                    }
                },
                None => {},
            }
            i = i + 1;
        }
        assert(processes@.subrange(0, processes@.len() as int) =~= processes@);
        out
    }
}

/// Under the policy that restricts nothing, a poll terminates no process,
/// whatever the process table holds.
pub proof fn none_policy_spares_all(f: Filter, ps: Seq<ProcessEntry>)
    requires
        f matches Filter::AllowAll(_),
    ensures
        victims(f, ps) == Seq::<u32>::empty(),
    decreases ps.len(),
{
    if ps.len() > 0 {
        none_policy_spares_all(f, ps.drop_last());
    }
}

/// A blacklist of one path restricts a path exactly when the two are equal:
/// no prefix, suffix or other path is restricted.
pub proof fn single_blacklist_is_exact(f: BlacklistFilter, listed: Seq<char>, exe: Seq<char>)
    requires
        f.paths() == seq![listed],
    ensures
        f.restricts(exe) <==> exe == listed,
{
    if exe == listed {
        assert(f.paths()[0] == exe);
    }
}

/// A process is terminated by a poll only if it has a path that the policy
/// restricts, and every process with such a path is terminated.
pub proof fn victims_are_exactly_restricted(f: Filter, ps: Seq<ProcessEntry>, pid: u32)
    ensures
        victims(f, ps).contains(pid) <==> exists|i: int|
            0 <= i < ps.len() && ps[i].pid == pid && (ps[i].exe matches Some(p) && f.restricts(
                p@,
            )),
    decreases ps.len(),
{
    if ps.len() > 0 {
        let init = ps.drop_last();
        victims_are_exactly_restricted(f, init, pid);
        let last = ps.len() - 1;
        if victims(f, ps).contains(pid) {
            if victims(f, init).contains(pid) {
                let i = choose|i: int|
                    0 <= i < init.len() && init[i].pid == pid && (init[i].exe matches Some(p)
                        && f.restricts(p@));
                assert(ps[i] == init[i]);
            } else {
                assert(ps[last].pid == pid);
            }
        }
        if exists|i: int|
            0 <= i < ps.len() && ps[i].pid == pid && (ps[i].exe matches Some(p) && f.restricts(
                p@,
            )) {
            let i = choose|i: int|
                0 <= i < ps.len() && ps[i].pid == pid && (ps[i].exe matches Some(p)
                    && f.restricts(p@));
            if i < last {
                assert(init[i] == ps[i]);
                assert(victims(f, init).contains(pid));
                let j = choose|j: int| 0 <= j < victims(f, init).len() && victims(f, init)[j] == pid;
                assert(victims(f, ps)[j] == pid);
            } else {
                assert(victims(f, ps).last() == pid);
            }
        }
    }
}

} // verus!
