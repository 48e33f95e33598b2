//! The agent core: the subsystems side by side, the built-in handlers, and
//! the effect of each dispatched command on them.
use vstd::prelude::*;
use crate::commands_executor::{
    self, CommandsExecutor, DataHandler, Handler, PlainHandler, Request, decodable, decodes_to,
};
use crate::config::Config;
use crate::json::{Json, spec_filter_info, spec_script_id, spec_script_update};
use crate::paths::path_join;
use crate::processes_watcher::{BlacklistFilter, Filter, ProcessesWatcher};
use crate::scripts::{self, ScriptsManager};

verus! {

/// Why a dispatched command had no effect.
#[derive(Debug)]
pub enum ClientError {
    /// The registry could not route or decode the command.
    Dispatch(commands_executor::Error),
    /// A policy change named a kind of policy that is not known; the policy
    /// was left as it was.
    UnknownFilterType(String),
    /// The script store refused the operation.
    Script(scripts::Error),
}

/// The outside work that a handled command leaves to the caller, done
/// outside any of the core's state.
pub enum Effect {
    /// Nothing more to do.
    Nothing,
    /// Power the host off.
    Shutdown,
    /// Replace the whole content of the file at the path (creating it), so
    /// that no reader sees a part of it.
    WriteScript(String, String),
    /// Delete the file at the path.
    RemoveScript(String),
    /// Run the script with the id, whose file is at the path, with the
    /// content, on a task of its own.
    ExecScript(String, String, String),
}

/// The agent core.
pub struct Client {
    pub processes_watcher: ProcessesWatcher,
    pub executor: CommandsExecutor,
    pub config: Config,
    pub scripts_manager: ScriptsManager,
}

/// The registry after the built-in handlers were added to `m`.
pub open spec fn with_builtins(m: Map<Seq<char>, Handler>) -> Map<Seq<char>, Handler> {
    m.insert("shutdown"@, Handler::Plain(PlainHandler::Shutdown)).insert(
        "processes-watcher-set-filter"@,
        Handler::WithData(DataHandler::SetFilter),
    ).insert("scripts-update"@, Handler::WithData(DataHandler::ScriptsUpdate)).insert(
        "scripts-remove"@,
        Handler::WithData(DataHandler::ScriptsRemove),
    ).insert("scripts-exec"@, Handler::WithData(DataHandler::ScriptsExec))
}

/// Each built-in name routes to its handler after the built-ins are
/// registered, and every other name is as it was.
pub proof fn builtins_are_routed(m: Map<Seq<char>, Handler>, other: Seq<char>)
    ensures
        with_builtins(m).contains_key("shutdown"@),
        with_builtins(m)["shutdown"@] == Handler::Plain(PlainHandler::Shutdown),
        with_builtins(m).contains_key("processes-watcher-set-filter"@),
        with_builtins(m)["processes-watcher-set-filter"@] == Handler::WithData(
            DataHandler::SetFilter,
        ),
        with_builtins(m).contains_key("scripts-update"@),
        with_builtins(m)["scripts-update"@] == Handler::WithData(DataHandler::ScriptsUpdate),
        with_builtins(m).contains_key("scripts-remove"@),
        with_builtins(m)["scripts-remove"@] == Handler::WithData(DataHandler::ScriptsRemove),
        with_builtins(m).contains_key("scripts-exec"@),
        with_builtins(m)["scripts-exec"@] == Handler::WithData(DataHandler::ScriptsExec),
        other != "shutdown"@ && other != "processes-watcher-set-filter"@ && other
            != "scripts-update"@ && other != "scripts-remove"@ && other != "scripts-exec"@
            ==> with_builtins(m).contains_key(other) == m.contains_key(other) && (m.contains_key(
            other,
        ) ==> with_builtins(m)[other] == m[other]),
{
    reveal_strlit("shutdown");
    reveal_strlit("processes-watcher-set-filter");
    reveal_strlit("scripts-update");
    reveal_strlit("scripts-remove");
    reveal_strlit("scripts-exec");
    assert("shutdown"@.len() != "scripts-exec"@.len());
    assert("processes-watcher-set-filter"@.len() != "scripts-exec"@.len());
    assert("scripts-update"@.len() != "scripts-exec"@.len());
    assert("scripts-remove"@.len() != "scripts-exec"@.len());
    assert("shutdown"@.len() != "scripts-remove"@.len());
    assert("processes-watcher-set-filter"@.len() != "scripts-remove"@.len());
    assert("scripts-update"@[8] != "scripts-remove"@[8]);
    assert("shutdown"@.len() != "scripts-update"@.len());
    assert("processes-watcher-set-filter"@.len() != "scripts-update"@.len());
    assert("shutdown"@.len() != "processes-watcher-set-filter"@.len());
}

/// The policy, the scripts and the registry are as they were.
pub open spec fn unchanged(a: Client, b: Client) -> bool {
    &&& b.processes_watcher.policy() == a.processes_watcher.policy()
    &&& b.scripts_manager.records() == a.scripts_manager.records()
    &&& b.scripts_manager.dir() == a.scripts_manager.dir()
    &&& b.executor.handlers() == a.executor.handlers()
}

/// What invoking handler `h` on `payload` does, from core `a` to core `b`
/// with result `r`, when the payload decodes for `h`.
pub open spec fn outcome(a: Client, b: Client, h: Handler, payload: Json, r: Result<
    Effect,
    ClientError,
>) -> bool {
    &&& b.executor.handlers() == a.executor.handlers()
    &&& b.scripts_manager.dir() == a.scripts_manager.dir()
    &&& match h {
        Handler::Plain(PlainHandler::Shutdown) => unchanged(a, b) && r matches Ok(Effect::Shutdown),
        Handler::WithData(DataHandler::SetFilter) => {
            let (t, l) = spec_filter_info(payload)->0;
            &&& b.scripts_manager.records() == a.scripts_manager.records()
            &&& if t == "blacklist"@ {
                &&& r matches Ok(Effect::Nothing)
                &&& b.processes_watcher.policy() matches Filter::Blacklist(f)
                &&& f.paths() == l
            } else {
                &&& b.processes_watcher.policy() == a.processes_watcher.policy()
                &&& r matches Err(ClientError::UnknownFilterType(n))
                &&& n@ == t
            }
        },
        Handler::WithData(DataHandler::ScriptsUpdate) => {
            let (id, content) = spec_script_update(payload)->0;
            &&& b.processes_watcher.policy() == a.processes_watcher.policy()
            &&& b.scripts_manager.records() == a.scripts_manager.records().insert(id, content)
            &&& r matches Ok(Effect::WriteScript(p, c))
            &&& p@ == path_join(a.scripts_manager.dir(), id)
            &&& c@ == content
        },
        Handler::WithData(DataHandler::ScriptsRemove) => {
            let id = spec_script_id(payload)->0;
            &&& b.processes_watcher.policy() == a.processes_watcher.policy()
            &&& b.scripts_manager.records() == a.scripts_manager.records().remove(id)
            &&& if a.scripts_manager.records().contains_key(id) {
                &&& r matches Ok(Effect::RemoveScript(p))
                &&& p@ == path_join(a.scripts_manager.dir(), id)
            } else {
                &&& r matches Err(ClientError::Script(scripts::Error::NotExist(n)))
                &&& n@ == id
            }
        },
        Handler::WithData(DataHandler::ScriptsExec) => {
            let id = spec_script_id(payload)->0;
            &&& unchanged(a, b)
            &&& if a.scripts_manager.records().contains_key(id) {
                &&& r matches Ok(Effect::ExecScript(i, p, c))
                &&& i@ == id
                &&& p@ == path_join(a.scripts_manager.dir(), id)
                &&& c@ == a.scripts_manager.records()[id]
            } else {
                &&& r matches Err(ClientError::Script(scripts::Error::NotExist(n)))
                &&& n@ == id
            }
        },
    }
}

impl Client {
    pub open spec fn wf(&self) -> bool {
        self.scripts_manager.wf()
    }

    /// A core with the policy that restricts nothing and no handlers.
    pub fn new(config: Config, scripts_manager: ScriptsManager) -> (r: Client)
        requires
            scripts_manager.wf(),
        ensures
            r.wf(),
            r.processes_watcher.policy() matches Filter::AllowAll(_),
            r.executor.handlers() == Map::<Seq<char>, Handler>::empty(),
            r.scripts_manager.records() == scripts_manager.records(),
            r.scripts_manager.dir() == scripts_manager.dir(),
            r.config.address@ == config.address@,
    {
        Client {
            processes_watcher: ProcessesWatcher::new(),
            executor: CommandsExecutor::new(),
            config,
            scripts_manager,
        }
    }

    /// Registers the built-in handlers.
    pub fn reg_handlers(&mut self)
        ensures
            final(self).executor.handlers() == with_builtins(old(self).executor.handlers()),
            final(self).executor.handlers()["shutdown"@] == Handler::Plain(PlainHandler::Shutdown),
            final(self).executor.handlers()["processes-watcher-set-filter"@] == Handler::WithData(
                DataHandler::SetFilter,
            ),
            final(self).executor.handlers()["scripts-update"@] == Handler::WithData(
                DataHandler::ScriptsUpdate,
            ),
            final(self).executor.handlers()["scripts-remove"@] == Handler::WithData(
                DataHandler::ScriptsRemove,
            ),
            final(self).executor.handlers()["scripts-exec"@] == Handler::WithData(
                DataHandler::ScriptsExec,
            ),
            final(self).executor.handlers().contains_key("shutdown"@),
            final(self).executor.handlers().contains_key("processes-watcher-set-filter"@),
            final(self).executor.handlers().contains_key("scripts-update"@),
            final(self).executor.handlers().contains_key("scripts-remove"@),
            final(self).executor.handlers().contains_key("scripts-exec"@),
            final(self).processes_watcher.policy() == old(self).processes_watcher.policy(),
            final(self).scripts_manager == old(self).scripts_manager,
    {
        self.executor.add_handler(String::from_str("shutdown"), PlainHandler::Shutdown);
        self.executor.add_handler_with_data(
            String::from_str("processes-watcher-set-filter"),
            DataHandler::SetFilter,
        );
        self.executor.add_handler_with_data(
            String::from_str("scripts-update"),
            DataHandler::ScriptsUpdate,
        );
        self.executor.add_handler_with_data(
            String::from_str("scripts-remove"),
            DataHandler::ScriptsRemove,
        );
        self.executor.add_handler_with_data(
            String::from_str("scripts-exec"),
            DataHandler::ScriptsExec,
        );
        proof {
            builtins_are_routed(old(self).executor.handlers(), Seq::empty());
        }
    }

    fn apply(&mut self, req: Request, Ghost(h): Ghost<Handler>, Ghost(payload): Ghost<Json>) -> (r:
        Result<Effect, ClientError>)
        requires
            old(self).wf(),
            decodes_to(h, payload, req),
        ensures
            final(self).wf(),
            outcome(*old(self), *final(self), h, payload, r),
    {
        match req {
            Request::Shutdown => Ok(Effect::Shutdown),
            Request::SetFilter(info) => {
                let blacklist = String::from_str("blacklist");
                if info.filter_type == blacklist {
                    self.processes_watcher.set_filter(
                        Filter::Blacklist(BlacklistFilter::new(info.list)),
                    );
                    Ok(Effect::Nothing)
                } else {
                    Err(ClientError::UnknownFilterType(info.filter_type))
                }
            },
            Request::ScriptsUpdate(u) => {
                let ghost before = self.scripts_manager.records();
                if self.scripts_manager.get_script(&u.id).is_err() {
                    let _ = self.scripts_manager.new_script(&u.id);
                }
                assert(self.scripts_manager.records().contains_key(u.id@));
                assert(self.scripts_manager.records().insert(u.id@, u.content@) =~= before.insert(
                    u.id@,
                    u.content@,
                ));
                match self.scripts_manager.update(&u.id, &u.content) {
                    Ok(script) => Ok(
                        Effect::WriteScript(script.path().clone(), script.content().clone()),
                    ),
                    Err(e) => Err(ClientError::Script(e)),
                }
            },
            Request::ScriptsRemove(id) => match self.scripts_manager.remove(&id) {
                Ok(script) => Ok(Effect::RemoveScript(script.path().clone())),
                Err(e) => Err(ClientError::Script(e)),
            },
            Request::ScriptsExec(id) => match self.scripts_manager.get_script(&id) {
                Ok(script) => Ok(
                    Effect::ExecScript(id, script.path().clone(), script.content().clone()),
                ),
                Err(e) => Err(ClientError::Script(e)),
            },
        }
    }

    /// Dispatches one command: routes it through the registry and applies the
    /// handler to the subsystem it drives.
    pub fn dispatch(&mut self, command: &String, payload: &Json) -> (r: Result<Effect, ClientError>)
        requires
            old(self).wf(),
        ensures
            final(self).wf(),
            !old(self).executor.handlers().contains_key(command@) ==> unchanged(
                *old(self),
                *final(self),
            ) && (r matches Err(ClientError::Dispatch(commands_executor::Error::NoHandler(n)))
                && n@ == command@),
            old(self).executor.handlers().contains_key(command@) && !decodable(
                old(self).executor.handlers()[command@],
                *payload,
            ) ==> unchanged(*old(self), *final(self)) && (r matches Err(
                ClientError::Dispatch(commands_executor::Error::PayloadDecode(n)),
            ) && n@ == command@),
            old(self).executor.handlers().contains_key(command@) && decodable(
                old(self).executor.handlers()[command@],
                *payload,
            ) ==> outcome(
                *old(self),
                *final(self),
                old(self).executor.handlers()[command@],
                *payload,
                r,
            ),
    {
        let ghost h = self.executor.handlers()[command@];
        match self.executor.handle(command, payload) {
            Err(e) => Err(ClientError::Dispatch(e)),
            Ok(req) => self.apply(req, Ghost(h), Ghost(*payload)),
        }
    }
}

} // verus!
