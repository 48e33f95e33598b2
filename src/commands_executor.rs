//! The dispatch registry: routes a command name to its registered handler and
//! decodes the payload into the shape that handler expects.
use vstd::prelude::*;
use dict::{Dict, DictEntry};
use crate::json::{
    Json, FilterInfo, ScriptUpdate, decode_script_id, spec_filter_info, spec_script_update,
    spec_script_id,
};

verus! {

#[verifier::external_type_specification]
#[verifier::external_body]
#[verifier::reject_recursive_types(T)]
pub struct ExDictEntry<T>(DictEntry<T>);

/// The hash under which dict files an entry: `hash_f` of the key string
/// (std's `DefaultHasher`, which has fixed keys).
pub uninterp spec fn key_hash(k: Seq<char>) -> u64;

/// The entries of a dict of registration buckets, by key hash, each as the
/// views of the registrations in its bucket.
pub uninterp spec fn dict_table(d: Vec<DictEntry<Vec<Registration>>>) -> Map<
    u64,
    Seq<(Seq<char>, Handler)>,
>;

/// Relies on dict's `Dict::new` (an empty `Vec`): a dict with no entries.
#[verifier::external_body]
fn table_new() -> (r: Dict<Vec<Registration>>)
    ensures
        dict_table(r).dom() == Set::<u64>::empty(),
{
    Dict::<Vec<Registration>>::new()
}

/// Relies on dict's `DictIface::add`: it refuses (`false`, nothing changed)
/// when an entry with the key's hash is present, else files the value under
/// that hash and returns `true`.
#[verifier::external_body]
fn table_add(d: &mut Dict<Vec<Registration>>, key: String, val: Vec<Registration>) -> (r: bool)
    ensures
        r == !dict_table(*old(d)).contains_key(key_hash(key@)),
        r ==> dict_table(*final(d)) == dict_table(*old(d)).insert(key_hash(key@), bucket_view(val@)),
        !r ==> dict_table(*final(d)) == dict_table(*old(d)),
{
    dict::DictIface::add(d, key, val)
}

/// Relies on dict's `DictIface::get`: the value filed under the key's hash.
#[verifier::external_body]
fn table_get<'a>(d: &'a Dict<Vec<Registration>>, key: &str) -> (r: Option<&'a Vec<Registration>>)
    ensures
        r is Some == dict_table(*d).contains_key(key_hash(key@)),
        r matches Some(x) ==> bucket_view(x@) == dict_table(*d)[key_hash(key@)],
{
    dict::DictIface::get(d, key)
}

/// Relies on dict's `DictIface::remove_key`: it takes out the entry filed
/// under the key's hash, if any, and returns its value.
#[verifier::external_body]
fn table_remove(d: &mut Dict<Vec<Registration>>, key: &str) -> (r: Option<Vec<Registration>>)
    ensures
        dict_table(*final(d)) == dict_table(*old(d)).remove(key_hash(key@)),
        r is Some == dict_table(*old(d)).contains_key(key_hash(key@)),
        r matches Some(x) ==> bucket_view(x@) == dict_table(*old(d))[key_hash(key@)],
{
    dict::DictIface::remove_key(d, key)
}

/// A failed dispatch.
#[derive(Debug)]
pub enum Error {
    /// No handler is registered under the command's name.
    NoHandler(String),
    /// The payload does not have the shape that the handler expects.
    PayloadDecode(String),
}

impl Error {
    /// A one-line description for the log.
    pub fn message(&self) -> (r: String)
        ensures
            self matches Error::NoHandler(c) ==> r@ == "No handler for command: "@ + c@,
            self matches Error::PayloadDecode(c) ==> r@ == "Malformed payload for command: "@ + c@,
    {
        match self {
            Error::NoHandler(c) => {
                let mut r = String::from_str("No handler for command: ");
                r.append(c.as_str());
                r
            },
            Error::PayloadDecode(c) => {
                let mut r = String::from_str("Malformed payload for command: ");
                r.append(c.as_str());
                r
            },
        }
    }
}

/// A handler that takes no input: the payload is ignored.
#[derive(PartialEq, Eq, Structural, Clone, Copy, Debug)]
pub enum PlainHandler {
    Shutdown,
}

/// A handler that takes a value decoded from the payload.
#[derive(PartialEq, Eq, Structural, Clone, Copy, Debug)]
pub enum DataHandler {
    /// Takes a policy change (`FilterInfo`).
    SetFilter,
    /// Takes a script update (`ScriptUpdate`).
    ScriptsUpdate,
    /// Takes a script reference (`{id}`).
    ScriptsRemove,
    /// Takes a script reference (`{id}`).
    ScriptsExec,
}

/// What a name is routed to.
#[derive(PartialEq, Eq, Structural, Clone, Copy, Debug)]
pub enum Handler {
    Plain(PlainHandler),
    WithData(DataHandler),
}

/// A handler invocation whose input has been decoded.
pub enum Request {
    Shutdown,
    SetFilter(FilterInfo),
    ScriptsUpdate(ScriptUpdate),
    ScriptsRemove(String),
    ScriptsExec(String),
}

/// The payload can be decoded into the input that `h` expects.
pub open spec fn decodable(h: Handler, payload: Json) -> bool {
    match h {
        Handler::Plain(_) => true,
        Handler::WithData(DataHandler::SetFilter) => spec_filter_info(payload) is Some,
        Handler::WithData(DataHandler::ScriptsUpdate) => spec_script_update(payload) is Some,
        Handler::WithData(DataHandler::ScriptsRemove) => spec_script_id(payload) is Some,
        Handler::WithData(DataHandler::ScriptsExec) => spec_script_id(payload) is Some,
    }
}

/// `req` is the invocation of `h` on the input decoded from `payload`.
pub open spec fn decodes_to(h: Handler, payload: Json, req: Request) -> bool {
    match (h, req) {
        (Handler::Plain(PlainHandler::Shutdown), Request::Shutdown) => true,
        (Handler::WithData(DataHandler::SetFilter), Request::SetFilter(f)) =>
            spec_filter_info(payload) == Some(f@),
        (Handler::WithData(DataHandler::ScriptsUpdate), Request::ScriptsUpdate(u)) =>
            spec_script_update(payload) == Some(u@),
        (Handler::WithData(DataHandler::ScriptsRemove), Request::ScriptsRemove(id)) =>
            spec_script_id(payload) == Some(id@),
        (Handler::WithData(DataHandler::ScriptsExec), Request::ScriptsExec(id)) =>
            spec_script_id(payload) == Some(id@),
        _ => false,
    }
}

/// Decodes the payload for `h`.
pub fn decode(h: Handler, payload: &Json) -> (r: Option<Request>)
    ensures
        r is Some == decodable(h, *payload),
        r matches Some(req) ==> decodes_to(h, *payload, req),
{
    match h {
        Handler::Plain(PlainHandler::Shutdown) => Some(Request::Shutdown),
        Handler::WithData(DataHandler::SetFilter) => match FilterInfo::decode(payload) {
            Some(f) => Some(Request::SetFilter(f)),
            None => None,
        },
        Handler::WithData(DataHandler::ScriptsUpdate) => match ScriptUpdate::decode(payload) {
            Some(u) => Some(Request::ScriptsUpdate(u)),
            None => None,
        },
        Handler::WithData(DataHandler::ScriptsRemove) => match decode_script_id(payload) {
            Some(id) => Some(Request::ScriptsRemove(id)),
            None => None,
        },
        Handler::WithData(DataHandler::ScriptsExec) => match decode_script_id(payload) {
            Some(id) => Some(Request::ScriptsExec(id)),
            None => None,
        },
    }
}

/// One registration: the name it was made under and its handler.
pub struct Registration {
    pub name: String,
    pub handler: Handler,
}

impl View for Registration {
    type V = (Seq<char>, Handler);

    open spec fn view(&self) -> (Seq<char>, Handler) {
        (self.name@, self.handler)
    }
}

/// The views of the registrations of a bucket.
pub open spec fn bucket_view(b: Seq<Registration>) -> Seq<(Seq<char>, Handler)> {
    b.map_values(|r: Registration| r@)
}

/// The handler that a bucket holds for `name`: its last registration under
/// that name.
pub open spec fn find(b: Seq<(Seq<char>, Handler)>, name: Seq<char>) -> Option<Handler>
    decreases b.len(),
{
    if b.len() == 0 {
        None
    } else if b.last().0 == name {
        Some(b.last().1)
    } else {
        find(b.drop_last(), name)
    }
}

/// The registry of command handlers. Names are filed in dict by their hash;
/// each entry is a bucket of the registrations whose names share that hash.
pub struct CommandsExecutor {
    commands_handler: Dict<Vec<Registration>>,
}

impl CommandsExecutor {
    /// The name-to-handler mapping.
    pub closed spec fn handlers(&self) -> Map<Seq<char>, Handler> {
        let t = dict_table(self.commands_handler);
        Map::new(
            |k: Seq<char>| t.contains_key(key_hash(k)) && find(t[key_hash(k)], k) is Some,
            |k: Seq<char>| find(t[key_hash(k)], k)->0,
        )
    }

    /// An empty registry.
    pub fn new() -> (r: CommandsExecutor)
        ensures
            r.handlers() == Map::<Seq<char>, Handler>::empty(),
    {
        let r = CommandsExecutor { commands_handler: table_new() };
        assert(r.handlers() =~= Map::<Seq<char>, Handler>::empty());
        r
    }

    /// Routes `command` to `handler`, replacing what was registered under
    /// that name and no other.
    pub fn register(&mut self, command: String, handler: Handler)
        ensures
            final(self).handlers() == old(self).handlers().insert(command@, handler),
    {
        let ghost m = self.handlers();
        let ghost t = dict_table(self.commands_handler);
        let ghost h = key_hash(command@);
        let bucket = match table_remove(&mut self.commands_handler, command.as_str()) {
            Some(b) => b,
            None => Vec::new(),
        };
        let ghost old_b: Seq<(Seq<char>, Handler)> = if t.contains_key(h) {
            t[h]
        } else {
            Seq::empty()
        };
        assert(bucket_view(bucket@) == old_b) by {
            if !t.contains_key(h) {
                assert(bucket_view(bucket@) =~= Seq::<(Seq<char>, Handler)>::empty());
            }
        }
        let mut kept: Vec<Registration> = Vec::new();
        let mut i: usize = 0;
        while i < bucket.len()
            invariant
                i <= bucket@.len(),
                bucket_view(bucket@) == old_b,
                find(bucket_view(kept@), command@) is None,
                forall|k: Seq<char>|
                    k != command@ ==> #[trigger] find(bucket_view(kept@), k) == find(
                        bucket_view(bucket@).subrange(0, i as int),
                        k,
                    ),
            decreases bucket.len() - i,
        {
            let ghost before = kept@;
            assert(bucket_view(bucket@).subrange(0, i as int + 1).drop_last() =~= bucket_view(
                bucket@,
            ).subrange(0, i as int));
            let ghost cur = bucket_view(bucket@).subrange(0, i as int + 1);
            assert(cur.last() == bucket@[i as int]@);
            if bucket[i].name != command {
                let r = Registration { name: bucket[i].name.clone(), handler: bucket[i].handler };
                kept.push(r);
                assert(bucket_view(kept@).drop_last() =~= bucket_view(before));
                assert(bucket_view(kept@).last() == bucket@[i as int]@);
            }
            assert forall|k: Seq<char>| k != command@ implies #[trigger] find(
                bucket_view(kept@),
                k,
            ) == find(cur, k) by {
                assert(find(bucket_view(before), k) == find(
                    bucket_view(bucket@).subrange(0, i as int),
                    k,
                ));
            }
            i = i + 1;
        }
        assert(bucket_view(bucket@).subrange(0, bucket@.len() as int) =~= bucket_view(bucket@));
        let ghost kept_before = kept@;
        let name = command.clone();
        kept.push(Registration { name, handler });
        assert(bucket_view(kept@).drop_last() =~= bucket_view(kept_before));
        let ghost nb = bucket_view(kept@);
        let added = table_add(&mut self.commands_handler, command, kept);
        assert(added);
        assert(nb.last() == (command@, handler));
        assert forall|k: Seq<char>| k != command@ && key_hash(k) == h implies find(nb, k) == find(
            old_b,
            k,
        ) by {
            assert(find(bucket_view(kept_before), k) == find(
                bucket_view(bucket@).subrange(0, bucket@.len() as int),
                k,
            ));
        }
        assert(self.handlers() =~= m.insert(command@, handler));
    }

    /// Registers a handler that takes no input.
    pub fn add_handler(&mut self, command: String, handler: PlainHandler)
        ensures
            final(self).handlers() == old(self).handlers().insert(command@, Handler::Plain(handler)),
    {
        self.register(command, Handler::Plain(handler))
    }

    /// Registers a handler that takes a value decoded from the payload.
    pub fn add_handler_with_data(&mut self, command: String, handler: DataHandler)
        ensures
            final(self).handlers() == old(self).handlers().insert(
                command@,
                Handler::WithData(handler),
            ),
    {
        self.register(command, Handler::WithData(handler))
    }

    /// The handler registered under `command`, if any.
    pub fn lookup(&self, command: &String) -> (r: Option<Handler>)
        ensures
            r is Some == self.handlers().contains_key(command@),
            r matches Some(h) ==> h == self.handlers()[command@],
    {
        match table_get(&self.commands_handler, command.as_str()) {
            Some(bucket) => {
                let ghost t = dict_table(self.commands_handler);
                assert(bucket_view(bucket@).subrange(0, bucket@.len() as int) =~= bucket_view(
                    bucket@,
                ));
                let mut i: usize = bucket.len();
                while i > 0
                    invariant
                        i <= bucket@.len(),
                        t == dict_table(self.commands_handler),
                        t.contains_key(key_hash(command@)),
                        bucket_view(bucket@) == t[key_hash(command@)],
                        find(bucket_view(bucket@), command@) == find(
                            bucket_view(bucket@).subrange(0, i as int),
                            command@,
                        ),
                    decreases i,
                {
                    assert(bucket_view(bucket@).subrange(0, i as int).drop_last() =~= bucket_view(
                        bucket@,
                    ).subrange(0, i as int - 1));
                    if bucket[i - 1].name == *command {
                        assert(bucket_view(bucket@).subrange(0, i as int).last() == bucket[i
                            - 1]@);
                        return Some(bucket[i - 1].handler);
                    }
                    i = i - 1;
                }
                None
            },
            None => None,
        }
    }

    /// Dispatches a command: finds its handler and decodes the payload into
    /// the invocation of that handler.
    pub fn handle(&self, command: &String, value: &Json) -> (r: Result<Request, Error>)
        ensures
            !self.handlers().contains_key(command@) ==> (r matches Err(Error::NoHandler(c))
                && c@ == command@),
            self.handlers().contains_key(command@) && !decodable(
                self.handlers()[command@],
                *value,
            ) ==> (r matches Err(Error::PayloadDecode(c)) && c@ == command@),
            self.handlers().contains_key(command@) && decodable(
                self.handlers()[command@],
                *value,
            ) ==> (r matches Ok(req) && decodes_to(self.handlers()[command@], *value, req)),
    {
        match self.lookup(command) {
            None => Err(Error::NoHandler(command.clone())),
            Some(h) => match decode(h, value) {
                Some(req) => Ok(req),
                None => Err(Error::PayloadDecode(command.clone())),
            },
        }
    }
}

/// After a registration, the name routes to the handler just registered.
pub proof fn registration_routes_name(m: Map<Seq<char>, Handler>, name: Seq<char>, h: Handler)
    ensures
        m.insert(name, h).contains_key(name),
        m.insert(name, h)[name] == h,
{
}

/// Of two registrations under one name, the second is the one that is
/// routed to, as if the first had never been made.
pub proof fn last_registration_wins(
    m: Map<Seq<char>, Handler>,
    name: Seq<char>,
    first: Handler,
    second: Handler,
)
    ensures
        m.insert(name, first).insert(name, second)[name] == second,
        m.insert(name, first).insert(name, second) == m.insert(name, second),
{
    assert(m.insert(name, first).insert(name, second) =~= m.insert(name, second));
}

/// A registration leaves every other name as it was: registered or not, and
/// to the same handler.
pub proof fn registration_keeps_others(
    m: Map<Seq<char>, Handler>,
    name: Seq<char>,
    h: Handler,
    other: Seq<char>,
)
    requires
        other != name,
    ensures
        m.insert(name, h).contains_key(other) == m.contains_key(other),
        m.contains_key(other) ==> m.insert(name, h)[other] == m[other],
{
}

} // verus!
