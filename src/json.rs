//! A structured payload value, as carried by a command, and the structural
//! decoding of the shapes that the built-in handlers expect.
use vstd::prelude::*;

verus! {

/// A structured value. Numbers are kept as their text: no handler reads them.
pub enum Json {
    Null,
    Bool(bool),
    Number(String),
    Str(String),
    Array(Vec<Json>),
    Object(Vec<(String, Json)>),
}

/// The value of the first member named `key`, searching from position `i`.
pub open spec fn member_from(fields: Seq<(String, Json)>, key: Seq<char>, i: int) -> Option<Json>
    decreases fields.len() - i,
{
    if i < 0 || i >= fields.len() {
        None
    } else if fields[i].0@ == key {
        Some(fields[i].1)
    } else {
        member_from(fields, key, i + 1)
    }
}

/// The value of the first member named `key` of an object's members.
pub open spec fn member(fields: Seq<(String, Json)>, key: Seq<char>) -> Option<Json> {
    member_from(fields, key, 0)
}

/// Looks up the first member named `key`.
pub fn get_member<'a>(fields: &'a Vec<(String, Json)>, key: &String) -> (r: Option<&'a Json>)
    ensures
        r matches Some(v) ==> member(fields@, key@) == Some(*v),
        r is None ==> member(fields@, key@) is None,
{
    let mut i: usize = 0;
    while i < fields.len()
        invariant
            i <= fields@.len(),
            member_from(fields@, key@, 0) == member_from(fields@, key@, i as int),
        decreases fields.len() - i,
    {
        if fields[i].0 == *key {
            return Some(&fields[i].1);
        }
        i = i + 1;
    }
    None
}


/// Every item of `items` is a string.
pub open spec fn all_strings(items: Seq<Json>) -> bool {
    forall|i: int| 0 <= i < items.len() ==> items[i] is Str
}

/// The texts of a sequence of strings.
pub open spec fn texts(items: Seq<Json>) -> Seq<Seq<char>> {
    items.map_values(|j: Json| j->Str_0@)
}

/// The texts of a sequence of owned strings.
pub open spec fn string_views(v: Seq<String>) -> Seq<Seq<char>> {
    v.map_values(|s: String| s@)
}

/// The value that an optional reference points to.
pub open spec fn owned(v: Option<&Json>) -> Option<Json> {
    match v {
        Some(j) => Some(*j),
        None => None,
    }
}

/// The string that `v` decodes to, if it is one.
pub open spec fn spec_string(v: Option<Json>) -> Option<Seq<char>> {
    match v {
        Some(Json::Str(s)) => Some(s@),
        _ => None,
    }
}

/// The list of strings that `v` decodes to, if it is an array of strings.
pub open spec fn spec_string_list(v: Option<Json>) -> Option<Seq<Seq<char>>> {
    match v {
        Some(Json::Array(items)) => if all_strings(items@) {
            Some(texts(items@))
        } else {
            None
        },
        _ => None,
    }
}

/// Decodes a string.
pub fn decode_string(v: Option<&Json>) -> (r: Option<String>)
    ensures
        r matches Some(s) ==> spec_string(owned(v)) == Some(s@),
        r is None ==> spec_string(owned(v)) is None,
{
    match v {
        Some(Json::Str(s)) => Some(s.clone()),
        _ => None,
    }
}

/// Decodes an array of strings.
pub fn decode_string_list(v: Option<&Json>) -> (r: Option<Vec<String>>)
    ensures
        r matches Some(l) ==> spec_string_list(owned(v)) == Some(string_views(l@)),
        r is None ==> spec_string_list(owned(v)) is None,
{
    match v {
        Some(Json::Array(items)) => {
            let mut out: Vec<String> = Vec::new();
            let mut i: usize = 0;
            while i < items.len()
                invariant
                    owned(v) == Some(Json::Array(*items)),
                    i <= items@.len(),
                    out@.len() == i,
                    forall|k: int| 0 <= k < i ==> items@[k] is Str,
                    forall|k: int| 0 <= k < i ==> out@[k]@ == items@[k]->Str_0@,
                decreases items.len() - i,
            {
                match &items[i] {
                    Json::Str(s) => out.push(s.clone()),
                    _ => {
                        assert(!all_strings(items@));
                        return None;
                    },
                }
                i = i + 1;
            }
            assert(string_views(out@) =~= texts(items@));
            Some(out)
        },
        _ => None,
    }
}

/// The payload of a policy change: a policy kind and a list of executable paths.
pub struct FilterInfo {
    pub filter_type: String,
    pub list: Vec<String>,
}

impl View for FilterInfo {
    type V = (Seq<char>, Seq<Seq<char>>);

    open spec fn view(&self) -> (Seq<char>, Seq<Seq<char>>) {
        (self.filter_type@, string_views(self.list@))
    }
}

/// What a payload decodes to as a policy change: an object with a string
/// member `type` and a member `list` that is an array of strings.
pub open spec fn spec_filter_info(v: Json) -> Option<(Seq<char>, Seq<Seq<char>>)> {
    match v {
        Json::Object(fields) => match (
            spec_string(member(fields@, "type"@)),
            spec_string_list(member(fields@, "list"@)),
        ) {
            (Some(t), Some(l)) => Some((t, l)),
            _ => None,
        },
        _ => None,
    }
}

impl FilterInfo {
    /// Decodes a policy change from a payload.
    pub fn decode(v: &Json) -> (r: Option<FilterInfo>)
        ensures
            r matches Some(f) ==> spec_filter_info(*v) == Some(f@),
            r is None ==> spec_filter_info(*v) is None,
    {
        match v {
            Json::Object(fields) => {
                let type_key = String::from_str("type");
                let list_key = String::from_str("list");
                let t = decode_string(get_member(fields, &type_key));
                let l = decode_string_list(get_member(fields, &list_key));
                match (t, l) {
                    (Some(filter_type), Some(list)) => Some(FilterInfo { filter_type, list }),
                    _ => None,
                }
            },
            _ => None,
        }
    }
}

/// The payload of a script update: a script id and its new content.
pub struct ScriptUpdate {
    pub id: String,
    pub content: String,
}

impl View for ScriptUpdate {
    type V = (Seq<char>, Seq<char>);

    open spec fn view(&self) -> (Seq<char>, Seq<char>) {
        (self.id@, self.content@)
    }
}

/// What a payload decodes to as a script update: an object with string
/// members `id` and `content`.
pub open spec fn spec_script_update(v: Json) -> Option<(Seq<char>, Seq<char>)> {
    match v {
        Json::Object(fields) => match (
            spec_string(member(fields@, "id"@)),
            spec_string(member(fields@, "content"@)),
        ) {
            (Some(i), Some(c)) => Some((i, c)),
            _ => None,
        },
        _ => None,
    }
}

impl ScriptUpdate {
    /// Decodes a script update from a payload.
    pub fn decode(v: &Json) -> (r: Option<ScriptUpdate>)
        ensures
            r matches Some(u) ==> spec_script_update(*v) == Some(u@),
            r is None ==> spec_script_update(*v) is None,
    {
        match v {
            Json::Object(fields) => {
                let id_key = String::from_str("id");
                let content_key = String::from_str("content");
                let i = decode_string(get_member(fields, &id_key));
                let c = decode_string(get_member(fields, &content_key));
                match (i, c) {
                    (Some(id), Some(content)) => Some(ScriptUpdate { id, content }),
                    _ => None,
                }
            },
            _ => None,
        }
    }
}

/// What a payload decodes to as a script reference: an object with a string
/// member `id`.
pub open spec fn spec_script_id(v: Json) -> Option<Seq<char>> {
    match v {
        Json::Object(fields) => spec_string(member(fields@, "id"@)),
        _ => None,
    }
}

/// Decodes a script reference from a payload.
pub fn decode_script_id(v: &Json) -> (r: Option<String>)
    ensures
        r matches Some(i) ==> spec_script_id(*v) == Some(i@),
        r is None ==> spec_script_id(*v) is None,
{
    match v {
        Json::Object(fields) => {
            let id_key = String::from_str("id");
            decode_string(get_member(fields, &id_key))
        },
        _ => None,
    }
}

} // verus!
