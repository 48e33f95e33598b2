use host_agent::commands_executor::{
    CommandsExecutor, DataHandler, Error, Handler, PlainHandler, Request,
};
use host_agent::json::{decode_script_id, FilterInfo, Json, ScriptUpdate};

fn s(x: &str) -> String {
    x.to_string()
}

fn object(fields: Vec<(&str, Json)>) -> Json {
    Json::Object(fields.into_iter().map(|(k, v)| (s(k), v)).collect())
}

#[test]
fn unregistered_name_gives_no_handler() {
    let mut ex = CommandsExecutor::new();
    ex.add_handler(s("shutdown"), PlainHandler::Shutdown);
    let r = ex.handle(&s("frobnicate"), &Json::Null);
    assert!(matches!(r, Err(Error::NoHandler(ref n)) if n == "frobnicate"));
    assert_eq!(ex.lookup(&s("frobnicate")), None);
    assert_eq!(ex.lookup(&s("shutdown")), Some(Handler::Plain(PlainHandler::Shutdown)));
}

#[test]
fn second_registration_wins() {
    let mut ex = CommandsExecutor::new();
    ex.add_handler(s("x"), PlainHandler::Shutdown);
    ex.add_handler_with_data(s("x"), DataHandler::ScriptsExec);
    assert_eq!(ex.lookup(&s("x")), Some(Handler::WithData(DataHandler::ScriptsExec)));
    let r = ex.handle(&s("x"), &object(vec![("id", Json::Str(s("a.lua")))]));
    assert!(matches!(r, Ok(Request::ScriptsExec(ref id)) if id == "a.lua"));
}

#[test]
fn register_replaces_and_keeps_others() {
    let mut ex = CommandsExecutor::new();
    ex.register(s("a"), Handler::Plain(PlainHandler::Shutdown));
    ex.register(s("b"), Handler::WithData(DataHandler::ScriptsRemove));
    ex.register(s("a"), Handler::WithData(DataHandler::SetFilter));
    assert_eq!(ex.lookup(&s("a")), Some(Handler::WithData(DataHandler::SetFilter)));
    assert_eq!(ex.lookup(&s("b")), Some(Handler::WithData(DataHandler::ScriptsRemove)));
}

#[test]
fn malformed_payload_gives_decode_error() {
    let mut ex = CommandsExecutor::new();
    ex.add_handler_with_data(s("scripts-update"), DataHandler::ScriptsUpdate);
    let r = ex.handle(&s("scripts-update"), &object(vec![("id", Json::Str(s("a.lua")))]));
    assert!(matches!(r, Err(Error::PayloadDecode(ref n)) if n == "scripts-update"));
    let r = ex.handle(&s("scripts-update"), &Json::Str(s("a.lua")));
    assert!(matches!(r, Err(Error::PayloadDecode(_))));
}

#[test]
fn plain_handler_ignores_payload() {
    let mut ex = CommandsExecutor::new();
    ex.add_handler(s("shutdown"), PlainHandler::Shutdown);
    assert!(matches!(ex.handle(&s("shutdown"), &Json::Bool(true)), Ok(Request::Shutdown)));
    assert!(matches!(ex.handle(&s("shutdown"), &Json::Null), Ok(Request::Shutdown)));
}

#[test]
fn error_messages() {
    assert_eq!(Error::NoHandler(s("frobnicate")).message(), "No handler for command: frobnicate");
    assert_eq!(
        Error::PayloadDecode(s("scripts-exec")).message(),
        "Malformed payload for command: scripts-exec"
    );
}

#[test]
fn filter_info_decodes() {
    let v = object(vec![
        ("type", Json::Str(s("blacklist"))),
        ("list", Json::Array(vec![Json::Str(s("/bin/evil")), Json::Str(s("/bin/bad"))])),
    ]);
    let f = FilterInfo::decode(&v).unwrap();
    assert_eq!(f.filter_type, "blacklist");
    assert_eq!(f.list, vec![s("/bin/evil"), s("/bin/bad")]);
}

#[test]
fn filter_info_rejects_non_string_items() {
    let v = object(vec![
        ("type", Json::Str(s("blacklist"))),
        ("list", Json::Array(vec![Json::Str(s("/bin/evil")), Json::Number(s("3"))])),
    ]);
    assert!(FilterInfo::decode(&v).is_none());
    let v = object(vec![("type", Json::Str(s("blacklist")))]);
    assert!(FilterInfo::decode(&v).is_none());
    assert!(FilterInfo::decode(&Json::Array(vec![])).is_none());
}

#[test]
fn first_member_of_a_name_counts() {
    let v = object(vec![
        ("id", Json::Str(s("first"))),
        ("content", Json::Str(s("log('hi')"))),
        ("id", Json::Str(s("second"))),
        ("extra", Json::Null),
    ]);
    let u = ScriptUpdate::decode(&v).unwrap();
    assert_eq!(u.id, "first");
    assert_eq!(u.content, "log('hi')");
}

#[test]
fn script_id_decodes() {
    assert_eq!(decode_script_id(&object(vec![("id", Json::Str(s("a.lua")))])), Some(s("a.lua")));
    assert_eq!(decode_script_id(&object(vec![("id", Json::Null)])), None);
    assert_eq!(decode_script_id(&Json::Str(s("a.lua"))), None);
}

#[test]
fn many_names_stay_routed() {
    let mut ex = CommandsExecutor::new();
    let names: Vec<String> = (0..200).map(|i| format!("command-{}", i)).collect();
    for n in &names {
        ex.add_handler(n.clone(), PlainHandler::Shutdown);
    }
    ex.add_handler_with_data(names[7].clone(), DataHandler::ScriptsRemove);
    for (i, n) in names.iter().enumerate() {
        let expected = if i == 7 {
            Handler::WithData(DataHandler::ScriptsRemove)
        } else {
            Handler::Plain(PlainHandler::Shutdown)
        };
        assert_eq!(ex.lookup(n), Some(expected));
    }
}
