use host_agent::scripts::{Error, ScriptsManager};

fn s(x: &str) -> String {
    x.to_string()
}

#[test]
fn create_twice_fails_and_keeps_content() {
    let mut m = ScriptsManager::new(s("/var/scripts"));
    assert!(m.new_script(&s("a.lua")).is_ok());
    assert!(m.update(&s("a.lua"), &s("print(1)")).is_ok());
    let r = m.new_script(&s("a.lua"));
    assert!(matches!(r, Err(Error::AlreadyExist(ref id)) if id == "a.lua"));
    assert_eq!(m.get_script(&s("a.lua")).unwrap().content(), "print(1)");
}

#[test]
fn created_script_is_empty_and_placed_in_dir() {
    let mut m = ScriptsManager::new(s("/var/scripts"));
    let sc = m.new_script(&s("a.lua")).unwrap();
    assert_eq!(sc.id(), "a.lua");
    assert_eq!(sc.content(), "");
    assert_eq!(sc.path(), "/var/scripts/a.lua");
}

#[test]
fn get_never_created_fails() {
    let m = ScriptsManager::new(s("/var/scripts"));
    let r = m.get_script(&s("nope"));
    assert!(matches!(r, Err(Error::NotExist(ref id)) if id == "nope"));
}

#[test]
fn update_then_get_reads_content() {
    let mut m = ScriptsManager::new(s("/var/scripts"));
    m.new_script(&s("a.lua")).unwrap();
    let u = m.update(&s("a.lua"), &s("log('hi')")).unwrap();
    assert_eq!(u.content(), "log('hi')");
    let g = m.get_script(&s("a.lua")).unwrap();
    assert_eq!(g.content(), "log('hi')");
    assert_eq!(g.path(), "/var/scripts/a.lua");
}

#[test]
fn update_absent_fails() {
    let mut m = ScriptsManager::new(s("/var/scripts"));
    let r = m.update(&s("a.lua"), &s("x"));
    assert!(matches!(r, Err(Error::NotExist(ref id)) if id == "a.lua"));
    assert!(m.get_script(&s("a.lua")).is_err());
}

#[test]
fn remove_then_get_fails() {
    let mut m = ScriptsManager::new(s("/var/scripts"));
    m.new_script(&s("a.lua")).unwrap();
    m.new_script(&s("b.lua")).unwrap();
    let r = m.remove(&s("a.lua")).unwrap();
    assert_eq!(r.path(), "/var/scripts/a.lua");
    assert!(matches!(m.get_script(&s("a.lua")), Err(Error::NotExist(_))));
    assert!(m.get_script(&s("b.lua")).is_ok());
    assert!(matches!(m.remove(&s("a.lua")), Err(Error::NotExist(_))));
}

#[test]
fn load_keeps_first_of_an_id() {
    let m = ScriptsManager::load(
        s("/var/scripts"),
        vec![(s("a.lua"), s("one")), (s("b.lua"), s("two")), (s("a.lua"), s("three"))],
    );
    assert_eq!(m.get_script(&s("a.lua")).unwrap().content(), "one");
    assert_eq!(m.get_script(&s("b.lua")).unwrap().content(), "two");
    assert!(m.get_script(&s("c.lua")).is_err());
}

#[test]
fn store_error_messages() {
    assert_eq!(Error::NotExist(s("x")).message(), "Script with id x not exists");
    assert_eq!(Error::AlreadyExist(s("x")).message(), "Script with id x already exists");
}
