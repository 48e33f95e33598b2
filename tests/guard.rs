use host_agent::processes_watcher::{
    BlacklistFilter, Filter, NoneFilter, ProcessEntry, ProcessesFilter, ProcessesWatcher,
};

fn entry(pid: u32, exe: Option<&str>) -> ProcessEntry {
    ProcessEntry { pid, exe: exe.map(|e| e.to_string()) }
}

fn table() -> Vec<ProcessEntry> {
    vec![
        entry(1, Some("/sbin/init")),
        entry(7, Some("/bin/evil")),
        entry(8, None),
        entry(9, Some("/bin/evil2")),
        entry(12, Some("/bin/evil")),
    ]
}

#[test]
fn blacklist_matches_full_path_only() {
    let f = BlacklistFilter::new(vec!["/bin/evil".to_string()]);
    assert!(f.is_restricted("/bin/evil"));
    assert!(!f.is_restricted("/bin/evi"));
    assert!(!f.is_restricted("/bin"));
    assert!(!f.is_restricted("bin/evil"));
    assert!(!f.is_restricted("/bin/evil2"));
    assert!(!f.is_restricted("/usr/bin/evil"));
    assert!(!f.is_restricted(""));
}

#[test]
fn none_filter_restricts_nothing() {
    assert!(!NoneFilter {}.is_restricted("/bin/evil"));
    assert!(!NoneFilter {}.is_restricted(""));
}

#[test]
fn empty_blacklist_restricts_nothing() {
    let f = BlacklistFilter::new(vec![]);
    assert!(!f.is_restricted("/bin/evil"));
}

#[test]
fn new_watcher_spares_all() {
    let w = ProcessesWatcher::new();
    assert_eq!(w.check(&table()), Vec::<u32>::new());
}

#[test]
fn blacklist_poll_picks_matching_processes() {
    let mut w = ProcessesWatcher::new();
    w.set_filter(Filter::Blacklist(BlacklistFilter::new(vec!["/bin/evil".to_string()])));
    assert_eq!(w.check(&table()), vec![7, 12]);
    assert!(w.is_restricted("/bin/evil"));
    assert!(!w.is_restricted("/sbin/init"));
}

#[test]
fn clearing_the_policy_stops_terminations() {
    let mut w = ProcessesWatcher::new();
    w.set_filter(Filter::Blacklist(BlacklistFilter::new(vec!["/bin/evil".to_string()])));
    assert_eq!(w.check(&table()), vec![7, 12]);
    w.set_filter(Filter::AllowAll(NoneFilter {}));
    assert_eq!(w.check(&table()), Vec::<u32>::new());
    assert!(!w.is_restricted("/bin/evil"));
}

#[test]
fn empty_process_table() {
    let mut w = ProcessesWatcher::new();
    w.set_filter(Filter::Blacklist(BlacklistFilter::new(vec!["/bin/evil".to_string()])));
    assert_eq!(w.check(&vec![]), Vec::<u32>::new());
}
