use koala_clash::config::Config;
use koala_clash::doc::Value;
use koala_clash::draft::Draft;
use koala_clash::profiles::{IProfiles, PrfItem, PrfKind};

#[test]
fn snapshot_isolation_across_commit() {
    let mut cell: Draft<i32> = Draft::from(1);
    let snap = cell.latest();
    cell.set_draft(2);
    cell.commit();
    // the captured snapshot still shows the value committed at capture time
    assert_eq!(*snap, 1);
    // new readers see the committed draft
    assert_eq!(*cell.latest(), 2);
}

#[test]
fn draft_in_progress_is_reentrant() {
    let mut cell: Draft<i32> = Draft::from(7);
    assert!(cell.open_draft(8));
    // a second independent draft is rejected; the first edit stays
    assert!(!cell.open_draft(9));
    assert_eq!(cell.draft_ref(), Some(&8));
    cell.commit();
    assert_eq!(*cell.data(), 8);
    assert!(cell.draft_ref().is_none());
}

#[test]
fn commit_without_draft_is_a_noop() {
    let mut cell: Draft<i32> = Draft::from(3);
    cell.commit();
    assert_eq!(*cell.data(), 3);
}

#[test]
fn discard_keeps_committed_value() {
    let mut cell: Draft<i32> = Draft::from(4);
    cell.set_draft(5);
    cell.discard();
    assert_eq!(*cell.data(), 4);
    assert!(!cell.has_draft());
}

#[test]
fn registry_snapshot_survives_a_new_generation() {
    let mut c = Config::new();
    let mut p = IProfiles::new();
    p.current = Some("base".to_string());
    p.items = vec![PrfItem {
        uid: "base".to_string(),
        kind: PrfKind::Base,
        enabled: true,
        doc: Value::Mapping(vec![("port".to_string(), Value::Int(7890))]),
        script: String::new(),
        diagnostic: None,
    }];
    c.patch_profiles(p);
    let snap = c.runtime().latest();
    assert!(snap.config.is_none());
    c.generate().unwrap();
    // the old snapshot still shows the artifact committed at capture time
    assert!(snap.config.is_none());
    // new readers see the generated artifact
    assert!(c.runtime().data().config.is_some());
}
