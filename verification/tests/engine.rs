use koala_clash::config::{Config, ConfigType, GenerateError};
use koala_clash::doc::Value;
use koala_clash::enhance::Enhancer;
use koala_clash::merge::merge;
use koala_clash::profiles::{IProfiles, PrfItem, PrfKind, ProfilesError};
use koala_clash::render::render_doc;
use koala_clash::runtime::Origin;

fn item(uid: &str, kind: PrfKind, enabled: bool, doc: Value) -> PrfItem {
    PrfItem {
        uid: uid.to_string(),
        kind,
        enabled,
        doc,
        script: String::new(),
        diagnostic: None,
    }
}

fn map(entries: Vec<(&str, Value)>) -> Value {
    Value::Mapping(entries.into_iter().map(|(k, v)| (k.to_string(), v)).collect())
}

fn text(s: &str) -> Value {
    Value::Text(s.to_string())
}

fn profiles(current: Option<&str>, chain: Vec<&str>, items: Vec<PrfItem>) -> IProfiles {
    let mut p = IProfiles::new();
    p.current = current.map(|c| c.to_string());
    p.chain = chain.into_iter().map(|c| c.to_string()).collect();
    p.items = items;
    p
}

#[test]
fn merge_is_deep_and_keeps_untouched_keys() {
    let base = map(vec![
        ("server", map(vec![("host", text("a")), ("port", Value::Int(1))])),
        ("keep", Value::Bool(true)),
    ]);
    let patch = map(vec![
        ("server", map(vec![("port", Value::Int(2))])),
        ("extra", Value::List(vec![Value::Int(1), Value::Int(2)])),
    ]);
    let merged = merge(&base, &patch);
    let expected = map(vec![
        ("server", map(vec![("host", text("a")), ("port", Value::Int(2))])),
        ("keep", Value::Bool(true)),
        ("extra", Value::List(vec![Value::Int(1), Value::Int(2)])),
    ]);
    assert_eq!(merged, expected);
}

#[test]
fn merge_replaces_lists_and_scalars_wholesale() {
    let base = map(vec![("l", Value::List(vec![Value::Int(1), Value::Int(2)])), ("x", Value::Int(5))]);
    let patch = map(vec![("l", Value::List(vec![Value::Int(9)])), ("x", map(vec![("y", Value::Int(1))]))]);
    let merged = merge(&base, &patch);
    let expected = map(vec![
        ("l", Value::List(vec![Value::Int(9)])),
        ("x", map(vec![("y", Value::Int(1))])),
    ]);
    assert_eq!(merged, expected);
}

#[test]
fn enhance_is_deterministic() {
    let p = profiles(
        Some("base"),
        vec!["m1", "m2"],
        vec![
            item("base", PrfKind::Base, true, map(vec![("port", Value::Int(7890))])),
            item("m1", PrfKind::Merge, true, map(vec![("mode", text("rule"))])),
            item("m2", PrfKind::Merge, true, map(vec![("port", Value::Int(9000))])),
        ],
    );
    let (d1, k1, l1) = koala_clash::enhance::enhance(&p).unwrap();
    let (d2, k2, l2) = koala_clash::enhance::enhance(&p).unwrap();
    assert_eq!(d1, d2);
    assert_eq!(k1, k2);
    assert_eq!(l1, l2);
    // byte-identical canonical text
    let t1: String = render_doc(&d1).into_iter().collect();
    let t2: String = render_doc(&d2).into_iter().collect();
    assert_eq!(t1, t2);
    assert_eq!(d1, map(vec![("port", Value::Int(9000)), ("mode", text("rule"))]));
}

#[test]
fn disabled_item_does_not_win() {
    let p = profiles(
        Some("base"),
        vec!["d", "m"],
        vec![
            item("base", PrfKind::Base, true, map(vec![("k", text("v0"))])),
            item("d", PrfKind::Merge, false, map(vec![("k", text("v2"))])),
            item("m", PrfKind::Merge, true, map(vec![("k", text("v"))])),
        ],
    );
    let (doc, keys, logs) = koala_clash::enhance::enhance(&p).unwrap();
    assert_eq!(doc, map(vec![("k", text("v"))]));
    // provenance: k belongs to the enabled item, not the disabled one
    assert_eq!(keys.len(), 1);
    assert_eq!(keys[0].key, "k".to_string());
    assert_eq!(keys[0].origin, Origin::Item("m".to_string()));
    // the disabled item left no log entry
    assert_eq!(logs.len(), 1);
    assert_eq!(logs[0].uid, "m".to_string());
    assert!(logs[0].ok);
}

#[test]
fn failed_script_is_isolated_and_chain_continues() {
    let mut script_item = item("s", PrfKind::Script, true, map(vec![]));
    script_item.script = "function main(config) { throw 'boom'; }".to_string();
    let p = profiles(
        Some("base"),
        vec!["s", "m2"],
        vec![
            item("base", PrfKind::Base, true, map(vec![("a", Value::Int(1))])),
            script_item,
            item("m2", PrfKind::Merge, true, map(vec![("b", Value::Int(2))])),
        ],
    );
    let mut e = Enhancer::new(&p).unwrap();
    e.run_auto();
    assert!(e.pending_script());
    let before = e.current_doc().deep_dup();
    e.step_script(Err("boom".to_string()));
    // the accumulator is exactly what it was before the failed step
    assert_eq!(*e.current_doc(), before);
    e.run_auto();
    assert!(e.is_done());
    let (doc, _keys, logs) = e.finish();
    // downstream items still executed
    assert_eq!(doc, map(vec![("a", Value::Int(1)), ("b", Value::Int(2))]));
    // exactly one failure entry for the script step
    assert_eq!(logs.len(), 2);
    assert_eq!(logs[0].uid, "s".to_string());
    assert!(!logs[0].ok);
    assert_eq!(logs[0].message, "boom".to_string());
    assert_eq!(logs[0].keys, Vec::<String>::new());
    assert_eq!(logs[1].uid, "m2".to_string());
    assert!(logs[1].ok);
}

#[test]
fn successful_script_replaces_accumulator() {
    let p = profiles(
        Some("base"),
        vec!["s"],
        vec![
            item("base", PrfKind::Base, true, map(vec![("a", Value::Int(1))])),
            item("s", PrfKind::Script, true, map(vec![])),
        ],
    );
    let mut e = Enhancer::new(&p).unwrap();
    e.run_auto();
    assert!(e.pending_script());
    let changed = map(vec![("a", Value::Int(1)), ("c", Value::Int(3))]);
    e.step_script(Ok((changed, "fine".to_string())));
    e.run_auto();
    let (doc, keys, logs) = e.finish();
    assert_eq!(doc, map(vec![("a", Value::Int(1)), ("c", Value::Int(3))]));
    assert_eq!(keys.len(), 2);
    assert_eq!(keys[1].origin, Origin::Item("s".to_string()));
    assert_eq!(logs.len(), 1);
    assert!(logs[0].ok);
    assert_eq!(logs[0].message, "fine".to_string());
}

#[test]
fn init_config_creates_builtin_items_exactly_once() {
    let mut c = Config::new();
    let first = c.init_config();
    // an empty registry designates no current profile, so generation fails
    assert_eq!(first, Err(GenerateError::NoCurrentProfile));
    let count = |c: &Config, uid: &str| {
        c.profiles().data().items.iter().filter(|it| it.uid == uid).count()
    };
    assert_eq!(count(&c, "Merge"), 1);
    assert_eq!(count(&c, "Script"), 1);
    // running it again does not duplicate them
    let _ = c.init_config();
    assert_eq!(count(&c, "Merge"), 1);
    assert_eq!(count(&c, "Script"), 1);
    assert_eq!(
        c.profiles().data().get_item(&"Merge".to_string()).unwrap().kind,
        PrfKind::Merge
    );
    assert_eq!(
        c.profiles().data().get_item(&"Script".to_string()).unwrap().kind,
        PrfKind::Script
    );
}

#[test]
fn generate_and_generate_file_produce_the_canonical_text() {
    let mut c = Config::new();
    // before any generation the artifact is absent
    assert_eq!(c.generate_file(ConfigType::Run), Err(GenerateError::NoRuntimeConfig));
    c.patch_profiles(profiles(
        Some("base"),
        vec![],
        vec![item("base", PrfKind::Base, true, map(vec![("port", Value::Int(7890))]))],
    ));
    c.generate().unwrap();
    let (name, text) = c.generate_file(ConfigType::Run).unwrap();
    assert_eq!(name, "koala-clash.yaml".to_string());
    assert_eq!(text, "# Generated by Koala Clash\n\"port\": 7890\n".to_string());
    let (check_name, _) = c.generate_file(ConfigType::Check).unwrap();
    assert_eq!(check_name, "koala-clash-check.yaml".to_string());
}

#[test]
fn generate_reports_each_resolution_error() {
    let mut empty = Config::new();
    assert_eq!(empty.generate(), Err(GenerateError::NoCurrentProfile));

    let mut missing = Config::new();
    missing.patch_profiles(profiles(Some("gone"), vec![], vec![]));
    assert_eq!(missing.generate(), Err(GenerateError::ProfileNotFound));

    let mut scripted = Config::new();
    scripted.patch_profiles(profiles(
        Some("base"),
        vec!["s"],
        vec![
            item("base", PrfKind::Base, true, map(vec![])),
            item("s", PrfKind::Script, true, map(vec![])),
        ],
    ));
    assert_eq!(scripted.generate(), Err(GenerateError::ScriptPending));
}

#[test]
fn enhance_refuses_chains_with_enabled_scripts() {
    let p = profiles(
        Some("base"),
        vec!["s"],
        vec![
            item("base", PrfKind::Base, true, map(vec![])),
            item("s", PrfKind::Script, true, map(vec![])),
        ],
    );
    assert_eq!(
        koala_clash::enhance::enhance(&p).map(|_| ()),
        Err(koala_clash::enhance::EnhanceError::ScriptPending)
    );
}

#[test]
fn rendering_covers_every_value_shape() {
    let doc = map(vec![
        ("port", Value::Int(7890)),
        ("name", text("x\"y\\z")),
        ("flag", Value::Bool(true)),
        ("off", Value::Bool(false)),
        ("nothing", Value::Null),
        ("neg", Value::Int(-12)),
        ("list", Value::List(vec![Value::Int(1), text("a")])),
        ("sub", map(vec![("k", Value::Null), ("n", Value::Int(0))])),
    ]);
    let rendered: String = render_doc(&doc).into_iter().collect();
    let expected = "\"port\": 7890\n\"name\": \"x\\\"y\\\\z\"\n\"flag\": true\n\"off\": false\n\"nothing\": null\n\"neg\": -12\n\"list\": [1, \"a\"]\n\"sub\": {\"k\": null, \"n\": 0}\n";
    assert_eq!(rendered, expected.to_string());
}

#[test]
fn profile_registry_rejects_duplicates_and_reports_missing_items() {
    let mut p = IProfiles::new();
    assert!(matches!(
        p.get_item(&"nope".to_string()),
        Err(ProfilesError::ItemNotFound)
    ));
    p.append_item(item("a", PrfKind::Merge, true, map(vec![]))).unwrap();
    let dup = p.append_item(item("a", PrfKind::Script, true, map(vec![])));
    assert_eq!(dup, Err(ProfilesError::DuplicateUid));
    assert_eq!(p.items.len(), 1);
}
