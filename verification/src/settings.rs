//! The two settings domains: the transport-engine options template and
//! the application's own preferences.

use crate::doc::{view_entries, SpecValue, Value};
use vstd::prelude::*;
use vstd::string::StringExecFns;

verus! {

/// The shape of the default transport-engine options document.
pub open spec fn spec_default_clash_doc() -> SpecValue {
    SpecValue::Mapping(
        seq![
            ("mixed-port"@, SpecValue::Int(7890)),
            ("mode"@, SpecValue::Text("rule"@)),
            ("log-level"@, SpecValue::Text("info"@)),
        ],
    )
}

/// The transport-engine options template document.
#[derive(Debug)]
pub struct IClashTemp {
    pub doc: Value,
}

impl View for IClashTemp {
    type V = SpecValue;

    open spec fn view(&self) -> SpecValue {
        self.doc@
    }
}

impl IClashTemp {
    /// The built-in default template.
    pub fn new() -> (r: IClashTemp)
        ensures
            r@ == spec_default_clash_doc(),
    {
        let mut es: Vec<(String, Value)> = Vec::new();
        proof {
            assert(view_entries(es@) =~= Seq::<(Seq<char>, SpecValue)>::empty());
        }
        let ghost v0 = view_entries(es@);
        let ghost es0 = es@;
        es.push((String::from_str("mixed-port"), Value::Int(7890)));
        proof {
            assert(es@.drop_last() =~= es0);
            assert(es@.len() == 1);
            assert(view_entries(es@) == view_entries(es@.drop_last()).push(
                (es@.last().0@, es@.last().1.view()),
            ));
            assert(es@.last().0@ == "mixed-port"@);
            assert(es@.last().1.view() == SpecValue::Int(7890));
            assert(view_entries(es@) =~= v0.push(("mixed-port"@, SpecValue::Int(7890))));
        }
        let ghost v1 = view_entries(es@);
        let ghost es1 = es@;
        es.push((String::from_str("mode"), Value::Text(String::from_str("rule"))));
        proof {
            assert(es@.drop_last() =~= es1);
            assert(view_entries(es@) == view_entries(es@.drop_last()).push(
                (es@.last().0@, es@.last().1.view()),
            ));
            assert(es@.last().1.view() == SpecValue::Text("rule"@));
            assert(view_entries(es@) =~= v1.push(("mode"@, SpecValue::Text("rule"@))));
        }
        let ghost v2 = view_entries(es@);
        let ghost es2 = es@;
        es.push((String::from_str("log-level"), Value::Text(String::from_str("info"))));
        proof {
            assert(es@.drop_last() =~= es2);
            assert(view_entries(es@) == view_entries(es@.drop_last()).push(
                (es@.last().0@, es@.last().1.view()),
            ));
            assert(es@.last().1.view() == SpecValue::Text("info"@));
            assert(view_entries(es@) =~= v2.push(("log-level"@, SpecValue::Text("info"@))));
            assert(view_entries(es@) =~= seq![
                ("mixed-port"@, SpecValue::Int(7890)),
                ("mode"@, SpecValue::Text("rule"@)),
                ("log-level"@, SpecValue::Text("info"@)),
            ]);
        }
        IClashTemp { doc: Value::Mapping(es) }
    }
}

/// The application's own preferences. Every field is optional; an unset
/// field means the built-in behaviour.
#[derive(Debug, Clone, Copy)]
pub struct IVerge {
    pub enable_global_hotkey: Option<bool>,
    pub enable_auto_launch: Option<bool>,
    pub enable_silent_start: Option<bool>,
}

impl IVerge {
    /// All preferences unset.
    pub fn new() -> (r: IVerge)
        ensures
            r.enable_global_hotkey is None,
            r.enable_auto_launch is None,
            r.enable_silent_start is None,
    {
        IVerge { enable_global_hotkey: None, enable_auto_launch: None, enable_silent_start: None }
    }
}

} // verus!
