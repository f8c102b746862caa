use konveyor_core::fix::{
    extract_fix_strategies, strategy_priority, FixStrategyEntry, MappingEntry, MemberMappingEntry,
};
use konveyor_core::rule::{FileContentFields, KonveyorCondition, KonveyorRule};

fn rule(id: &str, strategy: Option<FixStrategyEntry>) -> KonveyorRule {
    KonveyorRule {
        rule_id: id.to_string(),
        labels: vec![],
        effort: 1,
        category: "mandatory".to_string(),
        description: String::new(),
        message: String::new(),
        links: vec![],
        when: KonveyorCondition::FileContent {
            filecontent: FileContentFields {
                pattern: "p".to_string(),
                file_pattern: "f".to_string(),
            },
        },
        fix_strategy: strategy,
    }
}

#[test]
fn priorities_of_known_and_unknown_strategies() {
    assert_eq!(strategy_priority("Rename"), 5);
    assert_eq!(strategy_priority("RemoveProp"), 4);
    assert_eq!(strategy_priority("CssVariablePrefix"), 4);
    assert_eq!(strategy_priority("ImportPathChange"), 3);
    assert_eq!(strategy_priority("PropValueChange"), 2);
    assert_eq!(strategy_priority("PropTypeChange"), 2);
    assert_eq!(strategy_priority("LlmAssisted"), 1);
    assert_eq!(strategy_priority("Manual"), 0);
    assert_eq!(strategy_priority(""), 0);
    assert_eq!(strategy_priority("rename"), 0);
}

#[test]
fn builders_set_their_fields_only() {
    let e = FixStrategyEntry::new("Custom");
    assert_eq!(e.strategy, "Custom");
    assert!(e.from.is_none() && e.to.is_none() && e.mappings.is_empty());

    let r = FixStrategyEntry::rename("Chip", "Label");
    assert_eq!(r.strategy, "Rename");
    assert_eq!(r.from.as_deref(), Some("Chip"));
    assert_eq!(r.to.as_deref(), Some("Label"));
    assert!(r.component.is_none() && r.prop_to_child.is_empty());

    let w = FixStrategyEntry::with_from_to("ImportPathChange", "a", "b");
    assert_eq!(w.strategy, "ImportPathChange");
    assert_eq!(w.from.as_deref(), Some("a"));

    let p = FixStrategyEntry::remove_prop("Button", "isActive");
    assert_eq!(p.strategy, "RemoveProp");
    assert_eq!(p.component.as_deref(), Some("Button"));
    assert_eq!(p.prop.as_deref(), Some("isActive"));
    assert!(p.from.is_none());

    let d = FixStrategyEntry::ensure_dependency("@patternfly/react-core", "^6.1.0");
    assert_eq!(d.strategy, "EnsureDependency");
    assert_eq!(d.package.as_deref(), Some("@patternfly/react-core"));
    assert_eq!(d.new_version.as_deref(), Some("^6.1.0"));

    let s = FixStrategyEntry::structural_migration(
        "OldProps",
        "NewProps",
        vec![MemberMappingEntry { old_name: "a".to_string(), new_name: "b".to_string() }],
        vec!["gone".to_string()],
        0.75f64.to_bits(),
    );
    assert_eq!(s.strategy, "LlmAssisted");
    assert_eq!(s.replacement.as_deref(), Some("NewProps"));
    assert_eq!(s.member_mappings.len(), 1);
    assert_eq!(s.removed_members, vec!["gone".to_string()]);
    assert_eq!(f64::from_bits(s.overlap_ratio.unwrap()), 0.75);
}

#[test]
fn to_mapping_copies_the_single_mapping() {
    let m: MappingEntry = FixStrategyEntry::remove_prop("C", "p").to_mapping();
    assert!(m.from.is_none() && m.to.is_none());
    assert_eq!(m.component.as_deref(), Some("C"));
    assert_eq!(m.prop.as_deref(), Some("p"));
    let m = FixStrategyEntry::rename("x", "y").to_mapping();
    assert_eq!(m.from.as_deref(), Some("x"));
    assert_eq!(m.to.as_deref(), Some("y"));
}

#[test]
fn extract_keys_by_rule_and_last_strategy_wins() {
    let rules = vec![
        rule("r1", Some(FixStrategyEntry::rename("a", "b"))),
        rule("r2", None),
        rule("r3", Some(FixStrategyEntry::new("Manual"))),
        rule("r1", Some(FixStrategyEntry::rename("c", "d"))),
        rule("r3", None),
    ];
    let table = extract_fix_strategies(&rules);
    assert_eq!(table.len(), 2);
    let r1 = table.iter().find(|(k, _)| k == "r1").unwrap();
    assert_eq!(r1.1.from.as_deref(), Some("c"));
    let r3 = table.iter().find(|(k, _)| k == "r3").unwrap();
    assert_eq!(r3.1.strategy, "Manual");
    assert!(table.iter().all(|(k, _)| k != "r2"));
}

#[test]
fn extract_of_rules_without_strategies_is_empty() {
    assert!(extract_fix_strategies(&[]).is_empty());
    assert!(extract_fix_strategies(&[rule("x", None)]).is_empty());
}

#[test]
fn clone_keeps_content() {
    let mut e = FixStrategyEntry::rename("a", "b");
    e.prop_to_child.insert("p".to_string(), "Child".to_string());
    e.exclude_patterns.push("pf-v5".to_string());
    let c = e.clone();
    assert_eq!(c.from, e.from);
    assert_eq!(c.prop_to_child, e.prop_to_child);
    assert_eq!(c.exclude_patterns, e.exclude_patterns);
}
