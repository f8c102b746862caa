use konveyor_core::rule::{
    dedup_conditions_by_key, extract_file_pattern_from_condition, extract_frontend_refs,
    FileContentFields, FrontendDependencyFields, FrontendReferencedFields, KonveyorCondition,
};

fn referenced(pattern: &str) -> KonveyorCondition {
    KonveyorCondition::FrontendReferenced {
        referenced: FrontendReferencedFields {
            pattern: pattern.to_string(),
            location: "IMPORT".to_string(),
            component: None,
            parent: None,
            not_parent: None,
            parent_from: None,
            not_child: None,
            value: None,
            from: None,
            file_pattern: None,
        },
    }
}

fn filecontent(pattern: &str, file_pattern: &str) -> KonveyorCondition {
    KonveyorCondition::FileContent {
        filecontent: FileContentFields {
            pattern: pattern.to_string(),
            file_pattern: file_pattern.to_string(),
        },
    }
}

fn dependency(name: &str) -> KonveyorCondition {
    KonveyorCondition::FrontendDependency {
        dependency: FrontendDependencyFields {
            name: Some(name.to_string()),
            nameregex: None,
            upperbound: None,
            lowerbound: None,
        },
    }
}

#[test]
fn frontend_refs_of_a_single_condition() {
    let c = referenced("^Chip$");
    let refs = extract_frontend_refs(&c);
    assert_eq!(refs.len(), 1);
    assert_eq!(refs[0].pattern, "^Chip$");
    assert!(extract_frontend_refs(&filecontent("x", "*.ts")).is_empty());
}

#[test]
fn frontend_refs_in_nested_combinators_keep_document_order() {
    let c = KonveyorCondition::Or {
        or: vec![
            referenced("A"),
            KonveyorCondition::And {
                and: vec![filecontent("p", "f"), referenced("B"), referenced("C")],
            },
            dependency("dep"),
            KonveyorCondition::Or { or: vec![] },
            referenced("D"),
        ],
    };
    let refs = extract_frontend_refs(&c);
    let patterns: Vec<&str> = refs.iter().map(|r| r.pattern.as_str()).collect();
    assert_eq!(patterns, vec!["A", "B", "C", "D"]);
}

#[test]
fn file_pattern_from_filecontent_and_first_or_member() {
    assert_eq!(
        extract_file_pattern_from_condition(&filecontent("x", "*.tsx")),
        Some("*.tsx".to_string())
    );
    let or = KonveyorCondition::Or {
        or: vec![filecontent("x", "first"), filecontent("y", "second")],
    };
    assert_eq!(extract_file_pattern_from_condition(&or), Some("first".to_string()));
    let nested = KonveyorCondition::Or {
        or: vec![KonveyorCondition::Or { or: vec![filecontent("x", "deep")] }],
    };
    assert_eq!(extract_file_pattern_from_condition(&nested), Some("deep".to_string()));
}

#[test]
fn file_pattern_absent_elsewhere() {
    let or_first_not_filecontent = KonveyorCondition::Or {
        or: vec![referenced("A"), filecontent("x", "later")],
    };
    assert_eq!(extract_file_pattern_from_condition(&or_first_not_filecontent), None);
    assert_eq!(extract_file_pattern_from_condition(&KonveyorCondition::Or { or: vec![] }), None);
    let and = KonveyorCondition::And { and: vec![filecontent("x", "f")] };
    assert_eq!(extract_file_pattern_from_condition(&and), None);
    assert_eq!(extract_file_pattern_from_condition(&referenced("A")), None);
}

#[test]
fn dedup_keeps_first_of_each_key_in_order() {
    let keyed = vec![
        ("k1".to_string(), referenced("A")),
        ("k2".to_string(), referenced("B")),
        ("k1".to_string(), referenced("C")),
        ("k3".to_string(), referenced("D")),
        ("k2".to_string(), referenced("E")),
    ];
    let unique = dedup_conditions_by_key(keyed);
    let patterns: Vec<String> = unique
        .iter()
        .map(|c| match c {
            KonveyorCondition::FrontendReferenced { referenced } => referenced.pattern.clone(),
            _ => panic!("unexpected condition"),
        })
        .collect();
    assert_eq!(patterns, vec!["A", "B", "D"]);
}

#[test]
fn dedup_of_distinct_or_empty_input_is_unchanged() {
    assert!(dedup_conditions_by_key(vec![]).is_empty());
    let keyed = vec![
        ("a".to_string(), referenced("A")),
        ("b".to_string(), referenced("B")),
    ];
    assert_eq!(dedup_conditions_by_key(keyed).len(), 2);
}
