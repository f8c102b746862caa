//! Rule definition types (the YAML rule format that kantra consumes) and the
//! logic that reads conditions.

use vstd::prelude::*;

use crate::fix::FixStrategyEntry;

verus! {

/// Ruleset metadata (written to `ruleset.yaml`).
#[derive(Debug)]
pub struct KonveyorRuleset {
    pub name: String,
    pub description: String,
    pub labels: Vec<String>,
}

/// A single Konveyor rule.
#[derive(Debug)]
pub struct KonveyorRule {
    pub rule_id: String,
    pub labels: Vec<String>,
    pub effort: u32,
    pub category: String,
    pub description: String,
    pub message: String,
    pub links: Vec<KonveyorLink>,
    pub when: KonveyorCondition,
    /// Fix strategy for this rule. Not part of the kantra YAML: it is written
    /// separately to `fix-strategies.json` after consolidation.
    pub fix_strategy: Option<FixStrategyEntry>,
}

/// A hyperlink attached to a rule.
#[derive(Debug)]
pub struct KonveyorLink {
    pub url: String,
    pub title: String,
}

/// A Konveyor `when` condition.
///
/// Supports `builtin.filecontent` (regex), `builtin.json` (xpath),
/// `frontend.referenced` (AST-level, requires a frontend-analyzer-provider),
/// and `or`/`and` combinators.
#[derive(Debug)]
#[allow(inconsistent_fields)]
pub enum KonveyorCondition {
    FileContent { filecontent: FileContentFields },
    Json { json: JsonFields },
    FrontendReferenced { referenced: FrontendReferencedFields },
    FrontendCssClass { cssclass: FrontendPatternFields },
    FrontendCssVar { cssvar: FrontendPatternFields },
    FrontendDependency { dependency: FrontendDependencyFields },
    JavaReferenced { referenced: JavaReferencedFields },
    JavaDependency { dependency: JavaDependencyFields },
    Or { or: Vec<KonveyorCondition> },
    And { and: Vec<KonveyorCondition> },
    /// Negated `builtin.filecontent`: matches when the pattern is NOT found.
    FileContentNegated { negated: bool, filecontent: FileContentFields },
}

/// Fields for `frontend.cssclass` and `frontend.cssvar` conditions.
#[derive(Debug)]
pub struct FrontendPatternFields {
    pub pattern: String,
    /// File path regex filter. Only scan files whose path matches this pattern.
    pub file_pattern: Option<String>,
}

/// Fields for a `frontend.dependency` condition.
///
/// Matches dependencies in package.json by name and optional version bounds.
#[derive(Debug)]
pub struct FrontendDependencyFields {
    /// Exact dependency name (e.g., `@patternfly/react-core`).
    pub name: Option<String>,
    /// Regex pattern for dependency name.
    pub nameregex: Option<String>,
    /// Match dependencies with version <= this bound.
    pub upperbound: Option<String>,
    /// Match dependencies with version >= this bound.
    pub lowerbound: Option<String>,
}

/// Fields for a `builtin.filecontent` condition.
#[derive(Debug)]
pub struct FileContentFields {
    pub pattern: String,
    pub file_pattern: String,
}

/// Fields for a `builtin.json` condition.
#[derive(Debug)]
pub struct JsonFields {
    pub xpath: String,
    pub filepaths: Option<Vec<String>>,
}

/// Fields for a `frontend.referenced` condition: AST-level symbol matching
/// with location discriminators.
#[derive(Debug)]
pub struct FrontendReferencedFields {
    /// Regex pattern for the symbol name.
    pub pattern: String,
    /// Where to look: IMPORT, JSX_COMPONENT, JSX_PROP, FUNCTION_CALL, TYPE_REFERENCE.
    pub location: String,
    /// Filter JSX props to only those on this component (regex).
    pub component: Option<String>,
    /// Filter JSX components to only those inside this parent (regex).
    pub parent: Option<String>,
    /// Negative parent filter: only match when parent does NOT match this pattern.
    pub not_parent: Option<String>,
    /// Filter by the parent component's import source (regex).
    pub parent_from: Option<String>,
    /// Negative child filter: match the parent component (via `pattern`) and
    /// report each direct JSX child whose name does NOT match this pattern.
    pub not_child: Option<String>,
    /// Filter JSX prop values to only those matching this regex.
    pub value: Option<String>,
    /// Scope to imports from a specific package (e.g., `@patternfly/react-tokens`).
    pub from: Option<String>,
    /// File path regex filter. Only scan files whose path matches this pattern.
    pub file_pattern: Option<String>,
}

/// Fields for a `java.referenced` condition: AST-level symbol matching with
/// source code location discriminators.
#[derive(Debug)]
pub struct JavaReferencedFields {
    /// Regex pattern for the fully-qualified symbol.
    pub pattern: String,
    /// Source code location to search.
    pub location: Option<String>,
    /// Additional annotation inspection filter.
    pub annotated: Option<JavaAnnotatedFields>,
}

/// Annotation inspection sub-condition for `java.referenced`.
#[derive(Debug)]
pub struct JavaAnnotatedFields {
    /// Regex pattern for the annotation's fully-qualified name.
    pub pattern: Option<String>,
    /// Annotation element constraints.
    pub elements: Vec<JavaAnnotationElement>,
}

/// An annotation element constraint for `annotated`.
#[derive(Debug)]
pub struct JavaAnnotationElement {
    /// Exact element name.
    pub name: String,
    /// Regex to match the element value.
    pub value: String,
}

/// Fields for a `java.dependency` condition.
#[derive(Debug)]
pub struct JavaDependencyFields {
    /// Dependency coordinate.
    pub name: Option<String>,
    /// Regex pattern for dependency name.
    pub nameregex: Option<String>,
    /// Match dependencies with version <= this bound.
    pub upperbound: Option<String>,
    /// Match dependencies with version >= this bound.
    pub lowerbound: Option<String>,
}

/// The `frontend.referenced` fields of a condition, in document order,
/// looking into `or`/`and` combinators at any depth.
pub open spec fn frontend_refs<'a>(condition: &'a KonveyorCondition) -> Seq<&'a FrontendReferencedFields>
    decreases condition, 0int,
{
    match condition {
        KonveyorCondition::FrontendReferenced { referenced } => seq![referenced],
        KonveyorCondition::Or { or } => frontend_refs_in(or, or.len() as int),
        KonveyorCondition::And { and } => frontend_refs_in(and, and.len() as int),
        _ => seq![],
    }
}

/// The `frontend.referenced` fields of the first `count` conditions of a list.
pub open spec fn frontend_refs_in<'a>(conditions: &'a Vec<KonveyorCondition>, count: int) -> Seq<&'a FrontendReferencedFields>
    decreases conditions, count,
{
    if count <= 0 || count > conditions.len() {
        seq![]
    } else {
        proof {
            vstd::std_specs::vec::axiom_vec_index_decreases(*conditions, count - 1);
        }
        frontend_refs_in(conditions, count - 1) + frontend_refs(&conditions[count - 1])
    }
}

fn collect_frontend_refs<'a>(condition: &'a KonveyorCondition, out: &mut Vec<&'a FrontendReferencedFields>)
    ensures
        final(out)@ == old(out)@ + frontend_refs(condition),
    decreases condition, 0int,
{
    match condition {
        KonveyorCondition::FrontendReferenced { referenced } => {
            out.push(referenced);
        },
        KonveyorCondition::Or { or } => {
            collect_frontend_refs_in(or, out);
        },
        KonveyorCondition::And { and } => {
            collect_frontend_refs_in(and, out);
        },
        _ => {},
    }
}

fn collect_frontend_refs_in<'a>(conditions: &'a Vec<KonveyorCondition>, out: &mut Vec<&'a FrontendReferencedFields>)
    ensures
        final(out)@ == old(out)@ + frontend_refs_in(conditions, conditions.len() as int),
    decreases conditions, conditions.len() + 1,
{
    let ghost start = out@;
    let mut i: usize = 0;
    while i < conditions.len()
        invariant
            i <= conditions.len(),
            out@ == start + frontend_refs_in(conditions, i as int),
        decreases conditions.len() - i,
    {
        proof {
            vstd::std_specs::vec::axiom_vec_index_decreases(*conditions, i as int);
        }
        collect_frontend_refs(&conditions[i], out);
        i = i + 1;
    }
}

/// The condition reached from `condition` by following `path`: each step
/// picks the member of an `or` or `and` combinator at that index. `None` when
/// a step leaves the tree.
pub open spec fn node_at<'a>(condition: &'a KonveyorCondition, path: Seq<int>) -> Option<&'a KonveyorCondition>
    decreases path.len(),
{
    if path.len() == 0 {
        Some(condition)
    } else {
        match condition {
            KonveyorCondition::Or { or } => {
                if 0 <= path[0] < or.len() {
                    node_at(&or[path[0]], path.drop_first())
                } else {
                    None
                }
            },
            KonveyorCondition::And { and } => {
                if 0 <= path[0] < and.len() {
                    node_at(&and[path[0]], path.drop_first())
                } else {
                    None
                }
            },
            _ => None,
        }
    }
}

/// The `frontend.referenced` fields of the condition at `path`, if that
/// condition is a `frontend.referenced` one.
pub open spec fn referenced_at<'a>(condition: &'a KonveyorCondition, path: Seq<int>) -> Option<&'a FrontendReferencedFields> {
    match node_at(condition, path) {
        Some(KonveyorCondition::FrontendReferenced { referenced }) => Some(referenced),
        _ => None,
    }
}

proof fn lemma_member_refs_included<'a>(conditions: &'a Vec<KonveyorCondition>, k: int, count: int, x: &'a FrontendReferencedFields)
    requires
        0 <= k < count <= conditions.len(),
        frontend_refs(&conditions[k]).contains(x),
    ensures
        frontend_refs_in(conditions, count).contains(x),
    decreases count,
{
    let before = frontend_refs_in(conditions, count - 1);
    let last = frontend_refs(&conditions[count - 1]);
    assert(frontend_refs_in(conditions, count) == before + last);
    if k < count - 1 {
        lemma_member_refs_included(conditions, k, count - 1, x);
        let i = choose|i: int| 0 <= i < before.len() && before[i] == x;
        assert((before + last)[i] == x);
    } else {
        let i = choose|i: int| 0 <= i < last.len() && last[i] == x;
        assert((before + last)[before.len() + i] == x);
    }
}

/// Every `frontend.referenced` condition of the tree, at any depth under
/// `or` and `and` combinators, has its fields among `frontend_refs`.
pub proof fn lemma_frontend_refs_complete<'a>(condition: &'a KonveyorCondition, path: Seq<int>)
    requires
        referenced_at(condition, path) is Some,
    ensures
        frontend_refs(condition).contains(referenced_at(condition, path).unwrap()),
    decreases path.len(),
{
    let x = referenced_at(condition, path).unwrap();
    if path.len() == 0 {
        assert(frontend_refs(condition)[0] == x);
    } else {
        let k = path[0];
        let rest = path.drop_first();
        match condition {
            KonveyorCondition::Or { or } => {
                assert(node_at(&or[k], rest) == node_at(condition, path));
                lemma_frontend_refs_complete(&or[k], rest);
                lemma_member_refs_included(or, k, or.len() as int, x);
            },
            KonveyorCondition::And { and } => {
                assert(node_at(&and[k], rest) == node_at(condition, path));
                lemma_frontend_refs_complete(&and[k], rest);
                lemma_member_refs_included(and, k, and.len() as int, x);
            },
            _ => {},
        }
    }
}

/// Every field set among `frontend_refs` comes from a `frontend.referenced`
/// condition of the tree.
pub proof fn lemma_frontend_refs_sound<'a>(condition: &'a KonveyorCondition)
    ensures
        forall|i: int|
            #![trigger frontend_refs(condition)[i]]
            0 <= i < frontend_refs(condition).len() ==> exists|path: Seq<int>|
                #[trigger] referenced_at(condition, path) == Some(frontend_refs(condition)[i]),
    decreases condition, 0int,
{
    match condition {
        KonveyorCondition::FrontendReferenced { referenced } => {
            assert forall|i: int|
                #![trigger frontend_refs(condition)[i]]
                0 <= i < frontend_refs(condition).len() implies exists|path: Seq<int>|
                #[trigger] referenced_at(condition, path) == Some(frontend_refs(condition)[i]) by {
                assert(referenced_at(condition, Seq::<int>::empty()) == Some(frontend_refs(condition)[i]));
            }
        },
        KonveyorCondition::Or { or } => {
            lemma_member_refs_sound(or, or.len() as int);
            assert forall|i: int|
                #![trigger frontend_refs(condition)[i]]
                0 <= i < frontend_refs(condition).len() implies exists|path: Seq<int>|
                #[trigger] referenced_at(condition, path) == Some(frontend_refs(condition)[i]) by {
                let x = frontend_refs(condition)[i];
                assert(frontend_refs(condition) == frontend_refs_in(or, or.len() as int));
                assert(frontend_refs_in(or, or.len() as int)[i] == x);
                let (j, p) = choose|j: int, p: Seq<int>| 0 <= j < or.len() && #[trigger] referenced_at(&or[j], p) == Some(x);
                let path = seq![j] + p;
                assert(path.drop_first() == p);
                assert(path[0] == j);
                assert(node_at(condition, path) == node_at(&or[j], p));
                assert(referenced_at(condition, path) == Some(x));
            }
        },
        KonveyorCondition::And { and } => {
            lemma_member_refs_sound(and, and.len() as int);
            assert forall|i: int|
                #![trigger frontend_refs(condition)[i]]
                0 <= i < frontend_refs(condition).len() implies exists|path: Seq<int>|
                #[trigger] referenced_at(condition, path) == Some(frontend_refs(condition)[i]) by {
                let x = frontend_refs(condition)[i];
                assert(frontend_refs(condition) == frontend_refs_in(and, and.len() as int));
                assert(frontend_refs_in(and, and.len() as int)[i] == x);
                let (j, p) = choose|j: int, p: Seq<int>| 0 <= j < and.len() && #[trigger] referenced_at(&and[j], p) == Some(x);
                let path = seq![j] + p;
                assert(path.drop_first() == p);
                assert(path[0] == j);
                assert(node_at(condition, path) == node_at(&and[j], p));
                assert(referenced_at(condition, path) == Some(x));
            }
        },
        _ => {},
    }
}

proof fn lemma_member_refs_sound<'a>(conditions: &'a Vec<KonveyorCondition>, count: int)
    requires
        0 <= count <= conditions.len(),
    ensures
        forall|i: int|
            #![trigger frontend_refs_in(conditions, count)[i]]
            0 <= i < frontend_refs_in(conditions, count).len() ==> exists|j: int, p: Seq<int>|
                0 <= j < count && #[trigger] referenced_at(&conditions[j], p) == Some(
                    frontend_refs_in(conditions, count)[i],
                ),
    decreases conditions, count,
{
    if count > 0 {
        vstd::std_specs::vec::axiom_vec_index_decreases(*conditions, count - 1);
        lemma_member_refs_sound(conditions, count - 1);
        lemma_frontend_refs_sound(&conditions[count - 1]);
        let before = frontend_refs_in(conditions, count - 1);
        let last = frontend_refs(&conditions[count - 1]);
        assert(frontend_refs_in(conditions, count) == before + last);
        assert forall|i: int|
            #![trigger frontend_refs_in(conditions, count)[i]]
            0 <= i < frontend_refs_in(conditions, count).len() implies exists|j: int, p: Seq<int>|
            0 <= j < count && #[trigger] referenced_at(&conditions[j], p) == Some(
                frontend_refs_in(conditions, count)[i],
            ) by {
            if i < before.len() {
                assert((before + last)[i] == before[i]);
                let (j, p) = choose|j: int, p: Seq<int>| 0 <= j < count - 1 && #[trigger] referenced_at(&conditions[j], p) == Some(before[i]);
                assert(referenced_at(&conditions[j], p) == Some(frontend_refs_in(conditions, count)[i]));
            } else {
                let m = i - before.len();
                assert((before + last)[i] == last[m]);
                let p = choose|p: Seq<int>| #[trigger] referenced_at(&conditions[count - 1], p) == Some(last[m]);
                assert(referenced_at(&conditions[count - 1], p) == Some(frontend_refs_in(conditions, count)[i]));
            }
        }
    }
}

/// Extract all `FrontendReferencedFields` from a `KonveyorCondition`,
/// recursing into `Or`/`And` combinators.
pub fn extract_frontend_refs(condition: &KonveyorCondition) -> (refs: Vec<&FrontendReferencedFields>)
    ensures
        refs@ == frontend_refs(condition),
{
    let mut refs = Vec::new();
    collect_frontend_refs(condition, &mut refs);
    refs
}

/// The file pattern to reuse from a condition: that of a `builtin.filecontent`
/// condition, or that of the first member of an `or` combinator.
pub open spec fn file_pattern_of(condition: &KonveyorCondition) -> Option<String>
    decreases condition,
{
    match condition {
        KonveyorCondition::FileContent { filecontent } => Some(filecontent.file_pattern),
        KonveyorCondition::Or { or } => {
            if or.len() > 0 {
                proof {
                    vstd::std_specs::vec::axiom_vec_index_decreases(*or, 0);
                }
                file_pattern_of(&or[0])
            } else {
                None
            }
        },
        _ => None,
    }
}

/// The condition reached from `condition` by stepping `steps` times into the
/// first member of an `or` combinator; `None` when a step meets anything but
/// a non-empty `or`.
pub open spec fn first_member_descent<'a>(condition: &'a KonveyorCondition, steps: nat) -> Option<&'a KonveyorCondition>
    decreases steps,
{
    if steps == 0 {
        Some(condition)
    } else {
        match condition {
            KonveyorCondition::Or { or } => {
                if or.len() > 0 {
                    first_member_descent(&or[0], (steps - 1) as nat)
                } else {
                    None
                }
            },
            _ => None,
        }
    }
}

/// The file pattern of the `builtin.filecontent` condition reached by
/// `steps` first-member steps, if that is what they reach.
pub open spec fn filecontent_pattern_at(condition: &KonveyorCondition, steps: nat) -> Option<String> {
    match first_member_descent(condition, steps) {
        Some(KonveyorCondition::FileContent { filecontent }) => Some(filecontent.file_pattern),
        _ => None,
    }
}

/// The reused file pattern is that of a `builtin.filecontent` condition
/// reached through first members of `or` combinators, and there is one
/// exactly when such a condition is reached: any other kind of condition,
/// a negated `builtin.filecontent` among them, gives none.
pub proof fn lemma_file_pattern_found(condition: &KonveyorCondition)
    ensures
        forall|steps: nat| #[trigger] filecontent_pattern_at(condition, steps) is Some
            ==> file_pattern_of(condition) == filecontent_pattern_at(condition, steps),
        file_pattern_of(condition) is Some ==> exists|steps: nat|
            #[trigger] filecontent_pattern_at(condition, steps) == file_pattern_of(condition),
        condition is FileContentNegated ==> file_pattern_of(condition) is None,
{
    assert forall|steps: nat| #[trigger] filecontent_pattern_at(condition, steps) is Some
        implies file_pattern_of(condition) == filecontent_pattern_at(condition, steps) by {
        lemma_descent_gives_pattern(condition, steps);
    }
    if file_pattern_of(condition) is Some {
        let steps = lemma_pattern_has_descent(condition);
    }
}

proof fn lemma_descent_gives_pattern(condition: &KonveyorCondition, steps: nat)
    requires
        filecontent_pattern_at(condition, steps) is Some,
    ensures
        file_pattern_of(condition) == filecontent_pattern_at(condition, steps),
    decreases steps,
{
    if steps > 0 {
        match condition {
            KonveyorCondition::Or { or } => {
                assert(first_member_descent(condition, steps) == first_member_descent(&or[0], (steps - 1) as nat));
                lemma_descent_gives_pattern(&or[0], (steps - 1) as nat);
            },
            _ => {},
        }
    }
}

proof fn lemma_pattern_has_descent(condition: &KonveyorCondition) -> (steps: nat)
    requires
        file_pattern_of(condition) is Some,
    ensures
        filecontent_pattern_at(condition, steps) == file_pattern_of(condition),
    decreases condition,
{
    match condition {
        KonveyorCondition::Or { or } => {
            vstd::std_specs::vec::axiom_vec_index_decreases(*or, 0);
            let inner = lemma_pattern_has_descent(&or[0]);
            assert(first_member_descent(condition, inner + 1) == first_member_descent(&or[0], inner));
            inner + 1
        },
        _ => 0,
    }
}

/// Extract the file pattern from an existing condition (for reuse in consolidated rules).
pub fn extract_file_pattern_from_condition(condition: &KonveyorCondition) -> (pattern: Option<String>)
    ensures
        pattern == file_pattern_of(condition),
    decreases condition,
{
    match condition {
        KonveyorCondition::FileContent { filecontent } => Some(filecontent.file_pattern.clone()),
        KonveyorCondition::Or { or } => {
            if or.len() > 0 {
                proof {
                    vstd::std_specs::vec::axiom_vec_index_decreases(*or, 0);
                }
                extract_file_pattern_from_condition(&or[0])
            } else {
                None
            }
        },
        _ => None,
    }
}

/// Whether some item of `items` carries a key with the characters `key`.
pub open spec fn key_seen(items: Seq<(String, KonveyorCondition)>, key: Seq<char>) -> bool {
    exists|i: int| 0 <= i < items.len() && #[trigger] items[i].0@ == key
}

/// The items whose key does not occur in any earlier item, in order.
pub open spec fn first_by_key(items: Seq<(String, KonveyorCondition)>) -> Seq<(String, KonveyorCondition)>
    decreases items.len(),
{
    if items.len() == 0 {
        seq![]
    } else {
        let kept = first_by_key(items.drop_last());
        if key_seen(items.drop_last(), items.last().0@) {
            kept
        } else {
            kept.push(items.last())
        }
    }
}

/// The conditions of a sequence of keyed conditions.
pub open spec fn conditions_of(items: Seq<(String, KonveyorCondition)>) -> Seq<KonveyorCondition> {
    items.map_values(|item: (String, KonveyorCondition)| item.1)
}

/// Deduplicate conditions by a key computed for each (their serialized form):
/// keeps the first condition of each key, in the order of the input.
pub fn dedup_conditions_by_key(keyed: Vec<(String, KonveyorCondition)>) -> (unique: Vec<KonveyorCondition>)
    ensures
        unique@ == conditions_of(first_by_key(keyed@)),
{
    let ghost items = keyed@;
    let mut seen: vstd::hash_map::StringHashMap<()> = vstd::hash_map::StringHashMap::new();
    let mut unique: Vec<KonveyorCondition> = Vec::new();
    for item in it: keyed
        invariant
            it.seq() == items,
            unique@ == conditions_of(first_by_key(items.take(it.index() as int))),
            forall|k: Seq<char>| #[trigger] seen@.contains_key(k) <==> key_seen(items.take(it.index() as int), k),
    {
        let ghost i = it.index() as int;
        let ghost prefix = items.take(i);
        assert(items.take(i + 1).drop_last() == prefix);
        assert(items.take(i + 1).last() == item);
        let (key, condition) = item;
        if !seen.contains_key(key.as_str()) {
            assert(!key_seen(prefix, key@));
            seen.insert(key, ());
            unique.push(condition);
            assert forall|k: Seq<char>| #[trigger] seen@.contains_key(k) <==> key_seen(items.take(i + 1), k) by {
                if key_seen(prefix, k) {
                    let j = choose|j: int| 0 <= j < prefix.len() && #[trigger] prefix[j].0@ == k;
                    assert(items.take(i + 1)[j] == prefix[j]);
                }
                if key_seen(items.take(i + 1), k) && k != item.0@ {
                    let j = choose|j: int| 0 <= j < i + 1 && #[trigger] items.take(i + 1)[j].0@ == k;
                    assert(prefix[j] == items.take(i + 1)[j]);
                }
            }
        } else {
            assert(key_seen(prefix, key@));
            assert forall|k: Seq<char>| #[trigger] seen@.contains_key(k) <==> key_seen(items.take(i + 1), k) by {
                if key_seen(prefix, k) {
                    let j = choose|j: int| 0 <= j < prefix.len() && #[trigger] prefix[j].0@ == k;
                    assert(items.take(i + 1)[j] == prefix[j]);
                }
                if key_seen(items.take(i + 1), k) && k != item.0@ {
                    let j = choose|j: int| 0 <= j < i + 1 && #[trigger] items.take(i + 1)[j].0@ == k;
                    assert(prefix[j] == items.take(i + 1)[j]);
                }
            }
        }
    }
    assert(items.take(items.len() as int) == items);
    unique
}

/// Whether no two items carry keys with the same characters.
pub open spec fn keys_distinct(items: Seq<(String, KonveyorCondition)>) -> bool {
    forall|i: int, j: int| 0 <= i < j < items.len() ==> #[trigger] items[i].0@ != #[trigger] items[j].0@
}

/// Deduplication loses no key: a key occurs among the kept items exactly
/// when it occurs among the input items.
pub proof fn lemma_dedup_keeps_every_key(items: Seq<(String, KonveyorCondition)>)
    ensures
        forall|k: Seq<char>| key_seen(first_by_key(items), k) <==> key_seen(items, k),
    decreases items.len(),
{
    if items.len() > 0 {
        let prefix = items.drop_last();
        lemma_dedup_keeps_every_key(prefix);
        let kept = first_by_key(prefix);
        assert forall|k: Seq<char>| key_seen(first_by_key(items), k) <==> key_seen(items, k) by {
            if key_seen(prefix, k) {
                let j = choose|j: int| 0 <= j < prefix.len() && #[trigger] prefix[j].0@ == k;
                assert(items[j] == prefix[j]);
            }
            if key_seen(items, k) && k != items.last().0@ {
                let j = choose|j: int| 0 <= j < items.len() && #[trigger] items[j].0@ == k;
                assert(prefix[j] == items[j]);
            }
            if !key_seen(prefix, items.last().0@) {
                let out = kept.push(items.last());
                assert(out[kept.len() as int].0@ == items.last().0@);
                if key_seen(kept, k) {
                    let j = choose|j: int| 0 <= j < kept.len() && #[trigger] kept[j].0@ == k;
                    assert(out[j] == kept[j]);
                }
                if key_seen(out, k) && k != items.last().0@ {
                    let j = choose|j: int| 0 <= j < out.len() && #[trigger] out[j].0@ == k;
                    assert(out[j] == kept[j]);
                }
            }
        }
    }
}

/// No two kept conditions share a key.
pub proof fn lemma_dedup_keys_distinct(items: Seq<(String, KonveyorCondition)>)
    ensures
        keys_distinct(first_by_key(items)),
    decreases items.len(),
{
    if items.len() > 0 {
        let prefix = items.drop_last();
        lemma_dedup_keys_distinct(prefix);
        lemma_dedup_keeps_every_key(prefix);
        let kept = first_by_key(prefix);
        if !key_seen(prefix, items.last().0@) {
            let out = kept.push(items.last());
            assert forall|i: int, j: int| 0 <= i < j < out.len() implies #[trigger] out[i].0@ != #[trigger] out[j].0@ by {
                if j == kept.len() {
                    if out[i].0@ == out[j].0@ {
                        assert(kept[i] == out[i]);
                        assert(key_seen(kept, items.last().0@));
                    }
                } else {
                    assert(kept[i] == out[i]);
                    assert(kept[j] == out[j]);
                }
            }
        }
    }
}

/// Items whose keys are already distinct pass through unchanged.
pub proof fn lemma_dedup_of_distinct(items: Seq<(String, KonveyorCondition)>)
    requires
        keys_distinct(items),
    ensures
        first_by_key(items) == items,
    decreases items.len(),
{
    if items.len() > 0 {
        let prefix = items.drop_last();
        assert(keys_distinct(prefix)) by {
            assert forall|i: int, j: int| 0 <= i < j < prefix.len() implies #[trigger] prefix[i].0@ != #[trigger] prefix[j].0@ by {
                assert(prefix[i] == items[i]);
                assert(prefix[j] == items[j]);
            }
        }
        lemma_dedup_of_distinct(prefix);
        if key_seen(prefix, items.last().0@) {
            let j = choose|j: int| 0 <= j < prefix.len() && #[trigger] prefix[j].0@ == items.last().0@;
            assert(items[j] == prefix[j]);
            assert(items[j].0@ != items[items.len() - 1].0@);
        }
        assert(prefix.push(items.last()) == items);
    }
}

/// Deduplicating twice gives what deduplicating once gives.
pub proof fn lemma_dedup_idempotent(items: Seq<(String, KonveyorCondition)>)
    ensures
        first_by_key(first_by_key(items)) == first_by_key(items),
{
    lemma_dedup_keys_distinct(items);
    lemma_dedup_of_distinct(first_by_key(items));
}

} // verus!
