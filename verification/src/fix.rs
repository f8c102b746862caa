//! Fix strategy types for the migration pipeline: the schema of
//! `fix-strategies.json`, written by the analyzer and read by the fix engine,
//! and the guidance documents around it.

use std::collections::BTreeMap;
use vstd::prelude::*;

use crate::rule::KonveyorRule;

verus! {

// ── Fix guidance types ──────────────────────────────────────────────────

/// How to fix a detected issue: each rule is mapped to a deterministic fix
/// strategy with a confidence level.
#[derive(Debug)]
pub struct FixGuidanceEntry {
    /// The rule ID this fix corresponds to.
    pub rule_id: String,
    /// The fix strategy to apply.
    pub strategy: FixStrategyKind,
    /// How confident we are this fix is correct.
    pub confidence: FixConfidence,
    /// Where this fix guidance came from.
    pub source: FixSource,
    /// The affected symbol.
    pub symbol: String,
    /// Source file where the breaking change originates.
    pub file: String,
    /// Concrete instructions for fixing the issue.
    pub fix_description: String,
    /// Example of the old code pattern (when available).
    pub before: Option<String>,
    /// Example of the new code pattern (when available).
    pub after: Option<String>,
    /// Search pattern to find code that needs fixing.
    pub search_pattern: String,
    /// Suggested replacement (for mechanical fixes).
    pub replacement: Option<String>,
}

impl Clone for FixGuidanceEntry {
    fn clone(&self) -> (copy: Self)
        ensures
            copy == *self,
    {
        FixGuidanceEntry {
            rule_id: self.rule_id.clone(),
            strategy: self.strategy,
            confidence: self.confidence,
            source: self.source,
            symbol: self.symbol.clone(),
            file: self.file.clone(),
            fix_description: self.fix_description.clone(),
            before: self.before.clone(),
            after: self.after.clone(),
            search_pattern: self.search_pattern.clone(),
            replacement: self.replacement.clone(),
        }
    }
}

/// What kind of fix to apply (classification label).
#[derive(Debug, Clone, Copy, PartialEq, Eq, Structural)]
pub enum FixStrategyKind {
    /// Find-and-replace: rename old symbol to new symbol.
    Rename,
    /// Update function call sites to match new signature.
    UpdateSignature,
    /// Update type annotations to match new types.
    UpdateType,
    /// Remove usages of a deleted symbol and find alternatives.
    FindAlternative,
    /// Update import paths or module system (require <-> import).
    UpdateImport,
    /// Ensure package.json has the correct dependency (add if missing, update if present).
    EnsureDependency,
    /// Requires manual review -- behavioral change or complex refactor.
    ManualReview,
}

/// How confident the fix guidance is.
#[derive(Debug, Clone, Copy, PartialEq, Eq, Structural)]
pub enum FixConfidence {
    /// Mechanical rename or direct replacement -- safe to auto-apply.
    Exact,
    /// Pattern-based fix -- likely correct but may need review.
    High,
    /// Inferred fix -- needs human verification.
    Medium,
    /// Best-effort suggestion -- may not be applicable.
    Low,
}

/// Where the fix guidance originates.
#[derive(Debug, Clone, Copy, PartialEq, Eq, Structural)]
pub enum FixSource {
    /// Deterministic -- derived from structural analysis.
    Pattern,
    /// AI-generated -- from LLM behavioral analysis.
    Llm,
    /// Flagged for manual intervention.
    Manual,
}

/// Top-level fix guidance document written to `fix-guidance.yaml`.
#[derive(Debug)]
pub struct FixGuidanceDoc {
    /// Version range this guidance applies to.
    pub migration: MigrationInfo,
    /// Summary statistics.
    pub summary: FixSummary,
    /// Per-rule fix entries.
    pub fixes: Vec<FixGuidanceEntry>,
}

/// Migration metadata.
#[derive(Debug)]
pub struct MigrationInfo {
    pub from_ref: String,
    pub to_ref: String,
    pub generated_by: String,
}

/// Summary of fix guidance.
#[derive(Debug)]
pub struct FixSummary {
    pub total_fixes: usize,
    pub auto_fixable: usize,
    pub needs_review: usize,
    pub manual_only: usize,
}

// ── Machine-readable fix strategy types (fix-strategies.json) ───────────

/// A single from/to mapping within a consolidated fix strategy.
#[derive(Debug)]
pub struct MappingEntry {
    pub from: Option<String>,
    pub to: Option<String>,
    pub component: Option<String>,
    pub prop: Option<String>,
}

impl Clone for MappingEntry {
    fn clone(&self) -> (copy: Self)
        ensures
            copy == *self,
    {
        MappingEntry {
            from: self.from.clone(),
            to: self.to.clone(),
            component: self.component.clone(),
            prop: self.prop.clone(),
        }
    }
}

/// A member-level mapping entry for structural migration strategies.
#[derive(Debug)]
pub struct MemberMappingEntry {
    pub old_name: String,
    pub new_name: String,
}

impl Clone for MemberMappingEntry {
    fn clone(&self) -> (copy: Self)
        ensures
            copy == *self,
    {
        MemberMappingEntry { old_name: self.old_name.clone(), new_name: self.new_name.clone() }
    }
}

/// A single prop's migration mapping between a deprecated component and its
/// replacement, with the prop types on both sides when known.
#[derive(Debug)]
pub struct PropMigrationEntry {
    /// Prop name on the deprecated component.
    pub old_name: String,
    /// Prop name on the replacement component.
    pub new_name: String,
    /// Full TypeScript type on the deprecated component (if available).
    pub old_type: Option<String>,
    /// Full TypeScript type on the replacement component (if available).
    pub new_type: Option<String>,
    /// Whether the type changed between the two components.
    pub type_changed: bool,
}

impl Clone for PropMigrationEntry {
    fn clone(&self) -> (copy: Self)
        ensures
            copy == *self,
    {
        PropMigrationEntry {
            old_name: self.old_name.clone(),
            new_name: self.new_name.clone(),
            old_type: self.old_type.clone(),
            new_type: self.new_type.clone(),
            type_changed: self.type_changed,
        }
    }
}

impl Default for PropMigrationEntry {
    fn default() -> (entry: Self)
        ensures
            entry.old_name@ == Seq::<char>::empty(),
            entry.new_name@ == Seq::<char>::empty(),
            entry.old_type is None,
            entry.new_type is None,
            !entry.type_changed,
    {
        PropMigrationEntry {
            old_name: String::new(),
            new_name: String::new(),
            old_type: None,
            new_type: None,
            type_changed: false,
        }
    }
}

/// Migration context for a deprecated component and its replacement: the
/// complete old-to-new prop mapping, with the props found on only one side.
#[derive(Debug)]
pub struct DeprecatedMigrationContext {
    /// Package the deprecated component was imported from.
    pub old_package: String,
    /// Package the replacement is imported from.
    pub new_package: String,
    /// Props that exist on both old and new, with name mappings and types.
    pub matching_props: Vec<PropMigrationEntry>,
    /// Props that exist only on the replacement: prop name to TypeScript type.
    pub new_props: BTreeMap<String, String>,
    /// Props that exist only on the deprecated component.
    pub removed_props: Vec<String>,
}

impl DeprecatedMigrationContext {
    /// Whether `other` holds the same content as `self`, field by field.
    pub open spec fn same_content(&self, other: &Self) -> bool {
        &&& other.old_package == self.old_package
        &&& other.new_package == self.new_package
        &&& other.matching_props@ == self.matching_props@
        &&& other.new_props@ == self.new_props@
        &&& other.removed_props@ == self.removed_props@
    }
}

impl Clone for DeprecatedMigrationContext {
    fn clone(&self) -> (copy: Self)
        ensures
            copy.same_content(self),
    {
        let matching_props = self.matching_props.clone();
        let removed_props = self.removed_props.clone();
        assert(matching_props@ == self.matching_props@);
        assert(removed_props@ == self.removed_props@);
        DeprecatedMigrationContext {
            old_package: self.old_package.clone(),
            new_package: self.new_package.clone(),
            matching_props,
            new_props: self.new_props.clone(),
            removed_props,
        }
    }
}

impl Default for DeprecatedMigrationContext {
    fn default() -> (context: Self)
        ensures
            context.old_package@ == Seq::<char>::empty(),
            context.new_package@ == Seq::<char>::empty(),
            context.matching_props@.len() == 0,
            context.new_props@ == Map::<String, String>::empty(),
            context.removed_props@.len() == 0,
    {
        DeprecatedMigrationContext {
            old_package: String::new(),
            new_package: String::new(),
            matching_props: Vec::new(),
            new_props: BTreeMap::new(),
            removed_props: Vec::new(),
        }
    }
}

/// The characters of an optional string.
pub open spec fn opt_view(text: Option<String>) -> Option<Seq<char>> {
    match text {
        Some(s) => Some(s@),
        None => None,
    }
}

/// A machine-readable fix strategy entry.
///
/// For non-consolidated rules, `from`/`to` hold the single mapping.
/// For consolidated rules, `mappings` holds all individual mappings from the
/// merged rules. For structural migration rules, `member_mappings` and
/// `removed_members` describe the member-level overlap between removed and
/// replacement interfaces.
#[derive(Debug)]
pub struct FixStrategyEntry {
    pub strategy: String,
    pub from: Option<String>,
    pub to: Option<String>,
    pub component: Option<String>,
    pub prop: Option<String>,
    /// All individual mappings when this strategy was merged from multiple rules.
    pub mappings: Vec<MappingEntry>,
    /// Structural migration: matching member mappings between removed and replacement.
    pub member_mappings: Vec<MemberMappingEntry>,
    /// Structural migration: member names only in the removed interface (no match).
    pub removed_members: Vec<String>,
    /// Structural migration: the replacement symbol name.
    pub replacement: Option<String>,
    /// Structural migration: overlap ratio between removed and replacement,
    /// held as the bit pattern of the IEEE-754 binary64 number
    /// (`f64::to_bits`), so that the entry carries it exactly.
    pub overlap_ratio: Option<u64>,
    /// Dependency update: npm package name (e.g., "@patternfly/react-core").
    pub package: Option<String>,
    /// Dependency update: new version range (e.g., "^6.1.0").
    pub new_version: Option<String>,
    /// Target JSX structure template showing correct composition.
    pub target_structure: Option<String>,
    /// Props that remain on the root component in the new version.
    pub retained_props: Vec<String>,
    /// Removed prop name to the child component that now owns it.
    pub prop_to_child: BTreeMap<String, String>,
    /// Removed props without an exact match on any child: prop name to a
    /// description of where or how to migrate it.
    pub unmapped_removed_props: BTreeMap<String, String>,
    /// Child component names removed from the family (flattened into parent).
    pub removed_children: Vec<String>,
    /// `Child.prop` to `Parent.prop` for child-to-prop migrations.
    pub child_props_to_parent: BTreeMap<String, String>,
    /// Prop value changes: prop name to its old-to-new value mappings.
    pub prop_value_changes: BTreeMap<String, Vec<MappingEntry>>,
    /// Prop type changes: prop name to its old-to-new type signature mappings.
    pub prop_type_changes: BTreeMap<String, Vec<MappingEntry>>,
    /// New imports needed after restructuring (child components to add).
    pub new_imports: Vec<String>,
    /// Imports to remove after restructuring (removed child components).
    pub removed_imports: Vec<String>,
    /// Import source package (e.g., "@patternfly/react-core").
    pub import_source: Option<String>,
    /// Deprecated-to-replacement migration context, present when the family
    /// includes a deprecated component with a detected migration target.
    pub deprecated_migration: Option<DeprecatedMigrationContext>,
    /// Patterns to exclude from this fix strategy's automated replacement.
    pub exclude_patterns: Vec<String>,
}

impl FixStrategyEntry {
    /// Whether `other` holds the same content as `self`, field by field.
    pub open spec fn same_content(&self, other: &Self) -> bool {
        &&& other.strategy == self.strategy
        &&& other.from == self.from
        &&& other.to == self.to
        &&& other.component == self.component
        &&& other.prop == self.prop
        &&& other.mappings@ == self.mappings@
        &&& other.member_mappings@ == self.member_mappings@
        &&& other.removed_members@ == self.removed_members@
        &&& other.replacement == self.replacement
        &&& other.overlap_ratio == self.overlap_ratio
        &&& other.package == self.package
        &&& other.new_version == self.new_version
        &&& other.target_structure == self.target_structure
        &&& other.retained_props@ == self.retained_props@
        &&& other.prop_to_child@ == self.prop_to_child@
        &&& other.unmapped_removed_props@ == self.unmapped_removed_props@
        &&& other.removed_children@ == self.removed_children@
        &&& other.child_props_to_parent@ == self.child_props_to_parent@
        &&& other.prop_value_changes@ == self.prop_value_changes@
        &&& other.prop_type_changes@ == self.prop_type_changes@
        &&& other.new_imports@ == self.new_imports@
        &&& other.removed_imports@ == self.removed_imports@
        &&& other.import_source == self.import_source
        &&& match (other.deprecated_migration, self.deprecated_migration) {
            (Some(a), Some(b)) => a.same_content(&b),
            (None, None) => true,
            _ => false,
        }
        &&& other.exclude_patterns@ == self.exclude_patterns@
    }

    /// The fields that only family migrations and consolidation fill in are
    /// all empty.
    pub open spec fn family_fields_empty(&self) -> bool {
        &&& self.mappings@.len() == 0
        &&& self.target_structure is None
        &&& self.retained_props@.len() == 0
        &&& self.prop_to_child@ == Map::<String, String>::empty()
        &&& self.unmapped_removed_props@ == Map::<String, String>::empty()
        &&& self.removed_children@.len() == 0
        &&& self.child_props_to_parent@ == Map::<String, String>::empty()
        &&& self.prop_value_changes@ == Map::<String, Vec<MappingEntry>>::empty()
        &&& self.prop_type_changes@ == Map::<String, Vec<MappingEntry>>::empty()
        &&& self.new_imports@.len() == 0
        &&& self.removed_imports@.len() == 0
        &&& self.import_source is None
        &&& self.deprecated_migration is None
        &&& self.exclude_patterns@.len() == 0
    }

    /// The structural migration fields are all empty.
    pub open spec fn structural_fields_empty(&self) -> bool {
        &&& self.member_mappings@.len() == 0
        &&& self.removed_members@.len() == 0
        &&& self.replacement is None
        &&& self.overlap_ratio is None
    }

    /// The mapping and dependency fields are set as given.
    pub open spec fn core_fields_are(
        &self,
        from: Option<Seq<char>>,
        to: Option<Seq<char>>,
        component: Option<Seq<char>>,
        prop: Option<Seq<char>>,
        package: Option<Seq<char>>,
        new_version: Option<Seq<char>>,
    ) -> bool {
        &&& opt_view(self.from) == from
        &&& opt_view(self.to) == to
        &&& opt_view(self.component) == component
        &&& opt_view(self.prop) == prop
        &&& opt_view(self.package) == package
        &&& opt_view(self.new_version) == new_version
    }

    /// Create a new strategy entry with only the strategy type set.
    pub fn new(strategy: &str) -> (entry: Self)
        ensures
            entry.strategy@ == strategy@,
            entry.core_fields_are(None, None, None, None, None, None),
            entry.structural_fields_empty(),
            entry.family_fields_empty(),
    {
        let mut entry = Self::default();
        entry.strategy = strategy.to_owned();
        entry
    }

    /// Create a Rename strategy with a single from/to pair.
    pub fn rename(from: &str, to: &str) -> (entry: Self)
        ensures
            entry.strategy@ == "Rename"@,
            entry.core_fields_are(Some(from@), Some(to@), None, None, None, None),
            entry.structural_fields_empty(),
            entry.family_fields_empty(),
    {
        let mut entry = Self::default();
        entry.strategy = "Rename".to_owned();
        entry.from = Some(from.to_owned());
        entry.to = Some(to.to_owned());
        entry
    }

    /// Create a strategy with from/to and a named strategy type.
    pub fn with_from_to(strategy: &str, from: &str, to: &str) -> (entry: Self)
        ensures
            entry.strategy@ == strategy@,
            entry.core_fields_are(Some(from@), Some(to@), None, None, None, None),
            entry.structural_fields_empty(),
            entry.family_fields_empty(),
    {
        let mut entry = Self::default();
        entry.strategy = strategy.to_owned();
        entry.from = Some(from.to_owned());
        entry.to = Some(to.to_owned());
        entry
    }

    /// Create a RemoveProp strategy.
    pub fn remove_prop(component: &str, prop: &str) -> (entry: Self)
        ensures
            entry.strategy@ == "RemoveProp"@,
            entry.core_fields_are(None, None, Some(component@), Some(prop@), None, None),
            entry.structural_fields_empty(),
            entry.family_fields_empty(),
    {
        let mut entry = Self::default();
        entry.strategy = "RemoveProp".to_owned();
        entry.component = Some(component.to_owned());
        entry.prop = Some(prop.to_owned());
        entry
    }

    /// Create an LlmAssisted strategy enriched with structural migration data.
    /// The overlap ratio is given as the bit pattern of its `f64` value.
    pub fn structural_migration(
        removed_symbol: &str,
        replacement_symbol: &str,
        member_mappings: Vec<MemberMappingEntry>,
        removed_members: Vec<String>,
        overlap_ratio: u64,
    ) -> (entry: Self)
        ensures
            entry.strategy@ == "LlmAssisted"@,
            entry.core_fields_are(Some(removed_symbol@), Some(replacement_symbol@), None, None, None, None),
            entry.member_mappings == member_mappings,
            entry.removed_members == removed_members,
            opt_view(entry.replacement) == Some(replacement_symbol@),
            entry.overlap_ratio == Some(overlap_ratio),
            entry.family_fields_empty(),
    {
        let mut entry = Self::default();
        entry.strategy = "LlmAssisted".to_owned();
        entry.from = Some(removed_symbol.to_owned());
        entry.to = Some(replacement_symbol.to_owned());
        entry.member_mappings = member_mappings;
        entry.removed_members = removed_members;
        entry.replacement = Some(replacement_symbol.to_owned());
        entry.overlap_ratio = Some(overlap_ratio);
        entry
    }

    /// Create an EnsureDependency strategy: add if missing, update version if present.
    pub fn ensure_dependency(package: &str, new_version: &str) -> (entry: Self)
        ensures
            entry.strategy@ == "EnsureDependency"@,
            entry.core_fields_are(None, None, None, None, Some(package@), Some(new_version@)),
            entry.structural_fields_empty(),
            entry.family_fields_empty(),
    {
        let mut entry = Self::default();
        entry.strategy = "EnsureDependency".to_owned();
        entry.package = Some(package.to_owned());
        entry.new_version = Some(new_version.to_owned());
        entry
    }

    /// Convert to a MappingEntry (extracting the single mapping).
    pub fn to_mapping(&self) -> (mapping: MappingEntry)
        ensures
            mapping.from == self.from,
            mapping.to == self.to,
            mapping.component == self.component,
            mapping.prop == self.prop,
    {
        MappingEntry {
            from: self.from.clone(),
            to: self.to.clone(),
            component: self.component.clone(),
            prop: self.prop.clone(),
        }
    }
}

impl Default for FixStrategyEntry {
    fn default() -> (entry: Self)
        ensures
            entry.strategy@ == Seq::<char>::empty(),
            entry.core_fields_are(None, None, None, None, None, None),
            entry.structural_fields_empty(),
            entry.family_fields_empty(),
    {
        FixStrategyEntry {
            strategy: String::new(),
            from: None,
            to: None,
            component: None,
            prop: None,
            mappings: Vec::new(),
            member_mappings: Vec::new(),
            removed_members: Vec::new(),
            replacement: None,
            overlap_ratio: None,
            package: None,
            new_version: None,
            target_structure: None,
            retained_props: Vec::new(),
            prop_to_child: BTreeMap::new(),
            unmapped_removed_props: BTreeMap::new(),
            removed_children: Vec::new(),
            child_props_to_parent: BTreeMap::new(),
            prop_value_changes: BTreeMap::new(),
            prop_type_changes: BTreeMap::new(),
            new_imports: Vec::new(),
            removed_imports: Vec::new(),
            import_source: None,
            deprecated_migration: None,
            exclude_patterns: Vec::new(),
        }
    }
}

impl Clone for FixStrategyEntry {
    fn clone(&self) -> (copy: Self)
        ensures
            copy.same_content(self),
    {
        let mappings = self.mappings.clone();
        let member_mappings = self.member_mappings.clone();
        let removed_members = self.removed_members.clone();
        let retained_props = self.retained_props.clone();
        let removed_children = self.removed_children.clone();
        let new_imports = self.new_imports.clone();
        let removed_imports = self.removed_imports.clone();
        let exclude_patterns = self.exclude_patterns.clone();
        assert(mappings@ == self.mappings@);
        assert(member_mappings@ == self.member_mappings@);
        assert(removed_members@ == self.removed_members@);
        assert(retained_props@ == self.retained_props@);
        assert(removed_children@ == self.removed_children@);
        assert(new_imports@ == self.new_imports@);
        assert(removed_imports@ == self.removed_imports@);
        assert(exclude_patterns@ == self.exclude_patterns@);
        let deprecated_migration = match &self.deprecated_migration {
            Some(context) => Some(context.clone()),
            None => None,
        };
        FixStrategyEntry {
            strategy: self.strategy.clone(),
            from: self.from.clone(),
            to: self.to.clone(),
            component: self.component.clone(),
            prop: self.prop.clone(),
            mappings,
            member_mappings,
            removed_members,
            replacement: self.replacement.clone(),
            overlap_ratio: self.overlap_ratio,
            package: self.package.clone(),
            new_version: self.new_version.clone(),
            target_structure: self.target_structure.clone(),
            retained_props,
            prop_to_child: self.prop_to_child.clone(),
            unmapped_removed_props: self.unmapped_removed_props.clone(),
            removed_children,
            child_props_to_parent: self.child_props_to_parent.clone(),
            prop_value_changes: self.prop_value_changes.clone(),
            prop_type_changes: self.prop_type_changes.clone(),
            new_imports,
            removed_imports,
            import_source: self.import_source.clone(),
            deprecated_migration,
            exclude_patterns,
        }
    }
}

// ── Extraction and ranking ──────────────────────────────────────────────

/// Rule `r`, among the first `count` rules, carries the strategy that stands
/// for its rule ID: it has a fix strategy, and no later rule among the first
/// `count` with the same ID has one.
pub open spec fn supplies_strategy(rules: Seq<KonveyorRule>, count: int, r: int) -> bool {
    &&& 0 <= r < count <= rules.len()
    &&& rules[r].fix_strategy is Some
    &&& forall|later: int|
        r < later < count && #[trigger] rules[later].rule_id@ == rules[r].rule_id@
            ==> rules[later].fix_strategy is None
}

/// A table entry is keyed by the ID of a rule that supplies the strategy for
/// that ID, and holds the same content as that rule's strategy.
pub open spec fn entry_from_rule(entry: (String, FixStrategyEntry), rules: Seq<KonveyorRule>, count: int) -> bool {
    exists|r: int|
        #[trigger] supplies_strategy(rules, count, r) && entry.0 == rules[r].rule_id
            && entry.1.same_content(&rules[r].fix_strategy.unwrap())
}

/// What `extract_fix_strategies` gives for the first `count` rules: one entry
/// per rule ID that has a strategy, keyed by that ID, holding the strategy of
/// the last such rule.
pub open spec fn is_strategy_table(
    table: Seq<(String, FixStrategyEntry)>,
    rules: Seq<KonveyorRule>,
    count: int,
) -> bool {
    &&& forall|i: int, j: int|
        0 <= i < j < table.len() ==> #[trigger] table[i].0@ != #[trigger] table[j].0@
    &&& forall|i: int| 0 <= i < table.len() ==> #[trigger] entry_from_rule(table[i], rules, count)
    &&& forall|r: int|
        0 <= r < count && #[trigger] rules[r].fix_strategy is Some ==> exists|i: int|
            0 <= i < table.len() && #[trigger] table[i].0@ == rules[r].rule_id@
}

/// Extract fix strategies from the final (post-consolidation) rules, keyed
/// by rule ID; when several rules share an ID, the last strategy stands.
pub fn extract_fix_strategies(rules: &[KonveyorRule]) -> (table: Vec<(String, FixStrategyEntry)>)
    ensures
        is_strategy_table(table@, rules@, rules@.len() as int),
{
    let mut table: Vec<(String, FixStrategyEntry)> = Vec::new();
    let mut position: vstd::hash_map::StringHashMap<usize> = vstd::hash_map::StringHashMap::new();
    let mut k: usize = 0;
    while k < rules.len()
        invariant
            k <= rules@.len(),
            is_strategy_table(table@, rules@, k as int),
            forall|key: Seq<char>| #[trigger] position@.contains_key(key) ==> {
                &&& position@[key] < table@.len()
                &&& table@[position@[key] as int].0@ == key
            },
            forall|i: int| 0 <= i < table@.len() ==> #[trigger] position@.contains_key(table@[i].0@),
        decreases rules@.len() - k,
    {
        let rule = &rules[k];
        let ghost old_table = table@;
        match &rule.fix_strategy {
            Some(strategy) => {
                let id = rule.rule_id.clone();
                let entry = strategy.clone();
                if position.contains_key(id.as_str()) {
                    let j = *position.get(id.as_str()).unwrap();
                    table.set(j, (id, entry));
                    assert forall|i: int| 0 <= i < table@.len() implies #[trigger] entry_from_rule(table@[i], rules@, k + 1) by {
                        if i == j {
                            assert(supplies_strategy(rules@, k + 1, k as int));
                        } else {
                            assert(entry_from_rule(old_table[i], rules@, k as int));
                            let r = choose|r: int| #[trigger] supplies_strategy(rules@, k as int, r)
                                && old_table[i].0 == rules@[r].rule_id
                                && old_table[i].1.same_content(&rules@[r].fix_strategy.unwrap());
                            assert(old_table[i].0@ != old_table[j as int].0@);
                            assert(supplies_strategy(rules@, k + 1, r));
                        }
                    }
                } else {
                    let len = table.len();
                    position.insert(id.clone(), len);
                    table.push((id, entry));
                    assert forall|i: int| 0 <= i < table@.len() implies #[trigger] entry_from_rule(table@[i], rules@, k + 1) by {
                        if i == len {
                            assert(supplies_strategy(rules@, k + 1, k as int));
                        } else {
                            assert(entry_from_rule(old_table[i], rules@, k as int));
                            let r = choose|r: int| #[trigger] supplies_strategy(rules@, k as int, r)
                                && old_table[i].0 == rules@[r].rule_id
                                && old_table[i].1.same_content(&rules@[r].fix_strategy.unwrap());
                            assert(position@.contains_key(old_table[i].0@));
                            assert(supplies_strategy(rules@, k + 1, r));
                        }
                    }
                }
                assert forall|r: int| 0 <= r < k + 1 && #[trigger] rules@[r].fix_strategy is Some implies exists|i: int|
                    0 <= i < table@.len() && #[trigger] table@[i].0@ == rules@[r].rule_id@ by {
                    if r < k {
                        let i = choose|i: int| 0 <= i < old_table.len() && #[trigger] old_table[i].0@ == rules@[r].rule_id@;
                        assert(table@[i].0@ == old_table[i].0@);
                    } else {
                        let i = if position@.contains_key(rules@[r].rule_id@) { position@[rules@[r].rule_id@] as int } else { 0 };
                        assert(table@[i].0@ == rules@[r].rule_id@);
                    }
                }
            },
            None => {
                assert forall|i: int| 0 <= i < table@.len() implies #[trigger] entry_from_rule(table@[i], rules@, k + 1) by {
                    assert(entry_from_rule(old_table[i], rules@, k as int));
                    let r = choose|r: int| #[trigger] supplies_strategy(rules@, k as int, r)
                        && old_table[i].0 == rules@[r].rule_id
                        && old_table[i].1.same_content(&rules@[r].fix_strategy.unwrap());
                    assert(supplies_strategy(rules@, k + 1, r));
                }
            },
        }
        k = k + 1;
    }
    table
}

/// The priority of a fix strategy name. Higher = more actionable.
pub open spec fn spec_strategy_priority(strategy: Seq<char>) -> u8 {
    if strategy == "Rename"@ {
        5
    } else if strategy == "RemoveProp"@ {
        4
    } else if strategy == "CssVariablePrefix"@ {
        4
    } else if strategy == "ImportPathChange"@ {
        3
    } else if strategy == "PropValueChange"@ {
        2
    } else if strategy == "PropTypeChange"@ {
        2
    } else if strategy == "LlmAssisted"@ {
        1
    } else {
        0
    }
}

/// Whether `strategy` names one of the ranked strategies.
pub open spec fn is_ranked_strategy(strategy: Seq<char>) -> bool {
    ||| strategy == "Rename"@
    ||| strategy == "RemoveProp"@
    ||| strategy == "CssVariablePrefix"@
    ||| strategy == "ImportPathChange"@
    ||| strategy == "PropValueChange"@
    ||| strategy == "PropTypeChange"@
    ||| strategy == "LlmAssisted"@
}

/// The priority table: 5 exactly for Rename; 4 exactly for RemoveProp and
/// CssVariablePrefix; 3 exactly for ImportPathChange; 2 exactly for
/// PropValueChange and PropTypeChange; 1 exactly for LlmAssisted; and 0
/// exactly for every other name.
pub proof fn lemma_strategy_priority_table(strategy: Seq<char>)
    ensures
        spec_strategy_priority(strategy) == 5 <==> strategy == "Rename"@,
        spec_strategy_priority(strategy) == 4 <==> (strategy == "RemoveProp"@ || strategy
            == "CssVariablePrefix"@),
        spec_strategy_priority(strategy) == 3 <==> strategy == "ImportPathChange"@,
        spec_strategy_priority(strategy) == 2 <==> (strategy == "PropValueChange"@ || strategy
            == "PropTypeChange"@),
        spec_strategy_priority(strategy) == 1 <==> strategy == "LlmAssisted"@,
        spec_strategy_priority(strategy) == 0 <==> !is_ranked_strategy(strategy),
{
    reveal_strlit("Rename");
    reveal_strlit("RemoveProp");
    reveal_strlit("CssVariablePrefix");
    reveal_strlit("ImportPathChange");
    reveal_strlit("PropValueChange");
    reveal_strlit("PropTypeChange");
    reveal_strlit("LlmAssisted");
    // The seven names have seven different lengths, so no two are equal.
    assert("Rename"@.len() == 6);
    assert("RemoveProp"@.len() == 10);
    assert("CssVariablePrefix"@.len() == 17);
    assert("ImportPathChange"@.len() == 16);
    assert("PropValueChange"@.len() == 15);
    assert("PropTypeChange"@.len() == 14);
    assert("LlmAssisted"@.len() == 11);
}

/// Priority for fix strategy type. Higher = more actionable.
pub fn strategy_priority(strategy: &str) -> (priority: u8)
    ensures
        priority == spec_strategy_priority(strategy@),
        priority <= spec_strategy_priority("Rename"@),
        priority == 0 <==> !is_ranked_strategy(strategy@),
{
    proof {
        lemma_strategy_priority_table(strategy@);
    }
    if strategy.eq("Rename") {
        5
    } else if strategy.eq("RemoveProp") {
        4
    } else if strategy.eq("CssVariablePrefix") {
        4
    } else if strategy.eq("ImportPathChange") {
        3
    } else if strategy.eq("PropValueChange") {
        2
    } else if strategy.eq("PropTypeChange") {
        2
    } else if strategy.eq("LlmAssisted") {
        1
    } else {
        0
    }
}

} // verus!
