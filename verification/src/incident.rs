//! Incident types representing matched violations in source code, and the
//! rendering of line-numbered code snippets around an incident.

use std::collections::BTreeMap;
use vstd::prelude::*;

use crate::text::{
    lemma_lines_have_no_newline, lemma_newline_count_concat, lemma_newline_count_none,
    lemma_right_aligned_no_newline, lines_of, newline_count, push_right_aligned, right_aligned,
    split_into_lines, string_views,
};

verus! {

/// A JSON value, as `serde_json` represents it. The library carries such
/// values through without looking inside them.
#[verifier::external_type_specification]
#[verifier::external_body]
pub struct ExJsonValue(serde_json::Value);

/// A position in a source file.
#[derive(Debug)]
pub struct Position {
    pub line: u32,
    pub character: u32,
}

/// A range in a source file.
#[derive(Debug)]
pub struct Location {
    pub start: Position,
    pub end: Position,
}

/// A hyperlink for additional context.
#[derive(Debug)]
pub struct ExternalLink {
    pub url: String,
    pub title: String,
}

/// A single match/incident found by the provider.
///
/// This is the canonical incident type that maps both to the provider's
/// `IncidentContext` message and to the incident of an analysis output.
#[derive(Debug)]
pub struct Incident {
    /// File URI where the incident was found (e.g. `file:///path/to/File.tsx`).
    pub file_uri: String,
    /// Line number of the match (1-indexed).
    pub line_number: Option<u32>,
    /// Source code location (start/end positions).
    pub code_location: Option<Location>,
    /// Human-readable message about the incident.
    pub message: String,
    /// Surrounding source code snippet for context.
    pub code_snip: Option<String>,
    /// Provider-specific variables (e.g., matched text, symbol name).
    pub variables: BTreeMap<String, serde_json::Value>,
    /// Optional effort override for this specific incident.
    pub effort: Option<i64>,
    /// Associated hyperlinks.
    pub links: Vec<ExternalLink>,
    /// Whether this incident is from a dependency (vs. source code).
    pub is_dependency_incident: bool,
}

impl Clone for Position {
    fn clone(&self) -> (copy: Self)
        ensures
            copy == *self,
    {
        Position { line: self.line, character: self.character }
    }
}

impl Clone for Location {
    fn clone(&self) -> (copy: Self)
        ensures
            copy == *self,
    {
        Location { start: self.start.clone(), end: self.end.clone() }
    }
}

impl Clone for ExternalLink {
    fn clone(&self) -> (copy: Self)
        ensures
            copy == *self,
    {
        ExternalLink { url: self.url.clone(), title: self.title.clone() }
    }
}

impl Clone for Incident {
    fn clone(&self) -> (copy: Self)
        ensures
            copy.same_content(self),
    {
        let links = self.links.clone();
        assert(links@ == self.links@);
        let code_location = match &self.code_location {
            Some(location) => Some(location.clone()),
            None => None,
        };
        Incident {
            file_uri: self.file_uri.clone(),
            line_number: self.line_number,
            code_location,
            message: self.message.clone(),
            code_snip: self.code_snip.clone(),
            variables: self.variables.clone(),
            effort: self.effort,
            links,
            is_dependency_incident: self.is_dependency_incident,
        }
    }
}

impl Incident {
    /// Whether `other` holds the same content as `self`, field by field.
    pub open spec fn same_content(&self, other: &Self) -> bool {
        &&& other.file_uri == self.file_uri
        &&& other.line_number == self.line_number
        &&& other.code_location == self.code_location
        &&& other.message == self.message
        &&& other.code_snip == self.code_snip
        &&& other.variables@ == self.variables@
        &&& other.effort == self.effort
        &&& other.links@ == self.links@
        &&& other.is_dependency_incident == self.is_dependency_incident
    }

    /// Create a new incident with the minimum required fields.
    pub fn new(file_uri: String, line_number: u32, code_location: Location) -> (incident: Self)
        ensures
            incident.file_uri == file_uri,
            incident.line_number == Some(line_number),
            incident.code_location == Some(code_location),
            incident.message@ == Seq::<char>::empty(),
            incident.code_snip.is_none(),
            incident.variables@ == Map::<String, serde_json::Value>::empty(),
            incident.effort.is_none(),
            incident.links@ == Seq::<ExternalLink>::empty(),
            !incident.is_dependency_incident,
    {
        Incident {
            file_uri,
            line_number: Some(line_number),
            code_location: Some(code_location),
            message: String::new(),
            code_snip: None,
            variables: BTreeMap::new(),
            effort: None,
            links: Vec::new(),
            is_dependency_incident: false,
        }
    }

    /// Add a code snippet to the incident.
    pub fn with_code_snip(self, snip: String) -> (incident: Self)
        ensures
            incident == (Incident { code_snip: Some(snip), ..self }),
    {
        let mut incident = self;
        incident.code_snip = Some(snip);
        incident
    }

    /// Add a variable to the incident; a variable of the same name is replaced.
    pub fn with_variable(self, key: &str, value: serde_json::Value) -> (incident: Self)
        ensures
            incident == (Incident { variables: incident.variables, ..self }),
            exists|k: String| k@ == key@ && incident.variables@ == self.variables@.insert(k, value),
    {
        let mut incident = self;
        let k = key.to_owned();
        insert_variable(&mut incident.variables, k, value);
        incident
    }
}

/// `BTreeMap::insert` on a map of variables: afterwards the map holds `value`
/// under `key` and is otherwise unchanged. std orders `String` keys by a
/// total order consistent with their equality, so the insertion behaves as a
/// map insertion; vstd states this for keys whose order obeys its laws but
/// does not establish that for `String`. The replaced value, which `insert`
/// returns, is dropped.
#[verifier::external_body]
fn insert_variable(variables: &mut BTreeMap<String, serde_json::Value>, key: String, value: serde_json::Value)
    ensures
        final(variables)@ == old(variables)@.insert(key, value),
{
    variables.insert(key, value);
}

/// One line of a snippet: the line number right-aligned to `width`, two
/// spaces, the line's text and a newline.
pub open spec fn snip_line(line_num: nat, width: nat, content: Seq<char>) -> Seq<char> {
    right_aligned(line_num, width) + seq![' ', ' '] + content + seq!['\n']
}

/// The text of line `index` (0-indexed), or nothing past the last line.
pub open spec fn line_or_empty(lines: Seq<Seq<char>>, index: int) -> Seq<char> {
    if 0 <= index < lines.len() {
        lines[index]
    } else {
        seq![]
    }
}

/// The snippet lines for the 0-indexed lines `lo .. hi`, in order.
pub open spec fn snip_range(lines: Seq<Seq<char>>, lo: int, hi: int, width: nat) -> Seq<char>
    decreases hi - lo,
{
    if hi <= lo {
        seq![]
    } else {
        snip_range(lines, lo, hi - 1, width) + snip_line(hi as nat, width, line_or_empty(lines, hi - 1))
    }
}

/// The first 0-indexed line of the snippet around `line_number`.
pub open spec fn snip_start(line_number: u32, context_lines: u32) -> int {
    if line_number >= context_lines + 1 {
        line_number - context_lines - 1
    } else {
        0
    }
}

/// One past the last 0-indexed line of the snippet: `line_number + context_lines`,
/// but no further than the line count (taken as a `u32`, truncating).
pub open spec fn snip_end(source: Seq<char>, line_number: u32, context_lines: u32) -> int {
    let total = lines_of(source).len() as u32;
    if line_number + context_lines <= total {
        line_number + context_lines
    } else {
        total as int
    }
}

/// The snippet of `source` centered around 1-indexed `line_number`, with
/// `context_lines` lines of context on each side.
pub open spec fn code_snip(source: Seq<char>, line_number: u32, context_lines: u32) -> Seq<char> {
    let end = snip_end(source, line_number, context_lines);
    snip_range(
        lines_of(source),
        snip_start(line_number, context_lines),
        end,
        crate::text::decimal(end as nat).len(),
    )
}

/// Extract a code snippet from source text centered around a line number.
///
/// Returns a string with line-number-prefixed source lines, matching
/// the Konveyor output format. `context_lines + 1` and
/// `line_number + context_lines` must fit in a `u32`.
pub fn extract_code_snip(source: &str, line_number: u32, context_lines: u32) -> (snip: String)
    requires
        context_lines < u32::MAX,
        line_number + context_lines <= u32::MAX,
    ensures
        snip@ == code_snip(source@, line_number, context_lines),
{
    let lines = split_into_lines(source);
    let ghost views = string_views(lines@);
    let total = #[verifier::truncate] (lines.len() as u32);

    let start = line_number.saturating_sub(context_lines + 1);
    let end = if line_number + context_lines <= total {
        line_number + context_lines
    } else {
        total
    };
    let width = crate::text::decimal_width(end);

    let mut snip = String::new();
    let mut i = start;
    while i < end
        invariant
            views == string_views(lines@),
            views == lines_of(source@),
            end == snip_end(source@, line_number, context_lines),
            start == snip_start(line_number, context_lines),
            width == crate::text::decimal(end as nat).len(),
            start <= i,
            i <= end || i == start,
            snip@ == snip_range(views, start as int, i as int, width as nat),
        decreases end - i,
    {
        let line_num = i + 1;
        push_right_aligned(&mut snip, line_num, width);
        snip.push(' ');
        snip.push(' ');
        if (i as usize) < lines.len() {
            snip.append(lines[i as usize].as_str());
        }
        snip.push('\n');
        i = line_num;
        assert(snip@ =~= snip_range(views, start as int, i as int, width as nat));
    }
    snip
}

/// A snippet splits at any line of its window: the lines before it, that
/// line's own rendering, and the lines after it, in that order. So every
/// line of the window appears in the snippet, in source order.
pub proof fn lemma_snip_range_split(lines: Seq<Seq<char>>, lo: int, mid: int, hi: int, width: nat)
    requires
        lo <= mid < hi,
    ensures
        snip_range(lines, lo, hi, width) == snip_range(lines, lo, mid, width) + snip_line(
            (mid + 1) as nat,
            width,
            line_or_empty(lines, mid),
        ) + snip_range(lines, mid + 1, hi, width),
    decreases hi - mid,
{
    if hi == mid + 1 {
        assert(snip_range(lines, mid + 1, hi, width) == Seq::<char>::empty());
        assert(snip_range(lines, lo, hi, width) == snip_range(lines, lo, mid, width) + snip_line(
            (mid + 1) as nat,
            width,
            line_or_empty(lines, mid),
        ));
    } else {
        lemma_snip_range_split(lines, lo, mid, hi - 1, width);
        let before = snip_range(lines, lo, mid, width);
        let this = snip_line((mid + 1) as nat, width, line_or_empty(lines, mid));
        let after = snip_range(lines, mid + 1, hi - 1, width);
        let last = snip_line(hi as nat, width, line_or_empty(lines, hi - 1));
        assert(snip_range(lines, mid + 1, hi, width) == after + last);
        assert(before + this + after + last == before + this + (after + last));
    }
}

/// Each rendered line holds exactly one newline, the one that ends it.
proof fn lemma_snip_line_newlines(line_num: nat, width: nat, content: Seq<char>)
    requires
        !content.contains('\n'),
    ensures
        newline_count(snip_line(line_num, width, content)) == 1,
{
    let number = right_aligned(line_num, width);
    let gap = seq![' ', ' '];
    lemma_right_aligned_no_newline(line_num, width);
    lemma_newline_count_none(number);
    assert(!gap.contains('\n')) by {
        if gap.contains('\n') {
            let i = choose|i: int| 0 <= i < gap.len() && gap[i] == '\n';
        }
    }
    lemma_newline_count_none(gap);
    lemma_newline_count_none(content);
    lemma_newline_count_concat(number, gap);
    lemma_newline_count_concat(number + gap, content);
    lemma_newline_count_concat(number + gap + content, seq!['\n']);
    assert(seq!['\n'].drop_last() == Seq::<char>::empty());
    assert(newline_count(Seq::<char>::empty()) == 0);
    assert(newline_count(seq!['\n']) == 1);
    assert(snip_line(line_num, width, content) == number + gap + content + seq!['\n']);
}

/// A window of lines without newlines renders to one output line per line.
proof fn lemma_snip_range_newlines(lines: Seq<Seq<char>>, lo: int, hi: int, width: nat)
    requires
        forall|i: int| 0 <= i < lines.len() ==> !(#[trigger] lines[i]).contains('\n'),
    ensures
        newline_count(snip_range(lines, lo, hi, width)) == if hi > lo { hi - lo } else { 0 },
    decreases hi - lo,
{
    if hi > lo {
        lemma_snip_range_newlines(lines, lo, hi - 1, width);
        let content = line_or_empty(lines, hi - 1);
        assert(!content.contains('\n')) by {
            if !(0 <= hi - 1 < lines.len()) {
                assert(content == Seq::<char>::empty());
            }
        }
        lemma_snip_line_newlines(hi as nat, width, content);
        lemma_newline_count_concat(snip_range(lines, lo, hi - 1, width), snip_line(hi as nat, width, content));
    }
}

/// The snippet has one line per source line of its window: as many lines as
/// the window `snip_start .. snip_end` holds, and none when it is empty.
pub proof fn lemma_code_snip_line_count(source: Seq<char>, line_number: u32, context_lines: u32)
    ensures
        newline_count(code_snip(source, line_number, context_lines)) == ({
            let start = snip_start(line_number, context_lines);
            let end = snip_end(source, line_number, context_lines);
            if end > start { end - start } else { 0 }
        }),
{
    lemma_lines_have_no_newline(source);
    let end = snip_end(source, line_number, context_lines);
    lemma_snip_range_newlines(
        lines_of(source),
        snip_start(line_number, context_lines),
        end,
        crate::text::decimal(end as nat).len(),
    );
}

/// CRLF line endings give the same snippet as LF line endings: for a source
/// without carriage returns, writing each newline as `\r\n` changes nothing.
pub proof fn lemma_code_snip_crlf(source: Seq<char>, line_number: u32, context_lines: u32)
    requires
        !source.contains('\r'),
    ensures
        code_snip(crate::text::with_crlf(source), line_number, context_lines) == code_snip(
            source,
            line_number,
            context_lines,
        ),
{
    crate::text::lemma_lines_of_crlf(source);
}

} // verus!
