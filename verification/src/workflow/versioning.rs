//! Workflow versions: semantic version numbers, the history of snapshots
//! kept for each workflow, rollback and the differences between two versions.
use vstd::prelude::*;
use crate::clock::now_timestamp;
use crate::json::{quoted, spec_quoted};
use crate::strmap::{has_key, StringMap};
use crate::table::Table;
use crate::text::{
    decimal, lemma_decimal_digits, lemma_parse_decimal, lemma_split_concat, lemma_split_single,
    owned, parse_unsigned, parse_unsigned_chars, push_decimal, split_chars, split_on, chars_of,
};
use crate::workflow::model::{Workflow, WorkflowView};

verus! {

/// A semantic version: MAJOR.MINOR.PATCH.
#[derive(Clone, Copy, Debug, PartialEq, Eq, Structural, Hash, PartialOrd, Ord)]
pub struct WorkflowVersion {
    /// Incompatible changes.
    pub major: u32,
    /// Backwards-compatible functionality.
    pub minor: u32,
    /// Backwards-compatible fixes.
    pub patch: u32,
}

/// The text of a version, `MAJOR.MINOR.PATCH` in decimal.
pub open spec fn version_text(v: WorkflowVersion) -> Seq<char> {
    decimal(v.major as nat) + seq!['.'] + decimal(v.minor as nat) + seq!['.'] + decimal(v.patch as nat)
}

/// What parsing a text as a version yields: three pieces separated by `.`,
/// each an unsigned 32-bit number as `str::parse` reads it.
pub open spec fn parse_version_spec(s: Seq<char>) -> Option<WorkflowVersion> {
    let parts = split_on(s, '.');
    if parts.len() == 3 {
        match (parse_unsigned(parts[0], u32::MAX as nat), parse_unsigned(parts[1], u32::MAX as nat),
            parse_unsigned(parts[2], u32::MAX as nat)) {
            (Some(a), Some(b), Some(c)) => Some(WorkflowVersion { major: a as u32, minor: b as u32, patch: c as u32 }),
            _ => None,
        }
    } else {
        None
    }
}

/// Lexicographic order on versions (the derived `Ord`): major, then minor, then patch.
pub open spec fn version_lt(a: WorkflowVersion, b: WorkflowVersion) -> bool {
    a.major < b.major || (a.major == b.major && (a.minor < b.minor || (a.minor == b.minor && a.patch < b.patch)))
}

/// Kind of version change.
#[derive(Clone, Copy, Debug, PartialEq, Eq, Structural)]
pub enum VersionChangeType {
    /// Breaking change.
    Major,
    /// New feature.
    Minor,
    /// Fix.
    Patch,
}

/// The version that follows `v` for a change of the given kind.
pub open spec fn next_version(v: WorkflowVersion, change: VersionChangeType) -> WorkflowVersion {
    match change {
        VersionChangeType::Major => WorkflowVersion { major: (v.major + 1) as u32, minor: 0, patch: 0 },
        VersionChangeType::Minor => WorkflowVersion { major: v.major, minor: (v.minor + 1) as u32, patch: 0 },
        VersionChangeType::Patch => WorkflowVersion { major: v.major, minor: v.minor, patch: (v.patch + 1) as u32 },
    }
}

/// Whether `next_version(v, change)` stays within 32-bit components.
pub open spec fn can_advance(v: WorkflowVersion, change: VersionChangeType) -> bool {
    match change {
        VersionChangeType::Major => v.major < u32::MAX,
        VersionChangeType::Minor => v.minor < u32::MAX,
        VersionChangeType::Patch => v.patch < u32::MAX,
    }
}

/// Errors of version management.
pub enum VersionError {
    /// The text is not a version.
    InvalidFormat(String),
    /// No snapshot has the requested version.
    NotFound(String),
    /// A rollback could not be made.
    RollbackError(String),
}

impl VersionError {
    /// The message of the error, as its `Display` writes it.
    pub fn message(&self) -> (m: String)
        ensures
            m@ == match self {
                VersionError::InvalidFormat(s) => "Invalid version format: "@ + s@,
                VersionError::NotFound(s) => "Version not found: "@ + s@,
                VersionError::RollbackError(s) => "Cannot rollback: "@ + s@,
            },
    {
        match self {
            VersionError::InvalidFormat(s) => crate::text::cat("Invalid version format: ", s.as_str()),
            VersionError::NotFound(s) => crate::text::cat("Version not found: ", s.as_str()),
            VersionError::RollbackError(s) => crate::text::cat("Cannot rollback: ", s.as_str()),
        }
    }
}

impl WorkflowVersion {
    /// A version from its three components.
    pub fn new(major: u32, minor: u32, patch: u32) -> (v: Self)
        ensures
            v == (WorkflowVersion { major, minor, patch }),
    {
        WorkflowVersion { major, minor, patch }
    }

    /// Version 1.0.0.
    pub fn initial() -> (v: Self)
        ensures
            v == (WorkflowVersion { major: 1, minor: 0, patch: 0 }),
    {
        Self::new(1, 0, 0)
    }

    /// The next major version; minor and patch restart at 0.
    pub fn increment_major(&self) -> (v: Self)
        requires
            self.major < u32::MAX,
        ensures
            v == next_version(*self, VersionChangeType::Major),
            version_lt(*self, v),
    {
        Self::new(self.major + 1, 0, 0)
    }

    /// The next minor version; patch restarts at 0.
    pub fn increment_minor(&self) -> (v: Self)
        requires
            self.minor < u32::MAX,
        ensures
            v == next_version(*self, VersionChangeType::Minor),
            version_lt(*self, v),
    {
        Self::new(self.major, self.minor + 1, 0)
    }

    /// The next patch version.
    pub fn increment_patch(&self) -> (v: Self)
        requires
            self.patch < u32::MAX,
        ensures
            v == next_version(*self, VersionChangeType::Patch),
            version_lt(*self, v),
    {
        Self::new(self.major, self.minor, self.patch + 1)
    }

    /// The version that follows for a change of the given kind.
    pub fn advance(&self, change: VersionChangeType) -> (v: Self)
        requires
            can_advance(*self, change),
        ensures
            v == next_version(*self, change),
            version_lt(*self, v),
    {
        match change {
            VersionChangeType::Major => self.increment_major(),
            VersionChangeType::Minor => self.increment_minor(),
            VersionChangeType::Patch => self.increment_patch(),
        }
    }

    /// Parses `MAJOR.MINOR.PATCH`.
    pub fn parse(s: &str) -> (r: Result<Self, VersionError>)
        ensures
            r matches Ok(v) ==> parse_version_spec(s@) == Some(v),
            r matches Err(e) ==> parse_version_spec(s@) is None && (e matches VersionError::InvalidFormat(t) && t@ == s@),
    {
        let chars = chars_of(s);
        let parts = split_chars(&chars, '.');
        if parts.len() != 3 {
            return Err(VersionError::InvalidFormat(String::from_str(s)));
        }
        let a = parse_unsigned_chars(&parts[0], 4294967295u64);
        let b = parse_unsigned_chars(&parts[1], 4294967295u64);
        let c = parse_unsigned_chars(&parts[2], 4294967295u64);
        assert(parts@[0]@ == split_on(s@, '.')[0]);
        assert(parts@[1]@ == split_on(s@, '.')[1]);
        assert(parts@[2]@ == split_on(s@, '.')[2]);
        match (a, b, c) {
            (Some(x), Some(y), Some(z)) => Ok(Self::new(x as u32, y as u32, z as u32)),
            _ => Err(VersionError::InvalidFormat(String::from_str(s))),
        }
    }

    /// The text `MAJOR.MINOR.PATCH` (what `Display` writes).
    pub fn to_string(&self) -> (s: String)
        ensures
            s@ == version_text(*self),
    {
        let mut s = String::new();
        push_decimal(&mut s, self.major as u64);
        crate::text::push_char(&mut s, '.');
        push_decimal(&mut s, self.minor as u64);
        crate::text::push_char(&mut s, '.');
        push_decimal(&mut s, self.patch as u64);
        assert(s@ =~= version_text(*self));
        s
    }
}

/// The default version is 1.0.0.
impl Default for WorkflowVersion {
    fn default() -> (v: Self)
        ensures
            v == (WorkflowVersion { major: 1, minor: 0, patch: 0 }),
    {
        Self::initial()
    }
}

/// Reading back the text of a version gives the version: `parse` undoes `to_string`.
pub proof fn lemma_parse_version_text(v: WorkflowVersion)
    ensures
        parse_version_spec(version_text(v)) == Some(v),
{
    let a = decimal(v.major as nat);
    let b = decimal(v.minor as nat);
    let c = decimal(v.patch as nat);
    lemma_decimal_digits(v.major as nat);
    lemma_decimal_digits(v.minor as nat);
    lemma_decimal_digits(v.patch as nat);
    assert forall|i: int| 0 <= i < a.len() implies a[i] != '.' by { assert('0' <= a[i] <= '9'); }
    assert forall|i: int| 0 <= i < b.len() implies b[i] != '.' by { assert('0' <= b[i] <= '9'); }
    assert forall|i: int| 0 <= i < c.len() implies c[i] != '.' by { assert('0' <= c[i] <= '9'); }
    lemma_split_single(a, '.');
    lemma_split_single(b, '.');
    lemma_split_single(c, '.');
    lemma_split_concat(b, '.', c);
    lemma_split_concat(a, '.', b + seq!['.'] + c);
    assert(version_text(v) =~= a + seq!['.'] + (b + seq!['.'] + c));
    let parts = split_on(version_text(v), '.');
    assert(parts =~= seq![a, b, c]);
    lemma_parse_decimal(v.major as nat, u32::MAX as nat);
    lemma_parse_decimal(v.minor as nat, u32::MAX as nat);
    lemma_parse_decimal(v.patch as nat, u32::MAX as nat);
}

/// Kind of a change between two versions of a workflow.
#[derive(Clone, Copy, Debug, PartialEq, Eq, Structural)]
pub enum ChangeType {
    StepAdded,
    StepRemoved,
    StepModified,
    TriggerAdded,
    TriggerRemoved,
    VariableAdded,
    VariableRemoved,
    VariableModified,
    MetadataChanged,
}

/// One change in a diff; values are held as JSON text.
pub struct VersionChange {
    pub change_type: ChangeType,
    /// Path of the changed element, e.g. `steps.0`.
    pub path: String,
    pub old_value: Option<String>,
    pub new_value: Option<String>,
}

/// A change as character sequences.
pub ghost struct ChangeView {
    pub change_type: ChangeType,
    pub path: Seq<char>,
    pub old_value: Option<Seq<char>>,
    pub new_value: Option<Seq<char>>,
}

/// The characters of an optional text.
pub open spec fn opt_view(o: Option<String>) -> Option<Seq<char>> {
    match o {
        Some(s) => Some(s@),
        None => None,
    }
}

impl View for VersionChange {
    type V = ChangeView;

    open spec fn view(&self) -> ChangeView {
        ChangeView {
            change_type: self.change_type,
            path: self.path@,
            old_value: opt_view(self.old_value),
            new_value: opt_view(self.new_value),
        }
    }
}

/// The changes of metadata (name, then description).
pub open spec fn metadata_changes(from: WorkflowView, to: WorkflowView) -> Seq<ChangeView> {
    let name_change = if from.name != to.name {
        seq![ChangeView { change_type: ChangeType::MetadataChanged, path: "name"@,
            old_value: Some(spec_quoted(from.name)), new_value: Some(spec_quoted(to.name)) }]
    } else {
        Seq::<ChangeView>::empty()
    };
    let desc_change = if from.description != to.description {
        seq![ChangeView { change_type: ChangeType::MetadataChanged, path: "description"@,
            old_value: Some(spec_quoted(from.description)), new_value: Some(spec_quoted(to.description)) }]
    } else {
        Seq::<ChangeView>::empty()
    };
    name_change + desc_change
}

/// The change, if any, at step position `i`.
pub open spec fn step_change(from: Seq<Seq<char>>, to: Seq<Seq<char>>, i: int) -> Seq<ChangeView> {
    let path = "steps."@ + decimal(i as nat);
    if i >= from.len() && i < to.len() {
        seq![ChangeView { change_type: ChangeType::StepAdded, path, old_value: None, new_value: None }]
    } else if i < from.len() && i >= to.len() {
        seq![ChangeView { change_type: ChangeType::StepRemoved, path, old_value: None, new_value: None }]
    } else if i < from.len() && i < to.len() && from[i] != to[i] {
        seq![ChangeView { change_type: ChangeType::StepModified, path, old_value: Some(from[i]), new_value: Some(to[i]) }]
    } else {
        Seq::<ChangeView>::empty()
    }
}

/// The step changes at positions below `n`, in order.
pub open spec fn step_changes(from: Seq<Seq<char>>, to: Seq<Seq<char>>, n: int) -> Seq<ChangeView>
    decreases n,
{
    if n <= 0 {
        Seq::<ChangeView>::empty()
    } else {
        step_changes(from, to, n - 1) + step_change(from, to, n - 1)
    }
}

/// Variables of `a` (among its first `n`) that `b` lacks, as removals or additions.
pub open spec fn variable_changes(
    a: Seq<(Seq<char>, Seq<char>)>,
    b: Seq<(Seq<char>, Seq<char>)>,
    n: int,
    removed: bool,
) -> Seq<ChangeView>
    decreases n,
{
    if n <= 0 {
        Seq::<ChangeView>::empty()
    } else {
        let (k, v) = a[n - 1];
        let here = if has_key(b, k) {
            Seq::<ChangeView>::empty()
        } else if removed {
            seq![ChangeView { change_type: ChangeType::VariableRemoved, path: "variables."@ + k, old_value: Some(v), new_value: None }]
        } else {
            seq![ChangeView { change_type: ChangeType::VariableAdded, path: "variables."@ + k, old_value: None, new_value: Some(v) }]
        };
        variable_changes(a, b, n - 1, removed) + here
    }
}

/// All changes from one workflow to another: metadata, steps, removed then added variables.
pub open spec fn workflow_diff(from: WorkflowView, to: WorkflowView) -> Seq<ChangeView> {
    let max_steps = if from.steps.len() >= to.steps.len() { from.steps.len() } else { to.steps.len() };
    metadata_changes(from, to) + step_changes(from.steps, to.steps, max_steps as int)
        + variable_changes(from.variables, to.variables, from.variables.len() as int, true)
        + variable_changes(to.variables, from.variables, to.variables.len() as int, false)
}

/// The views of a list of changes.
pub open spec fn changes_view(v: Seq<VersionChange>) -> Seq<ChangeView> {
    v.map_values(|c: VersionChange| c@)
}

/// Appends the removals (or additions) of variables of `a` missing from `b`.
fn push_variable_changes(out: &mut Vec<VersionChange>, a: &StringMap, b: &StringMap, removed: bool)
    ensures
        changes_view(final(out)@) == changes_view(old(out)@) + variable_changes(a.pairs(), b.pairs(), a.pairs().len() as int, removed),
{
    let keys = a.keys();
    let mut i: usize = 0;
    while i < a.len()
        invariant
            i <= a.pairs().len(),
            keys@.len() == a.pairs().len(),
            forall|j: int| 0 <= j < keys@.len() ==> #[trigger] keys@[j]@ == a.pairs()[j].0,
            changes_view(out@) == changes_view(old(out)@) + variable_changes(a.pairs(), b.pairs(), i as int, removed),
        decreases a.pairs().len() - i,
    {
        let (k, v) = a.entry(i);
        let ghost prev = out@;
        if !b.contains_key(k.as_str()) {
            let path = crate::text::cat("variables.", k.as_str());
            let change = if removed {
                VersionChange { change_type: ChangeType::VariableRemoved, path, old_value: Some(v.clone()), new_value: None }
            } else {
                VersionChange { change_type: ChangeType::VariableAdded, path, old_value: None, new_value: Some(v.clone()) }
            };
            out.push(change);
            assert(changes_view(out@) =~= changes_view(prev).push(change@));
        }
        i = i + 1;
    }
}

/// The differences from one workflow to another.
pub fn compute_diff(from: &Workflow, to: &Workflow) -> (changes: Vec<VersionChange>)
    ensures
        changes_view(changes@) == workflow_diff(from@, to@),
{
    let mut changes: Vec<VersionChange> = Vec::new();
    if from.name != to.name {
        changes.push(VersionChange { change_type: ChangeType::MetadataChanged, path: owned("name"),
            old_value: Some(quoted(from.name.as_str())), new_value: Some(quoted(to.name.as_str())) });
    }
    if from.description != to.description {
        changes.push(VersionChange { change_type: ChangeType::MetadataChanged, path: owned("description"),
            old_value: Some(quoted(from.description.as_str())), new_value: Some(quoted(to.description.as_str())) });
    }
    assert(changes_view(changes@) =~= metadata_changes(from@, to@));
    let max_steps = if from.steps.len() >= to.steps.len() { from.steps.len() } else { to.steps.len() };
    let mut i: usize = 0;
    while i < max_steps
        invariant
            i <= max_steps,
            max_steps == (if from@.steps.len() >= to@.steps.len() { from@.steps.len() } else { to@.steps.len() }),
            changes_view(changes@) == metadata_changes(from@, to@) + step_changes(from@.steps, to@.steps, i as int),
        decreases max_steps - i,
    {
        let ghost prev = changes@;
        let mut path = owned("steps.");
        push_decimal(&mut path, i as u64);
        assert(path@ == "steps."@ + decimal(i as nat));
        if i >= from.steps.len() && i < to.steps.len() {
            changes.push(VersionChange { change_type: ChangeType::StepAdded, path, old_value: None, new_value: None });
        } else if i < from.steps.len() && i >= to.steps.len() {
            changes.push(VersionChange { change_type: ChangeType::StepRemoved, path, old_value: None, new_value: None });
        } else if i < from.steps.len() && i < to.steps.len() {
            if from.steps[i] != to.steps[i] {
                changes.push(VersionChange { change_type: ChangeType::StepModified, path,
                    old_value: Some(from.steps[i].clone()), new_value: Some(to.steps[i].clone()) });
            }
        }
        assert(changes_view(changes@) =~= changes_view(prev) + step_change(from@.steps, to@.steps, i as int));
        i = i + 1;
    }
    push_variable_changes(&mut changes, &from.variables, &to.variables, true);
    push_variable_changes(&mut changes, &to.variables, &from.variables, false);
    changes
}

/// A change of the given kind to the step at position `i`, with no values.
pub open spec fn bare_step_change(kind: ChangeType, i: nat) -> ChangeView {
    ChangeView { change_type: kind, path: "steps."@ + decimal(i), old_value: None, new_value: None }
}

proof fn lemma_metadata_kinds(from: WorkflowView, to: WorkflowView)
    ensures
        forall|k: int| 0 <= k < metadata_changes(from, to).len()
            ==> #[trigger] metadata_changes(from, to)[k].change_type == ChangeType::MetadataChanged,
{
}

proof fn lemma_variable_kinds(
    a: Seq<(Seq<char>, Seq<char>)>,
    b: Seq<(Seq<char>, Seq<char>)>,
    n: int,
    removed: bool,
)
    ensures
        forall|k: int| 0 <= k < variable_changes(a, b, n, removed).len() ==> {
            let t = #[trigger] variable_changes(a, b, n, removed)[k].change_type;
            t == ChangeType::VariableRemoved || t == ChangeType::VariableAdded
        },
    decreases n,
{
    if n > 0 {
        lemma_variable_kinds(a, b, n - 1, removed);
        let s0 = variable_changes(a, b, n - 1, removed);
        let s = variable_changes(a, b, n, removed);
        assert forall|k: int| 0 <= k < s.len() implies {
            let t = #[trigger] s[k].change_type;
            t == ChangeType::VariableRemoved || t == ChangeType::VariableAdded
        } by {
            if k < s0.len() {
                assert(s[k] == s0[k]);
            }
        }
    }
}

proof fn lemma_step_change_kinds(from: Seq<Seq<char>>, to: Seq<Seq<char>>, n: int)
    ensures
        forall|i: nat| i < n && from.len() <= i < to.len()
            ==> #[trigger] step_changes(from, to, n).contains(bare_step_change(ChangeType::StepAdded, i)),
        forall|i: nat| i < n && to.len() <= i < from.len()
            ==> #[trigger] step_changes(from, to, n).contains(bare_step_change(ChangeType::StepRemoved, i)),
        forall|k: int| 0 <= k < step_changes(from, to, n).len()
            && #[trigger] step_changes(from, to, n)[k].change_type == ChangeType::StepAdded
            ==> exists|i: nat| from.len() <= i < to.len()
                && step_changes(from, to, n)[k] == bare_step_change(ChangeType::StepAdded, i),
        forall|k: int| 0 <= k < step_changes(from, to, n).len()
            && #[trigger] step_changes(from, to, n)[k].change_type == ChangeType::StepRemoved
            ==> exists|i: nat| to.len() <= i < from.len()
                && step_changes(from, to, n)[k] == bare_step_change(ChangeType::StepRemoved, i),
    decreases n,
{
    if n > 0 {
        lemma_step_change_kinds(from, to, n - 1);
        let s0 = step_changes(from, to, n - 1);
        let t = step_change(from, to, n - 1);
        let s = step_changes(from, to, n);
        let last = (n - 1) as nat;
        assert(s == s0 + t);
        assert forall|i: nat| i < n && from.len() <= i < to.len()
            implies #[trigger] s.contains(bare_step_change(ChangeType::StepAdded, i)) by {
            if i < n - 1 {
                assert(s0.contains(bare_step_change(ChangeType::StepAdded, i)));
                let k = choose|k: int| 0 <= k < s0.len() && s0[k] == bare_step_change(ChangeType::StepAdded, i);
                assert(s[k] == s0[k]);
            } else {
                assert(t[0] == bare_step_change(ChangeType::StepAdded, last));
                assert(s[s0.len() as int] == t[0]);
            }
        }
        assert forall|i: nat| i < n && to.len() <= i < from.len()
            implies #[trigger] s.contains(bare_step_change(ChangeType::StepRemoved, i)) by {
            if i < n - 1 {
                assert(s0.contains(bare_step_change(ChangeType::StepRemoved, i)));
                let k = choose|k: int| 0 <= k < s0.len() && s0[k] == bare_step_change(ChangeType::StepRemoved, i);
                assert(s[k] == s0[k]);
            } else {
                assert(t[0] == bare_step_change(ChangeType::StepRemoved, last));
                assert(s[s0.len() as int] == t[0]);
            }
        }
        assert forall|k: int| 0 <= k < s.len() && #[trigger] s[k].change_type == ChangeType::StepAdded
            implies exists|i: nat| from.len() <= i < to.len() && s[k] == bare_step_change(ChangeType::StepAdded, i) by {
            if k < s0.len() {
                assert(s[k] == s0[k]);
                assert(s0[k].change_type == ChangeType::StepAdded);
            } else {
                assert(s[k] == t[k - s0.len()]);
                assert(s[k] == bare_step_change(ChangeType::StepAdded, last));
            }
        }
        assert forall|k: int| 0 <= k < s.len() && #[trigger] s[k].change_type == ChangeType::StepRemoved
            implies exists|i: nat| to.len() <= i < from.len() && s[k] == bare_step_change(ChangeType::StepRemoved, i) by {
            if k < s0.len() {
                assert(s[k] == s0[k]);
                assert(s0[k].change_type == ChangeType::StepRemoved);
            } else {
                assert(s[k] == t[k - s0.len()]);
                assert(s[k] == bare_step_change(ChangeType::StepRemoved, last));
            }
        }
    }
}

/// A diff reports step `i` as added exactly when `i` lies beyond the old
/// workflow's steps and within the new one's, and as removed exactly when it
/// lies within the old steps and beyond the new ones.
pub proof fn lemma_diff_added_removed(from: WorkflowView, to: WorkflowView)
    ensures
        forall|i: nat| from.steps.len() <= i < to.steps.len()
            ==> #[trigger] workflow_diff(from, to).contains(bare_step_change(ChangeType::StepAdded, i)),
        forall|i: nat| to.steps.len() <= i < from.steps.len()
            ==> #[trigger] workflow_diff(from, to).contains(bare_step_change(ChangeType::StepRemoved, i)),
        forall|c: ChangeView| #[trigger] workflow_diff(from, to).contains(c) && c.change_type == ChangeType::StepAdded
            ==> exists|i: nat| from.steps.len() <= i < to.steps.len() && c == bare_step_change(ChangeType::StepAdded, i),
        forall|c: ChangeView| #[trigger] workflow_diff(from, to).contains(c) && c.change_type == ChangeType::StepRemoved
            ==> exists|i: nat| to.steps.len() <= i < from.steps.len() && c == bare_step_change(ChangeType::StepRemoved, i),
{
    let max_steps = if from.steps.len() >= to.steps.len() { from.steps.len() } else { to.steps.len() };
    let m = metadata_changes(from, to);
    let s = step_changes(from.steps, to.steps, max_steps as int);
    let v1 = variable_changes(from.variables, to.variables, from.variables.len() as int, true);
    let v2 = variable_changes(to.variables, from.variables, to.variables.len() as int, false);
    let d = workflow_diff(from, to);
    assert(d == m + s + v1 + v2);
    lemma_metadata_kinds(from, to);
    lemma_step_change_kinds(from.steps, to.steps, max_steps as int);
    lemma_variable_kinds(from.variables, to.variables, from.variables.len() as int, true);
    lemma_variable_kinds(to.variables, from.variables, to.variables.len() as int, false);
    assert forall|i: nat| from.steps.len() <= i < to.steps.len()
        implies #[trigger] d.contains(bare_step_change(ChangeType::StepAdded, i)) by {
        assert(s.contains(bare_step_change(ChangeType::StepAdded, i)));
        let k = choose|k: int| 0 <= k < s.len() && s[k] == bare_step_change(ChangeType::StepAdded, i);
        assert(d[m.len() + k] == s[k]);
    }
    assert forall|i: nat| to.steps.len() <= i < from.steps.len()
        implies #[trigger] d.contains(bare_step_change(ChangeType::StepRemoved, i)) by {
        assert(s.contains(bare_step_change(ChangeType::StepRemoved, i)));
        let k = choose|k: int| 0 <= k < s.len() && s[k] == bare_step_change(ChangeType::StepRemoved, i);
        assert(d[m.len() + k] == s[k]);
    }
    assert forall|c: ChangeView| #[trigger] d.contains(c) && (c.change_type == ChangeType::StepAdded
        || c.change_type == ChangeType::StepRemoved) implies s.contains(c) by {
        let k = choose|k: int| 0 <= k < d.len() && d[k] == c;
        if k < m.len() {
            assert(d[k] == m[k]);
        } else if k < m.len() + s.len() {
            assert(d[k] == s[k - m.len()]);
        } else if k < m.len() + s.len() + v1.len() {
            assert(d[k] == v1[k - m.len() - s.len()]);
        } else {
            assert(d[k] == v2[k - m.len() - s.len() - v1.len()]);
        }
    }
    assert forall|c: ChangeView| #[trigger] d.contains(c) && c.change_type == ChangeType::StepAdded
        implies exists|i: nat| from.steps.len() <= i < to.steps.len() && c == bare_step_change(ChangeType::StepAdded, i) by {
        assert(s.contains(c));
        let k = choose|k: int| 0 <= k < s.len() && s[k] == c;
        assert(s[k].change_type == ChangeType::StepAdded);
    }
    assert forall|c: ChangeView| #[trigger] d.contains(c) && c.change_type == ChangeType::StepRemoved
        implies exists|i: nat| to.steps.len() <= i < from.steps.len() && c == bare_step_change(ChangeType::StepRemoved, i) by {
        assert(s.contains(c));
        let k = choose|k: int| 0 <= k < s.len() && s[k] == c;
        assert(s[k].change_type == ChangeType::StepRemoved);
    }
}

/// The change recording that the step at position `i` went from `old` to `new`.
pub open spec fn step_modification(i: nat, old: Seq<char>, new: Seq<char>) -> ChangeView {
    ChangeView { change_type: ChangeType::StepModified, path: "steps."@ + decimal(i), old_value: Some(old), new_value: Some(new) }
}

/// The change recording that the metadata at `path` went from `old` to `new`.
pub open spec fn metadata_change(path: Seq<char>, old: Seq<char>, new: Seq<char>) -> ChangeView {
    ChangeView { change_type: ChangeType::MetadataChanged, path, old_value: Some(old), new_value: Some(new) }
}

/// The change recording that variable `k`, of value `v`, was removed.
pub open spec fn variable_removal(k: Seq<char>, v: Seq<char>) -> ChangeView {
    ChangeView { change_type: ChangeType::VariableRemoved, path: "variables."@ + k, old_value: Some(v), new_value: None }
}

/// The change recording that variable `k` was added with value `v`.
pub open spec fn variable_addition(k: Seq<char>, v: Seq<char>) -> ChangeView {
    ChangeView { change_type: ChangeType::VariableAdded, path: "variables."@ + k, old_value: None, new_value: Some(v) }
}

/// A removal of `k` when `removed` holds, otherwise an addition.
pub open spec fn variable_change(removed: bool, k: Seq<char>, v: Seq<char>) -> ChangeView {
    if removed { variable_removal(k, v) } else { variable_addition(k, v) }
}

proof fn lemma_step_modifications(from: Seq<Seq<char>>, to: Seq<Seq<char>>, n: int)
    ensures
        forall|i: nat| i < n && i < from.len() && i < to.len() && from[i as int] != to[i as int]
            ==> #[trigger] step_changes(from, to, n).contains(step_modification(i, from[i as int], to[i as int])),
        forall|k: int| 0 <= k < step_changes(from, to, n).len()
            && #[trigger] step_changes(from, to, n)[k].change_type == ChangeType::StepModified
            ==> exists|i: nat| i < from.len() && i < to.len() && from[i as int] != to[i as int]
                && step_changes(from, to, n)[k] == step_modification(i, from[i as int], to[i as int]),
    decreases n,
{
    if n > 0 {
        lemma_step_modifications(from, to, n - 1);
        let s0 = step_changes(from, to, n - 1);
        let t = step_change(from, to, n - 1);
        let s = step_changes(from, to, n);
        let last = (n - 1) as nat;
        assert(s == s0 + t);
        assert forall|i: nat| i < n && i < from.len() && i < to.len() && from[i as int] != to[i as int]
            implies #[trigger] s.contains(step_modification(i, from[i as int], to[i as int])) by {
            if i < n - 1 {
                assert(s0.contains(step_modification(i, from[i as int], to[i as int])));
                let k = choose|k: int| 0 <= k < s0.len() && s0[k] == step_modification(i, from[i as int], to[i as int]);
                assert(s[k] == s0[k]);
            } else {
                assert(t[0] == step_modification(last, from[i as int], to[i as int]));
                assert(s[s0.len() as int] == t[0]);
            }
        }
        assert forall|k: int| 0 <= k < s.len() && #[trigger] s[k].change_type == ChangeType::StepModified
            implies exists|i: nat| i < from.len() && i < to.len() && from[i as int] != to[i as int]
                && s[k] == step_modification(i, from[i as int], to[i as int]) by {
            if k < s0.len() {
                assert(s[k] == s0[k]);
                assert(s0[k].change_type == ChangeType::StepModified);
            } else {
                assert(s[k] == t[k - s0.len()]);
                assert(s[k] == step_modification(last, from[n - 1], to[n - 1]));
            }
        }
    }
}

proof fn lemma_variable_members(
    a: Seq<(Seq<char>, Seq<char>)>,
    b: Seq<(Seq<char>, Seq<char>)>,
    n: int,
    removed: bool,
)
    requires
        n <= a.len(),
    ensures
        forall|i: int| 0 <= i < n && !has_key(b, a[i].0) ==> #[trigger] variable_changes(a, b, n, removed).contains(
            variable_change(removed, a[i].0, a[i].1)),
        forall|k: int| 0 <= k < variable_changes(a, b, n, removed).len() ==> exists|i: int| {
            &&& 0 <= i < n
            &&& !has_key(b, a[i].0)
            &&& #[trigger] variable_changes(a, b, n, removed)[k]
                == variable_change(removed, a[i].0, a[i].1)
        },
    decreases n,
{
    if n > 0 {
        lemma_variable_members(a, b, n - 1, removed);
        let s0 = variable_changes(a, b, n - 1, removed);
        let s = variable_changes(a, b, n, removed);
        let here = s.subrange(s0.len() as int, s.len() as int);
        assert(s == s0 + here);
        assert forall|i: int| 0 <= i < n && !has_key(b, a[i].0) implies #[trigger] s.contains(
            variable_change(removed, a[i].0, a[i].1)) by {
            let c = variable_change(removed, a[i].0, a[i].1);
            if i < n - 1 {
                assert(s0.contains(c));
                let k = choose|k: int| 0 <= k < s0.len() && s0[k] == c;
                assert(s[k] == s0[k]);
            } else {
                assert(s[s0.len() as int] == c);
            }
        }
        assert forall|k: int| 0 <= k < s.len() implies exists|i: int| {
            &&& 0 <= i < n
            &&& !has_key(b, a[i].0)
            &&& #[trigger] s[k] == variable_change(removed, a[i].0, a[i].1)
        } by {
            if k < s0.len() {
                assert(s[k] == s0[k]);
            } else {
                assert(s[k] == variable_change(removed, a[n - 1].0, a[n - 1].1));
            }
        }
    }
}

/// A diff reports step `i` as modified, with its old and new text, exactly
/// when the step lies within both workflows and its text differs.
pub proof fn lemma_diff_modified(from: WorkflowView, to: WorkflowView)
    ensures
        forall|i: nat| i < from.steps.len() && i < to.steps.len() && from.steps[i as int] != to.steps[i as int]
            ==> #[trigger] workflow_diff(from, to).contains(step_modification(i, from.steps[i as int], to.steps[i as int])),
        forall|c: ChangeView| #[trigger] workflow_diff(from, to).contains(c) && c.change_type == ChangeType::StepModified
            ==> exists|i: nat| i < from.steps.len() && i < to.steps.len() && from.steps[i as int] != to.steps[i as int]
                && c == step_modification(i, from.steps[i as int], to.steps[i as int]),
{
    let max_steps = if from.steps.len() >= to.steps.len() { from.steps.len() } else { to.steps.len() };
    let m = metadata_changes(from, to);
    let s = step_changes(from.steps, to.steps, max_steps as int);
    let v1 = variable_changes(from.variables, to.variables, from.variables.len() as int, true);
    let v2 = variable_changes(to.variables, from.variables, to.variables.len() as int, false);
    let d = workflow_diff(from, to);
    assert(d == m + s + v1 + v2);
    lemma_metadata_kinds(from, to);
    lemma_step_modifications(from.steps, to.steps, max_steps as int);
    lemma_variable_kinds(from.variables, to.variables, from.variables.len() as int, true);
    lemma_variable_kinds(to.variables, from.variables, to.variables.len() as int, false);
    assert forall|i: nat| i < from.steps.len() && i < to.steps.len() && from.steps[i as int] != to.steps[i as int]
        implies #[trigger] d.contains(step_modification(i, from.steps[i as int], to.steps[i as int])) by {
        let c = step_modification(i, from.steps[i as int], to.steps[i as int]);
        assert(s.contains(c));
        let k = choose|k: int| 0 <= k < s.len() && s[k] == c;
        assert(d[m.len() + k] == s[k]);
    }
    assert forall|c: ChangeView| #[trigger] d.contains(c) && c.change_type == ChangeType::StepModified
        implies exists|i: nat| i < from.steps.len() && i < to.steps.len() && from.steps[i as int] != to.steps[i as int]
            && c == step_modification(i, from.steps[i as int], to.steps[i as int]) by {
        let k = choose|k: int| 0 <= k < d.len() && d[k] == c;
        if k < m.len() {
            assert(d[k] == m[k]);
        } else if k < m.len() + s.len() {
            assert(d[k] == s[k - m.len()]);
            assert(s[k - m.len()].change_type == ChangeType::StepModified);
        } else if k < m.len() + s.len() + v1.len() {
            assert(d[k] == v1[k - m.len() - s.len()]);
        } else {
            assert(d[k] == v2[k - m.len() - s.len() - v1.len()]);
        }
    }
}

/// A diff reports a variable as removed exactly when the old workflow has it
/// and the new one lacks its name, and as added exactly when the new workflow
/// has it and the old one lacks its name.
pub proof fn lemma_diff_variables(from: WorkflowView, to: WorkflowView)
    ensures
        forall|i: int| 0 <= i < from.variables.len() && !has_key(to.variables, from.variables[i].0)
            ==> #[trigger] workflow_diff(from, to).contains(variable_removal(from.variables[i].0, from.variables[i].1)),
        forall|i: int| 0 <= i < to.variables.len() && !has_key(from.variables, to.variables[i].0)
            ==> #[trigger] workflow_diff(from, to).contains(variable_addition(to.variables[i].0, to.variables[i].1)),
        forall|c: ChangeView| #[trigger] workflow_diff(from, to).contains(c) && c.change_type == ChangeType::VariableRemoved
            ==> exists|i: int| 0 <= i < from.variables.len() && !has_key(to.variables, from.variables[i].0)
                && c == variable_removal(from.variables[i].0, from.variables[i].1),
        forall|c: ChangeView| #[trigger] workflow_diff(from, to).contains(c) && c.change_type == ChangeType::VariableAdded
            ==> exists|i: int| 0 <= i < to.variables.len() && !has_key(from.variables, to.variables[i].0)
                && c == variable_addition(to.variables[i].0, to.variables[i].1),
{
    let max_steps = if from.steps.len() >= to.steps.len() { from.steps.len() } else { to.steps.len() };
    let m = metadata_changes(from, to);
    let s = step_changes(from.steps, to.steps, max_steps as int);
    let v1 = variable_changes(from.variables, to.variables, from.variables.len() as int, true);
    let v2 = variable_changes(to.variables, from.variables, to.variables.len() as int, false);
    let d = workflow_diff(from, to);
    assert(d == m + s + v1 + v2);
    lemma_metadata_kinds(from, to);
    lemma_step_kinds_only(from.steps, to.steps, max_steps as int);
    lemma_variable_members(from.variables, to.variables, from.variables.len() as int, true);
    lemma_variable_members(to.variables, from.variables, to.variables.len() as int, false);
    assert forall|i: int| 0 <= i < from.variables.len() && !has_key(to.variables, from.variables[i].0)
        implies #[trigger] d.contains(variable_removal(from.variables[i].0, from.variables[i].1)) by {
        let c = variable_change(true, from.variables[i].0, from.variables[i].1);
        assert(v1.contains(c));
        let k = choose|k: int| 0 <= k < v1.len() && v1[k] == c;
        assert(d[m.len() + s.len() + k] == v1[k]);
    }
    assert forall|i: int| 0 <= i < to.variables.len() && !has_key(from.variables, to.variables[i].0)
        implies #[trigger] d.contains(variable_addition(to.variables[i].0, to.variables[i].1)) by {
        let c = variable_change(false, to.variables[i].0, to.variables[i].1);
        assert(v2.contains(c));
        let k = choose|k: int| 0 <= k < v2.len() && v2[k] == c;
        assert(d[m.len() + s.len() + v1.len() + k] == v2[k]);
    }
    assert forall|c: ChangeView| #[trigger] d.contains(c) && c.change_type == ChangeType::VariableRemoved
        implies exists|i: int| 0 <= i < from.variables.len() && !has_key(to.variables, from.variables[i].0)
            && c == variable_removal(from.variables[i].0, from.variables[i].1) by {
        let k = choose|k: int| 0 <= k < d.len() && d[k] == c;
        if k < m.len() {
            assert(d[k] == m[k]);
        } else if k < m.len() + s.len() {
            assert(d[k] == s[k - m.len()]);
        } else if k < m.len() + s.len() + v1.len() {
            assert(d[k] == v1[k - m.len() - s.len()]);
        } else {
            assert(d[k] == v2[k - m.len() - s.len() - v1.len()]);
        }
    }
    assert forall|c: ChangeView| #[trigger] d.contains(c) && c.change_type == ChangeType::VariableAdded
        implies exists|i: int| 0 <= i < to.variables.len() && !has_key(from.variables, to.variables[i].0)
            && c == variable_addition(to.variables[i].0, to.variables[i].1) by {
        let k = choose|k: int| 0 <= k < d.len() && d[k] == c;
        if k < m.len() {
            assert(d[k] == m[k]);
        } else if k < m.len() + s.len() {
            assert(d[k] == s[k - m.len()]);
        } else if k < m.len() + s.len() + v1.len() {
            assert(d[k] == v1[k - m.len() - s.len()]);
        } else {
            assert(d[k] == v2[k - m.len() - s.len() - v1.len()]);
        }
    }
}

/// A diff reports the name, and the description, as changed exactly when it
/// differs, with the old and new text quoted as JSON strings.
pub proof fn lemma_diff_metadata(from: WorkflowView, to: WorkflowView)
    ensures
        from.name != to.name ==> workflow_diff(from, to).contains(
            metadata_change("name"@, spec_quoted(from.name), spec_quoted(to.name))),
        from.description != to.description ==> workflow_diff(from, to).contains(
            metadata_change("description"@, spec_quoted(from.description), spec_quoted(to.description))),
        from.name == to.name && from.description == to.description
            ==> forall|c: ChangeView| #[trigger] workflow_diff(from, to).contains(c) ==> c.change_type != ChangeType::MetadataChanged,
{
    let max_steps = if from.steps.len() >= to.steps.len() { from.steps.len() } else { to.steps.len() };
    let m = metadata_changes(from, to);
    let s = step_changes(from.steps, to.steps, max_steps as int);
    let v1 = variable_changes(from.variables, to.variables, from.variables.len() as int, true);
    let v2 = variable_changes(to.variables, from.variables, to.variables.len() as int, false);
    let d = workflow_diff(from, to);
    assert(d == m + s + v1 + v2);
    lemma_step_kinds_only(from.steps, to.steps, max_steps as int);
    lemma_variable_kinds(from.variables, to.variables, from.variables.len() as int, true);
    lemma_variable_kinds(to.variables, from.variables, to.variables.len() as int, false);
    if from.name != to.name {
        assert(d[0] == m[0]);
    }
    if from.description != to.description {
        assert(d[m.len() - 1] == m[m.len() - 1]);
    }
    if from.name == to.name && from.description == to.description {
        assert(m.len() == 0);
        assert forall|c: ChangeView| #[trigger] d.contains(c) implies c.change_type != ChangeType::MetadataChanged by {
            let k = choose|k: int| 0 <= k < d.len() && d[k] == c;
            if k < s.len() {
                assert(d[k] == s[k]);
            } else if k < s.len() + v1.len() {
                assert(d[k] == v1[k - s.len()]);
            } else {
                assert(d[k] == v2[k - s.len() - v1.len()]);
            }
        }
    }
}

proof fn lemma_step_kinds_only(from: Seq<Seq<char>>, to: Seq<Seq<char>>, n: int)
    ensures
        forall|k: int| 0 <= k < step_changes(from, to, n).len() ==> {
            let t = #[trigger] step_changes(from, to, n)[k].change_type;
            t == ChangeType::StepAdded || t == ChangeType::StepRemoved || t == ChangeType::StepModified
        },
    decreases n,
{
    if n > 0 {
        lemma_step_kinds_only(from, to, n - 1);
        let s0 = step_changes(from, to, n - 1);
        let s = step_changes(from, to, n);
        assert forall|k: int| 0 <= k < s.len() implies {
            let t = #[trigger] s[k].change_type;
            t == ChangeType::StepAdded || t == ChangeType::StepRemoved || t == ChangeType::StepModified
        } by {
            if k < s0.len() {
                assert(s[k] == s0[k]);
            }
        }
    }
}

/// A snapshot of a workflow at one version.
pub struct WorkflowSnapshot {
    pub version: WorkflowVersion,
    pub workflow: Workflow,
    /// Seconds since the Unix epoch when the snapshot was taken.
    pub created_at: i64,
    pub created_by: String,
    pub description: String,
    pub change_type: VersionChangeType,
}

impl WorkflowSnapshot {
    /// A snapshot stamped with the current time.
    pub fn new(
        version: WorkflowVersion,
        workflow: Workflow,
        created_by: String,
        description: String,
        change_type: VersionChangeType,
    ) -> (s: Self)
        ensures
            s.version == version,
            s.workflow@ == workflow@,
            s.created_by@ == created_by@,
            s.description@ == description@,
            s.change_type == change_type,
    {
        WorkflowSnapshot { version, workflow, created_at: now_timestamp(), created_by, description, change_type }
    }

    /// A copy with the same content.
    pub fn duplicate(&self) -> (s: Self)
        ensures
            s.version == self.version,
            s.workflow@ == self.workflow@,
            s.created_at == self.created_at,
            s.created_by@ == self.created_by@,
            s.description@ == self.description@,
            s.change_type == self.change_type,
    {
        WorkflowSnapshot {
            version: self.version,
            workflow: self.workflow.duplicate(),
            created_at: self.created_at,
            created_by: self.created_by.clone(),
            description: self.description.clone(),
            change_type: self.change_type,
        }
    }
}

/// The versions of a history, in order.
pub open spec fn versions_of(h: Seq<WorkflowSnapshot>) -> Seq<WorkflowVersion> {
    h.map_values(|s: WorkflowSnapshot| s.version)
}

/// Whether versions strictly increase along a history.
pub open spec fn increasing(v: Seq<WorkflowVersion>) -> bool {
    forall|i: int, j: int| 0 <= i < j < v.len() ==> version_lt(#[trigger] v[i], #[trigger] v[j])
}

/// A history once pruned to at most `max` snapshots: when it is longer and
/// `max` exceeds one, the first snapshot and the newest `max - 1` stay.
pub open spec fn prune<T>(h: Seq<T>, max: nat) -> Seq<T> {
    if h.len() > max && max > 1 {
        seq![h[0]] + h.subrange(h.len() - max + 1, h.len() as int)
    } else {
        h
    }
}

/// The version that the next snapshot of a history gets.
pub open spec fn version_after(h: Seq<WorkflowSnapshot>, change: VersionChangeType) -> WorkflowVersion {
    if h.len() > 0 {
        next_version(h.last().version, change)
    } else {
        WorkflowVersion { major: 1, minor: 0, patch: 0 }
    }
}

/// Whether a new snapshot can follow a history without overflowing its version.
pub open spec fn can_follow(h: Seq<WorkflowSnapshot>, change: VersionChangeType) -> bool {
    h.len() > 0 ==> can_advance(h.last().version, change)
}

/// The first version of a workflow is 1.0.0. After that, a major change
/// raises the major number and restarts minor and patch at 0; a minor change
/// keeps the major number, raises the minor one and restarts patch at 0; a
/// patch change raises only the patch number.
pub proof fn lemma_version_bumps(h: Seq<WorkflowSnapshot>, change: VersionChangeType)
    requires
        can_follow(h, change),
    ensures
        h.len() == 0 ==> version_after(h, change) == (WorkflowVersion { major: 1, minor: 0, patch: 0 }),
        h.len() > 0 && change == VersionChangeType::Major ==> ({
            let v = version_after(h, change);
            &&& v.major == h.last().version.major + 1
            &&& v.minor == 0
            &&& v.patch == 0
        }),
        h.len() > 0 && change == VersionChangeType::Minor ==> ({
            let v = version_after(h, change);
            &&& v.major == h.last().version.major
            &&& v.minor == h.last().version.minor + 1
            &&& v.patch == 0
        }),
        h.len() > 0 && change == VersionChangeType::Patch ==> ({
            let v = version_after(h, change);
            &&& v.major == h.last().version.major
            &&& v.minor == h.last().version.minor
            &&& v.patch == h.last().version.patch + 1
        }),
{
}

/// The index of the first snapshot of version `v`, if any.
pub open spec fn first_with_version(h: Seq<WorkflowSnapshot>, v: WorkflowVersion) -> Option<int> {
    if exists|i: int| 0 <= i < h.len() && #[trigger] h[i].version == v {
        Some(choose|i: int| 0 <= i < h.len() && #[trigger] h[i].version == v
            && forall|j: int| 0 <= j < i ==> h[j].version != v)
    } else {
        None
    }
}

/// Keeps the version history of every workflow.
pub struct VersionManager {
    histories: Table<Vec<WorkflowSnapshot>>,
    max_versions: usize,
}

impl VersionManager {
    /// The history kept for a workflow, oldest first.
    pub closed spec fn history(&self, workflow_id: Seq<char>) -> Seq<WorkflowSnapshot> {
        if self.histories@.dom().contains(workflow_id) {
            self.histories@[workflow_id]@
        } else {
            Seq::<WorkflowSnapshot>::empty()
        }
    }

    /// The most snapshots kept per workflow.
    pub closed spec fn max(&self) -> nat {
        self.max_versions as nat
    }

    /// A manager that keeps the last 50 versions of each workflow.
    pub fn new() -> (m: Self)
        ensures
            m.max() == 50,
            forall|id: Seq<char>| m.history(id).len() == 0,
    {
        Self::with_max_versions(50)
    }

    /// A manager that keeps the given number of versions per workflow.
    pub fn with_max_versions(max_versions: usize) -> (m: Self)
        ensures
            m.max() == max_versions,
            forall|id: Seq<char>| m.history(id).len() == 0,
    {
        let m = VersionManager { histories: Table::new(), max_versions };
        assert forall|id: Seq<char>| m.history(id).len() == 0 by {
            assert(!m.histories@.dom().contains(id));
        }
        m
    }

    fn take_history(&mut self, workflow_id: &str) -> (h: Vec<WorkflowSnapshot>)
        ensures
            h@ == old(self).history(workflow_id@),
            final(self).max() == old(self).max(),
            forall|id: Seq<char>| id != workflow_id@ ==> final(self).history(id) == old(self).history(id),
            final(self).history(workflow_id@).len() == 0,
    {
        match self.histories.remove(workflow_id) {
            Some(h) => h,
            None => Vec::new(),
        }
    }

    fn put_history(&mut self, workflow_id: &str, h: Vec<WorkflowSnapshot>)
        ensures
            final(self).history(workflow_id@) == h@,
            final(self).max() == old(self).max(),
            forall|id: Seq<char>| id != workflow_id@ ==> final(self).history(id) == old(self).history(id),
    {
        self.histories.insert(String::from_str(workflow_id), h);
    }

    /// Records a new version of a workflow and returns its number: 1.0.0 for
    /// the first, otherwise the latest version advanced by the kind of change.
    /// Older snapshots beyond the limit are dropped, the first always kept.
    pub fn create_version(
        &mut self,
        workflow_id: &str,
        workflow: Workflow,
        created_by: String,
        description: String,
        change_type: VersionChangeType,
    ) -> (r: Result<WorkflowVersion, VersionError>)
        requires
            can_follow(old(self).history(workflow_id@), change_type),
        ensures
            r matches Ok(v) && v == version_after(old(self).history(workflow_id@), change_type),
            ({
                let h = final(self).history(workflow_id@);
                &&& h.len() > 0
                &&& h == prune(old(self).history(workflow_id@).push(h.last()), old(self).max())
                &&& h.last().version == version_after(old(self).history(workflow_id@), change_type)
                &&& h.last().workflow@ == workflow@
                &&& h.last().created_by@ == created_by@
                &&& h.last().description@ == description@
                &&& h.last().change_type == change_type
            }),
            old(self).history(workflow_id@).len() > 0 ==> final(self).history(workflow_id@)[0] == old(self).history(workflow_id@)[0],
            increasing(versions_of(old(self).history(workflow_id@))) ==> increasing(versions_of(final(self).history(workflow_id@))),
            final(self).max() == old(self).max(),
            forall|id: Seq<char>| id != workflow_id@ ==> final(self).history(id) == old(self).history(id),
    {
        let ghost old_h = old(self).history(workflow_id@);
        let ghost max = old(self).max();
        let mut h = self.take_history(workflow_id);
        let next = if h.len() > 0 {
            h[h.len() - 1].version.advance(change_type)
        } else {
            WorkflowVersion::initial()
        };
        let snapshot = WorkflowSnapshot::new(next, workflow, created_by, description, change_type);
        h.push(snapshot);
        let ghost pushed = h@;
        assert(pushed == old_h.push(pushed.last()));
        if h.len() > self.max_versions {
            let remove_count = h.len() - self.max_versions;
            if self.max_versions > 1 {
                let mut rest = h.split_off(remove_count + 1);
                h.truncate(1);
                h.append(&mut rest);
                assert(h@ =~= prune(pushed, max));
            }
        }
        proof {
            assert(h@ == prune(pushed, max));
            let vs = versions_of(old_h);
            let ws = versions_of(h@);
            if increasing(vs) {
                let vp = versions_of(pushed);
                assert forall|i: int, j: int| 0 <= i < j < vp.len() implies version_lt(#[trigger] vp[i], #[trigger] vp[j]) by {
                    if j == vp.len() - 1 && i < j {
                        if i < j - 1 {
                            assert(version_lt(vs[i], vs[vs.len() - 1]));
                        }
                    } else {
                        assert(vp[i] == vs[i] && vp[j] == vs[j]);
                    }
                }
                if pushed.len() > max && max > 1 {
                    assert forall|i: int, j: int| 0 <= i < j < ws.len() implies version_lt(#[trigger] ws[i], #[trigger] ws[j]) by {
                        let off = pushed.len() - max;
                        let i2 = if i == 0 { 0 } else { i + off };
                        let j2 = j + off;
                        assert(ws[i] == vp[i2]);
                        assert(ws[j] == vp[j2]);
                    }
                }
            }
        }
        self.put_history(workflow_id, h);
        Ok(next)
    }

    /// The workflow as it was at the first snapshot of the given version.
    pub fn get_version(&self, workflow_id: &str, version: &WorkflowVersion) -> (r: Option<Workflow>)
        ensures
            r matches Some(w) ==> (first_with_version(self.history(workflow_id@), *version) matches Some(i)
                && w@ == self.history(workflow_id@)[i].workflow@),
            r is None ==> first_with_version(self.history(workflow_id@), *version) is None,
    {
        match self.histories.get(workflow_id) {
            Some(h) => {
                let mut i: usize = 0;
                while i < h.len()
                    invariant
                        i <= h@.len(),
                        h@ == self.history(workflow_id@),
                        forall|j: int| 0 <= j < i ==> h@[j].version != *version,
                    decreases h@.len() - i,
                {
                    if h[i].version == *version {
                        proof {
                            let hh = h@;
                            let k = choose|k: int| 0 <= k < hh.len() && #[trigger] hh[k].version == *version
                                && forall|j: int| 0 <= j < k ==> hh[j].version != *version;
                            assert(0 <= (i as int) < hh.len() && hh[i as int].version == *version
                                && forall|j: int| 0 <= j < i ==> hh[j].version != *version);
                            if k < i {
                                assert(hh[k].version != *version);
                            }
                            if (i as int) < k {
                                assert(hh[i as int].version != *version);
                            }
                        }
                        return Some(h[i].workflow.duplicate());
                    }
                    i = i + 1;
                }
                None
            },
            None => None,
        }
    }

    /// The workflow at the latest snapshot.
    pub fn get_latest(&self, workflow_id: &str) -> (r: Option<Workflow>)
        ensures
            r matches Some(w) ==> self.history(workflow_id@).len() > 0 && w@ == self.history(workflow_id@).last().workflow@,
            r is None ==> self.history(workflow_id@).len() == 0,
    {
        match self.histories.get(workflow_id) {
            Some(h) => {
                if h.len() > 0 {
                    Some(h[h.len() - 1].workflow.duplicate())
                } else {
                    None
                }
            },
            None => None,
        }
    }

    /// The latest version number of a workflow.
    fn get_latest_version(&self, workflow_id: &str) -> (r: Option<WorkflowVersion>)
        ensures
            r matches Some(v) ==> self.history(workflow_id@).len() > 0 && v == self.history(workflow_id@).last().version,
            r is None ==> self.history(workflow_id@).len() == 0,
    {
        match self.histories.get(workflow_id) {
            Some(h) => {
                if h.len() > 0 {
                    Some(h[h.len() - 1].version)
                } else {
                    None
                }
            },
            None => None,
        }
    }

    /// All version numbers of a workflow, oldest first.
    pub fn list_versions(&self, workflow_id: &str) -> (r: Vec<WorkflowVersion>)
        ensures
            r@ == versions_of(self.history(workflow_id@)),
    {
        let mut r: Vec<WorkflowVersion> = Vec::new();
        match self.histories.get(workflow_id) {
            Some(h) => {
                let mut i: usize = 0;
                while i < h.len()
                    invariant
                        i <= h@.len(),
                        h@ == self.history(workflow_id@),
                        r@ == versions_of(h@.subrange(0, i as int)),
                    decreases h@.len() - i,
                {
                    r.push(h[i].version);
                    i = i + 1;
                    assert(r@ =~= versions_of(h@.subrange(0, i as int)));
                }
                assert(h@.subrange(0, i as int) =~= h@);
            },
            None => {
                assert(r@ =~= versions_of(self.history(workflow_id@)));
            },
        }
        r
    }

    /// Copies of all snapshots of a workflow, oldest first.
    pub fn get_history(&self, workflow_id: &str) -> (r: Vec<WorkflowSnapshot>)
        ensures
            r@.len() == self.history(workflow_id@).len(),
            forall|i: int| 0 <= i < r@.len() ==> (#[trigger] r@[i]).version == self.history(workflow_id@)[i].version
                && r@[i].workflow@ == self.history(workflow_id@)[i].workflow@,
    {
        let mut r: Vec<WorkflowSnapshot> = Vec::new();
        match self.histories.get(workflow_id) {
            Some(h) => {
                let mut i: usize = 0;
                while i < h.len()
                    invariant
                        i <= h@.len(),
                        h@ == self.history(workflow_id@),
                        r@.len() == i,
                        forall|j: int| 0 <= j < i ==> (#[trigger] r@[j]).version == h@[j].version && r@[j].workflow@ == h@[j].workflow@,
                    decreases h@.len() - i,
                {
                    r.push(h[i].duplicate());
                    i = i + 1;
                }
            },
            None => {},
        }
        r
    }

    /// Makes the workflow of the given version the latest again, as a new
    /// patch version after the current latest, and returns it.
    pub fn rollback(
        &mut self,
        workflow_id: &str,
        to_version: &WorkflowVersion,
        created_by: String,
        reason: String,
    ) -> (r: Result<Workflow, VersionError>)
        requires
            old(self).history(workflow_id@).len() > 0 ==> old(self).history(workflow_id@).last().version.patch < u32::MAX,
        ensures
            first_with_version(old(self).history(workflow_id@), *to_version) is None ==> (r matches Err(e)
                && e matches VersionError::NotFound(t) && t@ == version_text(*to_version) && final(self).history(workflow_id@) == old(self).history(workflow_id@)),
            first_with_version(old(self).history(workflow_id@), *to_version) matches Some(i) ==> (r matches Ok(w) && ({
                let old_h = old(self).history(workflow_id@);
                let h = final(self).history(workflow_id@);
                &&& w@ == old_h[i].workflow@
                &&& h == old_h.push(h.last())
                &&& h.last().workflow@ == w@
                &&& h.last().version == next_version(old_h.last().version, VersionChangeType::Patch)
                &&& h.last().change_type == VersionChangeType::Patch
                &&& h.last().created_by@ == created_by@
                &&& h.last().description@ == "Rollback to "@ + version_text(*to_version) + ": "@ + reason@
            })),
            final(self).max() == old(self).max(),
            forall|id: Seq<char>| id != workflow_id@ ==> final(self).history(id) == old(self).history(id),
    {
        let target = match self.get_version(workflow_id, to_version) {
            Some(w) => w,
            None => {
                return Err(VersionError::NotFound(to_version.to_string()));
            },
        };
        let current = match self.get_latest_version(workflow_id) {
            Some(v) => v,
            None => WorkflowVersion::initial(),
        };
        let new_version = current.increment_patch();
        let v_text = to_version.to_string();
        let mut description = crate::text::cat3("Rollback to ", v_text.as_str(), ": ");
        description.append(reason.as_str());
        let snapshot = WorkflowSnapshot::new(new_version, target.duplicate(), created_by, description,
            VersionChangeType::Patch);
        let mut h = self.take_history(workflow_id);
        h.push(snapshot);
        self.put_history(workflow_id, h);
        Ok(target)
    }

    /// The differences between two versions of a workflow, when both exist.
    pub fn diff(&self, workflow_id: &str, from_version: &WorkflowVersion, to_version: &WorkflowVersion) -> (r: Option<WorkflowDiff>)
        ensures
            r is Some <==> (first_with_version(self.history(workflow_id@), *from_version) is Some
                && first_with_version(self.history(workflow_id@), *to_version) is Some),
            r matches Some(d) ==> ({
                let h = self.history(workflow_id@);
                let i = first_with_version(h, *from_version)->0;
                let j = first_with_version(h, *to_version)->0;
                &&& d.from_version == *from_version
                &&& d.to_version == *to_version
                &&& changes_view(d.changes@) == workflow_diff(h[i].workflow@, h[j].workflow@)
            }),
    {
        let from_workflow = match self.get_version(workflow_id, from_version) {
            Some(w) => w,
            None => return None,
        };
        let to_workflow = match self.get_version(workflow_id, to_version) {
            Some(w) => w,
            None => return None,
        };
        let changes = compute_diff(&from_workflow, &to_workflow);
        Some(WorkflowDiff { from_version: *from_version, to_version: *to_version, changes })
    }

    /// Forgets the history of a workflow.
    pub fn delete_history(&mut self, workflow_id: &str)
        ensures
            final(self).history(workflow_id@).len() == 0,
            final(self).max() == old(self).max(),
            forall|id: Seq<char>| id != workflow_id@ ==> final(self).history(id) == old(self).history(id),
    {
        let _ = self.histories.remove(workflow_id);
    }

    /// The number of snapshots kept for a workflow.
    pub fn version_count(&self, workflow_id: &str) -> (n: usize)
        ensures
            n == self.history(workflow_id@).len(),
    {
        match self.histories.get(workflow_id) {
            Some(h) => h.len(),
            None => 0,
        }
    }

    /// Replaces the history of a workflow by the given snapshots.
    pub fn replace_history(&mut self, workflow_id: &str, snapshots: Vec<WorkflowSnapshot>)
        ensures
            final(self).history(workflow_id@) == snapshots@,
            final(self).max() == old(self).max(),
            forall|id: Seq<char>| id != workflow_id@ ==> final(self).history(id) == old(self).history(id),
    {
        self.put_history(workflow_id, snapshots);
    }
}

/// The differences between two versions of a workflow.
pub struct WorkflowDiff {
    pub from_version: WorkflowVersion,
    pub to_version: WorkflowVersion,
    pub changes: Vec<VersionChange>,
}

} // verus!
