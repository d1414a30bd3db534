//! Workflow discovery and contract checking.
//!
//! Two facts about a workflow matter to gh-ship, and neither is
//! comfortably available from the API: whether it can be dispatched at
//! all (a `workflow_call`-only workflow cannot), and whether it declares
//! the inputs and `run-name` gh-ship relies on. Both are read from the
//! workflow file itself; the YAML is parsed by `serde_norway` and handed
//! here as a plain [`Yaml`] value.

use vstd::prelude::*;

use crate::artifact::model::strings_view;
use crate::paths::{extension, extension_of_name, file_name, file_name_of, file_stem, file_stem_of};
use crate::templates::Role;
use crate::text::{self, chars_of, concat2, owned, push_str, str_contains, str_eq};

verus! {

/// The dispatch input carrying gh-ship's correlation nonce.
pub const SHIP_ID_INPUT: &'static str = "ship_id";

/// The same input, as workflows generated before correlation moved to
/// the dispatched ref still require it.
pub const LEGACY_SHIP_ID_INPUT: &'static str = "ship_id";

/// The dispatch input that suppresses mutations, used by `preview`.
pub const DRY_RUN_INPUT: &'static str = "dry_run";

/// Directory holding workflow definitions.
pub const WORKFLOW_DIR: &'static str = ".github/workflows";

/// A YAML value, as much of it as trigger analysis reads.
#[derive(Debug)]
pub enum Yaml {
    Null,
    Bool(bool),
    Number(String),
    Str(String),
    Sequence(Vec<Yaml>),
    /// A mapping, its entries in document order, keys unique.
    Mapping(Vec<(Yaml, Yaml)>),
    Tagged(String, Box<Yaml>),
}

/// A workflow definition found on disk.
#[derive(Debug, Clone)]
pub struct Workflow {
    /// Path relative to the repository root.
    pub path: String,
    /// The workflow's `name:`, falling back to the file stem.
    pub name: String,
    /// Whether it declares `on: workflow_dispatch`.
    pub dispatchable: bool,
    /// Whether it declares `on: workflow_call`.
    pub callable: bool,
    /// Its `run-name:` expression, if any.
    pub run_name: Option<String>,
    /// Input names, sorted, without duplicates.
    pub inputs: Vec<String>,
}

pub struct WorkflowView {
    pub path: Seq<char>,
    pub name: Seq<char>,
    pub dispatchable: bool,
    pub callable: bool,
    pub run_name: Option<Seq<char>>,
    pub inputs: Seq<Seq<char>>,
}

impl View for Workflow {
    type V = WorkflowView;

    open spec fn view(&self) -> WorkflowView {
        WorkflowView {
            path: self.path@,
            name: self.name@,
            dispatchable: self.dispatchable,
            callable: self.callable,
            run_name: match self.run_name {
                Some(n) => Some(n@),
                None => None,
            },
            inputs: strings_view(self.inputs@),
        }
    }
}

/// The identifier `gh workflow run` is given: the file name, else the
/// display name.
pub open spec fn id_of(w: WorkflowView) -> Seq<char> {
    match file_name_of(w.path) {
        Some(n) => n,
        None => w.name,
    }
}

/// The file stem: how a workflow is named in `ship.yml`.
pub open spec fn slug_of(w: WorkflowView) -> Seq<char> {
    match file_stem_of(w.path) {
        Some(s) => s,
        None => w.name,
    }
}

/// How a workflow is offered to a person: its slug, then its display
/// name where that says something more.
pub open spec fn describe_of(w: WorkflowView) -> Seq<char> {
    if w.name == slug_of(w) {
        slug_of(w)
    } else {
        slug_of(w) + " ("@ + w.name + ")"@
    }
}

pub open spec fn correlates_spec(w: WorkflowView) -> bool {
    match w.run_name {
        Some(n) => text::contains(n, SHIP_ID_INPUT@),
        None => false,
    }
}

/// A way a workflow fails to satisfy the gh-ship contract.
#[derive(Debug, Clone, Copy, PartialEq, Eq, Structural)]
pub enum Violation {
    NotDispatchable,
    MissingShipIdInput,
    MissingRunName,
    /// The prepare workflow does not declare the input `gh ship preview`
    /// dispatches with.
    MissingDryRunInput,
}

/// Every way a workflow violates the contract, in a fixed order.
pub open spec fn violations_of(w: WorkflowView) -> Seq<Violation> {
    (if !w.dispatchable { seq![Violation::NotDispatchable] } else { Seq::empty() })
        + (if !w.inputs.contains(SHIP_ID_INPUT@) { seq![Violation::MissingShipIdInput] } else { Seq::empty() })
        + (if !correlates_spec(w) { seq![Violation::MissingRunName] } else { Seq::empty() })
}

/// What the workflow filling `role` must satisfy: it must be dispatchable,
/// and the prepare workflow must also declare `dry_run`. No `run-name`
/// convention and no correlation input are asked for: the run is found
/// from the ref it was dispatched on and the ids that were there before.
pub open spec fn role_violations(w: WorkflowView, role: Role) -> Seq<Violation> {
    (if !w.dispatchable { seq![Violation::NotDispatchable] } else { Seq::empty() }) + (if role == Role::Prepare
        && !w.inputs.contains(DRY_RUN_INPUT@) {
        seq![Violation::MissingDryRunInput]
    } else {
        Seq::empty()
    })
}

/// Whether the workflow still declares the retired correlation input.
pub open spec fn declares_legacy(w: WorkflowView) -> bool {
    w.inputs.contains(LEGACY_SHIP_ID_INPUT@)
}

fn any_equal(names: &Vec<String>, needle: &str) -> (r: bool)
    ensures
        r == strings_view(names@).contains(needle@),
{
    let ghost all = strings_view(names@);
    let mut i: usize = 0;
    while i < names.len()
        invariant
            i <= names@.len(),
            all == strings_view(names@),
            forall|k: int| 0 <= k < i ==> all[k] != needle@,
        decreases names.len() - i,
    {
        if str_eq(names[i].as_str(), needle) {
            assert(all[i as int] == needle@);
            return true;
        }
        i += 1;
    }
    false
}

impl Workflow {
    /// The identifier to pass to `gh workflow run`.
    ///
    /// The filename is preferred over the display name: it is unique,
    /// stable, and unambiguous when two workflows share a `name:`.
    pub fn id(&self) -> (r: String)
        ensures
            r@ == id_of(self@),
    {
        match file_name(self.path.as_str()) {
            Some(n) => n,
            None => self.name.clone(),
        }
    }

    /// Whether the `run-name` interpolates gh-ship's nonce.
    pub fn correlates(&self) -> (r: bool)
        ensures
            r == correlates_spec(self@),
    {
        match &self.run_name {
            Some(n) => str_contains(n.as_str(), SHIP_ID_INPUT),
            None => false,
        }
    }

    /// Whether it accepts the nonce input at all.
    pub fn accepts_ship_id(&self) -> (r: bool)
        ensures
            r == self@.inputs.contains(SHIP_ID_INPUT@),
    {
        any_equal(&self.inputs, SHIP_ID_INPUT)
    }

    /// Whether it accepts the dry-run input, required by `gh ship preview`.
    pub fn accepts_dry_run(&self) -> (r: bool)
        ensures
            r == self@.inputs.contains(DRY_RUN_INPUT@),
    {
        any_equal(&self.inputs, DRY_RUN_INPUT)
    }

    /// Every way this workflow violates the gh-ship contract.
    pub fn contract_violations(&self) -> (r: Vec<Violation>)
        ensures
            r@ == violations_of(self@),
            (r@.len() == 0) == (self.dispatchable && self@.inputs.contains(SHIP_ID_INPUT@) && correlates_spec(self@)),
    {
        let mut v: Vec<Violation> = Vec::new();
        if !self.dispatchable {
            v.push(Violation::NotDispatchable);
        }
        if !self.accepts_ship_id() {
            v.push(Violation::MissingShipIdInput);
        }
        if !self.correlates() {
            v.push(Violation::MissingRunName);
        }
        assert(v@ =~= violations_of(self@));
        v
    }

    /// An equal copy of this workflow.
    pub(crate) fn duplicate(&self) -> (r: Workflow)
        ensures
            r@ == self@,
    {
        let mut inputs: Vec<String> = Vec::new();
        let mut i: usize = 0;
        while i < self.inputs.len()
            invariant
                i <= self.inputs@.len(),
                strings_view(inputs@) == strings_view(self.inputs@).take(i as int),
            decreases self.inputs.len() - i,
        {
            let ghost before = strings_view(inputs@);
            let s = owned(self.inputs[i].as_str());
            inputs.push(s);
            assert(strings_view(inputs@) =~= before.push(s@));
            assert(strings_view(self.inputs@).take(i + 1) =~= strings_view(self.inputs@).take(i as int).push(s@));
            i += 1;
        }
        assert(strings_view(self.inputs@).take(i as int) =~= strings_view(self.inputs@));
        Workflow {
            path: owned(self.path.as_str()),
            name: owned(self.name.as_str()),
            dispatchable: self.dispatchable,
            callable: self.callable,
            run_name: match &self.run_name {
                Some(n) => Some(owned(n.as_str())),
                None => None,
            },
            inputs,
        }
    }

    /// The name `ship.yml` refers to this workflow by: its file stem.
    pub fn slug(&self) -> (r: String)
        ensures
            r@ == slug_of(self@),
    {
        match file_stem(self.path.as_str()) {
            Some(s) => s,
            None => owned(self.name.as_str()),
        }
    }

    /// The slug, followed by the display name when that differs.
    pub fn describe(&self) -> (r: String)
        ensures
            r@ == describe_of(self@),
    {
        let slug = self.slug();
        if str_eq(self.name.as_str(), slug.as_str()) {
            slug
        } else {
            let mut out = concat2(slug.as_str(), " (");
            push_str(&mut out, self.name.as_str());
            push_str(&mut out, ")");
            out
        }
    }

    /// Every way this workflow fails the contract of `role`.
    pub fn contract_violations_as(&self, role: Role) -> (r: Vec<Violation>)
        ensures
            r@ == role_violations(self@, role),
    {
        let mut v: Vec<Violation> = Vec::new();
        if !self.dispatchable {
            v.push(Violation::NotDispatchable);
        }
        if role == Role::Prepare && !self.accepts_dry_run() {
            v.push(Violation::MissingDryRunInput);
        }
        assert(v@ =~= role_violations(self@, role));
        v
    }

    /// Whether it still declares the `ship_id` input gh-ship no longer
    /// sends: dead weight to delete, not a failure.
    pub fn declares_legacy_ship_id(&self) -> (r: bool)
        ensures
            r == declares_legacy(self@),
    {
        any_equal(&self.inputs, LEGACY_SHIP_ID_INPUT)
    }

    /// The id/slug pair a dispatch is made with.
    pub fn to_ref(&self) -> (r: WorkflowRef)
        ensures
            r.id@ == id_of(self@),
            r.slug@ == slug_of(self@),
    {
        WorkflowRef { id: self.id(), slug: self.slug() }
    }
}

/// A workflow as a dispatch names it: the identifier on the wire, and the
/// slug a person reads.
#[derive(Debug, Clone)]
pub struct WorkflowRef {
    pub id: String,
    pub slug: String,
}

impl WorkflowRef {
    /// A configured name that matched no workflow on disk: passed on as
    /// it is, for `gh` to resolve.
    pub fn unresolved(configured: &str) -> (r: WorkflowRef)
        ensures
            r.id@ == configured@,
            r.slug@ == configured@,
    {
        WorkflowRef { id: owned(configured), slug: owned(configured) }
    }
}

impl Violation {
    pub fn message(&self) -> (r: &'static str)
        ensures
            r@ == violation_message(*self),
    {
        match self {
            Violation::NotDispatchable => "does not declare `on: workflow_dispatch`",
            Violation::MissingShipIdInput => "does not declare a `ship_id` input",
            Violation::MissingRunName => "does not stamp `ship_id` into its `run-name`",
            Violation::MissingDryRunInput => "does not declare a `dry_run` input",
        }
    }

    pub fn help(&self) -> (r: &'static str)
        ensures
            r@ == violation_help(*self),
    {
        match self {
            Violation::NotDispatchable => "gh-ship starts workflows through the API, which can only start workflows declaring `on: workflow_dispatch`. A `workflow_call`-only workflow — what is usually called a reusable workflow — cannot be started this way. Declare both triggers to keep it reusable *and* dispatchable.",
            Violation::MissingShipIdInput => "add a required `ship_id` string input under `workflow_dispatch.inputs`; gh-ship passes a nonce there to find the run it started",
            Violation::MissingRunName => "add `run-name: <name> (ship:${{ inputs.ship_id }})`. `gh workflow run` returns no run id, so the nonce in the run name is how gh-ship locates your run instead of guessing from timestamps.",
            Violation::MissingDryRunInput => "add a `dry_run` boolean input under `workflow_dispatch.inputs`: `gh ship preview` dispatches with it, and GitHub refuses a dispatch carrying an input the workflow does not declare",
        }
    }
}

pub open spec fn violation_message(v: Violation) -> Seq<char> {
    match v {
        Violation::NotDispatchable => "does not declare `on: workflow_dispatch`"@,
        Violation::MissingShipIdInput => "does not declare a `ship_id` input"@,
        Violation::MissingRunName => "does not stamp `ship_id` into its `run-name`"@,
        Violation::MissingDryRunInput => "does not declare a `dry_run` input"@,
    }
}

pub open spec fn violation_help(v: Violation) -> Seq<char> {
    match v {
        Violation::NotDispatchable => "gh-ship starts workflows through the API, which can only start workflows declaring `on: workflow_dispatch`. A `workflow_call`-only workflow — what is usually called a reusable workflow — cannot be started this way. Declare both triggers to keep it reusable *and* dispatchable."@,
        Violation::MissingShipIdInput => "add a required `ship_id` string input under `workflow_dispatch.inputs`; gh-ship passes a nonce there to find the run it started"@,
        Violation::MissingRunName => "add `run-name: <name> (ship:${{ inputs.ship_id }})`. `gh workflow run` returns no run id, so the nonce in the run name is how gh-ship locates your run instead of guessing from timestamps."@,
        Violation::MissingDryRunInput => "add a `dry_run` boolean input under `workflow_dispatch.inputs`: `gh ship preview` dispatches with it, and GitHub refuses a dispatch carrying an input the workflow does not declare"@,
    }
}

// --- Trigger analysis -----------------------------------------------------------------------

/// Whether `a` sorts before `b` in `String`'s order: by code point, a
/// proper prefix first.
pub open spec fn lex_lt(a: Seq<char>, b: Seq<char>) -> bool
    decreases a.len(),
{
    if a.len() == 0 {
        b.len() > 0
    } else if b.len() == 0 {
        false
    } else if a[0] != b[0] {
        (a[0] as int) < (b[0] as int)
    } else {
        lex_lt(a.drop_first(), b.drop_first())
    }
}

/// Sorted and free of duplicates.
pub open spec fn strictly_sorted(s: Seq<Seq<char>>) -> bool {
    forall|i: int, j: int| 0 <= i < j < s.len() ==> lex_lt(#[trigger] s[i], #[trigger] s[j])
}

pub proof fn lemma_lex_irreflexive(a: Seq<char>)
    ensures
        !lex_lt(a, a),
    decreases a.len(),
{
    if a.len() > 0 {
        lemma_lex_irreflexive(a.drop_first());
    }
}

pub proof fn lemma_lex_transitive(a: Seq<char>, b: Seq<char>, c: Seq<char>)
    requires
        lex_lt(a, b),
        lex_lt(b, c),
    ensures
        lex_lt(a, c),
    decreases a.len(),
{
    if a.len() > 0 && b.len() > 0 && c.len() > 0 && a[0] == b[0] && b[0] == c[0] {
        lemma_lex_transitive(a.drop_first(), b.drop_first(), c.drop_first());
    }
}

pub proof fn lemma_lex_total(a: Seq<char>, b: Seq<char>)
    requires
        a != b,
    ensures
        lex_lt(a, b) || lex_lt(b, a),
    decreases a.len(),
{
    if a.len() > 0 && b.len() > 0 && a[0] == b[0] {
        if a.drop_first() == b.drop_first() {
            assert(a =~= seq![a[0]] + a.drop_first());
            assert(b =~= seq![b[0]] + b.drop_first());
        } else {
            lemma_lex_total(a.drop_first(), b.drop_first());
        }
    } else if a.len() == 0 && b.len() == 0 {
        assert(a =~= b);
    }
}

/// `a < b` for strings.
fn str_lt(a: &str, b: &str) -> (r: bool)
    ensures
        r == lex_lt(a@, b@),
{
    let x = chars_of(a);
    let y = chars_of(b);
    let mut i: usize = 0;
    assert(x@.skip(0) =~= x@);
    assert(y@.skip(0) =~= y@);
    while i < x.len() && i < y.len()
        invariant
            x@ == a@,
            y@ == b@,
            i <= x@.len(),
            i <= y@.len(),
            lex_lt(a@, b@) == lex_lt(x@.skip(i as int), y@.skip(i as int)),
        decreases x.len() - i,
    {
        assert(x@.skip(i as int)[0] == x@[i as int]);
        assert(y@.skip(i as int)[0] == y@[i as int]);
        if x[i] != y[i] {
            return x[i] < y[i];
        }
        assert(x@.skip(i as int).drop_first() =~= x@.skip(i + 1));
        assert(y@.skip(i as int).drop_first() =~= y@.skip(i + 1));
        i += 1;
    }
    x.len() == i && i < y.len()
}

/// Insert `s` into a sorted, duplicate-free list, keeping it so.
fn insert_sorted(v: &mut Vec<String>, s: String)
    requires
        strictly_sorted(strings_view(old(v)@)),
    ensures
        strictly_sorted(strings_view(final(v)@)),
        forall|x: Seq<char>|
            #![trigger strings_view(final(v)@).contains(x)]
            #![trigger strings_view(old(v)@).contains(x)]
            strings_view(final(v)@).contains(x) <==> (strings_view(old(v)@).contains(x) || x == s@),
{
    let ghost before = strings_view(v@);
    let mut j: usize = 0;
    while j < v.len() && str_lt(v[j].as_str(), s.as_str())
        invariant
            j <= v@.len(),
            before == strings_view(v@),
            forall|k: int| 0 <= k < j ==> lex_lt(#[trigger] before[k], s@),
        decreases v.len() - j,
    {
        j += 1;
    }
    if j < v.len() && str_eq(v[j].as_str(), s.as_str()) {
        assert forall|x: Seq<char>| before.contains(x) <==> (before.contains(x) || x == s@) by {
            if x == s@ {
                assert(before[j as int] == x);
            }
        }
        return;
    }
    proof {
        if j < before.len() {
            assert(!lex_lt(before[j as int], s@));
            assert(before[j as int] != s@);
            lemma_lex_total(before[j as int], s@);
        }
    }
    let ghost sv = s@;
    v.insert(j, s);
    let ghost after = strings_view(v@);
    assert(after =~= before.insert(j as int, sv));
    assert forall|a: int, b: int| 0 <= a < b < after.len() implies lex_lt(#[trigger] after[a], #[trigger] after[b]) by {
        if b < j {
        } else if b == j {
        } else if a < j {
            assert(after[b] == before[b - 1]);
            assert(lex_lt(before[a], before[b - 1]));
        } else if a == j {
            assert(after[b] == before[b - 1]);
            if b - 1 > j {
                assert(lex_lt(before[j as int], before[b - 1]));
                lemma_lex_transitive(sv, before[j as int], before[b - 1]);
            }
        } else {
            assert(after[a] == before[a - 1]);
            assert(after[b] == before[b - 1]);
            assert(lex_lt(before[a - 1], before[b - 1]));
        }
    }
    assert forall|x: Seq<char>| after.contains(x) <==> (before.contains(x) || x == sv) by {
        if after.contains(x) {
            let k = choose|k: int| 0 <= k < after.len() && after[k] == x;
            if k < j {
                assert(before[k] == x);
            } else if k > j {
                assert(before[k - 1] == x);
            }
        }
        if before.contains(x) {
            let k = choose|k: int| 0 <= k < before.len() && before[k] == x;
            if k < j {
                assert(after[k] == x);
            } else {
                assert(after[k + 1] == x);
            }
        }
        if x == sv {
            assert(after[j as int] == x);
        }
    }
}

pub open spec fn is_str(v: Yaml, s: Seq<char>) -> bool {
    v matches Yaml::Str(t) && t@ == s
}

/// The string keys of mapping entries, in order.
pub open spec fn string_keys(m: Seq<(Yaml, Yaml)>) -> Seq<Seq<char>>
    decreases m.len(),
{
    if m.len() == 0 {
        Seq::empty()
    } else {
        let rest = string_keys(m.drop_last());
        match m.last().0 {
            Yaml::Str(k) => rest.push(k@),
            _ => rest,
        }
    }
}

/// The value under a string key.
pub open spec fn entry_for(m: Seq<(Yaml, Yaml)>, key: Seq<char>) -> Option<Yaml>
    decreases m.len(),
{
    if m.len() == 0 {
        None
    } else if is_str(m[0].0, key) {
        Some(m[0].1)
    } else {
        entry_for(m.drop_first(), key)
    }
}

/// The input names a trigger declares under `inputs:`.
pub open spec fn inputs_of(trigger: Yaml) -> Seq<Seq<char>> {
    match trigger {
        Yaml::Mapping(m) => match entry_for(m@, "inputs"@) {
            Some(Yaml::Mapping(inputs)) => string_keys(inputs@),
            _ => Seq::empty(),
        },
        _ => Seq::empty(),
    }
}

/// Dispatchable, callable, and the inputs collected, over the entries of
/// an `on:` mapping.
pub open spec fn mapping_triggers(m: Seq<(Yaml, Yaml)>) -> (bool, bool, Seq<Seq<char>>)
    decreases m.len(),
{
    if m.len() == 0 {
        (false, false, Seq::empty())
    } else {
        let (d, c, i) = mapping_triggers(m.drop_last());
        let (k, v) = m.last();
        if is_str(k, "workflow_dispatch"@) {
            (true, c, i + inputs_of(v))
        } else if is_str(k, "workflow_call"@) {
            (d, true, i + inputs_of(v))
        } else {
            (d, c, i)
        }
    }
}

/// What the `on:` value says, in its three legal shapes: a bare string,
/// a sequence of strings, and a mapping.
pub open spec fn triggers_of(on: Option<Yaml>) -> (bool, bool, Seq<Seq<char>>) {
    match on {
        Some(Yaml::Str(s)) => (s@ == "workflow_dispatch"@, s@ == "workflow_call"@, Seq::empty()),
        Some(Yaml::Sequence(items)) => (
            exists|i: int| 0 <= i < items@.len() && is_str(#[trigger] items@[i], "workflow_dispatch"@),
            exists|i: int| 0 <= i < items@.len() && is_str(#[trigger] items@[i], "workflow_call"@),
            Seq::empty(),
        ),
        Some(Yaml::Mapping(m)) => mapping_triggers(m@),
        _ => (false, false, Seq::empty()),
    }
}

fn yaml_is_str(v: &Yaml, s: &str) -> (r: bool)
    ensures
        r == is_str(*v, s@),
{
    match v {
        Yaml::Str(t) => str_eq(t.as_str(), s),
        _ => false,
    }
}

/// The value under a string key of a mapping.
fn entry_of<'a>(m: &'a Vec<(Yaml, Yaml)>, key: &str) -> (r: Option<&'a Yaml>)
    ensures
        match entry_for(m@, key@) {
            Some(v) => r matches Some(x) && *x == v,
            None => r is None,
        },
{
    let mut i: usize = 0;
    assert(m@.skip(0) =~= m@);
    while i < m.len()
        invariant
            i <= m@.len(),
            entry_for(m@, key@) == entry_for(m@.skip(i as int), key@),
        decreases m.len() - i,
    {
        assert(m@.skip(i as int).drop_first() =~= m@.skip(i + 1));
        assert(m@.skip(i as int)[0] == m@[i as int]);
        if yaml_is_str(&m[i].0, key) {
            return Some(&m[i].1);
        }
        i += 1;
    }
    None
}

/// Add the inputs a trigger declares.
fn collect_inputs(trigger: &Yaml, out: &mut Vec<String>)
    requires
        strictly_sorted(strings_view(old(out)@)),
    ensures
        strictly_sorted(strings_view(final(out)@)),
        forall|x: Seq<char>|
            #![trigger strings_view(final(out)@).contains(x)]
            #![trigger strings_view(old(out)@).contains(x)]
            #![trigger inputs_of(*trigger).contains(x)]
            strings_view(final(out)@).contains(x) <==> (strings_view(old(out)@).contains(x) || inputs_of(*trigger).contains(x)),
{
    let Yaml::Mapping(m) = trigger else {
        return;
    };
    let found = entry_of(m, "inputs");
    let Some(Yaml::Mapping(inputs)) = found else {
        return;
    };
    let ghost start = strings_view(out@);
    let mut k: usize = 0;
    assert(inputs@.take(0) =~= Seq::<(Yaml, Yaml)>::empty());
    while k < inputs.len()
        invariant
            k <= inputs@.len(),
            strictly_sorted(strings_view(out@)),
            forall|x: Seq<char>|
                #![trigger strings_view(out@).contains(x)]
                #![trigger start.contains(x)]
                #![trigger string_keys(inputs@.take(k as int)).contains(x)]
                strings_view(out@).contains(x) <==> (start.contains(x) || string_keys(inputs@.take(k as int)).contains(x)),
        decreases inputs.len() - k,
    {
        assert(inputs@.take(k + 1).drop_last() =~= inputs@.take(k as int));
        assert(inputs@.take(k + 1).last() == inputs@[k as int]);
        if let Yaml::Str(name) = &inputs[k].0 {
            let ghost prev = string_keys(inputs@.take(k as int));
            let copy = name.clone();
            assert(copy@ == name@);
            let ghost old_out = strings_view(out@);
            insert_sorted(out, copy);
            assert(string_keys(inputs@.take(k + 1)) == prev.push(name@));
            assert forall|x: Seq<char>| prev.push(name@).contains(x) <==> (prev.contains(x) || x == name@) by {
                if prev.push(name@).contains(x) {
                    let j = choose|j: int| 0 <= j < prev.len() + 1 && prev.push(name@)[j] == x;
                    if j < prev.len() {
                        assert(prev[j] == x);
                    }
                }
                if prev.contains(x) {
                    let j = choose|j: int| 0 <= j < prev.len() && prev[j] == x;
                    assert(prev.push(name@)[j] == x);
                }
                if x == name@ {
                    assert(prev.push(name@)[prev.len() as int] == x);
                }
            }
            assert forall|x: Seq<char>| strings_view(out@).contains(x) <==> (start.contains(x) || string_keys(inputs@.take(k + 1)).contains(x)) by {
                assert(strings_view(out@).contains(x) <==> (old_out.contains(x) || x == name@));
                assert(old_out.contains(x) <==> (start.contains(x) || prev.contains(x)));
                assert(prev.push(name@).contains(x) <==> (prev.contains(x) || x == name@));
            }
        } else {
            assert(string_keys(inputs@.take(k + 1)) == string_keys(inputs@.take(k as int)));
        }
        k += 1;
    }
    assert(inputs@.take(inputs@.len() as int) =~= inputs@);
}

proof fn lemma_contains_concat(a: Seq<Seq<char>>, b: Seq<Seq<char>>, x: Seq<char>)
    ensures
        (a + b).contains(x) <==> (a.contains(x) || b.contains(x)),
{
    if (a + b).contains(x) {
        let j = choose|j: int| 0 <= j < (a + b).len() && (a + b)[j] == x;
        if j < a.len() {
            assert(a[j] == x);
        } else {
            assert(b[j - a.len()] == x);
        }
    }
    if a.contains(x) {
        let j = choose|j: int| 0 <= j < a.len() && a[j] == x;
        assert((a + b)[j] == x);
    }
    if b.contains(x) {
        let j = choose|j: int| 0 <= j < b.len() && b[j] == x;
        assert((a + b)[a.len() + j] == x);
    }
}

/// Extract trigger facts from the `on:` value: whether it can be
/// dispatched, whether it can be called, and the input names its
/// dispatch and call triggers declare, sorted and without duplicates.
pub fn analyse_triggers(on: &Option<Yaml>) -> (r: (bool, bool, Vec<String>))
    ensures
        r.0 == triggers_of(*on).0,
        r.1 == triggers_of(*on).1,
        strictly_sorted(strings_view(r.2@)),
        forall|x: Seq<char>|
            #![trigger strings_view(r.2@).contains(x)]
            #![trigger triggers_of(*on).2.contains(x)]
            strings_view(r.2@).contains(x) <==> triggers_of(*on).2.contains(x),
{
    proof {
        reveal_strlit("workflow_dispatch");
        reveal_strlit("workflow_call");
    }
    let mut dispatchable = false;
    let mut callable = false;
    let mut inputs: Vec<String> = Vec::new();
    match on {
        Some(Yaml::Str(s)) => {
            dispatchable = str_eq(s.as_str(), "workflow_dispatch");
            callable = str_eq(s.as_str(), "workflow_call");
        },
        Some(Yaml::Sequence(items)) => {
            let mut i: usize = 0;
            while i < items.len()
                invariant
                    i <= items@.len(),
                    dispatchable == exists|k: int| 0 <= k < i && is_str(#[trigger] items@[k], "workflow_dispatch"@),
                    callable == exists|k: int| 0 <= k < i && is_str(#[trigger] items@[k], "workflow_call"@),
                decreases items.len() - i,
            {
                if yaml_is_str(&items[i], "workflow_dispatch") {
                    dispatchable = true;
                }
                if yaml_is_str(&items[i], "workflow_call") {
                    callable = true;
                }
                i += 1;
            }
        },
        Some(Yaml::Mapping(m)) => {
            let mut i: usize = 0;
            assert(m@.take(0) =~= Seq::<(Yaml, Yaml)>::empty());
            while i < m.len()
                invariant
                    i <= m@.len(),
                    dispatchable == mapping_triggers(m@.take(i as int)).0,
                    callable == mapping_triggers(m@.take(i as int)).1,
                    strictly_sorted(strings_view(inputs@)),
                    forall|x: Seq<char>|
                        #![trigger strings_view(inputs@).contains(x)]
                        #![trigger mapping_triggers(m@.take(i as int)).2.contains(x)]
                        strings_view(inputs@).contains(x) <==> mapping_triggers(m@.take(i as int)).2.contains(x),
                decreases m.len() - i,
            {
                assert(m@.take(i + 1).drop_last() =~= m@.take(i as int));
                assert(m@.take(i + 1).last() == m@[i as int]);
                let ghost prev = mapping_triggers(m@.take(i as int)).2;
                let (key, value) = &m[i];
                assert(key == m@[i as int].0 && value == m@[i as int].1);
                if yaml_is_str(key, "workflow_dispatch") {
                    assert(mapping_triggers(m@.take(i + 1)).2 == prev + inputs_of(*value));
                    dispatchable = true;
                    let ghost old_inputs = strings_view(inputs@);
                    collect_inputs(value, &mut inputs);
                    assert forall|x: Seq<char>| strings_view(inputs@).contains(x) <==> mapping_triggers(m@.take(i + 1)).2.contains(x) by {
                        lemma_contains_concat(prev, inputs_of(*value), x);
                        assert(strings_view(inputs@).contains(x) <==> (old_inputs.contains(x) || inputs_of(*value).contains(x)));
                        assert(old_inputs.contains(x) <==> prev.contains(x));
                    }
                } else if yaml_is_str(key, "workflow_call") {
                    assert(mapping_triggers(m@.take(i + 1)).2 == prev + inputs_of(*value));
                    callable = true;
                    let ghost old_inputs = strings_view(inputs@);
                    collect_inputs(value, &mut inputs);
                    assert forall|x: Seq<char>| strings_view(inputs@).contains(x) <==> mapping_triggers(m@.take(i + 1)).2.contains(x) by {
                        lemma_contains_concat(prev, inputs_of(*value), x);
                        assert(strings_view(inputs@).contains(x) <==> (old_inputs.contains(x) || inputs_of(*value).contains(x)));
                        assert(old_inputs.contains(x) <==> prev.contains(x));
                    }
                }
                i += 1;
            }
            assert(m@.take(m@.len() as int) =~= m@);
        },
        _ => {},
    }
    (dispatchable, callable, inputs)
}

/// The name a workflow goes by: its `name:`, else its file stem.
pub open spec fn name_or_stem(path: Seq<char>, name: Option<Seq<char>>) -> Seq<char> {
    match name {
        Some(n) => n,
        None => match file_stem_of(path) {
            Some(s) => s,
            None => Seq::empty(),
        },
    }
}

/// A workflow from what its file says: the path, `name:`, `run-name:`
/// and `on:` read from the YAML.
pub fn from_document(path: &str, name: Option<String>, run_name: Option<String>, on: &Option<Yaml>) -> (r: Workflow)
    ensures
        r@.path == path@,
        r@.name == name_or_stem(path@, match name { Some(n) => Some(n@), None => None }),
        r@.run_name == (match run_name { Some(n) => Some(n@), None => None::<Seq<char>> }),
        r@.dispatchable == triggers_of(*on).0,
        r@.callable == triggers_of(*on).1,
        strictly_sorted(r@.inputs),
        forall|x: Seq<char>|
            #![trigger r@.inputs.contains(x)]
            #![trigger triggers_of(*on).2.contains(x)]
            r@.inputs.contains(x) <==> triggers_of(*on).2.contains(x),
{
    let name = match name {
        Some(n) => n,
        None => match file_stem(path) {
            Some(s) => s,
            None => String::new(),
        },
    };
    let (dispatchable, callable, inputs) = analyse_triggers(on);
    Workflow { path: owned(path), name, dispatchable, callable, run_name, inputs }
}

// --- Lookup ---------------------------------------------------------------------------------

/// The views of a list of workflows.
pub open spec fn views(ws: Seq<Workflow>) -> Seq<WorkflowView> {
    ws.map_values(|w: Workflow| w@)
}

/// Whether a workflow answers to `needle` by the `how`-th rule: its
/// name, its id, or its file stem.
pub open spec fn answers(w: WorkflowView, needle: Seq<char>, how: int) -> bool {
    if how == 0 {
        w.name == needle
    } else if how == 1 {
        id_of(w) == needle
    } else {
        file_stem_of(w.path) == Some(needle)
    }
}

/// The first workflow that answers to `needle` by rule `how`.
pub open spec fn first_answering(ws: Seq<WorkflowView>, needle: Seq<char>, how: int) -> Option<int>
    decreases ws.len(),
{
    if ws.len() == 0 {
        None
    } else {
        match first_answering(ws.drop_last(), needle, how) {
            Some(i) => Some(i),
            None => if answers(ws.last(), needle, how) { Some(ws.len() - 1) } else { None },
        }
    }
}

/// By name first, then by file name, then by file stem.
pub open spec fn find_index(ws: Seq<WorkflowView>, needle: Seq<char>) -> Option<int> {
    match first_answering(ws, needle, 0) {
        Some(i) => Some(i),
        None => match first_answering(ws, needle, 1) {
            Some(i) => Some(i),
            None => first_answering(ws, needle, 2),
        },
    }
}

pub proof fn lemma_first_answering(ws: Seq<WorkflowView>, needle: Seq<char>, how: int)
    ensures
        match first_answering(ws, needle, how) {
            Some(i) => 0 <= i < ws.len() && answers(ws[i], needle, how)
                && forall|k: int| 0 <= k < i ==> !answers(#[trigger] ws[k], needle, how),
            None => forall|k: int| 0 <= k < ws.len() ==> !answers(#[trigger] ws[k], needle, how),
        },
    decreases ws.len(),
{
    if ws.len() > 0 {
        lemma_first_answering(ws.drop_last(), needle, how);
        assert forall|k: int| 0 <= k < ws.len() - 1 implies ws.drop_last()[k] == #[trigger] ws[k] by {}
    }
}

fn answers_exec(w: &Workflow, needle: &str, how: usize) -> (r: bool)
    requires
        how < 3,
    ensures
        r == answers(w@, needle@, how as int),
{
    if how == 0 {
        str_eq(w.name.as_str(), needle)
    } else if how == 1 {
        let id = w.id();
        str_eq(id.as_str(), needle)
    } else {
        match file_stem(w.path.as_str()) {
            Some(s) => str_eq(s.as_str(), needle),
            None => false,
        }
    }
}

fn first_answering_exec(workflows: &[Workflow], needle: &str, how: usize) -> (r: Option<usize>)
    requires
        how < 3,
    ensures
        match first_answering(views(workflows@), needle@, how as int) {
            Some(i) => r == Some(i as usize),
            None => r is None,
        },
{
    let ghost ws = views(workflows@);
    proof {
        lemma_first_answering(ws, needle@, how as int);
    }
    let mut i: usize = 0;
    while i < workflows.len()
        invariant
            i <= workflows@.len(),
            ws == views(workflows@),
            forall|k: int| 0 <= k < i ==> !answers(#[trigger] ws[k], needle@, how as int),
            how < 3,
        decreases workflows.len() - i,
    {
        assert(ws[i as int] == workflows@[i as int]@);
        if answers_exec(&workflows[i], needle, how) {
            assert(answers(ws[i as int], needle@, how as int));
            proof {
                lemma_first_answering(ws, needle@, how as int);
            }
            return Some(i);
        }
        i += 1;
    }
    proof {
        lemma_first_answering(ws, needle@, how as int);
    }
    None
}

/// Find a workflow by `name:`, by file name, or by file stem, in that
/// order of preference.
pub fn find<'a>(workflows: &'a [Workflow], needle: &str) -> (r: Option<&'a Workflow>)
    ensures
        match find_index(views(workflows@), needle@) {
            Some(i) => 0 <= i < workflows@.len() && (r matches Some(w) && *w == workflows@[i]),
            None => r is None,
        },
{
    proof {
        lemma_first_answering(views(workflows@), needle@, 0);
        lemma_first_answering(views(workflows@), needle@, 1);
        lemma_first_answering(views(workflows@), needle@, 2);
    }
    match first_answering_exec(workflows, needle, 0) {
        Some(i) => Some(&workflows[i]),
        None => match first_answering_exec(workflows, needle, 1) {
            Some(i) => Some(&workflows[i]),
            None => match first_answering_exec(workflows, needle, 2) {
                Some(i) => Some(&workflows[i]),
                None => None,
            },
        },
    }
}


// --- Discovery ------------------------------------------------------------------------------

/// Whether a file in the workflows directory is a workflow definition.
pub open spec fn is_workflow_file(name: Seq<char>) -> bool {
    extension_of_name(name) == Some("yml"@) || extension_of_name(name) == Some("yaml"@)
}

/// The workflow files among a directory's entries, sorted, so that
/// listings and prompts are stable.
pub fn workflow_files(entries: &[String]) -> (r: Vec<String>)
    ensures
        strictly_sorted(strings_view(r@)),
        forall|x: Seq<char>|
            #![trigger strings_view(r@).contains(x)]
            strings_view(r@).contains(x) <==> (strings_view(entries@).contains(x) && is_workflow_file(x)),
{
    let mut out: Vec<String> = Vec::new();
    let ghost ev = strings_view(entries@);
    let mut i: usize = 0;
    while i < entries.len()
        invariant
            i <= entries@.len(),
            ev == strings_view(entries@),
            strictly_sorted(strings_view(out@)),
            forall|x: Seq<char>|
                #![trigger strings_view(out@).contains(x)]
                strings_view(out@).contains(x) <==> (ev.take(i as int).contains(x) && is_workflow_file(x)),
        decreases entries.len() - i,
    {
        let name = &entries[i];
        proof {
            reveal_strlit("yml");
            reveal_strlit("yaml");
        }
        let keep = match extension(name.as_str()) {
            Some(e) => str_eq(e.as_str(), "yml") || str_eq(e.as_str(), "yaml"),
            None => false,
        };
        assert(keep == is_workflow_file(ev[i as int]));
        let ghost before = strings_view(out@);
        if keep {
            insert_sorted(&mut out, name.clone());
        }
        assert forall|x: Seq<char>| #[trigger] strings_view(out@).contains(x) <==> (ev.take(i + 1).contains(x) && is_workflow_file(x)) by {
            assert(ev.take(i + 1) =~= ev.take(i as int).push(ev[i as int]));
            let t1 = ev.take(i + 1);
            let t0 = ev.take(i as int);
            if t1.contains(x) {
                let k = choose|k: int| 0 <= k < t1.len() && #[trigger] t1[k] == x;
                if k < i {
                    assert(t0[k] == x);
                }
            }
            if t0.contains(x) {
                let k = choose|k: int| 0 <= k < t0.len() && #[trigger] t0[k] == x;
                assert(t1[k] == x);
            }
            if x == ev[i as int] {
                assert(ev.take(i + 1)[i as int] == x);
            }
        }
        i += 1;
    }
    assert(ev.take(entries@.len() as int) =~= ev);
    out
}

/// `w` placed after every workflow whose name sorts at or before its own.
pub open spec fn insert_by_name(s: Seq<WorkflowView>, w: WorkflowView) -> Seq<WorkflowView>
    decreases s.len(),
{
    if s.len() == 0 || !lex_lt(w.name, s.last().name) {
        s.push(w)
    } else {
        insert_by_name(s.drop_last(), w).push(s.last())
    }
}

/// Workflows ordered by name, equal names keeping their order
/// (`slice::sort_by`, which is stable).
pub open spec fn sorted_by_name(s: Seq<WorkflowView>) -> Seq<WorkflowView>
    decreases s.len(),
{
    if s.len() == 0 {
        s
    } else {
        insert_by_name(sorted_by_name(s.drop_last()), s.last())
    }
}

fn insert_by_name_exec(out: &mut Vec<Workflow>, w: Workflow)
    ensures
        views(final(out)@) == insert_by_name(views(old(out)@), w@),
{
    let ghost o = views(out@);
    let mut p: usize = out.len();
    assert(o.take(o.len() as int) =~= o);
    assert(o.skip(o.len() as int) =~= Seq::<WorkflowView>::empty());
    while p > 0 && str_lt(w.name.as_str(), out[p - 1].name.as_str())
        invariant
            p <= out@.len(),
            o == views(out@),
            insert_by_name(o, w@) == insert_by_name(o.take(p as int), w@) + o.skip(p as int),
        decreases p,
    {
        let ghost t = o.take(p as int);
        assert(t.drop_last() =~= o.take(p - 1));
        assert(t.last() == o[p - 1]);
        assert(insert_by_name(t, w@) == insert_by_name(o.take(p - 1), w@).push(o[p - 1]));
        assert(insert_by_name(o.take(p - 1), w@).push(o[p - 1]) + o.skip(p as int) =~= insert_by_name(o.take(p - 1), w@) + o.skip(p - 1));
        p -= 1;
    }
    let ghost t = o.take(p as int);
    assert(insert_by_name(t, w@) == t.push(w@));
    let ghost wv = w@;
    out.insert(p, w);
    assert(views(out@) =~= t.push(wv) + o.skip(p as int));
}

/// Order workflows by name, stably.
pub fn sort_by_name(ws: Vec<Workflow>) -> (r: Vec<Workflow>)
    ensures
        views(r@) == sorted_by_name(views(ws@)),
{
    let ghost v = views(ws@);
    let mut out: Vec<Workflow> = Vec::new();
    let mut rest = ws;
    let ghost mut k: int = 0;
    assert(v.take(0) =~= Seq::<WorkflowView>::empty());
    assert(v.skip(0) =~= v);
    while rest.len() > 0
        invariant
            0 <= k <= v.len(),
            views(rest@) == v.skip(k),
            views(out@) == sorted_by_name(v.take(k)),
        decreases rest.len(),
    {
        let ghost before = views(rest@);
        assert(before.len() == rest@.len());
        assert(k < v.len());
        assert(before[0] == v[k]);
        let ghost raw = rest@;
        let w = rest.remove(0);
        assert(w == raw[0]);
        assert(w@ == v[k]);
        assert(rest@ =~= raw.remove(0));
        assert forall|j: int| 0 <= j < rest@.len() implies #[trigger] views(rest@)[j] == v.skip(k + 1)[j] by {
            assert(rest@[j] == raw[j + 1]);
            assert(before[j + 1] == v.skip(k)[j + 1]);
        }
        assert(views(rest@) =~= v.skip(k + 1));
        insert_by_name_exec(&mut out, w);
        assert(v.take(k + 1).drop_last() =~= v.take(k));
        assert(v.take(k + 1).last() == v[k]);
        proof {
            k = k + 1;
        }
    }
    assert(v.take(k) =~= v);
    out
}

} // verus!
