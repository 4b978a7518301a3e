//! Sparse tool observations and their retained byte sizes.
use super::ids::{ExecutionId, ToolCallId};
use crate::text::{blen, lemma_sat_add, sat, sat_add, text_len};
use vstd::prelude::*;

verus! {

/// What kind of action a tool performs.
#[derive(Clone, Copy, Debug, PartialEq, Eq, Structural)]
pub enum ToolKind {
    /// Reads files or other state.
    Read,
    /// Changes files.
    Edit,
    /// Searches files or other state.
    Search,
    /// Anything else.
    Other,
}

/// Progress of a tool call.
#[derive(Clone, Copy, Debug, PartialEq, Eq, Structural)]
pub enum ToolStatus {
    /// Announced but not started.
    Pending,
    /// Running now.
    Running,
    /// Finished successfully.
    Completed,
    /// Finished with a failure.
    Failed,
}

/// One file position a tool refers to.
#[derive(Debug, PartialEq, Eq)]
pub struct ToolLocation {
    /// Referenced path.
    pub path: String,
    /// One-based line, when known.
    pub line: Option<u32>,
}

impl Clone for ToolLocation {
    fn clone(&self) -> (r: Self)
        ensures
            r == *self,
    {
        ToolLocation { path: self.path.clone(), line: self.line }
    }
}

/// One piece of content a tool produced.
#[derive(Debug, PartialEq, Eq)]
pub enum ToolContent {
    /// Plain text output.
    Text(String),
    /// A file change.
    Diff {
        /// Changed path.
        path: String,
        /// Replaced text, absent for a new file.
        old: Option<String>,
        /// Replacement text.
        new: String,
    },
}

impl Clone for ToolContent {
    fn clone(&self) -> (r: Self)
        ensures
            r == *self,
    {
        match self {
            ToolContent::Text(t) => ToolContent::Text(t.clone()),
            ToolContent::Diff { path, old, new } => {
                let old_copy = match old {
                    Some(o) => Some(o.clone()),
                    None => None,
                };
                ToolContent::Diff { path: path.clone(), old: old_copy, new: new.clone() }
            },
        }
    }
}

/// Retained bytes of optional text.
pub open spec fn opt_text_bytes(t: Option<String>) -> int {
    match t {
        Some(s) => blen(s@) as int,
        None => 0,
    }
}

/// Retained bytes of a sequence of locations.
pub open spec fn locations_sum(s: Seq<ToolLocation>) -> int
    decreases s.len(),
{
    if s.len() == 0 {
        0
    } else {
        locations_sum(s.drop_last()) + blen(s.last().path@)
    }
}

/// Retained bytes of one content item.
pub open spec fn content_bytes(c: ToolContent) -> int {
    match c {
        ToolContent::Text(t) => blen(t@) as int,
        ToolContent::Diff { path, old, new } => blen(path@) + opt_text_bytes(old) + blen(new@),
    }
}

/// Retained bytes of a sequence of content items.
pub open spec fn contents_sum(s: Seq<ToolContent>) -> int
    decreases s.len(),
{
    if s.len() == 0 {
        0
    } else {
        contents_sum(s.drop_last()) + content_bytes(s.last())
    }
}

/// Both sums are nonnegative.
pub proof fn lemma_sums_nonneg(l: Seq<ToolLocation>, c: Seq<ToolContent>)
    ensures
        locations_sum(l) >= 0,
        contents_sum(c) >= 0,
    decreases l.len() + c.len(),
{
    if l.len() > 0 {
        lemma_sums_nonneg(l.drop_last(), c);
    }
    if c.len() > 0 {
        lemma_sums_nonneg(l, c.drop_last());
    }
}

/// Current state of one tool call; absent fields have never been reported.
#[derive(Debug, PartialEq, Eq)]
pub struct ToolObservation {
    /// Human-readable title.
    pub title: Option<String>,
    /// Action kind.
    pub kind: Option<ToolKind>,
    /// Progress.
    pub status: Option<ToolStatus>,
    /// Referenced file positions.
    pub locations: Option<Vec<ToolLocation>>,
    /// Produced content.
    pub content: Option<Vec<ToolContent>>,
}

/// Mathematical value of a [`ToolObservation`].
pub struct ObservationView {
    /// Human-readable title.
    pub title: Option<String>,
    /// Action kind.
    pub kind: Option<ToolKind>,
    /// Progress.
    pub status: Option<ToolStatus>,
    /// Referenced file positions.
    pub locations: Option<Seq<ToolLocation>>,
    /// Produced content.
    pub content: Option<Seq<ToolContent>>,
}

/// Value of an optional list.
pub open spec fn opt_seq<T>(v: Option<Vec<T>>) -> Option<Seq<T>> {
    match v {
        Some(l) => Some(l@),
        None => None,
    }
}

impl View for ToolObservation {
    type V = ObservationView;

    open spec fn view(&self) -> ObservationView {
        ObservationView {
            title: self.title,
            kind: self.kind,
            status: self.status,
            locations: opt_seq(self.locations),
            content: opt_seq(self.content),
        }
    }
}

/// Sparse change to one tool call; absent fields keep their previous meaning.
#[derive(Debug, PartialEq, Eq)]
pub struct ToolCallUpdate {
    /// Tool identity.
    pub id: ToolCallId,
    /// New title, if reported.
    pub title: Option<String>,
    /// New kind, if reported.
    pub kind: Option<ToolKind>,
    /// New status, if reported.
    pub status: Option<ToolStatus>,
    /// New locations, if reported.
    pub locations: Option<Vec<ToolLocation>>,
    /// New content, if reported.
    pub content: Option<Vec<ToolContent>>,
}

/// Mathematical value of a [`ToolCallUpdate`].
pub struct UpdateView {
    /// Tool identity.
    pub id: ToolCallId,
    /// Reported fields, as an observation of their own.
    pub fields: ObservationView,
}

impl View for ToolCallUpdate {
    type V = UpdateView;

    open spec fn view(&self) -> UpdateView {
        UpdateView {
            id: self.id,
            fields: ObservationView {
                title: self.title,
                kind: self.kind,
                status: self.status,
                locations: opt_seq(self.locations),
                content: opt_seq(self.content),
            },
        }
    }
}

/// The tool state that the session retains for one tool identity.
#[derive(Debug, PartialEq, Eq)]
pub struct ToolCall {
    /// Tool identity.
    pub id: ToolCallId,
    /// Merged observation.
    pub observation: ToolObservation,
}

/// Mathematical value of a [`ToolCall`].
pub struct ToolCallView {
    /// Tool identity.
    pub id: ToolCallId,
    /// Merged observation.
    pub observation: ObservationView,
}

impl View for ToolCall {
    type V = ToolCallView;

    open spec fn view(&self) -> ToolCallView {
        ToolCallView { id: self.id, observation: self.observation@ }
    }
}

/// Retained bytes of an observation's owned text, saturated at `usize::MAX`.
pub open spec fn observation_bytes(o: ObservationView) -> usize {
    sat(
        opt_text_bytes(o.title) + (match o.locations {
            Some(l) => locations_sum(l),
            None => 0,
        }) + (match o.content {
            Some(c) => contents_sum(c),
            None => 0,
        }),
    )
}

/// The observation with no field reported.
pub open spec fn empty_observation() -> ObservationView {
    ObservationView { title: None, kind: None, status: None, locations: None, content: None }
}

/// Applies a sparse update: reported fields replace, absent fields are kept.
pub open spec fn merged(o: ObservationView, u: ObservationView) -> ObservationView {
    ObservationView {
        title: if u.title is Some { u.title } else { o.title },
        kind: if u.kind is Some { u.kind } else { o.kind },
        status: if u.status is Some { u.status } else { o.status },
        locations: if u.locations is Some { u.locations } else { o.locations },
        content: if u.content is Some { u.content } else { o.content },
    }
}

/// Retained bytes of an update's reported fields.
pub open spec fn update_bytes(u: UpdateView) -> usize {
    observation_bytes(u.fields)
}

/// Bytes the session charges for a tool of `execution`: the execution identity, the
/// tool identity held as key and as value, and the observation's text.
pub open spec fn tool_charge(execution: Seq<char>, id: Seq<char>, o: ObservationView) -> usize {
    sat(blen(execution) + 2 * blen(id) + observation_bytes(o))
}

fn clone_opt_text(t: &Option<String>) -> (r: Option<String>)
    ensures
        r == *t,
{
    match t {
        Some(s) => Some(s.clone()),
        None => None,
    }
}

fn clone_locations(v: &Vec<ToolLocation>) -> (r: Vec<ToolLocation>)
    ensures
        r@ == v@,
{
    let mut r: Vec<ToolLocation> = Vec::new();
    let mut i: usize = 0;
    while i < v.len()
        invariant
            i <= v.len(),
            r@ == v@.take(i as int),
        decreases v.len() - i,
    {
        r.push(v[i].clone());
        assert(v@.take(i + 1) == v@.take(i as int).push(v@[i as int]));
        i = i + 1;
    }
    assert(v@.take(v.len() as int) == v@);
    r
}

fn clone_contents(v: &Vec<ToolContent>) -> (r: Vec<ToolContent>)
    ensures
        r@ == v@,
{
    let mut r: Vec<ToolContent> = Vec::new();
    let mut i: usize = 0;
    while i < v.len()
        invariant
            i <= v.len(),
            r@ == v@.take(i as int),
        decreases v.len() - i,
    {
        r.push(v[i].clone());
        assert(v@.take(i + 1) == v@.take(i as int).push(v@[i as int]));
        i = i + 1;
    }
    assert(v@.take(v.len() as int) == v@);
    r
}

fn clone_opt_locations(v: &Option<Vec<ToolLocation>>) -> (r: Option<Vec<ToolLocation>>)
    ensures
        opt_seq(r) == opt_seq(*v),
{
    match v {
        Some(l) => Some(clone_locations(l)),
        None => None,
    }
}

fn clone_opt_contents(v: &Option<Vec<ToolContent>>) -> (r: Option<Vec<ToolContent>>)
    ensures
        opt_seq(r) == opt_seq(*v),
{
    match v {
        Some(l) => Some(clone_contents(l)),
        None => None,
    }
}

fn locations_bytes(v: &Vec<ToolLocation>) -> (r: usize)
    ensures
        r == sat(locations_sum(v@)),
{
    let mut acc: usize = 0;
    let mut i: usize = 0;
    while i < v.len()
        invariant
            i <= v.len(),
            acc == sat(locations_sum(v@.take(i as int))),
        decreases v.len() - i,
    {
        let b = text_len(&v[i].path);
        proof {
            let t = v@.take(i + 1);
            assert(t.drop_last() == v@.take(i as int));
            lemma_sums_nonneg(v@.take(i as int), Seq::empty());
            lemma_sat_add(locations_sum(v@.take(i as int)), b as int);
        }
        acc = sat_add(acc, b);
        i = i + 1;
    }
    assert(v@.take(v.len() as int) == v@);
    acc
}

fn content_item_bytes(c: &ToolContent) -> (r: usize)
    ensures
        r == sat(content_bytes(*c)),
{
    match c {
        ToolContent::Text(t) => text_len(t),
        ToolContent::Diff { path, old, new } => {
            let o = match old {
                Some(s) => text_len(s),
                None => 0,
            };
            sat_add(sat_add(text_len(path), o), text_len(new))
        },
    }
}

fn contents_bytes(v: &Vec<ToolContent>) -> (r: usize)
    ensures
        r == sat(contents_sum(v@)),
{
    let mut acc: usize = 0;
    let mut i: usize = 0;
    while i < v.len()
        invariant
            i <= v.len(),
            acc == sat(contents_sum(v@.take(i as int))),
        decreases v.len() - i,
    {
        let b = content_item_bytes(&v[i]);
        proof {
            let t = v@.take(i + 1);
            assert(t.drop_last() == v@.take(i as int));
            lemma_sums_nonneg(Seq::empty(), v@.take(i as int));
            lemma_sat_add(contents_sum(v@.take(i as int)), content_bytes(v@[i as int]));
            assert(content_bytes(v@[i as int]) >= 0);
        }
        acc = sat_add(acc, b);
        i = i + 1;
    }
    assert(v@.take(v.len() as int) == v@);
    acc
}

fn parts_bytes(
    title: &Option<String>,
    locations: &Option<Vec<ToolLocation>>,
    content: &Option<Vec<ToolContent>>,
) -> (r: usize)
    ensures
        r == observation_bytes(
            ObservationView {
                title: *title,
                kind: None,
                status: None,
                locations: opt_seq(*locations),
                content: opt_seq(*content),
            },
        ),
{
    let t = match title {
        Some(s) => text_len(s),
        None => 0,
    };
    let l = match locations {
        Some(v) => locations_bytes(v),
        None => 0,
    };
    let c = match content {
        Some(v) => contents_bytes(v),
        None => 0,
    };
    proof {
        let lt = match locations {
            Some(v) => locations_sum(v@),
            None => 0,
        };
        let ct = match content {
            Some(v) => contents_sum(v@),
            None => 0,
        };
        if let Some(v) = locations {
            lemma_sums_nonneg(v@, Seq::empty());
        }
        if let Some(v) = content {
            lemma_sums_nonneg(Seq::empty(), v@);
        }
        lemma_sat_add(t as int + lt, ct);
        lemma_sat_add(t as int, lt);
    }
    sat_add(sat_add(t, l), c)
}

impl Clone for ToolObservation {
    fn clone(&self) -> (r: Self)
        ensures
            r@ == self@,
    {
        let r = ToolObservation {
            title: clone_opt_text(&self.title),
            kind: self.kind,
            status: self.status,
            locations: clone_opt_locations(&self.locations),
            content: clone_opt_contents(&self.content),
        };
        r
    }
}

impl ToolObservation {
    /// Reported title.
    pub fn title(&self) -> (r: &Option<String>)
        ensures
            *r == self.title,
    {
        &self.title
    }

    /// Reported kind.
    pub fn kind(&self) -> (r: &Option<ToolKind>)
        ensures
            *r == self.kind,
    {
        &self.kind
    }

    /// Reported status.
    pub fn status(&self) -> (r: &Option<ToolStatus>)
        ensures
            *r == self.status,
    {
        &self.status
    }

    /// Reported locations.
    pub fn locations(&self) -> (r: &Option<Vec<ToolLocation>>)
        ensures
            *r == self.locations,
    {
        &self.locations
    }

    /// Reported content.
    pub fn content(&self) -> (r: &Option<Vec<ToolContent>>)
        ensures
            *r == self.content,
    {
        &self.content
    }

    /// Retained bytes of this observation's owned text.
    pub fn payload_bytes(&self) -> (r: usize)
        ensures
            r == observation_bytes(self@),
    {
        parts_bytes(&self.title, &self.locations, &self.content)
    }

    /// This observation with the fields that `update` reports replaced.
    pub fn merge(&self, update: &ToolCallUpdate) -> (r: ToolObservation)
        ensures
            r@ == merged(self@, update@.fields),
    {
        let r = ToolObservation {
            title: if update.title.is_some() {
                clone_opt_text(&update.title)
            } else {
                clone_opt_text(&self.title)
            },
            kind: if update.kind.is_some() {
                update.kind
            } else {
                self.kind
            },
            status: if update.status.is_some() {
                update.status
            } else {
                self.status
            },
            locations: if update.locations.is_some() {
                clone_opt_locations(&update.locations)
            } else {
                clone_opt_locations(&self.locations)
            },
            content: if update.content.is_some() {
                clone_opt_contents(&update.content)
            } else {
                clone_opt_contents(&self.content)
            },
        };
        r
    }
}

impl Clone for ToolCallUpdate {
    fn clone(&self) -> (r: Self)
        ensures
            r@ == self@,
    {
        let r = ToolCallUpdate {
            id: self.id.clone(),
            title: clone_opt_text(&self.title),
            kind: self.kind,
            status: self.status,
            locations: clone_opt_locations(&self.locations),
            content: clone_opt_contents(&self.content),
        };
        r
    }
}

impl ToolCallUpdate {
    /// A sparse update of tool `id`; `None` fields are not reported.
    pub fn new(
        id: ToolCallId,
        title: Option<String>,
        kind: Option<ToolKind>,
        status: Option<ToolStatus>,
        locations: Option<Vec<ToolLocation>>,
        content: Option<Vec<ToolContent>>,
    ) -> (r: Self)
        ensures
            r.id == id,
            r.title == title,
            r.kind == kind,
            r.status == status,
            r.locations == locations,
            r.content == content,
    {
        ToolCallUpdate { id, title, kind, status, locations, content }
    }

    /// Tool identity.
    pub fn id(&self) -> (r: &ToolCallId)
        ensures
            *r == self.id,
    {
        &self.id
    }

    /// Retained bytes of the reported fields.
    pub fn payload_bytes(&self) -> (r: usize)
        ensures
            r == update_bytes(self@),
    {
        parts_bytes(&self.title, &self.locations, &self.content)
    }
}

impl Clone for ToolCall {
    fn clone(&self) -> (r: Self)
        ensures
            r@ == self@,
    {
        ToolCall { id: self.id.clone(), observation: self.observation.clone() }
    }
}

impl ToolCall {
    /// Tool identity.
    pub fn id(&self) -> (r: &ToolCallId)
        ensures
            *r == self.id,
    {
        &self.id
    }

    /// Merged observation.
    pub fn observation(&self) -> (r: &ToolObservation)
        ensures
            r@ == self.observation@,
    {
        &self.observation
    }

    /// Bytes a first observation of `update` would retain in `execution`, counting the
    /// execution identity, the tool identity once, and the reported text.
    pub fn initial_payload_bytes(execution: &ExecutionId, update: &ToolCallUpdate) -> (r: usize)
        ensures
            r == sat(blen(execution@) + blen(update.id@) + update_bytes(update@)),
    {
        let r = sat_add(sat_add(execution.byte_len(), update.id.byte_len()), update.payload_bytes());
        proof {
            lemma_sat_add(blen(execution@) + blen(update.id@), update_bytes(update@) as int);
        }
        r
    }
}

/// Exact retained bytes of a tool of `execution` with identity `id` and observation `o`.
pub fn charge(execution: &ExecutionId, id: &ToolCallId, o: &ToolObservation) -> (r: usize)
    ensures
        r == tool_charge(execution@, id@, o@),
{
    let i = id.byte_len();
    let r = sat_add(sat_add(sat_add(execution.byte_len(), i), i), o.payload_bytes());
    proof {
        lemma_sat_add(blen(execution@) + blen(id@), blen(id@) as int);
        lemma_sat_add(blen(execution@) + 2 * blen(id@), observation_bytes(o@) as int);
    }
    r
}

} // verus!
