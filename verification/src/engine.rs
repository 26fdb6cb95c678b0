//! The reconciliation state machine. Every resource kind reconciles through
//! the same sequence of NetBox and Kubernetes requests; a `Profile` holds the
//! choices in which the kinds differ.
//!
//! The caller drives the machine: `start` gives the first request, and each
//! answer, handed to `step`, gives the next request together with the
//! events and best-effort status writes to perform before it. The machine
//! ends with `Action::Finish`, which carries the outcome of the
//! reconciliation.
use vstd::prelude::*;
use crate::compare::{opt_texts_view, status_is_current, status_needs_update, tags_differ, tags_differ_spec};
use crate::dependency::{resolve_dependency_id, spec_dependency_id};
use crate::matching::{pick_candidate, pick_index, select_candidate, select_index, Candidate, MatchRule, Pick};
use crate::model::{texts_view, ControllerError, NetBoxError, NetBoxRecord, ResourceState, ResourceStatus, StatusPatch};
use crate::text::{contains_text, contains_text_spec};

verus! {

/// What happens when NetBox refuses the update that corrects field drift.
#[derive(Clone, Copy, Debug)]
pub enum UpdateErrorPolicy {
    /// Go on with the record as it is.
    KeepExisting,
    /// Go on with the record as it is, after a `ReconciliationFailed` event.
    KeepExistingAndReport,
    /// End the reconciliation with the error.
    Fail,
    /// End the reconciliation with the error, after a `ReconciliationFailed` event.
    FailAndReport,
}

/// When the tags of an existing record are brought in line with the spec.
#[derive(Clone, Copy, Debug)]
pub enum TagSync {
    Never,
    Always,
    /// Only when no field update was sent (a field update carries the tags).
    WithoutFieldUpdate,
}

/// How the status is written once an existing record has been reconciled.
#[derive(Clone, Copy, Debug)]
pub enum ExistingStatus {
    /// Written at the end, always.
    AtEnd,
    /// Written when it is not current, and the reconciliation ends there.
    IfNeededThenReturn,
    /// Written when it is not current, and written again at the end.
    IfNeededThenAtEnd,
}

/// Which create errors mean that the record already exists.
#[derive(Clone, Copy, Debug)]
pub enum ConflictDetection {
    /// None: every create error ends the reconciliation.
    Never,
    /// Errors that NetBox reports as a conflict (see `spec_is_conflict_error`).
    ErrorKind,
    /// Errors whose message mentions an existing record or an asset tag.
    DeviceMessage,
}

/// The choices in which the reconcilers of the resource kinds differ.
#[derive(Clone, Copy, Debug)]
pub struct Profile {
    pub has_dependencies: bool,
    /// Dependencies are resolved after the record is fetched, not before.
    pub deps_after_fetch: bool,
    /// Existing records are compared with the spec field by field.
    pub field_drift: bool,
    pub field_drift_event: bool,
    pub field_updated_event: bool,
    pub update_error: UpdateErrorPolicy,
    pub existing_tags: TagSync,
    pub existing_status: ExistingStatus,
    /// A `DriftDetected` event is recorded when the record was deleted.
    pub deleted_event: bool,
    pub lookup_pick: Pick,
    /// Tags of a record found by the idempotency lookup are brought in line.
    pub found_tags: bool,
    pub created_event: bool,
    pub conflict: ConflictDetection,
    pub first_query_pick: Pick,
    /// Tags of a record found after a create conflict are brought in line.
    pub conflict_found_tags: bool,
    /// A `ReconciliationFailed` event is recorded when a create fails.
    pub failure_event: bool,
    /// The failure of a create is written into the resource's status.
    pub failure_status: bool,
}

/// What a reconciliation knows of its resource before it starts.
#[derive(Debug)]
pub struct Inputs {
    pub status: Option<ResourceStatus>,
    pub drift_detection: bool,
    /// Names of the tags the spec asks for; `None` when it names none.
    pub desired_tags: Option<Vec<String>>,
    /// Creation must wait (a dependency named in the spec is not ready).
    pub defer_creation: bool,
    /// The spec gives no name to create the record under.
    pub name_missing: bool,
    /// The first query after a create conflict can be made.
    pub first_query_available: bool,
    /// The second query after a create conflict can be made.
    pub second_query_available: bool,
    pub match_rule: MatchRule,
}

#[derive(Clone, Copy, Debug)]
pub enum TagOrigin {
    /// The record the status pointed at.
    Existing,
    /// A record found by a lookup instead of being created.
    Found,
}

/// The queries tried, in order, after a create conflict.
#[derive(Clone, Copy, Debug)]
pub enum QueryStrategy {
    First,
    Second,
    All,
}

/// The request a machine waits for the answer to.
#[derive(Clone, Copy, Debug)]
pub enum Phase {
    ResolvingDependencies,
    Fetching,
    Comparing,
    UpdatingFields,
    UpdatingTags(TagOrigin),
    WritingStatusIfNeeded,
    LookingUp,
    Creating,
    Querying(QueryStrategy),
    WritingFinalStatus,
    Done,
}

/// Why a reconciliation failed.
#[derive(Debug)]
pub enum Failure {
    Dependency(ControllerError),
    Fetch(NetBoxError),
    Update(NetBoxError),
    Create(NetBoxError),
    ConflictUnresolved(NetBoxError),
    NameMissing,
    StatusWrite(String),
    UnexpectedEvent,
}

#[derive(Debug)]
pub enum Outcome {
    Success,
    Failed(Failure),
}

/// The reasons of the Kubernetes events the reconcilers record.
#[derive(Clone, Copy, Debug)]
pub enum Reason {
    Created,
    Updated,
    DriftDetected,
    ReconciliationFailed,
    DependencyNotFound,
}

/// What an event reports.
#[derive(Debug)]
pub enum Topic {
    FieldsDiffer,
    RecordDeleted,
    FieldsUpdated,
    TagsUpdated,
    RecordCreated(u64),
    UpdateFailed(NetBoxError),
    CreateFailed(NetBoxError),
    DependencyMissing(ControllerError),
}

/// Work to do before the next request, whose result does not matter.
#[derive(Debug)]
pub enum Note {
    Event(Reason, Topic),
    /// Write the status `Pending` with the deletion message.
    MarkPending,
    /// Write the status `Failed` with the message of the error, unless the
    /// status already carries it.
    MarkFailed { error: NetBoxError, unresolved: bool },
}

/// A request of the machine.
#[derive(Debug)]
pub enum Action {
    ResolveDependencies,
    Fetch { id: u64 },
    CompareFields,
    UpdateFields { id: u64 },
    UpdateTags { id: u64 },
    WriteStatus(StatusPatch),
    Lookup,
    Create,
    ConflictQuery(QueryStrategy),
    Finish(Outcome),
}

/// An answer to a request.
#[derive(Debug)]
pub enum Event {
    DependenciesResolved,
    DependencyFailed { error: ControllerError, notify: bool },
    Fetched(NetBoxRecord),
    FetchFailed(NetBoxError),
    Compared { drifted: bool },
    Written(NetBoxRecord),
    WriteFailed(NetBoxError),
    Listed(Vec<Candidate>),
    StatusWritten,
    StatusWriteFailed(String),
}

/// What a step yields: the notes to carry out, then the request.
#[derive(Debug)]
pub struct Transition {
    pub notes: Vec<Note>,
    pub action: Action,
}

/// A reconciliation in progress.
#[derive(Debug)]
pub struct Machine {
    pub profile: Profile,
    pub inputs: Inputs,
    pub phase: Phase,
    pub record: Option<NetBoxRecord>,
    pub deleted: bool,
    pub field_update_attempted: bool,
    pub create_error: Option<NetBoxError>,
}

/// A machine state, its notes and its request, as values.
pub type StepResult = (Machine, Seq<Note>, Action);

// ---------------------------------------------------------------------------
// The transition relation.
// ---------------------------------------------------------------------------

/// Dependencies are resolved after the fetch.
pub open spec fn needs_deps_after(p: Profile) -> bool {
    p.has_dependencies && p.deps_after_fetch
}

/// Dependencies are resolved before anything else.
pub open spec fn needs_deps_first(p: Profile) -> bool {
    p.has_dependencies && !p.deps_after_fetch
}

/// The status written once a record has been reconciled.
pub open spec fn created_patch(r: NetBoxRecord) -> StatusPatch {
    StatusPatch { netbox_id: r.id, netbox_url: r.url, state: ResourceState::Created, error: None }
}

/// A create error that NetBox reports as a conflict: a conflict answer, or
/// an API error saying that the record already exists.
pub open spec fn spec_is_conflict_error(e: NetBoxError) -> bool {
    match e {
        NetBoxError::Conflict(_) => true,
        NetBoxError::Api(m) => contains_text_spec(m@, "already exists"@),
        NetBoxError::NotFound(_) => false,
    }
}

/// The message of an error.
pub open spec fn error_message(e: NetBoxError) -> Seq<char> {
    match e {
        NetBoxError::Conflict(m) => m@,
        NetBoxError::Api(m) => m@,
        NetBoxError::NotFound(m) => m@,
    }
}

/// A create error of a device that means the device already exists: its
/// message mentions an existing record or an asset tag.
pub open spec fn spec_is_device_conflict(e: NetBoxError) -> bool {
    contains_text_spec(error_message(e), "already exists"@) || contains_text_spec(error_message(e), "asset tag"@)
}

pub open spec fn spec_is_conflict(c: ConflictDetection, e: NetBoxError) -> bool {
    match c {
        ConflictDetection::Never => false,
        ConflictDetection::ErrorKind => spec_is_conflict_error(e),
        ConflictDetection::DeviceMessage => spec_is_device_conflict(e),
    }
}

pub open spec fn with_phase(m: Machine, phase: Phase) -> Machine {
    Machine { phase, ..m }
}

pub open spec fn with_record(m: Machine, r: NetBoxRecord) -> Machine {
    Machine { record: Some(r), ..m }
}

pub open spec fn finish_spec(m: Machine, notes: Seq<Note>, o: Outcome) -> StepResult {
    (with_phase(m, Phase::Done), notes, Action::Finish(o))
}

pub open spec fn unexpected_spec(m: Machine) -> StepResult {
    finish_spec(m, Seq::empty(), Outcome::Failed(Failure::UnexpectedEvent))
}

pub open spec fn final_status_spec(m: Machine, notes: Seq<Note>) -> StepResult {
    (with_phase(m, Phase::WritingFinalStatus), notes, Action::WriteStatus(created_patch(m.record->0)))
}

pub open spec fn status_existing_spec(m: Machine, notes: Seq<Note>) -> StepResult {
    let r = m.record->0;
    match m.profile.existing_status {
        ExistingStatus::AtEnd => final_status_spec(m, notes),
        ExistingStatus::IfNeededThenReturn => if !status_is_current(m.inputs.status, r.id, r.url@) {
            (with_phase(m, Phase::WritingStatusIfNeeded), notes, Action::WriteStatus(created_patch(r)))
        } else {
            finish_spec(m, notes, Outcome::Success)
        },
        ExistingStatus::IfNeededThenAtEnd => if !status_is_current(m.inputs.status, r.id, r.url@) {
            (with_phase(m, Phase::WritingStatusIfNeeded), notes, Action::WriteStatus(created_patch(r)))
        } else {
            final_status_spec(m, notes)
        },
    }
}

pub open spec fn after_tags_spec(m: Machine, origin: TagOrigin, notes: Seq<Note>) -> StepResult {
    match origin {
        TagOrigin::Existing => status_existing_spec(m, notes),
        TagOrigin::Found => final_status_spec(m, notes),
    }
}

/// The tags of the current record must be rewritten.
pub open spec fn record_tags_differ(m: Machine) -> bool {
    tags_differ_spec(texts_view(m.record->0.tag_names@), opt_texts_view(m.inputs.desired_tags))
}

pub open spec fn maybe_tags_spec(m: Machine, origin: TagOrigin, notes: Seq<Note>) -> StepResult {
    if record_tags_differ(m) {
        (with_phase(m, Phase::UpdatingTags(origin)), notes, Action::UpdateTags { id: m.record->0.id })
    } else {
        after_tags_spec(m, origin, notes)
    }
}

pub open spec fn existing_tags_spec(m: Machine, notes: Seq<Note>) -> StepResult {
    match m.profile.existing_tags {
        TagSync::Never => status_existing_spec(m, notes),
        TagSync::Always => maybe_tags_spec(m, TagOrigin::Existing, notes),
        TagSync::WithoutFieldUpdate => if m.field_update_attempted {
            status_existing_spec(m, notes)
        } else {
            maybe_tags_spec(m, TagOrigin::Existing, notes)
        },
    }
}

pub open spec fn use_existing_spec(m: Machine, r: NetBoxRecord) -> StepResult {
    let m2 = with_record(m, r);
    if m.profile.field_drift && m.inputs.drift_detection {
        (with_phase(m2, Phase::Comparing), Seq::empty(), Action::CompareFields)
    } else {
        existing_tags_spec(m2, Seq::empty())
    }
}

pub open spec fn enter_create_spec(m: Machine, notes: Seq<Note>) -> StepResult {
    if m.inputs.defer_creation {
        finish_spec(m, notes, Outcome::Success)
    } else {
        (with_phase(m, Phase::LookingUp), notes, Action::Lookup)
    }
}

pub open spec fn deleted_notes(p: Profile) -> Seq<Note> {
    if p.deleted_event {
        seq![Note::Event(Reason::DriftDetected, Topic::RecordDeleted), Note::MarkPending]
    } else {
        seq![Note::MarkPending]
    }
}

pub open spec fn record_deleted_spec(m: Machine) -> StepResult {
    enter_create_spec(m, deleted_notes(m.profile))
}

pub open spec fn fetch_or_create_spec(m: Machine) -> StepResult {
    match spec_dependency_id(m.inputs.status) {
        Some(id) => (with_phase(m, Phase::Fetching), Seq::empty(), Action::Fetch { id }),
        None => if needs_deps_after(m.profile) {
            (with_phase(m, Phase::ResolvingDependencies), Seq::empty(), Action::ResolveDependencies)
        } else {
            enter_create_spec(m, Seq::empty())
        },
    }
}

pub open spec fn after_dependencies_spec(m: Machine) -> StepResult {
    if needs_deps_after(m.profile) {
        match m.record {
            Some(r) => use_existing_spec(m, r),
            None => if m.deleted {
                record_deleted_spec(m)
            } else {
                enter_create_spec(m, Seq::empty())
            },
        }
    } else {
        fetch_or_create_spec(m)
    }
}

pub open spec fn found_spec(m: Machine, r: NetBoxRecord, sync_tags: bool) -> StepResult {
    let m2 = with_record(m, r);
    if sync_tags {
        maybe_tags_spec(m2, TagOrigin::Found, Seq::empty())
    } else {
        final_status_spec(m2, Seq::empty())
    }
}

pub open spec fn query_spec(m: Machine, s: QueryStrategy) -> StepResult {
    (with_phase(m, Phase::Querying(s)), Seq::empty(), Action::ConflictQuery(s))
}

pub open spec fn first_query_spec(m: Machine) -> StepResult {
    if m.inputs.first_query_available {
        query_spec(m, QueryStrategy::First)
    } else if m.inputs.second_query_available {
        query_spec(m, QueryStrategy::Second)
    } else {
        query_spec(m, QueryStrategy::All)
    }
}

pub open spec fn failure_notes(p: Profile, e: NetBoxError, unresolved: bool) -> Seq<Note> {
    let ev: Seq<Note> = if p.failure_event && !unresolved {
        seq![Note::Event(Reason::ReconciliationFailed, Topic::CreateFailed(e))]
    } else {
        Seq::empty()
    };
    if p.failure_status {
        ev.push(Note::MarkFailed { error: e, unresolved })
    } else {
        ev
    }
}

pub open spec fn create_failed_spec(m: Machine, e: NetBoxError) -> StepResult {
    if spec_is_conflict(m.profile.conflict, e) {
        first_query_spec(Machine { create_error: Some(e), ..m })
    } else {
        finish_spec(m, failure_notes(m.profile, e, false), Outcome::Failed(Failure::Create(e)))
    }
}

pub open spec fn query_index(m: Machine, s: QueryStrategy, cands: Seq<Candidate>) -> Option<int> {
    match s {
        QueryStrategy::First => pick_index(m.profile.first_query_pick, cands.len()),
        QueryStrategy::Second => pick_index(Pick::First, cands.len()),
        QueryStrategy::All => select_index(m.inputs.match_rule, cands),
    }
}

pub open spec fn query_missed_spec(m: Machine, s: QueryStrategy) -> StepResult {
    match s {
        QueryStrategy::First => if m.inputs.second_query_available {
            query_spec(m, QueryStrategy::Second)
        } else {
            query_spec(m, QueryStrategy::All)
        },
        QueryStrategy::Second => query_spec(m, QueryStrategy::All),
        QueryStrategy::All => {
            let e = m.create_error->0;
            finish_spec(m, failure_notes(m.profile, e, true), Outcome::Failed(Failure::ConflictUnresolved(e)))
        },
    }
}

pub open spec fn update_failed_spec(m: Machine, e: NetBoxError) -> StepResult {
    match m.profile.update_error {
        UpdateErrorPolicy::KeepExisting => existing_tags_spec(m, Seq::empty()),
        UpdateErrorPolicy::KeepExistingAndReport =>
            existing_tags_spec(m, seq![Note::Event(Reason::ReconciliationFailed, Topic::UpdateFailed(e))]),
        UpdateErrorPolicy::Fail => finish_spec(m, Seq::empty(), Outcome::Failed(Failure::Update(e))),
        UpdateErrorPolicy::FailAndReport => finish_spec(
            m,
            seq![Note::Event(Reason::ReconciliationFailed, Topic::UpdateFailed(e))],
            Outcome::Failed(Failure::Update(e)),
        ),
    }
}

pub open spec fn opt_note(b: bool, n: Note) -> Seq<Note> {
    if b { seq![n] } else { Seq::empty() }
}

/// The first request of a reconciliation.
pub open spec fn start_spec(p: Profile, i: Inputs) -> StepResult {
    let m = Machine {
        profile: p,
        inputs: i,
        phase: Phase::Done,
        record: None,
        deleted: false,
        field_update_attempted: false,
        create_error: None,
    };
    if needs_deps_first(p) {
        (with_phase(m, Phase::ResolvingDependencies), Seq::empty(), Action::ResolveDependencies)
    } else {
        fetch_or_create_spec(m)
    }
}

/// The transition relation: the state, notes and request that follow the
/// answer `e` in state `m`.
pub open spec fn step_spec(m: Machine, e: Event) -> StepResult {
    match m.phase {
        Phase::ResolvingDependencies => match e {
            Event::DependenciesResolved => after_dependencies_spec(m),
            Event::DependencyFailed { error, notify } => finish_spec(
                m,
                opt_note(notify, Note::Event(Reason::DependencyNotFound, Topic::DependencyMissing(error))),
                Outcome::Failed(Failure::Dependency(error)),
            ),
            _ => unexpected_spec(m),
        },
        Phase::Fetching => match e {
            Event::Fetched(r) => if needs_deps_after(m.profile) {
                (with_phase(with_record(m, r), Phase::ResolvingDependencies), Seq::empty(), Action::ResolveDependencies)
            } else {
                use_existing_spec(m, r)
            },
            Event::FetchFailed(err) => match err {
                NetBoxError::NotFound(_) => if needs_deps_after(m.profile) {
                    (with_phase(Machine { deleted: true, ..m }, Phase::ResolvingDependencies), Seq::empty(), Action::ResolveDependencies)
                } else {
                    record_deleted_spec(m)
                },
                _ => finish_spec(m, Seq::empty(), Outcome::Failed(Failure::Fetch(err))),
            },
            _ => unexpected_spec(m),
        },
        Phase::Comparing => match e {
            Event::Compared { drifted } => if drifted {
                (
                    with_phase(Machine { field_update_attempted: true, ..m }, Phase::UpdatingFields),
                    opt_note(m.profile.field_drift_event, Note::Event(Reason::DriftDetected, Topic::FieldsDiffer)),
                    Action::UpdateFields { id: m.record->0.id },
                )
            } else {
                existing_tags_spec(m, Seq::empty())
            },
            _ => unexpected_spec(m),
        },
        Phase::UpdatingFields => match e {
            Event::Written(r) => existing_tags_spec(
                with_record(m, r),
                opt_note(m.profile.field_updated_event, Note::Event(Reason::Updated, Topic::FieldsUpdated)),
            ),
            Event::WriteFailed(err) => update_failed_spec(m, err),
            _ => unexpected_spec(m),
        },
        Phase::UpdatingTags(origin) => match e {
            Event::Written(r) => after_tags_spec(with_record(m, r), origin, seq![Note::Event(Reason::Updated, Topic::TagsUpdated)]),
            Event::WriteFailed(_) => after_tags_spec(m, origin, Seq::empty()),
            _ => unexpected_spec(m),
        },
        Phase::WritingStatusIfNeeded => match e {
            Event::StatusWritten => match m.profile.existing_status {
                ExistingStatus::IfNeededThenAtEnd => final_status_spec(m, Seq::empty()),
                _ => finish_spec(m, Seq::empty(), Outcome::Success),
            },
            Event::StatusWriteFailed(msg) => finish_spec(m, Seq::empty(), Outcome::Failed(Failure::StatusWrite(msg))),
            _ => unexpected_spec(m),
        },
        Phase::LookingUp => match e {
            Event::Listed(cands) => match pick_index(m.profile.lookup_pick, cands@.len()) {
                Some(k) => found_spec(m, cands@[k].record, m.profile.found_tags),
                None => if m.inputs.name_missing {
                    finish_spec(m, Seq::empty(), Outcome::Failed(Failure::NameMissing))
                } else {
                    (with_phase(m, Phase::Creating), Seq::empty(), Action::Create)
                },
            },
            _ => unexpected_spec(m),
        },
        Phase::Creating => match e {
            Event::Written(r) => final_status_spec(
                with_record(m, r),
                opt_note(m.profile.created_event, Note::Event(Reason::Created, Topic::RecordCreated(r.id))),
            ),
            Event::WriteFailed(err) => create_failed_spec(m, err),
            _ => unexpected_spec(m),
        },
        Phase::Querying(s) => match e {
            Event::Listed(cands) => match query_index(m, s, cands@) {
                Some(k) => found_spec(m, cands@[k].record, m.profile.conflict_found_tags),
                None => query_missed_spec(m, s),
            },
            _ => unexpected_spec(m),
        },
        Phase::WritingFinalStatus => match e {
            Event::StatusWritten => finish_spec(m, Seq::empty(), Outcome::Success),
            Event::StatusWriteFailed(msg) => finish_spec(m, Seq::empty(), Outcome::Failed(Failure::StatusWrite(msg))),
            _ => unexpected_spec(m),
        },
        Phase::Done => unexpected_spec(m),
    }
}

/// The machine's bookkeeping agrees with its phase: a record is held while
/// it is being worked on, and the create error while conflicts are looked
/// into.
pub open spec fn wf_spec(m: Machine) -> bool {
    &&& match m.phase {
        Phase::Comparing | Phase::UpdatingFields | Phase::UpdatingTags(_) | Phase::WritingStatusIfNeeded
        | Phase::WritingFinalStatus => m.record is Some,
        Phase::Querying(_) => m.create_error is Some,
        Phase::Fetching => spec_dependency_id(m.inputs.status) is Some,
        _ => true,
    }
    &&& (m.phase is WritingStatusIfNeeded ==> !(m.profile.existing_status is AtEnd))
}

impl Machine {
    pub open spec fn wf(self) -> bool {
        wf_spec(self)
    }
}

/// The executable result `r` is the step result `s`.
pub open spec fn yields(r: (Machine, Transition), s: StepResult) -> bool {
    r.0 == s.0 && r.1.notes@ == s.1 && r.1.action == s.2
}

impl NetBoxError {
    /// A copy of the error.
    pub fn duplicate(&self) -> (r: NetBoxError)
        ensures
            r == *self,
    {
        match self {
            NetBoxError::NotFound(m) => NetBoxError::NotFound(m.clone()),
            NetBoxError::Conflict(m) => NetBoxError::Conflict(m.clone()),
            NetBoxError::Api(m) => NetBoxError::Api(m.clone()),
        }
    }
}

impl ControllerError {
    /// A copy of the error.
    pub fn duplicate(&self) -> (r: ControllerError)
        ensures
            r == *self,
    {
        match self {
            ControllerError::InvalidConfig(m) => ControllerError::InvalidConfig(m.clone()),
            ControllerError::NetBox(e) => ControllerError::NetBox(e.duplicate()),
            ControllerError::Kube(m) => ControllerError::Kube(m.clone()),
            ControllerError::TokenResolution(m) => ControllerError::TokenResolution(m.clone()),
        }
    }
}

/// Whether a create error is reported by NetBox as a conflict.
pub fn is_conflict_error(e: &NetBoxError) -> (r: bool)
    ensures
        r == spec_is_conflict_error(*e),
{
    match e {
        NetBoxError::Conflict(_) => true,
        NetBoxError::Api(m) => contains_text(m.as_str(), "already exists"),
        NetBoxError::NotFound(_) => false,
    }
}

/// Whether a create error of a device means that the device exists.
pub fn is_device_conflict(e: &NetBoxError) -> (r: bool)
    ensures
        r == spec_is_device_conflict(*e),
{
    let m = match e {
        NetBoxError::Conflict(m) => m,
        NetBoxError::Api(m) => m,
        NetBoxError::NotFound(m) => m,
    };
    contains_text(m.as_str(), "already exists") || contains_text(m.as_str(), "asset tag")
}

fn is_conflict(c: ConflictDetection, e: &NetBoxError) -> (r: bool)
    ensures
        r == spec_is_conflict(c, *e),
{
    match c {
        ConflictDetection::Never => false,
        ConflictDetection::ErrorKind => is_conflict_error(e),
        ConflictDetection::DeviceMessage => is_device_conflict(e),
    }
}

fn some_note(b: bool, n: Note) -> (r: Vec<Note>)
    ensures
        r@ == opt_note(b, n),
{
    let mut v: Vec<Note> = Vec::new();
    if b {
        v.push(n);
    }
    v
}

fn go(m: Machine, phase: Phase, notes: Vec<Note>, action: Action) -> (r: (Machine, Transition))
    ensures
        yields(r, (with_phase(m, phase), notes@, action)),
{
    (Machine { phase, ..m }, Transition { notes, action })
}

fn finish(m: Machine, notes: Vec<Note>, o: Outcome) -> (r: (Machine, Transition))
    ensures
        yields(r, finish_spec(m, notes@, o)),
{
    go(m, Phase::Done, notes, Action::Finish(o))
}

fn unexpected(m: Machine) -> (r: (Machine, Transition))
    ensures
        yields(r, unexpected_spec(m)),
{
    finish(m, Vec::new(), Outcome::Failed(Failure::UnexpectedEvent))
}

fn created_patch_of(r: &NetBoxRecord) -> (p: StatusPatch)
    ensures
        p == created_patch(*r),
{
    StatusPatch { netbox_id: r.id, netbox_url: r.url.clone(), state: ResourceState::Created, error: None }
}

fn final_status(m: Machine, notes: Vec<Note>) -> (r: (Machine, Transition))
    requires
        m.record is Some,
    ensures
        yields(r, final_status_spec(m, notes@)),
{
    let patch = match &m.record {
        Some(rec) => created_patch_of(rec),
        None => { proof { assert(false); } StatusPatch { netbox_id: 0, netbox_url: String::new(), state: ResourceState::Created, error: None } },
    };
    go(m, Phase::WritingFinalStatus, notes, Action::WriteStatus(patch))
}

fn status_existing(m: Machine, notes: Vec<Note>) -> (r: (Machine, Transition))
    requires
        m.record is Some,
    ensures
        yields(r, status_existing_spec(m, notes@)),
{
    let (needs, patch) = match &m.record {
        Some(rec) => (status_needs_update(&m.inputs.status, rec.id, &rec.url), created_patch_of(rec)),
        None => { proof { assert(false); } (false, StatusPatch { netbox_id: 0, netbox_url: String::new(), state: ResourceState::Created, error: None }) },
    };
    match m.profile.existing_status {
        ExistingStatus::AtEnd => final_status(m, notes),
        ExistingStatus::IfNeededThenReturn => if needs {
            go(m, Phase::WritingStatusIfNeeded, notes, Action::WriteStatus(patch))
        } else {
            finish(m, notes, Outcome::Success)
        },
        ExistingStatus::IfNeededThenAtEnd => if needs {
            go(m, Phase::WritingStatusIfNeeded, notes, Action::WriteStatus(patch))
        } else {
            final_status(m, notes)
        },
    }
}

fn after_tags(m: Machine, origin: TagOrigin, notes: Vec<Note>) -> (r: (Machine, Transition))
    requires
        m.record is Some,
    ensures
        yields(r, after_tags_spec(m, origin, notes@)),
{
    match origin {
        TagOrigin::Existing => status_existing(m, notes),
        TagOrigin::Found => final_status(m, notes),
    }
}

fn maybe_tags(m: Machine, origin: TagOrigin, notes: Vec<Note>) -> (r: (Machine, Transition))
    requires
        m.record is Some,
    ensures
        yields(r, maybe_tags_spec(m, origin, notes@)),
{
    let (differ, id) = match &m.record {
        Some(rec) => (tags_differ(&rec.tag_names, &m.inputs.desired_tags), rec.id),
        None => { proof { assert(false); } (false, 0) },
    };
    if differ {
        go(m, Phase::UpdatingTags(origin), notes, Action::UpdateTags { id })
    } else {
        after_tags(m, origin, notes)
    }
}

fn existing_tags(m: Machine, notes: Vec<Note>) -> (r: (Machine, Transition))
    requires
        m.record is Some,
    ensures
        yields(r, existing_tags_spec(m, notes@)),
{
    match m.profile.existing_tags {
        TagSync::Never => status_existing(m, notes),
        TagSync::Always => maybe_tags(m, TagOrigin::Existing, notes),
        TagSync::WithoutFieldUpdate => if m.field_update_attempted {
            status_existing(m, notes)
        } else {
            maybe_tags(m, TagOrigin::Existing, notes)
        },
    }
}

fn use_existing(m: Machine, rec: NetBoxRecord) -> (r: (Machine, Transition))
    ensures
        yields(r, use_existing_spec(m, rec)),
{
    let compare = m.profile.field_drift && m.inputs.drift_detection;
    let m2 = Machine { record: Some(rec), ..m };
    if compare {
        go(m2, Phase::Comparing, Vec::new(), Action::CompareFields)
    } else {
        existing_tags(m2, Vec::new())
    }
}

fn enter_create(m: Machine, notes: Vec<Note>) -> (r: (Machine, Transition))
    ensures
        yields(r, enter_create_spec(m, notes@)),
{
    if m.inputs.defer_creation {
        finish(m, notes, Outcome::Success)
    } else {
        go(m, Phase::LookingUp, notes, Action::Lookup)
    }
}

fn record_deleted(m: Machine) -> (r: (Machine, Transition))
    ensures
        yields(r, record_deleted_spec(m)),
{
    let mut notes: Vec<Note> = Vec::new();
    if m.profile.deleted_event {
        notes.push(Note::Event(Reason::DriftDetected, Topic::RecordDeleted));
    }
    notes.push(Note::MarkPending);
    proof {
        if m.profile.deleted_event {
            assert(notes@ =~= deleted_notes(m.profile));
        } else {
            assert(notes@ =~= deleted_notes(m.profile));
        }
    }
    enter_create(m, notes)
}

fn fetch_or_create(m: Machine) -> (r: (Machine, Transition))
    ensures
        yields(r, fetch_or_create_spec(m)),
{
    match resolve_dependency_id(&m.inputs.status) {
        Some(id) => go(m, Phase::Fetching, Vec::new(), Action::Fetch { id }),
        None => if m.profile.has_dependencies && m.profile.deps_after_fetch {
            go(m, Phase::ResolvingDependencies, Vec::new(), Action::ResolveDependencies)
        } else {
            enter_create(m, Vec::new())
        },
    }
}

fn after_dependencies(m: Machine) -> (r: (Machine, Transition))
    ensures
        yields(r, after_dependencies_spec(m)),
{
    if m.profile.has_dependencies && m.profile.deps_after_fetch {
        let Machine { profile, inputs, phase, record, deleted, field_update_attempted, create_error } = m;
        match record {
            Some(rec) => {
                let m1 = Machine { profile, inputs, phase, record: None, deleted, field_update_attempted, create_error };
                use_existing(m1, rec)
            },
            None => {
                let m1 = Machine { profile, inputs, phase, record: None, deleted, field_update_attempted, create_error };
                if deleted {
                    record_deleted(m1)
                } else {
                    enter_create(m1, Vec::new())
                }
            },
        }
    } else {
        fetch_or_create(m)
    }
}

fn found(m: Machine, rec: NetBoxRecord, sync_tags: bool) -> (r: (Machine, Transition))
    ensures
        yields(r, found_spec(m, rec, sync_tags)),
{
    let m2 = Machine { record: Some(rec), ..m };
    if sync_tags {
        maybe_tags(m2, TagOrigin::Found, Vec::new())
    } else {
        final_status(m2, Vec::new())
    }
}

fn query(m: Machine, s: QueryStrategy) -> (r: (Machine, Transition))
    ensures
        yields(r, query_spec(m, s)),
{
    go(m, Phase::Querying(s), Vec::new(), Action::ConflictQuery(s))
}

fn first_query(m: Machine) -> (r: (Machine, Transition))
    ensures
        yields(r, first_query_spec(m)),
{
    if m.inputs.first_query_available {
        query(m, QueryStrategy::First)
    } else if m.inputs.second_query_available {
        query(m, QueryStrategy::Second)
    } else {
        query(m, QueryStrategy::All)
    }
}

fn failure_notes_of(p: Profile, e: &NetBoxError, unresolved: bool) -> (r: Vec<Note>)
    ensures
        r@ == failure_notes(p, *e, unresolved),
{
    let mut v: Vec<Note> = Vec::new();
    if p.failure_event && !unresolved {
        v.push(Note::Event(Reason::ReconciliationFailed, Topic::CreateFailed(e.duplicate())));
    }
    if p.failure_status {
        v.push(Note::MarkFailed { error: e.duplicate(), unresolved });
    }
    proof {
        let ev: Seq<Note> = if p.failure_event && !unresolved {
            seq![Note::Event(Reason::ReconciliationFailed, Topic::CreateFailed(*e))]
        } else {
            Seq::empty()
        };
        if p.failure_status {
            assert(v@ =~= ev.push(Note::MarkFailed { error: *e, unresolved }));
        } else {
            assert(v@ =~= ev);
        }
    }
    v
}

fn create_failed(m: Machine, e: NetBoxError) -> (r: (Machine, Transition))
    ensures
        yields(r, create_failed_spec(m, e)),
{
    if is_conflict(m.profile.conflict, &e) {
        first_query(Machine { create_error: Some(e), ..m })
    } else {
        let notes = failure_notes_of(m.profile, &e, false);
        finish(m, notes, Outcome::Failed(Failure::Create(e)))
    }
}

fn query_missed(m: Machine, s: QueryStrategy) -> (r: (Machine, Transition))
    requires
        m.create_error is Some,
    ensures
        yields(r, query_missed_spec(m, s)),
{
    match s {
        QueryStrategy::First => if m.inputs.second_query_available {
            query(m, QueryStrategy::Second)
        } else {
            query(m, QueryStrategy::All)
        },
        QueryStrategy::Second => query(m, QueryStrategy::All),
        QueryStrategy::All => {
            let e = match &m.create_error {
                Some(e) => e.duplicate(),
                None => { proof { assert(false); } NetBoxError::Api(String::new()) },
            };
            let notes = failure_notes_of(m.profile, &e, true);
            finish(m, notes, Outcome::Failed(Failure::ConflictUnresolved(e)))
        },
    }
}

fn update_failed(m: Machine, e: NetBoxError) -> (r: (Machine, Transition))
    requires
        m.record is Some,
    ensures
        yields(r, update_failed_spec(m, e)),
{
    match m.profile.update_error {
        UpdateErrorPolicy::KeepExisting => existing_tags(m, Vec::new()),
        UpdateErrorPolicy::KeepExistingAndReport => {
            let notes = some_note(true, Note::Event(Reason::ReconciliationFailed, Topic::UpdateFailed(e)));
            existing_tags(m, notes)
        },
        UpdateErrorPolicy::Fail => finish(m, Vec::new(), Outcome::Failed(Failure::Update(e))),
        UpdateErrorPolicy::FailAndReport => {
            let notes = some_note(true, Note::Event(Reason::ReconciliationFailed, Topic::UpdateFailed(e.duplicate())));
            finish(m, notes, Outcome::Failed(Failure::Update(e)))
        },
    }
}

fn take_candidate(cands: Vec<Candidate>, k: usize) -> (c: Candidate)
    requires
        k < cands.len(),
    ensures
        c == cands@[k as int],
{
    let mut cands = cands;
    cands.remove(k)
}

/// Begins a reconciliation: the machine and its first request.
pub fn start(p: Profile, i: Inputs) -> (r: (Machine, Transition))
    ensures
        yields(r, start_spec(p, i)),
        r.0.wf(),
{
    let m = Machine {
        profile: p,
        inputs: i,
        phase: Phase::Done,
        record: None,
        deleted: false,
        field_update_attempted: false,
        create_error: None,
    };
    if p.has_dependencies && !p.deps_after_fetch {
        go(m, Phase::ResolvingDependencies, Vec::new(), Action::ResolveDependencies)
    } else {
        fetch_or_create(m)
    }
}

impl Machine {
    /// The next request of the reconciliation, given the answer to the
    /// pending one.
    pub fn step(self, e: Event) -> (r: (Machine, Transition))
        requires
            self.wf(),
        ensures
            yields(r, step_spec(self, e)),
            r.0.wf(),
    {
        let m = self;
        proof { lemma_step_wf(m, e); }
        match m.phase {
            Phase::ResolvingDependencies => match e {
                Event::DependenciesResolved => after_dependencies(m),
                Event::DependencyFailed { error, notify } => {
                    let notes = if notify {
                        some_note(true, Note::Event(Reason::DependencyNotFound, Topic::DependencyMissing(error.duplicate())))
                    } else {
                        some_note(false, Note::MarkPending)
                    };
                    finish(m, notes, Outcome::Failed(Failure::Dependency(error)))
                },
                _ => unexpected(m),
            },
            Phase::Fetching => match e {
                Event::Fetched(rec) => if m.profile.has_dependencies && m.profile.deps_after_fetch {
                    go(Machine { record: Some(rec), ..m }, Phase::ResolvingDependencies, Vec::new(), Action::ResolveDependencies)
                } else {
                    use_existing(m, rec)
                },
                Event::FetchFailed(err) => match err {
                    NetBoxError::NotFound(_) => if m.profile.has_dependencies && m.profile.deps_after_fetch {
                        go(Machine { deleted: true, ..m }, Phase::ResolvingDependencies, Vec::new(), Action::ResolveDependencies)
                    } else {
                        record_deleted(m)
                    },
                    _ => finish(m, Vec::new(), Outcome::Failed(Failure::Fetch(err))),
                },
                _ => unexpected(m),
            },
            Phase::Comparing => match e {
                Event::Compared { drifted } => if drifted {
                    let id = match &m.record {
                        Some(rec) => rec.id,
                        None => { proof { assert(false); } 0 },
                    };
                    let notes = some_note(m.profile.field_drift_event, Note::Event(Reason::DriftDetected, Topic::FieldsDiffer));
                    go(Machine { field_update_attempted: true, ..m }, Phase::UpdatingFields, notes, Action::UpdateFields { id })
                } else {
                    existing_tags(m, Vec::new())
                },
                _ => unexpected(m),
            },
            Phase::UpdatingFields => match e {
                Event::Written(rec) => {
                    let notes = some_note(m.profile.field_updated_event, Note::Event(Reason::Updated, Topic::FieldsUpdated));
                    existing_tags(Machine { record: Some(rec), ..m }, notes)
                },
                Event::WriteFailed(err) => update_failed(m, err),
                _ => unexpected(m),
            },
            Phase::UpdatingTags(origin) => match e {
                Event::Written(rec) => {
                    let notes = some_note(true, Note::Event(Reason::Updated, Topic::TagsUpdated));
                    after_tags(Machine { record: Some(rec), ..m }, origin, notes)
                },
                Event::WriteFailed(_) => after_tags(m, origin, Vec::new()),
                _ => unexpected(m),
            },
            Phase::WritingStatusIfNeeded => match e {
                Event::StatusWritten => match m.profile.existing_status {
                    ExistingStatus::IfNeededThenAtEnd => final_status(m, Vec::new()),
                    _ => finish(m, Vec::new(), Outcome::Success),
                },
                Event::StatusWriteFailed(msg) => finish(m, Vec::new(), Outcome::Failed(Failure::StatusWrite(msg))),
                _ => unexpected(m),
            },
            Phase::LookingUp => match e {
                Event::Listed(cands) => match pick_candidate(m.profile.lookup_pick, &cands) {
                    Some(k) => {
                        let c = take_candidate(cands, k);
                        let sync = m.profile.found_tags;
                        found(m, c.record, sync)
                    },
                    None => if m.inputs.name_missing {
                        finish(m, Vec::new(), Outcome::Failed(Failure::NameMissing))
                    } else {
                        go(m, Phase::Creating, Vec::new(), Action::Create)
                    },
                },
                _ => unexpected(m),
            },
            Phase::Creating => match e {
                Event::Written(rec) => {
                    let notes = some_note(m.profile.created_event, Note::Event(Reason::Created, Topic::RecordCreated(rec.id)));
                    final_status(Machine { record: Some(rec), ..m }, notes)
                },
                Event::WriteFailed(err) => create_failed(m, err),
                _ => unexpected(m),
            },
            Phase::Querying(s) => match e {
                Event::Listed(cands) => {
                    let idx = match s {
                        QueryStrategy::First => pick_candidate(m.profile.first_query_pick, &cands),
                        QueryStrategy::Second => pick_candidate(Pick::First, &cands),
                        QueryStrategy::All => select_candidate(&m.inputs.match_rule, &cands),
                    };
                    match idx {
                        Some(k) => {
                            let c = take_candidate(cands, k);
                            let sync = m.profile.conflict_found_tags;
                            found(m, c.record, sync)
                        },
                        None => query_missed(m, s),
                    }
                },
                _ => unexpected(m),
            },
            Phase::WritingFinalStatus => match e {
                Event::StatusWritten => finish(m, Vec::new(), Outcome::Success),
                Event::StatusWriteFailed(msg) => finish(m, Vec::new(), Outcome::Failed(Failure::StatusWrite(msg))),
                _ => unexpected(m),
            },
            Phase::Done => unexpected(m),
        }
    }
}

proof fn lemma_status_existing_wf(m: Machine, n: Seq<Note>)
    requires
        m.record is Some,
    ensures
        status_existing_spec(m, n).0.wf(),
{
}

proof fn lemma_existing_tags_wf(m: Machine, n: Seq<Note>)
    requires
        m.record is Some,
    ensures
        existing_tags_spec(m, n).0.wf(),
        maybe_tags_spec(m, TagOrigin::Existing, n).0.wf(),
        maybe_tags_spec(m, TagOrigin::Found, n).0.wf(),
        after_tags_spec(m, TagOrigin::Existing, n).0.wf(),
        after_tags_spec(m, TagOrigin::Found, n).0.wf(),
{
    lemma_status_existing_wf(m, n);
}

proof fn lemma_enter_create_wf(m: Machine, n: Seq<Note>)
    ensures
        enter_create_spec(m, n).0.wf(),
        record_deleted_spec(m).0.wf(),
        fetch_or_create_spec(m).0.wf(),
{
}

proof fn lemma_use_existing_wf(m: Machine, r: NetBoxRecord)
    ensures
        use_existing_spec(m, r).0.wf(),
        found_spec(m, r, true).0.wf(),
        found_spec(m, r, false).0.wf(),
{
    lemma_existing_tags_wf(with_record(m, r), Seq::empty());
}

proof fn lemma_after_dependencies_wf(m: Machine)
    ensures
        after_dependencies_spec(m).0.wf(),
{
    lemma_enter_create_wf(m, Seq::empty());
    if let Some(r) = m.record {
        lemma_use_existing_wf(m, r);
    }
}

proof fn lemma_create_failed_wf(m: Machine, e: NetBoxError)
    ensures
        create_failed_spec(m, e).0.wf(),
{
}

proof fn lemma_query_missed_wf(m: Machine, s: QueryStrategy)
    requires
        m.create_error is Some,
    ensures
        query_missed_spec(m, s).0.wf(),
{
}

proof fn lemma_update_failed_wf(m: Machine, e: NetBoxError)
    requires
        m.record is Some,
    ensures
        update_failed_spec(m, e).0.wf(),
{
    lemma_existing_tags_wf(m, Seq::empty());
    lemma_existing_tags_wf(m, seq![Note::Event(Reason::ReconciliationFailed, Topic::UpdateFailed(e))]);
}

/// Every step keeps the machine's bookkeeping in agreement with its phase.
pub proof fn lemma_step_wf(m: Machine, e: Event)
    requires
        m.wf(),
    ensures
        step_spec(m, e).0.wf(),
{
    match m.phase {
        Phase::ResolvingDependencies => {
            lemma_after_dependencies_wf(m);
        },
        Phase::Fetching => {
            lemma_enter_create_wf(m, Seq::empty());
            if let Event::Fetched(r) = e {
                lemma_use_existing_wf(m, r);
            }
        },
        Phase::Comparing => {
            lemma_existing_tags_wf(m, Seq::empty());
        },
        Phase::UpdatingFields => {
            match e {
                Event::Written(r) => {
                    lemma_existing_tags_wf(
                        with_record(m, r),
                        opt_note(m.profile.field_updated_event, Note::Event(Reason::Updated, Topic::FieldsUpdated)),
                    );
                },
                Event::WriteFailed(err) => {
                    lemma_update_failed_wf(m, err);
                },
                _ => {},
            }
        },
        Phase::UpdatingTags(origin) => {
            lemma_existing_tags_wf(m, Seq::empty());
            if let Event::Written(r) = e {
                lemma_existing_tags_wf(with_record(m, r), seq![Note::Event(Reason::Updated, Topic::TagsUpdated)]);
            }
        },
        Phase::LookingUp => {
            if let Event::Listed(cands) = e {
                if let Some(k) = pick_index(m.profile.lookup_pick, cands@.len()) {
                    lemma_use_existing_wf(m, cands@[k].record);
                }
            }
        },
        Phase::Creating => {
            if let Event::WriteFailed(err) = e {
                lemma_create_failed_wf(m, err);
            }
        },
        Phase::Querying(s) => {
            if let Event::Listed(cands) = e {
                lemma_query_missed_wf(m, s);
                if let Some(k) = query_index(m, s, cands@) {
                    lemma_use_existing_wf(m, cands@[k].record);
                }
            }
        },
        _ => {},
    }
}

} // verus!
