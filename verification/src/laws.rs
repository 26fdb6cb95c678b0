//! Properties of the reconciliation state machine, proved for every
//! profile, every resource and every answer.
use vstd::prelude::*;
use crate::compare::{opt_texts_view, tags_differ_spec};
use crate::dependency::spec_dependency_id;
use crate::engine::{
    after_dependencies_spec, after_tags_spec, create_failed_spec, enter_create_spec, existing_tags_spec,
    fetch_or_create_spec, final_status_spec, first_query_spec, found_spec, maybe_tags_spec, opt_note,
    query_index, query_missed_spec, record_deleted_spec, status_existing_spec, update_failed_spec,
    use_existing_spec, with_record,
    created_patch, lemma_step_wf, needs_deps_after, needs_deps_first, start_spec, step_spec, Action, Event, Failure, Inputs,
    Machine, Note, Outcome, Phase, Profile, QueryStrategy, Reason, TagOrigin, Topic, record_tags_differ,
};
use crate::matching::pick_index;
use crate::model::{texts_view, NetBoxRecord};

verus! {

/// How far a phase is from the end of a reconciliation.
pub open spec fn rank(p: Profile, ph: Phase) -> nat {
    match ph {
        Phase::Done => 0,
        Phase::WritingFinalStatus => 1,
        Phase::UpdatingTags(TagOrigin::Found) => 2,
        Phase::Querying(QueryStrategy::All) => 3,
        Phase::Querying(QueryStrategy::Second) => 4,
        Phase::Querying(QueryStrategy::First) => 5,
        Phase::Creating => 6,
        Phase::LookingUp => 7,
        Phase::WritingStatusIfNeeded => 8,
        Phase::UpdatingTags(TagOrigin::Existing) => 9,
        Phase::UpdatingFields => 10,
        Phase::Comparing => 11,
        Phase::ResolvingDependencies => if needs_deps_after(p) { 12 } else { 13 },
        Phase::Fetching => if needs_deps_after(p) { 13 } else { 12 },
    }
}

/// A step result keeps the profile and inputs of `m`, stays below `bound`,
/// finishes exactly when it is done, and writes only statuses describing
/// the record it holds.
pub open spec fn sound_result(m: Machine, r: (Machine, Seq<Note>, Action), bound: nat) -> bool {
    &&& r.0.profile == m.profile
    &&& r.0.inputs == m.inputs
    &&& rank(m.profile, r.0.phase) < bound
    &&& (r.0.phase is Done <==> r.2 is Finish)
    &&& (r.2 matches Action::WriteStatus(patch) ==> (r.0.record is Some && patch == created_patch(r.0.record->0)))
}

proof fn lemma_sound_status(m: Machine, n: Seq<Note>)
    requires
        m.record is Some,
    ensures
        sound_result(m, final_status_spec(m, n), 2),
        sound_result(m, status_existing_spec(m, n), 9),
        sound_result(m, after_tags_spec(m, TagOrigin::Existing, n), 9),
        sound_result(m, after_tags_spec(m, TagOrigin::Found, n), 2),
        sound_result(m, maybe_tags_spec(m, TagOrigin::Existing, n), 10),
        sound_result(m, maybe_tags_spec(m, TagOrigin::Found, n), 3),
        sound_result(m, existing_tags_spec(m, n), 10),
{
}

proof fn lemma_sound_record(m: Machine, r: NetBoxRecord)
    ensures
        sound_result(m, use_existing_spec(m, r), 12),
        sound_result(m, found_spec(m, r, true), 3),
        sound_result(m, found_spec(m, r, false), 3),
{
    lemma_sound_status(with_record(m, r), Seq::empty());
}

proof fn lemma_sound_create(m: Machine, n: Seq<Note>)
    ensures
        sound_result(m, enter_create_spec(m, n), 8),
        sound_result(m, record_deleted_spec(m), 8),
        sound_result(m, first_query_spec(m), 6),
        needs_deps_after(m.profile) ==> sound_result(m, fetch_or_create_spec(m), 14),
        !needs_deps_after(m.profile) ==> sound_result(m, fetch_or_create_spec(m), 13),
{
}

proof fn lemma_sound_after_dependencies(m: Machine)
    ensures
        sound_result(m, after_dependencies_spec(m), rank(m.profile, Phase::ResolvingDependencies)),
{
    lemma_sound_create(m, Seq::empty());
    if let Some(r) = m.record {
        lemma_sound_record(m, r);
    }
}

proof fn lemma_sound_failures(m: Machine, e: crate::model::NetBoxError)
    ensures
        sound_result(m, create_failed_spec(m, e), 6),
        m.create_error is Some ==> sound_result(m, query_missed_spec(m, QueryStrategy::First), 5),
        m.create_error is Some ==> sound_result(m, query_missed_spec(m, QueryStrategy::Second), 4),
        m.create_error is Some ==> sound_result(m, query_missed_spec(m, QueryStrategy::All), 3),
        m.record is Some ==> sound_result(m, update_failed_spec(m, e), 10),
{
    lemma_sound_create(Machine { create_error: Some(e), ..m }, Seq::empty());
    if m.record is Some {
        lemma_sound_status(m, Seq::empty());
        lemma_sound_status(m, seq![Note::Event(crate::engine::Reason::ReconciliationFailed, crate::engine::Topic::UpdateFailed(e))]);
    }
}

proof fn lemma_step_sound_early(m: Machine, e: Event)
    requires
        m.wf(),
        m.phase is ResolvingDependencies || m.phase is Fetching || m.phase is Comparing,
    ensures
        sound_result(m, step_spec(m, e), rank(m.profile, m.phase)),
{
    if m.phase is ResolvingDependencies {
        lemma_sound_after_dependencies(m);
    } else if m.phase is Fetching {
        lemma_sound_create(m, Seq::empty());
        if let Event::Fetched(r) = e {
            lemma_sound_record(m, r);
        }
    } else {
        lemma_sound_status(m, Seq::empty());
    }
}

proof fn lemma_step_sound_updating_fields(m: Machine, e: Event)
    requires
        m.wf(),
        m.phase is UpdatingFields,
    ensures
        sound_result(m, step_spec(m, e), rank(m.profile, m.phase)),
{
    match e {
        Event::Written(r) => {
            let mr = with_record(m, r);
            lemma_sound_status(
                mr,
                opt_note(m.profile.field_updated_event, Note::Event(crate::engine::Reason::Updated, crate::engine::Topic::FieldsUpdated)),
            );
        },
        Event::WriteFailed(err) => {
            lemma_sound_failures(m, err);
        },
        _ => {},
    }
}

proof fn lemma_step_sound_tags(m: Machine, e: Event)
    requires
        m.wf(),
        m.phase is UpdatingTags || m.phase is WritingStatusIfNeeded || m.phase is WritingFinalStatus,
    ensures
        sound_result(m, step_spec(m, e), rank(m.profile, m.phase)),
{
    lemma_sound_status(m, Seq::empty());
    if let Event::Written(r) = e {
        lemma_sound_status(with_record(m, r), seq![Note::Event(crate::engine::Reason::Updated, crate::engine::Topic::TagsUpdated)]);
    }
}

proof fn lemma_step_sound_lookup(m: Machine, e: Event)
    requires
        m.wf(),
        m.phase is LookingUp,
    ensures
        sound_result(m, step_spec(m, e), rank(m.profile, m.phase)),
{
    if let Event::Listed(cands) = e {
        if let Some(k) = pick_index(m.profile.lookup_pick, cands@.len()) {
            lemma_sound_record(m, cands@[k].record);
        }
    }
}

proof fn lemma_step_sound_create(m: Machine, e: Event)
    requires
        m.wf(),
        m.phase is Creating,
    ensures
        sound_result(m, step_spec(m, e), rank(m.profile, m.phase)),
{
    match e {
        Event::Written(r) => {
            lemma_sound_status(with_record(m, r), opt_note(m.profile.created_event, Note::Event(crate::engine::Reason::Created, crate::engine::Topic::RecordCreated(r.id))));
        },
        Event::WriteFailed(err) => {
            lemma_sound_failures(m, err);
        },
        _ => {},
    }
}

proof fn lemma_step_sound_query(m: Machine, e: Event)
    requires
        m.wf(),
        m.phase is Querying,
    ensures
        sound_result(m, step_spec(m, e), rank(m.profile, m.phase)),
{
    let s = m.phase->Querying_0;
    let err = m.create_error->0;
    lemma_sound_failures(m, err);
    if let Event::Listed(cands) = e {
        if let Some(k) = query_index(m, s, cands@) {
            lemma_sound_record(m, cands@[k].record);
        }
    }
}

proof fn lemma_step_sound(m: Machine, e: Event)
    requires
        m.wf(),
        !(m.phase is Done),
    ensures
        sound_result(m, step_spec(m, e), rank(m.profile, m.phase)),
{
    match m.phase {
        Phase::ResolvingDependencies | Phase::Fetching | Phase::Comparing => lemma_step_sound_early(m, e),
        Phase::UpdatingFields => lemma_step_sound_updating_fields(m, e),
        Phase::UpdatingTags(_) | Phase::WritingStatusIfNeeded | Phase::WritingFinalStatus => lemma_step_sound_tags(m, e),
        Phase::LookingUp => lemma_step_sound_lookup(m, e),
        Phase::Creating => lemma_step_sound_create(m, e),
        Phase::Querying(_) => lemma_step_sound_query(m, e),
        Phase::Done => {},
    }
}

/// Reconciliations terminate: every answer moves a running machine strictly
/// closer to its end, so a reconciliation makes at most 13 requests after
/// its first one; a finished machine stays finished. Steps never change the
/// profile or the inputs.
pub proof fn law_every_step_progresses(m: Machine, e: Event)
    requires
        m.wf(),
    ensures
        ({
            let (m2, _, a) = step_spec(m, e);
            &&& m2.profile == m.profile
            &&& m2.inputs == m.inputs
            &&& (m.phase is Done ==> m2.phase is Done)
            &&& (!(m.phase is Done) ==> rank(m.profile, m2.phase) < rank(m.profile, m.phase))
            &&& (m2.phase is Done <==> a is Finish)
        }),
{
    if !(m.phase is Done) {
        lemma_step_sound(m, e);
    }
}

/// The status a reconciliation writes always describes the record it holds:
/// created, with that record's id and URL, and no error.
pub proof fn law_written_status_describes_record(m: Machine, e: Event)
    requires
        m.wf(),
    ensures
        ({
            let (m2, _, a) = step_spec(m, e);
            a matches Action::WriteStatus(patch) ==> (m2.record is Some && patch == created_patch(m2.record->0))
        }),
{
    if !(m.phase is Done) {
        lemma_step_sound(m, e);
    }
}

/// The first request of a reconciliation never writes a status.
pub proof fn law_start_writes_nothing(p: Profile, i: Inputs)
    ensures
        ({
            let (m, _, a) = start_spec(p, i);
            &&& m.wf()
            &&& m.profile == p
            &&& !(a is WriteStatus || a is UpdateFields || a is UpdateTags || a is Create)
            &&& (needs_deps_first(p) ==> a is ResolveDependencies)
        }),
{
}

/// A reconciliation whose dependencies cannot be resolved ends with that
/// failure, without any further request.
pub proof fn law_dependency_failure_ends(m: Machine, error: crate::model::ControllerError, notify: bool)
    requires
        m.wf(),
        m.phase is ResolvingDependencies,
    ensures
        ({
            let (m2, _, a) = step_spec(m, Event::DependencyFailed { error, notify });
            m2.phase is Done && a == Action::Finish(Outcome::Failed(Failure::Dependency(error)))
        }),
{
}

/// Not in a phase that compares or updates fields.
pub open spec fn away_from_fields(ph: Phase) -> bool {
    !(ph is Comparing) && !(ph is UpdatingFields)
}

/// With drift detection switched off, no field of an existing record is
/// compared or updated: from the first request on, no step enters those
/// phases or asks for a comparison or a field update.
#[verifier::spinoff_prover]
#[verifier::rlimit(40)]
pub proof fn law_no_field_update_without_drift_detection(m: Machine, e: Event)
    requires
        m.wf(),
        !m.inputs.drift_detection,
        away_from_fields(m.phase),
    ensures
        ({
            let (m2, _, a) = step_spec(m, e);
            away_from_fields(m2.phase) && !(a is UpdateFields) && !(a is CompareFields)
        }),
{
}

/// The first request of a reconciliation with drift detection switched off
/// is away from field comparison.
pub proof fn law_start_without_drift_detection(p: Profile, i: Inputs)
    requires
        !i.drift_detection,
    ensures
        away_from_fields(start_spec(p, i).0.phase),
{
}

/// A record that the idempotency lookup finds is never created again.
pub proof fn law_found_record_is_not_created(m: Machine, cands: Vec<crate::matching::Candidate>)
    requires
        m.wf(),
        m.phase is LookingUp,
        pick_index(m.profile.lookup_pick, cands@.len()) is Some,
    ensures
        ({
            let (m2, _, a) = step_spec(m, Event::Listed(cands));
            !(a is Create) && !(m2.phase is Creating) && m2.record == Some(
                cands@[pick_index(m.profile.lookup_pick, cands@.len())->0].record,
            )
        }),
{
}

/// A resource whose spec names no tags leaves the tags of its record alone:
/// no step asks for a tag update.
pub proof fn law_unnamed_tags_are_left_alone(m: Machine, e: Event)
    requires
        m.wf(),
        m.inputs.desired_tags is None,
    ensures
        no_tag_update(step_spec(m, e)),
{
    match m.phase {
        Phase::ResolvingDependencies => {
            lemma_no_tags_after_dependencies(m);
        },
        Phase::Fetching => {
            if let Event::Fetched(r) = e {
                lemma_no_tags_existing(with_record(m, r), Seq::empty());
            }
        },
        Phase::Comparing => {
            lemma_no_tags_existing(m, Seq::empty());
        },
        Phase::UpdatingFields => {
            match e {
                Event::Written(r) => {
                    lemma_no_tags_existing(
                        with_record(m, r),
                        opt_note(m.profile.field_updated_event, Note::Event(Reason::Updated, Topic::FieldsUpdated)),
                    );
                },
                Event::WriteFailed(err) => {
                    lemma_no_tags_existing(m, Seq::empty());
                    lemma_no_tags_existing(m, seq![Note::Event(Reason::ReconciliationFailed, Topic::UpdateFailed(err))]);
                },
                _ => {},
            }
        },
        Phase::LookingUp => {
            if let Event::Listed(cands) = e {
                if let Some(k) = pick_index(m.profile.lookup_pick, cands@.len()) {
                    lemma_no_tags_existing(with_record(m, cands@[k].record), Seq::empty());
                }
            }
        },
        Phase::Querying(s) => {
            if let Event::Listed(cands) = e {
                if let Some(k) = query_index(m, s, cands@) {
                    lemma_no_tags_existing(with_record(m, cands@[k].record), Seq::empty());
                }
            }
        },
        _ => {},
    }
}

/// The step result asks for no tag update and is not waiting for one.
pub open spec fn no_tag_update(r: (Machine, Seq<Note>, Action)) -> bool {
    !(r.2 is UpdateTags) && !(r.0.phase is UpdatingTags)
}

proof fn lemma_no_tags_existing(m: Machine, n: Seq<Note>)
    requires
        m.inputs.desired_tags is None,
    ensures
        no_tag_update(existing_tags_spec(m, n)),
        no_tag_update(maybe_tags_spec(m, TagOrigin::Found, n)),
        no_tag_update(maybe_tags_spec(m, TagOrigin::Existing, n)),
{
    assert(!record_tags_differ(m));
}

proof fn lemma_no_tags_after_dependencies(m: Machine)
    requires
        m.inputs.desired_tags is None,
    ensures
        no_tag_update(after_dependencies_spec(m)),
{
    if let Some(r) = m.record {
        lemma_no_tags_existing(with_record(m, r), Seq::empty());
    }
}

/// A create refused because the record already exists (as the kind
/// recognises conflicts) is not a failure: the reconciliation goes on to
/// query NetBox for the existing record, and remembers the refusal.
pub proof fn law_create_conflict_is_looked_into(m: Machine, e: crate::model::NetBoxError)
    requires
        m.wf(),
        m.phase is Creating,
        crate::engine::spec_is_conflict(m.profile.conflict, e),
    ensures
        ({
            let (m2, notes, a) = step_spec(m, Event::WriteFailed(e));
            &&& a is ConflictQuery
            &&& m2.phase is Querying
            &&& m2.create_error == Some(e)
            &&& notes.len() == 0
        }),
{
}

/// A create refused for any other reason ends the reconciliation with that
/// error, without querying NetBox.
pub proof fn law_create_error_without_conflict_fails(m: Machine, e: crate::model::NetBoxError)
    requires
        m.wf(),
        m.phase is Creating,
        !crate::engine::spec_is_conflict(m.profile.conflict, e),
    ensures
        ({
            let (m2, _, a) = step_spec(m, Event::WriteFailed(e));
            m2.phase is Done && a == Action::Finish(Outcome::Failed(Failure::Create(e)))
        }),
{
}

/// Conflict resolution: when a query after a create conflict finds the
/// record, the reconciliation adopts it, creates nothing, and goes on to
/// write the status of the found record (after bringing its tags in line
/// where the kind does so).
pub proof fn law_conflict_query_hit_adopts_record(
    m: Machine,
    s: QueryStrategy,
    cands: Vec<crate::matching::Candidate>,
)
    requires
        m.wf(),
        m.phase == Phase::Querying(s),
        query_index(m, s, cands@) is Some,
    ensures
        ({
            let k = query_index(m, s, cands@)->0;
            let (m2, _, a) = step_spec(m, Event::Listed(cands));
            &&& m2.record == Some(cands@[k].record)
            &&& !(a is Create) && !(a is Finish)
            &&& (a is WriteStatus ==> a == Action::WriteStatus(created_patch(cands@[k].record)))
            &&& (a is UpdateTags ==> a == Action::UpdateTags { id: cands@[k].record.id })
        }),
{
}

/// The requests of a reconciliation in state `m`, whose pending request `a`
/// and all later ones are answered by `answer`; at most `fuel` answers are
/// given.
pub open spec fn run(m: Machine, a: Action, answer: spec_fn(Action) -> Event, fuel: nat) -> Seq<Action>
    decreases fuel,
{
    if fuel == 0 || a is Finish {
        seq![a]
    } else {
        let (m2, _, a2) = step_spec(m, answer(a));
        seq![a] + run(m2, a2, answer, (fuel - 1) as nat)
    }
}

/// No answer in the run of `run` leads to a note: no event is recorded and
/// no status is marked.
pub open spec fn run_quiet(m: Machine, a: Action, answer: spec_fn(Action) -> Event, fuel: nat) -> bool
    decreases fuel,
{
    if fuel == 0 || a is Finish {
        true
    } else {
        let (m2, notes, a2) = step_spec(m, answer(a));
        notes.len() == 0 && run_quiet(m2, a2, answer, (fuel - 1) as nat)
    }
}

/// A request that changes NetBox.
pub open spec fn writes_netbox(a: Action) -> bool {
    a is UpdateFields || a is UpdateTags || a is Create
}

/// The answers NetBox and Kubernetes give when the record `r` that the
/// status points at exists and agrees with the spec: dependencies resolve,
/// the fetch returns `r`, the comparison finds no difference, and status
/// writes succeed.
pub open spec fn answer_up_to_date(r: NetBoxRecord) -> spec_fn(Action) -> Event {
    |a: Action| match a {
        Action::ResolveDependencies => Event::DependenciesResolved,
        Action::Fetch { .. } => Event::Fetched(r),
        Action::CompareFields => Event::Compared { drifted: false },
        _ => Event::StatusWritten,
    }
}

/// The tags of `r` agree with those the inputs ask for.
pub open spec fn tags_agree(i: Inputs, r: NetBoxRecord) -> bool {
    !tags_differ_spec(texts_view(r.tag_names@), opt_texts_view(i.desired_tags))
}

/// The states a reconciliation passes through when its record is up to date.
pub open spec fn up_to_date_inv(m: Machine, a: Action, r: NetBoxRecord) -> bool {
    &&& m.wf()
    &&& spec_dependency_id(m.inputs.status) is Some
    &&& tags_agree(m.inputs, r)
    &&& !m.deleted
    &&& match m.phase {
        Phase::ResolvingDependencies => a is ResolveDependencies && m.profile.has_dependencies
            && (if m.profile.deps_after_fetch { m.record == Some(r) } else { m.record is None }),
        Phase::Fetching => a is Fetch && m.record is None,
        Phase::Comparing => a is CompareFields && m.record == Some(r),
        Phase::WritingStatusIfNeeded => a is WriteStatus && m.record == Some(r),
        Phase::WritingFinalStatus => a is WriteStatus && m.record == Some(r),
        Phase::Done => a == Action::Finish(Outcome::Success),
        _ => false,
    }
    &&& writes_status_of(a, r)
}

/// A status write, if `a` is one, writes the status describing `r`.
pub open spec fn writes_status_of(a: Action, r: NetBoxRecord) -> bool {
    a is WriteStatus ==> a == Action::WriteStatus(created_patch(r))
}

/// The patch leaves the status as it is: same id, URL, state and error.
pub open spec fn patch_keeps_status(p: crate::model::StatusPatch, s: Option<crate::model::ResourceStatus>) -> bool {
    s matches Some(st) && st.netbox_id == Some(p.netbox_id) && crate::model::opt_view(st.netbox_url) == Some(p.netbox_url@)
        && st.state == p.state && crate::model::opt_view(st.error) == crate::model::opt_view(p.error)
}

proof fn lemma_up_to_date_existing(m: Machine, r: NetBoxRecord)
    requires
        m.wf(),
        spec_dependency_id(m.inputs.status) is Some,
        tags_agree(m.inputs, r),
        !m.deleted,
        m.record == Some(r),
    ensures
        up_to_date_inv(existing_tags_spec(m, Seq::empty()).0, existing_tags_spec(m, Seq::empty()).2, r),
        up_to_date_inv(use_existing_spec(m, r).0, use_existing_spec(m, r).2, r),
{
    assert(with_record(m, r) == m);
}

proof fn lemma_up_to_date_step(m: Machine, a: Action, r: NetBoxRecord)
    requires
        up_to_date_inv(m, a, r),
        !(a is Finish),
    ensures
        up_to_date_inv(step_spec(m, (answer_up_to_date(r))(a)).0, step_spec(m, (answer_up_to_date(r))(a)).2, r),
        step_spec(m, (answer_up_to_date(r))(a)).1.len() == 0,
{
    lemma_step_sound(m, (answer_up_to_date(r))(a));
    match m.phase {
        Phase::ResolvingDependencies => {
            if m.profile.deps_after_fetch {
                lemma_up_to_date_existing(m, r);
            }
        },
        Phase::Fetching => {
            lemma_up_to_date_existing(with_record(m, r), r);
        },
        Phase::Comparing => {
            lemma_up_to_date_existing(m, r);
        },
        _ => {},
    }
}

proof fn lemma_up_to_date_run(m: Machine, a: Action, r: NetBoxRecord, fuel: nat)
    requires
        up_to_date_inv(m, a, r),
        fuel >= rank(m.profile, m.phase),
    ensures
        forall|k: int| 0 <= k < run(m, a, answer_up_to_date(r), fuel).len()
            ==> !writes_netbox(#[trigger] run(m, a, answer_up_to_date(r), fuel)[k])
            && writes_status_of(run(m, a, answer_up_to_date(r), fuel)[k], r),
        run(m, a, answer_up_to_date(r), fuel).last() == Action::Finish(Outcome::Success),
        run_quiet(m, a, answer_up_to_date(r), fuel),
    decreases fuel,
{
    let ans = answer_up_to_date(r);
    if fuel == 0 || a is Finish {
        if !(a is Finish) {
            assert(m.phase is Done) by {
                if !(m.phase is Done) {
                    assert(rank(m.profile, m.phase) > 0);
                }
            }
        }
    } else {
        let (m2, _, a2) = step_spec(m, ans(a));
        lemma_up_to_date_step(m, a, r);
        lemma_step_sound(m, ans(a));
        lemma_up_to_date_run(m2, a2, r, (fuel - 1) as nat);
        let tail = run(m2, a2, ans, (fuel - 1) as nat);
        assert(run(m, a, ans, fuel) == seq![a] + tail);
        assert forall|k: int| 0 <= k < run(m, a, ans, fuel).len() implies !writes_netbox(#[trigger] run(m, a, ans, fuel)[k])
            && writes_status_of(run(m, a, ans, fuel)[k], r) by {
            if k > 0 {
                assert(run(m, a, ans, fuel)[k] == tail[k - 1]);
            }
        }
    }
}

/// Idempotence: reconciling a resource whose status points at a NetBox
/// record that exists, agrees with the spec and carries the desired tags
/// changes nothing in NetBox, and ends in success. Every status it writes
/// describes that record; when the status already does (it is current),
/// such a write leaves the status as it is. No event is recorded.
pub proof fn law_up_to_date_resource_is_left_alone(p: Profile, i: Inputs, r: NetBoxRecord)
    requires
        spec_dependency_id(i.status) is Some,
        tags_agree(i, r),
    ensures
        ({
            let (m0, _, a0) = start_spec(p, i);
            let actions = run(m0, a0, answer_up_to_date(r), 13);
            &&& forall|k: int| 0 <= k < actions.len() ==> !writes_netbox(#[trigger] actions[k])
                && writes_status_of(actions[k], r)
            &&& actions.last() == Action::Finish(Outcome::Success)
            &&& run_quiet(m0, a0, answer_up_to_date(r), 13)
            &&& crate::compare::status_is_current(i.status, r.id, r.url@) ==> patch_keeps_status(created_patch(r), i.status)
        }),
{
    let (m0, _, a0) = start_spec(p, i);
    lemma_up_to_date_run(m0, a0, r, 13);
}

/// The status a reconciliation writes for record `r`, as the next
/// reconciliation reads it.
pub open spec fn status_of_record(r: NetBoxRecord) -> crate::model::ResourceStatus {
    crate::model::ResourceStatus {
        netbox_id: Some(r.id),
        netbox_url: Some(r.url),
        state: crate::model::ResourceState::Created,
        error: None,
    }
}

/// Idempotence across reconciliations: once a reconciliation has written
/// the status of record `r` (NetBox numbers its records from 1), reconciling
/// the resource again while `r` is unchanged and in line with the spec
/// changes nothing in NetBox, records no event, writes only a status equal
/// to the one it read, and succeeds.
pub proof fn law_second_reconciliation_changes_nothing(p: Profile, i: Inputs, r: NetBoxRecord)
    requires
        i.status == Some(status_of_record(r)),
        r.id != 0,
        tags_agree(i, r),
    ensures
        ({
            let (m0, _, a0) = start_spec(p, i);
            let actions = run(m0, a0, answer_up_to_date(r), 13);
            &&& forall|k: int| 0 <= k < actions.len() ==> !writes_netbox(#[trigger] actions[k])
                && writes_status_of(actions[k], r)
            &&& actions.last() == Action::Finish(Outcome::Success)
            &&& run_quiet(m0, a0, answer_up_to_date(r), 13)
            &&& patch_keeps_status(created_patch(r), i.status)
        }),
{
    law_up_to_date_resource_is_left_alone(p, i, r);
}

/// The answers given when the record the status points at was deleted from
/// NetBox: the fetch answers "not found", the lookup finds nothing (`none`
/// is an empty answer), the create returns `created`, status writes
/// succeed.
pub open spec fn answer_deleted(msg: String, none: Vec<crate::matching::Candidate>, created: NetBoxRecord) -> spec_fn(Action) -> Event {
    |a: Action| match a {
        Action::ResolveDependencies => Event::DependenciesResolved,
        Action::Fetch { .. } => Event::FetchFailed(crate::model::NetBoxError::NotFound(msg)),
        Action::Lookup => Event::Listed(none),
        Action::Create => Event::Written(created),
        _ => Event::StatusWritten,
    }
}

pub open spec fn deleted_inv(m: Machine, a: Action, created: NetBoxRecord) -> bool {
    &&& m.wf()
    &&& !m.inputs.defer_creation
    &&& !m.inputs.name_missing
    &&& match m.phase {
        Phase::ResolvingDependencies => a is ResolveDependencies && m.profile.has_dependencies && m.record is None
            && m.deleted == m.profile.deps_after_fetch,
        Phase::Fetching => a is Fetch && m.record is None && !m.deleted,
        Phase::LookingUp => a is Lookup,
        Phase::Creating => a is Create,
        Phase::WritingFinalStatus => a == Action::WriteStatus(created_patch(created)),
        Phase::Done => a == Action::Finish(Outcome::Success),
        _ => false,
    }
}

/// The run ends by writing the status of `created` and succeeding; while
/// the record is still to be created, the run creates it.
pub open spec fn recreation_ends_well(run: Seq<Action>, created: NetBoxRecord, before_create: bool) -> bool {
    &&& run.len() >= 2 || run == seq![Action::Finish(Outcome::Success)]
    &&& run.last() == Action::Finish(Outcome::Success)
    &&& run.len() >= 2 ==> run[run.len() - 2] == Action::WriteStatus(created_patch(created))
    &&& before_create ==> run.contains(Action::Create)
}

proof fn lemma_deleted_run(
    m: Machine,
    a: Action,
    msg: String,
    none: Vec<crate::matching::Candidate>,
    created: NetBoxRecord,
    fuel: nat,
)
    requires
        deleted_inv(m, a, created),
        none@.len() == 0,
        fuel >= rank(m.profile, m.phase),
    ensures
        recreation_ends_well(
            run(m, a, answer_deleted(msg, none, created), fuel),
            created,
            !(m.phase is WritingFinalStatus) && !(m.phase is Done),
        ),
    decreases fuel,
{
    let ans = answer_deleted(msg, none, created);
    if fuel == 0 || a is Finish {
        if !(a is Finish) {
            assert(rank(m.profile, m.phase) > 0 || m.phase is Done);
        }
    } else {
        let (m2, _, a2) = step_spec(m, ans(a));
        lemma_step_sound(m, ans(a));
        lemma_step_wf(m, ans(a));
        assert(deleted_inv(m2, a2, created));
        lemma_deleted_run(m2, a2, msg, none, created, (fuel - 1) as nat);
        let tail = run(m2, a2, ans, (fuel - 1) as nat);
        let whole = run(m, a, ans, fuel);
        assert(whole == seq![a] + tail);
        assert(whole.last() == tail.last());
        if m.phase is WritingFinalStatus {
            assert(tail == seq![Action::Finish(Outcome::Success)]) by {
                assert(m2.phase is Done);
                assert(a2 is Finish);
            }
            assert(whole[whole.len() - 2] == a);
        } else {
            assert(tail.len() >= 2);
            assert(whole[whole.len() - 2] == tail[tail.len() - 2]);
            if m.phase is Creating {
                assert(whole[0] == Action::Create);
            } else if !(m2.phase is WritingFinalStatus) && !(m2.phase is Done) {
                let k = choose|k: int| 0 <= k < tail.len() && tail[k] == Action::Create;
                assert(whole[k + 1] == Action::Create);
            }
        }
    }
}

/// Drift correction of deleted records: when the record a resource's status
/// points at has been deleted from NetBox and nothing else answers to the
/// resource, the reconciliation creates the record again, writes the status
/// of the new record, and succeeds.
pub proof fn law_deleted_record_is_recreated(
    p: Profile,
    i: Inputs,
    msg: String,
    none: Vec<crate::matching::Candidate>,
    created: NetBoxRecord,
)
    requires
        spec_dependency_id(i.status) is Some,
        !i.defer_creation,
        !i.name_missing,
        none@.len() == 0,
    ensures
        ({
            let (m0, _, a0) = start_spec(p, i);
            let actions = run(m0, a0, answer_deleted(msg, none, created), 13);
            &&& actions.contains(Action::Create)
            &&& actions.len() >= 2
            &&& actions[actions.len() - 2] == Action::WriteStatus(created_patch(created))
            &&& actions.last() == Action::Finish(Outcome::Success)
        }),
{
    let (m0, _, a0) = start_spec(p, i);
    lemma_deleted_run(m0, a0, msg, none, created, 13);
}

/// A record found deleted is reported: the status of its resource is marked
/// `Pending` (with a `DriftDetected` event where the kind records one) before
/// the record is looked up again or created.
pub proof fn law_deleted_record_marks_status_pending(m: Machine, msg: String)
    requires
        m.wf(),
        m.phase is Fetching,
        !needs_deps_after(m.profile),
    ensures
        ({
            let (m2, notes, a) = step_spec(m, Event::FetchFailed(crate::model::NetBoxError::NotFound(msg)));
            &&& notes.contains(Note::MarkPending)
            &&& (m.profile.deleted_event ==> notes.contains(
                Note::Event(crate::engine::Reason::DriftDetected, crate::engine::Topic::RecordDeleted),
            ))
            &&& (a is Lookup || a == Action::Finish(Outcome::Success))
        }),
{
    let notes = step_spec(m, Event::FetchFailed(crate::model::NetBoxError::NotFound(msg))).1;
    if m.profile.deleted_event {
        assert(notes[1] == Note::MarkPending);
        assert(notes[0] == Note::Event(crate::engine::Reason::DriftDetected, crate::engine::Topic::RecordDeleted));
    } else {
        assert(notes[0] == Note::MarkPending);
    }
}

/// The same report for kinds that resolve their dependencies after the
/// fetch: it is made once the dependencies are resolved.
pub proof fn law_deleted_record_marks_status_pending_after_dependencies(m: Machine)
    requires
        m.wf(),
        m.phase is ResolvingDependencies,
        needs_deps_after(m.profile),
        m.record is None,
        m.deleted,
    ensures
        ({
            let (m2, notes, a) = step_spec(m, Event::DependenciesResolved);
            &&& notes.contains(Note::MarkPending)
            &&& (a is Lookup || a == Action::Finish(Outcome::Success))
        }),
{
    let notes = step_spec(m, Event::DependenciesResolved).1;
    if m.profile.deleted_event {
        assert(notes[1] == Note::MarkPending);
    } else {
        assert(notes[0] == Note::MarkPending);
    }
}

/// The answers given when the record `r` the status points at exists but
/// differs from the spec: the comparison reports drift and every update
/// returns `updated`.
pub open spec fn answer_drifted(r: NetBoxRecord, updated: NetBoxRecord) -> spec_fn(Action) -> Event {
    |a: Action| match a {
        Action::ResolveDependencies => Event::DependenciesResolved,
        Action::Fetch { .. } => Event::Fetched(r),
        Action::CompareFields => Event::Compared { drifted: true },
        Action::UpdateFields { .. } => Event::Written(updated),
        Action::UpdateTags { .. } => Event::Written(updated),
        _ => Event::StatusWritten,
    }
}

pub open spec fn drifted_inv(m: Machine, a: Action, r: NetBoxRecord, updated: NetBoxRecord) -> bool {
    &&& m.wf()
    &&& spec_dependency_id(m.inputs.status) is Some
    &&& m.profile.field_drift
    &&& m.inputs.drift_detection
    &&& !m.deleted
    &&& match m.phase {
        Phase::ResolvingDependencies => a is ResolveDependencies && m.profile.has_dependencies
            && (if m.profile.deps_after_fetch { m.record == Some(r) } else { m.record is None }),
        Phase::Fetching => a is Fetch && m.record is None,
        Phase::Comparing => a is CompareFields && m.record == Some(r),
        Phase::UpdatingFields => a == Action::UpdateFields { id: r.id } && m.record == Some(r),
        Phase::UpdatingTags(TagOrigin::Existing) => a is UpdateTags && m.record == Some(updated),
        Phase::WritingStatusIfNeeded => a == Action::WriteStatus(created_patch(updated)) && m.record == Some(updated),
        Phase::WritingFinalStatus => a == Action::WriteStatus(created_patch(updated)) && m.record == Some(updated),
        Phase::Done => a == Action::Finish(Outcome::Success),
        _ => false,
    }
}

/// Before the fields are updated.
pub open spec fn before_field_update(ph: Phase) -> bool {
    ph is ResolvingDependencies || ph is Fetching || ph is Comparing || ph is UpdatingFields
}

pub open spec fn drift_run_ok(run: Seq<Action>, r: NetBoxRecord, updated: NetBoxRecord, before: bool) -> bool {
    &&& run.last() == Action::Finish(Outcome::Success)
    &&& forall|k: int| 0 <= k < run.len() && (#[trigger] run[k]) is WriteStatus
        ==> run[k] == Action::WriteStatus(created_patch(updated))
    &&& before ==> run.contains(Action::UpdateFields { id: r.id })
}

proof fn lemma_drifted_existing(m: Machine, r: NetBoxRecord, updated: NetBoxRecord, n: Seq<Note>)
    requires
        m.wf(),
        spec_dependency_id(m.inputs.status) is Some,
        m.profile.field_drift,
        m.inputs.drift_detection,
        !m.deleted,
        m.record == Some(updated),
    ensures
        drifted_inv(existing_tags_spec(m, n).0, existing_tags_spec(m, n).2, r, updated),
        drifted_inv(after_tags_spec(m, TagOrigin::Existing, n).0, after_tags_spec(m, TagOrigin::Existing, n).2, r, updated),
{
}

proof fn lemma_drifted_step(m: Machine, a: Action, r: NetBoxRecord, updated: NetBoxRecord)
    requires
        drifted_inv(m, a, r, updated),
        !(a is Finish),
    ensures
        ({
            let (m2, _, a2) = step_spec(m, (answer_drifted(r, updated))(a));
            drifted_inv(m2, a2, r, updated)
        }),
{
    let ans = answer_drifted(r, updated);
    match m.phase {
        Phase::UpdatingFields => {
            lemma_drifted_existing(
                with_record(m, updated),
                r,
                updated,
                opt_note(m.profile.field_updated_event, Note::Event(crate::engine::Reason::Updated, crate::engine::Topic::FieldsUpdated)),
            );
        },
        Phase::UpdatingTags(_) => {
            assert(with_record(m, updated) == m);
            lemma_drifted_existing(m, r, updated, seq![Note::Event(crate::engine::Reason::Updated, crate::engine::Topic::TagsUpdated)]);
        },
        Phase::WritingStatusIfNeeded => {
            lemma_drifted_existing(m, r, updated, Seq::empty());
        },
        _ => {},
    }
}

proof fn lemma_drifted_run(m: Machine, a: Action, r: NetBoxRecord, updated: NetBoxRecord, fuel: nat)
    requires
        drifted_inv(m, a, r, updated),
        fuel >= rank(m.profile, m.phase),
    ensures
        drift_run_ok(run(m, a, answer_drifted(r, updated), fuel), r, updated, before_field_update(m.phase)),
    decreases fuel,
{
    let ans = answer_drifted(r, updated);
    if fuel == 0 || a is Finish {
        if !(a is Finish) {
            assert(rank(m.profile, m.phase) > 0 || m.phase is Done);
        }
    } else {
        let (m2, _, a2) = step_spec(m, ans(a));
        lemma_step_sound(m, ans(a));
        lemma_drifted_step(m, a, r, updated);
        lemma_drifted_run(m2, a2, r, updated, (fuel - 1) as nat);
        let tail = run(m2, a2, ans, (fuel - 1) as nat);
        let whole = run(m, a, ans, fuel);
        assert(whole == seq![a] + tail);
        assert(whole.last() == tail.last());
        assert forall|k: int| 0 <= k < whole.len() && (#[trigger] whole[k]) is WriteStatus
            implies whole[k] == Action::WriteStatus(created_patch(updated)) by {
            if k > 0 {
                assert(whole[k] == tail[k - 1]);
            }
        }
        if before_field_update(m.phase) {
            if m.phase is UpdatingFields {
                assert(whole[0] == Action::UpdateFields { id: r.id });
            } else {
                assert(before_field_update(m2.phase));
                let k = choose|k: int| 0 <= k < tail.len() && tail[k] == Action::UpdateFields { id: r.id };
                assert(whole[k + 1] == Action::UpdateFields { id: r.id });
            }
        }
    }
}

/// Git is the source of truth: when drift detection is on and the record the
/// status points at differs from the spec, the reconciliation asks for an
/// update of that record (whose content, by `corrections`, brings it in line
/// with the spec), every status it writes describes the updated record, and
/// it succeeds.
pub proof fn law_drifted_record_gets_an_update(p: Profile, i: Inputs, r: NetBoxRecord, updated: NetBoxRecord)
    requires
        spec_dependency_id(i.status) is Some,
        p.field_drift,
        i.drift_detection,
    ensures
        ({
            let (m0, _, a0) = start_spec(p, i);
            drift_run_ok(run(m0, a0, answer_drifted(r, updated), 13), r, updated, true)
        }),
{
    let (m0, _, a0) = start_spec(p, i);
    lemma_drifted_run(m0, a0, r, updated, 13);
}

} // verus!
