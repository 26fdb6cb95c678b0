use netbox_controller::dcim::ManufacturerSpec;
use netbox_controller::engine::{start, Action, Event, Failure, Inputs, Machine, Note, Outcome, Transition};
use netbox_controller::inputs::manufacturer_inputs;
use netbox_controller::matching::{Candidate, MatchRule};
use netbox_controller::model::{ControllerError, NetBoxError, NetBoxRecord, ResourceReference, ResourceState, ResourceStatus};
use netbox_controller::profiles::{profile_of, ResourceKind};

const KINDS: [ResourceKind; 14] = [
    ResourceKind::Region,
    ResourceKind::SiteGroup,
    ResourceKind::Site,
    ResourceKind::Device,
    ResourceKind::DeviceRole,
    ResourceKind::DeviceType,
    ResourceKind::Interface,
    ResourceKind::Location,
    ResourceKind::MacAddress,
    ResourceKind::Manufacturer,
    ResourceKind::Platform,
    ResourceKind::Vlan,
    ResourceKind::Role,
    ResourceKind::Tag,
];

fn record(id: u64, tags: &[&str]) -> NetBoxRecord {
    NetBoxRecord { id, url: format!("http://netbox/api/x/{}/", id), tag_names: tags.iter().map(|t| t.to_string()).collect() }
}

fn current_status(r: &NetBoxRecord) -> Option<ResourceStatus> {
    Some(ResourceStatus { netbox_id: Some(r.id), netbox_url: Some(r.url.clone()), state: ResourceState::Created, error: None })
}

fn inputs(status: Option<ResourceStatus>, drift: bool, tags: Option<Vec<&str>>) -> Inputs {
    Inputs {
        status,
        drift_detection: drift,
        desired_tags: tags.map(|v| v.iter().map(|t| t.to_string()).collect()),
        defer_creation: false,
        name_missing: false,
        first_query_available: true,
        second_query_available: false,
        match_rule: MatchRule::NameOrSlug { name: "n".to_string(), slug: None },
    }
}

/// Drives a machine with `answer` until it finishes; returns every request
/// and every note, in order.
fn run(kind: ResourceKind, i: Inputs, answer: &dyn Fn(&Action) -> Event) -> (Vec<Action>, Vec<Note>) {
    let (mut m, mut t): (Machine, Transition) = start(profile_of(kind), i);
    let mut actions = vec![];
    let mut notes = vec![];
    for _ in 0..20 {
        notes.extend(t.notes);
        let finished = matches!(t.action, Action::Finish(_));
        let e = answer(&t.action);
        actions.push(t.action);
        if finished {
            return (actions, notes);
        }
        let (m2, t2) = m.step(e);
        m = m2;
        t = t2;
    }
    panic!("reconciliation did not finish");
}

#[test]
fn every_reconciliation_finishes_within_fourteen_requests() {
    for kind in KINDS {
        let r = record(5, &[]);
        let answer = |a: &Action| match a {
            Action::Fetch { .. } => Event::Fetched(record(5, &[])),
            Action::CompareFields => Event::Compared { drifted: true },
            Action::UpdateFields { .. } => Event::WriteFailed(NetBoxError::Api("refused".to_string())),
            Action::UpdateTags { .. } => Event::Written(record(5, &["a"])),
            Action::ResolveDependencies => Event::DependenciesResolved,
            _ => Event::StatusWritten,
        };
        let (actions, _) = run(kind, inputs(current_status(&r), true, Some(vec!["a"])), &answer);
        assert!(actions.len() <= 14);
        assert!(matches!(actions.last(), Some(Action::Finish(_))));
    }
}

#[test]
fn written_statuses_describe_the_held_record() {
    for kind in KINDS {
        let answer = |a: &Action| match a {
            Action::Lookup => Event::Listed(vec![]),
            Action::Create => Event::Written(record(42, &[])),
            Action::ResolveDependencies => Event::DependenciesResolved,
            _ => Event::StatusWritten,
        };
        let (actions, _) = run(kind, inputs(None, true, None), &answer);
        for a in &actions {
            if let Action::WriteStatus(p) = a {
                assert_eq!(p.netbox_id, 42);
                assert_eq!(p.netbox_url, "http://netbox/api/x/42/");
                assert_eq!(p.state, ResourceState::Created);
                assert!(p.error.is_none());
            }
        }
        assert!(matches!(actions.last(), Some(Action::Finish(Outcome::Success))));
    }
}

#[test]
fn first_request_never_writes() {
    for kind in KINDS {
        for status in [None, current_status(&record(1, &[]))] {
            let (_m, t) = start(profile_of(kind), inputs(status, true, None));
            assert!(!matches!(
                t.action,
                Action::WriteStatus(_) | Action::UpdateFields { .. } | Action::UpdateTags { .. } | Action::Create
            ));
            assert!(t.notes.is_empty());
        }
    }
}

#[test]
fn failed_dependencies_end_the_reconciliation() {
    for kind in KINDS {
        let (m, t) = start(profile_of(kind), inputs(None, true, None));
        if matches!(t.action, Action::ResolveDependencies) {
            let (_m, t) = m.step(Event::DependencyFailed {
                error: ControllerError::InvalidConfig("missing".to_string()),
                notify: false,
            });
            assert!(matches!(t.action, Action::Finish(Outcome::Failed(Failure::Dependency(_)))));
        }
    }
}

#[test]
fn no_field_update_without_drift_detection() {
    for kind in KINDS {
        let r = record(9, &[]);
        let answer = |a: &Action| match a {
            Action::Fetch { .. } => Event::Fetched(record(9, &[])),
            Action::ResolveDependencies => Event::DependenciesResolved,
            Action::UpdateTags { .. } => Event::Written(record(9, &[])),
            _ => Event::StatusWritten,
        };
        let (actions, _) = run(kind, inputs(current_status(&r), false, None), &answer);
        assert!(!actions.iter().any(|a| matches!(a, Action::CompareFields | Action::UpdateFields { .. })));
    }
}

#[test]
fn found_record_is_not_created() {
    for kind in KINDS {
        let answer = |a: &Action| match a {
            Action::Lookup => Event::Listed(vec![Candidate {
                record: record(77, &[]),
                name: Some("n".to_string()),
                slug: "n".to_string(),
                asset_tag: None,
                number: 0,
            }]),
            Action::ResolveDependencies => Event::DependenciesResolved,
            Action::UpdateTags { .. } => Event::Written(record(77, &[])),
            _ => Event::StatusWritten,
        };
        let (actions, _) = run(kind, inputs(None, true, None), &answer);
        assert!(!actions.iter().any(|a| matches!(a, Action::Create)));
        assert!(actions.iter().any(|a| matches!(a, Action::WriteStatus(p) if p.netbox_id == 77)));
    }
}

#[test]
fn up_to_date_resource_is_left_alone() {
    for kind in KINDS {
        let r = record(11, &["prod"]);
        let answer = |a: &Action| match a {
            Action::Fetch { .. } => Event::Fetched(record(11, &["prod"])),
            Action::CompareFields => Event::Compared { drifted: false },
            Action::ResolveDependencies => Event::DependenciesResolved,
            _ => Event::StatusWritten,
        };
        let (actions, notes) = run(kind, inputs(current_status(&r), true, Some(vec!["prod"])), &answer);
        assert!(!actions.iter().any(|a| matches!(
            a,
            Action::Create | Action::UpdateFields { .. } | Action::UpdateTags { .. } | Action::Lookup
        )));
        assert!(notes.is_empty());
        for a in &actions {
            if let Action::WriteStatus(p) = a {
                assert_eq!((p.netbox_id, p.netbox_url.as_str()), (11, r.url.as_str()));
            }
        }
        assert!(matches!(actions.last(), Some(Action::Finish(Outcome::Success))));
    }
}

#[test]
fn deleted_record_is_marked_pending_and_recreated() {
    for kind in KINDS {
        let r = record(12, &[]);
        let answer = |a: &Action| match a {
            Action::Fetch { .. } => Event::FetchFailed(NetBoxError::NotFound("gone".to_string())),
            Action::Lookup => Event::Listed(vec![]),
            Action::Create => Event::Written(record(13, &[])),
            Action::ResolveDependencies => Event::DependenciesResolved,
            _ => Event::StatusWritten,
        };
        let (actions, notes) = run(kind, inputs(current_status(&r), true, None), &answer);
        assert!(notes.iter().any(|n| matches!(n, Note::MarkPending)));
        assert!(actions.iter().any(|a| matches!(a, Action::Create)));
        let n = actions.len();
        assert!(matches!(&actions[n - 2], Action::WriteStatus(p) if p.netbox_id == 13));
        assert!(matches!(actions[n - 1], Action::Finish(Outcome::Success)));
    }
}

#[test]
fn drifted_record_is_corrected() {
    for kind in [ResourceKind::Region, ResourceKind::Device, ResourceKind::Interface, ResourceKind::Manufacturer] {
        let r = record(14, &[]);
        let answer = |a: &Action| match a {
            Action::Fetch { .. } => Event::Fetched(record(14, &[])),
            Action::CompareFields => Event::Compared { drifted: true },
            Action::UpdateFields { .. } => Event::Written(record(14, &[])),
            Action::ResolveDependencies => Event::DependenciesResolved,
            _ => Event::StatusWritten,
        };
        let (actions, _) = run(kind, inputs(current_status(&r), true, None), &answer);
        assert!(actions.iter().any(|a| matches!(a, Action::UpdateFields { id: 14 })));
        assert!(matches!(actions.last(), Some(Action::Finish(Outcome::Success))));
    }
}

#[test]
fn manufacturer_inputs_follow_the_spec() {
    let spec = ManufacturerSpec {
        name: "acme".to_string(),
        slug: None,
        description: None,
        comments: None,
        tags: Some(vec![ResourceReference {
            api_group: "dcops.microscaler.io".to_string(),
            kind: "NetBoxTag".to_string(),
            name: "prod".to_string(),
            namespace: None,
        }]),
        drift_detection: Some(false),
    };
    let i = manufacturer_inputs(&spec, None);
    assert!(!i.drift_detection);
    assert_eq!(i.desired_tags, Some(vec!["prod".to_string()]));
    assert!(!i.second_query_available);
    assert!(matches!(i.match_rule, MatchRule::NameOrSlug { ref name, slug: None } if name == "acme"));
}

#[test]
fn unnamed_tags_are_left_alone() {
    for kind in KINDS {
        let r = record(15, &["manual-tag"]);
        let answer = |a: &Action| match a {
            Action::Fetch { .. } => Event::Fetched(record(15, &["manual-tag"])),
            Action::CompareFields => Event::Compared { drifted: true },
            Action::UpdateFields { .. } => Event::Written(record(15, &["manual-tag"])),
            Action::ResolveDependencies => Event::DependenciesResolved,
            _ => Event::StatusWritten,
        };
        let (actions, _) = run(kind, inputs(current_status(&r), true, None), &answer);
        assert!(!actions.iter().any(|a| matches!(a, Action::UpdateTags { .. })));
    }
}
