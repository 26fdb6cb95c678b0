# netbox_controller

Reconciliation logic of a Kubernetes controller that keeps NetBox in line
with custom resources declared in Git (regions, site groups, sites,
locations, devices, device roles, device types, interfaces, MAC addresses,
manufacturers, platforms, VLANs, roles and tags), verified with Verus.

## Layout

- `src/` — the verified library.
  - `engine.rs`: the reconciliation state machine shared by every kind
    (`start`, `Machine::step`) and its transition relation.
  - `profiles.rs`: the choices in which the kinds differ.
  - `inputs.rs`: what each kind hands the machine before it starts.
  - `dcim.rs`, `extras.rs`: the specs and records of the kinds, and the
    drift checks (`*_needs_update`).
  - `requests.rs`: the content of every create and update sent to NetBox,
    built from the spec and the resolved ids; `queries.rs`: the filters of the
    lookups and conflict queries.
  - `compare.rs`, `text.rs`, `matching.rs`, `dependency.rs`,
    `decisions.rs`, `messages.rs`, `model.rs`: field comparison, slugs and substring search,
    choosing a record out of a query, resolving references, how the
    interface and MAC address reconcilers begin, status and error
    decisions, event texts, shared values.
  - `laws.rs`: properties of the machine proved for every kind and every
    answer: termination, idempotence (no NetBox write, status writes that
    keep a current status), recreation of deleted records, the request of an
    update for drifted records, conflict handling, and what statuses are
    written.
  - `corrections.rs`: for each kind, the update sent for a drifted record
    leaves it in line with its spec, NetBox being modelled as setting the
    fields an update sends and keeping the others. An update cannot clear a
    field: a text the spec leaves out, or a reference it does not make, is
    not sent. So each law covers the records whose fields of that sort
    already agree with the spec (`*_correctable`); a record holding, say, a
    description the spec no longer gives stays drifted. Every field the spec
    does give, and every reference it makes (for devices: type, role, site,
    tenant, location, platform and primary IPs), is corrected.
- `tests/` — scenarios and examples run against the compiled library.
- `app/` — the unverified side: the async driver that performs the
  machine's requests against NetBox and Kubernetes, the conversion of the
  library's requests and of NetBox's answers to and from JSON, the reading
  of referenced resources, and the float fields (site coordinates, device
  type height), which it compares and sends itself.
