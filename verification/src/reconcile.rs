use vstd::prelude::*;

use crate::dynu::{fresh_txt_model, record_id, DomainDTO, DomainModel, RecordDTO, RecordModel};
use crate::netutils::{Addresses, AddressesModel};

verus! {

/// One mutation to issue against the remote directory. The reconciler
/// decides a list of these from observed state alone; executing them
/// is the caller's business.
#[derive(Debug)]
pub enum DirectoryCall {
    /// Replace the domain's stored fields with these.
    UpdateDomain(DomainDTO),
    /// Create this record (identity absent) under the domain with
    /// this identity.
    CreateRecord(u64, RecordDTO),
    /// Update the record whose identity the carried record names,
    /// under the domain with this identity.
    UpdateRecord(u64, RecordDTO),
    /// Delete the record with the second identity under the domain
    /// with the first.
    DeleteRecord(u64, u64),
}

/// Whether two observed address pairs are exactly equal: missing
/// versus missing counts as equal, present but different as unequal.
pub open spec fn same_addresses(a: AddressesModel, b: AddressesModel) -> bool {
    a.v4 == b.v4 && a.v6 == b.v6
}

/// A domain's fields after the observed addresses are written into
/// it: an absent address clears the field and disables the family,
/// a present one sets the field and enables it; all else is kept.
pub open spec fn domain_with_addresses(d: DomainModel, a: AddressesModel) -> DomainModel {
    DomainModel {
        ipv4: a.v4 is Some,
        ipv6: a.v6 is Some,
        ipv4_address: a.v4,
        ipv6_address: a.v6,
        ..d
    }
}

/// The text shown for an optional address: the address itself, or
/// nothing where none was observed.
pub fn or_empty(option: &Option<String>) -> (r: String)
    ensures
        match *option {
            Some(ref s) => r@ == s@,
            None => r@ == Seq::<char>::empty(),
        },
{
    match option {
        Some(s) => s.clone(),
        None => String::new(),
    }
}

/// Compares two optional address texts by value.
fn opt_text_eq(a: &Option<String>, b: &Option<String>) -> (r: bool)
    ensures
        r == (a.deep_view() == b.deep_view()),
{
    match (a, b) {
        (None, None) => true,
        (Some(x), Some(y)) => x.eq(y),
        _ => false,
    }
}

/// Clones an optional address text, keeping its value.
fn clone_opt_text(o: &Option<String>) -> (r: Option<String>)
    ensures
        r.deep_view() == o.deep_view(),
{
    match o {
        Some(s) => Some(s.clone()),
        None => None,
    }
}

/// Whether a refresh must write at all: true exactly when the
/// detected pair differs from the resolved (published) pair in at
/// least one family.
pub fn needs_refresh(detected: &Addresses, resolved: &Addresses) -> (r: bool)
    ensures
        r == !same_addresses(detected@, resolved@),
{
    !(opt_text_eq(&detected.v4, &resolved.v4) && opt_text_eq(&detected.v6, &resolved.v6))
}

/// The refresh decision: every call a refresh of `current` must
/// issue once the host's addresses are `detected` and the domain
/// resolves to `resolved`. Equal pairs demand no call at all;
/// unequal pairs demand exactly one domain update carrying the new
/// addresses and the enable flags derived from their presence.
pub fn refresh_plan(current: &DomainDTO, detected: &Addresses, resolved: &Addresses) -> (r: Vec<
    DirectoryCall,
>)
    ensures
        same_addresses(detected@, resolved@) ==> r@.len() == 0,
        !same_addresses(detected@, resolved@) ==> {
            &&& r@.len() == 1
            &&& r@[0] matches DirectoryCall::UpdateDomain(d) && d@ == domain_with_addresses(
                current@,
                detected@,
            )
        },
{
    let mut calls: Vec<DirectoryCall> = Vec::new();
    if needs_refresh(detected, resolved) {
        let updated = DomainDTO {
            id: current.id,
            name: current.name.clone(),
            unicode_name: current.unicode_name.clone(),
            token: clone_opt_text(&current.token),
            state: current.state.clone(),
            group: current.group.clone(),
            ipv4_address: clone_opt_text(&detected.v4),
            ipv6_address: clone_opt_text(&detected.v6),
            ttl: current.ttl,
            ipv4: detected.v4.is_some(),
            ipv6: detected.v6.is_some(),
            ipv4_wildcard_alias: current.ipv4_wildcard_alias,
            ipv6_wildcard_alias: current.ipv6_wildcard_alias,
            created_on: clone_opt_text(&current.created_on),
            updated_on: clone_opt_text(&current.updated_on),
        };
        calls.push(DirectoryCall::UpdateDomain(updated));
    }
    calls
}

/// Whether this record is a free-text record whose key is exactly
/// `name` (case-sensitive, no normalization).
pub open spec fn txt_named(r: RecordModel, name: Seq<char>) -> bool {
    r matches RecordModel::Txt { node_name, .. } && node_name == name
}

/// Whether a record list holds any free-text record keyed `name`.
pub open spec fn has_txt_named(records: Seq<RecordDTO>, name: Seq<char>) -> bool {
    exists|i: int| 0 <= i < records.len() && txt_named((#[trigger] records[i])@, name)
}

/// Scans a record list for the first free-text record whose key is
/// exactly `name`: the record reconciliation treats as authoritative
/// when several share a key.
pub fn find_txt_record(records: &Vec<RecordDTO>, name: &str) -> (r: Option<usize>)
    ensures
        match r {
            Some(i) => {
                &&& i < records@.len()
                &&& txt_named(records@[i as int]@, name@)
                &&& forall|j: int| 0 <= j < i ==> !txt_named((#[trigger] records@[j])@, name@)
            },
            None => !has_txt_named(records@, name@),
        },
{
    let name_owned = String::from_str(name);
    let mut i: usize = 0;
    while i < records.len()
        invariant
            i <= records@.len(),
            name_owned@ == name@,
            forall|j: int| 0 <= j < i ==> !txt_named((#[trigger] records@[j])@, name@),
        decreases records@.len() - i,
    {
        let matched = match &records[i] {
            RecordDTO::TxtRecord { node_name, .. } => node_name.eq(&name_owned),
            _ => false,
        };
        if matched {
            return Some(i);
        }
        i = i + 1;
    }
    None
}

/// Whether position `i` holds the first free-text record keyed
/// `name` in the list; true of at most one position.
pub open spec fn first_txt_named_at(records: Seq<RecordDTO>, name: Seq<char>, i: int) -> bool {
    &&& 0 <= i < records.len()
    &&& txt_named(records[i]@, name)
    &&& forall|j: int| 0 <= j < i ==> !txt_named((#[trigger] records[j])@, name)
}

/// The upsert decision: the one call an upsert of the free-text
/// record keyed `name` must issue against the domain with identity
/// `domain_id`, whose current records are `records`. Where no
/// free-text record carries the key, it is a create of a fresh
/// record without identity; where one does, it is an update that
/// targets the identity of the first such record, carrying the new
/// payload and time-to-live.
pub fn upsert_plan(
    domain_id: u64,
    records: &Vec<RecordDTO>,
    name: &str,
    value: &str,
    ttl: u64,
) -> (r: DirectoryCall)
    requires
        forall|i: int|
            first_txt_named_at(records@, name@, i) ==> record_id(
                (#[trigger] records@[i])@,
            ) is Some,
    ensures
        !has_txt_named(records@, name@) ==> (r matches DirectoryCall::CreateRecord(d, rec) && d
            == domain_id && rec@ == fresh_txt_model(name@, value@, ttl, None)),
        has_txt_named(records@, name@) ==> exists|i: int|
            {
                &&& #[trigger] first_txt_named_at(records@, name@, i)
                &&& r matches DirectoryCall::UpdateRecord(d, rec) && d == domain_id && rec@
                    == fresh_txt_model(name@, value@, ttl, record_id(records@[i]@))
            },
{
    match find_txt_record(records, name) {
        None => DirectoryCall::CreateRecord(domain_id, RecordDTO::txt_record(name, value, ttl, None)),
        Some(i) => {
            proof {
                assert(first_txt_named_at(records@, name@, i as int));
            }
            let rid = records[i].id().unwrap();
            let r = DirectoryCall::UpdateRecord(
                domain_id,
                RecordDTO::txt_record(name, value, ttl, Some(rid)),
            );
            proof {
                assert(has_txt_named(records@, name@)) by {
                    assert(txt_named(records@[i as int]@, name@));
                }
            }
            r
        },
    }
}

/// The delete decision: the call a deletion of the free-text record
/// keyed `name` must issue, or nothing where no record carries the
/// key — deleting an absent key is a not-found error to report, not
/// a silent success, and demands no remote call.
pub fn delete_plan(domain_id: u64, records: &Vec<RecordDTO>, name: &str) -> (r: Option<
    DirectoryCall,
>)
    requires
        forall|i: int|
            first_txt_named_at(records@, name@, i) ==> record_id(
                (#[trigger] records@[i])@,
            ) is Some,
    ensures
        r is None <==> !has_txt_named(records@, name@),
        has_txt_named(records@, name@) ==> exists|i: int|
            {
                &&& #[trigger] first_txt_named_at(records@, name@, i)
                &&& r matches Some(DirectoryCall::DeleteRecord(d, rid)) && d == domain_id && Some(
                    rid,
                ) == record_id(records@[i]@)
            },
{
    match find_txt_record(records, name) {
        None => None,
        Some(i) => {
            proof {
                assert(first_txt_named_at(records@, name@, i as int));
            }
            let rid = records[i].id().unwrap();
            proof {
                assert(has_txt_named(records@, name@)) by {
                    assert(txt_named(records@[i as int]@, name@));
                }
            }
            Some(DirectoryCall::DeleteRecord(domain_id, rid))
        },
    }
}

/// Selects the credential for the remote directory: an explicitly
/// supplied one wins over the one found in the process environment;
/// absence of both yields nothing, a configuration error the caller
/// reports before any reconciliation runs.
pub fn choose_api_key(explicit: Option<String>, environment: Option<String>) -> (r: Option<String>)
    ensures
        explicit is Some ==> r == explicit,
        explicit is None ==> r == environment,
{
    match explicit {
        Some(key) => Some(key),
        None => environment,
    }
}

/// Scans a domain list for the first domain whose name is exactly
/// `name`.
pub fn find_domain(domains: &Vec<DomainDTO>, name: &str) -> (r: Option<usize>)
    ensures
        match r {
            Some(i) => {
                &&& i < domains@.len()
                &&& domains@[i as int]@.name == name@
                &&& forall|j: int| 0 <= j < i ==> ((#[trigger] domains@[j])@).name != name@
            },
            None => forall|j: int|
                0 <= j < domains@.len() ==> ((#[trigger] domains@[j])@).name != name@,
        },
{
    let name_owned = String::from_str(name);
    let mut i: usize = 0;
    while i < domains.len()
        invariant
            i <= domains@.len(),
            name_owned@ == name@,
            forall|j: int| 0 <= j < i ==> ((#[trigger] domains@[j])@).name != name@,
        decreases domains@.len() - i,
    {
        if domains[i].name.eq(&name_owned) {
            return Some(i);
        }
        i = i + 1;
    }
    None
}

} // verus!
