use vstd::prelude::*;

verus! {

/// One managed DNS zone as the remote directory reports it.
/// The identity is assigned remotely and is absent before creation;
/// every mutation of a domain requires it.
#[derive(Debug)]
pub struct DomainDTO {
    pub id: Option<u64>,
    pub name: String,
    pub unicode_name: String,
    pub token: Option<String>,
    pub state: String,
    pub group: String,
    pub ipv4_address: Option<String>,
    pub ipv6_address: Option<String>,
    pub ttl: u64,
    pub ipv4: bool,
    pub ipv6: bool,
    pub ipv4_wildcard_alias: bool,
    pub ipv6_wildcard_alias: bool,
    pub created_on: Option<String>,
    pub updated_on: Option<String>,
}

/// Mathematical value of a `DomainDTO`: every text field as a
/// character sequence, everything else as itself.
pub ghost struct DomainModel {
    pub id: Option<u64>,
    pub name: Seq<char>,
    pub unicode_name: Seq<char>,
    pub token: Option<Seq<char>>,
    pub state: Seq<char>,
    pub group: Seq<char>,
    pub ipv4_address: Option<Seq<char>>,
    pub ipv6_address: Option<Seq<char>>,
    pub ttl: u64,
    pub ipv4: bool,
    pub ipv6: bool,
    pub ipv4_wildcard_alias: bool,
    pub ipv6_wildcard_alias: bool,
    pub created_on: Option<Seq<char>>,
    pub updated_on: Option<Seq<char>>,
}

impl View for DomainDTO {
    type V = DomainModel;

    open spec fn view(&self) -> DomainModel {
        DomainModel {
            id: self.id,
            name: self.name@,
            unicode_name: self.unicode_name@,
            token: self.token.deep_view(),
            state: self.state@,
            group: self.group@,
            ipv4_address: self.ipv4_address.deep_view(),
            ipv6_address: self.ipv6_address.deep_view(),
            ttl: self.ttl,
            ipv4: self.ipv4,
            ipv6: self.ipv6,
            ipv4_wildcard_alias: self.ipv4_wildcard_alias,
            ipv6_wildcard_alias: self.ipv6_wildcard_alias,
            created_on: self.created_on.deep_view(),
            updated_on: self.updated_on.deep_view(),
        }
    }
}

/// The remote directory's answer to "list domains".
pub struct DomainsDTO {
    pub status_code: u32,
    pub domains: Vec<DomainDTO>,
}

/// One DNS record: a closed union of the three kinds this system
/// reads or writes. All kinds share the remote identity (absent until
/// the record is created remotely), the owning domain reference, the
/// logical key (`node_name`), a time-to-live, an active flag, and a
/// free-text status the remote side fills on read. Only the free-text
/// (TXT) kind is ever created, updated or deleted by this system.
#[derive(Debug)]
pub enum RecordDTO {
    TxtRecord {
        id: Option<u64>,
        domain_id: Option<u64>,
        domain_name: Option<String>,
        node_name: String,
        hostname: Option<String>,
        ttl: u64,
        state: bool,
        content: Option<String>,
        updated_on: Option<String>,
        text_data: String,
    },
    SoaRecord {
        id: Option<u64>,
        domain_id: Option<u64>,
        domain_name: Option<String>,
        node_name: String,
        hostname: Option<String>,
        ttl: u64,
        state: bool,
        content: Option<String>,
        updated_on: String,
        master_name: String,
        responsible_name: String,
        refresh: u64,
        retry: u64,
        expire: u64,
        negative_ttl: u64,
    },
    ARecord {
        id: Option<u64>,
        domain_id: Option<u64>,
        domain_name: Option<String>,
        node_name: String,
        hostname: Option<String>,
        ttl: u64,
        state: bool,
        content: Option<String>,
        updated_on: Option<String>,
        group: String,
    },
}

/// Mathematical value of a `RecordDTO`.
pub ghost enum RecordModel {
    Txt {
        id: Option<u64>,
        domain_id: Option<u64>,
        domain_name: Option<Seq<char>>,
        node_name: Seq<char>,
        hostname: Option<Seq<char>>,
        ttl: u64,
        state: bool,
        content: Option<Seq<char>>,
        updated_on: Option<Seq<char>>,
        text_data: Seq<char>,
    },
    Soa {
        id: Option<u64>,
        domain_id: Option<u64>,
        domain_name: Option<Seq<char>>,
        node_name: Seq<char>,
        hostname: Option<Seq<char>>,
        ttl: u64,
        state: bool,
        content: Option<Seq<char>>,
        updated_on: Seq<char>,
        master_name: Seq<char>,
        responsible_name: Seq<char>,
        refresh: u64,
        retry: u64,
        expire: u64,
        negative_ttl: u64,
    },
    A {
        id: Option<u64>,
        domain_id: Option<u64>,
        domain_name: Option<Seq<char>>,
        node_name: Seq<char>,
        hostname: Option<Seq<char>>,
        ttl: u64,
        state: bool,
        content: Option<Seq<char>>,
        updated_on: Option<Seq<char>>,
        group: Seq<char>,
    },
}

impl View for RecordDTO {
    type V = RecordModel;

    open spec fn view(&self) -> RecordModel {
        match *self {
            RecordDTO::TxtRecord {
                ref id,
                ref domain_id,
                ref domain_name,
                ref node_name,
                ref hostname,
                ref ttl,
                ref state,
                ref content,
                ref updated_on,
                ref text_data,
            } => RecordModel::Txt {
                id: *id,
                domain_id: *domain_id,
                domain_name: domain_name.deep_view(),
                node_name: node_name@,
                hostname: hostname.deep_view(),
                ttl: *ttl,
                state: *state,
                content: content.deep_view(),
                updated_on: updated_on.deep_view(),
                text_data: text_data@,
            },
            RecordDTO::SoaRecord {
                ref id,
                ref domain_id,
                ref domain_name,
                ref node_name,
                ref hostname,
                ref ttl,
                ref state,
                ref content,
                ref updated_on,
                ref master_name,
                ref responsible_name,
                ref refresh,
                ref retry,
                ref expire,
                ref negative_ttl,
            } => RecordModel::Soa {
                id: *id,
                domain_id: *domain_id,
                domain_name: domain_name.deep_view(),
                node_name: node_name@,
                hostname: hostname.deep_view(),
                ttl: *ttl,
                state: *state,
                content: content.deep_view(),
                updated_on: updated_on@,
                master_name: master_name@,
                responsible_name: responsible_name@,
                refresh: *refresh,
                retry: *retry,
                expire: *expire,
                negative_ttl: *negative_ttl,
            },
            RecordDTO::ARecord {
                ref id,
                ref domain_id,
                ref domain_name,
                ref node_name,
                ref hostname,
                ref ttl,
                ref state,
                ref content,
                ref updated_on,
                ref group,
            } => RecordModel::A {
                id: *id,
                domain_id: *domain_id,
                domain_name: domain_name.deep_view(),
                node_name: node_name@,
                hostname: hostname.deep_view(),
                ttl: *ttl,
                state: *state,
                content: content.deep_view(),
                updated_on: updated_on.deep_view(),
                group: group@,
            },
        }
    }
}

/// The remote identity a record carries, whichever kind it is.
pub open spec fn record_id(r: RecordModel) -> Option<u64> {
    match r {
        RecordModel::Txt { id, .. } => id,
        RecordModel::Soa { id, .. } => id,
        RecordModel::A { id, .. } => id,
    }
}

/// The free-text record this system constructs before a create or an
/// update: key, payload and time-to-live as given, identity as given
/// (absent for a record to be created, the existing remote identity
/// for an update), active, and every remote-filled field left empty.
pub open spec fn fresh_txt_model(
    node_name: Seq<char>,
    text_data: Seq<char>,
    ttl: u64,
    maybe_id: Option<u64>,
) -> RecordModel {
    RecordModel::Txt {
        id: maybe_id,
        domain_id: None,
        domain_name: None,
        node_name: node_name,
        hostname: None,
        ttl: ttl,
        state: true,
        content: None,
        updated_on: None,
        text_data: text_data,
    }
}

impl RecordDTO {
    /// Constructs a free-text record in one of its two modes: with
    /// `maybe_id` absent it is a record to be created (the remote
    /// system assigns the identity); with `maybe_id` present it
    /// targets that existing remote identity for an update.
    pub fn txt_record(node_name: &str, text_data: &str, ttl: u64, maybe_id: Option<u64>) -> (r:
        RecordDTO)
        ensures
            r@ == fresh_txt_model(node_name@, text_data@, ttl, maybe_id),
    {
        RecordDTO::TxtRecord {
            id: maybe_id,
            domain_id: None,
            domain_name: None,
            node_name: String::from_str(node_name),
            hostname: None,
            ttl,
            state: true,
            content: None,
            updated_on: None,
            text_data: String::from_str(text_data),
        }
    }

    /// The remote identity this record carries, absent for a record
    /// not yet created remotely.
    pub fn id(&self) -> (r: Option<u64>)
        ensures
            r == record_id(self@),
    {
        match self {
            RecordDTO::ARecord { id, .. } => *id,
            RecordDTO::SoaRecord { id, .. } => *id,
            RecordDTO::TxtRecord { id, .. } => *id,
        }
    }
}

/// The remote directory's answer to "list records of a domain".
pub struct RecordsDTO {
    pub status_code: u32,
    pub dns_records: Vec<RecordDTO>,
}

} // verus!
