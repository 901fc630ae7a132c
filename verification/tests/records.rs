use dynupdater::dynu::RecordDTO;
use dynupdater::netutils::{collect_addresses, Addresses, ProbedAddress, IP};

#[test]
fn txt_record_for_creation_has_no_identity() {
    let rec = RecordDTO::txt_record("test", "test-value", 120, None);
    assert_eq!(rec.id(), None);
    match rec {
        RecordDTO::TxtRecord {
            id,
            domain_id,
            domain_name,
            node_name,
            hostname,
            ttl,
            state,
            content,
            updated_on,
            text_data,
        } => {
            assert_eq!(id, None);
            assert_eq!(domain_id, None);
            assert_eq!(domain_name, None);
            assert_eq!(node_name, "test");
            assert_eq!(hostname, None);
            assert_eq!(ttl, 120);
            assert!(state);
            assert_eq!(content, None);
            assert_eq!(updated_on, None);
            assert_eq!(text_data, "test-value");
        }
        other => panic!("expected a free-text record, got {:?}", other),
    }
}

#[test]
fn txt_record_for_update_carries_the_identity() {
    let rec = RecordDTO::txt_record("test", "test-value", 120, Some(10926510));
    assert_eq!(rec.id(), Some(10926510));
}

#[test]
fn record_id_is_read_from_every_kind() {
    let a = RecordDTO::ARecord {
        id: Some(1),
        domain_id: None,
        domain_name: None,
        node_name: "n".to_string(),
        hostname: None,
        ttl: 60,
        state: true,
        content: None,
        updated_on: None,
        group: "".to_string(),
    };
    let soa = RecordDTO::SoaRecord {
        id: None,
        domain_id: None,
        domain_name: None,
        node_name: "n".to_string(),
        hostname: None,
        ttl: 60,
        state: true,
        content: None,
        updated_on: "2020-01-01".to_string(),
        master_name: "ns1.example.org".to_string(),
        responsible_name: "hostmaster.example.org".to_string(),
        refresh: 1,
        retry: 2,
        expire: 3,
        negative_ttl: 4,
    };
    assert_eq!(a.id(), Some(1));
    assert_eq!(soa.id(), None);
}

fn probed(family: IP, text: &str) -> ProbedAddress {
    ProbedAddress { family, text: text.to_string() }
}

#[test]
fn collect_addresses_takes_first_of_each_family() {
    let entries = vec![
        probed(IP::V6, "2001:db8::1"),
        probed(IP::V4, "203.0.113.1"),
        probed(IP::V4, "203.0.113.2"),
        probed(IP::V6, "2001:db8::2"),
    ];
    let Addresses { v4, v6 } = collect_addresses(&entries);
    assert_eq!(v4, Some("203.0.113.1".to_string()));
    assert_eq!(v6, Some("2001:db8::1".to_string()));
}

#[test]
fn collect_addresses_of_empty_lookup_is_all_absent() {
    let Addresses { v4, v6 } = collect_addresses(&Vec::new());
    assert_eq!(v4, None);
    assert_eq!(v6, None);
}

#[test]
fn collect_addresses_of_single_family() {
    let entries = vec![probed(IP::V4, "203.0.113.1")];
    let Addresses { v4, v6 } = collect_addresses(&entries);
    assert_eq!(v4, Some("203.0.113.1".to_string()));
    assert_eq!(v6, None);
}
