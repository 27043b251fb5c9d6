use host_telemetry::db::{
    aggregate_capacity, host_uptime, latest_timestamp, list_all_hosts, network_capacity,
    ping_database,
};
use host_telemetry::types::{
    database_error, ApiError, Capacity, Error400, Error401, Error404, Error500, NumberInt,
    Performance, Uptime,
};

fn record(name: &str, created_at: i64, uptime: u32) -> Performance {
    Performance {
        name: name.to_string(),
        description: "a host".to_string(),
        physical_address: None,
        zt_ipaddress: "10.0.0.1".to_string(),
        created_at,
        uptime,
    }
}

#[test]
fn aggregate_empty_is_all_zero() {
    let c = aggregate_capacity(&Vec::new());
    assert_eq!(c, Capacity { total_hosts: 0, read_only: 0, source_chain: 0 });
}

#[test]
fn aggregate_mixed_counts_each_tier() {
    // The readings 0.4, 0.5, 0.9 and 1.0, as parts per ten thousand.
    let c = aggregate_capacity(&vec![4000, 5000, 9000, 10000]);
    assert_eq!(c, Capacity { total_hosts: 4, read_only: 3, source_chain: 2 });
}

#[test]
fn aggregate_boundary_read_only() {
    // Exactly 0.5 counts towards the read-only tier and not the other.
    let c = aggregate_capacity(&vec![5000]);
    assert_eq!(c, Capacity { total_hosts: 1, read_only: 1, source_chain: 0 });
}

#[test]
fn aggregate_boundary_source_chain() {
    // Exactly 0.9 counts towards both tiers.
    let c = aggregate_capacity(&vec![9000]);
    assert_eq!(c, Capacity { total_hosts: 1, read_only: 1, source_chain: 1 });
}

#[test]
fn aggregate_counts_are_monotone() {
    let c = aggregate_capacity(&vec![0, 2500, 5000, 7500, 9000, 9500, 10000, 12000]);
    assert_eq!(c.total_hosts, 8);
    assert!(c.source_chain <= c.read_only);
    assert!(c.read_only <= c.total_hosts);
}

#[test]
fn add_host_streams_one_reading_at_a_time() {
    let mut c = Capacity::new();
    c.add_host(4000);
    assert_eq!(c, Capacity { total_hosts: 1, read_only: 0, source_chain: 0 });
    c.add_host(5000);
    assert_eq!(c, Capacity { total_hosts: 2, read_only: 1, source_chain: 0 });
    c.add_host(9000);
    assert_eq!(c, Capacity { total_hosts: 3, read_only: 2, source_chain: 1 });
    c.add_host(10000);
    assert_eq!(c, Capacity { total_hosts: 4, read_only: 3, source_chain: 2 });
}

#[test]
fn host_uptime_finds_exact_name() {
    let records = vec![record("alpha", 1, 9500), record("beta", 2, 4000)];
    let name = "beta".to_string();
    assert_eq!(host_uptime(&name, &records), Some(Uptime { uptime: 4000 }));
}

#[test]
fn host_uptime_takes_first_match() {
    let records = vec![record("alpha", 1, 9500), record("alpha", 2, 100)];
    let name = "alpha".to_string();
    assert_eq!(host_uptime(&name, &records), Some(Uptime { uptime: 9500 }));
}

#[test]
fn host_uptime_absent_name_is_none() {
    let records = vec![record("alpha", 1, 9500), record("beta", 2, 4000)];
    let name = "gamma".to_string();
    assert_eq!(host_uptime(&name, &records), None);
}

#[test]
fn host_uptime_empty_records_is_none() {
    let name = "alpha".to_string();
    assert_eq!(host_uptime(&name, &Vec::new()), None);
}

#[test]
fn ping_answers_fixed_message() {
    let r = ping_database(Ok(()));
    assert_eq!(r.unwrap(), "Connected to db.");
}

#[test]
fn ping_failure_is_database_error() {
    let r = ping_database(Err("connection refused".to_string()));
    let e = r.unwrap_err();
    assert!(matches!(&e, ApiError::Database(d) if d.info == "connection refused"));
    assert_eq!(e.status_code(), 500);
}

#[test]
fn network_capacity_tallies_fetched_readings() {
    let r = network_capacity(Ok(vec![4000, 5000, 9000, 10000]));
    assert_eq!(r.unwrap(), Capacity { total_hosts: 4, read_only: 3, source_chain: 2 });
}

#[test]
fn network_capacity_failure_is_database_never_partial() {
    let r = network_capacity(Err("cursor dropped".to_string()));
    match r {
        Ok(_) => panic!("a failed read must not yield a capacity"),
        Err(e) => {
            assert!(matches!(&e, ApiError::Database(d) if d.info == "cursor dropped"));
            assert_eq!(e.status_code(), 500);
        }
    }
}

#[test]
fn status_codes_cover_the_taxonomy() {
    assert_eq!(ApiError::BadRequest(Error400::Message("bad shape")).status_code(), 400);
    assert_eq!(ApiError::InvalidPayload(Error400::Info("bad body".to_string())).status_code(), 400);
    assert_eq!(ApiError::MissingSignature(Error401::Message("no signature")).status_code(), 401);
    assert_eq!(
        ApiError::InvalidSignature(Error401::Info("bad signature".to_string())).status_code(),
        401
    );
    assert_eq!(ApiError::MissingRecord(Error404::Message("no such host")).status_code(), 404);
    assert_eq!(
        ApiError::Database(Error500 { info: "timeout".to_string() }).status_code(),
        500
    );
}

#[test]
fn database_error_keeps_the_diagnostic() {
    let e = database_error("replica set down".to_string());
    assert!(matches!(&e, ApiError::Database(d) if d.info == "replica set down"));
}

#[test]
fn latest_timestamp_of_no_records_is_none() {
    assert_eq!(latest_timestamp(&Vec::new()), None);
}

#[test]
fn latest_timestamp_picks_the_newest() {
    let records = vec![record("a", 10, 0), record("b", 30, 0), record("c", 20, 0)];
    assert_eq!(latest_timestamp(&records), Some(30));
}

#[test]
fn list_all_hosts_keeps_matching_records_in_order() {
    let records = vec![
        record("a", 10, 100),
        record("b", 30, 200),
        record("c", 30, 300),
        record("d", 20, 400),
    ];
    let r = list_all_hosts(Ok(records), 30).unwrap();
    assert_eq!(r.len(), 2);
    assert_eq!(r[0].name, "b");
    assert_eq!(r[0].uptime, 200);
    assert_eq!(r[1].name, "c");
    assert_eq!(r[1].uptime, 300);
}

#[test]
fn list_all_hosts_with_no_match_is_empty() {
    let records = vec![record("a", 10, 100)];
    let r = list_all_hosts(Ok(records), 99).unwrap();
    assert!(r.is_empty());
}

#[test]
fn list_all_hosts_failure_is_database_error() {
    let r = list_all_hosts(Err("no primary".to_string()), 30);
    let e = r.unwrap_err();
    assert!(matches!(&e, ApiError::Database(d) if d.info == "no primary"));
    assert_eq!(e.status_code(), 500);
}

#[test]
fn number_int_defaults_to_zero() {
    let n = NumberInt::default();
    assert_eq!(n, NumberInt { number_int: 0 });
}
