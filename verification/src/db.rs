//! The compute half of the document-store gateway.
//!
//! The store itself is reached by the surrounding service, which runs the
//! queries and hands this module their outcomes as plain values: a record,
//! a list of records, a list of uptime readings, or the diagnostic of a
//! failed read. Everything that decides or reshapes stands here, verified:
//! the liveness answer, the by-name lookup, the capacity tally and the
//! timestamp listing, with every store failure classified as a `Database`
//! error.

use vstd::prelude::*;

use crate::types::{
    database_error, count_at_least, ApiError, Capacity, Performance, Uptime, READ_ONLY_THRESHOLD,
    SOURCE_CHAIN_THRESHOLD,
};

verus! {

/// Outcome of the liveness check, given the result of the store's ping
/// command: the fixed connection message on success, a `Database` error on
/// any connectivity problem — surfaced at once, never retried.
pub fn ping_database(outcome: Result<(), String>) -> (r: Result<String, ApiError>)
    ensures
        outcome is Ok ==> r is Ok && r->Ok_0@ == "Connected to db."@,
        outcome is Err ==> r is Err && r->Err_0 is Database && r->Err_0->Database_0.info
            == outcome->Err_0,
{
    match outcome {
        Ok(()) => Ok("Connected to db.".to_owned()),
        Err(info) => Err(database_error(info)),
    }
}

/// The uptime of the first record bearing exactly the given name, or
/// absence when no record does.
pub open spec fn spec_host_uptime(records: Seq<Performance>, name: Seq<char>) -> Option<u32>
    decreases records.len(),
{
    if records.len() == 0 {
        None
    } else if records[0].name@ == name {
        Some(records[0].uptime)
    } else {
        spec_host_uptime(records.drop_first(), name)
    }
}

/// Looking up a name that no record bears yields absence — not an error.
pub proof fn lemma_absent_host_is_none(records: Seq<Performance>, name: Seq<char>)
    requires
        forall|i: int| 0 <= i < records.len() ==> records[i].name@ != name,
    ensures
        spec_host_uptime(records, name) is None,
    decreases records.len(),
{
    if records.len() > 0 {
        assert(forall|i: int|
            0 <= i < records.drop_first().len() ==> records.drop_first()[i].name@ != name);
        lemma_absent_host_is_none(records.drop_first(), name);
    }
}

/// Uptime of the host with exactly the given name among the performance
/// records: the first matching record's reading, or absence — not an
/// error — when no record matches.
pub fn host_uptime(name: &String, records: &Vec<Performance>) -> (r: Option<Uptime>)
    ensures
        r is Some <==> spec_host_uptime(records@, name@) is Some,
        r is Some ==> r->0.uptime == spec_host_uptime(records@, name@)->0,
{
    let n = records.len();
    let mut i: usize = 0;
    proof {
        assert(records@.skip(0) =~= records@);
    }
    while i < n
        invariant
            i <= n,
            n == records@.len(),
            spec_host_uptime(records@, name@) == spec_host_uptime(
                records@.skip(i as int),
                name@,
            ),
        decreases n - i,
    {
        if records[i].name == *name {
            proof {
                assert(records@.skip(i as int)[0] == records@[i as int]);
            }
            return Some(Uptime { uptime: records[i].uptime });
        }
        proof {
            assert(records@.skip(i as int)[0] == records@[i as int]);
            assert(records@.skip(i as int).drop_first() =~= records@.skip(i as int + 1));
        }
        i = i + 1;
    }
    proof {
        assert(records@.skip(n as int).len() == 0);
    }
    None
}

/// Tally every uptime reading of the sequence into a fresh `Capacity`:
/// a single pass, front to back, each reading folded in once.
pub fn aggregate_capacity(uptimes: &Vec<u32>) -> (c: Capacity)
    requires
        uptimes@.len() <= u16::MAX,
    ensures
        c.total_hosts == uptimes@.len(),
        c.read_only == count_at_least(uptimes@, READ_ONLY_THRESHOLD),
        c.source_chain == count_at_least(uptimes@, SOURCE_CHAIN_THRESHOLD),
        c.wf(),
{
    let mut c = Capacity::new();
    let n = uptimes.len();
    let mut i: usize = 0;
    while i < n
        invariant
            i <= n,
            n == uptimes@.len(),
            n <= u16::MAX,
            c.total_hosts == i,
            c.read_only == count_at_least(uptimes@.take(i as int), READ_ONLY_THRESHOLD),
            c.source_chain == count_at_least(uptimes@.take(i as int), SOURCE_CHAIN_THRESHOLD),
            c.wf(),
        decreases n - i,
    {
        proof {
            assert(uptimes@.take(i as int + 1).drop_last() =~= uptimes@.take(i as int));
            assert(uptimes@.take(i as int + 1).last() == uptimes@[i as int]);
        }
        c.add_host(uptimes[i]);
        i = i + 1;
    }
    proof {
        assert(uptimes@.take(n as int) =~= uptimes@);
    }
    c
}

/// Network capacity from the outcome of reading every record's uptime: on
/// success the exact threshold tally over all readings; a store failure
/// surfaces as a `Database` error and never as a partial tally.
pub fn network_capacity(fetch: Result<Vec<u32>, String>) -> (r: Result<Capacity, ApiError>)
    requires
        fetch is Ok ==> fetch->Ok_0@.len() <= u16::MAX,
    ensures
        fetch is Ok ==> r is Ok && r->Ok_0.total_hosts == fetch->Ok_0@.len()
            && r->Ok_0.read_only == count_at_least(fetch->Ok_0@, READ_ONLY_THRESHOLD)
            && r->Ok_0.source_chain == count_at_least(fetch->Ok_0@, SOURCE_CHAIN_THRESHOLD),
        fetch is Err ==> r is Err && r->Err_0 is Database && r->Err_0->Database_0.info
            == fetch->Err_0,
{
    match fetch {
        Ok(uptimes) => Ok(aggregate_capacity(&uptimes)),
        Err(info) => Err(database_error(info)),
    }
}

/// Some timestamp of the records that every record's timestamp is at most.
pub open spec fn is_latest(records: Seq<Performance>, t: i64) -> bool {
    (exists|i: int| 0 <= i < records.len() && records[i].created_at == t) && (forall|i: int|
        0 <= i < records.len() ==> records[i].created_at <= t)
}

/// The newest creation timestamp among the records, or absence when there
/// are none. The listing endpoint pairs this with `list_all_hosts` rather
/// than relying on a fixed timestamp constant.
pub fn latest_timestamp(records: &Vec<Performance>) -> (r: Option<i64>)
    ensures
        r is Some <==> records@.len() > 0,
        r is Some ==> is_latest(records@, r->0),
{
    if records.len() == 0 {
        return None;
    }
    let mut best: i64 = records[0].created_at;
    let mut i: usize = 1;
    while i < records.len()
        invariant
            1 <= i <= records@.len(),
            exists|k: int| 0 <= k < i && records@[k].created_at == best,
            forall|k: int| 0 <= k < i ==> records@[k].created_at <= best,
        decreases records@.len() - i,
    {
        if records[i].created_at > best {
            best = records[i].created_at;
        }
        i = i + 1;
    }
    Some(best)
}

/// The subsequence of records whose creation timestamp equals `timestamp`,
/// in their stored order.
pub open spec fn spec_hosts_at(records: Seq<Performance>, timestamp: i64) -> Seq<Performance>
    decreases records.len(),
{
    if records.len() == 0 {
        Seq::empty()
    } else if records.last().created_at == timestamp {
        spec_hosts_at(records.drop_last(), timestamp).push(records.last())
    } else {
        spec_hosts_at(records.drop_last(), timestamp)
    }
}

/// The records sharing the given creation timestamp, from the outcome of
/// reading the whole collection: on success exactly the matching records
/// in stored order; a store failure surfaces as a `Database` error.
pub fn list_all_hosts(fetch: Result<Vec<Performance>, String>, timestamp: i64) -> (r: Result<
    Vec<Performance>,
    ApiError,
>)
    ensures
        fetch is Ok ==> r is Ok && r->Ok_0@ == spec_hosts_at(fetch->Ok_0@, timestamp),
        fetch is Err ==> r is Err && r->Err_0 is Database && r->Err_0->Database_0.info
            == fetch->Err_0,
{
    match fetch {
        Ok(mut records) => {
            let ghost all = records@;
            let mut out: Vec<Performance> = Vec::new();
            proof {
                assert(all.skip(0) =~= all);
                assert(all.take(0) =~= Seq::<Performance>::empty());
            }
            while records.len() > 0
                invariant
                    records@.len() <= all.len(),
                    records@ == all.skip(all.len() - records@.len()),
                    out@ == spec_hosts_at(all.take(all.len() - records@.len()), timestamp),
                decreases records@.len(),
            {
                let ghost k: int = all.len() - records@.len();
                proof {
                    assert(all.skip(k)[0] == all[k]);
                }
                let first = records.remove(0);
                proof {
                    assert(first == all[k]);
                    assert(all.skip(k).remove(0) =~= all.skip(k + 1));
                    assert(all.len() - records@.len() == k + 1);
                    assert(all.take(k + 1).drop_last() =~= all.take(k));
                    assert(all.take(k + 1).last() == all[k]);
                }
                if first.created_at == timestamp {
                    out.push(first);
                }
            }
            proof {
                assert(all.take(all.len() as int) =~= all);
            }
            Ok(out)
        },
        Err(info) => Err(database_error(info)),
    }
}

} // verus!
