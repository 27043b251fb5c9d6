//! Payload and record types of the telemetry service, and the error
//! taxonomy its endpoints answer with.
//!
//! Uptime readings are fractions of an observation interval. Upstream they
//! travel as floating-point values in `[0, 1]`; this crate holds a reading
//! as parts per ten thousand of the interval, so `5000` stands for one half
//! and `9000` for nine tenths. No upper bound is enforced: a reading past
//! ten thousand is tallied like any other large value.

use vstd::prelude::*;

verus! {

/// Readings at or above this mark count towards the read-only tier.
pub const READ_ONLY_THRESHOLD: u32 = 5000;

/// Readings at or above this mark count towards the source-chain tier.
pub const SOURCE_CHAIN_THRESHOLD: u32 = 9000;

/// How many of the given uptime readings are at or above `threshold`.
pub open spec fn count_at_least(values: Seq<u32>, threshold: u32) -> nat
    decreases values.len(),
{
    if values.len() == 0 {
        0
    } else {
        count_at_least(values.drop_last(), threshold) + (if values.last() >= threshold {
            1nat
        } else {
            0nat
        })
    }
}

/// Counting is monotone in the threshold and bounded by the length.
proof fn lemma_count_at_least_bounds(values: Seq<u32>, lo: u32, hi: u32)
    requires
        lo <= hi,
    ensures
        count_at_least(values, hi) <= count_at_least(values, lo),
        count_at_least(values, lo) <= values.len(),
    decreases values.len(),
{
    if values.len() > 0 {
        lemma_count_at_least_bounds(values.drop_last(), lo, hi);
    }
}

/// Threshold monotonicity: over every sequence of uptime readings, the
/// source-chain count never exceeds the read-only count, and the read-only
/// count never exceeds the number of readings.
pub proof fn lemma_capacity_monotonic(values: Seq<u32>)
    ensures
        count_at_least(values, SOURCE_CHAIN_THRESHOLD) <= count_at_least(
            values,
            READ_ONLY_THRESHOLD,
        ),
        count_at_least(values, READ_ONLY_THRESHOLD) <= values.len(),
{
    lemma_count_at_least_bounds(values, READ_ONLY_THRESHOLD, SOURCE_CHAIN_THRESHOLD);
}

/// Network-wide capacity tally: all hosts, hosts fit for read-only serving,
/// hosts fit for hosting a source chain.
#[derive(Clone, Copy, PartialEq, Eq, Structural, Debug)]
pub struct Capacity {
    pub total_hosts: u16,
    pub read_only: u16,
    pub source_chain: u16,
}

impl Capacity {
    /// The counts respect the tiering: every source-chain-capable host is
    /// read-only-capable, and every host counted is a host.
    pub open spec fn wf(self) -> bool {
        self.source_chain <= self.read_only && self.read_only <= self.total_hosts
    }

    /// The all-zero tally, the starting point of every aggregation.
    pub fn new() -> (c: Capacity)
        ensures
            c.total_hosts == 0,
            c.read_only == 0,
            c.source_chain == 0,
            c.wf(),
    {
        Capacity { total_hosts: 0, read_only: 0, source_chain: 0 }
    }

    /// Fold one host's uptime reading into the tally: the host always
    /// counts, and it counts towards each tier whose threshold the reading
    /// meets.
    pub fn add_host(&mut self, uptime: u32)
        requires
            old(self).total_hosts < u16::MAX,
            old(self).wf(),
        ensures
            final(self).total_hosts == old(self).total_hosts + 1,
            final(self).read_only == old(self).read_only + (if uptime >= READ_ONLY_THRESHOLD {
                1int
            } else {
                0int
            }),
            final(self).source_chain == old(self).source_chain + (
            if uptime >= SOURCE_CHAIN_THRESHOLD {
                1int
            } else {
                0int
            }),
            final(self).wf(),
    {
        self.total_hosts = self.total_hosts + 1;
        if uptime >= READ_ONLY_THRESHOLD {
            self.read_only = self.read_only + 1;
        }
        if uptime >= SOURCE_CHAIN_THRESHOLD {
            self.source_chain = self.source_chain + 1;
        }
    }
}

/// Body of an answer in the bad-request family: a free-form diagnostic or
/// a fixed message, chosen by the caller based on what is safe to expose.
#[derive(Debug)]
pub enum Error400 {
    Info(String),
    Message(&'static str),
}

/// Body of an answer in the unauthorized family.
#[derive(Debug)]
pub enum Error401 {
    Info(String),
    Message(&'static str),
}

/// Body of an answer in the not-found family.
#[derive(Debug)]
pub enum Error404 {
    Info(String),
    Message(&'static str),
}

/// Body of a server-side failure answer: the diagnostic of an underlying
/// store failure.
#[derive(Debug)]
pub struct Error500 {
    pub info: String,
}

/// The fixed error taxonomy of the service; every failed request resolves
/// to exactly one of these categories.
#[derive(Debug)]
pub enum ApiError {
    BadRequest(Error400),
    Database(Error500),
    InvalidPayload(Error400),
    MissingRecord(Error404),
    MissingSignature(Error401),
    InvalidSignature(Error401),
}

impl ApiError {
    /// The HTTP status that each category resolves to.
    pub open spec fn spec_status(self) -> u16 {
        match self {
            ApiError::BadRequest(_) => 400,
            ApiError::InvalidPayload(_) => 400,
            ApiError::MissingSignature(_) => 401,
            ApiError::InvalidSignature(_) => 401,
            ApiError::MissingRecord(_) => 404,
            ApiError::Database(_) => 500,
        }
    }

    /// Classify this error as its externally observable HTTP status.
    pub fn status_code(&self) -> (code: u16)
        ensures
            code == self.spec_status(),
    {
        match self {
            ApiError::BadRequest(_) => 400,
            ApiError::InvalidPayload(_) => 400,
            ApiError::MissingSignature(_) => 401,
            ApiError::InvalidSignature(_) => 401,
            ApiError::MissingRecord(_) => 404,
            ApiError::Database(_) => 500,
        }
    }
}

/// Classify an underlying store failure: it becomes a `Database` error
/// carrying the diagnostic, propagated at once — never retried, never a
/// partial result.
pub fn database_error(info: String) -> (e: ApiError)
    ensures
        e is Database,
        e->Database_0.info == info,
{
    ApiError::Database(Error500 { info })
}

/// A document of the performance collection: one host's identity and its
/// most recent uptime reading. The store's own object identifier is not
/// carried here: nothing in this crate reads it.
#[derive(Debug)]
pub struct Performance {
    pub name: String,
    pub description: String,
    pub physical_address: Option<String>,
    pub zt_ipaddress: String,
    pub created_at: i64,
    pub uptime: u32,
}

/// Answer payload of the single-host uptime endpoint.
#[derive(Clone, Copy, PartialEq, Eq, Structural, Debug)]
pub struct Uptime {
    pub uptime: u32,
}

/// A document of the host-assignment collection.
#[derive(Debug)]
pub struct Assignment {
    pub name: String,
}

/// A document of the host-status collection. Each reading is optional
/// because the upstream collector sends an absent value for whatever it
/// failed to gather.
#[derive(Clone, Debug)]
pub struct HostStats {
    pub holo_network: Option<String>,
    pub channel: Option<String>,
    pub holoport_model: Option<String>,
    pub ssh_status: Option<bool>,
    pub zt_ip: Option<String>,
    pub wan_ip: Option<String>,
    pub holoport_id: String,
    pub timestamp: Option<String>,
}

/// A small integer as the document store encodes it.
#[derive(Clone, Copy, PartialEq, Eq, Structural, Debug)]
pub struct NumberInt {
    pub number_int: u16,
}

impl Default for NumberInt {
    fn default() -> (r: NumberInt)
        ensures
            r.number_int == 0,
    {
        NumberInt { number_int: 0 }
    }
}

/// A wide integer as the document store encodes it.
#[derive(Clone, Copy, PartialEq, Eq, Structural, Debug)]
pub struct NumberLong {
    pub number_long: u64,
}

/// A creation date as the document store encodes it.
#[derive(Clone, Copy, PartialEq, Eq, Structural, Debug)]
pub struct DateCreated {
    pub date: NumberLong,
}

/// One agent key entry of a registration record.
#[derive(Debug)]
pub struct AgentPubKeys {
    pub pub_key: String,
    pub role: String,
}

/// One registration-code entry of a registration record.
#[derive(Debug)]
pub struct RegistrationCode {
    pub code: String,
    pub role: String,
    pub agent_pub_keys: Vec<AgentPubKeys>,
}

/// A document of the registration collection. The store's object
/// identifier and its internal version counter are not carried here:
/// nothing in this crate reads them.
#[derive(Debug)]
pub struct HostRegistration {
    pub given_names: String,
    pub last_name: String,
    pub is_jurisdiction_not_in_list: bool,
    pub legal_jurisdiction: String,
    pub created: DateCreated,
    pub old_holoport_ids: Vec<String>,
    pub registration_code: Vec<RegistrationCode>,
}

} // verus!
