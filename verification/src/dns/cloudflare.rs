//! The Cloudflare provider: CNAME records in one zone, all pointing at one
//! destination.

use vstd::prelude::*;
use crate::rate_limit::{RateLimit, RateLimitView};
use crate::seqs::{first_index, lemma_first_index};

verus! {

/// The time to live of a new record, in seconds, unless set otherwise.
pub const DEFAULT_TTL: u32 = 300;

/// Whether a new record is proxied, unless set otherwise.
pub const DEFAULT_PROXIED: bool = false;

/// The requests that the API takes in one window of the limiter.
pub const REQUEST_LIMIT: u64 = 1200;

/// The length of the limiter's window, five minutes, in nanoseconds.
pub const REQUEST_PERIOD: u64 = 300_000_000_000;

/// The records asked for in one page of a listing.
pub const RECORDS_PER_PAGE: u32 = 5000;

/// An error of the Cloudflare provider.
#[derive(Debug, Clone, Copy, PartialEq, Eq, Structural)]
pub enum CloudflareError {
    /// No record of the zone has the host's name.
    RecordNotFound,
}

/// A record as the API lists it: its identifier and its name.
#[derive(Debug, Clone, PartialEq, Eq)]
pub struct DnsRecord {
    pub id: String,
    pub name: String,
}

/// A record as text.
pub struct DnsRecordView {
    pub id: Seq<char>,
    pub name: Seq<char>,
}

impl View for DnsRecord {
    type V = DnsRecordView;

    open spec fn view(&self) -> DnsRecordView {
        DnsRecordView { id: self.id@, name: self.name@ }
    }
}

impl DeepView for DnsRecord {
    type V = DnsRecordView;

    open spec fn deep_view(&self) -> DnsRecordView {
        self@
    }
}

/// A request for the zone's CNAME records that point at one destination.
#[derive(Debug, Clone, PartialEq, Eq)]
pub struct ListRequest {
    pub zone_identifier: String,
    /// The destination that the listed records point at.
    pub content: String,
    pub per_page: u32,
}

/// A request to create the CNAME record that points a host at the
/// destination.
#[derive(Debug, Clone, PartialEq, Eq)]
pub struct CreateRequest {
    pub zone_identifier: String,
    /// The host.
    pub name: String,
    /// The destination.
    pub content: String,
    pub ttl: u32,
    pub proxied: bool,
}

/// A request to delete one record.
#[derive(Debug, Clone, PartialEq, Eq)]
pub struct DeleteRequest {
    pub zone_identifier: String,
    /// The record's identifier.
    pub identifier: String,
}

/// The Cloudflare provider: the zone, the destination, and how new records
/// are made.
#[derive(Debug)]
pub struct CloudflareProvider {
    dest: String,
    zone_id: String,
    ttl: u32,
    proxied: bool,
}

/// The provider's settings as mathematics.
pub struct CloudflareProviderView {
    pub dest: Seq<char>,
    pub zone_id: Seq<char>,
    pub ttl: u32,
    pub proxied: bool,
}

impl View for CloudflareProvider {
    type V = CloudflareProviderView;

    closed spec fn view(&self) -> CloudflareProviderView {
        CloudflareProviderView {
            dest: self.dest@,
            zone_id: self.zone_id@,
            ttl: self.ttl,
            proxied: self.proxied,
        }
    }
}

/// The names of `records`, one for each record, in their order.
pub open spec fn names_of(records: Seq<DnsRecordView>) -> Seq<Seq<char>> {
    records.map_values(|r: DnsRecordView| r.name)
}

/// The place in `records` of the first record named `host`, or the length
/// of `records` where none is so named.
pub open spec fn first_named(records: Seq<DnsRecordView>, host: Seq<char>) -> int {
    first_index(records, |r: DnsRecordView| r.name == host)
}

/// The limiter that stands before the API: `REQUEST_LIMIT` requests in each
/// window of `REQUEST_PERIOD`, the first window starting now.
pub fn request_limiter() -> (limiter: RateLimit)
    ensures
        limiter@ == RateLimitView::fresh(REQUEST_LIMIT as nat, REQUEST_PERIOD as nat, 0),
        limiter@.wf(),
{
    RateLimit::new(REQUEST_LIMIT, REQUEST_PERIOD)
}

/// The names of `records`, one for each record, in their order: the hosts
/// that a listing reports.
pub fn record_names(records: &Vec<DnsRecord>) -> (names: Vec<String>)
    ensures
        names.deep_view() == names_of(records.deep_view()),
{
    let mut names: Vec<String> = Vec::new();
    let mut i: usize = 0;
    while i < records.len()
        invariant
            i <= records.len(),
            names.len() == i,
            forall|k: int| 0 <= k < i ==> names[k]@ == records[k].name@,
        decreases records.len() - i,
    {
        names.push(records[i].name.clone());
        i += 1;
    }
    assert(names.deep_view() =~= names_of(records.deep_view()));
    names
}

impl CloudflareProvider {
    /// The provider for the zone `zone_id` whose records point at `dest`,
    /// with the default time to live and unproxied.
    pub fn new(zone_id: String, dest: String) -> (provider: CloudflareProvider)
        ensures
            provider@ == (CloudflareProviderView {
                dest: dest@,
                zone_id: zone_id@,
                ttl: DEFAULT_TTL,
                proxied: DEFAULT_PROXIED,
            }),
    {
        CloudflareProvider { dest, zone_id, ttl: DEFAULT_TTL, proxied: DEFAULT_PROXIED }
    }

    /// The time to live of the records that the provider creates.
    pub fn ttl(&self) -> (ttl: &u32)
        ensures
            *ttl == self@.ttl,
    {
        &self.ttl
    }

    /// The time to live, to be set.
    pub fn ttl_mut(&mut self) -> (ttl: &mut u32)
        ensures
            *ttl == old(self)@.ttl,
            final(self)@ == (CloudflareProviderView { ttl: *final(ttl), ..old(self)@ }),
    {
        &mut self.ttl
    }

    /// Whether the records that the provider creates are proxied.
    pub fn proxied(&self) -> (proxied: &bool)
        ensures
            *proxied == self@.proxied,
    {
        &self.proxied
    }

    /// Whether new records are proxied, to be set.
    pub fn proxied_mut(&mut self) -> (proxied: &mut bool)
        ensures
            *proxied == old(self)@.proxied,
            final(self)@ == (CloudflareProviderView { proxied: *final(proxied), ..old(self)@ }),
    {
        &mut self.proxied
    }

    /// The destination that the provider's records point at.
    pub fn destination(&self) -> (dest: &str)
        ensures
            dest@ == self@.dest,
    {
        self.dest.as_str()
    }

    /// The destination, to be set.
    pub fn destination_mut(&mut self) -> (dest: &mut String)
        ensures
            dest@ == old(self)@.dest,
            final(self)@ == (CloudflareProviderView { dest: final(dest)@, ..old(self)@ }),
    {
        &mut self.dest
    }

    /// The zone that the provider works on.
    pub fn zone_id(&self) -> (zone_id: &str)
        ensures
            zone_id@ == self@.zone_id,
    {
        self.zone_id.as_str()
    }

    /// The request that lists the zone's CNAME records pointing at the
    /// destination.
    pub fn list_request(&self) -> (request: ListRequest)
        ensures
            request.zone_identifier@ == self@.zone_id,
            request.content@ == self@.dest,
            request.per_page == RECORDS_PER_PAGE,
    {
        ListRequest {
            zone_identifier: self.zone_id.clone(),
            content: self.dest.clone(),
            per_page: RECORDS_PER_PAGE,
        }
    }

    /// The request that creates the record pointing `host` at the
    /// destination, with the provider's time to live and proxying.
    pub fn create_request(&self, host: &str) -> (request: CreateRequest)
        ensures
            request.zone_identifier@ == self@.zone_id,
            request.name@ == host@,
            request.content@ == self@.dest,
            request.ttl == self@.ttl,
            request.proxied == self@.proxied,
    {
        CreateRequest {
            zone_identifier: self.zone_id.clone(),
            name: host.to_owned(),
            content: self.dest.clone(),
            ttl: self.ttl,
            proxied: self.proxied,
        }
    }

    /// The request that deletes the record of `host`: the first of `records`
    /// that has the host's name. Where none has, the record is not found.
    pub fn delete_request(&self, records: &Vec<DnsRecord>, host: &str) -> (request: Result<
        DeleteRequest,
        CloudflareError,
    >)
        ensures
            request is Ok <==> names_of(records.deep_view()).contains(host@),
            request matches Ok(r) ==> {
                &&& r.zone_identifier@ == self@.zone_id
                &&& r.identifier@ == records.deep_view()[first_named(
                    records.deep_view(),
                    host@,
                )].id
            },
            request matches Err(e) ==> e == CloudflareError::RecordNotFound,
    {
        let wanted = host.to_owned();
        let ghost is_wanted = |r: DnsRecordView| r.name == host@;
        let mut i: usize = 0;
        while i < records.len()
            invariant
                i <= records.len(),
                wanted@ == host@,
                is_wanted == (|r: DnsRecordView| r.name == host@),
                forall|k: int| 0 <= k < i ==> records.deep_view()[k].name != host@,
            decreases records.len() - i,
        {
            if records[i].name == wanted {
                proof {
                    lemma_first_index(records.deep_view(), is_wanted);
                    let first = first_index(records.deep_view(), is_wanted);
                    assert(is_wanted(records.deep_view()[i as int]));
                    if first < i {
                        assert(is_wanted(records.deep_view()[first]));
                    }
                    assert(names_of(records.deep_view())[i as int] == host@);
                }
                return Ok(
                    DeleteRequest {
                        zone_identifier: self.zone_id.clone(),
                        identifier: records[i].id.clone(),
                    },
                );
            }
            i += 1;
        }
        proof {
            if names_of(records.deep_view()).contains(host@) {
                let k = choose|k: int|
                    0 <= k < records.len() && names_of(records.deep_view())[k] == host@;
                assert(records.deep_view()[k].name == host@);
            }
        }
        Err(CloudflareError::RecordNotFound)
    }
}

} // verus!
