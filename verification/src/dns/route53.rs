//! The Route 53 provider: CNAME record sets in one hosted zone, all pointing
//! at one destination. The zone lists names with a closing dot; hosts are
//! written without it.

use vstd::prelude::*;
use crate::seqs::{first_index, lemma_first_index};

verus! {

/// The time to live of a new record, in seconds, unless set otherwise.
pub const DEFAULT_TTL: i64 = 300;

/// An error of the Route 53 provider.
#[derive(Debug, Clone, Copy, PartialEq, Eq, Structural)]
pub enum Route53Error {
    /// The zone has no CNAME record set of the host's name.
    MissingRecord,
}

/// The type of a record set, as far as the provider tells types apart.
#[derive(Debug, Clone, Copy, PartialEq, Eq, Structural)]
pub enum RecordType {
    Cname,
    Other,
}

/// What a change does to a record set.
#[derive(Debug, Clone, Copy, PartialEq, Eq, Structural)]
pub enum ChangeAction {
    /// Creates the record set, or replaces the one that exists.
    Upsert,
    Delete,
}

/// A record set as the zone lists it.
#[derive(Debug, Clone, PartialEq, Eq)]
pub struct RecordSet {
    /// The name, with its closing dot.
    pub name: Option<String>,
    pub record_type: RecordType,
    /// The values of the set's resource records.
    pub values: Vec<String>,
    pub ttl: Option<i64>,
}

/// A record set as text.
pub struct RecordSetView {
    pub name: Option<Seq<char>>,
    pub record_type: RecordType,
    pub values: Seq<Seq<char>>,
    pub ttl: Option<i64>,
}

impl View for RecordSet {
    type V = RecordSetView;

    open spec fn view(&self) -> RecordSetView {
        RecordSetView {
            name: match self.name {
                Some(name) => Some(name@),
                None => None,
            },
            record_type: self.record_type,
            values: self.values.deep_view(),
            ttl: self.ttl,
        }
    }
}

impl DeepView for RecordSet {
    type V = RecordSetView;

    open spec fn deep_view(&self) -> RecordSetView {
        self@
    }
}

/// One change to the CNAME record set of one name, with one value.
#[derive(Debug, Clone, PartialEq, Eq)]
pub struct Change {
    pub action: ChangeAction,
    pub name: String,
    pub record_type: RecordType,
    pub value: String,
    pub ttl: i64,
}

/// A change as text.
pub struct ChangeView {
    pub action: ChangeAction,
    pub name: Seq<char>,
    pub record_type: RecordType,
    pub value: Seq<char>,
    pub ttl: i64,
}

impl View for Change {
    type V = ChangeView;

    open spec fn view(&self) -> ChangeView {
        ChangeView {
            action: self.action,
            name: self.name@,
            record_type: self.record_type,
            value: self.value@,
            ttl: self.ttl,
        }
    }
}

impl DeepView for Change {
    type V = ChangeView;

    open spec fn deep_view(&self) -> ChangeView {
        self@
    }
}

/// The changes of one request.
#[derive(Debug, Clone, PartialEq, Eq)]
pub struct ChangeBatch {
    pub changes: Vec<Change>,
}

/// The Route 53 provider: the hosted zone, the destination, and the time to
/// live of new records.
#[derive(Debug, Clone)]
pub struct Route53Provider {
    dest: String,
    hosted_zone_id: String,
    ttl: i64,
}

/// The provider's settings as mathematics.
pub struct Route53ProviderView {
    pub dest: Seq<char>,
    pub hosted_zone_id: Seq<char>,
    pub ttl: i64,
}

impl View for Route53Provider {
    type V = Route53ProviderView;

    closed spec fn view(&self) -> Route53ProviderView {
        Route53ProviderView {
            dest: self.dest@,
            hosted_zone_id: self.hosted_zone_id@,
            ttl: self.ttl,
        }
    }
}

/// Whether `name` closes with a dot.
pub open spec fn ends_with_dot(name: Seq<char>) -> bool {
    name.len() > 0 && name.last() == '.'
}

/// `name` without its closing dot, if it has one.
pub open spec fn without_closing_dot(name: Seq<char>) -> Seq<char> {
    if ends_with_dot(name) {
        name.drop_last()
    } else {
        name
    }
}

/// Whether `set` is a CNAME record set with `dest` among its values.
pub open spec fn points_at(set: RecordSetView, dest: Seq<char>) -> bool {
    set.record_type is Cname && set.values.contains(dest)
}

/// The hosts that a listing reports: for each CNAME record set of `sets`
/// that points at `dest` and has a name, the name without its closing dot,
/// in the order of `sets`.
pub open spec fn listed_hosts(sets: Seq<RecordSetView>, dest: Seq<char>) -> Seq<Seq<char>>
    decreases sets.len(),
{
    if sets.len() == 0 {
        Seq::empty()
    } else {
        let init = listed_hosts(sets.drop_last(), dest);
        let set = sets.last();
        match set.name {
            Some(name) if points_at(set, dest) => init.push(without_closing_dot(name)),
            _ => init,
        }
    }
}

/// Whether `set` is the CNAME record set of `host`: its name is the host
/// with a closing dot.
pub open spec fn is_record_of(set: RecordSetView, host: Seq<char>) -> bool {
    &&& set.name matches Some(name)
    &&& ends_with_dot(name)
    &&& name.drop_last() == host
    &&& set.record_type is Cname
}

/// The place in `sets` of the first CNAME record set of `host`, or the
/// length of `sets` where there is none.
pub open spec fn first_record_of(sets: Seq<RecordSetView>, host: Seq<char>) -> int {
    first_index(sets, |set: RecordSetView| is_record_of(set, host))
}

/// Whether `name` closes with a dot.
pub fn closes_with_dot(name: &str) -> (closes: bool)
    ensures
        closes == ends_with_dot(name@),
{
    let len = name.unicode_len();
    len > 0 && name.get_char(len - 1) == '.'
}

/// `name` without its closing dot, if it has one.
pub fn strip_closing_dot(name: &str) -> (host: String)
    ensures
        host@ == without_closing_dot(name@),
{
    if closes_with_dot(name) {
        let len = name.unicode_len();
        let host = name.substring_char(0, len - 1).to_owned();
        assert(name@.subrange(0, len - 1) =~= name@.drop_last());
        host
    } else {
        name.to_owned()
    }
}

/// Whether `set` is a CNAME record set with `dest` among its values.
pub fn set_points_at(set: &RecordSet, dest: &String) -> (points: bool)
    ensures
        points == points_at(set@, dest@),
{
    match set.record_type {
        RecordType::Cname => crate::hosts::contains_host(&set.values, dest),
        RecordType::Other => false,
    }
}

/// Whether `set` is the CNAME record set of `host`.
pub fn set_is_record_of(set: &RecordSet, host: &String) -> (is: bool)
    ensures
        is == is_record_of(set@, host@),
{
    match (&set.name, set.record_type) {
        (Some(name), RecordType::Cname) => {
            closes_with_dot(name.as_str()) && strip_closing_dot(name.as_str()) == *host
        },
        _ => false,
    }
}

impl Route53Provider {
    /// The provider for the zone `hosted_zone_id` whose records point at
    /// `dest`, with the default time to live.
    pub fn new(hosted_zone_id: String, dest: String) -> (provider: Route53Provider)
        ensures
            provider@ == (Route53ProviderView {
                dest: dest@,
                hosted_zone_id: hosted_zone_id@,
                ttl: DEFAULT_TTL,
            }),
    {
        Route53Provider { dest, hosted_zone_id, ttl: DEFAULT_TTL }
    }

    /// The time to live of the records that the provider creates.
    pub fn ttl(&self) -> (ttl: &i64)
        ensures
            *ttl == self@.ttl,
    {
        &self.ttl
    }

    /// The time to live, to be set.
    pub fn ttl_mut(&mut self) -> (ttl: &mut i64)
        ensures
            *ttl == old(self)@.ttl,
            final(self)@ == (Route53ProviderView { ttl: *final(ttl), ..old(self)@ }),
    {
        &mut self.ttl
    }

    /// The destination that the provider's records point at.
    pub fn destination(&self) -> (dest: &str)
        ensures
            dest@ == self@.dest,
    {
        self.dest.as_str()
    }

    /// The destination, to be set.
    pub fn destination_mut(&mut self) -> (dest: &mut String)
        ensures
            dest@ == old(self)@.dest,
            final(self)@ == (Route53ProviderView { dest: final(dest)@, ..old(self)@ }),
    {
        &mut self.dest
    }

    /// The hosted zone that the provider works on.
    pub fn hosted_zone_id(&self) -> (zone: &str)
        ensures
            zone@ == self@.hosted_zone_id,
    {
        self.hosted_zone_id.as_str()
    }

    /// The batch of the one change that does `action` to the CNAME record
    /// set pointing `host` at the destination, with the time to live `ttl`,
    /// or the provider's own where `ttl` is `None`.
    pub fn change_batch(&self, action: ChangeAction, host: &str, ttl: Option<i64>) -> (batch:
        ChangeBatch)
        ensures
            batch.changes.deep_view() == seq![
                ChangeView {
                    action,
                    name: host@,
                    record_type: RecordType::Cname,
                    value: self@.dest,
                    ttl: match ttl {
                        Some(ttl) => ttl,
                        None => self@.ttl,
                    },
                },
            ],
    {
        let change = Change {
            action,
            name: host.to_owned(),
            record_type: RecordType::Cname,
            value: self.dest.clone(),
            ttl: match ttl {
                Some(ttl) => ttl,
                None => self.ttl,
            },
        };
        let mut changes: Vec<Change> = Vec::new();
        changes.push(change);
        let batch = ChangeBatch { changes };
        assert(batch.changes.deep_view() =~= seq![change@]);
        batch
    }

    /// The hosts that a listing of `sets` reports: the names, without the
    /// closing dot, of the CNAME record sets that point at the destination.
    pub fn list_records(&self, sets: &Vec<RecordSet>) -> (hosts: Vec<String>)
        ensures
            hosts.deep_view() == listed_hosts(sets.deep_view(), self@.dest),
    {
        let mut hosts: Vec<String> = Vec::new();
        let mut i: usize = 0;
        assert(sets.deep_view().take(0) =~= Seq::<RecordSetView>::empty());
        assert(hosts.deep_view() =~= Seq::<Seq<char>>::empty());
        while i < sets.len()
            invariant
                i <= sets.len(),
                hosts.deep_view() == listed_hosts(sets.deep_view().take(i as int), self@.dest),
            decreases sets.len() - i,
        {
            let ghost before = hosts.deep_view();
            let ghost prefix = sets.deep_view().take(i as int + 1);
            assert(prefix.drop_last() =~= sets.deep_view().take(i as int));
            assert(prefix.last() == sets[i as int]@);
            if set_points_at(&sets[i], &self.dest) {
                match &sets[i].name {
                    Some(name) => {
                        hosts.push(strip_closing_dot(name.as_str()));
                        assert(hosts.deep_view() =~= before.push(without_closing_dot(name@)));
                    },
                    None => {},
                }
            }
            i += 1;
        }
        assert(sets.deep_view().take(i as int) =~= sets.deep_view());
        hosts
    }

    /// The batch that creates the record of `host`, or replaces it, with the
    /// provider's time to live.
    pub fn create_record(&self, host: &str) -> (batch: ChangeBatch)
        ensures
            batch.changes.deep_view() == seq![
                ChangeView {
                    action: ChangeAction::Upsert,
                    name: host@,
                    record_type: RecordType::Cname,
                    value: self@.dest,
                    ttl: self@.ttl,
                },
            ],
    {
        self.change_batch(ChangeAction::Upsert, host, None)
    }

    /// The batch that deletes the record of `host`: the first CNAME record
    /// set of `sets` whose name is the host with a closing dot, deleted with
    /// the time to live that it is listed with. Where there is no such set,
    /// the record is missing.
    pub fn delete_record(&self, sets: &Vec<RecordSet>, host: &str) -> (batch: Result<
        ChangeBatch,
        Route53Error,
    >)
        ensures
            batch is Ok <==> exists|i: int|
                0 <= i < sets.len() && is_record_of(#[trigger] sets.deep_view()[i], host@),
            batch matches Ok(b) ==> b.changes.deep_view() == seq![
                ChangeView {
                    action: ChangeAction::Delete,
                    name: host@,
                    record_type: RecordType::Cname,
                    value: self@.dest,
                    ttl: match sets.deep_view()[first_record_of(sets.deep_view(), host@)].ttl {
                        Some(ttl) => ttl,
                        None => self@.ttl,
                    },
                },
            ],
            batch matches Err(e) ==> e == Route53Error::MissingRecord,
    {
        let wanted = host.to_owned();
        let ghost is_wanted = |set: RecordSetView| is_record_of(set, host@);
        let mut i: usize = 0;
        while i < sets.len()
            invariant
                i <= sets.len(),
                wanted@ == host@,
                is_wanted == (|set: RecordSetView| is_record_of(set, host@)),
                forall|k: int| 0 <= k < i ==> !is_record_of(#[trigger] sets.deep_view()[k], host@),
            decreases sets.len() - i,
        {
            if set_is_record_of(&sets[i], &wanted) {
                proof {
                    lemma_first_index(sets.deep_view(), is_wanted);
                    let first = first_index(sets.deep_view(), is_wanted);
                    assert(is_wanted(sets.deep_view()[i as int]));
                    if first < i {
                        assert(is_wanted(sets.deep_view()[first]));
                    }
                }
                return Ok(self.change_batch(ChangeAction::Delete, host, sets[i].ttl));
            }
            i += 1;
        }
        Err(Route53Error::MissingRecord)
    }
}

} // verus!
