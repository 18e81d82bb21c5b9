//! The server directory: its records, and how servers are filtered, ordered
//! and picked.

pub mod types;

use crate::api::types::{EntryIp, LogicalServer, LogicalServerView, Tier};
use crate::cache::CachedObject;
use crate::config::{feature_bits, Filters, FlattenBitflagEnum, Select};
use crate::text::same_text;
use rand::seq::IteratorRandom;
use vstd::prelude::*;

verus! {

/// The whole directory.
#[derive(Debug)]
pub struct LogicalServers(pub Vec<LogicalServer>);

/// The servers of a directory that passed a filter, in directory order
/// unless they were sorted.
#[derive(Debug)]
pub struct FilteredLogicalServers<'a>(pub Vec<&'a LogicalServer>);

/// By what servers are ordered.
#[derive(Debug, Clone, Copy, PartialEq, Eq, Structural)]
pub enum SortOrder {
    Speed,
    Load,
}

impl SortOrder {
    /// The lower-case name of the order.
    pub open spec fn name(self) -> Seq<char> {
        match self {
            SortOrder::Speed => "speed"@,
            SortOrder::Load => "load"@,
        }
    }

    /// The order with this name.
    pub fn from_name(text: &str) -> (order: Option<SortOrder>)
        ensures
            match order {
                Some(order) => order.name() == text@,
                None => text@ != "speed"@ && text@ != "load"@,
            },
    {
        if same_text(text, "speed") {
            Some(SortOrder::Speed)
        } else if same_text(text, "load") {
            Some(SortOrder::Load)
        } else {
            None
        }
    }
}

/// The views of a list of records.
pub open spec fn record_views(records: Seq<LogicalServer>) -> Seq<LogicalServerView> {
    Seq::new(records.len(), |i: int| records[i]@)
}

/// The views of a list of borrowed records.
pub open spec fn borrowed_views(records: Seq<&LogicalServer>) -> Seq<LogicalServerView> {
    Seq::new(records.len(), |i: int| records[i]@)
}

impl View for LogicalServers {
    type V = Seq<LogicalServerView>;

    open spec fn view(&self) -> Seq<LogicalServerView> {
        record_views(self.0@)
    }
}

impl<'a> View for FilteredLogicalServers<'a> {
    type V = Seq<LogicalServerView>;

    open spec fn view(&self) -> Seq<LogicalServerView> {
        borrowed_views(self.0@)
    }
}

impl CachedObject for LogicalServers {
    open spec fn spec_filename() -> Seq<char> {
        "servers.ron"@
    }

    fn filename() -> (name: &'static str) {
        "servers.ron"
    }
}

impl LogicalServerView {
    /// Whether the server passes the filter: its load is not above the
    /// limit, it is of the wanted tier and country, and it has every wanted
    /// feature.
    pub open spec fn passes(self, filter: Filters) -> bool {
        &&& self.load <= filter.max_load
        &&& match filter.tier {
            Tier::Premium => self.tier == 2,
            Tier::Free => self.tier == 0,
            Tier::All => true,
        }
        &&& match filter.country {
            Some(country) => country == self.exit_country,
            None => true,
        }
        &&& self.features & feature_bits(filter.features@) == feature_bits(filter.features@)
    }

    /// The number by which the server is ordered.
    pub open spec fn key(self, order: SortOrder) -> int {
        match order {
            SortOrder::Speed => self.score as int,
            SortOrder::Load => self.load as int,
        }
    }
}

/// Whether the records are in ascending order of their key.
pub open spec fn ordered(records: Seq<LogicalServerView>, order: SortOrder) -> bool {
    forall|i: int, j: int|
        0 <= i <= j < records.len() ==> (#[trigger] records[i]).key(order) <= (
        #[trigger] records[j]).key(order)
}

/// Whether `record` is one of `records` and none of them has a smaller key.
pub open spec fn least(
    records: Seq<LogicalServerView>,
    record: LogicalServerView,
    order: SortOrder,
) -> bool {
    &&& records.contains(record)
    &&& forall|k: int|
        0 <= k < records.len() ==> record.key(order) <= (#[trigger] records[k]).key(order)
}

impl LogicalServer {
    /// Whether the server passes the filter.
    pub fn matches_filters(&self, filter: &Filters) -> (r: bool)
        ensures
            r == self@.passes(*filter),
    {
        let max_load = self.load <= filter.max_load;
        let tier = match filter.tier {
            Tier::Premium => self.tier == 2,
            Tier::Free => self.tier == 0,
            Tier::All => true,
        };
        let country = match filter.country {
            Some(country) => country == self.exit_country,
            None => true,
        };
        let features = self.features.contains(filter.features.flatten());
        max_load && tier && country && features
    }

    /// The entry addresses of the server, one per machine, in order.
    pub fn entry_ips(&self) -> (ips: Vec<EntryIp>)
        ensures
            ips@ == self@.entry_ips,
    {
        let mut ips: Vec<EntryIp> = Vec::new();
        let mut i: usize = 0;
        while i < self.servers.len()
            invariant
                i <= self.servers.len(),
                ips@ == self@.entry_ips.take(i as int),
            decreases self.servers.len() - i,
        {
            ips.push(self.servers[i].entry_ip);
            assert(ips@ =~= self@.entry_ips.take(i + 1));
            i += 1;
        }
        assert(ips@ =~= self@.entry_ips);
        ips
    }
}

impl LogicalServers {
    pub fn new(servers: Vec<LogicalServer>) -> (directory: LogicalServers)
        ensures
            directory.0 == servers,
    {
        LogicalServers(servers)
    }

    /// The record with this identifier: the last one, where several share
    /// it.
    pub fn find(&self, id: &str) -> (found: Option<&LogicalServer>)
        ensures
            match found {
                Some(record) => record@.id == id@ && exists|i: int|
                    0 <= i < self@.len() && #[trigger] self@[i] == record@ && forall|j: int|
                        i < j < self@.len() ==> (#[trigger] self@[j]).id != id@,
                None => forall|j: int| 0 <= j < self@.len() ==> (#[trigger] self@[j]).id != id@,
            },
    {
        let mut i: usize = self.0.len();
        while i > 0
            invariant
                i <= self.0.len(),
                forall|j: int| i <= j < self@.len() ==> (#[trigger] self@[j]).id != id@,
            decreases i,
        {
            if same_text(self.0[i - 1].id.as_str(), id) {
                assert(self@[i - 1] == self.0@[i - 1]@);
                return Some(&self.0[i - 1]);
            }
            i -= 1;
        }
        None
    }

    /// The servers that pass the filter, in directory order.
    pub fn to_filtered(&self, filter: &Filters) -> (kept: FilteredLogicalServers<'_>)
        ensures
            kept@ == self@.filter(|record: LogicalServerView| record.passes(*filter)),
    {
        let ghost wanted = |record: LogicalServerView| record.passes(*filter);
        let mut kept: Vec<&LogicalServer> = Vec::new();
        let mut i: usize = 0;
        proof {
            assert(self@.take(0) =~= Seq::<LogicalServerView>::empty());
            reveal(Seq::filter);
            assert(borrowed_views(kept@) =~= self@.take(0).filter(wanted));
        }
        while i < self.0.len()
            invariant
                i <= self.0.len(),
                wanted == |record: LogicalServerView| record.passes(*filter),
                borrowed_views(kept@) == self@.take(i as int).filter(wanted),
            decreases self.0.len() - i,
        {
            let record = &self.0[i];
            let ghost before = borrowed_views(kept@);
            proof {
                assert(self@.take(i + 1) =~= self@.take(i as int).push(record@));
                self@.take(i as int).lemma_filter_push(record@, wanted);
            }
            if record.matches_filters(filter) {
                kept.push(record);
                assert(borrowed_views(kept@) =~= before.push(record@));
            }
            i += 1;
        }
        assert(self@.take(i as int) =~= self@);
        FilteredLogicalServers(kept)
    }
}

/// `<[T]>::sort_by_key` of the standard library, with the score as the key:
/// afterwards the list holds the same records as before, each as often as
/// before, in ascending order of the score. Nothing is claimed here of the
/// order of records with the same score.
#[verifier::external_body]
fn sort_by_score(records: &mut Vec<&LogicalServer>)
    ensures
        borrowed_views(final(records)@).to_multiset() == borrowed_views(old(records)@).to_multiset(),
        ordered(borrowed_views(final(records)@), SortOrder::Speed),
{
    records.sort_by_key(|record| record.score);
}

/// `<[T]>::sort_unstable_by_key` of the standard library, with the load as
/// the key: afterwards the list holds the same records as before, each as
/// often as before, in ascending order of the load.
#[verifier::external_body]
fn sort_by_load(records: &mut Vec<&LogicalServer>)
    ensures
        borrowed_views(final(records)@).to_multiset() == borrowed_views(old(records)@).to_multiset(),
        ordered(borrowed_views(final(records)@), SortOrder::Load),
{
    records.sort_unstable_by_key(|record| record.load);
}

/// `rand::seq::IteratorRandom::choose` on the indices below `len`, with the
/// generator of the current thread: an index below `len`, and none exactly
/// when there is no such index. Which index it is depends on chance. The
/// call fails only where the system cannot seed the generator.
#[verifier::external_body]
fn choose_index(len: usize) -> (index: Option<usize>)
    ensures
        index is None <==> len == 0,
        index matches Some(i) ==> i < len,
{
    (0..len).choose(&mut rand::thread_rng())
}

/// The first record of a sorted list is a least record of any list with
/// the same records.
pub proof fn lemma_first_is_least(
    before: Seq<LogicalServerView>,
    after: Seq<LogicalServerView>,
    order: SortOrder,
)
    requires
        after.to_multiset() == before.to_multiset(),
        ordered(after, order),
        after.len() > 0,
    ensures
        least(before, after[0], order),
{
    broadcast use vstd::seq_lib::to_multiset_contains;

    assert(after.contains(after[0]));
    assert(after.to_multiset().count(after[0]) > 0);
    assert(before.contains(after[0]));
    assert forall|k: int| 0 <= k < before.len() implies after[0].key(order) <= (
    #[trigger] before[k]).key(order) by {
        assert(before.contains(before[k]));
        assert(before.to_multiset().count(before[k]) > 0);
        assert(after.contains(before[k]));
        let j = choose|j: int| 0 <= j < after.len() && after[j] == before[k];
        assert(after[0].key(order) <= after[j].key(order));
    }
}

impl<'a> FilteredLogicalServers<'a> {
    /// Orders the servers by speed or by load, best first. The list holds
    /// the same servers afterwards.
    pub fn sort_by(self, order: &SortOrder) -> (sorted: FilteredLogicalServers<'a>)
        ensures
            sorted@.to_multiset() == self@.to_multiset(),
            ordered(sorted@, *order),
    {
        let mut records = self.0;
        match order {
            SortOrder::Load => sort_by_load(&mut records),
            SortOrder::Speed => sort_by_score(&mut records),
        }
        FilteredLogicalServers(records)
    }

    /// The server at `index`, where there is one.
    pub fn pick(self, index: Option<usize>) -> (picked: Option<&'a LogicalServer>)
        ensures
            match index {
                Some(i) if i < self.0.len() => picked is Some && picked->0@ == self@[i as int],
                _ => picked is None,
            },
    {
        match index {
            Some(i) => {
                if i < self.0.len() {
                    Some(self.0[i])
                } else {
                    None
                }
            },
            None => None,
        }
    }

    /// Picks one server: the fastest, the least loaded, or any one by
    /// chance. There is a result exactly when there is a server.
    pub fn select(self, value: &Select) -> (picked: Option<&'a LogicalServer>)
        ensures
            picked is Some <==> self@.len() > 0,
            picked matches Some(record) ==> match value {
                Select::Fastest => least(self@, record@, SortOrder::Speed),
                Select::LeastLoad => least(self@, record@, SortOrder::Load),
                Select::Random => self@.contains(record@),
            },
    {
        let ghost before = self@;
        proof {
            broadcast use vstd::seq_lib::to_multiset_len;

            assert(before.to_multiset().len() == before.len());
        }
        match value {
            Select::Fastest => {
                let servers = self.sort_by(&SortOrder::Speed);
                proof {
                    broadcast use vstd::seq_lib::to_multiset_len;

                    assert(servers@.to_multiset().len() == servers@.len());
                    if servers@.len() > 0 {
                        lemma_first_is_least(before, servers@, SortOrder::Speed);
                    }
                }
                servers.pick(Some(0))
            },
            Select::LeastLoad => {
                let servers = self.sort_by(&SortOrder::Load);
                proof {
                    broadcast use vstd::seq_lib::to_multiset_len;

                    assert(servers@.to_multiset().len() == servers@.len());
                    if servers@.len() > 0 {
                        lemma_first_is_least(before, servers@, SortOrder::Load);
                    }
                }
                servers.pick(Some(0))
            },
            Select::Random => {
                let index = choose_index(self.0.len());
                self.pick(index)
            },
        }
    }
}

} // verus!
