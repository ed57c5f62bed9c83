//! Flag counts per company, for the watchlist: a company flagged often
//! enough is reported.

use vstd::prelude::*;
use dashmap::DashMap;

verus! {

/// `dashmap::DashMap`, a concurrent hash map.
#[verifier::external_type_specification]
#[verifier::external_body]
#[verifier::reject_recursive_types(K)]
#[verifier::reject_recursive_types(V)]
#[verifier::reject_recursive_types(S)]
pub struct ExDashMap<K, V, S>(DashMap<K, V, S>);

/// A map of flag counts, keyed by company name.
pub type FlagCounts = DashMap<String, u32>;

/// What a map of flag counts holds: the count of each company, keyed by the
/// characters of its name.
pub uninterp spec fn flag_entries(m: FlagCounts) -> Map<Seq<char>, u32>;

/// `DashMap::new`: a map that holds nothing.
#[verifier::external_body]
fn flags_new() -> (r: FlagCounts)
    ensures
        flag_entries(r).dom() == Set::<Seq<char>>::empty(),
{
    DashMap::new()
}

/// `DashMap::get`, the value copied out: the count held for the name, if
/// any (a `String` key is found by a `str` with the same characters).
#[verifier::external_body]
fn flags_get(m: &FlagCounts, company_name: &str) -> (r: Option<u32>)
    ensures
        r == flag_entries(*m).get(company_name@),
{
    m.get(company_name).map(|entry| *entry)
}

/// `DashMap::insert`: the name now holds `count`, every other entry stays.
#[verifier::external_body]
fn flags_insert(m: &mut FlagCounts, company_name: String, count: u32)
    ensures
        flag_entries(*final(m)) == flag_entries(*old(m)).insert(company_name@, count),
{
    m.insert(company_name, count);
}

/// Flag counts per company and the count from which a company is reported.
pub struct WatchlistState {
    company_flags: FlagCounts,
    threshold: u32,
}

impl WatchlistState {
    /// The flag count of each company flagged so far.
    pub closed spec fn spec_flags(&self) -> Map<Seq<char>, u32> {
        flag_entries(self.company_flags)
    }

    /// The count from which a company is reported.
    pub closed spec fn spec_threshold(&self) -> u32 {
        self.threshold
    }

    /// No company flagged yet.
    pub fn new(threshold: u32) -> (r: Self)
        ensures
            r.spec_flags() == Map::<Seq<char>, u32>::empty(),
            r.spec_threshold() == threshold,
    {
        let r = WatchlistState { company_flags: flags_new(), threshold };
        assert(r.spec_flags() =~= Map::<Seq<char>, u32>::empty());
        r
    }

    /// The flag count of a company, zero when it was never flagged.
    pub fn flag_count(&self, company_name: &str) -> (r: u32)
        ensures
            r == (if self.spec_flags().contains_key(company_name@) {
                self.spec_flags()[company_name@]
            } else {
                0
            }),
    {
        match flags_get(&self.company_flags, company_name) {
            Some(n) => n,
            None => 0,
        }
    }

    /// Count one more flag for a company; its new count when that reaches
    /// the threshold.
    pub fn increment(&mut self, company_name: &str) -> (r: Option<u32>)
        requires
            old(self).spec_flags().contains_key(company_name@) ==> old(self).spec_flags()[company_name@] < u32::MAX,
        ensures
            ({
                let before = if old(self).spec_flags().contains_key(company_name@) {
                    old(self).spec_flags()[company_name@] as int
                } else {
                    0
                };
                &&& final(self).spec_flags() == old(self).spec_flags().insert(company_name@, (before + 1) as u32)
                &&& r == (if before + 1 >= old(self).spec_threshold() {
                    Some((before + 1) as u32)
                } else {
                    None::<u32>
                })
            }),
            final(self).spec_threshold() == old(self).spec_threshold(),
    {
        let current: u32 = match flags_get(&self.company_flags, company_name) {
            Some(n) => n,
            None => 0,
        };
        let new_count = current + 1;
        flags_insert(&mut self.company_flags, company_name.to_owned(), new_count);
        if new_count >= self.threshold {
            Some(new_count)
        } else {
            None
        }
    }
}

} // verus!
