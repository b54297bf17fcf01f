use vstd::prelude::*;

use crate::models::Airport;
use crate::strutil::{seq_views, str_equal, vec_contains_str};

verus! {

#[verifier::external_type_specification]
#[verifier::external_body]
#[verifier::reject_recursive_types(K)]
#[verifier::reject_recursive_types(V)]
#[verifier::reject_recursive_types(S)]
pub struct ExMokaCache<K, V, S>(moka::sync::Cache<K, V, S>);

/// The memo table from airport code to resolved record.
pub type AirportsCacheHandle = moka::sync::Cache<String, Option<Airport>>;

/// The single-entry memo table for the listing of known codes.
pub type IatasCacheHandle = moka::sync::Cache<(), Vec<String>>;

/// The backing store failed on a cache-miss path; the cache was left
/// untouched for that key. Carries the store's message.
#[derive(Debug, Clone, PartialEq, Eq)]
pub struct StoreFault(pub String);

/// A row of the backing store reduced to what the code listing reads: the
/// airport code and the record's name (checked against the "unusable"
/// sentinel).
#[derive(Debug, Clone, PartialEq)]
pub struct AirportCodeRow {
    pub iata_code: String,
    pub name: String,
}

/// A record whose name is the reserved sentinel marks an unusable row: it
/// resolves to no airport.
pub open spec fn spec_usable_airport(found: Option<Airport>) -> Option<Airport> {
    match found {
        Some(airport) => if airport.name@ == "N/A"@ {
            None
        } else {
            Some(airport)
        },
        None => None,
    }
}

/// The codes of the rows that are not marked unusable, in row order.
pub open spec fn spec_usable_codes(rows: Seq<AirportCodeRow>) -> Seq<Seq<char>>
    decreases rows.len(),
{
    if rows.len() == 0 {
        Seq::empty()
    } else {
        let prefix = spec_usable_codes(rows.drop_last());
        if rows.last().name@ == "N/A"@ {
            prefix
        } else {
            prefix.push(rows.last().iata_code@)
        }
    }
}

/// Removes repeated codes, keeping each code at its first occurrence.
pub open spec fn spec_dedup(codes: Seq<Seq<char>>) -> Seq<Seq<char>>
    decreases codes.len(),
{
    if codes.len() == 0 {
        Seq::empty()
    } else {
        let prefix = spec_dedup(codes.drop_last());
        if prefix.contains(codes.last()) {
            prefix
        } else {
            prefix.push(codes.last())
        }
    }
}

/// What the code listing returns for a set of store rows: the distinct
/// usable codes, each at its first usable occurrence.
pub open spec fn spec_unique_iatas(rows: Seq<AirportCodeRow>) -> Seq<Seq<char>> {
    spec_dedup(spec_usable_codes(rows))
}

/// Deduplication never repeats a code and never invents or loses one.
pub proof fn lemma_dedup_sound(codes: Seq<Seq<char>>)
    ensures
        forall|i: int, j: int|
            0 <= i < j < spec_dedup(codes).len() ==> spec_dedup(codes)[i] != spec_dedup(codes)[j],
        forall|c: Seq<char>| #[trigger] spec_dedup(codes).contains(c) <==> codes.contains(c),
    decreases codes.len(),
{
    if codes.len() == 0 {
        assert forall|c: Seq<char>| #[trigger]
            spec_dedup(codes).contains(c) <==> codes.contains(c) by {
            if codes.contains(c) {
                let k = choose|k: int| 0 <= k < codes.len() && codes[k] == c;
            }
        }
    } else {
        let prefix = spec_dedup(codes.drop_last());
        let last = codes.last();
        lemma_dedup_sound(codes.drop_last());
        assert forall|c: Seq<char>| #[trigger]
            spec_dedup(codes).contains(c) <==> codes.contains(c) by {
            if spec_dedup(codes).contains(c) {
                if prefix.contains(c) {
                    assert(codes.drop_last().contains(c));
                    let k = choose|k: int| 0 <= k < codes.drop_last().len() && codes.drop_last()[k]
                        == c;
                    assert(codes[k] == c);
                } else {
                    assert(c == last);
                    assert(codes[codes.len() - 1] == c);
                }
            }
            if codes.contains(c) {
                let k = choose|k: int| 0 <= k < codes.len() && codes[k] == c;
                if k < codes.len() - 1 {
                    assert(codes.drop_last()[k] == c);
                    assert(prefix.contains(c));
                    if !prefix.contains(last) {
                        assert(spec_dedup(codes) == prefix.push(last));
                        let w = choose|w: int| 0 <= w < prefix.len() && prefix[w] == c;
                        assert(spec_dedup(codes)[w] == c);
                    }
                } else {
                    assert(c == last);
                    if prefix.contains(last) {
                        assert(spec_dedup(codes).contains(c));
                    } else {
                        assert(spec_dedup(codes) == prefix.push(last));
                        assert(spec_dedup(codes)[prefix.len() as int] == c);
                    }
                }
            }
        }
        if !prefix.contains(last) {
            assert forall|i: int, j: int|
                0 <= i < j < spec_dedup(codes).len() implies spec_dedup(codes)[i]
                != spec_dedup(codes)[j] by {
                if j < prefix.len() {
                } else {
                    assert(spec_dedup(codes)[j] == last);
                    assert(spec_dedup(codes)[i] == prefix[i]);
                    if prefix[i] == last {
                        assert(prefix.contains(last));
                    }
                }
            }
        }
    }
}

/// A code is usable exactly when some row carries it with a name other
/// than the sentinel.
pub proof fn lemma_usable_codes_membership(rows: Seq<AirportCodeRow>)
    ensures
        forall|c: Seq<char>| #[trigger]
            spec_usable_codes(rows).contains(c) <==> (exists|k: int|
                0 <= k < rows.len() && (#[trigger] rows[k]).iata_code@ == c && rows[k].name@
                    != "N/A"@),
    decreases rows.len(),
{
    if rows.len() == 0 {
        assert forall|c: Seq<char>| #[trigger] spec_usable_codes(rows).contains(c) implies false by {
            let k = choose|k: int|
                0 <= k < spec_usable_codes(rows).len() && spec_usable_codes(rows)[k] == c;
        }
    } else {
        lemma_usable_codes_membership(rows.drop_last());
        let prefix = spec_usable_codes(rows.drop_last());
        let last = rows.last();
        assert forall|c: Seq<char>| #[trigger]
            spec_usable_codes(rows).contains(c) <==> (exists|k: int|
                0 <= k < rows.len() && (#[trigger] rows[k]).iata_code@ == c && rows[k].name@
                    != "N/A"@) by {
            if spec_usable_codes(rows).contains(c) {
                if prefix.contains(c) {
                    let k = choose|k: int|
                        0 <= k < rows.drop_last().len() && (#[trigger] rows.drop_last()[k]).iata_code@
                            == c && rows.drop_last()[k].name@ != "N/A"@;
                    assert(rows[k].iata_code@ == c && rows[k].name@ != "N/A"@);
                } else {
                    assert(last.name@ != "N/A"@ && c == last.iata_code@);
                    assert(rows[rows.len() - 1].iata_code@ == c && rows[rows.len() - 1].name@
                        != "N/A"@);
                }
            }
            if exists|k: int|
                0 <= k < rows.len() && (#[trigger] rows[k]).iata_code@ == c && rows[k].name@
                    != "N/A"@ {
                let k = choose|k: int|
                    0 <= k < rows.len() && (#[trigger] rows[k]).iata_code@ == c && rows[k].name@
                        != "N/A"@;
                if k < rows.len() - 1 {
                    assert(rows.drop_last()[k] == rows[k]);
                    assert(prefix.contains(c));
                    if last.name@ == "N/A"@ {
                    } else {
                        let w = choose|w: int| 0 <= w < prefix.len() && prefix[w] == c;
                        assert(spec_usable_codes(rows)[w] == c);
                    }
                } else {
                    assert(spec_usable_codes(rows).last() == c);
                }
            }
        }
    }
}

/// The listing of known codes never contains duplicates, and contains a
/// code exactly when some usable row backs it: a code whose only backing
/// records are the unusable sentinel never appears.
pub proof fn lemma_unique_iatas_sound(rows: Seq<AirportCodeRow>)
    ensures
        forall|i: int, j: int|
            0 <= i < j < spec_unique_iatas(rows).len() ==> spec_unique_iatas(rows)[i]
                != spec_unique_iatas(rows)[j],
        forall|c: Seq<char>| #[trigger]
            spec_unique_iatas(rows).contains(c) <==> (exists|k: int|
                0 <= k < rows.len() && (#[trigger] rows[k]).iata_code@ == c && rows[k].name@
                    != "N/A"@),
{
    lemma_dedup_sound(spec_usable_codes(rows));
    lemma_usable_codes_membership(rows);
}

/// The distinct usable codes of the given store rows, each at its first
/// usable occurrence, in row order.
pub fn select_unique_iatas(rows: &Vec<AirportCodeRow>) -> (r: Vec<String>)
    ensures
        seq_views(r@) == spec_unique_iatas(rows@),
{
    let mut iatas: Vec<String> = Vec::new();
    let mut i: usize = 0;
    while i < rows.len()
        invariant
            i <= rows@.len(),
            seq_views(iatas@) == spec_unique_iatas(rows@.take(i as int)),
        decreases rows@.len() - i,
    {
        proof {
            assert(rows@.take(i + 1).drop_last() =~= rows@.take(i as int));
            assert(rows@.take(i + 1).last() == rows@[i as int]);
        }
        if !str_equal(rows[i].name.as_str(), "N/A") {
            let ghost previous_codes = spec_usable_codes(rows@.take(i as int));
            assert(spec_usable_codes(rows@.take(i + 1)) == previous_codes.push(
                rows@[i as int].iata_code@,
            ));
            proof {
                assert(previous_codes.push(rows@[i as int].iata_code@).drop_last()
                    =~= previous_codes);
            }
            if !vec_contains_str(&iatas, rows[i].iata_code.as_str()) {
                iatas.push(rows[i].iata_code.clone());
                proof {
                    assert(seq_views(iatas@) =~= seq_views(iatas@.drop_last()).push(
                        iatas@.last()@,
                    ));
                }
            }
        }
        i += 1;
    }
    proof {
        assert(rows@.take(rows@.len() as int) =~= rows@);
    }
    iatas
}

/// The store interface the route layer resolves codes through. The
/// in-memory test double below implements it with exact contracts; callers
/// may implement it over a real backing store.
pub trait AirportsRepository {
    fn fetch_airport_by_iata(&self, iata_code: &str) -> Result<Option<Airport>, StoreFault>;

    fn unique_airport_iatas(&self) -> Result<Vec<String>, StoreFault>;
}

/// The first record carrying the code, front to back.
pub open spec fn spec_find_airport(airports: Seq<Airport>, code: Seq<char>) -> Option<Airport>
    decreases airports.len(),
{
    if airports.len() == 0 {
        None
    } else if airports.first().iata_code@ == code {
        Some(airports.first())
    } else {
        spec_find_airport(airports.drop_first(), code)
    }
}

/// The code of each record, in record order.
pub open spec fn spec_airport_codes(airports: Seq<Airport>) -> Seq<Seq<char>> {
    airports.map_values(|airport: Airport| airport.iata_code@)
}

/// An in-memory repository over a fixed list of records; it never fails.
pub struct DummyAirportsRepository {
    pub airports: Vec<Airport>,
}

impl DummyAirportsRepository {
    pub fn new(airports: Vec<Airport>) -> (r: Self)
        ensures
            r.airports == airports,
    {
        Self { airports }
    }
}

impl AirportsRepository for DummyAirportsRepository {
    /// Returns the first record carrying the code, if any.
    fn fetch_airport_by_iata(&self, iata_code: &str) -> (r: Result<Option<Airport>, StoreFault>)
        ensures
            r matches Ok(found) && found == spec_find_airport(self.airports@, iata_code@),
    {
        let mut i: usize = 0;
        assert(self.airports@.skip(0) =~= self.airports@);
        while i < self.airports.len()
            invariant
                i <= self.airports@.len(),
                spec_find_airport(self.airports@, iata_code@) == spec_find_airport(
                    self.airports@.skip(i as int),
                    iata_code@,
                ),
            decreases self.airports@.len() - i,
        {
            proof {
                assert(self.airports@.skip(i as int).first() == self.airports@[i as int]);
                assert(self.airports@.skip(i as int).drop_first() =~= self.airports@.skip(i + 1));
            }
            if str_equal(self.airports[i].iata_code.as_str(), iata_code) {
                return Ok(Some(self.airports[i].duplicate()));
            }
            i += 1;
        }
        assert(self.airports@.skip(self.airports@.len() as int) =~= Seq::<Airport>::empty());
        Ok(None)
    }

    /// Returns each code once, at its first occurrence, in record order.
    fn unique_airport_iatas(&self) -> (r: Result<Vec<String>, StoreFault>)
        ensures
            r matches Ok(codes) && seq_views(codes@) == spec_dedup(
                spec_airport_codes(self.airports@),
            ),
    {
        let mut iatas: Vec<String> = Vec::new();
        let mut i: usize = 0;
        while i < self.airports.len()
            invariant
                i <= self.airports@.len(),
                seq_views(iatas@) == spec_dedup(spec_airport_codes(self.airports@.take(i as int))),
            decreases self.airports@.len() - i,
        {
            let ghost previous_codes = spec_airport_codes(self.airports@.take(i as int));
            proof {
                assert(spec_airport_codes(self.airports@.take(i + 1)) =~= previous_codes.push(
                    self.airports@[i as int].iata_code@,
                ));
                assert(previous_codes.push(self.airports@[i as int].iata_code@).drop_last()
                    =~= previous_codes);
            }
            if !vec_contains_str(&iatas, self.airports[i].iata_code.as_str()) {
                iatas.push(self.airports[i].iata_code.clone());
                proof {
                    assert(seq_views(iatas@) =~= seq_views(iatas@.drop_last()).push(
                        iatas@.last()@,
                    ));
                }
            }
            i += 1;
        }
        proof {
            assert(self.airports@.take(self.airports@.len() as int) =~= self.airports@);
        }
        Ok(iatas)
    }
}

/// The record memoized for each airport code: `Some(..)` for a found
/// record, `None` memoized for "not found".
pub uninterp spec fn airport_cache_entries(cache: AirportsCacheHandle) -> Map<
    Seq<char>,
    Option<Airport>,
>;

/// The entry count the cache was bounded with when it was built.
pub uninterp spec fn airport_cache_capacity(
    cache: AirportsCacheHandle,
) -> nat;

/// The memoized listing of known codes, under the cache's single unit key.
pub uninterp spec fn iata_cache_entries(cache: IatasCacheHandle) -> Map<
    (),
    Seq<Seq<char>>,
>;

/// The entry count the cache was bounded with when it was built.
pub uninterp spec fn iata_cache_capacity(cache: IatasCacheHandle) -> nat;

/// The empty memo table from airport code to record.
pub open spec fn no_airport_entries() -> Map<Seq<char>, Option<Airport>> {
    Map::empty()
}

/// The empty memo table for the listing of known codes.
pub open spec fn no_iata_entries() -> Map<(), Seq<Seq<char>>> {
    Map::empty()
}

/// Relies on `moka::sync::Cache::new`: a fresh cache holds no entries and
/// will store up to `max_capacity` of them.
#[verifier::external_body]
fn new_airport_cache(max_capacity: u64) -> (r: AirportsCacheHandle)
    ensures
        airport_cache_entries(r) == no_airport_entries(),
        airport_cache_capacity(r) == max_capacity as nat,
{
    moka::sync::Cache::new(max_capacity)
}

/// Relies on `moka::sync::Cache::get`: returns a clone of the value stored
/// for the key, or nothing when the key holds no entry. A stored entry can
/// have dropped out only by size-based eviction, which needs the table to
/// have been pushed past its bound.
#[verifier::external_body]
fn airport_cache_get(cache: &AirportsCacheHandle, key: &str) -> (r: Option<
    Option<Airport>,
>)
    ensures
        match r {
            Some(value) => airport_cache_entries(*cache).contains_key(key@) && value
                == airport_cache_entries(*cache)[key@],
            None => !airport_cache_entries(*cache).contains_key(key@) || airport_cache_entries(
                *cache,
            ).len() > airport_cache_capacity(*cache),
        },
{
    cache.get(key)
}

/// Relies on `moka::sync::Cache::insert`: sets the value for the key
/// (updating a present key in place). Eviction is deferred and batched,
/// and removes entries only while the table stands above its bound, so at
/// or below the bound an insert that fits is exactly an insert; above it,
/// any entry — the fresh one included — may be evicted during a later
/// operation's maintenance.
#[verifier::external_body]
fn airport_cache_insert(
    cache: &mut AirportsCacheHandle,
    key: String,
    value: Option<Airport>,
)
    ensures
        airport_cache_capacity(*final(cache)) == airport_cache_capacity(*old(cache)),
        forall|k: Seq<char>| #[trigger]
            airport_cache_entries(*final(cache)).contains_key(k) ==> if k == key@ {
                airport_cache_entries(*final(cache))[k] == value
            } else {
                airport_cache_entries(*old(cache)).contains_key(k) && airport_cache_entries(
                    *final(cache),
                )[k] == airport_cache_entries(*old(cache))[k]
            },
        (airport_cache_entries(*old(cache)).len() <= airport_cache_capacity(*old(cache)) && (
        airport_cache_entries(*old(cache)).len() < airport_cache_capacity(*old(cache))
            || airport_cache_entries(*old(cache)).contains_key(key@))) ==> airport_cache_entries(
            *final(cache),
        ) == airport_cache_entries(*old(cache)).insert(key@, value),
{
    cache.insert(key, value);
}

/// Relies on `moka::sync::Cache::new`: a fresh cache holds no entries and
/// will store up to `max_capacity` of them.
#[verifier::external_body]
fn new_iata_cache(max_capacity: u64) -> (r: IatasCacheHandle)
    ensures
        iata_cache_entries(r) == no_iata_entries(),
        iata_cache_capacity(r) == max_capacity as nat,
{
    moka::sync::Cache::new(max_capacity)
}

/// Relies on `moka::sync::Cache::get`: returns a clone of the value stored
/// for the unit key, or nothing when it holds no entry. A stored entry can
/// have dropped out only by size-based eviction, which needs the table to
/// have been pushed past its bound.
#[verifier::external_body]
fn iata_cache_get(cache: &IatasCacheHandle) -> (r: Option<Vec<String>>)
    ensures
        match r {
            Some(value) => iata_cache_entries(*cache).contains_key(()) && seq_views(value@)
                == iata_cache_entries(*cache)[()],
            None => !iata_cache_entries(*cache).contains_key(()) || iata_cache_entries(
                *cache,
            ).len() > iata_cache_capacity(*cache),
        },
{
    cache.get(&())
}

/// Relies on `moka::sync::Cache::insert`: sets the value for the unit key
/// (updating a present key in place). Eviction is deferred and batched,
/// and removes entries only while the table stands above its bound, so at
/// or below the bound an insert that fits is exactly an insert.
#[verifier::external_body]
fn iata_cache_insert(cache: &mut IatasCacheHandle, value: Vec<String>)
    ensures
        iata_cache_capacity(*final(cache)) == iata_cache_capacity(*old(cache)),
        iata_cache_entries(*final(cache)).contains_key(()) ==> iata_cache_entries(*final(cache))[()]
            == seq_views(value@),
        (iata_cache_entries(*old(cache)).len() <= iata_cache_capacity(*old(cache)) && (
        iata_cache_entries(*old(cache)).len() < iata_cache_capacity(*old(cache))
            || iata_cache_entries(*old(cache)).contains_key(()))) ==> iata_cache_entries(
            *final(cache),
        ) == iata_cache_entries(*old(cache)).insert((), seq_views(value@)),
{
    cache.insert((), value);
}

/// An element-wise copy whose strings are proved to keep their characters.
fn duplicate_strings(v: &Vec<String>) -> (r: Vec<String>)
    ensures
        r@ == v@,
{
    let mut out: Vec<String> = Vec::new();
    let mut i: usize = 0;
    while i < v.len()
        invariant
            i <= v@.len(),
            out@ == v@.take(i as int),
        decreases v@.len() - i,
    {
        out.push(v[i].clone());
        proof {
            assert(out@ =~= v@.take(i + 1));
        }
        i += 1;
    }
    proof {
        assert(v@.take(v@.len() as int) =~= v@);
    }
    out
}

/// Law: at most one store read per code, and a populated entry outlives
/// the store. `after` is the memo table `memoize_airport` leaves behind
/// when it populates the code with a resolution — found or "not found"
/// alike — and `probed` is any answer `lookup_airport` may then give for
/// the code while the table stands within its bound. The answer is exactly
/// the memoized resolution, served from the table alone: a second
/// resolution of an unknown code is "not found" again with no further
/// store read, and a store unreachable by then cannot disturb a populated
/// entry.
pub proof fn lemma_second_resolution_needs_no_store(
    before: Map<Seq<char>, Option<Airport>>,
    after: Map<Seq<char>, Option<Airport>>,
    capacity: nat,
    code: Seq<char>,
    found: Option<Airport>,
    probed: Option<Option<Airport>>,
)
    requires
        after == before.insert(code, spec_usable_airport(found)),
        after.len() <= capacity,
        match probed {
            Some(resolved) => after.contains_key(code) && resolved == after[code],
            None => !after.contains_key(code) || after.len() > capacity,
        },
    ensures
        probed == Some(spec_usable_airport(found)),
{
}

/// The cache-aside layer in front of the backing store.
///
/// Two independent memo tables share one repository: one from airport code
/// to the resolved record (where "not found" is memoized too), one for the
/// de-duplicated listing of known codes. The store itself is read by the
/// caller, who probes with `lookup_*` and, on a miss, hands the store's
/// answer to `memoize_*`; a populated entry is served without any store
/// read, and a store fault populates nothing.
pub struct GlobalAirportsRepository {
    airports_cache: AirportsCacheHandle,
    iatas_cache: IatasCacheHandle,
}

impl GlobalAirportsRepository {
    /// The memoized record, per code.
    pub closed spec fn airport_entries(&self) -> Map<Seq<char>, Option<Airport>> {
        airport_cache_entries(self.airports_cache)
    }

    /// The bound the per-code memo table was built with.
    pub closed spec fn airports_capacity(&self) -> nat {
        airport_cache_capacity(self.airports_cache)
    }

    /// The memoized listing of known codes, if it was populated.
    pub closed spec fn iata_entries(&self) -> Map<(), Seq<Seq<char>>> {
        iata_cache_entries(self.iatas_cache)
    }

    /// The bound the listing's memo table was built with.
    pub closed spec fn iata_capacity(&self) -> nat {
        iata_cache_capacity(self.iatas_cache)
    }

    /// A repository with both memo tables empty.
    pub fn new() -> (r: Self)
        ensures
            r.airport_entries() == Map::<Seq<char>, Option<Airport>>::empty(),
            r.iata_entries() == Map::<(), Seq<Seq<char>>>::empty(),
            r.airports_capacity() == 9300,
            r.iata_capacity() == 1,
    {
        GlobalAirportsRepository {
            airports_cache: new_airport_cache(9300),
            iatas_cache: new_iata_cache(1),
        }
    }

    /// The memoized resolution for a code, if one was populated. A hit is
    /// served from the memo table alone: no store read is needed, and an
    /// unreachable store cannot disturb it. A populated code can miss only
    /// when the table has been pushed past its bound and the entry was
    /// evicted to make room.
    pub fn lookup_airport(&self, iata_code: &str) -> (r: Option<Option<Airport>>)
        ensures
            match r {
                Some(resolved) => self.airport_entries().contains_key(iata_code@) && resolved
                    == self.airport_entries()[iata_code@],
                None => !self.airport_entries().contains_key(iata_code@)
                    || self.airport_entries().len() > self.airports_capacity(),
            },
    {
        airport_cache_get(&self.airports_cache, iata_code)
    }

    /// Completes a missed resolution with the store's answer.
    ///
    /// A found record whose name is the reserved sentinel resolves to
    /// nothing. The resolution — found or not — is memoized and returned;
    /// a store fault is passed through and populates nothing.
    pub fn memoize_airport(&mut self, iata_code: &str, fetched: Result<Option<Airport>, String>) -> (r:
        Result<Option<Airport>, StoreFault>)
        ensures
            match fetched {
                Ok(found) => {
                    &&& r matches Ok(resolved) && resolved == spec_usable_airport(found)
                    &&& final(self).airports_capacity() == old(self).airports_capacity()
                    &&& final(self).iata_capacity() == old(self).iata_capacity()
                    &&& final(self).iata_entries() == old(self).iata_entries()
                    &&& forall|k: Seq<char>| #[trigger]
                        final(self).airport_entries().contains_key(k) ==> if k == iata_code@ {
                            final(self).airport_entries()[k] == spec_usable_airport(found)
                        } else {
                            old(self).airport_entries().contains_key(k) && final(self).airport_entries()[k] == old(self).airport_entries()[k]
                        }
                    &&& (old(self).airport_entries().len() <= old(self).airports_capacity() && (
                    old(self).airport_entries().len() < old(self).airports_capacity() || old(
                        self,
                    ).airport_entries().contains_key(iata_code@))) ==> final(self).airport_entries() == old(self).airport_entries().insert(
                        iata_code@,
                        spec_usable_airport(found),
                    )
                },
                Err(message) => {
                    &&& r matches Err(fault) && fault.0 == message
                    &&& *final(self) == *old(self)
                },
            },
    {
        match fetched {
            Ok(found) => {
                let resolved: Option<Airport> = match found {
                    Some(airport) => {
                        if str_equal(airport.name.as_str(), "N/A") {
                            None
                        } else {
                            Some(airport)
                        }
                    },
                    None => None,
                };
                let stored: Option<Airport> = match &resolved {
                    Some(airport) => Some(airport.duplicate()),
                    None => None,
                };
                airport_cache_insert(&mut self.airports_cache, String::from_str(iata_code), stored);
                Ok(resolved)
            },
            Err(message) => Err(StoreFault(message)),
        }
    }

    /// The memoized listing of known codes, if one was populated; its one
    /// entry never leaves a table bounded at one entry under one key.
    pub fn lookup_iatas(&self) -> (r: Option<Vec<String>>)
        ensures
            match r {
                Some(codes) => self.iata_entries().contains_key(()) && seq_views(codes@)
                    == self.iata_entries()[()],
                None => !self.iata_entries().contains_key(()) || self.iata_entries().len()
                    > self.iata_capacity(),
            },
    {
        iata_cache_get(&self.iatas_cache)
    }

    /// Completes a missed listing with the store's rows.
    ///
    /// The distinct usable codes are selected from the rows, memoized and
    /// returned; a store fault is passed through and populates nothing.
    pub fn memoize_iatas(&mut self, fetched: Result<Vec<AirportCodeRow>, String>) -> (r: Result<
        Vec<String>,
        StoreFault,
    >)
        ensures
            match fetched {
                Ok(rows) => {
                    &&& r matches Ok(codes) && seq_views(codes@) == spec_unique_iatas(rows@)
                    &&& final(self).airports_capacity() == old(self).airports_capacity()
                    &&& final(self).iata_capacity() == old(self).iata_capacity()
                    &&& final(self).airport_entries() == old(self).airport_entries()
                    &&& final(self).iata_entries().contains_key(()) ==> final(self).iata_entries()[()] == spec_unique_iatas(rows@)
                    &&& old(self).iata_capacity() >= 1 ==> final(self).iata_entries() == old(
                        self,
                    ).iata_entries().insert((), spec_unique_iatas(rows@))
                },
                Err(message) => {
                    &&& r matches Err(fault) && fault.0 == message
                    &&& *final(self) == *old(self)
                },
            },
    {
        match fetched {
            Ok(rows) => {
                let codes = select_unique_iatas(&rows);
                let stored = duplicate_strings(&codes);
                proof {
                    let entries = iata_cache_entries(self.iatas_cache);
                    if entries.contains_key(()) {
                        assert(entries.dom() =~= Set::<()>::empty().insert(()));
                        assert(entries.len() == 1);
                    } else {
                        assert forall|k: ()| !entries.contains_key(k) by {
                            assert(k == ());
                        }
                        assert(entries =~= Map::<(), Seq<Seq<char>>>::empty());
                    }
                }
                iata_cache_insert(&mut self.iatas_cache, stored);
                Ok(codes)
            },
            Err(message) => Err(StoreFault(message)),
        }
    }
}

} // verus!
