//! Persistent TTL-keyed cache.
//!
//! Values are byte payloads stored in an embedded on-disk key-value tree,
//! framed with the Unix second at which they were written. A read checks
//! the entry's age against the caller's TTL and fails closed: a missing
//! key, a malformed entry, or an expired entry all read as absent, and an
//! expired entry is purged on the spot.

use vstd::prelude::*;

use crate::coords::coord_chars;
use crate::clock::unix_now;
use crate::errors::WxError;
use crate::text::{chars_vec, lower, string_from_chars, to_lower, trim, trimmed};
use crate::coords::format_coord_e4;
use vstd::string::StringSliceAdditionalSpecFns;

verus! {

/// Relies on sled 0.34: the store's error type, carried through so verified
/// code can turn it into this library's storage error.
#[verifier::external_type_specification]
#[verifier::external_body]
pub struct ExSledError(sled::Error);

/// Handle to one on-disk key-value tree.
#[verifier::external_body]
pub struct Store {
    db: sled::Db,
}

/// What the store holds: the bytes filed under each byte-string key.
/// String keys reach the store through their UTF-8 bytes.
pub uninterp spec fn store_map(s: Store) -> Map<Seq<u8>, Seq<u8>>;

/// A store with nothing in it.
pub open spec fn empty_store_map() -> Map<Seq<u8>, Seq<u8>> {
    Map::empty()
}

impl Store {
    /// Relies on sled::open: opens or creates the tree rooted at `path`.
    /// Whatever was on disk is unknown, but a tree holds finitely many keys.
    #[verifier::external_body]
    fn open(path: &str) -> (r: Result<Store, sled::Error>)
        ensures
            r matches Ok(s) ==> store_map(s).dom().finite(),
    {
        match sled::open(path) {
            Ok(db) => Ok(Store { db }),
            Err(e) => Err(e),
        }
    }

    /// Relies on sled::Tree::get: returns the bytes stored under the key,
    /// or nothing when the key is absent.
    #[verifier::external_body]
    fn get(&self, key: &str) -> (r: Result<Option<Vec<u8>>, sled::Error>)
        ensures
            r matches Ok(Some(v)) ==> store_map(*self).contains_key(key.spec_bytes()) && v@ == store_map(
                *self,
            )[key.spec_bytes()],
            r matches Ok(None) ==> !store_map(*self).contains_key(key.spec_bytes()),
    {
        match self.db.get(key.as_bytes()) {
            Ok(Some(ivec)) => Ok(Some(ivec.to_vec())),
            Ok(None) => Ok(None),
            Err(e) => Err(e),
        }
    }

    /// Relies on sled::Tree::insert: files the bytes under the key. The
    /// update is a single atomic step, so even a failed call leaves the
    /// tree either unchanged or updated.
    #[verifier::external_body]
    fn insert(&mut self, key: &str, value: &Vec<u8>) -> (r: Result<(), sled::Error>)
        ensures
            r is Ok ==> store_map(*final(self)) == store_map(*old(self)).insert(key.spec_bytes(), value@),
            store_map(*final(self)) == store_map(*old(self)) || store_map(*final(self))
                == store_map(*old(self)).insert(key.spec_bytes(), value@),
            store_map(*old(self)).dom().finite() ==> store_map(*final(self)).dom().finite(),
    {
        match self.db.insert(key.as_bytes(), value.as_slice()) {
            Ok(_) => Ok(()),
            Err(e) => Err(e),
        }
    }

    /// Relies on sled::Tree::remove: drops the key. The update is a single
    /// atomic step, so even a failed call leaves the tree either unchanged
    /// or updated.
    #[verifier::external_body]
    fn remove(&mut self, key: &str) -> (r: Result<(), sled::Error>)
        ensures
            r is Ok ==> store_map(*final(self)) == store_map(*old(self)).remove(key.spec_bytes()),
            store_map(*final(self)) == store_map(*old(self)) || store_map(*final(self))
                == store_map(*old(self)).remove(key.spec_bytes()),
            store_map(*old(self)).dom().finite() ==> store_map(*final(self)).dom().finite(),
    {
        match self.db.remove(key.as_bytes()) {
            Ok(_) => Ok(()),
            Err(e) => Err(e),
        }
    }

    /// Relies on sled::Tree::clear: drops every key, one deletion at a
    /// time, so a failed call still leaves only keys it held before.
    #[verifier::external_body]
    fn clear(&mut self) -> (r: Result<(), sled::Error>)
        ensures
            r is Ok ==> store_map(*final(self)) == empty_store_map(),
            store_map(*final(self)).submap_of(store_map(*old(self))),
            store_map(*old(self)).dom().finite() ==> store_map(*final(self)).dom().finite(),
    {
        match self.db.clear() {
            Ok(()) => Ok(()),
            Err(e) => Err(e),
        }
    }

    /// Relies on sled::Tree::len: the number of keys the tree holds,
    /// counted by a scan. A scan that hits a store error can miscount,
    /// so the figure is best effort and nothing is promised of it.
    #[verifier::external_body]
    fn entry_count(&self) -> usize {
        self.db.len()
    }

    /// Relies on sled::Db::size_on_disk: how many bytes the store's files
    /// take. The figure depends on the machine, so nothing is promised.
    #[verifier::external_body]
    fn size_on_disk(&self) -> Result<u64, sled::Error> {
        self.db.size_on_disk()
    }
}

/// Relies on sled::Error's Display impl for a readable message.
#[verifier::external_body]
fn store_error_message(e: &sled::Error) -> String {
    format!("{}", e)
}

/// The eight bytes of a timestamp, least significant first.
pub open spec fn ts_bytes(ts: u64) -> Seq<u8> {
    seq![
        (ts & 0xff) as u8,
        ((ts >> 8) & 0xff) as u8,
        ((ts >> 16) & 0xff) as u8,
        ((ts >> 24) & 0xff) as u8,
        ((ts >> 32) & 0xff) as u8,
        ((ts >> 40) & 0xff) as u8,
        ((ts >> 48) & 0xff) as u8,
        ((ts >> 56) & 0xff) as u8,
    ]
}

/// The timestamp read back from eight bytes, least significant first.
pub open spec fn ts_of_bytes(b: Seq<u8>) -> u64
    recommends
        b.len() == 8,
{
    (b[0] as u64) | ((b[1] as u64) << 8) | ((b[2] as u64) << 16) | ((b[3] as u64) << 24) | ((
    b[4] as u64) << 32) | ((b[5] as u64) << 40) | ((b[6] as u64) << 48) | ((b[7] as u64) << 56)
}

/// A stored entry: the write time, then the payload.
pub open spec fn entry_bytes(ts: u64, data: Seq<u8>) -> Seq<u8> {
    ts_bytes(ts) + data
}

/// The write time framed into an entry.
pub open spec fn entry_ts(e: Seq<u8>) -> u64
    recommends
        e.len() >= 8,
{
    ts_of_bytes(e.subrange(0, 8))
}

/// The payload framed into an entry.
pub open spec fn entry_data(e: Seq<u8>) -> Seq<u8>
    recommends
        e.len() >= 8,
{
    e.subrange(8, e.len() as int)
}

/// An entry's age never runs backwards: a write time in the future counts
/// as age zero, so a clock step back can never expire a fresh entry.
pub open spec fn entry_age(e: Seq<u8>, now: u64) -> int {
    if now >= entry_ts(e) {
        now - entry_ts(e)
    } else {
        0
    }
}

/// Whether an entry is well formed and within its time to live.
pub open spec fn entry_fresh(e: Seq<u8>, ttl_seconds: u64, now: u64) -> bool {
    e.len() >= 8 && entry_age(e, now) <= ttl_seconds
}

/// Framing a payload and reading the frame back are inverses.
pub proof fn lemma_entry_roundtrip(ts: u64, data: Seq<u8>)
    ensures
        entry_bytes(ts, data).len() == 8 + data.len(),
        entry_ts(entry_bytes(ts, data)) == ts,
        entry_data(entry_bytes(ts, data)) == data,
{
    let e = entry_bytes(ts, data);
    assert(e.subrange(0, 8) =~= ts_bytes(ts));
    assert(e.subrange(8, e.len() as int) =~= data);
    assert((((ts & 0xff) as u8) as u64) | ((((ts >> 8) & 0xff) as u8) as u64) << 8 | ((((ts
        >> 16) & 0xff) as u8) as u64) << 16 | ((((ts >> 24) & 0xff) as u8) as u64) << 24 | ((((ts
        >> 32) & 0xff) as u8) as u64) << 32 | ((((ts >> 40) & 0xff) as u8) as u64) << 40 | ((((ts
        >> 48) & 0xff) as u8) as u64) << 48 | ((((ts >> 56) & 0xff) as u8) as u64) << 56 == ts)
        by (bit_vector);
}

/// Frame a payload with its write time.
pub fn encode_entry(ts: u64, data: &Vec<u8>) -> (v: Vec<u8>)
    ensures
        v@ == entry_bytes(ts, data@),
{
    let mut v: Vec<u8> = Vec::new();
    v.push((ts & 0xff) as u8);
    v.push(((ts >> 8) & 0xff) as u8);
    v.push(((ts >> 16) & 0xff) as u8);
    v.push(((ts >> 24) & 0xff) as u8);
    v.push(((ts >> 32) & 0xff) as u8);
    v.push(((ts >> 40) & 0xff) as u8);
    v.push(((ts >> 48) & 0xff) as u8);
    v.push(((ts >> 56) & 0xff) as u8);
    proof {
        assert(v@ =~= ts_bytes(ts));
    }
    let n = data.len();
    let mut i: usize = 0;
    while i < n
        invariant
            n == data@.len(),
            i <= n,
            v@ == ts_bytes(ts) + data@.subrange(0, i as int),
        decreases n - i,
    {
        v.push(data[i]);
        i = i + 1;
        proof {
            assert(v@ =~= ts_bytes(ts) + data@.subrange(0, i as int));
        }
    }
    proof {
        assert(v@ =~= entry_bytes(ts, data@));
    }
    v
}

/// Split a stored entry into its write time and payload. Fails exactly
/// when the entry is too short to carry a frame.
pub fn decode_entry(v: &Vec<u8>) -> (r: Option<(u64, Vec<u8>)>)
    ensures
        r is Some <==> v@.len() >= 8,
        r matches Some((ts, data)) ==> ts == entry_ts(v@) && data@ == entry_data(v@),
{
    let n = v.len();
    if n < 8 {
        return None;
    }
    let ts: u64 = (v[0] as u64) | ((v[1] as u64) << 8) | ((v[2] as u64) << 16) | ((v[3] as u64)
        << 24) | ((v[4] as u64) << 32) | ((v[5] as u64) << 40) | ((v[6] as u64) << 48) | ((
    v[7] as u64) << 56);
    let mut data: Vec<u8> = Vec::new();
    let mut i: usize = 8;
    while i < n
        invariant
            n == v@.len(),
            8 <= i <= n,
            data@ == v@.subrange(8, i as int),
        decreases n - i,
    {
        data.push(v[i]);
        i = i + 1;
        proof {
            assert(data@ =~= v@.subrange(8, i as int));
        }
    }
    proof {
        let b = v@.subrange(0, 8);
        assert(b[0] == v@[0] && b[1] == v@[1] && b[2] == v@[2] && b[3] == v@[3] && b[4] == v@[4]
            && b[5] == v@[5] && b[6] == v@[6] && b[7] == v@[7]);
        assert(data@ =~= entry_data(v@));
    }
    Some((ts, data))
}

/// What a cache read found under a key.
pub enum CacheDecision {
    /// A well-formed entry within its time to live, carrying this payload.
    Hit(Vec<u8>),
    /// A well-formed entry past its time to live; it should be purged.
    Purge,
    /// Nothing usable: no entry, or one too short to carry a frame.
    Miss,
}

/// Judge one stored entry against a TTL at a given moment. This is the
/// whole read policy: a fresh entry is a hit with its payload, an expired
/// entry asks to be purged, anything else is a miss.
pub fn evaluate_entry(entry: Option<Vec<u8>>, ttl_seconds: u64, now: u64) -> (r: CacheDecision)
    ensures
        match entry {
            Some(e) => {
                if e@.len() >= 8 && entry_age(e@, now) <= ttl_seconds {
                    r matches CacheDecision::Hit(d) && d@ == entry_data(e@)
                } else if e@.len() >= 8 {
                    r is Purge
                } else {
                    r is Miss
                }
            },
            None => r is Miss,
        },
{
    match entry {
        Some(e) => {
            match decode_entry(&e) {
                Some((ts, data)) => {
                    let age: u64 = if now >= ts {
                        now - ts
                    } else {
                        0
                    };
                    if age <= ttl_seconds {
                        CacheDecision::Hit(data)
                    } else {
                        CacheDecision::Purge
                    }
                },
                None => CacheDecision::Miss,
            }
        },
        None => CacheDecision::Miss,
    }
}

/// Sizes reported by the cache: how many entries it holds and how many
/// bytes its files take on disk.
#[derive(Debug)]
pub struct CacheStats {
    pub entries: usize,
    pub size_bytes: u64,
}

/// Persistent TTL-keyed cache over an embedded on-disk store.
pub struct Cache {
    store: Store,
}

impl Cache {
    /// The store's contents: entry bytes under each key's UTF-8 bytes.
    pub closed spec fn entries(&self) -> Map<Seq<u8>, Seq<u8>> {
        store_map(self.store)
    }

    /// The store only ever holds finitely many entries.
    pub closed spec fn wf(&self) -> bool {
        store_map(self.store).dom().finite()
    }

    /// Open or create the cache database rooted at the given directory.
    pub fn open(dir: &str) -> (r: Result<Cache, WxError>)
        ensures
            r matches Ok(c) ==> c.wf(),
            r matches Err(e) ==> e is Storage,
    {
        match Store::open(dir) {
            Ok(store) => Ok(Cache { store }),
            Err(e) => Err(WxError::Storage(store_error_message(&e))),
        }
    }

    /// Read the payload under `key` if an entry is there, well formed, and
    /// no older than `ttl_seconds` at the moment `now`; an expired entry
    /// is purged. A store failure reads as absent, never as an error.
    pub fn get_at(&mut self, key: &str, ttl_seconds: u64, now: u64) -> (r: Option<Vec<u8>>)
        requires
            old(self).wf(),
        ensures
            final(self).wf(),
            r matches Some(d) ==> old(self).entries().contains_key(key.spec_bytes()) && entry_fresh(
                old(self).entries()[key.spec_bytes()],
                ttl_seconds,
                now,
            ) && d@ == entry_data(old(self).entries()[key.spec_bytes()]) && final(self).entries() == old(
                self,
            ).entries(),
            final(self).entries() == old(self).entries() || (r is None && old(
                self,
            ).entries().contains_key(key.spec_bytes()) && !entry_fresh(
                old(self).entries()[key.spec_bytes()],
                ttl_seconds,
                now,
            ) && final(self).entries() == old(self).entries().remove(key.spec_bytes())),
    {
        let looked_up = match self.store.get(key) {
            Ok(found) => found,
            Err(_) => None,
        };
        match evaluate_entry(looked_up, ttl_seconds, now) {
            CacheDecision::Hit(data) => Some(data),
            CacheDecision::Purge => {
                let _ = self.store.remove(key);
                None
            },
            CacheDecision::Miss => None,
        }
    }

    /// Write `value` under `key`, stamped with the moment `now`.
    pub fn set_at(&mut self, key: &str, value: &Vec<u8>, now: u64) -> (r: Result<(), WxError>)
        requires
            old(self).wf(),
        ensures
            final(self).wf(),
            r is Ok ==> final(self).entries() == old(self).entries().insert(
                key.spec_bytes(),
                entry_bytes(now, value@),
            ),
            final(self).entries() == old(self).entries() || final(self).entries() == old(
                self,
            ).entries().insert(key.spec_bytes(), entry_bytes(now, value@)),
            r matches Err(e) ==> e is Storage,
    {
        let framed = encode_entry(now, value);
        match self.store.insert(key, &framed) {
            Ok(()) => Ok(()),
            Err(e) => Err(WxError::Storage(store_error_message(&e))),
        }
    }

    /// Read the payload under `key` against the wall clock. The moment of
    /// the read is the machine's business; what holds for every moment is
    /// that a payload handed back was the one stored under the key.
    pub fn get(&mut self, key: &str, ttl_seconds: u64) -> (r: Option<Vec<u8>>)
        requires
            old(self).wf(),
        ensures
            final(self).wf(),
            r matches Some(d) ==> old(self).entries().contains_key(key.spec_bytes()) && d@ == entry_data(
                old(self).entries()[key.spec_bytes()],
            ),
            final(self).entries() == old(self).entries() || (r is None && old(
                self,
            ).entries().contains_key(key.spec_bytes()) && final(self).entries() == old(self).entries().remove(key.spec_bytes())),
    {
        let now = unix_now();
        self.get_at(key, ttl_seconds, now)
    }

    /// Write `value` under `key`, stamped with the wall clock. Whatever
    /// the outcome, the store is unchanged except possibly for this key.
    pub fn set(&mut self, key: &str, value: &Vec<u8>) -> (r: Result<(), WxError>)
        requires
            old(self).wf(),
        ensures
            final(self).wf(),
            r is Ok ==> exists|ts: u64|
                final(self).entries() == old(self).entries().insert(
                    key.spec_bytes(),
                    #[trigger] entry_bytes(ts, value@),
                ),
            final(self).entries() == old(self).entries() || exists|ts: u64|
                final(self).entries() == old(self).entries().insert(
                    key.spec_bytes(),
                    #[trigger] entry_bytes(ts, value@),
                ),
            r matches Err(e) ==> e is Storage,
    {
        let now = unix_now();
        let r = self.set_at(key, value, now);
        proof {
            if self.entries() != old(self).entries() {
                assert(self.entries() == old(self).entries().insert(
                    key.spec_bytes(),
                    entry_bytes(now, value@),
                ));
            }
            if r is Ok {
                assert(self.entries() == old(self).entries().insert(
                    key.spec_bytes(),
                    entry_bytes(now, value@),
                ));
            }
        }
        r
    }

    /// Drop whatever is stored under `key`.
    pub fn remove(&mut self, key: &str) -> (r: Result<(), WxError>)
        requires
            old(self).wf(),
        ensures
            final(self).wf(),
            r is Ok ==> final(self).entries() == old(self).entries().remove(key.spec_bytes()),
            final(self).entries() == old(self).entries() || final(self).entries() == old(
                self,
            ).entries().remove(key.spec_bytes()),
            r matches Err(e) ==> e is Storage,
    {
        match self.store.remove(key) {
            Ok(()) => Ok(()),
            Err(e) => Err(WxError::Storage(store_error_message(&e))),
        }
    }

    /// Drop every entry.
    pub fn clear(&mut self) -> (r: Result<(), WxError>)
        requires
            old(self).wf(),
        ensures
            final(self).wf(),
            r is Ok ==> final(self).entries() == empty_store_map(),
            final(self).entries().submap_of(old(self).entries()),
            r matches Err(e) ==> e is Storage,
    {
        match self.store.clear() {
            Ok(()) => Ok(()),
            Err(e) => Err(WxError::Storage(store_error_message(&e))),
        }
    }

    /// How many entries the cache holds, and its size on disk. Both
    /// figures are the store's own best effort: a store that cannot
    /// report its file size reports zero bytes, and a count cut short by
    /// a store error can deviate, so neither is promised.
    pub fn stats(&self) -> CacheStats {
        let entries = self.store.entry_count();
        let size_bytes = match self.store.size_on_disk() {
            Ok(n) => n,
            Err(_) => 0,
        };
        CacheStats { entries, size_bytes }
    }
}

// Cache key construction: one convention per cached provider call.

/// The key for a geocoding result: the query, lowered and trimmed. The
/// folding is ASCII: letter case and whitespace beyond ASCII pass
/// through unchanged, so such queries key on their own spelling.
pub open spec fn geocode_key_chars(query: Seq<char>) -> Seq<char> {
    "geo:"@ + trimmed(lower(query))
}

/// The key for a forecast: the coordinates at four decimal places.
pub open spec fn forecast_key_chars(lat_e4: int, lon_e4: int) -> Seq<char> {
    "forecast:"@ + coord_chars(lat_e4) + ","@ + coord_chars(lon_e4)
}

/// The key for alerts: the coordinates at four decimal places.
pub open spec fn alerts_key_chars(lat_e4: int, lon_e4: int) -> Seq<char> {
    "alerts:"@ + coord_chars(lat_e4) + ","@ + coord_chars(lon_e4)
}

impl Cache {
    /// The cache key for a geocoding query.
    pub fn geocode_key(query: &str) -> (r: String)
        ensures
            r@ == geocode_key_chars(query@),
    {
        let q = chars_vec(query);
        let lowered = to_lower(&q);
        let cut = trim(&lowered);
        let tail = string_from_chars(&cut);
        let mut r = String::new();
        r.append("geo:");
        r.append(tail.as_str());
        r
    }

    /// The cache key for a forecast at a coordinate.
    pub fn forecast_key(lat_e4: i64, lon_e4: i64) -> (r: String)
        requires
            lat_e4 > i64::MIN,
            lon_e4 > i64::MIN,
        ensures
            r@ == forecast_key_chars(lat_e4 as int, lon_e4 as int),
    {
        let lat = string_from_chars(&format_coord_e4(lat_e4));
        let lon = string_from_chars(&format_coord_e4(lon_e4));
        let mut r = String::new();
        r.append("forecast:");
        r.append(lat.as_str());
        r.append(",");
        r.append(lon.as_str());
        r
    }

    /// The cache key for alerts at a coordinate.
    pub fn alerts_key(lat_e4: i64, lon_e4: i64) -> (r: String)
        requires
            lat_e4 > i64::MIN,
            lon_e4 > i64::MIN,
        ensures
            r@ == alerts_key_chars(lat_e4 as int, lon_e4 as int),
    {
        let lat = string_from_chars(&format_coord_e4(lat_e4));
        let lon = string_from_chars(&format_coord_e4(lon_e4));
        let mut r = String::new();
        r.append("alerts:");
        r.append(lat.as_str());
        r.append(",");
        r.append(lon.as_str());
        r
    }
}

// Fixed TTL table, in seconds.

/// Locations do not move: geocoding results keep for a year.
pub const TTL_GEOCODE: u64 = 86400 * 365;

/// Forecasts keep for ten minutes.
pub const TTL_FORECAST: u64 = 600;

/// Alerts are critical and keep for five minutes.
pub const TTL_ALERTS: u64 = 300;

/// Generated stories keep for thirty minutes.
pub const TTL_STORY: u64 = 1800;

/// What a read of the store decides, as a function of its contents and
/// the moment of the read: the payload of a fresh entry under the key,
/// absence otherwise. This is the policy `get_at` carries out, stated
/// over the map alone.
pub open spec fn lookup(
    m: Map<Seq<u8>, Seq<u8>>,
    key: Seq<u8>,
    ttl_seconds: u64,
    now: u64,
) -> Option<Seq<u8>> {
    if m.contains_key(key) && entry_fresh(m[key], ttl_seconds, now) {
        Some(entry_data(m[key]))
    } else {
        None
    }
}

/// Round trip: immediately after a value is stored under a key, a read
/// of that key yields the value unchanged, for any time to live. This is
/// the success side of `get_at` after `set_at`.
pub proof fn lemma_cache_round_trip(
    m: Map<Seq<u8>, Seq<u8>>,
    key: Seq<u8>,
    value: Seq<u8>,
    ttl_seconds: u64,
    now: u64,
)
    ensures
        lookup(m.insert(key, entry_bytes(now, value)), key, ttl_seconds, now) == Some(value),
{
    lemma_entry_roundtrip(now, value);
}

/// Expiry: an entry written one second past its time to live reads as
/// absent, and once it is purged the key reads as absent under every TTL
/// at every later moment.
pub proof fn lemma_cache_expiry(
    m: Map<Seq<u8>, Seq<u8>>,
    key: Seq<u8>,
    value: Seq<u8>,
    ttl_seconds: u64,
    now: u64,
)
    requires
        ttl_seconds + 1 <= now,
        m.contains_key(key),
        m[key] == entry_bytes((now - (ttl_seconds + 1)) as u64, value),
    ensures
        !entry_fresh(m[key], ttl_seconds, now),
        lookup(m, key, ttl_seconds, now) is None,
        !m.remove(key).contains_key(key),
        forall|ttl2: u64, now2: u64| #[trigger] lookup(m.remove(key), key, ttl2, now2) is None,
{
    lemma_entry_roundtrip((now - (ttl_seconds + 1)) as u64, value);
}

/// Key construction is pure and normalizing: a query and its lowered,
/// trimmed form share one geocoding key.
pub proof fn lemma_geocode_key_normalized(query: Seq<char>)
    ensures
        geocode_key_chars(query) == geocode_key_chars(trimmed(lower(query))),
{
    let l = lower(query);
    let t1 = crate::text::trim_start(l);
    let t = trimmed(l);
    let a = crate::text::lemma_trim_start_is_suffix(l);
    let b = crate::text::lemma_trim_end_is_prefix(t1);
    // Every kept character came from the lowered query, so lowering the
    // trimmed run changes nothing.
    assert(lower(t) =~= t) by {
        assert forall|i: int| 0 <= i < t.len() implies lower(t)[i] == t[i] by {
            assert(t[i] == t1[i]);
            assert(t1[i] == l[a + i]);
            assert(l[a + i] == crate::text::lower_char(query[a + i]));
            crate::text::lemma_lower_char_idempotent(query[a + i]);
        }
    }
    crate::text::lemma_trimmed_idempotent(l);
}

} // verus!
