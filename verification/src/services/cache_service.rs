//! The package cache of a tour: the cards, split into singles, groups and
//! problematic ones, with a version, a timestamp and a checksum that decide
//! whether a stored cache may still be used.

use vstd::prelude::*;
use crate::models::package::{Package, PackageView, clone_packages, packages_view};
use crate::models::json::JsonValue;
use crate::models::session::Coordinates;
use crate::utils::clock::{hours_between, is_utc_millis, trunc_hours};
use crate::utils::text::{lower_hex, push_lower_hex, str_eq};
use std::collections::hash_map::DefaultHasher;
use std::hash::Hasher;
use vstd::std_specs::hash::DefaultHasherAdditionalSpecFns;

verus! {

/// Storage key of the cache.
pub const CACHE_KEY_PACKAGES: &'static str = "tournee_packages_cache";

/// Version that a cache must have reached to be used.
pub const CACHE_VERSION: u32 = 3;

/// Hours after which a cache expires.
pub const CACHE_TTL_HOURS: i64 = 24;

/// A route optimisation kept with the cache. Distance and duration are the
/// bit patterns of their `f64` values (`f64::to_bits`).
pub struct OptimizationCache {
    pub optimized: bool,
    pub order: Vec<usize>,
    pub timestamp: i64,
    pub total_distance_bits: Option<u64>,
    pub total_duration_bits: Option<u64>,
}

/// The cached cards of a tour. `timestamp` is a UNIX time in milliseconds.
pub struct PackagesCache {
    pub version: u32,
    pub tournee_id: String,
    pub packages: Vec<Package>,
    pub singles: Vec<Package>,
    pub groups: Vec<Package>,
    pub problematic: Vec<Package>,
    pub timestamp: i64,
    pub checksum: String,
    pub optimization_data: Option<OptimizationCache>,
}

/// Problematic cards.
pub open spec fn problematic_filter() -> spec_fn(PackageView) -> bool {
    |p: PackageView| p.is_problematic
}

/// Group cards that are not problematic.
pub open spec fn group_filter() -> spec_fn(PackageView) -> bool {
    |p: PackageView| !p.is_problematic && p.is_group
}

/// Single cards that are not problematic.
pub open spec fn single_filter() -> spec_fn(PackageView) -> bool {
    |p: PackageView| !p.is_problematic && !p.is_group
}

/// What `Hash::hash` of a `usize` feeds to a `DefaultHasher`, as the
/// writes of the hasher's model.
pub uninterp spec fn usize_hash_writes(n: usize) -> Seq<Seq<u8>>;

/// What `Hash::hash` of a `String` feeds to a `DefaultHasher`, as the
/// writes of the hasher's model.
pub uninterp spec fn string_hash_writes(s: Seq<char>) -> Seq<Seq<u8>>;

/// What the checksum feeds the hasher for the cards, in order: each
/// card's id, then its status code when it has one.
pub open spec fn checksum_writes(s: Seq<PackageView>) -> Seq<Seq<u8>>
    decreases s.len(),
{
    if s.len() == 0 {
        seq![]
    } else {
        let p = s.last();
        checksum_writes(s.drop_last()) + string_hash_writes(p.id) + match p.code_statut_article {
            Some(c) => string_hash_writes(c),
            None => seq![],
        }
    }
}

/// The checksum of a list of cards: the `DefaultHasher` digest of their
/// number, then of their ids and status codes, in lowercase hexadecimal.
pub open spec fn checksum_spec(s: Seq<PackageView>) -> Seq<char> {
    lower_hex(DefaultHasher::spec_finish(usize_hash_writes(s.len() as usize) + checksum_writes(s)) as nat)
}

/// Calls `Hash::hash` on `n` with `hasher`. What it writes is named, not
/// stated: it depends on `n` alone and is added after what the hasher
/// already holds.
#[verifier::external_body]
fn hash_usize(n: usize, hasher: &mut DefaultHasher)
    ensures
        final(hasher)@ == old(hasher)@ + usize_hash_writes(n),
{
    std::hash::Hash::hash(&n, hasher)
}

/// Calls `Hash::hash` on the text `s` with `hasher`. What it writes is
/// named, not stated: it depends on the text alone and is added after what
/// the hasher already holds.
#[verifier::external_body]
fn hash_string(s: &String, hasher: &mut DefaultHasher)
    ensures
        final(hasher)@ == old(hasher)@ + string_hash_writes(s@),
{
    std::hash::Hash::hash(s, hasher)
}

impl PackagesCache {
    /// The cache is of the current version, less than a day older than
    /// `now` in whole hours, and its checksum matches its cards.
    pub open spec fn spec_is_valid_at(&self, now: int) -> bool {
        &&& self.version >= CACHE_VERSION
        &&& trunc_hours(now - self.timestamp) <= CACHE_TTL_HOURS
        &&& self.checksum@ == checksum_spec(packages_view(self.packages@))
    }

    /// The cache holds `cards` as its cards, sorted into the three
    /// categories, stamped with `now` and the current version, with their
    /// checksum.
    pub open spec fn spec_holds(&self, cards: Seq<PackageView>, now: int) -> bool {
        &&& self.version == CACHE_VERSION
        &&& packages_view(self.packages@) == cards
        &&& packages_view(self.singles@) == cards.filter(single_filter())
        &&& packages_view(self.groups@) == cards.filter(group_filter())
        &&& packages_view(self.problematic@) == cards.filter(problematic_filter())
        &&& self.timestamp == now
        &&& self.checksum@ == checksum_spec(cards)
    }

    /// A cache of `packages` for a tour, stamped with `now`.
    pub fn new(tournee_id: String, packages: Vec<Package>, now: i64) -> (c: Self)
        ensures
            c.tournee_id == tournee_id,
            c.spec_holds(packages_view(packages@), now as int),
            c.optimization_data.is_none(),
            c.spec_is_valid_at(now as int),
    {
        let (singles, groups, problematic) = Self::categorize_packages(&packages);
        let checksum = Self::calculate_checksum(&packages);
        PackagesCache {
            version: CACHE_VERSION,
            tournee_id,
            packages,
            singles,
            groups,
            problematic,
            timestamp: now,
            checksum,
            optimization_data: None,
        }
    }

    /// The cards split into (singles, groups, problematic): problematic
    /// cards whatever their kind, then groups and singles among the rest.
    pub fn categorize_packages(packages: &[Package]) -> (r: (Vec<Package>, Vec<Package>, Vec<Package>))
        ensures
            packages_view(r.0@) == packages_view(packages@).filter(single_filter()),
            packages_view(r.1@) == packages_view(packages@).filter(group_filter()),
            packages_view(r.2@) == packages_view(packages@).filter(problematic_filter()),
    {
        let mut singles: Vec<Package> = Vec::new();
        let mut groups: Vec<Package> = Vec::new();
        let mut problematic: Vec<Package> = Vec::new();
        let mut i: usize = 0;
        proof {
            reveal(Seq::filter);
            assert(packages_view(packages@.subrange(0, 0)) =~= Seq::<PackageView>::empty());
        }
        while i < packages.len()
            invariant
                i <= packages@.len(),
                packages_view(singles@) == packages_view(packages@.subrange(0, i as int)).filter(single_filter()),
                packages_view(groups@) == packages_view(packages@.subrange(0, i as int)).filter(group_filter()),
                packages_view(problematic@) == packages_view(packages@.subrange(0, i as int)).filter(problematic_filter()),
            decreases packages@.len() - i,
        {
            let pkg = &packages[i];
            proof {
                let sub = packages_view(packages@.subrange(0, i as int));
                assert(packages_view(packages@.subrange(0, i + 1)) =~= sub.push(pkg@));
                sub.lemma_filter_push(pkg@, single_filter());
                sub.lemma_filter_push(pkg@, group_filter());
                sub.lemma_filter_push(pkg@, problematic_filter());
            }
            if pkg.is_problematic {
                let ghost before = problematic@;
                problematic.push(pkg.duplicate());
                assert(packages_view(problematic@) =~= packages_view(before).push(pkg@));
            } else if pkg.is_group {
                let ghost before = groups@;
                groups.push(pkg.duplicate());
                assert(packages_view(groups@) =~= packages_view(before).push(pkg@));
            } else {
                let ghost before = singles@;
                singles.push(pkg.duplicate());
                assert(packages_view(singles@) =~= packages_view(before).push(pkg@));
            }
            i += 1;
        }
        assert(packages@.subrange(0, packages@.len() as int) =~= packages@);
        (singles, groups, problematic)
    }

    /// The checksum of the cards: the `DefaultHasher` digest of their ids
    /// and status codes, in lowercase hexadecimal.
    pub fn calculate_checksum(packages: &[Package]) -> (r: String)
        ensures
            r@ == checksum_spec(packages_view(packages@)),
    {
        let mut hasher = DefaultHasher::new();
        hash_usize(packages.len(), &mut hasher);
        let ghost start = hasher@;
        let mut i: usize = 0;
        proof {
            assert(packages_view(packages@.subrange(0, 0)) =~= Seq::<PackageView>::empty());
            assert(start + checksum_writes(Seq::<PackageView>::empty()) =~= start);
        }
        while i < packages.len()
            invariant
                i <= packages@.len(),
                start == usize_hash_writes(packages@.len() as usize),
                hasher@ == start + checksum_writes(packages_view(packages@.subrange(0, i as int))),
            decreases packages@.len() - i,
        {
            let ghost before = hasher@;
            let p = &packages[i];
            hash_string(&p.id, &mut hasher);
            match &p.code_statut_article {
                Some(c) => {
                    hash_string(c, &mut hasher);
                },
                None => {},
            }
            proof {
                let prefix = packages_view(packages@.subrange(0, i as int));
                let sub = packages_view(packages@.subrange(0, i as int + 1));
                assert(sub.drop_last() =~= prefix);
                assert(sub.last() == p@);
                assert(hasher@ =~= start + checksum_writes(prefix) + string_hash_writes(p@.id)
                    + match p@.code_statut_article {
                        Some(c) => string_hash_writes(c),
                        None => Seq::<Seq<u8>>::empty(),
                    });
                assert(checksum_writes(sub) == checksum_writes(prefix) + string_hash_writes(p@.id)
                    + match p@.code_statut_article {
                        Some(c) => string_hash_writes(c),
                        None => Seq::<Seq<u8>>::empty(),
                    });
                assert(hasher@ =~= start + checksum_writes(sub));
            }
            i += 1;
        }
        assert(packages@.subrange(0, packages@.len() as int) =~= packages@);
        let digest = hasher.finish();
        let mut out = String::new();
        push_lower_hex(&mut out, digest);
        out
    }

    /// Whether the cache may be used at time `now`: current version, at
    /// most 24 whole hours old, checksum matching the cards.
    pub fn is_valid(&self, now: i64) -> (r: bool)
        requires
            is_utc_millis(now as int),
            is_utc_millis(self.timestamp as int),
        ensures
            r == self.spec_is_valid_at(now as int),
    {
        if self.version < CACHE_VERSION {
            return false;
        }
        let age_hours = hours_between(now, self.timestamp);
        if age_hours > CACHE_TTL_HOURS {
            return false;
        }
        let current_checksum = Self::calculate_checksum(&self.packages);
        str_eq(current_checksum.as_str(), self.checksum.as_str())
    }

    /// Replaces the cards, re-sorts them, re-stamps the cache with `now`
    /// and the current version and recomputes the checksum.
    pub fn update_packages(&mut self, packages: Vec<Package>, now: i64)
        ensures
            final(self).spec_holds(packages_view(packages@), now as int),
            final(self).tournee_id == old(self).tournee_id,
            final(self).optimization_data == old(self).optimization_data,
            final(self).spec_is_valid_at(now as int),
    {
        let (singles, groups, problematic) = Self::categorize_packages(&packages);
        let checksum = Self::calculate_checksum(&packages);
        self.packages = packages;
        self.singles = singles;
        self.groups = groups;
        self.problematic = problematic;
        self.timestamp = now;
        self.checksum = checksum;
        self.version = CACHE_VERSION;
    }

    /// Records an optimised order (marked as optimised) and re-stamps the
    /// cache with `now`.
    pub fn update_optimization(
        &mut self,
        order: Vec<usize>,
        total_distance_bits: Option<u64>,
        total_duration_bits: Option<u64>,
        now: i64,
    )
        ensures
            final(self).optimization_data matches Some(o) && o.optimized && o.order@ == order@
                && o.timestamp == now && o.total_distance_bits == total_distance_bits
                && o.total_duration_bits == total_duration_bits,
            final(self).timestamp == now,
            final(self).version == old(self).version,
            final(self).tournee_id == old(self).tournee_id,
            final(self).packages == old(self).packages,
            final(self).singles == old(self).singles,
            final(self).groups == old(self).groups,
            final(self).problematic == old(self).problematic,
            final(self).checksum == old(self).checksum,
    {
        self.optimization_data = Some(OptimizationCache {
            optimized: true,
            order,
            timestamp: now,
            total_distance_bits,
            total_duration_bits,
        });
        self.timestamp = now;
    }

}

/// `i` is the first position of a card with id `id`.
pub open spec fn is_first_with_id(s: Seq<PackageView>, id: Seq<char>, i: int) -> bool {
    &&& 0 <= i < s.len()
    &&& s[i].id == id
    &&& forall|j: int| 0 <= j < i ==> s[j].id != id
}

/// The cards with the first card of id `id`, if any, changed by `f`.
pub open spec fn change_first(s: Seq<PackageView>, id: Seq<char>, f: spec_fn(PackageView) -> PackageView) -> Seq<PackageView> {
    if exists|i: int| is_first_with_id(s, id, i) {
        let i = choose|i: int| is_first_with_id(s, id, i);
        s.update(i, f(s[i]))
    } else {
        s
    }
}

/// A card marked problematic: flagged, without coordinates.
pub open spec fn marked_problematic(p: PackageView) -> PackageView {
    PackageView { is_problematic: true, coords: None, ..p }
}

/// A card moved to a corrected address: new coordinates and label, no
/// longer problematic.
pub open spec fn relocated(p: PackageView, coords: Coordinates, address: Seq<char>) -> PackageView {
    PackageView { coords: Some(coords), address: address, is_problematic: false, ..p }
}

/// The message of the error given when there is no cache to change.
pub open spec fn no_cache_message() -> Seq<char> {
    "No hay caché para actualizar"@
}

/// The cache `c2` is `c` with its cards replaced by `cards` and re-stamped
/// with `now`.
pub open spec fn refreshed(c: PackagesCache, c2: PackagesCache, cards: Seq<PackageView>, now: int) -> bool {
    &&& c2.spec_holds(cards, now)
    &&& c2.tournee_id == c.tournee_id
    &&& c2.optimization_data == c.optimization_data
}

/// Position of the first card with id `id`.
fn position_of_id(packages: &Vec<Package>, id: &str) -> (r: Option<usize>)
    ensures
        match r {
            Some(i) => is_first_with_id(packages_view(packages@), id@, i as int),
            None => !exists|i: int| is_first_with_id(packages_view(packages@), id@, i),
        },
{
    let mut i: usize = 0;
    while i < packages.len()
        invariant
            i <= packages@.len(),
            forall|j: int| 0 <= j < i ==> packages@[j].id@ != id@,
        decreases packages@.len() - i,
    {
        if str_eq(packages[i].id.as_str(), id) {
            return Some(i);
        }
        i += 1;
    }
    None
}

/// The first index of a card with a given id is unique.
proof fn lemma_first_unique(s: Seq<PackageView>, id: Seq<char>, i: int, j: int)
    requires
        is_first_with_id(s, id, i),
        is_first_with_id(s, id, j),
    ensures
        i == j,
{
    if i < j {
        assert(s[i].id != id);
    } else if j < i {
        assert(s[j].id != id);
    }
}

/// The user name of the stored login (`login_data`), when it has one.
pub fn login_username(login_data: Option<&JsonValue>) -> (r: Option<String>)
    ensures
        match login_data {
            Some(d) => match d.text_member("username"@) {
                Some(u) => r matches Some(n) && n@ == u,
                None => r is None,
            },
            None => r is None,
        },
{
    match login_data {
        Some(d) => match d.str_member("username") {
            Some(u) => Some(String::from_str(u)),
            None => None,
        },
        None => None,
    }
}

/// Operations on the stored package cache; the caller loads the cache
/// before and stores the result after.
pub struct CacheService;

impl CacheService {
    /// The cache with its cards replaced, stamped with `now`; without a
    /// cache, a new one for the tour of `username` (or `"unknown"`).
    pub fn update_packages(cache: Option<PackagesCache>, username: Option<String>, packages: Vec<Package>, now: i64) -> (r: PackagesCache)
        ensures
            r.spec_holds(packages_view(packages@), now as int),
            match cache {
                Some(c) => r.tournee_id == c.tournee_id && r.optimization_data == c.optimization_data,
                None => r.tournee_id@ == (match username { Some(u) => u@, None => "unknown"@ })
                    && r.optimization_data.is_none(),
            },
    {
        let mut c = match cache {
            Some(c) => c,
            None => {
                let tournee_id = match username {
                    Some(u) => u,
                    None => String::from_str("unknown"),
                };
                PackagesCache::new(tournee_id, Vec::new(), now)
            },
        };
        c.update_packages(packages, now);
        c
    }

    /// The cache with an optimised order recorded; an error without a cache.
    pub fn update_optimization(
        cache: Option<PackagesCache>,
        order: Vec<usize>,
        total_distance_bits: Option<u64>,
        total_duration_bits: Option<u64>,
        now: i64,
    ) -> (r: Result<PackagesCache, String>)
        ensures
            match cache {
                None => r matches Err(e) && e@ == no_cache_message(),
                Some(c) => r matches Ok(c2)
                    && (c2.optimization_data matches Some(o) && o.optimized && o.order@ == order@
                        && o.timestamp == now && o.total_distance_bits == total_distance_bits
                        && o.total_duration_bits == total_duration_bits)
                    && c2.timestamp == now && c2.version == c.version && c2.tournee_id == c.tournee_id
                    && c2.packages == c.packages && c2.checksum == c.checksum
                    && c2.singles == c.singles && c2.groups == c.groups
                    && c2.problematic == c.problematic,
            },
    {
        match cache {
            None => Err(String::from_str("No hay caché para actualizar")),
            Some(mut c) => {
                c.update_optimization(order, total_distance_bits, total_duration_bits, now);
                Ok(c)
            },
        }
    }

    /// The cache with the first card of id `package_id` marked problematic
    /// (flagged, coordinates dropped), re-sorted and re-stamped with `now`;
    /// an error without a cache.
    pub fn mark_package_problematic(cache: Option<PackagesCache>, package_id: &str, now: i64) -> (r: Result<PackagesCache, String>)
        ensures
            match cache {
                None => r matches Err(e) && e@ == no_cache_message(),
                Some(c) => r matches Ok(c2) && refreshed(c, c2,
                    change_first(packages_view(c.packages@), package_id@, |p: PackageView| marked_problematic(p)),
                    now as int),
            },
    {
        match cache {
            None => Err(String::from_str("No hay caché para actualizar")),
            Some(mut c) => {
                let ghost cards = packages_view(c.packages@);
                let mut packages = clone_packages(&c.packages);
                match position_of_id(&packages, package_id) {
                    Some(i) => {
                        let mut p = packages[i].duplicate();
                        p.is_problematic = true;
                        p.coords = None;
                        packages.set(i, p);
                        proof {
                            let i0 = choose|i0: int| is_first_with_id(cards, package_id@, i0);
                            lemma_first_unique(cards, package_id@, i as int, i0);
                            assert(packages_view(packages@) =~= cards.update(i as int, marked_problematic(cards[i as int])));
                        }
                    },
                    None => {},
                }
                c.update_packages(packages, now);
                Ok(c)
            },
        }
    }

    /// The cache with the first card of id `package_id` moved to `coords`
    /// and `address` and no longer problematic, re-sorted and re-stamped
    /// with `now`; an error without a cache.
    pub fn update_package_coords(
        cache: Option<PackagesCache>,
        package_id: &str,
        coords: Coordinates,
        address: String,
        now: i64,
    ) -> (r: Result<PackagesCache, String>)
        ensures
            match cache {
                None => r matches Err(e) && e@ == no_cache_message(),
                Some(c) => r matches Ok(c2) && refreshed(c, c2,
                    change_first(packages_view(c.packages@), package_id@, |p: PackageView| relocated(p, coords, address@)),
                    now as int),
            },
    {
        match cache {
            None => Err(String::from_str("No hay caché para actualizar")),
            Some(mut c) => {
                let ghost cards = packages_view(c.packages@);
                let mut packages = clone_packages(&c.packages);
                match position_of_id(&packages, package_id) {
                    Some(i) => {
                        let mut p = packages[i].duplicate();
                        p.coords = Some(coords);
                        p.address = address;
                        p.is_problematic = false;
                        packages.set(i, p);
                        proof {
                            let i0 = choose|i0: int| is_first_with_id(cards, package_id@, i0);
                            lemma_first_unique(cards, package_id@, i as int, i0);
                            assert(packages_view(packages@) =~= cards.update(i as int, relocated(cards[i as int], coords, address@)));
                        }
                    },
                    None => {},
                }
                c.update_packages(packages, now);
                Ok(c)
            },
        }
    }

    /// Figures of the cache at time `now`; all zero and empty without one.
    pub fn get_stats(cache: &Option<PackagesCache>, now: i64) -> (r: CacheStats)
        requires
            is_utc_millis(now as int),
            cache matches Some(c) ==> is_utc_millis(c.timestamp as int),
        ensures
            match cache {
                Some(c) => r.total_packages == c.packages@.len() && r.singles == c.singles@.len()
                    && r.groups == c.groups@.len() && r.problematic == c.problematic@.len()
                    && r.is_optimized == c.optimization_data.is_some()
                    && r.age_hours == trunc_hours(now - c.timestamp)
                    && r.version == c.version && r.checksum == c.checksum,
                None => r.spec_is_default(),
            },
    {
        match cache {
            Some(c) => CacheStats {
                total_packages: c.packages.len(),
                singles: c.singles.len(),
                groups: c.groups.len(),
                problematic: c.problematic.len(),
                is_optimized: c.optimization_data.is_some(),
                age_hours: hours_between(now, c.timestamp),
                version: c.version,
                checksum: c.checksum.clone(),
            },
            None => CacheStats::default(),
        }
    }
}

/// A card's new position, as the synchronisation of the tour reports it.
pub struct CoordsUpdate {
    pub package_id: String,
    pub latitude_bits: u64,
    pub longitude_bits: u64,
    pub address: String,
}

/// What the synchronisation of a tour sends: the problematic cards and the
/// positions of the others.
pub struct SyncStatePayload {
    pub tournee_id: String,
    pub version: u32,
    pub problematic_packages: Vec<String>,
    pub updated_coords: Vec<CoordsUpdate>,
    pub checksum: String,
}

/// The cards that report a position: located and not problematic.
pub open spec fn located_filter() -> spec_fn(PackageView) -> bool {
    |p: PackageView| p.coords.is_some() && !p.is_problematic
}

/// The characters of a position update.
pub open spec fn update_view(u: CoordsUpdate) -> (Seq<char>, Coordinates, Seq<char>) {
    (u.package_id@, Coordinates { latitude_bits: u.latitude_bits, longitude_bits: u.longitude_bits }, u.address@)
}

/// The position update of a located card.
pub open spec fn card_update(p: PackageView) -> (Seq<char>, Coordinates, Seq<char>) {
    (p.id, p.coords.unwrap(), p.address)
}

impl CacheService {
    /// What synchronising the tour `tournee_id` sends, from the stored
    /// cache: the ids of its problematic cards, the position of each located
    /// card that is not problematic, its version and checksum; an error
    /// without a cache.
    pub fn sync_request(cache: &Option<PackagesCache>, tournee_id: &str) -> (r: Result<SyncStatePayload, String>)
        ensures
            match *cache {
                None => r matches Err(e) && e@ == "No hay caché para sincronizar"@,
                Some(c) => r matches Ok(p) && p.tournee_id@ == tournee_id@ && p.version == c.version
                    && p.checksum == c.checksum
                    && p.problematic_packages@.map_values(|s: String| s@)
                        == packages_view(c.problematic@).map_values(|v: PackageView| v.id)
                    && p.updated_coords@.map_values(|u: CoordsUpdate| update_view(u))
                        == packages_view(c.packages@).filter(located_filter()).map_values(|v: PackageView| card_update(v)),
            },
    {
        match cache {
            None => Err(String::from_str("No hay caché para sincronizar")),
            Some(c) => {
                let mut problematic: Vec<String> = Vec::new();
                let mut i: usize = 0;
                while i < c.problematic.len()
                    invariant
                        i <= c.problematic@.len(),
                        problematic@.map_values(|s: String| s@)
                            == packages_view(c.problematic@.subrange(0, i as int)).map_values(|v: PackageView| v.id),
                    decreases c.problematic@.len() - i,
                {
                    let ghost before = problematic@;
                    let id = c.problematic[i].id.clone();
                    problematic.push(id);
                    proof {
                        let pv = packages_view(c.problematic@.subrange(0, i as int));
                        assert(packages_view(c.problematic@.subrange(0, i as int + 1)) =~= pv.push(c.problematic@[i as int]@));
                        assert(pv.push(c.problematic@[i as int]@).map_values(|v: PackageView| v.id)
                            =~= pv.map_values(|v: PackageView| v.id).push(id@));
                        assert(problematic@.map_values(|s: String| s@) =~= before.map_values(|s: String| s@).push(id@));
                    }
                    i += 1;
                }
                proof {
                    assert(c.problematic@.subrange(0, c.problematic@.len() as int) =~= c.problematic@);
                }
                let mut updates: Vec<CoordsUpdate> = Vec::new();
                let mut k: usize = 0;
                proof {
                    reveal(Seq::filter);
                }
                while k < c.packages.len()
                    invariant
                        k <= c.packages@.len(),
                        updates@.map_values(|u: CoordsUpdate| update_view(u))
                            == packages_view(c.packages@.subrange(0, k as int)).filter(located_filter()).map_values(|v: PackageView| card_update(v)),
                    decreases c.packages@.len() - k,
                {
                    let p = &c.packages[k];
                    let ghost sub = packages_view(c.packages@.subrange(0, k as int));
                    proof {
                        assert(packages_view(c.packages@.subrange(0, k as int + 1)) =~= sub.push(p@));
                        sub.lemma_filter_push(p@, located_filter());
                    }
                    if !p.is_problematic {
                        match p.coords {
                            Some(co) => {
                                let ghost before = updates@;
                                let u = CoordsUpdate {
                                    package_id: p.id.clone(),
                                    latitude_bits: co.latitude_bits,
                                    longitude_bits: co.longitude_bits,
                                    address: p.address.clone(),
                                };
                                assert(update_view(u) == card_update(p@));
                                updates.push(u);
                                proof {
                                    assert(updates@.map_values(|u: CoordsUpdate| update_view(u))
                                        =~= before.map_values(|u: CoordsUpdate| update_view(u)).push(update_view(u)));
                                    assert(sub.filter(located_filter()).push(p@).map_values(|v: PackageView| card_update(v))
                                        =~= sub.filter(located_filter()).map_values(|v: PackageView| card_update(v)).push(card_update(p@)));
                                }
                            },
                            None => {},
                        }
                    }
                    k += 1;
                }
                proof {
                    assert(c.packages@.subrange(0, c.packages@.len() as int) =~= c.packages@);
                }
                Ok(SyncStatePayload {
                    tournee_id: String::from_str(tournee_id),
                    version: c.version,
                    problematic_packages: problematic,
                    updated_coords: updates,
                    checksum: c.checksum.clone(),
                })
            },
        }
    }
}

/// Figures of a package cache.
pub struct CacheStats {
    pub total_packages: usize,
    pub singles: usize,
    pub groups: usize,
    pub problematic: usize,
    pub is_optimized: bool,
    pub age_hours: i64,
    pub version: u32,
    pub checksum: String,
}

impl CacheStats {
    /// All figures zero, not optimised, empty checksum.
    pub open spec fn spec_is_default(&self) -> bool {
        &&& self.total_packages == 0
        &&& self.singles == 0
        &&& self.groups == 0
        &&& self.problematic == 0
        &&& !self.is_optimized
        &&& self.age_hours == 0
        &&& self.version == 0
        &&& self.checksum@.len() == 0
    }
}

impl Default for CacheStats {
    fn default() -> (r: Self)
        ensures
            r.spec_is_default(),
    {
        CacheStats {
            total_packages: 0,
            singles: 0,
            groups: 0,
            problematic: 0,
            is_optimized: false,
            age_hours: 0,
            version: 0,
            checksum: String::new(),
        }
    }
}

/// Every card falls in exactly one of the three categories, so their sizes
/// add up to the number of cards.
pub proof fn law_categories_partition(cards: Seq<PackageView>)
    ensures
        cards.filter(single_filter()).len() + cards.filter(group_filter()).len()
            + cards.filter(problematic_filter()).len() == cards.len(),
        forall|i: int| 0 <= i < cards.len() ==> {
            let p = #[trigger] cards[i];
            (single_filter()(p) as int) + (group_filter()(p) as int) + (problematic_filter()(p) as int) == 1
        },
    decreases cards.len(),
{
    if cards.len() == 0 {
        reveal(Seq::filter);
    } else {
        let init = cards.drop_last();
        let x = cards.last();
        law_categories_partition(init);
        assert(init.push(x) =~= cards);
        init.lemma_filter_push(x, single_filter());
        init.lemma_filter_push(x, group_filter());
        init.lemma_filter_push(x, problematic_filter());
        assert forall|i: int| 0 <= i < cards.len() implies {
            let p = #[trigger] cards[i];
            (single_filter()(p) as int) + (group_filter()(p) as int) + (problematic_filter()(p) as int) == 1
        } by {
            if i < cards.len() - 1 {
                assert(cards[i] == init[i]);
            }
        }
    }
}

/// Which category a card joins: a problematic card always goes to the
/// problematic ones; otherwise a group card to the groups and any other
/// card to the singles.
pub proof fn law_card_categories(cards: Seq<PackageView>, p: PackageView)
    ensures
        cards.push(p).filter(problematic_filter()).len() == cards.filter(problematic_filter()).len()
            + if p.is_problematic { 1int } else { 0int },
        cards.push(p).filter(group_filter()).len() == cards.filter(group_filter()).len()
            + if !p.is_problematic && p.is_group { 1int } else { 0int },
        cards.push(p).filter(single_filter()).len() == cards.filter(single_filter()).len()
            + if !p.is_problematic && !p.is_group { 1int } else { 0int },
        forall|k: int| 0 <= k < cards.filter(problematic_filter()).len()
            ==> (#[trigger] cards.filter(problematic_filter())[k]).is_problematic,
        forall|k: int| 0 <= k < cards.filter(group_filter()).len()
            ==> (#[trigger] cards.filter(group_filter())[k]).is_group && !cards.filter(group_filter())[k].is_problematic,
        forall|k: int| 0 <= k < cards.filter(single_filter()).len()
            ==> !(#[trigger] cards.filter(single_filter())[k]).is_group && !cards.filter(single_filter())[k].is_problematic,
{
    reveal(Seq::filter);
    cards.lemma_filter_push(p, problematic_filter());
    cards.lemma_filter_push(p, group_filter());
    cards.lemma_filter_push(p, single_filter());
    cards.filter_lemma(problematic_filter());
    cards.filter_lemma(group_filter());
    cards.filter_lemma(single_filter());
}

/// Marking the card `id` problematic changes only the first card with that
/// id: it is flagged and loses its position, everything else about it
/// stays; the other cards stay as they were, and without such a card
/// nothing changes.
pub proof fn law_mark_problematic_changes_one_card(s: Seq<PackageView>, id: Seq<char>)
    ensures
        ({
            let r = change_first(s, id, |p: PackageView| marked_problematic(p));
            &&& r.len() == s.len()
            &&& (exists|j: int| 0 <= j < s.len() && s[j].id == id) ==> exists|i: int| is_first_with_id(s, id, i)
            &&& (forall|j: int| 0 <= j < s.len() ==> s[j].id != id) ==> r == s
            &&& forall|i: int| is_first_with_id(s, id, i) ==> {
                &&& r[i].is_problematic
                &&& r[i].coords is None
                &&& r[i] == (PackageView { is_problematic: r[i].is_problematic, coords: r[i].coords, ..s[i] })
                &&& forall|j: int| 0 <= j < s.len() && j != i ==> r[j] == s[j]
            }
        }),
{
    assert forall|i: int, j: int| is_first_with_id(s, id, i) && is_first_with_id(s, id, j) implies i == j by {
        lemma_first_unique(s, id, i, j);
    }
    if exists|j: int| 0 <= j < s.len() && s[j].id == id {
        let j = choose|j: int| 0 <= j < s.len() && s[j].id == id;
        lemma_first_exists(s, id, j);
    }
}

/// A card with id `id` at `j` means there is a first one.
proof fn lemma_first_exists(s: Seq<PackageView>, id: Seq<char>, j: int)
    requires
        0 <= j < s.len(),
        s[j].id == id,
    ensures
        exists|i: int| is_first_with_id(s, id, i),
    decreases j,
{
    if exists|m: int| 0 <= m < j && s[m].id == id {
        let m = choose|m: int| 0 <= m < j && s[m].id == id;
        lemma_first_exists(s, id, m);
    } else {
        assert(is_first_with_id(s, id, j));
    }
}

/// Moving the card `id` to a corrected address changes only the first card
/// with that id: it gets the new position and label and is no longer
/// problematic, everything else about it stays; the other cards stay as
/// they were, and without such a card nothing changes.
pub proof fn law_relocation_changes_one_card(s: Seq<PackageView>, id: Seq<char>, coords: Coordinates, address: Seq<char>)
    ensures
        ({
            let r = change_first(s, id, |p: PackageView| relocated(p, coords, address));
            &&& r.len() == s.len()
            &&& (exists|j: int| 0 <= j < s.len() && s[j].id == id) ==> exists|i: int| is_first_with_id(s, id, i)
            &&& (forall|j: int| 0 <= j < s.len() ==> s[j].id != id) ==> r == s
            &&& forall|i: int| is_first_with_id(s, id, i) ==> {
                &&& r[i].coords == Some(coords)
                &&& r[i].address == address
                &&& !r[i].is_problematic
                &&& r[i] == (PackageView { coords: r[i].coords, address: r[i].address, is_problematic: r[i].is_problematic, ..s[i] })
                &&& forall|j: int| 0 <= j < s.len() && j != i ==> r[j] == s[j]
            }
        }),
{
    assert forall|i: int, j: int| is_first_with_id(s, id, i) && is_first_with_id(s, id, j) implies i == j by {
        lemma_first_unique(s, id, i, j);
    }
    if exists|j: int| 0 <= j < s.len() && s[j].id == id {
        let j = choose|j: int| 0 <= j < s.len() && s[j].id == id;
        lemma_first_exists(s, id, j);
    }
}

/// A cache of the current version whose checksum matches its cards may be
/// used until 25 hours after it was stamped (its age in whole hours is then
/// at most 24), and no longer; an older version never.
pub proof fn law_cache_lasts_25_hours(c: PackagesCache, now: int)
    requires
        now >= c.timestamp,
    ensures
        c.version < 3 ==> !c.spec_is_valid_at(now),
        (c.version >= 3 && c.checksum@ == checksum_spec(packages_view(c.packages@)))
            ==> (c.spec_is_valid_at(now) <==> now - c.timestamp < 90_000_000),
{
}

/// The synchronisation reports the position of a card exactly when it has
/// one and is not problematic, with the card's id, position and label.
pub proof fn law_sync_reports_located_cards(cards: Seq<PackageView>, p: PackageView)
    ensures
        cards.push(p).filter(located_filter()) == if p.coords is Some && !p.is_problematic {
            cards.filter(located_filter()).push(p)
        } else {
            cards.filter(located_filter())
        },
        p.coords matches Some(c) ==> card_update(p) == (p.id, c, p.address),
{
    reveal(Seq::filter);
    cards.lemma_filter_push(p, located_filter());
}

} // verus!
