use vstd::prelude::*;
use crate::device::{AudioDevice, DeviceRecord, clone_devices, records_of};

verus! {

/// How long a catalog snapshot stays valid, in milliseconds.
pub const DEFAULT_CACHE_TTL_MS: u64 = 30000;

/// No two records share an id.
pub open spec fn unique_ids(rs: Seq<DeviceRecord>) -> bool {
    forall|i: int, j: int|
        0 <= i < rs.len() && 0 <= j < rs.len() && i != j ==> rs[i].id != rs[j].id
}

/// The catalog that a listing fills when its records are stored in turn,
/// keyed by id: a later record replaces an earlier one with the same id.
pub open spec fn catalog_of(rs: Seq<DeviceRecord>) -> Map<Seq<char>, DeviceRecord>
    decreases rs.len(),
{
    if rs.len() == 0 {
        Map::empty()
    } else {
        catalog_of(rs.drop_last()).insert(rs.last().id, rs.last())
    }
}

/// Whether a snapshot taken at `last_refresh` is still valid at `now`: the
/// time elapsed (none, where `now` is earlier) is under the time-to-live.
pub open spec fn fresh_at(last_refresh: Option<u64>, ttl: u64, now: u64) -> bool {
    match last_refresh {
        Some(t) => (if now >= t { now - t } else { 0 }) < ttl,
        None => false,
    }
}

proof fn lemma_catalog_update(rs: Seq<DeviceRecord>, j: int, r: DeviceRecord)
    requires
        unique_ids(rs),
        0 <= j < rs.len(),
        rs[j].id == r.id,
    ensures
        catalog_of(rs.update(j, r)) == catalog_of(rs).insert(r.id, r),
    decreases rs.len(),
{
    let u = rs.update(j, r);
    if j == rs.len() - 1 {
        assert(u.drop_last() =~= rs.drop_last());
        assert(catalog_of(u) =~= catalog_of(rs).insert(r.id, r));
    } else {
        assert(u.drop_last() =~= rs.drop_last().update(j, r));
        lemma_catalog_update(rs.drop_last(), j, r);
        assert(rs.last().id != r.id);
        assert(catalog_of(u) =~= catalog_of(rs).insert(r.id, r));
    }
}

/// The device catalog: a time-bounded snapshot of the devices, keyed by id.
pub struct AudioManagerState {
    cached_devices: Vec<AudioDevice>,
    last_refresh: Option<u64>,
    cache_ttl: u64,
}

impl AudioManagerState {
    /// The snapshot, by device id.
    pub closed spec fn catalog(&self) -> Map<Seq<char>, DeviceRecord> {
        catalog_of(records_of(self.cached_devices@))
    }

    /// When the snapshot was taken, in milliseconds of the caller's clock.
    pub closed spec fn last_refresh(&self) -> Option<u64> {
        self.last_refresh
    }

    /// How long a snapshot stays valid, in milliseconds.
    pub closed spec fn ttl(&self) -> u64 {
        self.cache_ttl
    }

    /// No two cached devices share an id.
    #[verifier::type_invariant]
    spec fn inv(&self) -> bool {
        unique_ids(records_of(self.cached_devices@))
    }

    pub open spec fn fresh(&self, now: u64) -> bool {
        fresh_at(self.last_refresh(), self.ttl(), now)
    }

    /// An empty, stale catalog whose snapshots live `ttl_ms` milliseconds.
    pub fn with_ttl(ttl_ms: u64) -> (r: Self)
        ensures
            r.catalog() == Map::<Seq<char>, DeviceRecord>::empty(),
            r.last_refresh() is None,
            r.ttl() == ttl_ms,
    {
        let empty: Vec<AudioDevice> = Vec::new();
        assert(records_of(empty@) =~= Seq::<DeviceRecord>::empty());
        AudioManagerState { cached_devices: empty, last_refresh: None, cache_ttl: ttl_ms }
    }

    /// Whether the snapshot is valid at `now`.
    pub fn is_fresh(&self, now: u64) -> (r: bool)
        ensures
            r == self.fresh(now),
    {
        match self.last_refresh {
            Some(t) => {
                let elapsed: u64 = if now >= t { now - t } else { 0 };
                elapsed < self.cache_ttl
            },
            None => false,
        }
    }

    /// The devices of the snapshot, each once, in no promised order.
    pub fn cached_devices(&self) -> (r: Vec<AudioDevice>)
        ensures
            unique_ids(records_of(r@)),
            catalog_of(records_of(r@)) == self.catalog(),
    {
        proof {
            use_type_invariant(self);
        }
        clone_devices(&self.cached_devices)
    }

    /// Replaces the snapshot wholesale with the devices of a fresh listing,
    /// taken at `now`.
    pub fn refresh(&mut self, devices: &Vec<AudioDevice>, now: u64)
        ensures
            final(self).catalog() == catalog_of(records_of(devices@)),
            final(self).last_refresh() == Some(now),
            final(self).ttl() == old(self).ttl(),
    {
        let mut cached: Vec<AudioDevice> = Vec::new();
        let mut i: usize = 0;
        assert(records_of(devices@.subrange(0, 0)) =~= Seq::<DeviceRecord>::empty());
        assert(records_of(cached@) =~= Seq::<DeviceRecord>::empty());
        while i < devices.len()
            invariant
                i <= devices@.len(),
                unique_ids(records_of(cached@)),
                catalog_of(records_of(cached@)) == catalog_of(records_of(devices@.subrange(0, i as int))),
            decreases devices@.len() - i,
        {
            let d = devices[i].clone();
            let ghost rs_next = records_of(devices@.subrange(0, i as int + 1));
            assert(rs_next.drop_last() =~= records_of(devices@.subrange(0, i as int)));
            assert(rs_next.last() == d@);
            let ghost before = records_of(cached@);
            let mut j: usize = 0;
            let mut found = false;
            while j < cached.len()
                invariant
                    j <= cached@.len(),
                    before == records_of(cached@),
                    found ==> j < cached@.len() && cached@[j as int].id@ == d.id@,
                    !found ==> forall|k: int| 0 <= k < j ==> cached@[k].id@ != d.id@,
                ensures
                    before == records_of(cached@),
                    found ==> j < cached@.len() && cached@[j as int].id@ == d.id@,
                    !found ==> forall|k: int| 0 <= k < cached@.len() ==> cached@[k].id@ != d.id@,
                decreases cached@.len() - j,
            {
                if cached[j].id == d.id {
                    found = true;
                    break;
                }
                j = j + 1;
            }
            if found {
                cached.set(j, d);
                proof {
                    assert(records_of(cached@) =~= before.update(j as int, d@));
                    assert(forall|k: int| 0 <= k < before.len() ==> #[trigger] records_of(cached@)[k].id == before[k].id);
                    lemma_catalog_update(before, j as int, d@);
                }
            } else {
                cached.push(d);
                proof {
                    assert(forall|k: int| 0 <= k < before.len() ==> #[trigger] before[k].id != d@.id);
                    assert(records_of(cached@) =~= before.push(d@));
                    assert(records_of(cached@).drop_last() =~= before);
                }
            }
            i = i + 1;
        }
        assert(devices@.subrange(0, devices@.len() as int) =~= devices@);
        self.cached_devices = cached;
        self.last_refresh = Some(now);
    }

    /// Empties the snapshot and marks it stale, so that the next read fetches.
    pub fn invalidate(&mut self)
        ensures
            final(self).catalog() == Map::<Seq<char>, DeviceRecord>::empty(),
            final(self).last_refresh() is None,
            final(self).ttl() == old(self).ttl(),
    {
        let empty: Vec<AudioDevice> = Vec::new();
        assert(records_of(empty@) =~= Seq::<DeviceRecord>::empty());
        self.cached_devices = empty;
        self.last_refresh = None;
    }
}

impl Default for AudioManagerState {
    /// An empty, stale catalog with the default time-to-live.
    fn default() -> (r: Self)
        ensures
            r.catalog() == Map::<Seq<char>, DeviceRecord>::empty(),
            r.last_refresh() is None,
            r.ttl() == DEFAULT_CACHE_TTL_MS,
    {
        AudioManagerState::with_ttl(DEFAULT_CACHE_TTL_MS)
    }
}

/// A snapshot refreshed at `t` is valid exactly until its time-to-live has
/// elapsed: reads before then are served without a fetch, reads from then
/// on ask for one.
pub proof fn lemma_freshness_window(s: AudioManagerState, t: u64, now: u64)
    requires
        s.last_refresh() == Some(t),
        t <= now,
    ensures
        s.fresh(now) <==> now - t < s.ttl(),
{
}

/// An invalidated catalog is stale at every time.
pub proof fn lemma_invalidated_is_stale(s: AudioManagerState, now: u64)
    requires
        s.last_refresh() is None,
    ensures
        !s.fresh(now),
{
}

} // verus!
