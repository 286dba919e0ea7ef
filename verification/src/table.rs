//! Stream table: a fixed-capacity list of runtime-registered
//! (address, size, rate) entries, allocated lowest-index-first and polled in
//! index order.

use vstd::prelude::*;

verus! {

/// Maximum number of concurrent streams.
pub const MAX_STREAMS: usize = 16;

/// An error returned by a stream table operation.
#[derive(Debug, Clone, Copy, PartialEq, Eq, Structural)]
pub enum TableError {
    /// No free entry was left for a registration.
    CapacityExceeded,
    /// No enabled entry matched the address given for removal.
    NotFound,
}

/// Stream configuration.
#[derive(Debug, Clone, Copy, PartialEq, Eq, Structural)]
pub struct StreamConfig {
    pub addr: u32,
    pub size: usize,
    pub rate_hz: u32,
    pub last_sample_ms: u64,
    pub enabled: bool,
}

/// Whether an enabled entry's sampling interval has elapsed at `now_ms`:
/// `1000 / rate_hz` milliseconds since the last sample, in integer division.
pub open spec fn spec_due(c: StreamConfig, now_ms: u64) -> bool {
    c.enabled && c.rate_hz > 0 && now_ms - c.last_sample_ms >= 1000int / (c.rate_hz as int)
}

/// `c` after a sample at `now_ms`: the interval window rebases to `now_ms`.
pub open spec fn spec_sampled(c: StreamConfig, now_ms: u64) -> StreamConfig {
    StreamConfig { last_sample_ms: now_ms, ..c }
}

impl StreamConfig {
    /// An empty (disabled) entry.
    pub fn new() -> (c: StreamConfig)
        ensures
            c == (StreamConfig { addr: 0, size: 0, rate_hz: 0, last_sample_ms: 0, enabled: false }),
    {
        StreamConfig { addr: 0, size: 0, rate_hz: 0, last_sample_ms: 0, enabled: false }
    }

    /// Decides whether this entry is due at `now_ms` and, if so, rebases its
    /// interval window to `now_ms`. A disabled or zero-rate entry is never
    /// due. `now_ms` must not run backwards past the last sample.
    pub fn should_sample(&mut self, now_ms: u64) -> (due: bool)
        requires
            old(self).last_sample_ms <= now_ms,
        ensures
            due == spec_due(*old(self), now_ms),
            *final(self) == if due { spec_sampled(*old(self), now_ms) } else { *old(self) },
    {
        if !self.enabled || self.rate_hz == 0 {
            return false;
        }
        let interval_ms: u64 = 1000 / (self.rate_hz as u64);
        if now_ms - self.last_sample_ms >= interval_ms {
            self.last_sample_ms = now_ms;
            true
        } else {
            false
        }
    }
}

/// Index of the first entry of `s` at or after `i` with `enabled == false`,
/// or `s.len()` if there is none.
pub open spec fn first_free_from(s: Seq<StreamConfig>, i: int) -> int
    decreases s.len() - i,
{
    if i < 0 || i >= s.len() {
        s.len() as int
    } else if !s[i].enabled {
        i
    } else {
        first_free_from(s, i + 1)
    }
}

/// Index of the first entry of `s` at or after `i` that is enabled with the
/// given address, or `s.len()` if there is none.
pub open spec fn first_match_from(s: Seq<StreamConfig>, addr: u32, i: int) -> int
    decreases s.len() - i,
{
    if i < 0 || i >= s.len() {
        s.len() as int
    } else if s[i].enabled && s[i].addr == addr {
        i
    } else {
        first_match_from(s, addr, i + 1)
    }
}

/// The entry a successful registration writes.
pub open spec fn spec_registered(addr: u32, size: usize, rate_hz: u32) -> StreamConfig {
    StreamConfig { addr, size, rate_hz, last_sample_ms: 0, enabled: true }
}

/// The table after `add_stream(addr, size, rate_hz)` succeeds.
pub open spec fn spec_add(s: Seq<StreamConfig>, addr: u32, size: usize, rate_hz: u32) -> Seq<StreamConfig> {
    s.update(first_free_from(s, 0), spec_registered(addr, size, rate_hz))
}

/// The table after `remove_stream(addr)` succeeds.
pub open spec fn spec_remove(s: Seq<StreamConfig>, addr: u32) -> Seq<StreamConfig> {
    let i = first_match_from(s, addr, 0);
    s.update(i, StreamConfig { enabled: false, ..s[i] })
}

pub proof fn lemma_first_free_bounds(s: Seq<StreamConfig>, i: int)
    requires
        0 <= i <= s.len(),
    ensures
        i <= first_free_from(s, i) <= s.len(),
        first_free_from(s, i) < s.len() ==> !s[first_free_from(s, i)].enabled,
        forall|k: int| i <= k < first_free_from(s, i) ==> s[k].enabled,
    decreases s.len() - i,
{
    if i < s.len() && s[i].enabled {
        lemma_first_free_bounds(s, i + 1);
    }
}

pub proof fn lemma_first_match_bounds(s: Seq<StreamConfig>, addr: u32, i: int)
    requires
        0 <= i <= s.len(),
    ensures
        i <= first_match_from(s, addr, i) <= s.len(),
        first_match_from(s, addr, i) < s.len() ==> {
            let k = first_match_from(s, addr, i);
            s[k].enabled && s[k].addr == addr
        },
        forall|k: int| i <= k < first_match_from(s, addr, i) ==> !(s[k].enabled && s[k].addr == addr),
    decreases s.len() - i,
{
    if i < s.len() && !(s[i].enabled && s[i].addr == addr) {
        lemma_first_match_bounds(s, addr, i + 1);
    }
}

/// The fixed-capacity stream table. Entry state machine: `Empty → Enabled` on
/// a successful registration, `Enabled → Empty` on a successful removal, and
/// nothing else ever changes an entry.
pub struct StreamTable {
    entries: Vec<StreamConfig>,
}

impl StreamTable {
    /// Always `MAX_STREAMS` entries.
    pub open spec fn wf(&self) -> bool {
        self@.len() == MAX_STREAMS
    }

    /// The entries, in index order.
    pub closed spec fn view(&self) -> Seq<StreamConfig> {
        self.entries@
    }

    /// A table of `MAX_STREAMS` empty entries.
    pub fn new() -> (t: StreamTable)
        ensures
            t.wf(),
            t@ == Seq::new(MAX_STREAMS as nat, |i: int| StreamConfig {
                addr: 0, size: 0, rate_hz: 0, last_sample_ms: 0, enabled: false,
            }),
    {
        let mut entries: Vec<StreamConfig> = Vec::new();
        let mut i: usize = 0;
        while i < MAX_STREAMS
            invariant
                i <= MAX_STREAMS,
                entries@.len() == i,
                forall|k: int| 0 <= k < i ==> entries@[k] == (StreamConfig {
                    addr: 0, size: 0, rate_hz: 0, last_sample_ms: 0, enabled: false,
                }),
            decreases MAX_STREAMS - i,
        {
            entries.push(StreamConfig::new());
            i = i + 1;
        }
        let t = StreamTable { entries };
        proof {
            assert(t@ =~= Seq::new(MAX_STREAMS as nat, |i: int| StreamConfig {
                addr: 0, size: 0, rate_hz: 0, last_sample_ms: 0, enabled: false,
            }));
        }
        t
    }

    /// Registers a stream in the first disabled entry, lowest index first,
    /// with the interval baseline at time zero. Fails, leaving the table
    /// unchanged, exactly when every entry is enabled. Addresses are not
    /// validated here: validation is deferred to sample time.
    pub fn add_stream(&mut self, addr: u32, size: usize, rate_hz: u32) -> (r: Result<(), TableError>)
        requires
            old(self).wf(),
        ensures
            final(self).wf(),
            r is Ok <==> exists|k: int| 0 <= k < old(self)@.len() && !old(self)@[k].enabled,
            r is Ok ==> final(self)@ == spec_add(old(self)@, addr, size, rate_hz),
            r is Err ==> final(self)@ == old(self)@ && r == Err::<(), TableError>(TableError::CapacityExceeded),
    {
        proof {
            lemma_first_free_bounds(self@, 0);
        }
        let ghost j = first_free_from(self@, 0);
        let mut i: usize = 0;
        while i < MAX_STREAMS
            invariant
                self.wf(),
                self@ == old(self)@,
                i <= MAX_STREAMS,
                j == first_free_from(self@, 0),
                0 <= j <= self@.len(),
                j < self@.len() ==> !self@[j].enabled,
                forall|k: int| 0 <= k < j ==> self@[k].enabled,
                i <= j,
            decreases MAX_STREAMS - i,
        {
            if !self.entries[i].enabled {
                assert(i == j);
                self.entries.set(i, StreamConfig {
                    addr,
                    size,
                    rate_hz,
                    last_sample_ms: 0,
                    enabled: true,
                });
                return Ok(());
            }
            i = i + 1;
        }
        assert(j == self@.len());
        assert(forall|k: int| 0 <= k < self@.len() ==> self@[k].enabled);
        Err(TableError::CapacityExceeded)
    }

    /// Disables the first enabled entry whose address matches exactly. Fails,
    /// leaving the table byte-for-byte unchanged, exactly when no enabled
    /// entry matches; removing an already-removed address is that same
    /// side-effect-free error.
    pub fn remove_stream(&mut self, addr: u32) -> (r: Result<(), TableError>)
        requires
            old(self).wf(),
        ensures
            final(self).wf(),
            r is Ok <==> exists|k: int|
                0 <= k < old(self)@.len() && old(self)@[k].enabled && old(self)@[k].addr == addr,
            r is Ok ==> final(self)@ == spec_remove(old(self)@, addr),
            r is Err ==> final(self)@ == old(self)@ && r == Err::<(), TableError>(TableError::NotFound),
    {
        proof {
            lemma_first_match_bounds(self@, addr, 0);
        }
        let ghost j = first_match_from(self@, addr, 0);
        let mut i: usize = 0;
        while i < MAX_STREAMS
            invariant
                self.wf(),
                self@ == old(self)@,
                i <= MAX_STREAMS,
                j == first_match_from(self@, addr, 0),
                0 <= j <= self@.len(),
                j < self@.len() ==> self@[j].enabled && self@[j].addr == addr,
                forall|k: int| 0 <= k < j ==> !(self@[k].enabled && self@[k].addr == addr),
                i <= j,
            decreases MAX_STREAMS - i,
        {
            if self.entries[i].enabled && self.entries[i].addr == addr {
                assert(i == j);
                let cleared = StreamConfig { enabled: false, ..self.entries[i] };
                self.entries.set(i, cleared);
                return Ok(());
            }
            i = i + 1;
        }
        assert(j == self@.len());
        Err(TableError::NotFound)
    }

    /// Number of currently enabled entries.
    pub fn count_active_streams(&self) -> (n: usize)
        requires
            self.wf(),
        ensures
            n == self@.filter(|c: StreamConfig| c.enabled).len(),
    {
        let mut n: usize = 0;
        let mut i: usize = 0;
        while i < MAX_STREAMS
            invariant
                self.wf(),
                i <= MAX_STREAMS,
                n == self@.take(i as int).filter(|c: StreamConfig| c.enabled).len(),
                n <= i,
            decreases MAX_STREAMS - i,
        {
            proof {
                assert(self@.take(i + 1).drop_last() =~= self@.take(i as int));
                reveal_with_fuel(Seq::filter, 2);
            }
            if self.entries[i].enabled {
                n = n + 1;
            }
            i = i + 1;
        }
        proof {
            assert(self@.take(MAX_STREAMS as int) =~= self@);
        }
        n
    }

    /// The enabled entries, in index order; read-only diagnostics.
    pub fn list(&self) -> (l: Vec<StreamConfig>)
        requires
            self.wf(),
        ensures
            l@ == self@.filter(|c: StreamConfig| c.enabled),
    {
        let mut l: Vec<StreamConfig> = Vec::new();
        let mut i: usize = 0;
        while i < MAX_STREAMS
            invariant
                self.wf(),
                i <= MAX_STREAMS,
                l@ == self@.take(i as int).filter(|c: StreamConfig| c.enabled),
            decreases MAX_STREAMS - i,
        {
            proof {
                assert(self@.take(i + 1).drop_last() =~= self@.take(i as int));
                reveal_with_fuel(Seq::filter, 2);
            }
            if self.entries[i].enabled {
                l.push(self.entries[i]);
            }
            i = i + 1;
        }
        proof {
            assert(self@.take(MAX_STREAMS as int) =~= self@);
        }
        l
    }

    /// Read access to an entry, for the sampling pass.
    pub fn entry(&self, i: usize) -> (c: StreamConfig)
        requires
            self.wf(),
            i < MAX_STREAMS,
        ensures
            c == self@[i as int],
    {
        self.entries[i]
    }

    /// Replaces an entry, for the sampling pass.
    pub fn set_entry(&mut self, i: usize, c: StreamConfig)
        requires
            old(self).wf(),
            i < MAX_STREAMS,
        ensures
            final(self).wf(),
            final(self)@ == old(self)@.update(i as int, c),
    {
        self.entries.set(i, c);
    }
}

} // verus!
