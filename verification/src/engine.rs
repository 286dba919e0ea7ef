//! Sampler/scheduler tick: one engine object owns the stream table and the
//! line buffer. Each tick drains buffered input bytes into complete command
//! lines, applies each line to the table with exactly one response record per
//! line, samples every due stream through the validator, and emits a
//! heartbeat at a fixed cadence.

use vstd::prelude::*;
use crate::numparse::{spec_parse_addr, spec_parse_u32_dec, parse_addr, parse_u32_dec};
use crate::protocol::{
    lit_pong, lit_err_stream_capacity, lit_err_stream_invalid, lit_err_stop_invalid,
    lit_err_stop_notfound, lit_help_line, lit_overflow_line, spec_verb_code, spec_ok_stream,
    spec_ok_stop, spec_list_line, spec_err_unknown, spec_data_line, spec_sample_err_line,
    spec_heartbeat_line, verb_code, push_pong, push_err_stream_capacity, push_err_stream_invalid,
    push_err_stop_invalid, push_err_stop_notfound, push_help_line, push_overflow_line,
    ok_stream_line, ok_stop_line, list_line, err_unknown_line, data_line, sample_err_line,
    heartbeat_line,
};
use crate::table::{
    MAX_STREAMS, StreamConfig, StreamTable, first_free_from, first_match_from,
    lemma_first_free_bounds, lemma_first_match_bounds, spec_add, spec_due, spec_remove,
    spec_sampled,
};
use crate::tokenize::{spec_tokens, tokenize_bytes, copy_range};
use crate::validator::{MemoryWindow, WINDOW_START, WINDOW_END, spec_validate};

verus! {

/// Capacity of the inbound line buffer, in bytes.
pub const LINE_CAP: usize = 256;

/// Largest number of bytes one sample may read; a stream's size is clamped
/// to it at sample time.
pub const MAX_CHUNK: usize = 64;

/// One heartbeat record per this many milliseconds of tick time.
pub const HEARTBEAT_PERIOD_MS: u64 = 1000;

/// The views of a sequence of byte lines.
pub open spec fn views(v: Seq<Vec<u8>>) -> Seq<Seq<u8>> {
    Seq::new(v.len(), |k: int| v[k]@)
}

/// Number of enabled entries.
pub open spec fn active_count(t: Seq<StreamConfig>) -> int {
    t.filter(|c: StreamConfig| c.enabled).len() as int
}

/// Whether some entry is free for a registration.
pub open spec fn has_free(t: Seq<StreamConfig>) -> bool {
    exists|k: int| 0 <= k < t.len() && !t[k].enabled
}

/// Whether some enabled entry carries `addr`.
pub open spec fn has_match(t: Seq<StreamConfig>, addr: u32) -> bool {
    exists|k: int| 0 <= k < t.len() && t[k].enabled && t[k].addr == addr
}

/// What one complete command line does to the table, and the response records
/// it emits: every nonblank line produces exactly one response; a blank line
/// produces none and is ignored.
pub open spec fn spec_apply_line(t: Seq<StreamConfig>, line: Seq<u8>) -> (Seq<StreamConfig>, Seq<Seq<u8>>) {
    let toks = spec_tokens(line);
    if toks.len() == 0 {
        (t, Seq::empty())
    } else {
        let code = spec_verb_code(toks[0]);
        if code == 1 {
            (t, seq![lit_pong()])
        } else if code == 2 {
            if toks.len() >= 4 {
                let addr = spec_parse_addr(toks[1]);
                let size = spec_parse_u32_dec(toks[2]);
                let rate = spec_parse_u32_dec(toks[3]);
                if addr is Some && size is Some && rate is Some {
                    if has_free(t) {
                        (spec_add(t, addr->0, size->0 as usize, rate->0), seq![spec_ok_stream(addr->0)])
                    } else {
                        (t, seq![lit_err_stream_capacity()])
                    }
                } else {
                    (t, seq![lit_err_stream_invalid()])
                }
            } else {
                (t, seq![lit_err_stream_invalid()])
            }
        } else if code == 3 {
            if toks.len() >= 2 {
                let addr = spec_parse_addr(toks[1]);
                if addr is Some {
                    if has_match(t, addr->0) {
                        (spec_remove(t, addr->0), seq![spec_ok_stop(addr->0)])
                    } else {
                        (t, seq![lit_err_stop_notfound()])
                    }
                } else {
                    (t, seq![lit_err_stop_invalid()])
                }
            } else {
                (t, seq![lit_err_stop_invalid()])
            }
        } else if code == 4 {
            (t, seq![spec_list_line(active_count(t))])
        } else if code == 5 {
            (t, seq![lit_help_line()])
        } else {
            (t, seq![spec_err_unknown(toks[0])])
        }
    }
}

/// Parses one complete line and applies it to the table: registration,
/// removal, diagnostics, or an error response. Commands are atomic: on any
/// failure the table is untouched.
pub fn process_command(table: &mut StreamTable, line: &[u8]) -> (resp: Option<Vec<u8>>)
    requires
        old(table).wf(),
    ensures
        final(table).wf(),
        ({
            let (t2, out) = spec_apply_line(old(table)@, line@);
            final(table)@ == t2 && match resp {
                None => out.len() == 0,
                Some(l) => out == seq![l@],
            }
        }),
{
    let toks = tokenize_bytes(line);
    if toks.len() == 0 {
        return None;
    }
    let code = verb_code(&toks[0]);
    if code == 1 {
        let mut out: Vec<u8> = Vec::new();
        push_pong(&mut out);
        Some(out)
    } else if code == 2 {
        if toks.len() >= 4 {
            let addr = parse_addr(toks[1].as_slice());
            let size = parse_u32_dec(toks[2].as_slice());
            let rate = parse_u32_dec(toks[3].as_slice());
            match (addr, size, rate) {
                (Some(a), Some(s), Some(r)) => {
                    match table.add_stream(a, s as usize, r) {
                        Ok(()) => Some(ok_stream_line(a)),
                        Err(_) => {
                            let mut out: Vec<u8> = Vec::new();
                            push_err_stream_capacity(&mut out);
                            Some(out)
                        },
                    }
                },
                _ => {
                    let mut out: Vec<u8> = Vec::new();
                    push_err_stream_invalid(&mut out);
                    Some(out)
                },
            }
        } else {
            let mut out: Vec<u8> = Vec::new();
            push_err_stream_invalid(&mut out);
            Some(out)
        }
    } else if code == 3 {
        if toks.len() >= 2 {
            match parse_addr(toks[1].as_slice()) {
                Some(a) => {
                    match table.remove_stream(a) {
                        Ok(()) => Some(ok_stop_line(a)),
                        Err(_) => {
                            let mut out: Vec<u8> = Vec::new();
                            push_err_stop_notfound(&mut out);
                            Some(out)
                        },
                    }
                },
                None => {
                    let mut out: Vec<u8> = Vec::new();
                    push_err_stop_invalid(&mut out);
                    Some(out)
                },
            }
        } else {
            let mut out: Vec<u8> = Vec::new();
            push_err_stop_invalid(&mut out);
            Some(out)
        }
    } else if code == 4 {
        let active = table.count_active_streams();
        Some(list_line(active as u64))
    } else if code == 5 {
        let mut out: Vec<u8> = Vec::new();
        push_help_line(&mut out);
        Some(out)
    } else {
        Some(err_unknown_line(&toks[0]))
    }
}

/// What one inbound byte does to the line buffer and the table, and the
/// records it emits. A byte finding the buffer full is dropped: it costs one
/// overflow record and an empty buffer, and never touches the table.
pub open spec fn spec_step(buf: Seq<u8>, t: Seq<StreamConfig>, b: u8) -> (Seq<u8>, Seq<StreamConfig>, Seq<Seq<u8>>) {
    if buf.len() < LINE_CAP {
        if b == 10 {
            let (t2, out) = spec_apply_line(t, buf);
            (Seq::empty(), t2, out)
        } else {
            (buf.push(b), t, Seq::empty())
        }
    } else {
        (Seq::empty(), t, seq![lit_overflow_line()])
    }
}

/// What draining `input` byte for byte does, starting from buffer `buf` and
/// table `t`: the final buffer, the final table, and all records emitted, in
/// order.
pub open spec fn spec_drain(buf: Seq<u8>, t: Seq<StreamConfig>, input: Seq<u8>) -> (Seq<u8>, Seq<StreamConfig>, Seq<Seq<u8>>)
    decreases input.len(),
{
    if input.len() == 0 {
        (buf, t, Seq::empty())
    } else {
        let (b1, t1, o1) = spec_step(buf, t, input[0]);
        let (b2, t2, o2) = spec_drain(b1, t1, input.drop_first());
        (b2, t2, o1 + o2)
    }
}

/// Draining one more byte is one more step.
pub proof fn lemma_drain_snoc(buf: Seq<u8>, t: Seq<StreamConfig>, input: Seq<u8>, b: u8)
    ensures
        ({
            let (b1, t1, o1) = spec_drain(buf, t, input);
            let (b2, t2, o2) = spec_step(b1, t1, b);
            spec_drain(buf, t, input.push(b)) == (b2, t2, o1 + o2)
        }),
    decreases input.len(),
{
    let (b1, t1, o1) = spec_drain(buf, t, input);
    let (b2, t2, o2) = spec_step(b1, t1, b);
    if input.len() == 0 {
        assert(input.push(b)[0] == b);
        assert(input.push(b).drop_first() =~= Seq::<u8>::empty());
        assert(spec_drain(b2, t2, Seq::<u8>::empty()) == (b2, t2, Seq::<Seq<u8>>::empty()));
        assert(spec_drain(buf, t, input.push(b)).0 == b2);
        assert(spec_drain(buf, t, input.push(b)).1 == t2);
        assert(spec_drain(buf, t, input.push(b)).2 =~= o1 + o2);
    } else {
        let (sb, st, so) = spec_step(buf, t, input[0]);
        assert(input.push(b)[0] == input[0]);
        assert(input.push(b).drop_first() =~= input.drop_first().push(b));
        lemma_drain_snoc(sb, st, input.drop_first(), b);
        let (rb, rt, ro) = spec_drain(sb, st, input.drop_first());
        assert(b1 == rb && t1 == rt);
        assert(o1 == so + ro);
        assert(spec_drain(buf, t, input.push(b)).0 == b2);
        assert(spec_drain(buf, t, input.push(b)).1 == t2);
        assert(spec_drain(buf, t, input.push(b)).2 == so + (ro + o2));
        assert(so + (ro + o2) =~= (so + ro) + o2);
    }
}

/// All entries' last-sample times lie at or below `bound`.
pub open spec fn entries_bounded(t: Seq<StreamConfig>, bound: u64) -> bool {
    forall|k: int| 0 <= k < t.len() ==> t[k].last_sample_ms <= bound
}

/// Applying a command line never raises an entry's last-sample time.
proof fn lemma_apply_line_bounded(t: Seq<StreamConfig>, line: Seq<u8>, bound: u64)
    requires
        entries_bounded(t, bound),
    ensures
        entries_bounded(spec_apply_line(t, line).0, bound),
{
    let t2 = spec_apply_line(t, line).0;
    if t2 != t {
        let toks = spec_tokens(line);
        let code = spec_verb_code(toks[0]);
        if code == 2 {
            lemma_first_free_bounds(t, 0);
            if has_free(t) {
                let j = first_free_from(t, 0);
                assert(j < t.len());
                assert(forall|k: int| 0 <= k < t2.len() ==> t2[k].last_sample_ms <= bound);
            }
        } else if code == 3 {
            lemma_first_match_bounds(t, spec_parse_addr(toks[1])->0, 0);
            assert(forall|k: int| 0 <= k < t2.len() ==> t2[k].last_sample_ms <= bound);
        }
    }
}

/// Draining input never raises an entry's last-sample time.
proof fn lemma_drain_bounded(buf: Seq<u8>, t: Seq<StreamConfig>, input: Seq<u8>, bound: u64)
    requires
        entries_bounded(t, bound),
    ensures
        entries_bounded(spec_drain(buf, t, input).1, bound),
    decreases input.len(),
{
    if input.len() > 0 {
        let (b1, t1, o1) = spec_step(buf, t, input[0]);
        if buf.len() < LINE_CAP && input[0] == 10 {
            lemma_apply_line_bounded(t, buf, bound);
        }
        lemma_drain_bounded(b1, t1, input.drop_first(), bound);
    }
}

/// The stream's size, clamped to the largest sample chunk.
pub open spec fn spec_clamp_chunk(size: usize) -> usize {
    if size > MAX_CHUNK { MAX_CHUNK } else { size }
}

/// An entry after the sampling pass at `now_ms`.
pub open spec fn spec_entry_after(c: StreamConfig, now_ms: u64) -> StreamConfig {
    if spec_due(c, now_ms) { spec_sampled(c, now_ms) } else { c }
}

/// The record one due entry emits: a data record with the validated bytes in
/// lowercase hex, or one error record if validation rejects the read.
pub open spec fn spec_sample_record(c: StreamConfig, win: MemoryWindow, mem: Seq<u8>) -> Seq<u8> {
    let n = spec_clamp_chunk(c.size);
    if spec_validate(win.start as int, win.end as int, c.addr as int, n as int, 1) is Ok {
        spec_data_line(c.addr, mem.subrange(c.addr - win.start, c.addr - win.start + n))
    } else {
        spec_sample_err_line(c.addr)
    }
}

/// The records of the sampling pass from entry `i` on: exactly one record per
/// due entry, in index order.
pub open spec fn spec_sample_out(t: Seq<StreamConfig>, win: MemoryWindow, mem: Seq<u8>, now_ms: u64, i: int) -> Seq<Seq<u8>>
    decreases t.len() - i,
{
    if i < 0 || i >= t.len() {
        Seq::empty()
    } else if spec_due(t[i], now_ms) {
        seq![spec_sample_record(t[i], win, mem)] + spec_sample_out(t, win, mem, now_ms, i + 1)
    } else {
        spec_sample_out(t, win, mem, now_ms, i + 1)
    }
}

/// Builds the record for one due entry.
pub fn sample_record(c: &StreamConfig, window: &MemoryWindow, mem: &[u8]) -> (out: Vec<u8>)
    requires
        window.wf(),
        mem@.len() == window.spec_len(),
    ensures
        out@ == spec_sample_record(*c, *window, mem@),
{
    let n = if c.size > MAX_CHUNK { MAX_CHUNK } else { c.size };
    match window.validate(c.addr as usize, n, 1) {
        Ok(()) => {
            let bytes = window.read_bytes(mem, c.addr as usize, n);
            data_line(c.addr, &bytes)
        },
        Err(_) => sample_err_line(c.addr),
    }
}

/// The engine: the stream table, the inbound line buffer, the memory window,
/// and the tick clock, all owned in one place.
pub struct Engine {
    table: StreamTable,
    line_buf: Vec<u8>,
    window: MemoryWindow,
    last_now: u64,
}

impl Engine {
    /// The stream table entries, in index order.
    pub closed spec fn streams(&self) -> Seq<StreamConfig> {
        self.table@
    }

    /// The bytes buffered toward the next complete line.
    pub closed spec fn buffered(&self) -> Seq<u8> {
        self.line_buf@
    }

    /// The memory window every read is validated against.
    pub closed spec fn spec_window(&self) -> MemoryWindow {
        self.window
    }

    /// The time of the latest tick.
    pub closed spec fn last_time(&self) -> u64 {
        self.last_now
    }

    /// The engine's invariant: full-size table, bounded line buffer, and no
    /// entry sampled in the future.
    pub closed spec fn wf(&self) -> bool {
        &&& self.table.wf()
        &&& self.window.wf()
        &&& self.line_buf@.len() <= LINE_CAP
        &&& entries_bounded(self.table@, self.last_now)
    }

    /// An engine over the given memory window, with an empty table.
    pub fn with_window(window: MemoryWindow) -> (e: Engine)
        requires
            window.wf(),
        ensures
            e.wf(),
            e.spec_window() == window,
            e.buffered() == Seq::<u8>::empty(),
            e.last_time() == 0,
            e.streams() == Seq::new(MAX_STREAMS as nat, |i: int| StreamConfig {
                addr: 0, size: 0, rate_hz: 0, last_sample_ms: 0, enabled: false,
            }),
    {
        Engine { table: StreamTable::new(), line_buf: Vec::new(), window, last_now: 0 }
    }

    /// An engine over the target device's SRAM window.
    pub fn new() -> (e: Engine)
        ensures
            e.wf(),
            e.spec_window() == (MemoryWindow { start: WINDOW_START, end: WINDOW_END }),
            e.buffered() == Seq::<u8>::empty(),
            e.last_time() == 0,
            e.streams() == Seq::new(MAX_STREAMS as nat, |i: int| StreamConfig {
                addr: 0, size: 0, rate_hz: 0, last_sample_ms: 0, enabled: false,
            }),
    {
        Engine::with_window(MemoryWindow::device_sram())
    }

    /// One tick at time `now_ms`: drains `input` through the line buffer and
    /// the command parser into the table, then samples every due stream out
    /// of `mem` (the bytes the window spans), then emits a heartbeat if the
    /// cadence falls on `now_ms`. Returns all records, in that order.
    pub fn tick(&mut self, now_ms: u64, input: &[u8], mem: &[u8]) -> (out: Vec<Vec<u8>>)
        requires
            old(self).wf(),
            old(self).last_time() <= now_ms,
            mem@.len() == old(self).spec_window().spec_len(),
        ensures
            final(self).wf(),
            final(self).spec_window() == old(self).spec_window(),
            final(self).last_time() == now_ms,
            ({
                let (b1, t1, o1) = spec_drain(old(self).buffered(), old(self).streams(), input@);
                let o2 = spec_sample_out(t1, old(self).spec_window(), mem@, now_ms, 0);
                let t2 = Seq::new(t1.len(), |k: int| spec_entry_after(t1[k], now_ms));
                let o3 = if now_ms % HEARTBEAT_PERIOD_MS == 0 {
                    seq![spec_heartbeat_line(now_ms, active_count(t2))]
                } else {
                    Seq::<Seq<u8>>::empty()
                };
                final(self).buffered() == b1 && final(self).streams() == t2
                    && views(out@) == o1 + o2 + o3
            }),
    {
        let ghost buf0 = self.line_buf@;
        let ghost t0 = self.table@;
        let mut out: Vec<Vec<u8>> = Vec::new();

        // Input drain: all complete lines buffered now are applied before
        // this tick's sampling pass.
        let mut i: usize = 0;
        while i < input.len()
            invariant
                i <= input@.len(),
                self.table.wf(),
                self.line_buf@.len() <= LINE_CAP,
                self.window == old(self).window,
                self.last_now == old(self).last_now,
                buf0 == old(self).line_buf@,
                t0 == old(self).table@,
                ({
                    let (b1, t1, o1) = spec_drain(buf0, t0, input@.take(i as int));
                    self.line_buf@ == b1 && self.table@ == t1 && views(out@) == o1
                }),
            decreases input@.len() - i,
        {
            proof {
                assert(input@.take(i + 1) =~= input@.take(i as int).push(input@[i as int]));
                lemma_drain_snoc(buf0, t0, input@.take(i as int), input@[i as int]);
            }
            let b = input[i];
            if self.line_buf.len() < LINE_CAP {
                if b == 10 {
                    let line = copy_range(self.line_buf.as_slice(), 0, self.line_buf.len());
                    proof {
                        assert(line@ =~= self.line_buf@);
                    }
                    self.line_buf.clear();
                    match process_command(&mut self.table, line.as_slice()) {
                        Some(resp) => {
                            out.push(resp);
                        },
                        None => {},
                    }
                } else {
                    self.line_buf.push(b);
                }
            } else {
                let mut ov: Vec<u8> = Vec::new();
                push_overflow_line(&mut ov);
                out.push(ov);
                self.line_buf.clear();
            }
            proof {
                let (b1, t1, o1) = spec_drain(buf0, t0, input@.take(i + 1));
                assert(views(out@) =~= o1);
            }
            i = i + 1;
        }
        proof {
            assert(input@.take(input@.len() as int) =~= input@);
        }
        let ghost t1 = self.table@;
        let ghost o1 = views(out@);
        let ghost bufd = self.line_buf@;
        proof {
            lemma_drain_bounded(buf0, t0, input@, old(self).last_now);
            assert(entries_bounded(t1, now_ms));
        }

        // Sampling pass: index order, exactly one record per due entry.
        let mut j: usize = 0;
        while j < MAX_STREAMS
            invariant
                j <= MAX_STREAMS,
                self.table.wf(),
                self.line_buf@.len() <= LINE_CAP,
                self.window == old(self).window,
                self.window.wf(),
                self.last_now == old(self).last_now,
                self.line_buf@ == bufd,
                mem@.len() == self.window.spec_len(),
                t1.len() == MAX_STREAMS,
                entries_bounded(t1, now_ms),
                forall|k: int| 0 <= k < j ==> self.table@[k] == spec_entry_after(t1[k], now_ms),
                forall|k: int| j <= k < MAX_STREAMS ==> self.table@[k] == t1[k],
                views(out@) == o1 + spec_sample_out(t1, self.window, mem@, now_ms, 0)
                    .take(spec_sample_out(t1, self.window, mem@, now_ms, 0).len()
                        - spec_sample_out(t1, self.window, mem@, now_ms, j as int).len()),
                spec_sample_out(t1, self.window, mem@, now_ms, j as int).len()
                    <= spec_sample_out(t1, self.window, mem@, now_ms, 0).len(),
                ({
                    let full = spec_sample_out(t1, self.window, mem@, now_ms, 0);
                    let rest = spec_sample_out(t1, self.window, mem@, now_ms, j as int);
                    full.skip(full.len() - rest.len()) == rest
                }),
            decreases MAX_STREAMS - j,
        {
            let ghost out_before = out@;
            let mut c = self.table.entry(j);
            let due = c.should_sample(now_ms);
            if due {
                self.table.set_entry(j, c);
                let rec = sample_record(&c, &self.window, mem);
                proof {
                    assert(c == spec_sampled(t1[j as int], now_ms));
                    assert(spec_sample_record(c, self.window, mem@)
                        == spec_sample_record(t1[j as int], self.window, mem@));
                }
                out.push(rec);
            }
            proof {
                let full = spec_sample_out(t1, self.window, mem@, now_ms, 0);
                let rest = spec_sample_out(t1, self.window, mem@, now_ms, j as int);
                let rest2 = spec_sample_out(t1, self.window, mem@, now_ms, j + 1);
                let n = full.len() - rest.len();
                if spec_due(t1[j as int], now_ms) {
                    let r = spec_sample_record(t1[j as int], self.window, mem@);
                    assert(rest == seq![r] + rest2);
                    assert(full.skip(n)[0] == full[n]);
                    assert(full[n] == r);
                    assert(full.take(n + 1) =~= full.take(n).push(full[n]));
                    assert(views(out@) =~= views(out_before).push(r));
                    assert(views(out@) =~= (o1 + full.take(n)).push(r));
                    assert((o1 + full.take(n)).push(r) =~= o1 + full.take(n).push(r));
                    assert(views(out@) =~= o1 + full.take(full.len() - rest2.len()));
                    assert(full.skip(n).skip(1) =~= full.skip(n + 1));
                    assert(rest.skip(1) =~= rest2);
                    assert(full.skip(full.len() - rest2.len()) == rest2);
                } else {
                    assert(rest == rest2);
                }
            }
            j = j + 1;
        }
        proof {
            assert(spec_sample_out(t1, self.window, mem@, now_ms, MAX_STREAMS as int)
                =~= Seq::<Seq<u8>>::empty());
            let full = spec_sample_out(t1, self.window, mem@, now_ms, 0);
            assert(full.take(full.len() as int) =~= full);
            assert(self.table@ =~= Seq::new(t1.len(), |k: int| spec_entry_after(t1[k], now_ms)));
        }

        // Heartbeat: fixed cadence, independent of streams.
        let ghost out_mid = out@;
        if now_ms % HEARTBEAT_PERIOD_MS == 0 {
            let active = self.table.count_active_streams();
            out.push(heartbeat_line(now_ms, active as u64));
            proof {
                assert(views(out@) =~= views(out_mid).push(
                    spec_heartbeat_line(now_ms, active_count(self.table@))));
            }
        }
        self.last_now = now_ms;
        proof {
            let (b1, t1g, o1g) = spec_drain(buf0, t0, input@);
            assert(t1g == t1 && o1g == o1 && b1 == bufd);
            let o2 = spec_sample_out(t1g, old(self).window, mem@, now_ms, 0);
            let t2 = Seq::new(t1g.len(), |k: int| spec_entry_after(t1g[k], now_ms));
            let o3: Seq<Seq<u8>> = if now_ms % HEARTBEAT_PERIOD_MS == 0 {
                seq![spec_heartbeat_line(now_ms, active_count(t2))]
            } else {
                Seq::empty()
            };
            assert(self.table@ == t2);
            assert(views(out_mid) =~= o1g + o2);
            assert(views(out@) =~= (o1g + o2) + o3);
            assert(entries_bounded(self.table@, now_ms));
        }
        out
    }
}

/// Every complete nonblank line costs exactly one response record, and a
/// blank or all-whitespace line costs none: a host can pair requests with
/// responses deterministically.
pub proof fn lemma_one_response_per_line(t: Seq<StreamConfig>, line: Seq<u8>)
    ensures
        spec_apply_line(t, line).1.len() == if spec_tokens(line).len() == 0 { 0int } else { 1int },
{
}

/// Sampling never fires twice within one interval window: once an entry has
/// sampled at `t1`, it is not due again at any later `t2` until a full
/// `1000 / rate_hz` milliseconds have elapsed.
pub proof fn lemma_due_not_twice(c: StreamConfig, t1: u64, t2: u64)
    requires
        spec_due(c, t1),
        t1 <= t2,
        t2 - t1 < 1000int / (c.rate_hz as int),
    ensures
        !spec_due(spec_sampled(c, t1), t2),
{
}

/// A byte arriving at a full line buffer costs exactly one buffer overflow
/// record, resets the buffer without surfacing partial data, and never
/// touches the stream table.
pub proof fn lemma_overflow_step(buf: Seq<u8>, t: Seq<StreamConfig>, b: u8)
    requires
        buf.len() >= LINE_CAP,
    ensures
        spec_step(buf, t, b).0 == Seq::<u8>::empty(),
        spec_step(buf, t, b).1 == t,
        spec_step(buf, t, b).2 == seq![lit_overflow_line()],
{
}

} // verus!
