use std::time::Instant;
use vstd::arithmetic::div_mod::{lemma_fundamental_div_mod_converse, lemma_small_mod};
use vstd::prelude::*;

use crate::clock::nanos_since;
use crate::error::RingBufferError;
use crate::governor::BacklogGovernor;
use crate::pacing::{window_reached, PacingController};
use crate::slots::SlotStore;

verus! {

/// The tunable thresholds of pacing and catch-up.
#[derive(Clone, Copy, Debug, PartialEq, Eq)]
pub struct PacingConfig {
    /// The share of a frame's duration, in parts per thousand, that must pass
    /// before the read cursor advances.
    pub threshold_permille: u32,
    /// Accepted advances before the backlog governor acts.
    pub warm_up: u64,
    /// The largest backlog, in frames, that the governor leaves alone.
    pub catch_up_bound: u64,
}

/// The threshold of pacing by default: three quarters of a frame.
pub const DEFAULT_THRESHOLD_PERMILLE: u32 = 750;

/// Accepted advances before catch-up by default.
pub const DEFAULT_WARM_UP: u64 = 10;

/// The backlog, in frames, that is tolerated by default.
pub const DEFAULT_CATCH_UP_BOUND: u64 = 6;

impl Default for PacingConfig {
    fn default() -> (r: Self)
        ensures
            r.threshold_permille == DEFAULT_THRESHOLD_PERMILLE,
            r.warm_up == DEFAULT_WARM_UP,
            r.catch_up_bound == DEFAULT_CATCH_UP_BOUND,
    {
        PacingConfig {
            threshold_permille: DEFAULT_THRESHOLD_PERMILLE,
            warm_up: DEFAULT_WARM_UP,
            catch_up_bound: DEFAULT_CATCH_UP_BOUND,
        }
    }
}

/// The abstract state of a ring buffer.
pub struct RingView<T> {
    /// The frame in each slot.
    pub frames: Seq<Seq<T>>,
    /// Every frame accepted by `write`, oldest first.
    pub history: Seq<Seq<T>>,
    /// The frame that every slot held at construction.
    pub silence: Seq<T>,
    /// Samples per frame.
    pub frame_length: nat,
    /// Samples per second.
    pub nominal_rate: nat,
    /// The pacing threshold, in parts per thousand of a frame's duration.
    pub threshold_permille: nat,
    /// Accepted advances before the governor acts.
    pub warm_up: nat,
    /// The largest backlog the governor leaves alone.
    pub catch_up_bound: nat,
    /// Frames written so far.
    pub write_counter: nat,
    /// The read cursor.
    pub read_counter: nat,
    /// Advances of the read cursor accepted by pacing so far.
    pub advances: nat,
    /// Nanoseconds from construction to the last accepted advance.
    pub last_read_ns: nat,
}

impl<T> RingView<T> {
    /// The number of slots.
    pub open spec fn capacity(self) -> nat {
        self.frames.len()
    }

    /// How far the reader lags behind the writer, in frames.
    pub open spec fn backlog(self) -> int {
        self.write_counter - self.read_counter
    }

    /// The slot that the next write fills.
    pub open spec fn write_index(self) -> int {
        self.write_counter as int % self.capacity() as int
    }

    /// The slot that a read returns.
    pub open spec fn read_index(self) -> int {
        self.read_counter as int % self.capacity() as int
    }

    /// The frame that a read returns.
    pub open spec fn current_frame(self) -> Seq<T> {
        self.frames[self.read_index()]
    }

    /// What slot `i` holds when filled by the writes of `history` in turn:
    /// the latest of them whose index falls on slot `i`, else silence.
    pub open spec fn latest_at(self, i: int) -> Seq<T> {
        if i < self.history.len() {
            self.history[i + self.capacity() * ((self.history.len() - 1 - i) / self.capacity() as int)]
        } else {
            self.silence
        }
    }

    /// The state is one that construction, writes and reads can reach.
    pub open spec fn valid(self) -> bool {
        &&& self.capacity() > 0
        &&& self.frame_length > 0
        &&& self.nominal_rate > 0
        &&& self.silence.len() == self.frame_length
        &&& forall|i: int| 0 <= i < self.capacity() ==> #[trigger] self.frames[i].len() == self.frame_length
        &&& forall|i: int| 0 <= i < self.capacity() ==> #[trigger] self.frames[i] == self.latest_at(i)
        &&& self.history.len() == self.write_counter
        &&& self.read_counter <= self.write_counter
        &&& self.advances <= self.read_counter
    }

    /// Nanoseconds from the last accepted advance to `now_ns`.
    pub open spec fn elapsed(self, now_ns: int) -> int {
        if now_ns >= self.last_read_ns {
            now_ns - self.last_read_ns
        } else {
            0
        }
    }

    /// Pacing lets the read cursor advance at `now_ns`.
    pub open spec fn may_advance(self, now_ns: int) -> bool {
        &&& self.read_counter < self.write_counter
        &&& window_reached(
            self.elapsed(now_ns),
            self.frame_length as int,
            self.nominal_rate as int,
            self.threshold_permille as int,
        )
    }

    /// The state after pacing has run at `now_ns`.
    pub open spec fn paced(self, now_ns: nat) -> Self {
        if self.may_advance(now_ns as int) {
            RingView {
                read_counter: self.read_counter + 1,
                advances: self.advances + 1,
                last_read_ns: now_ns,
                ..self
            }
        } else {
            self
        }
    }

    /// The state after the backlog governor has run.
    pub open spec fn governed(self) -> Self {
        if self.advances >= self.warm_up && self.backlog() > self.catch_up_bound {
            RingView { read_counter: self.write_counter, ..self }
        } else {
            self
        }
    }

    /// The state after a read at `now_ns`: pacing, then the governor.
    pub open spec fn after_read(self, now_ns: nat) -> Self {
        self.paced(now_ns).governed()
    }

    /// The state after `frame` is accepted by a write.
    pub open spec fn after_write(self, frame: Seq<T>) -> Self {
        RingView {
            frames: self.frames.update(self.write_index(), frame),
            history: self.history.push(frame),
            write_counter: self.write_counter + 1,
            ..self
        }
    }
}

/// The state of a ring buffer just built with these parameters.
pub open spec fn fresh_view<T>(
    frame_length: nat,
    capacity: nat,
    nominal_rate: nat,
    silence: T,
    config: PacingConfig,
) -> RingView<T> {
    RingView {
        frames: Seq::new(capacity, |i: int| Seq::new(frame_length, |j: int| silence)),
        history: Seq::empty(),
        silence: Seq::new(frame_length, |j: int| silence),
        frame_length,
        nominal_rate,
        threshold_permille: config.threshold_permille as nat,
        warm_up: config.warm_up as nat,
        catch_up_bound: config.catch_up_bound as nat,
        write_counter: 0,
        read_counter: 0,
        advances: 0,
        last_read_ns: 0,
    }
}

/// A write keeps every slot holding the latest frame written to it.
pub proof fn lemma_write_keeps_valid<T>(v: RingView<T>, frame: Seq<T>)
    requires
        v.valid(),
        frame.len() == v.frame_length,
    ensures
        v.after_write(frame).valid(),
{
    let v2 = v.after_write(frame);
    let n = v.capacity() as int;
    let w = v.write_counter as int;
    let j = v.write_index();
    assert(w == (w / n) * n + j) by {
        vstd::arithmetic::div_mod::lemma_fundamental_div_mod(w, n);
        assert(n * (w / n) == (w / n) * n) by (nonlinear_arith);
    }
    assert forall|i: int| 0 <= i < v2.capacity() implies #[trigger] v2.frames[i] == v2.latest_at(i) by {
        if i == j {
            lemma_fundamental_div_mod_converse(w - j, n, w / n, 0);
            assert(v2.latest_at(i) == v2.history[w]);
        } else if i < w {
            let a = w - 1 - i;
            let q = a / n;
            let r = a % n;
            vstd::arithmetic::div_mod::lemma_fundamental_div_mod(a, n);
            assert(a == q * n + r) by (nonlinear_arith)
                requires
                    a == n * q + r,
            ;
            if r + 1 == n {
                assert(w == (q + 1) * n + i) by (nonlinear_arith)
                    requires
                        a == q * n + r,
                        r + 1 == n,
                        a == w - 1 - i,
                ;
                lemma_fundamental_div_mod_converse(w, n, q + 1, i);
            } else {
                lemma_fundamental_div_mod_converse(a + 1, n, q, r + 1);
            }
            assert((w + 1 - 1 - i) / n == q);
            let k = i + n * q;
            assert(0 <= n * q <= a) by (nonlinear_arith)
                requires
                    a == q * n + r,
                    0 <= r < n,
                    n > 0,
                    a >= 0,
            ;
            assert(k < w);
            assert(v2.latest_at(i) == v2.history[k]);
            assert(v.latest_at(i) == v.history[k]);
        } else {
            if i == w {
                lemma_small_mod(w as nat, n as nat);
            }
        }
    }
}

/// The write that slot `i` last received, among `len` writes to `n` slots, is
/// one whose index falls on slot `i`.
proof fn lemma_latest_index(len: int, n: int, i: int)
    requires
        n > 0,
        0 <= i < n,
        i < len,
    ensures
        0 <= i + n * ((len - 1 - i) / n) < len,
        (i + n * ((len - 1 - i) / n)) % n == i,
{
    let a = len - 1 - i;
    let q = a / n;
    vstd::arithmetic::div_mod::lemma_fundamental_div_mod(a, n);
    assert(0 <= n * q <= a && i + n * q == q * n + i) by (nonlinear_arith)
        requires
            a == n * q + a % n,
            0 <= a % n < n,
            n > 0,
            a >= 0,
    ;
    lemma_fundamental_div_mod_converse(i + n * q, n, q, i);
}

/// A read keeps the state valid, and what it returns is either the silence
/// that the slots started with or a frame that a write put into that very slot.
pub proof fn lemma_read_returns_written_frame<T>(v: RingView<T>, now_ns: nat)
    requires
        v.valid(),
    ensures
        v.after_read(now_ns).valid(),
        v.after_read(now_ns).current_frame().len() == v.frame_length,
        v.after_read(now_ns).current_frame() == v.silence || exists|k: int|
            0 <= k < v.history.len() && k % (v.capacity() as int) == v.after_read(now_ns).read_index()
                && #[trigger] v.history[k] == v.after_read(now_ns).current_frame(),
{
    let s = v.after_read(now_ns);
    let n = v.capacity() as int;
    let i = s.read_index();
    vstd::arithmetic::div_mod::lemma_mod_bound(s.read_counter as int, n);
    assert(s.frames[i] == s.latest_at(i));
    if i < v.history.len() {
        lemma_latest_index(v.history.len() as int, n, i);
        let k = i + n * ((v.history.len() - 1 - i) / n);
        assert(v.history[k] == s.current_frame());
    }
}

/// Once the governor is warmed up, a backlog above its bound makes the next
/// read move the read cursor onto the write cursor, at whatever time it comes,
/// unless pacing's own advance has just brought the backlog down to the bound.
/// Reads that follow, with no write between, leave the backlog at zero.
pub proof fn lemma_catch_up<T>(v: RingView<T>, now_ns: nat, later_ns: nat)
    requires
        v.valid(),
        v.advances >= v.warm_up,
        v.backlog() > v.catch_up_bound,
        v.backlog() > v.catch_up_bound + 1 || !v.may_advance(now_ns as int),
    ensures
        v.after_read(now_ns).read_counter == v.write_counter,
        v.after_read(now_ns).backlog() == 0,
        v.after_read(now_ns).after_read(later_ns).backlog() == 0,
{
}

/// A ring of frames written by a producer and read back by a consumer at a
/// cadence paced to the nominal rate, with the consumer's lag bounded.
pub struct RingBuffer<T> {
    store: SlotStore<T>,
    pacing: PacingController,
    governor: BacklogGovernor,
    start: Instant,
    last_read_ns: u64,
    write_counter: u64,
    read_counter: u64,
    advances: u64,
    history: Ghost<Seq<Seq<T>>>,
    silence: Ghost<Seq<T>>,
}

impl<T: Copy> View for RingBuffer<T> {
    type V = RingView<T>;

    closed spec fn view(&self) -> RingView<T> {
        RingView {
            frames: self.store.frames(),
            history: self.history@,
            silence: self.silence@,
            frame_length: self.store.frame_len(),
            nominal_rate: self.pacing.rate(),
            threshold_permille: self.pacing.permille(),
            warm_up: self.governor.warm_up as nat,
            catch_up_bound: self.governor.catch_up_bound as nat,
            write_counter: self.write_counter as nat,
            read_counter: self.read_counter as nat,
            advances: self.advances as nat,
            last_read_ns: self.last_read_ns as nat,
        }
    }
}

impl<T: Copy> RingBuffer<T> {
    /// The parts agree with each other.
    pub closed spec fn parts_agree(&self) -> bool {
        &&& self.pacing.wf()
        &&& self.pacing.frame_len() == self.store.frame_len()
    }

    /// The buffer is in a state that its operations can reach.
    pub open spec fn wf(&self) -> bool {
        &&& self@.valid()
        &&& self.parts_agree()
    }

    /// A ring of `capacity` slots of `frame_length` samples, all `silence`,
    /// read at `nominal_rate` samples per second, with the thresholds of `config`.
    pub fn with_config(
        frame_length: usize,
        capacity: usize,
        nominal_rate: usize,
        silence: T,
        config: PacingConfig,
    ) -> (r: Self)
        requires
            frame_length > 0,
            capacity > 0,
            nominal_rate > 0,
        ensures
            r.wf(),
            r@ == fresh_view(frame_length as nat, capacity as nat, nominal_rate as nat, silence, config),
    {
        let store = SlotStore::new(frame_length, capacity, silence);
        let pacing = PacingController::new(frame_length, nominal_rate, config.threshold_permille);
        let governor = BacklogGovernor { warm_up: config.warm_up, catch_up_bound: config.catch_up_bound };
        let r = RingBuffer {
            store,
            pacing,
            governor,
            start: Instant::now(),
            last_read_ns: 0,
            write_counter: 0,
            read_counter: 0,
            advances: 0,
            history: Ghost(Seq::empty()),
            silence: Ghost(Seq::new(frame_length as nat, |j: int| silence)),
        };
        assert(r@ =~= fresh_view(frame_length as nat, capacity as nat, nominal_rate as nat, silence, config));
        r
    }

    /// A ring with the default thresholds: pacing at three quarters of a
    /// frame's duration, catch-up past a backlog of six after ten advances.
    pub fn new(frame_length: usize, capacity: usize, nominal_rate: usize, silence: T) -> (r: Self)
        requires
            frame_length > 0,
            capacity > 0,
            nominal_rate > 0,
        ensures
            r.wf(),
            r@ == fresh_view(
                frame_length as nat,
                capacity as nat,
                nominal_rate as nat,
                silence,
                PacingConfig {
                    threshold_permille: DEFAULT_THRESHOLD_PERMILLE,
                    warm_up: DEFAULT_WARM_UP,
                    catch_up_bound: DEFAULT_CATCH_UP_BOUND,
                },
            ),
    {
        Self::with_config(frame_length, capacity, nominal_rate, silence, PacingConfig::default())
    }

    /// Stores `data` in the slot of the write cursor and advances the cursor.
    /// A frame of the wrong length is refused and nothing changes.
    pub fn write(&mut self, data: Vec<T>) -> (r: Result<(), RingBufferError>)
        requires
            old(self).wf(),
            old(self)@.write_counter < u64::MAX,
        ensures
            final(self).wf(),
            data@.len() != old(self)@.frame_length ==> r == Err::<(), RingBufferError>(
                RingBufferError::DataSizeMismatch,
            ) && final(self)@ == old(self)@,
            data@.len() == old(self)@.frame_length ==> r == Ok::<(), RingBufferError>(())
                && final(self)@ == old(self)@.after_write(data@),
    {
        let ghost frame = data@;
        let index = (self.write_counter % (self.store.capacity() as u64)) as usize;
        match self.store.replace(index, data) {
            Err(e) => Err(e),
            Ok(_displaced) => {
                self.history = Ghost(self.history@.push(frame));
                self.write_counter = self.write_counter + 1;
                proof {
                    lemma_write_keeps_valid(old(self)@, frame);
                    assert(self@ =~= old(self)@.after_write(frame));
                }
                Ok(())
            },
        }
    }

    /// Runs pacing and the governor as if `now_ns` nanoseconds had passed
    /// since construction, then returns a copy of the frame at the read cursor.
    pub fn read_at(&mut self, now_ns: u64) -> (r: Vec<T>)
        requires
            old(self).wf(),
        ensures
            final(self).wf(),
            final(self)@ == old(self)@.after_read(now_ns as nat),
            r@ == final(self)@.current_frame(),
            r@.len() == old(self)@.frame_length,
    {
        let elapsed: u64 = if now_ns >= self.last_read_ns {
            now_ns - self.last_read_ns
        } else {
            0
        };
        if self.pacing.may_advance(self.read_counter, self.write_counter, elapsed) {
            self.read_counter = self.read_counter + 1;
            self.advances = self.advances + 1;
            self.last_read_ns = now_ns;
        }
        assert(self@ =~= old(self)@.paced(now_ns as nat));
        self.read_counter = self.governor.govern(self.read_counter, self.write_counter, self.advances);
        assert(self@ =~= old(self)@.after_read(now_ns as nat));
        let index = (self.read_counter % (self.store.capacity() as u64)) as usize;
        self.store.snapshot(index)
    }

    /// Runs pacing and the governor on the time since construction, then
    /// returns a copy of the frame at the read cursor.
    pub fn read(&mut self) -> (r: Vec<T>)
        requires
            old(self).wf(),
        ensures
            final(self).wf(),
            exists|now_ns: nat| final(self)@ == #[trigger] old(self)@.after_read(now_ns),
            r@ == final(self)@.current_frame(),
            r@.len() == old(self)@.frame_length,
    {
        let now_ns = nanos_since(&self.start);
        self.read_at(now_ns)
    }

    /// Samples per frame.
    pub fn frame_length(&self) -> (r: usize)
        requires
            self.wf(),
        ensures
            r == self@.frame_length,
    {
        self.store.frame_length()
    }

    /// The number of slots.
    pub fn capacity(&self) -> (r: usize)
        requires
            self.wf(),
        ensures
            r == self@.capacity(),
    {
        self.store.capacity()
    }

    /// Frames written so far.
    pub fn write_count(&self) -> (r: u64)
        ensures
            r == self@.write_counter,
    {
        self.write_counter
    }

    /// The read cursor.
    pub fn read_count(&self) -> (r: u64)
        ensures
            r == self@.read_counter,
    {
        self.read_counter
    }

    /// How far the reader lags behind the writer, in frames.
    pub fn backlog(&self) -> (r: u64)
        requires
            self.wf(),
        ensures
            r == self@.backlog(),
    {
        self.write_counter - self.read_counter
    }
}

} // verus!
