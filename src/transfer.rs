use vstd::prelude::*;

verus! {

/// Why the circular transfer engine refused a request.
#[derive(Debug, Clone, Copy, PartialEq, Eq, Structural)]
pub enum TransferError {
    /// Fewer unread samples are held than were asked for.
    InsufficientData,
    /// The engine was started while already running.
    AlreadyRunning,
    /// The ring's capacity is not a positive multiple of the frame width.
    InvalidCapacity,
}

/// Abstract state of the circular transfer engine.
pub struct TransferView {
    /// Unread samples, oldest first.
    pub unread: Seq<u16>,
    /// Number of cells in the ring.
    pub capacity: nat,
    /// Unit the ring is drained in; the capacity is a multiple of it.
    pub frame_width: nat,
    /// Index of the cell the producer writes next.
    pub write_cursor: nat,
    /// Whether the producer is armed.
    pub running: bool,
    /// Whether the transfer-complete signal is raised and not yet acknowledged.
    pub complete_pending: bool,
}

impl TransferView {
    /// The state after the transfer-complete signal is acknowledged.
    pub open spec fn cleared(self) -> TransferView {
        TransferView { complete_pending: false, ..self }
    }

    /// The state after `n` unread samples are handed out.
    pub open spec fn drained(self, n: nat) -> TransferView {
        TransferView { unread: self.unread.skip(n as int), ..self }
    }
}

/// Offset `offset` cells past `start` in a ring of `cap` cells (`start, offset <= cap`).
pub open spec fn slot(start: int, offset: int, cap: int) -> int {
    if start + offset < cap {
        start + offset
    } else {
        start + offset - cap
    }
}

/// Unread samples after the producer writes `s`: when the ring is full the
/// oldest unread sample is overwritten.
pub open spec fn after_write(unread: Seq<u16>, capacity: nat, s: u16) -> Seq<u16> {
    if unread.len() < capacity {
        unread.push(s)
    } else {
        unread.push(s).drop_first()
    }
}

/// Unread samples after the producer writes each of `samples` in turn.
pub open spec fn after_writes(unread: Seq<u16>, capacity: nat, samples: Seq<u16>) -> Seq<u16>
    decreases samples.len(),
{
    if samples.len() == 0 {
        unread
    } else {
        after_write(after_writes(unread, capacity, samples.drop_last()), capacity, samples.last())
    }
}

/// Acknowledging the transfer-complete signal twice in a row has the same
/// effect as acknowledging it once.
pub proof fn lemma_clear_idempotent(v: TransferView)
    ensures
        v.cleared().cleared() == v.cleared(),
{
}

/// Successive drains account exactly: draining `a` then `b` samples leaves
/// `a + b` fewer unread samples, the same state as one drain of `a + b`.
pub proof fn lemma_drains_compose(v: TransferView, a: nat, b: nat)
    requires
        a + b <= v.unread.len(),
    ensures
        v.drained(a).unread.len() == v.unread.len() - a,
        v.drained(a).drained(b).unread.len() == v.unread.len() - a - b,
        v.drained(a).drained(b) == v.drained(a + b),
{
    assert(v.drained(a).drained(b).unread =~= v.drained(a + b).unread);
}

/// Writing without draining keeps only the newest `capacity` samples: the
/// unread samples are the last `capacity` (or all, if fewer) of the old unread
/// samples followed by the new ones, and anything older is lost.
pub proof fn lemma_writes_keep_newest(unread: Seq<u16>, capacity: nat, samples: Seq<u16>)
    requires
        unread.len() <= capacity,
    ensures
        ({
            let all = unread + samples;
            let lost = if all.len() > capacity { all.len() - capacity } else { 0 };
            after_writes(unread, capacity, samples) == all.skip(lost)
        }),
    decreases samples.len(),
{
    let all = unread + samples;
    if samples.len() == 0 {
        assert(all =~= unread);
        assert(all.skip(0) =~= all);
    } else {
        let prev = samples.drop_last();
        lemma_writes_keep_newest(unread, capacity, prev);
        let pall = unread + prev;
        let plost = if pall.len() > capacity { pall.len() - capacity } else { 0int };
        let lost = if all.len() > capacity { all.len() - capacity } else { 0int };
        assert(pall.push(samples.last()) =~= all);
        if pall.len() - plost < capacity {
            assert(pall.skip(plost).push(samples.last()) =~= all.skip(lost));
        } else {
            assert(pall.skip(plost).push(samples.last()).drop_first() =~= all.skip(lost));
        }
    }
}

/// Overrun: writing `capacity + frame_width` samples into an empty ring without
/// draining leaves exactly `capacity` unread samples, and the earliest
/// `frame_width` samples written are no longer among them.
pub proof fn lemma_overrun_drops_oldest(capacity: nat, frame_width: nat, samples: Seq<u16>)
    requires
        samples.len() == capacity + frame_width,
    ensures
        after_writes(Seq::empty(), capacity, samples).len() == capacity,
        after_writes(Seq::empty(), capacity, samples) == samples.skip(frame_width as int),
{
    lemma_writes_keep_newest(Seq::empty(), capacity, samples);
    assert(Seq::<u16>::empty() + samples =~= samples);
}

/// A fixed-capacity ring of raw samples, filled by a producer that wraps
/// unconditionally and drained by a consumer through `read_exact`.
pub struct CircularBuffer {
    data: Vec<u16>,
    frame_width: usize,
    read: usize,
    available: usize,
    running: bool,
    complete_pending: bool,
}

impl View for CircularBuffer {
    type V = TransferView;

    closed spec fn view(&self) -> TransferView {
        let cap = self.data.len() as int;
        TransferView {
            unread: Seq::new(
                self.available as nat,
                |i: int| self.data@[slot(self.read as int, i, cap)],
            ),
            capacity: cap as nat,
            frame_width: self.frame_width as nat,
            write_cursor: slot(self.read as int, self.available as int, cap) as nat,
            running: self.running,
            complete_pending: self.complete_pending,
        }
    }
}

impl CircularBuffer {
    /// Well-formedness: a non-empty ring with cursors inside it.
    pub closed spec fn wf(&self) -> bool {
        &&& self.data.len() > 0
        &&& self.read < self.data.len()
        &&& self.available <= self.data.len()
        &&& self.frame_width > 0
        &&& self.data.len() as int % (self.frame_width as int) == 0
    }

    /// An idle ring of `capacity` cells. Fails unless `capacity` is a positive
    /// multiple of `frame_width` (which must itself be positive).
    pub fn new(capacity: usize, frame_width: usize) -> (r: Result<CircularBuffer, TransferError>)
        ensures
            r is Ok <==> (frame_width > 0 && capacity > 0 && capacity % frame_width == 0),
            r is Err ==> r == Err::<CircularBuffer, TransferError>(TransferError::InvalidCapacity),
            r matches Ok(b) ==> b.wf() && b@ == (TransferView {
                unread: Seq::empty(),
                capacity: capacity as nat,
                frame_width: frame_width as nat,
                write_cursor: 0,
                running: false,
                complete_pending: false,
            }),
    {
        if frame_width == 0 || capacity == 0 || capacity % frame_width != 0 {
            return Err(TransferError::InvalidCapacity);
        }
        let b = CircularBuffer {
            data: vec![0u16; capacity],
            frame_width,
            read: 0,
            available: 0,
            running: false,
            complete_pending: false,
        };
        assert(b@.unread =~= Seq::<u16>::empty());
        Ok(b)
    }

    /// Number of unread samples; never blocks.
    pub fn elements_available(&self) -> (r: usize)
        requires
            self.wf(),
        ensures
            r == self@.unread.len(),
    {
        self.available
    }

    /// Number of cells in the ring.
    pub fn capacity(&self) -> (r: usize)
        requires
            self.wf(),
        ensures
            r == self@.capacity,
    {
        self.data.len()
    }

    /// Unit the ring is drained in.
    pub fn frame_width(&self) -> (r: usize)
        ensures
            r == self@.frame_width,
    {
        self.frame_width
    }

    /// Whether the producer is armed.
    pub fn is_running(&self) -> (r: bool)
        ensures
            r == self@.running,
    {
        self.running
    }

    /// Whether the transfer-complete signal is raised and not yet acknowledged.
    pub fn transfer_complete_pending(&self) -> (r: bool)
        ensures
            r == self@.complete_pending,
    {
        self.complete_pending
    }

    /// Arms the producer, invoking `trigger` once to start the front-end's
    /// conversions. Fails only if the engine is already running.
    pub fn start<F: FnOnce()>(&mut self, trigger: F) -> (r: Result<(), TransferError>)
        requires
            old(self).wf(),
            trigger.requires(()),
        ensures
            final(self).wf(),
            old(self)@.running ==> r == Err::<(), TransferError>(TransferError::AlreadyRunning)
                && final(self)@ == old(self)@,
            !old(self)@.running ==> trigger.ensures((), ()),
            !old(self)@.running ==> r is Ok && final(self)@ == (TransferView {
                running: true,
                ..old(self)@
            }),
    {
        if self.running {
            return Err(TransferError::AlreadyRunning);
        }
        self.running = true;
        trigger();
        Ok(())
    }

    /// Disarms the producer at once; unread samples stay readable.
    pub fn stop(&mut self)
        requires
            old(self).wf(),
        ensures
            final(self).wf(),
            final(self)@ == (TransferView { running: false, ..old(self)@ }),
    {
        self.running = false;
    }

    /// The producer side: while armed, stores `s` in the next cell, wrapping
    /// unconditionally and overwriting the oldest unread sample when the ring is
    /// full. Wrapping past the last cell raises the transfer-complete signal.
    pub fn write_sample(&mut self, s: u16)
        requires
            old(self).wf(),
        ensures
            final(self).wf(),
            !old(self)@.running ==> final(self)@ == old(self)@,
            old(self)@.running ==> final(self)@ == (TransferView {
                unread: after_write(old(self)@.unread, old(self)@.capacity, s),
                write_cursor: slot(old(self)@.write_cursor as int, 1, old(self)@.capacity as int)
                    as nat,
                complete_pending: old(self)@.complete_pending || slot(
                    old(self)@.write_cursor as int,
                    1,
                    old(self)@.capacity as int,
                ) == 0,
                ..old(self)@
            }),
    {
        if !self.running {
            return;
        }
        let ghost u = self@.unread;
        let cap = self.data.len();
        let w: usize = if self.available < cap - self.read {
            self.read + self.available
        } else {
            self.available - (cap - self.read)
        };
        self.data[w] = s;
        if self.available < cap {
            self.available = self.available + 1;
        } else {
            self.read = if self.read < cap - 1 { self.read + 1 } else { 0 };
        }
        if w == cap - 1 {
            self.complete_pending = true;
        }
        assert(self@.unread =~= after_write(u, cap as nat, s));
    }

    /// Copies exactly `out.len()` unread samples, oldest first, into `out` and
    /// consumes them. When fewer are held, fails with `InsufficientData` and
    /// changes nothing. Never blocks.
    pub fn read_exact(&mut self, out: &mut [u16]) -> (r: Result<(), TransferError>)
        requires
            old(self).wf(),
        ensures
            final(self).wf(),
            r is Err <==> old(self)@.unread.len() < old(out)@.len(),
            r is Err ==> r == Err::<(), TransferError>(TransferError::InsufficientData)
                && final(self)@ == old(self)@ && final(out)@ == old(out)@,
            r is Ok ==> final(out)@ == old(self)@.unread.take(old(out)@.len() as int)
                && final(self)@ == old(self)@.drained(old(out)@.len()),
    {
        let n = out.len();
        if self.available < n {
            return Err(TransferError::InsufficientData);
        }
        let ghost u = self@.unread;
        let cap = self.data.len();
        let mut i: usize = 0;
        let mut pos: usize = self.read;
        while i < n
            invariant
                self.wf(),
                self@ == old(self)@,
                u == old(self)@.unread,
                n == out@.len(),
                n <= self.available,
                cap == self.data.len(),
                i <= n,
                pos == slot(self.read as int, i as int, cap as int),
                forall|j: int| 0 <= j < i ==> out@[j] == u[j],
            decreases n - i,
        {
            out[i] = self.data[pos];
            pos = if pos < cap - 1 { pos + 1 } else { 0 };
            i = i + 1;
        }
        let ghost before = self@;
        self.read = if n < cap - self.read { self.read + n } else { n - (cap - self.read) };
        self.available = self.available - n;
        assert(out@ =~= u.take(n as int));
        assert(self@.unread =~= u.skip(n as int));
        assert(self@ == before.drained(n as nat));
        Ok(())
    }

    /// Acknowledges the transfer-complete signal so that it can be raised
    /// again. Acknowledging when nothing is pending changes nothing.
    pub fn clear_transfer_complete_interrupt(&mut self)
        requires
            old(self).wf(),
        ensures
            final(self).wf(),
            final(self)@ == old(self)@.cleared(),
    {
        self.complete_pending = false;
    }

    /// Writes each of `samples` in turn, as the producer would.
    pub fn write_samples(&mut self, samples: &[u16])
        requires
            old(self).wf(),
        ensures
            final(self).wf(),
            !old(self)@.running ==> final(self)@ == old(self)@,
            old(self)@.running ==> final(self)@ == (TransferView {
                unread: after_writes(old(self)@.unread, old(self)@.capacity, samples@),
                write_cursor: ((old(self)@.write_cursor + samples@.len()) as int % old(
                    self,
                )@.capacity as int) as nat,
                complete_pending: old(self)@.complete_pending || old(self)@.write_cursor
                    + samples@.len() >= old(self)@.capacity,
                ..old(self)@
            }),
    {
        let mut i: usize = 0;
        proof {
            assert(samples@.take(0) =~= Seq::<u16>::empty());
            assert(old(self)@.write_cursor < old(self)@.capacity);
            vstd::arithmetic::div_mod::lemma_small_mod(
                old(self)@.write_cursor,
                old(self)@.capacity,
            );
        }
        while i < samples.len()
            invariant
                old(self).wf(),
                self.wf(),
                i <= samples@.len(),
                !old(self)@.running ==> self@ == old(self)@,
                old(self)@.running ==> self@ == (TransferView {
                    unread: after_writes(
                        old(self)@.unread,
                        old(self)@.capacity,
                        samples@.take(i as int),
                    ),
                    write_cursor: ((old(self)@.write_cursor + i) as int % old(self)@.capacity as int) as nat,
                    complete_pending: old(self)@.complete_pending || old(self)@.write_cursor + i
                        >= old(self)@.capacity,
                    ..old(self)@
                }),
            decreases samples.len() - i,
        {
            let ghost cap = old(self)@.capacity as int;
            let ghost k = old(self)@.write_cursor + i;
            proof {
                if old(self)@.running {
                    assert(old(self)@.write_cursor < cap);
                    vstd::arithmetic::div_mod::lemma_fundamental_div_mod(k, cap);
                    vstd::arithmetic::div_mod::lemma_fundamental_div_mod(k + 1, cap);
                    let (q0, r0) = (k / cap, k % cap);
                    if r0 + 1 < cap {
                        vstd::arithmetic::div_mod::lemma_fundamental_div_mod_converse(
                            k + 1, cap, q0, r0 + 1);
                    } else {
                        assert((q0 + 1) * cap == q0 * cap + cap) by (nonlinear_arith);
                        vstd::arithmetic::div_mod::lemma_fundamental_div_mod_converse(
                            k + 1, cap, q0 + 1, 0);
                    }
                    if k < cap {
                        vstd::arithmetic::div_mod::lemma_small_mod(k as nat, cap as nat);
                    }
                }
            }
            self.write_sample(samples[i]);
            assert(samples@.take(i + 1).drop_last() =~= samples@.take(i as int));
            i = i + 1;
        }
        assert(samples@.take(i as int) =~= samples@);
    }
}

} // verus!
