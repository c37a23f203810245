//! Lookahead delay line.
//!
//! The compressor computes its gain from the incoming sample but applies it
//! to the sample that entered a fixed number of steps earlier, so that gain
//! reduction meets the transient that caused it.  The delay is a circular
//! buffer of fixed capacity: each step reads the oldest slot, overwrites it
//! with the new input, and advances the write position modulo the capacity.
//! A line of capacity zero degrades to a zero-delay passthrough instead of
//! indexing out of bounds.
//!
//! Sample values are opaque to the delay logic, so the buffer is generic in
//! its element type; the host layer instantiates it with its sample type.

use vstd::prelude::*;
use vstd::arithmetic::div_mod::{lemma_small_mod, lemma_mod_bound, lemma_mod_multiples_vanish};

verus! {

/// One step of the delay line, output part: the value handed back when `x`
/// is written into state `(contents, pos)`.
pub open spec fn step_output<T>(contents: Seq<T>, pos: int, x: T) -> T {
    if contents.len() == 0 {
        x
    } else {
        contents[pos]
    }
}

/// One step of the delay line, buffer part.
pub open spec fn step_contents<T>(contents: Seq<T>, pos: int, x: T) -> Seq<T> {
    if contents.len() == 0 {
        contents
    } else {
        contents.update(pos, x)
    }
}

/// One step of the delay line, write-position part.
pub open spec fn step_position<T>(contents: Seq<T>, pos: int) -> int {
    if contents.len() == 0 {
        pos
    } else {
        (pos + 1) % (contents.len() as int)
    }
}

/// The output stream produced by running a whole input stream through a
/// delay line starting in state `(contents, pos)`.
pub open spec fn run_outputs<T>(contents: Seq<T>, pos: int, inputs: Seq<T>) -> Seq<T>
    decreases inputs.len(),
{
    if inputs.len() == 0 {
        Seq::empty()
    } else {
        seq![step_output(contents, pos, inputs[0])]
            + run_outputs(
                step_contents(contents, pos, inputs[0]),
                step_position(contents, pos),
                inputs.drop_first(),
            )
    }
}

/// Fixed-capacity circular delay buffer.  The capacity is chosen at
/// construction and never changes afterwards; `reset` refills the slots in
/// place.
pub struct DelayLine<T> {
    buf: Vec<T>,
    pos: usize,
}

impl<T: Copy> DelayLine<T> {
    /// The slots of the buffer, write position first being `position()`.
    pub closed spec fn contents(self) -> Seq<T> {
        self.buf@
    }

    /// The current read/write slot.
    pub closed spec fn position(self) -> int {
        self.pos as int
    }

    /// Number of slots, equal to the delay in samples.
    pub open spec fn capacity(self) -> int {
        self.contents().len() as int
    }

    /// The write position stays inside the buffer whenever there is one.
    pub open spec fn wf(self) -> bool {
        self.capacity() == 0 || 0 <= self.position() < self.capacity()
    }

    /// A line of `capacity` slots, every slot holding `fill`, positioned at
    /// the first slot.
    pub fn new(capacity: usize, fill: T) -> (line: DelayLine<T>)
        ensures
            line.wf(),
            line.capacity() == capacity,
            line.contents() == Seq::new(capacity as nat, |j: int| fill),
            line.position() == 0,
    {
        let mut buf: Vec<T> = Vec::new();
        let mut i: usize = 0;
        while i < capacity
            invariant
                i <= capacity,
                buf.len() == i,
                forall|j: int| 0 <= j < i ==> buf@[j] == fill,
            decreases capacity - i,
        {
            buf.push(fill);
            i = i + 1;
        }
        proof {
            assert(buf@ =~= Seq::new(capacity as nat, |j: int| fill));
        }
        DelayLine { buf, pos: 0 }
    }

    /// The delay in samples.
    pub fn len(&self) -> (n: usize)
        ensures
            n == self.capacity(),
    {
        self.buf.len()
    }

    /// Advance one sample: hand back the sample that entered `capacity()`
    /// steps ago (the slot at the current position), store `input` in its
    /// place, and move on.  With no slots at all the input passes straight
    /// through and nothing changes.
    pub fn tick(&mut self, input: T) -> (out: T)
        requires
            old(self).wf(),
        ensures
            final(self).wf(),
            out == step_output(old(self).contents(), old(self).position(), input),
            final(self).contents() == step_contents(old(self).contents(), old(self).position(), input),
            final(self).position() == step_position(old(self).contents(), old(self).position()),
            final(self).capacity() == old(self).capacity(),
    {
        let n = self.buf.len();
        if n == 0 {
            input
        } else {
            let out = self.buf[self.pos];
            self.buf[self.pos] = input;
            self.pos = (self.pos + 1) % n;
            proof {
                lemma_mod_bound(old(self).position() + 1, n as int);
            }
            out
        }
    }

    /// Refill every slot with `fill` and return to the first slot, leaving
    /// the capacity untouched.  The state afterwards is exactly that of
    /// `DelayLine::new(capacity, fill)`: a reset line and a fresh line are
    /// indistinguishable from then on.
    pub fn reset(&mut self, fill: T)
        requires
            old(self).wf(),
        ensures
            final(self).wf(),
            final(self).capacity() == old(self).capacity(),
            final(self).contents() == Seq::new(old(self).capacity() as nat, |j: int| fill),
            final(self).position() == 0,
    {
        let n = self.buf.len();
        let mut i: usize = 0;
        while i < n
            invariant
                i <= n,
                self.buf.len() == n,
                forall|j: int| 0 <= j < i ==> self.buf@[j] == fill,
            decreases n - i,
        {
            self.buf[i] = fill;
            i = i + 1;
        }
        self.pos = 0;
        proof {
            assert(self.buf@ =~= Seq::new(old(self).capacity() as nat, |j: int| fill));
        }
    }
}

/// The number of slots a lookahead of 5 milliseconds needs at the given
/// sample rate, rounded to the nearest whole sample.
pub open spec fn spec_lookahead_len(sample_rate_hz: int) -> int {
    (sample_rate_hz * 5 + 500) / 1000
}

/// Lookahead buffer length for a sample rate in hertz: 5 ms worth of
/// samples, rounded to nearest.
pub fn lookahead_len(sample_rate_hz: u32) -> (n: usize)
    ensures
        n == spec_lookahead_len(sample_rate_hz as int),
{
    let samples: u64 = (sample_rate_hz as u64 * 5 + 500) / 1000;
    samples as usize
}

/// Slot reached from `pos` after `t` further steps around a ring of
/// `cap` slots.
spec fn slot(pos: int, t: int, cap: int) -> int {
    (pos + t) % cap
}

/// The stream `inputs` delayed by `cap` samples: the fill value for the
/// first `cap` outputs, then each input `cap` steps late.
pub open spec fn delayed_stream<T>(cap: nat, fill: T, inputs: Seq<T>) -> Seq<T> {
    Seq::new(inputs.len(), |i: int| if i < cap { fill } else { inputs[i - cap] })
}

/// Law: a delay line delays by exactly its capacity.  Running any input
/// stream through a freshly filled line of capacity `cap` yields the fill
/// value for the first `cap` outputs and from then on the input from `cap`
/// steps earlier — independent of the values themselves, so in particular
/// of whatever gain is later applied to the outputs.
pub proof fn lemma_lookahead_delay<T>(cap: nat, fill: T, inputs: Seq<T>)
    ensures
        run_outputs(Seq::new(cap, |j: int| fill), 0, inputs) == delayed_stream(cap, fill, inputs),
{
    let start = Seq::new(cap, |j: int| fill);
    let outs = run_outputs(start, 0, inputs);
    if cap == 0 {
        lemma_run_passthrough(start, 0, inputs);
        assert(outs =~= delayed_stream(cap, fill, inputs));
    } else {
        let all = Seq::new(cap, |j: int| fill);
        assert forall|t: int| 0 <= t < cap implies start[slot(0, t, cap as int)] == all[0 + t] by {
            lemma_small_mod(t as nat, cap);
            assert(slot(0, t, cap as int) == t);
        }
        lemma_run_ring(start, 0, 0, cap as int, all, inputs);
        assert forall|i: int| 0 <= i < inputs.len() implies outs[i] == delayed_stream(cap, fill, inputs)[i] by {
            assert(outs[i] == (all + inputs)[0 + i]);
            if i < cap {
                assert((all + inputs)[i] == all[i]);
            } else {
                assert((all + inputs)[i] == inputs[i - cap]);
            }
        }
        assert(outs =~= delayed_stream(cap, fill, inputs));
    }
}

/// A line with no slots hands every input straight back.
proof fn lemma_run_passthrough<T>(contents: Seq<T>, pos: int, inputs: Seq<T>)
    requires
        contents.len() == 0,
    ensures
        run_outputs(contents, pos, inputs) == inputs,
    decreases inputs.len(),
{
    if inputs.len() == 0 {
        assert(run_outputs(contents, pos, inputs) =~= inputs);
    } else {
        lemma_run_passthrough(contents, pos, inputs.drop_first());
        assert(run_outputs(contents, pos, inputs) =~= inputs);
    }
}

/// Ring invariant: reading the slots from the current position onward,
/// wrapping around, reproduces the stream `all` from offset `written` — the
/// stream of everything ever held, fill prefix included.  Under that
/// invariant the outputs continue `all`, extended by the new inputs.
proof fn lemma_run_ring<T>(
    contents: Seq<T>,
    pos: int,
    written: int,
    cap: int,
    all: Seq<T>,
    inputs: Seq<T>,
)
    requires
        0 < cap,
        contents.len() == cap,
        0 <= pos < cap,
        0 <= written,
        all.len() == written + cap,
        forall|t: int| 0 <= t < cap ==> contents[slot(pos, t, cap)] == all[written + t],
    ensures
        run_outputs(contents, pos, inputs).len() == inputs.len(),
        forall|i: int|
            0 <= i < inputs.len() ==> run_outputs(contents, pos, inputs)[i] == (all + inputs)[written + i],
    decreases inputs.len(),
{
    if inputs.len() > 0 {
        let x = inputs[0];
        assert(slot(pos, 0, cap) == pos) by {
            lemma_small_mod(pos as nat, cap as nat);
        }
        assert(contents[slot(pos, 0, cap)] == all[written + 0]);
        let out = step_output(contents, pos, x);
        assert(out == all[written]);

        let contents2 = step_contents(contents, pos, x);
        let pos2 = step_position(contents, pos);
        let all2 = all.push(x);
        assert(0 <= pos2 < cap) by {
            lemma_mod_bound(pos + 1, cap);
        }
        assert forall|t: int| 0 <= t < cap implies contents2[slot(pos2, t, cap)] == all2[written + 1 + t] by {
            lemma_mod_bound(pos2 + t, cap);
            lemma_add_mod_inner(pos, t, cap);
            assert(slot(pos2, t, cap) == slot(pos, 1 + t, cap));
            if t == cap - 1 {
                // the slot just overwritten comes around last
                assert(slot(pos, cap, cap) == pos) by {
                    lemma_mod_multiples_vanish(1, pos, cap);
                    lemma_small_mod(pos as nat, cap as nat);
                }
                assert(contents2[pos] == x);
                assert(all2[written + 1 + t] == x);
            } else {
                // untouched slots keep reproducing the old stream
                lemma_mod_offset_distinct(pos, 1 + t, cap);
                assert(slot(pos, 1 + t, cap) != pos);
                lemma_mod_bound(pos + 1 + t, cap);
                assert(contents2[slot(pos, 1 + t, cap)] == contents[slot(pos, 1 + t, cap)]);
                assert(contents[slot(pos, 1 + t, cap)] == all[written + 1 + t]);
                assert(all2[written + 1 + t] == all[written + 1 + t]);
            }
        }
        lemma_run_ring(contents2, pos2, written + 1, cap, all2, inputs.drop_first());
        assert forall|i: int| 0 <= i < inputs.len() implies run_outputs(contents, pos, inputs)[i]
            == (all + inputs)[written + i] by {
            if i == 0 {
                assert(run_outputs(contents, pos, inputs)[0] == out);
                assert((all + inputs)[written + 0] == all[written]);
            } else {
                assert(run_outputs(contents, pos, inputs)[i]
                    == run_outputs(contents2, pos2, inputs.drop_first())[i - 1]);
                assert(run_outputs(contents2, pos2, inputs.drop_first())[i - 1]
                    == (all2 + inputs.drop_first())[written + 1 + (i - 1)]);
                assert((all2 + inputs.drop_first()) =~= (all + inputs));
            }
        }
    }
}

/// Stepping the ring position forward commutes with reduction modulo the
/// capacity: `slot((pos + 1) % cap, t, cap) == slot(pos, 1 + t, cap)`.
proof fn lemma_add_mod_inner(pos: int, t: int, cap: int)
    requires
        0 < cap,
        0 <= pos < cap,
        0 <= t,
    ensures
        ((pos + 1) % cap + t) % cap == (pos + 1 + t) % cap,
{
    let r = (pos + 1) % cap;
    lemma_mod_bound(pos + 1, cap);
    let q = (pos + 1) / cap;
    vstd::arithmetic::div_mod::lemma_fundamental_div_mod(pos + 1, cap);
    assert(pos + 1 == cap * q + r);
    lemma_mod_multiples_vanish(q, r + t, cap);
    assert(cap * q + (r + t) == pos + 1 + t);
}

/// Moving by `s` slots with `0 < s < cap` never lands back on the same slot.
proof fn lemma_mod_offset_distinct(pos: int, s: int, cap: int)
    requires
        0 < cap,
        0 <= pos < cap,
        0 < s < cap,
    ensures
        (pos + s) % cap != pos,
{
    if pos + s < cap {
        lemma_small_mod((pos + s) as nat, cap as nat);
    } else {
        lemma_mod_multiples_vanish(1, pos + s - cap, cap);
        assert(cap * 1 + (pos + s - cap) == pos + s);
        lemma_small_mod((pos + s - cap) as nat, cap as nat);
        assert((pos + s) % cap == pos + s - cap);
    }
}

} // verus!
