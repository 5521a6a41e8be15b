//! Generators: the makers of crystals that do not collide.
//!
//! A generator keeps its id, its epoch, the counter of the crystal it made
//! last and the millisecond in which it made it. Each call reads the clock
//! once. In the millisecond of the last crystal the counter goes up by one;
//! in any other it starts again at 0 and the generator moves to that
//! millisecond. The counter has the 8 bits that a crystal gives it, so a
//! millisecond holds 256 crystals: after those `try_generate` fails until
//! the clock moves on, and `generate_unchecked` starts over at 0.
//!
//! The functions whose names end in `_at` take the clock reading as an
//! argument and say exactly what they return. Those without read the clock
//! and answer as the former do for the reading.
//!
//! The generator follows the clock wherever it goes. While the readings fit
//! 42 bits and never go back, no two crystals of `try_generate` are the
//! same: `lemma_run_has_no_collision`. A clock that is set back can bring a
//! millisecond again, and with it crystals made before.

use crate::clock::now;
use crate::crystal::{
    counter_of, generator_of, lemma_pack_bits_in_bounds, lemma_unpack_pack, pack_bits,
    timestamp_of, Crystal, CrystalPart, COUNTER_MAX, GENERATOR_MAX, TIMESTAMP_MAX,
};
use crate::BerylError;
use std::time::SystemTime;
use vstd::prelude::*;

verus! {

/// The counter of a generator that has made no crystal yet. One more than it
/// wraps to 0, so the first crystal has counter 0 in whichever millisecond it
/// is made.
pub const COUNTER_FRESH: u16 = 0xFFFF;

/// What a generator holds, as plain values.
pub struct GeneratorState {
    /// The generator's id, which every crystal of its making carries.
    pub id: u16,
    /// The moment from which timestamps are counted.
    pub epoch: SystemTime,
    /// The counter of the crystal made last, or `COUNTER_FRESH`.
    pub count: u16,
    /// The millisecond of the crystal made last, or that of the
    /// generator's making.
    pub last_timestamp: u64,
}

impl GeneratorState {
    /// What every generator keeps to: an id of 14 bits, and a counter of
    /// 8 bits unless it is still fresh.
    pub open spec fn valid(self) -> bool {
        &&& self.id <= GENERATOR_MAX
        &&& (self.count <= COUNTER_MAX || self.count == COUNTER_FRESH)
    }

    /// The state of a generator just made, at clock reading `now`.
    pub open spec fn fresh(id: u16, epoch: SystemTime, now: u64) -> Self {
        GeneratorState { id, epoch, count: COUNTER_FRESH, last_timestamp: now }
    }

    /// Whether every counter of millisecond `now` has been handed out.
    pub open spec fn exhausted_at(self, now: u64) -> bool {
        self.count == COUNTER_MAX && self.last_timestamp == now
    }

    /// The counter of the next crystal, made at clock reading `now`: one more
    /// than the last within the same millisecond, wrapping from the largest
    /// back to 0, and 0 in any other millisecond.
    pub open spec fn next_count(self, now: u64) -> u16 {
        if now == self.last_timestamp {
            ((self.count + 1) % 0x100) as u16
        } else {
            0
        }
    }

    /// The state after a crystal is made at clock reading `now`.
    pub open spec fn advance(self, now: u64) -> Self {
        GeneratorState { count: self.next_count(now), last_timestamp: now, ..self }
    }

    /// The bit pattern of the crystal made last.
    pub open spec fn issued(self) -> u64 {
        pack_bits(self.id, self.count, self.last_timestamp)
    }

    /// The counter made last as a number to compare: a fresh generator, which
    /// has made none, stands below counter 0.
    pub open spec fn rank(self) -> int {
        if self.count == COUNTER_FRESH {
            -1
        } else {
            self.count as int
        }
    }

    /// Whether a crystal with the given bit pattern comes after all that the
    /// generator has made so far: in a later millisecond, or in the same one
    /// with a larger counter.
    pub open spec fn precedes(self, bits: u64) -> bool {
        ||| self.last_timestamp < timestamp_of(bits)
        ||| (self.last_timestamp == timestamp_of(bits) && self.rank() < counter_of(bits))
    }

    /// The bit patterns of the crystals that `try_generate_at` hands out, in
    /// order, when it is called once at each of the clock readings. A call
    /// that fails hands out none and leaves the state as it was.
    pub open spec fn run(self, readings: Seq<u64>) -> Seq<u64>
        decreases readings.len(),
    {
        if readings.len() == 0 {
            Seq::empty()
        } else if self.exhausted_at(readings[0]) {
            self.run(readings.drop_first())
        } else {
            seq![self.advance(readings[0]).issued()] + self.advance(readings[0]).run(
                readings.drop_first(),
            )
        }
    }
}

/// Clock readings that fit the timestamp's 42 bits and never go back, the
/// first of them no earlier than the millisecond `start`.
pub open spec fn steady(start: u64, readings: Seq<u64>) -> bool {
    &&& forall|i: int| 0 <= i < readings.len() ==> start <= #[trigger] readings[i] <= TIMESTAMP_MAX
    &&& forall|i: int, j: int|
        0 <= i <= j < readings.len() ==> #[trigger] readings[i] <= #[trigger] readings[j]
}

/// A maker of crystals with one id.
#[derive(PartialEq, Eq, Debug)]
pub struct Generator {
    id: u16,
    epoch: SystemTime,
    count: u16,
    last_timestamp: u64,
}

impl View for Generator {
    type V = GeneratorState;

    closed spec fn view(&self) -> GeneratorState {
        GeneratorState {
            id: self.id,
            epoch: self.epoch,
            count: self.count,
            last_timestamp: self.last_timestamp,
        }
    }
}

impl Generator {
    #[verifier::type_invariant]
    closed spec fn inv(self) -> bool {
        self@.valid()
    }

    /// Makes a generator with the given id and epoch. It starts fresh, in
    /// the millisecond that the clock reads. An id that does not fit 14 bits
    /// is refused with the error that the checked constructor of a crystal
    /// gives for it.
    pub fn new(id: u16, epoch: SystemTime) -> (result: Result<Self, BerylError>)
        ensures
            id > GENERATOR_MAX ==> result == Err::<Self, BerylError>(
                BerylError::PartOutOfBounds(CrystalPart::GeneratorId),
            ),
            id <= GENERATOR_MAX ==> result is Ok && result.unwrap()@ == GeneratorState::fresh(
                id,
                epoch,
                result.unwrap()@.last_timestamp,
            ),
    {
        let reading: u64 = now(epoch);
        Self::new_at(id, epoch, reading)
    }

    /// Makes a generator as `new` does, in the millisecond `now` in place of
    /// a reading of the clock.
    pub fn new_at(id: u16, epoch: SystemTime, now: u64) -> (result: Result<Self, BerylError>)
        ensures
            id > GENERATOR_MAX ==> result == Err::<Self, BerylError>(
                BerylError::PartOutOfBounds(CrystalPart::GeneratorId),
            ),
            id <= GENERATOR_MAX ==> result is Ok && result.unwrap()@ == GeneratorState::fresh(
                id,
                epoch,
                now,
            ),
    {
        if id > GENERATOR_MAX {
            return Err(BerylError::PartOutOfBounds(CrystalPart::GeneratorId));
        }
        Ok(Generator { id, epoch, count: COUNTER_FRESH, last_timestamp: now })
    }

    /// The generator's id.
    pub fn id(&self) -> (id: u16)
        ensures
            id == self@.id,
            id <= GENERATOR_MAX,
    {
        proof {
            use_type_invariant(self);
        }
        self.id
    }

    /// The moment from which the generator counts its timestamps.
    pub fn epoch(&self) -> (epoch: SystemTime)
        ensures
            epoch == self@.epoch,
    {
        self.epoch
    }

    /// The counter of the crystal made last, or `COUNTER_FRESH` if none was.
    pub fn count(&self) -> (count: u16)
        ensures
            count == self@.count,
            count <= COUNTER_MAX || count == COUNTER_FRESH,
    {
        proof {
            use_type_invariant(self);
        }
        self.count
    }

    /// The millisecond of the crystal made last, or that of the generator's
    /// making if none was.
    pub fn last_timestamp(&self) -> (millis: u64)
        ensures
            millis == self@.last_timestamp,
    {
        self.last_timestamp
    }

    /// Makes a crystal in the millisecond that the clock reads, or reports
    /// that the millisecond's counters have run out. The answer is that of
    /// `try_generate_at` for the reading; a failure leaves the generator as
    /// it was. A generator whose counter is not at its largest succeeds
    /// whatever the clock reads.
    pub fn try_generate(&mut self) -> (result: Result<Crystal, BerylError>)
        ensures
            final(self)@.valid(),
            old(self)@.count != COUNTER_MAX ==> result is Ok,
            result matches Ok(crystal) ==> {
                &&& !old(self)@.exhausted_at(final(self)@.last_timestamp)
                &&& final(self)@ == old(self)@.advance(final(self)@.last_timestamp)
                &&& crystal@ == final(self)@.issued()
                &&& final(self)@.count <= COUNTER_MAX
                &&& final(self)@.last_timestamp <= TIMESTAMP_MAX ==> {
                    &&& generator_of(crystal@) == final(self)@.id
                    &&& counter_of(crystal@) == final(self)@.count
                    &&& timestamp_of(crystal@) == final(self)@.last_timestamp
                }
            },
            result matches Err(e) ==> {
                &&& e == BerylError::GeneratorExhausted
                &&& old(self)@.count == COUNTER_MAX
                &&& final(self)@ == old(self)@
            },
    {
        let reading: u64 = now(self.epoch);
        self.try_generate_at(reading)
    }

    /// Makes a crystal in the millisecond `now`, or reports that its
    /// counters have run out: the generator has then handed out the largest
    /// counter in that same millisecond, and stays as it was.
    pub fn try_generate_at(&mut self, now: u64) -> (result: Result<Crystal, BerylError>)
        ensures
            final(self)@.valid(),
            old(self)@.exhausted_at(now) ==> {
                &&& result == Err::<Crystal, BerylError>(BerylError::GeneratorExhausted)
                &&& final(self)@ == old(self)@
            },
            !old(self)@.exhausted_at(now) ==> {
                &&& result is Ok
                &&& final(self)@ == old(self)@.advance(now)
                &&& result.unwrap()@ == final(self)@.issued()
                &&& final(self)@.count <= COUNTER_MAX
                &&& now <= TIMESTAMP_MAX ==> {
                    &&& generator_of(result.unwrap()@) == final(self)@.id
                    &&& counter_of(result.unwrap()@) == final(self)@.count
                    &&& timestamp_of(result.unwrap()@) == now
                }
            },
    {
        proof {
            use_type_invariant(&*self);
        }
        if self.count == COUNTER_MAX && self.last_timestamp == now {
            Err(BerylError::GeneratorExhausted)
        } else {
            Ok(self.generate_unchecked_at(now))
        }
    }

    /// Makes a crystal in the millisecond that the clock reads, without
    /// asking whether the counters have run out. The answer is that of
    /// `generate_unchecked_at` for the reading.
    pub fn generate_unchecked(&mut self) -> (crystal: Crystal)
        ensures
            final(self)@.valid(),
            final(self)@ == old(self)@.advance(final(self)@.last_timestamp),
            crystal@ == final(self)@.issued(),
            final(self)@.count <= COUNTER_MAX,
            old(self)@.count == COUNTER_MAX ==> final(self)@.count == 0,
            final(self)@.last_timestamp <= TIMESTAMP_MAX ==> {
                &&& generator_of(crystal@) == final(self)@.id
                &&& counter_of(crystal@) == final(self)@.count
                &&& timestamp_of(crystal@) == final(self)@.last_timestamp
            },
    {
        let reading: u64 = now(self.epoch);
        self.generate_unchecked_at(reading)
    }

    /// Makes a crystal in the millisecond `now` without asking whether the
    /// counters have run out: within one millisecond the counter after the
    /// largest is 0 again, and the crystal then repeats an earlier one. To
    /// keep crystals apart is left to the caller.
    pub fn generate_unchecked_at(&mut self, now: u64) -> (crystal: Crystal)
        ensures
            final(self)@.valid(),
            final(self)@ == old(self)@.advance(now),
            crystal@ == final(self)@.issued(),
            final(self)@.count <= COUNTER_MAX,
            old(self)@.count == COUNTER_MAX ==> final(self)@.count == 0,
            now <= TIMESTAMP_MAX ==> {
                &&& generator_of(crystal@) == final(self)@.id
                &&& counter_of(crystal@) == final(self)@.count
                &&& timestamp_of(crystal@) == now
            },
    {
        proof {
            use_type_invariant(&*self);
        }
        if self.last_timestamp == now {
            let count: u16 = self.count;
            let bumped: u16 = count.wrapping_add(1);
            assert(bumped & 0xFF == (count + 1) % 0x100) by (bit_vector)
                requires
                    bumped == (if count == 0xFFFF {
                        0
                    } else {
                        count + 1
                    }),
            ;
            self.count = bumped & 0xFF;
        } else {
            self.count = 0;
            self.last_timestamp = now;
        }
        Crystal::from_parts_unchecked(self.id, self.count, now)
    }
}

/// A generator is what it holds and nothing more: two generators in the
/// same state are equal. So a call that leaves the state as it was leaves
/// the generator as it was.
pub proof fn lemma_same_state_same_generator(a: Generator, b: Generator)
    requires
        a@ == b@,
    ensures
        a == b,
{
}

/// A generator that has made nothing yet counts from 0: its first crystal
/// has counter 0 whatever the clock reads, a second one in the same
/// millisecond has counter 1, and one in a later millisecond has counter 0
/// again and a larger timestamp. None of the three calls can fail.
pub proof fn lemma_fresh_generator_counts(
    id: u16,
    epoch: SystemTime,
    made: u64,
    first: u64,
    later: u64,
)
    requires
        id <= GENERATOR_MAX,
        first < later <= TIMESTAMP_MAX,
    ensures
        ({
            let fresh = GeneratorState::fresh(id, epoch, made);
            let one = fresh.advance(first);
            let two = one.advance(first);
            let three = two.advance(later);
            &&& !fresh.exhausted_at(first)
            &&& counter_of(one.issued()) == 0
            &&& !one.exhausted_at(first)
            &&& counter_of(two.issued()) == 1
            &&& !two.exhausted_at(later)
            &&& counter_of(three.issued()) == 0
            &&& timestamp_of(two.issued()) == first
            &&& timestamp_of(three.issued()) == later
            &&& timestamp_of(three.issued()) > timestamp_of(two.issued())
        }),
{
    let fresh = GeneratorState::fresh(id, epoch, made);
    let one = fresh.advance(first);
    let two = one.advance(first);
    let three = two.advance(later);
    lemma_issued_fields(one);
    lemma_issued_fields(two);
    lemma_issued_fields(three);
}

/// A generator that has handed out the largest counter cannot make another
/// crystal in the same millisecond, and can in every other. Whenever its next
/// crystal is made, after a wait for the clock or without asking, its
/// counter is 0.
pub proof fn lemma_exhausted_generator(state: GeneratorState, now: u64)
    requires
        state.valid(),
        state.count == COUNTER_MAX,
    ensures
        state.exhausted_at(now) <==> now == state.last_timestamp,
        state.advance(now).count == 0,
        now <= TIMESTAMP_MAX ==> counter_of(state.advance(now).issued()) == 0,
{
    if now <= TIMESTAMP_MAX {
        lemma_issued_fields(state.advance(now));
    }
}

/// The crystal made last carries the state's id, counter and millisecond,
/// if the millisecond fits 42 bits and the generator is not fresh.
pub proof fn lemma_issued_fields(state: GeneratorState)
    requires
        state.valid(),
        state.count <= COUNTER_MAX,
        state.last_timestamp <= TIMESTAMP_MAX,
    ensures
        generator_of(state.issued()) == state.id,
        counter_of(state.issued()) == state.count,
        timestamp_of(state.issued()) == state.last_timestamp,
{
    lemma_pack_bits_in_bounds(state.id, state.count, state.last_timestamp);
    lemma_unpack_pack(state.id, state.count, state.last_timestamp);
}

/// Each crystal that is made where the counters have not run out comes
/// after all earlier ones, as long as the clock has not gone back.
pub proof fn lemma_advance_precedes(state: GeneratorState, now: u64)
    requires
        state.valid(),
        state.last_timestamp <= now <= TIMESTAMP_MAX,
        !state.exhausted_at(now),
    ensures
        state.advance(now).valid(),
        state.advance(now).count <= COUNTER_MAX,
        state.advance(now).last_timestamp >= state.last_timestamp,
        state.precedes(state.advance(now).issued()),
        timestamp_of(state.advance(now).issued()) == now,
        counter_of(state.advance(now).issued()) == state.advance(now).rank(),
        forall|bits: u64| #[trigger] state.advance(now).precedes(bits) ==> state.precedes(bits),
{
    lemma_issued_fields(state.advance(now));
}

/// Steady readings stay steady without the first of them, counted from it.
proof fn lemma_steady_rest(start: u64, readings: Seq<u64>)
    requires
        steady(start, readings),
        readings.len() > 0,
    ensures
        start <= readings[0] <= TIMESTAMP_MAX,
        steady(readings[0], readings.drop_first()),
{
    let rest = readings.drop_first();
    assert forall|i: int| 0 <= i < rest.len() implies readings[0] <= #[trigger] rest[i]
        <= TIMESTAMP_MAX by {
        assert(rest[i] == readings[i + 1]);
    }
    assert forall|i: int, j: int| 0 <= i <= j < rest.len() implies #[trigger] rest[i]
        <= #[trigger] rest[j] by {
        assert(rest[i] == readings[i + 1]);
        assert(rest[j] == readings[j + 1]);
    }
}

/// Every crystal of a run comes after all that the generator had made
/// before the run.
pub proof fn lemma_run_precedes(state: GeneratorState, readings: Seq<u64>)
    requires
        state.valid(),
        steady(state.last_timestamp, readings),
    ensures
        forall|k: int|
            0 <= k < state.run(readings).len() ==> state.precedes(#[trigger] state.run(readings)[k]),
    decreases readings.len(),
{
    if readings.len() > 0 {
        let rest = readings.drop_first();
        lemma_steady_rest(state.last_timestamp, readings);
        if state.exhausted_at(readings[0]) {
            lemma_run_precedes(state, rest);
            assert(state.run(readings) == state.run(rest));
        } else {
            let next = state.advance(readings[0]);
            lemma_advance_precedes(state, readings[0]);
            lemma_run_precedes(next, rest);
            assert forall|k: int| 0 <= k < state.run(readings).len() implies state.precedes(
                #[trigger] state.run(readings)[k],
            ) by {
                if k > 0 {
                    assert(state.run(readings)[k] == next.run(rest)[k - 1]);
                }
            }
        }
    }
}

/// No two crystals collide: as long as the clock fits 42 bits and never goes
/// back, the crystals that `try_generate_at` hands out over any number of
/// calls are all different.
pub proof fn lemma_run_has_no_collision(state: GeneratorState, readings: Seq<u64>)
    requires
        state.valid(),
        steady(state.last_timestamp, readings),
    ensures
        state.run(readings).no_duplicates(),
    decreases readings.len(),
{
    if readings.len() > 0 {
        let rest = readings.drop_first();
        lemma_steady_rest(state.last_timestamp, readings);
        if state.exhausted_at(readings[0]) {
            lemma_run_has_no_collision(state, rest);
        } else {
            let next = state.advance(readings[0]);
            let made = state.run(readings);
            lemma_advance_precedes(state, readings[0]);
            lemma_run_has_no_collision(next, rest);
            lemma_run_precedes(next, rest);
            assert forall|i: int, j: int| 0 <= i < made.len() && 0 <= j < made.len() && i
                != j implies made[i] != made[j] by {
                if i > 0 {
                    assert(made[i] == next.run(rest)[i - 1]);
                }
                if j > 0 {
                    assert(made[j] == next.run(rest)[j - 1]);
                }
            }
        }
    }
}

} // verus!
