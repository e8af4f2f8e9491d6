//! Packet counts of the last few seconds, one slot per second.
use vstd::prelude::*;

verus! {

/// How many seconds are kept.
pub const SLOT_COUNT: usize = 5;

/// Packet counts of one second.
#[derive(Clone, Copy, Debug)]
struct PktInfoSlot {
    timestamp_sec: u64,
    ack_count: u64,
    loss_count: u64,
}

/// What a slot holds: packets acknowledged and lost in one second.
pub struct Counts {
    pub second: nat,
    pub acks: nat,
    pub losses: nat,
}

/// What became of a packet.
pub enum Fate {
    Acked,
    Lost,
}

impl Counts {
    /// The packets of one fate.
    pub open spec fn of(self, fate: Fate) -> nat {
        match fate {
            Fate::Acked => self.acks,
            Fate::Lost => self.losses,
        }
    }
}

/// The slots of a fresh ring.
pub open spec fn blank() -> Seq<Counts> {
    Seq::new(SLOT_COUNT as nat, |i: int| Counts { second: 0, acks: 0, losses: 0 })
}

/// `slots` after a batch of `second`: added to the slot of that second if the slot holds
/// that second, in place of whatever it holds otherwise.
pub open spec fn recorded(slots: Seq<Counts>, batch: Counts) -> Seq<Counts> {
    let i = (batch.second % (SLOT_COUNT as nat)) as int;
    slots.update(
        i,
        if slots[i].second == batch.second {
            Counts {
                second: batch.second,
                acks: slots[i].acks + batch.acks,
                losses: slots[i].losses + batch.losses,
            }
        } else {
            batch
        },
    )
}

/// Whether a slot of `second` still counts at time `now`.
pub open spec fn fresh(second: nat, now: nat) -> bool {
    second + SLOT_COUNT >= now
}

/// Packets of one fate in the slots that count at time `now`.
pub open spec fn fresh_count(slots: Seq<Counts>, now: nat, fate: Fate) -> nat
    decreases slots.len(),
{
    if slots.len() == 0 {
        0
    } else {
        fresh_count(slots.drop_last(), now, fate) + if fresh(slots.last().second, now) {
            slots.last().of(fate)
        } else {
            0
        }
    }
}

/// Acknowledged packets in the slots that count at time `now`.
pub open spec fn fresh_acks(slots: Seq<Counts>, now: nat) -> nat {
    fresh_count(slots, now, Fate::Acked)
}

/// Lost packets in the slots that count at time `now`.
pub open spec fn fresh_losses(slots: Seq<Counts>, now: nat) -> nat {
    fresh_count(slots, now, Fate::Lost)
}

/// Every packet in the slots that count at time `now`.
pub open spec fn fresh_total(slots: Seq<Counts>, now: nat) -> nat {
    fresh_acks(slots, now) + fresh_losses(slots, now)
}

/// Whether each slot is blank or holds a second that belongs to it.
pub open spec fn aligned(slots: Seq<Counts>) -> bool {
    &&& slots.len() == SLOT_COUNT
    &&& forall|i: int|
        0 <= i < SLOT_COUNT ==> {
            ||| (#[trigger] slots[i]).second % (SLOT_COUNT as nat) == i
            ||| slots[i].second == 0 && slots[i].acks == 0 && slots[i].losses == 0
        }
}

/// A ring of slots, each for the seconds that leave its index when divided by the
/// number of slots.
#[derive(Debug)]
pub struct SlotRing {
    slots: [PktInfoSlot; 5],
}

impl Clone for SlotRing {
    fn clone(&self) -> (r: SlotRing)
        ensures
            r == *self,
    {
        SlotRing { slots: self.slots }
    }
}

impl PktInfoSlot {
    spec fn counts(self) -> Counts {
        Counts {
            second: self.timestamp_sec as nat,
            acks: self.ack_count as nat,
            losses: self.loss_count as nat,
        }
    }
}

impl View for SlotRing {
    type V = Seq<Counts>;

    closed spec fn view(&self) -> Seq<Counts> {
        self.slots@.map_values(|s: PktInfoSlot| s.counts())
    }
}

impl SlotRing {
    /// A ring with nothing recorded.
    pub fn new() -> (r: SlotRing)
        ensures
            r@ == blank(),
    {
        let empty: PktInfoSlot = PktInfoSlot { timestamp_sec: 0, ack_count: 0, loss_count: 0 };
        let r = SlotRing { slots: [empty; 5] };
        assert(r@ =~= blank());
        r
    }

    /// There are always as many slots as seconds kept.
    pub proof fn law_slot_count(&self)
        ensures
            self@.len() == SLOT_COUNT,
    {
    }

    /// Whether a batch can be recorded with every count staying in range.
    pub open spec fn has_room(&self, batch: Counts) -> bool {
        fresh_total(recorded(self@, batch), batch.second) <= u64::MAX
    }

    /// Whether a batch can be recorded with every count staying in range.
    pub fn fits(&self, ts: u64, acks: u64, losses: u64) -> (r: bool)
        ensures
            r == self.has_room(
                (Counts { second: ts as nat, acks: acks as nat, losses: losses as nat }),
            ),
    {
        let ghost batch = Counts {
            second: ts as nat,
            acks: acks as nat,
            losses: losses as nat,
        };
        let ghost after = recorded(self@, batch);
        let min_ts: u64 = ts.saturating_sub(SLOT_COUNT as u64);
        let idx: usize = (ts % SLOT_COUNT as u64) as usize;
        let mut total: u128 = 0;
        let mut i: usize = 0;
        while i < SLOT_COUNT
            invariant
                i <= SLOT_COUNT,
                self@.len() == SLOT_COUNT,
                idx == ts % 5,
                min_ts == if ts >= SLOT_COUNT {
                    ts - SLOT_COUNT
                } else {
                    0
                },
                batch == (Counts { second: ts as nat, acks: acks as nat, losses: losses as nat }),
                after == recorded(self@, batch),
                total == fresh_total(after.take(i as int), ts as nat),
                total <= i * (4 * u64::MAX),
            decreases SLOT_COUNT - i,
        {
            let slot: PktInfoSlot = self.slots[i];
            proof {
                assert(after.take(i + 1).drop_last() =~= after.take(i as int));
                assert(after.take(i + 1).last() == after[i as int]);
                assert(self@[i as int] == slot.counts());
            }
            if i == idx {
                total = total + acks as u128 + losses as u128;
            }
            if slot.timestamp_sec >= min_ts && (i != idx || slot.timestamp_sec == ts) {
                total = total + slot.ack_count as u128 + slot.loss_count as u128;
            }
            i = i + 1;
        }
        assert(after.take(SLOT_COUNT as int) =~= after);
        total <= u64::MAX as u128
    }

    /// Records a batch of `acks` and `losses` at second `ts`.
    pub fn record(&mut self, ts: u64, acks: u64, losses: u64)
        requires
            old(self).has_room(
                (Counts { second: ts as nat, acks: acks as nat, losses: losses as nat }),
            ),
        ensures
            final(self)@ == recorded(
                old(self)@,
                (Counts { second: ts as nat, acks: acks as nat, losses: losses as nat }),
            ),
    {
        let ghost batch = Counts {
            second: ts as nat,
            acks: acks as nat,
            losses: losses as nat,
        };
        let idx: usize = (ts % SLOT_COUNT as u64) as usize;
        let slot: PktInfoSlot = self.slots[idx];
        let slot: PktInfoSlot = if slot.timestamp_sec == ts {
            proof {
                let after = recorded(self@, batch);
                lemma_slot_within_total(after, batch.second, Fate::Acked, idx as int);
                lemma_slot_within_total(after, batch.second, Fate::Lost, idx as int);
            }
            PktInfoSlot {
                timestamp_sec: ts,
                ack_count: slot.ack_count + acks,
                loss_count: slot.loss_count + losses,
            }
        } else {
            PktInfoSlot { timestamp_sec: ts, ack_count: acks, loss_count: losses }
        };
        self.slots[idx] = slot;
        assert(self@ =~= recorded(old(self)@, batch));
    }

    /// Acknowledged and lost packets in the slots that count at second `ts`.
    pub fn fresh_counts(&self, ts: u64) -> (r: (u64, u64))
        requires
            fresh_total(self@, ts as nat) <= u64::MAX,
        ensures
            r.0 == fresh_acks(self@, ts as nat),
            r.1 == fresh_losses(self@, ts as nat),
    {
        let min_ts: u64 = ts.saturating_sub(SLOT_COUNT as u64);
        let mut acks: u64 = 0;
        let mut losses: u64 = 0;
        let mut i: usize = 0;
        while i < SLOT_COUNT
            invariant
                i <= SLOT_COUNT,
                self@.len() == SLOT_COUNT,
                min_ts == if ts >= SLOT_COUNT {
                    ts - SLOT_COUNT
                } else {
                    0
                },
                acks == fresh_acks(self@.take(i as int), ts as nat),
                losses == fresh_losses(self@.take(i as int), ts as nat),
                fresh_total(self@, ts as nat) <= u64::MAX,
            decreases SLOT_COUNT - i,
        {
            let slot: PktInfoSlot = self.slots[i];
            proof {
                lemma_prefix_within_total(self@, ts as nat, Fate::Acked, i + 1);
                lemma_prefix_within_total(self@, ts as nat, Fate::Lost, i + 1);
                assert(self@.take(i + 1).drop_last() =~= self@.take(i as int));
                assert(self@.take(i + 1).last() == slot.counts());
            }
            if slot.timestamp_sec >= min_ts {
                acks = acks + slot.ack_count;
                losses = losses + slot.loss_count;
            }
            i = i + 1;
        }
        assert(self@.take(SLOT_COUNT as int) =~= self@);
        (acks, losses)
    }
}

/// A prefix of the slots holds no more than all of them.
proof fn lemma_prefix_within_total(slots: Seq<Counts>, now: nat, fate: Fate, n: int)
    requires
        0 <= n <= slots.len(),
    ensures
        fresh_count(slots.take(n), now, fate) <= fresh_count(slots, now, fate),
    decreases slots.len(),
{
    if n == slots.len() {
        assert(slots.take(n) =~= slots);
    } else {
        lemma_prefix_within_total(slots.drop_last(), now, fate, n);
        assert(slots.drop_last().take(n) =~= slots.take(n));
    }
}

/// A slot that counts holds no more than all of them.
proof fn lemma_slot_within_total(slots: Seq<Counts>, now: nat, fate: Fate, i: int)
    requires
        0 <= i < slots.len(),
        fresh(slots[i].second, now),
    ensures
        slots[i].of(fate) <= fresh_count(slots, now, fate),
{
    lemma_prefix_within_total(slots, now, fate, i + 1);
    assert(slots.take(i + 1).last() == slots[i]);
}

/// The slots after the batches of `history`, first to last, from a fresh ring.
pub open spec fn replay(history: Seq<Counts>) -> Seq<Counts>
    decreases history.len(),
{
    if history.len() == 0 {
        blank()
    } else {
        recorded(replay(history.drop_last()), history.last())
    }
}

/// Whether no batch is of an earlier second than one before it.
pub open spec fn in_order(history: Seq<Counts>) -> bool {
    forall|i: int, j: int|
        0 <= i <= j < history.len() ==> history[i].second <= history[j].second
}

/// Packets of one fate in the batches of the last few seconds up to `now`.
pub open spec fn recent_count(history: Seq<Counts>, now: nat, fate: Fate) -> nat
    decreases history.len(),
{
    if history.len() == 0 {
        0
    } else {
        recent_count(history.drop_last(), now, fate) + if history.last().second + SLOT_COUNT
            > now {
            history.last().of(fate)
        } else {
            0
        }
    }
}

/// Packets of one fate in the batches of one second.
spec fn count_at(history: Seq<Counts>, second: nat, fate: Fate) -> nat
    decreases history.len(),
{
    if history.len() == 0 {
        0
    } else {
        count_at(history.drop_last(), second, fate) + if history.last().second == second {
            history.last().of(fate)
        } else {
            0
        }
    }
}

/// Packets of one fate in the batches `age` seconds before `now`.
spec fn count_aged(history: Seq<Counts>, now: nat, age: nat, fate: Fate) -> nat {
    if age <= now {
        count_at(history, (now - age) as nat, fate)
    } else {
        0
    }
}

/// Nothing is counted of a second after the last batch.
proof fn lemma_nothing_later(history: Seq<Counts>, second: nat, fate: Fate)
    requires
        in_order(history),
        history.len() > 0 ==> history.last().second < second,
    ensures
        count_at(history, second, fate) == 0,
    decreases history.len(),
{
    if history.len() > 0 {
        let before = history.drop_last();
        if before.len() > 0 {
            assert(before.last() == history[history.len() - 2]);
        }
        lemma_nothing_later(before, second, fate);
    }
}

/// The recent seconds are each counted once.
proof fn lemma_recent_by_second(history: Seq<Counts>, now: nat, fate: Fate)
    requires
        forall|i: int| 0 <= i < history.len() ==> (#[trigger] history[i]).second <= now,
    ensures
        recent_count(history, now, fate) == count_aged(history, now, 0, fate) + count_aged(
            history,
            now,
            1,
            fate,
        ) + count_aged(history, now, 2, fate) + count_aged(history, now, 3, fate) + count_aged(
            history,
            now,
            4,
            fate,
        ),
    decreases history.len(),
{
    if history.len() > 0 {
        let before = history.drop_last();
        assert forall|i: int| 0 <= i < before.len() implies (#[trigger] before[i]).second
            <= now by {
            assert(before[i] == history[i]);
        }
        lemma_recent_by_second(before, now, fate);
        assert(history[history.len() - 1].second <= now);
    }
}

/// What the slots hold after an ordered history: of every recent second its counts, and
/// nothing newer than the last batch.
proof fn lemma_replay(history: Seq<Counts>, fate: Fate)
    requires
        in_order(history),
        history.len() > 0,
    ensures
        aligned(replay(history)),
        replay(history)[(history.last().second % 5) as int].second == history.last().second,
        forall|i: int|
            0 <= i < 5 ==> (#[trigger] replay(history)[i]).second <= history.last().second,
        forall|s: nat|
            s <= history.last().second < s + 5 ==> #[trigger] count_at(history, s, fate) == (if replay(
                history,
            )[(s % 5) as int].second == s {
                replay(history)[(s % 5) as int].of(fate)
            } else {
                0
            }),
    decreases history.len(),
{
    let before = history.drop_last();
    let now = history.last().second;
    let older = replay(before);
    let newer = replay(history);
    assert(in_order(before));
    if before.len() > 0 {
        lemma_replay(before, fate);
        assert(before.last() == history[history.len() - 2]);
    }
    assert(aligned(older));
    assert(newer == recorded(older, history.last()));
    assert forall|s: nat| s <= now < s + 5 implies #[trigger] count_at(history, s, fate) == (
    if newer[(s % 5) as int].second == s {
        newer[(s % 5) as int].of(fate)
    } else {
        0
    }) by {
        assert(count_at(history, s, fate) == count_at(before, s, fate) + if now == s {
            history.last().of(fate)
        } else {
            0
        });
        if before.len() == 0 || before.last().second < s {
            lemma_nothing_later(before, s, fate);
        }
    }
}

/// Recording keeps every slot blank or with a second that belongs to it, whatever the
/// order of the seconds.
pub proof fn law_record_keeps_alignment(slots: Seq<Counts>, batch: Counts)
    requires
        aligned(slots),
    ensures
        aligned(recorded(slots, batch)),
{
}

/// A batch touches only the slot of its second.
pub proof fn law_record_touches_one_slot(slots: Seq<Counts>, batch: Counts, i: int)
    requires
        slots.len() == SLOT_COUNT,
        0 <= i < SLOT_COUNT,
        i != batch.second % (SLOT_COUNT as nat),
    ensures
        recorded(slots, batch)[i] == slots[i],
{
}

/// While time does not run backwards, the slots that count after a batch hold exactly the
/// batches of the last few seconds: none of those is missing, none older is left over.
pub proof fn law_fresh_slots_are_the_recent_batches(history: Seq<Counts>, fate: Fate)
    requires
        history.len() > 0,
        in_order(history),
    ensures
        fresh_count(replay(history), history.last().second, fate) == recent_count(
            history,
            history.last().second,
            fate,
        ),
{
    let now = history.last().second;
    let slots = replay(history);
    assert(slots.len() == 5) by {
        lemma_replay(history, fate);
    }
    assert forall|i: int| 0 <= i < history.len() implies (#[trigger] history[i]).second
        <= now by {
        assert(history.last() == history[history.len() - 1]);
    }
    lemma_recent_by_second(history, now, fate);
    lemma_five_slots(slots, now, fate);
    lemma_share_by_age(history, fate, 0);
    lemma_share_by_age(history, fate, 1);
    lemma_share_by_age(history, fate, 2);
    lemma_share_by_age(history, fate, 3);
    lemma_share_by_age(history, fate, 4);
    let newest = now % 5;
    assert(newest == 0 || newest == 1 || newest == 2 || newest == 3 || newest == 4);
}

/// Each slot adds the counts of the one recent second that belongs to it.
proof fn lemma_share_by_age(history: Seq<Counts>, fate: Fate, i: int)
    requires
        history.len() > 0,
        in_order(history),
        0 <= i < 5,
    ensures
        share(replay(history), history.last().second, fate, i) == count_aged(
            history,
            history.last().second,
            age_of(history.last().second, i),
            fate,
        ),
{
    let now = history.last().second;
    let age = age_of(now, i);
    let slot = replay(history)[i];
    lemma_replay(history, fate);
    if age <= now {
        let s = (now - age) as nat;
        assert(s % 5 == i);
        assert(count_at(history, s, fate) == (if slot.second == s {
            slot.of(fate)
        } else {
            0
        }));
    }
}

/// How many seconds before `now` the last second that belongs to slot `i` was.
spec fn age_of(now: nat, i: int) -> nat {
    let newest = now % 5;
    if newest >= i {
        (newest - i) as nat
    } else {
        (newest + 5 - i) as nat
    }
}

/// What one slot adds to the packets that count at time `now`.
spec fn share(slots: Seq<Counts>, now: nat, fate: Fate, i: int) -> nat {
    if fresh(slots[i].second, now) {
        slots[i].of(fate)
    } else {
        0
    }
}

/// The count over five slots, written out.
proof fn lemma_five_slots(slots: Seq<Counts>, now: nat, fate: Fate)
    requires
        slots.len() == 5,
    ensures
        fresh_count(slots, now, fate) == share(slots, now, fate, 0) + share(slots, now, fate, 1)
            + share(slots, now, fate, 2) + share(slots, now, fate, 3) + share(
            slots,
            now,
            fate,
            4,
        ),
{
    reveal_with_fuel(fresh_count, 6);
}

/// A fresh ring has five slots with nothing in them.
pub proof fn law_fresh_ring_counts_nothing(now: nat, fate: Fate)
    ensures
        blank().len() == 5,
        forall|i: int|
            0 <= i < 5 ==> (#[trigger] blank()[i]).second == 0 && blank()[i].acks == 0
                && blank()[i].losses == 0,
        fresh_count(blank(), now, fate) == 0,
{
    lemma_five_slots(blank(), now, fate);
}

/// A batch is told by its acknowledged and its lost packets.
pub proof fn law_fates_of_a_batch(batch: Counts)
    ensures
        batch.of(Fate::Acked) == batch.acks,
        batch.of(Fate::Lost) == batch.losses,
{
}

/// After a recording, whichever way time runs, the slot of the second holds that second, and
/// of it every packet of the batch beside those that were there of the same second.
pub proof fn law_record_adds_to_its_second(slots: Seq<Counts>, batch: Counts)
    requires
        slots.len() == 5,
    ensures
        recorded(slots, batch).len() == 5,
        recorded(slots, batch)[(batch.second % 5) as int].second == batch.second,
        slots[(batch.second % 5) as int].second == batch.second ==> {
            &&& recorded(slots, batch)[(batch.second % 5) as int].acks - batch.acks
                == slots[(batch.second % 5) as int].acks
            &&& recorded(slots, batch)[(batch.second % 5) as int].losses - batch.losses
                == slots[(batch.second % 5) as int].losses
        },
        slots[(batch.second % 5) as int].second != batch.second ==> {
            &&& recorded(slots, batch)[(batch.second % 5) as int].acks == batch.acks
            &&& recorded(slots, batch)[(batch.second % 5) as int].losses == batch.losses
        },
        forall|i: int|
            0 <= i < 5 && i != batch.second % 5 ==> #[trigger] recorded(slots, batch)[i]
                == slots[i],
{
}

/// Two batches of one second are as good as one of all their packets.
pub proof fn law_batches_of_a_second_add_up(slots: Seq<Counts>, first: Counts, second: Counts)
    requires
        slots.len() == 5,
        first.second == second.second,
    ensures
        recorded(recorded(slots, first), second) == recorded(
            slots,
            (Counts {
                second: first.second,
                acks: first.acks + second.acks,
                losses: first.losses + second.losses,
            }),
        ),
{
    assert(recorded(recorded(slots, first), second) =~= recorded(
        slots,
        Counts {
            second: first.second,
            acks: first.acks + second.acks,
            losses: first.losses + second.losses,
        },
    ));
}

/// A slot counts with all its packets while its second is at most five back, and with none
/// after that.
pub proof fn law_slot_counts_for_five_seconds(slot: Counts, now: nat, fate: Fate)
    ensures
        slot.second + 5 >= now ==> fresh_count(seq![slot], now, fate) == (match fate {
            Fate::Acked => slot.acks,
            Fate::Lost => slot.losses,
        }),
        slot.second + 5 < now ==> fresh_count(seq![slot], now, fate) == 0,
{
    reveal_with_fuel(fresh_count, 2);
    assert(seq![slot].drop_last() =~= Seq::empty());
}

/// The packets that count are those of each slot, added up.
pub proof fn law_slots_add_up(left: Seq<Counts>, right: Seq<Counts>, now: nat, fate: Fate)
    ensures
        fresh_count(left + right, now, fate) == fresh_count(left, now, fate) + fresh_count(
            right,
            now,
            fate,
        ),
        fresh_count(Seq::empty(), now, fate) == 0,
    decreases right.len(),
{
    if right.len() == 0 {
        assert(left + right =~= left);
    } else {
        law_slots_add_up(left, right.drop_last(), now, fate);
        assert((left + right).drop_last() =~= left + right.drop_last());
    }
}

/// All packets that count are the acknowledged and the lost ones, and a batch has room
/// exactly while they fit the counters.
pub proof fn law_room_is_what_the_counters_hold(ring: SlotRing, batch: Counts)
    ensures
        fresh_total(ring@, batch.second) == fresh_count(ring@, batch.second, Fate::Acked)
            + fresh_count(ring@, batch.second, Fate::Lost),
        fresh_acks(ring@, batch.second) == fresh_count(ring@, batch.second, Fate::Acked),
        fresh_losses(ring@, batch.second) == fresh_count(ring@, batch.second, Fate::Lost),
        ring.has_room(batch) <==> fresh_count(
            recorded(ring@, batch),
            batch.second,
            Fate::Acked,
        ) + fresh_count(recorded(ring@, batch), batch.second, Fate::Lost)
            <= 0xffff_ffff_ffff_ffff,
{
}

} // verus!
