//! A counter per group, with deduplication of commands.

use crate::collections;
use crate::counter_codec;
use crate::fsm::ApplyOut;
use crate::fsm::CaptureError;
use crate::fsm::CaptureRefusal;
use crate::fsm::StateMachine;
use crate::text;
use crate::GroupId;
use std::collections::BTreeSet;
use std::collections::HashMap;
use std::collections::HashSet;
use vstd::prelude::*;
use vstd::std_specs::hash::spec_hash_keys_iter;
use vstd::std_specs::iter::IteratorSpec;
use vstd::string::*;

verus! {

/// Why a counter operation failed.
#[derive(Debug)]
pub enum CounterError {
    Decode(String),
}

impl CounterError {
    /// The message of the error.
    pub open spec fn text(self) -> Seq<char> {
        match self {
            CounterError::Decode(message) => "decode: "@ + message@,
        }
    }

    /// The message of the error.
    pub fn to_string(&self) -> (text: String)
        ensures
            text@ == self.text(),
    {
        match self {
            CounterError::Decode(message) => {
                let mut text = "decode: ".to_owned();
                text.append(message.as_str());
                text
            },
        }
    }
}

/// A counter per group that applies each command once.
#[derive(Debug, Default)]
pub struct CounterFsm {
    values: HashMap<GroupId, i64>,
    seen: HashMap<GroupId, HashSet<u64>>,
}

/// The digits of all numbers in `s`.
pub open spec fn digits_total(s: Set<u64>) -> nat
    decreases s.len(),
    when s.finite()
{
    if s.len() == 0 {
        0
    } else {
        let x = s.choose();
        text::decimal(x as nat).len() + digits_total(s.remove(x))
    }
}

/// The length of the text of a snapshot.
pub open spec fn snapshot_len(value: i64, seen: Set<u64>) -> nat {
    5 + text::signed_decimal(value as int).len() + digits_total(seen) + if seen.len() == 0 {
        0
    } else {
        (seen.len() - 1) as nat
    }
}

proof fn lemma_digits_total_remove(s: Set<u64>, x: u64)
    requires
        s.finite(),
        s.contains(x),
    ensures
        digits_total(s) == text::decimal(x as nat).len() + digits_total(s.remove(x)),
    decreases s.len(),
{
    let y = s.choose();
    if x != y {
        lemma_digits_total_remove(s.remove(y), x);
        lemma_digits_total_remove(s.remove(x), y);
        assert(s.remove(y).remove(x) =~= s.remove(x).remove(y));
    }
}

proof fn lemma_joined_len(q: Seq<u64>)
    requires
        q.no_duplicates(),
    ensures
        q.to_set().finite(),
        q.to_set().len() == q.len(),
        text::joined(q, seq![',']).len() == digits_total(q.to_set()) + (if q.len() == 0 {
            0
        } else {
            q.len() - 1
        }),
    decreases q.len(),
{
    q.unique_seq_to_set();
    if q.len() > 0 {
        let rest = q.drop_last();
        assert(rest.no_duplicates());
        lemma_joined_len(rest);
        rest.unique_seq_to_set();
        collections::lemma_push_to_set(rest, q.last());
        assert(q =~= rest.push(q.last()));
        assert(!rest.to_set().contains(q.last()));
        assert(q.to_set().remove(q.last()) =~= rest.to_set());
        lemma_digits_total_remove(q.to_set(), q.last());
        if q.len() == 1 {
            assert(q.last() == q[0]);
        }
    } else {
        assert(q.to_set() =~= Set::empty());
    }
}

fn digit_count(n: u64) -> (count: usize)
    ensures
        count == text::decimal(n as nat).len(),
        1 <= count <= 20,
{
    let mut rest: u64 = n;
    let mut count: usize = 1;
    let ghost total = text::decimal(n as nat).len();
    proof {
        lemma_decimal_len(n as nat, 20);
    }
    while rest >= 10
        invariant
            count + text::decimal(rest as nat).len() == total + 1,
            1 <= count,
            total <= 20,
        decreases rest,
    {
        rest = rest / 10;
        count += 1;
    }
    count
}

spec fn power_of_ten(k: nat) -> nat
    decreases k,
{
    if k == 0 {
        1
    } else {
        10 * power_of_ten((k - 1) as nat)
    }
}

proof fn lemma_decimal_len(n: nat, k: nat)
    requires
        k >= 1,
        n < 0x1_0000_0000_0000_0000,
        k == 20 || n < power_of_ten(k),
    ensures
        1 <= text::decimal(n).len() <= k,
    decreases k,
{
    if k == 20 {
        reveal_with_fuel(power_of_ten, 21);
        assert(n < power_of_ten(20));
    }
    if n >= 10 {
        assert(power_of_ten(1) == 10) by {
            reveal_with_fuel(power_of_ten, 2);
        }
        assert(n / 10 < power_of_ten((k - 1) as nat));
        lemma_decimal_len(n / 10, (k - 1) as nat);
    }
}

impl CounterFsm {
    /// The value of a group; zero where nothing was applied to it.
    pub closed spec fn value_of(self, group: GroupId) -> i64 {
        if self.values@.contains_key(group) {
            self.values@[group]
        } else {
            0
        }
    }

    /// The keys that a group has seen.
    pub closed spec fn seen_of(self, group: GroupId) -> Set<u64> {
        if self.seen@.contains_key(group) {
            self.seen@[group]@
        } else {
            Set::empty()
        }
    }

    /// Nothing but `group` differs from `before`.
    pub open spec fn changes_only(self, before: CounterFsm, group: GroupId) -> bool {
        forall|g: GroupId|
            g != group ==> #[trigger] self.value_of(g) == before.value_of(g) && self.seen_of(g)
                == before.seen_of(g)
    }

    /// The state after a command: a key that was seen changes nothing.
    pub open spec fn is_after(self, before: CounterFsm, group: GroupId, idem: u64, delta: i64) -> bool {
        &&& self.changes_only(before, group)
        &&& self.seen_of(group) == before.seen_of(group).insert(idem)
        &&& self.value_of(group) == if before.seen_of(group).contains(idem) {
            before.value_of(group) as int
        } else {
            before.value_of(group) + delta
        }
    }

    /// `bytes` is the serialization of the group: its value and its keys, each once and the smallest
    /// first, which the decoder gives back.
    pub open spec fn is_captured(self, group: GroupId, bytes: Seq<u8>) -> bool {
        let keys = text::ascending(self.seen_of(group));
        &&& text::lists_ascending(keys, self.seen_of(group))
        &&& bytes == counter_codec::ascii(
            counter_codec::snapshot_text(self.value_of(group), keys),
        )
        &&& counter_codec::parsed_snapshot(bytes) == Ok::<(i64, Seq<u64>), Seq<char>>(
            (self.value_of(group), keys),
        )
    }

    /// The state after a restore: the group has the value and the keys that were serialized.
    pub open spec fn is_restored(
        self,
        before: CounterFsm,
        group: GroupId,
        value: i64,
        seen: Seq<u64>,
    ) -> bool {
        &&& self.changes_only(before, group)
        &&& self.value_of(group) == value
        &&& self.seen_of(group) == seen.to_set()
    }

    /// Counters to which nothing was applied.
    pub fn new() -> (fsm: Self)
        ensures
            forall|g: GroupId| #[trigger]
                fsm.value_of(g) == 0 && fsm.seen_of(g) == Set::<u64>::empty(),
    {
        CounterFsm { values: HashMap::new(), seen: HashMap::new() }
    }

    /// Encodes the command to add `delta`, once for each key `idem`.
    pub fn encode_add(delta: i64, idem: u64) -> (bytes: Vec<u8>)
        ensures
            bytes@ == counter_codec::command_bytes(idem, delta),
            counter_codec::command_of(bytes@) == Some((idem, delta)),
    {
        proof {
            counter_codec::lemma_command_of_its_bytes(idem, delta);
        }
        counter_codec::encode_command(idem, delta)
    }

    /// Whether a command can be applied: every one can that does not overflow the counter.
    pub fn can_apply(&self, group: GroupId, data: &[u8]) -> (possible: bool)
        ensures
            possible == self.accepts(group, data@),
    {
        let (idem, delta) = match counter_codec::decode_command(data) {
            Ok(command) => command,
            Err(_) => {
                return true;
            },
        };
        if let Some(seen) = self.seen.get(&group) {
            if seen.contains(&idem) {
                return true;
            }
        }
        self.value(group).checked_add(delta).is_some()
    }

    /// The value of a group.
    pub fn value(&self, group: GroupId) -> (value: i64)
        ensures
            value == self.value_of(group),
    {
        match self.values.get(&group) {
            Some(value) => *value,
            None => 0,
        }
    }

    /// The keys that a group has seen, the smallest first.
    fn seen_keys(&self, group: GroupId) -> (keys: Vec<u64>)
        ensures
            text::lists_ascending(keys@, self.seen_of(group)),
            keys@ == text::ascending(self.seen_of(group)),
    {
        let mut ordered: BTreeSet<u64> = BTreeSet::new();
        if let Some(set) = self.seen.get(&group) {
            for x in it: set.iter()
                invariant
                    it.seq() == spec_hash_keys_iter(set).remaining(),
                    ordered@ == it.seq().unref().take(it.index()).to_set(),
            {
                ordered.insert(*x);
                proof {
                    let all = it.seq().unref();
                    collections::lemma_push_to_set(all.take(it.index()), *x);
                    assert(all.take(it.index() + 1) =~= all.take(it.index()).push(*x));
                }
            }
            proof {
                let all = spec_hash_keys_iter(set).remaining().unref();
                assert(all.take(all.len() as int) =~= all);
            }
        }
        assert(ordered@ =~= self.seen_of(group));
        text::ascending_members(&ordered)
    }

    /// Whether the serialization of a group is longer than `max_bytes`. Nothing is allocated.
    fn exceeds(&self, group: GroupId, max_bytes: usize) -> (longer: bool)
        ensures
            longer == (snapshot_len(self.value_of(group), self.seen_of(group)) > max_bytes),
    {
        let value = self.value(group);
        let sign: usize = if value < 0 {
            1
        } else {
            0
        };
        let size = digit_count(magnitude(value));
        let ghost fixed = 5 + text::signed_decimal(value as int).len();
        assert(fixed == 5 + sign + size);
        if 5 + sign + size > max_bytes {
            return true;
        }
        let mut left: usize = max_bytes - (5 + sign + size);
        let mut first: bool = true;
        match self.seen.get(&group) {
            None => {
                assert(self.seen_of(group) =~= Set::empty());
                return false;
            },
            Some(set) => {
                let ghost whole = set@;
                for x in it: set.iter()
                    invariant
                        set@ == whole,
                        it.seq() == spec_hash_keys_iter(set).remaining(),
                        first == (it.index() == 0),
                        left + text::joined(
                            it.seq().unref().take(it.index()),
                            seq![','],
                        ).len() + fixed == max_bytes,
                        self.seen_of(group) == set@,
                        value == self.value_of(group),
                        fixed == 5 + text::signed_decimal(value as int).len(),
                {
                    let comma: usize = if first {
                        0
                    } else {
                        1
                    };
                    let need: usize = comma + digit_count(*x);
                    proof {
                        let all = it.seq().unref();
                        let next = all.take(it.index() + 1);
                        assert(next.drop_last() =~= all.take(it.index()));
                        assert(next.last() == *x);
                        assert(text::joined(next, seq![',']).len() == text::joined(
                            all.take(it.index()),
                            seq![','],
                        ).len() + need);
                        if need > left {
                            lemma_joined_prefix(all, it.index() + 1);
                            lemma_joined_len(all);
                        }
                    }
                    if need > left {
                        return true;
                    }
                    left = left - need;
                    first = false;
                }
                proof {
                    let all = spec_hash_keys_iter(set).remaining().unref();
                    assert(all.take(all.len() as int) =~= all);
                    lemma_joined_len(all);
                }
            },
        }
        false
    }
}

fn magnitude(value: i64) -> (size: u64)
    ensures
        size == if value < 0 {
            -value
        } else {
            value as int
        },
{
    if value < 0 {
        (-(value + 1)) as u64 + 1
    } else {
        value as u64
    }
}

/// The text of a prefix is no longer than the text of the whole.
proof fn lemma_joined_prefix(q: Seq<u64>, k: int)
    requires
        0 <= k <= q.len(),
    ensures
        text::joined(q.take(k), seq![',']).len() <= text::joined(q, seq![',']).len(),
    decreases q.len() - k,
{
    if k == q.len() {
        assert(q.take(k) =~= q);
    } else {
        lemma_joined_prefix(q, k + 1);
        assert(q.take(k + 1).drop_last() =~= q.take(k));
    }
}

impl StateMachine for CounterFsm {
    type Error = CounterError;

    /// A command is taken unless it would overflow the counter.
    open spec fn accepts(&self, group: GroupId, data: Seq<u8>) -> bool {
        counter_codec::command_of(data) matches Some((idem, delta)) ==> self.seen_of(
            group,
        ).contains(idem) || i64::MIN <= self.value_of(group) + delta <= i64::MAX
    }

    /// The group has the value and the keys that were serialized; what cannot be decoded changes
    /// nothing.
    open spec fn restores(
        before: &Self,
        after: &Self,
        group: GroupId,
        snapshot: Seq<u8>,
        restored: Result<(), CounterError>,
    ) -> bool {
        match counter_codec::parsed_snapshot(snapshot) {
            Ok((value, seen)) => {
                &&& restored is Ok
                &&& after.is_restored(*before, group, value, seen)
            },
            Err(message) => {
                &&& restored matches Err(CounterError::Decode(m)) && m@ == message
                &&& *after == *before
            },
        }
    }

    fn apply(&mut self, group: GroupId, index: u64, data: &[u8]) -> (out: Result<
        ApplyOut,
        CounterError,
    >)
        ensures
            match counter_codec::command_of(data@) {
                Some((idem, delta)) => {
                    &&& out matches Ok(out) && out.effects@.len() == 0
                    &&& final(self).is_after(*old(self), group, idem, delta)
                },
                None => {
                    &&& out matches Err(CounterError::Decode(message)) && message@
                        == counter_codec::command_failure(data@)
                    &&& *final(self) == *old(self)
                },
            },
    {
        let (idem, delta) = match counter_codec::decode_command(data) {
            Ok(command) => command,
            Err(message) => {
                return Err(CounterError::Decode(message));
            },
        };
        let mut seen = match self.seen.remove(&group) {
            Some(seen) => seen,
            None => HashSet::new(),
        };
        let fresh = seen.insert(idem);
        self.seen.insert(group, seen);
        if fresh {
            let value = self.value(group);
            self.values.insert(group, value + delta);
        }
        assert(self.seen_of(group) =~= old(self).seen_of(group).insert(idem));
        Ok(ApplyOut { effects: Vec::new() })
    }

    fn snapshot(&self, group: GroupId) -> (bytes: Result<Vec<u8>, CounterError>)
        ensures
            bytes matches Ok(bytes) && self.is_captured(group, bytes@),
    {
        let value = self.value(group);
        let seen = self.seen_keys(group);
        Ok(counter_codec::encode_snapshot(value, &seen))
    }

    fn freeze_bounded(&self, group: GroupId, max_bytes: usize) -> (bytes: Result<
        Vec<u8>,
        CaptureError<CounterError>,
    >)
        ensures
            if snapshot_len(self.value_of(group), self.seen_of(group)) > max_bytes {
                bytes matches Err(CaptureError::Refused(CaptureRefusal::SizeLimit))
            } else {
                bytes matches Ok(bytes) && self.is_captured(group, bytes@) && bytes@.len()
                    == snapshot_len(self.value_of(group), self.seen_of(group))
            },
    {
        if self.exceeds(group, max_bytes) {
            return Err(CaptureError::Refused(CaptureRefusal::SizeLimit));
        }
        let value = self.value(group);
        let seen = self.seen_keys(group);
        let bytes = counter_codec::encode_snapshot(value, &seen);
        proof {
            law_capture_bound_is_exact(*self, group, bytes@);
        }
        Ok(bytes)
    }

    fn restore(&mut self, group: GroupId, snapshot: &[u8]) -> (restored: Result<(), CounterError>)
    {
        let (value, keys) = match counter_codec::decode_snapshot(snapshot) {
            Ok(parsed) => parsed,
            Err(message) => {
                return Err(CounterError::Decode(message));
            },
        };
        let mut seen: HashSet<u64> = HashSet::new();
        let mut i: usize = 0;
        assert(keys@.take(0).to_set() =~= Set::empty());
        while i < keys.len()
            invariant
                i <= keys.len(),
                seen@ == keys@.take(i as int).to_set(),
            decreases keys.len() - i,
        {
            seen.insert(keys[i]);
            proof {
                collections::lemma_push_to_set(keys@.take(i as int), keys@[i as int]);
                assert(keys@.take(i + 1) =~= keys@.take(i as int).push(keys@[i as int]));
            }
            i += 1;
        }
        assert(keys@.take(keys.len() as int) =~= keys@);
        self.values.insert(group, value);
        self.seen.insert(group, seen);
        Ok(())
    }
}

/// Restoring what was captured, by any of the serializers, gives the group back: its value and its
/// deduplication.
pub proof fn law_restore_gives_back_what_was_captured(
    captured: CounterFsm,
    before: CounterFsm,
    restored: CounterFsm,
    group: GroupId,
    bytes: Seq<u8>,
)
    requires
        captured.is_captured(group, bytes),
        counter_codec::parsed_snapshot(bytes) matches Ok((value, seen)) ==> restored.is_restored(
            before,
            group,
            value,
            seen,
        ),
    ensures
        counter_codec::parsed_snapshot(bytes) is Ok,
        restored.value_of(group) == captured.value_of(group),
        restored.seen_of(group) == captured.seen_of(group),
{
}

/// A command with a key that was applied before changes nothing.
pub proof fn law_repeated_command_changes_nothing(
    start: CounterFsm,
    once: CounterFsm,
    twice: CounterFsm,
    group: GroupId,
    idem: u64,
    delta: i64,
    again: i64,
)
    requires
        once.is_after(start, group, idem, delta),
        twice.is_after(once, group, idem, again),
    ensures
        forall|g: GroupId| #[trigger]
            twice.value_of(g) == once.value_of(g) && twice.seen_of(g) == once.seen_of(g),
{
    assert(once.seen_of(group).contains(idem));
    assert(once.seen_of(group).insert(idem) =~= once.seen_of(group));
    assert forall|g: GroupId| #[trigger]
        twice.value_of(g) == once.value_of(g) && twice.seen_of(g) == once.seen_of(g) by {
        if g != group {
            assert(twice.value_of(g) == once.value_of(g));
        }
    }
}

/// Every capture of a group is as long as the length that a bounded freeze goes by: a bound admits
/// all captures of a state or none.
pub proof fn law_capture_bound_is_exact(fsm: CounterFsm, group: GroupId, bytes: Seq<u8>)
    requires
        fsm.is_captured(group, bytes),
    ensures
        bytes.len() == snapshot_len(fsm.value_of(group), fsm.seen_of(group)),
{
    lemma_joined_len(text::ascending(fsm.seen_of(group)));
}

/// Captures are determined by the state: two captures of groups with the same value and the same
/// keys are the same bytes, of one machine or of two, by any of the serializers.
pub proof fn law_captures_of_equal_states_are_equal(
    first: CounterFsm,
    second: CounterFsm,
    group: GroupId,
    other: GroupId,
    a: Seq<u8>,
    b: Seq<u8>,
)
    requires
        first.is_captured(group, a),
        second.is_captured(other, b),
        first.value_of(group) == second.value_of(other),
        first.seen_of(group) == second.seen_of(other),
    ensures
        a == b,
{
}

/// Applying an encoded command adds its delta to the counter of its group, once for each key: a key
/// that was seen changes nothing, and no other group is touched.
pub proof fn law_commands_count_once(
    fsm: &mut CounterFsm,
    group: GroupId,
    index: u64,
    delta: i64,
    idem: u64,
    command: Vec<u8>,
    data: &[u8],
    out: Result<ApplyOut, CounterError>,
    other: GroupId,
    key: u64,
)
    requires
        call_ensures(CounterFsm::encode_add, (delta, idem), command),
        data@ == command@,
        call_ensures(CounterFsm::apply, (fsm, group, index, data), out),
        other != group,
    ensures
        out is Ok,
        out->Ok_0.effects@.len() == 0,
        old(fsm).seen_of(group).contains(idem) ==> final(fsm).value_of(group) == old(fsm).value_of(
            group,
        ),
        !old(fsm).seen_of(group).contains(idem) ==> final(fsm).value_of(group) == old(fsm).value_of(
            group,
        ) + delta,
        final(fsm).seen_of(group).contains(key) <==> key == idem || old(fsm).seen_of(group).contains(
            key,
        ),
        final(fsm).value_of(other) == old(fsm).value_of(other),
        final(fsm).seen_of(other) == old(fsm).seen_of(other),
{
    assert(final(fsm).value_of(other) == old(fsm).value_of(other));
}

/// What is too short to be a command is refused, and changes nothing; a longer one is taken by its
/// first 16 bytes.
pub proof fn law_short_commands_change_nothing(
    fsm: &mut CounterFsm,
    group: GroupId,
    index: u64,
    data: &[u8],
    out: Result<ApplyOut, CounterError>,
)
    requires
        call_ensures(CounterFsm::apply, (fsm, group, index, data), out),
    ensures
        out is Err <==> data@.len() < 16,
        out is Err ==> *final(fsm) == *old(fsm),
{
}

/// A command can be applied exactly where it is too short to be one, its key was seen, or its delta
/// keeps the counter within 64 bits.
pub proof fn law_commands_can_be_applied_within_range(
    fsm: CounterFsm,
    group: GroupId,
    delta: i64,
    idem: u64,
    command: Vec<u8>,
    data: &[u8],
    possible: bool,
)
    requires
        call_ensures(CounterFsm::encode_add, (delta, idem), command),
        data@ == command@,
        call_ensures(CounterFsm::can_apply, (&fsm, group, data), possible),
    ensures
        possible <==> fsm.seen_of(group).contains(idem) || -0x8000_0000_0000_0000
            <= fsm.value_of(group) + delta <= 0x7fff_ffff_ffff_ffff,
{
}

/// What one machine serializes, another one restores: the group has the same value and has seen the
/// same keys, and no other group is touched.
pub proof fn law_snapshots_carry_the_group_over(
    fsm: CounterFsm,
    group: GroupId,
    bytes: Result<Vec<u8>, CounterError>,
    data: &[u8],
    target: &mut CounterFsm,
    restored: Result<(), CounterError>,
    other: GroupId,
)
    requires
        call_ensures(CounterFsm::snapshot, (&fsm, group), bytes),
        bytes is Ok,
        data@ == bytes->Ok_0@,
        call_ensures(CounterFsm::restore, (target, group, data), restored),
        other != group,
    ensures
        restored is Ok,
        final(target).value_of(group) == fsm.value_of(group),
        final(target).seen_of(group) == fsm.seen_of(group),
        final(target).value_of(other) == old(target).value_of(other),
        final(target).seen_of(other) == old(target).seen_of(other),
{
    assert(final(target).value_of(other) == old(target).value_of(other));
}

/// A bounded capture is the serialization itself, and is refused exactly where that is longer than
/// the bound.
pub proof fn law_bounded_captures_are_whole(
    fsm: CounterFsm,
    group: GroupId,
    max_bytes: usize,
    bytes: Result<Vec<u8>, CounterError>,
    frozen: Result<Vec<u8>, CaptureError<CounterError>>,
)
    requires
        call_ensures(CounterFsm::snapshot, (&fsm, group), bytes),
        call_ensures(CounterFsm::freeze_bounded, (&fsm, group, max_bytes), frozen),
    ensures
        bytes is Ok,
        frozen is Ok <==> bytes->Ok_0@.len() <= max_bytes,
        frozen is Ok ==> frozen->Ok_0@ == bytes->Ok_0@,
        frozen is Err ==> frozen->Err_0 == CaptureError::<CounterError>::Refused(
            CaptureRefusal::SizeLimit,
        ),
{
    law_capture_bound_is_exact(fsm, group, bytes->Ok_0@);
    if frozen is Ok {
        law_captures_of_equal_states_are_equal(
            fsm,
            fsm,
            group,
            group,
            frozen->Ok_0@,
            bytes->Ok_0@,
        );
    }
}

/// New counters stand at zero and have seen nothing, and a value that is read is the value.
pub proof fn law_counters_start_at_zero(fsm: CounterFsm, group: GroupId, key: u64, value: i64)
    requires
        call_ensures(CounterFsm::new, (), fsm),
        call_ensures(CounterFsm::value, (&fsm, group), value),
    ensures
        value == 0,
        !fsm.seen_of(group).contains(key),
{
    assert(fsm.value_of(group) == 0);
}

/// A decoding error shows what the decoder said.
pub proof fn law_decoding_errors_say_why(message: String, shown: String)
    requires
        call_ensures(CounterError::to_string, (&CounterError::Decode(message),), shown),
    ensures
        shown@ == "decode: "@ + message@,
{
}

/// What cannot be decoded is not restored, and changes nothing.
pub proof fn law_undecodable_snapshots_change_nothing(
    fsm: &mut CounterFsm,
    group: GroupId,
    data: &[u8],
    restored: Result<(), CounterError>,
)
    requires
        call_ensures(CounterFsm::restore, (fsm, group, data), restored),
    ensures
        restored is Err <==> counter_codec::parsed_snapshot(data@) is Err,
        restored is Err ==> *final(fsm) == *old(fsm),
{
}

} // verus!
