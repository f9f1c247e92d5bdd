use vstd::prelude::*;

use std::collections::VecDeque;
use std::time::Instant;

use crate::clock::millis_since;
use crate::input::types::{ChatMessage, GbaButton, ParsedInput};

verus! {

/// The arbitration queue as a value: what is waiting, when each user was last admitted,
/// when a Start press was last admitted, and the fixed settings (times in milliseconds
/// of the queue's clock).
pub struct QueueView {
    pub entries: Seq<(GbaButton, Seq<char>)>,
    pub last_input: Map<Seq<char>, int>,
    pub last_start: Option<int>,
    pub rate_limit_ms: int,
    pub start_throttle_ms: int,
    pub capacity: int,
}

/// The last `c` elements of `s` (all of them when there are no more than `c`).
pub open spec fn keep_last<T>(s: Seq<T>, c: int) -> Seq<T> {
    if s.len() <= c {
        s
    } else {
        s.subrange(s.len() - c, s.len() as int)
    }
}

/// The time from `last` to `now`, or zero if `now` is earlier.
pub open spec fn elapsed(last: int, now: int) -> int {
    if now >= last {
        now - last
    } else {
        0
    }
}

/// Each press paired with the user who sent it.
pub open spec fn tagged(buttons: Seq<GbaButton>, user: Seq<char>) -> Seq<(GbaButton, Seq<char>)> {
    buttons.map_values(|b: GbaButton| (b, user))
}

/// The user was admitted less than the rate-limit window ago.
pub open spec fn rate_limited(q: QueueView, user: Seq<char>, now: int) -> bool {
    q.last_input.contains_key(user) && elapsed(q.last_input[user], now) < q.rate_limit_ms
}

/// A Start press was admitted less than the throttle window ago.
pub open spec fn start_throttled(q: QueueView, now: int) -> bool {
    match q.last_start {
        Some(t) => elapsed(t, now) < q.start_throttle_ms,
        None => false,
    }
}

/// Whether a submission is taken in whole; otherwise it is dropped in whole.
pub open spec fn admits(q: QueueView, user: Seq<char>, buttons: Seq<GbaButton>, now: int) -> bool {
    &&& buttons.len() > 0
    &&& !rate_limited(q, user, now)
    &&& !(buttons.contains(GbaButton::Start) && start_throttled(q, now))
}

/// The queue after `user` submits `buttons` at time `now`. An admitted submission
/// records the user's time once, records the Start time if it holds a Start press, and
/// appends every press in order, the oldest entries giving way beyond the capacity.
pub open spec fn submit_step(q: QueueView, user: Seq<char>, buttons: Seq<GbaButton>, now: int) -> QueueView {
    if admits(q, user, buttons, now) {
        QueueView {
            entries: keep_last(q.entries + tagged(buttons, user), q.capacity),
            last_input: q.last_input.insert(user, now),
            last_start: if buttons.contains(GbaButton::Start) {
                Some(now)
            } else {
                q.last_start
            },
            ..q
        }
    } else {
        q
    }
}

/// The queue after its oldest entry, if any, is taken out.
pub open spec fn pop_step(q: QueueView) -> QueueView {
    if q.entries.len() == 0 {
        q
    } else {
        QueueView { entries: q.entries.drop_first(), ..q }
    }
}

/// The per-session input queue of anarchy mode: a bounded FIFO of presses with a
/// per-user rate limit and a global throttle on Start.
pub struct AnarchyQueue {
    queue: VecDeque<(GbaButton, String)>,
    last_input: Vec<(String, u64)>,
    seen: Ghost<Map<Seq<char>, int>>,
    last_start: Option<u64>,
    rate_limit_ms: u64,
    start_throttle_secs: u64,
    capacity: usize,
    epoch: Instant,
}

impl View for AnarchyQueue {
    type V = QueueView;

    closed spec fn view(&self) -> QueueView {
        QueueView {
            entries: self.queue@.map_values(|e: (GbaButton, String)| (e.0, e.1@)),
            last_input: self.seen@,
            last_start: match self.last_start {
                Some(t) => Some(t as int),
                None => None,
            },
            rate_limit_ms: self.rate_limit_ms as int,
            start_throttle_ms: self.start_throttle_secs as int * 1000,
            capacity: self.capacity as int,
        }
    }
}

/// The rate-limit records hold each user once, and `seen` maps each user to its time.
spec fn records_match(list: Seq<(String, u64)>, seen: Map<Seq<char>, int>) -> bool {
    &&& forall|i: int, j: int| 0 <= i < j < list.len() ==> list[i].0@ != list[j].0@
    &&& forall|i: int|
        0 <= i < list.len() ==> {
            &&& #[trigger] seen.contains_key(list[i].0@)
            &&& seen[list[i].0@] == list[i].1 as int
        }
    &&& forall|k: Seq<char>|
        #[trigger] seen.contains_key(k) ==> exists|i: int| 0 <= i < list.len() && #[trigger] list[i].0@ == k
}

/// Recording `now` for `user` at position `at` of the list (a new position at the end
/// for a user not seen before) keeps the records and the map in step.
proof fn lemma_record_time(
    old_list: Seq<(String, u64)>,
    list: Seq<(String, u64)>,
    seen: Map<Seq<char>, int>,
    user: Seq<char>,
    now: u64,
    at: int,
)
    requires
        records_match(old_list, seen),
        0 <= at < list.len(),
        list[at].0@ == user,
        list[at].1 == now,
        forall|j: int| 0 <= j < list.len() && j != at ==> list[j] == old_list[j],
        at < old_list.len() ==> list.len() == old_list.len() && old_list[at].0@ == user,
        at >= old_list.len() ==> at == old_list.len() && list.len() == old_list.len() + 1
            && !seen.contains_key(user),
    ensures
        records_match(list, seen.insert(user, now as int)),
{
    let seen2 = seen.insert(user, now as int);
    assert forall|k: Seq<char>| #[trigger] seen2.contains_key(k) implies exists|j: int|
        0 <= j < list.len() && #[trigger] list[j].0@ == k by {
        if k != user {
            let j = choose|j: int| 0 <= j < old_list.len() && #[trigger] old_list[j].0@ == k;
            assert(list[j].0@ == k);
        } else {
            assert(list[at].0@ == k);
        }
    }
    assert forall|j: int| 0 <= j < list.len() implies {
        &&& #[trigger] seen2.contains_key(list[j].0@)
        &&& seen2[list[j].0@] == list[j].1 as int
    } by {
        if j != at {
            assert(seen.contains_key(old_list[j].0@));
        }
    }
    assert forall|a: int, b: int| 0 <= a < b < list.len() implies list[a].0@ != list[b].0@ by {
        if a != at && b != at {
            assert(list[a] == old_list[a] && list[b] == old_list[b]);
        } else if a == at {
            assert(seen.contains_key(old_list[b].0@));
        } else {
            assert(seen.contains_key(old_list[a].0@));
        }
    }
}

proof fn lemma_keep_last_push<T>(x: Seq<T>, e: T, c: int)
    requires
        c > 0,
    ensures
        keep_last(x, c).len() < c ==> keep_last(keep_last(x, c).push(e), c) == keep_last(x.push(e), c),
        keep_last(x, c).len() >= c ==> keep_last(x, c).drop_first().push(e) == keep_last(x.push(e), c),
        keep_last(x, c).len() <= c,
{
    if keep_last(x, c).len() < c {
        assert(keep_last(x, c) == x);
    } else {
        assert(keep_last(x, c).drop_first().push(e) =~= keep_last(x.push(e), c));
    }
}

impl AnarchyQueue {
    pub closed spec fn wf(&self) -> bool {
        &&& self.queue@.len() <= self.capacity
        &&& records_match(self.last_input@, self.seen@)
    }

    pub fn new(rate_limit_ms: u64, start_throttle_secs: u64, capacity: usize) -> (r: Self)
        ensures
            r.wf(),
            r@ == (QueueView {
                entries: Seq::empty(),
                last_input: Map::empty(),
                last_start: None,
                rate_limit_ms: rate_limit_ms as int,
                start_throttle_ms: start_throttle_secs as int * 1000,
                capacity: capacity as int,
            }),
    {
        let r = AnarchyQueue {
            queue: VecDeque::new(),
            last_input: Vec::new(),
            seen: Ghost(Map::empty()),
            last_start: None,
            rate_limit_ms,
            start_throttle_secs,
            capacity,
            epoch: Instant::now(),
        };
        assert(r@.entries =~= Seq::empty());
        r
    }

    /// The index of the user's rate-limit record, if there is one.
    fn find_user(&self, user: &String) -> (r: Option<usize>)
        requires
            self.wf(),
        ensures
            match r {
                Some(i) => i < self.last_input@.len() && self.last_input@[i as int].0@ == user@,
                None => !self.seen@.contains_key(user@),
            },
    {
        let mut i: usize = 0;
        while i < self.last_input.len()
            invariant
                self.wf(),
                i <= self.last_input@.len(),
                forall|j: int| 0 <= j < i ==> self.last_input@[j].0@ != user@,
            decreases self.last_input@.len() - i,
        {
            if self.last_input[i].0 == *user {
                return Some(i);
            }
            i = i + 1;
        }
        None
    }

    /// Offers `buttons`, sent by `user` at `now_ms` on the queue's clock, to the queue.
    pub fn submit_buttons(&mut self, user: &String, buttons: &Vec<GbaButton>, now_ms: u64)
        requires
            old(self).wf(),
        ensures
            final(self).wf(),
            final(self)@ == submit_step(old(self)@, user@, buttons@, now_ms as int),
    {
        let ghost q0 = self@;
        if buttons.len() == 0 {
            return;
        }
        let found = self.find_user(user);
        if let Some(i) = found {
            assert(self.seen@.contains_key(self.last_input@[i as int].0@));
            let last = self.last_input[i].1;
            let waited: u64 = if now_ms >= last {
                now_ms - last
            } else {
                0
            };
            if waited < self.rate_limit_ms {
                return;
            }
        }
        assert(!rate_limited(q0, user@, now_ms as int));
        let has_start = contains_start(buttons);
        if has_start {
            if let Some(last) = self.last_start {
                let waited: u64 = if now_ms >= last {
                    now_ms - last
                } else {
                    0
                };
                if (waited as u128) < (self.start_throttle_secs as u128) * 1000 {
                    return;
                }
            }
            self.last_start = Some(now_ms);
        }
        assert(admits(q0, user@, buttons@, now_ms as int));
        let ghost old_list = self.last_input@;
        let ghost old_seen = self.seen@;
        let ghost at: int;
        match found {
            Some(i) => {
                self.last_input[i].1 = now_ms;
                proof {
                    at = i as int;
                }
            },
            None => {
                self.last_input.push((user.clone(), now_ms));
                proof {
                    at = old_list.len() as int;
                }
            },
        }
        proof {
            lemma_record_time(old_list, self.last_input@, old_seen, user@, now_ms, at);
            self.seen@ = old_seen.insert(user@, now_ms as int);
        }
        assert(records_match(self.last_input@, self.seen@));
        self.push_all(user, buttons);
    }

    fn push_all(&mut self, user: &String, buttons: &Vec<GbaButton>)
        requires
            old(self).wf(),
        ensures
            final(self).wf(),
            final(self)@ == (QueueView {
                entries: keep_last(old(self)@.entries + tagged(buttons@, user@), old(self)@.capacity),
                ..old(self)@
            }),
    {
        let ghost q0 = self@;
        let mut j: usize = 0;
        assert(q0.entries + tagged(buttons@.take(0), user@) =~= q0.entries);
        while j < buttons.len()
            invariant
                self.wf(),
                j <= buttons@.len(),
                self@ == (QueueView {
                    entries: keep_last(q0.entries + tagged(buttons@.take(j as int), user@), q0.capacity),
                    ..q0
                }),
            decreases buttons@.len() - j,
        {
            let b = buttons[j];
            let ghost before = q0.entries + tagged(buttons@.take(j as int), user@);
            assert(before.push((b, user@)) =~= q0.entries + tagged(buttons@.take(j + 1), user@));
            if self.queue.len() >= self.capacity {
                self.queue.pop_front();
            }
            if self.capacity > 0 {
                self.queue.push_back((b, user.clone()));
                proof {
                    lemma_keep_last_push(before, (b, user@), q0.capacity);
                }
            }
            assert(self@.entries =~= keep_last(q0.entries + tagged(buttons@.take(j + 1), user@), q0.capacity));
            j = j + 1;
        }
        assert(buttons@.take(j as int) =~= buttons@);
    }

    /// Offers a parsed chat command to the queue, timed by the queue's own clock.
    pub fn submit(&mut self, msg: &ChatMessage, input: &ParsedInput)
        requires
            old(self).wf(),
        ensures
            final(self).wf(),
            exists|now: int| final(self)@ == submit_step(old(self)@, msg.user@, input.expanded(), now),
    {
        let buttons = input.expand();
        let ms = millis_since(&self.epoch);
        let now: u64 = if ms > u64::MAX as u128 {
            u64::MAX
        } else {
            ms as u64
        };
        self.submit_buttons(&msg.user, &buttons, now);
    }

    /// Takes out the oldest press, with its sender.
    pub fn pop(&mut self) -> (r: Option<(GbaButton, String)>)
        requires
            old(self).wf(),
        ensures
            final(self).wf(),
            final(self)@ == pop_step(old(self)@),
            match r {
                Some(e) => old(self)@.entries.len() > 0 && (e.0, e.1@) == old(self)@.entries[0],
                None => old(self)@.entries.len() == 0,
            },
    {
        let r = self.queue.pop_front();
        assert(self@.entries =~= pop_step(old(self)@).entries);
        r
    }

    /// The number of presses waiting.
    pub fn len(&self) -> (r: usize)
        ensures
            r == self@.entries.len(),
    {
        self.queue.len()
    }
}

/// When an admitted submission holds at least as many presses as the queue can hold,
/// the queue afterwards holds exactly the most recent `capacity` of them, in the order
/// they were sent.
pub proof fn lemma_overflow_keeps_most_recent(
    q: QueueView,
    user: Seq<char>,
    buttons: Seq<GbaButton>,
    now: int,
)
    requires
        0 <= q.capacity,
        q.entries.len() <= q.capacity,
        admits(q, user, buttons, now),
        buttons.len() > q.capacity,
    ensures
        submit_step(q, user, buttons, now).entries == tagged(buttons, user).subrange(
            buttons.len() - q.capacity,
            buttons.len() as int,
        ),
{
    let all = q.entries + tagged(buttons, user);
    assert(all.subrange(all.len() - q.capacity, all.len() as int) =~= tagged(buttons, user).subrange(
        buttons.len() - q.capacity,
        buttons.len() as int,
    ));
}

/// Trimming to the capacity after each admitted submission is the same as trimming once
/// at the end: over any run of submissions the queue holds the most recent `c` presses
/// of all that were admitted, in arrival order.
pub proof fn lemma_keep_last_compose<T>(a: Seq<T>, b: Seq<T>, c: int)
    requires
        0 <= c,
    ensures
        keep_last(keep_last(a, c) + b, c) == keep_last(a + b, c),
{
    if a.len() > c {
        let ka = keep_last(a, c);
        let lhs = keep_last(ka + b, c);
        let rhs = keep_last(a + b, c);
        assert(lhs.len() == rhs.len());
        assert forall|i: int| 0 <= i < lhs.len() implies lhs[i] == rhs[i] by {
            let n = (ka + b).len();
            let m = (a + b).len();
            assert(m - n == a.len() - c);
            assert((ka + b)[n - lhs.len() + i] == (a + b)[m - rhs.len() + i]);
        }
        assert(lhs =~= rhs);
    }
}

/// A second submission by the same user within the rate-limit window of an admitted
/// one is dropped: the queue is left as the first submission made it.
pub proof fn lemma_same_user_rate_limited(
    q: QueueView,
    user: Seq<char>,
    first: Seq<GbaButton>,
    second: Seq<GbaButton>,
    t1: int,
    t2: int,
)
    requires
        admits(q, user, first, t1),
        t1 <= t2 < t1 + q.rate_limit_ms,
    ensures
        ({
            let q1 = submit_step(q, user, first, t1);
            submit_step(q1, user, second, t2) == q1
        }),
{
}

/// An admitted submission does not rate-limit another user: a user who was free to
/// submit before is still free afterwards, so a submission of theirs without Start is
/// admitted too.
pub proof fn lemma_other_user_not_rate_limited(
    q: QueueView,
    user: Seq<char>,
    other: Seq<char>,
    first: Seq<GbaButton>,
    second: Seq<GbaButton>,
    t1: int,
    t2: int,
)
    requires
        user != other,
        admits(q, user, first, t1),
        !rate_limited(q, other, t2),
        second.len() > 0,
        !second.contains(GbaButton::Start),
    ensures
        admits(submit_step(q, user, first, t1), other, second, t2),
{
}

/// After an admitted submission with Start, any submission with Start, from any user,
/// within the throttle window is dropped.
pub proof fn lemma_start_throttled(
    q: QueueView,
    user: Seq<char>,
    other: Seq<char>,
    first: Seq<GbaButton>,
    second: Seq<GbaButton>,
    t1: int,
    t2: int,
)
    requires
        admits(q, user, first, t1),
        first.contains(GbaButton::Start),
        second.contains(GbaButton::Start),
        t1 <= t2 < t1 + q.start_throttle_ms,
    ensures
        ({
            let q1 = submit_step(q, user, first, t1);
            submit_step(q1, other, second, t2) == q1
        }),
{
}

/// The Start throttle clock moves only when a submission holding Start is admitted.
pub proof fn lemma_start_clock_moves_on_admission(
    q: QueueView,
    user: Seq<char>,
    buttons: Seq<GbaButton>,
    now: int,
)
    ensures
        submit_step(q, user, buttons, now).last_start == if admits(q, user, buttons, now)
            && buttons.contains(GbaButton::Start) {
            Some(now)
        } else {
            q.last_start
        },
{
}

fn contains_start(buttons: &Vec<GbaButton>) -> (r: bool)
    ensures
        r == buttons@.contains(GbaButton::Start),
{
    let mut i: usize = 0;
    while i < buttons.len()
        invariant
            i <= buttons@.len(),
            forall|j: int| 0 <= j < i ==> buttons@[j] != GbaButton::Start,
        decreases buttons@.len() - i,
    {
        if buttons[i] == GbaButton::Start {
            return true;
        }
        i = i + 1;
    }
    false
}

} // verus!
