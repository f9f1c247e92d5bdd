use vstd::prelude::*;
use vstd::string::StringExecFns;

use std::collections::VecDeque;

use crate::clock::wall_clock_millis;
use crate::config::InputConfig;
use crate::input::parser::{parse_chat_message, parse_spec};
use crate::input::types::{button_name, ChatMessage, GbaButton};
use crate::text::{lowercased, same_text, trimmed};
use crate::types::{InputRecord, Mode, RecordView};
use crate::vote::anarchy::{pop_step, submit_step, AnarchyQueue, QueueView};

verus! {

/// How many applied inputs the recent-activity list keeps.
pub const RECENT_INPUTS_MAX: usize = 20;

/// How many presses the queue holds.
pub const ANARCHY_QUEUE_CAPACITY: usize = 64;

/// The Start throttle when the configuration sets none, in seconds.
pub const DEFAULT_START_THROTTLE_SECS: u64 = 5;

/// The engine as a value: mode, applied-input count, queue, and the recent-activity
/// list, newest first.
pub struct EngineView {
    pub mode: Mode,
    pub total_inputs: int,
    pub queue: QueueView,
    pub recent: Seq<RecordView>,
}

/// The first `n` elements of `s` (all of them when there are no more than `n`).
pub open spec fn keep_first<T>(s: Seq<T>, n: int) -> Seq<T> {
    if s.len() <= n {
        s
    } else {
        s.take(n)
    }
}

/// The mode a configuration starts in.
pub open spec fn initial_mode(default_mode: Seq<char>) -> Mode {
    if default_mode == "democracy"@ {
        Mode::Democracy
    } else {
        Mode::Anarchy
    }
}

/// The engine after a chat message from `user` with text `text` is received at `now`
/// on the queue's clock: a message that parses is offered to the queue; any other is
/// ignored.
pub open spec fn receive_step(e: EngineView, user: Seq<char>, text: Seq<char>, now: int) -> EngineView {
    match parse_spec(lowercased(trimmed(text))) {
        Some(p) => EngineView { queue: submit_step(e.queue, user, p.expanded(), now), ..e },
        None => e,
    }
}

/// The engine after one frame's pull at wall-clock time `ts`: the oldest press, if
/// any, is taken out, counted, and recorded at the head of the recent-activity list,
/// which keeps its newest `RECENT_INPUTS_MAX` records. The count stays at `u64::MAX`
/// once it gets there.
pub open spec fn pull_step(e: EngineView, ts: int) -> EngineView {
    if e.queue.entries.len() == 0 {
        e
    } else {
        let first = e.queue.entries[0];
        EngineView {
            queue: pop_step(e.queue),
            total_inputs: if e.total_inputs < u64::MAX {
                e.total_inputs + 1
            } else {
                e.total_inputs
            },
            recent: keep_first(
                seq![RecordView { user: first.1, input: button_name(first.0), ts }] + e.recent,
                RECENT_INPUTS_MAX as int,
            ),
            ..e
        }
    }
}

/// The arbitration engine: parses chat, feeds the queue, and hands out one press per
/// frame.
pub struct VoteEngine {
    pub mode: Mode,
    pub total_inputs: u64,
    queue: AnarchyQueue,
    recent_inputs: VecDeque<InputRecord>,
}

impl View for VoteEngine {
    type V = EngineView;

    closed spec fn view(&self) -> EngineView {
        EngineView {
            mode: self.mode,
            total_inputs: self.total_inputs as int,
            queue: self.queue@,
            recent: self.recent_inputs@.map_values(|r: InputRecord| r@),
        }
    }
}

impl VoteEngine {
    pub closed spec fn wf(&self) -> bool {
        &&& self.queue.wf()
        &&& self.recent_inputs@.len() <= RECENT_INPUTS_MAX
    }

    pub fn new(config: &InputConfig) -> (r: Self)
        ensures
            r.wf(),
            r@ == (EngineView {
                mode: initial_mode(config.default_mode@),
                total_inputs: 0,
                queue: QueueView {
                    entries: Seq::empty(),
                    last_input: Map::empty(),
                    last_start: None,
                    rate_limit_ms: config.rate_limit_ms as int,
                    start_throttle_ms: match config.start_throttle_secs {
                        Some(s) => s as int,
                        None => DEFAULT_START_THROTTLE_SECS as int,
                    } * 1000,
                    capacity: ANARCHY_QUEUE_CAPACITY as int,
                },
                recent: Seq::empty(),
            }),
    {
        let mode = if same_text(config.default_mode.as_str(), "democracy") {
            Mode::Democracy
        } else {
            Mode::Anarchy
        };
        let start_throttle = match config.start_throttle_secs {
            Some(s) => s,
            None => DEFAULT_START_THROTTLE_SECS,
        };
        let r = VoteEngine {
            mode,
            total_inputs: 0,
            queue: AnarchyQueue::new(config.rate_limit_ms, start_throttle, ANARCHY_QUEUE_CAPACITY),
            recent_inputs: VecDeque::new(),
        };
        assert(r@.recent =~= Seq::empty());
        r
    }

    /// Receives a chat message, timed by the queue's own clock.
    pub fn submit(&mut self, msg: ChatMessage)
        requires
            old(self).wf(),
        ensures
            final(self).wf(),
            exists|now: int| final(self)@ == receive_step(old(self)@, msg.user@, msg.text@, now),
    {
        let parsed = parse_chat_message(msg.text.as_str());
        match parsed {
            Some(input) => {
                self.queue.submit(&msg, &input);
                let ghost q = self.queue@;
                assert(exists|now: int| q == submit_step(old(self)@.queue, msg.user@, input.expanded(), now));
                let ghost now = choose|now: int| q == submit_step(old(self)@.queue, msg.user@, input.expanded(), now);
                assert(self@ == receive_step(old(self)@, msg.user@, msg.text@, now));
            },
            None => {
                assert(self@ == receive_step(old(self)@, msg.user@, msg.text@, 0));
            },
        }
    }

    /// Receives a chat message at `now_ms` on the queue's clock.
    pub fn submit_at(&mut self, msg: ChatMessage, now_ms: u64)
        requires
            old(self).wf(),
        ensures
            final(self).wf(),
            final(self)@ == receive_step(old(self)@, msg.user@, msg.text@, now_ms as int),
    {
        let parsed = parse_chat_message(msg.text.as_str());
        match parsed {
            Some(input) => {
                let buttons = input.expand();
                self.queue.submit_buttons(&msg.user, &buttons, now_ms);
            },
            None => {},
        }
    }

    /// Called once per frame: the next press to apply and who sent it, if any. The
    /// recent-activity record is stamped with the wall clock.
    pub fn pop_next_input(&mut self) -> (r: Option<(GbaButton, String)>)
        requires
            old(self).wf(),
        ensures
            final(self).wf(),
            exists|ts: int| final(self)@ == pull_step(old(self)@, ts),
            match r {
                Some(e) => old(self)@.queue.entries.len() > 0 && (e.0, e.1@) == old(self)@.queue.entries[0],
                None => old(self)@.queue.entries.len() == 0,
            },
    {
        let ts = wall_clock_millis();
        self.pop_next_input_at(ts)
    }

    /// `pop_next_input`, with the record stamped `ts` (milliseconds since the Unix
    /// epoch).
    pub fn pop_next_input_at(&mut self, ts: i64) -> (r: Option<(GbaButton, String)>)
        requires
            old(self).wf(),
        ensures
            final(self).wf(),
            final(self)@ == pull_step(old(self)@, ts as int),
            match r {
                Some(e) => old(self)@.queue.entries.len() > 0 && (e.0, e.1@) == old(self)@.queue.entries[0],
                None => old(self)@.queue.entries.len() == 0,
            },
    {
        let ghost e0 = self@;
        let popped = self.queue.pop();
        match popped {
            None => None,
            Some(pair) => {
                if self.total_inputs < u64::MAX {
                    self.total_inputs = self.total_inputs + 1;
                }
                let record = InputRecord {
                    user: pair.1.clone(),
                    input: String::from_str(pair.0.as_str()),
                    ts,
                };
                self.recent_inputs.push_front(record);
                if self.recent_inputs.len() > RECENT_INPUTS_MAX {
                    self.recent_inputs.pop_back();
                }
                let ghost added = seq![RecordView { user: pair.1@, input: button_name(pair.0), ts: ts as int }] + e0.recent;
                assert(self@.recent =~= keep_first(added, RECENT_INPUTS_MAX as int));
                Some(pair)
            },
        }
    }

    /// The number of presses waiting.
    pub fn queue_depth(&self) -> (r: usize)
        ensures
            r == self@.queue.entries.len(),
    {
        self.queue.len()
    }

    /// The recent-activity list, newest first.
    pub fn recent_inputs(&self) -> (r: Vec<InputRecord>)
        ensures
            r@.map_values(|x: InputRecord| x@) == self@.recent,
    {
        let mut out: Vec<InputRecord> = Vec::new();
        let mut i: usize = 0;
        while i < self.recent_inputs.len()
            invariant
                i <= self.recent_inputs@.len(),
                out@.len() == i,
                forall|j: int| 0 <= j < i ==> #[trigger] out@[j]@ == self.recent_inputs@[j]@,
            decreases self.recent_inputs@.len() - i,
        {
            let r = &self.recent_inputs[i];
            out.push(InputRecord { user: r.user.clone(), input: r.input.clone(), ts: r.ts });
            i = i + 1;
        }
        assert(out@.map_values(|x: InputRecord| x@) =~= self@.recent);
        out
    }
}

} // verus!
