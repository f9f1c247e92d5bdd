use vstd::prelude::*;

verus! {

/// How inputs from the crowd are arbitrated.
#[derive(Debug, Clone, Copy, PartialEq, Eq, Structural)]
pub enum Mode {
    Anarchy,
    Democracy,
}

/// One payload for the viewers; the tag byte of each kind goes in front of it on the
/// wire.
#[derive(Debug, Clone)]
pub enum BroadcastMessage {
    Frame(Vec<u8>),
    Audio(Vec<u8>),
    State(Vec<u8>),
    Party(Vec<u8>),
    Location(Vec<u8>),
}

/// An applied input, as shown in the recent-activity list.
#[derive(Debug, Clone)]
pub struct InputRecord {
    pub user: String,
    pub input: String,
    /// Milliseconds since the Unix epoch.
    pub ts: i64,
}

pub struct RecordView {
    pub user: Seq<char>,
    pub input: Seq<char>,
    pub ts: int,
}

impl View for InputRecord {
    type V = RecordView;

    open spec fn view(&self) -> RecordView {
        RecordView { user: self.user@, input: self.input@, ts: self.ts as int }
    }
}

} // verus!
