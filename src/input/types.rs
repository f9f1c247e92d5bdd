use vstd::prelude::*;

verus! {

/// One of the ten physical inputs of the console.
#[derive(Debug, Clone, Copy, PartialEq, Eq, Hash, Structural)]
pub enum GbaButton {
    A,
    B,
    Up,
    Down,
    Left,
    Right,
    Start,
    Select,
    L,
    R,
}

/// The stable lower-case identifier of a button, as used in chat and in logs.
pub open spec fn button_name(b: GbaButton) -> Seq<char> {
    match b {
        GbaButton::A => "a"@,
        GbaButton::B => "b"@,
        GbaButton::Up => "up"@,
        GbaButton::Down => "down"@,
        GbaButton::Left => "left"@,
        GbaButton::Right => "right"@,
        GbaButton::Start => "start"@,
        GbaButton::Select => "select"@,
        GbaButton::L => "l"@,
        GbaButton::R => "r"@,
    }
}

impl GbaButton {
    pub fn as_str(self) -> (r: &'static str)
        ensures
            r@ == button_name(self),
    {
        match self {
            GbaButton::A => "a",
            GbaButton::B => "b",
            GbaButton::Up => "up",
            GbaButton::Down => "down",
            GbaButton::Left => "left",
            GbaButton::Right => "right",
            GbaButton::Start => "start",
            GbaButton::Select => "select",
            GbaButton::L => "l",
            GbaButton::R => "r",
        }
    }
}

/// What one chat line asks for.
#[derive(Debug, Clone, PartialEq, Eq, Structural)]
pub enum ParsedInput {
    Button(GbaButton),
    /// A button pressed the given number of times in a row.
    Compound(GbaButton, u8),
    Wait,
    VoteAnarchy,
    VoleDemocracy,
}

impl ParsedInput {
    /// The presses a command stands for, in order.
    pub open spec fn expanded(self) -> Seq<GbaButton> {
        match self {
            ParsedInput::Button(b) => seq![b],
            ParsedInput::Compound(b, n) => Seq::new(n as nat, |_i: int| b),
            _ => Seq::empty(),
        }
    }

    pub fn expand(&self) -> (r: Vec<GbaButton>)
        ensures
            r@ == self.expanded(),
    {
        match self {
            ParsedInput::Button(btn) => vec![*btn],
            ParsedInput::Compound(btn, count) => {
                let mut v: Vec<GbaButton> = Vec::new();
                let n = *count;
                let mut i: u8 = 0;
                while i < n
                    invariant
                        i <= n,
                        v@ == Seq::new(i as nat, |_j: int| *btn),
                    decreases n - i,
                {
                    v.push(*btn);
                    i = i + 1;
                    assert(v@ =~= Seq::new(i as nat, |_j: int| *btn));
                }
                v
            },
            _ => Vec::new(),
        }
    }
}

/// A chat line as the chat transport delivers it.
#[derive(Debug, Clone)]
pub struct ChatMessage {
    pub user: String,
    pub text: String,
    /// Milliseconds since the Unix epoch.
    pub ts: i64,
}

} // verus!
