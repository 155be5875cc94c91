use vstd::prelude::*;

verus! {

/// The two phases that a timer alternates between.
#[derive(Debug, Clone, Copy, PartialEq, Eq, Structural)]
pub enum CountdownType {
    Focus,
    Rest,
}

impl CountdownType {
    /// The phase that follows this one.
    pub open spec fn other(self) -> CountdownType {
        match self {
            CountdownType::Focus => CountdownType::Rest,
            CountdownType::Rest => CountdownType::Focus,
        }
    }

    /// The phase's name as shown to the user.
    pub open spec fn label_text(self) -> Seq<char> {
        match self {
            CountdownType::Focus => "Focus"@,
            CountdownType::Rest => "Rest"@,
        }
    }

    /// The phase's name as shown to the user.
    pub fn label(&self) -> (text: &'static str)
        ensures
            text@ == self.label_text(),
    {
        match self {
            CountdownType::Rest => "Rest",
            CountdownType::Focus => "Focus",
        }
    }
}

/// A control message that a client sends to the running timer.
#[derive(Debug, Clone, Copy, PartialEq, Eq, Structural)]
pub enum Message {
    Start,
    Stop,
}

} // verus!
