//! The state of a stored project and its textual form.
use vstd::prelude::*;

verus! {

/// Where a project stands.
#[derive(Debug, Clone, Copy, PartialEq, Eq, Structural)]
pub enum State {
    Pending,
    Complete,
    Incubate,
}

/// The state whose text is `s`, if any.
pub open spec fn state_named(s: Seq<char>) -> Option<State> {
    if s == "Pending"@ {
        Some(State::Pending)
    } else if s == "Complete"@ {
        Some(State::Complete)
    } else if s == "Incubate"@ {
        Some(State::Incubate)
    } else {
        None
    }
}

impl State {
    /// The text of a state: its name.
    pub open spec fn text(self) -> Seq<char> {
        match self {
            State::Pending => "Pending"@,
            State::Complete => "Complete"@,
            State::Incubate => "Incubate"@,
        }
    }

    /// The state's name, as it is shown and stored.
    pub fn to_string(&self) -> (r: String)
        ensures
            r@ == self.text(),
    {
        match self {
            State::Pending => String::from_str("Pending"),
            State::Complete => String::from_str("Complete"),
            State::Incubate => String::from_str("Incubate"),
        }
    }

    /// The state stored as `s`: exactly one of the three names, or nothing.
    pub fn from_text(s: &str) -> (r: Option<State>)
        ensures
            r == state_named(s@),
    {
        if crate::text::str_eq(s, "Pending") {
            Some(State::Pending)
        } else if crate::text::str_eq(s, "Complete") {
            Some(State::Complete)
        } else if crate::text::str_eq(s, "Incubate") {
            Some(State::Incubate)
        } else {
            None
        }
    }
}

impl Default for State {
    fn default() -> (r: State)
        ensures
            r == State::Pending,
    {
        State::Pending
    }
}

/// Reading back the stored text of a state gives that state.
pub proof fn lemma_state_text_round_trip(st: State)
    ensures
        state_named(st.text()) == Some(st),
{
    reveal_strlit("Pending");
    reveal_strlit("Complete");
    reveal_strlit("Incubate");
    assert("Pending"@.len() == 7);
    assert("Complete"@.len() == 8);
    assert("Complete"@[0] != "Incubate"@[0]);
}

/// Two states with the same text are the same state.
pub proof fn lemma_state_text_injective(a: State, b: State)
    requires
        a.text() == b.text(),
    ensures
        a == b,
{
    lemma_state_text_round_trip(a);
    lemma_state_text_round_trip(b);
}

/// Each state is stored and shown by its own name, and a stored text reads
/// back only as the state of that name.
pub proof fn lemma_state_names(s: Seq<char>)
    ensures
        State::Pending.text() == "Pending"@,
        State::Complete.text() == "Complete"@,
        State::Incubate.text() == "Incubate"@,
        state_named(s) matches Some(st) ==> st.text() == s,
        s != "Pending"@ && s != "Complete"@ && s != "Incubate"@ ==> state_named(s) is None,
{
    lemma_state_text_round_trip(State::Pending);
    lemma_state_text_round_trip(State::Complete);
    lemma_state_text_round_trip(State::Incubate);
}

} // verus!
