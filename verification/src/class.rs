use vstd::prelude::*;

verus! {

/// Whether the class screen shows the class or edits it.
#[derive(Clone, Copy, Debug, PartialEq, Eq, Structural)]
pub enum State {
    Display,
    Edit,
}

impl Default for State {
    fn default() -> (s: Self)
        ensures
            s == State::Display,
    {
        State::Display
    }
}

/// A button press on the class screen.
#[derive(Clone, Copy, Debug, PartialEq, Eq, Structural)]
pub enum Message {
    Display,
    Edit,
}

/// The class screen.
#[derive(Debug)]
pub struct Class {
    state: State,
}

impl Default for Class {
    fn default() -> (c: Self)
        ensures
            c.spec_state() == State::Display,
    {
        Class { state: State::default() }
    }
}

/// The state that a message switches the class screen to.
pub open spec fn state_for(message: Message) -> State {
    match message {
        Message::Display => State::Display,
        Message::Edit => State::Edit,
    }
}

impl Class {
    /// The state the screen is in.
    pub closed spec fn spec_state(&self) -> State {
        self.state
    }

    /// Switches the screen to the state the message names.
    pub fn update(&mut self, message: Message)
        ensures
            final(self).spec_state() == state_for(message),
    {
        match message {
            Message::Display => self.state = State::Display,
            Message::Edit => self.state = State::Edit,
        }
    }

    /// The text the screen shows above its "edit" and "display" buttons.
    pub fn view(&self) -> (text: &'static str)
        ensures
            self.spec_state() == State::Edit ==> text@ == "This is editing class"@,
            self.spec_state() == State::Display ==> text@ == "this is class"@,
    {
        match self.state {
            State::Edit => "This is editing class",
            State::Display => "this is class",
        }
    }
}

} // verus!
