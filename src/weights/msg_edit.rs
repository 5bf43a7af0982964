//! A composer: a text field and a send button side by side, holding the text
//! being written and handing it out once on submit.

use vstd::prelude::*;

use crate::weights::Status;

verus! {

/// Messages that the inner row (the text field and the button) publishes.
#[derive(Debug, Clone)]
pub enum Msg {
    /// The text field now holds this text.
    OnEdit(String),
    /// The button was pressed, or the field was submitted.
    Send,
}

/// The text being composed after the inner row published `msg`.
pub open spec fn next_input(input: Option<String>, msg: Msg) -> Option<String> {
    match msg {
        Msg::OnEdit(s) => Some(s),
        Msg::Send => None,
    }
}

/// The text handed out when the inner row publishes `msg`, if any.
pub open spec fn submitted(input: Option<String>, msg: Msg) -> Option<String> {
    match msg {
        Msg::OnEdit(_) => None,
        Msg::Send => input,
    }
}

/// The text being composed after the inner row published each of `msgs` in
/// turn, starting from `input`.
pub open spec fn replay(input: Option<String>, msgs: Seq<Msg>) -> Option<String>
    decreases msgs.len(),
{
    if msgs.len() == 0 {
        input
    } else {
        next_input(replay(input, msgs.drop_last()), msgs.last())
    }
}

/// After a run of edits, a send hands out the text of the last edit, and
/// nothing is being composed afterwards, whatever was there before the run.
pub proof fn lemma_send_after_edits(input: Option<String>, edits: Seq<Msg>)
    requires
        edits.len() > 0,
        forall|i: int| 0 <= i < edits.len() ==> #[trigger] edits[i] is OnEdit,
    ensures
        submitted(replay(input, edits), Msg::Send) == Some(edits.last()->OnEdit_0),
        next_input(replay(input, edits), Msg::Send) == None::<String>,
{
    assert(edits.last() is OnEdit);
}

/// Starting from a new composer, a send that no edit preceded hands out
/// nothing, and nothing is being composed.
pub proof fn lemma_send_without_edit(sends: Seq<Msg>)
    requires
        forall|i: int| 0 <= i < sends.len() ==> #[trigger] sends[i] is Send,
    ensures
        replay(None, sends) == None::<String>,
        submitted(replay(None, sends), Msg::Send) == None::<String>,
{
    if sends.len() > 0 {
        assert(sends.last() is Send);
    }
}

/// The composer's own state: the text being written, if any. The caller owns
/// it across frames.
pub struct State {
    input: Option<String>,
}

impl State {
    /// The text being composed.
    pub closed spec fn input(&self) -> Option<String> {
        self.input
    }

    pub fn new() -> (r: Self)
        ensures
            r.input() == None::<String>,
    {
        State { input: None }
    }

    /// The text that the field shows: the text being composed, or nothing.
    pub fn value(&self) -> (r: &str)
        ensures
            r@ == (match self.input() {
                Some(s) => s@,
                None => Seq::<char>::empty(),
            }),
    {
        match &self.input {
            Some(s) => s.as_str(),
            None => {
                proof {
                    reveal_strlit("");
                }
                ""
            },
        }
    }
}

/// Holds the mapping from a submitted text to an outer message.
pub struct MessageEdit<F> {
    on_send: F,
}

impl<F> MessageEdit<F> {
    /// The mapping from a submitted text to an outer message.
    pub closed spec fn mapping(&self) -> F {
        self.on_send
    }

    pub fn new(handle: F) -> (r: Self)
        ensures
            r.mapping() == handle,
    {
        MessageEdit { on_send: handle }
    }

    /// Handles an event after the inner row has seen it: `inner_status` is what
    /// the row returned and `inner_messages` what it published. The status is
    /// passed on. When the row captured the event, its first message decides:
    /// an edit replaces the text in `state`; a send takes the text out of
    /// `state` and appends `on_send(text)` to `shell`, or does nothing when no
    /// text is there.
    pub fn on_event<Message>(
        &self,
        state: &mut State,
        inner_status: Status,
        inner_messages: Vec<Msg>,
        shell: &mut Vec<Message>,
    ) -> (r: Status) where F: Fn(String) -> Message
        requires
            forall|s: String| call_requires(self.mapping(), (s,)),
        ensures
            r == inner_status,
            inner_status == Status::Ignored || inner_messages@.len() == 0 ==> {
                &&& final(state).input() == old(state).input()
                &&& final(shell)@ == old(shell)@
            },
            inner_status == Status::Captured && inner_messages@.len() > 0 ==> {
                let msg = inner_messages@[0];
                &&& final(state).input() == next_input(old(state).input(), msg)
                &&& match submitted(old(state).input(), msg) {
                    None => final(shell)@ == old(shell)@,
                    Some(text) => {
                        &&& final(shell)@.len() == old(shell)@.len() + 1
                        &&& final(shell)@.drop_last() == old(shell)@
                        &&& call_ensures(self.mapping(), (text,), final(shell)@.last())
                    },
                }
            },
    {
        match inner_status {
            Status::Ignored => Status::Ignored,
            Status::Captured => {
                let mut inner_messages = inner_messages;
                if inner_messages.len() == 0 {
                    return Status::Captured;
                }
                let msg = inner_messages.remove(0);
                match msg {
                    Msg::OnEdit(s) => {
                        state.input = Some(s);
                    },
                    Msg::Send => {
                        match state.input.take() {
                            Some(s) => {
                                assert(call_requires(self.mapping(), (s,)));
                                let m = (self.on_send)(s);
                                shell.push(m);
                            },
                            None => {},
                        }
                    },
                }
                Status::Captured
            },
        }
    }
}

} // verus!
