//! The chat client's model: its login phase, the message timeline, the
//! contact list and the composer's state, with the update step that messages
//! drive and the layout decisions that rendering needs.

use vstd::prelude::*;

use crate::weights::msg_edit;

verus! {

/// The login phase.
#[derive(Debug, Clone, Copy, PartialEq, Eq, Structural)]
pub enum State {
    NoLogin,
    Login,
}

/// A message of the timeline: its sender's identifier and its text.
#[derive(Debug, Clone)]
pub struct Info {
    uin: i64,
    contain: String,
}

impl Info {
    pub closed spec fn sender(&self) -> i64 {
        self.uin
    }

    pub closed spec fn text(&self) -> String {
        self.contain
    }

    pub fn new(uin: i64, contain: String) -> (r: Self)
        ensures
            r.sender() == uin,
            r.text() == contain,
    {
        Info { uin, contain }
    }

    pub fn uin(&self) -> (r: i64)
        ensures
            r == self.sender(),
    {
        self.uin
    }

    pub fn contain(&self) -> (r: &str)
        ensures
            r@ == self.text()@,
    {
        self.contain.as_str()
    }
}

/// The messages that drive the application. `K` is the keyboard event that
/// the windowing layer reports; a `Key` without one stands for any other
/// input event.
#[derive(Debug, Clone)]
pub enum Msg<K> {
    /// The composer submitted this text.
    Send(String),
    /// A raw input event arrived: `Some` for a keyboard event.
    Key(Option<K>),
    /// The contact with this index was clicked.
    SelectUser(usize),
}

/// What an update asks the caller to report to the user.
#[derive(Debug, Clone)]
pub enum Notice<K> {
    /// A keyboard event arrived.
    Key(K),
    /// The contact with this index was chosen.
    SwitchTo(usize),
}

/// The side of the timeline that a message is aligned to.
#[derive(Debug, Clone, Copy, PartialEq, Eq, Structural)]
pub enum Alignment {
    Start,
    End,
}

/// The side for a message from `sender`, seen by the user `me`: one's own
/// messages go to the end, all others to the start.
pub open spec fn side_of(me: i64, sender: i64) -> Alignment {
    if sender == me {
        Alignment::End
    } else {
        Alignment::Start
    }
}

/// The application's state; it changes only through `update`.
pub struct App {
    state: State,
    info: Vec<Info>,
    users: Vec<String>,
    self_id: i64,
    msg_editor: msg_edit::State,
}

impl App {
    pub closed spec fn phase(&self) -> State {
        self.state
    }

    /// The timeline, oldest message first.
    pub closed spec fn records(&self) -> Seq<Info> {
        self.info@
    }

    /// The contacts' display names.
    pub closed spec fn contacts(&self) -> Seq<String> {
        self.users@
    }

    /// The user's own identifier.
    pub closed spec fn me(&self) -> i64 {
        self.self_id
    }

    /// The composer's state.
    pub closed spec fn editor(&self) -> msg_edit::State {
        self.msg_editor
    }

    /// The application as it starts: logged in, with one sample message and
    /// two sample contacts, and an empty composer.
    pub fn new() -> (r: Self)
        ensures
            r.phase() == State::Login,
            r.records().len() == 1,
            r.records()[0].sender() == 114514,
            r.records()[0].text()@ == "好耶"@,
            r.contacts().len() == 2,
            r.contacts()[0]@ == "哇哈哈"@,
            r.contacts()[1]@ == "011好的"@,
            r.me() == 1919,
            r.editor().input() == None::<String>,
    {
        let mut info: Vec<Info> = Vec::new();
        info.push(Info::new(114514, "好耶".to_owned()));
        let mut users: Vec<String> = Vec::new();
        users.push("哇哈哈".to_owned());
        users.push("011好的".to_owned());
        App { state: State::Login, info, users, self_id: 1919, msg_editor: msg_edit::State::new() }
    }

    /// The window's title.
    pub fn title(&self) -> (r: String)
        ensures
            r@ == "RICEDQ"@,
    {
        "RICEDQ".to_owned()
    }

    /// Applies one message. A sent text is appended to the timeline as the
    /// user's own message; a keyboard event and a contact choice come back as
    /// a notice for the caller to report; any other input event is ignored.
    pub fn update<K>(&mut self, message: Msg<K>) -> (r: Option<Notice<K>>)
        ensures
            final(self).phase() == old(self).phase(),
            final(self).contacts() == old(self).contacts(),
            final(self).me() == old(self).me(),
            final(self).editor() == old(self).editor(),
            match message {
                Msg::Send(s) => {
                    &&& final(self).records().len() == old(self).records().len() + 1
                    &&& final(self).records().drop_last() == old(self).records()
                    &&& final(self).records().last().sender() == old(self).me()
                    &&& final(self).records().last().text() == s
                    &&& r is None
                },
                Msg::Key(k) => {
                    &&& final(self).records() == old(self).records()
                    &&& match k {
                        Some(e) => r == Some(Notice::Key(e)),
                        None => r is None,
                    }
                },
                Msg::SelectUser(uid) => {
                    &&& final(self).records() == old(self).records()
                    &&& r == Some(Notice::<K>::SwitchTo(uid))
                },
            },
    {
        match message {
            Msg::Send(s) => {
                let record = Info::new(self.self_id, s);
                self.info.push(record);
                proof {
                    assert(self.info@.drop_last() =~= old(self).info@);
                }
                None
            },
            Msg::Key(k) => match k {
                Some(e) => Some(Notice::Key(e)),
                None => None,
            },
            Msg::SelectUser(uid) => Some(Notice::SwitchTo(uid)),
        }
    }

    /// The side that `info` is aligned to in the timeline.
    pub fn alignment(&self, info: &Info) -> (r: Alignment)
        ensures
            r == side_of(self.me(), info.sender()),
    {
        if info.uin == self.self_id {
            Alignment::End
        } else {
            Alignment::Start
        }
    }

    /// The side of each message of the timeline, in order.
    pub fn message_alignments(&self) -> (r: Vec<Alignment>)
        ensures
            r@.len() == self.records().len(),
            forall|i: int|
                0 <= i < r@.len() ==> r@[i] == side_of(self.me(), #[trigger] self.records()[i].sender()),
    {
        let mut r: Vec<Alignment> = Vec::new();
        let mut i: usize = 0;
        while i < self.info.len()
            invariant
                i <= self.info@.len(),
                r@.len() == i,
                forall|j: int|
                    0 <= j < i ==> r@[j] == side_of(self.me(), #[trigger] self.records()[j].sender()),
            decreases self.info@.len() - i,
        {
            let a = self.alignment(&self.info[i]);
            r.push(a);
            i = i + 1;
        }
        r
    }

    pub fn state(&self) -> (r: State)
        ensures
            r == self.phase(),
    {
        self.state
    }

    pub fn info(&self) -> (r: &Vec<Info>)
        ensures
            r@ == self.records(),
    {
        &self.info
    }

    pub fn users(&self) -> (r: &Vec<String>)
        ensures
            r@ == self.contacts(),
    {
        &self.users
    }

    pub fn self_id(&self) -> (r: i64)
        ensures
            r == self.me(),
    {
        self.self_id
    }

    pub fn msg_editor(&self) -> (r: &msg_edit::State)
        ensures
            *r == self.editor(),
    {
        &self.msg_editor
    }

    /// The composer's state, for the composer to change.
    pub fn msg_editor_mut(&mut self) -> (r: &mut msg_edit::State)
        ensures
            *r == old(self).editor(),
            final(self).editor() == *final(r),
            final(self).phase() == old(self).phase(),
            final(self).records() == old(self).records(),
            final(self).contacts() == old(self).contacts(),
            final(self).me() == old(self).me(),
    {
        &mut self.msg_editor
    }
}

} // verus!
