//! A list item that turns clicks on its content into messages of the
//! enclosing widget tree.

use vstd::prelude::*;

use crate::weights::Status;

verus! {

/// The message that the wrapped button publishes when it is clicked.
#[derive(Debug, Clone, Copy, PartialEq, Eq, Structural)]
pub struct BtnMsg;

/// What a click wrapper leaves in the outer message list: with the inner
/// status `Captured`, one message mapped from `id` for each message that the
/// inner button published, appended in place; with `Ignored`, nothing.
pub open spec fn published<Identify, Message, F: Fn(Identify) -> Message>(
    on_click: F,
    id: Identify,
    inner_status: Status,
    n_inner: nat,
    before: Seq<Message>,
    after: Seq<Message>,
) -> bool {
    match inner_status {
        Status::Ignored => after == before,
        Status::Captured => {
            &&& after.len() == before.len() + n_inner
            &&& after.subrange(0, before.len() as int) == before
            &&& forall|j: int|
                before.len() <= j < after.len() ==> call_ensures(
                    on_click,
                    (id,),
                    #[trigger] after[j],
                )
        },
    }
}

/// A press that the wrapped button captures without publishing anything leaves
/// the outer messages as they were; the release that completes the click, on
/// which the button publishes its one message, adds exactly one outer message,
/// mapped from the item's identifier.
pub proof fn lemma_click_cycle<Identify, Message, F: Fn(Identify) -> Message>(
    on_click: F,
    id: Identify,
    before: Seq<Message>,
    pressed: Seq<Message>,
    released: Seq<Message>,
)
    requires
        published(on_click, id, Status::Captured, 0, before, pressed),
        published(on_click, id, Status::Captured, 1, pressed, released),
    ensures
        pressed == before,
        released.len() == before.len() + 1,
        released.drop_last() == before,
        call_ensures(on_click, (id,), released.last()),
{
    assert(pressed =~= pressed.subrange(0, before.len() as int));
    assert(released.drop_last() =~= released.subrange(0, pressed.len() as int));
    assert(call_ensures(on_click, (id,), released[released.len() - 1]));
}

/// Wraps a clickable element together with an identifier, and maps each click
/// to an outer message through `on_click`.
pub struct ClickItem<Identify, F> {
    click_id: Identify,
    on_click: F,
}

impl<Identify: Copy, F> ClickItem<Identify, F> {
    /// The identifier that every click of this item carries.
    pub closed spec fn id(&self) -> Identify {
        self.click_id
    }

    /// The mapping from the identifier to an outer message.
    pub closed spec fn mapping(&self) -> F {
        self.on_click
    }

    pub fn new(click_id: Identify, on_click: F) -> (r: Self)
        ensures
            r.id() == click_id,
            r.mapping() == on_click,
    {
        ClickItem { click_id, on_click }
    }

    pub fn click_id(&self) -> (r: Identify)
        ensures
            r == self.id(),
    {
        self.click_id
    }

    /// Handles an event after the wrapped button has seen it: `inner_status` is
    /// what the button returned and `inner_messages` what it published. The
    /// status is passed on; when the button captured the event, each of its
    /// messages becomes one `on_click(click_id)` appended to `shell`.
    pub fn on_event<Message>(
        &self,
        inner_status: Status,
        inner_messages: Vec<BtnMsg>,
        shell: &mut Vec<Message>,
    ) -> (r: Status) where F: Fn(Identify) -> Message
        requires
            call_requires(self.mapping(), (self.id(),)),
        ensures
            r == inner_status,
            published(
                self.mapping(),
                self.id(),
                inner_status,
                inner_messages@.len(),
                old(shell)@,
                final(shell)@,
            ),
    {
        match inner_status {
            Status::Ignored => Status::Ignored,
            Status::Captured => {
                let n = inner_messages.len();
                let mut k: usize = 0;
                while k < n
                    invariant
                        k <= n,
                        n == inner_messages@.len(),
                        call_requires(self.mapping(), (self.id(),)),
                        shell@.len() == old(shell)@.len() + k,
                        shell@.subrange(0, old(shell)@.len() as int) == old(shell)@,
                        forall|j: int|
                            old(shell)@.len() <= j < shell@.len() ==> call_ensures(
                                self.mapping(),
                                (self.id(),),
                                #[trigger] shell@[j],
                            ),
                    decreases n - k,
                {
                    let m = (self.on_click)(self.click_id);
                    shell.push(m);
                    k = k + 1;
                }
                Status::Captured
            },
        }
    }
}

} // verus!
