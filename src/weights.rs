//! Custom widgets and the event status they share.

use vstd::prelude::*;

pub mod click_item;
pub mod msg_edit;
pub mod no_icon_header;

verus! {

/// Whether a widget consumed an event or lets it propagate further.
#[derive(Debug, Clone, Copy, PartialEq, Eq, Structural)]
pub enum Status {
    Ignored,
    Captured,
}

} // verus!
