//! The acknowledgement that answers a `version` message.

use vstd::prelude::*;

use crate::messages::{MessageView, NetworkMessage};

verus! {

/// The `verack` message; it carries no payload.
pub fn verack_msg() -> (message: NetworkMessage)
    ensures
        message@ == MessageView::Verack,
{
    NetworkMessage::Verack
}

} // verus!
