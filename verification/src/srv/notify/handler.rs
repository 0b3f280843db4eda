//! Authentication of the notification service's connections.

use vstd::prelude::*;

verus! {

/// Who a token of the notification service is for.
pub struct TokenSubject {
    pub user_id: String,
}

} // verus!
