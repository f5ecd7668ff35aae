use vstd::prelude::*;

use crate::model::RequestView;

verus! {

/// A caller's ask for a yes/no decision, carrying the text to display.
pub struct ValidationRequest {
    pub title: String,
    pub message: String,
}

impl View for ValidationRequest {
    type V = RequestView;

    open spec fn view(&self) -> RequestView {
        RequestView { title: self.title@, message: self.message@ }
    }
}

/// The snapshot kept behind the operator's own protection.
pub struct SafeDatabase {}

/// The snapshot kept in plain text; its content may have been tampered with.
pub struct UnsafeDatabase {}

} // verus!
