//! The request that sends the user's browser to another page.

use crate::app::{Continuation, ContinuationView, Effect, EffectView, Request, RequestView};
use vstd::prelude::*;

verus! {

/// Navigate to `url`. The host sends nothing back.
#[derive(Debug, PartialEq, Eq)]
pub struct RedirectOperation {
    pub url: String,
}

impl View for RedirectOperation {
    type V = Seq<char>;

    open spec fn view(&self) -> Seq<char> {
        self.url@
    }
}

/// The request to navigate to `url`.
pub fn redirect(url: String) -> (r: Request)
    ensures
        r@ == (RequestView { effect: EffectView::Redirect(url@), next: ContinuationView::Nothing }),
{
    Request { effect: Effect::Redirect(RedirectOperation { url }), next: Continuation::Nothing }
}

} // verus!
