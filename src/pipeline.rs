//! Image loads tagged with request tokens: only the result of the latest
//! request is applied; results of superseded requests are dropped on arrival.

use vstd::prelude::*;

verus! {

/// The tokens handed to image loads, and which one is still awaited.
#[derive(Clone, Copy, Debug, PartialEq, Eq, Structural)]
pub struct ImageLoadPipeline {
    /// The token of the latest request.
    pub latest: u64,
    /// Whether the latest request still awaits its result.
    pub pending: bool,
}

impl ImageLoadPipeline {
    /// The token that follows `token`; tokens wrap around after `u64::MAX`.
    pub open spec fn next_token(token: u64) -> u64 {
        if token == u64::MAX {
            0
        } else {
            (token + 1) as u64
        }
    }

    pub open spec fn after_request(self) -> Self {
        ImageLoadPipeline { latest: Self::next_token(self.latest), pending: true }
    }

    /// Whether a result tagged `token` is to be applied.
    pub open spec fn accepts(self, token: u64) -> bool {
        self.pending && token == self.latest
    }

    pub open spec fn after_result(self, token: u64) -> Self {
        if self.accepts(token) {
            ImageLoadPipeline { pending: false, ..self }
        } else {
            self
        }
    }

    /// A pipeline that awaits nothing.
    pub fn new() -> (r: Self)
        ensures
            r.latest == 0,
            !r.pending,
    {
        ImageLoadPipeline { latest: 0, pending: false }
    }

    /// Issues the token of a new request, which supersedes every earlier one.
    pub fn request(&mut self) -> (r: u64)
        ensures
            *final(self) == old(self).after_request(),
            r == final(self).latest,
    {
        self.latest = if self.latest == u64::MAX {
            0
        } else {
            self.latest + 1
        };
        self.pending = true;
        self.latest
    }

    /// Takes the result tagged `token`; returns whether it is to be applied,
    /// that is, whether it answers the latest request, not yet answered.
    pub fn complete(&mut self, token: u64) -> (r: bool)
        ensures
            r == old(self).accepts(token),
            *final(self) == old(self).after_result(token),
    {
        if self.pending && token == self.latest {
            self.pending = false;
            true
        } else {
            false
        }
    }
}

/// Stale-load rejection: of two requests issued before either completes,
/// only the second one's result is applied, whichever arrives first, and it
/// is applied once.
pub proof fn lemma_stale_load_rejected(p: ImageLoadPipeline)
    ensures
        ({
            let p1 = p.after_request();
            let first = p1.latest;
            let p2 = p1.after_request();
            let second = p2.latest;
            &&& first != second
            &&& !p2.accepts(first)
            &&& p2.after_result(first) == p2
            &&& p2.accepts(second)
            &&& !p2.after_result(second).accepts(first)
            &&& !p2.after_result(second).accepts(second)
        }),
{
}

} // verus!
