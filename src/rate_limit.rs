//! The request rate limiter's decisions. Each user has a count of recent requests; a request
//! is let through while the count is below the limit, and each counted request is released
//! again after the configured span.

use vstd::prelude::*;

verus! {

/// What the limiter does with a request.
#[derive(Debug, Clone, Copy, PartialEq, Eq, Structural)]
pub enum Admission {
    /// Refuse the request; the count stays.
    Limited,
    /// Let the request through with this count; `release` says whether a release of it is
    /// due after the span.
    Admitted { count: usize, release: bool },
}

/// Decides on a request of a user whose count is `count` (`None`: no recent requests). The
/// first request only opens the user's entry; later ones are counted up to `limit`.
pub fn on_request(count: Option<usize>, limit: usize) -> (r: Admission)
    ensures
        count.is_none() ==> r == (Admission::Admitted { count: 0, release: false }),
        count matches Some(c) ==> if c >= limit {
            r == Admission::Limited
        } else {
            r == (Admission::Admitted { count: (c + 1) as usize, release: true })
        },
{
    match count {
        None => Admission::Admitted { count: 0, release: false },
        Some(c) => {
            if c >= limit {
                Admission::Limited
            } else {
                Admission::Admitted { count: c + 1, release: true }
            }
        },
    }
}

/// The count after one counted request is released; `None` when the entry should go.
pub fn release(count: usize) -> (r: Option<usize>)
    requires
        count >= 1,
    ensures
        count == 1 ==> r.is_none(),
        count > 1 ==> r == Some((count - 1) as usize),
{
    if count == 1 {
        None
    } else {
        Some(count - 1)
    }
}

} // verus!
