//! Decisions on what a lookup of a month allows: reading it, changing its
//! records, or closing it.

use vstd::prelude::*;
use crate::error::{already_closed_message, closed_message, PaymeError};
use crate::model::Month;

verus! {

/// Decides whether a mutation may touch a month, from what the lookup of the
/// month by id and owner found: `None` when no such month is owned by the
/// caller, otherwise whether it is closed.
pub fn open_month_guard(lookup: Option<bool>) -> (r: Result<(), PaymeError>)
    ensures
        lookup is None ==> r == Err::<(), PaymeError>(PaymeError::NotFound),
        lookup == Some(true) ==> r is Err && r->Err_0.is_bad_request(closed_message()),
        lookup == Some(false) ==> r is Ok,
{
    match lookup {
        None => Err(PaymeError::NotFound),
        Some(true) => Err(PaymeError::month_closed()),
        Some(false) => Ok(()),
    }
}

/// Decides whether a read may see a month: it must exist and be owned.
pub fn access_guard(lookup: Option<Month>) -> (r: Result<Month, PaymeError>)
    ensures
        lookup is None ==> r == Err::<Month, PaymeError>(PaymeError::NotFound),
        lookup is Some ==> r == Ok::<Month, PaymeError>(lookup->Some_0),
{
    match lookup {
        None => Err(PaymeError::NotFound),
        Some(m) => Ok(m),
    }
}

/// Decides whether a month may be closed: it must exist, be owned, and
/// still be open.
pub fn close_guard(lookup: Option<Month>) -> (r: Result<Month, PaymeError>)
    ensures
        lookup is None ==> r == Err::<Month, PaymeError>(PaymeError::NotFound),
        lookup is Some && lookup->Some_0.is_closed ==> r is Err
            && r->Err_0.is_bad_request(already_closed_message()),
        lookup is Some && !lookup->Some_0.is_closed ==> r == Ok::<Month, PaymeError>(lookup->Some_0),
{
    match lookup {
        None => Err(PaymeError::NotFound),
        Some(m) => if m.is_closed {
            Err(PaymeError::already_closed())
        } else {
            Ok(m)
        },
    }
}

/// The month as it stands once closed at `closed_at`.
pub fn closed(m: Month, closed_at: i64) -> (r: Month)
    ensures
        r == (Month { is_closed: true, closed_at: Some(closed_at), ..m }),
{
    Month { is_closed: true, closed_at: Some(closed_at), ..m }
}

} // verus!
