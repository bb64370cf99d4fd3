//! Requests that change how a collection is presented.
use crate::db::Address;
use vstd::prelude::*;

verus! {

/// What the owner of a collection sets of its presentation; `social` is JSON text.
pub struct UpsertCollectionCustomPayload {
    pub address: Address,
    pub name: Option<String>,
    pub description: Option<String>,
    pub wallpaper: Option<String>,
    pub logo: Option<String>,
    pub social: Option<String>,
}

/// What the ownership check of a collection allows.
#[derive(Clone, Copy, Debug, PartialEq, Eq, Structural)]
pub enum CustomizationAccess {
    /// The check found nothing ("Forbidden action for current user", as a server error).
    NotFound,
    /// The user owns none of it ("Forbidden action").
    Forbidden,
    /// The user owns it.
    Allowed,
}

/// What the ownership check allows: nothing found, a count of zero (forbidden), or more.
pub fn customization_access(owned: Option<i64>) -> (res: CustomizationAccess)
    ensures
        res == (match owned {
            None => CustomizationAccess::NotFound,
            Some(0) => CustomizationAccess::Forbidden,
            Some(_) => CustomizationAccess::Allowed,
        }),
{
    match owned {
        None => CustomizationAccess::NotFound,
        Some(n) => if n == 0 {
            CustomizationAccess::Forbidden
        } else {
            CustomizationAccess::Allowed
        },
    }
}

} // verus!
