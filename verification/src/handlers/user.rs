//! Requests about user profiles.
use crate::db::types::UserRecord;
use crate::db::Address;
use vstd::prelude::*;

verus! {

/// A user's profile as the user sets it.
pub struct UpsertUserPayload {
    pub address: Address,
    pub username: Option<String>,
    pub bio: Option<String>,
    pub logo_nft: Option<String>,
    pub twitter: Option<String>,
    pub instagram: Option<String>,
    pub facebook: Option<String>,
    pub link: Option<String>,
    pub email: Option<String>,
}

/// The profile shown for an address: the stored one, or an empty one where none is stored,
/// under the address asked for.
pub fn profile_for(found: Option<UserRecord>, address: Address) -> (res: UserRecord)
    ensures
        res.address == address,
        match found {
            Some(u) => {
                &&& res.logo_nft == u.logo_nft
                &&& res.username == u.username
                &&& res.bio == u.bio
                &&& res.twitter == u.twitter
                &&& res.instagram == u.instagram
                &&& res.facebook == u.facebook
                &&& res.link == u.link
                &&& res.email == u.email
                &&& res.avatar_url == u.avatar_url
            },
            None => {
                &&& res.logo_nft is None
                &&& res.username is None
                &&& res.bio is None
                &&& res.twitter is None
                &&& res.instagram is None
                &&& res.facebook is None
                &&& res.link is None
                &&& res.email is None
                &&& res.avatar_url is None
            },
        },
{
    let mut user = match found {
        Some(u) => u,
        None => UserRecord::default(),
    };
    user.address = address;
    user
}

} // verus!
