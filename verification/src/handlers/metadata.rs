//! Metadata refresh requests passed on to the indexer.
use vstd::prelude::*;

verus! {

/// The address of the indexer's metadata refresh endpoint.
pub fn refresh_url(indexer_api_url: &str) -> (res: String)
    ensures
        res@ == indexer_api_url@ + "/metadata/refresh/"@,
{
    let mut url = String::new();
    url.append(indexer_api_url);
    url.append("/metadata/refresh/");
    url
}

/// Whether the indexer's answer is passed on as an error: a client or a server error status.
pub fn is_error_status(status: u16) -> (res: bool)
    ensures
        res == (400 <= status && status < 600),
{
    400 <= status && status < 600
}

} // verus!
