use crate::db::copy_text;
use vstd::prelude::*;

verus! {

/// A request to refresh the metadata of a collection, or of one NFT of it.
pub struct UpdateMetadataParams {
    pub nft: Option<String>,
    pub collection: String,
}

/// The refresh request as the indexer takes it.
pub struct UpdateMetadataParamsExt {
    pub nft: Option<String>,
    pub collection: String,
    pub only_collection_info: bool,
}

impl UpdateMetadataParamsExt {
    /// The indexer request for a refresh request: the same NFT and collection, asking for
    /// the collection information only.
    pub fn from_params(params: &UpdateMetadataParams) -> (res: UpdateMetadataParamsExt)
        ensures
            res.nft == params.nft,
            res.collection == params.collection,
            res.only_collection_info,
    {
        UpdateMetadataParamsExt {
            nft: copy_text(&params.nft),
            collection: params.collection.clone(),
            only_collection_info: true,
        }
    }
}

} // verus!
