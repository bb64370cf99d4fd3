//! Data model, query construction and request logic of the NFT indexer API.
pub mod cfg;
pub mod db;
pub mod handlers;
pub mod instants;
pub mod keyed;
pub mod model;
pub mod paging;
pub mod schema;
pub mod services;
pub mod strings;
pub mod token;
pub mod usd_price;
