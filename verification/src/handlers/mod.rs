pub mod auction;
pub mod auth;
pub mod collection;
pub mod collection_custom;
pub mod events;
pub mod metadata;
pub mod metrics;
pub mod nft;
pub mod owner;
pub mod requests;
pub mod user;
