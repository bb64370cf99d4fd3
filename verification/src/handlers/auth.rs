//! The login request.
use crate::db::copy_text;
use crate::model::LoginData;
use vstd::prelude::*;

verus! {

/// What a wallet sends to log in.
pub struct SignInPayload {
    pub public_key: String,
    pub address: String,
    pub wallet_type: String,
    pub timestamp: u64,
    pub signature: String,
    pub with_signature_id: Option<i32>,
}

impl SignInPayload {
    /// The login the payload carries.
    pub fn login_data(&self) -> (res: LoginData)
        ensures
            res.public_key == self.public_key,
            res.address == self.address,
            res.wallet_type == self.wallet_type,
            res.timestamp == self.timestamp,
            res.signature == self.signature,
            res.with_signature_id == self.with_signature_id,
    {
        LoginData {
            public_key: self.public_key.clone(),
            address: self.address.clone(),
            wallet_type: self.wallet_type.clone(),
            timestamp: self.timestamp,
            signature: self.signature.clone(),
            with_signature_id: self.with_signature_id,
        }
    }
}

} // verus!
