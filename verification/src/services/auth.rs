//! Login by wallet signature, and the checks on access tokens.
use crate::model::{JwtClaims, LoginData};
use crate::services::crypto::{
    base64_decode, base64_standard_decoded, be_bytes, ed25519_verifies, ed25519_verify, hex_decode,
    hex_decoded, i32_be_bytes, lemma_hex_roundtrip, public_key_accepted, public_key_valid, sha256,
    sha256_digest, signature_accepted, signature_valid, to_upper_hex, utf8_text,
};
use crate::services::error::Error;
use crate::strings::{decimal_digits, number_text};
use vstd::prelude::*;
use vstd::string::StrSliceExecFns;
use vstd::utf8::{decode_utf8, encode_utf8, encode_utf8_decode_utf8, encode_utf8_valid_utf8, valid_utf8};

verus! {

/// Issues access tokens to wallets that sign a login message, and reads them back.
pub struct AuthService {
    access_token_lifetime: u32,
    jwt_secret: String,
    base_url: String,
}

/// Why a login is refused.
#[derive(Clone, Copy, Debug, PartialEq, Eq, Structural)]
pub enum LoginError {
    /// The public key is no hexadecimal Ed25519 key.
    BadPublicKey,
    /// The wallet type is not one the wallet library knows.
    UnknownWalletType,
    /// The address cannot be read.
    UnreadableAddress,
    /// The address is not the one of the key's wallet.
    BadAddress,
    /// The hash of the login message is no hexadecimal text.
    UnreadableDataHash,
    /// The hash of the login message is not 32 bytes.
    InvalidDataHash,
    /// The signature is neither base64 nor hexadecimal.
    UnreadableSignature,
    /// The signature is no Ed25519 signature.
    InvalidSignature,
    /// The signature does not sign the login message.
    BadSignature,
    /// The login is dated after now.
    TimestampFromTheFuture,
    /// The login is older than the token lifetime.
    LoginExpired,
    /// The system clock cannot be read in seconds since the epoch.
    ClockUnavailable,
}

impl LoginError {
    /// The message of the error.
    pub fn message(&self) -> (res: &'static str)
        ensures
            *self == LoginError::BadSignature ==> res@ == "Bad signature"@,
            *self == LoginError::BadAddress ==> res@ == "Bad address"@,
            *self == LoginError::UnreadableAddress ==> res@ == "Failed to parse the address"@,
            *self == LoginError::InvalidDataHash ==> res@ == "Invalid data hash. Expected 32 bytes"@,
            *self == LoginError::InvalidSignature ==> res@ == "Invalid signature. Expected 64 bytes"@,
            *self == LoginError::TimestampFromTheFuture ==> res@ == "Timestamp from the future"@,
            *self == LoginError::LoginExpired ==> res@ == "Login expired"@,
    {
        match self {
            LoginError::BadPublicKey => "Invalid public key",
            LoginError::UnknownWalletType => "Unknown wallet type",
            LoginError::UnreadableAddress => "Failed to parse the address",
            LoginError::BadAddress => "Bad address",
            LoginError::UnreadableDataHash => "Invalid data hash",
            LoginError::InvalidDataHash => "Invalid data hash. Expected 32 bytes",
            LoginError::UnreadableSignature => "Invalid signature encoding",
            LoginError::InvalidSignature => "Invalid signature. Expected 64 bytes",
            LoginError::BadSignature => "Bad signature",
            LoginError::TimestampFromTheFuture => "Timestamp from the future",
            LoginError::LoginExpired => "Login expired",
            LoginError::ClockUnavailable => "Get sys time error",
        }
    }
}

/// What the wallet library found of the login's wallet type and address, for a key that
/// parses: the type unknown, the address unreadable, the address not the key's, or a match.
#[derive(Clone, Copy, Debug, PartialEq, Eq, Structural)]
pub enum AddressCheck {
    UnknownWalletType,
    UnreadableAddress,
    Mismatch,
    Matches,
}

/// The message a wallet signs to log in.
pub open spec fn login_message(base_url: Seq<char>, address: Seq<char>, timestamp: u64) -> Seq<char> {
    "I want to login at "@ + base_url + " with address "@ + address + " at "@ + decimal_digits(timestamp as nat)
}

/// The signed data: the signature id in big-endian bytes before the data, where there is one.
pub open spec fn extended_data(data: Seq<u8>, signature_id: Option<i32>) -> Seq<u8> {
    match signature_id {
        Some(id) => be_bytes(id) + data,
        None => data,
    }
}

/// The bytes of a signature given as base64, or else as hexadecimal.
pub open spec fn signature_bytes(text: Seq<char>) -> Option<Seq<u8>> {
    match base64_standard_decoded(text) {
        Some(b) => Some(b),
        None => hex_decoded(text),
    }
}

/// Whether a signature, given as text, signs the data under the key: `Ok(true)` or
/// `Ok(false)`, or why it cannot be read.
pub open spec fn signature_check(public_key: Seq<u8>, data: Seq<u8>, signature: Seq<char>) -> Result<bool, LoginError> {
    match signature_bytes(signature) {
        None => Err(LoginError::UnreadableSignature),
        Some(s) => if !signature_valid(s) {
            Err(LoginError::InvalidSignature)
        } else {
            Ok(ed25519_verifies(public_key, data, s))
        },
    }
}

/// What the signature check of a login gives: the signature must sign the hash of the login
/// message (extended with the signature id where there is one).
pub open spec fn signature_outcome(
    public_key: Seq<u8>,
    base_url: Seq<char>,
    address: Seq<char>,
    signature: Seq<char>,
    timestamp: u64,
    signature_id: Option<i32>,
) -> Result<(), LoginError> {
    let data = extended_data(sha256(encode_utf8(login_message(base_url, address, timestamp))), signature_id);
    match signature_check(public_key, data, signature) {
        Err(e) => Err(e),
        Ok(true) => Ok(()),
        Ok(false) => Err(LoginError::BadSignature),
    }
}

/// Whether a login dated `timestamp` is current at `now` for tokens that live `lifetime`
/// seconds: not from the future, and not older than the lifetime.
pub open spec fn expiry_outcome(lifetime: u32, timestamp: u64, now: u64) -> Result<(), LoginError> {
    if timestamp > now {
        Err(LoginError::TimestampFromTheFuture)
    } else if timestamp + lifetime < now {
        Err(LoginError::LoginExpired)
    } else {
        Ok(())
    }
}

/// The key that a text stands for: hexadecimal bytes that `ed25519_dalek` takes as a key.
pub open spec fn public_key_of(text: Seq<char>) -> Option<Seq<u8>> {
    match hex_decoded(text) {
        Some(b) => if public_key_valid(b) { Some(b) } else { None },
        None => None,
    }
}

/// The text with every leading occurrence of a non-empty prefix removed.
pub open spec fn strip_leading(s: Seq<char>, prefix: Seq<char>) -> Seq<char>
    decreases s.len(),
{
    if prefix.len() > 0 && s.len() >= prefix.len() && s.take(prefix.len() as int) == prefix {
        strip_leading(s.skip(prefix.len() as int), prefix)
    } else {
        s
    }
}

/// The prefix of the authorization header that carries a token.
pub const BEARER: &'static str = "Bearer ";

/// The token that an authorization header carries: the header must be UTF-8 text (else no
/// header) starting with `Bearer ` (else an invalid header); every leading `Bearer ` is removed.
pub open spec fn header_token(header: Option<Seq<u8>>) -> Result<Seq<char>, Error> {
    match header {
        None => Err(Error::NoAuthHeader),
        Some(bytes) => if !valid_utf8(bytes) {
            Err(Error::NoAuthHeader)
        } else {
            let text = decode_utf8(bytes);
            if text.len() >= BEARER@.len() && text.take(BEARER@.len() as int) == BEARER@ {
                Ok(strip_leading(text, BEARER@))
            } else {
                Err(Error::InvalidAuthHeader)
            }
        },
    }
}

/// Whether a text starts with another.
fn starts_with(s: &str, prefix: &str) -> (res: bool)
    ensures
        res == (s@.len() >= prefix@.len() && s@.take(prefix@.len() as int) == prefix@),
{
    let n = s.unicode_len();
    let m = prefix.unicode_len();
    if n < m {
        return false;
    }
    let head = s.substring_char(0, m);
    let mut i: usize = 0;
    while i < m
        invariant
            m == prefix@.len(),
            head@ == s@.take(m as int),
            head@.len() == m,
            i <= m,
            forall|j: int| 0 <= j < i ==> head@[j] == prefix@[j],
        decreases m - i,
    {
        if head.get_char(i) != prefix.get_char(i) {
            return false;
        }
        i = i + 1;
    }
    proof {
        assert(head@ =~= prefix@);
    }
    true
}

/// Removes every leading occurrence of a non-empty prefix.
fn trim_start_matches(s: &str, prefix: &str) -> (res: String)
    requires
        prefix@.len() > 0,
    ensures
        res@ == strip_leading(s@, prefix@),
{
    let mut rest = s;
    let m = prefix.unicode_len();
    while starts_with(rest, prefix)
        invariant
            m == prefix@.len(),
            prefix@.len() > 0,
            strip_leading(rest@, prefix@) == strip_leading(s@, prefix@),
        decreases rest@.len(),
    {
        let n = rest.unicode_len();
        rest = rest.substring_char(m, n);
    }
    rest.to_owned()
}

/// The token that `jsonwebtoken` signs with HMAC-SHA256 under `secret`, for the default header
/// and the claims `{"sub": sub, "exp": exp}`.
pub uninterp spec fn jwt_hs256(sub: Seq<char>, exp: u64, secret: Seq<char>) -> Seq<char>;

/// The subject of a token that `jsonwebtoken` reads as signed with HMAC-SHA256 under `secret`,
/// with claims that hold a text `sub` and an integer `exp` and no audience; nothing for any
/// other token. The expiry is not weighed here: it depends on the clock.
pub uninterp spec fn jwt_hs256_subject(token: Seq<char>, secret: Seq<char>) -> Option<Seq<char>>;

/// Signs the claims `sub` then `exp` through `jsonwebtoken::encode` with the default header
/// (HS256) and the secret; the token is left as the name `jwt_hs256`. `encode` fails only where
/// the key does not fit the header's algorithm or the claims do not serialize, neither of which
/// happens here. `decode` checks the signature that `encode` made, so the token reads back as
/// its subject.
#[verifier::external_body]
fn jwt_sign(sub: &str, exp: u64, secret: &str) -> (res: String)
    ensures
        res@ == jwt_hs256(sub@, exp, secret@),
        jwt_hs256_subject(res@, secret@) == Some(sub@),
{
    let mut claims = serde_json::Map::new();
    claims.insert("sub".to_string(), serde_json::Value::from(sub));
    claims.insert("exp".to_string(), serde_json::Value::from(exp));
    let key = jsonwebtoken::EncodingKey::from_secret(secret.as_bytes());
    jsonwebtoken::encode(&jsonwebtoken::Header::default(), &claims, &key).expect("Failed to encode JWT")
}

/// Reads a token through `jsonwebtoken::decode` (HS256, the secret, `leeway` seconds of grace on
/// the expiry) and picks its text claim `sub`. Where it gives a subject, the token is one that
/// `jwt_hs256_subject` reads as that subject; whether an expired token is refused depends on
/// the clock and is not stated.
#[verifier::external_body]
fn jwt_subject(token: &str, secret: &str, leeway: u64) -> (res: Option<String>)
    ensures
        res matches Some(s) ==> jwt_hs256_subject(token@, secret@) == Some(s@),
{
    let mut validation = jsonwebtoken::Validation::new(jsonwebtoken::Algorithm::default());
    validation.leeway = leeway;
    let key = jsonwebtoken::DecodingKey::from_secret(secret.as_bytes());
    match jsonwebtoken::decode::<serde_json::Map<String, serde_json::Value>>(token, &key, &validation) {
        Ok(d) => match d.claims.get("sub") {
            Some(serde_json::Value::String(s)) => Some(s.clone()),
            _ => None,
        },
        Err(_) => None,
    }
}

/// The seconds of grace that a token keeps after its expiry.
pub const JWT_LEEWAY: u64 = 2;

/// What reading the token of an authorization header gives under `secret`: the header's own
/// error where it carries no token, otherwise either the token's subject or a bad-token error.
pub open spec fn authentication(secret: Seq<char>, header: Option<Seq<u8>>, res: Result<Seq<char>, Error>) -> bool {
    match header_token(header) {
        Err(e) => res == Err::<Seq<char>, Error>(e),
        Ok(t) => match res {
            Ok(s) => jwt_hs256_subject(t, secret) == Some(s),
            Err(e) => e == Error::JwtToken,
        },
    }
}

/// Whether `token` is one issued to `address` under `secret` with a lifetime of `lifetime`
/// seconds: signed over that address and an expiry a lifetime after some clock reading.
pub open spec fn issued_token(token: Seq<char>, address: Seq<char>, secret: Seq<char>, lifetime: u32) -> bool {
    &&& jwt_hs256_subject(token, secret) == Some(address)
    &&& exists|exp: u64, now: u64|
        #![trigger jwt_hs256(address, exp, secret), issued_at(exp, lifetime, now)]
        jwt_hs256(address, exp, secret) == token && issued_at(exp, lifetime, now)
}

impl AuthService {
    /// The system clock in seconds since the epoch (`SystemTime::now().duration_since(UNIX_EPOCH)`),
    /// nothing where the clock is set before the epoch. Nothing is promised of the reading.
    #[verifier::external_body]
    fn get_sys_time_in_secs() -> (res: Option<u64>) {
        match std::time::SystemTime::now().duration_since(std::time::SystemTime::UNIX_EPOCH) {
            Ok(n) => Some(n.as_secs()),
            Err(_) => None,
        }
    }

    /// How long the tokens live, in seconds.
    pub closed spec fn lifetime(&self) -> u32 {
        self.access_token_lifetime
    }

    /// The secret that tokens are signed with.
    pub closed spec fn secret(&self) -> Seq<char> {
        self.jwt_secret@
    }

    /// The address of the service that login messages name.
    pub closed spec fn url(&self) -> Seq<char> {
        self.base_url@
    }

    /// A service issuing tokens that live `access_token_lifetime` seconds, signed with
    /// `jwt_secret`, for logins at `base_url`.
    pub fn new(access_token_lifetime: u32, jwt_secret: String, base_url: String) -> (res: AuthService)
        ensures
            res.lifetime() == access_token_lifetime,
            res.secret() == jwt_secret@,
            res.url() == base_url@,
    {
        AuthService { access_token_lifetime, jwt_secret, base_url }
    }

    /// The secret that tokens are signed with.
    pub fn jwt_secret(&self) -> (res: &str)
        ensures
            res@ == self.secret(),
    {
        self.jwt_secret.as_str()
    }

    /// The data a signature signs: the signature id in big-endian bytes before the data, where
    /// there is one.
    pub fn extend_data_with_signature_id(data: &[u8], signature_id: Option<i32>) -> (res: Vec<u8>)
        ensures
            res@ == extended_data(data@, signature_id),
    {
        let mut res: Vec<u8> = match signature_id {
            Some(id) => i32_be_bytes(id),
            None => Vec::new(),
        };
        let ghost start = res@;
        for i in 0..data.len()
            invariant
                res@ == start + data@.take(i as int),
        {
            res.push(data[i]);
            proof {
                assert(data@.take(i as int + 1) =~= data@.take(i as int).push(data@[i as int]));
            }
        }
        proof {
            assert(data@.take(data@.len() as int) =~= data@);
            assert(start + data@ =~= extended_data(data@, signature_id));
        }
        res
    }

    /// The message a wallet signs to log in at `base_url` with `address` at `timestamp`.
    pub fn login_message(base_url: &str, address: &str, timestamp: u64) -> (res: String)
        ensures
            res@ == login_message(base_url@, address@, timestamp),
    {
        let mut msg = String::new();
        msg.append("I want to login at ");
        msg.append(base_url);
        msg.append(" with address ");
        msg.append(address);
        msg.append(" at ");
        msg.append(number_text(timestamp as u128).as_str());
        msg
    }

    /// Reads a public key given in hexadecimal.
    pub fn parse_public_key(public_key: &str) -> (res: Result<Vec<u8>, LoginError>)
        ensures
            match public_key_of(public_key@) {
                Some(b) => res matches Ok(k) && k@ == b,
                None => res == Err::<Vec<u8>, LoginError>(LoginError::BadPublicKey),
            },
    {
        match hex_decode(public_key) {
            Some(bytes) => if public_key_accepted(bytes.as_slice()) {
                Ok(bytes)
            } else {
                Err(LoginError::BadPublicKey)
            },
            None => Err(LoginError::BadPublicKey),
        }
    }

    /// Whether a signature, given in base64 or else hexadecimal, signs the data whose hash is
    /// given in hexadecimal (32 bytes), extended with the signature id where there is one.
    pub fn verify_signature(public_key: &[u8], data_hash: &str, signature: &str, signature_id: Option<i32>) -> (res: Result<bool, LoginError>)
        requires
            public_key_valid(public_key@),
        ensures
            res == (match hex_decoded(data_hash@) {
                None => Err(LoginError::UnreadableDataHash),
                Some(d) => if d.len() != 32 {
                    Err(LoginError::InvalidDataHash)
                } else {
                    signature_check(public_key@, extended_data(d, signature_id), signature@)
                },
            }),
    {
        let data_hash = match hex_decode(data_hash) {
            Some(d) => d,
            None => return Err(LoginError::UnreadableDataHash),
        };
        if data_hash.len() != 32 {
            return Err(LoginError::InvalidDataHash);
        }
        let data = Self::extend_data_with_signature_id(data_hash.as_slice(), signature_id);
        let signature = match base64_decode(signature) {
            Some(s) => s,
            None => match hex_decode(signature) {
                Some(s) => s,
                None => return Err(LoginError::UnreadableSignature),
            },
        };
        if !signature_accepted(signature.as_slice()) {
            return Err(LoginError::InvalidSignature);
        }
        Ok(ed25519_verify(public_key, data.as_slice(), signature.as_slice()))
    }

    /// Checks that a signature signs the login message of `address` at `timestamp` for the
    /// service at `base_url`: the message is hashed with SHA-256, the hash written in
    /// upper-case hexadecimal and read back, and extended with the signature id.
    pub fn ensure_correct_signature(
        public_key: &[u8],
        address: &str,
        signature: &str,
        timestamp: u64,
        base_url: &str,
        with_signature_id: Option<i32>,
    ) -> (res: Result<(), LoginError>)
        requires
            public_key_valid(public_key@),
        ensures
            res == signature_outcome(public_key@, base_url@, address@, signature@, timestamp, with_signature_id),
    {
        let msg = Self::login_message(base_url, address, timestamp);
        let digest = sha256_digest(msg.as_str().as_bytes());
        let msg_hash = to_upper_hex(digest.as_slice());
        proof {
            lemma_hex_roundtrip(digest@);
        }
        match Self::verify_signature(public_key, msg_hash.as_str(), signature, with_signature_id) {
            Ok(true) => Ok(()),
            Ok(false) => Err(LoginError::BadSignature),
            Err(e) => Err(e),
        }
    }

    /// Checks that a login dated `timestamp` is current at `now`.
    pub fn ensure_not_expired_at(&self, timestamp: u64, now: u64) -> (res: Result<(), LoginError>)
        ensures
            res == expiry_outcome(self.lifetime(), timestamp, now),
    {
        if timestamp > now {
            return Err(LoginError::TimestampFromTheFuture);
        }
        let expiration: u128 = timestamp as u128 + self.access_token_lifetime as u128;
        if expiration < now as u128 {
            return Err(LoginError::LoginExpired);
        }
        Ok(())
    }

    /// Checks that a login dated `timestamp` is current by the system clock.
    pub fn ensure_not_expired(&self, timestamp: u64) -> (res: Result<(), LoginError>)
        ensures
            res == Err::<(), LoginError>(LoginError::ClockUnavailable)
                || exists|now: u64| res == expiry_outcome(self.lifetime(), timestamp, now),
    {
        match Self::get_sys_time_in_secs() {
            Some(now) => self.ensure_not_expired_at(timestamp, now),
            None => Err(LoginError::ClockUnavailable),
        }
    }

    /// The claims of a token for `address` issued at `now`: it expires a lifetime later.
    pub fn claims_at(&self, address: &str, now: u64) -> (res: JwtClaims)
        requires
            now + self.lifetime() <= u64::MAX,
        ensures
            res.sub@ == address@,
            res.exp == now + self.lifetime(),
    {
        JwtClaims { sub: address.to_owned(), exp: now + self.access_token_lifetime as u64 }
    }

    /// The claims of a token for `address` issued now, by the system clock: it expires a
    /// lifetime after the clock's reading.
    pub fn create_claims(&self, address: &str) -> (res: Result<JwtClaims, LoginError>)
        ensures
            match res {
                Ok(c) => c.sub@ == address@ && exists|now: u64| #[trigger] issued_at(c.exp, self.lifetime(), now),
                Err(e) => e == LoginError::ClockUnavailable,
            },
    {
        let now = match Self::get_sys_time_in_secs() {
            Some(now) => now,
            None => return Err(LoginError::ClockUnavailable),
        };
        if now > u64::MAX - self.access_token_lifetime as u64 {
            return Err(LoginError::ClockUnavailable);
        }
        let c = self.claims_at(address, now);
        proof {
            assert(issued_at(c.exp, self.lifetime(), now));
        }
        Ok(c)
    }

    /// A token for `address` issued now, by the system clock: signed with the secret over the
    /// address and an expiry a lifetime after the clock's reading.
    pub fn create_jwt(&self, address: &str) -> (res: Result<String, LoginError>)
        ensures
            match res {
                Ok(t) => issued_token(t@, address@, self.secret(), self.lifetime()),
                Err(e) => e == LoginError::ClockUnavailable,
            },
    {
        let claims = match self.create_claims(address) {
            Ok(c) => c,
            Err(e) => return Err(e),
        };
        let token = jwt_sign(claims.sub.as_str(), claims.exp, self.jwt_secret.as_str());
        proof {
            let now = choose|now: u64| #[trigger] issued_at(claims.exp, self.lifetime(), now);
            assert(jwt_hs256(address@, claims.exp, self.secret()) == token@ && issued_at(claims.exp, self.lifetime(), now));
        }
        Ok(token)
    }

    /// The address that the token of an authorization header was issued to: the header must
    /// carry a bearer token (see `header_token`), and the token must be signed with the
    /// secret and not expired, else it is refused as a bad token.
    pub fn authenticate(&self, header: Option<&[u8]>) -> (res: Result<String, Error>)
        ensures
            authentication(self.secret(), match header {
                Some(h) => Some(h@),
                None => None,
            }, match res {
                Ok(s) => Ok(s@),
                Err(e) => Err(e),
            }),
    {
        let token = match self.jwt_from_header(header) {
            Ok(t) => t,
            Err(e) => return Err(e),
        };
        match jwt_subject(token.as_str(), self.jwt_secret.as_str(), JWT_LEEWAY) {
            Some(s) => Ok(s),
            None => Err(Error::JwtToken),
        }
    }

    /// Logs a wallet in: its key must be hexadecimal Ed25519, its wallet type known, its
    /// address the key's (as the wallet library found, in `address_check`), its signature must
    /// sign the login message, and the login must be current; it is then given an access token
    /// issued to its address.
    pub fn authorize(&self, login: &LoginData, address_check: AddressCheck) -> (res: Result<String, LoginError>)
        ensures
            match public_key_of(login.public_key@) {
                None => res == Err::<String, LoginError>(LoginError::BadPublicKey),
                Some(key) => match address_check {
                    AddressCheck::UnknownWalletType => res == Err::<String, LoginError>(LoginError::UnknownWalletType),
                    AddressCheck::UnreadableAddress => res == Err::<String, LoginError>(LoginError::UnreadableAddress),
                    AddressCheck::Mismatch => res == Err::<String, LoginError>(LoginError::BadAddress),
                    AddressCheck::Matches => match signature_outcome(key, self.url(), login.address@,
                        login.signature@, login.timestamp, login.with_signature_id) {
                        Err(e) => res == Err::<String, LoginError>(e),
                        Ok(()) => match res {
                            Ok(t) => issued_token(t@, login.address@, self.secret(), self.lifetime())
                                && exists|now: u64| expiry_outcome(self.lifetime(), login.timestamp, now) is Ok,
                            Err(e) => e == LoginError::ClockUnavailable
                                || exists|now: u64| expiry_outcome(self.lifetime(), login.timestamp, now) == Err::<(), LoginError>(e),
                        },
                    },
                },
            },
    {
        let public_key = match Self::parse_public_key(login.public_key.as_str()) {
            Ok(k) => k,
            Err(e) => return Err(e),
        };
        match address_check {
            AddressCheck::UnknownWalletType => return Err(LoginError::UnknownWalletType),
            AddressCheck::UnreadableAddress => return Err(LoginError::UnreadableAddress),
            AddressCheck::Mismatch => return Err(LoginError::BadAddress),
            AddressCheck::Matches => {},
        }
        match Self::ensure_correct_signature(
            public_key.as_slice(),
            login.address.as_str(),
            login.signature.as_str(),
            login.timestamp,
            self.base_url.as_str(),
            login.with_signature_id,
        ) {
            Ok(()) => {},
            Err(e) => return Err(e),
        }
        match self.ensure_not_expired(login.timestamp) {
            Ok(()) => {},
            Err(e) => return Err(e),
        }
        self.create_jwt(login.address.as_str())
    }

    /// The token that an authorization header carries (see `header_token`).
    pub fn jwt_from_header(&self, header: Option<&[u8]>) -> (res: Result<String, Error>)
        ensures
            match header_token(match header {
                Some(h) => Some(h@),
                None => None,
            }) {
                Ok(t) => res matches Ok(r) && r@ == t,
                Err(e) => res == Err::<String, Error>(e),
            },
    {
        let bytes = match header {
            Some(h) => h,
            None => return Err(Error::NoAuthHeader),
        };
        let text = match utf8_text(bytes) {
            Some(t) => t,
            None => return Err(Error::NoAuthHeader),
        };
        proof {
            encode_utf8_decode_utf8(text@);
            reveal_strlit("Bearer ");
        }
        if !starts_with(text.as_str(), BEARER) {
            return Err(Error::InvalidAuthHeader);
        }
        Ok(trim_start_matches(text.as_str(), BEARER))
    }
}



/// Whether a token expiring at `exp` was issued at `now` for the given lifetime.
pub open spec fn issued_at(exp: u64, lifetime: u32, now: u64) -> bool {
    exp == now + lifetime
}

/// A login accepted at `now` is neither dated after `now` nor older than the token lifetime.
pub proof fn lemma_accepted_login_is_current(lifetime: u32, timestamp: u64, now: u64)
    requires
        expiry_outcome(lifetime, timestamp, now) is Ok,
    ensures
        timestamp <= now <= timestamp + lifetime,
{
}

/// An authorization header made of `Bearer ` and a token gives that token back, where the
/// token does not itself start with `Bearer `.
pub proof fn lemma_bearer_header_roundtrip(token: Seq<char>)
    requires
        !(token.len() >= BEARER@.len() && token.take(BEARER@.len() as int) == BEARER@),
    ensures
        header_token(Some(encode_utf8(BEARER@ + token))) == Ok::<Seq<char>, Error>(token),
{
    reveal_strlit("Bearer ");
    let text = BEARER@ + token;
    encode_utf8_valid_utf8(text);
    encode_utf8_decode_utf8(text);
    assert(text.take(BEARER@.len() as int) =~= BEARER@);
    assert(text.skip(BEARER@.len() as int) =~= token);
    assert(strip_leading(token, BEARER@) == token);
    assert(strip_leading(text, BEARER@) == strip_leading(text.skip(BEARER@.len() as int), BEARER@));
}

/// An access token issued at login and sent back in a bearer header names the address it was
/// issued to: reading it gives that address or, where the token is refused (once it has
/// expired), a bad-token error, and never another address.
pub proof fn lemma_issued_token_authenticates(
    secret: Seq<char>,
    lifetime: u32,
    token: Seq<char>,
    address: Seq<char>,
    res: Result<Seq<char>, Error>,
)
    requires
        issued_token(token, address, secret, lifetime),
        !(token.len() >= BEARER@.len() && token.take(BEARER@.len() as int) == BEARER@),
        authentication(secret, Some(encode_utf8(BEARER@ + token)), res),
    ensures
        res == Ok::<Seq<char>, Error>(address) || res == Err::<Seq<char>, Error>(Error::JwtToken),
{
    lemma_bearer_header_roundtrip(token);
}

} // verus!
