use api::model::LoginData;
use api::services::auth::{AddressCheck, AuthService, LoginError};
use api::services::crypto::to_upper_hex;
use api::services::error::Error;
use base64::Engine;
use ed25519_dalek::{ExpandedSecretKey, PublicKey, SecretKey};
use sha2::Digest;

const URL: &str = "https://market.example";
const ADDRESS: &str = "0:5f1c4a1e0a2a4f0f00000000000000000000000000000000000000000000abcd";

fn keys() -> (PublicKey, ExpandedSecretKey) {
    let secret = SecretKey::from_bytes(&[7u8; 32]).unwrap();
    let public: PublicKey = (&secret).into();
    let expanded: ExpandedSecretKey = (&secret).into();
    (public, expanded)
}

fn now() -> u64 {
    std::time::SystemTime::now().duration_since(std::time::UNIX_EPOCH).unwrap().as_secs()
}

fn signed_login(timestamp: u64, signature_id: Option<i32>, encode_hex: bool) -> LoginData {
    let (public, expanded) = keys();
    let message = format!("I want to login at {URL} with address {ADDRESS} at {timestamp}");
    let mut data = Vec::new();
    if let Some(id) = signature_id {
        data.extend_from_slice(&id.to_be_bytes());
    }
    data.extend_from_slice(&sha2::Sha256::digest(message.as_bytes()));
    let signature = expanded.sign(&data, &public).to_bytes();
    let signature = if encode_hex {
        hex::encode(signature)
    } else {
        base64::engine::general_purpose::STANDARD.encode(signature)
    };
    LoginData {
        public_key: hex::encode(public.as_bytes()),
        address: ADDRESS.to_string(),
        wallet_type: "EverWallet".to_string(),
        timestamp,
        signature,
        with_signature_id: signature_id,
    }
}

fn service() -> AuthService {
    AuthService::new(3600, "secret".to_string(), URL.to_string())
}

#[test]
fn login_message_text() {
    assert_eq!(
        AuthService::login_message("https://a.b", "0:ab", 1700000000),
        "I want to login at https://a.b with address 0:ab at 1700000000"
    );
    assert_eq!(AuthService::login_message("", "", 0), "I want to login at  with address  at 0");
}

#[test]
fn signature_id_goes_first_in_big_endian() {
    let data = [0xAAu8, 0xBB];
    assert_eq!(AuthService::extend_data_with_signature_id(&data, None), vec![0xAA, 0xBB]);
    assert_eq!(AuthService::extend_data_with_signature_id(&data, Some(1)), vec![0, 0, 0, 1, 0xAA, 0xBB]);
    assert_eq!(AuthService::extend_data_with_signature_id(&[], Some(-2)), vec![0xFF, 0xFF, 0xFF, 0xFE]);
    assert_eq!(AuthService::extend_data_with_signature_id(&[], Some(0x01020304)), vec![1, 2, 3, 4]);
}

#[test]
fn upper_hex_of_bytes() {
    assert_eq!(to_upper_hex(&[0x00, 0x0F, 0xA0, 0xFF]), "000FA0FF");
    assert_eq!(to_upper_hex(&[]), "");
    let digest = sha2::Sha256::digest(b"abc");
    assert_eq!(to_upper_hex(&digest), format!("{:X}", digest));
}

#[test]
fn public_key_must_be_hex_ed25519() {
    let (public, _) = keys();
    let parsed = AuthService::parse_public_key(&hex::encode(public.as_bytes())).ok().unwrap();
    assert_eq!(parsed, public.as_bytes().to_vec());
    assert_eq!(AuthService::parse_public_key(&hex::encode(public.as_bytes()).to_uppercase()).ok().unwrap(), parsed);
    assert_eq!(AuthService::parse_public_key("zz").err(), Some(LoginError::BadPublicKey));
    assert_eq!(AuthService::parse_public_key("abc").err(), Some(LoginError::BadPublicKey));
    assert_eq!(AuthService::parse_public_key("00ff").err(), Some(LoginError::BadPublicKey));
}

#[test]
fn good_base64_signature_is_accepted() {
    let login = signed_login(1700000000, None, false);
    let key = AuthService::parse_public_key(&login.public_key).ok().unwrap();
    let res = AuthService::ensure_correct_signature(&key, ADDRESS, &login.signature, login.timestamp, URL, None);
    assert_eq!(res, Ok(()));
}

#[test]
fn good_signature_with_id_is_accepted() {
    let login = signed_login(1700000000, Some(1000), false);
    let key = AuthService::parse_public_key(&login.public_key).ok().unwrap();
    let res = AuthService::ensure_correct_signature(&key, ADDRESS, &login.signature, login.timestamp, URL, Some(1000));
    assert_eq!(res, Ok(()));
    let other_id = AuthService::ensure_correct_signature(&key, ADDRESS, &login.signature, login.timestamp, URL, Some(1001));
    assert_eq!(other_id, Err(LoginError::BadSignature));
}

#[test]
fn hex_signature_is_read_as_base64_first() {
    let login = signed_login(1700000000, None, true);
    let key = AuthService::parse_public_key(&login.public_key).ok().unwrap();
    let res = AuthService::ensure_correct_signature(&key, ADDRESS, &login.signature, login.timestamp, URL, None);
    assert_eq!(res, Err(LoginError::InvalidSignature));
}

#[test]
fn signature_neither_base64_nor_hex_is_unreadable() {
    let login = signed_login(1700000000, None, true);
    let key = AuthService::parse_public_key(&login.public_key).ok().unwrap();
    let odd = format!("{}=", login.signature);
    assert_eq!(
        AuthService::ensure_correct_signature(&key, ADDRESS, &odd, login.timestamp, URL, None),
        Err(LoginError::UnreadableSignature)
    );
}

#[test]
fn signature_of_another_message_is_refused() {
    let login = signed_login(1700000000, None, false);
    let key = AuthService::parse_public_key(&login.public_key).ok().unwrap();
    let res = AuthService::ensure_correct_signature(&key, ADDRESS, &login.signature, 1700000001, URL, None);
    assert_eq!(res, Err(LoginError::BadSignature));
    assert_eq!(LoginError::BadSignature.message(), "Bad signature");
}

#[test]
fn unreadable_or_short_signatures_are_refused() {
    let (public, _) = keys();
    let key = public.as_bytes().to_vec();
    assert_eq!(
        AuthService::ensure_correct_signature(&key, ADDRESS, "!!not a signature!!", 1, URL, None),
        Err(LoginError::UnreadableSignature)
    );
    assert_eq!(
        AuthService::ensure_correct_signature(&key, ADDRESS, "00ff", 1, URL, None),
        Err(LoginError::InvalidSignature)
    );
    assert_eq!(LoginError::InvalidSignature.message(), "Invalid signature. Expected 64 bytes");
}

#[test]
fn data_hash_must_be_32_hex_bytes() {
    let (public, _) = keys();
    let key = public.as_bytes().to_vec();
    assert_eq!(AuthService::verify_signature(&key, "xyz", "00", None), Err(LoginError::UnreadableDataHash));
    assert_eq!(AuthService::verify_signature(&key, "00ff", "00", None), Err(LoginError::InvalidDataHash));
    assert_eq!(LoginError::InvalidDataHash.message(), "Invalid data hash. Expected 32 bytes");
}

#[test]
fn expiry_window() {
    let s = service();
    assert_eq!(s.ensure_not_expired_at(1000, 999), Err(LoginError::TimestampFromTheFuture));
    assert_eq!(s.ensure_not_expired_at(1000, 1000), Ok(()));
    assert_eq!(s.ensure_not_expired_at(1000, 4600), Ok(()));
    assert_eq!(s.ensure_not_expired_at(1000, 4601), Err(LoginError::LoginExpired));
    assert_eq!(s.ensure_not_expired_at(u64::MAX, u64::MAX), Ok(()));
    assert_eq!(LoginError::TimestampFromTheFuture.message(), "Timestamp from the future");
    assert_eq!(LoginError::LoginExpired.message(), "Login expired");
}

#[test]
fn expiry_by_the_clock() {
    let s = service();
    assert_eq!(s.ensure_not_expired(now()), Ok(()));
    assert_eq!(s.ensure_not_expired(now() + 100_000), Err(LoginError::TimestampFromTheFuture));
    assert_eq!(s.ensure_not_expired(1), Err(LoginError::LoginExpired));
}

#[test]
fn claims_expire_a_lifetime_later() {
    let c = service().claims_at(ADDRESS, 1000);
    assert_eq!(c.sub, ADDRESS);
    assert_eq!(c.exp, 4600);
}

fn claims_of(token: &str) -> serde_json::Map<String, serde_json::Value> {
    let payload = token.split('.').nth(1).unwrap();
    let bytes = base64::engine::general_purpose::URL_SAFE_NO_PAD.decode(payload).unwrap();
    serde_json::from_slice(&bytes).unwrap()
}

#[test]
fn authorize_issues_a_token_for_a_good_login() {
    let login = signed_login(now(), None, false);
    let token = service().authorize(&login, AddressCheck::Matches).ok().unwrap();
    let claims = claims_of(&token);
    assert_eq!(claims.keys().collect::<Vec<_>>(), vec!["sub", "exp"]);
    assert_eq!(claims["sub"], ADDRESS);
    let exp = claims["exp"].as_u64().unwrap();
    assert!(exp >= now() + 3600 - 5 && exp <= now() + 3600);
    assert!(token.starts_with("eyJ0eXAiOiJKV1QiLCJhbGciOiJIUzI1NiJ9."));
}

#[test]
fn an_issued_token_authenticates_its_address() {
    let s = service();
    let token = s.create_jwt(ADDRESS).unwrap();
    let header = format!("Bearer {token}");
    assert_eq!(s.authenticate(Some(header.as_bytes())), Ok(ADDRESS.to_string()));
    let other = AuthService::new(3600, "other secret".to_string(), URL.to_string());
    assert_eq!(other.authenticate(Some(header.as_bytes())), Err(Error::JwtToken));
    let mut forged = token.clone();
    forged.push('x');
    assert_eq!(s.authenticate(Some(format!("Bearer {forged}").as_bytes())), Err(Error::JwtToken));
}

fn token_expiring_at(exp: u64) -> String {
    let mut claims = serde_json::Map::new();
    claims.insert("sub".to_string(), serde_json::Value::from(ADDRESS));
    claims.insert("exp".to_string(), serde_json::Value::from(exp));
    let key = jsonwebtoken::EncodingKey::from_secret(b"secret");
    jsonwebtoken::encode(&jsonwebtoken::Header::default(), &claims, &key).unwrap()
}

#[test]
fn an_expired_token_is_refused() {
    let s = service();
    let old = token_expiring_at(now() - 10);
    assert_eq!(s.authenticate(Some(format!("Bearer {old}").as_bytes())), Err(Error::JwtToken));
    let fresh = token_expiring_at(now() + 60);
    assert_eq!(s.authenticate(Some(format!("Bearer {fresh}").as_bytes())), Ok(ADDRESS.to_string()));
    let within_leeway = token_expiring_at(now() - 1);
    assert_eq!(s.authenticate(Some(format!("Bearer {within_leeway}").as_bytes())), Ok(ADDRESS.to_string()));
}

#[test]
fn authenticate_reports_a_missing_or_bad_header() {
    let s = service();
    assert_eq!(s.authenticate(None), Err(Error::NoAuthHeader));
    assert_eq!(s.authenticate(Some(b"Basic abc")), Err(Error::InvalidAuthHeader));
    assert_eq!(s.authenticate(Some(b"Bearer abc.def.ghi")), Err(Error::JwtToken));
}

#[test]
fn authorize_checks_in_order() {
    let s = service();
    let mut login = signed_login(now(), None, false);
    assert_eq!(s.authorize(&login, AddressCheck::UnknownWalletType).err(), Some(LoginError::UnknownWalletType));
    assert_eq!(s.authorize(&login, AddressCheck::UnreadableAddress).err(), Some(LoginError::UnreadableAddress));
    assert_eq!(s.authorize(&login, AddressCheck::Mismatch).err(), Some(LoginError::BadAddress));
    assert_eq!(LoginError::BadAddress.message(), "Bad address");
    assert_eq!(LoginError::UnreadableAddress.message(), "Failed to parse the address");
    let old = signed_login(10, None, false);
    assert_eq!(s.authorize(&old, AddressCheck::Matches).err(), Some(LoginError::LoginExpired));
    login.public_key = "nothex".to_string();
    assert_eq!(s.authorize(&login, AddressCheck::Mismatch).err(), Some(LoginError::BadPublicKey));
}

#[test]
fn token_from_authorization_header() {
    let s = service();
    assert_eq!(s.jwt_from_header(None), Err(Error::NoAuthHeader));
    assert_eq!(s.jwt_from_header(Some(&[0xff, 0xfe])), Err(Error::NoAuthHeader));
    assert_eq!(s.jwt_from_header(Some(b"Basic abc")), Err(Error::InvalidAuthHeader));
    assert_eq!(s.jwt_from_header(Some(b"Bearer")), Err(Error::InvalidAuthHeader));
    assert_eq!(s.jwt_from_header(Some(b"Bearer abc.def")), Ok("abc.def".to_string()));
    assert_eq!(s.jwt_from_header(Some(b"Bearer Bearer tok")), Ok("tok".to_string()));
    assert_eq!(s.jwt_from_header(Some(b"Bearer ")), Ok(String::new()));
    assert_eq!(Error::NoAuthHeader.message(), "No auth header");
    assert_eq!(Error::InvalidAuthHeader.message(), "Invalid auth header");
    assert_eq!(Error::JwtToken.message(), "Jwt token not valid");
}

#[test]
fn service_keeps_its_secret() {
    assert_eq!(service().jwt_secret(), "secret");
}
