use hmac::{Hmac, Mac};
use tradesatoshi::error::ErrorType;
use tradesatoshi::sign::{authorization, payload, sign, Nonce};

const URL: &str = "https://tradesatoshi.com/api/private/getbalance";

fn nonce(digits: &str) -> Nonce {
    Nonce::from_fraction(&format!("0.{}", digits)).unwrap()
}

#[test]
fn nonce_is_the_digits_behind_the_point() {
    assert_eq!(Nonce::from_fraction("0.123456").unwrap().as_str(), "123456");
    assert_eq!(Nonce::from_fraction("0.0").unwrap().as_str(), "0");
    assert_eq!(Nonce::from_fraction("0.0000000001").unwrap().as_str(), "0000000001");
}

#[test]
fn nonce_is_refused_for_anything_but_a_fraction() {
    assert!(Nonce::from_fraction("").is_none());
    assert!(Nonce::from_fraction("0").is_none());
    assert!(Nonce::from_fraction("0.").is_none());
    assert!(Nonce::from_fraction("1.5").is_none());
    assert!(Nonce::from_fraction("0,5").is_none());
    assert!(Nonce::from_fraction("0.5e-7").is_none());
    assert!(Nonce::from_fraction("0.12 ").is_none());
    assert!(Nonce::from_fraction("-0.5").is_none());
    assert!(Nonce::from_fraction("0.\u{661}").is_none());
}

#[test]
fn nonce_of_a_random_fraction() {
    let fraction: f64 = 0.8444218515250481;
    assert_eq!(Nonce::from_fraction(&fraction.to_string()).unwrap().as_str(), "8444218515250481");
}

#[test]
fn payload_is_the_parts_one_behind_the_other() {
    assert_eq!(payload("key", "POST", "url", &nonce("42"), "body"), "keyPOSTurl42body");
}

#[test]
fn authorization_has_the_key_the_signature_and_the_nonce() {
    assert_eq!(authorization("key", "c2ln", &nonce("42")), "Basic key:c2ln:42");
}

#[test]
fn sign_matches_the_known_signature() {
    let header = sign("key", "c2VjcmV0", "POST", URL, &nonce("123456"), "{\"Currency\":\"BTC\"}");
    assert_eq!(
        header.unwrap(),
        "Basic key:nxZyYNfo8u8aMiazlkZxZ71OQHnoVgoic/SbXdy6L5tBAy4Yv2CIyDOG0/Ka1mySIhTVFN1jSOm/\
         UmhoTgm47Q==:123456"
    );
}

#[test]
fn sign_matches_the_known_signature_for_an_empty_object() {
    let header = sign(
        "my key",
        "AAECAwQFBgcICQ==",
        "POST",
        "https://tradesatoshi.com/api/private/getbalances",
        &nonce("5"),
        "{}",
    );
    assert_eq!(
        header.unwrap(),
        "Basic my key:5xS311Xa7ZOWjoz+9P2IVZDloZ0GE+vgXlQSpSM1sSHttyNkow2MRp8gybsd9jI7wbak3GJbPxTS4\
         DRAaTgT2A==:5"
    );
}

#[test]
fn sign_agrees_with_the_primitives_put_together_by_hand() {
    let body = "{\"Currency\":\"BTC\"}";
    let text = format!(
        "keyPOST{}123456{}",
        "https%3a%2f%2ftradesatoshi.com%2fapi%2fprivate%2fgetbalance",
        base64::encode(body)
    );
    let mut mac = Hmac::<sha2::Sha512>::new_varkey(b"secret").unwrap();
    mac.input(text.as_bytes());
    let expected = format!("Basic key:{}:123456", base64::encode(&mac.result().code()));
    assert_eq!(sign("key", "c2VjcmV0", "POST", URL, &nonce("123456"), body).unwrap(), expected);
}

#[test]
fn sign_gives_the_same_header_every_time() {
    let first = sign("key", "c2VjcmV0", "POST", URL, &nonce("123456"), "{}").unwrap();
    let second = sign("key", "c2VjcmV0", "POST", URL, &nonce("123456"), "{}").unwrap();
    assert_eq!(first, second);
}

#[test]
fn sign_differs_for_different_nonces() {
    let body = "{\"Currency\":\"BTC\"}";
    let first = sign("key", "c2VjcmV0", "POST", URL, &nonce("123456"), body).unwrap();
    let second = sign("key", "c2VjcmV0", "POST", URL, &nonce("123457"), body).unwrap();
    assert_ne!(first, second);
    assert_eq!(
        second,
        "Basic key:noD9qOXnpBhVc0BLdhmhWdHLznrcDXSVs0W9iyxJgiCUd4dldOWQpjG2CoPjY8NgfedGXmjk40VPPbv2\
         j7uVTA==:123457"
    );
}

#[test]
fn sign_refuses_a_secret_that_is_not_base64() {
    let error = sign("key", "not base64!", "POST", URL, &nonce("1"), "{}").unwrap_err();
    assert_eq!(error.error_type, ErrorType::ConfigurationError);
    assert_eq!(error.message, "The API secret is not valid Base64");
}

#[test]
fn sign_accepts_an_empty_secret() {
    assert!(sign("key", "", "POST", URL, &nonce("1"), "{}").is_ok());
}

#[test]
fn nonce_is_taken_from_fractions_as_they_are_written_out() {
    for fraction in [0.5f64, 0.1, 0.25, 0.000001, 1e-7, 1e-10, 0.9999999999999999, 5e-324] {
        let text = fraction.to_string();
        let nonce = Nonce::from_fraction(&text).unwrap();
        assert_eq!(nonce.as_str(), &text[2..]);
        assert!(nonce.as_str().bytes().all(|b| b.is_ascii_digit()));
    }
    assert!(Nonce::from_fraction(&0.0f64.to_string()).is_none());
    assert!(Nonce::from_fraction(&1.0f64.to_string()).is_none());
}

#[test]
fn the_address_is_form_encoded_and_lowered_before_it_is_signed() {
    let body = "{}";
    let address = "http%3a%2f%2fhost%2fa+b%3fq%3d%c3%a9";
    let text = format!("keyPOST{}7{}", address, base64::encode(body));
    let mut mac = Hmac::<sha2::Sha512>::new_varkey(b"secret").unwrap();
    mac.input(text.as_bytes());
    let expected = format!("Basic key:{}:7", base64::encode(&mac.result().code()));
    let header = sign("key", "c2VjcmV0", "POST", "HTTP://Host/A b?Q=\u{e9}", &nonce("7"), body);
    assert_eq!(header.unwrap(), expected);
}
