//! Request signing: the nonce, the text that is signed, and the value of
//! the `Authorization` header.

use vstd::prelude::*;
use vstd::string::StringExecFns;
use vstd::utf8::encode_utf8;
use crate::codec::{
    base64_bytes,
    base64_decode,
    base64_encode,
    base64_text,
    form_urlencode,
    form_urlencoded,
    hmac_sha512,
    hmac_sha512_code,
    BASE64_INPUT_MAX,
};
use crate::error::{Error, ErrorType, Failure};
use crate::text::{ascii_lowercase, is_digit, to_ascii_lowercase};

verus! {

/// Whether `text` can serve as a nonce: one decimal digit or more, and
/// nothing else.
pub open spec fn is_nonce_text(text: Seq<char>) -> bool {
    &&& text.len() > 0
    &&& forall|i: int| 0 <= i < text.len() ==> is_digit(#[trigger] text[i])
}

/// Whether `text` is `0.` followed by one decimal digit or more: the way a
/// number from zero up to, but not including, one is written out in full.
pub open spec fn is_fraction_text(text: Seq<char>) -> bool {
    &&& text.len() >= 3
    &&& text[0] == '0'
    &&& text[1] == '.'
    &&& forall|i: int| 2 <= i < text.len() ==> is_digit(#[trigger] text[i])
}

/// Whether the first `upto` characters of `text` can begin a fraction text.
pub open spec fn begins_fraction(text: Seq<char>, upto: int) -> bool {
    &&& (0 < upto ==> text[0] == '0')
    &&& (1 < upto ==> text[1] == '.')
    &&& forall|i: int| 2 <= i < upto ==> is_digit(#[trigger] text[i])
}

/// The single-use number that goes into a signed request. It is made of
/// decimal digits only, so it can be told apart from what stands before it
/// in the header.
pub struct Nonce {
    digits: String,
}

impl View for Nonce {
    type V = Seq<char>;

    /// The digits of the nonce.
    closed spec fn view(&self) -> Seq<char> {
        self.digits@
    }
}

impl Nonce {
    #[verifier::type_invariant]
    spec fn well_formed(self) -> bool {
        is_nonce_text(self.digits@)
    }

    /// The nonce that a random fraction yields: the digits behind `0.`.
    /// `None` where `text` is not a fraction written out in full.
    pub fn from_fraction(text: &str) -> (r: Option<Nonce>)
        ensures
            r is Some <==> is_fraction_text(text@),
            r matches Some(nonce) ==> nonce@ == text@.skip(2) && is_nonce_text(nonce@),
    {
        let mut digits = String::new();
        let mut valid = true;
        let mut stage: u8 = 0;
        for c in it: text.chars()
            invariant
                it.seq() == text@,
                stage == (if it.index() < 2 {
                    it.index()
                } else {
                    2
                }),
                valid == begins_fraction(text@, it.index()),
                valid && it.index() >= 2 ==> digits@ == text@.subrange(2, it.index()),
                it.index() < 2 ==> digits@ == Seq::<char>::empty(),
        {
            if stage == 0 {
                valid = c == '0';
                stage = 1;
            } else if stage == 1 {
                valid = valid && c == '.';
                stage = 2;
            } else if valid && '0' <= c && c <= '9' {
                assert(text@.subrange(2, it.index() + 1) == text@.subrange(2, it.index()).push(c));
                digits.push(c);
            } else {
                valid = false;
            }
        }
        if valid && stage == 2 && digits.as_str().unicode_len() > 0 {
            assert(text@.subrange(2, text@.len() as int) == text@.skip(2));
            Some(Nonce { digits })
        } else {
            None
        }
    }

    /// The digits of the nonce.
    pub fn as_str(&self) -> (r: &str)
        ensures
            r@ == self@,
            is_nonce_text(r@),
    {
        proof {
            use_type_invariant(self);
        }
        self.digits.as_str()
    }
}

/// The text that is signed: the key, the method, the lower-cased
/// form-encoded address, the nonce and the Base64 of the body, one behind
/// the other with nothing in between.
pub open spec fn signing_payload(
    api_key: Seq<char>,
    method: Seq<char>,
    url: Seq<char>,
    nonce: Seq<char>,
    body: Seq<char>,
) -> Seq<char> {
    api_key + method + ascii_lowercase(form_urlencoded(encode_utf8(url))) + nonce + base64_text(
        encode_utf8(body),
    )
}

/// The signature of a payload: the Base64 of its HMAC-SHA512 code under the
/// decoded secret.
pub open spec fn signature_text(secret: Seq<u8>, payload: Seq<char>) -> Seq<char> {
    base64_text(hmac_sha512_code(secret, encode_utf8(payload)))
}

/// The value of the `Authorization` header: `Basic key:signature:nonce`.
pub open spec fn authorization_text(
    api_key: Seq<char>,
    signature: Seq<char>,
    nonce: Seq<char>,
) -> Seq<char> {
    "Basic "@ + api_key + seq![':'] + signature + seq![':'] + nonce
}

/// The key that a secret decodes to, where the secret is Base64 of a
/// length that can be handled.
pub open spec fn secret_key(api_secret: Seq<char>) -> Option<Seq<u8>> {
    if encode_utf8(api_secret).len() <= BASE64_INPUT_MAX {
        base64_bytes(encode_utf8(api_secret))
    } else {
        None
    }
}

/// The header value that signs a request, where there is one: the secret
/// must decode and the body must be of a length that can be handled.
pub open spec fn signed_header(
    api_key: Seq<char>,
    api_secret: Seq<char>,
    method: Seq<char>,
    url: Seq<char>,
    nonce: Seq<char>,
    body: Seq<char>,
) -> Option<Seq<char>> {
    if encode_utf8(body).len() <= BASE64_INPUT_MAX && secret_key(api_secret) is Some {
        Some(
            authorization_text(
                api_key,
                signature_text(
                    secret_key(api_secret)->0,
                    signing_payload(api_key, method, url, nonce, body),
                ),
                nonce,
            ),
        )
    } else {
        None
    }
}

/// Why a request cannot be signed: the secret does not decode, or else the
/// body is too long.
pub open spec fn unsigned_failure(api_secret: Seq<char>) -> Failure {
    Failure {
        error_type: ErrorType::ConfigurationError,
        message: if secret_key(api_secret) is None {
            "The API secret is not valid Base64"@
        } else {
            "The request body is too long to sign"@
        },
    }
}

/// Puts the parts of the signed text together.
pub fn payload(api_key: &str, method: &str, encoded_url: &str, nonce: &Nonce, encoded_body: &str)
    -> (r: String)
    ensures
        r@ == api_key@ + method@ + encoded_url@ + nonce@ + encoded_body@,
{
    let mut out = String::from_str(api_key);
    out.append(method);
    out.append(encoded_url);
    out.append(nonce.as_str());
    out.append(encoded_body);
    out
}

/// Puts the header value together from the key, a signature and the nonce.
pub fn authorization(api_key: &str, signature: &str, nonce: &Nonce) -> (r: String)
    ensures
        r@ == authorization_text(api_key@, signature@, nonce@),
{
    let mut out = String::from_str("Basic ");
    out.append(api_key);
    out.push(':');
    out.append(signature);
    out.push(':');
    out.append(nonce.as_str());
    out
}

/// Signs a request: returns the value of its `Authorization` header.
///
/// Fails with a `ConfigurationError`, before anything else is computed,
/// where the secret is not Base64, and where the secret or the body is
/// longer than the Base64 coder takes.
pub fn sign(
    api_key: &str,
    api_secret: &str,
    method: &str,
    url: &str,
    nonce: &Nonce,
    body: &str,
) -> (r: Result<String, Error>)
    ensures
        match r {
            Ok(header) => signed_header(api_key@, api_secret@, method@, url@, nonce@, body@)
                == Some(header@),
            Err(e) => {
                &&& signed_header(api_key@, api_secret@, method@, url@, nonce@, body@) is None
                &&& e@ == unsigned_failure(api_secret@)
            },
        },
{
    let secret_bytes = api_secret.as_bytes();
    if secret_bytes.len() > BASE64_INPUT_MAX {
        return Err(
            Error::new(ErrorType::ConfigurationError, "The API secret is not valid Base64"),
        );
    }
    let key = match base64_decode(secret_bytes) {
        Ok(key) => key,
        Err(_) => {
            return Err(
                Error::new(ErrorType::ConfigurationError, "The API secret is not valid Base64"),
            );
        },
    };
    let body_bytes = body.as_bytes();
    if body_bytes.len() > BASE64_INPUT_MAX {
        return Err(
            Error::new(ErrorType::ConfigurationError, "The request body is too long to sign"),
        );
    }
    let encoded_url = to_ascii_lowercase(form_urlencode(url.as_bytes()).as_str());
    let encoded_body = base64_encode(body_bytes);
    let text = payload(api_key, method, encoded_url.as_str(), nonce, encoded_body.as_str());
    let code = hmac_sha512(key.as_slice(), text.as_str().as_bytes());
    let signature = base64_encode(code.as_slice());
    Ok(authorization(api_key, signature.as_str(), nonce))
}

/// Signing is a function of what it is given: two runs of `sign` on the
/// same key, secret, method, address, nonce and body end the same way, with
/// the same header or with the same error.
pub proof fn lemma_sign_is_deterministic(
    api_key: &str,
    api_secret: &str,
    method: &str,
    url: &str,
    nonce: &Nonce,
    body: &str,
    first: Result<String, Error>,
    second: Result<String, Error>,
)
    requires
        call_ensures(sign, (api_key, api_secret, method, url, nonce, body), first),
        call_ensures(sign, (api_key, api_secret, method, url, nonce, body), second),
    ensures
        first is Ok <==> second is Ok,
        first is Ok ==> first->Ok_0@ == second->Ok_0@,
        first is Err ==> first->Err_0@ == second->Err_0@,
{
}

/// Two different nonces never give the same text to sign, where the key,
/// the method, the address and the body are the same.
pub proof fn lemma_distinct_nonces_give_distinct_payloads(
    api_key: Seq<char>,
    method: Seq<char>,
    url: Seq<char>,
    body: Seq<char>,
    first_nonce: Seq<char>,
    second_nonce: Seq<char>,
)
    requires
        first_nonce != second_nonce,
    ensures
        signing_payload(api_key, method, url, first_nonce, body) != signing_payload(
            api_key,
            method,
            url,
            second_nonce,
            body,
        ),
{
    let head = api_key + method + ascii_lowercase(form_urlencoded(encode_utf8(url)));
    let tail = base64_text(encode_utf8(body));
    let first = signing_payload(api_key, method, url, first_nonce, body);
    let second = signing_payload(api_key, method, url, second_nonce, body);
    assert(first == head + first_nonce + tail);
    assert(second == head + second_nonce + tail);
    if first == second {
        assert(first_nonce.len() == second_nonce.len()) by {
            assert(first.len() == head.len() + first_nonce.len() + tail.len());
            assert(second.len() == head.len() + second_nonce.len() + tail.len());
        }
        assert forall|i: int| 0 <= i < first_nonce.len() implies first_nonce[i]
            == second_nonce[i] by {
            assert(first[head.len() + i] == first_nonce[i]);
            assert(second[head.len() + i] == second_nonce[i]);
        }
        assert(first_nonce =~= second_nonce);
    }
}

/// Two different nonces never give the same header value, whatever the
/// key and whatever the two signatures are.
pub proof fn lemma_distinct_nonces_give_distinct_headers(
    api_key: Seq<char>,
    first_signature: Seq<char>,
    first_nonce: Seq<char>,
    second_signature: Seq<char>,
    second_nonce: Seq<char>,
)
    requires
        is_nonce_text(first_nonce),
        is_nonce_text(second_nonce),
        first_nonce != second_nonce,
    ensures
        authorization_text(api_key, first_signature, first_nonce) != authorization_text(
            api_key,
            second_signature,
            second_nonce,
        ),
{
    let first_head = "Basic "@ + api_key + seq![':'] + first_signature + seq![':'];
    let second_head = "Basic "@ + api_key + seq![':'] + second_signature + seq![':'];
    let first = authorization_text(api_key, first_signature, first_nonce);
    let second = authorization_text(api_key, second_signature, second_nonce);
    assert(first == first_head + first_nonce);
    assert(second == second_head + second_nonce);
    assert(first_head[first_head.len() - 1] == ':');
    assert(second_head[second_head.len() - 1] == ':');
    if first == second {
        if first_nonce.len() == second_nonce.len() {
            assert forall|i: int| 0 <= i < first_nonce.len() implies first_nonce[i]
                == second_nonce[i] by {
                assert(first[first_head.len() + i] == first_nonce[i]);
                assert(second[second_head.len() + i] == second_nonce[i]);
            }
            assert(first_nonce =~= second_nonce);
        } else if first_nonce.len() < second_nonce.len() {
            let at = first_head.len() - 1;
            assert(first[at] == ':');
            assert(second[at] == second_nonce[at - second_head.len()]);
            assert(is_digit(second_nonce[at - second_head.len()]));
        } else {
            let at = second_head.len() - 1;
            assert(second[at] == ':');
            assert(first[at] == first_nonce[at - first_head.len()]);
            assert(is_digit(first_nonce[at - first_head.len()]));
        }
    }
}

} // verus!
