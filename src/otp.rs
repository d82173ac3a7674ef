//! One-time codes: the shared secret is read from the first line of an entry, an
//! `otpauth://` URI, and turned into a time-based code.
use vstd::prelude::*;
use crate::entry::{Password, line_of};

verus! {

/// The decoded query pairs of `uri`, in order, or none when `uri` is not a URL.
pub uninterp spec fn query_pairs_of(uri: Seq<char>) -> Option<Seq<(Seq<char>, Seq<char>)>>;

/// The bytes that `s` encodes in unpadded RFC 4648 base32, if it is such an encoding.
pub uninterp spec fn base32_decoded(s: Seq<char>) -> Option<Seq<u8>>;

/// The six-digit SHA-1 TOTP code of `secret` at `time`, in seconds, with 30-second steps.
pub uninterp spec fn totp_of(secret: Seq<u8>, time: u64) -> Seq<char>;

/// Why no code could be made.
#[derive(Clone, Copy, Debug, PartialEq, Eq, Structural)]
pub enum OtpError {
    /// The entry has no first line.
    NoFirstLine,
    /// The first line is not a URL.
    InvalidUri,
    /// The URL has no `secret` parameter.
    NoSecret,
    /// The secret is not unpadded base32.
    InvalidSecret,
}

/// The contents of a list of string pairs.
pub open spec fn pairs_view(v: Seq<(String, String)>) -> Seq<(Seq<char>, Seq<char>)> {
    v.map_values(|p: (String, String)| (p.0@, p.1@))
}

/// The value of the first pair whose key is `key`.
pub open spec fn first_value_for(pairs: Seq<(Seq<char>, Seq<char>)>, key: Seq<char>) -> Option<Seq<char>>
    decreases pairs.len(),
{
    if pairs.len() == 0 {
        None
    } else if pairs[0].0 == key {
        Some(pairs[0].1)
    } else {
        first_value_for(pairs.drop_first(), key)
    }
}

/// The secret an entry holds: its first line read as a URI, the first `secret` parameter
/// decoded from base32.
pub open spec fn secret_of(first_line: Option<Seq<char>>) -> Result<Seq<u8>, OtpError> {
    match first_line {
        None => Err(OtpError::NoFirstLine),
        Some(l) => match query_pairs_of(l) {
            None => Err(OtpError::InvalidUri),
            Some(pairs) => match first_value_for(pairs, "secret"@) {
                None => Err(OtpError::NoSecret),
                Some(s) => match base32_decoded(s) {
                    None => Err(OtpError::InvalidSecret),
                    Some(b) => Ok(b),
                },
            },
        },
    }
}

/// Relies on `url::Url::parse` and `Url::query_pairs`: the percent-decoded query pairs of
/// `uri` in order, or none when it does not parse.
#[verifier::external_body]
fn url_query_pairs(uri: &str) -> (r: Option<Vec<(String, String)>>)
    ensures
        match r {
            Some(v) => query_pairs_of(uri@) == Some(pairs_view(v@)),
            None => query_pairs_of(uri@) is None,
        },
{
    let url = url::Url::parse(uri).ok()?;
    Some(url.query_pairs().map(|(k, v)| (k.into_owned(), v.into_owned())).collect())
}

/// Relies on `base32::decode` with the unpadded RFC 4648 alphabet.
#[verifier::external_body]
fn base32_decode(s: &str) -> (r: Option<Vec<u8>>)
    ensures
        match r {
            Some(v) => base32_decoded(s@) == Some(v@),
            None => base32_decoded(s@) is None,
        },
{
    base32::decode(base32::Alphabet::RFC4648 { padding: false }, s)
}

/// Relies on `totp_rs::TOTP::new_unchecked` (SHA-1, 6 digits, skew 1, 30-second step) and
/// `TOTP::generate`: the code of `secret` at `time`.
#[verifier::external_body]
fn totp_code(secret: &[u8], time: u64) -> (r: String)
    ensures
        r@ == totp_of(secret@, time),
{
    totp_rs::TOTP::new_unchecked(totp_rs::Algorithm::SHA1, 6, 1, 30, secret.to_vec()).generate(time)
}

/// Whether `a` is the word `secret`.
fn is_secret_key(a: &str) -> (r: bool)
    ensures
        r == (a@ == "secret"@),
{
    proof {
        reveal_strlit("secret");
    }
    crate::entry::same_text(a, "secret")
}

/// The value of the first `secret` parameter among `pairs`.
pub fn first_secret(pairs: &Vec<(String, String)>) -> (r: Option<String>)
    ensures
        match r {
            Some(s) => first_value_for(pairs_view(pairs@), "secret"@) == Some(s@),
            None => first_value_for(pairs_view(pairs@), "secret"@) is None,
        },
{
    let mut i: usize = 0;
    assert(pairs_view(pairs@).skip(0) =~= pairs_view(pairs@));
    while i < pairs.len()
        invariant
            i <= pairs@.len(),
            first_value_for(pairs_view(pairs@), "secret"@) == first_value_for(
                pairs_view(pairs@).skip(i as int),
                "secret"@,
            ),
        decreases pairs@.len() - i,
    {
        let ghost rest = pairs_view(pairs@).skip(i as int);
        assert(rest[0] == (pairs@[i as int].0@, pairs@[i as int].1@));
        assert(rest.drop_first() =~= pairs_view(pairs@).skip(i + 1));
        if is_secret_key(pairs[i].0.as_str()) {
            return Some(pairs[i].1.clone());
        }
        i = i + 1;
    }
    assert(pairs_view(pairs@).skip(i as int) =~= Seq::<(Seq<char>, Seq<char>)>::empty());
    None
}

/// The shared secret held by the entry's first line.
pub fn extract_secret_key(password: &Password) -> (r: Result<Vec<u8>, OtpError>)
    ensures
        match r {
            Ok(b) => secret_of(line_of(password.content(), 1)) == Ok::<Seq<u8>, OtpError>(b@),
            Err(e) => secret_of(line_of(password.content(), 1)) == Err::<Seq<u8>, OtpError>(e),
        },
{
    let contents = match password.line(1) {
        Some(l) => l,
        None => return Err(OtpError::NoFirstLine),
    };
    let pairs = match url_query_pairs(contents) {
        Some(p) => p,
        None => return Err(OtpError::InvalidUri),
    };
    let secret = match first_secret(&pairs) {
        Some(s) => s,
        None => return Err(OtpError::NoSecret),
    };
    match base32_decode(secret.as_str()) {
        Some(b) => Ok(b),
        None => Err(OtpError::InvalidSecret),
    }
}

/// The code of `secret_key` at `time`, in seconds since the Unix epoch.
pub fn generate_otp_token(secret_key: &[u8], time: u64) -> (r: String)
    ensures
        r@ == totp_of(secret_key@, time),
{
    totp_code(secret_key, time)
}

} // verus!
