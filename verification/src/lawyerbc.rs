//! Lookups in the Ministry of Justice lawyer registry: the request URLs and
//! the interpretation of its answers.

use vstd::prelude::*;
use vstd::string::StringSliceAdditionalSpecFns;

use crate::error::{Error, ErrorCode, logic_error};

verus! {

/// The bytes that percent-encoding leaves as they are: ASCII letters and
/// digits, `-`, `.`, `_` and `~`.
pub open spec fn is_unreserved(b: u8) -> bool {
    ||| 48 <= b <= 57
    ||| 65 <= b <= 90
    ||| 97 <= b <= 122
    ||| b == 45 || b == 46 || b == 95 || b == 126
}

/// The upper-case hexadecimal digit of `d`, for `d < 16`.
pub open spec fn hex_upper(d: u8) -> char {
    if d < 10 { (48 + d) as char } else { (55 + d) as char }
}

/// One byte, percent-encoded: itself when unreserved, else `%` and its two
/// upper-case hexadecimal digits.
pub open spec fn percent_encode_byte(b: u8) -> Seq<char> {
    if is_unreserved(b) {
        seq![b as char]
    } else {
        seq!['%', hex_upper(b / 16), hex_upper(b % 16)]
    }
}

/// The percent-encoding of a byte string, byte by byte.
pub open spec fn url_encoded(bytes: Seq<u8>) -> Seq<char>
    decreases bytes.len(),
{
    if bytes.len() == 0 {
        Seq::empty()
    } else {
        url_encoded(bytes.drop_last()) + percent_encode_byte(bytes.last())
    }
}

/// Calls `urlencoding::encode`, which percent-encodes the UTF-8 bytes of
/// `s`, every byte but ASCII alphanumerics and `-`, `_`, `.`, `~`, with
/// upper-case hexadecimal digits. Trusted to return that encoding.
#[verifier::external_body]
fn url_encode(s: &str) -> (r: String)
    ensures
        r@ == url_encoded(s.spec_bytes()),
{
    urlencoding::encode(s).into_owned()
}

/// The registry's search endpoint.
pub open spec fn search_url_spec() -> Seq<char> {
    "https://lawyerbc.moj.gov.tw/api/cert/search"@
}

/// The prefix of the registry's certificate detail endpoint.
pub open spec fn info_url_prefix() -> Seq<char> {
    "https://lawyerbc.moj.gov.tw/api/cert/info/"@
}

/// The URL of the registry's search endpoint.
pub fn search_url() -> (r: String)
    ensures
        r@ == search_url_spec(),
{
    String::from_str("https://lawyerbc.moj.gov.tw/api/cert/search")
}

/// The URL that asks the registry for the certificate `license_id`: the
/// detail endpoint followed by the percent-encoded licence number.
pub fn detail_url(license_id: &str) -> (r: String)
    ensures
        r@ == info_url_prefix() + url_encoded(license_id.spec_bytes()),
{
    let mut url = String::from_str("https://lawyerbc.moj.gov.tw/api/cert/info/");
    let encoded = url_encode(license_id);
    url.append(encoded.as_str());
    url
}

/// The characters that may stand in a percent-encoded string.
pub open spec fn is_url_safe_char(c: char) -> bool {
    ||| is_unreserved(c as u8) && (c as u32) < 128
    ||| c == '%'
}

/// Every character of a percent-encoding is an unreserved ASCII character or `%`.
pub proof fn lemma_url_encoded_is_url_safe(bytes: Seq<u8>)
    ensures
        forall|i: int| 0 <= i < url_encoded(bytes).len() ==> is_url_safe_char(#[trigger] url_encoded(bytes)[i]),
    decreases bytes.len(),
{
    if bytes.len() > 0 {
        lemma_url_encoded_is_url_safe(bytes.drop_last());
        let b = bytes.last();
        let pre = url_encoded(bytes.drop_last());
        let enc = percent_encode_byte(b);
        assert forall|i: int| 0 <= i < url_encoded(bytes).len() implies is_url_safe_char(
            #[trigger] url_encoded(bytes)[i],
        ) by {
            if i >= pre.len() {
                let j = i - pre.len();
                assert(url_encoded(bytes)[i] == enc[j]);
                if !is_unreserved(b) && j > 0 {
                    let d: u8 = if j == 1 { b / 16 } else { b % 16 };
                    assert(d < 16);
                    assert(enc[j] == hex_upper(d));
                }
            }
        }
    }
}

/// Interprets the status of a search answer: a failure status refuses the search.
pub fn search_status_verdict(success: bool) -> (r: Result<(), Error>)
    ensures
        r is Ok <==> success,
        !success ==> r == Err::<(), Error>(logic_error(ErrorCode::SearchingLawyerbcFail)),
{
    if success {
        Ok(())
    } else {
        Err(Error::from_code(ErrorCode::SearchingLawyerbcFail))
    }
}

/// Interprets the body of a successful search answer: the lawyers it lists,
/// or `ParsingJson` when it could not be read.
pub fn search_results<T>(parsed: Option<Vec<T>>) -> (r: Result<Vec<T>, Error>)
    ensures
        parsed matches Some(v) ==> r == Ok::<Vec<T>, Error>(v),
        parsed is None ==> r == Err::<Vec<T>, Error>(logic_error(ErrorCode::ParsingJson)),
{
    match parsed {
        Some(v) => Ok(v),
        None => Err(Error::from_code(ErrorCode::ParsingJson)),
    }
}

/// Interprets the body of a detail answer: its first record, or
/// `ParsingJson` when it could not be read. An answer that could be read
/// must hold at least one record.
pub fn detail_result<T>(parsed: Option<Vec<T>>) -> (r: Result<T, Error>)
    requires
        parsed matches Some(v) ==> v.len() > 0,
    ensures
        parsed matches Some(v) ==> r == Ok::<T, Error>(v[0]),
        parsed is None ==> r == Err::<T, Error>(logic_error(ErrorCode::ParsingJson)),
{
    match parsed {
        Some(v) => {
            let mut v = v;
            Ok(v.remove(0))
        },
        None => Err(Error::from_code(ErrorCode::ParsingJson)),
    }
}

} // verus!
