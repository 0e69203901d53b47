//! Content protection: the key signaled by the first segment, the IV checks,
//! and the decoding of segment bodies.

use vstd::prelude::*;
use block_modes::BlockMode;
use crate::error::FetchError;
use crate::playlist::{Segment, SegmentView, segments_view};
use crate::urls::{key_url, key_url_spec, opt_str_view};

verus! {

/// Whether `c` is a hexadecimal digit (either case).
pub open spec fn is_hex_digit(c: char) -> bool {
    ('0' <= c <= '9') || ('a' <= c <= 'f') || ('A' <= c <= 'F')
}

/// The value of the hexadecimal digit `c`.
pub open spec fn hex_value(c: char) -> int {
    if '0' <= c <= '9' {
        c as int - '0' as int
    } else if 'a' <= c <= 'f' {
        c as int - 'a' as int + 10
    } else {
        c as int - 'A' as int + 10
    }
}

/// Whether `s` is an even number of hexadecimal digits.
pub open spec fn is_hex(s: Seq<char>) -> bool {
    s.len() % 2 == 0 && forall|i: int| 0 <= i < s.len() ==> is_hex_digit(#[trigger] s[i])
}

/// The bytes written as pairs of hexadecimal digits in `s`, high digit first.
pub open spec fn hex_bytes(s: Seq<char>) -> Seq<u8> {
    Seq::new(s.len() / 2, |i: int| (hex_value(s[2 * i]) * 16 + hex_value(s[2 * i + 1])) as u8)
}

/// Relies on `hex::decode`: pairs of hexadecimal digits of either case, and an
/// error on an odd length or any other character.
#[verifier::external_body]
fn decode_hex(s: &str) -> (r: Option<Vec<u8>>)
    ensures
        r is Some <==> is_hex(s@),
        r matches Some(b) ==> b@ == hex_bytes(s@),
{
    hex::decode(s).ok()
}

/// The bytes that AES-128 in CBC mode with PKCS#7 padding decrypts from `data`
/// under `key` and `iv`, if the decryption and the padding succeed.
pub uninterp spec fn aes_cbc_decrypted(key: Seq<u8>, iv: Seq<u8>, data: Seq<u8>) -> Option<Seq<u8>>;

/// Relies on `block_modes::Cbc::<aes::Aes128, Pkcs7>::new_from_slices`, which
/// fails unless key and IV have sixteen bytes, and on `decrypt_vec`, which
/// fails on a body that is empty or not made of whole blocks, and removes at
/// least one byte of padding.
#[verifier::external_body]
fn aes_cbc_decrypt(key: &[u8], iv: &[u8], data: &[u8]) -> (r: Option<Vec<u8>>)
    ensures
        match r {
            Some(p) => aes_cbc_decrypted(key@, iv@, data@) == Some(p@),
            None => aes_cbc_decrypted(key@, iv@, data@) is None,
        },
        r is Some ==> key@.len() == 16 && iv@.len() == 16,
        r is Some ==> data@.len() > 0 && data@.len() % 16 == 0,
        r matches Some(p) ==> p@.len() < data@.len(),
{
    block_modes::Cbc::<aes::Aes128, block_modes::block_padding::Pkcs7>::new_from_slices(key, iv)
        .ok()
        .and_then(|c| c.decrypt_vec(data).ok())
}

/// The key material of an encrypted stream.
#[derive(Debug, Clone)]
pub struct DecryptionKey {
    pub key: Vec<u8>,
    pub iv: Vec<u8>,
}

impl DecryptionKey {
    pub open spec fn wf(&self) -> bool {
        self.iv@.len() == 16
    }
}

/// The key to fetch before any segment: where it is, and the IV signaled
/// with it.
#[derive(Debug, Clone)]
pub struct KeyRequest {
    pub url: String,
    pub iv: Option<String>,
}

/// What the first segment of `segs` asks for, with references resolved
/// against `base`.
pub open spec fn key_plan_spec(segs: Seq<SegmentView>, base: Option<Seq<char>>) -> Result<
    Option<(Seq<char>, Option<Seq<char>>)>,
    FetchError,
> {
    if segs.len() == 0 {
        Err(FetchError::EmptyPlaylist)
    } else {
        match segs[0].key {
            None => Ok(None),
            Some(k) => match k.uri {
                None => Err(FetchError::MissingKeyUri),
                Some(u) => match key_url_spec(base, u) {
                    None => Err(FetchError::InvalidUrl),
                    Some(url) => Ok(Some((url, k.iv))),
                },
            },
        }
    }
}

pub open spec fn key_request_view(r: Option<KeyRequest>) -> Option<(Seq<char>, Option<Seq<char>>)> {
    match r {
        Some(k) => Some((k.url@, crate::urls::opt_view(k.iv))),
        None => None,
    }
}

/// The key that the stream of `segments` needs, decided by its first segment
/// alone; `None` when that segment is not encrypted.
pub fn plan_key(segments: &Vec<Segment>, base: Option<&str>) -> (r: Result<
    Option<KeyRequest>,
    FetchError,
>)
    ensures
        match key_plan_spec(segments_view(segments@), opt_str_view(base)) {
            Ok(p) => r matches Ok(k) && key_request_view(k) == p,
            Err(e) => r == Err::<Option<KeyRequest>, FetchError>(e),
        },
{
    if segments.len() == 0 {
        return Err(FetchError::EmptyPlaylist);
    }
    let first = &segments[0];
    assert(segments_view(segments@)[0] == first@);
    match &first.key {
        None => Ok(None),
        Some(k) => match &k.uri {
            None => Err(FetchError::MissingKeyUri),
            Some(u) => {
                let url = key_url(base, u.as_str())?;
                Ok(Some(KeyRequest { url, iv: k.iv.clone() }))
            },
        },
    }
}

/// `s` without its leading `0x` prefixes.
pub open spec fn strip_hex_prefix(s: Seq<char>) -> Seq<char>
    decreases s.len(),
{
    if s.len() >= 2 && s[0] == '0' && s[1] == 'x' {
        strip_hex_prefix(s.subrange(2, s.len() as int))
    } else {
        s
    }
}

/// The key resolved from the fetched `key` bytes and the signaled `iv`.
pub open spec fn key_spec(key: Seq<u8>, iv: Option<Seq<char>>) -> Result<(Seq<u8>, Seq<u8>), FetchError> {
    match iv {
        None => Err(FetchError::MissingIv),
        Some(text) => {
            let digits = strip_hex_prefix(text);
            if !is_hex(digits) {
                Err(FetchError::IvDecode)
            } else if hex_bytes(digits).len() != 16 {
                Err(FetchError::IvLength)
            } else {
                Ok((key, hex_bytes(digits)))
            }
        },
    }
}

fn strip_prefix_0x(s: &str) -> (r: &str)
    ensures
        r@ == strip_hex_prefix(s@),
{
    let mut rest = s;
    let mut n = rest.unicode_len();
    while n >= 2 && rest.get_char(0) == '0' && rest.get_char(1) == 'x'
        invariant
            n == rest@.len(),
            strip_hex_prefix(rest@) == strip_hex_prefix(s@),
        decreases n,
    {
        rest = rest.substring_char(2, n);
        n = n - 2;
    }
    rest
}

/// Complete the key of a stream from the fetched key bytes and the IV text
/// that the playlist signaled.
pub fn finish_key(key: Vec<u8>, iv: Option<&str>) -> (r: Result<DecryptionKey, FetchError>)
    ensures
        match key_spec(key@, opt_str_view(iv)) {
            Ok((k, v)) => r matches Ok(d) && d.key@ == k && d.iv@ == v && d.wf(),
            Err(e) => r == Err::<DecryptionKey, FetchError>(e),
        },
{
    let text = match iv {
        None => return Err(FetchError::MissingIv),
        Some(t) => t,
    };
    let digits = strip_prefix_0x(text);
    let bytes = match decode_hex(digits) {
        None => return Err(FetchError::IvDecode),
        Some(b) => b,
    };
    if bytes.len() != 16 {
        return Err(FetchError::IvLength);
    }
    Ok(DecryptionKey { key, iv: bytes })
}

/// The payload of a segment whose fetched body is `body`.
pub open spec fn payload_spec(body: Seq<u8>, key: Option<(Seq<u8>, Seq<u8>)>) -> Result<Seq<u8>, FetchError> {
    match key {
        None => Ok(body),
        Some((k, iv)) => match aes_cbc_decrypted(k, iv, body) {
            Some(p) => Ok(p),
            None => Err(FetchError::Decryption),
        },
    }
}

pub open spec fn key_view(key: Option<&DecryptionKey>) -> Option<(Seq<u8>, Seq<u8>)> {
    match key {
        Some(k) => Some((k.key@, k.iv@)),
        None => None,
    }
}

/// The payload of a segment: its body as fetched when the stream is not
/// encrypted, and its decryption under `key` otherwise.
pub fn decode_segment(body: Vec<u8>, key: Option<&DecryptionKey>) -> (r: Result<Vec<u8>, FetchError>)
    ensures
        match payload_spec(body@, key_view(key)) {
            Ok(p) => r matches Ok(v) && v@ == p,
            Err(e) => r == Err::<Vec<u8>, FetchError>(e),
        },
        key matches Some(k) && (body@.len() == 0 || body@.len() % 16 != 0 || k.key@.len() != 16
            || k.iv@.len() != 16) ==> r == Err::<Vec<u8>, FetchError>(FetchError::Decryption),
{
    match key {
        None => Ok(body),
        Some(k) => match aes_cbc_decrypt(k.key.as_slice(), k.iv.as_slice(), body.as_slice()) {
            Some(p) => Ok(p),
            None => Err(FetchError::Decryption),
        },
    }
}

} // verus!
