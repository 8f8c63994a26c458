use vstd::prelude::*;
use vstd::slice::slice_subrange;
use vstd::string::{StringExecFns, StringSliceAdditionalSpecFns};
use base64::Engine;

verus! {

/// The standard, padded base64 text of a byte string.
pub uninterp spec fn base64_text(bytes: Seq<u8>) -> Seq<char>;

/// The bytes that a standard, padded base64 text stands for; `None` where it
/// is not such a text.
pub uninterp spec fn base64_bytes(text: Seq<u8>) -> Option<Seq<u8>>;

/// base64's `DecodeError`, carried through unread.
#[verifier::external_type_specification]
#[verifier::external_body]
pub struct ExDecodeError(base64::DecodeError);

/// Whether a byte string is short enough for its base64 text to have a
/// length that fits the machine.
pub open spec fn encodable(len: nat) -> bool {
    (len / 3) * 4 + 4 <= usize::MAX
}

/// `Engine::encode` of base64's `STANDARD` engine. The claim: the text it
/// returns depends on the bytes alone. It is left out where the length of
/// the text would not fit in `usize`, where the engine panics.
#[verifier::external_body]
pub(crate) fn encode_payload(bytes: &[u8]) -> (text: String)
    requires
        encodable(bytes@.len()),
    ensures
        text@ == base64_text(bytes@),
{
    base64::engine::general_purpose::STANDARD.encode(bytes)
}

/// `Engine::decode` of base64's `STANDARD` engine. The claim: whether it
/// succeeds, and with which bytes, depends on the text alone.
#[verifier::external_body]
pub(crate) fn decode_payload(text: &[u8]) -> (decoded: Result<Vec<u8>, base64::DecodeError>)
    ensures
        match decoded {
            Ok(bytes) => base64_bytes(text@) == Some(bytes@),
            Err(_) => base64_bytes(text@) is None,
        },
{
    base64::engine::general_purpose::STANDARD.decode(text)
}

/// Where the bytes of an image come from, as its address tells.
#[derive(Debug, Clone, Copy, PartialEq, Eq, Structural)]
pub enum SourceKind {
    /// The address holds the bytes itself, in base64.
    DataUrl,
    /// The address is fetched over the network.
    Remote,
    /// The address is a path in the local file system.
    LocalPath,
}

/// The bytes of `data:`.
pub open spec fn data_prefix() -> Seq<u8> {
    seq![0x64u8, 0x61u8, 0x74u8, 0x61u8, 0x3au8]
}

/// The bytes of `http://`.
pub open spec fn http_prefix() -> Seq<u8> {
    seq![0x68u8, 0x74u8, 0x74u8, 0x70u8, 0x3au8, 0x2fu8, 0x2fu8]
}

/// The bytes of `https://`.
pub open spec fn https_prefix() -> Seq<u8> {
    seq![0x68u8, 0x74u8, 0x74u8, 0x70u8, 0x73u8, 0x3au8, 0x2fu8, 0x2fu8]
}

pub open spec fn starts_with(bytes: Seq<u8>, prefix: Seq<u8>) -> bool {
    bytes.len() >= prefix.len() && bytes.subrange(0, prefix.len() as int) == prefix
}

/// An address that starts with `data:` holds its bytes; one that starts with
/// `http://` or `https://` is remote; any other is a local path, also one
/// that merely starts with the letters `http`.
pub open spec fn source_kind(url: Seq<u8>) -> SourceKind {
    if starts_with(url, data_prefix()) {
        SourceKind::DataUrl
    } else if starts_with(url, http_prefix()) || starts_with(url, https_prefix()) {
        SourceKind::Remote
    } else {
        SourceKind::LocalPath
    }
}

/// Tells whether `bytes` starts with `prefix`.
pub fn has_prefix(bytes: &[u8], prefix: &Vec<u8>) -> (yes: bool)
    ensures
        yes == starts_with(bytes@, prefix@),
{
    if bytes.len() < prefix.len() {
        return false;
    }
    let mut i: usize = 0;
    while i < prefix.len()
        invariant
            i <= prefix@.len() <= bytes@.len(),
            forall|k: int| 0 <= k < i ==> bytes@[k] == prefix@[k],
        decreases prefix@.len() - i,
    {
        if bytes[i] != prefix[i] {
            assert(bytes@.subrange(0, prefix@.len() as int)[i as int] != prefix@[i as int]);
            return false;
        }
        i += 1;
    }
    assert(bytes@.subrange(0, prefix@.len() as int) =~= prefix@);
    true
}

/// Tells where the bytes of an image come from. The address is read as its
/// UTF-8 bytes.
pub fn classify_source(url: &str) -> (kind: SourceKind)
    ensures
        kind == source_kind(url.spec_bytes()),
{
    let bytes = url.as_bytes();
    let data: Vec<u8> = vec![0x64u8, 0x61u8, 0x74u8, 0x61u8, 0x3au8];
    let http: Vec<u8> = vec![0x68u8, 0x74u8, 0x74u8, 0x70u8, 0x3au8, 0x2fu8, 0x2fu8];
    let https: Vec<u8> = vec![0x68u8, 0x74u8, 0x74u8, 0x70u8, 0x73u8, 0x3au8, 0x2fu8, 0x2fu8];
    assert(data@ =~= data_prefix());
    assert(http@ =~= http_prefix());
    assert(https@ =~= https_prefix());
    if has_prefix(bytes, &data) {
        SourceKind::DataUrl
    } else if has_prefix(bytes, &http) || has_prefix(bytes, &https) {
        SourceKind::Remote
    } else {
        SourceKind::LocalPath
    }
}

/// The byte of a comma.
pub const COMMA: u8 = 0x2c;

/// `at` is where the first comma of `bytes` stands.
pub open spec fn is_first_comma(bytes: Seq<u8>, at: int) -> bool {
    &&& 0 <= at < bytes.len()
    &&& bytes[at] == COMMA
    &&& forall|j: int| 0 <= j < at ==> bytes[j] != COMMA
}

pub open spec fn has_comma(bytes: Seq<u8>) -> bool {
    exists|at: int| 0 <= at < bytes.len() && bytes[at] == COMMA
}

/// Where the first comma of `bytes` stands, where there is one.
pub open spec fn first_comma_of(bytes: Seq<u8>) -> int {
    choose|at: int| is_first_comma(bytes, at)
}

/// Finds the first comma.
pub fn find_comma(bytes: &[u8]) -> (found: Option<usize>)
    ensures
        match found {
            Some(at) => is_first_comma(bytes@, at as int) && first_comma_of(bytes@) == at,
            None => !has_comma(bytes@),
        },
{
    let n = bytes.len();
    let mut at: usize = 0;
    while at < n && bytes[at] != COMMA
        invariant
            at <= n,
            n == bytes@.len(),
            forall|j: int| 0 <= j < at ==> bytes@[j] != COMMA,
        decreases n - at,
    {
        at += 1;
    }
    if at == n {
        None
    } else {
        assert(is_first_comma(bytes@, at as int));
        let ghost chosen = first_comma_of(bytes@);
        assert(is_first_comma(bytes@, chosen));
        assert(chosen == at) by {
            if chosen < at {
                assert(bytes@[chosen] != COMMA);
            } else if chosen > at {
                assert(bytes@[at as int] == COMMA);
            }
        }
        Some(at)
    }
}

/// What a message of a base64 fault starts with.
pub open spec fn base64_fault_prefix() -> Seq<char> {
    "Failed to decode base64: "@
}

/// Reads the bytes that a data URL holds: what follows its first comma,
/// decoded from base64. A data URL without a comma is refused, and so is
/// one whose payload is not base64.
pub fn decode_data_url(url: &str) -> (bytes: Result<Vec<u8>, String>)
    ensures
        !has_comma(url.spec_bytes()) ==> bytes is Err && bytes->Err_0@
            == "Invalid data URL format"@,
        has_comma(url.spec_bytes()) ==> match base64_bytes(
            url.spec_bytes().subrange(
                first_comma_of(url.spec_bytes()) + 1,
                url.spec_bytes().len() as int,
            ),
        ) {
            Some(payload) => bytes is Ok && bytes->Ok_0@ == payload,
            None => bytes is Err && starts_with_text(bytes->Err_0@, base64_fault_prefix()),
        },
{
    let text = url.as_bytes();
    match find_comma(text) {
        None => Err(String::from_str("Invalid data URL format")),
        Some(at) => {
            assert(has_comma(text@));
            let n = text.len();
            let payload = slice_subrange(text, at + 1, n);
            match decode_payload(payload) {
                Ok(decoded) => Ok(decoded),
                Err(e) => {
                    let mut message = String::from_str("Failed to decode base64: ");
                    let detail = e.to_string();
                    message.append(detail.as_str());
                    assert(message@.subrange(0, base64_fault_prefix().len() as int)
                        =~= base64_fault_prefix());
                    Err(message)
                },
            }
        },
    }
}

pub open spec fn starts_with_text(text: Seq<char>, prefix: Seq<char>) -> bool {
    text.len() >= prefix.len() && text.subrange(0, prefix.len() as int) == prefix
}

/// What every PNG data URL starts with.
pub open spec fn png_url_prefix() -> Seq<char> {
    "data:image/png;base64,"@
}

/// Wraps an encoded PNG as a data URL: the scheme marker, then the bytes in
/// base64. `encoded` is what the PNG encoder gave for a surface, `None`
/// where it refused the surface.
pub fn surface_to_data_url(encoded: Option<&[u8]>) -> (url: Result<String, String>)
    requires
        encoded is Some ==> encodable(encoded->0@.len()),
    ensures
        match encoded {
            Some(png) => url is Ok && url->Ok_0@ == png_url_prefix() + base64_text(png@),
            None => url is Err && url->Err_0@ == "Failed to encode image to PNG"@,
        },
{
    match encoded {
        Some(png) => {
            let mut url = String::from_str("data:image/png;base64,");
            let payload = encode_payload(png);
            url.append(payload.as_str());
            Ok(url)
        },
        None => Err(String::from_str("Failed to encode image to PNG")),
    }
}

/// Tells whether a byte string can be wrapped as a data URL on this machine.
pub fn can_encode(len: usize) -> (yes: bool)
    ensures
        yes == encodable(len as nat),
{
    len / 3 <= (usize::MAX - 4) / 4
}

} // verus!
