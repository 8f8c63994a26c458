use vstd::prelude::*;
use vstd::slice::slice_subrange;
use vstd::string::{StringExecFns, StringSliceAdditionalSpecFns};
use vstd::utf8::encode_utf8;
use crate::data_url::{
    base64_bytes, base64_fault_prefix, base64_text, data_prefix, decode_payload, encodable,
    encode_payload, first_comma_of, has_comma, has_prefix, starts_with, starts_with_text,
};
use crate::strings::{chars_of, same_letter};

verus! {

/// What a check of a remote service found.
#[derive(Debug, Clone)]
pub struct ApiCheckResult {
    pub available: bool,
    pub message: String,
}

/// Two texts are the same when ASCII case is set aside; the second is in
/// lower case.
pub open spec fn same_word(text: Seq<char>, lower: Seq<char>) -> bool {
    &&& text.len() == lower.len()
    &&& forall|i: int| 0 <= i < text.len() ==> same_letter(#[trigger] text[i], lower[i])
}

fn is_word(text: &Vec<char>, lower: &Vec<char>) -> (same: bool)
    ensures
        same == same_word(text@, lower@),
{
    if text.len() != lower.len() {
        return false;
    }
    let mut i: usize = 0;
    while i < text.len()
        invariant
            i <= text@.len(),
            text@.len() == lower@.len(),
            forall|k: int| 0 <= k < i ==> same_letter(#[trigger] text@[k], lower@[k]),
        decreases text@.len() - i,
    {
        let c = text[i];
        let l = lower[i];
        let same = c == l || (c >= 'A' && c <= 'Z' && (c as u32) + 32 == (l as u32));
        if !same {
            assert(!same_letter(text@[i as int], lower@[i as int]));
            return false;
        }
        i += 1;
    }
    true
}

/// The media type that goes with a file extension, ASCII case set aside:
/// PNG, JPEG, GIF, WebP and BMP have their own; any other extension, and
/// none at all, counts as PNG.
pub open spec fn media_type(extension: Option<Seq<char>>) -> Seq<char> {
    match extension {
        Some(ext) => if same_word(ext, seq!['j', 'p', 'g']) || same_word(
            ext,
            seq!['j', 'p', 'e', 'g'],
        ) {
            "image/jpeg"@
        } else if same_word(ext, seq!['g', 'i', 'f']) {
            "image/gif"@
        } else if same_word(ext, seq!['w', 'e', 'b', 'p']) {
            "image/webp"@
        } else if same_word(ext, seq!['b', 'm', 'p']) {
            "image/bmp"@
        } else {
            "image/png"@
        },
        None => "image/png"@,
    }
}

/// The media type that goes with a file extension.
pub fn mime_type_for(extension: Option<&str>) -> (mime: &'static str)
    ensures
        mime@ == media_type(
            match extension {
                Some(ext) => Some(ext@),
                None => None,
            },
        ),
{
    match extension {
        Some(ext) => {
            let chars = chars_of(ext);
            let jpg: Vec<char> = vec!['j', 'p', 'g'];
            let jpeg: Vec<char> = vec!['j', 'p', 'e', 'g'];
            let gif: Vec<char> = vec!['g', 'i', 'f'];
            let webp: Vec<char> = vec!['w', 'e', 'b', 'p'];
            let bmp: Vec<char> = vec!['b', 'm', 'p'];
            assert(jpg@ =~= seq!['j', 'p', 'g']);
            assert(jpeg@ =~= seq!['j', 'p', 'e', 'g']);
            assert(gif@ =~= seq!['g', 'i', 'f']);
            assert(webp@ =~= seq!['w', 'e', 'b', 'p']);
            assert(bmp@ =~= seq!['b', 'm', 'p']);
            if is_word(&chars, &jpg) || is_word(&chars, &jpeg) {
                "image/jpeg"
            } else if is_word(&chars, &gif) {
                "image/gif"
            } else if is_word(&chars, &webp) {
                "image/webp"
            } else if is_word(&chars, &bmp) {
                "image/bmp"
            } else {
                "image/png"
            }
        },
        None => "image/png",
    }
}

/// Wraps the bytes of a file as a data URL of a media type.
pub fn file_data_url(mime: &str, bytes: &[u8]) -> (url: String)
    requires
        encodable(bytes@.len()),
    ensures
        url@ == "data:"@ + mime@ + ";base64,"@ + base64_text(bytes@),
{
    let mut url = String::from_str("data:");
    url.append(mime);
    url.append(";base64,");
    let payload = encode_payload(bytes);
    url.append(payload.as_str());
    url
}

/// The base64 text of what is to be saved: what follows the first comma of
/// a data URL, and the whole of any other text. `None` for a data URL
/// without a comma.
pub open spec fn saved_text(data: Seq<u8>) -> Option<Seq<u8>> {
    if starts_with(data, data_prefix()) {
        if has_comma(data) {
            Some(data.subrange(first_comma_of(data) + 1, data.len() as int))
        } else {
            None
        }
    } else {
        Some(data)
    }
}

/// Reads the bytes that are to be saved from their base64 text or data URL.
pub fn saved_bytes(data_base64: &str) -> (bytes: Result<Vec<u8>, String>)
    ensures
        match saved_text(data_base64.spec_bytes()) {
            None => bytes is Err && bytes->Err_0@ == "Invalid data URL"@,
            Some(text) => match base64_bytes(text) {
                Some(payload) => bytes is Ok && bytes->Ok_0@ == payload,
                None => bytes is Err && starts_with_text(bytes->Err_0@, base64_fault_prefix()),
            },
        },
{
    let data = data_base64.as_bytes();
    let marker: Vec<u8> = vec![0x64u8, 0x61u8, 0x74u8, 0x61u8, 0x3au8];
    assert(marker@ =~= data_prefix());
    let text = if has_prefix(data, &marker) {
        match crate::data_url::find_comma(data) {
            Some(at) => {
                let n = data.len();
                slice_subrange(data, at + 1, n)
            },
            None => {
                return Err(String::from_str("Invalid data URL"));
            },
        }
    } else {
        assert(data@.subrange(0, data@.len() as int) =~= data@);
        data
    };
    match decode_payload(text) {
        Ok(decoded) => Ok(decoded),
        Err(e) => {
            let mut message = String::from_str("Failed to decode base64: ");
            let detail = e.to_string();
            message.append(detail.as_str());
            assert(message@.subrange(0, base64_fault_prefix().len() as int) =~= base64_fault_prefix());
            Err(message)
        },
    }
}

/// White space, as Unicode defines it.
pub open spec fn is_space(c: char) -> bool {
    ||| '\u{9}' <= c <= '\u{d}'
    ||| c == ' '
    ||| c == '\u{85}'
    ||| c == '\u{a0}'
    ||| c == '\u{1680}'
    ||| '\u{2000}' <= c <= '\u{200a}'
    ||| c == '\u{2028}'
    ||| c == '\u{2029}'
    ||| c == '\u{202f}'
    ||| c == '\u{205f}'
    ||| c == '\u{3000}'
}

/// The character of the standard alphabet that stands for a character of
/// the URL-safe one.
pub open spec fn standard_symbol(c: char) -> char {
    if c == '-' {
        '+'
    } else if c == '_' {
        '/'
    } else {
        c
    }
}

/// A text without its white space and with the two URL-safe symbols turned
/// into the standard ones.
pub open spec fn tidied(text: Seq<char>) -> Seq<char>
    decreases text.len(),
{
    if text.len() == 0 {
        Seq::empty()
    } else if is_space(text.last()) {
        tidied(text.drop_last())
    } else {
        tidied(text.drop_last()).push(standard_symbol(text.last()))
    }
}

/// `n` padding characters.
pub open spec fn padding(n: nat) -> Seq<char> {
    Seq::new(n, |i: int| '=')
}

/// A text filled up with `=` until its length in bytes is a multiple of
/// four.
pub open spec fn filled(text: Seq<char>) -> Seq<char> {
    let rest = encode_utf8(text).len() % 4;
    if rest == 0 {
        text
    } else {
        text + padding((4 - rest) as nat)
    }
}

/// The start of a data URL.
pub open spec fn data_marker() -> Seq<char> {
    seq!['d', 'a', 't', 'a', ':']
}

/// `at` is where the first comma of `text` stands.
pub open spec fn is_first_comma_char(text: Seq<char>, at: int) -> bool {
    &&& 0 <= at < text.len()
    &&& text[at] == ','
    &&& forall|j: int| 0 <= j < at ==> text[j] != ','
}

/// What can be wrong with video data before it is decoded.
#[derive(Debug, Clone, Copy, PartialEq, Eq, Structural)]
pub enum VideoFault {
    /// A data URL without a comma.
    NoComma,
    /// Nothing is left once the data is tidied.
    Empty,
}

impl VideoFault {
    pub open spec fn spec_message(self) -> Seq<char> {
        match self {
            VideoFault::NoComma => "Invalid video data URL format - no comma found"@,
            VideoFault::Empty => "Base64 data is empty"@,
        }
    }

    pub fn message(self) -> (text: String)
        ensures
            text@ == self.spec_message(),
    {
        match self {
            VideoFault::NoComma => String::from_str("Invalid video data URL format - no comma found"),
            VideoFault::Empty => String::from_str("Base64 data is empty"),
        }
    }
}

/// The base64 text of video data, made ready for decoding: what follows
/// the first comma of a data URL, or the whole of any other text; tidied;
/// filled up with padding.
pub open spec fn video_text_from(data: Seq<char>, start: int) -> Result<Seq<char>, VideoFault> {
    let body = tidied(data.subrange(start, data.len() as int));
    if body.len() == 0 {
        Err(VideoFault::Empty)
    } else {
        Ok(filled(body))
    }
}

fn space(c: char) -> (yes: bool)
    ensures
        yes == is_space(c),
{
    (c >= '\u{9}' && c <= '\u{d}') || c == ' ' || c == '\u{85}' || c == '\u{a0}' || c == '\u{1680}'
        || (c >= '\u{2000}' && c <= '\u{200a}') || c == '\u{2028}' || c == '\u{2029}' || c
        == '\u{202f}' || c == '\u{205f}' || c == '\u{3000}'
}

fn tidy_from(data: &Vec<char>, start: usize) -> (text: String)
    requires
        start <= data@.len(),
    ensures
        text@ == tidied(data@.subrange(start as int, data@.len() as int)),
{
    let n = data.len();
    let ghost body = data@.subrange(start as int, n as int);
    let mut text = String::new();
    let mut i: usize = start;
    while i < n
        invariant
            start <= i <= n,
            n == data@.len(),
            body == data@.subrange(start as int, n as int),
            text@ == tidied(body.take(i - start)),
        decreases n - i,
    {
        let c = data[i];
        proof {
            let upto = body.take(i - start + 1);
            assert(upto.drop_last() =~= body.take(i - start));
            assert(upto.last() == c);
        }
        if !space(c) {
            let symbol = if c == '-' {
                '+'
            } else if c == '_' {
                '/'
            } else {
                c
            };
            text.push(symbol);
        }
        i += 1;
    }
    assert(body.take(n - start) =~= body);
    text
}

fn fill(text: String) -> (ready: String)
    ensures
        ready@ == filled(text@),
{
    let mut ready = text;
    let ghost body = ready@;
    let rest = ready.as_str().as_bytes().len() % 4;
    assert(rest == encode_utf8(body).len() % 4);
    if rest != 0 {
        proof {
            reveal_strlit("=");
            assert("="@ =~= padding(1));
        }
        let mut added: usize = 0;
        while added < 4 - rest
            invariant
                0 < rest < 4,
                rest == encode_utf8(body).len() % 4,
                added <= 4 - rest,
                ready@ == body + padding(added as nat),
                "="@ == padding(1),
            decreases 4 - rest - added,
        {
            ready.append("=");
            assert(body + padding(added as nat) + padding(1) =~= body + padding((added + 1) as nat));
            added += 1;
        }
    }
    assert(body + padding(0) =~= body);
    ready
}

/// Makes the base64 text of video data ready for decoding.
pub fn video_text(data: &str) -> (text: Result<String, VideoFault>)
    ensures
        !starts_with_text(data@, data_marker()) ==> match text {
            Ok(ready) => video_text_from(data@, 0) == Ok::<Seq<char>, VideoFault>(ready@),
            Err(fault) => video_text_from(data@, 0) == Err::<Seq<char>, VideoFault>(fault),
        },
        starts_with_text(data@, data_marker()) && !data@.contains(',') ==> text == Err::<
            String,
            VideoFault,
        >(VideoFault::NoComma),
        starts_with_text(data@, data_marker()) ==> forall|at: int| #[trigger]
            is_first_comma_char(data@, at) ==> match text {
                Ok(ready) => video_text_from(data@, at + 1) == Ok::<Seq<char>, VideoFault>(ready@),
                Err(fault) => video_text_from(data@, at + 1) == Err::<Seq<char>, VideoFault>(fault),
            },
{
    let chars = chars_of(data);
    let n = chars.len();
    let marked = n >= 5 && chars[0] == 'd' && chars[1] == 'a' && chars[2] == 't' && chars[3] == 'a'
        && chars[4] == ':';
    proof {
        if n >= 5 {
            assert(data@.subrange(0, 5) =~= seq![data@[0], data@[1], data@[2], data@[3], data@[4]]);
        }
        assert(marked == starts_with_text(data@, data_marker()));
    }
    let mut start: usize = 0;
    if marked {
        let mut at: usize = 0;
        while at < n && chars[at] != ','
            invariant
                at <= n,
                n == chars@.len(),
                forall|j: int| 0 <= j < at ==> chars@[j] != ',',
            decreases n - at,
        {
            at += 1;
        }
        if at == n {
            assert(!data@.contains(','));
            assert forall|k: int| !is_first_comma_char(data@, k) by {}
            return Err(VideoFault::NoComma);
        }
        assert(is_first_comma_char(data@, at as int));
        assert(data@.contains(','));
        assert forall|k: int| is_first_comma_char(data@, k) implies k == at by {
            if k < at {
                assert(data@[k] != ',');
            } else if k > at {
                assert(data@[at as int] == ',');
            }
        }
        start = at + 1;
    }
    let text = tidy_from(&chars, start);
    if text.as_str().is_empty() {
        return Err(VideoFault::Empty);
    }
    Ok(fill(text))
}

/// Reads the bytes of a video from its base64 text or data URL. `text` is
/// the text made ready by `video_text`.
pub fn video_bytes(text: &str) -> (bytes: Result<Vec<u8>, String>)
    ensures
        match base64_bytes(text.spec_bytes()) {
            Some(payload) => bytes is Ok && bytes->Ok_0@ == payload,
            None => bytes is Err && starts_with_text(bytes->Err_0@, "Failed to decode video base64: "@),
        },
{
    match decode_payload(text.as_bytes()) {
        Ok(decoded) => Ok(decoded),
        Err(e) => {
            let mut message = String::from_str("Failed to decode video base64: ");
            let detail = e.to_string();
            message.append(detail.as_str());
            assert(message@.subrange(0, "Failed to decode video base64: "@.len() as int)
                =~= "Failed to decode video base64: "@);
            Err(message)
        },
    }
}

/// What the status of an HTTP reply says.
#[derive(Debug, Clone, Copy, PartialEq, Eq, Structural)]
pub enum Reply {
    /// A status from 200 to 299: the body is read.
    Success,
    /// Status 404: what was asked for does not exist.
    NotFound,
    /// Any other status.
    Failure,
}

pub open spec fn reply_kind(status: u16) -> Reply {
    if 200 <= status < 300 {
        Reply::Success
    } else if status == 404 {
        Reply::NotFound
    } else {
        Reply::Failure
    }
}

/// Tells what the status of an HTTP reply says.
pub fn classify_reply(status: u16) -> (reply: Reply)
    ensures
        reply == reply_kind(status),
{
    if 200 <= status && status < 300 {
        Reply::Success
    } else if status == 404 {
        Reply::NotFound
    } else {
        Reply::Failure
    }
}

/// Where the leaderboard of a map's difficulty is asked for.
pub fn scoresaber_url(hash: &str, difficulty: &str) -> (url: String)
    ensures
        url@ == "https://scoresaber.com/api/leaderboard/by-hash/"@ + hash@ + "/info?difficulty="@
            + difficulty@,
{
    let mut url = String::from_str("https://scoresaber.com/api/leaderboard/by-hash/");
    url.append(hash);
    url.append("/info?difficulty=");
    url.append(difficulty);
    url
}

/// Where a map is asked for by its hash.
pub fn beatsaver_url(hash: &str) -> (url: String)
    ensures
        url@ == "https://api.beatsaver.com/maps/hash/"@ + hash@,
{
    let mut url = String::from_str("https://api.beatsaver.com/maps/hash/");
    url.append(hash);
    url
}

} // verus!
