//! The composite resource name `path:name` and its UTF-16 form.

use vstd::prelude::*;
use vstd::string::StringExecFns;
use windows_strings::HSTRING;

use crate::session::AdsError;

verus! {

/// The name under which the backend knows stream `name` of file `path`:
/// the two joined by a colon, with no escaping.
pub open spec fn composite_name(path: Seq<char>, name: Seq<char>) -> Seq<char> {
    path + seq![':'] + name
}

/// Most characters a name may have to be encoded: at four UTF-8 bytes per
/// character, its UTF-8 length then fits the 32-bit length of an `HSTRING`.
pub const MAX_ENCODED_CHARS: usize = 0x3fff_ffff;

/// The UTF-16 code units of one character: itself below U+10000, else a
/// surrogate pair.
pub open spec fn utf16_units(c: char) -> Seq<u16> {
    let v = c as u32 as int;
    if v < 0x10000 {
        seq![v as u16]
    } else {
        seq![(0xd800 + (v - 0x10000) / 0x400) as u16, (0xdc00 + (v - 0x10000) % 0x400) as u16]
    }
}

/// The UTF-16 code units of a string, character after character.
pub open spec fn utf16_of(s: Seq<char>) -> Seq<u16>
    decreases s.len(),
{
    if s.len() == 0 {
        seq![]
    } else {
        utf16_of(s.drop_last()) + utf16_units(s.last())
    }
}

/// Relies on `windows_strings::HSTRING::from(&str)`: the string's UTF-16 code
/// units, which the `HSTRING` derefs to (without its terminator). It panics
/// when the UTF-8 length exceeds `u32::MAX`, which `requires` rules out.
#[verifier::external_body]
fn encode_wide(s: &str) -> (r: Vec<u16>)
    requires
        s@.len() <= MAX_ENCODED_CHARS,
    ensures
        r@ == utf16_of(s@),
{
    HSTRING::from(s).to_vec()
}

/// Builds the composite name of stream `name` on file `path`.
pub fn stream_name(path: &str, name: &str) -> (r: String)
    ensures
        r@ == composite_name(path@, name@),
{
    let mut s = String::from_str(path);
    s.append(":");
    s.append(name);
    proof {
        reveal_strlit(":");
    }
    s
}

/// The composite name as a NUL-terminated UTF-16 buffer, ready for the
/// file API; `NameTooLong` when the name is too long to be encoded.
pub fn stream_path_wide(path: &str, name: &str) -> (r: Result<Vec<u16>, AdsError>)
    ensures
        r is Err <==> composite_name(path@, name@).len() > MAX_ENCODED_CHARS,
        r matches Err(f) ==> f == AdsError::NameTooLong,
        r matches Ok(w) ==> w@ == utf16_of(composite_name(path@, name@)) + seq![0u16],
{
    let s = stream_name(path, name);
    let n = s.as_str().unicode_len();
    if n > MAX_ENCODED_CHARS {
        return Err(AdsError::NameTooLong);
    }
    let mut w = encode_wide(s.as_str());
    w.push(0u16);
    Ok(w)
}

} // verus!
