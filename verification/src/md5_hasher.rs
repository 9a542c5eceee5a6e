//! New file names for images: the MD5 digest of the old name, as `.jpg`.
use vstd::prelude::*;
use crypto::digest::Digest;
use crypto::md5::Md5;

verus! {

/// A lowercase hexadecimal digit, `0`-`9` or `a`-`f`.
pub open spec fn is_lower_hex_digit(c: char) -> bool {
    ('0' <= c && c <= '9') || ('a' <= c && c <= 'f')
}

/// The MD5 digest of the UTF-8 bytes of a text, written as lowercase hexadecimal.
pub uninterp spec fn md5_hex(text: Seq<char>) -> Seq<char>;

/// The extension that every new image file name gets.
pub open spec fn jpg_extension() -> Seq<char> {
    ".jpg"@
}

/// Runs rust-crypto's `Md5::new`, then `Digest::input_str` with `text`, then
/// `Digest::result_str`. Trusted: the result is the digest named `md5_hex`
/// of `text`; rust-crypto's source gives its 16-byte output (`output_bits`
/// is 128), which `result_str` writes with the lowercase digits of
/// rustc-serialize's `to_hex`, two per byte. Which digits come out is not stated.
#[verifier::external_body]
fn md5_hex_digest(text: &str) -> (res: String)
    ensures
        res@ == md5_hex(text@),
        res@.len() == 32,
        forall|i: int| 0 <= i < 32 ==> is_lower_hex_digit(#[trigger] res@[i]),
{
    let mut hasher = Md5::new();
    hasher.input_str(text);
    hasher.result_str()
}

/// The file name made of a hexadecimal digest: the digest followed by `.jpg`.
pub fn hashed_file_name(hex_digest: &str) -> (res: String)
    ensures
        res@ == hex_digest@ + jpg_extension(),
{
    let mut res = String::from_str(hex_digest);
    res.append(".jpg");
    res
}

/// The new name of an image file: the MD5 digest of `file_name` in lowercase
/// hexadecimal, followed by `.jpg`.
pub fn generate(file_name: &str) -> (res: String)
    ensures
        res@ == md5_hex(file_name@) + jpg_extension(),
        res@.len() == 36,
        forall|i: int| 0 <= i < 32 ==> is_lower_hex_digit(#[trigger] res@[i]),
{
    let digest = md5_hex_digest(file_name);
    let res = hashed_file_name(digest.as_str());
    proof {
        reveal_strlit(".jpg");
        assert forall|i: int| 0 <= i < 32 implies is_lower_hex_digit(#[trigger] res@[i]) by {
            assert(res@[i] == digest@[i]);
        }
    }
    res
}

} // verus!
