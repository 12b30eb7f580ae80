//! Addresses of images on Discord's content delivery network.
use vstd::prelude::*;
use crate::text::{decimal, push_decimal, push_str, str_starts_with};

verus! {

/// Whether an image hash names an animated image: it starts with "a_".
pub open spec fn is_animated_hash(hash: Seq<char>) -> bool {
    "a_"@.len() <= hash.len() && hash.subrange(0, "a_"@.len() as int) == "a_"@
}

/// The file extension of an image with this hash: "gif" when animated, else "png".
pub open spec fn image_ext(hash: Seq<char>) -> Seq<char> {
    if is_animated_hash(hash) {
        "gif"@
    } else {
        "png"@
    }
}

/// The address `base`, the decimal ID, "/", the hash, ".", then the extension.
pub open spec fn asset_url(base: Seq<char>, id: u64, hash: Seq<char>, ext: Seq<char>) -> Seq<char> {
    base + decimal(id as nat) + "/"@ + hash + "."@ + ext
}

/// The address `base`, the decimal number, ".", then the extension.
pub open spec fn numbered_url(base: Seq<char>, n: u64, ext: Seq<char>) -> Seq<char> {
    base + decimal(n as nat) + "."@ + ext
}

/// An image is served as a GIF exactly when its hash starts with `a_` (an animated image), and
/// as a PNG otherwise.
pub proof fn lemma_image_ext(hash: Seq<char>)
    ensures
        image_ext(hash) == "gif"@ <==> (hash.len() >= 2 && hash[0] == 'a' && hash[1] == '_'),
        image_ext(hash) == "png"@ <==> !(hash.len() >= 2 && hash[0] == 'a' && hash[1] == '_'),
{
    reveal_strlit("a_");
    reveal_strlit("gif");
    reveal_strlit("png");
    assert("png"@[0] != "gif"@[0]);
    assert("a_"@.len() == 2);
    if hash.len() >= 2 && hash[0] == 'a' && hash[1] == '_' {
        assert(hash.subrange(0, 2) =~= "a_"@);
        assert(is_animated_hash(hash));
    } else if is_animated_hash(hash) {
        assert(hash.subrange(0, 2)[0] == "a_"@[0]);
        assert(hash.subrange(0, 2)[1] == "a_"@[1]);
    }
}

/// The extension of an image with this hash.
pub fn image_ext_of(hash: &str) -> (r: &'static str)
    ensures
        r@ == image_ext(hash@),
{
    if str_starts_with(hash, "a_") {
        "gif"
    } else {
        "png"
    }
}

/// Builds `asset_url`.
pub fn asset_url_of(base: &str, id: u64, hash: &str, ext: &str) -> (r: String)
    ensures
        r@ == asset_url(base@, id, hash@, ext@),
{
    let mut s = String::new();
    push_str(&mut s, base);
    push_decimal(&mut s, id);
    push_str(&mut s, "/");
    push_str(&mut s, hash);
    push_str(&mut s, ".");
    push_str(&mut s, ext);
    assert(s@ =~= asset_url(base@, id, hash@, ext@));
    s
}

/// Builds `numbered_url`.
pub fn numbered_url_of(base: &str, n: u64, ext: &str) -> (r: String)
    ensures
        r@ == numbered_url(base@, n, ext@),
{
    let mut s = String::new();
    push_str(&mut s, base);
    push_decimal(&mut s, n);
    push_str(&mut s, ".");
    push_str(&mut s, ext);
    assert(s@ =~= numbered_url(base@, n, ext@));
    s
}

} // verus!
