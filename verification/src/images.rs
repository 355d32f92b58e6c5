//! The cover image of a movie: the file type read off its URL and the name
//! of the file it is saved under.
use vstd::prelude::*;

verus! {

/// Extension of JPEG covers whose URL says `.jpg`.
pub const JPG: &'static str = ".jpg";

/// Extension of PNG covers.
pub const PNG: &'static str = ".png";

/// Extension of every other cover.
pub const JPEG: &'static str = ".jpeg";

/// The directory that holds the saved covers.
pub const IMAGE_DIRECTORY: &'static str = "images";

/// `suffix` is the end of `s`.
pub open spec fn has_suffix(s: Seq<char>, suffix: Seq<char>) -> bool {
    suffix.len() <= s.len() && s.subrange(s.len() - suffix.len(), s.len() as int) == suffix
}

/// The extension a cover is saved with: `.png` for a URL ending in `.png`,
/// else `.jpg` for one ending in `.jpg`, else `.jpeg`.
pub open spec fn spec_image_extension(image_url: Seq<char>) -> Seq<char> {
    if has_suffix(image_url, PNG@) {
        PNG@
    } else if has_suffix(image_url, JPG@) {
        JPG@
    } else {
        JPEG@
    }
}

/// Whether `s` ends with `suffix`.
pub fn ends_with(s: &str, suffix: &str) -> (r: bool)
    ensures
        r == has_suffix(s@, suffix@),
{
    let n = s.unicode_len();
    let m = suffix.unicode_len();
    if m > n {
        return false;
    }
    let start = n - m;
    let mut i: usize = 0;
    while i < m
        invariant
            n == s@.len(),
            m == suffix@.len(),
            m <= n,
            start == n - m,
            i <= m,
            forall|k: int| 0 <= k < i ==> s@[start + k] == suffix@[k],
        decreases m - i,
    {
        if s.get_char(start + i) != suffix.get_char(i) {
            assert(s@.subrange(start as int, n as int)[i as int] != suffix@[i as int]);
            return false;
        }
        i = i + 1;
    }
    assert(s@.subrange(start as int, n as int) =~= suffix@);
    true
}

/// The extension that the cover at `image_url` is saved with.
pub fn image_extension(image_url: &str) -> (extension: &'static str)
    ensures
        extension@ == spec_image_extension(image_url@),
{
    if ends_with(image_url, PNG) {
        PNG
    } else if ends_with(image_url, JPG) {
        JPG
    } else {
        JPEG
    }
}

/// The name of the file that holds a movie's cover: its title followed by
/// the extension.
pub fn image_file_name(title: &str, extension: &str) -> (name: String)
    ensures
        name@ == title@ + extension@,
{
    let mut name = title.to_owned();
    name.append(extension);
    name
}

/// The type of a cover is read off the end of its URL: a URL ending in
/// `.png` gives `.png`; one ending in `.jpg` gives `.jpg`; any other gives
/// `.jpeg`.
pub proof fn law_extension_follows_url_suffix(image_url: Seq<char>)
    ensures
        has_suffix(image_url, ".png"@) ==> spec_image_extension(image_url) == ".png"@,
        has_suffix(image_url, ".jpg"@) ==> spec_image_extension(image_url) == ".jpg"@,
        !has_suffix(image_url, ".png"@) && !has_suffix(image_url, ".jpg"@) ==> spec_image_extension(image_url)
            == ".jpeg"@,
{
    reveal_strlit(".png");
    reveal_strlit(".jpg");
    reveal_strlit(".jpeg");
    if has_suffix(image_url, ".png"@) && has_suffix(image_url, ".jpg"@) {
        let n = image_url.len();
        assert(image_url.subrange(n - 4, n as int)[1] == ".png"@[1]);
        assert(image_url.subrange(n - 4, n as int)[1] == ".jpg"@[1]);
    }
}

/// A cover saved under a movie's title keeps the type read off its URL: the
/// file name gives back the extension it was made with.
pub proof fn law_file_name_keeps_extension(title: Seq<char>, image_url: Seq<char>)
    ensures
        spec_image_extension(title + spec_image_extension(image_url)) == spec_image_extension(image_url),
{
    reveal_strlit(".png");
    reveal_strlit(".jpg");
    reveal_strlit(".jpeg");
    let ext = spec_image_extension(image_url);
    let name = title + ext;
    assert(name.subrange(name.len() - ext.len(), name.len() as int) =~= ext);
    if ext == PNG@ {
    } else if ext == JPG@ {
        assert(name.subrange(name.len() - 4, name.len() as int)[1] == 'j');
    } else {
        assert(name.subrange(name.len() - 4, name.len() as int)[0] == 'j');
        assert(name.subrange(name.len() - 4, name.len() as int)[0] == 'j');
    }
}

} // verus!
