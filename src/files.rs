use vstd::prelude::*;

verus! {

/// Lower-case form of a string, as `str::to_lowercase` gives it.
pub uninterp spec fn lower_of(s: Seq<char>) -> Seq<char>;

/// Relies on `str::to_lowercase`: its result depends on the characters alone.
#[verifier::external_body]
fn lowercase(s: &str) -> (r: String)
    ensures
        r@ == lower_of(s@),
{
    s.to_lowercase()
}

/// Prefix of the name of each file that the watermarking writes.
pub open spec fn output_prefix() -> Seq<char> {
    "watermarked_"@
}

/// The extensions, in lower case, of the image files that are watermarked.
pub open spec fn is_image_extension_spec(e: Seq<char>) -> bool {
    ||| e == "jpg"@
    ||| e == "jpeg"@
    ||| e == "png"@
    ||| e == "gif"@
    ||| e == "bmp"@
    ||| e == "webp"@
}

/// Whether an optional file extension marks an image file, ignoring case.
pub open spec fn is_image_file_spec(extension: Option<Seq<char>>) -> bool {
    match extension {
        Some(e) => is_image_extension_spec(lower_of(e)),
        None => false,
    }
}

fn same_text(a: &str, b: &str) -> (r: bool)
    ensures
        r == (a@ == b@),
{
    let n: usize = a.unicode_len();
    if n != b.unicode_len() {
        return false;
    }
    let mut i: usize = 0;
    while i < n
        invariant
            n == a@.len(),
            n == b@.len(),
            i <= n,
            forall|k: int| 0 <= k < i ==> a@[k] == b@[k],
        decreases n - i,
    {
        if a.get_char(i) != b.get_char(i) {
            return false;
        }
        i = i + 1;
    }
    proof {
        assert(a@ =~= b@);
    }
    true
}

/// Whether an extension already in lower case is one of the image extensions.
pub fn is_image_extension(folded: &str) -> (r: bool)
    ensures
        r == is_image_extension_spec(folded@),
{
    same_text(folded, "jpg") || same_text(folded, "jpeg") || same_text(folded, "png")
        || same_text(folded, "gif") || same_text(folded, "bmp") || same_text(folded, "webp")
}

/// Whether a file with this extension (`None`: no extension, or one that is
/// not valid text) is an image file to watermark. Case is ignored.
pub fn is_image_file(extension: Option<&str>) -> (r: bool)
    ensures
        r == is_image_file_spec(
            match extension {
                Some(e) => Some(e@),
                None => None,
            },
        ),
{
    match extension {
        Some(e) => {
            let folded = lowercase(e);
            is_image_extension(folded.as_str())
        },
        None => false,
    }
}

/// Name of the file written for a source file of the given name, beside it.
pub fn output_file_name(file_name: &str) -> (r: String)
    ensures
        r@ == output_prefix() + file_name@,
{
    let mut name = "watermarked_".to_owned();
    name.append(file_name);
    name
}

} // verus!
