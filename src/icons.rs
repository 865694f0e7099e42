//! What a file's extension decides: the icon shown before it in a listing,
//! and whether its preview is rasterized.

use vstd::prelude::*;
use vstd::string::StrSliceExecFns;

verus! {

/// The text after the last dot of `name`, or the whole name if it has none.
pub open spec fn extension(name: Seq<char>) -> Seq<char>
    decreases name.len(),
{
    if name.len() == 0 {
        name
    } else if name.last() == '.' {
        seq![]
    } else {
        extension(name.drop_last()).push(name.last())
    }
}

/// The icon for an entry: a folder for a directory, else one by extension.
pub open spec fn icon_for(name: Seq<char>, is_dir: bool) -> Seq<char> {
    let e = extension(name);
    if is_dir {
        "\u{f115}"@
    } else if e == "rs"@ {
        "\u{e7a8}"@
    } else if e == "js"@ {
        "\u{e781}"@
    } else if e == "html"@ {
        "\u{e736}"@
    } else if e == "css"@ {
        "\u{e749}"@
    } else if e == "json"@ {
        "\u{e60b}"@
    } else if e == "md"@ {
        "\u{e73e}"@
    } else if e == "toml"@ {
        "\u{e6b2}"@
    } else if e == "lock"@ {
        "\u{f023}"@
    } else if e == "git"@ || e == "gitignore"@ {
        "\u{e702}"@
    } else if e == "mp3"@ || e == "wav"@ || e == "flac"@ {
        "\u{1f3b5}"@
    } else if e == "mp4"@ || e == "avi"@ || e == "mkv"@ || e == "mov"@ {
        "\u{1f39e}"@
    } else if e == "zip"@ || e == "rar"@ || e == "7z"@ || e == "tar"@ || e == "gz"@ {
        "\u{f1c6}"@
    } else if e == "png"@ || e == "jpg"@ || e == "jpeg"@ || e == "gif"@ || e == "webp"@ || e
        == "ico"@ {
        "\u{f03e}"@
    } else if e == "pdf"@ {
        "\u{f1c1}"@
    } else if e == "txt"@ {
        "\u{f15c}"@
    } else {
        "\u{f15b}"@
    }
}

/// Whether two strings hold the same characters.
fn same_text(a: &str, b: &str) -> (r: bool)
    ensures
        r == (a@ == b@),
{
    let n = a.unicode_len();
    if n != b.unicode_len() {
        return false;
    }
    let mut i: usize = 0;
    while i < n
        invariant
            n == a@.len(),
            n == b@.len(),
            i <= n,
            a@.subrange(0, i as int) == b@.subrange(0, i as int),
        decreases n - i,
    {
        if a.get_char(i) != b.get_char(i) {
            return false;
        }
        proof {
            assert(a@.subrange(0, i + 1) =~= a@.subrange(0, i as int).push(a@[i as int]));
            assert(b@.subrange(0, i + 1) =~= b@.subrange(0, i as int).push(b@[i as int]));
        }
        i = i + 1;
    }
    proof {
        assert(a@ =~= a@.subrange(0, n as int));
        assert(b@ =~= b@.subrange(0, n as int));
    }
    true
}

/// Where the extension of `name` starts.
fn extension_start(name: &str) -> (r: usize)
    ensures
        r <= name@.len(),
        name@.subrange(r as int, name@.len() as int) == extension(name@),
{
    let len = name.unicode_len();
    let mut i: usize = len;
    proof {
        assert(name@.subrange(0, len as int) =~= name@);
        assert(name@.subrange(len as int, len as int) =~= Seq::<char>::empty());
        assert(extension(name@) + Seq::<char>::empty() =~= extension(name@));
    }
    while i > 0 && name.get_char(i - 1) != '.'
        invariant
            len == name@.len(),
            i <= len,
            extension(name@) == extension(name@.subrange(0, i as int)) + name@.subrange(
                i as int,
                len as int,
            ),
        decreases i,
    {
        proof {
            let head = name@.subrange(0, i as int);
            assert(head.drop_last() =~= name@.subrange(0, i - 1));
            assert(extension(head) == extension(name@.subrange(0, i - 1)).push(name@[i - 1]));
            assert(extension(name@.subrange(0, i - 1)) + name@.subrange(i - 1, len as int)
                =~= extension(head) + name@.subrange(i as int, len as int));
        }
        i = i - 1;
    }
    proof {
        if i == 0 {
            assert(name@.subrange(0, 0) =~= Seq::<char>::empty());
        }
        assert(extension(name@.subrange(0, i as int)) =~= Seq::<char>::empty());
    }
    i
}

/// The icon shown before an entry named `name`.
pub fn get_icon_for_file(name: &str, is_dir: bool) -> (r: &'static str)
    ensures
        r@ == icon_for(name@, is_dir),
{
    if is_dir {
        return "\u{f115}";
    }
    let start = extension_start(name);
    let e = name.substring_char(start, name.unicode_len());
    if same_text(e, "rs") {
        "\u{e7a8}"
    } else if same_text(e, "js") {
        "\u{e781}"
    } else if same_text(e, "html") {
        "\u{e736}"
    } else if same_text(e, "css") {
        "\u{e749}"
    } else if same_text(e, "json") {
        "\u{e60b}"
    } else if same_text(e, "md") {
        "\u{e73e}"
    } else if same_text(e, "toml") {
        "\u{e6b2}"
    } else if same_text(e, "lock") {
        "\u{f023}"
    } else if same_text(e, "git") || same_text(e, "gitignore") {
        "\u{e702}"
    } else if same_text(e, "mp3") || same_text(e, "wav") || same_text(e, "flac") {
        "\u{1f3b5}"
    } else if same_text(e, "mp4") || same_text(e, "avi") || same_text(e, "mkv") || same_text(
        e,
        "mov",
    ) {
        "\u{1f39e}"
    } else if same_text(e, "zip") || same_text(e, "rar") || same_text(e, "7z") || same_text(
        e,
        "tar",
    ) || same_text(e, "gz") {
        "\u{f1c6}"
    } else if same_text(e, "png") || same_text(e, "jpg") || same_text(e, "jpeg") || same_text(
        e,
        "gif",
    ) || same_text(e, "webp") || same_text(e, "ico") {
        "\u{f03e}"
    } else if same_text(e, "pdf") {
        "\u{f1c1}"
    } else if same_text(e, "txt") {
        "\u{f15c}"
    } else {
        "\u{f15b}"
    }
}

/// Whether a file is an image or a document that the rasterizer renders,
/// judged by its extension.
pub open spec fn rasterizable(name: Seq<char>) -> bool {
    let e = extension(name);
    e == "png"@ || e == "jpg"@ || e == "jpeg"@ || e == "gif"@ || e == "webp"@ || e == "ico"@ || e
        == "pdf"@
}

pub fn is_rasterizable(name: &str) -> (r: bool)
    ensures
        r == rasterizable(name@),
{
    let start = extension_start(name);
    let e = name.substring_char(start, name.unicode_len());
    same_text(e, "png") || same_text(e, "jpg") || same_text(e, "jpeg") || same_text(e, "gif")
        || same_text(e, "webp") || same_text(e, "ico") || same_text(e, "pdf")
}

} // verus!
