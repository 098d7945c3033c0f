//! Static assets: the content type served for a requested file name.
use vstd::prelude::*;

use crate::text::str_eq;
use vstd::string::StringSliceAdditionalSpecFns;

verus! {

/// Mount point of the asset route.
pub const ASSETS_MOUNT: &'static str = "/_assets";

/// Body served for a file of an unknown kind.
pub const UNEXPECTED_TYPE: &'static str = "Unexpected type requested";

/// The content types that assets are served with.
#[derive(Clone, Copy, Debug, PartialEq, Eq, Structural)]
pub enum ContentType {
    JavaScript,
    Css,
    Html,
    Png,
    Svg,
    Json,
    Xml,
    MsgPack,
    Plain,
    Icon,
}

/// The text after the last `.` of a name, or the whole name if it has none.
pub open spec fn extension(s: Seq<char>) -> Seq<char>
    decreases s.len(),
{
    if s.len() == 0 {
        s
    } else if s.last() == '.' {
        Seq::empty()
    } else {
        extension(s.drop_last()).push(s.last())
    }
}

/// The content type of a file extension, if it is one that is served.
pub open spec fn content_type_of(ext: Seq<char>) -> Option<ContentType> {
    if ext == "js"@ {
        Some(ContentType::JavaScript)
    } else if ext == "css"@ {
        Some(ContentType::Css)
    } else if ext == "html"@ {
        Some(ContentType::Html)
    } else if ext == "png"@ {
        Some(ContentType::Png)
    } else if ext == "svg"@ {
        Some(ContentType::Svg)
    } else if ext == "json"@ {
        Some(ContentType::Json)
    } else if ext == "xml"@ {
        Some(ContentType::Xml)
    } else if ext == "msgpack"@ {
        Some(ContentType::MsgPack)
    } else if ext == "txt"@ {
        Some(ContentType::Plain)
    } else if ext == "ico"@ {
        Some(ContentType::Icon)
    } else {
        None
    }
}

/// The extension of a file name.
pub fn file_extension(name: &str) -> (r: &str)
    ensures
        r@ == extension(name@),
{
    let n = name.unicode_len();
    let mut start: usize = 0;
    let mut i: usize = 0;
    while i < n
        invariant
            n == name@.len(),
            start <= i <= n,
            extension(name@.subrange(0, i as int)) == name@.subrange(start as int, i as int),
        decreases n - i,
    {
        let ghost pre = name@.subrange(0, i + 1);
        assert(pre.drop_last() =~= name@.subrange(0, i as int));
        assert(pre.last() == name@[i as int]);
        if name.get_char(i) == '.' {
            start = i + 1;
            assert(name@.subrange(start as int, i + 1) =~= Seq::<char>::empty());
        } else {
            assert(name@.subrange(start as int, i + 1) =~= name@.subrange(
                start as int,
                i as int,
            ).push(name@[i as int]));
        }
        i = i + 1;
    }
    assert(name@.subrange(0, n as int) =~= name@);
    name.substring_char(start, n)
}

/// The content type served for an extension.
pub fn content_type(ext: &str) -> (r: Option<ContentType>)
    ensures
        r == content_type_of(ext@),
{
    if str_eq(ext, "js") {
        Some(ContentType::JavaScript)
    } else if str_eq(ext, "css") {
        Some(ContentType::Css)
    } else if str_eq(ext, "html") {
        Some(ContentType::Html)
    } else if str_eq(ext, "png") {
        Some(ContentType::Png)
    } else if str_eq(ext, "svg") {
        Some(ContentType::Svg)
    } else if str_eq(ext, "json") {
        Some(ContentType::Json)
    } else if str_eq(ext, "xml") {
        Some(ContentType::Xml)
    } else if str_eq(ext, "msgpack") {
        Some(ContentType::MsgPack)
    } else if str_eq(ext, "txt") {
        Some(ContentType::Plain)
    } else if str_eq(ext, "ico") {
        Some(ContentType::Icon)
    } else {
        None
    }
}

/// The response for the asset `asset` whose bytes are `contents`: the
/// content type of its extension with the bytes, or, for an unknown
/// extension, plain text saying so.
pub fn assets(asset: &str, contents: &[u8]) -> (r: (ContentType, Vec<u8>))
    ensures
        match content_type_of(extension(asset@)) {
            Some(ct) => r.0 == ct && r.1@ == contents@,
            None => r.0 == ContentType::Plain && r.1@ == UNEXPECTED_TYPE.spec_bytes(),
        },
{
    let ext = file_extension(asset);
    match content_type(ext) {
        Some(ct) => (ct, vstd::slice::slice_to_vec(contents)),
        None => (ContentType::Plain, vstd::slice::slice_to_vec(UNEXPECTED_TYPE.as_bytes())),
    }
}

/// Where the asset route is mounted.
pub fn api() -> (r: &'static str)
    ensures
        r@ == ASSETS_MOUNT@,
{
    ASSETS_MOUNT
}

} // verus!
