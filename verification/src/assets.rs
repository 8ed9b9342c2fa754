use vstd::prelude::*;

verus! {

/// The content type that `mime_guess` gives for a path: the first type
/// registered for the path's extension, or `application/octet-stream`.
pub uninterp spec fn guessed_content_type(path: Seq<char>) -> Seq<char>;

/// The index of the last `c` in `s`, or -1 where there is none.
pub open spec fn last_index_of(s: Seq<char>, c: char) -> int
    decreases s.len(),
{
    if s.len() == 0 {
        -1
    } else if s.last() == c {
        s.len() - 1
    } else {
        last_index_of(s.drop_last(), c)
    }
}

/// The last component of a path: what follows its last `/`.
pub open spec fn file_name_of(path: Seq<char>) -> Seq<char> {
    path.skip(last_index_of(path, '/') + 1)
}

/// The path ends in an ordinary file name: not empty, not `.` and not `..`.
pub open spec fn has_plain_file_name(path: Seq<char>) -> bool {
    let name = file_name_of(path);
    name.len() > 0 && name != seq!['.'] && name != seq!['.', '.']
}

/// The extension of a file name, as `std::path::Path::extension` reads it: the
/// text after the last `.`, where that dot is not the name's first character.
pub open spec fn extension_of(name: Seq<char>) -> Option<Seq<char>> {
    let k = last_index_of(name, '.');
    if k <= 0 {
        None
    } else {
        Some(name.skip(k + 1))
    }
}

/// Two paths that end in ordinary file names with the same extension.
pub open spec fn same_extension(p: Seq<char>, q: Seq<char>) -> bool {
    &&& has_plain_file_name(p)
    &&& has_plain_file_name(q)
    &&& extension_of(file_name_of(p)) == extension_of(file_name_of(q))
}

/// Calls `mime_guess::from_path(path).first_or_octet_stream()` and takes the
/// type's text. The guess is a lookup of the path's extension in a fixed table,
/// so it depends on the path alone; a path with no `.` has no extension and
/// gets `application/octet-stream`. The extension is what
/// `std::path::Path::extension` gives: for a path whose last component is an
/// ordinary name, the text after that name's last `.` (none where the only dot
/// leads the name). So paths with the same such extension get the same type.
#[verifier::external_body]
fn content_type_for(path: &str) -> (r: String)
    ensures
        r@ == guessed_content_type(path@),
        !path@.contains('.') ==> r@ == "application/octet-stream"@,
        forall|other: Seq<char>| same_extension(path@, other) ==> r@ == #[trigger] guessed_content_type(other),
{
    String::from(mime_guess::from_path(path).first_or_octet_stream().as_ref())
}

/// The body of the answer to a request for a file that is not there.
pub open spec fn not_found_body() -> Seq<u8> {
    seq![52u8, 48u8, 52u8, 32u8, 78u8, 111u8, 116u8, 32u8, 70u8, 111u8, 117u8, 110u8, 100u8]
}

/// The answer to a request for an embedded file.
pub struct AssetReply {
    /// The HTTP status code.
    pub status: u16,
    /// The content type to declare, where one is declared.
    pub content_type: Option<String>,
    pub body: Vec<u8>,
}

/// Answer a request for the embedded file at `path`, given its contents if it
/// is embedded: the file with the content type its name suggests, or a plain
/// 404 "404 Not Found".
pub fn embedded_file_reply(path: &str, content: Option<Vec<u8>>) -> (r: AssetReply)
    ensures
        match content {
            Some(data) => {
                &&& r.status == 200
                &&& r.content_type matches Some(t) && t@ == guessed_content_type(path@)
                &&& forall|other: Seq<char>|
                    same_extension(path@, other) ==> r.content_type->0@ == #[trigger] guessed_content_type(other)
                &&& r.body@ == data@
            },
            None => {
                &&& r.status == 404
                &&& r.content_type is None
                &&& r.body@ == not_found_body()
            },
        },
{
    match content {
        Some(data) => AssetReply { status: 200, content_type: Some(content_type_for(path)), body: data },
        None => {
            let body: Vec<u8> = vec![52u8, 48u8, 52u8, 32u8, 78u8, 111u8, 116u8, 32u8, 70u8, 111u8, 117u8, 110u8, 100u8];
            assert(body@ =~= not_found_body());
            AssetReply { status: 404, content_type: None, body }
        },
    }
}

} // verus!
