//! What the file endpoint serves: where a requested file lies, the headers it is
//! sent with, and the page that lists the stored files.

use vstd::prelude::*;
use crate::paths::{file_name_of, get_file_name_from_path};
use crate::text::{chars_of, push_all, string_of};

verus! {

/// The content type that mime_guess gives for a path.
pub uninterp spec fn guessed_content_type(path: Seq<char>) -> Seq<char>;

/// Relies on mime_guess's `from_path(..).first_or_octet_stream()`: the MIME type
/// that the path's extension suggests, else `application/octet-stream`; it
/// depends on the path alone.
#[verifier::external_body]
fn content_type_of(path: &str) -> (r: String)
    ensures
        r@ == guessed_content_type(path@),
{
    mime_guess::from_path(path).first_or_octet_stream().to_string()
}

/// Where a stored file lies: `files/<id>`.
pub open spec fn stored_path(id: Seq<char>) -> Seq<char> {
    "files/"@ + id
}

/// The `Content-Disposition` value that offers a file for download under `name`.
pub open spec fn disposition_text(name: Seq<char>) -> Seq<char> {
    "attachment; filename=\""@ + name + "\""@
}

/// Where a stored file lies.
pub fn stored_file_path(id: &str) -> (r: String)
    ensures
        r@ == stored_path(id@),
{
    let mut out = chars_of("files/");
    let c = chars_of(id);
    push_all(&mut out, &c);
    string_of(&out)
}

/// The headers a stored file is sent with.
#[derive(Debug)]
pub struct FileHeaders {
    pub content_type: String,
    pub content_disposition: String,
}

/// The headers of the stored file `id`: the type its name suggests, and a
/// disposition that offers it under its name (empty if the path has none).
pub fn file_headers(id: &str) -> (r: FileHeaders)
    ensures
        r.content_type@ == guessed_content_type(stored_path(id@)),
        r.content_disposition@ == disposition_text(
            match file_name_of(stored_path(id@)) {
                Some(n) => n,
                None => Seq::<char>::empty(),
            },
        ),
{
    let path = stored_file_path(id);
    let content_type = content_type_of(path.as_str());
    let name: Vec<char> = match get_file_name_from_path(path.as_str()) {
        Some(n) => chars_of(n.as_str()),
        None => Vec::new(),
    };
    let mut out = chars_of("attachment; filename=\"");
    push_all(&mut out, &name);
    let q = chars_of("\"");
    push_all(&mut out, &q);
    FileHeaders { content_type, content_disposition: string_of(&out) }
}

/// One entry of the file list: a link to the file, named after it.
pub open spec fn list_item(name: Seq<char>) -> Seq<char> {
    "<li><a href=\"/files/"@ + name + "\">"@ + name + "</a></li>"@
}

/// The entries of the file list, in order.
pub open spec fn list_items(names: Seq<String>) -> Seq<char>
    decreases names.len(),
{
    if names.len() == 0 {
        Seq::empty()
    } else {
        list_items(names.drop_last()) + list_item(names.last()@)
    }
}

/// The page that lists the stored files.
pub open spec fn files_page(names: Seq<String>) -> Seq<char> {
    "<h1>Files in directory</h1><ul>"@ + list_items(names) + "</ul>"@
}

/// The page that lists the given stored files, in the given order.
pub fn files_list_html(names: &Vec<String>) -> (r: String)
    ensures
        r@ == files_page(names@),
{
    let mut out = chars_of("<h1>Files in directory</h1><ul>");
    let ghost head = out@;
    let open = chars_of("<li><a href=\"/files/");
    let mid = chars_of("\">");
    let close = chars_of("</a></li>");
    let mut i: usize = 0;
    while i < names.len()
        invariant
            i <= names.len(),
            head == "<h1>Files in directory</h1><ul>"@,
            open@ == "<li><a href=\"/files/"@,
            mid@ == "\">"@,
            close@ == "</a></li>"@,
            out@ == head + list_items(names@.subrange(0, i as int)),
        decreases names.len() - i,
    {
        let n = chars_of(names[i].as_str());
        let ghost before = out@;
        push_all(&mut out, &open);
        push_all(&mut out, &n);
        push_all(&mut out, &mid);
        push_all(&mut out, &n);
        push_all(&mut out, &close);
        i = i + 1;
        assert(names@.subrange(0, i as int).drop_last() =~= names@.subrange(0, i - 1));
        assert(out@ =~= before + list_item(names@[i - 1]@));
    }
    assert(names@.subrange(0, i as int) =~= names@);
    let end = chars_of("</ul>");
    push_all(&mut out, &end);
    string_of(&out)
}

} // verus!
