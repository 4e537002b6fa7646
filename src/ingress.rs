//! Inbound messages: which of them ask for a transfer, and of what.

use vstd::prelude::*;
use crate::queue::{copy_text, MessageRef};
use crate::text::{chars_of, decimal, is_white_space, matches_at, push_decimal, string_of};

verus! {

/// A file attached to a message: the transport's id for it and the name the sender gave.
#[derive(Debug)]
pub struct Attachment {
    pub file_id: String,
    pub file_name: Option<String>,
}

/// What the library reads of an inbound message.
#[derive(Debug)]
pub struct IncomingMessage {
    pub message: MessageRef,
    pub document: Option<Attachment>,
    /// The ids of the sizes of an attached photo, smallest first.
    pub photo: Vec<String>,
    pub video: Option<Attachment>,
    pub animation: Option<Attachment>,
    pub text: Option<String>,
    /// The text of the message this one replies to.
    pub reply_text: Option<String>,
}

/// What a transfer request names: a file of the transport or a URL, and the sender's name for it.
#[derive(Debug)]
pub struct FileRequest {
    pub file_id: Option<String>,
    pub file_name: Option<String>,
    pub url: Option<String>,
}

pub open spec fn https_prefix() -> Seq<char> {
    seq!['h', 't', 't', 'p', 's', ':', '/', '/']
}

pub open spec fn http_prefix() -> Seq<char> {
    seq!['h', 't', 't', 'p', ':', '/', '/']
}

/// The length of the scheme (`https://` or `http://`) that starts at `i`, or 0.
pub open spec fn scheme_len_at(t: Seq<char>, i: int) -> int {
    if matches_at(t, https_prefix(), i) {
        8
    } else if matches_at(t, http_prefix(), i) {
        7
    } else {
        0
    }
}

/// A link starts at `i`: a scheme followed by at least one non-space character.
pub open spec fn link_at(t: Seq<char>, i: int) -> bool {
    scheme_len_at(t, i) > 0 && i + scheme_len_at(t, i) < t.len() && !is_white_space(
        t[i + scheme_len_at(t, i)],
    )
}

/// The end of the run of non-space characters that starts at `j`.
pub open spec fn run_end(t: Seq<char>, j: int) -> int
    decreases t.len() - j,
{
    if j < 0 || j >= t.len() || is_white_space(t[j]) {
        j
    } else {
        run_end(t, j + 1)
    }
}

/// The first link at or after `i`, running up to the next white space.
pub open spec fn first_link_from(t: Seq<char>, i: int) -> Option<Seq<char>>
    decreases t.len() - i,
{
    if i < 0 || i >= t.len() {
        None
    } else if link_at(t, i) {
        Some(t.subrange(i, run_end(t, i + scheme_len_at(t, i))))
    } else {
        first_link_from(t, i + 1)
    }
}

/// The first link of a text: the leftmost match of `https?://\S+`.
pub open spec fn first_link(t: Seq<char>) -> Option<Seq<char>> {
    first_link_from(t, 0)
}

/// The pattern that finds links.
pub open spec fn link_pattern() -> Seq<char> {
    "https?://\\S+"@
}

/// Relies on regex's `Regex::new` and `Regex::find`: compiled from `https?://\S+`,
/// `find` gives the leftmost-first match, where `\S` is any character outside
/// Unicode's `White_Space` and `s?` prefers to take the `s`.
#[verifier::external_body]
fn find_link(pattern: &str, text: &str) -> (r: Option<String>)
    requires
        pattern@ == link_pattern(),
    ensures
        r matches Some(m) ==> first_link(text@) == Some(m@),
        r is None ==> first_link(text@) is None,
{
    match regex::Regex::new(pattern) {
        Ok(re) => re.find(text).map(|m| m.as_str().to_string()),
        Err(_) => None,
    }
}

/// The first link of a text.
pub fn extract_first_link(text: &str) -> (r: Option<String>)
    ensures
        r matches Some(m) ==> first_link(text@) == Some(m@),
        r is None ==> first_link(text@) is None,
{
    find_link("https?://\\S+", text)
}

/// The command that asks for a URL download.
pub open spec fn url_command() -> Seq<char> {
    seq!['/', 'u', 'r', 'l']
}

/// The link a `/url` command names: in its argument (from the sixth character on),
/// or, when it has none, in the message it replies to.
pub open spec fn command_link(text: Option<String>, reply: Option<String>) -> Option<Seq<char>> {
    match text {
        Some(t) => if matches_at(t@, url_command(), 0) {
            if t@.len() < 6 {
                match reply {
                    Some(r) => first_link(r@),
                    None => None,
                }
            } else {
                first_link(t@.subrange(5, t@.len() as int))
            }
        } else {
            None
        },
        None => None,
    }
}

fn starts_with_url_command(c: &Vec<char>) -> (r: bool)
    ensures
        r == matches_at(c@, url_command(), 0),
{
    let r = c.len() >= 4 && c[0] == '/' && c[1] == 'u' && c[2] == 'r' && c[3] == 'l';
    if c.len() >= 4 {
        assert(r == (c@.subrange(0, 4) =~= url_command()));
    }
    r
}

/// The link that a `/url` message asks for, if any.
pub fn get_url_from_message(msg: &IncomingMessage) -> (r: Option<String>)
    ensures
        r matches Some(m) ==> command_link(msg.text, msg.reply_text) == Some(m@),
        r is None ==> command_link(msg.text, msg.reply_text) is None,
{
    match &msg.text {
        Some(t) => {
            let c = chars_of(t.as_str());
            if !starts_with_url_command(&c) {
                return None;
            }
            if c.len() < 6 {
                match &msg.reply_text {
                    Some(rt) => extract_first_link(rt.as_str()),
                    None => None,
                }
            } else {
                let mut arg: Vec<char> = Vec::new();
                let mut i: usize = 5;
                while i < c.len()
                    invariant
                        5 <= i <= c.len(),
                        arg@ == c@.subrange(5, i as int),
                    decreases c.len() - i,
                {
                    arg.push(c[i]);
                    i = i + 1;
                    assert(arg@ =~= c@.subrange(5, i as int));
                }
                let s = string_of(&arg);
                extract_first_link(s.as_str())
            }
        },
        None => None,
    }
}

/// The request an attachment makes.
pub open spec fn attachment_request(a: Attachment) -> FileRequest {
    FileRequest { file_id: Some(a.file_id), file_name: a.file_name, url: None }
}

/// Whether `r` asks for the link `l`, with no file id and no name.
pub open spec fn is_link_request(r: FileRequest, l: Seq<char>) -> bool {
    r.file_id is None && r.file_name is None && (r.url matches Some(u) && u@ == l)
}

fn attachment_request_of(a: &Attachment) -> (r: FileRequest)
    ensures
        r == attachment_request(*a),
{
    FileRequest { file_id: Some(a.file_id.clone()), file_name: copy_text(&a.file_name), url: None }
}

/// The transfer a message asks for: a document, else the largest photo size, else a
/// video, else an animation, else the link of a `/url` command; none otherwise.
pub fn classify_message(msg: &IncomingMessage) -> (r: Option<FileRequest>)
    ensures
        msg.document matches Some(d) ==> r == Some(attachment_request(d)),
        msg.document is None && msg.photo@.len() > 0 ==> r == Some(
            FileRequest { file_id: Some(msg.photo@.last()), file_name: None, url: None },
        ),
        msg.document is None && msg.photo@.len() == 0 && msg.video is Some ==> r == Some(
            attachment_request(msg.video->0),
        ),
        msg.document is None && msg.photo@.len() == 0 && msg.video is None
            && msg.animation is Some ==> r == Some(attachment_request(msg.animation->0)),
        msg.document is None && msg.photo@.len() == 0 && msg.video is None && msg.animation is None
            ==> (match command_link(msg.text, msg.reply_text) {
            Some(l) => r matches Some(q) && is_link_request(q, l),
            None => r is None,
        }),
{
    if let Some(d) = &msg.document {
        return Some(attachment_request_of(d));
    }
    let n = msg.photo.len();
    if n > 0 {
        return Some(FileRequest { file_id: Some(msg.photo[n - 1].clone()), file_name: None, url: None });
    }
    if let Some(v) = &msg.video {
        return Some(attachment_request_of(v));
    }
    if let Some(a) = &msg.animation {
        return Some(attachment_request_of(a));
    }
    match get_url_from_message(msg) {
        Some(u) => Some(FileRequest { file_id: None, file_name: None, url: Some(u) }),
        None => None,
    }
}

/// The reply that tells a sender where their job stands: `Queue position: <n>`.
pub open spec fn queue_position_text(position: nat) -> Seq<char> {
    "Queue position: "@ + decimal(position)
}

/// The reply that tells a sender where their job stands.
pub fn queue_position_message(position: usize) -> (r: String)
    ensures
        r@ == queue_position_text(position as nat),
{
    let mut out = chars_of("Queue position: ");
    push_decimal(&mut out, position as u64);
    string_of(&out)
}

} // verus!
