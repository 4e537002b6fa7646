//! Names of the files written to local storage: a short random token, an
//! underscore, then the name the sender gave or the one the source carries.

use vstd::prelude::*;
use crate::paths::{file_name_of, get_file_name_from_path};
use crate::queue::FileQueueItem;
use crate::text::{
    chars_of, lemma_split_nonempty, push_all, split_chars, split_seq, string_of, unquote_chars,
    unquoted, views,
};

verus! {

/// The number of characters of a token.
pub const TOKEN_LEN: usize = 5;

/// The characters a token is drawn from: letters, digits, `_` and `-`.
pub open spec fn is_token_char(c: char) -> bool {
    let u = c as u32;
    (48 <= u && u <= 57) || (65 <= u && u <= 90) || (97 <= u && u <= 122) || c == '_' || c == '-'
}

/// A token: `TOKEN_LEN` characters from the token alphabet.
pub open spec fn is_token(t: Seq<char>) -> bool {
    t.len() == TOKEN_LEN && forall|i: int| 0 <= i < t.len() ==> is_token_char(#[trigger] t[i])
}

/// Relies on `nanoid::format` with `nanoid::rngs::default` and `nanoid::alphabet::SAFE`:
/// `size` characters drawn at random from that 64-character alphabet.
#[verifier::external_body]
fn nanoid_of_size(size: usize) -> (r: String)
    requires
        1 <= size <= 64,
    ensures
        r@.len() == size,
        forall|i: int| 0 <= i < r@.len() ==> is_token_char(#[trigger] r@[i]),
{
    nanoid::format(nanoid::rngs::default, &nanoid::alphabet::SAFE, size)
}

/// A fresh random token; with 64 choices per character there are 64^5 of them.
pub fn new_token() -> (r: String)
    ensures
        is_token(r@),
{
    nanoid_of_size(TOKEN_LEN)
}

/// `name` with every space replaced by `_`.
pub open spec fn sanitized(name: Seq<char>) -> Seq<char> {
    name.map_values(|c: char| if c == ' ' { '_' } else { c })
}

/// The stored name for a job: `<token>_<name>`, where the name is the sender's,
/// sanitized, or else the last component of the source path; none if that has none.
pub open spec fn final_name_of(token: Seq<char>, requested: Option<String>, source: Seq<char>) -> Option<
    Seq<char>,
> {
    match requested {
        Some(n) => Some(token + seq!['_'] + sanitized(n@)),
        None => match file_name_of(source) {
            Some(b) => Some(token + seq!['_'] + b),
            None => None,
        },
    }
}

/// `name` with every space replaced by `_`.
pub fn sanitize(name: &str) -> (r: Vec<char>)
    ensures
        r@ == sanitized(name@),
{
    let c = chars_of(name);
    let mut r: Vec<char> = Vec::new();
    let mut i: usize = 0;
    while i < c.len()
        invariant
            i <= c.len(),
            r@ == sanitized(c@).subrange(0, i as int),
        decreases c.len() - i,
    {
        if c[i] == ' ' {
            r.push('_');
        } else {
            r.push(c[i]);
        }
        i = i + 1;
        assert(r@ =~= sanitized(c@).subrange(0, i as int));
    }
    assert(sanitized(c@).subrange(0, i as int) =~= sanitized(c@));
    r
}

/// The stored name for `item` with the given token, `file_path_or_name` being the
/// source's path (or the name derived from its URL).
pub fn generate_final_file_name(item: &FileQueueItem, token: &str, file_path_or_name: &str) -> (r:
    Option<String>)
    ensures
        r matches Some(s) ==> final_name_of(token@, item.file_name, file_path_or_name@) == Some(s@),
        r is None ==> final_name_of(token@, item.file_name, file_path_or_name@) is None,
{
    let base: Vec<char> = match &item.file_name {
        Some(n) => sanitize(n.as_str()),
        None => match get_file_name_from_path(file_path_or_name) {
            Some(b) => chars_of(b.as_str()),
            None => {
                return None;
            },
        },
    };
    let mut out = chars_of(token);
    out.push('_');
    push_all(&mut out, &base);
    assert(out@ =~= token@ + seq!['_'] + base@);
    Some(string_of(&out))
}

/// The text `filename=`.
pub open spec fn filename_key() -> Seq<char> {
    seq!['f', 'i', 'l', 'e', 'n', 'a', 'm', 'e', '=']
}

/// The name a `Content-Disposition` value gives: the text between its first
/// `filename=` and the next one (or the end), without surrounding quotes.
pub open spec fn disposition_name(h: Seq<char>) -> Option<Seq<char>> {
    let parts = split_seq(h, filename_key());
    if parts.len() > 1 {
        Some(unquoted(parts[1]))
    } else {
        None
    }
}

/// The last `/`-separated piece of a URL.
pub open spec fn url_last_piece(url: Seq<char>) -> Seq<char> {
    split_seq(url, seq!['/']).last()
}

/// The name a URL download is saved under, before the token: the one the
/// `Content-Disposition` header gives, else the URL's last piece; none if empty.
pub open spec fn response_name_of(disposition: Option<String>, url: Seq<char>) -> Option<Seq<char>> {
    let n = match disposition {
        Some(h) => match disposition_name(h@) {
            Some(x) => x,
            None => url_last_piece(url),
        },
        None => url_last_piece(url),
    };
    if n.len() == 0 {
        None
    } else {
        Some(n)
    }
}

/// The name a URL download is saved under, before the token.
pub fn file_name_from_response(disposition: &Option<String>, url: &str) -> (r: Option<String>)
    ensures
        r matches Some(s) ==> response_name_of(*disposition, url@) == Some(s@),
        r is None ==> response_name_of(*disposition, url@) is None,
{
    let uc = chars_of(url);
    let slash: Vec<char> = vec!['/'];
    assert(slash@ =~= seq!['/']);
    let pieces = split_chars(&uc, &slash);
    proof {
        lemma_split_nonempty(uc@, seq!['/']);
    }
    let last = &pieces[pieces.len() - 1];
    assert(views(pieces@).last() == last@);
    let mut name: Vec<char> = Vec::new();
    push_all(&mut name, last);
    assert(name@ =~= url_last_piece(url@));
    if let Some(h) = disposition {
        let hc = chars_of(h.as_str());
        let key: Vec<char> = vec!['f', 'i', 'l', 'e', 'n', 'a', 'm', 'e', '='];
        assert(key@ =~= filename_key());
        let parts = split_chars(&hc, &key);
        if parts.len() > 1 {
            assert(views(parts@)[1] == parts[1]@);
            name = unquote_chars(&parts[1]);
        }
    }
    if name.len() == 0 {
        None
    } else {
        Some(string_of(&name))
    }
}

/// Two stored names made for the same requested name differ whenever their tokens
/// differ; and the sanitized name holds no space, only `_` where spaces were.
pub proof fn lemma_final_names_distinct(t1: Seq<char>, t2: Seq<char>, name: String, source: Seq<char>)
    requires
        is_token(t1),
        is_token(t2),
        t1 != t2,
    ensures
        final_name_of(t1, Some(name), source) != final_name_of(t2, Some(name), source),
        !sanitized(name@).contains(' '),
        sanitized(name@).len() == name@.len(),
        forall|i: int|
            0 <= i < name@.len() ==> #[trigger] sanitized(name@)[i] == (if name@[i] == ' ' {
                '_'
            } else {
                name@[i]
            }),
{
    let a = t1 + seq!['_'] + sanitized(name@);
    let b = t2 + seq!['_'] + sanitized(name@);
    if a == b {
        assert(a.subrange(0, 5) =~= t1);
        assert(b.subrange(0, 5) =~= t2);
    }
    if sanitized(name@).contains(' ') {
        let i = choose|i: int| 0 <= i < sanitized(name@).len() && sanitized(name@)[i] == ' ';
        assert(sanitized(name@)[i] == (if name@[i] == ' ' { '_' } else { name@[i] }));
    }
}

} // verus!
