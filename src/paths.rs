//! File names taken from slash-separated paths, as `std::path::Path` reads them.

use vstd::prelude::*;
use crate::text::{chars_of, push_all, split_chars, split_seq, string_of, views};

verus! {

/// A piece of a path that names something: not empty and not `.`.
pub open spec fn is_named_piece(c: Seq<char>) -> bool {
    c.len() > 0 && c != seq!['.']
}

/// The components of a path that `Path::components` reports as names or `..`:
/// repeated separators and `.` pieces are dropped.
pub open spec fn path_components(p: Seq<char>) -> Seq<Seq<char>> {
    split_seq(p, seq!['/']).filter(|c: Seq<char>| is_named_piece(c))
}

/// The final component of a path, unless there is none or it is `..`.
pub open spec fn file_name_of(p: Seq<char>) -> Option<Seq<char>> {
    let cs = path_components(p);
    if cs.len() == 0 || cs.last() == seq!['.', '.'] {
        None
    } else {
        Some(cs.last())
    }
}

/// `<parent>/<name>` made of the last two components of a path, when both are names.
pub open spec fn folder_and_file_name_of(p: Seq<char>) -> Option<Seq<char>> {
    let cs = path_components(p);
    if cs.len() < 2 || cs.last() == seq!['.', '.'] || cs[cs.len() - 2] == seq!['.', '.'] {
        None
    } else {
        Some(cs[cs.len() - 2] + seq!['/'] + cs.last())
    }
}

fn is_dot_dot(v: &Vec<char>) -> (r: bool)
    ensures
        r == (v@ == seq!['.', '.']),
{
    let r = v.len() == 2 && v[0] == '.' && v[1] == '.';
    if v.len() == 2 {
        assert(r ==> v@ =~= seq!['.', '.']);
    }
    r
}

fn path_components_of(p: &Vec<char>) -> (r: Vec<Vec<char>>)
    ensures
        views(r@) == path_components(p@),
{
    let sep: Vec<char> = vec!['/'];
    assert(sep@ =~= seq!['/']);
    let pieces = split_chars(p, &sep);
    let ghost pred = |c: Seq<char>| is_named_piece(c);
    let mut r: Vec<Vec<char>> = Vec::new();
    let mut i: usize = 0;
    assert(views(pieces@).subrange(0, 0).filter(pred) =~= Seq::<Seq<char>>::empty()) by {
        reveal(Seq::filter);
    }
    while i < pieces.len()
        invariant
            i <= pieces.len(),
            pred == (|c: Seq<char>| is_named_piece(c)),
            views(r@) == views(pieces@).subrange(0, i as int).filter(pred),
        decreases pieces.len() - i,
    {
        let piece = &pieces[i];
        let ghost before = views(pieces@).subrange(0, i as int);
        let ghost now = views(pieces@).subrange(0, i + 1);
        assert(now.drop_last() =~= before);
        assert(now.last() == piece@);
        let keep = piece.len() > 0 && !(piece.len() == 1 && piece[0] == '.');
        if piece.len() == 1 {
            assert(piece@ == seq!['.'] <==> piece@ =~= seq!['.']);
            assert(piece@ == seq!['.'] <==> piece[0] == '.');
        }
        assert(keep == pred(piece@));
        let ghost old_r = r@;
        if keep {
            r.push(piece.clone());
            assert(views(r@) =~= views(old_r).push(piece@));
        }
        assert(now.filter(pred) == (if pred(now.last()) {
            before.filter(pred).push(now.last())
        } else {
            before.filter(pred)
        })) by {
            reveal(Seq::filter);
        }
        i = i + 1;
    }
    assert(views(pieces@).subrange(0, pieces.len() as int) =~= views(pieces@));
    r
}

/// The final component of `path`; `None` when the path has none or ends in `..`.
pub fn get_file_name_from_path(path: &str) -> (r: Option<String>)
    ensures
        r matches Some(s) ==> file_name_of(path@) == Some(s@),
        r is None ==> file_name_of(path@) is None,
{
    let chars = chars_of(path);
    let cs = path_components_of(&chars);
    if cs.len() == 0 {
        return None;
    }
    let last = &cs[cs.len() - 1];
    assert(views(cs@).last() == last@);
    if is_dot_dot(last) {
        None
    } else {
        Some(string_of(last))
    }
}

/// `<parent>/<name>` from the last two components of `path`; `None` unless both are names.
pub fn get_folder_and_file_name(path: &str) -> (r: Option<String>)
    ensures
        r matches Some(s) ==> folder_and_file_name_of(path@) == Some(s@),
        r is None ==> folder_and_file_name_of(path@) is None,
{
    let chars = chars_of(path);
    let cs = path_components_of(&chars);
    let n = cs.len();
    if n < 2 {
        return None;
    }
    let last = &cs[n - 1];
    let parent = &cs[n - 2];
    assert(views(cs@).last() == last@);
    assert(views(cs@)[n - 2] == parent@);
    if is_dot_dot(last) || is_dot_dot(parent) {
        return None;
    }
    let mut out: Vec<char> = Vec::new();
    push_all(&mut out, parent);
    out.push('/');
    push_all(&mut out, last);
    assert(out@ =~= parent@ + seq!['/'] + last@);
    Some(string_of(&out))
}

} // verus!
