//! The names of the files that a scan finds and that the encoder writes.

use vstd::prelude::*;

verus! {

/// The position of the last `.` in `s`.
pub open spec fn last_dot(s: Seq<char>) -> Option<int>
    decreases s.len(),
{
    if s.len() == 0 {
        None
    } else if s.last() == '.' {
        Some(s.len() - 1)
    } else {
        last_dot(s.drop_last())
    }
}

pub open spec fn is_dot_dot(s: Seq<char>) -> bool {
    s == seq!['.', '.']
}

/// The extension of a file name: what follows its last dot, where that dot
/// is not the name's first character (`.profile` has none).
pub open spec fn extension_of(name: Seq<char>) -> Option<Seq<char>> {
    if is_dot_dot(name) {
        None
    } else {
        match last_dot(name) {
            Some(i) => if i > 0 {
                Some(name.subrange(i + 1, name.len() as int))
            } else {
                None
            },
            None => None,
        }
    }
}

/// A file name without its extension.
pub open spec fn stem_of(name: Seq<char>) -> Seq<char> {
    if is_dot_dot(name) {
        name
    } else {
        match last_dot(name) {
            Some(i) => if i > 0 {
                name.subrange(0, i)
            } else {
                name
            },
            None => name,
        }
    }
}

/// The name that the encoder's output gets: the stem with its own extension,
/// if any, replaced by `ogg`.
pub open spec fn encoded_name_spec(name: Seq<char>) -> Seq<char> {
    stem_of(stem_of(name)) + seq!['.', 'o', 'g', 'g']
}

/// Finds the last dot of `s`.
fn find_last_dot(s: &str) -> (r: Option<usize>)
    ensures
        r is None <==> last_dot(s@) is None,
        r matches Some(k) ==> last_dot(s@) == Some(k as int) && k < s@.len(),
{
    let mut j: usize = s.unicode_len();
    assert(s@.subrange(0, j as int) =~= s@);
    while j > 0
        invariant
            j <= s@.len(),
            last_dot(s@) == last_dot(s@.subrange(0, j as int)),
        decreases j,
    {
        let ghost pre = s@.subrange(0, j as int);
        if s.get_char(j - 1) == '.' {
            return Some(j - 1);
        }
        assert(pre.drop_last() =~= s@.subrange(0, j - 1));
        j = j - 1;
    }
    None
}

fn is_two_dots(s: &str) -> (r: bool)
    ensures
        r == is_dot_dot(s@),
{
    let r = s.unicode_len() == 2 && s.get_char(0) == '.' && s.get_char(1) == '.';
    assert(r ==> s@ =~= seq!['.', '.']);
    r
}

/// A file name without its extension.
pub fn file_stem(name: &str) -> (r: &str)
    ensures
        r@ == stem_of(name@),
{
    if is_two_dots(name) {
        return name;
    }
    match find_last_dot(name) {
        Some(i) => if i > 0 {
            name.substring_char(0, i)
        } else {
            name
        },
        None => name,
    }
}

/// Tells whether a file is a source recording: its extension is `wav`.
pub fn is_wav(file_name: &str) -> (r: bool)
    ensures
        r == (extension_of(file_name@) == Some(seq!['w', 'a', 'v'])),
{
    if is_two_dots(file_name) {
        return false;
    }
    match find_last_dot(file_name) {
        Some(i) => if i > 0 {
            let n = file_name.unicode_len();
            let ext = file_name.substring_char(i + 1, n);
            let r = ext.unicode_len() == 3 && ext.get_char(0) == 'w' && ext.get_char(1) == 'a'
                && ext.get_char(2) == 'v';
            assert(r == (ext@ =~= seq!['w', 'a', 'v']));
            r
        } else {
            false
        },
        None => false,
    }
}

/// The name of the compressed file that the encoder makes from a source file.
pub fn encoded_name(file_name: &str) -> (r: String)
    ensures
        r@ == encoded_name_spec(file_name@),
{
    proof {
        reveal_strlit(".ogg");
    }
    let mut r = String::from_str(file_stem(file_stem(file_name)));
    r.append(".ogg");
    r
}

} // verus!
