//! Reading the machine-readable listings of the partition tool.

use vstd::prelude::*;
use crate::command::Error;
use crate::text::{all_digits, is_ascii_digit, leading_digits, lines, lines_of, split_on, split_str, trim, trim_str, views};

verus! {

/// A line whose trimmed text ends with the free-space marker `free;`.
pub open spec fn is_free_line(l: Seq<char>) -> bool {
    let t = trim(l);
    t.len() >= 5 && t.subrange(t.len() - 5, t.len() as int) == seq!['f', 'r', 'e', 'e', ';']
}

/// A line whose trimmed text starts with `1:`, the entry of partition number one.
pub open spec fn is_partition1_line(l: Seq<char>) -> bool {
    let t = trim(l);
    t.len() >= 2 && t[0] == '1' && t[1] == ':'
}

/// The last free-space line of `ls`.
pub open spec fn last_free_line(ls: Seq<Seq<char>>) -> Option<Seq<char>>
    decreases ls.len(),
{
    if ls.len() == 0 {
        None
    } else if is_free_line(ls.last()) {
        Some(ls.last())
    } else {
        last_free_line(ls.drop_last())
    }
}

/// The first line of partition number one in `ls`.
pub open spec fn first_partition1_line(ls: Seq<Seq<char>>) -> Option<Seq<char>>
    decreases ls.len(),
{
    if ls.len() == 0 {
        None
    } else if is_partition1_line(ls[0]) {
        Some(ls[0])
    } else {
        first_partition1_line(ls.drop_first())
    }
}

/// The colon-separated fields of a line.
pub open spec fn fields_of(l: Seq<char>) -> Seq<Seq<char>> {
    split_on(l, ':')
}

fn is_free_marked(line: &str) -> (r: bool)
    ensures
        r == is_free_line(line@),
{
    let t = trim_str(line);
    let n = t.as_str().unicode_len();
    if n < 5 {
        return false;
    }
    let tail = t.as_str().substring_char(n - 5, n);
    let r = tail.get_char(0) == 'f' && tail.get_char(1) == 'r' && tail.get_char(2) == 'e'
        && tail.get_char(3) == 'e' && tail.get_char(4) == ';';
    assert(r == (tail@ =~= seq!['f', 'r', 'e', 'e', ';']));
    r
}

fn is_partition1(line: &str) -> (r: bool)
    ensures
        r == is_partition1_line(line@),
{
    let t = trim_str(line);
    let n = t.as_str().unicode_len();
    n >= 2 && t.as_str().get_char(0) == '1' && t.as_str().get_char(1) == ':'
}

/// Finds the last region of free space in a listing of a disk in megabytes,
/// and returns its start and its end as the listing writes them.
pub fn parted_find_last_free(parted_output: &str) -> (r: Result<(String, String), Error>)
    ensures
        match last_free_line(lines_of(parted_output@)) {
            None => r matches Err(Error::PartitionFreeNotFound(o)) && o@ == parted_output@,
            Some(l) => if fields_of(l).len() >= 3 {
                r matches Ok((from, to)) && from@ == trim(fields_of(l)[1]) && to@ == trim(
                    fields_of(l)[2],
                )
            } else {
                r matches Err(Error::PartitionFreeFieldsNotFound(x)) && x@ == l
            },
        },
{
    let ls = lines(parted_output);
    let mut found: Option<usize> = None;
    let mut k: usize = 0;
    assert(views(ls@).subrange(0, 0) =~= Seq::<Seq<char>>::empty());
    while k < ls.len()
        invariant
            k <= ls@.len(),
            views(ls@) == lines_of(parted_output@),
            match found {
                None => last_free_line(views(ls@).subrange(0, k as int)) is None,
                Some(i) => i < k && last_free_line(views(ls@).subrange(0, k as int)) == Some(
                    ls@[i as int]@,
                ),
            },
        decreases ls@.len() - k,
    {
        assert(views(ls@).subrange(0, k + 1).drop_last() =~= views(ls@).subrange(0, k as int));
        if is_free_marked(ls[k].as_str()) {
            found = Some(k);
        }
        k = k + 1;
    }
    assert(views(ls@).subrange(0, ls@.len() as int) =~= views(ls@));
    match found {
        None => Err(Error::PartitionFreeNotFound(String::from_str(parted_output))),
        Some(i) => {
            let line = ls[i].as_str();
            let fields = split_str(line, ':');
            if fields.len() >= 3 {
                assert(fields@[1]@ == fields_of(line@)[1]);
                assert(fields@[2]@ == fields_of(line@)[2]);
                Ok((trim_str(fields[1].as_str()), trim_str(fields[2].as_str())))
            } else {
                Err(Error::PartitionFreeFieldsNotFound(ls[i].clone()))
            }
        },
    }
}

/// Finds partition number one in a listing of a disk in sectors, and returns
/// its start and its length as the listing writes them.
pub fn parted_find_first_start_length(parted_output: &str) -> (r: Result<(String, String), Error>)
    ensures
        match first_partition1_line(lines_of(parted_output@)) {
            None => r matches Err(Error::Partition1NotFound(o)) && o@ == parted_output@,
            Some(l) => if fields_of(l).len() >= 4 {
                r matches Ok((from, length)) && from@ == trim(fields_of(l)[1]) && length@ == trim(
                    fields_of(l)[3],
                )
            } else {
                r matches Err(Error::PartitionFieldsNotFound(x)) && x@ == l
            },
        },
{
    let ls = lines(parted_output);
    let mut k: usize = 0;
    assert(views(ls@).subrange(0, ls@.len() as int) =~= views(ls@));
    while k < ls.len()
        invariant
            k <= ls@.len(),
            views(ls@) == lines_of(parted_output@),
            first_partition1_line(views(ls@)) == first_partition1_line(
                views(ls@).subrange(k as int, ls@.len() as int),
            ),
        decreases ls@.len() - k,
    {
        let ghost rest = views(ls@).subrange(k as int, ls@.len() as int);
        assert(rest[0] == ls@[k as int]@);
        if is_partition1(ls[k].as_str()) {
            let line = ls[k].as_str();
            let fields = split_str(line, ':');
            if fields.len() >= 4 {
                assert(fields@[1]@ == fields_of(line@)[1]);
                assert(fields@[3]@ == fields_of(line@)[3]);
                return Ok((trim_str(fields[1].as_str()), trim_str(fields[3].as_str())));
            } else {
                return Err(Error::PartitionFieldsNotFound(ls[k].clone()));
            }
        }
        assert(rest.drop_first() =~= views(ls@).subrange(k + 1, ls@.len() as int));
        k = k + 1;
    }
    Err(Error::Partition1NotFound(String::from_str(parted_output)))
}

/// Drops the unit that follows a number: the leading decimal digits of `s`.
pub fn drop_units(s: &str) -> (r: String)
    ensures
        r@ == leading_digits(s@),
{
    let n = s.unicode_len();
    let mut i: usize = 0;
    assert(s@.subrange(0, n as int) =~= s@);
    assert(s@.subrange(0, 0) + s@ =~= s@);
    while i < n && is_ascii_digit(s.get_char(i))
        invariant
            n == s@.len(),
            i <= n,
            leading_digits(s@) == s@.subrange(0, i as int) + leading_digits(
                s@.subrange(i as int, n as int),
            ),
        decreases n - i,
    {
        let ghost rest = s@.subrange(i as int, n as int);
        assert(rest.drop_first() =~= s@.subrange(i + 1, n as int));
        assert(s@.subrange(0, i as int) + (seq![s@[i as int]] + leading_digits(rest.drop_first()))
            =~= s@.subrange(0, i + 1) + leading_digits(rest.drop_first()));
        i = i + 1;
    }
    assert(leading_digits(s@.subrange(i as int, n as int)) =~= Seq::<char>::empty());
    assert(s@.subrange(0, i as int) + Seq::<char>::empty() =~= s@.subrange(0, i as int));
    String::from_str(s.substring_char(0, i))
}

/// The start and the length of partition number one in a listing, where the
/// listing has them.
pub open spec fn partition_extent(parted_output: Seq<char>) -> Option<(Seq<char>, Seq<char>)> {
    match first_partition1_line(lines_of(parted_output)) {
        Some(l) => if fields_of(l).len() >= 4 {
            Some((trim(fields_of(l)[1]), trim(fields_of(l)[3])))
        } else {
            None
        },
        None => None,
    }
}

/// The error that a listing without a usable partition number one gives.
pub open spec fn is_extent_error(parted_output: Seq<char>, e: Error) -> bool {
    match first_partition1_line(lines_of(parted_output)) {
        None => e matches Error::Partition1NotFound(o) && o@ == parted_output,
        Some(l) => e matches Error::PartitionFieldsNotFound(x) && x@ == l,
    }
}

/// The device-mapper table of a linear mapping of `length` sectors onto
/// `device`, from sector `start` on: `0 <length> linear <device> <start>`.
pub open spec fn linear_table_spec(start: Seq<char>, length: Seq<char>, device: Seq<char>) -> Seq<
    char,
> {
    seq!['0', ' '] + leading_digits(length) + seq![' ', 'l', 'i', 'n', 'e', 'a', 'r', ' '] + device
        + seq![' '] + leading_digits(start)
}

/// The table of a mapping that exposes partition number one of `device`,
/// given the listing of that device in sectors.
pub fn linear_table(parted_output: &str, device: &str) -> (r: Result<String, Error>)
    ensures
        match partition_extent(parted_output@) {
            Some((start, length)) => r matches Ok(t) && t@ == linear_table_spec(
                start,
                length,
                device@,
            ),
            None => r matches Err(e) && is_extent_error(parted_output@, e),
        },
{
    proof {
        reveal_strlit("0 ");
        reveal_strlit(" linear ");
        reveal_strlit(" ");
    }
    match parted_find_first_start_length(parted_output) {
        Ok((start, length)) => {
            let mut t = String::from_str("0 ");
            let l = drop_units(length.as_str());
            t.append(l.as_str());
            t.append(" linear ");
            t.append(device);
            t.append(" ");
            let s = drop_units(start.as_str());
            t.append(s.as_str());
            Ok(t)
        },
        Err(e) => Err(e),
    }
}

/// A field that is a bare number, with no unit after it, is kept whole.
pub proof fn lemma_drop_units_keeps_numbers(s: Seq<char>)
    requires
        all_digits(s),
    ensures
        leading_digits(s) == s,
    decreases s.len(),
{
    if s.len() > 0 {
        assert(all_digits(s.drop_first()));
        lemma_drop_units_keeps_numbers(s.drop_first());
        assert(seq![s[0]] + s.drop_first() =~= s);
    }
}

/// Lines that are not the entry of partition number one, inserted anywhere
/// among the lines of a listing, do not change which line is found.
pub proof fn lemma_other_lines_ignored(ls: Seq<Seq<char>>, i: int, x: Seq<char>)
    requires
        0 <= i <= ls.len(),
        !is_partition1_line(x),
    ensures
        first_partition1_line(ls.insert(i, x)) == first_partition1_line(ls),
    decreases i,
{
    let ls2 = ls.insert(i, x);
    if i == 0 {
        assert(ls2.drop_first() =~= ls);
    } else {
        assert(ls2[0] == ls[0]);
        assert(ls2.drop_first() =~= ls.drop_first().insert(i - 1, x));
        lemma_other_lines_ignored(ls.drop_first(), i - 1, x);
    }
}

/// A listing with such a line inserted gives the same partition extent, and
/// fails, if it fails, on the same line.
pub proof fn lemma_other_lines_keep_extent(text: Seq<char>, text2: Seq<char>, i: int, x: Seq<char>)
    requires
        0 <= i <= lines_of(text).len(),
        !is_partition1_line(x),
        lines_of(text2) == lines_of(text).insert(i, x),
    ensures
        first_partition1_line(lines_of(text2)) == first_partition1_line(lines_of(text)),
        partition_extent(text2) == partition_extent(text),
{
    lemma_other_lines_ignored(lines_of(text), i, x);
}

} // verus!
