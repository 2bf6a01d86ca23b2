//! The upload ledger: which source files were already uploaded, each marked by
//! a file whose name is made of the source's name and size.

use vstd::prelude::*;
use crate::text::{lemma_decimal_round_trip, all_digits, decimal_of, decimal_string, digits_value, is_digit};

verus! {

/// A source file as a scan saw it: its name and its length in bytes. The pair
/// is the file's identity in the ledger.
#[derive(Debug, Clone)]
pub struct FileEntry {
    file_name: String,
    len: u64,
}

impl FileEntry {
    pub closed spec fn name(&self) -> Seq<char> {
        self.file_name@
    }

    pub closed spec fn size(&self) -> u64 {
        self.len
    }

    pub fn new(file_name: String, len: u64) -> (r: FileEntry)
        ensures
            r.name() == file_name@,
            r.size() == len,
    {
        FileEntry { file_name, len }
    }

    pub fn file_name(&self) -> (r: &str)
        ensures
            r@ == self.name(),
    {
        self.file_name.as_str()
    }

    pub fn len(&self) -> (r: u64)
        ensures
            r == self.size(),
    {
        self.len
    }
}

/// The directory that holds the ledger's markers.
pub open spec fn db_path_spec() -> Seq<char> {
    "/var/lib/upload-stick/uploaded"@
}

/// The marker of a file: `<name>_<size>` in the ledger's directory.
pub open spec fn entry_path_spec(name: Seq<char>, size: u64) -> Seq<char> {
    db_path_spec() + seq!['/'] + name + seq!['_'] + decimal_of(size as nat)
}

pub fn db_path() -> (r: String)
    ensures
        r@ == db_path_spec(),
{
    String::from_str("/var/lib/upload-stick/uploaded")
}

/// The path of the marker that records `entry` as uploaded.
pub fn entry_path(entry: &FileEntry) -> (r: String)
    ensures
        r@ == entry_path_spec(entry.name(), entry.size()),
{
    proof {
        reveal_strlit("/");
        reveal_strlit("_");
    }
    let mut path = db_path();
    path.append("/");
    path.append(entry.file_name.as_str());
    path.append("_");
    let size = decimal_string(entry.len);
    path.append(size.as_str());
    path
}

/// Two files share a marker only if they have the same name and the same
/// size: a name seen with two sizes gives two entries of the ledger.
pub proof fn lemma_entry_path_injective(name1: Seq<char>, size1: u64, name2: Seq<char>, size2: u64)
    requires
        entry_path_spec(name1, size1) == entry_path_spec(name2, size2),
    ensures
        name1 == name2,
        size1 == size2,
{
    let d1 = decimal_of(size1 as nat);
    let d2 = decimal_of(size2 as nat);
    lemma_decimal_round_trip(size1 as nat);
    lemma_decimal_round_trip(size2 as nat);
    let p = db_path_spec() + seq!['/'];
    let k1 = name1 + seq!['_'] + d1;
    let k2 = name2 + seq!['_'] + d2;
    assert(entry_path_spec(name1, size1) =~= p + k1);
    assert(entry_path_spec(name2, size2) =~= p + k2);
    assert(k1 =~= (p + k1).subrange(p.len() as int, (p + k1).len() as int));
    assert(k2 =~= (p + k2).subrange(p.len() as int, (p + k2).len() as int));
    assert(k1 == k2);
    let t = k1.len();
    if d1.len() < d2.len() {
        let i = t - d1.len() - 1;
        assert(k1[i] == '_');
        assert(k2[i] == d2[i - (name2.len() + 1)]);
        assert(is_digit(d2[i - (name2.len() + 1)]));
        assert(false);
    } else if d2.len() < d1.len() {
        let i = t - d2.len() - 1;
        assert(k2[i] == '_');
        assert(k1[i] == d1[i - (name1.len() + 1)]);
        assert(is_digit(d1[i - (name1.len() + 1)]));
        assert(false);
    } else {
        assert(d1 =~= k1.subrange(t - d1.len(), t as int));
        assert(d2 =~= k2.subrange(t - d2.len(), t as int));
        assert(name1 =~= k1.subrange(0, name1.len() as int));
        assert(name2 =~= k2.subrange(0, name2.len() as int));
    }
}

} // verus!
