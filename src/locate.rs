use vstd::prelude::*;
use vstd::string::StringExecFns;

verus! {

/// One immediate child of an item directory, as the directory listing gives it.
pub struct DirEntry {
    pub name: String,
    pub is_file: bool,
}

impl View for DirEntry {
    type V = (Seq<char>, bool);

    open spec fn view(&self) -> (Seq<char>, bool) {
        (self.name@, self.is_file)
    }
}

/// `name` has the extension `ext`: it ends in a dot followed by `ext`, the dot is
/// the last one of the name, and it is not the name's first character (a name
/// such as `.m4s` is hidden and has no extension; neither has `..`).
pub open spec fn has_extension(name: Seq<char>, ext: Seq<char>) -> bool {
    let p = name.len() - ext.len() - 1;
    &&& name.len() >= ext.len() + 2
    &&& name[p] == '.'
    &&& name.subrange(p + 1, name.len() as int) == ext
    &&& !ext.contains('.')
    &&& name != seq!['.', '.']
}

/// The names of the files among `entries` whose extension is `ext`, in listing order.
pub open spec fn selected(entries: Seq<(Seq<char>, bool)>, ext: Seq<char>) -> Seq<Seq<char>>
    decreases entries.len(),
{
    if entries.len() == 0 {
        seq![]
    } else {
        let rest = selected(entries.drop_last(), ext);
        let e = entries.last();
        if e.1 && has_extension(e.0, ext) {
            rest.push(e.0)
        } else {
            rest
        }
    }
}

fn chars_equal_from(a: &str, start: usize, b: &str) -> (r: bool)
    requires
        start + b@.len() == a@.len(),
    ensures
        r == (a@.subrange(start as int, a@.len() as int) == b@),
{
    let n = b.unicode_len();
    let m = a.unicode_len();
    let mut i: usize = 0;
    while i < n
        invariant
            n == b@.len(),
            m == a@.len(),
            start + n == a@.len(),
            i <= n,
            forall|k: int| 0 <= k < i ==> a@[start + k] == b@[k],
        decreases n - i,
    {
        if a.get_char(start + i) != b.get_char(i) {
            assert(a@.subrange(start as int, a@.len() as int)[i as int] != b@[i as int]);
            return false;
        }
        i = i + 1;
    }
    assert(a@.subrange(start as int, a@.len() as int) =~= b@);
    true
}

fn contains_dot(s: &str) -> (r: bool)
    ensures
        r == s@.contains('.'),
{
    let n = s.unicode_len();
    let mut i: usize = 0;
    while i < n
        invariant
            n == s@.len(),
            i <= n,
            forall|k: int| 0 <= k < i ==> s@[k] != '.',
        decreases n - i,
    {
        if s.get_char(i) == '.' {
            return true;
        }
        i = i + 1;
    }
    false
}

/// Whether the file name `name` has the extension `ext`.
pub fn matches_extension(name: &str, ext: &str) -> (r: bool)
    ensures
        r == has_extension(name@, ext@),
{
    let n = name.unicode_len();
    let e = ext.unicode_len();
    if n < 2 || n - 2 < e {
        return false;
    }
    let p = n - e - 1;
    if name.get_char(p) != '.' || contains_dot(ext) {
        return false;
    }
    if n == 2 && name.get_char(0) == '.' {
        assert(name@ =~= seq!['.', '.']);
        return false;
    }
    proof {
        if name@ == seq!['.', '.'] {
            assert(name@[0] == '.');
        }
    }
    chars_equal_from(name, p + 1, ext)
}

/// The segment files of an item: the names of the entries that are files and whose
/// extension is `extension`, in the order of the listing.
pub fn get_files_by_extension(entries: &Vec<DirEntry>, extension: &str) -> (r: Vec<String>)
    ensures
        r@.map_values(|s: String| s@) == selected(entries@.map_values(|e: DirEntry| e@), extension@),
{
    let ghost all = entries@.map_values(|e: DirEntry| e@);
    let mut out: Vec<String> = Vec::new();
    let mut i: usize = 0;
    while i < entries.len()
        invariant
            i <= entries@.len(),
            all == entries@.map_values(|e: DirEntry| e@),
            out@.map_values(|s: String| s@) == selected(all.subrange(0, i as int), extension@),
        decreases entries@.len() - i,
    {
        let e = &entries[i];
        proof {
            assert(all.subrange(0, i + 1).drop_last() =~= all.subrange(0, i as int));
            assert(all.subrange(0, i + 1).last() == e@);
        }
        if e.is_file && matches_extension(e.name.as_str(), extension) {
            out.push(String::from_str(e.name.as_str()));
            assert(out@.map_values(|s: String| s@) =~= selected(all.subrange(0, i as int), extension@).push(e.name@));
        }
        i = i + 1;
    }
    assert(all.subrange(0, entries@.len() as int) =~= all);
    out
}

} // verus!
