//! Listing of directories and archive bundles.
//!
//! A lister decides, name by name, which entries of a directory or members
//! of a bundle are listed and under which name. Symbolic links and entries
//! whose kind is unknown are never listed.

use vstd::prelude::*;
use crate::date::{is_valid_date_chars, valid_date};
use crate::sample::{is_sample_ext_chars, valid_ext};
use crate::text::{chars_of, ends_with, same_chars};

verus! {

/// What kind of thing a directory entry is.
#[derive(Clone, Copy, Debug, PartialEq, Eq, Structural)]
pub enum FileKind {
    /// A directory.
    Dir,
    /// Anything that is neither a directory nor a symbolic link.
    File,
    /// A symbolic link, whatever it points to.
    Symlink,
}

/// One entry of a directory, as it was read.
#[derive(Debug, PartialEq, Eq)]
pub struct DirEntry {
    /// The entry's base name; `None` where it is not valid text.
    pub name: Option<String>,
    /// The entry's kind; `None` where it cannot be queried.
    pub kind: Option<FileKind>,
}

/// A name that may be listed, and whether it names a directory.
pub type Candidate = Option<(Seq<char>, bool)>;

impl DirEntry {
    /// The entry as a candidate for listing: nothing for a symbolic link,
    /// and nothing where the name or the kind is unknown.
    pub open spec fn candidate(&self) -> Candidate {
        match (self.kind, self.name) {
            (Some(FileKind::Dir), Some(name)) => Some((name@, true)),
            (Some(FileKind::File), Some(name)) => Some((name@, false)),
            _ => None,
        }
    }

    /// Whether the entry is a symbolic link.
    pub open spec fn is_symlink(&self) -> bool {
        self.kind == Some(FileKind::Symlink)
    }
}

/// The candidates that the entries of a directory give.
pub open spec fn dir_candidates(entries: Seq<DirEntry>) -> Seq<Candidate> {
    entries.map_values(|e: DirEntry| e.candidate())
}

/// The index of the last `c` in `s`, or -1 where there is none.
pub open spec fn last_index_of(s: Seq<char>, c: char) -> int
    decreases s.len(),
{
    if s.len() == 0 {
        -1
    } else if s.last() == c {
        s.len() - 1
    } else {
        last_index_of(s.drop_last(), c)
    }
}

/// The base name of a bundle member: what follows the last `/`.
pub open spec fn base_name(name: Seq<char>) -> Seq<char> {
    name.subrange(last_index_of(name, '/') + 1, name.len() as int)
}

/// The extension of a file name: what follows its last dot, unless that
/// dot begins the name.
pub open spec fn extension(name: Seq<char>) -> Option<Seq<char>> {
    let dot = last_index_of(name, '.');
    if dot > 0 {
        Some(name.subrange(dot + 1, name.len() as int))
    } else {
        None
    }
}

/// The stem of a file name: what precedes its extension.
pub open spec fn file_stem(name: Seq<char>) -> Seq<char> {
    let dot = last_index_of(name, '.');
    if dot > 0 {
        name.subrange(0, dot)
    } else {
        name
    }
}

/// The candidates that the member names of a bundle give: each member is
/// taken by its base name, as a file.
pub open spec fn member_candidates(names: Seq<Option<Seq<char>>>) -> Seq<Candidate> {
    names.map_values(
        |n: Option<Seq<char>>|
            match n {
                Some(name) => Some((base_name(name), false)),
                None => None,
            },
    )
}

/// The candidates that a bundle gives, the bundle given as the bytes of the
/// file: none where there is no file or the file is no archive.
pub open spec fn bundle_candidates(bundle: Option<Vec<u8>>) -> Seq<Candidate> {
    match bundle {
        Some(bytes) => match crate::bundle::unzip_names(bytes@) {
            Some(names) => member_candidates(names),
            None => Seq::empty(),
        },
        None => Seq::empty(),
    }
}

/// The text of an optional string slice.
pub open spec fn opt_text(s: Option<&str>) -> Option<Seq<char>> {
    match s {
        Some(t) => Some(t@),
        None => None,
    }
}

/// Finds the last `c` in `v`.
pub fn find_last(v: &Vec<char>, c: char) -> (r: Option<usize>)
    ensures
        match r {
            Some(i) => i == last_index_of(v@, c) && i < v.len(),
            None => last_index_of(v@, c) == -1,
        },
{
    let mut i: usize = v.len();
    assert(v@.subrange(0, i as int) == v@);
    while i > 0
        invariant
            i <= v.len(),
            last_index_of(v@, c) == last_index_of(v@.subrange(0, i as int), c),
        decreases i,
    {
        assert(v@.subrange(0, i as int).drop_last() == v@.subrange(0, i - 1));
        if v[i - 1] == c {
            return Some(i - 1);
        }
        i -= 1;
    }
    None
}

/// The texts of a sequence of strings.
pub open spec fn texts(v: Seq<String>) -> Seq<Seq<char>> {
    v.map_values(|s: String| s@)
}

/// Which names a lister lists.
pub enum Pick {
    /// Directories, under their own name.
    Dirs,
    /// Directories named by a date, under that date, and files named by a
    /// date followed by `.traffic`, under that date too.
    Dates,
    /// Files whose extension is a sample file extension, under their stem.
    Sensors,
    /// Files whose stem is `sid` and whose extension is a sample file
    /// extension, under that extension.
    Extensions { sid: Seq<char> },
}

/// The name under which an entry called `name` is listed, `dir` telling
/// whether it is a directory; `None` where it is left out.
pub open spec fn keeps(pick: Pick, name: Seq<char>, dir: bool) -> Option<Seq<char>> {
    match pick {
        Pick::Dirs => if dir {
            Some(name)
        } else {
            None
        },
        Pick::Dates => if dir {
            if valid_date(name) {
                Some(name)
            } else {
                None
            }
        } else if name.len() == 16 && ".traffic"@.is_suffix_of(name) && valid_date(
            name.subrange(0, 8),
        ) {
            Some(name.subrange(0, 8))
        } else {
            None
        },
        Pick::Sensors => match extension(name) {
            Some(ext) => if !dir && valid_ext(ext) {
                Some(file_stem(name))
            } else {
                None
            },
            None => None,
        },
        Pick::Extensions { sid } => match extension(name) {
            Some(ext) => if !dir && file_stem(name) == sid && valid_ext(ext) {
                Some(ext)
            } else {
                None
            },
            None => None,
        },
    }
}

/// The names that are listed of the candidates, in their order.
pub open spec fn kept(pick: Pick, candidates: Seq<Candidate>) -> Seq<Seq<char>>
    decreases candidates.len(),
{
    if candidates.len() == 0 {
        Seq::empty()
    } else {
        let rest = kept(pick, candidates.drop_last());
        match candidates.last() {
            Some((name, dir)) => match keeps(pick, name, dir) {
                Some(n) => rest.push(n),
                None => rest,
            },
            None => rest,
        }
    }
}

/// Symbolic links are never listed: a directory lists the same names as
/// it would without its symbolic links.
pub proof fn law_symlinks_are_not_listed(pick: Pick, entries: Seq<DirEntry>)
    ensures
        kept(pick, dir_candidates(entries)) == kept(
            pick,
            dir_candidates(entries.filter(|e: DirEntry| !e.is_symlink())),
        ),
    decreases entries.len(),
{
    reveal(Seq::filter);
    let solid = |e: DirEntry| !e.is_symlink();
    if entries.len() > 0 {
        let rest = entries.drop_last();
        let last = entries.last();
        law_symlinks_are_not_listed(pick, rest);
        assert(dir_candidates(entries).drop_last() == dir_candidates(rest));
        if solid(last) {
            let some = rest.filter(solid).push(last);
            assert(entries.filter(solid) == some);
            assert(dir_candidates(some).drop_last() == dir_candidates(rest.filter(solid)));
        } else {
            assert(entries.filter(solid) == rest.filter(solid));
            assert(last.candidate() is None);
        }
    } else {
        assert(entries.filter(solid) == entries);
    }
}

/// Every name that a directory lists is the name that some entry is
/// listed under, and that entry is no symbolic link.
pub proof fn law_listed_names_have_an_entry(pick: Pick, entries: Seq<DirEntry>, k: int) -> (i: int)
    requires
        0 <= k < kept(pick, dir_candidates(entries)).len(),
    ensures
        0 <= i < entries.len(),
        !entries[i].is_symlink(),
        entries[i].candidate() matches Some((name, dir)) && keeps(pick, name, dir) == Some(
            kept(pick, dir_candidates(entries))[k],
        ),
    decreases entries.len(),
{
    let rest = entries.drop_last();
    assert(dir_candidates(entries).drop_last() == dir_candidates(rest));
    if k < kept(pick, dir_candidates(rest)).len() {
        law_listed_names_have_an_entry(pick, rest, k)
    } else {
        entries.len() - 1
    }
}

/// Candidates from two sources, one after the other, list what each
/// source lists, one after the other.
pub proof fn law_listing_of_both(pick: Pick, a: Seq<Candidate>, b: Seq<Candidate>)
    ensures
        kept(pick, a + b) == kept(pick, a) + kept(pick, b),
    decreases b.len(),
{
    if b.len() == 0 {
        assert(a + b == a);
        assert(kept(pick, a) + kept(pick, b) == kept(pick, a));
    } else {
        law_listing_of_both(pick, a, b.drop_last());
        assert((a + b).drop_last() == a + b.drop_last());
        assert((a + b).last() == b.last());
        let x = kept(pick, a);
        let y = kept(pick, b.drop_last());
        match b.last() {
            Some((name, dir)) => match keeps(pick, name, dir) {
                Some(n) => {
                    assert((x + y).push(n) == x + y.push(n));
                },
                None => {},
            },
            None => {},
        }
    }
}

/// The base name of a bundle member.
pub fn base_name_of(name: &str) -> (r: &str)
    ensures
        r@ == base_name(name@),
{
    let v = chars_of(name);
    match find_last(&v, '/') {
        Some(i) => name.substring_char(i + 1, v.len()),
        None => {
            assert(name@.subrange(0, name@.len() as int) == name@);
            name
        },
    }
}

/// Decides which names are listed.
pub trait FileLister {
    /// Which names this lister lists.
    spec fn pick(&self) -> Pick;

    /// Checks a file or bundle member by name: gives the name under which
    /// it is listed, or `None` where it is left out.
    fn check<'a, 'b>(&'a self, name: &'b str, dir: bool) -> (r: Option<&'b str>)
        ensures
            opt_text(r) == keeps(self.pick(), name@, dir),
    ;
}

/// Lister for directories.
pub struct DirLister;

impl FileLister for DirLister {
    open spec fn pick(&self) -> Pick {
        Pick::Dirs
    }

    fn check<'a, 'b>(&'a self, name: &'b str, dir: bool) -> (r: Option<&'b str>) {
        if dir {
            Some(name)
        } else {
            None
        }
    }
}

/// Lister for valid dates.
pub struct DateLister;

impl FileLister for DateLister {
    open spec fn pick(&self) -> Pick {
        Pick::Dates
    }

    fn check<'a, 'b>(&'a self, name: &'b str, dir: bool) -> (r: Option<&'b str>) {
        let v = chars_of(name);
        if dir {
            if is_valid_date_chars(&v) {
                return Some(name);
            }
        } else if v.len() == 16 {
            let dext = chars_of(".traffic");
            if ends_with(&v, &dext) {
                let date = name.substring_char(0, 8);
                let d = chars_of(date);
                if is_valid_date_chars(&d) {
                    return Some(date);
                }
            }
        }
        None
    }
}

/// Lister for sensor IDs.
pub struct SidLister;

impl FileLister for SidLister {
    open spec fn pick(&self) -> Pick {
        Pick::Sensors
    }

    fn check<'a, 'b>(&'a self, name: &'b str, dir: bool) -> (r: Option<&'b str>) {
        if !dir {
            let v = chars_of(name);
            if let Some(dot) = find_last(&v, '.') {
                if dot > 0 {
                    let ext = chars_of(name.substring_char(dot + 1, v.len()));
                    if is_sample_ext_chars(&ext) {
                        return Some(name.substring_char(0, dot));
                    }
                }
            }
        }
        None
    }
}

/// Lister for sample file extensions.
pub struct ExtLister<'s> {
    /// The sensor whose files are listed.
    pub sid: &'s str,
}

impl<'s> FileLister for ExtLister<'s> {
    open spec fn pick(&self) -> Pick {
        Pick::Extensions { sid: self.sid@ }
    }

    fn check<'a, 'b>(&'a self, name: &'b str, dir: bool) -> (r: Option<&'b str>) {
        if !dir {
            let v = chars_of(name);
            if let Some(dot) = find_last(&v, '.') {
                if dot > 0 {
                    let stem = chars_of(name.substring_char(0, dot));
                    let sid = chars_of(self.sid);
                    if same_chars(&stem, &sid) {
                        let ext = name.substring_char(dot + 1, v.len());
                        let e = chars_of(ext);
                        if is_sample_ext_chars(&e) {
                            return Some(ext);
                        }
                    }
                }
            }
        }
        None
    }
}

/// Gets the list of the entries of a directory. A directory that could
/// not be read is given as `None` and lists nothing.
pub fn list_dir<L: FileLister>(lister: &L, entries: &Option<Vec<DirEntry>>) -> (list: Vec<String>)
    ensures
        texts(list@) == kept(
            lister.pick(),
            match entries {
                Some(e) => dir_candidates(e@),
                None => Seq::empty(),
            },
        ),
{
    let mut list: Vec<String> = Vec::new();
    if let Some(entries) = entries {
        let ghost cands = dir_candidates(entries@);
        let mut i: usize = 0;
        assert(texts(list@) =~= Seq::empty());
        while i < entries.len()
            invariant
                i <= entries.len(),
                cands == dir_candidates(entries@),
                texts(list@) == kept(lister.pick(), cands.subrange(0, i as int)),
            decreases entries.len() - i,
        {
            let entry = &entries[i];
            let ghost before = list@;
            proof {
                assert(cands.subrange(0, i + 1).drop_last() == cands.subrange(0, i as int));
                assert(cands.subrange(0, i + 1).last() == entry.candidate());
            }
            if let Some(kind) = entry.kind {
                if kind != FileKind::Symlink {
                    if let Some(name) = &entry.name {
                        if let Some(e) = lister.check(name.as_str(), kind == FileKind::Dir) {
                            list.push(e.to_owned());
                            assert(texts(list@) =~= texts(before).push(e@));
                        }
                    }
                }
            }
            i += 1;
        }
        assert(cands.subrange(0, i as int) == cands);
    } else {
        assert(texts(list@) =~= Seq::empty());
    }
    list
}

/// Gets the list of the members of a bundle whose names are `names`.
pub fn list_names<L: FileLister>(lister: &L, names: &Vec<Option<String>>) -> (list: Vec<String>)
    ensures
        texts(list@) == kept(lister.pick(), member_candidates(crate::bundle::opt_texts(names@))),
{
    let mut list: Vec<String> = Vec::new();
    let ghost cands = member_candidates(crate::bundle::opt_texts(names@));
    let mut i: usize = 0;
    assert(texts(list@) =~= Seq::empty());
    while i < names.len()
        invariant
            i <= names.len(),
            cands == member_candidates(crate::bundle::opt_texts(names@)),
            texts(list@) == kept(lister.pick(), cands.subrange(0, i as int)),
        decreases names.len() - i,
    {
        let ghost before = list@;
        proof {
            assert(cands.subrange(0, i + 1).drop_last() == cands.subrange(0, i as int));
        }
        if let Some(name) = &names[i] {
            if let Some(e) = lister.check(base_name_of(name.as_str()), false) {
                list.push(e.to_owned());
                assert(texts(list@) =~= texts(before).push(e@));
            }
        }
        i += 1;
    }
    assert(cands.subrange(0, i as int) == cands);
    list
}

/// Gets the list of the members of a bundle, given as the bytes of the
/// file. A bundle that could not be read is given as `None` and lists
/// nothing, and so does one that is no archive.
pub fn list_zip<L: FileLister>(lister: &L, bundle: Option<Vec<u8>>) -> (list: Vec<String>)
    ensures
        texts(list@) == kept(lister.pick(), bundle_candidates(bundle)),
{
    if let Some(bytes) = bundle {
        if let Some(names) = crate::bundle::member_names(bytes) {
            return list_names(lister, &names);
        }
    }
    let list: Vec<String> = Vec::new();
    assert(texts(list@) =~= Seq::empty());
    list
}

} // verus!
