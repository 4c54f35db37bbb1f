//! Archive bundles: ZIP containers that hold a day's sample files.
//!
//! A bundle is handed over as the bytes of the file. Reading the ZIP format
//! is left to the `zip` crate; what it reports is named here so that the
//! listing and reading functions can say exactly what they return.

use vstd::prelude::*;
use std::io::Cursor;
use std::io::Read;
use zip::ZipArchive;

verus! {

/// `zip::ZipArchive`, an open archive over a reader. Nothing of its inside
/// is known here.
#[verifier::external_type_specification]
#[verifier::external_body]
#[verifier::reject_recursive_types(R)]
pub struct ExZipArchive<R>(zip::ZipArchive<R>);

/// `std::io::Cursor`, the reader that an archive in memory is read
/// through. Nothing of its inside is known here.
#[verifier::external_type_specification]
#[verifier::external_body]
#[verifier::reject_recursive_types(T)]
pub struct ExCursor<T>(std::io::Cursor<T>);

/// The names of the members of an open archive, by index: `None` where a
/// member or its name cannot be read.
pub uninterp spec fn archive_names(a: ZipArchive<Cursor<Vec<u8>>>) -> Seq<Option<Seq<char>>>;

/// The bytes that an open archive reads from.
pub uninterp spec fn archive_source(a: ZipArchive<Cursor<Vec<u8>>>) -> Seq<u8>;

/// The member names of the archive that `bytes` hold, by index, or `None`
/// where they hold no archive that can be opened.
pub uninterp spec fn unzip_names(bytes: Seq<u8>) -> Option<Seq<Option<Seq<char>>>>;

/// The uncompressed size that the archive in `bytes` declares for the
/// member called `name`, or `None` where no such member can be opened.
pub uninterp spec fn member_size(bytes: Seq<u8>, name: Seq<char>) -> Option<nat>;

/// The first `len` bytes of the uncompressed member called `name` of the
/// archive in `bytes`, or `None` where they cannot be read.
pub uninterp spec fn member_data(bytes: Seq<u8>, name: Seq<char>, len: nat) -> Option<Seq<u8>>;

/// The texts of a sequence of optional strings.
pub open spec fn opt_texts(v: Seq<Option<String>>) -> Seq<Option<Seq<char>>> {
    v.map_values(
        |s: Option<String>|
            match s {
                Some(t) => Some(t@),
                None => None,
            },
    )
}

/// Opens the archive that `bytes` hold, with `zip::ZipArchive::new` on a
/// cursor over them. The contract names what the archive holds and records
/// the bytes it was opened from; it promises nothing of whether the bytes
/// are an archive.
#[verifier::external_body]
pub(crate) fn open_archive(bytes: Vec<u8>) -> (r: Option<ZipArchive<Cursor<Vec<u8>>>>)
    ensures
        match r {
            Some(a) => unzip_names(bytes@) == Some(archive_names(a)) && archive_source(a)
                == bytes@,
            None => unzip_names(bytes@) is None,
        },
{
    ZipArchive::new(Cursor::new(bytes)).ok()
}

/// The number of members, from `zip::ZipArchive::len`: the number of
/// entries of the archive's central directory.
#[verifier::external_body]
pub(crate) fn archive_len(a: &ZipArchive<Cursor<Vec<u8>>>) -> (n: usize)
    ensures
        n == archive_names(*a).len(),
{
    a.len()
}

/// The name of the member at index `i`, from `zip::ZipArchive::by_index`
/// and `ZipFile::name`. The archive holds the same members afterwards.
#[verifier::external_body]
pub(crate) fn name_at(a: &mut ZipArchive<Cursor<Vec<u8>>>, i: usize) -> (r: Option<String>)
    ensures
        archive_names(*final(a)) == archive_names(*old(a)),
        archive_source(*final(a)) == archive_source(*old(a)),
        i < archive_names(*old(a)).len() ==> match r {
            Some(s) => archive_names(*old(a))[i as int] == Some(s@),
            None => archive_names(*old(a))[i as int] is None,
        },
{
    let file = a.by_index(i).ok()?;
    let name = file.name().ok()?;
    Some(name.into_owned())
}

/// The declared uncompressed size of the member that
/// `zip::ZipArchive::by_name` finds for `name`, from `ZipFile::size`.
#[verifier::external_body]
pub(crate) fn size_by_name(a: &mut ZipArchive<Cursor<Vec<u8>>>, name: &str) -> (r: Option<u64>)
    ensures
        archive_names(*final(a)) == archive_names(*old(a)),
        archive_source(*final(a)) == archive_source(*old(a)),
        match r {
            Some(n) => member_size(archive_source(*old(a)), name@) == Some(n as nat),
            None => member_size(archive_source(*old(a)), name@) is None,
        },
{
    let file = a.by_name(name).ok()?;
    Some(file.size())
}

/// Exactly `len` bytes read with `read_exact` from the member that
/// `zip::ZipArchive::by_name` finds for `name`. A buffer cannot be longer
/// than `isize::MAX`.
#[verifier::external_body]
pub(crate) fn read_by_name(a: &mut ZipArchive<Cursor<Vec<u8>>>, name: &str, len: usize) -> (r: Option<
    Vec<u8>,
>)
    requires
        len <= isize::MAX,
    ensures
        archive_names(*final(a)) == archive_names(*old(a)),
        archive_source(*final(a)) == archive_source(*old(a)),
        match r {
            Some(d) => member_data(archive_source(*old(a)), name@, len as nat) == Some(d@)
                && d@.len() == len,
            None => member_data(archive_source(*old(a)), name@, len as nat) is None,
        },
{
    let mut file = a.by_name(name).ok()?;
    let mut data = vec![0u8; len];
    file.read_exact(&mut data[..]).ok()?;
    Some(data)
}

/// The member names of a bundle, by index: `None` where the bytes hold no
/// archive, and `None` in place of a name that cannot be read.
pub fn member_names(bundle: Vec<u8>) -> (r: Option<Vec<Option<String>>>)
    ensures
        match r {
            Some(names) => unzip_names(bundle@) == Some(opt_texts(names@)),
            None => unzip_names(bundle@) is None,
        },
{
    let ghost bytes = bundle@;
    match open_archive(bundle) {
        Some(mut a) => {
            let ghost all = archive_names(a);
            let mut names: Vec<Option<String>> = Vec::new();
            let n = archive_len(&a);
            let mut i: usize = 0;
            while i < n
                invariant
                    i <= n,
                    n == all.len(),
                    archive_names(a) == all,
                    opt_texts(names@) == all.subrange(0, i as int),
                decreases n - i,
            {
                let name = name_at(&mut a, i);
                let ghost before = names@;
                names.push(name);
                i += 1;
                assert(opt_texts(names@) =~= opt_texts(before).push(all[i - 1]));
                assert(all.subrange(0, i as int) =~= all.subrange(0, i - 1).push(all[i - 1]));
            }
            assert(all.subrange(0, n as int) == all);
            Some(names)
        },
        None => None,
    }
}

} // verus!
