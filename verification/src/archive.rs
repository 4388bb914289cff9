//! Reading gzip-compressed tar archives into plain entry lists. The
//! decompression and the tar format are the business of outside crates; what
//! they yield is modelled as a function of the archive bytes, and everything
//! that is decided about the entries afterwards is verified.

use vstd::prelude::*;

use crate::strutil::rfind_char;

verus! {

/// One archive entry: its path inside the archive, its contents, whether it
/// is a regular file, and, for a link entry, the path it points to.
pub struct ArchiveEntry {
    pub path: String,
    pub data: Vec<u8>,
    pub is_file: bool,
    pub link_target: Option<String>,
}

/// The plain view of an entry list.
pub open spec fn entry_views(s: Seq<ArchiveEntry>) -> Seq<
    (Seq<char>, Seq<u8>, bool, Option<Seq<char>>),
> {
    s.map_values(
        |e: ArchiveEntry|
            (
                e.path@,
                e.data@,
                e.is_file,
                match e.link_target {
                    Some(t) => Some(t@),
                    None => None,
                },
            ),
    )
}

/// The bytes that gzip decompression assigns to a compressed stream.
pub uninterp spec fn gunzip_of(data: Seq<u8>) -> Seq<u8>;

/// Whether gzip decompression accepts a stream.
pub uninterp spec fn gunzip_ok(data: Seq<u8>) -> bool;

/// The entry list (path, contents, regular-file flag, link target) that the
/// tar format assigns to an archive.
pub uninterp spec fn tar_entries_of(data: Seq<u8>) -> Seq<
    (Seq<char>, Seq<u8>, bool, Option<Seq<char>>),
>;

/// Whether the tar format accepts an archive.
pub uninterp spec fn tar_ok(data: Seq<u8>) -> bool;

/// Relies on flate2's `GzDecoder`: the decompressed bytes, and whether
/// decompression succeeds at all, are functions of the compressed bytes
/// alone; a malformed stream is refused.
#[verifier::external_body]
fn gunzip(data: &[u8]) -> (r: Option<Vec<u8>>)
    ensures
        r is Some <==> gunzip_ok(data@),
        r matches Some(v) ==> v@ == gunzip_of(data@),
{
    let mut out: Vec<u8> = Vec::new();
    let mut dec = flate2::read::GzDecoder::new(data);
    match std::io::Read::read_to_end(&mut dec, &mut out) {
        Ok(_) => Some(out),
        Err(_) => None,
    }
}

/// Relies on tar's `Archive`: the entries, their paths, their contents,
/// their types and their link targets, and whether the archive is accepted
/// at all, are functions of the archive bytes alone (entry paths decode by
/// the host family's convention); a malformed archive is refused.
#[verifier::external_body]
fn tar_entries(data: &[u8]) -> (r: Option<Vec<ArchiveEntry>>)
    ensures
        r is Some <==> tar_ok(data@),
        r matches Some(v) ==> entry_views(v@) == tar_entries_of(data@),
{
    let mut out: Vec<ArchiveEntry> = Vec::new();
    for entry in tar::Archive::new(data).entries().ok()? {
        let mut entry = entry.ok()?;
        let path = entry.path().ok()?.to_string_lossy().into_owned();
        let is_file = entry.header().entry_type().is_file();
        let link_target = entry.link_name().ok()?.map(|p| p.to_string_lossy().into_owned());
        let mut data: Vec<u8> = Vec::new();
        std::io::Read::read_to_end(&mut entry, &mut data).ok()?;
        out.push(ArchiveEntry { path, data, is_file, link_target });
    }
    Some(out)
}

/// The entry list of a gzip-compressed tar archive; it is yielded exactly
/// when both layers accept their input.
pub fn read_tar_gz(data: &[u8]) -> (r: Option<Vec<ArchiveEntry>>)
    ensures
        r is Some <==> gunzip_ok(data@) && tar_ok(gunzip_of(data@)),
        r matches Some(v) ==> entry_views(v@) == tar_entries_of(gunzip_of(data@)),
{
    let decompressed = gunzip(data)?;
    tar_entries(decompressed.as_slice())
}

/// The file-name part of a `/`-separated path: everything after the last
/// separator.
pub open spec fn basename_of(p: Seq<char>) -> Seq<char> {
    let i = rfind_char(p, '/');
    if i < 0 {
        p
    } else {
        p.skip(i + 1)
    }
}

/// The extension of a path's file name: everything after the last dot,
/// unless the only dot leads the name.
pub open spec fn extension_of(p: Seq<char>) -> Option<Seq<char>> {
    let b = basename_of(p);
    let j = rfind_char(b, '.');
    if j <= 0 {
        None
    } else {
        Some(b.skip(j + 1))
    }
}

/// The file-name part of a `/`-separated path.
pub fn basename(p: &str) -> (r: String)
    ensures
        r@ == basename_of(p@),
{
    proof {
        crate::strutil::lemma_rfind_char(p@, '/');
    }
    match crate::strutil::rfind_in_str(p, '/') {
        Some(i) => {
            let n = p.unicode_len();
            let r = p.substring_char(i + 1, n);
            proof {
                assert(p@.subrange(i + 1, p@.len() as int) =~= p@.skip(i + 1));
            }
            r.to_owned()
        },
        None => p.to_owned(),
    }
}

/// Whether the path's file name carries `ext` as its extension.
pub fn has_extension(p: &str, ext: &str) -> (r: bool)
    ensures
        r == (extension_of(p@) == Some(ext@)),
{
    let b = basename(p);
    proof {
        crate::strutil::lemma_rfind_char(b@, '.');
    }
    match crate::strutil::rfind_in_str(b.as_str(), '.') {
        Some(j) => {
            if j == 0 {
                false
            } else {
                let n = b.unicode_len();
                let e = b.as_str().substring_char(j + 1, n);
                proof {
                    assert(b@.subrange(j + 1, b@.len() as int) =~= b@.skip(j + 1));
                }
                crate::strutil::str_eq(e, ext)
            }
        },
        None => false,
    }
}

} // verus!
