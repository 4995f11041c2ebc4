use vstd::prelude::*;

use std::io::Cursor;
use std::io::Read;
use zip::result::ZipError;
use zip::ZipArchive;

verus! {

#[verifier::external_type_specification]
#[verifier::external_body]
#[verifier::reject_recursive_types(T)]
pub struct ExCursor<T>(Cursor<T>);

#[verifier::external_type_specification]
#[verifier::external_body]
#[verifier::reject_recursive_types(R)]
pub struct ExZipArchive<R>(ZipArchive<R>);

#[verifier::external_type_specification]
#[verifier::external_body]
pub struct ExZipError(ZipError);

/// One entry of an archive as it reads: its bytes and the directory of its
/// path, or nothing where it cannot be read.
pub type EntryView = Option<(Seq<u8>, Option<Seq<char>>)>;

/// The directory of an entry as characters.
pub open spec fn dir_view(d: Option<String>) -> Option<Seq<char>> {
    match d {
        Some(s) => Some(s@),
        None => None,
    }
}

/// Whether the bytes open as a zip archive.
pub uninterp spec fn zip_opens(payload: Seq<u8>) -> bool;

/// The entries of the archive that the bytes hold, in their order.
pub uninterp spec fn zip_contents(payload: Seq<u8>) -> Seq<EntryView>;

/// The entries of an opened archive, in their order.
pub uninterp spec fn archive_entries(a: ZipArchive<Cursor<Vec<u8>>>) -> Seq<EntryView>;

/// Relies on `ZipArchive::new`: reads the central directory of the bytes,
/// failing when they hold no zip archive.
#[verifier::external_body]
fn open_archive(payload: Vec<u8>) -> (r: Result<ZipArchive<Cursor<Vec<u8>>>, ZipError>)
    ensures
        r is Ok <==> zip_opens(payload@),
        r is Ok ==> archive_entries(r->Ok_0) == zip_contents(payload@),
{
    ZipArchive::new(Cursor::new(payload))
}

/// Relies on `ZipArchive::len`: the number of entries.
#[verifier::external_body]
fn archive_len(a: &ZipArchive<Cursor<Vec<u8>>>) -> (r: usize)
    ensures
        r == archive_entries(*a).len(),
{
    a.len()
}

/// Relies on `ZipArchive::by_index_decrypt` with the entry's `Read` impl and
/// `ZipFile::mangled_name`: the entry's whole contents and the parent
/// directory of its sanitised path. The empty password makes a failed
/// password check come back as a value (where `by_index` would unwrap it);
/// it is reported as the error `by_index` gives for an encrypted entry.
#[verifier::external_body]
fn read_entry(a: &mut ZipArchive<Cursor<Vec<u8>>>, index: usize) -> (r: Result<(Vec<u8>, Option<String>), ZipError>)
    requires
        index < archive_entries(*old(a)).len(),
    ensures
        archive_entries(*final(a)) == archive_entries(*old(a)),
        r is Ok <==> archive_entries(*old(a))[index as int] is Some,
        r is Ok ==> (r->Ok_0.0@, dir_view(r->Ok_0.1)) == archive_entries(*old(a))[index as int]->Some_0,
{
    let mut file = match a.by_index_decrypt(index, &[])? {
        Ok(f) => f,
        Err(_) => return Err(ZipError::UnsupportedArchive(ZipError::PASSWORD_REQUIRED)),
    };
    let mut buffer = Vec::new();
    file.read_to_end(&mut buffer)?;
    let dir = file.mangled_name().parent().map(|p| p.to_string_lossy().into_owned());
    Ok((buffer, dir))
}

/// One entry to extract: its bytes and the directory it belongs in.
pub struct ExtractJob {
    pub data: Vec<u8>,
    pub dest_dir: String,
}

/// Why an archive could not be unpacked. Both mean corrupt data, which no
/// retry mends.
#[derive(Clone, Copy, Debug, PartialEq, Eq, Structural)]
pub enum DispatchError {
    /// The payload is no zip archive.
    CorruptArchive,
    /// The entry at this index cannot be read, or has no directory.
    UnreadableEntry(usize),
}

/// An entry that reads and has a directory.
pub open spec fn entry_usable(e: EntryView) -> bool {
    e is Some && e->Some_0.1 is Some
}

/// The job that a usable entry gives.
pub open spec fn job_matches(j: ExtractJob, e: EntryView) -> bool {
    j.data@ == e->Some_0.0 && j.dest_dir@ == e->Some_0.1->Some_0
}

/// Opens `payload` as a zip archive and reads every entry, in order, into a
/// job for the extraction stage. Fails on a payload that is no archive, and
/// at the first entry that cannot be read.
pub fn dispatch(payload: Vec<u8>) -> (r: Result<Vec<ExtractJob>, DispatchError>)
    ensures
        r == Err::<Vec<ExtractJob>, DispatchError>(DispatchError::CorruptArchive) <==> !zip_opens(payload@),
        r is Ok ==> zip_opens(payload@) && all_jobs(r->Ok_0@, zip_contents(payload@)),
        (r is Err && r->Err_0 is UnreadableEntry) ==> zip_opens(payload@) && first_unusable(
            zip_contents(payload@),
            r->Err_0->UnreadableEntry_0 as int,
        ),
{
    let ghost contents = zip_contents(payload@);
    let ghost opens = zip_opens(payload@);
    let mut archive = match open_archive(payload) {
        Ok(a) => a,
        Err(_) => return Err(DispatchError::CorruptArchive),
    };
    let n = archive_len(&archive);
    let mut jobs: Vec<ExtractJob> = Vec::new();
    let mut i: usize = 0;
    while i < n
        invariant
            0 <= i <= n,
            opens,
            opens == zip_opens(payload@),
            contents == zip_contents(payload@),
            n == contents.len(),
            archive_entries(archive) == contents,
            jobs@.len() == i,
            forall|j: int| 0 <= j < i ==> entry_usable(#[trigger] contents[j]),
            forall|j: int| 0 <= j < i ==> job_matches(#[trigger] jobs@[j], contents[j]),
        decreases n - i,
    {
        let entry = read_entry(&mut archive, i);
        let (data, dir) = match entry {
            Ok(pair) => pair,
            Err(_) => return Err(DispatchError::UnreadableEntry(i)),
        };
        let dest_dir = match dir {
            Some(d) => d,
            None => return Err(DispatchError::UnreadableEntry(i)),
        };
        proof {
            assert(dir_view(Some(dest_dir)) == Some(dest_dir@));
        }
        jobs.push(ExtractJob { data, dest_dir });
        i += 1;
    }
    Ok(jobs)
}

/// Every entry is usable and the jobs are its contents, in order.
pub open spec fn all_jobs(jobs: Seq<ExtractJob>, contents: Seq<EntryView>) -> bool {
    &&& jobs.len() == contents.len()
    &&& forall|i: int| 0 <= i < contents.len() ==> entry_usable(#[trigger] contents[i])
    &&& forall|i: int| 0 <= i < jobs.len() ==> job_matches(#[trigger] jobs[i], contents[i])
}

/// `k` is the first entry that is not usable.
pub open spec fn first_unusable(contents: Seq<EntryView>, k: int) -> bool {
    &&& 0 <= k < contents.len()
    &&& !entry_usable(contents[k])
    &&& forall|i: int| 0 <= i < k ==> entry_usable(#[trigger] contents[i])
}

} // verus!
