//! The library's trusted base: the types and calls of the crates `zip`, `nbt`
//! and `flate2` that the verified code builds on. What is stated here is
//! taken from the sources of these crates and is believed, not proved.

use vstd::prelude::*;
use vstd::utf8::encode_utf8;

verus! {

/// The error of the zip crate, `zip::result::ZipError`. Nothing is known of
/// its contents.
#[verifier::external_type_specification]
#[verifier::external_body]
pub struct ExZipError(zip::result::ZipError);

/// The error of std's readers and writers, `std::io::Error`. Nothing is
/// known of its contents.
#[verifier::external_type_specification]
#[verifier::external_body]
pub struct ExIoError(std::io::Error);

/// The compound tag of the nbt crate, `nbt::CompoundTag`: a tree document.
/// Nothing is known of its contents.
#[verifier::external_type_specification]
#[verifier::external_body]
pub struct ExCompoundTag(nbt::CompoundTag);

/// An archive in the making, kept in memory: a `zip::ZipWriter` that writes
/// into a byte vector.
#[verifier::external_body]
pub struct ArchiveWriter {
    inner: zip::ZipWriter<std::io::Cursor<Vec<u8>>>,
}

/// The files that an archive in the making holds so far, in the order in
/// which they were started: the name of each, and the bytes written to it.
pub uninterp spec fn archive_entries(writer: ArchiveWriter) -> Seq<(Seq<char>, Seq<u8>)>;

/// Whether an archive in the making still takes files and bytes: the
/// `zip::ZipWriter` has not been closed, and where it holds a file, the one
/// that was started last is still being written.
pub uninterp spec fn archive_open(writer: ArchiveWriter) -> bool;

/// The bytes of the zip container that `zip::ZipWriter::finish` makes of the
/// given files, each of them stored without compression and dated
/// 1980-01-01.
pub uninterp spec fn stored_archive(entries: Seq<(Seq<char>, Seq<u8>)>) -> Seq<u8>;

/// The binary form that `nbt::encode::write_compound_tag` gives a tree
/// document, where it gives one.
pub uninterp spec fn tree_bytes(document: nbt::CompoundTag) -> Option<Seq<u8>>;

/// The gzip stream that `flate2::write::GzEncoder` makes of a run of bytes at
/// its default level, where it makes one.
pub uninterp spec fn gzip_stream(data: Seq<u8>) -> Option<Seq<u8>>;

/// What the zip crate's error says of itself, by its `Display`.
#[verifier::external_body]
pub(crate) fn zip_error_text(error: &zip::result::ZipError) -> String {
    error.to_string()
}

/// What std's I/O error says of itself, by its `Display`.
#[verifier::external_body]
pub(crate) fn io_error_text(error: &std::io::Error) -> String {
    error.to_string()
}

/// `zip::ZipWriter::new` over an empty buffer: the new archive holds no file
/// and is open.
#[verifier::external_body]
pub(crate) fn new_archive() -> (writer: ArchiveWriter)
    ensures
        archive_entries(writer) == Seq::<(Seq<char>, Seq<u8>)>::empty(),
        archive_open(writer),
{
    ArchiveWriter { inner: zip::ZipWriter::new(std::io::Cursor::new(Vec::new())) }
}

/// `zip::ZipWriter::start_file`, with options for a file that is stored
/// without compression and dated 1980-01-01. The call succeeds on an open
/// archive; where it succeeds, the archive is open and holds one more file,
/// named `path` and empty so far. A name of more than 65,535 bytes is left
/// out: the container has two bytes for the length of a name, and the call
/// does not look at it.
#[verifier::external_body]
pub(crate) fn start_file(writer: &mut ArchiveWriter, path: &str) -> (r: Result<
    (),
    zip::result::ZipError,
>)
    requires
        encode_utf8(path@).len() <= 0xFFFF,
    ensures
        archive_open(*old(writer)) ==> r is Ok,
        r is Ok ==> archive_open(*final(writer)),
        r is Ok ==> archive_entries(*final(writer)) == archive_entries(*old(writer)).push(
            (path@, Seq::<u8>::empty()),
        ),
{
    let options = zip::write::FileOptions::default()
        .compression_method(zip::CompressionMethod::Stored)
        .last_modified_time(zip::DateTime::default());
    writer.inner.start_file(path, options)
}

/// `std::io::Write::write_all` on the `zip::ZipWriter`, after a file was
/// started. The call succeeds on an open archive where the file does not
/// come to hold more than 4,294,967,295 bytes, and it does not succeed with
/// data that would take the file beyond that. Where it succeeds, `data`
/// stands at the end of the file that was started last, the other files are
/// as they were, and the archive is open if it was. (With no data the call
/// succeeds without touching the archive, open or not.)
#[verifier::external_body]
pub(crate) fn write_all(writer: &mut ArchiveWriter, data: &[u8]) -> (r: Result<(), std::io::Error>)
    requires
        archive_entries(*old(writer)).len() > 0,
    ensures
        archive_open(*old(writer)) && archive_entries(*old(writer)).last().1.len() + data@.len()
            <= 0xFFFF_FFFF ==> r is Ok,
        r is Ok && data@.len() > 0 ==> archive_entries(*old(writer)).last().1.len() + data@.len()
            <= 0xFFFF_FFFF,
        r is Ok ==> (archive_open(*final(writer)) <==> archive_open(*old(writer))),
        r is Ok ==> archive_entries(*final(writer)) == archive_entries(
            *old(writer),
        ).drop_last().push(
            (
                archive_entries(*old(writer)).last().0,
                archive_entries(*old(writer)).last().1 + data@,
            ),
        ),
{
    std::io::Write::write_all(&mut writer.inner, data)
}

/// `zip::ZipWriter::finish`: the call succeeds on an open archive, and where
/// it succeeds, it hands out the zip container of the files that the archive
/// held.
#[verifier::external_body]
pub(crate) fn finish_archive(writer: &mut ArchiveWriter) -> (r: Result<
    Vec<u8>,
    zip::result::ZipError,
>)
    ensures
        archive_open(*old(writer)) ==> r is Ok,
        r matches Ok(bytes) ==> bytes@ == stored_archive(archive_entries(*old(writer))),
{
    match writer.inner.finish() {
        Ok(cursor) => Ok(cursor.into_inner()),
        Err(e) => Err(e),
    }
}

/// `nbt::encode::write_compound_tag` into an empty buffer: the binary form
/// of the document, or the encoder's error where it has none.
#[verifier::external_body]
pub(crate) fn write_tree(document: &nbt::CompoundTag) -> (r: Result<Vec<u8>, std::io::Error>)
    ensures
        match r {
            Ok(bytes) => tree_bytes(*document) == Some(bytes@),
            Err(_) => tree_bytes(*document) is None,
        },
{
    let mut buffer = Vec::new();
    match nbt::encode::write_compound_tag(&mut buffer, document) {
        Ok(()) => Ok(buffer),
        Err(e) => Err(e),
    }
}

/// `flate2::write::GzEncoder` at `flate2::Compression::default()`, fed
/// `data` and finished: the gzip stream, or the encoder's error where it
/// makes none.
#[verifier::external_body]
pub(crate) fn gzip(data: &[u8]) -> (r: Result<Vec<u8>, std::io::Error>)
    ensures
        match r {
            Ok(bytes) => gzip_stream(data@) == Some(bytes@),
            Err(_) => gzip_stream(data@) is None,
        },
{
    let mut encoder = flate2::write::GzEncoder::new(Vec::new(), flate2::Compression::default());
    match std::io::Write::write_all(&mut encoder, data) {
        Ok(()) => encoder.finish(),
        Err(e) => Err(e),
    }
}

} // verus!
