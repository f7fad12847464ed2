use vstd::prelude::*;
use crate::entry::{EntryInfo, EntryModel};

verus! {

/// The archive handle of the `zip` crate. The library uses it over an
/// in-memory byte buffer, so every operation on it is pure computation.
#[verifier::external_type_specification]
#[verifier::external_body]
#[verifier::reject_recursive_types(R)]
pub struct ExZipArchive<R>(zip::ZipArchive<R>);

/// The in-memory reader of std that the archive handle wraps.
#[verifier::external_type_specification]
#[verifier::external_body]
#[verifier::reject_recursive_types(T)]
pub struct ExCursor<T>(std::io::Cursor<T>);

/// What `zip::ZipArchive::new` parses out of a byte buffer: the archive's
/// members in index order, or nothing when the bytes are not a valid
/// container. Parsing is a function of the bytes alone.
pub uninterp spec fn parse_zip(bytes: Seq<u8>) -> Option<Seq<EntryModel>>;

/// The members an opened archive holds, in index order.
pub uninterp spec fn zip_entries(a: zip::ZipArchive<std::io::Cursor<Vec<u8>>>) -> Seq<EntryModel>;

/// Whether the member at index `i` of the opened archive can be decoded by
/// this build: its content is locatable, it needs no password, its
/// compression method is one the build includes, and its stream decodes
/// with a matching checksum. The archive lives in memory, so this is a
/// fixed property of the opened archive and the index.
pub uninterp spec fn entry_readable(
    a: zip::ZipArchive<std::io::Cursor<Vec<u8>>>,
    i: int,
) -> bool;

/// Relies on zip::ZipArchive::new: it parses the central directory of the
/// buffer and presents the archive's members, or fails when the bytes are
/// not a valid container.
#[verifier::external_body]
pub(crate) fn open_archive(bytes: Vec<u8>) -> (r: Option<
    zip::ZipArchive<std::io::Cursor<Vec<u8>>>,
>)
    ensures
        (r is Some) == (parse_zip(bytes@) is Some),
        r matches Some(a) ==> parse_zip(bytes@) == Some(zip_entries(a)),
{
    zip::ZipArchive::new(std::io::Cursor::new(bytes)).ok()
}

/// Relies on zip::ZipArchive::len: the number of members the archive holds.
#[verifier::external_body]
pub(crate) fn archive_len(a: &zip::ZipArchive<std::io::Cursor<Vec<u8>>>) -> (r: usize)
    ensures
        r as nat == zip_entries(*a).len(),
{
    a.len()
}

/// Relies on zip::ZipArchive::by_index_decrypt and the accessors of the
/// member it yields (compression, name, enclosed_name, comment, size,
/// unix_mode, and its Read implementation for the decompressed content):
/// together they present the member at `i` as plain values, or nothing when
/// the member cannot be decoded. by_index_decrypt is used instead of
/// by_index because the latter unwraps the needs-a-password case, which a
/// crafted archive can reach (an AES marker in a member's extra field with
/// the encryption flag clear) and which would panic; here it comes back as
/// a value. The compression method is checked before reading because the
/// crate's reader construction panics on a method the build does not
/// include. Reading moves the wrapped cursor but leaves the archive's
/// members, and each member's readability, unchanged.
#[verifier::external_body]
pub(crate) fn read_entry(a: &mut zip::ZipArchive<std::io::Cursor<Vec<u8>>>, i: usize) -> (r: Option<
    EntryInfo,
>)
    requires
        i < zip_entries(*old(a)).len(),
    ensures
        zip_entries(*final(a)) == zip_entries(*old(a)),
        forall|k: int| entry_readable(*final(a), k) == #[trigger] entry_readable(*old(a), k),
        (r is Some) == entry_readable(*old(a), i as int),
        r matches Some(e) ==> e@ == zip_entries(*old(a))[i as int],
{
    let mut f = match a.by_index_decrypt(i, b"") { Ok(Ok(f)) => f, _ => return None };
    let ok = matches!(f.compression(), zip::CompressionMethod::Stored | zip::CompressionMethod::Deflated);
    if !ok { return None; }
    let mut data: Vec<u8> = Vec::new();
    std::io::Read::read_to_end(&mut f, &mut data).ok()?;
    Some(EntryInfo {
        name: f.name().as_bytes().to_vec(),
        resolved: f.enclosed_name().map(|p| p.to_string_lossy().into_owned().into_bytes()),
        comment: f.comment().as_bytes().to_vec(),
        size: f.size(),
        mode: f.unix_mode(),
        data,
    })
}

} // verus!
