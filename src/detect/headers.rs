//! Little-endian field access and the header readers of the `object` crate.

use vstd::prelude::*;

verus! {

/// The unsigned 16-bit little-endian integer at `i`.
pub open spec fn le16(b: Seq<u8>, i: int) -> int {
    b[i] as int + 256 * (b[i + 1] as int)
}

/// The unsigned 32-bit little-endian integer at `i`.
pub open spec fn le32(b: Seq<u8>, i: int) -> int {
    le16(b, i) + 65536 * le16(b, i + 2)
}

/// The "MZ" signature that opens a DOS header.
pub const IMAGE_DOS_SIGNATURE: u16 = 0x5a4d;

/// Size of the DOS header.
pub const DOS_HEADER_LEN: usize = 64;

/// Size of the COFF file header.
pub const FILE_HEADER_LEN: usize = 20;

/// Size of the fixed part of the 32-bit optional header, up to its data
/// directory table.
pub const OPTIONAL_HEADER32_LEN: usize = 96;

/// Size of one data directory entry.
pub const DATA_DIRECTORY_LEN: usize = 8;

/// Size of one section header.
pub const SECTION_HEADER_LEN: usize = 40;

/// Size of the CLR (COR20) header.
pub const COR20_HEADER_LEN: usize = 72;

/// Whether a section header covers the virtual address `rva`: it lies at or
/// after the section's virtual address and before the end of its virtual size.
pub open spec fn section_contains(s: Seq<u8>, rva: int) -> bool {
    le32(s, 12) <= rva && rva - le32(s, 12) < le32(s, 8)
}

/// Relies on `object::pe::ImageDosHeader::parse`, which reads the 64-byte
/// header at the start of `b` (all its fields are byte arrays, so alignment
/// never fails) and accepts it when `e_magic` is "MZ", and on
/// `nt_headers_offset`, which gives the `e_lfanew` field at offset 60.
#[verifier::external_body]
pub(crate) fn dos_header_nt_offset(b: &[u8]) -> (r: Option<u32>)
    ensures
        r == (if b@.len() >= 64 && le16(b@, 0) == IMAGE_DOS_SIGNATURE {
            Some(le32(b@, 60) as u32)
        } else {
            None
        }),
{
    object::pe::ImageDosHeader::parse(b).ok().map(|h| h.nt_headers_offset())
}

/// Relies on `object::pe::ImageFileHeader::parse`, which reads the 20-byte
/// file header at the start of `b`; the machine, section count and optional
/// header size are the fields at offsets 0, 2 and 16.
#[verifier::external_body]
pub(crate) fn file_header_fields(b: &[u8]) -> (r: Option<(u16, u16, u16)>)
    ensures
        r == (if b@.len() >= 20 {
            Some((le16(b@, 0) as u16, le16(b@, 2) as u16, le16(b@, 16) as u16))
        } else {
            None
        }),
{
    let mut offset: u64 = 0;
    <object::pe::ImageFileHeader as object::read::coff::CoffHeader>::parse(b, &mut offset).ok().map(
        |h| (
            h.machine.get(object::LittleEndian).0,
            h.number_of_sections.get(object::LittleEndian),
            h.size_of_optional_header.get(object::LittleEndian),
        ),
    )
}

/// Relies on `object::ReadRef::read` of an `object::pe::ImageOptionalHeader32`,
/// the 96 bytes before the data directories, whose `number_of_rva_and_sizes`
/// field stands at offset 92.
#[verifier::external_body]
pub(crate) fn optional_header32_directory_count(b: &[u8]) -> (r: Option<u32>)
    ensures
        r == (if b@.len() >= 96 {
            Some(le32(b@, 92) as u32)
        } else {
            None
        }),
{
    object::ReadRef::read::<object::pe::ImageOptionalHeader32>(b, &mut 0).ok().map(
        |h| h.number_of_rva_and_sizes.get(object::LittleEndian),
    )
}

/// Relies on `object::read::pe::DataDirectories::parse`, which takes `count`
/// 8-byte entries from the start of `b` and fails where they do not fit, and
/// on `iter().nth(index)`; an entry's virtual address is its first field.
#[verifier::external_body]
pub(crate) fn data_directory_address(b: &[u8], count: u32, index: usize) -> (r: Option<
    Option<u32>,
>)
    ensures
        r == (if 8 * (count as int) > b@.len() {
            None
        } else if index >= count {
            Some(None)
        } else {
            Some(Some(le32(b@, 8 * index) as u32))
        }),
{
    object::read::pe::DataDirectories::parse(b, count).ok().map(
        |d| d.iter().nth(index).map(|e| e.virtual_address.get(object::LittleEndian)),
    )
}

/// Relies on `object::ReadRef::read` of an `object::pe::ImageSectionHeader`
/// (40 bytes) and on its `contains_rva`; the virtual size, virtual address
/// and pointer to raw data are the fields at offsets 8, 12 and 20.
/// The result is whether the section covers `rva`, then its virtual address
/// and its file offset.
#[verifier::external_body]
pub(crate) fn section_header_lookup(b: &[u8], rva: u32) -> (r: Option<(bool, u32, u32)>)
    ensures
        r == (if b@.len() >= 40 {
            Some((section_contains(b@, rva as int), le32(b@, 12) as u32, le32(b@, 20) as u32))
        } else {
            None
        }),
{
    object::ReadRef::read::<object::pe::ImageSectionHeader>(b, &mut 0).ok().map(
        |s| (
            s.contains_rva(rva),
            s.virtual_address.get(object::LittleEndian),
            s.pointer_to_raw_data.get(object::LittleEndian),
        ),
    )
}

/// Relies on `object::ReadRef::read` of an `object::pe::ImageCor20Header`
/// (72 bytes), whose `flags` field stands at offset 16.
#[verifier::external_body]
pub(crate) fn cor20_flags(b: &[u8]) -> (r: Option<u32>)
    ensures
        r == (if b@.len() >= 72 {
            Some(le32(b@, 16) as u32)
        } else {
            None
        }),
{
    object::ReadRef::read::<object::pe::ImageCor20Header>(b, &mut 0).ok().map(
        |h| h.flags.get(object::LittleEndian).0,
    )
}

} // verus!
