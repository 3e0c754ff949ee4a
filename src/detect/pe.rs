//! Detection of the architecture of an executable from its PE header bytes.

use vstd::prelude::*;
use vstd::slice::slice_subrange;

use crate::architecture::{arch_of, Architecture, IMAGE_FILE_MACHINE_I386};
use crate::detect::error::{Error, Structure};
use crate::detect::headers::{
    cor20_flags, data_directory_address, dos_header_nt_offset, file_header_fields, le16, le32,
    optional_header32_directory_count, section_contains, section_header_lookup, COR20_HEADER_LEN,
    DATA_DIRECTORY_LEN, DOS_HEADER_LEN, FILE_HEADER_LEN, IMAGE_DOS_SIGNATURE,
    OPTIONAL_HEADER32_LEN, SECTION_HEADER_LEN,
};

verus! {

/// Index of the CLR (COM descriptor) entry in the data directory table.
pub const CLR_DIRECTORY_INDEX: usize = 14;

/// Length of the working buffer that section headers are read into, unless
/// the optional header is longer.
pub const WORKING_BUFFER_LEN: usize = 224;

/// CLR header flag of assemblies that contain IL code only.
pub const COMIMAGE_FLAGS_ILONLY: u32 = 0x1;

/// CLR header flag of assemblies that must run as 32-bit code.
pub const COMIMAGE_FLAGS_32BITREQUIRED: u32 = 0x2;

/// Whether `len` bytes can be read at `offset`.
pub open spec fn fits(b: Seq<u8>, offset: int, len: int) -> bool {
    offset + len <= b.len()
}

/// The `len` bytes at `offset`.
pub open spec fn window(b: Seq<u8>, offset: int, len: int) -> Seq<u8> {
    b.subrange(offset, offset + len)
}

/// The error of a read of `len` bytes at `offset` that runs past the end.
pub open spec fn eof(offset: int, len: int) -> Error {
    Error::UnexpectedEof { offset: offset as u64, len: len as u64 }
}

/// The architecture that a machine type code names, or the error for an
/// unknown code.
pub open spec fn machine_result(machine: u16) -> Result<Architecture, Error> {
    match arch_of(machine) {
        Some(a) => Ok(a),
        None => Err(Error::InvalidImageFileMachine { machine }),
    }
}

/// The architecture of a managed assembly, from its CLR header flags: 32-bit
/// required wins, an IL-only assembly runs as the host does, and anything
/// else keeps the nominal I386.
pub open spec fn clr_verdict(flags: u32, host: Architecture) -> Architecture {
    if flags & COMIMAGE_FLAGS_32BITREQUIRED != 0 {
        Architecture::I386
    } else if flags & COMIMAGE_FLAGS_ILONLY != 0 {
        host
    } else {
        Architecture::I386
    }
}

/// How many section headers are read at a time, for an optional header of
/// `optional_len` bytes: as many as fit in the working buffer, which grows to
/// the optional header's length where that is larger.
pub open spec fn section_batch_len(optional_len: int) -> int {
    (if optional_len <= WORKING_BUFFER_LEN {
        WORKING_BUFFER_LEN as int
    } else {
        optional_len
    }) / (SECTION_HEADER_LEN as int)
}

/// The `j`-th header of the section table that starts at `table`.
pub open spec fn section_at(b: Seq<u8>, table: int, j: int) -> Seq<u8> {
    window(b, table + SECTION_HEADER_LEN * j, SECTION_HEADER_LEN as int)
}

/// The first of the section headers `j .. end` that covers `rva`.
pub open spec fn first_containing(b: Seq<u8>, table: int, j: int, end: int, rva: int) -> Option<
    Seq<u8>,
>
    decreases end - j,
{
    if j >= end {
        None
    } else if section_contains(section_at(b, table, j), rva) {
        Some(section_at(b, table, j))
    } else {
        first_containing(b, table, j + 1, end, rva)
    }
}

/// The first of the `count` section headers from index `i` on that covers
/// `rva`, read in batches of `batch` headers: a batch that runs past the end
/// of the input fails as a whole.
pub open spec fn locate_section(
    b: Seq<u8>,
    table: int,
    count: int,
    batch: int,
    i: int,
    rva: int,
) -> Result<Option<Seq<u8>>, Error>
    decreases count - i,
{
    if i >= count || batch <= 0 {
        Ok(None)
    } else {
        let end = if i + batch < count {
            i + batch
        } else {
            count
        };
        let offset = table + SECTION_HEADER_LEN * i;
        let len = SECTION_HEADER_LEN * (end - i);
        if !fits(b, offset, len) {
            Err(eof(offset, len))
        } else {
            match first_containing(b, table, i, end, rva) {
                Some(s) => Ok(Some(s)),
                None => locate_section(b, table, count, batch, end, rva),
            }
        }
    }
}

/// The architecture of an image whose file header names I386, from the
/// optional header at `optional` on: I386 unless a CLR header says otherwise.
pub open spec fn classify_i386(
    b: Seq<u8>,
    optional: int,
    section_count: int,
    optional_len: int,
    host: Architecture,
) -> Result<Architecture, Error> {
    if !fits(b, optional, optional_len) {
        Err(eof(optional, optional_len))
    } else if optional_len < OPTIONAL_HEADER32_LEN {
        Err(Error::Format { structure: Structure::OptionalHeader })
    } else {
        let header = window(b, optional, optional_len);
        let count = le32(header, 92);
        let directories = header.subrange(OPTIONAL_HEADER32_LEN as int, optional_len);
        if DATA_DIRECTORY_LEN * count > directories.len() {
            Err(Error::Format { structure: Structure::DataDirectories })
        } else if count <= CLR_DIRECTORY_INDEX {
            Ok(Architecture::I386)
        } else {
            let rva = le32(directories, DATA_DIRECTORY_LEN * CLR_DIRECTORY_INDEX);
            if rva == 0 {
                Ok(Architecture::I386)
            } else {
                let table = optional + optional_len;
                match locate_section(
                    b,
                    table,
                    section_count,
                    section_batch_len(optional_len),
                    0,
                    rva,
                ) {
                    Err(e) => Err(e),
                    Ok(None) => Err(Error::Format { structure: Structure::ClrHeaderLocation }),
                    Ok(Some(s)) => {
                        let offset = le32(s, 20) + (rva - le32(s, 12));
                        if !fits(b, offset, COR20_HEADER_LEN as int) {
                            Err(eof(offset, COR20_HEADER_LEN as int))
                        } else {
                            let flags = le32(window(b, offset, COR20_HEADER_LEN as int), 16);
                            Ok(clr_verdict(flags as u32, host))
                        }
                    },
                }
            }
        }
    }
}

/// The architecture of the PE image `b`, on a host of architecture `host`.
///
/// The DOS header gives the offset of the NT headers; the four bytes of the
/// "PE\0\0" signature there are skipped unchecked. The file header's machine
/// type decides, except for I386, where a CLR header may name another
/// architecture (see `classify_i386`).
pub open spec fn classify(b: Seq<u8>, host: Architecture) -> Result<Architecture, Error> {
    if !fits(b, 0, DOS_HEADER_LEN as int) {
        Err(eof(0, DOS_HEADER_LEN as int))
    } else if le16(window(b, 0, DOS_HEADER_LEN as int), 0) != IMAGE_DOS_SIGNATURE {
        Err(Error::Format { structure: Structure::DosHeader })
    } else {
        let file_header = le32(window(b, 0, DOS_HEADER_LEN as int), 60) + 4;
        if !fits(b, file_header, FILE_HEADER_LEN as int) {
            Err(eof(file_header, FILE_HEADER_LEN as int))
        } else {
            let header = window(b, file_header, FILE_HEADER_LEN as int);
            let machine = le16(header, 0) as u16;
            if machine != IMAGE_FILE_MACHINE_I386 {
                machine_result(machine)
            } else {
                classify_i386(
                    b,
                    file_header + FILE_HEADER_LEN,
                    le16(header, 2),
                    le16(header, 16),
                    host,
                )
            }
        }
    }
}

/// The `len` bytes at `offset`, or the error of a read past the end.
fn read_exact(bytes: &[u8], offset: u64, len: usize) -> (r: Result<&[u8], Error>)
    ensures
        match r {
            Ok(s) => fits(bytes@, offset as int, len as int) && s@ == window(
                bytes@,
                offset as int,
                len as int,
            ),
            Err(e) => !fits(bytes@, offset as int, len as int) && e == eof(
                offset as int,
                len as int,
            ),
        },
{
    let n = bytes.len();
    if offset > n as u64 || len > n - offset as usize {
        Err(Error::UnexpectedEof { offset, len: len as u64 })
    } else {
        let start = offset as usize;
        Ok(slice_subrange(bytes, start, start + len))
    }
}

/// The architecture that `machine` names, or the error for an unknown code.
fn machine_architecture(machine: u16) -> (r: Result<Architecture, Error>)
    ensures
        r == machine_result(machine),
{
    match Architecture::from_code(machine) {
        Some(a) => Ok(a),
        None => Err(Error::InvalidImageFileMachine { machine }),
    }
}

/// The architecture of a managed assembly with CLR header flags `flags`, on
/// a host of architecture `host`.
pub fn clr_architecture(flags: u32, host: Architecture) -> (r: Architecture)
    ensures
        r == clr_verdict(flags, host),
{
    if flags & COMIMAGE_FLAGS_32BITREQUIRED != 0 {
        Architecture::I386
    } else if flags & COMIMAGE_FLAGS_ILONLY != 0 {
        host
    } else {
        Architecture::I386
    }
}

/// The number of section headers read at a time (see `section_batch_len`).
fn section_batch(optional_len: u16) -> (r: usize)
    ensures
        r as int == section_batch_len(optional_len as int),
        5 <= r <= 0x10000,
{
    let buffer_len: usize = if (optional_len as usize) <= WORKING_BUFFER_LEN {
        WORKING_BUFFER_LEN
    } else {
        optional_len as usize
    };
    buffer_len / SECTION_HEADER_LEN
}

/// The virtual address and file offset of the first of the `count` section
/// headers at `table` that covers `rva`, read in batches of `batch`.
fn find_section(bytes: &[u8], table: u64, count: u16, batch: usize, rva: u32) -> (r: Result<
    Option<(u32, u32)>,
    Error,
>)
    requires
        table <= 0x2_0000_0000,
        0 < batch <= 0x10000,
    ensures
        match locate_section(bytes@, table as int, count as int, batch as int, 0, rva as int) {
            Ok(Some(s)) => r == Ok::<Option<(u32, u32)>, Error>(Some((le32(s, 12) as u32, le32(s, 20) as u32)))
                && le32(s, 12) <= rva,
            Ok(None) => r == Ok::<Option<(u32, u32)>, Error>(None),
            Err(e) => r == Err::<Option<(u32, u32)>, Error>(e),
        },
{
    let ghost b = bytes@;
    let n = count as usize;
    let mut i: usize = 0;
    while i < n
        invariant
            i <= n,
            n == count,
            b == bytes@,
            table <= 0x2_0000_0000,
            0 < batch <= 0x10000,
            locate_section(b, table as int, n as int, batch as int, 0, rva as int)
                == locate_section(b, table as int, n as int, batch as int, i as int, rva as int),
        decreases n - i,
    {
        let end: usize = if i + batch < n {
            i + batch
        } else {
            n
        };
        let offset: u64 = table + (SECTION_HEADER_LEN as u64) * (i as u64);
        let chunk = read_exact(bytes, offset, SECTION_HEADER_LEN * (end - i))?;
        let mut j: usize = i;
        while j < end
            invariant
                i <= j <= end <= n,
                i < n,
                end as int == (if i + batch < n {
                    i + batch
                } else {
                    n as int
                }),
                0 < batch <= 0x10000,
                locate_section(b, table as int, n as int, batch as int, 0, rva as int)
                    == locate_section(b, table as int, n as int, batch as int, i as int, rva as int),
                n == count,
                b == bytes@,
                table <= 0x2_0000_0000,
                offset == table + SECTION_HEADER_LEN * i,
                fits(b, offset as int, SECTION_HEADER_LEN * (end - i)),
                chunk@ == window(b, offset as int, SECTION_HEADER_LEN * (end - i)),
                first_containing(b, table as int, i as int, end as int, rva as int)
                    == first_containing(b, table as int, j as int, end as int, rva as int),
            decreases end - j,
        {
            let start = SECTION_HEADER_LEN * (j - i);
            assert(start + SECTION_HEADER_LEN <= chunk@.len());
            let header = slice_subrange(chunk, start, start + SECTION_HEADER_LEN);
            assert(header@ =~= section_at(b, table as int, j as int));
            match section_header_lookup(header, rva) {
                Some((true, address, file_pointer)) => {
                    return Ok(Some((address, file_pointer)));
                },
                Some((false, _, _)) => {},
                None => {
                    return Err(Error::Format { structure: Structure::SectionHeader });
                },
            }
            j = j + 1;
        }
        i = end;
    }
    Ok(None)
}

/// The architecture of an image whose file header names I386; see
/// `classify_i386`.
fn detect_i386(
    bytes: &[u8],
    optional: u64,
    section_count: u16,
    optional_len: u16,
    host: Architecture,
) -> (r: Result<Architecture, Error>)
    requires
        optional <= 0x1_0000_0020,
    ensures
        r == classify_i386(
            bytes@,
            optional as int,
            section_count as int,
            optional_len as int,
            host,
        ),
{
    let header = read_exact(bytes, optional, optional_len as usize)?;
    let count = match optional_header32_directory_count(header) {
        Some(count) => count,
        None => {
            return Err(Error::Format { structure: Structure::OptionalHeader });
        },
    };
    let directories = slice_subrange(header, OPTIONAL_HEADER32_LEN, header.len());
    let rva = match data_directory_address(directories, count, CLR_DIRECTORY_INDEX) {
        None => {
            return Err(Error::Format { structure: Structure::DataDirectories });
        },
        Some(None) => {
            return Ok(Architecture::I386);
        },
        Some(Some(rva)) => rva,
    };
    if rva == 0 {
        return Ok(Architecture::I386);
    }
    let table = optional + optional_len as u64;
    let batch = section_batch(optional_len);
    let (address, file_pointer) = match find_section(bytes, table, section_count, batch, rva)? {
        Some(found) => found,
        None => {
            return Err(Error::Format { structure: Structure::ClrHeaderLocation });
        },
    };
    let offset = file_pointer as u64 + (rva - address) as u64;
    let clr_header = read_exact(bytes, offset, COR20_HEADER_LEN)?;
    match cor20_flags(clr_header) {
        Some(flags) => Ok(clr_architecture(flags, host)),
        None => Err(Error::Format { structure: Structure::ClrHeader }),
    }
}

/// Detects the architecture of the PE image `bytes` on a host of
/// architecture `host`.
///
/// The machine type of the COFF file header decides, except where it is
/// I386: there a managed assembly's CLR header flags may say that it runs as
/// the host does (IL only), and a CLR directory that no section covers is a
/// format error. Reads past the end of `bytes` fail with `UnexpectedEof`.
pub fn detect_executable_architecture(bytes: &[u8], host: Architecture) -> (r: Result<
    Architecture,
    Error,
>)
    ensures
        r == classify(bytes@, host),
{
    let dos = read_exact(bytes, 0, DOS_HEADER_LEN)?;
    let nt_offset = match dos_header_nt_offset(dos) {
        Some(offset) => offset,
        None => {
            return Err(Error::Format { structure: Structure::DosHeader });
        },
    };
    // Skip the "PE\0\0" signature.
    let file_header_offset = nt_offset as u64 + 4;
    let header = read_exact(bytes, file_header_offset, FILE_HEADER_LEN)?;
    let (machine, section_count, optional_len) = match file_header_fields(header) {
        Some(fields) => fields,
        None => {
            return Err(Error::Format { structure: Structure::FileHeader });
        },
    };
    if machine != IMAGE_FILE_MACHINE_I386 {
        return machine_architecture(machine);
    }
    detect_i386(
        bytes,
        file_header_offset + FILE_HEADER_LEN as u64,
        section_count,
        optional_len,
        host,
    )
}

/// Input shorter than a DOS header fails with a read past its end: it never
/// yields an architecture.
pub proof fn lemma_short_input_fails(b: Seq<u8>, host: Architecture)
    requires
        b.len() < DOS_HEADER_LEN,
    ensures
        classify(b, host) == Err::<Architecture, Error>(eof(0, DOS_HEADER_LEN as int)),
{
}

/// None of the section headers `j .. end` covers `rva`, where none of them
/// does.
proof fn lemma_no_section_in_range(b: Seq<u8>, table: int, j: int, end: int, rva: int)
    requires
        forall|k: int| j <= k < end ==> !section_contains(#[trigger] section_at(b, table, k), rva),
    ensures
        first_containing(b, table, j, end, rva) is None,
    decreases end - j,
{
    if j < end {
        lemma_no_section_in_range(b, table, j + 1, end, rva);
    }
}

/// Where the whole section table can be read and none of its `count`
/// headers covers `rva`, the batched search finds nothing, from any `i` on.
proof fn lemma_no_section(b: Seq<u8>, table: int, count: int, batch: int, i: int, rva: int)
    requires
        0 <= i,
        fits(b, table, SECTION_HEADER_LEN * count),
        forall|k: int| 0 <= k < count ==> !section_contains(#[trigger] section_at(b, table, k), rva),
    ensures
        locate_section(b, table, count, batch, i, rva) == Ok::<Option<Seq<u8>>, Error>(None),
    decreases count - i,
{
    if i < count && batch > 0 {
        let end = if i + batch < count {
            i + batch
        } else {
            count
        };
        lemma_no_section_in_range(b, table, i, end, rva);
        lemma_no_section(b, table, count, batch, end, rva);
    }
}

/// An I386 image whose CLR directory holds a virtual address that none of
/// the declared sections covers is a format error: it does not fall back to
/// I386.
pub proof fn lemma_uncovered_clr_address_fails(
    b: Seq<u8>,
    optional: int,
    section_count: int,
    optional_len: int,
    host: Architecture,
)
    requires
        0 <= optional,
        0 <= section_count,
        OPTIONAL_HEADER32_LEN <= optional_len,
        fits(b, optional, optional_len),
        fits(b, optional + optional_len, SECTION_HEADER_LEN * section_count),
        ({
            let header = window(b, optional, optional_len);
            let count = le32(header, 92);
            let directories = header.subrange(OPTIONAL_HEADER32_LEN as int, optional_len);
            let rva = le32(directories, DATA_DIRECTORY_LEN * CLR_DIRECTORY_INDEX);
            &&& CLR_DIRECTORY_INDEX < count
            &&& DATA_DIRECTORY_LEN * count <= directories.len()
            &&& rva != 0
            &&& forall|k: int|
                0 <= k < section_count ==> !section_contains(
                    #[trigger] section_at(b, optional + optional_len, k),
                    rva,
                )
        }),
    ensures
        classify_i386(b, optional, section_count, optional_len, host) == Err::<Architecture, Error>(
            Error::Format { structure: Structure::ClrHeaderLocation },
        ),
{
    let header = window(b, optional, optional_len);
    let directories = header.subrange(OPTIONAL_HEADER32_LEN as int, optional_len);
    let rva = le32(directories, DATA_DIRECTORY_LEN * CLR_DIRECTORY_INDEX);
    lemma_no_section(
        b,
        optional + optional_len,
        section_count,
        section_batch_len(optional_len),
        0,
        rva,
    );
}

} // verus!
