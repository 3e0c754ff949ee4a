use arch_detect::detect::error::Structure;
use arch_detect::detect::pe::{clr_architecture, detect_executable_architecture};
use arch_detect::{Architecture, Error};

const NT_OFFSET: usize = 0x40;
const FILE_HEADER: usize = NT_OFFSET + 4;
const OPTIONAL: usize = FILE_HEADER + 20;
const OPTIONAL_LEN: usize = 224;
const SECTIONS: usize = OPTIONAL + OPTIONAL_LEN;
const SECTION_VA: u32 = 0x2000;
const SECTION_FILE: u32 = 0x200;
const CLR_RVA: u32 = 0x2008;
const CLR_FILE: usize = 0x208;

fn put16(b: &mut [u8], at: usize, v: u16) {
    b[at..at + 2].copy_from_slice(&v.to_le_bytes());
}

fn put32(b: &mut [u8], at: usize, v: u32) {
    b[at..at + 4].copy_from_slice(&v.to_le_bytes());
}

/// A PE image with one section at virtual address 0x2000 (file offset 0x200)
/// and, for I386 images, a CLR directory entry holding `clr_rva` and a CLR
/// header at file offset 0x208 with `flags`.
fn image(machine: u16, clr_rva: u32, flags: u32) -> Vec<u8> {
    let mut b = vec![0u8; 0x400];
    b[0] = b'M';
    b[1] = b'Z';
    put32(&mut b, 60, NT_OFFSET as u32);
    b[NT_OFFSET..NT_OFFSET + 4].copy_from_slice(b"PE\0\0");
    put16(&mut b, FILE_HEADER, machine);
    put16(&mut b, FILE_HEADER + 2, 1);
    put16(&mut b, FILE_HEADER + 16, OPTIONAL_LEN as u16);
    put16(&mut b, OPTIONAL, 0x10b);
    put32(&mut b, OPTIONAL + 92, 16);
    put32(&mut b, OPTIONAL + 96 + 14 * 8, clr_rva);
    put32(&mut b, OPTIONAL + 96 + 14 * 8 + 4, 72);
    b[SECTIONS..SECTIONS + 5].copy_from_slice(b".text");
    put32(&mut b, SECTIONS + 8, 0x1000);
    put32(&mut b, SECTIONS + 12, SECTION_VA);
    put32(&mut b, SECTIONS + 16, 0x200);
    put32(&mut b, SECTIONS + 20, SECTION_FILE);
    put32(&mut b, CLR_FILE, 72);
    put32(&mut b, CLR_FILE + 16, flags);
    b
}

fn format(structure: Structure) -> Error {
    Error::Format { structure }
}

#[test]
fn test_detect_executable_architecture() {
    let pe_x86 = image(0x014c, 0, 0);
    let pe_x64 = image(0x8664, 0, 0);
    let pe_arm64 = image(0xaa64, 0, 0);
    // ARM64EC images carry the AMD64 machine type.
    let pe_arm64ec = image(0x8664, 0, 0);
    let bins = [pe_x86, pe_x64, pe_arm64, pe_arm64ec];
    let expected_architectures = [
        Architecture::I386,
        Architecture::Amd64,
        Architecture::Arm64,
        Architecture::Amd64,
    ];
    for (bin, expected_arch) in bins.iter().zip(expected_architectures.into_iter()) {
        let arch = detect_executable_architecture(bin, Architecture::Arm64)
            .expect("Failed to detect architecture");
        assert_eq!(arch, expected_arch, "Architecture mismatch for binary");
    }
}

#[test]
fn test_detect_executable_architecture_dotnet() {
    let pe_dotnet = image(0x014c, CLR_RVA, 0x1);
    for current in [Architecture::Amd64, Architecture::Arm64, Architecture::I386] {
        let arch = detect_executable_architecture(&pe_dotnet, current)
            .expect("Failed to detect architecture for .NET assembly");
        assert_eq!(
            arch, current,
            ".NET assembly are always considered the same as the current architecture"
        );
    }
}

#[test]
fn managed_32bit_required_is_i386() {
    let pe = image(0x014c, CLR_RVA, 0x2 | 0x1);
    for host in [Architecture::Amd64, Architecture::Arm64] {
        assert_eq!(detect_executable_architecture(&pe, host), Ok(Architecture::I386));
    }
    let pe = image(0x014c, CLR_RVA, 0x2);
    assert_eq!(detect_executable_architecture(&pe, Architecture::Amd64), Ok(Architecture::I386));
}

#[test]
fn managed_without_flags_is_i386() {
    let pe = image(0x014c, CLR_RVA, 0x8);
    assert_eq!(detect_executable_architecture(&pe, Architecture::Amd64), Ok(Architecture::I386));
}

#[test]
fn clr_flags_decide() {
    assert_eq!(clr_architecture(0x1, Architecture::Arm64), Architecture::Arm64);
    assert_eq!(clr_architecture(0x3, Architecture::Arm64), Architecture::I386);
    assert_eq!(clr_architecture(0x0, Architecture::Arm64), Architecture::I386);
}

#[test]
fn few_data_directories_is_native_i386() {
    let mut pe = image(0x014c, CLR_RVA, 0x1);
    put32(&mut pe, OPTIONAL + 92, 14);
    assert_eq!(detect_executable_architecture(&pe, Architecture::Amd64), Ok(Architecture::I386));
}

#[test]
fn truncated_input_fails() {
    let pe = image(0x8664, 0, 0);
    for len in [0, 1, 2, 10, 63] {
        assert_eq!(
            detect_executable_architecture(&pe[..len], Architecture::Amd64),
            Err(Error::UnexpectedEof { offset: 0, len: 64 })
        );
    }
    assert_eq!(
        detect_executable_architecture(&pe[..FILE_HEADER + 10], Architecture::Amd64),
        Err(Error::UnexpectedEof { offset: FILE_HEADER as u64, len: 20 })
    );
    let pe = image(0x014c, CLR_RVA, 0x1);
    assert_eq!(
        detect_executable_architecture(&pe[..OPTIONAL + 100], Architecture::Amd64),
        Err(Error::UnexpectedEof { offset: OPTIONAL as u64, len: OPTIONAL_LEN as u64 })
    );
    assert_eq!(
        detect_executable_architecture(&pe[..CLR_FILE + 71], Architecture::Amd64),
        Err(Error::UnexpectedEof { offset: CLR_FILE as u64, len: 72 })
    );
}

#[test]
fn clr_address_outside_sections_fails() {
    let pe = image(0x014c, 0x9000, 0x1);
    assert_eq!(
        detect_executable_architecture(&pe, Architecture::Amd64),
        Err(format(Structure::ClrHeaderLocation))
    );
    // One past the end of the section's virtual size.
    let pe = image(0x014c, SECTION_VA + 0x1000, 0x1);
    assert_eq!(
        detect_executable_architecture(&pe, Architecture::Amd64),
        Err(format(Structure::ClrHeaderLocation))
    );
    let mut pe = image(0x014c, CLR_RVA, 0x1);
    put16(&mut pe, FILE_HEADER + 2, 0);
    assert_eq!(
        detect_executable_architecture(&pe, Architecture::Amd64),
        Err(format(Structure::ClrHeaderLocation))
    );
}

#[test]
fn clr_header_in_second_section() {
    let mut pe = image(0x014c, 0x4010, 0x1);
    put16(&mut pe, FILE_HEADER + 2, 2);
    let second = SECTIONS + 40;
    put32(&mut pe, second + 8, 0x800);
    put32(&mut pe, second + 12, 0x4000);
    put32(&mut pe, second + 20, 0x300);
    put32(&mut pe, 0x310 + 16, 0x1);
    assert_eq!(detect_executable_architecture(&pe, Architecture::Arm64), Ok(Architecture::Arm64));
}

#[test]
fn section_batch_past_end_fails() {
    // Ten declared sections are read in two batches of five; the first
    // batch already runs past the end of this input.
    let mut pe = image(0x014c, CLR_RVA, 0x1);
    put16(&mut pe, FILE_HEADER + 2, 10);
    let short = &pe[..SECTIONS + 100];
    assert_eq!(
        detect_executable_architecture(short, Architecture::Amd64),
        Err(Error::UnexpectedEof { offset: SECTIONS as u64, len: 200 })
    );
}

#[test]
fn bad_dos_signature_fails() {
    let mut pe = image(0x8664, 0, 0);
    pe[0] = b'Z';
    assert_eq!(
        detect_executable_architecture(&pe, Architecture::Amd64),
        Err(format(Structure::DosHeader))
    );
}

#[test]
fn unknown_machine_fails() {
    let pe = image(0x1234, 0, 0);
    assert_eq!(
        detect_executable_architecture(&pe, Architecture::Amd64),
        Err(Error::InvalidImageFileMachine { machine: 0x1234 })
    );
}

#[test]
fn short_optional_header_fails() {
    let mut pe = image(0x014c, CLR_RVA, 0x1);
    put16(&mut pe, FILE_HEADER + 16, 80);
    assert_eq!(
        detect_executable_architecture(&pe, Architecture::Amd64),
        Err(format(Structure::OptionalHeader))
    );
}

#[test]
fn too_many_data_directories_fails() {
    let mut pe = image(0x014c, CLR_RVA, 0x1);
    put32(&mut pe, OPTIONAL + 92, 17);
    assert_eq!(
        detect_executable_architecture(&pe, Architecture::Amd64),
        Err(format(Structure::DataDirectories))
    );
}

#[test]
fn pe_signature_is_not_checked() {
    let mut pe = image(0xaa64, 0, 0);
    pe[NT_OFFSET..NT_OFFSET + 4].copy_from_slice(b"XXXX");
    assert_eq!(detect_executable_architecture(&pe, Architecture::Amd64), Ok(Architecture::Arm64));
}
