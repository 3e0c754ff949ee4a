use arch_detect::detect::process::detect_process_architecture;
use arch_detect::{Architecture, Error, Process};

#[test]
fn test_detect_process_architecture() {
    // A native process reports an unknown process machine.
    let arch = detect_process_architecture(0x0000, 0x8664).unwrap();
    println!("Detected architecture: {arch:?}");
    assert_eq!(arch, Architecture::Amd64);
}

#[test]
fn emulated_process_architecture() {
    assert_eq!(detect_process_architecture(0x014c, 0xaa64), Ok(Architecture::I386));
    assert_eq!(detect_process_architecture(0x8664, 0xaa64), Ok(Architecture::Amd64));
}

#[test]
fn unknown_process_architecture() {
    assert_eq!(
        detect_process_architecture(0x0000, 0x0000),
        Err(Error::InvalidImageFileMachine { machine: 0 })
    );
    assert_eq!(
        detect_process_architecture(0x1234, 0x8664),
        Err(Error::InvalidImageFileMachine { machine: 0x1234 })
    );
    assert_eq!(
        detect_process_architecture(0x0000, 0x4321),
        Err(Error::InvalidImageFileMachine { machine: 0x4321 })
    );
}

#[test]
fn process_name_ends_at_nul() {
    let mut exe_file = [0u16; 260];
    for (i, c) in "app.exe".encode_utf16().enumerate() {
        exe_file[i] = c;
    }
    exe_file[10] = 'x' as u16;
    let process = Process::from_entry(42, &exe_file);
    assert_eq!(process.pid, 42);
    assert_eq!(process.exe_path, "app.exe");
}

#[test]
fn process_name_without_nul() {
    let exe_file: Vec<u16> = "a.exe".encode_utf16().collect();
    let process = Process::from_entry(7, &exe_file);
    assert_eq!(process.exe_path, "a.exe");
    let empty = Process::from_entry(8, &[0u16, 0x61]);
    assert_eq!(empty.exe_path, "");
}

#[test]
fn process_name_with_invalid_utf16() {
    let process = Process::from_entry(1, &[0x61, 0xd800, 0x62, 0]);
    assert_eq!(process.exe_path, "a\u{fffd}b");
}
