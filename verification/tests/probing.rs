use exec_interpose::arch::{EM_386, EM_AARCH64, EM_ARM, EM_X86_64};
use exec_interpose::probe::{probe, probe_header, HEADER_LEN};
use exec_interpose::{ArchitectureTag, ErrorCode, ExecError};

fn elf_header(class: u8, data: u8, machine: u16) -> Vec<u8> {
    let mut bytes = vec![0u8; 64];
    bytes[0] = 0x7f;
    bytes[1] = b'E';
    bytes[2] = b'L';
    bytes[3] = b'F';
    bytes[4] = class;
    bytes[5] = data;
    bytes[6] = 1;
    let field = if data == 2 { machine.to_be_bytes() } else { machine.to_le_bytes() };
    bytes[16] = 2;
    bytes[18] = field[0];
    bytes[19] = field[1];
    bytes
}

#[test]
fn machine_table() {
    assert_eq!(ArchitectureTag::from_machine(0x03), ArchitectureTag::X86);
    assert_eq!(ArchitectureTag::from_machine(0x3e), ArchitectureTag::X86_64);
    assert_eq!(ArchitectureTag::from_machine(0x28), ArchitectureTag::Arm);
    assert_eq!(ArchitectureTag::from_machine(0xb7), ArchitectureTag::Aarch64);
    assert_eq!(ArchitectureTag::from_machine(0), ArchitectureTag::Unsupported);
    assert_eq!(ArchitectureTag::from_machine(0xf3), ArchitectureTag::Unsupported);
    assert_eq!(ArchitectureTag::from_machine(0xffff), ArchitectureTag::Unsupported);
    assert_eq!((EM_386, EM_X86_64, EM_ARM, EM_AARCH64), (0x03, 0x3e, 0x28, 0xb7));
}

#[test]
fn architecture_names() {
    assert_eq!(ArchitectureTag::X86.name(), "i386");
    assert_eq!(ArchitectureTag::X86_64.name(), "x86_64");
    assert_eq!(ArchitectureTag::Arm.name(), "arm");
    assert_eq!(ArchitectureTag::Aarch64.name(), "aarch64");
    assert_eq!(ArchitectureTag::Unsupported.name(), "");
    assert!(ArchitectureTag::Arm.is_supported());
    assert!(!ArchitectureTag::Unsupported.is_supported());
}

#[test]
fn architecture_from_platform_name() {
    assert_eq!(ArchitectureTag::from_name("x86"), ArchitectureTag::X86);
    assert_eq!(ArchitectureTag::from_name("i386"), ArchitectureTag::X86);
    assert_eq!(ArchitectureTag::from_name("x86_64"), ArchitectureTag::X86_64);
    assert_eq!(ArchitectureTag::from_name("arm"), ArchitectureTag::Arm);
    assert_eq!(ArchitectureTag::from_name("aarch64"), ArchitectureTag::Aarch64);
    assert_eq!(ArchitectureTag::from_name("riscv64"), ArchitectureTag::Unsupported);
    assert_eq!(ArchitectureTag::from_name(""), ArchitectureTag::Unsupported);
    assert_eq!(ArchitectureTag::from_name("x86_6"), ArchitectureTag::Unsupported);
    for tag in [
        ArchitectureTag::X86,
        ArchitectureTag::X86_64,
        ArchitectureTag::Arm,
        ArchitectureTag::Aarch64,
    ] {
        assert_eq!(ArchitectureTag::from_name(tag.name()), tag);
    }
}

#[test]
fn probe_reads_little_endian_headers() {
    assert_eq!(probe_header(&elf_header(2, 1, 0x3e)), Ok(ArchitectureTag::X86_64));
    assert_eq!(probe_header(&elf_header(2, 1, 0xb7)), Ok(ArchitectureTag::Aarch64));
    assert_eq!(probe_header(&elf_header(1, 1, 0x03)), Ok(ArchitectureTag::X86));
    assert_eq!(probe_header(&elf_header(1, 1, 0x28)), Ok(ArchitectureTag::Arm));
}

#[test]
fn probe_reads_big_endian_headers() {
    assert_eq!(probe_header(&elf_header(1, 2, 0x28)), Ok(ArchitectureTag::Arm));
    assert_eq!(probe_header(&elf_header(2, 2, 0xb7)), Ok(ArchitectureTag::Aarch64));
    let mut swapped = elf_header(2, 2, 0);
    swapped[18] = 0x3e;
    swapped[19] = 0;
    assert_eq!(probe_header(&swapped), Err(ExecError::UnsupportedArchitecture));
}

#[test]
fn probe_reads_only_the_header() {
    let mut bytes = elf_header(2, 1, 0x3e);
    bytes.extend_from_slice(&[0xaa; 100]);
    assert_eq!(probe_header(&bytes), Ok(ArchitectureTag::X86_64));
    assert_eq!(HEADER_LEN, 64);
}

#[test]
fn probe_rejects_what_is_no_elf_header() {
    assert_eq!(probe_header(b""), Err(ExecError::Format));
    assert_eq!(probe_header(b"#!/bin/sh\n"), Err(ExecError::Format));
    let mut script = b"#!/bin/sh\necho hello\n".to_vec();
    script.resize(200, b' ');
    script[5] = 1;
    assert_eq!(probe_header(&script), Err(ExecError::Format));
    let mut bad_magic = elf_header(2, 1, 0x3e);
    bad_magic[3] = b'G';
    assert_eq!(probe_header(&bad_magic), Err(ExecError::Format));
    let mut short = elf_header(2, 1, 0x3e);
    short.truncate(63);
    assert_eq!(probe_header(&short), Err(ExecError::Format));
    assert_eq!(probe_header(&elf_header(2, 0, 0x3e)), Err(ExecError::Format));
    assert_eq!(probe_header(&elf_header(2, 3, 0x3e)), Err(ExecError::Format));
}

#[test]
fn probe_rejects_machines_outside_the_table() {
    assert_eq!(probe_header(&elf_header(2, 1, 0xf3)), Err(ExecError::UnsupportedArchitecture));
    assert_eq!(probe_header(&elf_header(2, 1, 0)), Err(ExecError::UnsupportedArchitecture));
    assert_eq!(probe_header(&elf_header(2, 1, 0x3e00)), Err(ExecError::UnsupportedArchitecture));
}

#[test]
fn unreadable_file_is_an_access_failure() {
    assert_eq!(probe(None), Err(ExecError::Access));
    assert_eq!(probe(Some(&elf_header(2, 1, 0x28))), Ok(ArchitectureTag::Arm));
    assert_eq!(probe(Some(b"text")), Err(ExecError::Format));
}

#[test]
fn failures_map_to_standard_errors() {
    assert_eq!(ExecError::Access.code(), ErrorCode::PermissionDenied);
    for error in [
        ExecError::Format,
        ExecError::UnsupportedArchitecture,
        ExecError::NameUnresolved,
        ExecError::LauncherMissing,
        ExecError::SymbolMissing,
        ExecError::EmbeddedNul,
        ExecError::UnexpectedAnswer,
    ] {
        assert_eq!(error.code(), ErrorCode::ExecFormat);
    }
    assert_eq!(ErrorCode::PermissionDenied.errno(), libc::EACCES);
    assert_eq!(ErrorCode::ExecFormat.errno(), libc::ENOEXEC);
    assert_ne!(ErrorCode::PermissionDenied.errno(), ErrorCode::ExecFormat.errno());
}

#[test]
fn number_is_picked_by_code() {
    assert_eq!(ErrorCode::PermissionDenied.number_among(13, 8), 13);
    assert_eq!(ErrorCode::ExecFormat.number_among(13, 8), 8);
    assert_eq!(ErrorCode::PermissionDenied.number_among(2, 45), 2);
    assert_eq!(ErrorCode::ExecFormat.number_among(2, 45), 45);
    assert_eq!(ErrorCode::ExecFormat.number_among(-1, 0), 0);
    assert_eq!(
        ErrorCode::PermissionDenied.errno(),
        ErrorCode::PermissionDenied.number_among(libc::EACCES, libc::ENOEXEC)
    );
    assert_eq!(
        ErrorCode::ExecFormat.errno(),
        ErrorCode::ExecFormat.number_among(libc::EACCES, libc::ENOEXEC)
    );
}
