//! Reading the architecture of an executable from its ELF header.

use vstd::prelude::*;

use crate::arch::{machine_tag, ArchitectureTag};
use crate::error::ExecError;

verus! {

/// The number of leading bytes of a file that the probe needs.
pub const HEADER_LEN: usize = 64;

/// goblin's error type, carried through unread.
#[verifier::external_type_specification]
#[verifier::external_body]
pub struct ExGoblinError(goblin::error::Error);

/// What the probe reads of an ELF header.
struct HeaderFields {
    /// The identification bytes: magic, class, byte order and the rest.
    ident: [u8; 16],
    /// The machine field, read in the file's byte order.
    machine: u16,
}

/// The header can be read from `bytes`: all 64 bytes are there and the byte-order
/// mark is one of the two that ELF defines.
pub open spec fn header_readable(bytes: Seq<u8>) -> bool {
    bytes.len() >= 64 && (bytes[5] == 1 || bytes[5] == 2)
}

/// The two bytes at offset 18, read in the byte order that byte 5 names.
pub open spec fn machine_field(bytes: Seq<u8>) -> int {
    if bytes[5] == 1 {
        bytes[18] as int + 256 * (bytes[19] as int)
    } else {
        256 * (bytes[18] as int) + bytes[19] as int
    }
}

/// `bytes` begins with the ELF magic number.
pub open spec fn has_elf_magic(bytes: Seq<u8>) -> bool {
    bytes.len() >= 4 && bytes[0] == 0x7f && bytes[1] == 0x45 && bytes[2] == 0x4c && bytes[3] == 0x46
}

/// What the probe makes of the leading bytes of a file.
pub open spec fn probed(bytes: Seq<u8>) -> Result<ArchitectureTag, ExecError> {
    if !header_readable(bytes) || !has_elf_magic(bytes) {
        Err(ExecError::Format)
    } else if machine_tag(machine_field(bytes) as u16) == ArchitectureTag::Unsupported {
        Err(ExecError::UnsupportedArchitecture)
    } else {
        Ok(machine_tag(machine_field(bytes) as u16))
    }
}

/// Parses the ELF header at the start of `bytes`.
///
/// Trusted: calls `goblin::elf::header::header64::Header::parse`. That function
/// copies the 16 identification bytes, picks the byte order from the sixth of them
/// (1 little-endian, 2 big-endian, anything else an error), and reads the remaining
/// fields in that order up to byte 64, failing when the bytes run out. It does not
/// look at the magic number. Only the identification bytes and the machine field,
/// which stands at offset 18, are handed on.
#[verifier::external_body]
fn parse_header(bytes: &[u8]) -> (parsed: Result<HeaderFields, goblin::error::Error>)
    ensures
        parsed is Ok <==> header_readable(bytes@),
        parsed is Ok ==> parsed->Ok_0.ident@ == bytes@.subrange(0, 16),
        parsed is Ok ==> parsed->Ok_0.machine == machine_field(bytes@),
{
    let header = goblin::elf::header::header64::Header::parse(bytes)?;
    Ok(HeaderFields { ident: header.e_ident, machine: header.e_machine })
}

/// Classifies an executable by the first bytes of its file.
///
/// Fails with `Format` where the bytes are not a readable ELF header with the ELF
/// magic, and with `UnsupportedArchitecture` where the header names a machine
/// outside the table.
pub fn probe_header(bytes: &[u8]) -> (tag: Result<ArchitectureTag, ExecError>)
    ensures
        tag == probed(bytes@),
{
    match parse_header(bytes) {
        Err(_) => Err(ExecError::Format),
        Ok(fields) => {
            assert(forall|i: int| 0 <= i < 16 ==> fields.ident@[i] == bytes@.subrange(0, 16)[i]);
            if fields.ident[0] != 0x7f || fields.ident[1] != 0x45 || fields.ident[2] != 0x4c
                || fields.ident[3] != 0x46 {
                Err(ExecError::Format)
            } else {
                let tag = ArchitectureTag::from_machine(fields.machine);
                if tag.is_supported() {
                    Ok(tag)
                } else {
                    Err(ExecError::UnsupportedArchitecture)
                }
            }
        },
    }
}

/// Classifies a target by what could be read of its file: `None` stands for a file
/// that could not be opened or read, and fails with `Access`.
pub fn probe(header: Option<&[u8]>) -> (tag: Result<ArchitectureTag, ExecError>)
    ensures
        tag == match header {
            None => Err(ExecError::Access),
            Some(bytes) => probed(bytes@),
        },
{
    match header {
        None => Err(ExecError::Access),
        Some(bytes) => probe_header(bytes),
    }
}

/// The probe never answers `Unsupported`: such a target is an error.
pub proof fn lemma_probed_supported(bytes: Seq<u8>)
    ensures
        probed(bytes) != Ok::<ArchitectureTag, ExecError>(ArchitectureTag::Unsupported),
{
}

} // verus!
