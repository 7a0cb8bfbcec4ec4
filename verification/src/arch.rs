//! CPU architectures that the interposer tells apart.

use vstd::prelude::*;

use crate::text::same_text;

verus! {

/// The instruction set an executable was built for, as far as the interposer
/// distinguishes them. `Unsupported` stands for every machine outside the table; it
/// is never a target and never a host.
#[derive(Clone, Copy, Debug, PartialEq, Eq, Structural)]
pub enum ArchitectureTag {
    X86,
    X86_64,
    Arm,
    Aarch64,
    Unsupported,
}

/// ELF `e_machine` value of 32-bit x86.
pub const EM_386: u16 = 0x03;

/// ELF `e_machine` value of 32-bit ARM.
pub const EM_ARM: u16 = 0x28;

/// ELF `e_machine` value of x86-64.
pub const EM_X86_64: u16 = 0x3e;

/// ELF `e_machine` value of 64-bit ARM.
pub const EM_AARCH64: u16 = 0xb7;

/// The tag that the ELF machine field `machine` stands for.
pub open spec fn machine_tag(machine: u16) -> ArchitectureTag {
    if machine == 0x03 {
        ArchitectureTag::X86
    } else if machine == 0x3e {
        ArchitectureTag::X86_64
    } else if machine == 0x28 {
        ArchitectureTag::Arm
    } else if machine == 0xb7 {
        ArchitectureTag::Aarch64
    } else {
        ArchitectureTag::Unsupported
    }
}

/// The tag that a platform architecture name (as in `std::env::consts::ARCH`, or the
/// emulator's own spelling `i386`) stands for.
pub open spec fn named_tag(name: Seq<char>) -> ArchitectureTag {
    if name == "x86"@ || name == "i386"@ {
        ArchitectureTag::X86
    } else if name == "x86_64"@ {
        ArchitectureTag::X86_64
    } else if name == "arm"@ {
        ArchitectureTag::Arm
    } else if name == "aarch64"@ {
        ArchitectureTag::Aarch64
    } else {
        ArchitectureTag::Unsupported
    }
}

/// The name under which emulator launchers and library roots are filed for `tag`;
/// empty for `Unsupported`.
pub open spec fn tag_name(tag: ArchitectureTag) -> Seq<char> {
    match tag {
        ArchitectureTag::X86 => "i386"@,
        ArchitectureTag::X86_64 => "x86_64"@,
        ArchitectureTag::Arm => "arm"@,
        ArchitectureTag::Aarch64 => "aarch64"@,
        ArchitectureTag::Unsupported => Seq::<char>::empty(),
    }
}

impl ArchitectureTag {
    /// Maps an ELF machine field to its tag.
    pub fn from_machine(machine: u16) -> (tag: ArchitectureTag)
        ensures
            tag == machine_tag(machine),
    {
        if machine == EM_386 {
            ArchitectureTag::X86
        } else if machine == EM_X86_64 {
            ArchitectureTag::X86_64
        } else if machine == EM_ARM {
            ArchitectureTag::Arm
        } else if machine == EM_AARCH64 {
            ArchitectureTag::Aarch64
        } else {
            ArchitectureTag::Unsupported
        }
    }

    /// Maps a platform architecture name to its tag.
    pub fn from_name(name: &str) -> (tag: ArchitectureTag)
        ensures
            tag == named_tag(name@),
    {
        if same_text(name, "x86") || same_text(name, "i386") {
            ArchitectureTag::X86
        } else if same_text(name, "x86_64") {
            ArchitectureTag::X86_64
        } else if same_text(name, "arm") {
            ArchitectureTag::Arm
        } else if same_text(name, "aarch64") {
            ArchitectureTag::Aarch64
        } else {
            ArchitectureTag::Unsupported
        }
    }

    /// True for every tag but `Unsupported`.
    pub fn is_supported(&self) -> (b: bool)
        ensures
            b == (*self != ArchitectureTag::Unsupported),
    {
        match self {
            ArchitectureTag::Unsupported => false,
            _ => true,
        }
    }

    /// The architecture's name in launcher and directory names.
    pub fn name(&self) -> (name: &'static str)
        ensures
            name@ == tag_name(*self),
    {
        match self {
            ArchitectureTag::X86 => "i386",
            ArchitectureTag::X86_64 => "x86_64",
            ArchitectureTag::Arm => "arm",
            ArchitectureTag::Aarch64 => "aarch64",
            ArchitectureTag::Unsupported => {
                proof {
                    reveal_strlit("");
                }
                ""
            },
        }
    }
}

} // verus!
