//! The part of an ELF header that describes an executable's ABI.

use crate::bytes::{read_u16, read_u32};
use crate::probe::{ArmFloatAbi, ElfAbi, ElfClass, Endianness};
use vstd::prelude::*;

verus! {

/// Machine number of 32-bit ARM.
pub const ELF_MACHINE_ARM: u16 = 40;

/// Flag of executables that pass floats in integer registers.
pub const ARM_FLOAT_SOFT: u32 = 0x200;

/// Flag of executables that pass floats in floating-point registers.
pub const ARM_FLOAT_HARD: u32 = 0x400;

/// The word size that a header declares and is long enough for.
pub open spec fn class_of(header: Seq<u8>) -> Option<ElfClass> {
    if header[4] == 1 {
        Some(ElfClass::Elf32)
    } else if header[4] == 2 && header.len() >= 64 {
        Some(ElfClass::Elf64)
    } else {
        None
    }
}

/// The byte order that a header declares.
pub open spec fn order_of(header: Seq<u8>) -> Option<Endianness> {
    if header[5] == 1 {
        Some(Endianness::Little)
    } else if header[5] == 2 {
        Some(Endianness::Big)
    } else {
        None
    }
}

/// The float convention that ARM flags declare.
pub open spec fn float_abi_of(flags: u32) -> ArmFloatAbi {
    if flags & ARM_FLOAT_HARD != 0 {
        if flags & ARM_FLOAT_SOFT != 0 {
            ArmFloatAbi::ConflictingFlags
        } else {
            ArmFloatAbi::Hard
        }
    } else if flags & ARM_FLOAT_SOFT != 0 {
        ArmFloatAbi::Soft
    } else {
        ArmFloatAbi::Unspecified
    }
}

/// Where the flags stand in a header.
pub open spec fn flags_offset(class: ElfClass) -> int {
    match class {
        ElfClass::Elf32 => 36,
        ElfClass::Elf64 => 48,
    }
}

/// What a header says of the ABI, if it is one.
pub open spec fn abi_of(header: Seq<u8>) -> Option<ElfAbi> {
    if header.len() < 52 || header.take(4) != seq![0x7fu8, 0x45u8, 0x4cu8, 0x46u8] {
        None
    } else {
        match (class_of(header), order_of(header)) {
            (Some(class), Some(order)) => {
                let machine = crate::bytes::u16_at(order, header, 18) as u16;
                let flags = crate::bytes::u32_at(order, header, flags_offset(class)) as u32;
                Some(
                    ElfAbi {
                        class,
                        endianness: order,
                        machine,
                        flags,
                        arm_eabi_version: if machine == ELF_MACHINE_ARM {
                            Some((flags / 0x100_0000) as u8)
                        } else {
                            None
                        },
                        arm_float_abi: if machine == ELF_MACHINE_ARM {
                            Some(float_abi_of(flags))
                        } else {
                            None
                        },
                    },
                )
            },
            _ => None,
        }
    }
}

/// Reads the ABI from the beginning of an executable.
pub fn parse_elf_abi(header: &[u8]) -> (abi: Option<ElfAbi>)
    ensures
        abi == abi_of(header@),
{
    if header.len() < 52 {
        return None;
    }
    let magic: bool = header[0] == 0x7f && header[1] == 0x45 && header[2] == 0x4c && header[3]
        == 0x46;
    assert(magic == (header@.take(4) == seq![0x7fu8, 0x45u8, 0x4cu8, 0x46u8])) by {
        if magic {
            assert(header@.take(4) =~= seq![0x7fu8, 0x45u8, 0x4cu8, 0x46u8]);
        } else {
            assert(header@.take(4)[0] == header@[0]);
            assert(header@.take(4)[1] == header@[1]);
            assert(header@.take(4)[2] == header@[2]);
            assert(header@.take(4)[3] == header@[3]);
        }
    }
    if !magic {
        return None;
    }
    let class: ElfClass = if header[4] == 1 {
        ElfClass::Elf32
    } else if header[4] == 2 && header.len() >= 64 {
        ElfClass::Elf64
    } else {
        return None;
    };
    let endianness: Endianness = if header[5] == 1 {
        Endianness::Little
    } else if header[5] == 2 {
        Endianness::Big
    } else {
        return None;
    };
    let machine: u16 = read_u16(endianness, header, 18);
    let flags: u32 = match class {
        ElfClass::Elf32 => read_u32(endianness, header, 36),
        ElfClass::Elf64 => read_u32(endianness, header, 48),
    };
    let (arm_eabi_version, arm_float_abi): (Option<u8>, Option<ArmFloatAbi>) = if machine
        == ELF_MACHINE_ARM {
        let hard: bool = flags & ARM_FLOAT_HARD != 0;
        let soft: bool = flags & ARM_FLOAT_SOFT != 0;
        let float_abi: ArmFloatAbi = match (hard, soft) {
            (true, false) => ArmFloatAbi::Hard,
            (false, true) => ArmFloatAbi::Soft,
            (false, false) => ArmFloatAbi::Unspecified,
            (true, true) => ArmFloatAbi::ConflictingFlags,
        };
        (Some((flags / 0x100_0000) as u8), Some(float_abi))
    } else {
        (None, None)
    };
    Some(ElfAbi { class, endianness, machine, flags, arm_eabi_version, arm_float_abi })
}

/// An ABI is read exactly from a header that begins with the ELF magic, is long
/// enough for its class, and names a class and a byte order.
pub proof fn law_headers_begin_with_the_magic(header: Seq<u8>)
    ensures
        abi_of(header) is Some <==> {
            &&& header.len() >= 52
            &&& header[0] == 0x7f && header[1] == 0x45 && header[2] == 0x4c && header[3] == 0x46
            &&& header[4] == 1 || header[4] == 2 && header.len() >= 64
            &&& header[5] == 1 || header[5] == 2
        },
{
    if header.len() >= 52 {
        let magic = seq![0x7fu8, 0x45u8, 0x4cu8, 0x46u8];
        let start = header.take(4);
        if start == magic {
            assert(start[0] == magic[0] && start[1] == magic[1] && start[2] == magic[2] && start[3]
                == magic[3]);
        }
        if header[0] == 0x7f && header[1] == 0x45 && header[2] == 0x4c && header[3] == 0x46 {
            assert(start =~= magic);
        }
    }
}

/// The machine stands in bytes 18 and 19, the flags in four bytes from 36 or 48,
/// both in the byte order of the header; the highest byte of an ARM machine's
/// flags is its EABI version, and two of their bits tell how it passes floating
/// point values.
pub proof fn law_abis_are_read_from_their_bytes(header: Seq<u8>)
    requires
        abi_of(header) is Some,
    ensures
        ({
            let abi = abi_of(header)->0;
            let at: int = if header[4] == 1 {
                36
            } else {
                48
            };
            let little = header[5] == 1;
            let (first, second, third, highest) = if little {
                (header[at], header[at + 1], header[at + 2], header[at + 3])
            } else {
                (header[at + 3], header[at + 2], header[at + 1], header[at])
            };
            &&& abi.class == (if header[4] == 1 {
                ElfClass::Elf32
            } else {
                ElfClass::Elf64
            })
            &&& abi.endianness == (if little {
                Endianness::Little
            } else {
                Endianness::Big
            })
            &&& abi.machine == (if little {
                header[18] + 0x100 * header[19]
            } else {
                header[19] + 0x100 * header[18]
            })
            &&& abi.flags == first + 0x100 * second + 0x1_0000 * third + 0x100_0000 * highest
            &&& abi.machine == 40 ==> abi.arm_eabi_version == Some(highest)
            &&& abi.machine != 40 ==> abi.arm_eabi_version is None && abi.arm_float_abi is None
            &&& abi.machine == 40 ==> (abi.arm_float_abi matches Some(float) && {
                let hard = abi.flags & 0x400 != 0;
                let soft = abi.flags & 0x200 != 0;
                &&& float == ArmFloatAbi::Hard <==> hard && !soft
                &&& float == ArmFloatAbi::Soft <==> soft && !hard
                &&& float == ArmFloatAbi::ConflictingFlags <==> hard && soft
                &&& float == ArmFloatAbi::Unspecified <==> !hard && !soft
            })
        }),
{
    crate::bytes::law_bytes_are_positional(header, 18);
    crate::bytes::law_bytes_are_positional(header, 36);
    crate::bytes::law_bytes_are_positional(header, 48);
}

} // verus!
