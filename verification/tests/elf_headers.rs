use ferrink::elf::parse_elf_abi;
use ferrink::probe::ArmFloatAbi;

#[test]
fn parses_arm_eabi5_hard_float_flags() {
    let mut header = [0u8; 52];
    header[..4].copy_from_slice(b"\x7fELF");
    header[4] = 1;
    header[5] = 1;
    header[18..20].copy_from_slice(&40u16.to_le_bytes());
    header[36..40].copy_from_slice(&0x0500_0400u32.to_le_bytes());
    let abi = parse_elf_abi(&header).unwrap();
    assert_eq!(abi.arm_eabi_version, Some(5));
    assert_eq!(abi.arm_float_abi, Some(ArmFloatAbi::Hard));
}

#[test]
fn malformed_headers_are_rejected() {
    assert!(parse_elf_abi(b"not an elf").is_none());
}
