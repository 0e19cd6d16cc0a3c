use x96check::decode::{
    classify, classify_machine, decode_extended, decode_legacy, ArchitectureResult,
    LegacyDecision,
};
use x96check::layout::{read_u16_le, read_u32_le};

/// A file of `len` zero bytes holding both signatures, the extended header
/// at `at`, and the machine code `machine`.
fn executable(len: usize, at: u32, machine: u16) -> Vec<u8> {
    let mut f = vec![0u8; len];
    f[0] = 0x4D;
    f[1] = 0x5A;
    f[60..64].copy_from_slice(&at.to_le_bytes());
    let at = at as usize;
    f[at..at + 4].copy_from_slice(&[0x50, 0x45, 0x00, 0x00]);
    f[at + 4..at + 6].copy_from_slice(&machine.to_le_bytes());
    f
}

#[test]
fn minimal_64bit_executable() {
    let f = executable(88, 64, 0x8664);
    assert_eq!(f.len(), 64 + 24);
    assert_eq!(classify(&f), ArchitectureResult::Bits64);
}

#[test]
fn executable_32bit() {
    let f = executable(88, 64, 0x014C);
    assert_eq!(classify(&f), ArchitectureResult::Bits32);
}

#[test]
fn unknown_machine_keeps_code() {
    let f = executable(88, 64, 0x01C0);
    assert_eq!(classify(&f), ArchitectureResult::UnknownMachine(0x01C0));
}

#[test]
fn extended_header_further_in() {
    let f = executable(400, 200, 0x8664);
    assert_eq!(classify(&f), ArchitectureResult::Bits64);
}

#[test]
fn empty_input_is_io_failure() {
    assert_eq!(classify(&[]), ArchitectureResult::IoFailure);
}

#[test]
fn short_legacy_header_is_io_failure() {
    let f = executable(88, 64, 0x8664);
    assert_eq!(classify(&f[..63]), ArchitectureResult::IoFailure);
    assert_eq!(
        decode_legacy(&f[..63]),
        LegacyDecision::Finished(ArchitectureResult::IoFailure)
    );
}

#[test]
fn bad_legacy_signature_is_not_dos() {
    let mut f = executable(88, 64, 0x8664);
    f[0] = 0x5A;
    f[1] = 0x4D;
    assert_eq!(classify(&f), ArchitectureResult::NotADosFile);
    assert_eq!(
        decode_legacy(&f),
        LegacyDecision::Finished(ArchitectureResult::NotADosFile)
    );
    let text = vec![b'h'; 100];
    assert_eq!(classify(&text), ArchitectureResult::NotADosFile);
}

#[test]
fn offset_past_end_is_io_failure() {
    let mut f = executable(88, 64, 0x8664);
    f[60..64].copy_from_slice(&1000u32.to_le_bytes());
    assert_eq!(classify(&f), ArchitectureResult::IoFailure);
    assert_eq!(decode_legacy(&f), LegacyDecision::ReadExtendedAt(1000));
}

#[test]
fn offset_leaving_short_extended_header_is_io_failure() {
    let f = executable(88, 64, 0x8664);
    assert_eq!(classify(&f[..87]), ArchitectureResult::IoFailure);
    assert_eq!(decode_extended(&f[64..87]), ArchitectureResult::IoFailure);
}

#[test]
fn negative_offset_is_io_failure() {
    let mut f = executable(88, 64, 0x8664);
    f[60..64].copy_from_slice(&(-4i32).to_le_bytes());
    assert_eq!(classify(&f), ArchitectureResult::IoFailure);
    assert_eq!(
        decode_legacy(&f),
        LegacyDecision::Finished(ArchitectureResult::IoFailure)
    );
}

#[test]
fn bad_extended_signature_is_not_pe() {
    let mut f = executable(88, 64, 0x8664);
    f[66] = 0x01;
    assert_eq!(classify(&f), ArchitectureResult::NotAPeFile);
    let mut g = executable(88, 64, 0x8664);
    g[64] = b'N';
    g[65] = b'E';
    assert_eq!(classify(&g), ArchitectureResult::NotAPeFile);
}

#[test]
fn classify_twice_gives_same_result() {
    for f in [
        executable(88, 64, 0x8664),
        executable(88, 64, 0x01C0),
        vec![0u8; 10],
    ] {
        assert_eq!(classify(&f), classify(&f));
    }
}

#[test]
fn staged_decoding_matches_whole() {
    let f = executable(300, 128, 0x014C);
    let at = match decode_legacy(&f[..64]) {
        LegacyDecision::ReadExtendedAt(at) => at as usize,
        other => panic!("unexpected decision {:?}", other),
    };
    assert_eq!(at, 128);
    assert_eq!(decode_extended(&f[at..at + 24]), classify(&f));
    assert_eq!(decode_extended(&f[at..at + 24]), ArchitectureResult::Bits32);
}

#[test]
fn little_endian_reads() {
    let b = [0x4D, 0x5A, 0x50, 0x45, 0x00, 0x00, 0x64, 0x86];
    assert_eq!(read_u16_le(&b, 0), 0x5A4D);
    assert_eq!(read_u16_le(&b, 6), 0x8664);
    assert_eq!(read_u32_le(&b, 2), 0x0000_4550);
    assert_eq!(read_u32_le(&b, 4), 0x8664_0000);
}

#[test]
fn machine_codes() {
    assert_eq!(classify_machine(0x014C), ArchitectureResult::Bits32);
    assert_eq!(classify_machine(0x8664), ArchitectureResult::Bits64);
    assert_eq!(classify_machine(0xAA64), ArchitectureResult::UnknownMachine(0xAA64));
}

#[test]
fn labels() {
    assert_eq!(ArchitectureResult::Bits32.label(), "32bit");
    assert_eq!(ArchitectureResult::Bits64.label(), "64bit");
    assert_eq!(ArchitectureResult::UnknownMachine(0x01C0).label(), "Unknown");
    assert_eq!(ArchitectureResult::NotADosFile.label(), "Not a valid DOS file.");
    assert_eq!(ArchitectureResult::NotAPeFile.label(), "Not a valid PE file.");
}
