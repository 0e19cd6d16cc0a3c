//! Decoding of the two headers into an architecture classification.
use vstd::prelude::*;
use crate::layout::{
    le16, le32, signed32, read_u16_le, read_u32_le, EXTENDED_HEADER_SIZE, EXTENDED_OFFSET_FIELD,
    EXTENDED_SIGNATURE, LEGACY_HEADER_SIZE, LEGACY_SIGNATURE, MACHINE_AMD64, MACHINE_FIELD,
    MACHINE_I386,
};

verus! {

/// What decoding an executable's headers concludes.
#[derive(Clone, Copy, Debug, PartialEq, Eq, Structural)]
pub enum ArchitectureResult {
    /// A valid PE file for 32-bit x86.
    Bits32,
    /// A valid PE file for 64-bit x86.
    Bits64,
    /// A valid PE file for some other machine; the raw code is kept.
    UnknownMachine(u16),
    /// The legacy header does not start with `MZ`.
    NotADosFile,
    /// The extended header does not start with `PE\0\0`.
    NotAPeFile,
    /// A header lies, wholly or in part, outside the source: a short read,
    /// or an extended-header offset that is negative or past the end.
    IoFailure,
}

impl ArchitectureResult {
    /// The text that reports this result.
    pub open spec fn label_spec(self) -> Seq<char> {
        match self {
            ArchitectureResult::Bits32 => "32bit"@,
            ArchitectureResult::Bits64 => "64bit"@,
            ArchitectureResult::UnknownMachine(_) => "Unknown"@,
            ArchitectureResult::NotADosFile => "Not a valid DOS file."@,
            ArchitectureResult::NotAPeFile => "Not a valid PE file."@,
            ArchitectureResult::IoFailure => "failed to fill whole buffer"@,
        }
    }

    /// The text that reports this result.
    pub fn label(&self) -> (r: &'static str)
        ensures
            r@ == self.label_spec(),
    {
        match self {
            ArchitectureResult::Bits32 => "32bit",
            ArchitectureResult::Bits64 => "64bit",
            ArchitectureResult::UnknownMachine(_) => "Unknown",
            ArchitectureResult::NotADosFile => "Not a valid DOS file.",
            ArchitectureResult::NotAPeFile => "Not a valid PE file.",
            ArchitectureResult::IoFailure => "failed to fill whole buffer",
        }
    }
}

/// What to do once the legacy header has been decoded.
#[derive(Clone, Copy, Debug, PartialEq, Eq, Structural)]
pub enum LegacyDecision {
    /// The classification is already known; nothing more is read.
    Finished(ArchitectureResult),
    /// Read the extended header at this absolute position of the source.
    ReadExtendedAt(u64),
}

/// The classification of a machine code.
pub open spec fn machine_result(code: int) -> ArchitectureResult {
    if code == MACHINE_I386 {
        ArchitectureResult::Bits32
    } else if code == MACHINE_AMD64 {
        ArchitectureResult::Bits64
    } else {
        ArchitectureResult::UnknownMachine(code as u16)
    }
}

/// `b` starts with the bytes `M`, `Z`.
pub open spec fn has_legacy_signature(b: Seq<u8>) -> bool {
    b.len() >= 2 && b[0] == 0x4D && b[1] == 0x5A
}

/// The bytes `P`, `E`, 0, 0 stand at position `at` of `b`.
pub open spec fn has_extended_signature(b: Seq<u8>, at: int) -> bool {
    &&& 0 <= at
    &&& at + 4 <= b.len()
    &&& b[at] == 0x50
    &&& b[at + 1] == 0x45
    &&& b[at + 2] == 0
    &&& b[at + 3] == 0
}

/// The signed `extended_header_offset` field of a legacy header.
pub open spec fn extended_offset(legacy: Seq<u8>) -> int {
    signed32(le32(legacy, EXTENDED_OFFSET_FIELD as int))
}

/// The decision taken on a legacy header (its first 64 bytes count).
pub open spec fn legacy_decision(legacy: Seq<u8>) -> LegacyDecision {
    if legacy.len() < LEGACY_HEADER_SIZE {
        LegacyDecision::Finished(ArchitectureResult::IoFailure)
    } else if !has_legacy_signature(legacy) {
        LegacyDecision::Finished(ArchitectureResult::NotADosFile)
    } else if extended_offset(legacy) < 0 {
        LegacyDecision::Finished(ArchitectureResult::IoFailure)
    } else {
        LegacyDecision::ReadExtendedAt(extended_offset(legacy) as u64)
    }
}

/// The classification given by an extended header (its first 24 bytes count).
pub open spec fn extended_result(ext: Seq<u8>) -> ArchitectureResult {
    if ext.len() < EXTENDED_HEADER_SIZE {
        ArchitectureResult::IoFailure
    } else if !has_extended_signature(ext, 0) {
        ArchitectureResult::NotAPeFile
    } else {
        machine_result(le16(ext, MACHINE_FIELD as int))
    }
}

/// The classification of a whole file `f`.
pub open spec fn classify_spec(f: Seq<u8>) -> ArchitectureResult {
    if f.len() < LEGACY_HEADER_SIZE {
        ArchitectureResult::IoFailure
    } else if !has_legacy_signature(f) {
        ArchitectureResult::NotADosFile
    } else {
        let at = extended_offset(f);
        if at < 0 || at + EXTENDED_HEADER_SIZE > f.len() {
            ArchitectureResult::IoFailure
        } else if !has_extended_signature(f, at) {
            ArchitectureResult::NotAPeFile
        } else {
            machine_result(le16(f, at + MACHINE_FIELD))
        }
    }
}

/// Classifies a machine code.
pub fn classify_machine(code: u16) -> (r: ArchitectureResult)
    ensures
        r == machine_result(code as int),
{
    if code == MACHINE_I386 {
        ArchitectureResult::Bits32
    } else if code == MACHINE_AMD64 {
        ArchitectureResult::Bits64
    } else {
        ArchitectureResult::UnknownMachine(code)
    }
}


/// Decides, from the legacy header at the start of `legacy`, whether the
/// classification is known or where the extended header must be read.
/// Only the first 64 bytes are looked at.
pub fn decode_legacy(legacy: &[u8]) -> (d: LegacyDecision)
    ensures
        d == legacy_decision(legacy@),
{
    if legacy.len() < LEGACY_HEADER_SIZE {
        return LegacyDecision::Finished(ArchitectureResult::IoFailure);
    }
    let signature = read_u16_le(legacy, 0);
    if signature != LEGACY_SIGNATURE {
        return LegacyDecision::Finished(ArchitectureResult::NotADosFile);
    }
    let raw = read_u32_le(legacy, EXTENDED_OFFSET_FIELD);
    if raw >= 0x8000_0000 {
        LegacyDecision::Finished(ArchitectureResult::IoFailure)
    } else {
        LegacyDecision::ReadExtendedAt(raw as u64)
    }
}

/// Classifies the extended header that stands at position `at` of `b`.
fn decode_extended_at(b: &[u8], at: usize) -> (r: ArchitectureResult)
    requires
        at + EXTENDED_HEADER_SIZE <= b@.len(),
    ensures
        r == (if has_extended_signature(b@, at as int) {
            machine_result(le16(b@, at + MACHINE_FIELD))
        } else {
            ArchitectureResult::NotAPeFile
        }),
{
    let n = b.len();
    assert(at + EXTENDED_HEADER_SIZE <= n);
    let signature = read_u32_le(b, at);
    if signature != EXTENDED_SIGNATURE {
        return ArchitectureResult::NotAPeFile;
    }
    let code = read_u16_le(b, at + MACHINE_FIELD);
    classify_machine(code)
}

/// Classifies the extended header at the start of `ext`.
/// Only the first 24 bytes are looked at.
pub fn decode_extended(ext: &[u8]) -> (r: ArchitectureResult)
    ensures
        r == extended_result(ext@),
{
    if ext.len() < EXTENDED_HEADER_SIZE {
        ArchitectureResult::IoFailure
    } else {
        decode_extended_at(ext, 0)
    }
}

/// Classifies the executable whose whole contents are `file`.
pub fn classify(file: &[u8]) -> (r: ArchitectureResult)
    ensures
        r == classify_spec(file@),
{
    match decode_legacy(file) {
        LegacyDecision::Finished(r) => r,
        LegacyDecision::ReadExtendedAt(at) => {
            let n = file.len() as u64;
            if at > n || n - at < EXTENDED_HEADER_SIZE as u64 {
                ArchitectureResult::IoFailure
            } else {
                decode_extended_at(file, at as usize)
            }
        },
    }
}


/// A source whose legacy header does not start with `M`, `Z` is not a DOS
/// file, and its extended header is never read.
pub proof fn lemma_bad_legacy_signature(f: Seq<u8>)
    requires
        f.len() >= LEGACY_HEADER_SIZE,
        !(f[0] == 0x4D && f[1] == 0x5A),
    ensures
        legacy_decision(f) == LegacyDecision::Finished(ArchitectureResult::NotADosFile),
        classify_spec(f) == ArchitectureResult::NotADosFile,
{
}

/// A DOS file whose extended header would not fit in the source is an
/// input/output failure, whatever bytes follow.
pub proof fn lemma_offset_out_of_range(f: Seq<u8>)
    requires
        f.len() >= LEGACY_HEADER_SIZE,
        has_legacy_signature(f),
        extended_offset(f) < 0 || extended_offset(f) + EXTENDED_HEADER_SIZE > f.len(),
    ensures
        classify_spec(f) == ArchitectureResult::IoFailure,
{
}

/// A DOS file whose extended header fits but does not start with
/// `P`, `E`, 0, 0 is not a PE file.
pub proof fn lemma_bad_extended_signature(f: Seq<u8>)
    requires
        f.len() >= LEGACY_HEADER_SIZE,
        has_legacy_signature(f),
        0 <= extended_offset(f),
        extended_offset(f) + EXTENDED_HEADER_SIZE <= f.len(),
        !has_extended_signature(f, extended_offset(f)),
    ensures
        classify_spec(f) == ArchitectureResult::NotAPeFile,
{
}

/// With both signatures valid, the machine code decides: `0x014C` is
/// 32-bit, `0x8664` is 64-bit, and any other code is reported as it is.
pub proof fn lemma_machine_classification(f: Seq<u8>)
    requires
        f.len() >= LEGACY_HEADER_SIZE,
        has_legacy_signature(f),
        0 <= extended_offset(f),
        extended_offset(f) + EXTENDED_HEADER_SIZE <= f.len(),
        has_extended_signature(f, extended_offset(f)),
    ensures
        ({
            let code = le16(f, extended_offset(f) + MACHINE_FIELD);
            &&& code == 0x014C ==> classify_spec(f) == ArchitectureResult::Bits32
            &&& code == 0x8664 ==> classify_spec(f) == ArchitectureResult::Bits64
            &&& code != 0x014C && code != 0x8664 ==> classify_spec(f)
                == ArchitectureResult::UnknownMachine(code as u16)
            &&& code == 0x01C0 ==> classify_spec(f) == ArchitectureResult::UnknownMachine(
                0x01C0,
            )
        }),
{
}

/// Classification depends on the bytes of the source alone: two sources
/// with the same contents, or one source read twice, classify alike.
pub proof fn lemma_classify_deterministic(f: Seq<u8>, g: Seq<u8>)
    requires
        f == g,
    ensures
        classify_spec(f) == classify_spec(g),
{
}

/// Decoding in two stages, as a reader of a seekable source does (the
/// first 64 bytes, then 24 bytes at the offset they give), reaches the
/// same classification as decoding the whole contents at once.
pub proof fn lemma_staged_decoding_agrees(f: Seq<u8>)
    ensures
        f.len() >= LEGACY_HEADER_SIZE ==> legacy_decision(f.subrange(0, LEGACY_HEADER_SIZE as int))
            == legacy_decision(f),
        match legacy_decision(f) {
            LegacyDecision::Finished(r) => r == classify_spec(f),
            LegacyDecision::ReadExtendedAt(at) => if at + EXTENDED_HEADER_SIZE <= f.len() {
                extended_result(f.subrange(at as int, at + EXTENDED_HEADER_SIZE))
                    == classify_spec(f)
            } else {
                classify_spec(f) == ArchitectureResult::IoFailure
            },
        },
{
    match legacy_decision(f) {
        LegacyDecision::Finished(_) => {},
        LegacyDecision::ReadExtendedAt(at) => {
            if at + EXTENDED_HEADER_SIZE <= f.len() {
                let e = f.subrange(at as int, at + EXTENDED_HEADER_SIZE);
                assert(le16(e, MACHINE_FIELD as int) == le16(f, at + MACHINE_FIELD));
            }
        },
    }
}

} // verus!
