//! What is decided about a font before and beside its parsing.
//!
//! The parser of font data is `ttf_parser`, and it is called by whoever
//! uses this crate: built with debug assertions it stops the program on
//! some fonts whose tables claim lengths that do not fit, and no condition
//! that could be tested here leaves all of those out. What stands here is
//! what surrounds the calls: the check of a face index against the number
//! of faces, the check that a collection holds the offsets it announces,
//! the error for each refusal of the parser, and the choice of a kerning
//! value among the subtables of the `kern` table.

use ttf_parser::FaceParsingError;
use vstd::prelude::*;

verus! {

/// The reasons for which `ttf_parser` refuses to parse a face. Its variants
/// are read as the parser declares them.
#[verifier::external_type_specification]
pub struct ExFaceParsingError(FaceParsingError);

/// One kerning subtable, seen from a pair of glyphs: the three flags that
/// say what kind of subtable it is, and the adjustment it holds for the pair.
#[derive(Clone, Copy, Debug, PartialEq, Eq, Structural)]
pub struct KernCandidate {
    /// The subtable is for horizontal text.
    pub horizontal: bool,
    /// The subtable holds cross-stream values.
    pub has_cross_stream: bool,
    /// The subtable is driven by a state machine, not by pairs.
    pub has_state_machine: bool,
    /// The adjustment for the pair, in font units.
    pub value: Option<i16>,
}

/// Why no face could be loaded from font data.
#[derive(Clone, Copy, Debug, PartialEq, Eq, Structural)]
pub enum FontError {
    /// The data is a collection that holds no face at all.
    NoFaces,
    /// The data holds `face_count` faces, and `face_index` is none of them.
    FaceIndexOutOfRange { face_index: u32, face_count: u32 },
    /// A read ran past the end of the data.
    Malformed,
    /// The data does not start like a font.
    UnknownMagic,
    /// The `head` table is missing or broken.
    NoHeadTable,
    /// The `hhea` table is missing or broken.
    NoHheaTable,
    /// The `maxp` table is missing or broken.
    NoMaxpTable,
}

/// The big-endian 32-bit number that starts at byte `at`.
pub open spec fn be32(data: Seq<u8>, at: int) -> int
    recommends
        0 <= at,
        at + 4 <= data.len(),
{
    data[at] * 0x100_0000 + data[at + 1] * 0x1_0000 + data[at + 2] * 0x100 + data[at + 3]
}

/// The number of faces that font data announces when it is a collection:
/// the data then starts with the tag `ttcf`, and the count follows the
/// 32-bit version.
pub open spec fn collection_size(data: Seq<u8>) -> Option<u32> {
    if data.len() >= 12 && be32(data, 0) == 0x7474_6366 {
        Some(be32(data, 8) as u32)
    } else {
        None
    }
}

/// The number of faces in font data: a file that is no collection holds one.
pub open spec fn face_count(data: Seq<u8>) -> u32 {
    match collection_size(data) {
        Some(count) => count,
        None => 1,
    }
}

/// The error of the library for a refusal of the parser.
pub open spec fn font_error_of(refusal: FaceParsingError, face_index: u32, face_count: u32) -> FontError {
    match refusal {
        FaceParsingError::MalformedFont => FontError::Malformed,
        FaceParsingError::UnknownMagic => FontError::UnknownMagic,
        FaceParsingError::FaceIndexOutOfBounds => FontError::FaceIndexOutOfRange {
            face_index,
            face_count,
        },
        FaceParsingError::NoHeadTable => FontError::NoHeadTable,
        FaceParsingError::NoHheaTable => FontError::NoHheaTable,
        FaceParsingError::NoMaxpTable => FontError::NoMaxpTable,
    }
}

/// Whether a face of that index exists among `face_count` faces, and the
/// error where it does not.
pub open spec fn face_index_check(face_index: u32, face_count: u32) -> Result<(), FontError> {
    if face_count == 0 {
        Err(FontError::NoFaces)
    } else if face_index >= face_count {
        Err(FontError::FaceIndexOutOfRange { face_index, face_count })
    } else {
        Ok(())
    }
}

/// A collection holds the offsets of all the faces it announces, four bytes
/// each behind the twelve of the header, within the first four gigabytes.
/// Data that is no collection has nothing to hold.
pub open spec fn collection_offsets_fit(data: Seq<u8>) -> bool {
    match collection_size(data) {
        Some(faces) => 12 + 4 * faces <= data.len() && 12 + 4 * faces <= 0xFFFF_FFFF,
        None => true,
    }
}

/// The outcome of `check_font_header`: the error of the index check first,
/// then that of a collection too short for its offsets.
pub open spec fn header_check(data: Seq<u8>, face_index: u32) -> Result<(), FontError> {
    match face_index_check(face_index, face_count(data)) {
        Err(error) => Err(error),
        Ok(_) => if collection_offsets_fit(data) {
            Ok(())
        } else {
            Err(FontError::Malformed)
        },
    }
}

/// A subtable takes part in kerning when it is horizontal, holds no
/// cross-stream values and is no state machine.
pub open spec fn usable_for_kerning(candidate: KernCandidate) -> bool {
    candidate.horizontal && !candidate.has_cross_stream && !candidate.has_state_machine
}

/// The adjustment of the first usable subtable that holds one for the pair.
pub open spec fn select_kerning_spec(candidates: Seq<KernCandidate>) -> Option<i16>
    decreases candidates.len(),
{
    if candidates.len() == 0 {
        None
    } else if usable_for_kerning(candidates[0]) && candidates[0].value is Some {
        candidates[0].value
    } else {
        select_kerning_spec(candidates.drop_first())
    }
}

/// Calls `ttf_parser::fonts_in_collection`, which reads the first twelve
/// bytes: the tag, the version, the count. It returns the count where the
/// tag is `ttcf` and the twelve bytes are there, and `None` otherwise.
#[verifier::external_body]
fn fonts_in_collection(data: &[u8]) -> (count: Option<u32>)
    ensures
        count == collection_size(data@),
{
    ttf_parser::fonts_in_collection(data)
}

/// Says whether `face_index` names one of `face_count` faces.
pub fn check_face_index(face_index: u32, face_count: u32) -> (checked: Result<(), FontError>)
    ensures
        checked == face_index_check(face_index, face_count),
{
    if face_count == 0 {
        Err(FontError::NoFaces)
    } else if face_index >= face_count {
        Err(FontError::FaceIndexOutOfRange { face_index, face_count })
    } else {
        Ok(())
    }
}

/// Turns a refusal of the parser into the error of the library.
pub fn font_error(refusal: FaceParsingError, face_index: u32, face_count: u32) -> (error: FontError)
    ensures
        error == font_error_of(refusal, face_index, face_count),
{
    match refusal {
        FaceParsingError::MalformedFont => FontError::Malformed,
        FaceParsingError::UnknownMagic => FontError::UnknownMagic,
        FaceParsingError::FaceIndexOutOfBounds => FontError::FaceIndexOutOfRange {
            face_index,
            face_count,
        },
        FaceParsingError::NoHeadTable => FontError::NoHeadTable,
        FaceParsingError::NoHheaTable => FontError::NoHheaTable,
        FaceParsingError::NoMaxpTable => FontError::NoMaxpTable,
    }
}

/// Counts the faces in font data: the announced count of a collection, and
/// one for any other data.
pub fn count_faces(data: &[u8]) -> (count: u32)
    ensures
        count == face_count(data@),
{
    match fonts_in_collection(data) {
        Some(count) => count,
        None => 1,
    }
}

/// Checks what can be checked of font data before the parser sees it.
///
/// The face index has to name one of the faces, and a collection has to
/// hold the offsets of all the faces it announces, within the first four
/// gigabytes. Data that fails the second is malformed: the parser says so
/// too where it answers at all, and it reads the offsets in one piece
/// before it looks at any of them.
pub fn check_font_header(data: &[u8], face_index: u32) -> (checked: Result<(), FontError>)
    ensures
        checked == header_check(data@, face_index),
{
    let announced = fonts_in_collection(data);
    let count: u32 = match announced {
        Some(count) => count,
        None => 1,
    };
    match check_face_index(face_index, count) {
        Err(error) => Err(error),
        Ok(()) => match announced {
            None => Ok(()),
            Some(faces) => {
                let end: u64 = 12 + 4 * (faces as u64);
                if end <= 0xFFFF_FFFF && end <= data.len() as u64 {
                    Ok(())
                } else {
                    Err(FontError::Malformed)
                }
            },
        },
    }
}

/// Picks the kerning for a pair from what the subtables hold for it: the
/// adjustment of the first subtable that is horizontal, not cross-stream
/// and no state machine, and that has an entry for the pair.
pub fn select_kerning(candidates: &[KernCandidate]) -> (kerning: Option<i16>)
    ensures
        kerning == select_kerning_spec(candidates@),
{
    let mut i: usize = 0;
    assert(candidates@.skip(0) =~= candidates@);
    while i < candidates.len()
        invariant
            i <= candidates@.len(),
            select_kerning_spec(candidates@) == select_kerning_spec(candidates@.skip(i as int)),
        decreases candidates@.len() - i,
    {
        let candidate = candidates[i];
        let usable = candidate.horizontal && !candidate.has_cross_stream
            && !candidate.has_state_machine;
        if usable && candidate.value.is_some() {
            return candidate.value;
        }
        assert(candidates@.skip(i as int).drop_first() =~= candidates@.skip(i + 1));
        i += 1;
    }
    None
}

} // verus!
