//! Cartridge images: a sixteen-byte header, an optional trainer, the program
//! bank and the character bank, in that order.

use vstd::prelude::*;
use vstd::slice::{slice_subrange, slice_to_vec};

verus! {

/// Length of the header.
pub const HEADER_SIZE: usize = 16;

/// Unit in which the header counts the program bank.
pub const PROGRAM_UNIT: usize = 16384;

/// Unit in which the header counts the character bank.
pub const CHARACTER_UNIT: usize = 8192;

/// Length of the trainer, where the image has one.
pub const TRAINER_SIZE: usize = 512;

/// The two banks of a cartridge.
pub struct Rom {
    pub prog_rom: Vec<u8>,
    pub char_rom: Vec<u8>,
}

/// Whether the image starts with the four bytes `N`, `E`, `S`, `0x1A`.
pub open spec fn has_tag(image: Seq<u8>) -> bool {
    image.len() >= 4 && image[0] == 0x4E && image[1] == 0x45 && image[2] == 0x53 && image[3]
        == 0x1A
}

/// Length of the program bank that the header announces.
pub open spec fn program_length(image: Seq<u8>) -> int {
    image[4] * PROGRAM_UNIT
}

/// Length of the character bank that the header announces.
pub open spec fn character_length(image: Seq<u8>) -> int {
    image[5] * CHARACTER_UNIT
}

/// Where the program bank starts: after the header and, if bit 2 of the
/// seventh header byte is set, after the trainer.
pub open spec fn program_offset(image: Seq<u8>) -> int {
    if image[6] & 0x04 != 0 {
        HEADER_SIZE + TRAINER_SIZE
    } else {
        HEADER_SIZE as int
    }
}

/// Where the character bank starts: right after the program bank.
pub open spec fn character_offset(image: Seq<u8>) -> int {
    program_offset(image) + program_length(image)
}

/// An image is usable when it has the tag, a whole header, and all the
/// bytes of both banks that the header announces.
pub open spec fn is_usable(image: Seq<u8>) -> bool {
    has_tag(image) && image.len() >= HEADER_SIZE && image.len() >= character_offset(image)
        + character_length(image)
}

/// Takes the two banks out of a cartridge image.
///
/// Returns `None` for an image that is not usable: one without the tag, or
/// one too short for its header or for the banks the header announces.
pub fn create_rom(image: &[u8]) -> (rom: Option<Rom>)
    ensures
        rom is Some <==> is_usable(image@),
        rom matches Some(banks) ==> banks.prog_rom@ == image@.subrange(
            program_offset(image@),
            character_offset(image@),
        ) && banks.char_rom@ == image@.subrange(
            character_offset(image@),
            character_offset(image@) + character_length(image@),
        ),
{
    if image.len() < HEADER_SIZE {
        return None;
    }
    if image[0] != 0x4E || image[1] != 0x45 || image[2] != 0x53 || image[3] != 0x1A {
        return None;
    }
    let program_length = image[4] as usize * PROGRAM_UNIT;
    let character_length = image[5] as usize * CHARACTER_UNIT;
    let program_offset = if image[6] & 0x04 != 0 {
        HEADER_SIZE + TRAINER_SIZE
    } else {
        HEADER_SIZE
    };
    let character_offset = program_offset + program_length;
    if image.len() < character_offset + character_length {
        return None;
    }
    let prog_rom = slice_to_vec(slice_subrange(image, program_offset, character_offset));
    let char_rom = slice_to_vec(
        slice_subrange(image, character_offset, character_offset + character_length),
    );
    Some(Rom { prog_rom, char_rom })
}

} // verus!
