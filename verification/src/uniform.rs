//! The per-frame uniform record and its wire layout.
//!
//! The fragment shader reads the record from a buffer of `UNIFORM_SIZE`
//! bytes. Each field is one 32-bit word, stored least significant byte
//! first at four times its index; the words after the last field are
//! padding and read as nothing.
//!
//! Single-precision fields are carried by their bit patterns, as
//! `f32::to_bits` yields them: the library moves them, it never computes
//! with them.

use vstd::prelude::*;
use crate::words::{
    lemma_word_bytes_compose, push_word, read_word, signed_of_word, signed_value, signed_word,
    word_at, word_byte, word_of_signed,
};

verus! {

/// Size of the record on the wire: its eight words, padded to 64 bytes.
pub const UNIFORM_SIZE: usize = 64;

/// Number of words that carry a field.
pub const UNIFORM_FIELD_WORDS: usize = 8;

/// Bit pattern of the menu's outer radius, 0.25.
pub const RADIUS_BITS: u32 = 0x3E80_0000;

/// Bit pattern of the hub's radius, 0.08.
pub const INNER_RADIUS_BITS: u32 = 0x3DA3_D70A;

/// Bit pattern of the angular gap between segments, 0.1.
pub const SEGMENT_GAP_BITS: u32 = 0x3DCC_CCCD;

/// Number of segments drawn.
pub const MENU_SEGMENTS: i32 = 6;

/// Value of `item_selected` while no segment is selected.
pub const NO_SELECTION: i32 = -1;

/// What the shader is told each frame.
#[derive(Clone, Copy, Debug, PartialEq, Eq)]
pub struct UniformFrameState {
    /// Outer radius, a single-precision bit pattern. Word 0.
    pub radius: u32,
    /// Hub radius, a single-precision bit pattern. Word 1.
    pub inner_radius: u32,
    /// Number of segments. Word 2.
    pub segments: i32,
    /// Seconds since the renderer started, a single-precision bit pattern. Word 3.
    pub time: u32,
    /// Cursor in normalized device coordinates, x then y, two
    /// single-precision bit patterns. Words 4 and 5.
    pub mouse_pos: [u32; 2],
    /// Angular gap between segments, a single-precision bit pattern. Word 6.
    pub segment_gap: u32,
    /// Index of the selected segment, or `NO_SELECTION`. Word 7.
    pub item_selected: i32,
}

impl UniformFrameState {
    /// Word `index` of the record: a field for the first eight, padding after.
    pub open spec fn word(self, index: int) -> u32 {
        if index == 0 {
            self.radius
        } else if index == 1 {
            self.inner_radius
        } else if index == 2 {
            signed_word(self.segments)
        } else if index == 3 {
            self.time
        } else if index == 4 {
            self.mouse_pos[0]
        } else if index == 5 {
            self.mouse_pos[1]
        } else if index == 6 {
            self.segment_gap
        } else if index == 7 {
            signed_word(self.item_selected)
        } else {
            0
        }
    }

    /// The record on the wire.
    pub open spec fn wire(self) -> Seq<u8> {
        Seq::new(UNIFORM_SIZE as nat, |i: int| word_byte(self.word(i / 4), i % 4))
    }

    /// The record that `bytes` hold, where they have the size of one.
    /// Padding is not looked at.
    pub open spec fn from_wire(bytes: Seq<u8>) -> Option<UniformFrameState> {
        if bytes.len() != UNIFORM_SIZE {
            None
        } else {
            Some(
                UniformFrameState {
                    radius: word_at(bytes, 0),
                    inner_radius: word_at(bytes, 4),
                    segments: signed_value(word_at(bytes, 8)),
                    time: word_at(bytes, 12),
                    mouse_pos: [word_at(bytes, 16), word_at(bytes, 20)],
                    segment_gap: word_at(bytes, 24),
                    item_selected: signed_value(word_at(bytes, 28)),
                },
            )
        }
    }

    /// The record of one frame: the menu's fixed geometry, the frame's
    /// time and cursor, and the selection, with `NO_SELECTION` for none.
    pub fn for_frame(time: u32, mouse_pos: [u32; 2], selected_segment: Option<i32>) -> (state: Self)
        ensures
            state == (UniformFrameState {
                radius: RADIUS_BITS,
                inner_radius: INNER_RADIUS_BITS,
                segments: MENU_SEGMENTS,
                time,
                mouse_pos,
                segment_gap: SEGMENT_GAP_BITS,
                item_selected: match selected_segment {
                    Some(segment) => segment,
                    None => NO_SELECTION,
                },
            }),
    {
        UniformFrameState {
            radius: RADIUS_BITS,
            inner_radius: INNER_RADIUS_BITS,
            segments: MENU_SEGMENTS,
            time,
            mouse_pos,
            segment_gap: SEGMENT_GAP_BITS,
            item_selected: match selected_segment {
                Some(segment) => segment,
                None => NO_SELECTION,
            },
        }
    }

    /// Packs the record into its wire layout.
    pub fn to_bytes(&self) -> (bytes: Vec<u8>)
        ensures
            bytes@ == self.wire(),
    {
        let mut bytes: Vec<u8> = Vec::with_capacity(UNIFORM_SIZE);
        push_word(&mut bytes, self.radius);
        push_word(&mut bytes, self.inner_radius);
        push_word(&mut bytes, word_of_signed(self.segments));
        push_word(&mut bytes, self.time);
        push_word(&mut bytes, self.mouse_pos[0]);
        push_word(&mut bytes, self.mouse_pos[1]);
        push_word(&mut bytes, self.segment_gap);
        push_word(&mut bytes, word_of_signed(self.item_selected));
        let mut padding: usize = UNIFORM_FIELD_WORDS;
        while padding < UNIFORM_SIZE / 4
            invariant
                UNIFORM_FIELD_WORDS <= padding <= UNIFORM_SIZE / 4,
                bytes@.len() == 4 * padding,
                forall|i: int|
                    0 <= i < bytes@.len() ==> bytes@[i] == word_byte(self.word(i / 4), i % 4),
            decreases UNIFORM_SIZE / 4 - padding,
        {
            push_word(&mut bytes, 0);
            padding += 1;
        }
        assert(bytes@ =~= self.wire());
        bytes
    }

    /// Reads a record back from its wire layout. There is none in a buffer
    /// of any other size.
    pub fn from_bytes(bytes: &[u8]) -> (state: Option<Self>)
        ensures
            state == Self::from_wire(bytes@),
    {
        if bytes.len() != UNIFORM_SIZE {
            return None;
        }
        Some(
            UniformFrameState {
                radius: read_word(bytes, 0),
                inner_radius: read_word(bytes, 4),
                segments: signed_of_word(read_word(bytes, 8)),
                time: read_word(bytes, 12),
                mouse_pos: [read_word(bytes, 16), read_word(bytes, 20)],
                segment_gap: read_word(bytes, 24),
                item_selected: signed_of_word(read_word(bytes, 28)),
            },
        )
    }
}

/// Word `index` of a record can be read back from its wire layout at byte
/// `4 * index`.
proof fn lemma_word_read_back(state: UniformFrameState, index: int)
    requires
        0 <= index < 16,
    ensures
        word_at(state.wire(), 4 * index) == state.word(index),
{
    let bytes = state.wire();
    let word = state.word(index);
    assert(bytes[4 * index] == word_byte(word, 0));
    assert(bytes[4 * index + 1] == word_byte(word, 1));
    assert(bytes[4 * index + 2] == word_byte(word, 2));
    assert(bytes[4 * index + 3] == word_byte(word, 3));
    lemma_word_bytes_compose(word);
}

/// Packing a record and reading it back yields the record, bit for bit.
pub proof fn lemma_wire_round_trip(state: UniformFrameState)
    ensures
        state.wire().len() == UNIFORM_SIZE,
        UniformFrameState::from_wire(state.wire()) == Some(state),
{
    lemma_word_read_back(state, 0);
    lemma_word_read_back(state, 1);
    lemma_word_read_back(state, 2);
    lemma_word_read_back(state, 3);
    lemma_word_read_back(state, 4);
    lemma_word_read_back(state, 5);
    lemma_word_read_back(state, 6);
    lemma_word_read_back(state, 7);
    let back = UniformFrameState::from_wire(state.wire())->0;
    assert(back.mouse_pos =~= state.mouse_pos);
}

} // verus!
