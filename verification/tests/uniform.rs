use radial_overlay::uniform::{
    UniformFrameState, INNER_RADIUS_BITS, MENU_SEGMENTS, NO_SELECTION, RADIUS_BITS,
    SEGMENT_GAP_BITS, UNIFORM_FIELD_WORDS, UNIFORM_SIZE,
};

fn example() -> UniformFrameState {
    UniformFrameState::for_frame(
        1.5f32.to_bits(),
        [0.0f32.to_bits(), 0.5f32.to_bits()],
        Some(4),
    )
}

#[test]
fn menu_geometry_constants() {
    assert_eq!(f32::from_bits(RADIUS_BITS), 0.25);
    assert_eq!(f32::from_bits(INNER_RADIUS_BITS), 0.08);
    assert_eq!(f32::from_bits(SEGMENT_GAP_BITS), 0.1);
    assert_eq!(MENU_SEGMENTS, 6);
    assert_eq!(NO_SELECTION, -1);
    assert_eq!(MENU_SEGMENTS, radial_overlay::hit_test::SEGMENTS);
    assert_eq!(UNIFORM_SIZE, 64);
    assert_eq!(UNIFORM_SIZE % 16, 0);
    assert_eq!(UNIFORM_FIELD_WORDS * 4, 32);
}

#[test]
fn frame_state_carries_geometry_time_cursor_and_selection() {
    let state = example();
    assert_eq!(f32::from_bits(state.radius), 0.25);
    assert_eq!(f32::from_bits(state.inner_radius), 0.08);
    assert_eq!(state.segments, 6);
    assert_eq!(f32::from_bits(state.time), 1.5);
    assert_eq!(f32::from_bits(state.mouse_pos[0]), 0.0);
    assert_eq!(f32::from_bits(state.mouse_pos[1]), 0.5);
    assert_eq!(f32::from_bits(state.segment_gap), 0.1);
    assert_eq!(state.item_selected, 4);
}

#[test]
fn no_selection_is_minus_one() {
    let state = UniformFrameState::for_frame(0, [0, 0], None);
    assert_eq!(state.item_selected, -1);
    assert_eq!(UniformFrameState::for_frame(0, [0, 0], Some(0)).item_selected, 0);
}

#[test]
fn fields_stand_at_their_offsets() {
    let bytes = example().to_bytes();
    assert_eq!(bytes.len(), 64);
    assert_eq!(bytes[0..4], 0.25f32.to_le_bytes());
    assert_eq!(bytes[4..8], 0.08f32.to_le_bytes());
    assert_eq!(bytes[8..12], 6i32.to_le_bytes());
    assert_eq!(bytes[12..16], 1.5f32.to_le_bytes());
    assert_eq!(bytes[16..20], 0.0f32.to_le_bytes());
    assert_eq!(bytes[20..24], 0.5f32.to_le_bytes());
    assert_eq!(bytes[24..28], 0.1f32.to_le_bytes());
    assert_eq!(bytes[28..32], 4i32.to_le_bytes());
    assert_eq!(bytes[32..64], [0u8; 32]);
}

#[test]
fn negative_integers_are_twos_complement() {
    let bytes = UniformFrameState::for_frame(0, [0, 0], None).to_bytes();
    assert_eq!(bytes[28..32], [0xFF, 0xFF, 0xFF, 0xFF]);
    let state = UniformFrameState {
        radius: 0,
        inner_radius: 0,
        segments: i32::MIN,
        time: 0,
        mouse_pos: [0, 0],
        segment_gap: 0,
        item_selected: -2,
    };
    let bytes = state.to_bytes();
    assert_eq!(bytes[8..12], i32::MIN.to_le_bytes());
    assert_eq!(bytes[28..32], (-2i32).to_le_bytes());
    assert_eq!(UniformFrameState::from_bytes(&bytes), Some(state));
}

#[test]
fn bytes_are_least_significant_first() {
    let state = UniformFrameState {
        radius: 0x0403_0201,
        inner_radius: 0,
        segments: 0x0807_0605,
        time: 0,
        mouse_pos: [0x1122_3344, 0xFFEE_DDCC],
        segment_gap: 0,
        item_selected: 0,
    };
    let bytes = state.to_bytes();
    assert_eq!(bytes[0..4], [1, 2, 3, 4]);
    assert_eq!(bytes[8..12], [5, 6, 7, 8]);
    assert_eq!(bytes[16..20], [0x44, 0x33, 0x22, 0x11]);
    assert_eq!(bytes[20..24], [0xCC, 0xDD, 0xEE, 0xFF]);
}

#[test]
fn round_trip_is_bit_identical() {
    let states = [
        example(),
        UniformFrameState::for_frame(0, [0, 0], None),
        UniformFrameState::for_frame(f32::NAN.to_bits(), [f32::INFINITY.to_bits(), (-0.0f32).to_bits()], Some(5)),
        UniformFrameState {
            radius: u32::MAX,
            inner_radius: 0x8000_0000,
            segments: i32::MIN,
            time: 0x7FC0_0001,
            mouse_pos: [0xDEAD_BEEF, 1],
            segment_gap: 0x0000_FF00,
            item_selected: i32::MAX,
        },
    ];
    for state in states {
        let bytes = state.to_bytes();
        assert_eq!(UniformFrameState::from_bytes(&bytes), Some(state));
        // Across a memory copy, as the mapped buffer sees it.
        let mut buffer = [0xAAu8; 64];
        buffer.copy_from_slice(&bytes);
        assert_eq!(UniformFrameState::from_bytes(&buffer), Some(state));
    }
}

#[test]
fn padding_is_not_read() {
    let mut bytes = example().to_bytes();
    for byte in bytes[32..].iter_mut() {
        *byte = 0x5A;
    }
    assert_eq!(UniformFrameState::from_bytes(&bytes), Some(example()));
}

#[test]
fn only_a_whole_record_is_read() {
    let bytes = example().to_bytes();
    assert_eq!(UniformFrameState::from_bytes(&bytes[..63]), None);
    assert_eq!(UniformFrameState::from_bytes(&bytes[..32]), None);
    assert_eq!(UniformFrameState::from_bytes(&[]), None);
    let mut longer = bytes.clone();
    longer.push(0);
    assert_eq!(UniformFrameState::from_bytes(&longer), None);
}
