use padlink::palette::palette_id;

#[test]
fn named_colors_map_to_their_palette_entries() {
    assert_eq!(palette_id(0), 0); // off
    assert_eq!(palette_id(1), 3); // white
    assert_eq!(palette_id(2), 5); // red
    assert_eq!(palette_id(3), 13); // yellow
    assert_eq!(palette_id(4), 45); // blue
    assert_eq!(palette_id(5), 53); // magenta
    assert_eq!(palette_id(6), 61); // brown
    assert_eq!(palette_id(7), 90); // cyan
    assert_eq!(palette_id(8), 21); // green
}

#[test]
fn unmapped_indices_fall_back_to_off() {
    for index in 9u8..=255 {
        assert_eq!(palette_id(index), 0);
    }
}
