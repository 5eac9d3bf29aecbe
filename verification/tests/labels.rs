use ui::widgets::labels::{section_header_text, HINT_LABEL_HEIGHT, SECTION_HEADER_HEIGHT};

#[test]
fn section_header_joins_icon_and_text_with_two_spaces() {
    assert_eq!(section_header_text("🎧", "DEVICES"), "🎧  DEVICES");
}

#[test]
fn section_header_with_empty_parts() {
    assert_eq!(section_header_text("", ""), "  ");
    assert_eq!(section_header_text("", "AUDIO"), "  AUDIO");
}

#[test]
fn label_heights() {
    assert_eq!(SECTION_HEADER_HEIGHT, 24);
    assert_eq!(HINT_LABEL_HEIGHT, 14);
}
