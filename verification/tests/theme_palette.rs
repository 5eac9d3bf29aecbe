use ui::theme::{self, ThemeColor};

#[test]
fn palette_entries_name_their_constants() {
    assert_eq!(ThemeColor::BgPrimary.rgb(), [30, 30, 30]);
    assert_eq!(ThemeColor::BgSecondary.rgb(), [40, 40, 40]);
    assert_eq!(ThemeColor::BgTertiary.rgb(), [50, 50, 50]);
    assert_eq!(ThemeColor::TextPrimary.rgb(), [220, 220, 220]);
    assert_eq!(ThemeColor::TextSecondary.rgb(), [180, 180, 180]);
    assert_eq!(ThemeColor::TextMuted.rgb(), [120, 120, 135]);
    assert_eq!(ThemeColor::MonoText.rgb(), [140, 200, 140]);
    assert_eq!(ThemeColor::Accent.rgb(), [88, 101, 242]);
    assert_eq!(ThemeColor::Success.rgb(), [67, 181, 129]);
    assert_eq!(ThemeColor::Warning.rgb(), [250, 166, 26]);
    assert_eq!(ThemeColor::Danger.rgb(), [237, 66, 69]);
    assert_eq!(ThemeColor::Cyan.rgb(), [56, 189, 248]);
    assert_eq!(ThemeColor::Surface.rgb(), [18, 18, 22]);
    assert_eq!(ThemeColor::Border.rgb(), [16, 16, 20]);
    assert_eq!(ThemeColor::Subtle.rgb(), [44, 44, 52]);
    assert_eq!(ThemeColor::ButtonText.rgb(), [255, 255, 255]);
}

#[test]
fn palette_constants_match_entries() {
    assert_eq!(ThemeColor::Surface.rgb(), theme::SURFACE);
    assert_eq!(ThemeColor::Danger.rgb(), theme::DANGER);
    assert_eq!(ThemeColor::ButtonText.rgb(), theme::BUTTON_TEXT);
}
