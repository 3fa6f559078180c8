use sosd::Color;
use sosd::ToColor;
use sosd::is_valid_hex_color;
use sosd::parse_hex_color;

#[test]
fn test_basic_rgb_colors() {
    // Test basic #RGB colors
    let white = "#fff".to_color();
    assert_eq!((white.r, white.g, white.b, white.a), (255, 255, 255, 255));

    let black = "#000".to_color();
    assert_eq!((black.r, black.g, black.b, black.a), (0, 0, 0, 255));

    let red = "#f00".to_color();
    assert_eq!((red.r, red.g, red.b, red.a), (255, 0, 0, 255));

    let green = "#0f0".to_color();
    assert_eq!((green.r, green.g, green.b, green.a), (0, 255, 0, 255));

    let blue = "#00f".to_color();
    assert_eq!((blue.r, blue.g, blue.b, blue.a), (0, 0, 255, 255));
}

#[test]
fn test_rgba_short_format() {
    // Test #RGBA format
    let semi_white = "#ffff".to_color();
    assert_eq!(
        (semi_white.r, semi_white.g, semi_white.b, semi_white.a),
        (255, 255, 255, 255)
    );

    let semi_transparent_red = "#f00a".to_color();
    assert_eq!(
        (
            semi_transparent_red.r,
            semi_transparent_red.g,
            semi_transparent_red.b,
            semi_transparent_red.a
        ),
        (255, 0, 0, 170)
    );

    let quarter_transparent_blue = "#00f4".to_color();
    assert_eq!(
        (
            quarter_transparent_blue.r,
            quarter_transparent_blue.g,
            quarter_transparent_blue.b,
            quarter_transparent_blue.a
        ),
        (0, 0, 255, 68)
    );
}

#[test]
fn test_rrggbb_colors() {
    // Test #RRGGBB format
    let white = "#ffffff".to_color();
    assert_eq!((white.r, white.g, white.b, white.a), (255, 255, 255, 255));

    let black = "#000000".to_color();
    assert_eq!((black.r, black.g, black.b, black.a), (0, 0, 0, 255));

    let red = "#ff0000".to_color();
    assert_eq!((red.r, red.g, red.b, red.a), (255, 0, 0, 255));

    let lime = "#00ff00".to_color();
    assert_eq!((lime.r, lime.g, lime.b, lime.a), (0, 255, 0, 255));

    let blue = "#0000ff".to_color();
    assert_eq!((blue.r, blue.g, blue.b, blue.a), (0, 0, 255, 255));
}

#[test]
fn test_rrggbbaa_colors() {
    // Test #RRGGBBAA format
    let fully_opaque_white = "#ffffffff".to_color();
    assert_eq!(
        (
            fully_opaque_white.r,
            fully_opaque_white.g,
            fully_opaque_white.b,
            fully_opaque_white.a
        ),
        (255, 255, 255, 255)
    );

    let semi_transparent_red = "#ff0000aa".to_color();
    assert_eq!(
        (
            semi_transparent_red.r,
            semi_transparent_red.g,
            semi_transparent_red.b,
            semi_transparent_red.a
        ),
        (255, 0, 0, 170)
    );

    let fully_transparent_blue = "#0000ff00".to_color();
    assert_eq!(
        (
            fully_transparent_blue.r,
            fully_transparent_blue.g,
            fully_transparent_blue.b,
            fully_transparent_blue.a
        ),
        (0, 0, 255, 0)
    );
}

#[test]
fn test_mixed_values() {
    // Test mixed values in different positions
    let mixed = "#1a2b3c".to_color();
    assert_eq!((mixed.r, mixed.g, mixed.b, mixed.a), (26, 43, 60, 255));

    let mixed_short = "#123".to_color();
    assert_eq!(
        (mixed_short.r, mixed_short.g, mixed_short.b, mixed_short.a),
        (17, 34, 51, 255)
    );

    let mixed_alpha = "#1234".to_color();
    assert_eq!(
        (mixed_alpha.r, mixed_alpha.g, mixed_alpha.b, mixed_alpha.a),
        (17, 34, 51, 68)
    );
}

#[test]
fn test_edge_cases() {
    // Test minimum values
    let min_values = "#010101".to_color();
    assert_eq!(
        (min_values.r, min_values.g, min_values.b, min_values.a),
        (1, 1, 1, 255)
    );

    let min_values_short = "#111".to_color();
    assert_eq!(
        (
            min_values_short.r,
            min_values_short.g,
            min_values_short.b,
            min_values_short.a
        ),
        (17, 17, 17, 255)
    );

    // Test specific alpha values
    let specific_alpha = "#ffffff80".to_color();
    assert_eq!(
        (
            specific_alpha.r,
            specific_alpha.g,
            specific_alpha.b,
            specific_alpha.a
        ),
        (255, 255, 255, 128)
    );
}

#[test]
fn test_string_to_color_matches_str() {
    let owned: Color = String::from("#1a2b3c4d").to_color();
    assert_eq!((owned.r, owned.g, owned.b, owned.a), (26, 43, 60, 77));
    assert_eq!(owned, "#1a2b3c4d".to_color());
}

#[test]
fn test_uppercase_digits() {
    let c = "#A1B2C3".to_color();
    assert_eq!((c.r, c.g, c.b, c.a), (161, 178, 195, 255));
}

#[test]
fn test_validity_check_accepts_parseable_strings() {
    for s in ["#fff", "#ffff", "#ffffff", "#ffffffff", "#000", "#1a2B3c"] {
        assert!(is_valid_hex_color(s), "{s} should be accepted");
    }
    let c = parse_hex_color("#80ff00c0");
    assert_eq!((c.r, c.g, c.b, c.a), (128, 255, 0, 192));
}

#[test]
fn test_validity_check_rejects_malformed_strings() {
    for s in ["", "fff", "#ff", "#gghhii", "#fffff", "#ffffffffff", "ffff#"] {
        assert!(!is_valid_hex_color(s), "{s} should be rejected");
    }
}
