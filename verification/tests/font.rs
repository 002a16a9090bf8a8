use fedik::font::{convert_style_vec, style_grid, Font, RenderedText, RenderedTextError};
use ratatui::style::{Color, Modifier, Style};
use std::convert::TryFrom;

#[test]
fn test_convert_style_vec() {
    let strings = vec![
        "██████ ██  ██ ██  ██ ██████ ".to_string(),
        "    ██ ██  ██ ██  ██     ██ ".to_string(),
        "██████ ██  ██ ██████ ██████ ".to_string(),
        "██████ ██  ██ ██████     ██ ".to_string(),
        "██  ██ ██  ██ ██████     ██ ".to_string(),
    ];
    let result = convert_style_vec(strings, false);
    for v in result {
        let line: String = v.iter().map(|s| format!("{:?}", s)).collect();
        println!("{}", line);
    }
}

#[test]
fn test_digital_segments_for_time_string() {
    let font = Font::new();
    let segments = font.render_string("12:34").unwrap().lines;

    assert_eq!(
        segments,
        vec![
            "    ██ ██████    ██████ ██  ██ ".to_string(),
            "    ██     ██ ██     ██ ██  ██ ".to_string(),
            "    ██ ██████    ██████ ██████ ".to_string(),
            "    ██ ██     ██     ██     ██ ".to_string(),
            "    ██ ██████    ██████     ██ ".to_string(),
        ]
    );
}

#[test]
fn test_digital_segments_for_colon_only() {
    let font = Font::new();
    let segments = font.render_string(":").unwrap().lines;

    assert_eq!(
        segments,
        vec![
            "   ".to_string(),
            "██ ".to_string(),
            "   ".to_string(),
            "██ ".to_string(),
            "   ".to_string(),
        ]
    );
}

#[test]
fn test_render_string_rejects_invalid_characters() {
    let font = Font::new();
    let err = font.render_string("12a34").unwrap_err();
    assert_eq!(err, RenderedTextError::InvalidCharacter('a'));
}

#[test]
fn font_new_has_one_glyph_per_drawn_character() {
    let font = Font::new();
    assert_eq!(font.glyphs.len(), 12);
    let mut chars: Vec<char> = font.glyphs.iter().map(|g| g.character).collect();
    chars.sort();
    chars.dedup();
    assert_eq!(chars.len(), 12);
}

#[test]
fn render_empty_string_gives_five_empty_rows() {
    let font = Font::new();
    let text = font.render_string("").unwrap();
    assert_eq!(text.lines, vec![String::new(); 5]);
}

#[test]
fn render_dot_and_zero() {
    let font = Font::new();
    let text = font.render_string("0.").unwrap();
    assert_eq!(
        text.lines,
        vec![
            "██████    ".to_string(),
            "██  ██    ".to_string(),
            "██  ██    ".to_string(),
            "██  ██    ".to_string(),
            "██████ ██ ".to_string(),
        ]
    );
}

#[test]
fn render_reports_first_unknown_character() {
    let font = Font::new();
    assert_eq!(font.render_string("1x:y").unwrap_err(), RenderedTextError::InvalidCharacter('x'));
    assert_eq!(font.render_string(" 1").unwrap_err(), RenderedTextError::InvalidCharacter(' '));
}

#[test]
fn rendered_rows_have_equal_width() {
    let font = Font::new();
    let text = font.render_string("01:23:45.6789").unwrap();
    let width = text.lines[0].chars().count();
    for line in &text.lines {
        assert_eq!(line.chars().count(), width);
    }
}

#[test]
fn rendering_is_compositional() {
    let font = Font::new();
    let a = font.render_string("12").unwrap();
    let b = font.render_string(":7").unwrap();
    let ab = font.render_string("12:7").unwrap();
    for k in 0..5 {
        assert_eq!(ab.lines[k], format!("{}{}", a.lines[k], b.lines[k]));
    }
}

#[test]
fn try_from_uses_the_clock_font() {
    let text = RenderedText::try_from("9").unwrap();
    assert_eq!(text.lines[3], "    ██ ".to_string());
    assert_eq!(
        RenderedText::try_from("-").unwrap_err(),
        RenderedTextError::InvalidCharacter('-')
    );
}

#[test]
fn error_message_names_the_character() {
    assert_eq!(RenderedTextError::InvalidCharacter('z').message(), "invalid character: z");
}

#[test]
fn style_grid_maps_blanks_and_strokes() {
    let space = Style::default();
    let stroke = Style::default().fg(Color::Red);
    let grid = style_grid(&vec!["a b".to_string(), "".to_string()], space, stroke);
    assert_eq!(grid, vec![vec![stroke, space, stroke], vec![]]);
}

#[test]
fn convert_style_vec_styles_strokes_green_and_bold() {
    let plain = convert_style_vec(vec!["█ ".to_string()], false);
    let green = Style::default().bg(Color::Green);
    assert_eq!(plain, vec![vec![green, Style::default()]]);
    let bold = convert_style_vec(vec!["█ ".to_string()], true);
    assert_eq!(bold, vec![vec![green.add_modifier(Modifier::BOLD), Style::default()]]);
}
