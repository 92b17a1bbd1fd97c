use ansi_sgr::{Color, Draw};

#[test]
fn test_format() {
    let red_background = Draw::Background(Color::Red);
    let reset = Draw::Both(Color::Reset, Color::Reset);
    assert_eq!(
        format!(
            "{red}Red!{reset}",
            red = red_background.render(),
            reset = reset.render()
        ),
        "\x1b[41mRed!\x1b[49;39m"
    );

    let green_foreground = Draw::Foreground(Color::Green);
    assert_eq!(
        format!(
            "{green}Green!{reset}",
            green = green_foreground.render(),
            reset = reset.render()
        ),
        "\x1b[32mGreen!\x1b[49;39m"
    );
}

#[test]
fn foreground_codes_match_table() {
    let table: [(Color, u8); 17] = [
        (Color::Black, 30),
        (Color::Red, 31),
        (Color::Green, 32),
        (Color::Yellow, 33),
        (Color::Blue, 34),
        (Color::Magenta, 35),
        (Color::Cyan, 36),
        (Color::White, 37),
        (Color::BrightBlack, 90),
        (Color::BrightRed, 91),
        (Color::BrightGreen, 92),
        (Color::BrightYellow, 93),
        (Color::BrightBlue, 94),
        (Color::BrightMagenta, 95),
        (Color::BrightCyan, 96),
        (Color::BrightWhite, 97),
        (Color::Reset, 39),
    ];
    for (color, expected) in table {
        assert_eq!(color.fgcode(), expected);
    }
}

#[test]
fn background_codes_match_table() {
    let table: [(Color, u8); 17] = [
        (Color::Black, 40),
        (Color::Red, 41),
        (Color::Green, 42),
        (Color::Yellow, 43),
        (Color::Blue, 44),
        (Color::Magenta, 45),
        (Color::Cyan, 46),
        (Color::White, 47),
        (Color::BrightBlack, 100),
        (Color::BrightRed, 101),
        (Color::BrightGreen, 102),
        (Color::BrightYellow, 103),
        (Color::BrightBlue, 104),
        (Color::BrightMagenta, 105),
        (Color::BrightCyan, 106),
        (Color::BrightWhite, 107),
        (Color::Reset, 49),
    ];
    for (color, expected) in table {
        assert_eq!(color.bgcode(), expected);
    }
}

#[test]
fn render_literal_scenarios() {
    assert_eq!(Draw::Background(Color::Red).render(), "\x1b[41m");
    assert_eq!(Draw::Foreground(Color::Green).render(), "\x1b[32m");
    assert_eq!(Draw::Both(Color::Reset, Color::Reset).render(), "\x1b[49;39m");
    assert_eq!(Draw::Foreground(Color::BrightCyan).render(), "\x1b[96m");
    assert_eq!(Draw::Both(Color::Blue, Color::Yellow).render(), "\x1b[44;33m");
}

#[test]
fn composition_end_to_end() {
    let styled = format!(
        "{}{}{}",
        Draw::Background(Color::Red).render(),
        "Red!",
        Draw::Both(Color::Reset, Color::Reset).render()
    );
    assert_eq!(styled, "\x1b[41mRed!\x1b[49;39m");
}

#[test]
fn both_puts_background_first_with_one_semicolon() {
    let pairs: [(Color, Color); 4] = [
        (Color::Black, Color::White),
        (Color::BrightWhite, Color::Black),
        (Color::Reset, Color::BrightMagenta),
        (Color::Yellow, Color::Yellow),
    ];
    for (bg, fg) in pairs {
        let rendered = Draw::Both(bg, fg).render();
        let expected = format!("\x1b[{};{}m", bg.bgcode(), fg.fgcode());
        assert_eq!(rendered, expected);
        assert_eq!(rendered.matches(';').count(), 1);
    }
}

#[test]
fn rendering_is_deterministic() {
    let d = Draw::Both(Color::BrightBlue, Color::Red);
    let first = d.render();
    let second = d.render();
    assert_eq!(first, second);
}

#[test]
fn rendering_leaves_earlier_results_untouched() {
    let first = Draw::Foreground(Color::Cyan).render();
    let snapshot = first.clone();
    let second = Draw::Background(Color::BrightGreen).render();
    assert_eq!(first, snapshot);
    assert_eq!(second, "\x1b[102m");
    assert_eq!(Draw::Foreground(Color::Cyan).render(), snapshot);
}
