//! Tests of the configuration, the keypress handling, the command-line
//! helpers, the terminal-size transform, and the deterministic generator.

use r_matrix::block::{glyph_from, palette_color, Color};
use r_matrix::column::{gap_from, stream_len_from};
use r_matrix::config::{colour_from_name, validate_update, Config};
use r_matrix::randxor::RandXor;
use r_matrix::term::grid_dims;

fn base_config() -> Config {
    Config::new(0, false, false, false, false, 4, Color::Green, false)
}

#[test]
fn config_new_sets_fields_and_unpauses() {
    let c = Config::new(2, true, true, false, true, 7, Color::Cyan, true);
    assert_eq!(c.bold, 2);
    assert!(c.console);
    assert!(c.oldstyle);
    assert!(!c.screensaver);
    assert!(c.xwindow);
    assert_eq!(c.update, 7);
    assert_eq!(c.colour, Color::Cyan);
    assert!(c.rainbow);
    assert!(!c.pause);
}

#[test]
fn keypress_quits_on_q() {
    let mut c = base_config();
    assert!(c.handle_keypress('q'));
    assert_eq!(c.colour, Color::Green);
}

#[test]
fn keypress_any_key_quits_in_screensaver_mode() {
    let mut c = Config::new(0, false, false, true, false, 4, Color::Green, false);
    assert!(c.handle_keypress('x'));
}

#[test]
fn keypress_bold_switches() {
    let mut c = base_config();
    assert!(!c.handle_keypress('b'));
    assert_eq!(c.bold, 1);
    assert!(!c.handle_keypress('B'));
    assert_eq!(c.bold, 2);
    assert!(!c.handle_keypress('n'));
    assert_eq!(c.bold, 0);
}

#[test]
fn keypress_colour_switches_clear_rainbow() {
    let mut c = Config::new(0, false, false, false, false, 4, Color::Green, true);
    let keys = [
        ('!', Color::Red),
        ('@', Color::Green),
        ('#', Color::Yellow),
        ('$', Color::Blue),
        ('%', Color::Magenta),
        ('^', Color::Cyan),
        ('&', Color::White),
    ];
    for (k, want) in keys {
        c.rainbow = true;
        assert!(!c.handle_keypress(k));
        assert_eq!(c.colour, want);
        assert!(!c.rainbow);
    }
}

#[test]
fn keypress_rainbow_toggle_and_pause() {
    let mut c = base_config();
    assert!(!c.handle_keypress('r'));
    assert!(c.rainbow);
    assert!(!c.handle_keypress('p'));
    assert!(c.pause);
    assert!(!c.handle_keypress('P'));
    assert!(!c.pause);
}

#[test]
fn keypress_digits_set_update() {
    let mut c = base_config();
    for (k, want) in [('0', 0), ('1', 1), ('5', 5), ('9', 9)] {
        assert!(!c.handle_keypress(k));
        assert_eq!(c.update, want);
    }
}

#[test]
fn keypress_unknown_is_ignored() {
    let mut c = base_config();
    assert!(!c.handle_keypress('z'));
    assert_eq!(c.update, 4);
    assert_eq!(c.colour, Color::Green);
    assert!(!c.pause);
}

#[test]
fn validate_update_accepts_small_numerals() {
    assert_eq!(validate_update("0"), Ok(0));
    assert_eq!(validate_update("7"), Ok(7));
    assert_eq!(validate_update("10"), Ok(10));
    assert_eq!(validate_update("007"), Ok(7));
    assert_eq!(validate_update("+5"), Ok(5));
}

#[test]
fn validate_update_rejects_everything_else() {
    assert!(validate_update("11").is_err());
    assert!(validate_update("100").is_err());
    assert!(validate_update("").is_err());
    assert!(validate_update("+").is_err());
    assert!(validate_update("abc").is_err());
    assert!(validate_update("4x").is_err());
    assert!(validate_update("-1").is_err());
    assert!(validate_update("99999999999999999999999").is_err());
}

#[test]
fn colour_names_map_to_colours() {
    assert_eq!(colour_from_name("green"), Some(Color::Green));
    assert_eq!(colour_from_name("red"), Some(Color::Red));
    assert_eq!(colour_from_name("blue"), Some(Color::Blue));
    assert_eq!(colour_from_name("white"), Some(Color::White));
    assert_eq!(colour_from_name("yellow"), Some(Color::Yellow));
    assert_eq!(colour_from_name("cyan"), Some(Color::Cyan));
    assert_eq!(colour_from_name("magenta"), Some(Color::Magenta));
    assert_eq!(colour_from_name("black"), Some(Color::Black));
    assert_eq!(colour_from_name("teal"), None);
    assert_eq!(colour_from_name(""), None);
    assert_eq!(colour_from_name("greens"), None);
}

#[test]
fn colour_codes_match_curses_numbering() {
    assert_eq!(Color::Black.code(), 0);
    assert_eq!(Color::Red.code(), 1);
    assert_eq!(Color::Green.code(), 2);
    assert_eq!(Color::Yellow.code(), 3);
    assert_eq!(Color::Blue.code(), 4);
    assert_eq!(Color::Magenta.code(), 5);
    assert_eq!(Color::Cyan.code(), 6);
    assert_eq!(Color::White.code(), 7);
}

#[test]
fn grid_dims_floors_and_halves() {
    // Below the floor on both axes: the floor wins, width halves, one
    // extra line hides the staging row.
    assert_eq!(grid_dims(Some((2, 1))), (11, 5));
    // An even width halves exactly.
    assert_eq!(grid_dims(Some((80, 24))), (25, 40));
    // An odd width gains the rightmost edge column.
    assert_eq!(grid_dims(Some((81, 24))), (25, 41));
    // No report at all falls back to the floor.
    assert_eq!(grid_dims(None), (10, 10));
}

#[test]
fn formulas_give_exact_values() {
    assert_eq!(stream_len_from(17, 10), 17 % 7 + 3);
    assert_eq!(stream_len_from(0, 10), 3);
    assert_eq!(gap_from(17, 10), 17 % 10 + 1);
    assert_eq!(gap_from(0, 4), 1);
    assert_eq!(glyph_from(0), '!');
    assert_eq!(glyph_from(200), (200u8 % 93 + 33) as char);
    assert_eq!(palette_color(0), Color::Green);
    assert_eq!(palette_color(3), Color::Yellow);
    assert_eq!(palette_color(11), Color::Magenta);
}

#[test]
fn randxor_is_deterministic() {
    let mut a = RandXor::new();
    let mut b = RandXor::new();
    for _ in 0..100 {
        assert_eq!(a.gen(), b.gen());
    }
    assert_eq!(a, b);
}

#[test]
fn randxor_rotates_state_words() {
    let mut g = RandXor::from_words(1, 2, 3, 4);
    let r = g.gen();
    assert_eq!(g.s1, 1);
    assert_eq!(g.s2, 2);
    assert_eq!(g.s3, 3);
    assert_eq!(g.s0 as usize, r);
}

#[test]
fn randxor_chars_stay_printable() {
    let mut g = RandXor::new();
    for _ in 0..1000 {
        let c = g.gen_char();
        assert!('!' <= c && c <= '}');
        assert_ne!(c, ' ');
    }
}

#[test]
fn randxor_seeded_runs_differ() {
    let mut a = RandXor::new();
    let mut b = RandXor::from_words(5, 6, 7, 8);
    let da: Vec<usize> = (0..8).map(|_| a.gen()).collect();
    let db: Vec<usize> = (0..8).map(|_| b.gen()).collect();
    assert_ne!(da, db);
}
