//! The animation's configuration: the options chosen at startup and the
//! state that keypresses mutate while the animation runs.

use vstd::prelude::*;

use crate::block::Color;

verus! {

/// The options and runtime switches that drive the animation.
pub struct Config {
    /// Glyph emphasis: 0 none, 1 partial, 2 all. Cosmetic only.
    pub bold: isize,
    /// Linux console mode (alternate glyph set).
    pub console: bool,
    /// Use the old-style literal downward scroll instead of the trailing fade.
    pub oldstyle: bool,
    /// Exit on the first keystroke.
    pub screensaver: bool,
    /// X window mode.
    pub xwindow: bool,
    /// Frame delay scale, between 0 and 10.
    pub update: usize,
    /// The colour new streams are given.
    pub colour: Color,
    /// Re-colour every rendered cell at random each frame.
    pub rainbow: bool,
    /// Skip advancing the grid while still rendering it.
    pub pause: bool,
}

impl Config {
    /// The configuration's invariant: the frame delay scale stays in range.
    pub open spec fn wf(self) -> bool {
        self.update <= 10
    }

    /// Build a configuration from the values the command line supplies.
    pub fn new(
        bold: isize,
        console: bool,
        oldstyle: bool,
        screensaver: bool,
        xwindow: bool,
        update: usize,
        colour: Color,
        rainbow: bool,
    ) -> (c: Config)
        requires
            update <= 10,
        ensures
            c == (Config {
                bold: bold,
                console: console,
                oldstyle: oldstyle,
                screensaver: screensaver,
                xwindow: xwindow,
                update: update,
                colour: colour,
                rainbow: rainbow,
                pause: false,
            }),
            c.wf(),
    {
        Config {
            bold,
            console,
            oldstyle,
            screensaver,
            xwindow,
            update,
            colour,
            rainbow,
            pause: false,
        }
    }

    /// The configuration that pressing `k` leaves behind, for a keypress that
    /// does not quit the program.
    pub open spec fn spec_after_key(self, k: char) -> Config {
        if k == 'b' {
            Config { bold: 1, ..self }
        } else if k == 'B' {
            Config { bold: 2, ..self }
        } else if k == 'n' {
            Config { bold: 0, ..self }
        } else if k == '!' {
            Config { colour: Color::Red, rainbow: false, ..self }
        } else if k == '@' {
            Config { colour: Color::Green, rainbow: false, ..self }
        } else if k == '#' {
            Config { colour: Color::Yellow, rainbow: false, ..self }
        } else if k == '$' {
            Config { colour: Color::Blue, rainbow: false, ..self }
        } else if k == '%' {
            Config { colour: Color::Magenta, rainbow: false, ..self }
        } else if k == 'r' {
            Config { rainbow: true, ..self }
        } else if k == '^' {
            Config { colour: Color::Cyan, rainbow: false, ..self }
        } else if k == '&' {
            Config { colour: Color::White, rainbow: false, ..self }
        } else if k == 'p' || k == 'P' {
            Config { pause: !self.pause, ..self }
        } else if '0' <= k <= '9' {
            Config { update: (k as usize - 48) as usize, ..self }
        } else {
            self
        }
    }

    /// Update the configuration for a keypress. Returns true when the
    /// program should exit: in screensaver mode on any key, otherwise on `q`.
    pub fn handle_keypress(&mut self, keypress: char) -> (quit: bool)
        requires
            old(self).wf(),
        ensures
            final(self).wf(),
            quit == (old(self).screensaver || keypress == 'q'),
            quit ==> *final(self) == *old(self),
            !quit ==> *final(self) == old(self).spec_after_key(keypress),
    {
        if self.screensaver {
            return true;
        }
        match keypress {
            'q' => {
                return true;
            }
            'b' => self.bold = 1,
            'B' => self.bold = 2,
            'n' => self.bold = 0,
            '!' => {
                self.colour = Color::Red;
                self.rainbow = false;
            }
            '@' => {
                self.colour = Color::Green;
                self.rainbow = false;
            }
            '#' => {
                self.colour = Color::Yellow;
                self.rainbow = false;
            }
            '$' => {
                self.colour = Color::Blue;
                self.rainbow = false;
            }
            '%' => {
                self.colour = Color::Magenta;
                self.rainbow = false;
            }
            'r' => {
                self.rainbow = true;
            }
            '^' => {
                self.colour = Color::Cyan;
                self.rainbow = false;
            }
            '&' => {
                self.colour = Color::White;
                self.rainbow = false;
            }
            'p' | 'P' => self.pause = !self.pause,
            '1' | '2' | '3' | '4' | '5' | '6' | '7' | '8' | '9' | '0' => {
                self.update = keypress as usize - 48;
            }
            _ => {}
        }
        false
    }
}

/// Whether `c` is a decimal digit.
pub open spec fn is_digit(c: char) -> bool {
    '0' <= c <= '9'
}

/// The value of the decimal digit `c`.
pub open spec fn digit_val(c: char) -> int {
    c as u32 - 48
}

/// Whether every character of `s` is a decimal digit.
pub open spec fn all_digits(s: Seq<char>) -> bool {
    forall|i: int| 0 <= i < s.len() ==> is_digit(#[trigger] s[i])
}

/// The value of the decimal numeral `s` reads as.
pub open spec fn dec_val(s: Seq<char>) -> int
    decreases s.len(),
{
    if s.len() == 0 {
        0
    } else {
        dec_val(s.drop_last()) * 10 + digit_val(s.last())
    }
}

/// The digits of a numeral after an optional leading plus sign.
pub open spec fn numeral_digits(s: Seq<char>) -> Seq<char> {
    if s.len() > 0 && s[0] == '+' {
        s.drop_first()
    } else {
        s
    }
}

/// Whether `s` is a decimal numeral for a frame delay scale: digits after
/// an optional plus sign, reading as a value of at most 10.
pub open spec fn valid_update(s: Seq<char>) -> bool {
    let t = numeral_digits(s);
    t.len() > 0 && all_digits(t) && dec_val(t) <= 10
}

/// Check a frame delay scale given on the command line: accepted exactly
/// when it is a decimal numeral whose value is at most 10.
pub fn validate_update(n: &str) -> (r: Result<usize, &'static str>)
    ensures
        r is Ok <==> valid_update(n@),
        r matches Ok(v) ==> v == dec_val(numeral_digits(n@)),
{
    let len = n.unicode_len();
    let start: usize = if len > 0 && n.get_char(0) == '+' {
        1
    } else {
        0
    };
    proof {
        assert(numeral_digits(n@) =~= n@.subrange(start as int, len as int));
    }
    if start >= len {
        return Err("must be a number between 1 and 10");
    }
    // Track the numeral's value, saturated just above the accepted band.
    let mut acc: usize = 0;
    let mut i: usize = start;
    while i < len
        invariant
            start <= i <= len,
            len == n@.len(),
            numeral_digits(n@) =~= n@.subrange(start as int, len as int),
            all_digits(n@.subrange(start as int, i as int)),
            acc <= 11,
            dec_val(n@.subrange(start as int, i as int)) <= 10 ==> acc == dec_val(
                n@.subrange(start as int, i as int),
            ),
            dec_val(n@.subrange(start as int, i as int)) > 10 ==> acc == 11,
        decreases len - i,
    {
        let c = n.get_char(i);
        if c < '0' || c > '9' {
            proof {
                assert(numeral_digits(n@)[i - start] == n@[i as int]);
                assert(!is_digit(n@[i as int]));
            }
            return Err("must be a number between 1 and 10");
        }
        let d = c as usize - 48;
        let na = acc * 10 + d;
        proof {
            let before = n@.subrange(start as int, i as int);
            let after = n@.subrange(start as int, i as int + 1);
            assert(after.drop_last() =~= before);
            assert(after.last() == n@[i as int]);
        }
        acc = if na > 11 {
            11
        } else {
            na
        };
        i = i + 1;
    }
    if acc <= 10 {
        Ok(acc)
    } else {
        Err("must be a number between 1 and 10")
    }
}

/// The colour a command-line colour name stands for, or nothing when the
/// name is not one of the eight recognised names.
pub open spec fn spec_colour_of_name(s: Seq<char>) -> Option<Color> {
    if s == seq!['g', 'r', 'e', 'e', 'n'] {
        Some(Color::Green)
    } else if s == seq!['r', 'e', 'd'] {
        Some(Color::Red)
    } else if s == seq!['b', 'l', 'u', 'e'] {
        Some(Color::Blue)
    } else if s == seq!['w', 'h', 'i', 't', 'e'] {
        Some(Color::White)
    } else if s == seq!['y', 'e', 'l', 'l', 'o', 'w'] {
        Some(Color::Yellow)
    } else if s == seq!['c', 'y', 'a', 'n'] {
        Some(Color::Cyan)
    } else if s == seq!['m', 'a', 'g', 'e', 'n', 't', 'a'] {
        Some(Color::Magenta)
    } else if s == seq!['b', 'l', 'a', 'c', 'k'] {
        Some(Color::Black)
    } else {
        None
    }
}

/// Map a command-line colour name to its colour.
pub fn colour_from_name(s: &str) -> (r: Option<Color>)
    ensures
        r == spec_colour_of_name(s@),
{
    let len = s.unicode_len();
    if len == 5 && s.get_char(0) == 'g' && s.get_char(1) == 'r' && s.get_char(2) == 'e'
        && s.get_char(3) == 'e' && s.get_char(4) == 'n' {
        proof {
            assert(s@ =~= seq!['g', 'r', 'e', 'e', 'n']);
        }
        return Some(Color::Green);
    }
    if len == 3 && s.get_char(0) == 'r' && s.get_char(1) == 'e' && s.get_char(2) == 'd' {
        proof {
            assert(s@ =~= seq!['r', 'e', 'd']);
        }
        return Some(Color::Red);
    }
    if len == 4 && s.get_char(0) == 'b' && s.get_char(1) == 'l' && s.get_char(2) == 'u'
        && s.get_char(3) == 'e' {
        proof {
            assert(s@ =~= seq!['b', 'l', 'u', 'e']);
        }
        return Some(Color::Blue);
    }
    if len == 5 && s.get_char(0) == 'w' && s.get_char(1) == 'h' && s.get_char(2) == 'i'
        && s.get_char(3) == 't' && s.get_char(4) == 'e' {
        proof {
            assert(s@ =~= seq!['w', 'h', 'i', 't', 'e']);
        }
        return Some(Color::White);
    }
    if len == 6 && s.get_char(0) == 'y' && s.get_char(1) == 'e' && s.get_char(2) == 'l'
        && s.get_char(3) == 'l' && s.get_char(4) == 'o' && s.get_char(5) == 'w' {
        proof {
            assert(s@ =~= seq!['y', 'e', 'l', 'l', 'o', 'w']);
        }
        return Some(Color::Yellow);
    }
    if len == 4 && s.get_char(0) == 'c' && s.get_char(1) == 'y' && s.get_char(2) == 'a'
        && s.get_char(3) == 'n' {
        proof {
            assert(s@ =~= seq!['c', 'y', 'a', 'n']);
        }
        return Some(Color::Cyan);
    }
    if len == 7 && s.get_char(0) == 'm' && s.get_char(1) == 'a' && s.get_char(2) == 'g'
        && s.get_char(3) == 'e' && s.get_char(4) == 'n' && s.get_char(5) == 't' && s.get_char(6)
        == 'a' {
        proof {
            assert(s@ =~= seq!['m', 'a', 'g', 'e', 'n', 't', 'a']);
        }
        return Some(Color::Magenta);
    }
    if len == 5 && s.get_char(0) == 'b' && s.get_char(1) == 'l' && s.get_char(2) == 'a'
        && s.get_char(3) == 'c' && s.get_char(4) == 'k' {
        proof {
            assert(s@ =~= seq!['b', 'l', 'a', 'c', 'k']);
        }
        return Some(Color::Black);
    }
    None
}

} // verus!
