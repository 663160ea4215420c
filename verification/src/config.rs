//! The validated configuration the pipeline starts from: a named-color
//! table and an ordered list of effect declarations.
//!
//! File loading and schema handling live outside the core; this module holds
//! the configuration's value types and the two small value parsers the
//! schema layer delegates to: six-digit hexadecimal colors and grid-range
//! expressions such as `3`, `2:5`, `0->5`, `5<-0` or `:`.

use vstd::prelude::*;
use vstd::string::StrSliceExecFns;

use crate::state::{Rgb, MAX_COLUMN};

verus! {

/// A named color: a wrapper so the color table can grow invariants later.
#[derive(Clone, Copy, Debug, PartialEq, Eq, Structural)]
pub struct Color(pub Rgb);

/// The whole validated configuration.
#[derive(Clone, Debug)]
pub struct Config {
    /// Named colors, looked up by effect outputs; first binding wins.
    pub colors: Vec<(String, Color)>,
    /// Effect declarations, in declaration order.
    pub effect: Vec<Effect>,
}

/// One effect declaration: a layering altitude and the effect's data.
#[derive(Clone, Debug)]
pub struct Effect {
    pub altitude: i32,
    pub data: EffectData,
}

/// Either a fully spelled-out effect or a predefined shorthand.
#[derive(Clone, Debug)]
pub enum EffectData {
    Custom { input: Input, output: Output },
    Predefined { data: PredefinedEffectData },
}

/// The input half of a custom effect: which property feeds it, and how the
/// rate maximum is chosen.
#[derive(Clone, Debug)]
pub struct Input {
    /// Name in the property registry.
    pub property: String,
    /// Configured constant maximum, in fixed-point units of 2^-16.
    pub max_value: Option<i64>,
    /// Raise the stored maximum whenever the current value exceeds it.
    pub auto_raise: bool,
}

/// The output half of a custom effect: color name, keyboard geometry and
/// effect kind.
#[derive(Clone, Debug)]
pub struct Output {
    pub color: String,
    pub keyboard: Option<Keyboard>,
    pub effect_type: EffectType,
}

/// The custom effect kinds.
#[derive(Clone, Copy, Debug, PartialEq, Eq, Structural)]
pub enum EffectType {
    Meter { fill: bool },
}

/// Keyboard geometry of a meter: one range per grid axis.
#[derive(Clone, Copy, Debug, PartialEq, Eq, Structural)]
pub struct Keyboard {
    pub column: GridRange,
    pub row: GridRange,
}

/// A range over one grid axis.
///
/// `Range` is non-directional and normalized so `start <= end`;
/// `Direction` runs from `start` to `end` in either coordinate direction;
/// `All` stands for the whole axis.
#[derive(Clone, Copy, Debug, PartialEq, Eq, Structural)]
pub enum GridRange {
    Range { start: u8, end: u8 },
    Direction { start: u8, end: u8 },
    All,
}

/// The predefined effect shorthands.
#[derive(Clone, Copy, Debug, PartialEq, Eq, Structural)]
pub enum PredefinedEffectData {
    Position(PositionEffectData),
}

/// Configuration of the predefined race-position effect.
#[derive(Clone, Copy, Debug, PartialEq, Eq, Structural)]
pub struct PositionEffectData {
    pub numkeys: NumKeysSelector,
}

/// Which set of discrete output keys a position effect illuminates.
#[derive(Clone, Copy, Debug, PartialEq, Eq, Structural)]
pub enum NumKeysSelector {
    Pad,
    Row,
}

/// The default color name for effect outputs.
pub fn white() -> (r: String)
    ensures
        r@ == "white"@,
{
    "white".to_owned()
}

// ---------------------------------------------------------------------------
// Color-table lookup.
// ---------------------------------------------------------------------------

/// The first binding of `name` in the color table, if any.
pub open spec fn spec_lookup_color(cs: Seq<(String, Color)>, name: Seq<char>) -> Option<Color>
    decreases cs.len(),
{
    if cs.len() == 0 {
        None
    } else if cs[0].0@ == name {
        Some(cs[0].1)
    } else {
        spec_lookup_color(cs.drop_first(), name)
    }
}

/// Looks `name` up in the color table.
pub fn lookup_color(colors: &Vec<(String, Color)>, name: &String) -> (r: Option<Color>)
    ensures
        r == spec_lookup_color(colors@, name@),
{
    let n = colors.len();
    let mut i: usize = 0;
    proof {
        assert(colors@.skip(0) =~= colors@);
    }
    while i < n
        invariant
            i <= n == colors@.len(),
            spec_lookup_color(colors@, name@) == spec_lookup_color(
                colors@.skip(i as int),
                name@,
            ),
        decreases n - i,
    {
        proof {
            assert(colors@.skip(i as int)[0] == colors@[i as int]);
            assert(colors@.skip(i as int).drop_first() =~= colors@.skip(i + 1));
        }
        if colors[i].0 == *name {
            return Some(colors[i].1);
        }
        i += 1;
    }
    proof {
        assert(colors@.skip(n as int).len() == 0);
    }
    None
}

// ---------------------------------------------------------------------------
// Decimal digits.
// ---------------------------------------------------------------------------

/// Whether `c` is an ASCII decimal digit.
pub open spec fn spec_is_digit(c: char) -> bool {
    48 <= c as u32 <= 57
}

/// The value of an ASCII decimal digit.
pub open spec fn spec_digit_val(c: char) -> int {
    c as u32 - 48
}

/// Whether every character of `s` is an ASCII decimal digit.
pub open spec fn spec_all_digits(s: Seq<char>) -> bool {
    forall|i: int| 0 <= i < s.len() ==> spec_is_digit(s[i])
}

/// The decimal value of a digit string.
pub open spec fn spec_digits_val(s: Seq<char>) -> int
    decreases s.len(),
{
    if s.len() == 0 {
        0
    } else {
        spec_digits_val(s.drop_last()) * 10 + spec_digit_val(s.last())
    }
}

/// A non-empty, all-digit string whose value fits a `u8`; anything else is
/// rejected.
pub open spec fn spec_parse_u8(s: Seq<char>) -> Option<u8> {
    if s.len() > 0 && spec_all_digits(s) && spec_digits_val(s) <= 255 {
        Some(spec_digits_val(s) as u8)
    } else {
        None
    }
}

/// The length of the longest all-digit prefix of `s`.
pub open spec fn spec_digit_prefix_len(s: Seq<char>) -> int
    decreases s.len(),
{
    if s.len() == 0 {
        0
    } else if !spec_is_digit(s[0]) {
        0
    } else {
        1 + spec_digit_prefix_len(s.drop_first())
    }
}

proof fn lemma_digit_prefix(s: Seq<char>, i: int)
    requires
        0 <= i <= s.len(),
        forall|j: int| 0 <= j < i ==> spec_is_digit(s[j]),
        i < s.len() ==> !spec_is_digit(s[i]),
    ensures
        spec_digit_prefix_len(s) == i,
    decreases s.len(),
{
    if s.len() == 0 {
    } else if i == 0 {
    } else {
        assert(spec_is_digit(s[0]));
        assert forall|j: int| 0 <= j < i - 1 implies spec_is_digit(s.drop_first()[j]) by {
            assert(s.drop_first()[j] == s[j + 1]);
        }
        assert(i - 1 < s.drop_first().len() ==> !spec_is_digit(s.drop_first()[i - 1]));
        lemma_digit_prefix(s.drop_first(), i - 1);
    }
}

fn is_digit(c: char) -> (b: bool)
    ensures
        b == spec_is_digit(c),
{
    let u = c as u32;
    48 <= u && u <= 57
}

/// Parses the characters `from .. to` of `s` as a decimal `u8`.
fn parse_u8_range(s: &str, from: usize, to: usize) -> (r: Option<u8>)
    requires
        from <= to <= s@.len(),
    ensures
        r == spec_parse_u8(s@.subrange(from as int, to as int)),
{
    if from == to {
        return None;
    }
    let mut val: u32 = 0;
    let mut i: usize = from;
    while i < to
        invariant
            from <= i <= to <= s@.len(),
            forall|j: int| from <= j < i ==> spec_is_digit(s@[j]),
            val <= 256,
            spec_digits_val(s@.subrange(from as int, i as int)) <= 255 ==> val == spec_digits_val(
                s@.subrange(from as int, i as int),
            ),
            spec_digits_val(s@.subrange(from as int, i as int)) > 255 ==> val == 256,
        decreases to - i,
    {
        let c = s.get_char(i);
        if !is_digit(c) {
            proof {
                assert(s@.subrange(from as int, to as int)[i - from] == s@[i as int]);
                assert(!spec_all_digits(s@.subrange(from as int, to as int)));
            }
            return None;
        }
        proof {
            assert(s@.subrange(from as int, i + 1).drop_last() =~= s@.subrange(
                from as int,
                i as int,
            ));
            assert(s@.subrange(from as int, i + 1).last() == s@[i as int]);
        }
        let d = (c as u32) - 48;
        val = val * 10 + d;
        if val > 255 {
            val = 256;
        }
        i += 1;
    }
    proof {
        assert forall|j: int| 0 <= j < s@.subrange(from as int, to as int).len()
            implies spec_is_digit(s@.subrange(from as int, to as int)[j]) by {
            assert(s@.subrange(from as int, to as int)[j] == s@[from + j]);
        }
    }
    if val <= 255 {
        Some(val as u8)
    } else {
        None
    }
}

// ---------------------------------------------------------------------------
// Grid ranges.
// ---------------------------------------------------------------------------

/// The meaning of a grid-range expression.
///
/// `":"` is the whole axis; a bare number is a one-cell range; `"x:y"` is a
/// non-directional range normalized to ascending order; `"x->y"` and
/// `"y<-x"` are directional ranges running from the number at the arrow's
/// tail to the one at its head.
pub open spec fn spec_parse_grid_range(s: Seq<char>) -> Option<GridRange> {
    if s.len() == 1 && s[0] == ':' {
        Some(GridRange::All)
    } else {
        let i = spec_digit_prefix_len(s);
        if i == s.len() {
            match spec_parse_u8(s) {
                Some(v) => Some(GridRange::Range { start: v, end: v }),
                None => None,
            }
        } else if s[i] == ':' {
            match (spec_parse_u8(s.subrange(0, i)), spec_parse_u8(
                s.subrange(i + 1, s.len() as int),
            )) {
                (Some(l), Some(r)) => Some(
                    if l < r {
                        GridRange::Range { start: l, end: r }
                    } else {
                        GridRange::Range { start: r, end: l }
                    },
                ),
                _ => None,
            }
        } else if s[i] == '-' {
            if i + 1 < s.len() && s[i + 1] == '>' {
                match (spec_parse_u8(s.subrange(0, i)), spec_parse_u8(
                    s.subrange(i + 2, s.len() as int),
                )) {
                    (Some(l), Some(r)) => Some(GridRange::Direction { start: l, end: r }),
                    _ => None,
                }
            } else {
                None
            }
        } else if s[i] == '<' {
            if i + 1 < s.len() && s[i + 1] == '-' {
                match (spec_parse_u8(s.subrange(0, i)), spec_parse_u8(
                    s.subrange(i + 2, s.len() as int),
                )) {
                    (Some(l), Some(r)) => Some(GridRange::Direction { start: r, end: l }),
                    _ => None,
                }
            } else {
                None
            }
        } else {
            None
        }
    }
}

impl GridRange {
    /// Parses a grid-range expression.
    pub fn parse(s: &str) -> (r: Option<GridRange>)
        ensures
            r == spec_parse_grid_range(s@),
    {
        let n = s.unicode_len();
        if n == 1 && s.get_char(0) == ':' {
            return Some(GridRange::All);
        }
        let mut i: usize = 0;
        while i < n && is_digit(s.get_char(i))
            invariant
                i <= n == s@.len(),
                forall|j: int| 0 <= j < i ==> spec_is_digit(s@[j]),
            decreases n - i,
        {
            i += 1;
        }
        proof {
            lemma_digit_prefix(s@, i as int);
        }
        if i == n {
            return match parse_u8_range(s, 0, n) {
                Some(v) => {
                    proof {
                        assert(s@.subrange(0, n as int) =~= s@);
                    }
                    Some(GridRange::Range { start: v, end: v })
                },
                None => {
                    proof {
                        assert(s@.subrange(0, n as int) =~= s@);
                    }
                    None
                },
            };
        }
        let sep = s.get_char(i);
        if sep == ':' {
            match (parse_u8_range(s, 0, i), parse_u8_range(s, i + 1, n)) {
                (Some(l), Some(r)) => Some(
                    if l < r {
                        GridRange::Range { start: l, end: r }
                    } else {
                        GridRange::Range { start: r, end: l }
                    },
                ),
                _ => None,
            }
        } else if sep == '-' {
            if i + 1 < n && s.get_char(i + 1) == '>' {
                match (parse_u8_range(s, 0, i), parse_u8_range(s, i + 2, n)) {
                    (Some(l), Some(r)) => Some(GridRange::Direction { start: l, end: r }),
                    _ => None,
                }
            } else {
                None
            }
        } else if sep == '<' {
            if i + 1 < n && s.get_char(i + 1) == '-' {
                match (parse_u8_range(s, 0, i), parse_u8_range(s, i + 2, n)) {
                    (Some(l), Some(r)) => Some(GridRange::Direction { start: r, end: l }),
                    _ => None,
                }
            } else {
                None
            }
        } else {
            None
        }
    }

    /// The one-cell range at a plain numeric index, bounds-checked against
    /// the grid width.
    pub fn from_index(v: i64) -> (r: Option<GridRange>)
        ensures
            0 <= v < MAX_COLUMN ==> r == Some(
                GridRange::Range { start: v as u8, end: v as u8 },
            ),
            !(0 <= v < MAX_COLUMN) ==> r is None,
    {
        if 0 <= v && v < MAX_COLUMN as i64 {
            Some(GridRange::Range { start: v as u8, end: v as u8 })
        } else {
            None
        }
    }
}

// ---------------------------------------------------------------------------
// Hexadecimal colors.
// ---------------------------------------------------------------------------

/// The value of a hexadecimal digit, or -1 when `c` is not one.
pub open spec fn spec_hex_val(c: char) -> int {
    let u = c as u32;
    if 48 <= u <= 57 {
        u - 48
    } else if 97 <= u <= 102 {
        u - 87
    } else if 65 <= u <= 70 {
        u - 55
    } else {
        -1
    }
}

/// The color denoted by a six-digit hexadecimal string `rrggbb`.
pub open spec fn spec_parse_color(s: Seq<char>) -> Option<Color> {
    if s.len() == 6 && spec_hex_val(s[0]) >= 0 && spec_hex_val(s[1]) >= 0 && spec_hex_val(s[2])
        >= 0 && spec_hex_val(s[3]) >= 0 && spec_hex_val(s[4]) >= 0 && spec_hex_val(s[5]) >= 0 {
        Some(
            Color(
                Rgb {
                    r: (spec_hex_val(s[0]) * 16 + spec_hex_val(s[1])) as u8,
                    g: (spec_hex_val(s[2]) * 16 + spec_hex_val(s[3])) as u8,
                    b: (spec_hex_val(s[4]) * 16 + spec_hex_val(s[5])) as u8,
                },
            ),
        )
    } else {
        None
    }
}

fn hex_val(c: char) -> (r: i8)
    ensures
        r == spec_hex_val(c),
{
    let u = c as u32;
    if 48 <= u && u <= 57 {
        (u - 48) as i8
    } else if 97 <= u && u <= 102 {
        (u - 87) as i8
    } else if 65 <= u && u <= 70 {
        (u - 55) as i8
    } else {
        -1
    }
}

/// Parses a six-digit hexadecimal color value in the format `rrggbb`.
pub fn parse_color(s: &str) -> (r: Option<Color>)
    ensures
        r == spec_parse_color(s@),
{
    if s.unicode_len() != 6 {
        return None;
    }
    let v0 = hex_val(s.get_char(0));
    let v1 = hex_val(s.get_char(1));
    let v2 = hex_val(s.get_char(2));
    let v3 = hex_val(s.get_char(3));
    let v4 = hex_val(s.get_char(4));
    let v5 = hex_val(s.get_char(5));
    if v0 < 0 || v1 < 0 || v2 < 0 || v3 < 0 || v4 < 0 || v5 < 0 {
        return None;
    }
    Some(
        Color(
            Rgb {
                r: (v0 as u8) * 16 + (v1 as u8),
                g: (v2 as u8) * 16 + (v3 as u8),
                b: (v4 as u8) * 16 + (v5 as u8),
            },
        ),
    )
}

} // verus!
