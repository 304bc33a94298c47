//! A minimal RGB color value type with a verified CSS `rgb(...)` renderer.
//!
//! The one externally meaningful contract is the text that [`RGB::to_css`]
//! produces: `rgb(R, G, B)` with the three channels printed as base-10
//! integers, separated by a comma and a single space.

use vstd::prelude::*;

verus! {

use vstd::string::StringExecFns;

/// How much red, green, and blue should be added to create a color.
///
/// Each channel is an 8-bit unsigned integer, so every representable value
/// is a valid color: no further invariant is needed.
#[derive(Debug, Copy, Clone, PartialEq, Eq, Structural)]
pub struct RGB {
    /// red, between 0 and 255
    pub r: u8,

    /// green
    pub g: u8,

    /// blue
    pub b: u8,
}

/// The character for one decimal digit.
pub open spec fn digit_char(d: int) -> char {
    if d == 0 {
        '0'
    } else if d == 1 {
        '1'
    } else if d == 2 {
        '2'
    } else if d == 3 {
        '3'
    } else if d == 4 {
        '4'
    } else if d == 5 {
        '5'
    } else if d == 6 {
        '6'
    } else if d == 7 {
        '7'
    } else if d == 8 {
        '8'
    } else {
        '9'
    }
}

/// The base-10 rendering of `n`, most significant digit first, with no
/// leading zeros (a single `'0'` for zero itself).
pub open spec fn decimal(n: int) -> Seq<char>
    decreases n,
{
    if n < 10 {
        seq![digit_char(n)]
    } else {
        decimal(n / 10).push(digit_char(n % 10))
    }
}

/// The one-character string for a decimal digit.
fn digit_str(d: u8) -> (s: &'static str)
    requires
        d < 10,
    ensures
        s@ == seq![digit_char(d as int)],
{
    if d == 0 {
        proof {
            reveal_strlit("0");
            assert("0"@ =~= seq![digit_char(0)]);
        }
        "0"
    } else if d == 1 {
        proof {
            reveal_strlit("1");
            assert("1"@ =~= seq![digit_char(1)]);
        }
        "1"
    } else if d == 2 {
        proof {
            reveal_strlit("2");
            assert("2"@ =~= seq![digit_char(2)]);
        }
        "2"
    } else if d == 3 {
        proof {
            reveal_strlit("3");
            assert("3"@ =~= seq![digit_char(3)]);
        }
        "3"
    } else if d == 4 {
        proof {
            reveal_strlit("4");
            assert("4"@ =~= seq![digit_char(4)]);
        }
        "4"
    } else if d == 5 {
        proof {
            reveal_strlit("5");
            assert("5"@ =~= seq![digit_char(5)]);
        }
        "5"
    } else if d == 6 {
        proof {
            reveal_strlit("6");
            assert("6"@ =~= seq![digit_char(6)]);
        }
        "6"
    } else if d == 7 {
        proof {
            reveal_strlit("7");
            assert("7"@ =~= seq![digit_char(7)]);
        }
        "7"
    } else if d == 8 {
        proof {
            reveal_strlit("8");
            assert("8"@ =~= seq![digit_char(8)]);
        }
        "8"
    } else {
        proof {
            reveal_strlit("9");
            assert("9"@ =~= seq![digit_char(9)]);
        }
        "9"
    }
}

/// A two-digit number renders as its tens digit followed by its ones digit.
proof fn lemma_decimal_two_digits(n: int)
    requires
        10 <= n < 100,
    ensures
        decimal(n) =~= seq![digit_char(n / 10), digit_char(n % 10)],
{
    assert(decimal(n) == decimal(n / 10).push(digit_char(n % 10)));
    assert(n / 10 < 10);
    assert(decimal(n / 10) == seq![digit_char(n / 10)]);
}

/// A three-digit number renders as hundreds, tens, ones.
proof fn lemma_decimal_three_digits(n: int)
    requires
        100 <= n < 1000,
    ensures
        decimal(n) =~= seq![digit_char(n / 100), digit_char((n / 10) % 10), digit_char(n % 10)],
{
    vstd::arithmetic::div_mod::lemma_div_denominator(n, 10, 10);
    assert((n / 10) / 10 == n / 100);
    assert(10 <= n / 10 < 100);
    lemma_decimal_two_digits(n / 10);
    assert(decimal(n) == decimal(n / 10).push(digit_char(n % 10)));
}

/// Appends the base-10 rendering of `n` to `out`.
fn push_decimal(out: &mut String, n: u8)
    ensures
        final(out)@ == old(out)@ + decimal(n as int),
{
    let ghost start = out@;
    if n >= 100 {
        out.append(digit_str(n / 100));
        out.append(digit_str((n / 10) % 10));
        out.append(digit_str(n % 10));
        proof {
            lemma_decimal_three_digits(n as int);
            assert(out@ =~= start + decimal(n as int));
        }
    } else if n >= 10 {
        out.append(digit_str(n / 10));
        out.append(digit_str(n % 10));
        proof {
            lemma_decimal_two_digits(n as int);
            assert(out@ =~= start + decimal(n as int));
        }
    } else {
        out.append(digit_str(n));
        proof {
            assert(out@ =~= start + decimal(n as int));
        }
    }
}

/// The CSS `rgb(...)` text for three channel values: `rgb(R, G, B)`,
/// decimal channels, comma-space separated, no alpha.
pub open spec fn css_text(r: u8, g: u8, b: u8) -> Seq<char> {
    seq!['r', 'g', 'b', '('] + decimal(r as int) + seq![',', ' '] + decimal(g as int) + seq![
        ',',
        ' ',
    ] + decimal(b as int) + seq![')']
}

/// The developer-facing text for three channel values:
/// `RGB { r: R, g: G, b: B }`, with decimal channels.
pub open spec fn debug_text(r: u8, g: u8, b: u8) -> Seq<char> {
    seq!['R', 'G', 'B', ' ', '{', ' ', 'r', ':', ' '] + decimal(r as int) + seq![
        ',',
        ' ',
        'g',
        ':',
        ' ',
    ] + decimal(g as int) + seq![',', ' ', 'b', ':', ' '] + decimal(b as int) + seq![' ', '}']
}

impl RGB {
    /// Converts a set of RGB values into valid CSS.
    ///
    /// The result is exactly `rgb(R, G, B)`: each channel in base 10 with no
    /// leading zeros, separated by a comma and a single space.
    pub fn to_css(&self) -> (s: String)
        ensures
            s@ == css_text(self.r, self.g, self.b),
    {
        let mut out = String::new();
        out.append("rgb(");
        push_decimal(&mut out, self.r);
        out.append(", ");
        push_decimal(&mut out, self.g);
        out.append(", ");
        push_decimal(&mut out, self.b);
        out.append(")");
        proof {
            reveal_strlit("rgb(");
            reveal_strlit(", ");
            reveal_strlit(")");
            assert("rgb("@ =~= seq!['r', 'g', 'b', '(']);
            assert(", "@ =~= seq![',', ' ']);
            assert(")"@ =~= seq![')']);
            assert(out@ =~= css_text(self.r, self.g, self.b));
        }
        out
    }

    /// A developer-facing rendering of a color: `RGB { r: R, g: G, b: B }`,
    /// the type name followed by the three fields in order. It matches the
    /// text that the derived [`Debug`] formatting prints.
    pub fn debug_representation(&self) -> (s: String)
        ensures
            s@ == debug_text(self.r, self.g, self.b),
    {
        let mut out = String::new();
        out.append("RGB { r: ");
        push_decimal(&mut out, self.r);
        out.append(", g: ");
        push_decimal(&mut out, self.g);
        out.append(", b: ");
        push_decimal(&mut out, self.b);
        out.append(" }");
        proof {
            reveal_strlit("RGB { r: ");
            reveal_strlit(", g: ");
            reveal_strlit(", b: ");
            reveal_strlit(" }");
            assert("RGB { r: "@ =~= seq!['R', 'G', 'B', ' ', '{', ' ', 'r', ':', ' ']);
            assert(", g: "@ =~= seq![',', ' ', 'g', ':', ' ']);
            assert(", b: "@ =~= seq![',', ' ', 'b', ':', ' ']);
            assert(" }"@ =~= seq![' ', '}']);
            assert(out@ =~= debug_text(self.r, self.g, self.b));
        }
        out
    }

    /// The user-facing stringification of a color.
    ///
    /// Returns exactly the same text as [`RGB::to_css`], for every input:
    /// both contracts name the same rendering, `css_text`.
    pub fn to_display_string(&self) -> (s: String)
        ensures
            s@ == css_text(self.r, self.g, self.b),
    {
        self.to_css()
    }

    /// Structural equality: true iff all three channel values are pairwise
    /// equal. No tolerance, no fuzziness.
    pub fn equals(&self, other: &RGB) -> (eq: bool)
        ensures
            eq == (*self == *other),
    {
        self == other
    }

    /// An independent copy, equal to the original. The type has value
    /// semantics, so the copy shares no storage with the original.
    pub fn duplicate(&self) -> (d: RGB)
        ensures
            d == *self,
    {
        *self
    }
}

/// Equality is reflexive: two colors constructed from the same channel
/// triple are equal.
pub proof fn lemma_construct_equals(r: u8, g: u8, b: u8)
    ensures
        (RGB { r, g, b }) == (RGB { r, g, b }),
{
}

/// `to_css` and `to_display_string` agree on every input: each contract pins
/// its result to the rendering `css_text`, so any two results that meet those
/// contracts are the same text.
pub proof fn lemma_display_matches_css(c: RGB, css: Seq<char>, shown: Seq<char>)
    requires
        css == css_text(c.r, c.g, c.b),
        shown == css_text(c.r, c.g, c.b),
    ensures
        css == shown,
{
}

} // verus!
