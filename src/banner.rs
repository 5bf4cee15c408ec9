//! The level banner shown while a new level is announced.
use vstd::prelude::*;

use crate::state::{GameState, HEIGHT, WIDTH};

verus! {

/// Font size of the banner.
pub const FONT_SIZE: i32 = 80;

/// The character of a decimal digit.
pub open spec fn digit_char(d: nat) -> char {
    seq!['0', '1', '2', '3', '4', '5', '6', '7', '8', '9'][d as int]
}

/// The decimal digits of `n`, most significant first, without leading zeros.
pub open spec fn decimal(n: nat) -> Seq<char>
    decreases n,
{
    if n < 10 {
        seq![digit_char(n)]
    } else {
        decimal(n / 10).push(digit_char(n % 10))
    }
}

/// The banner text of a level: `Level: ` and the level in decimal.
pub open spec fn level_text(level: nat) -> Seq<char> {
    seq!['L', 'e', 'v', 'e', 'l', ':', ' '] + decimal(level)
}

/// Ten to the power `k`.
pub open spec fn pow10(k: nat) -> nat
    decreases k,
{
    if k == 0 {
        1
    } else {
        10 * pow10((k - 1) as nat)
    }
}

/// A number below `10^k` has at most `k` digits.
proof fn lemma_decimal_len(n: nat, k: nat)
    requires
        1 <= k,
        n < pow10(k),
    ensures
        decimal(n).len() <= k,
    decreases n,
{
    if n >= 10 {
        if k == 1 {
            assert(pow10(1) == 10) by {
                reveal_with_fuel(pow10, 2);
            }
        }
        assert(n / 10 < pow10((k - 1) as nat));
        lemma_decimal_len(n / 10, (k - 1) as nat);
    }
}

/// Relies on `ToString::to_string` through the `Display` of `u32`, which
/// writes an unsigned integer in decimal with no sign, padding or leading
/// zeros.
#[verifier::external_body]
fn decimal_text(n: u32) -> (r: String)
    ensures
        r@ == decimal(n as nat),
{
    n.to_string()
}

/// The banner text of `level`.
pub fn format_level(level: u32) -> (r: String)
    ensures
        r@ == level_text(level as nat),
{
    let mut text = String::from_str("Level: ");
    let digits = decimal_text(level);
    text.append(digits.as_str());
    proof {
        reveal_strlit("Level: ");
        assert(text@ =~= level_text(level as nat));
    }
    text
}

/// Text to draw, where, and how large.
pub struct Banner {
    pub text: String,
    pub x: i32,
    pub y: i32,
    pub font_size: i32,
}

impl GameState {
    /// The level banner, while it is shown. It is centred on the arena's
    /// middle column, taking a character to be a quarter of the font size
    /// wide, and stands one font size below the middle row.
    pub fn banner(&self) -> (r: Option<Banner>)
        ensures
            r is Some <==> self.show_level,
            r matches Some(b) ==> {
                &&& b.text@ == level_text(self.level as nat)
                &&& b.font_size == FONT_SIZE
                &&& b.x == WIDTH / 2 - b.text@.len() * FONT_SIZE / 4
                &&& b.y == HEIGHT / 2 + FONT_SIZE
            },
    {
        if !self.show_level {
            return None;
        }
        let text = format_level(self.level);
        let len = text.as_str().unicode_len();
        proof {
            assert(pow10(10) == 10_000_000_000) by {
                reveal_with_fuel(pow10, 11);
            }
            lemma_decimal_len(self.level as nat, 10);
        }
        let mid_x = (WIDTH / 2) as i32;
        let mid_y = (HEIGHT / 2) as i32;
        let x = mid_x - (len as i32) * FONT_SIZE / 4;
        Some(Banner { text, x, y: mid_y + FONT_SIZE, font_size: FONT_SIZE })
    }
}

} // verus!
