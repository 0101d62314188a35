//! Plain geometric and color types shared by the whole engine.
//!
//! Coordinates are whole pixels held in `i64`.  Every operation that adds
//! coordinates bounds its inputs by [`COORD_LIMIT`] so that no intermediate
//! sum can overflow.

use vstd::prelude::*;
use vstd::string::StrSliceExecFns;

verus! {

/// Largest magnitude a pixel coordinate or extent may have.  Generous for any
/// viewport while keeping every product and sum in the geometry pipeline far
/// from `i64` overflow.
pub const COORD_LIMIT: i64 = 1048576;

/// A position or offset in pixel space, y pointing down.
#[derive(Clone, Copy, Debug, PartialEq, Eq, Structural)]
pub struct Point {
    pub x: i64,
    pub y: i64,
}

/// Whether both components of a point are within [`COORD_LIMIT`].
pub open spec fn point_in_bounds(p: Point) -> bool {
    &&& -COORD_LIMIT <= p.x <= COORD_LIMIT
    &&& -COORD_LIMIT <= p.y <= COORD_LIMIT
}

impl Point {
    /// The point at the given coordinates.
    pub fn new(x: i64, y: i64) -> (p: Point)
        ensures
            p == (Point { x, y }),
    {
        Point { x, y }
    }

    /// Component-wise sum.
    pub fn plus(self, other: Point) -> (p: Point)
        requires
            point_in_bounds(self),
            point_in_bounds(other),
        ensures
            p.x == self.x + other.x,
            p.y == self.y + other.y,
    {
        Point { x: self.x + other.x, y: self.y + other.y }
    }

    /// Component-wise difference.
    pub fn minus(self, other: Point) -> (p: Point)
        requires
            point_in_bounds(self),
            point_in_bounds(other),
        ensures
            p.x == self.x - other.x,
            p.y == self.y - other.y,
    {
        Point { x: self.x - other.x, y: self.y - other.y }
    }
}

/// An axis-aligned rectangle in pixel space: top-left corner plus extents.
#[derive(Clone, Copy, Debug, PartialEq, Eq, Structural)]
pub struct Rect {
    pub x: i64,
    pub y: i64,
    pub width: i64,
    pub height: i64,
}

/// Whether every field of a rectangle is within [`COORD_LIMIT`].
pub open spec fn rect_in_bounds(r: Rect) -> bool {
    &&& -COORD_LIMIT <= r.x <= COORD_LIMIT
    &&& -COORD_LIMIT <= r.y <= COORD_LIMIT
    &&& -COORD_LIMIT <= r.width <= COORD_LIMIT
    &&& -COORD_LIMIT <= r.height <= COORD_LIMIT
}

impl Rect {
    /// The rectangle with the given corner and extents.
    pub fn new(x: i64, y: i64, width: i64, height: i64) -> (r: Rect)
        ensures
            r == (Rect { x, y, width, height }),
    {
        Rect { x, y, width, height }
    }

    /// Whether the point lies inside the rectangle.  The left and top edges
    /// are inclusive, the right and bottom edges exclusive.
    pub fn contains_point(&self, x: i64, y: i64) -> (b: bool)
        requires
            rect_in_bounds(*self),
        ensures
            b == (self.x <= x < self.x + self.width && self.y <= y < self.y + self.height),
    {
        x >= self.x && x < self.x + self.width && y >= self.y && y < self.y + self.height
    }

    /// The smallest rectangle covering both rectangles.  A rectangle with a
    /// zero extent is treated as absent: the other operand is returned.
    pub fn union(&self, other: Rect) -> (r: Rect)
        requires
            rect_in_bounds(*self),
            rect_in_bounds(other),
        ensures
            (self.width == 0 || self.height == 0) ==> r == other,
            !(self.width == 0 || self.height == 0) && (other.width == 0 || other.height == 0)
                ==> r == *self,
            !(self.width == 0 || self.height == 0) && !(other.width == 0 || other.height == 0)
                ==> {
                &&& r.x == min_int(self.x as int, other.x as int)
                &&& r.y == min_int(self.y as int, other.y as int)
                &&& r.width == max_int(
                    self.x + self.width,
                    other.x + other.width,
                ) - min_int(self.x as int, other.x as int)
                &&& r.height == max_int(
                    self.y + self.height,
                    other.y + other.height,
                ) - min_int(self.y as int, other.y as int)
            },
    {
        if self.width == 0 || self.height == 0 {
            return other;
        }
        if other.width == 0 || other.height == 0 {
            return *self;
        }
        let x = if self.x <= other.x {
            self.x
        } else {
            other.x
        };
        let y = if self.y <= other.y {
            self.y
        } else {
            other.y
        };
        let right = if self.x + self.width >= other.x + other.width {
            self.x + self.width
        } else {
            other.x + other.width
        };
        let bottom = if self.y + self.height >= other.y + other.height {
            self.y + self.height
        } else {
            other.y + other.height
        };
        Rect { x, y, width: right - x, height: bottom - y }
    }

    /// Whether the two rectangles touch or overlap (edge contact counts).
    pub fn has_intersection(&self, other: Rect) -> (b: bool)
        requires
            rect_in_bounds(*self),
            rect_in_bounds(other),
        ensures
            b == (self.x <= other.x + other.width && self.x + self.width >= other.x && self.y
                <= other.y + other.height && self.y + self.height >= other.y),
    {
        self.x <= other.x + other.width && self.x + self.width >= other.x && self.y <= other.y
            + other.height && self.y + self.height >= other.y
    }

    /// The overlap of the two rectangles, or the zero rectangle if they do
    /// not touch.
    pub fn intersection(&self, other: Rect) -> (r: Rect)
        requires
            rect_in_bounds(*self),
            rect_in_bounds(other),
        ensures
            !(self.x <= other.x + other.width && self.x + self.width >= other.x && self.y
                <= other.y + other.height && self.y + self.height >= other.y) ==> r == (Rect {
                x: 0,
                y: 0,
                width: 0,
                height: 0,
            }),
            (self.x <= other.x + other.width && self.x + self.width >= other.x && self.y <= other.y
                + other.height && self.y + self.height >= other.y) ==> {
                &&& r.x == max_int(self.x as int, other.x as int)
                &&& r.y == max_int(self.y as int, other.y as int)
                &&& r.width == min_int(
                    self.x + self.width,
                    other.x + other.width,
                ) - max_int(self.x as int, other.x as int)
                &&& r.height == min_int(
                    self.y + self.height,
                    other.y + other.height,
                ) - max_int(self.y as int, other.y as int)
            },
    {
        if !self.has_intersection(other) {
            return Rect { x: 0, y: 0, width: 0, height: 0 };
        }
        let x = if self.x >= other.x {
            self.x
        } else {
            other.x
        };
        let y = if self.y >= other.y {
            self.y
        } else {
            other.y
        };
        let right = if self.x + self.width <= other.x + other.width {
            self.x + self.width
        } else {
            other.x + other.width
        };
        let bottom = if self.y + self.height <= other.y + other.height {
            self.y + self.height
        } else {
            other.y + other.height
        };
        Rect { x, y, width: right - x, height: bottom - y }
    }
}

/// The smaller of two integers.
pub open spec fn min_int(a: int, b: int) -> int {
    if a <= b {
        a
    } else {
        b
    }
}

/// The larger of two integers.
pub open spec fn max_int(a: int, b: int) -> int {
    if a >= b {
        a
    } else {
        b
    }
}

/// An RGBA color with 8-bit channels; `a == 255` is fully opaque.
#[derive(Clone, Copy, Debug, Hash, PartialEq, Eq, Structural)]
pub struct Color {
    pub r: u8,
    pub g: u8,
    pub b: u8,
    pub a: u8,
}

impl Color {
    /// A fully opaque color.
    pub fn new(r: u8, g: u8, b: u8) -> (c: Color)
        ensures
            c == (Color { r, g, b, a: 255u8 }),
    {
        Color { r, g, b, a: 255 }
    }

    /// A color with an explicit alpha channel.
    pub fn rgba(r: u8, g: u8, b: u8, a: u8) -> (c: Color)
        ensures
            c == (Color { r, g, b, a }),
    {
        Color { r, g, b, a }
    }

    /// Parse a `RRGGBB` hex string into an opaque color.  The string is read
    /// as a signed 32-bit hexadecimal number (an optional `+` or `-` sign,
    /// then hex digits) and split into channels lowest byte first, exactly
    /// as [`color_of_value`] describes.
    pub fn from_hex(color_hex_str: &str) -> (res: Result<Color, ColorParseError>)
        ensures
            (match parse_hex_i32(color_hex_str@) {
                Ok(v) => res == Ok::<Color, ColorParseError>(color_of_value(v)),
                Err(e) => res == Err::<Color, ColorParseError>(e),
            }),
    {
        let n = color_hex_str.unicode_len();
        if n == 0 {
            return Err(ColorParseError::Empty);
        }
        let first = color_hex_str.get_char(0);
        let neg = first == '-';
        let mut i: usize = if first == '-' || first == '+' {
            1
        } else {
            0
        };
        let ghost digits = if first == '-' || first == '+' {
            color_hex_str@.skip(1)
        } else {
            color_hex_str@
        };
        if i == n {
            return Err(ColorParseError::InvalidDigit);
        }
        let limit: u64 = if neg {
            2147483648
        } else {
            2147483647
        };
        let mut acc: u64 = 0;
        proof {
            assert(color_hex_str@.skip(0) =~= color_hex_str@);
        }
        while i < n
            invariant
                n == color_hex_str@.len(),
                i <= n,
                acc <= limit,
                limit == if neg {
                    2147483648u64
                } else {
                    2147483647u64
                },
                neg == (color_hex_str@[0] == '-'),
                digits == (if color_hex_str@[0] == '-' || color_hex_str@[0] == '+' {
                    color_hex_str@.skip(1)
                } else {
                    color_hex_str@
                }),
                fold_hex(digits, 0, neg) == fold_hex(
                    color_hex_str@.skip(i as int),
                    acc as int,
                    neg,
                ),
                digits.len() > 0,
            decreases n - i,
        {
            let c = color_hex_str.get_char(i);
            proof {
                assert(color_hex_str@.skip(i as int)[0] == c);
            }
            let d: u64 = if '0' <= c && c <= '9' {
                (c as u32 as u64) - 48
            } else if 'a' <= c && c <= 'f' {
                (c as u32 as u64) - 97 + 10
            } else if 'A' <= c && c <= 'F' {
                (c as u32 as u64) - 65 + 10
            } else {
                proof {
                    assert(!is_hex_digit(c));
                    assert(fold_hex(color_hex_str@.skip(i as int), acc as int, neg)
                        == Err::<int, ColorParseError>(ColorParseError::InvalidDigit));
                    assert(parse_hex_i32(color_hex_str@) == Err::<int, ColorParseError>(
                        ColorParseError::InvalidDigit,
                    ));
                }
                return Err(ColorParseError::InvalidDigit);
            };
            proof {
                assert(is_hex_digit(c) && d == hex_digit_value(c));
            }
            let acc2 = acc * 16 + d;
            if acc2 > limit {
                proof {
                    assert(fold_hex(color_hex_str@.skip(i as int), acc as int, neg)
                        == Err::<int, ColorParseError>(ColorParseError::Overflow));
                    assert(parse_hex_i32(color_hex_str@) == Err::<int, ColorParseError>(
                        ColorParseError::Overflow,
                    ));
                }
                return Err(ColorParseError::Overflow);
            }
            proof {
                assert(color_hex_str@.skip(i as int).skip(1) =~= color_hex_str@.skip(i + 1));
            }
            acc = acc2;
            i = i + 1;
        }
        proof {
            assert(color_hex_str@.skip(n as int) =~= Seq::<char>::empty());
        }
        Ok(Self::channels_of(acc, neg))
    }

    /// Split a parsed magnitude-and-sign value into color channels, lowest
    /// byte first, with the byte arithmetic of [`color_of_value`].
    fn channels_of(mag: u64, neg: bool) -> (c: Color)
        requires
            mag <= 2147483648,
            !neg ==> mag <= 2147483647,
        ensures
            c == color_of_value(if neg {
                -(mag as int)
            } else {
                mag as int
            }),
    {
        let m1 = mag % 256;
        let q1 = mag / 256;
        let gm = q1 % 256;
        let t = (mag - gm) / 65536;
        proof {
            let m = mag as int;
            lemma_mag_channels(m);
            assert(m1 == m % 256 && q1 == m / 256 && gm == (m / 256) % 256);
            assert(t == (m - (m / 256) % 256) / 65536);
        }
        if !neg {
            proof {
                let m = mag as int;
                let b = trunc_mod(m, 256);
                assert(b == m % 256);
                assert(trunc_div(m - b, 256) == m / 256);
                let g = trunc_mod(m / 256, 256);
                assert(g == gm);
                assert(trunc_div(m - g, 65536) == t);
                lemma_small_mod(m1 as int);
                lemma_small_mod(gm as int);
            }
            Color { r: ((t % 256) as u8), g: (gm as u8), b: (m1 as u8), a: 255 }
        } else {
            proof {
                let m = mag as int;
                let v = -m;
                lemma_mag_channels(m);
                let b = trunc_mod(v, 256);
                assert(b == -(m % 256));
                assert(v - b == -(m - m % 256));
                assert(trunc_div(v - b, 256) == -(m / 256));
                let g = trunc_mod(-(m / 256), 256);
                assert(g == -((m / 256) % 256));
                assert(v - g == -(m - (m / 256) % 256));
                assert(trunc_div(v - g, 65536) == -(t as int));
                lemma_neg_wrap(m1 as int);
                lemma_neg_wrap(gm as int);
                lemma_neg_wrap(t as int);
                lemma_small_mod(m1 as int);
                lemma_small_mod(gm as int);
            }
            Color {
                r: (((256 - t % 256) % 256) as u8),
                g: (((256 - gm) % 256) as u8),
                b: (((256 - m1) % 256) as u8),
                a: 255,
            }
        }
    }
}

/// Why a hex color string failed to parse.
#[derive(Clone, Copy, Debug, PartialEq, Eq, Structural)]
pub enum ColorParseError {
    /// The string was empty.
    Empty,
    /// A character was not a hex digit, or only a sign was given.
    InvalidDigit,
    /// The value does not fit in a signed 32-bit integer.
    Overflow,
}

/// Whether a character is a hexadecimal digit.
pub open spec fn is_hex_digit(c: char) -> bool {
    ('0' <= c && c <= '9') || ('a' <= c && c <= 'f') || ('A' <= c && c <= 'F')
}

/// The value of a hexadecimal digit.
pub open spec fn hex_digit_value(c: char) -> int {
    if '0' <= c && c <= '9' {
        c as int - '0' as int
    } else if 'a' <= c && c <= 'f' {
        c as int - 'a' as int + 10
    } else {
        c as int - 'A' as int + 10
    }
}

/// Left-to-right fold of hex digits onto an accumulated magnitude, stopping
/// at the first invalid digit or at the first step whose value leaves the
/// signed 32-bit range (the negative range is one larger in magnitude).
pub open spec fn fold_hex(digits: Seq<char>, acc: int, neg: bool) -> Result<int, ColorParseError>
    decreases digits.len(),
{
    if digits.len() == 0 {
        Ok(
            if neg {
                -acc
            } else {
                acc
            },
        )
    } else if !is_hex_digit(digits[0]) {
        Err(ColorParseError::InvalidDigit)
    } else {
        let acc2 = acc * 16 + hex_digit_value(digits[0]);
        if !neg && acc2 > 2147483647 {
            Err(ColorParseError::Overflow)
        } else if neg && acc2 > 2147483648 {
            Err(ColorParseError::Overflow)
        } else {
            fold_hex(digits.skip(1), acc2, neg)
        }
    }
}

/// Parse a string as a signed 32-bit hexadecimal number: an optional sign,
/// then at least one hex digit.
pub open spec fn parse_hex_i32(s: Seq<char>) -> Result<int, ColorParseError> {
    if s.len() == 0 {
        Err(ColorParseError::Empty)
    } else {
        let neg = s[0] == '-';
        let digits = if s[0] == '-' || s[0] == '+' {
            s.skip(1)
        } else {
            s
        };
        if digits.len() == 0 {
            Err(ColorParseError::InvalidDigit)
        } else {
            fold_hex(digits, 0, neg)
        }
    }
}

/// Division truncating toward zero (for a positive divisor), as the `/`
/// operator behaves on machine integers.
pub open spec fn trunc_div(a: int, b: int) -> int {
    if a >= 0 {
        a / b
    } else {
        -((-a) / b)
    }
}

/// Remainder with the dividend's sign (for a positive divisor), as the `%`
/// operator behaves on machine integers.
pub open spec fn trunc_mod(a: int, b: int) -> int {
    if a >= 0 {
        a % b
    } else {
        -((-a) % b)
    }
}

/// The color a signed 32-bit value decomposes into: the blue channel is the
/// value's lowest byte, green the next, red the rest, each wrapped to eight
/// bits, fully opaque.
pub open spec fn color_of_value(v: int) -> Color {
    let b = trunc_mod(v, 256);
    let g = trunc_mod(trunc_div(v - b, 256), 256);
    let r = trunc_div(v - g, 65536);
    Color {
        r: ((r % 256) as u8),
        g: ((g % 256) as u8),
        b: ((b % 256) as u8),
        a: 255,
    }
}

/// On a non-negative value `m` the channel formulas reduce to plain byte
/// extraction: splitting off the low byte and dividing by 256 is the same as
/// dividing by 256 outright, and both quotients stay non-negative.
proof fn lemma_mag_channels(m: int)
    requires
        m >= 0,
    ensures
        m == 256 * (m / 256) + m % 256,
        0 <= m % 256 < 256,
        0 <= (m / 256) % 256 < 256,
        trunc_div(m - trunc_mod(m, 256), 256) == m / 256,
        trunc_div(-(m) + (m % 256), 256) == -(m / 256),
        m - (m / 256) % 256 >= 0,
        m / 256 >= 0,
        (m - (m / 256) % 256) / 65536 >= 0,
{
    assert(m == 256 * (m / 256) + m % 256 && 0 <= m % 256 < 256 && 0 <= (m / 256) % 256 < 256
        && m / 256 >= 0) by (nonlinear_arith)
        requires
            m >= 0,
    ;
    assert((256 * (m / 256)) / 256 == m / 256) by (nonlinear_arith)
        requires
            m / 256 >= 0,
    ;
    assert((m / 256) % 256 <= m / 256 && m / 256 <= m) by (nonlinear_arith)
        requires
            m >= 0,
    ;
    assert((m - (m / 256) % 256) / 65536 >= 0) by (nonlinear_arith)
        requires
            m - (m / 256) % 256 >= 0,
    ;
}

/// Wrapping a negated non-negative value to eight bits:
/// `(-t) % 256 == (256 - t % 256) % 256`.
proof fn lemma_neg_wrap(t: int)
    requires
        t >= 0,
    ensures
        (-t) % 256 == (256 - t % 256) % 256,
{
    assert((-t) % 256 == (256 - t % 256) % 256) by (nonlinear_arith)
        requires
            t >= 0,
    ;
}

/// A value already within a byte is unchanged by wrapping.
proof fn lemma_small_mod(x: int)
    requires
        0 <= x < 256,
    ensures
        x % 256 == x,
{
    assert(x % 256 == x) by (nonlinear_arith)
        requires
            0 <= x < 256,
    ;
}

} // verus!
