//! The integer core of geohash encoding: bit interleaving and base32 digits.
//!
//! Mapping a coordinate into the unit square is floating-point work and stays
//! outside the library; what comes in here is the two 32-bit fractions, and
//! what goes out is the base32 text.

use vstd::prelude::*;

verus! {

/// Deposits the bits of `x` into the even bit positions of the result: bit
/// `i` of `x` becomes bit `2i`, and every odd bit is zero.
pub fn spread(x: u32) -> (r: u64)
    ensures
        forall|i: u64| i < 32 ==> #[trigger] ((r >> (2 * i)) & 1) == ((x as u64) >> i) & 1,
        forall|i: u64| i < 32 ==> #[trigger] ((r >> (2 * i + 1)) & 1) == 0,
{
    let a: u64 = x as u64;
    let b: u64 = (a | (a << 16)) & 0x0000ffff0000ffff;
    let c: u64 = (b | (b << 8)) & 0x00ff00ff00ff00ff;
    let d: u64 = (c | (c << 4)) & 0x0f0f0f0f0f0f0f0f;
    let e: u64 = (d | (d << 2)) & 0x3333333333333333;
    let f: u64 = (e | (e << 1)) & 0x5555555555555555;
    proof {
        assert(forall|i: u64| i < 32 ==> #[trigger] ((f >> (2 * i)) & 1) == ((a >> i) & 1))
            by (bit_vector)
            requires
                a < 0x100000000,
                b == (a | (a << 16)) & 0x0000ffff0000ffff,
                c == (b | (b << 8)) & 0x00ff00ff00ff00ff,
                d == (c | (c << 4)) & 0x0f0f0f0f0f0f0f0f,
                e == (d | (d << 2)) & 0x3333333333333333,
                f == (e | (e << 1)) & 0x5555555555555555,
        ;
        assert(forall|i: u64| i < 32 ==> #[trigger] ((f >> (2 * i + 1)) & 1) == 0) by (bit_vector)
            requires
                f == (e | (e << 1)) & 0x5555555555555555,
        ;
    }
    f
}

/// Interleaves two 32-bit values: bit `i` of `x` lands at even position
/// `2i`, bit `i` of `y` at odd position `2i + 1`.
pub fn interleave(x: u32, y: u32) -> (r: u64)
    ensures
        forall|i: u64| i < 32 ==> #[trigger] ((r >> (2 * i)) & 1) == ((x as u64) >> i) & 1,
        forall|i: u64| i < 32 ==> #[trigger] ((r >> (2 * i + 1)) & 1) == ((y as u64) >> i) & 1,
{
    let sx = spread(x);
    let sy = spread(y);
    let r = sx | (sy << 1);
    proof {
        assert forall|i: u64| i < 32 implies #[trigger] ((r >> (2 * i)) & 1) == ((x as u64) >> i)
            & 1 by {
            lemma_interleave_bit(sx, sy, r, x as u64, y as u64, i);
        }
        assert forall|i: u64| i < 32 implies #[trigger] ((r >> (2 * i + 1)) & 1) == ((y as u64)
            >> i) & 1 by {
            lemma_interleave_bit(sx, sy, r, x as u64, y as u64, i);
        }
    }
    r
}

/// One interleaved bit pair: with `sx` on the even lanes, `sy` shifted onto
/// the odd lanes, position `2i` shows `x`'s bit `i` and position `2i + 1`
/// shows `y`'s bit `i`.
proof fn lemma_interleave_bit(sx: u64, sy: u64, r: u64, x: u64, y: u64, i: u64)
    requires
        r == sx | (sy << 1),
        i < 32,
        forall|k: u64| k < 32 ==> #[trigger] ((sx >> (2 * k)) & 1) == (x >> k) & 1,
        forall|k: u64| k < 32 ==> #[trigger] ((sx >> (2 * k + 1)) & 1) == 0,
        forall|k: u64| k < 32 ==> #[trigger] ((sy >> (2 * k)) & 1) == (y >> k) & 1,
        forall|k: u64| k < 32 ==> #[trigger] ((sy >> (2 * k + 1)) & 1) == 0,
    ensures
        ((r >> (2 * i)) & 1) == (x >> i) & 1,
        ((r >> (2 * i + 1)) & 1) == (y >> i) & 1,
{
    let ex = (x >> i) & 1;
    let ey = (y >> i) & 1;
    assert(((sx >> (2 * i)) & 1) == ex);
    assert(((sx >> (2 * i + 1)) & 1) == 0);
    assert(((sy >> (2 * i)) & 1) == ey);
    if i > 0 {
        let j = (i - 1) as u64;
        assert(((sy >> (2 * j + 1)) & 1) == 0);
        assert(((sy >> ((2 * i - 1) as u64)) & 1) == 0);
    }
    assert(((r >> (2 * i)) & 1) == ex && ((r >> (2 * i + 1)) & 1) == ey) by (bit_vector)
        requires
            r == sx | (sy << 1),
            i < 32,
            ((sx >> (2 * i)) & 1) == ex,
            ((sx >> (2 * i + 1)) & 1) == 0,
            ((sy >> (2 * i)) & 1) == ey,
            i > 0 ==> ((sy >> ((2 * i - 1) as u64)) & 1) == 0,
    ;
}

/// The geohash base32 alphabet: digits, then the letters with `a`, `i`, `l`
/// and `o` left out.
pub open spec fn spec_base32_char(code: int) -> char {
    if code == 0 {
        '0'
    } else if code == 1 {
        '1'
    } else if code == 2 {
        '2'
    } else if code == 3 {
        '3'
    } else if code == 4 {
        '4'
    } else if code == 5 {
        '5'
    } else if code == 6 {
        '6'
    } else if code == 7 {
        '7'
    } else if code == 8 {
        '8'
    } else if code == 9 {
        '9'
    } else if code == 10 {
        'b'
    } else if code == 11 {
        'c'
    } else if code == 12 {
        'd'
    } else if code == 13 {
        'e'
    } else if code == 14 {
        'f'
    } else if code == 15 {
        'g'
    } else if code == 16 {
        'h'
    } else if code == 17 {
        'j'
    } else if code == 18 {
        'k'
    } else if code == 19 {
        'm'
    } else if code == 20 {
        'n'
    } else if code == 21 {
        'p'
    } else if code == 22 {
        'q'
    } else if code == 23 {
        'r'
    } else if code == 24 {
        's'
    } else if code == 25 {
        't'
    } else if code == 26 {
        'u'
    } else if code == 27 {
        'v'
    } else if code == 28 {
        'w'
    } else if code == 29 {
        'x'
    } else if code == 30 {
        'y'
    } else {
        'z'
    }
}

fn base32_char(code: u64) -> (r: &'static str)
    requires
        code < 32,
    ensures
        r@ == seq![spec_base32_char(code as int)],
{
    let r = match code {
        0 => "0",
        1 => "1",
        2 => "2",
        3 => "3",
        4 => "4",
        5 => "5",
        6 => "6",
        7 => "7",
        8 => "8",
        9 => "9",
        10 => "b",
        11 => "c",
        12 => "d",
        13 => "e",
        14 => "f",
        15 => "g",
        16 => "h",
        17 => "j",
        18 => "k",
        19 => "m",
        20 => "n",
        21 => "p",
        22 => "q",
        23 => "r",
        24 => "s",
        25 => "t",
        26 => "u",
        27 => "v",
        28 => "w",
        29 => "x",
        30 => "y",
        _ => "z",
    };
    proof {
        reveal_strlit("0");
        reveal_strlit("1");
        reveal_strlit("2");
        reveal_strlit("3");
        reveal_strlit("4");
        reveal_strlit("5");
        reveal_strlit("6");
        reveal_strlit("7");
        reveal_strlit("8");
        reveal_strlit("9");
        reveal_strlit("b");
        reveal_strlit("c");
        reveal_strlit("d");
        reveal_strlit("e");
        reveal_strlit("f");
        reveal_strlit("g");
        reveal_strlit("h");
        reveal_strlit("j");
        reveal_strlit("k");
        reveal_strlit("m");
        reveal_strlit("n");
        reveal_strlit("p");
        reveal_strlit("q");
        reveal_strlit("r");
        reveal_strlit("s");
        reveal_strlit("t");
        reveal_strlit("u");
        reveal_strlit("v");
        reveal_strlit("w");
        reveal_strlit("x");
        reveal_strlit("y");
        reveal_strlit("z");
        assert(r@ =~= seq![spec_base32_char(code as int)]);
    }
    r
}

/// The base32 digit at position `i` of the interleaved value: the five bits
/// just below position `64 - 5i`.
pub open spec fn spec_geohash_code(interleaved: u64, i: int) -> int {
    ((interleaved >> ((59 - 5 * i) as u64)) & 0x1f) as int
}

/// Encodes the top `len` base32 digits of an interleaved value, most
/// significant first.
pub fn encode_interleaved(interleaved: u64, len: usize) -> (r: String)
    requires
        1 <= len <= 12,
    ensures
        r@.len() == len,
        forall|i: int|
            0 <= i < len ==> r@[i] == spec_base32_char(spec_geohash_code(interleaved, i)),
{
    let mut out = String::new();
    let mut i: usize = 0;
    while i < len
        invariant
            i <= len,
            len <= 12,
            out@.len() == i,
            forall|k: int|
                0 <= k < i ==> out@[k] == spec_base32_char(spec_geohash_code(interleaved, k)),
        decreases len - i,
    {
        let shift: u64 = 59 - 5 * (i as u64);
        let code = (interleaved >> shift) & 0x1f;
        assert(code < 32) by (bit_vector)
            requires
                code == (interleaved >> shift) & 0x1f,
        ;
        out.append(base32_char(code));
        i += 1;
    }
    out
}

} // verus!
