//! The picture that the drawing tool opens: an SVG template whose numbers
//! follow the canvas size. Coordinates are written as exact decimals: each is
//! an integer number of 800ths of a pixel, so at most five decimals appear.
use vstd::prelude::*;

verus! {

/// Where a coordinate is measured from.
#[derive(Clone, Copy, Debug, PartialEq, Eq, Structural)]
pub enum Origin {
    /// Zero: the value is a length.
    Zero,
    /// The horizontal center of the canvas.
    CenterX,
    /// The vertical center of the canvas.
    CenterY,
}

/// One piece of the picture's text.
#[derive(Clone, Copy, Debug)]
pub enum Piece {
    /// Fixed text.
    Text(&'static str),
    /// The canvas width.
    Width,
    /// The canvas height.
    Height,
    /// The origin plus `k` units, a unit being 1/800 of the shorter side.
    Plus(Origin, u16),
    /// The origin minus `k` units.
    Minus(Origin, u16),
}

/// The character of the digit `d`.
pub open spec fn digit(d: nat) -> char {
    if d == 0 {
        '0'
    } else if d == 1 {
        '1'
    } else if d == 2 {
        '2'
    } else if d == 3 {
        '3'
    } else if d == 4 {
        '4'
    } else if d == 5 {
        '5'
    } else if d == 6 {
        '6'
    } else if d == 7 {
        '7'
    } else if d == 8 {
        '8'
    } else {
        '9'
    }
}

/// Decimal digits of `n`, without leading zeros.
pub open spec fn decimal(n: nat) -> Seq<char>
    decreases n,
{
    if n < 10 {
        seq![digit(n)]
    } else {
        decimal(n / 10) + seq![digit(n % 10)]
    }
}

/// The last `len` decimal digits of `f`, with leading zeros.
pub open spec fn padded(f: nat, len: nat) -> Seq<char>
    decreases len,
{
    if len == 0 {
        Seq::empty()
    } else {
        padded(f / 10, (len - 1) as nat) + seq![digit(f % 10)]
    }
}

/// The last `len` decimal digits of `f`, with trailing zeros dropped.
pub open spec fn trimmed(f: nat, len: nat) -> Seq<char>
    decreases len,
{
    if len == 0 {
        Seq::empty()
    } else if f % 10 == 0 {
        trimmed(f / 10, (len - 1) as nat)
    } else {
        padded(f, len)
    }
}

/// The decimal text of `v / 800`: the integer part, then the fraction
/// without trailing zeros when there is one.
pub open spec fn fixed(v: nat) -> Seq<char> {
    decimal(v / 800) + if v % 800 == 0 {
        Seq::empty()
    } else {
        seq!['.'] + trimmed((v % 800) * 125, 5)
    }
}

/// The decimal text of `v / 800`, signed.
pub open spec fn signed(v: int) -> Seq<char> {
    if v < 0 {
        seq!['-'] + fixed((-v) as nat)
    } else {
        fixed(v as nat)
    }
}

/// An origin, in 800ths of a pixel.
pub open spec fn origin_value(o: Origin, w: nat, h: nat) -> int {
    match o {
        Origin::Zero => 0int,
        Origin::CenterX => 400 * (w as int),
        Origin::CenterY => 400 * (h as int),
    }
}

/// The shorter side of the canvas.
pub open spec fn shorter(w: nat, h: nat) -> nat {
    if w < h {
        w
    } else {
        h
    }
}

/// The text of one piece on a `w` by `h` canvas.
pub open spec fn piece_text(p: Piece, w: nat, h: nat) -> Seq<char> {
    match p {
        Piece::Text(t) => t@,
        Piece::Width => decimal(w),
        Piece::Height => decimal(h),
        Piece::Plus(o, k) => signed(origin_value(o, w, h) + k * shorter(w, h)),
        Piece::Minus(o, k) => signed(origin_value(o, w, h) - k * shorter(w, h)),
    }
}

/// The text of a sequence of pieces.
pub open spec fn render(ps: Seq<Piece>, w: nat, h: nat) -> Seq<char>
    decreases ps.len(),
{
    if ps.len() == 0 {
        Seq::empty()
    } else {
        render(ps.drop_last(), w, h) + piece_text(ps.last(), w, h)
    }
}

/// The picture, piece by piece.
pub open spec fn pikachu_pieces() -> Seq<Piece> {
    seq![
        Piece::Text("<?xml version=\"1.0\" encoding=\"UTF-8\"?>\n<svg width=\""),
        Piece::Width,
        Piece::Text("\" height=\""),
        Piece::Height,
        Piece::Text("\" xmlns=\"http://www.w3.org/2000/svg\">\n  <!-- 背景（白） -->\n  <rect width=\""),
        Piece::Width,
        Piece::Text("\" height=\""),
        Piece::Height,
        Piece::Text("\" fill=\"#FFFFFF\"/>\n  \n  <!-- 体（黄色の楕円） -->\n  <ellipse cx=\""),
        Piece::Plus(Origin::CenterX, 0),
        Piece::Text("\" cy=\""),
        Piece::Plus(Origin::CenterY, 50),
        Piece::Text("\" rx=\""),
        Piece::Plus(Origin::Zero, 180),
        Piece::Text("\" ry=\""),
        Piece::Plus(Origin::Zero, 200),
        Piece::Text("\" fill=\"#FFD700\" stroke=\"#000000\" stroke-width=\""),
        Piece::Plus(Origin::Zero, 3),
        Piece::Text("\"/>\n  \n  <!-- 頭（黄色の円） -->\n  <circle cx=\""),
        Piece::Plus(Origin::CenterX, 0),
        Piece::Text("\" cy=\""),
        Piece::Minus(Origin::CenterY, 80),
        Piece::Text("\" r=\""),
        Piece::Plus(Origin::Zero, 150),
        Piece::Text("\" fill=\"#FFD700\" stroke=\"#000000\" stroke-width=\""),
        Piece::Plus(Origin::Zero, 3),
        Piece::Text("\"/>\n  \n  <!-- 左耳（黄色の三角形） -->\n  <polygon points=\""),
        Piece::Minus(Origin::CenterX, 120),
        Piece::Text(","),
        Piece::Minus(Origin::CenterY, 180),
        Piece::Text(","),
        Piece::Minus(Origin::CenterX, 60),
        Piece::Text(","),
        Piece::Minus(Origin::CenterY, 250),
        Piece::Text(","),
        Piece::Minus(Origin::CenterX, 10),
        Piece::Text(","),
        Piece::Minus(Origin::CenterY, 200),
        Piece::Text("\" fill=\"#FFD700\" stroke=\"#000000\" stroke-width=\""),
        Piece::Plus(Origin::Zero, 3),
        Piece::Text("\"/>\n  <polygon points=\""),
        Piece::Minus(Origin::CenterX, 95),
        Piece::Text(","),
        Piece::Minus(Origin::CenterY, 210),
        Piece::Text(","),
        Piece::Minus(Origin::CenterX, 60),
        Piece::Text(","),
        Piece::Minus(Origin::CenterY, 250),
        Piece::Text(","),
        Piece::Minus(Origin::CenterX, 25),
        Piece::Text(","),
        Piece::Minus(Origin::CenterY, 210),
        Piece::Text("\" fill=\"#000000\"/>\n  \n  <!-- 右耳（黄色の三角形） -->\n  <polygon points=\""),
        Piece::Plus(Origin::CenterX, 120),
        Piece::Text(","),
        Piece::Minus(Origin::CenterY, 180),
        Piece::Text(","),
        Piece::Plus(Origin::CenterX, 60),
        Piece::Text(","),
        Piece::Minus(Origin::CenterY, 250),
        Piece::Text(","),
        Piece::Plus(Origin::CenterX, 10),
        Piece::Text(","),
        Piece::Minus(Origin::CenterY, 200),
        Piece::Text("\" fill=\"#FFD700\" stroke=\"#000000\" stroke-width=\""),
        Piece::Plus(Origin::Zero, 3),
        Piece::Text("\"/>\n  <polygon points=\""),
        Piece::Plus(Origin::CenterX, 95),
        Piece::Text(","),
        Piece::Minus(Origin::CenterY, 210),
        Piece::Text(","),
        Piece::Plus(Origin::CenterX, 60),
        Piece::Text(","),
        Piece::Minus(Origin::CenterY, 250),
        Piece::Text(","),
        Piece::Plus(Origin::CenterX, 25),
        Piece::Text(","),
        Piece::Minus(Origin::CenterY, 210),
        Piece::Text("\" fill=\"#000000\"/>\n  \n  <!-- 左目 -->\n  <circle cx=\""),
        Piece::Minus(Origin::CenterX, 50),
        Piece::Text("\" cy=\""),
        Piece::Minus(Origin::CenterY, 50),
        Piece::Text("\" r=\""),
        Piece::Plus(Origin::Zero, 40),
        Piece::Text("\" fill=\"#FFFFFF\" stroke=\"#000000\" stroke-width=\""),
        Piece::Plus(Origin::Zero, 3),
        Piece::Text("\"/>\n  <circle cx=\""),
        Piece::Minus(Origin::CenterX, 40),
        Piece::Text("\" cy=\""),
        Piece::Minus(Origin::CenterY, 50),
        Piece::Text("\" r=\""),
        Piece::Plus(Origin::Zero, 25),
        Piece::Text("\" fill=\"#000000\"/>\n  \n  <!-- 右目 -->\n  <circle cx=\""),
        Piece::Plus(Origin::CenterX, 50),
        Piece::Text("\" cy=\""),
        Piece::Minus(Origin::CenterY, 50),
        Piece::Text("\" r=\""),
        Piece::Plus(Origin::Zero, 40),
        Piece::Text("\" fill=\"#FFFFFF\" stroke=\"#000000\" stroke-width=\""),
        Piece::Plus(Origin::Zero, 3),
        Piece::Text("\"/>\n  <circle cx=\""),
        Piece::Plus(Origin::CenterX, 40),
        Piece::Text("\" cy=\""),
        Piece::Minus(Origin::CenterY, 50),
        Piece::Text("\" r=\""),
        Piece::Plus(Origin::Zero, 25),
        Piece::Text("\" fill=\"#000000\"/>\n  \n  <!-- 鼻（小さな黒い三角形） -->\n  <polygon points=\""),
        Piece::Plus(Origin::CenterX, 0),
        Piece::Text(","),
        Piece::Minus(Origin::CenterY, 10),
        Piece::Text(","),
        Piece::Minus(Origin::CenterX, 8),
        Piece::Text(","),
        Piece::Plus(Origin::CenterY, 5),
        Piece::Text(","),
        Piece::Plus(Origin::CenterX, 8),
        Piece::Text(","),
        Piece::Plus(Origin::CenterY, 5),
        Piece::Text("\" fill=\"#000000\"/>\n  \n  <!-- 口 -->\n  <path d=\"M "),
        Piece::Minus(Origin::CenterX, 30),
        Piece::Text(","),
        Piece::Plus(Origin::CenterY, 20),
        Piece::Text(" Q "),
        Piece::Plus(Origin::CenterX, 0),
        Piece::Text(","),
        Piece::Plus(Origin::CenterY, 50),
        Piece::Text(" "),
        Piece::Plus(Origin::CenterX, 30),
        Piece::Text(","),
        Piece::Plus(Origin::CenterY, 20),
        Piece::Text("\" stroke=\"#000000\" stroke-width=\""),
        Piece::Plus(Origin::Zero, 3),
        Piece::Text("\" fill=\"none\"/>\n  \n  <!-- ほっぺ（赤い円） -->\n  <circle cx=\""),
        Piece::Minus(Origin::CenterX, 130),
        Piece::Text("\" cy=\""),
        Piece::Plus(Origin::CenterY, 30),
        Piece::Text("\" r=\""),
        Piece::Plus(Origin::Zero, 25),
        Piece::Text("\" fill=\"#FF69B4\" opacity=\"0.8\"/>\n  <circle cx=\""),
        Piece::Plus(Origin::CenterX, 130),
        Piece::Text("\" cy=\""),
        Piece::Plus(Origin::CenterY, 30),
        Piece::Text("\" r=\""),
        Piece::Plus(Origin::Zero, 25),
        Piece::Text("\" fill=\"#FF69B4\" opacity=\"0.8\"/>\n  \n  <!-- 左手 -->\n  <ellipse cx=\""),
        Piece::Minus(Origin::CenterX, 180),
        Piece::Text("\" cy=\""),
        Piece::Plus(Origin::CenterY, 80),
        Piece::Text("\" rx=\""),
        Piece::Plus(Origin::Zero, 35),
        Piece::Text("\" ry=\""),
        Piece::Plus(Origin::Zero, 50),
        Piece::Text("\" fill=\"#FFD700\" stroke=\"#000000\" stroke-width=\""),
        Piece::Plus(Origin::Zero, 3),
        Piece::Text("\"/>\n  \n  <!-- 右手 -->\n  <ellipse cx=\""),
        Piece::Plus(Origin::CenterX, 180),
        Piece::Text("\" cy=\""),
        Piece::Plus(Origin::CenterY, 80),
        Piece::Text("\" rx=\""),
        Piece::Plus(Origin::Zero, 35),
        Piece::Text("\" ry=\""),
        Piece::Plus(Origin::Zero, 50),
        Piece::Text("\" fill=\"#FFD700\" stroke=\"#000000\" stroke-width=\""),
        Piece::Plus(Origin::Zero, 3),
        Piece::Text("\"/>\n  \n  <!-- 足（左） -->\n  <ellipse cx=\""),
        Piece::Minus(Origin::CenterX, 80),
        Piece::Text("\" cy=\""),
        Piece::Plus(Origin::CenterY, 220),
        Piece::Text("\" rx=\""),
        Piece::Plus(Origin::Zero, 40),
        Piece::Text("\" ry=\""),
        Piece::Plus(Origin::Zero, 60),
        Piece::Text("\" fill=\"#FFD700\" stroke=\"#000000\" stroke-width=\""),
        Piece::Plus(Origin::Zero, 3),
        Piece::Text("\"/>\n  \n  <!-- 足（右） -->\n  <ellipse cx=\""),
        Piece::Plus(Origin::CenterX, 80),
        Piece::Text("\" cy=\""),
        Piece::Plus(Origin::CenterY, 220),
        Piece::Text("\" rx=\""),
        Piece::Plus(Origin::Zero, 40),
        Piece::Text("\" ry=\""),
        Piece::Plus(Origin::Zero, 60),
        Piece::Text("\" fill=\"#FFD700\" stroke=\"#000000\" stroke-width=\""),
        Piece::Plus(Origin::Zero, 3),
        Piece::Text("\"/>\n  \n  <!-- しっぽ（曲がった黄色の形） -->\n  <path d=\"M "),
        Piece::Minus(Origin::CenterX, 180),
        Piece::Text(","),
        Piece::Plus(Origin::CenterY, 100),
        Piece::Text(" Q "),
        Piece::Minus(Origin::CenterX, 220),
        Piece::Text(","),
        Piece::Plus(Origin::CenterY, 50),
        Piece::Text(" "),
        Piece::Minus(Origin::CenterX, 200),
        Piece::Text(","),
        Piece::Minus(Origin::CenterY, 20),
        Piece::Text(" Q "),
        Piece::Minus(Origin::CenterX, 180),
        Piece::Text(","),
        Piece::Minus(Origin::CenterY, 50),
        Piece::Text(" "),
        Piece::Minus(Origin::CenterX, 150),
        Piece::Text(","),
        Piece::Minus(Origin::CenterY, 30),
        Piece::Text("\" fill=\"#FFD700\" stroke=\"#000000\" stroke-width=\""),
        Piece::Plus(Origin::Zero, 3),
        Piece::Text("\"/>\n</svg>"),
    ]
}

fn digit_text(d: u64) -> (r: &'static str)
    requires
        d < 10,
    ensures
        r@ == seq![digit(d as nat)],
{
    proof {
        reveal_strlit("0");
        reveal_strlit("1");
        reveal_strlit("2");
        reveal_strlit("3");
        reveal_strlit("4");
        reveal_strlit("5");
        reveal_strlit("6");
        reveal_strlit("7");
        reveal_strlit("8");
        reveal_strlit("9");
    }
    if d == 0 {
        "0"
    } else if d == 1 {
        "1"
    } else if d == 2 {
        "2"
    } else if d == 3 {
        "3"
    } else if d == 4 {
        "4"
    } else if d == 5 {
        "5"
    } else if d == 6 {
        "6"
    } else if d == 7 {
        "7"
    } else if d == 8 {
        "8"
    } else {
        "9"
    }
}

/// Decimal text of `n`.
pub fn decimal_text(n: u64) -> (r: String)
    ensures
        r@ == decimal(n as nat),
    decreases n,
{
    if n < 10 {
        String::from_str(digit_text(n))
    } else {
        decimal_text(n / 10).concat(digit_text(n % 10))
    }
}

fn padded_text(f: u64, len: u64) -> (r: String)
    ensures
        r@ == padded(f as nat, len as nat),
    decreases len,
{
    if len == 0 {
        String::new()
    } else {
        padded_text(f / 10, len - 1).concat(digit_text(f % 10))
    }
}

fn trimmed_text(f: u64, len: u64) -> (r: String)
    ensures
        r@ == trimmed(f as nat, len as nat),
    decreases len,
{
    if len == 0 {
        String::new()
    } else if f % 10 == 0 {
        trimmed_text(f / 10, len - 1)
    } else {
        padded_text(f, len)
    }
}

/// Decimal text of `v / 800`.
pub fn fixed_text(v: u64) -> (r: String)
    ensures
        r@ == fixed(v as nat),
{
    let whole = decimal_text(v / 800);
    if v % 800 == 0 {
        proof {
            assert(whole@ + Seq::<char>::empty() =~= whole@);
        }
        whole
    } else {
        proof {
            reveal_strlit(".");
        }
        let frac = String::from_str(".").concat(trimmed_text((v % 800) * 125, 5).as_str());
        whole.concat(frac.as_str())
    }
}

/// Decimal text of `v / 800`, signed.
pub fn signed_text(v: i64) -> (r: String)
    requires
        v > i64::MIN,
    ensures
        r@ == signed(v as int),
{
    if v < 0 {
        proof {
            reveal_strlit("-");
        }
        String::from_str("-").concat(fixed_text((-v) as u64).as_str())
    } else {
        fixed_text(v as u64)
    }
}

fn piece_value(p: Piece, w: u32, h: u32) -> (r: String)
    ensures
        r@ == piece_text(p, w as nat, h as nat),
{
    let m: i64 = if w < h {
        w as i64
    } else {
        h as i64
    };
    let base = |o: Origin| -> (b: i64)
        ensures
            b == origin_value(o, w as nat, h as nat),
            0 <= b <= 400 * 0xffff_ffff,
        {
            match o {
                Origin::Zero => 0,
                Origin::CenterX => 400 * (w as i64),
                Origin::CenterY => 400 * (h as i64),
            }
        };
    match p {
        Piece::Text(t) => String::from_str(t),
        Piece::Width => decimal_text(w as u64),
        Piece::Height => decimal_text(h as u64),
        Piece::Plus(o, k) => {
            let b = base(o);
            assert(0 <= (k as i64) * m <= 0xffff * 0xffff_ffff) by (nonlinear_arith)
                requires
                    0 <= m <= 0xffff_ffff,
                    0 <= k <= 0xffff,
            ;
            signed_text(b + (k as i64) * m)
        },
        Piece::Minus(o, k) => {
            let b = base(o);
            assert(0 <= (k as i64) * m <= 0xffff * 0xffff_ffff) by (nonlinear_arith)
                requires
                    0 <= m <= 0xffff_ffff,
                    0 <= k <= 0xffff,
            ;
            signed_text(b - (k as i64) * m)
        },
    }
}

/// The picture, piece by piece.
pub fn pieces() -> (r: Vec<Piece>)
    ensures
        r@ == pikachu_pieces(),
{
    let v = vec![
        Piece::Text("<?xml version=\"1.0\" encoding=\"UTF-8\"?>\n<svg width=\""),
        Piece::Width,
        Piece::Text("\" height=\""),
        Piece::Height,
        Piece::Text("\" xmlns=\"http://www.w3.org/2000/svg\">\n  <!-- 背景（白） -->\n  <rect width=\""),
        Piece::Width,
        Piece::Text("\" height=\""),
        Piece::Height,
        Piece::Text("\" fill=\"#FFFFFF\"/>\n  \n  <!-- 体（黄色の楕円） -->\n  <ellipse cx=\""),
        Piece::Plus(Origin::CenterX, 0),
        Piece::Text("\" cy=\""),
        Piece::Plus(Origin::CenterY, 50),
        Piece::Text("\" rx=\""),
        Piece::Plus(Origin::Zero, 180),
        Piece::Text("\" ry=\""),
        Piece::Plus(Origin::Zero, 200),
        Piece::Text("\" fill=\"#FFD700\" stroke=\"#000000\" stroke-width=\""),
        Piece::Plus(Origin::Zero, 3),
        Piece::Text("\"/>\n  \n  <!-- 頭（黄色の円） -->\n  <circle cx=\""),
        Piece::Plus(Origin::CenterX, 0),
        Piece::Text("\" cy=\""),
        Piece::Minus(Origin::CenterY, 80),
        Piece::Text("\" r=\""),
        Piece::Plus(Origin::Zero, 150),
        Piece::Text("\" fill=\"#FFD700\" stroke=\"#000000\" stroke-width=\""),
        Piece::Plus(Origin::Zero, 3),
        Piece::Text("\"/>\n  \n  <!-- 左耳（黄色の三角形） -->\n  <polygon points=\""),
        Piece::Minus(Origin::CenterX, 120),
        Piece::Text(","),
        Piece::Minus(Origin::CenterY, 180),
        Piece::Text(","),
        Piece::Minus(Origin::CenterX, 60),
        Piece::Text(","),
        Piece::Minus(Origin::CenterY, 250),
        Piece::Text(","),
        Piece::Minus(Origin::CenterX, 10),
        Piece::Text(","),
        Piece::Minus(Origin::CenterY, 200),
        Piece::Text("\" fill=\"#FFD700\" stroke=\"#000000\" stroke-width=\""),
        Piece::Plus(Origin::Zero, 3),
        Piece::Text("\"/>\n  <polygon points=\""),
        Piece::Minus(Origin::CenterX, 95),
        Piece::Text(","),
        Piece::Minus(Origin::CenterY, 210),
        Piece::Text(","),
        Piece::Minus(Origin::CenterX, 60),
        Piece::Text(","),
        Piece::Minus(Origin::CenterY, 250),
        Piece::Text(","),
        Piece::Minus(Origin::CenterX, 25),
        Piece::Text(","),
        Piece::Minus(Origin::CenterY, 210),
        Piece::Text("\" fill=\"#000000\"/>\n  \n  <!-- 右耳（黄色の三角形） -->\n  <polygon points=\""),
        Piece::Plus(Origin::CenterX, 120),
        Piece::Text(","),
        Piece::Minus(Origin::CenterY, 180),
        Piece::Text(","),
        Piece::Plus(Origin::CenterX, 60),
        Piece::Text(","),
        Piece::Minus(Origin::CenterY, 250),
        Piece::Text(","),
        Piece::Plus(Origin::CenterX, 10),
        Piece::Text(","),
        Piece::Minus(Origin::CenterY, 200),
        Piece::Text("\" fill=\"#FFD700\" stroke=\"#000000\" stroke-width=\""),
        Piece::Plus(Origin::Zero, 3),
        Piece::Text("\"/>\n  <polygon points=\""),
        Piece::Plus(Origin::CenterX, 95),
        Piece::Text(","),
        Piece::Minus(Origin::CenterY, 210),
        Piece::Text(","),
        Piece::Plus(Origin::CenterX, 60),
        Piece::Text(","),
        Piece::Minus(Origin::CenterY, 250),
        Piece::Text(","),
        Piece::Plus(Origin::CenterX, 25),
        Piece::Text(","),
        Piece::Minus(Origin::CenterY, 210),
        Piece::Text("\" fill=\"#000000\"/>\n  \n  <!-- 左目 -->\n  <circle cx=\""),
        Piece::Minus(Origin::CenterX, 50),
        Piece::Text("\" cy=\""),
        Piece::Minus(Origin::CenterY, 50),
        Piece::Text("\" r=\""),
        Piece::Plus(Origin::Zero, 40),
        Piece::Text("\" fill=\"#FFFFFF\" stroke=\"#000000\" stroke-width=\""),
        Piece::Plus(Origin::Zero, 3),
        Piece::Text("\"/>\n  <circle cx=\""),
        Piece::Minus(Origin::CenterX, 40),
        Piece::Text("\" cy=\""),
        Piece::Minus(Origin::CenterY, 50),
        Piece::Text("\" r=\""),
        Piece::Plus(Origin::Zero, 25),
        Piece::Text("\" fill=\"#000000\"/>\n  \n  <!-- 右目 -->\n  <circle cx=\""),
        Piece::Plus(Origin::CenterX, 50),
        Piece::Text("\" cy=\""),
        Piece::Minus(Origin::CenterY, 50),
        Piece::Text("\" r=\""),
        Piece::Plus(Origin::Zero, 40),
        Piece::Text("\" fill=\"#FFFFFF\" stroke=\"#000000\" stroke-width=\""),
        Piece::Plus(Origin::Zero, 3),
        Piece::Text("\"/>\n  <circle cx=\""),
        Piece::Plus(Origin::CenterX, 40),
        Piece::Text("\" cy=\""),
        Piece::Minus(Origin::CenterY, 50),
        Piece::Text("\" r=\""),
        Piece::Plus(Origin::Zero, 25),
        Piece::Text("\" fill=\"#000000\"/>\n  \n  <!-- 鼻（小さな黒い三角形） -->\n  <polygon points=\""),
        Piece::Plus(Origin::CenterX, 0),
        Piece::Text(","),
        Piece::Minus(Origin::CenterY, 10),
        Piece::Text(","),
        Piece::Minus(Origin::CenterX, 8),
        Piece::Text(","),
        Piece::Plus(Origin::CenterY, 5),
        Piece::Text(","),
        Piece::Plus(Origin::CenterX, 8),
        Piece::Text(","),
        Piece::Plus(Origin::CenterY, 5),
        Piece::Text("\" fill=\"#000000\"/>\n  \n  <!-- 口 -->\n  <path d=\"M "),
        Piece::Minus(Origin::CenterX, 30),
        Piece::Text(","),
        Piece::Plus(Origin::CenterY, 20),
        Piece::Text(" Q "),
        Piece::Plus(Origin::CenterX, 0),
        Piece::Text(","),
        Piece::Plus(Origin::CenterY, 50),
        Piece::Text(" "),
        Piece::Plus(Origin::CenterX, 30),
        Piece::Text(","),
        Piece::Plus(Origin::CenterY, 20),
        Piece::Text("\" stroke=\"#000000\" stroke-width=\""),
        Piece::Plus(Origin::Zero, 3),
        Piece::Text("\" fill=\"none\"/>\n  \n  <!-- ほっぺ（赤い円） -->\n  <circle cx=\""),
        Piece::Minus(Origin::CenterX, 130),
        Piece::Text("\" cy=\""),
        Piece::Plus(Origin::CenterY, 30),
        Piece::Text("\" r=\""),
        Piece::Plus(Origin::Zero, 25),
        Piece::Text("\" fill=\"#FF69B4\" opacity=\"0.8\"/>\n  <circle cx=\""),
        Piece::Plus(Origin::CenterX, 130),
        Piece::Text("\" cy=\""),
        Piece::Plus(Origin::CenterY, 30),
        Piece::Text("\" r=\""),
        Piece::Plus(Origin::Zero, 25),
        Piece::Text("\" fill=\"#FF69B4\" opacity=\"0.8\"/>\n  \n  <!-- 左手 -->\n  <ellipse cx=\""),
        Piece::Minus(Origin::CenterX, 180),
        Piece::Text("\" cy=\""),
        Piece::Plus(Origin::CenterY, 80),
        Piece::Text("\" rx=\""),
        Piece::Plus(Origin::Zero, 35),
        Piece::Text("\" ry=\""),
        Piece::Plus(Origin::Zero, 50),
        Piece::Text("\" fill=\"#FFD700\" stroke=\"#000000\" stroke-width=\""),
        Piece::Plus(Origin::Zero, 3),
        Piece::Text("\"/>\n  \n  <!-- 右手 -->\n  <ellipse cx=\""),
        Piece::Plus(Origin::CenterX, 180),
        Piece::Text("\" cy=\""),
        Piece::Plus(Origin::CenterY, 80),
        Piece::Text("\" rx=\""),
        Piece::Plus(Origin::Zero, 35),
        Piece::Text("\" ry=\""),
        Piece::Plus(Origin::Zero, 50),
        Piece::Text("\" fill=\"#FFD700\" stroke=\"#000000\" stroke-width=\""),
        Piece::Plus(Origin::Zero, 3),
        Piece::Text("\"/>\n  \n  <!-- 足（左） -->\n  <ellipse cx=\""),
        Piece::Minus(Origin::CenterX, 80),
        Piece::Text("\" cy=\""),
        Piece::Plus(Origin::CenterY, 220),
        Piece::Text("\" rx=\""),
        Piece::Plus(Origin::Zero, 40),
        Piece::Text("\" ry=\""),
        Piece::Plus(Origin::Zero, 60),
        Piece::Text("\" fill=\"#FFD700\" stroke=\"#000000\" stroke-width=\""),
        Piece::Plus(Origin::Zero, 3),
        Piece::Text("\"/>\n  \n  <!-- 足（右） -->\n  <ellipse cx=\""),
        Piece::Plus(Origin::CenterX, 80),
        Piece::Text("\" cy=\""),
        Piece::Plus(Origin::CenterY, 220),
        Piece::Text("\" rx=\""),
        Piece::Plus(Origin::Zero, 40),
        Piece::Text("\" ry=\""),
        Piece::Plus(Origin::Zero, 60),
        Piece::Text("\" fill=\"#FFD700\" stroke=\"#000000\" stroke-width=\""),
        Piece::Plus(Origin::Zero, 3),
        Piece::Text("\"/>\n  \n  <!-- しっぽ（曲がった黄色の形） -->\n  <path d=\"M "),
        Piece::Minus(Origin::CenterX, 180),
        Piece::Text(","),
        Piece::Plus(Origin::CenterY, 100),
        Piece::Text(" Q "),
        Piece::Minus(Origin::CenterX, 220),
        Piece::Text(","),
        Piece::Plus(Origin::CenterY, 50),
        Piece::Text(" "),
        Piece::Minus(Origin::CenterX, 200),
        Piece::Text(","),
        Piece::Minus(Origin::CenterY, 20),
        Piece::Text(" Q "),
        Piece::Minus(Origin::CenterX, 180),
        Piece::Text(","),
        Piece::Minus(Origin::CenterY, 50),
        Piece::Text(" "),
        Piece::Minus(Origin::CenterX, 150),
        Piece::Text(","),
        Piece::Minus(Origin::CenterY, 30),
        Piece::Text("\" fill=\"#FFD700\" stroke=\"#000000\" stroke-width=\""),
        Piece::Plus(Origin::Zero, 3),
        Piece::Text("\"/>\n</svg>"),
    ];
    assert(v@ =~= pikachu_pieces());
    v
}

/// The picture as SVG text for a `width` by `height` canvas.
pub fn generate_pikachu_svg(width: u32, height: u32) -> (r: String)
    ensures
        r@ == render(pikachu_pieces(), width as nat, height as nat),
{
    let ps = pieces();
    let mut out = String::new();
    let mut i: usize = 0;
    while i < ps.len()
        invariant
            ps@ == pikachu_pieces(),
            i <= ps@.len(),
            out@ == render(ps@.take(i as int), width as nat, height as nat),
        decreases ps@.len() - i,
    {
        let text = piece_value(ps[i], width, height);
        proof {
            assert(ps@.take(i + 1).drop_last() =~= ps@.take(i as int));
        }
        out = out.concat(text.as_str());
        i = i + 1;
    }
    proof {
        assert(ps@.take(i as int) =~= ps@);
    }
    out
}

} // verus!
