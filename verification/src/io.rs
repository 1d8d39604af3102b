//! Pixel export helpers that are pure computation: choosing an image
//! format from a file name, clamping colors to a color depth, and encoding
//! a canvas as plain-text pixel data with its greedy 70-column line wrap.
use crate::canvas::{canvas_at, canvas_wf, Canvas};
use crate::color::Color;
use crate::number::{
    num_clip, num_mul, num_round, Number, HALF_SCALE, SCALE,
};
use crate::Error;
use vstd::arithmetic::div_mod::{
    lemma_div_is_ordered, lemma_div_pos_is_pos, lemma_fundamental_div_mod_converse,
};
use vstd::arithmetic::mul::lemma_mul_inequality;
use vstd::prelude::*;
use vstd::string::{StringExecFns, StringSliceAdditionalSpecFns};

verus! {

/// The encodings a canvas can be exported to.
#[derive(Clone, Copy, Debug, PartialEq, Eq, Structural)]
pub enum ImageFormat {
    PPM,
    PNG,
    JPG,
}

/// Whether the byte sequence ends with the four given bytes.
pub open spec fn has_suffix4(s: Seq<u8>, c0: u8, c1: u8, c2: u8, c3: u8) -> bool {
    &&& s.len() >= 4
    &&& s[s.len() - 4] == c0
    &&& s[s.len() - 3] == c1
    &&& s[s.len() - 2] == c2
    &&& s[s.len() - 1] == c3
}

/// The format a file name selects, by its suffix: `.ppm`, `.png` or
/// `.jpg`; none otherwise.
pub open spec fn spec_image_format(s: Seq<u8>) -> Option<ImageFormat> {
    if has_suffix4(s, 0x2e, 0x70, 0x70, 0x6d) {
        Some(ImageFormat::PPM)
    } else if has_suffix4(s, 0x2e, 0x70, 0x6e, 0x67) {
        Some(ImageFormat::PNG)
    } else if has_suffix4(s, 0x2e, 0x6a, 0x70, 0x67) {
        Some(ImageFormat::JPG)
    } else {
        None
    }
}

/// Picks the export format from a file name's suffix; rejected for any
/// other suffix.
pub fn derive_image_format(file_path: &str) -> (r: Result<ImageFormat, Error>)
    ensures
        r is Ok <==> spec_image_format(file_path.spec_bytes()) is Some,
        r matches Ok(f) ==> Some(f) == spec_image_format(file_path.spec_bytes()),
{
    let bytes = file_path.as_bytes();
    if ends_with4(bytes, 0x2e, 0x70, 0x70, 0x6d) {
        Ok(ImageFormat::PPM)
    } else if ends_with4(bytes, 0x2e, 0x70, 0x6e, 0x67) {
        Ok(ImageFormat::PNG)
    } else if ends_with4(bytes, 0x2e, 0x6a, 0x70, 0x67) {
        Ok(ImageFormat::JPG)
    } else {
        Err(Error::new("Unsupported image format"))
    }
}

/// Whether a byte slice ends with the four given bytes.
fn ends_with4(b: &[u8], c0: u8, c1: u8, c2: u8, c3: u8) -> (r: bool)
    ensures
        r == has_suffix4(b@, c0, c1, c2, c3),
{
    let n = b.len();
    if n < 4 {
        return false;
    }
    b[n - 4] == c0 && b[n - 3] == c1 && b[n - 2] == c2 && b[n - 1] == c3
}

/// A color component clamped and scaled to the color depth: values above
/// one saturate at the maximum, values at or below zero at zero, and the
/// rest round to the nearest step.
pub open spec fn scaled_of(v: int, max: int) -> int {
    if v > SCALE as int {
        max
    } else if v <= 0 {
        0
    } else {
        num_round(num_mul(v, num_clip(max * SCALE as int)))
    }
}

/// The component `k` (red, green, blue) of a color.
pub open spec fn comp_of(c: Color, k: int) -> int {
    if k == 0 {
        c.red@
    } else if k == 1 {
        c.green@
    } else {
        c.blue@
    }
}

/// The three components of a color, clamped and scaled to the color
/// depth.
pub fn color_to_scaled_rgb(color: &Color, max_color_value: u32) -> (r: Vec<u32>)
    ensures
        r@.len() == 3,
        r@[0] as int == scaled_of(comp_of(*color, 0), max_color_value as int),
        r@[1] as int == scaled_of(comp_of(*color, 1), max_color_value as int),
        r@[2] as int == scaled_of(comp_of(*color, 2), max_color_value as int),
{
    let mut ret: Vec<u32> = Vec::new();
    ret.push(scale_component(color.red, max_color_value));
    ret.push(scale_component(color.green, max_color_value));
    ret.push(scale_component(color.blue, max_color_value));
    ret
}

/// One component clamped and scaled to the color depth.
fn scale_component(v: Number, max: u32) -> (r: u32)
    ensures
        r as int == scaled_of(v@, max as int),
        r <= max,
{
    if v.gt(Number::one()) {
        max
    } else if v.le(Number::zero()) {
        0
    } else {
        let scaled = v.mul(Number::from_int(max as i64));
        proof {
            assert(max as int * SCALE as int <= i64::MAX as int) by (nonlinear_arith)
                requires
                    0 <= max as int <= 0xffff_ffff,
            ;
            assert(0 <= max as int * SCALE as int) by (nonlinear_arith)
                requires
                    0 <= max as int,
            ;
            let maxs = num_clip(max as int * SCALE as int);
            assert(maxs == max as int * SCALE as int);
            assert(0 <= v@ * maxs) by (nonlinear_arith)
                requires
                    0 <= v@ && 0 <= maxs,
            ;
            lemma_mul_inequality(v@, SCALE as int, maxs);
            lemma_div_pos_is_pos(v@ * maxs + HALF_SCALE as int, SCALE as int);
            lemma_div_is_ordered(
                v@ * maxs + HALF_SCALE as int,
                SCALE as int * maxs + HALF_SCALE as int,
                SCALE as int,
            );
            lemma_fundamental_div_mod_converse(
                SCALE as int * maxs + HALF_SCALE as int,
                SCALE as int,
                maxs,
                HALF_SCALE as int,
            );
            assert(num_mul(v@, maxs) == (v@ * maxs + HALF_SCALE as int) / (SCALE as int));
            lemma_div_pos_is_pos(num_mul(v@, maxs) + HALF_SCALE as int, SCALE as int);
            lemma_div_is_ordered(
                num_mul(v@, maxs) + HALF_SCALE as int,
                maxs + HALF_SCALE as int,
                SCALE as int,
            );
            lemma_fundamental_div_mod_converse(
                max as int * SCALE as int + HALF_SCALE as int,
                SCALE as int,
                max as int,
                HALF_SCALE as int,
            );
        }
        let rounded = scaled.round();
        rounded as u32
    }
}

/// The character of one decimal digit.
pub open spec fn digit_char(d: nat) -> char {
    if d == 0 {
        '0'
    } else if d == 1 {
        '1'
    } else if d == 2 {
        '2'
    } else if d == 3 {
        '3'
    } else if d == 4 {
        '4'
    } else if d == 5 {
        '5'
    } else if d == 6 {
        '6'
    } else if d == 7 {
        '7'
    } else if d == 8 {
        '8'
    } else {
        '9'
    }
}

/// The decimal digits of a whole number, most significant first.
pub open spec fn spec_digits(v: nat) -> Seq<char>
    decreases v,
{
    if v < 10 {
        seq![digit_char(v)]
    } else {
        spec_digits(v / 10) + seq![digit_char(v % 10)]
    }
}

/// One decimal digit as a string slice.
fn digit_str(d: u64) -> (r: &'static str)
    requires
        d < 10,
    ensures
        r@ == seq![digit_char(d as nat)],
{
    proof {
        reveal_strlit("0");
        reveal_strlit("1");
        reveal_strlit("2");
        reveal_strlit("3");
        reveal_strlit("4");
        reveal_strlit("5");
        reveal_strlit("6");
        reveal_strlit("7");
        reveal_strlit("8");
        reveal_strlit("9");
    }
    let r = if d == 0 {
        "0"
    } else if d == 1 {
        "1"
    } else if d == 2 {
        "2"
    } else if d == 3 {
        "3"
    } else if d == 4 {
        "4"
    } else if d == 5 {
        "5"
    } else if d == 6 {
        "6"
    } else if d == 7 {
        "7"
    } else if d == 8 {
        "8"
    } else {
        "9"
    };
    proof {
        assert(r@ =~= seq![digit_char(d as nat)]);
    }
    r
}

/// The decimal digits of a whole number as a string.
fn decimal_string(v: u64) -> (r: String)
    ensures
        r@ == spec_digits(v as nat),
    decreases v,
{
    if v < 10 {
        digit_str(v).to_owned()
    } else {
        let mut s = decimal_string(v / 10);
        s.append(digit_str(v % 10));
        s
    }
}

/// Powers of ten.
pub open spec fn pow10(d: nat) -> nat
    decreases d,
{
    if d == 0 {
        1
    } else {
        10 * pow10((d - 1) as nat)
    }
}

/// A number below the `d`-th power of ten has at most `d` digits.
proof fn lemma_digits_len_le(v: nat, d: nat)
    requires
        1 <= d,
        v < pow10(d),
    ensures
        spec_digits(v).len() <= d,
    decreases d,
{
    if v < 10 {
    } else {
        assert(d >= 2) by {
            if d == 1 {
                assert(pow10(1) == 10);
            }
        }
        assert(v / 10 < pow10((d - 1) as nat)) by (nonlinear_arith)
            requires
                v < pow10(d),
                pow10(d) == 10 * pow10((d - 1) as nat),
                v >= 10,
        ;
        lemma_digits_len_le(v / 10, (d - 1) as nat);
    }
}

/// The number of decimal digits of a whole number (at most twenty for a
/// 64-bit value).
fn decimal_len(v: u64) -> (n: usize)
    ensures
        n == spec_digits(v as nat).len(),
        n <= 20,
{
    let mut n: usize = 1;
    let mut tmp = v;
    while tmp >= 10
        invariant
            1 <= n,
            spec_digits(v as nat).len() == (n - 1) + spec_digits(tmp as nat).len(),
            n - 1 <= 19,
            spec_digits(tmp as nat).len() >= 1,
        decreases tmp,
    {
        proof {
            assert(spec_digits(tmp as nat).len() == spec_digits((tmp / 10) as nat).len() + 1);
            if n >= 20 {
                lemma_pow10_20();
                lemma_digits_len_le(v as nat, 20);
                assert(false);
            }
        }
        tmp = tmp / 10;
        n = n + 1;
    }
    proof {
        lemma_pow10_20();
        lemma_digits_len_le(v as nat, 20);
    }
    n
}

/// The twentieth power of ten exceeds every 64-bit value.
proof fn lemma_pow10_20()
    ensures
        pow10(20) > u64::MAX as nat,
{
    reveal_with_fuel(pow10, 21);
    assert(pow10(20) == 0x56bc75e2d63100000) by {
        reveal_with_fuel(pow10, 21);
    }
}

/// The plain-text header: the magic token, the dimensions and the color
/// depth, each line ended by a newline.
pub open spec fn spec_ppm_header(w: nat, h: nat, m: nat) -> Seq<char> {
    "P3\n"@ + spec_digits(w) + " "@ + spec_digits(h) + "\n"@ + spec_digits(m) + "\n"@
}

/// Encodes the header of a canvas at a color depth.
pub fn canvas_to_ppm_header(canvas: &Canvas, max_color_value: u32) -> (r: String)
    ensures
        r@ == spec_ppm_header(
            canvas.width as nat,
            canvas.height as nat,
            max_color_value as nat,
        ),
{
    let mut ret = String::new();
    ret.append("P3\n");
    let w = decimal_string(canvas.width() as u64);
    ret.append(w.as_str());
    ret.append(" ");
    let h = decimal_string(canvas.height() as u64);
    ret.append(h.as_str());
    ret.append("\n");
    let m = decimal_string(max_color_value as u64);
    ret.append(m.as_str());
    ret.append("\n");
    ret
}

/// The decimal token at position `ti` of a row: component `ti % 3` of
/// pixel `ti / 3`, scaled to the color depth.
pub open spec fn token_at(cv: Canvas, max: int, row: int, ti: int) -> Seq<char> {
    spec_digits(scaled_of(comp_of(canvas_at(cv, ti / 3, row), ti % 3), max) as nat)
}

/// The greedy wrap of one row's tokens from position `ti` on, with
/// `cur` the line assembled so far: a token joins the line when the line,
/// a space and the token fit in seventy columns, else the line is emitted.
pub open spec fn row_wrap(cv: Canvas, max: int, row: int, ti: int, cur: Seq<char>) -> Seq<char>
    decreases 3 * cv.width - ti,
{
    if !(0 <= ti < 3 * cv.width) {
        if cur.len() == 0 {
            Seq::empty()
        } else {
            cur + seq!['\n']
        }
    } else {
        let tok = token_at(cv, max, row, ti);
        if cur.len() + tok.len() + 1 <= 70 {
            row_wrap(
                cv,
                max,
                row,
                ti + 1,
                if cur.len() == 0 {
                    tok
                } else {
                    cur + seq![' '] + tok
                },
            )
        } else {
            cur + seq!['\n'] + row_wrap(cv, max, row, ti + 1, tok)
        }
    }
}

/// One row of pixel data, wrapped.
pub open spec fn spec_row_string(cv: Canvas, max: int, row: int) -> Seq<char> {
    row_wrap(cv, max, row, 0, Seq::empty())
}

/// The wrapped pixel data of the first `upto` rows.
pub open spec fn spec_ppm_rows(cv: Canvas, max: int, upto: int) -> Seq<char>
    decreases upto,
{
    if upto <= 0 {
        Seq::empty()
    } else {
        spec_ppm_rows(cv, max, upto - 1) + spec_row_string(cv, max, upto - 1)
    }
}

/// The wrapped pixel data of a whole canvas.
pub open spec fn spec_ppm_data(cv: Canvas, max: int) -> Seq<char> {
    spec_ppm_rows(cv, max, cv.height as int)
}

/// One greedy-wrap step: appends the decimal token for `v` to the current
/// line, or emits the line and starts a fresh one, exactly as the wrap
/// spec at token position `ti` states.
fn wrap_step(
    ret: &mut String,
    current_line: &mut String,
    cur_cols: usize,
    v: u32,
    Ghost(cv): Ghost<Canvas>,
    Ghost(max): Ghost<int>,
    Ghost(row): Ghost<int>,
    Ghost(ti): Ghost<int>,
) -> (new_cols: usize)
    requires
        cur_cols == old(current_line)@.len(),
        cur_cols <= 70,
        0 <= ti < 3 * cv.width,
        v as int == scaled_of(comp_of(canvas_at(cv, ti / 3, row), ti % 3), max),
    ensures
        new_cols == final(current_line)@.len(),
        new_cols <= 70,
        final(ret)@ + row_wrap(cv, max, row, ti + 1, final(current_line)@) == old(ret)@
            + row_wrap(cv, max, row, ti, old(current_line)@),
{
    let ghost cur0 = current_line@;
    let ghost ret0 = ret@;
    let tok = decimal_string(v as u64);
    let tok_len = decimal_len(v as u64);
    proof {
        assert(tok@ == token_at(cv, max, row, ti));
    }
    if cur_cols + tok_len + 1 <= 70 {
        let mut new_cols = cur_cols;
        if cur_cols != 0 {
            current_line.append(" ");
            new_cols = new_cols + 1;
            proof {
                reveal_strlit(" ");
                assert(" "@ =~= seq![' ']);
            }
        }
        current_line.append(tok.as_str());
        new_cols = new_cols + tok_len;
        proof {
            if cur0.len() == 0 {
                assert(current_line@ =~= tok@);
            } else {
                assert(current_line@ =~= cur0 + seq![' '] + tok@);
            }
            assert(row_wrap(cv, max, row, ti, cur0) == row_wrap(
                cv,
                max,
                row,
                ti + 1,
                current_line@,
            ));
        }
        new_cols
    } else {
        ret.append(current_line.as_str());
        ret.append("\n");
        proof {
            reveal_strlit("\n");
            assert("\n"@ =~= seq!['\n']);
            assert(ret@ =~= ret0 + (cur0 + seq!['\n']));
        }
        let mut line = tok;
        core_swap(current_line, &mut line);
        proof {
            assert(row_wrap(cv, max, row, ti, cur0) == cur0 + seq!['\n'] + row_wrap(
                cv,
                max,
                row,
                ti + 1,
                current_line@,
            ));
            assert(ret0 + (cur0 + seq!['\n'] + row_wrap(cv, max, row, ti + 1, current_line@))
                =~= ret@ + row_wrap(cv, max, row, ti + 1, current_line@));
        }
        tok_len
    }
}

/// Swaps two strings.
fn core_swap(a: &mut String, b: &mut String)
    ensures
        final(a)@ == old(b)@,
        final(b)@ == old(a)@,
{
    core::mem::swap(a, b)
}

/// Encodes the pixel data of a canvas at a color depth, wrapping lines
/// greedily at seventy columns and ending each row's data with a newline.
#[verifier::rlimit(100)]
pub fn canvas_to_ppm_data(canvas: &Canvas, max_color_value: u32) -> (r: String)
    requires
        canvas_wf(*canvas),
    ensures
        r@ == spec_ppm_data(*canvas, max_color_value as int),
{
    let ghost max = max_color_value as int;
    let mut ret = String::new();
    proof {
        assert(ret@ =~= spec_ppm_rows(*canvas, max, 0));
    }
    let mut row: usize = 0;
    while row < canvas.height()
        invariant
            max == max_color_value as int,
            canvas_wf(*canvas),
            0 <= row <= canvas.height,
            ret@ == spec_ppm_rows(*canvas, max, row as int),
        decreases canvas.height - row,
    {
        let mut current_line = String::new();
        let mut cur_cols: usize = 0;
        let ghost target = spec_ppm_rows(*canvas, max, row as int) + spec_row_string(
            *canvas,
            max,
            row as int,
        );
        proof {
            assert(current_line@ =~= Seq::<char>::empty());
        }
        let mut col: usize = 0;
        while col < canvas.width()
            invariant
                max == max_color_value as int,
                canvas_wf(*canvas),
                0 <= row < canvas.height,
                0 <= col <= canvas.width,
                cur_cols == current_line@.len(),
                cur_cols <= 70,
                target == spec_ppm_rows(*canvas, max, row as int) + spec_row_string(
                    *canvas,
                    max,
                    row as int,
                ),
                ret@ + row_wrap(*canvas, max, row as int, 3 * col as int, current_line@)
                    == target,
            decreases canvas.width - col,
        {
            let color = canvas.get_pixel(col, row);
            proof {
                assert(color == canvas_at(*canvas, col as int, row as int));
            }
            let scaled = color_to_scaled_rgb(&color, max_color_value);
            proof {
                assert(scaled@[0] as int == scaled_of(comp_of(color, 0), max));
                assert(scaled@[1] as int == scaled_of(comp_of(color, 1), max));
                assert(scaled@[2] as int == scaled_of(comp_of(color, 2), max));
            }
            let mut k: usize = 0;
            while k < 3
                invariant
                    max == max_color_value as int,
                    canvas_wf(*canvas),
                    0 <= row < canvas.height,
                    0 <= col < canvas.width,
                    0 <= k <= 3,
                    scaled@.len() == 3,
                    scaled@[0] as int == scaled_of(
                        comp_of(canvas_at(*canvas, col as int, row as int), 0),
                        max,
                    ),
                    scaled@[1] as int == scaled_of(
                        comp_of(canvas_at(*canvas, col as int, row as int), 1),
                        max,
                    ),
                    scaled@[2] as int == scaled_of(
                        comp_of(canvas_at(*canvas, col as int, row as int), 2),
                        max,
                    ),
                    cur_cols == current_line@.len(),
                    cur_cols <= 70,
                    target == spec_ppm_rows(*canvas, max, row as int) + spec_row_string(
                        *canvas,
                        max,
                        row as int,
                    ),
                    ret@ + row_wrap(
                        *canvas,
                        max,
                        row as int,
                        3 * col as int + k as int,
                        current_line@,
                    ) == target,
                decreases 3 - k,
            {
                let ghost ti = 3 * col as int + k as int;
                let v = scaled[k];
                proof {
                    assert(ti / 3 == col as int && ti % 3 == k as int) by (nonlinear_arith)
                        requires
                            ti == 3 * col as int + k as int,
                            0 <= k < 3,
                            0 <= col,
                    ;
                    assert(0 <= ti < 3 * canvas.width) by (nonlinear_arith)
                        requires
                            ti == 3 * col as int + k as int,
                            0 <= k < 3,
                            0 <= col < canvas.width as int,
                    ;
                }
                cur_cols = wrap_step(
                    &mut ret,
                    &mut current_line,
                    cur_cols,
                    v,
                    Ghost(*canvas),
                    Ghost(max),
                    Ghost(row as int),
                    Ghost(ti),
                );
                k = k + 1;
            }
            col = col + 1;
        }
        let ghost cur0 = current_line@;
        let ghost ret0 = ret@;
        proof {
            assert(3 * col as int == 3 * canvas.width);
            assert(row_wrap(*canvas, max, row as int, 3 * col as int, cur0) == if cur0.len()
                == 0 {
                Seq::<char>::empty()
            } else {
                cur0 + seq!['\n']
            });
        }
        if cur_cols != 0 {
            ret.append(current_line.as_str());
            ret.append("
");
            proof {
                reveal_strlit("\n");
                assert("\n"@ =~= seq!['\n']);
                assert(ret@ =~= ret0 + (cur0 + seq!['\n']));
            }
        } else {
            proof {
                assert(ret@ =~= ret0 + Seq::<char>::empty());
            }
        }
        proof {
            assert(spec_ppm_rows(*canvas, max, row as int + 1) == spec_ppm_rows(
                *canvas,
                max,
                row as int,
            ) + spec_row_string(*canvas, max, row as int));
            assert(ret@ == spec_ppm_rows(*canvas, max, row as int + 1));
        }
        row = row + 1;
    }
    ret
}

/// Encodes a whole canvas as plain text: the header, then the wrapped
/// pixel data, at a color depth of 255.
pub fn canvas_to_ppm(canvas: &Canvas) -> (r: String)
    requires
        canvas_wf(*canvas),
    ensures
        r@ == spec_ppm_header(canvas.width as nat, canvas.height as nat, 255) + spec_ppm_data(
            *canvas,
            255,
        ),
{
    let mut ret = canvas_to_ppm_header(canvas, 255);
    let data = canvas_to_ppm_data(canvas, 255);
    ret.append(data.as_str());
    ret
}

} // verus!
