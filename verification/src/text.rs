//! Text of one display row: decimal numbers, padding, and the fixed-capacity
//! string that a row is built in.
use vstd::prelude::*;
use vstd::utf8::{encode_utf8, is_ascii_chars, is_ascii_chars_encode_utf8};

verus! {

/// The `heapless` string of fixed capacity; what it holds is named by [`line_text`].
#[verifier::external_type_specification]
#[verifier::external_body]
pub struct ExHeaplessString<const N: usize>(heapless::String<N>);

/// The characters that a 32-byte `heapless` string holds.
pub uninterp spec fn line_text(line: heapless::String<32>) -> Seq<char>;

/// Bytes that a display row can hold.
pub const LINE_CAPACITY: usize = 32;

/// `heapless::String::new`: the string starts out empty.
#[verifier::external_body]
pub(crate) fn new_line() -> (line: heapless::String<32>)
    ensures
        line_text(line) == Seq::<char>::empty(),
{
    heapless::String::new()
}

/// `heapless::String::push_str`: appends the whole text when its UTF-8 bytes
/// still fit beside those already there, and otherwise changes nothing and fails.
#[verifier::external_body]
fn push_str(line: &mut heapless::String<32>, text: &str) -> (result: Result<(), ()>)
    ensures
        result is Ok <==> encode_utf8(line_text(*old(line))).len() + encode_utf8(text@).len()
            <= LINE_CAPACITY,
        result is Ok ==> line_text(*final(line)) == line_text(*old(line)) + text@,
        result is Err ==> line_text(*final(line)) == line_text(*old(line)),
{
    line.push_str(text)
}

/// `heapless::String::push`: appends one character when its UTF-8 bytes still
/// fit, and otherwise changes nothing and fails.
#[verifier::external_body]
fn push_char(line: &mut heapless::String<32>, c: char) -> (result: Result<(), ()>)
    ensures
        result is Ok <==> encode_utf8(line_text(*old(line))).len() + encode_utf8(seq![c]).len()
            <= LINE_CAPACITY,
        result is Ok ==> line_text(*final(line)) == line_text(*old(line)).push(c),
        result is Err ==> line_text(*final(line)) == line_text(*old(line)),
{
    line.push(c)
}

/// `heapless::String::as_str`: the text that the string holds.
#[verifier::external_body]
pub(crate) fn as_str(line: &heapless::String<32>) -> (text: &str)
    ensures
        text@ == line_text(*line),
{
    line.as_str()
}

/// Decimal digit of `d`, for `d` in `0..10`.
pub open spec fn digit(d: nat) -> char {
    (48 + d) as char
}

/// Decimal numeral of a natural number, without leading zeros.
pub open spec fn decimal(n: nat) -> Seq<char>
    decreases n,
{
    if n < 10 {
        seq![digit(n)]
    } else {
        decimal(n / 10).push(digit(n % 10))
    }
}

/// Decimal numeral of an integer: a minus sign in front of a negative one.
pub open spec fn signed(n: int) -> Seq<char> {
    if n < 0 {
        seq!['-'] + decimal((-n) as nat)
    } else {
        decimal(n as nat)
    }
}

/// Decimal numeral of an integer with its sign always written.
pub open spec fn plus_signed(n: int) -> Seq<char> {
    if n < 0 {
        signed(n)
    } else {
        seq!['+'] + decimal(n as nat)
    }
}

/// `width` spaces.
pub open spec fn spaces(width: nat) -> Seq<char> {
    Seq::new(width, |i: int| ' ')
}

/// `text` moved to the right end of a field of `width` characters; a longer text
/// is kept whole.
pub open spec fn right(text: Seq<char>, width: nat) -> Seq<char> {
    if text.len() < width {
        spaces((width - text.len()) as nat) + text
    } else {
        text
    }
}

/// Whether a row holds ASCII text only and has room for `more` further characters.
pub open spec fn has_room(line: heapless::String<32>, more: nat) -> bool {
    &&& is_ascii_chars(line_text(line))
    &&& line_text(line).len() + more <= LINE_CAPACITY
}

/// Appends ASCII text that fits.
pub(crate) fn put(line: &mut heapless::String<32>, text: &str)
    requires
        is_ascii_chars(text@),
        has_room(*old(line), text@.len()),
    ensures
        line_text(*final(line)) == line_text(*old(line)) + text@,
        is_ascii_chars(line_text(*final(line))),
{
    proof {
        is_ascii_chars_encode_utf8(line_text(*line));
        is_ascii_chars_encode_utf8(text@);
    }
    let _ = push_str(line, text);
}

/// Appends one ASCII character that fits.
pub(crate) fn put_char(line: &mut heapless::String<32>, c: char)
    requires
        c <= '\u{7f}',
        has_room(*old(line), 1),
    ensures
        line_text(*final(line)) == line_text(*old(line)).push(c),
        is_ascii_chars(line_text(*final(line))),
{
    proof {
        is_ascii_chars_encode_utf8(line_text(*line));
        is_ascii_chars_encode_utf8(seq![c]);
    }
    let _ = push_char(line, c);
}

/// Appends `width` spaces.
pub(crate) fn put_spaces(line: &mut heapless::String<32>, width: usize)
    requires
        has_room(*old(line), width as nat),
    ensures
        line_text(*final(line)) == line_text(*old(line)) + spaces(width as nat),
        is_ascii_chars(line_text(*final(line))),
{
    let ghost before = line_text(*line);
    let mut done: usize = 0;
    while done < width
        invariant
            done <= width,
            is_ascii_chars(line_text(*line)),
            line_text(*line) == before + spaces(done as nat),
            before.len() + width <= LINE_CAPACITY,
        decreases width - done,
    {
        put_char(line, ' ');
        done += 1;
        assert(line_text(*line) == before + spaces(done as nat));
    }
}

/// Appends the decimal numeral of `n`.
pub(crate) fn put_decimal(line: &mut heapless::String<32>, n: u32)
    requires
        has_room(*old(line), decimal(n as nat).len()),
    ensures
        line_text(*final(line)) == line_text(*old(line)) + decimal(n as nat),
        is_ascii_chars(line_text(*final(line))),
    decreases n,
{
    if n >= 10 {
        put_decimal(line, n / 10);
    }
    put_char(line, (48u8 + (n % 10) as u8) as char);
    assert(line_text(*line) == line_text(*old(line)) + decimal(n as nat));
}

/// Number of digits in the decimal numeral of `n`.
fn decimal_len(n: u32) -> (len: usize)
    ensures
        len == decimal(n as nat).len(),
        1 <= len <= 10,
{
    proof {
        lemma_decimal_len(n as nat);
    }
    let mut len: usize = 1;
    let mut rest: u32 = n;
    while rest >= 10
        invariant
            1 <= len,
            len + decimal(rest as nat).len() == 1 + decimal(n as nat).len(),
            decimal(n as nat).len() <= 10,
            1 <= decimal(rest as nat).len(),
        decreases rest,
    {
        rest = rest / 10;
        len += 1;
        proof {
            lemma_decimal_len(rest as nat);
        }
    }
    len
}

/// Appends `n` right-aligned in a field of `width` characters.
pub(crate) fn put_unsigned(line: &mut heapless::String<32>, n: u32, width: usize)
    requires
        has_room(*old(line), right(decimal(n as nat), width as nat).len()),
    ensures
        line_text(*final(line)) == line_text(*old(line)) + right(decimal(n as nat), width as nat),
        is_ascii_chars(line_text(*final(line))),
{
    let len: usize = decimal_len(n);
    if len < width {
        put_spaces(line, width - len);
    }
    put_decimal(line, n);
    assert(line_text(*line) == line_text(*old(line)) + right(decimal(n as nat), width as nat));
}

/// Appends `sign` and `magnitude`, together right-aligned in a field of `width` characters.
fn put_with_sign(line: &mut heapless::String<32>, sign: char, magnitude: u32, width: usize)
    requires
        sign <= '\u{7f}',
        has_room(
            *old(line),
            right(seq![sign] + decimal(magnitude as nat), width as nat).len(),
        ),
    ensures
        line_text(*final(line)) == line_text(*old(line)) + right(
            seq![sign] + decimal(magnitude as nat),
            width as nat,
        ),
        is_ascii_chars(line_text(*final(line))),
{
    let len: usize = decimal_len(magnitude) + 1;
    if len < width {
        put_spaces(line, width - len);
    }
    put_char(line, sign);
    put_decimal(line, magnitude);
    assert(line_text(*line) == line_text(*old(line)) + right(
        seq![sign] + decimal(magnitude as nat),
        width as nat,
    ));
}

/// Appends `n`, with a minus sign if it is negative, right-aligned in a field of
/// `width` characters.
pub(crate) fn put_signed(line: &mut heapless::String<32>, n: i16, width: usize)
    requires
        has_room(*old(line), right(signed(n as int), width as nat).len()),
    ensures
        line_text(*final(line)) == line_text(*old(line)) + right(signed(n as int), width as nat),
        is_ascii_chars(line_text(*final(line))),
{
    let wide: i32 = n as i32;
    if wide < 0 {
        put_with_sign(line, '-', (-wide) as u32, width);
    } else {
        put_unsigned(line, wide as u32, width);
    }
}

/// Appends `n`, with its sign in any case, right-aligned in a field of `width`
/// characters.
pub(crate) fn put_plus_signed(line: &mut heapless::String<32>, n: i16, width: usize)
    requires
        has_room(*old(line), right(plus_signed(n as int), width as nat).len()),
    ensures
        line_text(*final(line)) == line_text(*old(line)) + right(
            plus_signed(n as int),
            width as nat,
        ),
        is_ascii_chars(line_text(*final(line))),
{
    let wide: i32 = n as i32;
    if wide < 0 {
        put_with_sign(line, '-', (-wide) as u32, width);
    } else {
        put_with_sign(line, '+', wide as u32, width);
    }
}

/// How long a numeral can be.
pub(crate) proof fn lemma_decimal_len(n: nat)
    ensures
        1 <= decimal(n).len(),
        n < 0x1_0000_0000 ==> decimal(n).len() <= 10,
        n < 65536 ==> decimal(n).len() <= 5,
        n < 1000 ==> decimal(n).len() <= 3,
        n < 100 ==> decimal(n).len() <= 2,
{
    reveal_with_fuel(decimal, 11);
    assert(decimal(n).len() >= 1);
}

/// How long a numeral with a sign can be.
pub(crate) proof fn lemma_signed_len(n: int)
    ensures
        -65536 < n < 65536 ==> 1 <= signed(n).len() <= 6 && 2 <= plus_signed(n).len() <= 6,
        -1000 < n < 1000 ==> signed(n).len() <= 4 && plus_signed(n).len() <= 4,
{
    lemma_decimal_len(if n < 0 {
        (-n) as nat
    } else {
        n as nat
    });
}

} // verus!
