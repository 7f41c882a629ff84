//! String building blocks shared by the rest of the library: character
//! classes, trimming, truncation and decimal rendering of integers.

use vstd::prelude::*;
use vstd::string::*;
use vstd::utf8::encode_utf8;

verus! {

/// Appends one character to a `String` (`String::push`).
#[verifier::external_body]
pub(crate) fn push_char(s: &mut String, c: char)
    ensures
        final(s)@ == old(s)@.push(c),
{
    s.push(c);
}

/// Appends a string slice to a `String`.
pub(crate) fn push_str(s: &mut String, tail: &str)
    ensures
        final(s)@ == old(s)@ + tail@,
{
    s.append(tail);
}

/// Is `c` an ASCII letter or digit (`char::is_ascii_alphanumeric`).
pub open spec fn is_ascii_alnum(c: char) -> bool {
    ('0' <= c && c <= '9') || ('a' <= c && c <= 'z') || ('A' <= c && c <= 'Z')
}

pub fn char_is_ascii_alnum(c: char) -> (b: bool)
    ensures
        b == is_ascii_alnum(c),
{
    ('0' <= c && c <= '9') || ('a' <= c && c <= 'z') || ('A' <= c && c <= 'Z')
}

/// The upper-case letter of an ASCII lower-case letter, any other character
/// unchanged (`char::to_ascii_uppercase`).
pub open spec fn ascii_upper(c: char) -> char {
    if 'a' <= c && c <= 'z' {
        ((c as u32) - 32) as char
    } else {
        c
    }
}

pub fn char_to_ascii_upper(c: char) -> (u: char)
    ensures
        u == ascii_upper(c),
{
    if 'a' <= c && c <= 'z' {
        let code: u32 = (c as u32) - 32;
        assert(0x41 <= code <= 0x5a);
        char_from_ascii_code(code)
    } else {
        c
    }
}

/// The character with an ASCII code point.
fn char_from_ascii_code(code: u32) -> (c: char)
    requires
        code < 0x80,
    ensures
        c == code as char,
{
    let b: u8 = code as u8;
    b as char
}

/// Unicode `White_Space`, the set that `str::trim` removes.
pub open spec fn is_whitespace(c: char) -> bool {
    ||| ('\t' <= c && c <= '\r')
    ||| c == ' '
    ||| c == '\u{85}'
    ||| c == '\u{a0}'
    ||| c == '\u{1680}'
    ||| ('\u{2000}' <= c && c <= '\u{200a}')
    ||| c == '\u{2028}'
    ||| c == '\u{2029}'
    ||| c == '\u{202f}'
    ||| c == '\u{205f}'
    ||| c == '\u{3000}'
}

pub fn char_is_whitespace(c: char) -> (b: bool)
    ensures
        b == is_whitespace(c),
{
    ('\t' <= c && c <= '\r') || c == ' ' || c == '\u{85}' || c == '\u{a0}' || c == '\u{1680}'
        || ('\u{2000}' <= c && c <= '\u{200a}') || c == '\u{2028}' || c == '\u{2029}'
        || c == '\u{202f}' || c == '\u{205f}' || c == '\u{3000}'
}

/// Index of the first non-whitespace character at or after `i`.
pub open spec fn first_non_ws_from(s: Seq<char>, i: int) -> int
    decreases s.len() - i,
{
    if i < 0 || i >= s.len() {
        if i < 0 { 0 } else { s.len() as int }
    } else if is_whitespace(s[i]) {
        first_non_ws_from(s, i + 1)
    } else {
        i
    }
}

/// End of the text after dropping trailing whitespace from `s[lo..j]`.
pub open spec fn trimmed_end_from(s: Seq<char>, lo: int, j: int) -> int
    decreases j - lo,
{
    if j <= lo {
        lo
    } else if is_whitespace(s[j - 1]) {
        trimmed_end_from(s, lo, j - 1)
    } else {
        j
    }
}

/// `s` without leading and trailing whitespace (`str::trim`).
pub open spec fn trim(s: Seq<char>) -> Seq<char> {
    let lo = first_non_ws_from(s, 0);
    s.subrange(lo, trimmed_end_from(s, lo, s.len() as int))
}

proof fn lemma_first_non_ws_bounds(s: Seq<char>, i: int)
    requires
        0 <= i <= s.len(),
    ensures
        i <= first_non_ws_from(s, i) <= s.len(),
    decreases s.len() - i,
{
    if i < s.len() && is_whitespace(s[i]) {
        lemma_first_non_ws_bounds(s, i + 1);
    }
}

proof fn lemma_trimmed_end_bounds(s: Seq<char>, lo: int, j: int)
    requires
        0 <= lo <= j <= s.len(),
    ensures
        lo <= trimmed_end_from(s, lo, j) <= j,
    decreases j - lo,
{
    if j > lo && is_whitespace(s[j - 1]) {
        lemma_trimmed_end_bounds(s, lo, j - 1);
    }
}

/// Bounds of the trimmed text inside `s`.
pub proof fn lemma_trim_bounds(s: Seq<char>)
    ensures
        0 <= first_non_ws_from(s, 0) <= trimmed_end_from(s, first_non_ws_from(s, 0), s.len() as int)
            <= s.len(),
{
    lemma_first_non_ws_bounds(s, 0);
    lemma_trimmed_end_bounds(s, first_non_ws_from(s, 0), s.len() as int);
}

/// Copies `s[from..to]` into a new `String`.
pub fn substring(s: &str, from: usize, to: usize) -> (r: String)
    requires
        from <= to <= s@.len(),
    ensures
        r@ == s@.subrange(from as int, to as int),
{
    let mut r = String::new();
    let mut i = from;
    while i < to
        invariant
            from <= i <= to <= s@.len(),
            r@ == s@.subrange(from as int, i as int),
        decreases to - i,
    {
        let c = s.get_char(i);
        push_char(&mut r, c);
        assert(s@.subrange(from as int, i + 1) == s@.subrange(from as int, i as int).push(c));
        i += 1;
    }
    r
}

/// `s` without leading and trailing whitespace.
pub fn trim_str(s: &str) -> (r: String)
    ensures
        r@ == trim(s@),
{
    let n = s.unicode_len();
    let mut i: usize = 0;
    while i < n && char_is_whitespace(s.get_char(i))
        invariant
            n == s@.len(),
            i <= n,
            first_non_ws_from(s@, 0) == first_non_ws_from(s@, i as int),
        decreases n - i,
    {
        i += 1;
    }
    let mut j: usize = n;
    while j > i && char_is_whitespace(s.get_char(j - 1))
        invariant
            n == s@.len(),
            i <= j <= n,
            first_non_ws_from(s@, 0) == i,
            trimmed_end_from(s@, i as int, n as int) == trimmed_end_from(s@, i as int, j as int),
        decreases j - i,
    {
        j -= 1;
    }
    substring(s, i, j)
}

/// Is the text empty once trimmed (`s.trim().is_empty()`).
pub fn is_blank(s: &str) -> (b: bool)
    ensures
        b == (trim(s@).len() == 0),
{
    let t = trim_str(s);
    proof {
        lemma_trim_bounds(s@);
    }
    t.as_str().unicode_len() == 0
}

/// The first `n` characters of `s` (`s.chars().take(n)`).
pub open spec fn take_chars(s: Seq<char>, n: nat) -> Seq<char> {
    if n < s.len() {
        s.take(n as int)
    } else {
        s
    }
}

/// Appends at most the first `n` characters of `tail` to `s`.
pub fn push_prefix(s: &mut String, tail: &str, n: usize)
    ensures
        final(s)@ == old(s)@ + take_chars(tail@, n as nat),
{
    let len = tail.unicode_len();
    let stop = if n < len { n } else { len };
    let part = substring(tail, 0, stop);
    proof {
        assert(tail@.subrange(0, len as int) == tail@);
    }
    push_str(s, part.as_str());
}

/// Whole-text equality of two string slices.
pub fn str_eq(a: &str, b: &str) -> (r: bool)
    ensures
        r == (a@ == b@),
{
    let n = a.unicode_len();
    if n != b.unicode_len() {
        return false;
    }
    let mut i: usize = 0;
    while i < n
        invariant
            n == a@.len() == b@.len(),
            i <= n,
            forall|k: int| 0 <= k < i ==> a@[k] == b@[k],
        decreases n - i,
    {
        if a.get_char(i) != b.get_char(i) {
            return false;
        }
        i += 1;
    }
    assert(a@ =~= b@);
    true
}

/// Does `s` begin with `prefix`.
pub fn str_starts_with(s: &str, prefix: &str) -> (r: bool)
    ensures
        r == (prefix@.len() <= s@.len() && s@.take(prefix@.len() as int) == prefix@),
{
    let n = prefix.unicode_len();
    if n > s.unicode_len() {
        return false;
    }
    let mut i: usize = 0;
    while i < n
        invariant
            n == prefix@.len() <= s@.len(),
            i <= n,
            forall|k: int| 0 <= k < i ==> s@[k] == prefix@[k],
        decreases n - i,
    {
        if s.get_char(i) != prefix.get_char(i) {
            return false;
        }
        i += 1;
    }
    assert(s@.take(n as int) =~= prefix@);
    true
}

/// The character for a decimal digit.
pub open spec fn digit_char(d: nat) -> char {
    ((d + 48) as u32) as char
}

/// Decimal rendering of a natural number, without leading zeros.
pub open spec fn decimal(n: nat) -> Seq<char>
    decreases n,
{
    if n < 10 {
        seq![digit_char(n)]
    } else {
        decimal(n / 10).push(digit_char(n % 10))
    }
}

/// Decimal rendering of an integer, with a leading '-' when negative.
pub open spec fn signed_decimal(n: int) -> Seq<char> {
    if n < 0 {
        seq!['-'] + decimal((-n) as nat)
    } else {
        decimal(n as nat)
    }
}

fn digit(d: u64) -> (c: char)
    requires
        d < 10,
    ensures
        c == digit_char(d as nat),
{
    char_from_ascii_code((d + 48) as u32)
}

/// Appends the decimal rendering of `n`.
pub fn push_decimal(s: &mut String, n: u64)
    ensures
        final(s)@ == old(s)@ + decimal(n as nat),
    decreases n,
{
    if n >= 10 {
        push_decimal(s, n / 10);
    }
    push_char(s, digit(n % 10));
    proof {
        if n >= 10 {
            assert(decimal(n as nat) == decimal((n / 10) as nat).push(digit_char((n % 10) as nat)));
        }
    }
}

/// Appends the decimal rendering of a signed `n`.
pub fn push_signed_decimal(s: &mut String, n: i64)
    ensures
        final(s)@ == old(s)@ + signed_decimal(n as int),
{
    if n < 0 {
        push_char(s, '-');
        let magnitude: u64 = ((-(n + 1)) as u64) + 1;
        push_decimal(s, magnitude);
        proof {
            assert(old(s)@.push('-') + decimal(magnitude as nat) =~= old(s)@ + (seq!['-'] + decimal(
                magnitude as nat,
            )));
        }
    } else {
        push_decimal(s, n as u64);
    }
}

/// Upper-case hexadecimal digit.
pub open spec fn hex_char(d: nat) -> char {
    if d < 10 {
        digit_char(d)
    } else {
        ((d + 55) as u32) as char
    }
}

/// Two upper-case hexadecimal digits of a byte (`{:02X}`).
pub open spec fn hex2(b: u8) -> Seq<char> {
    seq![hex_char((b / 16) as nat), hex_char((b % 16) as nat)]
}

fn hex_digit(d: u8) -> (c: char)
    requires
        d < 16,
    ensures
        c == hex_char(d as nat),
{
    if d < 10 {
        digit(d as u64)
    } else {
        char_from_ascii_code((d as u32) + 55)
    }
}

/// Appends `{:02X}` of a byte.
pub fn push_hex2(s: &mut String, b: u8)
    ensures
        final(s)@ == old(s)@ + hex2(b),
{
    push_char(s, hex_digit(b / 16));
    push_char(s, hex_digit(b % 16));
    proof {
        assert(old(s)@.push(hex_char((b / 16) as nat)).push(hex_char((b % 16) as nat)) =~= old(s)@
            + hex2(b));
    }
}

/// Decimal rendering zero-padded to at least two digits (`{:02}`).
pub open spec fn decimal2(n: nat) -> Seq<char> {
    if n < 10 {
        seq!['0', digit_char(n)]
    } else {
        decimal(n)
    }
}

/// Appends `{:02}` of `n`.
pub fn push_decimal2(s: &mut String, n: u64)
    ensures
        final(s)@ == old(s)@ + decimal2(n as nat),
{
    if n < 10 {
        push_char(s, '0');
        push_char(s, digit(n));
        proof {
            assert(old(s)@.push('0').push(digit_char(n as nat)) =~= old(s)@ + seq![
                '0',
                digit_char(n as nat),
            ]);
        }
    } else {
        push_decimal(s, n);
    }
}

/// Number of bytes of the UTF-8 encoding of `s`.
pub open spec fn byte_len(s: Seq<char>) -> nat {
    encode_utf8(s).len()
}

/// Byte length of a `String` (`String::len`).
pub fn string_byte_len(s: &String) -> (n: usize)
    ensures
        n == byte_len(s@) as usize,
{
    s.as_str().len()
}

/// Byte length of a string slice (`str::len`).
pub fn str_byte_len(s: &str) -> (n: usize)
    ensures
        n as nat == byte_len(s@),
{
    let b = s.as_bytes();
    b.len()
}

/// A text buffer of `cap` bytes, holding `s`, asked to append `piece`: the
/// whole piece when it fits, nothing when it does not (the behaviour of a
/// fixed-capacity string such as `heapless::String::push_str`).
pub open spec fn capped_push(s: Seq<char>, piece: Seq<char>, cap: nat) -> Seq<char> {
    if byte_len(s) + byte_len(piece) <= cap {
        s + piece
    } else {
        s
    }
}

/// Formatting `pieces` into a buffer of `cap` bytes that holds `s`
/// (`core::fmt::write`): each piece is appended in turn, and writing stops at
/// the first piece that does not fit.
pub open spec fn capped_write(s: Seq<char>, pieces: Seq<Seq<char>>, cap: nat) -> Seq<char>
    decreases pieces.len(),
{
    if pieces.len() == 0 {
        s
    } else if byte_len(s) + byte_len(pieces[0]) <= cap {
        capped_write(s + pieces[0], pieces.drop_first(), cap)
    } else {
        s
    }
}

/// Pushing each of `chars` in turn into a buffer of `cap` bytes that holds
/// `s`, a character that does not fit being left out and the next still
/// tried (`heapless::String::push` in a loop whose failures are ignored).
pub open spec fn capped_chars(s: Seq<char>, chars: Seq<char>, cap: nat) -> Seq<char>
    decreases chars.len(),
{
    if chars.len() == 0 {
        s
    } else {
        capped_chars(capped_push(s, seq![chars[0]], cap), chars.drop_first(), cap)
    }
}

/// Appends `piece` to `s` when the result stays within `cap` bytes; returns
/// whether it did.
pub fn push_capped(s: &mut String, piece: &str, cap: usize) -> (fits: bool)
    ensures
        fits == (byte_len(old(s)@) + byte_len(piece@) <= cap),
        final(s)@ == capped_push(old(s)@, piece@, cap as nat),
{
    let used = str_byte_len(s.as_str());
    let need = str_byte_len(piece);
    if need <= cap && used <= cap - need {
        push_str(s, piece);
        true
    } else {
        false
    }
}

/// Appends `c` to `s` when the result stays within `cap` bytes.
pub fn push_char_capped(s: &mut String, c: char, cap: usize)
    ensures
        final(s)@ == capped_push(old(s)@, seq![c], cap as nat),
{
    let mut one = String::new();
    push_char(&mut one, c);
    assert(one@ =~= seq![c]);
    push_capped(s, one.as_str(), cap);
}

/// The texts of a list of pieces.
pub open spec fn pieces_view(v: Seq<String>) -> Seq<Seq<char>> {
    v.map_values(|p: String| p@)
}

/// Adds a piece to a list of pieces to format.
pub fn add_piece(pieces: &mut Vec<String>, piece: &str)
    ensures
        pieces_view(final(pieces)@) == pieces_view(old(pieces)@).push(piece@),
{
    pieces.push(piece.to_owned());
    assert(pieces_view(pieces@) =~= pieces_view(old(pieces)@).push(piece@));
}

/// The pieces `{}` writes for an unsigned integer: its digits.
pub fn add_decimal_piece(pieces: &mut Vec<String>, n: u64)
    ensures
        pieces_view(final(pieces)@) == pieces_view(old(pieces)@).push(decimal(n as nat)),
{
    let mut digits = String::new();
    push_decimal(&mut digits, n);
    assert(digits@ =~= decimal(n as nat));
    add_piece(pieces, digits.as_str());
}

/// The pieces `{:02}` writes for `n`: a padding '0' and the digit below ten,
/// the digits otherwise.
pub open spec fn decimal2_pieces(n: nat) -> Seq<Seq<char>> {
    if n < 10 {
        seq![seq!['0'], seq![digit_char(n)]]
    } else {
        seq![decimal(n)]
    }
}

pub fn add_decimal2_pieces(pieces: &mut Vec<String>, n: u64)
    ensures
        pieces_view(final(pieces)@) == pieces_view(old(pieces)@) + decimal2_pieces(n as nat),
{
    if n < 10 {
        let ghost before = pieces_view(pieces@);
        add_piece(pieces, "0");
        let mut d = String::new();
        push_char(&mut d, digit(n));
        assert(d@ =~= seq![digit_char(n as nat)]);
        add_piece(pieces, d.as_str());
        proof {
            reveal_strlit("0");
            assert("0"@ =~= seq!['0']);
            assert(before.push(seq!['0']).push(seq![digit_char(n as nat)]) =~= before + decimal2_pieces(
                n as nat,
            ));
        }
    } else {
        let ghost before = pieces_view(pieces@);
        add_decimal_piece(pieces, n);
        assert(before.push(decimal(n as nat)) =~= before + decimal2_pieces(n as nat));
    }
}

/// The pieces `{:02X}` writes for a byte: a padding '0' and the digit below
/// sixteen, both digits otherwise.
pub open spec fn hex2_pieces(b: u8) -> Seq<Seq<char>> {
    if b < 16 {
        seq![seq!['0'], seq![hex_char(b as nat)]]
    } else {
        seq![hex2(b)]
    }
}

pub fn add_hex2_pieces(pieces: &mut Vec<String>, b: u8)
    ensures
        pieces_view(final(pieces)@) == pieces_view(old(pieces)@) + hex2_pieces(b),
{
    let ghost before = pieces_view(pieces@);
    if b < 16 {
        add_piece(pieces, "0");
        let mut d = String::new();
        push_char(&mut d, hex_digit(b));
        assert(d@ =~= seq![hex_char(b as nat)]);
        add_piece(pieces, d.as_str());
        proof {
            reveal_strlit("0");
            assert("0"@ =~= seq!['0']);
            assert(before.push(seq!['0']).push(seq![hex_char(b as nat)]) =~= before + hex2_pieces(b));
        }
    } else {
        let mut d = String::new();
        push_hex2(&mut d, b);
        assert(d@ =~= hex2(b));
        add_piece(pieces, d.as_str());
        assert(before.push(hex2(b)) =~= before + hex2_pieces(b));
    }
}

/// The pieces `{}` writes for a signed integer: the sign, when negative, and
/// the digits.
pub open spec fn signed_pieces(n: int) -> Seq<Seq<char>> {
    if n < 0 {
        seq![seq!['-'], decimal((-n) as nat)]
    } else {
        seq![decimal(n as nat)]
    }
}

pub fn add_signed_pieces(pieces: &mut Vec<String>, n: i64)
    ensures
        pieces_view(final(pieces)@) == pieces_view(old(pieces)@) + signed_pieces(n as int),
{
    let ghost before = pieces_view(pieces@);
    if n < 0 {
        add_piece(pieces, "-");
        let magnitude: u64 = ((-(n + 1)) as u64) + 1;
        add_decimal_piece(pieces, magnitude);
        proof {
            reveal_strlit("-");
            assert("-"@ =~= seq!['-']);
            assert(before.push(seq!['-']).push(decimal(magnitude as nat)) =~= before + signed_pieces(
                n as int,
            ));
        }
    } else {
        add_decimal_piece(pieces, n as u64);
        assert(before.push(decimal(n as nat)) =~= before + signed_pieces(n as int));
    }
}

/// Formats `pieces` into `s` as a buffer of `cap` bytes does.
pub fn write_capped(s: &mut String, pieces: &Vec<String>, cap: usize)
    ensures
        final(s)@ == capped_write(old(s)@, pieces_view(pieces@), cap as nat),
{
    let ghost all = pieces_view(pieces@);
    assert(all.skip(0) =~= all);
    let mut i: usize = 0;
    while i < pieces.len()
        invariant
            all == pieces_view(pieces@),
            i <= pieces.len(),
            capped_write(old(s)@, all, cap as nat) == capped_write(s@, all.skip(i as int), cap as nat),
        decreases pieces.len() - i,
    {
        assert(all.skip(i as int).drop_first() =~= all.skip(i + 1));
        assert(all.skip(i as int)[0] == pieces@[i as int]@);
        if !push_capped(s, pieces[i].as_str(), cap) {
            return;
        }
        i += 1;
    }
    assert(all.skip(i as int) =~= Seq::<Seq<char>>::empty());
}

/// Pushes each of `chars` into `s` as a buffer of `cap` bytes does.
pub fn push_chars_capped(s: &mut String, chars: &str, cap: usize)
    ensures
        final(s)@ == capped_chars(old(s)@, chars@, cap as nat),
{
    let n = chars.unicode_len();
    assert(chars@.skip(0) =~= chars@);
    let mut i: usize = 0;
    while i < n
        invariant
            n == chars@.len(),
            i <= n,
            capped_chars(old(s)@, chars@, cap as nat) == capped_chars(s@, chars@.skip(i as int), cap as nat),
        decreases n - i,
    {
        assert(chars@.skip(i as int).drop_first() =~= chars@.skip(i + 1));
        push_char_capped(s, chars.get_char(i), cap);
        i += 1;
    }
    assert(chars@.skip(i as int) =~= Seq::<char>::empty());
}

/// Removes the last character of a `String`, if any (`String::pop`).
#[verifier::external_body]
pub(crate) fn pop_char(s: &mut String)
    ensures
        final(s)@ == if old(s)@.len() > 0 {
            old(s)@.drop_last()
        } else {
            old(s)@
        },
{
    s.pop();
}

/// Lower-case hexadecimal digit.
pub open spec fn hex_lower_char(d: nat) -> char {
    if d < 10 {
        digit_char(d)
    } else {
        ((d + 87) as u32) as char
    }
}

/// The last `n` lower-case hexadecimal digits of `v`, zero-padded.
pub open spec fn hex_lower(v: nat, n: nat) -> Seq<char>
    decreases n,
{
    if n == 0 {
        Seq::empty()
    } else {
        hex_lower(v / 16, (n - 1) as nat).push(hex_lower_char(v % 16))
    }
}

fn hex_lower_digit(d: u64) -> (c: char)
    requires
        d < 16,
    ensures
        c == hex_lower_char(d as nat),
{
    if d < 10 {
        digit(d)
    } else {
        char_from_ascii_code((d + 87) as u32)
    }
}

/// Appends the last `n` lower-case hexadecimal digits of `v`, zero-padded
/// (`{:0nx}` for a value below 16^n).
pub fn push_hex_lower(s: &mut String, v: u64, n: u64)
    ensures
        final(s)@ == old(s)@ + hex_lower(v as nat, n as nat),
    decreases n,
{
    if n == 0 {
        assert(old(s)@ + Seq::<char>::empty() =~= old(s)@);
        return;
    }
    push_hex_lower(s, v / 16, n - 1);
    push_char(s, hex_lower_digit(v % 16));
    proof {
        assert(hex_lower(v as nat, n as nat) == hex_lower((v / 16) as nat, (n - 1) as nat).push(
            hex_lower_char((v % 16) as nat),
        ));
    }
}

/// A `String` holding `s`.
pub fn owned(s: &str) -> (r: String)
    ensures
        r@ == s@,
{
    s.to_owned()
}

/// Does `s` begin with `prefix`.
pub open spec fn starts_with(s: Seq<char>, prefix: Seq<char>) -> bool {
    prefix.len() <= s.len() && s.take(prefix.len() as int) == prefix
}

/// The pieces of `s[start..]` between the occurrences of `sep`, found from
/// left to right without overlap, where the piece being read began at
/// `start` and the search stands at `i` (`str::split`).
pub open spec fn split_from(s: Seq<char>, sep: Seq<char>, start: int, i: int) -> Seq<Seq<char>>
    decreases s.len() - i,
{
    if sep.len() == 0 || i < start || start < 0 || i + sep.len() > s.len() {
        seq![s.subrange(start, s.len() as int)]
    } else if s.subrange(i, i + sep.len()) == sep {
        seq![s.subrange(start, i)] + split_from(s, sep, i + sep.len(), i + sep.len())
    } else {
        split_from(s, sep, start, i + 1)
    }
}

/// The pieces of `s` between the occurrences of `sep`.
pub open spec fn split(s: Seq<char>, sep: Seq<char>) -> Seq<Seq<char>> {
    split_from(s, sep, 0, 0)
}

fn matches_at(s: &str, n: usize, sep: &str, m: usize, i: usize) -> (r: bool)
    requires
        n == s@.len(),
        m == sep@.len(),
        i + m <= n,
    ensures
        r == (s@.subrange(i as int, i + m) == sep@),
{
    let mut k: usize = 0;
    while k < m
        invariant
            n == s@.len(),
            m == sep@.len(),
            i + m <= n,
            k <= m,
            forall|j: int| 0 <= j < k ==> s@[i + j] == sep@[j],
        decreases m - k,
    {
        if s.get_char(i + k) != sep.get_char(k) {
            assert(s@.subrange(i as int, i + m)[k as int] != sep@[k as int]);
            return false;
        }
        k += 1;
    }
    assert(s@.subrange(i as int, i + m) =~= sep@);
    true
}

/// The pieces of `s` between the occurrences of `sep` (`str::split`).
pub fn split_str(s: &str, sep: &str) -> (r: Vec<String>)
    requires
        sep@.len() > 0,
    ensures
        r@.map_values(|p: String| p@) == split(s@, sep@),
{
    let n = s.unicode_len();
    let m = sep.unicode_len();
    let mut parts: Vec<String> = Vec::new();
    let mut start: usize = 0;
    let mut i: usize = 0;
    while m <= n - i
        invariant
            n == s@.len(),
            m == sep@.len(),
            m > 0,
            start <= i <= n,
            parts@.map_values(|p: String| p@) + split_from(s@, sep@, start as int, i as int)
                == split(s@, sep@),
        decreases n - i,
    {
        if matches_at(s, n, sep, m, i) {
            let piece = substring(s, start, i);
            let ghost before = parts@.map_values(|p: String| p@);
            parts.push(piece);
            assert(parts@.map_values(|p: String| p@) =~= before.push(piece@));
            assert(before.push(piece@) + split_from(s@, sep@, (i + m) as int, (i + m) as int)
                =~= before + (seq![piece@] + split_from(s@, sep@, (i + m) as int, (i + m) as int)));
            start = i + m;
            i = i + m;
        } else {
            i += 1;
        }
    }
    let last = substring(s, start, n);
    let ghost before = parts@.map_values(|p: String| p@);
    parts.push(last);
    assert(parts@.map_values(|p: String| p@) =~= before + seq![last@]);
    parts
}

} // verus!
