//! Text primitives shared by the other modules: line splitting and decimal
//! rendering of line numbers, each with the mathematical statement it meets.

use vstd::prelude::*;

verus! {

/// String-slice equality compares the characters of both slices.
pub assume_specification[ <str as PartialEq>::eq ](a: &str, b: &str) -> (res: bool)
    ensures
        res == (a@ == b@),
;

/// `String::push` appends one character.
pub assume_specification[ String::push ](s: &mut String, ch: char)
    ensures
        final(s)@ == old(s)@.push(ch),
;

/// The characters of each string of a sequence.
pub open spec fn string_views(v: Seq<String>) -> Seq<Seq<char>> {
    v.map_values(|s: String| s@)
}

/// A finished line loses the carriage return that preceded its newline.
pub open spec fn strip_cr(line: Seq<char>) -> Seq<char> {
    if line.len() > 0 && line.last() == '\r' {
        line.drop_last()
    } else {
        line
    }
}

/// Reading `text` left to right: the lines closed by a newline so far, and
/// the characters of the line that is still open.
pub open spec fn split_lines(text: Seq<char>) -> (Seq<Seq<char>>, Seq<char>)
    decreases text.len(),
{
    if text.len() == 0 {
        (seq![], seq![])
    } else {
        let (done, open) = split_lines(text.drop_last());
        if text.last() == '\n' {
            (done.push(strip_cr(open)), seq![])
        } else {
            (done, open.push(text.last()))
        }
    }
}

/// The lines of a text: split at `\n` or `\r\n`, without the line endings;
/// the final line ending is optional, so a text that ends in a newline has
/// no empty last line.
pub open spec fn lines_of(text: Seq<char>) -> Seq<Seq<char>> {
    let (done, open) = split_lines(text);
    if open.len() > 0 {
        done.push(open)
    } else {
        done
    }
}

/// Splits a text into its lines, as `str::lines` does.
pub fn split_into_lines(text: &str) -> (lines: Vec<String>)
    ensures
        string_views(lines@) == lines_of(text@),
{
    broadcast use vstd::string::group_string_axioms;

    let mut lines: Vec<String> = Vec::new();
    let mut open = String::new();
    let mut pending_cr = false;
    let ghost full = text@;
    for c in it: text.chars()
        invariant
            it.seq() == full,
            ({
                let (done, raw) = split_lines(full.take(it.index() as int));
                &&& string_views(lines@) == done
                &&& pending_cr == (raw.len() > 0 && raw.last() == '\r')
                &&& open@ == (if pending_cr { raw.drop_last() } else { raw })
            }),
    {
        let ghost i = it.index() as int;
        assert(full.take(i + 1).drop_last() == full.take(i));
        assert(full.take(i + 1).last() == c);
        let ghost prev_lines = lines@;
        if c == '\n' {
            lines.push(open);
            open = String::new();
            pending_cr = false;
            assert(string_views(lines@) == string_views(prev_lines).push(lines@.last()@));
        } else if c == '\r' {
            if pending_cr {
                open.push('\r');
            }
            pending_cr = true;
            assert(string_views(lines@) == string_views(prev_lines));
        } else {
            if pending_cr {
                open.push('\r');
            }
            open.push(c);
            pending_cr = false;
            assert(string_views(lines@) == string_views(prev_lines));
        }
    }
    assert(full.take(full.len() as int) == full);
    let ghost done = split_lines(full).0;
    let ghost raw = split_lines(full).1;
    if pending_cr {
        open.push('\r');
    }
    assert(open@ == raw);
    if !open.as_str().is_empty() {
        let ghost prev_lines = lines@;
        lines.push(open);
        assert(string_views(lines@) == string_views(prev_lines).push(raw));
    }
    lines
}

/// The ASCII digit for a value below ten.
pub open spec fn digit_char(d: nat) -> char
    recommends
        d < 10,
{
    (d + 48) as char
}

/// The decimal rendering of a natural number, most significant digit first,
/// with no leading zeros.
pub open spec fn decimal(n: nat) -> Seq<char>
    decreases n,
{
    if n < 10 {
        seq![digit_char(n)]
    } else {
        decimal(n / 10).push(digit_char(n % 10))
    }
}

/// A run of `count` spaces.
pub open spec fn spaces(count: nat) -> Seq<char> {
    Seq::new(count, |_i: int| ' ')
}

/// The rendering of `n` right-aligned in a field of `width` characters, as
/// `format!("{:>width$}", n)` gives it: left padding with spaces, and no
/// truncation when the number is wider than the field.
pub open spec fn right_aligned(n: nat, width: nat) -> Seq<char> {
    let digits = decimal(n);
    if digits.len() < width {
        spaces((width - digits.len()) as nat) + digits
    } else {
        digits
    }
}

fn digit(d: u32) -> (c: char)
    requires
        d < 10,
    ensures
        c == digit_char(d as nat),
{
    let b: u8 = (48 + d) as u8;
    b as char
}

/// The value of a base-10 numeral: each character counts for its distance
/// from `'0'`, most significant first.
pub open spec fn numeral_value(digits: Seq<char>) -> int
    decreases digits.len(),
{
    if digits.len() == 0 {
        0
    } else {
        numeral_value(digits.drop_last()) * 10 + (digits.last() as int - '0' as int)
    }
}

/// Whether every character of a text is an ASCII digit.
pub open spec fn all_digits(text: Seq<char>) -> bool {
    forall|i: int| 0 <= i < text.len() ==> '0' <= #[trigger] text[i] <= '9'
}

/// Ten to the power `k`.
pub open spec fn pow10(k: nat) -> nat
    decreases k,
{
    if k == 0 {
        1
    } else {
        10 * pow10((k - 1) as nat)
    }
}

/// The decimal rendering of `n` is its base-10 numeral: it is made of digits,
/// read in base 10 it gives back `n`, it has no leading zero, and it has as
/// many digits as `n` needs (`10^(len-1) <= n < 10^len`, or one digit for 0).
pub proof fn lemma_decimal_is_numeral(n: nat)
    ensures
        all_digits(decimal(n)),
        numeral_value(decimal(n)) == n,
        decimal(n).len() >= 1,
        decimal(n)[0] != '0' || n == 0,
        n < pow10(decimal(n).len()),
        n == 0 || pow10((decimal(n).len() - 1) as nat) <= n,
    decreases n,
{
    let d = decimal(n);
    if n < 10 {
        assert(d == seq![digit_char(n)]);
        assert(d.drop_last() == Seq::<char>::empty());
        assert(digit_char(n) as int == n + 48);
        assert(numeral_value(Seq::<char>::empty()) == 0);
        assert(pow10(1) == 10) by {
            assert(pow10(0) == 1);
        }
        assert(pow10(0) == 1);
    } else {
        let q = n / 10;
        let r = n % 10;
        lemma_decimal_is_numeral(q);
        let prefix = decimal(q);
        assert(d == prefix.push(digit_char(r)));
        assert(d.drop_last() == prefix);
        assert(digit_char(r) as int == r + 48);
        assert(numeral_value(d) == numeral_value(prefix) * 10 + r);
        assert(q * 10 + r == n);
        assert forall|i: int| 0 <= i < d.len() implies '0' <= #[trigger] d[i] <= '9' by {
            if i < prefix.len() {
                assert(d[i] == prefix[i]);
            }
        }
        assert(d[0] == prefix[0]);
        let k = prefix.len();
        assert(pow10(k + 1) == 10 * pow10(k));
        assert(pow10(k) == 10 * pow10((k - 1) as nat));
    }
}

/// Appends the decimal rendering of `n`.
pub fn push_decimal(s: &mut String, n: u32)
    ensures
        final(s)@ == old(s)@ + decimal(n as nat),
    decreases n,
{
    if n >= 10 {
        push_decimal(s, n / 10);
    }
    s.push(digit(n % 10));
}

/// The number of characters in the decimal rendering of `n`.
pub fn decimal_width(n: u32) -> (width: usize)
    ensures
        width == decimal(n as nat).len(),
        1 <= width <= n as int + 1,
    decreases n,
{
    if n < 10 {
        1
    } else {
        1 + decimal_width(n / 10)
    }
}

/// Appends `count` spaces.
pub fn push_spaces(s: &mut String, count: usize)
    ensures
        final(s)@ == old(s)@ + spaces(count as nat),
{
    let ghost start = s@;
    let mut i: usize = 0;
    while i < count
        invariant
            i <= count,
            s@ == start + spaces(i as nat),
        decreases count - i,
    {
        s.push(' ');
        i = i + 1;
        assert(spaces(i as nat) == spaces((i - 1) as nat).push(' '));
    }
}

/// Appends `n` right-aligned in a field of `width` characters.
pub fn push_right_aligned(s: &mut String, n: u32, width: usize)
    ensures
        final(s)@ == old(s)@ + right_aligned(n as nat, width as nat),
{
    let digits = decimal_width(n);
    if digits < width {
        push_spaces(s, width - digits);
    }
    push_decimal(s, n);
}

/// The number of newline characters in a text.
pub open spec fn newline_count(text: Seq<char>) -> nat
    decreases text.len(),
{
    if text.len() == 0 {
        0
    } else {
        newline_count(text.drop_last()) + if text.last() == '\n' { 1nat } else { 0nat }
    }
}

/// Newlines of a concatenation are those of its parts.
pub proof fn lemma_newline_count_concat(a: Seq<char>, b: Seq<char>)
    ensures
        newline_count(a + b) == newline_count(a) + newline_count(b),
    decreases b.len(),
{
    if b.len() == 0 {
        assert(a + b == a);
    } else {
        lemma_newline_count_concat(a, b.drop_last());
        assert((a + b).drop_last() == a + b.drop_last());
    }
}

/// A text without a newline character counts none.
pub proof fn lemma_newline_count_none(text: Seq<char>)
    requires
        !text.contains('\n'),
    ensures
        newline_count(text) == 0,
    decreases text.len(),
{
    if text.len() > 0 {
        assert(!text.drop_last().contains('\n')) by {
            if text.drop_last().contains('\n') {
                let i = choose|i: int| 0 <= i < text.drop_last().len() && text.drop_last()[i] == '\n';
                assert(text[i] == '\n');
            }
        }
        lemma_newline_count_none(text.drop_last());
        assert(text[text.len() - 1] != '\n');
    }
}

/// No line of a text holds a newline character.
pub proof fn lemma_lines_have_no_newline(text: Seq<char>)
    ensures
        forall|i: int| 0 <= i < lines_of(text).len() ==> !(#[trigger] lines_of(text)[i]).contains('\n'),
{
    lemma_split_lines_have_no_newline(text);
}

proof fn lemma_split_lines_have_no_newline(text: Seq<char>)
    ensures
        forall|i: int| 0 <= i < split_lines(text).0.len() ==> !(#[trigger] split_lines(text).0[i]).contains('\n'),
        !split_lines(text).1.contains('\n'),
    decreases text.len(),
{
    if text.len() > 0 {
        lemma_split_lines_have_no_newline(text.drop_last());
        let (done, open) = split_lines(text.drop_last());
        if text.last() == '\n' {
            assert(!strip_cr(open).contains('\n')) by {
                if strip_cr(open).contains('\n') {
                    let i = choose|i: int| 0 <= i < strip_cr(open).len() && strip_cr(open)[i] == '\n';
                    assert(open[i] == '\n');
                }
            }
            let done2 = done.push(strip_cr(open));
            assert forall|i: int| 0 <= i < done2.len() implies !(#[trigger] done2[i]).contains('\n') by {
                if i < done.len() {
                    assert(done2[i] == done[i]);
                }
            }
            assert(!Seq::<char>::empty().contains('\n'));
        } else {
            let open2 = open.push(text.last());
            assert(!open2.contains('\n')) by {
                if open2.contains('\n') {
                    let i = choose|i: int| 0 <= i < open2.len() && open2[i] == '\n';
                    if i < open.len() {
                        assert(open[i] == '\n');
                    }
                }
            }
        }
    }
}

/// A number rendered right-aligned holds no newline character.
pub proof fn lemma_right_aligned_no_newline(n: nat, width: nat)
    ensures
        !right_aligned(n, width).contains('\n'),
{
    lemma_decimal_no_newline(n);
    let digits = decimal(n);
    if digits.len() < width {
        let pad = spaces((width - digits.len()) as nat);
        let all = pad + digits;
        if all.contains('\n') {
            let i = choose|i: int| 0 <= i < all.len() && all[i] == '\n';
            if i >= pad.len() {
                assert(digits[i - pad.len()] == '\n');
            }
        }
    }
}

proof fn lemma_decimal_no_newline(n: nat)
    ensures
        !decimal(n).contains('\n'),
    decreases n,
{
    if n < 10 {
        assert(decimal(n)[0] == digit_char(n));
        assert(digit_char(n) != '\n');
    } else {
        lemma_decimal_no_newline(n / 10);
        let all = decimal(n / 10).push(digit_char(n % 10));
        assert(digit_char(n % 10) != '\n');
        if all.contains('\n') {
            let i = choose|i: int| 0 <= i < all.len() && all[i] == '\n';
            if i < decimal(n / 10).len() {
                assert(decimal(n / 10)[i] == '\n');
            }
        }
    }
}

/// A text with each newline written as a carriage return and a newline.
pub open spec fn with_crlf(text: Seq<char>) -> Seq<char>
    decreases text.len(),
{
    if text.len() == 0 {
        seq![]
    } else if text.last() == '\n' {
        with_crlf(text.drop_last()) + seq!['\r', '\n']
    } else {
        with_crlf(text.drop_last()).push(text.last())
    }
}

proof fn lemma_split_lines_crlf(text: Seq<char>)
    requires
        !text.contains('\r'),
    ensures
        split_lines(with_crlf(text)) == split_lines(text),
        !split_lines(text).1.contains('\r'),
    decreases text.len(),
{
    if text.len() > 0 {
        let prefix = text.drop_last();
        let c = text.last();
        assert(!prefix.contains('\r')) by {
            if prefix.contains('\r') {
                let i = choose|i: int| 0 <= i < prefix.len() && prefix[i] == '\r';
                assert(text[i] == '\r');
            }
        }
        assert(c != '\r') by {
            assert(text[text.len() - 1] == c);
        }
        lemma_split_lines_crlf(prefix);
        let w = with_crlf(prefix);
        let (done, open) = split_lines(prefix);
        if c == '\n' {
            let x = w + seq!['\r', '\n'];
            assert(x.drop_last() == w.push('\r'));
            assert(w.push('\r').drop_last() == w);
            assert(split_lines(w.push('\r')) == (done, open.push('\r')));
            assert(strip_cr(open.push('\r')) == open);
            if open.len() > 0 {
                assert(open[open.len() - 1] != '\r');
            }
            assert(strip_cr(open) == open);
            assert(!Seq::<char>::empty().contains('\r'));
        } else {
            assert(w.push(c).drop_last() == w);
            let open2 = open.push(c);
            assert(!open2.contains('\r')) by {
                if open2.contains('\r') {
                    let i = choose|i: int| 0 <= i < open2.len() && open2[i] == '\r';
                    if i < open.len() {
                        assert(open[i] == '\r');
                    }
                }
            }
        }
    }
}

/// A text without carriage returns has the same lines when its newlines are
/// written as carriage return and newline.
pub proof fn lemma_lines_of_crlf(text: Seq<char>)
    requires
        !text.contains('\r'),
    ensures
        lines_of(with_crlf(text)) == lines_of(text),
{
    lemma_split_lines_crlf(text);
}

} // verus!
