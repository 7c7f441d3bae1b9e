//! Texts as they travel on the control channel: comparison, decimal numbers,
//! number literals and the first line of a reply.
use vstd::prelude::*;
use vstd::string::StringSliceAdditionalSpecFns;

verus! {

/// Whether `c` is one of the ten decimal digits.
pub open spec fn is_digit(c: char) -> bool {
    '0' <= c && c <= '9'
}

/// The number a decimal digit stands for; zero for any other character.
pub open spec fn digit_value(c: char) -> nat {
    if is_digit(c) {
        (c as int - '0' as int) as nat
    } else {
        0
    }
}

/// The decimal digit that stands for `d`, for `d` below ten.
pub open spec fn digit_char(d: nat) -> char {
    if d == 0 {
        '0'
    } else if d == 1 {
        '1'
    } else if d == 2 {
        '2'
    } else if d == 3 {
        '3'
    } else if d == 4 {
        '4'
    } else if d == 5 {
        '5'
    } else if d == 6 {
        '6'
    } else if d == 7 {
        '7'
    } else if d == 8 {
        '8'
    } else {
        '9'
    }
}

/// Whether every character of `s` is a decimal digit.
pub open spec fn all_digits(s: Seq<char>) -> bool {
    forall|i: int| 0 <= i < s.len() ==> is_digit(#[trigger] s[i])
}

/// The number that the digits of `s` spell, most significant digit first.
pub open spec fn digits_value(s: Seq<char>) -> nat
    decreases s.len(),
{
    if s.len() == 0 {
        0
    } else {
        digits_value(s.drop_last()) * 10 + digit_value(s.last())
    }
}

/// The shortest decimal spelling of `n`: no sign, no leading zero.
pub open spec fn decimal_text(n: nat) -> Seq<char>
    decreases n,
{
    if n < 10 {
        seq![digit_char(n)]
    } else {
        decimal_text(n / 10).push(digit_char(n % 10))
    }
}

/// What a run of digits means as an unsigned 64-bit number: at least one
/// character, digits only, and a value that fits.
pub open spec fn parse_unsigned(s: Seq<char>) -> Option<u64> {
    if s.len() > 0 && all_digits(s) && digits_value(s) <= u64::MAX {
        Some(digits_value(s) as u64)
    } else {
        None
    }
}

/// What a scalar reply means as an unsigned 64-bit number: a run of digits
/// that one `+` may precede.
pub open spec fn parse_scalar(s: Seq<char>) -> Option<u64> {
    if s.len() > 0 && s[0] == '+' {
        parse_unsigned(s.skip(1))
    } else {
        parse_unsigned(s)
    }
}

/// What a text means as a signed 64-bit number: a run of digits that one `-`
/// may precede, with a value that fits.
pub open spec fn parse_signed(s: Seq<char>) -> Option<i64> {
    if s.len() > 0 && s[0] == '-' {
        let digits = s.skip(1);
        if digits.len() > 0 && all_digits(digits) && digits_value(digits) <= 0x8000_0000_0000_0000 {
            Some((-(digits_value(digits) as int)) as i64)
        } else {
            None
        }
    } else if s.len() > 0 && all_digits(s) && digits_value(s) <= i64::MAX {
        Some(digits_value(s) as i64)
    } else {
        None
    }
}

/// The value of a prefix never exceeds the value of the whole run.
pub proof fn lemma_digits_value_prefix(s: Seq<char>, k: int)
    requires
        0 <= k <= s.len(),
    ensures
        digits_value(s.take(k)) <= digits_value(s),
    decreases s.len() - k,
{
    if k == s.len() {
        assert(s.take(k) =~= s);
    } else {
        lemma_digits_value_prefix(s, k + 1);
        assert(s.take(k + 1).drop_last() =~= s.take(k));
    }
}

/// The decimal spelling of a number is a run of digits whose value is the
/// number.
pub proof fn lemma_decimal_text_value(n: nat)
    ensures
        decimal_text(n).len() > 0,
        all_digits(decimal_text(n)),
        digits_value(decimal_text(n)) == n,
    decreases n,
{
    if n < 10 {
        let s = decimal_text(n);
        assert(s.drop_last() =~= Seq::<char>::empty());
        assert(digits_value(s.drop_last()) == 0);
    } else {
        lemma_decimal_text_value(n / 10);
        let s = decimal_text(n);
        assert(s.drop_last() =~= decimal_text(n / 10));
        assert(s.last() == digit_char(n % 10));
    }
}

/// Spelling a number in decimal and reading the spelling back gives the
/// number.
pub proof fn lemma_decimal_round_trip(n: u64)
    ensures
        parse_unsigned(decimal_text(n as nat)) == Some(n),
        parse_scalar(decimal_text(n as nat)) == Some(n),
{
    lemma_decimal_text_value(n as nat);
    assert(is_digit(decimal_text(n as nat)[0]));
}

/// Whether two texts hold the same characters.
pub fn same_text(a: &str, b: &str) -> (r: bool)
    ensures
        r == (a@ == b@),
{
    let x = a.as_bytes();
    let y = b.as_bytes();
    if x.len() != y.len() {
        return false;
    }
    let mut i: usize = 0;
    while i < x.len()
        invariant
            x.len() == y.len(),
            x@ == a.spec_bytes(),
            y@ == b.spec_bytes(),
            i <= x.len(),
            forall|k: int| 0 <= k < i ==> x@[k] == y@[k],
        decreases x.len() - i,
    {
        if x[i] != y[i] {
            return false;
        }
        i = i + 1;
    }
    proof {
        assert(x@ =~= y@);
        vstd::utf8::encode_utf8_decode_utf8(a@);
        vstd::utf8::encode_utf8_decode_utf8(b@);
    }
    true
}

/// The characters of `s`, one by one.
pub fn chars_of(s: &str) -> (r: Vec<char>)
    ensures
        r@ == s@,
{
    let mut out: Vec<char> = Vec::new();
    for c in it: s.chars()
        invariant
            it.seq() == s@,
            out@ == s@.take(it.index() as int),
    {
        out.push(c);
        assert(s@.take(it.index() + 1) =~= s@.take(it.index() as int).push(c));
    }
    assert(s@.take(s@.len() as int) =~= s@);
    out
}

/// Reads the digits of `chars` from position `from` on as an unsigned 64-bit
/// number.
fn read_digits(chars: &Vec<char>, from: usize) -> (r: Option<u64>)
    requires
        from <= chars.len(),
    ensures
        r == parse_unsigned(chars@.skip(from as int)),
{
    let ghost s = chars@.skip(from as int);
    let mut value: u64 = 0;
    let mut i: usize = from;
    while i < chars.len()
        invariant
            from <= i <= chars.len(),
            s == chars@.skip(from as int),
            all_digits(s.take(i - from)),
            value == digits_value(s.take(i - from)),
        decreases chars.len() - i,
    {
        let c = chars[i];
        if c < '0' || c > '9' {
            assert(!is_digit(s[i - from]));
            return None;
        }
        let d: u64 = (c as u32 - '0' as u32) as u64;
        proof {
            assert(s.take(i - from + 1).drop_last() =~= s.take(i - from));
            assert(s.take(i - from + 1).last() == c);
            lemma_digits_value_prefix(s, i - from + 1);
        }
        let shifted = match value.checked_mul(10) {
            Some(v) => v,
            None => {
                return None;
            },
        };
        value = match shifted.checked_add(d) {
            Some(v) => v,
            None => {
                return None;
            },
        };
        i = i + 1;
    }
    assert(s.take(i - from) =~= s);
    if i == from {
        None
    } else {
        Some(value)
    }
}

/// Reads a run of digits as an unsigned 64-bit number.
pub fn parse_u64(s: &str) -> (r: Option<u64>)
    ensures
        r == parse_unsigned(s@),
{
    let chars = chars_of(s);
    assert(chars@.skip(0) =~= chars@);
    read_digits(&chars, 0)
}

/// Reads a scalar reply: a run of digits that one `+` may precede.
pub fn parse_scalar_u64(s: &str) -> (r: Option<u64>)
    ensures
        r == parse_scalar(s@),
{
    let chars = chars_of(s);
    if chars.len() > 0 && chars[0] == '+' {
        read_digits(&chars, 1)
    } else {
        assert(chars@.skip(0) =~= chars@);
        read_digits(&chars, 0)
    }
}

/// Reads a run of digits that one `-` may precede as a signed 64-bit number.
pub fn parse_i64(s: &str) -> (r: Option<i64>)
    ensures
        r == parse_signed(s@),
{
    let chars = chars_of(s);
    if chars.len() > 0 && chars[0] == '-' {
        match read_digits(&chars, 1) {
            Some(v) => {
                if v <= 0x7fff_ffff_ffff_ffff {
                    Some(-(v as i64))
                } else if v == 0x8000_0000_0000_0000 {
                    Some(i64::MIN)
                } else {
                    None
                }
            },
            None => None,
        }
    } else {
        assert(chars@.skip(0) =~= chars@);
        match read_digits(&chars, 0) {
            Some(v) => {
                if v <= 0x7fff_ffff_ffff_ffff {
                    Some(v as i64)
                } else {
                    None
                }
            },
            None => None,
        }
    }
}

/// The digits of a number, least significant first, spelled most significant
/// first.
pub open spec fn spelled(digits: Seq<u64>) -> Seq<char> {
    Seq::new(digits.len(), |k: int| digit_char(digits[digits.len() - 1 - k] as nat))
}

fn digit_text(d: u64) -> (r: &'static str)
    requires
        d < 10,
    ensures
        r@ == seq![digit_char(d as nat)],
{
    proof {
        reveal_strlit("0");
        reveal_strlit("1");
        reveal_strlit("2");
        reveal_strlit("3");
        reveal_strlit("4");
        reveal_strlit("5");
        reveal_strlit("6");
        reveal_strlit("7");
        reveal_strlit("8");
        reveal_strlit("9");
    }
    let r = if d == 0 {
        "0"
    } else if d == 1 {
        "1"
    } else if d == 2 {
        "2"
    } else if d == 3 {
        "3"
    } else if d == 4 {
        "4"
    } else if d == 5 {
        "5"
    } else if d == 6 {
        "6"
    } else if d == 7 {
        "7"
    } else if d == 8 {
        "8"
    } else {
        "9"
    };
    assert(r@ =~= seq![digit_char(d as nat)]);
    r
}

/// Spells `n` in decimal.
pub fn decimal(n: u64) -> (r: String)
    ensures
        r@ == decimal_text(n as nat),
{
    let mut digits: Vec<u64> = Vec::new();
    let mut rest: u64 = n;
    assert(decimal_text(rest as nat) + spelled(digits@) =~= decimal_text(n as nat));
    while rest >= 10
        invariant
            decimal_text(n as nat) == decimal_text(rest as nat) + spelled(digits@),
            forall|k: int| 0 <= k < digits.len() ==> digits[k] < 10,
        decreases rest,
    {
        let ghost before = digits@;
        digits.push(rest % 10);
        proof {
            let c = digit_char((rest % 10) as nat);
            assert(spelled(digits@) =~= seq![c] + spelled(before));
            assert(decimal_text(rest as nat) == decimal_text((rest / 10) as nat).push(c));
            assert(decimal_text((rest / 10) as nat).push(c) + spelled(before) =~= decimal_text(
                (rest / 10) as nat,
            ) + (seq![c] + spelled(before)));
        }
        rest = rest / 10;
    }
    let ghost before = digits@;
    digits.push(rest);
    proof {
        assert(spelled(digits@) =~= seq![digit_char(rest as nat)] + spelled(before));
        assert(decimal_text(rest as nat) =~= seq![digit_char(rest as nat)]);
    }
    let mut out = String::new();
    let mut i: usize = digits.len();
    while i > 0
        invariant
            i <= digits.len(),
            forall|k: int| 0 <= k < digits.len() ==> digits[k] < 10,
            out@ == spelled(digits@).take(digits.len() - i),
        decreases i,
    {
        i = i - 1;
        out.append(digit_text(digits[i]));
        assert(out@ =~= spelled(digits@).take(digits.len() - i));
    }
    assert(spelled(digits@).take(digits.len() as int) =~= spelled(digits@));
    out
}

/// Whether `end` is where the first line of `text` stops: at the first line
/// feed, or at the end of a text that holds none.
pub open spec fn is_line_end(text: Seq<char>, end: int) -> bool {
    &&& 0 <= end <= text.len()
    &&& forall|k: int| 0 <= k < end ==> text[k] != '\n'
    &&& end < text.len() ==> text[end] == '\n'
}

/// Where the first line of `text` stops.
pub open spec fn line_end(text: Seq<char>) -> int {
    choose|end: int| is_line_end(text, end)
}

/// The first line of `text`, without its terminator: a line feed, or a
/// carriage return directly followed by one. A text of no characters has
/// no line; a carriage return that no line feed follows belongs to the line.
pub open spec fn first_line(text: Seq<char>) -> Option<Seq<char>> {
    if text.len() == 0 {
        None
    } else {
        let end = line_end(text);
        if 0 < end < text.len() && text[end - 1] == '\r' {
            Some(text.take(end - 1))
        } else {
            Some(text.take(end))
        }
    }
}

/// A text has one place where its first line stops.
pub proof fn lemma_line_end_is(text: Seq<char>, end: int)
    requires
        is_line_end(text, end),
    ensures
        line_end(text) == end,
{
    let chosen = line_end(text);
    assert(is_line_end(text, chosen));
    if chosen < end {
        assert(text[chosen] == '\n');
    } else if end < chosen {
        assert(text[end] == '\n');
    }
}

/// A text without a line feed is its own first line, unless it is empty.
pub proof fn lemma_single_line(text: Seq<char>)
    requires
        text.len() > 0,
        forall|k: int| 0 <= k < text.len() ==> text[k] != '\n',
    ensures
        first_line(text) == Some(text),
{
    lemma_line_end_is(text, text.len() as int);
    assert(text.take(text.len() as int) =~= text);
}

/// What follows the first line feed does not count: the first line of a
/// text is the first line of what it holds up to that line feed.
pub proof fn lemma_later_lines_ignored(line: Seq<char>, rest: Seq<char>)
    requires
        forall|k: int| 0 <= k < line.len() ==> line[k] != '\n',
    ensures
        first_line(line + seq!['\n'] + rest) == first_line(line + seq!['\n']),
        first_line(line + seq!['\n']) == if line.len() > 0 && line.last() == '\r' {
            Some(line.drop_last())
        } else {
            Some(line)
        },
{
    let short = line + seq!['\n'];
    let long = line + seq!['\n'] + rest;
    let end = line.len() as int;
    assert(is_line_end(short, end));
    assert(is_line_end(long, end));
    lemma_line_end_is(short, end);
    lemma_line_end_is(long, end);
    assert(short.take(end) =~= line);
    assert(long.take(end) =~= line);
    if end > 0 {
        assert(short.take(end - 1) =~= line.drop_last());
        assert(long.take(end - 1) =~= line.drop_last());
        assert(short[end - 1] == line.last());
        assert(long[end - 1] == line.last());
    }
}

/// The first line of `text`.
pub fn first_line_of(text: &str) -> (r: Option<String>)
    ensures
        match r {
            Some(line) => first_line(text@) == Some(line@),
            None => first_line(text@) is None,
        },
{
    let total = text.unicode_len();
    if total == 0 {
        return None;
    }
    let mut end: usize = 0;
    let mut after_return = false;
    for c in it: text.chars()
        invariant
            it.seq() == text@,
            total == text@.len(),
            end == it.index(),
            forall|k: int| 0 <= k < end ==> text@[k] != '\n',
            after_return == (end > 0 && text@[end - 1] == '\r'),
    {
        if c == '\n' {
            proof {
                lemma_line_end_is(text@, end as int);
            }
            let keep = if after_return {
                end - 1
            } else {
                end
            };
            return Some(text.substring_char(0, keep).to_owned());
        }
        after_return = c == '\r';
        end = end + 1;
    }
    proof {
        lemma_single_line(text@);
    }
    Some(text.to_owned())
}

/// The position after the longest run of digits of `s` that starts at `from`.
pub open spec fn digits_end(s: Seq<char>, from: int) -> int
    decreases s.len() - from,
{
    if 0 <= from < s.len() && is_digit(s[from]) {
        digits_end(s, from + 1)
    } else {
        from
    }
}

/// Whether `s` is a number as a structured document writes it: an optional
/// `-`; a whole part, which is `0` or starts with another digit; an optional
/// fraction of `.` and at least one digit; an optional exponent of `e` or `E`,
/// an optional sign and at least one digit.
pub open spec fn is_number_literal(s: Seq<char>) -> bool {
    let start = if s.len() > 0 && s[0] == '-' {
        1int
    } else {
        0int
    };
    let whole = digits_end(s, start);
    let fraction = if whole < s.len() && s[whole] == '.' {
        digits_end(s, whole + 1)
    } else {
        whole
    };
    let marked = fraction < s.len() && (s[fraction] == 'e' || s[fraction] == 'E');
    let signed = marked && fraction + 1 < s.len() && (s[fraction + 1] == '+' || s[fraction + 1]
        == '-');
    let exponent = if signed {
        fraction + 2
    } else if marked {
        fraction + 1
    } else {
        fraction
    };
    let end = if marked {
        digits_end(s, exponent)
    } else {
        fraction
    };
    &&& whole > start
    &&& s[start] == '0' ==> whole == start + 1
    &&& fraction > whole ==> fraction > whole + 1
    &&& marked ==> end > exponent
    &&& end == s.len()
}

fn skip_digits(chars: &Vec<char>, from: usize) -> (r: usize)
    requires
        from <= chars.len(),
    ensures
        r == digits_end(chars@, from as int),
        from <= r <= chars.len(),
{
    let mut i: usize = from;
    while i < chars.len() && chars[i] >= '0' && chars[i] <= '9'
        invariant
            from <= i <= chars.len(),
            digits_end(chars@, from as int) == digits_end(chars@, i as int),
        decreases chars.len() - i,
    {
        i = i + 1;
    }
    i
}

/// Whether `s` is a number as a structured document writes it.
pub fn number_literal(s: &str) -> (r: bool)
    ensures
        r == is_number_literal(s@),
{
    let chars = chars_of(s);
    let n = chars.len();
    let start: usize = if n > 0 && chars[0] == '-' {
        1
    } else {
        0
    };
    let whole = skip_digits(&chars, start);
    if whole == start {
        return false;
    }
    if chars[start] == '0' && whole != start + 1 {
        return false;
    }
    let mut fraction: usize = whole;
    if whole < n && chars[whole] == '.' {
        fraction = skip_digits(&chars, whole + 1);
        if fraction == whole + 1 {
            return false;
        }
    }
    if fraction < n && (chars[fraction] == 'e' || chars[fraction] == 'E') {
        let exponent: usize = if fraction + 1 < n && (chars[fraction + 1] == '+' || chars[fraction
            + 1] == '-') {
            fraction + 2
        } else {
            fraction + 1
        };
        let end = skip_digits(&chars, exponent);
        end > exponent && end == n
    } else {
        fraction == n
    }
}

} // verus!
