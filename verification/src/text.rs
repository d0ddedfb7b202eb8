//! Numerals and small text operations that the log, the panel and the chat share.

use vstd::prelude::*;

verus! {

/// The digit of value `d`, upper case above nine.
pub open spec fn digit(d: nat) -> char {
    if d == 0 {
        '0'
    } else if d == 1 {
        '1'
    } else if d == 2 {
        '2'
    } else if d == 3 {
        '3'
    } else if d == 4 {
        '4'
    } else if d == 5 {
        '5'
    } else if d == 6 {
        '6'
    } else if d == 7 {
        '7'
    } else if d == 8 {
        '8'
    } else if d == 9 {
        '9'
    } else if d == 10 {
        'A'
    } else if d == 11 {
        'B'
    } else if d == 12 {
        'C'
    } else if d == 13 {
        'D'
    } else if d == 14 {
        'E'
    } else {
        'F'
    }
}

/// `n` written in `base`, padded with zeroes on the left to at least `width` digits.
pub open spec fn numeral(n: nat, base: nat, width: nat) -> Seq<char>
    recommends
        2 <= base <= 16,
    decreases n + width,
{
    if base < 2 || (n < base && width <= 1) {
        seq![digit(n)]
    } else {
        proof {
            assert(n / base <= n && (n > 0 ==> n / base < n)) by (nonlinear_arith)
                requires
                    base >= 2,
            ;
        }
        numeral(n / base, base, if width == 0 { 0 } else { (width - 1) as nat }).push(
            digit(n % base),
        )
    }
}

/// The digit of value `d` as a text of one character.
fn digit_text(d: u64) -> (r: &'static str)
    requires
        d < 16,
    ensures
        r@ == seq![digit(d as nat)],
{
    proof {
        reveal_strlit("0");
        reveal_strlit("1");
        reveal_strlit("2");
        reveal_strlit("3");
        reveal_strlit("4");
        reveal_strlit("5");
        reveal_strlit("6");
        reveal_strlit("7");
        reveal_strlit("8");
        reveal_strlit("9");
        reveal_strlit("A");
        reveal_strlit("B");
        reveal_strlit("C");
        reveal_strlit("D");
        reveal_strlit("E");
        reveal_strlit("F");
    }
    match d {
        0 => "0",
        1 => "1",
        2 => "2",
        3 => "3",
        4 => "4",
        5 => "5",
        6 => "6",
        7 => "7",
        8 => "8",
        9 => "9",
        10 => "A",
        11 => "B",
        12 => "C",
        13 => "D",
        14 => "E",
        _ => "F",
    }
}

/// Appends `n` in `base`, padded to `width` digits.
pub fn push_numeral(out: &mut String, n: u64, base: u64, width: u64)
    requires
        2 <= base <= 16,
    ensures
        final(out)@ == old(out)@ + numeral(n as nat, base as nat, width as nat),
    decreases n + width,
{
    if n < base && width <= 1 {
        out.append(digit_text(n));
    } else {
        let rest: u64 = if width == 0 { 0 } else { width - 1 };
        assert(n / base + rest < n + width && n % base < base) by (nonlinear_arith)
            requires
                2 <= base,
                n >= base || width > 1,
                rest == (if width == 0 { 0 } else { width - 1 }),
        ;
        push_numeral(out, n / base, base, rest);
        out.append(digit_text(n % base));
    }
}

/// Appends a signed number in decimal.
pub fn push_signed(out: &mut String, n: i64)
    ensures
        final(out)@ == old(out)@ + signed(n as int),
{
    proof {
        reveal_strlit("-");
    }
    if n < 0 {
        out.append("-");
        let m: u64 = (-(n as i128)) as u64;
        push_numeral(out, m, 10, 1);
        assert(out@ =~= old(out)@ + signed(n as int));
    } else {
        push_numeral(out, n as u64, 10, 1);
    }
}

/// `n` in decimal, with a minus sign where it is negative.
pub open spec fn signed(n: int) -> Seq<char> {
    if n < 0 {
        seq!['-'] + decimal((-n) as nat)
    } else {
        decimal(n as nat)
    }
}

/// `n` in decimal.
pub open spec fn decimal(n: nat) -> Seq<char> {
    numeral(n, 10, 1)
}

/// A number in decimal as a text of its own.
pub fn decimal_text(n: u64) -> (r: String)
    ensures
        r@ == decimal(n as nat),
{
    let mut out = String::new();
    push_numeral(&mut out, n, 10, 1);
    assert(out@ =~= decimal(n as nat));
    out
}

/// A text of its own with the same characters.
pub fn owned(s: &str) -> (r: String)
    ensures
        r@ == s@,
{
    s.to_string()
}

/// The characters of a text.
pub fn chars_of(s: &str) -> (r: Vec<char>)
    ensures
        r@ == s@,
{
    let mut out: Vec<char> = Vec::new();
    for c in it: s.chars()
        invariant
            it.seq() == s@,
            out@ == s@.take(it.index() as int),
    {
        out.push(c);
        assert(s@.take(it.index() as int).push(c) =~= s@.take(it.index() + 1));
    }
    assert(s@.take(s@.len() as int) =~= s@);
    out
}

/// The first position at or after `from` where `c` stands, or the end.
pub open spec fn find(s: Seq<char>, c: char, from: int) -> int
    decreases s.len() - from,
{
    if from >= s.len() || s[from] == c {
        from
    } else {
        find(s, c, from + 1)
    }
}

/// Where the part behind the last `c` before `end` begins.
pub open spec fn behind_last(s: Seq<char>, c: char, end: int) -> int
    decreases end,
{
    if end <= 0 || s[end - 1] == c {
        end
    } else {
        behind_last(s, c, end - 1)
    }
}

/// The characters that Unicode calls white space.
pub open spec fn is_white(c: char) -> bool {
    let v = c as int;
    ||| 0x09 <= v <= 0x0D
    ||| v == 0x20
    ||| v == 0x85
    ||| v == 0xA0
    ||| v == 0x1680
    ||| 0x2000 <= v <= 0x200A
    ||| v == 0x2028
    ||| v == 0x2029
    ||| v == 0x202F
    ||| v == 0x205F
    ||| v == 0x3000
}

/// `s` without white space at its beginning.
pub open spec fn trim_start(s: Seq<char>) -> Seq<char>
    decreases s.len(),
{
    if s.len() > 0 && is_white(s[0]) {
        trim_start(s.drop_first())
    } else {
        s
    }
}

/// `s` without white space at its end.
pub open spec fn trim_end(s: Seq<char>) -> Seq<char>
    decreases s.len(),
{
    if s.len() > 0 && is_white(s.last()) {
        trim_end(s.drop_last())
    } else {
        s
    }
}

/// The code of a character with the upper case of ASCII folded into the lower.
pub open spec fn fold(c: char) -> int {
    if 'A' <= c <= 'Z' {
        c as int + 32
    } else {
        c as int
    }
}

/// Whether two texts agree but for the case of ASCII letters.
pub open spec fn same_folded(a: Seq<char>, b: Seq<char>) -> bool {
    &&& a.len() == b.len()
    &&& forall|i: int| 0 <= i < a.len() ==> fold(#[trigger] a[i]) == fold(b[i])
}

fn white(c: char) -> (r: bool)
    ensures
        r == is_white(c),
{
    let v: u32 = c as u32;
    (0x09 <= v && v <= 0x0D) || v == 0x20 || v == 0x85 || v == 0xA0 || v == 0x1680 || (0x2000 <= v
        && v <= 0x200A) || v == 0x2028 || v == 0x2029 || v == 0x202F || v == 0x205F || v == 0x3000
}

fn folded(c: char) -> (r: u32)
    ensures
        r == fold(c),
{
    let v: u32 = c as u32;
    if 'A' <= c && c <= 'Z' {
        v + 32
    } else {
        v
    }
}

/// Whether the part of `full` before its first comma, trimmed, is `simple` but
/// for the case of ASCII letters.
pub open spec fn leads(full: Seq<char>, simple: Seq<char>) -> bool {
    same_folded(trim_end(trim_start(full.take(find(full, ',', 0)))), simple)
}

/// Decides [`leads`].
pub fn leads_with(full: &str, simple: &str) -> (r: bool)
    ensures
        r == leads(full@, simple@),
{
    let text = chars_of(full);
    let name = chars_of(simple);
    let mut end: usize = 0;
    while end < text.len() && text[end] != ','
        invariant
            end <= text.len(),
            find(text@, ',', end as int) == find(text@, ',', 0),
        decreases text.len() - end,
    {
        end = end + 1;
    }
    let ghost head = text@.take(end as int);
    assert(find(text@, ',', end as int) == end);
    let mut start: usize = 0;
    assert(head.skip(0) =~= head);
    while start < end && white(text[start])
        invariant
            start <= end <= text.len(),
            head == text@.take(end as int),
            trim_start(head.skip(start as int)) == trim_start(head),
        decreases end - start,
    {
        assert(head.skip(start as int).drop_first() =~= head.skip(start + 1));
        start = start + 1;
    }
    let ghost body = head.skip(start as int);
    assert(trim_start(head) == body);
    assert(body.take(body.len() as int) =~= body);
    while start < end && white(text[end - 1])
        invariant
            start <= end <= text.len(),
            head.len() <= text.len(),
            body == head.skip(start as int),
            end <= head.len(),
            head == text@.take(head.len() as int),
            trim_end(body.take(end - start)) == trim_end(body),
        decreases end - start,
    {
        assert(body.take(end - start).drop_last() =~= body.take(end - start - 1));
        end = end - 1;
    }
    let ghost kept = body.take(end - start);
    assert(trim_end(body) == kept);
    if end - start != name.len() {
        return false;
    }
    let mut i: usize = 0;
    while i < name.len()
        invariant
            start <= end <= text.len(),
            end - start == name.len(),
            i <= name.len(),
            kept == text@.subrange(start as int, end as int),
            kept == trim_end(trim_start(full@.take(find(full@, ',', 0)))),
            name@ == simple@,
            forall|j: int| 0 <= j < i ==> fold(#[trigger] kept[j]) == fold(name@[j]),
        decreases name.len() - i,
    {
        if folded(text[start + i]) != folded(name[i]) {
            assert(fold(kept[i as int]) != fold(name@[i as int]));
            return false;
        }
        i = i + 1;
    }
    true
}

/// What follows the last backslash of a path, or all of it where there is none.
pub open spec fn last_part(path: Seq<char>) -> Seq<char> {
    path.skip(behind_last(path, '\\', path.len() as int))
}

/// The part of a path behind its last backslash.
pub fn file_name(path: &str) -> (r: String)
    ensures
        r@ == last_part(path@),
{
    let text = chars_of(path);
    let mut start: usize = text.len();
    while start > 0 && text[start - 1] != '\\'
        invariant
            start <= text.len(),
            behind_last(text@, '\\', start as int) == behind_last(
                text@,
                '\\',
                text@.len() as int,
            ),
        decreases start,
    {
        start = start - 1;
    }
    let tail = path.substring_char(start, text.len());
    assert(tail@ =~= path@.skip(start as int));
    owned(tail)
}

/// Whether a text has no character.
pub fn is_empty(s: &str) -> (r: bool)
    ensures
        r == (s@.len() == 0),
{
    chars_of(s).len() == 0
}

} // verus!
