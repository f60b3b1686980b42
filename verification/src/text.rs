//! Plain text: decimal numbers, comparison, and case-insensitive search.
use vstd::prelude::*;

verus! {

/// The character of a decimal digit.
pub open spec fn digit_char(d: nat) -> char {
    (('0' as u32) + d) as char
}

/// The decimal notation of `n`, without leading zeros.
pub open spec fn digits(n: nat) -> Seq<char>
    decreases n,
{
    if n < 10 {
        seq![digit_char(n)]
    } else {
        digits(n / 10).push(digit_char(n % 10))
    }
}

/// The decimal notation of `i`, with a leading minus sign when it is negative.
pub open spec fn signed_digits(i: int) -> Seq<char> {
    if i < 0 {
        "-"@ + digits((-i) as nat)
    } else {
        digits(i as nat)
    }
}

/// `c` with an ASCII capital replaced by its small letter.
pub open spec fn ascii_lower(c: char) -> char {
    if 'A' <= c <= 'Z' {
        (c as u32 + 32) as char
    } else {
        c
    }
}

/// `s` with every ASCII capital replaced by its small letter.
pub open spec fn lowered(s: Seq<char>) -> Seq<char> {
    s.map_values(|c: char| ascii_lower(c))
}

/// `needle` stands at position `i` of `s`.
pub open spec fn stands_at(needle: Seq<char>, s: Seq<char>, i: int) -> bool {
    &&& 0 <= i
    &&& i + needle.len() <= s.len()
    &&& s.subrange(i, i + needle.len()) == needle
}

/// `needle` stands somewhere in `s`.
pub open spec fn occurs_in(needle: Seq<char>, s: Seq<char>) -> bool {
    exists|i: int| stands_at(needle, s, i)
}

/// The text of each element.
pub open spec fn texts(v: Seq<String>) -> Seq<Seq<char>> {
    v.map_values(|s: String| s@)
}

/// The text of an optional string.
pub open spec fn optional(s: Option<String>) -> Option<Seq<char>> {
    match s {
        Some(t) => Some(t@),
        None => None,
    }
}

/// The text of an optional borrowed string.
pub open spec fn optional_str(s: Option<&str>) -> Option<Seq<char>> {
    match s {
        Some(t) => Some(t@),
        None => None,
    }
}

/// Whether two texts are equal.
pub fn same(a: &str, b: &str) -> (r: bool)
    ensures
        r == (a@ == b@),
{
    a.to_string() == b.to_string()
}

fn digit(d: u64) -> (r: String)
    requires
        d < 10,
    ensures
        r@ == seq![digit_char(d as nat)],
{
    proof {
        reveal_strlit("0");
        reveal_strlit("1");
        reveal_strlit("2");
        reveal_strlit("3");
        reveal_strlit("4");
        reveal_strlit("5");
        reveal_strlit("6");
        reveal_strlit("7");
        reveal_strlit("8");
        reveal_strlit("9");
    }
    let s = if d == 0 {
        "0"
    } else if d == 1 {
        "1"
    } else if d == 2 {
        "2"
    } else if d == 3 {
        "3"
    } else if d == 4 {
        "4"
    } else if d == 5 {
        "5"
    } else if d == 6 {
        "6"
    } else if d == 7 {
        "7"
    } else if d == 8 {
        "8"
    } else {
        "9"
    };
    assert(s@ =~= seq![digit_char(d as nat)]);
    s.to_string()
}

/// The decimal notation of `n`.
pub fn decimal(n: u64) -> (r: String)
    ensures
        r@ == digits(n as nat),
    decreases n,
{
    if n < 10 {
        digit(n)
    } else {
        let last = digit(n % 10);
        let s = decimal(n / 10).concat(last.as_str());
        assert(s@ =~= digits((n / 10) as nat).push(digit_char((n % 10) as nat)));
        s
    }
}

/// The decimal notation of `i`, with a minus sign when it is negative.
pub fn signed_decimal(i: i32) -> (r: String)
    ensures
        r@ == signed_digits(i as int),
{
    if i < 0 {
        let magnitude: u64 = (-(i as i64)) as u64;
        let rest = decimal(magnitude);
        "-".to_string().concat(rest.as_str())
    } else {
        decimal(i as u64)
    }
}

/// The characters of `s`, with ASCII capitals replaced by small letters.
fn lowered_chars(s: &str) -> (r: Vec<char>)
    ensures
        r@ == lowered(s@),
{
    let mut out: Vec<char> = Vec::new();
    for c in it: s.chars()
        invariant
            it.seq() == s@,
            out@ == lowered(s@.take(it.index() as int)),
    {
        let low: char = if 'A' <= c && c <= 'Z' {
            ((c as u8) + 32) as char
        } else {
            c
        };
        proof {
            assert(s@.take(it.index() + 1) =~= s@.take(it.index() as int).push(c));
        }
        out.push(low);
    }
    proof {
        assert(s@.take(s@.len() as int) =~= s@);
    }
    out
}

/// The characters of `s`.
fn characters(s: &str) -> (r: Vec<char>)
    ensures
        r@ == s@,
{
    let mut out: Vec<char> = Vec::new();
    for c in it: s.chars()
        invariant
            it.seq() == s@,
            out@ == s@.take(it.index() as int),
    {
        out.push(c);
    }
    out
}

fn matches_at(needle: &Vec<char>, s: &Vec<char>, at: usize) -> (r: bool)
    requires
        at + needle@.len() <= s@.len(),
    ensures
        r == stands_at(needle@, s@, at as int),
{
    let end: usize = s.len();
    let mut j: usize = 0;
    while j < needle.len()
        invariant
            j <= needle@.len(),
            end == s@.len(),
            at + needle@.len() <= s@.len(),
            forall|k: int| 0 <= k < j ==> s@[at + k] == needle@[k],
        decreases needle@.len() - j,
    {
        if s[at + j] != needle[j] {
            assert(s@.subrange(at as int, at + needle@.len())[j as int] != needle@[j as int]);
            return false;
        }
        j += 1;
    }
    assert(s@.subrange(at as int, at + needle@.len()) =~= needle@);
    true
}

/// Whether `needle` stands somewhere in `s` once the ASCII capitals of `s` are
/// replaced by small letters.
pub fn contains_ignoring_case(s: &str, needle: &str) -> (r: bool)
    ensures
        r == occurs_in(needle@, lowered(s@)),
{
    let hay = lowered_chars(s);
    let pin = characters(needle);
    if pin.len() > hay.len() {
        return false;
    }
    let mut i: usize = 0;
    let last: usize = hay.len() - pin.len();
    while i <= last
        invariant
            hay@ == lowered(s@),
            pin@ == needle@,
            pin@.len() <= hay@.len(),
            last == hay@.len() - pin@.len(),
            i <= last + 1,
            forall|k: int| 0 <= k < i ==> !stands_at(pin@, hay@, k),
        decreases last + 1 - i,
    {
        if matches_at(&pin, &hay, i) {
            return true;
        }
        if i == last {
            return false;
        }
        i += 1;
    }
    false
}

/// The number that a row of decimal digits stands for.
pub open spec fn reading(s: Seq<char>) -> int
    decreases s.len(),
{
    if s.len() == 0 {
        0
    } else {
        10 * reading(s.drop_last()) + (s.last() as int - '0' as int)
    }
}

/// A decimal notation is made of digits alone, reads as its number, and has no leading
/// zero. There is one such notation of each number.
pub proof fn law_decimal_reads_back(n: nat)
    ensures
        reading(digits(n)) == n,
        digits(n).len() > 0,
        forall|i: int| 0 <= i < digits(n).len() ==> '0' <= #[trigger] digits(n)[i] <= '9',
        digits(n)[0] == '0' ==> digits(n).len() == 1,
    decreases n,
{
    if n < 10 {
        assert(digits(n).drop_last() =~= Seq::<char>::empty());
        assert(reading(digits(n).drop_last()) == 0);
    } else {
        let front = digits(n / 10);
        law_decimal_reads_back(n / 10);
        assert(digits(n).drop_last() =~= front);
        assert(digits(n)[0] == front[0]);
        if front.len() == 1 {
            assert(front.drop_last() =~= Seq::<char>::empty());
            assert(reading(front.drop_last()) == 0);
        }
    }
}

/// A negative number is written as a minus sign before its magnitude, any other as it is.
pub proof fn law_signed_decimal_reads_back(i: int)
    ensures
        i < 0 ==> signed_digits(i)[0] == '-' && signed_digits(i).skip(1) == digits((-i) as nat)
            && reading(signed_digits(i).skip(1)) == -i,
        i >= 0 ==> signed_digits(i) == digits(i as nat) && reading(signed_digits(i)) == i,
{
    reveal_strlit("-");
    if i < 0 {
        law_decimal_reads_back((-i) as nat);
        assert(signed_digits(i).skip(1) =~= digits((-i) as nat));
    } else {
        law_decimal_reads_back(i as nat);
    }
}

/// Two characters are the same, or the first is the ASCII capital of the second.
pub open spec fn same_letter(c: char, low: char) -> bool {
    c == low && !('A' <= c <= 'Z') || ('A' <= c <= 'Z' && low as int == c as int + 32)
}

/// Lowering a text keeps its length, replaces each ASCII capital by its small letter, and
/// leaves every other character as it is.
pub proof fn law_only_ascii_capitals_are_lowered(s: Seq<char>)
    ensures
        lowered(s).len() == s.len(),
        forall|i: int| 0 <= i < s.len() ==> same_letter(s[i], #[trigger] lowered(s)[i]),
{
}

/// A text occurs in another exactly if the other is made of something, the text, and
/// something more.
pub proof fn law_occurring_text_splits_the_other(needle: Seq<char>, s: Seq<char>)
    ensures
        occurs_in(needle, s) <==> exists|before: Seq<char>, behind: Seq<char>|
            #[trigger] (before + needle + behind) == s,
{
    if occurs_in(needle, s) {
        let i = choose|i: int| stands_at(needle, s, i);
        let before = s.take(i);
        let behind = s.skip(i + needle.len());
        assert(before + s.subrange(i, i + needle.len()) + behind =~= s);
        assert(before + needle + behind == s);
    }
    if exists|before: Seq<char>, behind: Seq<char>| #[trigger] (before + needle + behind) == s {
        let (before, behind) = choose|before: Seq<char>, behind: Seq<char>|
            #[trigger] (before + needle + behind) == s;
        let i = before.len() as int;
        assert(s.subrange(i, i + needle.len()) =~= needle);
        assert(stands_at(needle, s, i));
    }
}

} // verus!
