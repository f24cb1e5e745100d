//! The text model shared by every renderer: decimal numerals, SGR escape
//! sequences and substring search, each as a spec function on `Seq<char>`
//! with an executable counterpart proved against it.
use vstd::prelude::*;

verus! {

/// The character that stands for the decimal digit `d`.
pub open spec fn digit_char(d: int) -> char {
    if d == 0 {
        '0'
    } else if d == 1 {
        '1'
    } else if d == 2 {
        '2'
    } else if d == 3 {
        '3'
    } else if d == 4 {
        '4'
    } else if d == 5 {
        '5'
    } else if d == 6 {
        '6'
    } else if d == 7 {
        '7'
    } else if d == 8 {
        '8'
    } else {
        '9'
    }
}

/// The decimal numeral of `n`, most significant digit first, without
/// leading zeros.
pub open spec fn decimal(n: nat) -> Seq<char>
    decreases n,
{
    if n < 10 {
        seq![digit_char(n as int)]
    } else {
        decimal(n / 10).push(digit_char((n % 10) as int))
    }
}

/// The escape sequence that switches a graphic rendition on:
/// `ESC [ params m`.
pub open spec fn sgr(params: Seq<char>) -> Seq<char> {
    seq!['\x1B', '['] + params + seq!['m']
}

/// The escape sequence that resets every graphic rendition: `ESC [ 0 m`.
pub open spec fn sgr_reset() -> Seq<char> {
    seq!['\x1B', '[', '0', 'm']
}

/// `body` between the opening sequence for `params` and the reset sequence.
pub open spec fn decorated(params: Seq<char>, body: Seq<char>) -> Seq<char> {
    sgr(params) + body + sgr_reset()
}

/// `needle` stands in `haystack` at position `at`.
pub open spec fn occurs_at(haystack: Seq<char>, needle: Seq<char>, at: int) -> bool {
    &&& 0 <= at
    &&& at + needle.len() <= haystack.len()
    &&& haystack.subrange(at, at + needle.len()) == needle
}

/// `needle` stands somewhere in `haystack`.
pub open spec fn contains_seq(haystack: Seq<char>, needle: Seq<char>) -> bool {
    exists|at: int| occurs_at(haystack, needle, at)
}

/// What an optional string holds, as an optional sequence of characters.
pub open spec fn opt_chars(value: Option<&str>) -> Option<Seq<char>> {
    match value {
        Some(s) => Some(s@),
        None => None,
    }
}

/// The one-character string for a decimal digit.
fn digit_str(d: u8) -> (s: &'static str)
    requires
        d < 10,
    ensures
        s@ == seq![digit_char(d as int)],
{
    proof {
        reveal_strlit("0");
        reveal_strlit("1");
        reveal_strlit("2");
        reveal_strlit("3");
        reveal_strlit("4");
        reveal_strlit("5");
        reveal_strlit("6");
        reveal_strlit("7");
        reveal_strlit("8");
        reveal_strlit("9");
    }
    let s = match d {
        0 => "0",
        1 => "1",
        2 => "2",
        3 => "3",
        4 => "4",
        5 => "5",
        6 => "6",
        7 => "7",
        8 => "8",
        _ => "9",
    };
    assert(s@ =~= seq![digit_char(d as int)]);
    s
}

/// Appends the decimal numeral of `n` to `f`.
pub fn push_decimal(f: &mut String, n: u8)
    ensures
        final(f)@ == old(f)@ + decimal(n as nat),
{
    let hundreds: u8 = n / 100;
    let tens: u8 = (n / 10) % 10;
    let ones: u8 = n % 10;
    proof {
        reveal_with_fuel(decimal, 3);
    }
    if hundreds > 0 {
        f.append(digit_str(hundreds));
        f.append(digit_str(tens));
        f.append(digit_str(ones));
        assert(decimal(n as nat) =~= seq![
            digit_char(hundreds as int),
            digit_char(tens as int),
            digit_char(ones as int),
        ]);
        assert(f@ =~= old(f)@ + decimal(n as nat));
    } else if tens > 0 {
        f.append(digit_str(tens));
        f.append(digit_str(ones));
        assert(decimal(n as nat) =~= seq![digit_char(tens as int), digit_char(ones as int)]);
        assert(f@ =~= old(f)@ + decimal(n as nat));
    } else {
        f.append(digit_str(ones));
    }
}

/// Appends the opening sequence `ESC [` of a graphic rendition to `f`.
pub fn push_sgr_start(f: &mut String)
    ensures
        final(f)@ == old(f)@ + seq!['\x1B', '['],
{
    proof {
        reveal_strlit("\x1B[");
    }
    f.append("\x1B[");
    assert(f@ =~= old(f)@ + seq!['\x1B', '[']);
}

/// Appends the `m` that ends a graphic rendition to `f`.
pub fn push_sgr_end(f: &mut String)
    ensures
        final(f)@ == old(f)@ + seq!['m'],
{
    proof {
        reveal_strlit("m");
    }
    f.append("m");
    assert(f@ =~= old(f)@ + seq!['m']);
}

/// Appends the reset sequence `ESC [ 0 m` to `f`.
pub fn push_sgr_reset(f: &mut String)
    ensures
        final(f)@ == old(f)@ + sgr_reset(),
{
    proof {
        reveal_strlit("\x1B[0m");
    }
    f.append("\x1B[0m");
    assert(f@ =~= old(f)@ + sgr_reset());
}

/// The characters of a string, in order.
pub fn chars_of(s: &str) -> (chars: Vec<char>)
    ensures
        chars@ == s@,
{
    let mut chars: Vec<char> = Vec::new();
    for c in it: s.chars()
        invariant
            chars@ == it.seq().take(it.index() as int),
    {
        chars.push(c);
    }
    chars
}

/// Whether `needle` stands in `haystack` at position `at`.
fn matches_at(haystack: &Vec<char>, needle: &Vec<char>, at: usize) -> (found: bool)
    requires
        at + needle.len() <= haystack.len(),
    ensures
        found == occurs_at(haystack@, needle@, at as int),
{
    let mut i: usize = 0;
    while i < needle.len()
        invariant
            i <= needle.len(),
            at + needle.len() <= haystack.len(),
            forall|k: int| 0 <= k < i ==> haystack@[at + k] == needle@[k],
        decreases needle.len() - i,
    {
        if haystack[at + i] != needle[i] {
            assert(haystack@.subrange(at as int, at + needle.len())[i as int] != needle@[i as int]);
            return false;
        }
        i += 1;
    }
    assert(haystack@.subrange(at as int, at + needle.len()) =~= needle@);
    true
}

/// Whether `needle` stands somewhere in `haystack`.
pub fn contains(haystack: &str, needle: &str) -> (found: bool)
    ensures
        found == contains_seq(haystack@, needle@),
{
    let h = chars_of(haystack);
    let n = chars_of(needle);
    if n.len() == 0 {
        assert(h@.subrange(0, 0) =~= n@);
        assert(occurs_at(h@, n@, 0));
        return true;
    }
    if n.len() > h.len() {
        return false;
    }
    let last: usize = h.len() - n.len();
    let mut at: usize = 0;
    while at <= last
        invariant
            at <= last + 1,
            last == h.len() - n.len(),
            0 < n.len() <= h.len(),
            h@ == haystack@,
            n@ == needle@,
            forall|k: int| 0 <= k < at ==> !occurs_at(h@, n@, k),
        decreases last + 1 - at,
    {
        if matches_at(&h, &n, at) {
            return true;
        }
        at += 1;
    }
    false
}

/// Whether two strings hold the same characters.
pub fn same_text(a: &str, b: &str) -> (same: bool)
    ensures
        same == (a@ == b@),
{
    let x = chars_of(a);
    let y = chars_of(b);
    if x.len() != y.len() {
        return false;
    }
    let mut i: usize = 0;
    while i < x.len()
        invariant
            i <= x.len(),
            x.len() == y.len(),
            x@ == a@,
            y@ == b@,
            forall|k: int| 0 <= k < i ==> x@[k] == y@[k],
        decreases x.len() - i,
    {
        if x[i] != y[i] {
            assert(a@[i as int] != b@[i as int]);
            return false;
        }
        i += 1;
    }
    assert(x@ =~= y@);
    true
}

} // verus!
