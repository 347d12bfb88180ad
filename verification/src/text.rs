//! Character-level string helpers and their specifications.

use vstd::prelude::*;

verus! {

/// The Unicode `White_Space` property, the set of characters that
/// `str::trim` removes.
pub open spec fn is_white_space(c: char) -> bool {
    let u = c as u32;
    ||| 0x09 <= u <= 0x0D
    ||| u == 0x20
    ||| u == 0x85
    ||| u == 0xA0
    ||| u == 0x1680
    ||| 0x2000 <= u <= 0x200A
    ||| u == 0x2028
    ||| u == 0x2029
    ||| u == 0x202F
    ||| u == 0x205F
    ||| u == 0x3000
}

/// `s` without its leading white space.
pub open spec fn trim_start_spec(s: Seq<char>) -> Seq<char>
    decreases s.len(),
{
    if s.len() > 0 && is_white_space(s[0]) {
        trim_start_spec(s.drop_first())
    } else {
        s
    }
}

/// `s` without its trailing white space.
pub open spec fn trim_end_spec(s: Seq<char>) -> Seq<char>
    decreases s.len(),
{
    if s.len() > 0 && is_white_space(s.last()) {
        trim_end_spec(s.drop_last())
    } else {
        s
    }
}

/// `s` without leading and trailing white space.
pub open spec fn trim_spec(s: Seq<char>) -> Seq<char> {
    trim_end_spec(trim_start_spec(s))
}

/// Whether `c` is white space.
fn is_white_space_char(c: char) -> (r: bool)
    ensures
        r == is_white_space(c),
{
    let u = c as u32;
    (0x09 <= u && u <= 0x0D) || u == 0x20 || u == 0x85 || u == 0xA0 || u == 0x1680 || (0x2000 <= u
        && u <= 0x200A) || u == 0x2028 || u == 0x2029 || u == 0x202F || u == 0x205F || u == 0x3000
}

/// `s` without leading and trailing white space (the Unicode `White_Space`
/// property), as `str::trim` gives it.
pub fn trim(s: &str) -> (r: &str)
    ensures
        r@ == trim_spec(s@),
{
    let n = s.unicode_len();
    let mut a: usize = 0;
    assert(s@.subrange(0, n as int) =~= s@);
    loop
        invariant
            n == s@.len(),
            a <= n,
            trim_start_spec(s@) == trim_start_spec(s@.subrange(a as int, n as int)),
        ensures
            a <= n,
            trim_start_spec(s@) == s@.subrange(a as int, n as int),
        decreases n - a,
    {
        if a == n {
            assert(s@.subrange(a as int, n as int).len() == 0);
            break;
        }
        let c = s.get_char(a);
        if !is_white_space_char(c) {
            assert(s@.subrange(a as int, n as int)[0] == c);
            break;
        }
        assert(s@.subrange(a as int, n as int).drop_first() =~= s@.subrange(a + 1, n as int));
        a = a + 1;
    }
    let mut b: usize = n;
    assert(s@.subrange(a as int, n as int) =~= s@.subrange(a as int, b as int));
    loop
        invariant
            n == s@.len(),
            a <= b <= n,
            trim_spec(s@) == trim_end_spec(s@.subrange(a as int, b as int)),
        ensures
            a <= b <= n,
            trim_spec(s@) == s@.subrange(a as int, b as int),
        decreases b - a,
    {
        if b == a {
            assert(s@.subrange(a as int, b as int).len() == 0);
            break;
        }
        let c = s.get_char(b - 1);
        if !is_white_space_char(c) {
            assert(s@.subrange(a as int, b as int).last() == c);
            break;
        }
        assert(s@.subrange(a as int, b as int).drop_last() =~= s@.subrange(a as int, b - 1));
        b = b - 1;
    }
    s.substring_char(a, b)
}

/// Whether two strings hold the same characters.
pub fn str_eq(a: &str, b: &str) -> (r: bool)
    ensures
        r == (a@ == b@),
{
    let n = a.unicode_len();
    if n != b.unicode_len() {
        return false;
    }
    let mut i: usize = 0;
    while i < n
        invariant
            n == a@.len(),
            n == b@.len(),
            i <= n,
            forall|j: int| 0 <= j < i ==> a@[j] == b@[j],
        decreases n - i,
    {
        if a.get_char(i) != b.get_char(i) {
            return false;
        }
        i = i + 1;
    }
    assert(a@ =~= b@);
    true
}

/// Whether `p` is a prefix of `s`.
pub fn starts_with(s: &str, p: &str) -> (r: bool)
    ensures
        r == p@.is_prefix_of(s@),
{
    let n = p.unicode_len();
    if n > s.unicode_len() {
        return false;
    }
    let mut i: usize = 0;
    while i < n
        invariant
            n == p@.len(),
            n <= s@.len(),
            i <= n,
            forall|j: int| 0 <= j < i ==> p@[j] == s@[j],
        decreases n - i,
    {
        if p.get_char(i) != s.get_char(i) {
            return false;
        }
        i = i + 1;
    }
    true
}

/// The decimal digit character of `d`, for `0 <= d < 10`.
pub open spec fn digit_char(d: int) -> char {
    (48 + d) as char
}

/// The decimal digits of `n`, without leading zeros.
pub open spec fn nat_decimal(n: nat) -> Seq<char>
    decreases n,
{
    if n < 10 {
        seq![digit_char(n as int)]
    } else {
        nat_decimal(n / 10) + seq![digit_char((n % 10) as int)]
    }
}

/// The decimal text of `n`, with a leading `-` when it is negative.
pub open spec fn int_decimal(n: int) -> Seq<char> {
    if n < 0 {
        seq!['-'] + nat_decimal((-n) as nat)
    } else {
        nat_decimal(n as nat)
    }
}

/// The text of the decimal digit `d`.
fn digit_str(d: u64) -> (r: &'static str)
    requires
        d < 10,
    ensures
        r@ == seq![digit_char(d as int)],
{
    proof {
        reveal_strlit("0");
        reveal_strlit("1");
        reveal_strlit("2");
        reveal_strlit("3");
        reveal_strlit("4");
        reveal_strlit("5");
        reveal_strlit("6");
        reveal_strlit("7");
        reveal_strlit("8");
        reveal_strlit("9");
    }
    match d {
        0 => "0",
        1 => "1",
        2 => "2",
        3 => "3",
        4 => "4",
        5 => "5",
        6 => "6",
        7 => "7",
        8 => "8",
        _ => "9",
    }
}

/// The decimal text of `n`, with a leading `-` when it is negative (as
/// `i64::to_string` writes it).
pub fn decimal(n: i64) -> (r: String)
    ensures
        r@ == int_decimal(n as int),
{
    let neg = n < 0;
    let mut q: u64 = if neg {
        ((-(n + 1)) as u64) + 1
    } else {
        n as u64
    };
    let ghost m: nat = q as nat;
    assert(m == if n < 0 { -n } else { n as int });
    let mut digits = String::new();
    while q >= 10
        invariant
            nat_decimal(m) == nat_decimal(q as nat) + digits@,
        decreases q,
    {
        let d = q % 10;
        let ghost before = digits@;
        digits = String::from_str(digit_str(d)).concat(digits.as_str());
        assert(nat_decimal(q as nat) == nat_decimal((q / 10) as nat) + seq![digit_char(d as int)]);
        assert(nat_decimal((q / 10) as nat) + seq![digit_char(d as int)] + before
            =~= nat_decimal((q / 10) as nat) + digits@);
        q = q / 10;
    }
    let ghost before = digits@;
    digits = String::from_str(digit_str(q)).concat(digits.as_str());
    assert(nat_decimal(m) =~= digits@) by {
        assert(nat_decimal(q as nat) == seq![digit_char(q as int)]);
    }
    if neg {
        proof {
            reveal_strlit("-");
            assert((-n) as nat == m);
        }
        String::from_str("-").concat(digits.as_str())
    } else {
        digits
    }
}

} // verus!
