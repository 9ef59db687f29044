//! Verified text utilities: prefix and equality tests on strings, trailing
//! digit suffixes, path base names, decimal rendering, and the size label
//! arithmetic used when drawing a volume's summary line.

use vstd::prelude::*;
use vstd::string::StrSliceExecFns;
use vstd::string::StringExecFns;
use vstd::arithmetic::div_mod::lemma_hoist_over_denominator;
use vstd::arithmetic::div_mod::lemma_fundamental_div_mod;
use vstd::arithmetic::div_mod::lemma_multiply_divide_lt;

verus! {

/// One gibibyte, in bytes.
pub const GIB: u64 = 0x40000000;

/// Half of one gibibyte, used to round to the nearest tenth.
pub const HALF_GIB: u64 = 0x20000000;

pub open spec fn is_ascii_digit(c: char) -> bool {
    48 <= c as u32 && c as u32 <= 57
}

/// `p` is a prefix of `s`.
pub open spec fn spec_starts_with(s: Seq<char>, p: Seq<char>) -> bool {
    p.len() <= s.len() && s.subrange(0, p.len() as int) == p
}

/// The number of ASCII digits at the very end of `s`.
pub open spec fn trailing_digit_count(s: Seq<char>) -> nat
    decreases s.len(),
{
    if s.len() == 0 {
        0
    } else if is_ascii_digit(s.last()) {
        trailing_digit_count(s.drop_last()) + 1
    } else {
        0
    }
}

/// The maximal run of ASCII digits at the end of `s`; empty when the last
/// character is not a digit.
pub open spec fn partition_suffix(s: Seq<char>) -> Seq<char> {
    s.subrange(s.len() - trailing_digit_count(s), s.len() as int)
}

/// The part of a path after its last `/`; the whole path when it holds no
/// `/`, and empty when the path ends in `/`.
pub open spec fn spec_base_name(s: Seq<char>) -> Seq<char>
    decreases s.len(),
{
    if s.len() == 0 {
        s
    } else if s.last() == '/' {
        Seq::empty()
    } else {
        spec_base_name(s.drop_last()).push(s.last())
    }
}

/// The decimal digits of `n`, most significant first, no leading zeros
/// (except for `n == 0` itself).
pub open spec fn spec_dec(n: nat) -> Seq<char>
    decreases n,
{
    if n < 10 {
        seq![digit_char(n as int)]
    } else {
        spec_dec(n / 10) + seq![digit_char((n % 10) as int)]
    }
}

/// The character for one decimal digit.
pub open spec fn digit_char(d: int) -> char {
    if d == 0 {
        '0'
    } else if d == 1 {
        '1'
    } else if d == 2 {
        '2'
    } else if d == 3 {
        '3'
    } else if d == 4 {
        '4'
    } else if d == 5 {
        '5'
    } else if d == 6 {
        '6'
    } else if d == 7 {
        '7'
    } else if d == 8 {
        '8'
    } else {
        '9'
    }
}

/// The volume's size in tenths of a gibibyte, rounded to the nearest tenth
/// (half rounds up).
pub open spec fn spec_gib_tenths(size: nat) -> nat {
    ((size * 10 + HALF_GIB) / (GIB as int)) as nat
}

/// The one-line size label: `NAME (G.TGB)` where `G.T` is the size in
/// gibibytes to one decimal place.
pub open spec fn spec_size_label(name: Seq<char>, size: nat) -> Seq<char> {
    name + " ("@ + spec_dec(spec_gib_tenths(size) / 10) + "."@ + seq![
        digit_char((spec_gib_tenths(size) % 10) as int),
    ] + "GB)"@
}

/// Whether `p` is a prefix of `s`.
pub fn str_starts_with(s: &str, p: &str) -> (r: bool)
    ensures
        r == spec_starts_with(s@, p@),
{
    let sl: usize = s.unicode_len();
    let pl: usize = p.unicode_len();
    if pl > sl {
        return false;
    }
    let mut i: usize = 0;
    while i < pl
        invariant
            i <= pl,
            pl <= sl,
            pl == p@.len(),
            sl == s@.len(),
            forall|j: int| 0 <= j < i ==> s@[j] == p@[j],
        decreases pl - i,
    {
        if s.get_char(i) != p.get_char(i) {
            assert(s@.subrange(0, p@.len() as int)[i as int] != p@[i as int]);
            return false;
        }
        i = i + 1;
    }
    assert(s@.subrange(0, p@.len() as int) =~= p@);
    true
}

/// Whether two strings hold the same characters.
pub fn str_eq(a: &str, b: &str) -> (r: bool)
    ensures
        r == (a@ == b@),
{
    let al: usize = a.unicode_len();
    let bl: usize = b.unicode_len();
    if al != bl {
        return false;
    }
    let mut i: usize = 0;
    while i < al
        invariant
            i <= al,
            al == a@.len(),
            bl == b@.len(),
            al == bl,
            forall|j: int| 0 <= j < i ==> a@[j] == b@[j],
        decreases al - i,
    {
        if a.get_char(i) != b.get_char(i) {
            return false;
        }
        i = i + 1;
    }
    assert(a@ =~= b@);
    true
}

fn char_is_ascii_digit(c: char) -> (r: bool)
    ensures
        r == is_ascii_digit(c),
{
    let v: u32 = c as u32;
    48 <= v && v <= 57
}

proof fn lemma_trailing_count(s: Seq<char>, k: nat)
    requires
        k <= s.len(),
        forall|j: int| s.len() - k <= j < s.len() ==> is_ascii_digit(#[trigger] s[j]),
        k < s.len() ==> !is_ascii_digit(s[s.len() - k - 1]),
    ensures
        trailing_digit_count(s) == k,
    decreases k,
{
    if k == 0 {
        if s.len() > 0 {
            assert(!is_ascii_digit(s.last()));
        }
    } else {
        assert(is_ascii_digit(s.last()));
        lemma_trailing_count(s.drop_last(), (k - 1) as nat);
    }
}

/// The number of ASCII digits at the end of `s`.
pub fn trailing_digit_len(s: &str) -> (k: usize)
    ensures
        k == trailing_digit_count(s@),
        k <= s@.len(),
{
    let n: usize = s.unicode_len();
    let mut k: usize = 0;
    while k < n && char_is_ascii_digit(s.get_char(n - 1 - k))
        invariant
            k <= n,
            n == s@.len(),
            forall|j: int| n - k <= j < n ==> is_ascii_digit(#[trigger] s@[j]),
        decreases n - k,
    {
        k = k + 1;
    }
    proof {
        lemma_trailing_count(s@, k as nat);
    }
    k
}

proof fn lemma_base_name_suffix(s: Seq<char>, k: nat)
    requires
        k <= s.len(),
        forall|j: int| s.len() - k <= j < s.len() ==> #[trigger] s[j] != '/',
        k < s.len() ==> s[s.len() - k - 1] == '/',
    ensures
        spec_base_name(s) == s.subrange(s.len() - k, s.len() as int),
    decreases k,
{
    if k == 0 {
        if s.len() > 0 {
            assert(s.last() == '/');
        }
        assert(spec_base_name(s) =~= s.subrange(s.len() as int, s.len() as int));
    } else {
        assert(s.last() != '/');
        lemma_base_name_suffix(s.drop_last(), (k - 1) as nat);
        assert(spec_base_name(s.drop_last()).push(s.last()) =~= s.subrange(
            s.len() - k,
            s.len() as int,
        ));
    }
}

/// The part of `path` after its last `/`.
pub fn base_name_of(path: &str) -> (r: &str)
    ensures
        r@ == spec_base_name(path@),
{
    let n: usize = path.unicode_len();
    let mut k: usize = 0;
    while k < n && path.get_char(n - 1 - k) != '/'
        invariant
            k <= n,
            n == path@.len(),
            forall|j: int| n - k <= j < n ==> #[trigger] path@[j] != '/',
        decreases n - k,
    {
        k = k + 1;
    }
    proof {
        lemma_base_name_suffix(path@, k as nat);
    }
    path.substring_char(n - k, n)
}

fn digit_str(d: u64) -> (r: &'static str)
    requires
        d < 10,
    ensures
        r@ == seq![digit_char(d as int)],
{
    if d == 0 {
        proof {
            reveal_strlit("0");
        }
        assert("0"@ =~= seq![digit_char(0)]);
        "0"
    } else if d == 1 {
        proof {
            reveal_strlit("1");
        }
        assert("1"@ =~= seq![digit_char(1)]);
        "1"
    } else if d == 2 {
        proof {
            reveal_strlit("2");
        }
        assert("2"@ =~= seq![digit_char(2)]);
        "2"
    } else if d == 3 {
        proof {
            reveal_strlit("3");
        }
        assert("3"@ =~= seq![digit_char(3)]);
        "3"
    } else if d == 4 {
        proof {
            reveal_strlit("4");
        }
        assert("4"@ =~= seq![digit_char(4)]);
        "4"
    } else if d == 5 {
        proof {
            reveal_strlit("5");
        }
        assert("5"@ =~= seq![digit_char(5)]);
        "5"
    } else if d == 6 {
        proof {
            reveal_strlit("6");
        }
        assert("6"@ =~= seq![digit_char(6)]);
        "6"
    } else if d == 7 {
        proof {
            reveal_strlit("7");
        }
        assert("7"@ =~= seq![digit_char(7)]);
        "7"
    } else if d == 8 {
        proof {
            reveal_strlit("8");
        }
        assert("8"@ =~= seq![digit_char(8)]);
        "8"
    } else {
        proof {
            reveal_strlit("9");
        }
        assert("9"@ =~= seq![digit_char(9)]);
        "9"
    }
}

/// The decimal rendering of `n`.
pub fn dec_string(n: u64) -> (r: String)
    ensures
        r@ == spec_dec(n as nat),
    decreases n,
{
    if n < 10 {
        String::from_str(digit_str(n))
    } else {
        let mut s = dec_string(n / 10);
        s.append(digit_str(n % 10));
        s
    }
}

/// The size in tenths of a gibibyte, rounded to the nearest tenth.
pub fn gib_tenths(size: u64) -> (r: u64)
    ensures
        r == spec_gib_tenths(size as nat),
{
    let whole: u64 = size / GIB;
    let rem: u64 = size % GIB;
    let frac: u64 = (rem * 10 + HALF_GIB) / GIB;
    proof {
        lemma_fundamental_div_mod(size as int, GIB as int);
        assert((size as int) * 10 == (whole as int) * 10 * (GIB as int) + (rem as int) * 10)
            by (nonlinear_arith)
            requires
                size as int == (GIB as int) * (whole as int) + (rem as int),
        ;
        assert((rem as int) * 10 + (HALF_GIB as int) < (GIB as int) * 11);
        lemma_multiply_divide_lt((rem as int) * 10 + (HALF_GIB as int), GIB as int, 11);
        assert((size as int) < (GIB as int) * 0x400000000);
        lemma_multiply_divide_lt(size as int, GIB as int, 0x400000000);
        lemma_hoist_over_denominator(
            (rem as int) * 10 + (HALF_GIB as int),
            (whole as int) * 10,
            GIB as nat,
        );
        assert(whole * 10 + frac == spec_gib_tenths(size as nat));
    }
    whole * 10 + frac
}

/// The rendered label `NAME (G.TGB)` for a volume of the given name and
/// byte size.
pub fn size_label(name: &str, size: u64) -> (r: String)
    ensures
        r@ == spec_size_label(name@, size as nat),
{
    let tenths: u64 = gib_tenths(size);
    let mut label = String::from_str(name);
    label.append(" (");
    let whole = dec_string(tenths / 10);
    label.append(whole.as_str());
    label.append(".");
    label.append(digit_str(tenths % 10));
    label.append("GB)");
    label
}

} // verus!
