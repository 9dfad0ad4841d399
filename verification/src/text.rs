//! Character-level string utilities: ASCII case folding, substring search,
//! trailing-slash trimming and decimal rendering.
//!
//! Header-name comparison and content-type sniffing are defined over ASCII
//! case folding: the twenty-six ASCII capitals map to their lower-case
//! counterparts and every other character is left unchanged.

use vstd::prelude::*;

verus! {

/// ASCII lower-casing of a single character.
pub open spec fn lower_char(c: char) -> char {
    if c == 'A' {
        'a'
    } else if c == 'B' {
        'b'
    } else if c == 'C' {
        'c'
    } else if c == 'D' {
        'd'
    } else if c == 'E' {
        'e'
    } else if c == 'F' {
        'f'
    } else if c == 'G' {
        'g'
    } else if c == 'H' {
        'h'
    } else if c == 'I' {
        'i'
    } else if c == 'J' {
        'j'
    } else if c == 'K' {
        'k'
    } else if c == 'L' {
        'l'
    } else if c == 'M' {
        'm'
    } else if c == 'N' {
        'n'
    } else if c == 'O' {
        'o'
    } else if c == 'P' {
        'p'
    } else if c == 'Q' {
        'q'
    } else if c == 'R' {
        'r'
    } else if c == 'S' {
        's'
    } else if c == 'T' {
        't'
    } else if c == 'U' {
        'u'
    } else if c == 'V' {
        'v'
    } else if c == 'W' {
        'w'
    } else if c == 'X' {
        'x'
    } else if c == 'Y' {
        'y'
    } else if c == 'Z' {
        'z'
    } else {
        c
    }
}

/// ASCII lower-casing of a character sequence.
pub open spec fn lower_seq(s: Seq<char>) -> Seq<char> {
    s.map_values(|c: char| lower_char(c))
}

/// Case folding is idempotent: folding a folded sequence changes nothing.
pub proof fn lemma_lower_idempotent(s: Seq<char>)
    ensures
        lower_seq(lower_seq(s)) == lower_seq(s),
{
    assert(lower_seq(lower_seq(s)) =~= lower_seq(s));
}

proof fn lemma_lower_seq_push(s: Seq<char>, c: char)
    ensures
        lower_seq(s.push(c)) == lower_seq(s).push(lower_char(c)),
{
    assert(lower_seq(s.push(c)) =~= lower_seq(s).push(lower_char(c)));
}

/// Lower-cases the ASCII capitals of `s` and leaves every other character
/// unchanged.
pub fn lower_str(s: &str) -> (r: String)
    ensures
        r@ == lower_seq(s@),
{
    let n: usize = s.unicode_len();
    let mut r = String::new();
    let mut i: usize = 0;
    while i < n
        invariant
            i <= n,
            n == s@.len(),
            r@ == lower_seq(s@.take(i as int)),
        decreases n - i,
    {
        let c = s.get_char(i);
        if c == 'A' {
            proof { reveal_strlit("a"); }
            r.append("a");
        } else if c == 'B' {
            proof { reveal_strlit("b"); }
            r.append("b");
        } else if c == 'C' {
            proof { reveal_strlit("c"); }
            r.append("c");
        } else if c == 'D' {
            proof { reveal_strlit("d"); }
            r.append("d");
        } else if c == 'E' {
            proof { reveal_strlit("e"); }
            r.append("e");
        } else if c == 'F' {
            proof { reveal_strlit("f"); }
            r.append("f");
        } else if c == 'G' {
            proof { reveal_strlit("g"); }
            r.append("g");
        } else if c == 'H' {
            proof { reveal_strlit("h"); }
            r.append("h");
        } else if c == 'I' {
            proof { reveal_strlit("i"); }
            r.append("i");
        } else if c == 'J' {
            proof { reveal_strlit("j"); }
            r.append("j");
        } else if c == 'K' {
            proof { reveal_strlit("k"); }
            r.append("k");
        } else if c == 'L' {
            proof { reveal_strlit("l"); }
            r.append("l");
        } else if c == 'M' {
            proof { reveal_strlit("m"); }
            r.append("m");
        } else if c == 'N' {
            proof { reveal_strlit("n"); }
            r.append("n");
        } else if c == 'O' {
            proof { reveal_strlit("o"); }
            r.append("o");
        } else if c == 'P' {
            proof { reveal_strlit("p"); }
            r.append("p");
        } else if c == 'Q' {
            proof { reveal_strlit("q"); }
            r.append("q");
        } else if c == 'R' {
            proof { reveal_strlit("r"); }
            r.append("r");
        } else if c == 'S' {
            proof { reveal_strlit("s"); }
            r.append("s");
        } else if c == 'T' {
            proof { reveal_strlit("t"); }
            r.append("t");
        } else if c == 'U' {
            proof { reveal_strlit("u"); }
            r.append("u");
        } else if c == 'V' {
            proof { reveal_strlit("v"); }
            r.append("v");
        } else if c == 'W' {
            proof { reveal_strlit("w"); }
            r.append("w");
        } else if c == 'X' {
            proof { reveal_strlit("x"); }
            r.append("x");
        } else if c == 'Y' {
            proof { reveal_strlit("y"); }
            r.append("y");
        } else if c == 'Z' {
            proof { reveal_strlit("z"); }
            r.append("z");
        } else {
            let piece = s.substring_char(i, i + 1);
            proof {
                assert(piece@ =~= seq![s@[i as int]]);
            }
            r.append(piece);
        }
        proof {
            assert(s@.take(i + 1) =~= s@.take(i as int).push(s@[i as int]));
            lemma_lower_seq_push(s@.take(i as int), s@[i as int]);
        }
        i = i + 1;
    }
    proof {
        assert(s@.take(n as int) =~= s@);
    }
    r
}

/// Character-for-character string equality.
pub fn str_eq(a: &str, b: &str) -> (r: bool)
    ensures
        r == (a@ == b@),
{
    let an: usize = a.unicode_len();
    let bn: usize = b.unicode_len();
    if an != bn {
        proof {
            assert(a@ != b@);
        }
        return false;
    }
    let mut i: usize = 0;
    while i < an
        invariant
            i <= an,
            an == a@.len(),
            an == b@.len(),
            forall|j: int| 0 <= j < i ==> a@[j] == b@[j],
        decreases an - i,
    {
        if a.get_char(i) != b.get_char(i) {
            proof {
                assert(a@ != b@);
            }
            return false;
        }
        i = i + 1;
    }
    proof {
        assert(a@ =~= b@);
    }
    true
}

/// Whether `needle` occurs as a contiguous subsequence of `hay`.
pub open spec fn seq_contains_sub(hay: Seq<char>, needle: Seq<char>) -> bool {
    exists|k: int|
        0 <= k && k + needle.len() <= hay.len() && #[trigger] hay.subrange(k, k + needle.len())
            == needle
}

/// Substring search: whether `needle` occurs inside `hay`.
pub fn str_contains(hay: &str, needle: &str) -> (r: bool)
    ensures
        r == seq_contains_sub(hay@, needle@),
{
    let hn: usize = hay.unicode_len();
    let nn: usize = needle.unicode_len();
    if nn > hn {
        return false;
    }
    if nn == 0 {
        proof {
            assert(hay@.subrange(0, 0 + needle@.len() as int) =~= needle@);
        }
        return true;
    }
    let mut k: usize = 0;
    while k <= hn - nn
        invariant
            0 < nn <= hn,
            hn == hay@.len(),
            nn == needle@.len(),
            k <= hn - nn + 1,
            forall|k2: int|
                0 <= k2 < k ==> #[trigger] hay@.subrange(k2, k2 + needle@.len() as int)
                    != needle@,
        decreases hn - nn + 1 - k,
    {
        let mut j: usize = 0;
        let mut mismatch = false;
        while j < nn
            invariant
                k + nn <= hn,
                hn == hay@.len(),
                nn == needle@.len(),
                j <= nn,
                !mismatch ==> forall|j2: int| 0 <= j2 < j ==> hay@[k + j2] == needle@[j2],
                mismatch ==> hay@.subrange(k as int, k + nn as int) != needle@,
            decreases nn - j,
        {
            if hay.get_char(k + j) != needle.get_char(j) {
                proof {
                    assert(hay@.subrange(k as int, k + nn as int)[j as int] != needle@[j as int]);
                }
                mismatch = true;
                j = nn;
            } else {
                j = j + 1;
            }
        }
        if !mismatch {
            proof {
                assert(hay@.subrange(k as int, k + nn as int) =~= needle@);
            }
            return true;
        }
        k = k + 1;
    }
    false
}

/// `s` with every trailing `/` removed.
pub open spec fn trim_slashes(s: Seq<char>) -> Seq<char>
    decreases s.len(),
{
    if s.len() > 0 && s.last() == '/' {
        trim_slashes(s.drop_last())
    } else {
        s
    }
}

/// Removes every trailing `/` of `s`.
pub fn trim_trailing_slashes(s: &str) -> (r: &str)
    ensures
        r@ == trim_slashes(s@),
{
    let n: usize = s.unicode_len();
    let mut end: usize = n;
    proof {
        assert(s@.take(n as int) =~= s@);
    }
    loop
        invariant
            end <= n,
            n == s@.len(),
            trim_slashes(s@.take(end as int)) == trim_slashes(s@),
        ensures
            end <= n,
            n == s@.len(),
            s@.take(end as int) == trim_slashes(s@),
        decreases end,
    {
        if end == 0 {
            proof {
                assert(s@.take(0) =~= Seq::<char>::empty());
            }
            break;
        }
        let c = s.get_char(end - 1);
        if c != '/' {
            proof {
                assert(s@.take(end as int).last() == s@[end - 1]);
            }
            break;
        }
        proof {
            assert(s@.take(end as int).last() == s@[end - 1]);
            assert(s@.take(end as int).drop_last() =~= s@.take(end - 1));
        }
        end = end - 1;
    }
    let r = s.substring_char(0, end);
    proof {
        assert(r@ =~= s@.take(end as int));
    }
    r
}

/// The character for a single decimal digit.
pub open spec fn digit_char(d: nat) -> char {
    if d == 0 {
        '0'
    } else if d == 1 {
        '1'
    } else if d == 2 {
        '2'
    } else if d == 3 {
        '3'
    } else if d == 4 {
        '4'
    } else if d == 5 {
        '5'
    } else if d == 6 {
        '6'
    } else if d == 7 {
        '7'
    } else if d == 8 {
        '8'
    } else {
        '9'
    }
}

/// The decimal rendering of a natural number, most significant digit first.
pub open spec fn dec_seq(n: nat) -> Seq<char>
    decreases n,
{
    if n < 10 {
        seq![digit_char(n)]
    } else {
        dec_seq(n / 10).push(digit_char(n % 10))
    }
}

fn digit_str(d: u64) -> (r: &'static str)
    requires
        d < 10,
    ensures
        r@ == seq![digit_char(d as nat)],
{
    if d == 0 {
        proof { reveal_strlit("0"); }
        assert("0"@ =~= seq![digit_char(0)]);
        "0"
    } else if d == 1 {
        proof { reveal_strlit("1"); }
        assert("1"@ =~= seq![digit_char(1)]);
        "1"
    } else if d == 2 {
        proof { reveal_strlit("2"); }
        assert("2"@ =~= seq![digit_char(2)]);
        "2"
    } else if d == 3 {
        proof { reveal_strlit("3"); }
        assert("3"@ =~= seq![digit_char(3)]);
        "3"
    } else if d == 4 {
        proof { reveal_strlit("4"); }
        assert("4"@ =~= seq![digit_char(4)]);
        "4"
    } else if d == 5 {
        proof { reveal_strlit("5"); }
        assert("5"@ =~= seq![digit_char(5)]);
        "5"
    } else if d == 6 {
        proof { reveal_strlit("6"); }
        assert("6"@ =~= seq![digit_char(6)]);
        "6"
    } else if d == 7 {
        proof { reveal_strlit("7"); }
        assert("7"@ =~= seq![digit_char(7)]);
        "7"
    } else if d == 8 {
        proof { reveal_strlit("8"); }
        assert("8"@ =~= seq![digit_char(8)]);
        "8"
    } else {
        proof { reveal_strlit("9"); }
        assert("9"@ =~= seq![digit_char(9)]);
        "9"
    }
}

/// Renders `n` in decimal.
pub fn u64_to_string(n: u64) -> (r: String)
    ensures
        r@ == dec_seq(n as nat),
    decreases n,
{
    if n < 10 {
        let d = digit_str(n);
        String::from_str(d)
    } else {
        let mut r = u64_to_string(n / 10);
        let d = digit_str(n % 10);
        r.append(d);
        proof {
            assert(r@ =~= dec_seq((n / 10) as nat).push(digit_char((n % 10) as nat)));
        }
        r
    }
}

} // verus!
