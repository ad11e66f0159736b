//! Verified building blocks for the string work the connector does:
//! prefix tests, equality, substring search, and decimal rendering.
use vstd::prelude::*;
use vstd::string::*;

verus! {

/// `p` is an initial segment of `s`.
pub open spec fn is_prefix_of(p: Seq<char>, s: Seq<char>) -> bool {
    p.len() <= s.len() && s.subrange(0, p.len() as int) == p
}

/// Whether the string `s` begins with the prefix `p`.
pub fn starts_with_prefix(s: &str, p: &str) -> (r: bool)
    ensures
        r == is_prefix_of(p@, s@),
{
    let n = p.unicode_len();
    if n > s.unicode_len() {
        return false;
    }
    let mut i: usize = 0;
    while i < n
        invariant
            i <= n,
            n == p@.len(),
            n <= s@.len(),
            forall|j: int| 0 <= j < i ==> s@[j] == p@[j],
        decreases n - i,
    {
        if s.get_char(i) != p.get_char(i) {
            assert(s@.subrange(0, n as int)[i as int] != p@[i as int]);
            return false;
        }
        i += 1;
    }
    assert(s@.subrange(0, n as int) =~= p@);
    true
}

/// The pattern `p` occurs in `s` starting at index `i`.
pub open spec fn occurs_at(s: Seq<char>, p: Seq<char>, i: int) -> bool {
    0 <= i && i + p.len() <= s.len() && s.subrange(i, i + p.len()) == p
}

/// The pattern `p` occurs somewhere in `s`.
pub open spec fn contains_seq(s: Seq<char>, p: Seq<char>) -> bool {
    exists|i: int| occurs_at(s, p, i)
}

fn matches_at(s: &str, p: &str, i: usize) -> (r: bool)
    requires
        i + p@.len() <= s@.len(),
    ensures
        r == occurs_at(s@, p@, i as int),
{
    let n = s.unicode_len();
    let m = p.unicode_len();
    let mut j: usize = 0;
    while j < m
        invariant
            j <= m,
            m == p@.len(),
            n == s@.len(),
            i + m <= n,
            forall|k: int| 0 <= k < j ==> s@[i + k] == p@[k],
        decreases m - j,
    {
        if s.get_char(i + j) != p.get_char(j) {
            assert(s@.subrange(i as int, i + m)[j as int] != p@[j as int]);
            return false;
        }
        j += 1;
    }
    assert(s@.subrange(i as int, i + m) =~= p@);
    true
}

/// Index of the first occurrence of the pattern `p` in `s`, if any.
pub fn find_first(s: &str, p: &str) -> (r: Option<usize>)
    ensures
        match r {
            Some(i) => occurs_at(s@, p@, i as int) && (forall|j: int|
                0 <= j < i ==> !occurs_at(s@, p@, j)),
            None => !contains_seq(s@, p@),
        },
{
    let n = s.unicode_len();
    let m = p.unicode_len();
    if m > n {
        return None;
    }
    if m == 0 {
        assert(s@.subrange(0, 0) =~= p@);
        return Some(0);
    }
    let mut i: usize = 0;
    while i <= n - m
        invariant
            0 < m <= n,
            n == s@.len(),
            m == p@.len(),
            i <= n - m + 1,
            forall|j: int| 0 <= j < i ==> !occurs_at(s@, p@, j),
        decreases n - m + 1 - i,
    {
        if matches_at(s, p, i) {
            return Some(i);
        }
        i += 1;
    }
    assert(forall|j: int| occurs_at(s@, p@, j) ==> 0 <= j <= n - m);
    None
}

/// Index of the first occurrence of the character `c` in `s` at or after
/// position `from`, if any.
pub fn find_char(s: &str, c: char, from: usize) -> (r: Option<usize>)
    requires
        from <= s@.len(),
    ensures
        match r {
            Some(i) => from <= i < s@.len() && s@[i as int] == c && (forall|j: int|
                from <= j < i ==> s@[j] != c),
            None => forall|j: int| from <= j < s@.len() ==> s@[j] != c,
        },
{
    let n = s.unicode_len();
    let mut i: usize = from;
    while i < n
        invariant
            from <= i <= n,
            n == s@.len(),
            forall|j: int| from <= j < i ==> s@[j] != c,
        decreases n - i,
    {
        if s.get_char(i) == c {
            return Some(i);
        }
        i += 1;
    }
    None
}

/// An owned copy of the characters of `s` from `from` (inclusive) to `to`
/// (exclusive).
pub fn substr_to_string(s: &str, from: usize, to: usize) -> (r: String)
    requires
        from <= to <= s@.len(),
    ensures
        r@ == s@.subrange(from as int, to as int),
{
    let sub = s.substring_char(from, to);
    sub.to_owned()
}

/// Character-for-character string equality, settled at the view level.
pub fn str_eq(a: &str, b: &str) -> (r: bool)
    ensures
        r == (a@ == b@),
{
    let n = a.unicode_len();
    if n != b.unicode_len() {
        return false;
    }
    let mut i: usize = 0;
    while i < n
        invariant
            i <= n,
            n == a@.len(),
            n == b@.len(),
            forall|j: int| 0 <= j < i ==> a@[j] == b@[j],
        decreases n - i,
    {
        if a.get_char(i) != b.get_char(i) {
            return false;
        }
        i += 1;
    }
    assert(a@ =~= b@);
    true
}

/// Index of the first occurrence of `pat` in `s`, if any.
pub open spec fn spec_find(s: Seq<char>, pat: Seq<char>) -> Option<int>
    decreases s.len(),
{
    if pat.len() > s.len() {
        None
    } else if pat.len() == 0 {
        Some(0)
    } else if s.subrange(0, pat.len() as int) == pat {
        Some(0)
    } else {
        match spec_find(s.drop_first(), pat) {
            Some(i) => Some(i + 1),
            None => None,
        }
    }
}

proof fn lemma_occurs_shift(s: Seq<char>, pat: Seq<char>, i: int)
    requires
        s.len() > 0,
        0 <= i,
    ensures
        occurs_at(s, pat, i + 1) <==> occurs_at(s.drop_first(), pat, i),
{
    if i + 1 + pat.len() <= s.len() {
        assert(s.drop_first().subrange(i, i + pat.len()) =~= s.subrange(
            i + 1,
            i + 1 + pat.len(),
        ));
    }
}

/// `spec_find` names exactly the first occurrence.
pub proof fn lemma_spec_find_correct(s: Seq<char>, pat: Seq<char>)
    ensures
        match spec_find(s, pat) {
            Some(i) => occurs_at(s, pat, i) && (forall|j: int|
                0 <= j < i ==> !occurs_at(s, pat, j)),
            None => !contains_seq(s, pat),
        },
    decreases s.len(),
{
    if pat.len() > s.len() {
        assert forall|j: int| !occurs_at(s, pat, j) by {}
        assert(!contains_seq(s, pat));
    } else if pat.len() == 0 {
        assert(s.subrange(0, 0) =~= pat);
        assert(occurs_at(s, pat, 0));
    } else if s.subrange(0, pat.len() as int) == pat {
        assert(occurs_at(s, pat, 0));
    } else {
        assert(!occurs_at(s, pat, 0));
        lemma_spec_find_correct(s.drop_first(), pat);
        assert forall|j: int| 0 <= j implies (occurs_at(s, pat, j + 1) <==> occurs_at(
            s.drop_first(),
            pat,
            j,
        )) by {
            lemma_occurs_shift(s, pat, j);
        }
        match spec_find(s.drop_first(), pat) {
            Some(i) => {
                assert(occurs_at(s, pat, i + 1));
                assert forall|j: int| 0 <= j < i + 1 implies !occurs_at(s, pat, j) by {
                    if j > 0 {
                        assert(!occurs_at(s.drop_first(), pat, j - 1));
                    }
                }
            },
            None => {
                assert forall|j: int| !occurs_at(s, pat, j) by {
                    if j > 0 {
                        assert(!occurs_at(s.drop_first(), pat, j - 1));
                    }
                }
                assert(!contains_seq(s, pat));
            },
        }
    }
}

/// A pattern of one character occurs exactly where that character stands.
pub proof fn lemma_occurs_single(s: Seq<char>, c: char, j: int)
    ensures
        occurs_at(s, seq![c], j) <==> (0 <= j < s.len() && s[j] == c),
{
    if 0 <= j < s.len() {
        assert(s.subrange(j, j + 1) =~= seq![s[j]]);
        if s[j] == c {
            assert(s.subrange(j, j + 1) =~= seq![c]);
        } else {
            assert(s.subrange(j, j + 1)[0] == s[j]);
        }
    }
}

/// The characters after the first occurrence of `pat`, when it occurs.
pub open spec fn spec_after(s: Seq<char>, pat: Seq<char>) -> Option<Seq<char>> {
    match spec_find(s, pat) {
        Some(i) => Some(s.skip(i + pat.len())),
        None => None,
    }
}

/// The characters of `s` before the first `c`: all of `s` when `c` does not
/// occur.
pub open spec fn spec_up_to_char(s: Seq<char>, c: char) -> Seq<char> {
    match spec_find(s, seq![c]) {
        Some(i) => s.subrange(0, i),
        None => s,
    }
}

/// An owned copy of what follows the first occurrence of `pat` in `s`.
pub fn after_first(s: &str, pat: &str) -> (r: Option<String>)
    ensures
        r.deep_view() == spec_after(s@, pat@),
{
    let found = find_first(s, pat);
    proof {
        lemma_spec_find_correct(s@, pat@);
        match found {
            Some(i) => {
                match spec_find(s@, pat@) {
                    Some(ip) => {
                        if ip < i as int {
                            assert(!occurs_at(s@, pat@, ip));
                        }
                        if ip > i as int {
                            assert(!occurs_at(s@, pat@, i as int));
                        }
                        assert(ip == i as int);
                    },
                    None => {
                        assert(contains_seq(s@, pat@));
                    },
                }
            },
            None => {
                assert(spec_find(s@, pat@) is Some ==> contains_seq(s@, pat@));
            },
        }
    }
    match found {
        Some(i) => {
            let plen = pat.unicode_len();
            let n = s.unicode_len();
            let rest = substr_to_string(s, i + plen, n);
            assert(rest@ =~= s@.skip(i + plen));
            Some(rest)
        },
        None => None,
    }
}

/// Index of the first occurrence of the character `c` in `s`, tied to
/// `spec_find` on the one-character pattern.
pub fn find_char_first(s: &str, c: char) -> (r: Option<usize>)
    ensures
        match r {
            Some(i) => spec_find(s@, seq![c]) == Some(i as int),
            None => spec_find(s@, seq![c]) is None,
        },
{
    let found = find_char(s, c, 0);
    proof {
        lemma_spec_find_correct(s@, seq![c]);
        assert forall|j: int| occurs_at(s@, seq![c], j) <==> (0 <= j < s@.len() && s@[j]
            == c) by {
            lemma_occurs_single(s@, c, j);
        }
        match found {
            Some(i) => {
                assert(s@[i as int] == c);
                assert(occurs_at(s@, seq![c], i as int));
                match spec_find(s@, seq![c]) {
                    Some(ip) => {
                        assert(occurs_at(s@, seq![c], ip));
                        if ip < i as int {
                            assert(s@[ip] == c);
                            assert(s@[ip] != c);
                        }
                        if ip > i as int {
                            assert(!occurs_at(s@, seq![c], i as int));
                        }
                        assert(ip == i as int);
                    },
                    None => {
                        assert(contains_seq(s@, seq![c]));
                    },
                }
            },
            None => {
                if spec_find(s@, seq![c]) is Some {
                    let ip = spec_find(s@, seq![c])->0;
                    assert(occurs_at(s@, seq![c], ip));
                    assert(s@[ip] == c);
                    assert(s@[ip] != c);
                }
            },
        }
    }
    found
}

/// An owned copy of the characters of `s` before the first `c`.
pub fn up_to_char_string(s: &str, c: char) -> (r: String)
    ensures
        r@ == spec_up_to_char(s@, c),
{
    match find_char_first(s, c) {
        Some(i) => {
            proof {
                lemma_spec_find_correct(s@, seq![c]);
                lemma_occurs_single(s@, c, i as int);
            }
            substr_to_string(s, 0, i)
        },
        None => s.to_owned(),
    }
}

/// `s` with every space replaced by the escape `%20`.
pub open spec fn escape_spaces(s: Seq<char>) -> Seq<char>
    decreases s.len(),
{
    if s.len() == 0 {
        Seq::empty()
    } else if s[0] == ' ' {
        "%20"@ + escape_spaces(s.drop_first())
    } else {
        seq![s[0]] + escape_spaces(s.drop_first())
    }
}

proof fn lemma_escape_spaces_snoc(s: Seq<char>, c: char)
    ensures
        escape_spaces(s.push(c)) == escape_spaces(s) + (if c == ' ' {
            "%20"@
        } else {
            seq![c]
        }),
    decreases s.len(),
{
    let tail: Seq<char> = (if c == ' ' {
        "%20"@
    } else {
        seq![c]
    });
    if s.len() == 0 {
        assert(s.push(c)[0] == c);
        assert(s.push(c).drop_first() =~= Seq::<char>::empty());
        assert(escape_spaces(s.push(c)) == tail + escape_spaces(Seq::<char>::empty()));
        assert(escape_spaces(s.push(c)) =~= escape_spaces(s) + tail);
    } else {
        assert(s.push(c).drop_first() =~= s.drop_first().push(c));
        lemma_escape_spaces_snoc(s.drop_first(), c);
        assert(escape_spaces(s.push(c)) =~= escape_spaces(s) + tail);
    }
}

/// An owned copy of `s` with every space replaced by `%20`.
pub fn escape_spaces_str(s: &str) -> (r: String)
    ensures
        r@ == escape_spaces(s@),
{
    let n = s.unicode_len();
    let mut r = String::new();
    let mut i: usize = 0;
    while i < n
        invariant
            i <= n,
            n == s@.len(),
            r@ == escape_spaces(s@.subrange(0, i as int)),
        decreases n - i,
    {
        if s.get_char(i) == ' ' {
            r.append("%20");
        } else {
            let piece = s.substring_char(i, i + 1);
            assert(piece@ =~= seq![s@[i as int]]);
            r.append(piece);
        }
        proof {
            assert(s@.subrange(0, i + 1) =~= s@.subrange(0, i as int).push(s@[i as int]));
            lemma_escape_spaces_snoc(s@.subrange(0, i as int), s@[i as int]);
        }
        i += 1;
    }
    assert(s@.subrange(0, n as int) =~= s@);
    r
}

/// The character for one decimal digit.
pub open spec fn digit_char(d: nat) -> char {
    if d == 0 {
        '0'
    } else if d == 1 {
        '1'
    } else if d == 2 {
        '2'
    } else if d == 3 {
        '3'
    } else if d == 4 {
        '4'
    } else if d == 5 {
        '5'
    } else if d == 6 {
        '6'
    } else if d == 7 {
        '7'
    } else if d == 8 {
        '8'
    } else {
        '9'
    }
}

/// Decimal digits of `n`, most significant first, with no leading zeros
/// (a lone zero for `n == 0`).
pub open spec fn dec_rep(n: nat) -> Seq<char>
    decreases n,
{
    if n < 10 {
        seq![digit_char(n)]
    } else {
        dec_rep(n / 10).push(digit_char(n % 10))
    }
}

/// Decimal digits of `n`, preceded by a minus sign when `n` is negative.
pub open spec fn dec_rep_signed(n: int) -> Seq<char> {
    if n < 0 {
        seq!['-'] + dec_rep((-n) as nat)
    } else {
        dec_rep(n as nat)
    }
}

fn digit_str(d: u64) -> (r: &'static str)
    requires
        d < 10,
    ensures
        r@ == seq![digit_char(d as nat)],
{
    match d {
        0 => {
            proof {
                reveal_strlit("0");
                assert("0"@ =~= seq![digit_char(0)]);
            }
            "0"
        },
        1 => {
            proof {
                reveal_strlit("1");
                assert("1"@ =~= seq![digit_char(1)]);
            }
            "1"
        },
        2 => {
            proof {
                reveal_strlit("2");
                assert("2"@ =~= seq![digit_char(2)]);
            }
            "2"
        },
        3 => {
            proof {
                reveal_strlit("3");
                assert("3"@ =~= seq![digit_char(3)]);
            }
            "3"
        },
        4 => {
            proof {
                reveal_strlit("4");
                assert("4"@ =~= seq![digit_char(4)]);
            }
            "4"
        },
        5 => {
            proof {
                reveal_strlit("5");
                assert("5"@ =~= seq![digit_char(5)]);
            }
            "5"
        },
        6 => {
            proof {
                reveal_strlit("6");
                assert("6"@ =~= seq![digit_char(6)]);
            }
            "6"
        },
        7 => {
            proof {
                reveal_strlit("7");
                assert("7"@ =~= seq![digit_char(7)]);
            }
            "7"
        },
        8 => {
            proof {
                reveal_strlit("8");
                assert("8"@ =~= seq![digit_char(8)]);
            }
            "8"
        },
        _ => {
            proof {
                reveal_strlit("9");
                assert("9"@ =~= seq![digit_char(9)]);
            }
            "9"
        },
    }
}

/// Appends the decimal digits of `n` to `s`.
pub fn append_dec_u64(s: &mut String, n: u64)
    ensures
        final(s)@ == old(s)@ + dec_rep(n as nat),
    decreases n,
{
    if n < 10 {
        s.append(digit_str(n));
    } else {
        append_dec_u64(s, n / 10);
        s.append(digit_str(n % 10));
        assert(old(s)@ + dec_rep((n / 10) as nat) + seq![digit_char((n % 10) as nat)] =~= old(
            s,
        )@ + dec_rep(n as nat));
    }
}

/// Appends the decimal digits of `n` to `s`, sign included.
pub fn append_dec_i64(s: &mut String, n: i64)
    ensures
        final(s)@ == old(s)@ + dec_rep_signed(n as int),
{
    if n < 0 {
        proof {
            reveal_strlit("-");
            assert("-"@ =~= seq!['-']);
        }
        s.append("-");
        let mag: u64 = (-(n as i128)) as u64;
        append_dec_u64(s, mag);
        assert(old(s)@ + seq!['-'] + dec_rep(mag as nat) =~= old(s)@ + dec_rep_signed(n as int));
    } else {
        append_dec_u64(s, n as u64);
    }
}

} // verus!
