//! Character and sequence utilities for the mnemonic grammar: ASCII case
//! folding, whitespace trimming, and splitting on the `+` separator.

use vstd::prelude::*;

verus! {

/// ASCII case folding of one character; everything outside `A`..`Z` is kept.
pub open spec fn lower_char(c: char) -> char {
    match c {
        'A' => 'a',
        'B' => 'b',
        'C' => 'c',
        'D' => 'd',
        'E' => 'e',
        'F' => 'f',
        'G' => 'g',
        'H' => 'h',
        'I' => 'i',
        'J' => 'j',
        'K' => 'k',
        'L' => 'l',
        'M' => 'm',
        'N' => 'n',
        'O' => 'o',
        'P' => 'p',
        'Q' => 'q',
        'R' => 'r',
        'S' => 's',
        'T' => 't',
        'U' => 'u',
        'V' => 'v',
        'W' => 'w',
        'X' => 'x',
        'Y' => 'y',
        'Z' => 'z',
        _ => c,
    }
}

/// ASCII case folding of a character sequence.
pub open spec fn lower_seq(s: Seq<char>) -> Seq<char> {
    Seq::new(s.len(), |i: int| lower_char(s[i]))
}

/// The whitespace tolerated around mnemonic tokens.
pub open spec fn spec_is_space(c: char) -> bool {
    c == ' ' || c == '\t' || c == '\r' || c == '\n'
}

/// Whether a sequence is free of the `+` separator.
pub open spec fn no_plus(s: Seq<char>) -> bool {
    forall|i: int| 0 <= i < s.len() ==> s[i] != '+'
}

/// Whether a sequence is free of whitespace.
pub open spec fn no_space(s: Seq<char>) -> bool {
    forall|i: int| 0 <= i < s.len() ==> !spec_is_space(s[i])
}

/// Drop leading whitespace.
pub open spec fn trim_front(s: Seq<char>) -> Seq<char>
    decreases s.len(),
{
    if s.len() > 0 && spec_is_space(s[0]) {
        trim_front(s.subrange(1, s.len() as int))
    } else {
        s
    }
}

/// Drop trailing whitespace.
pub open spec fn trim_back(s: Seq<char>) -> Seq<char>
    decreases s.len(),
{
    if s.len() > 0 && spec_is_space(s[s.len() - 1]) {
        trim_back(s.subrange(0, s.len() - 1))
    } else {
        s
    }
}

/// Drop whitespace at both ends.
pub open spec fn trim_spec(s: Seq<char>) -> Seq<char> {
    trim_back(trim_front(s))
}

/// A sequence without whitespace trims to itself.
pub proof fn lemma_trim_id(s: Seq<char>)
    requires
        no_space(s),
    ensures
        trim_spec(s) == s,
{
    if s.len() > 0 {
        assert(!spec_is_space(s[0]));
        assert(!spec_is_space(s[s.len() - 1]));
    }
}

/// Trimming the front is the same as skipping the longest whitespace prefix.
pub proof fn lemma_trim_front_skip(s: Seq<char>, lo: int)
    requires
        0 <= lo <= s.len(),
        forall|j: int| 0 <= j < lo ==> spec_is_space(s[j]),
        lo < s.len() ==> !spec_is_space(s[lo]),
    ensures
        trim_front(s) == s.subrange(lo, s.len() as int),
    decreases lo,
{
    if lo == 0 {
        if s.len() > 0 {
            assert(!spec_is_space(s[0]));
        }
        assert(trim_front(s) == s);
        assert(s.subrange(0, s.len() as int) =~= s);
    } else {
        assert(spec_is_space(s[0]));
        let t = s.subrange(1, s.len() as int);
        lemma_trim_front_skip(t, lo - 1);
        assert(t.subrange(lo - 1, t.len() as int) =~= s.subrange(lo, s.len() as int));
    }
}

/// Trimming the back is the same as cutting the longest whitespace suffix.
pub proof fn lemma_trim_back_take(s: Seq<char>, hi: int)
    requires
        0 <= hi <= s.len(),
        forall|j: int| hi <= j < s.len() ==> spec_is_space(s[j]),
        hi > 0 ==> !spec_is_space(s[hi - 1]),
    ensures
        trim_back(s) == s.subrange(0, hi),
    decreases s.len() - hi,
{
    if hi == s.len() {
        if s.len() > 0 {
            assert(!spec_is_space(s[s.len() - 1]));
        }
        assert(trim_back(s) == s);
        assert(s.subrange(0, s.len() as int) =~= s);
    } else {
        assert(spec_is_space(s[s.len() - 1]));
        let t = s.subrange(0, s.len() - 1);
        lemma_trim_back_take(t, hi);
        assert(t.subrange(0, hi) =~= s.subrange(0, hi));
    }
}

/// An all-whitespace sequence trims to nothing, and conversely.
pub proof fn lemma_trim_empty(s: Seq<char>)
    ensures
        trim_spec(s).len() == 0 <==> (forall|i: int| 0 <= i < s.len() ==> spec_is_space(s[i])),
    decreases s.len(),
{
    if s.len() == 0 {
    } else if spec_is_space(s[0]) {
        let t = s.subrange(1, s.len() as int);
        lemma_trim_empty(t);
        assert(trim_front(s) == trim_front(t));
        assert(forall|i: int| 0 <= i < t.len() ==> t[i] == s[i + 1]);
        if trim_spec(s).len() == 0 {
            assert forall|i: int| 0 <= i < s.len() implies spec_is_space(s[i]) by {
                if i > 0 {
                    assert(t[i - 1] == s[i]);
                }
            }
        }
    } else {
        assert(trim_front(s) == s);
        if s.len() > 0 && spec_is_space(s[s.len() - 1]) {
            lemma_trim_back_nonempty(s);
        } else {
            assert(trim_back(s) == s);
        }
    }
}

/// Trimming the back of a sequence that starts with a non-space keeps it
/// nonempty.
proof fn lemma_trim_back_nonempty(s: Seq<char>)
    requires
        s.len() > 0,
        !spec_is_space(s[0]),
    ensures
        trim_back(s).len() > 0,
        trim_back(s)[0] == s[0],
    decreases s.len(),
{
    if spec_is_space(s[s.len() - 1]) {
        let t = s.subrange(0, s.len() - 1);
        assert(t[0] == s[0]);
        lemma_trim_back_nonempty(t);
    }
}

/// Split a sequence on `+`; the result always holds at least one (possibly
/// empty) piece, and one more piece per separator.
pub open spec fn split_plus(s: Seq<char>) -> Seq<Seq<char>>
    decreases s.len(),
{
    if s.len() == 0 {
        seq![Seq::<char>::empty()]
    } else if s[0] == '+' {
        seq![Seq::<char>::empty()] + split_plus(s.subrange(1, s.len() as int))
    } else {
        let r = split_plus(s.subrange(1, s.len() as int));
        seq![seq![s[0]] + r[0]] + r.subrange(1, r.len() as int)
    }
}

/// `split_plus` never yields an empty list of pieces.
pub proof fn lemma_split_len(s: Seq<char>)
    ensures
        split_plus(s).len() >= 1,
    decreases s.len(),
{
    if s.len() > 0 {
        lemma_split_len(s.subrange(1, s.len() as int));
    }
}

/// A sequence without separators is a single piece.
pub proof fn lemma_split_no_plus(s: Seq<char>)
    requires
        no_plus(s),
    ensures
        split_plus(s) =~= seq![s],
    decreases s.len(),
{
    if s.len() == 0 {
        assert(s =~= Seq::<char>::empty());
    } else {
        let t = s.subrange(1, s.len() as int);
        lemma_split_no_plus(t);
        let r = split_plus(t);
        assert(r =~= seq![t]);
        assert(r[0] == t);
        assert(r.subrange(1, r.len() as int) =~= Seq::<Seq<char>>::empty());
        assert(seq![s[0]] + t =~= s);
        assert(split_plus(s) =~= seq![seq![s[0]] + r[0]] + r.subrange(1, r.len() as int));
        assert(seq![seq![s[0]] + r[0]] + r.subrange(1, r.len() as int) =~= seq![s]);
    }
}

/// Splitting at the first separator: the piece before it, then the split of
/// what follows it.
pub proof fn lemma_split_at_plus(s: Seq<char>, i: int)
    requires
        0 <= i < s.len(),
        s[i] == '+',
        forall|j: int| 0 <= j < i ==> s[j] != '+',
    ensures
        split_plus(s) =~= seq![s.subrange(0, i)] + split_plus(s.subrange(i + 1, s.len() as int)),
    decreases i,
{
    if i == 0 {
        assert(s.subrange(0, 0) =~= Seq::<char>::empty());
    } else {
        let t = s.subrange(1, s.len() as int);
        lemma_split_at_plus(t, i - 1);
        lemma_split_len(t.subrange(i, t.len() as int));
        assert(t.subrange(0, i - 1) =~= s.subrange(1, i));
        assert(t.subrange(i, t.len() as int) =~= s.subrange(i + 1, s.len() as int));
        assert(seq![s[0]] + s.subrange(1, i) =~= s.subrange(0, i));
    }
}

/// Executable ASCII case folding of one character.
pub fn lower_char_exec(c: char) -> (r: char)
    ensures
        r == lower_char(c),
{
    match c {
        'A' => 'a',
        'B' => 'b',
        'C' => 'c',
        'D' => 'd',
        'E' => 'e',
        'F' => 'f',
        'G' => 'g',
        'H' => 'h',
        'I' => 'i',
        'J' => 'j',
        'K' => 'k',
        'L' => 'l',
        'M' => 'm',
        'N' => 'n',
        'O' => 'o',
        'P' => 'p',
        'Q' => 'q',
        'R' => 'r',
        'S' => 's',
        'T' => 't',
        'U' => 'u',
        'V' => 'v',
        'W' => 'w',
        'X' => 'x',
        'Y' => 'y',
        'Z' => 'z',
        _ => c,
    }
}

/// Executable whitespace test.
pub fn is_space_exec(c: char) -> (r: bool)
    ensures
        r == spec_is_space(c),
{
    c == ' ' || c == '\t' || c == '\r' || c == '\n'
}

/// Whether two strings hold the same characters.
pub fn str_eq(a: &str, b: &str) -> (r: bool)
    ensures
        r == (a@ == b@),
{
    let n = a.unicode_len();
    if b.unicode_len() != n {
        return false;
    }
    let mut i: usize = 0;
    while i < n
        invariant
            i <= n == a@.len(),
            b@.len() == n,
            forall|j: int| 0 <= j < i ==> a@[j] == b@[j],
        decreases n - i,
    {
        if a.get_char(i) != b.get_char(i) {
            return false;
        }
        i += 1;
    }
    proof {
        assert(a@ =~= b@);
    }
    true
}

/// Strict lexicographic order on character sequences, by code point, the
/// shorter sequence first on a tie.
pub open spec fn lex_lt(a: Seq<char>, b: Seq<char>) -> bool
    decreases a.len(),
{
    if b.len() == 0 {
        false
    } else if a.len() == 0 {
        true
    } else if a[0] != b[0] {
        a[0] < b[0]
    } else {
        lex_lt(a.subrange(1, a.len() as int), b.subrange(1, b.len() as int))
    }
}

/// The order is strict: nothing sits below what sits below it.
pub proof fn lemma_lex_asym(a: Seq<char>, b: Seq<char>)
    requires
        lex_lt(a, b),
    ensures
        !lex_lt(b, a),
    decreases a.len(),
{
    if a.len() > 0 && b.len() > 0 && a[0] == b[0] {
        lemma_lex_asym(a.subrange(1, a.len() as int), b.subrange(1, b.len() as int));
    }
}

/// Not sitting below is transitive: an insertion point found against a
/// sorted list keeps it sorted.
pub proof fn lemma_lex_nlt_trans(a: Seq<char>, b: Seq<char>, c: Seq<char>)
    requires
        !lex_lt(b, a),
        !lex_lt(c, b),
    ensures
        !lex_lt(c, a),
    decreases a.len(),
{
    if a.len() > 0 && b.len() > 0 && c.len() > 0 && a[0] == b[0] && b[0] == c[0] {
        lemma_lex_nlt_trans(
            a.subrange(1, a.len() as int),
            b.subrange(1, b.len() as int),
            c.subrange(1, c.len() as int),
        );
    }
}

/// Executable lexicographic comparison.
pub fn str_lt(a: &str, b: &str) -> (r: bool)
    ensures
        r == lex_lt(a@, b@),
{
    let an = a.unicode_len();
    let bn = b.unicode_len();
    proof {
        assert(a@.subrange(0, an as int) =~= a@);
        assert(b@.subrange(0, bn as int) =~= b@);
    }
    let mut i: usize = 0;
    loop
        invariant
            i <= an == a@.len(),
            i <= bn == b@.len(),
            lex_lt(a@, b@) == lex_lt(
                a@.subrange(i as int, an as int),
                b@.subrange(i as int, bn as int),
            ),
        decreases an - i,
    {
        let ghost ar = a@.subrange(i as int, an as int);
        let ghost br = b@.subrange(i as int, bn as int);
        if i == bn {
            assert(br.len() == 0);
            return false;
        }
        if i == an {
            assert(ar.len() == 0 && br.len() > 0);
            return true;
        }
        let ca = a.get_char(i);
        let cb = b.get_char(i);
        proof {
            assert(ar[0] == a@[i as int] && br[0] == b@[i as int]);
            assert(ar.subrange(1, ar.len() as int) =~= a@.subrange(i + 1, an as int));
            assert(br.subrange(1, br.len() as int) =~= b@.subrange(i + 1, bn as int));
        }
        if ca != cb {
            return ca < cb;
        }
        i += 1;
    }
}

/// Whether a string is blank: empty, or whitespace only.
pub fn is_blank(s: &str) -> (r: bool)
    ensures
        r == (trim_spec(s@).len() == 0),
{
    let n = s.unicode_len();
    let mut i: usize = 0;
    while i < n
        invariant
            i <= n == s@.len(),
            forall|j: int| 0 <= j < i ==> spec_is_space(s@[j]),
        decreases n - i,
    {
        if !is_space_exec(s.get_char(i)) {
            proof {
                lemma_trim_empty(s@);
            }
            return false;
        }
        i += 1;
    }
    proof {
        lemma_trim_empty(s@);
    }
    true
}


/// The string an upper-case ASCII letter folds to; any other character
/// folds to itself.
fn lowered_letter(c: char) -> (r: Option<&'static str>)
    ensures
        match r {
            Some(t) => t@ == seq![lower_char(c)],
            None => lower_char(c) == c,
        },
{
    match c {
        'A' => {
            proof {
                reveal_strlit("a");
            }
            Some("a")
        },
        'B' => {
            proof {
                reveal_strlit("b");
            }
            Some("b")
        },
        'C' => {
            proof {
                reveal_strlit("c");
            }
            Some("c")
        },
        'D' => {
            proof {
                reveal_strlit("d");
            }
            Some("d")
        },
        'E' => {
            proof {
                reveal_strlit("e");
            }
            Some("e")
        },
        'F' => {
            proof {
                reveal_strlit("f");
            }
            Some("f")
        },
        'G' => {
            proof {
                reveal_strlit("g");
            }
            Some("g")
        },
        'H' => {
            proof {
                reveal_strlit("h");
            }
            Some("h")
        },
        'I' => {
            proof {
                reveal_strlit("i");
            }
            Some("i")
        },
        'J' => {
            proof {
                reveal_strlit("j");
            }
            Some("j")
        },
        'K' => {
            proof {
                reveal_strlit("k");
            }
            Some("k")
        },
        'L' => {
            proof {
                reveal_strlit("l");
            }
            Some("l")
        },
        'M' => {
            proof {
                reveal_strlit("m");
            }
            Some("m")
        },
        'N' => {
            proof {
                reveal_strlit("n");
            }
            Some("n")
        },
        'O' => {
            proof {
                reveal_strlit("o");
            }
            Some("o")
        },
        'P' => {
            proof {
                reveal_strlit("p");
            }
            Some("p")
        },
        'Q' => {
            proof {
                reveal_strlit("q");
            }
            Some("q")
        },
        'R' => {
            proof {
                reveal_strlit("r");
            }
            Some("r")
        },
        'S' => {
            proof {
                reveal_strlit("s");
            }
            Some("s")
        },
        'T' => {
            proof {
                reveal_strlit("t");
            }
            Some("t")
        },
        'U' => {
            proof {
                reveal_strlit("u");
            }
            Some("u")
        },
        'V' => {
            proof {
                reveal_strlit("v");
            }
            Some("v")
        },
        'W' => {
            proof {
                reveal_strlit("w");
            }
            Some("w")
        },
        'X' => {
            proof {
                reveal_strlit("x");
            }
            Some("x")
        },
        'Y' => {
            proof {
                reveal_strlit("y");
            }
            Some("y")
        },
        'Z' => {
            proof {
                reveal_strlit("z");
            }
            Some("z")
        },
        _ => None,
    }
}

/// The span `[lo, hi)` of `s`, case folded, as an owned string.
pub fn lower_span_string(s: &str, lo: usize, hi: usize) -> (r: String)
    requires
        lo <= hi <= s@.len(),
    ensures
        r@ == lower_seq(s@.subrange(lo as int, hi as int)),
{
    let mut out = String::new();
    proof {
        assert(out@ =~= lower_seq(s@.subrange(lo as int, lo as int)));
    }
    let mut i = lo;
    while i < hi
        invariant
            lo <= i <= hi <= s@.len(),
            out@ == lower_seq(s@.subrange(lo as int, i as int)),
        decreases hi - i,
    {
        let c = s.get_char(i);
        match lowered_letter(c) {
            Some(t) => {
                out.append(t);
            }
            None => {
                let piece = s.substring_char(i, i + 1);
                proof {
                    assert(piece@ =~= seq![s@[i as int]]);
                }
                out.append(piece);
            }
        }
        proof {
            assert(out@ =~= lower_seq(s@.subrange(lo as int, i + 1)));
        }
        i += 1;
    }
    out
}

/// Whether the span `[lo, hi)` of `s`, case folded, equals the pattern.
pub fn span_eq_lower(s: &str, lo: usize, hi: usize, pat: &str) -> (r: bool)
    requires
        lo <= hi <= s@.len(),
    ensures
        r == (lower_seq(s@.subrange(lo as int, hi as int)) == pat@),
{
    let pn = pat.unicode_len();
    if hi - lo != pn {
        proof {
            assert(lower_seq(s@.subrange(lo as int, hi as int)).len() == hi - lo);
        }
        return false;
    }
    let mut i: usize = 0;
    while i < pn
        invariant
            lo <= hi <= s@.len(),
            hi - lo == pn == pat@.len(),
            i <= pn,
            forall|j: int|
                0 <= j < i ==> lower_char(s@.subrange(lo as int, hi as int)[j]) == pat@[j],
        decreases pn - i,
    {
        let c = s.get_char(lo + i);
        let p = pat.get_char(i);
        proof {
            assert(s@.subrange(lo as int, hi as int)[i as int] == s@[lo + i]);
        }
        if lower_char_exec(c) != p {
            proof {
                assert(lower_seq(s@.subrange(lo as int, hi as int))[i as int] != pat@[i as int]);
            }
            return false;
        }
        i += 1;
    }
    proof {
        assert(lower_seq(s@.subrange(lo as int, hi as int)) =~= pat@);
    }
    true
}

} // verus!
