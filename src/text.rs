use vstd::prelude::*;

verus! {

/// `c` is an ASCII capital letter.
pub open spec fn is_ascii_upper(c: char) -> bool {
    'A' <= c && c <= 'Z'
}

/// Two characters are equal once ASCII letters are folded to one case.
pub open spec fn char_eq_ignore_case(a: char, b: char) -> bool {
    a == b || (is_ascii_upper(a) && a as u32 + 32 == b as u32) || (is_ascii_upper(b) && b as u32
        + 32 == a as u32)
}

/// Two strings are equal once ASCII letters are folded to one case.
pub open spec fn eq_ignore_case(a: Seq<char>, b: Seq<char>) -> bool {
    a.len() == b.len() && forall|i: int| 0 <= i < a.len() ==> #[trigger] char_eq_ignore_case(a[i], b[i])
}

/// The characters that `char::is_whitespace` accepts (Unicode White_Space).
pub open spec fn is_white(c: char) -> bool {
    let u = c as u32;
    (0x09 <= u && u <= 0x0d) || u == 0x20 || u == 0x85 || u == 0xa0 || u == 0x1680 || (0x2000 <= u
        && u <= 0x200a) || u == 0x2028 || u == 0x2029 || u == 0x202f || u == 0x205f || u == 0x3000
}

/// `s` without the white space at its start.
pub open spec fn trim_start(s: Seq<char>) -> Seq<char>
    decreases s.len(),
{
    if s.len() > 0 && is_white(s[0]) {
        trim_start(s.drop_first())
    } else {
        s
    }
}

/// `s` without the white space at its end.
pub open spec fn trim_end(s: Seq<char>) -> Seq<char>
    decreases s.len(),
{
    if s.len() > 0 && is_white(s.last()) {
        trim_end(s.drop_last())
    } else {
        s
    }
}

/// `s` without white space at either end.
pub open spec fn trim(s: Seq<char>) -> Seq<char> {
    trim_end(trim_start(s))
}

/// The pieces of `s` between the `sep` characters, in order; always at least one.
pub open spec fn split_on(s: Seq<char>, sep: char) -> Seq<Seq<char>>
    decreases s.len(),
{
    if s.len() == 0 {
        seq![Seq::<char>::empty()]
    } else {
        let prev = split_on(s.drop_last(), sep);
        if s.last() == sep {
            prev.push(Seq::<char>::empty())
        } else {
            prev.update(prev.len() - 1, prev.last().push(s.last()))
        }
    }
}

pub proof fn lemma_split_on_nonempty(s: Seq<char>, sep: char)
    ensures
        split_on(s, sep).len() >= 1,
    decreases s.len(),
{
    if s.len() > 0 {
        lemma_split_on_nonempty(s.drop_last(), sep);
    }
}

/// The code of `c` with ASCII capitals folded to small letters.
pub open spec fn fold_code(c: char) -> u32 {
    if is_ascii_upper(c) {
        (c as u32 + 32) as u32
    } else {
        c as u32
    }
}

pub proof fn lemma_char_eq_fold(a: char, b: char)
    ensures
        char_eq_ignore_case(a, b) <==> fold_code(a) == fold_code(b),
{
    assert(a as u32 == b as u32 ==> a == b);
}

pub proof fn lemma_eq_ignore_case_equiv(a: Seq<char>, b: Seq<char>, c: Seq<char>)
    ensures
        eq_ignore_case(a, a),
        eq_ignore_case(a, b) ==> eq_ignore_case(b, a),
        eq_ignore_case(a, b) && eq_ignore_case(b, c) ==> eq_ignore_case(a, c),
{
    assert forall|i: int| 0 <= i < a.len() implies #[trigger] char_eq_ignore_case(a[i], a[i]) by {}
    if eq_ignore_case(a, b) {
        assert forall|i: int| 0 <= i < b.len() implies #[trigger] char_eq_ignore_case(b[i], a[i]) by {
            assert(char_eq_ignore_case(a[i], b[i]));
            lemma_char_eq_fold(a[i], b[i]);
            lemma_char_eq_fold(b[i], a[i]);
        }
        if eq_ignore_case(b, c) {
            assert forall|i: int| 0 <= i < a.len() implies #[trigger] char_eq_ignore_case(
                a[i],
                c[i],
            ) by {
                assert(char_eq_ignore_case(a[i], b[i]));
                assert(char_eq_ignore_case(b[i], c[i]));
                lemma_char_eq_fold(a[i], b[i]);
                lemma_char_eq_fold(b[i], c[i]);
                lemma_char_eq_fold(a[i], c[i]);
            }
        }
    }
}

/// Strings equal up to ASCII case stay so once trimmed.
pub proof fn lemma_trim_ignore_case(a: Seq<char>, b: Seq<char>)
    requires
        eq_ignore_case(a, b),
    ensures
        eq_ignore_case(trim(a), trim(b)),
{
    lemma_trim_start_ignore_case(a, b);
    lemma_trim_end_ignore_case(trim_start(a), trim_start(b));
}

proof fn lemma_trim_start_ignore_case(a: Seq<char>, b: Seq<char>)
    requires
        eq_ignore_case(a, b),
    ensures
        eq_ignore_case(trim_start(a), trim_start(b)),
    decreases a.len(),
{
    if a.len() > 0 {
        assert(char_eq_ignore_case(a[0], b[0]));
        assert(is_white(a[0]) == is_white(b[0]));
        if is_white(a[0]) {
            assert forall|i: int| 0 <= i < a.drop_first().len() implies #[trigger] char_eq_ignore_case(
                a.drop_first()[i],
                b.drop_first()[i],
            ) by {
                assert(char_eq_ignore_case(a[i + 1], b[i + 1]));
            }
            lemma_trim_start_ignore_case(a.drop_first(), b.drop_first());
        }
    }
}

proof fn lemma_trim_end_ignore_case(a: Seq<char>, b: Seq<char>)
    requires
        eq_ignore_case(a, b),
    ensures
        eq_ignore_case(trim_end(a), trim_end(b)),
    decreases a.len(),
{
    if a.len() > 0 {
        assert(char_eq_ignore_case(a[a.len() - 1], b[b.len() - 1]));
        assert(is_white(a.last()) == is_white(b.last()));
        if is_white(a.last()) {
            assert forall|i: int| 0 <= i < a.drop_last().len() implies #[trigger] char_eq_ignore_case(
                a.drop_last()[i],
                b.drop_last()[i],
            ) by {
                assert(char_eq_ignore_case(a[i], b[i]));
            }
            lemma_trim_end_ignore_case(a.drop_last(), b.drop_last());
        }
    }
}

/// Splitting strings equal up to ASCII case (at a separator that is no
/// letter) gives pieces equal up to ASCII case.
pub proof fn lemma_split_ignore_case(a: Seq<char>, b: Seq<char>, sep: char)
    requires
        eq_ignore_case(a, b),
        !is_ascii_upper(sep),
        !('a' <= sep && sep <= 'z'),
    ensures
        split_on(a, sep).len() == split_on(b, sep).len(),
        forall|i: int|
            0 <= i < split_on(a, sep).len() ==> eq_ignore_case(
                #[trigger] split_on(a, sep)[i],
                split_on(b, sep)[i],
            ),
    decreases a.len(),
{
    if a.len() > 0 {
        let a0 = a.drop_last();
        let b0 = b.drop_last();
        assert forall|i: int| 0 <= i < a0.len() implies #[trigger] char_eq_ignore_case(
            a0[i],
            b0[i],
        ) by {
            assert(char_eq_ignore_case(a[i], b[i]));
        }
        lemma_split_ignore_case(a0, b0, sep);
        lemma_split_on_nonempty(a0, sep);
        let x = a.last();
        let y = b.last();
        assert(char_eq_ignore_case(a[a.len() - 1], b[b.len() - 1]));
        lemma_char_eq_fold(x, sep);
        lemma_char_eq_fold(y, sep);
        lemma_char_eq_fold(x, y);
        assert((x == sep) == (y == sep));
        let pa = split_on(a0, sep);
        let pb = split_on(b0, sep);
        if x != sep {
            let la = pa.last().push(x);
            let lb = pb.last().push(y);
            assert(eq_ignore_case(pa[pa.len() - 1], pb[pb.len() - 1]));
            assert forall|i: int| 0 <= i < la.len() implies #[trigger] char_eq_ignore_case(
                la[i],
                lb[i],
            ) by {
                if i < la.len() - 1 {
                    assert(char_eq_ignore_case(pa.last()[i], pb.last()[i]));
                }
            }
            assert forall|i: int| 0 <= i < split_on(a, sep).len() implies eq_ignore_case(
                #[trigger] split_on(a, sep)[i],
                split_on(b, sep)[i],
            ) by {
                if i < pa.len() - 1 {
                    assert(eq_ignore_case(pa[i], pb[i]));
                }
            }
        } else {
            assert forall|i: int| 0 <= i < split_on(a, sep).len() implies eq_ignore_case(
                #[trigger] split_on(a, sep)[i],
                split_on(b, sep)[i],
            ) by {
                if i < pa.len() {
                    assert(eq_ignore_case(pa[i], pb[i]));
                }
            }
        }
    }
}

pub fn is_white_char(c: char) -> (r: bool)
    ensures
        r == is_white(c),
{
    let u = c as u32;
    (0x09 <= u && u <= 0x0d) || u == 0x20 || u == 0x85 || u == 0xa0 || u == 0x1680 || (0x2000 <= u
        && u <= 0x200a) || u == 0x2028 || u == 0x2029 || u == 0x202f || u == 0x205f || u == 0x3000
}

pub fn char_eq_ignore_ascii_case(a: char, b: char) -> (r: bool)
    ensures
        r == char_eq_ignore_case(a, b),
{
    let x = a as u32;
    let y = b as u32;
    x == y || ('A' <= a && a <= 'Z' && x + 32 == y) || ('A' <= b && b <= 'Z' && y + 32 == x)
}

/// Compares two strings, folding ASCII letters to one case.
pub fn str_eq_ignore_ascii_case(a: &str, b: &str) -> (r: bool)
    ensures
        r == eq_ignore_case(a@, b@),
{
    let n = a.unicode_len();
    let m = b.unicode_len();
    if n != m {
        return false;
    }
    let mut i: usize = 0;
    while i < n
        invariant
            n == a@.len(),
            m == b@.len(),
            n == m,
            i <= n,
            forall|j: int| 0 <= j < i ==> #[trigger] char_eq_ignore_case(a@[j], b@[j]),
        decreases n - i,
    {
        if !char_eq_ignore_ascii_case(a.get_char(i), b.get_char(i)) {
            return false;
        }
        i += 1;
    }
    true
}

/// Compares two strings character by character.
pub fn str_eq(a: &str, b: &str) -> (r: bool)
    ensures
        r == (a@ == b@),
{
    let n = a.unicode_len();
    let m = b.unicode_len();
    if n != m {
        return false;
    }
    let mut i: usize = 0;
    while i < n
        invariant
            n == a@.len(),
            m == b@.len(),
            n == m,
            i <= n,
            forall|j: int| 0 <= j < i ==> a@[j] == b@[j],
        decreases n - i,
    {
        if a.get_char(i) != b.get_char(i) {
            return false;
        }
        i += 1;
    }
    assert(a@ =~= b@);
    true
}

proof fn lemma_trim_start_skip(s: Seq<char>, k: int)
    requires
        0 <= k <= s.len(),
        forall|j: int| 0 <= j < k ==> is_white(#[trigger] s[j]),
    ensures
        trim_start(s) == trim_start(s.subrange(k, s.len() as int)),
    decreases k,
{
    if k > 0 {
        assert(s.drop_first() =~= s.subrange(1, s.len() as int));
        lemma_trim_start_skip(s.drop_first(), k - 1);
        assert(s.drop_first().subrange(k - 1, s.drop_first().len() as int) =~= s.subrange(
            k,
            s.len() as int,
        ));
    } else {
        assert(s.subrange(0, s.len() as int) =~= s);
    }
}

proof fn lemma_trim_end_skip(s: Seq<char>, k: int)
    requires
        0 <= k <= s.len(),
        forall|j: int| k <= j < s.len() ==> is_white(#[trigger] s[j]),
    ensures
        trim_end(s) == trim_end(s.subrange(0, k)),
    decreases s.len() - k,
{
    if k < s.len() {
        assert(s.drop_last() =~= s.subrange(0, s.len() - 1));
        lemma_trim_end_skip(s.drop_last(), k);
        assert(s.drop_last().subrange(0, k) =~= s.subrange(0, k));
    } else {
        assert(s.subrange(0, k) =~= s);
    }
}

/// `s` without white space at either end, as `str::trim` gives it.
pub fn trim_str(s: &str) -> (r: &str)
    ensures
        r@ == trim(s@),
{
    let n = s.unicode_len();
    let mut a: usize = 0;
    while a < n && is_white_char(s.get_char(a))
        invariant
            n == s@.len(),
            a <= n,
            forall|j: int| 0 <= j < a ==> is_white(#[trigger] s@[j]),
        decreases n - a,
    {
        a += 1;
    }
    proof {
        lemma_trim_start_skip(s@, a as int);
    }
    let ghost t = s@.subrange(a as int, n as int);
    let mut b: usize = n;
    while b > a && is_white_char(s.get_char(b - 1))
        invariant
            n == s@.len(),
            a <= b <= n,
            t == s@.subrange(a as int, n as int),
            forall|j: int| b <= j < n ==> is_white(#[trigger] s@[j]),
        decreases b,
    {
        b -= 1;
    }
    proof {
        if a < n && !is_white(s@[a as int]) {
            assert(trim_start(t) == t);
        } else {
            assert(t.len() == 0);
        }
        assert forall|j: int| (b - a) <= j < t.len() implies is_white(#[trigger] t[j]) by {
            assert(t[j] == s@[j + a]);
        }
        lemma_trim_end_skip(t, b - a);
        assert(t.subrange(0, b - a) =~= s@.subrange(a as int, b as int));
    }
    s.substring_char(a, b)
}

/// Splits `s` at every `sep`, as `str::split` does with a character.
pub fn split_str(s: &str, sep: char) -> (r: Vec<&str>)
    ensures
        r@.len() == split_on(s@, sep).len(),
        forall|i: int| 0 <= i < r@.len() ==> (#[trigger] r@[i])@ == split_on(s@, sep)[i],
{
    let n = s.unicode_len();
    let mut out: Vec<&str> = Vec::new();
    let mut start: usize = 0;
    let mut i: usize = 0;
    while i < n
        invariant
            n == s@.len(),
            start <= i <= n,
            out@.len() + 1 == split_on(s@.subrange(0, i as int), sep).len(),
            forall|k: int| 0 <= k < out@.len() ==> (#[trigger] out@[k])@ == split_on(
                s@.subrange(0, i as int),
                sep,
            )[k],
            s@.subrange(start as int, i as int) == split_on(s@.subrange(0, i as int), sep).last(),
        decreases n - i,
    {
        let c = s.get_char(i);
        let ghost pre = s@.subrange(0, i as int);
        let ghost cur = s@.subrange(0, i + 1);
        proof {
            assert(cur.drop_last() =~= pre);
            assert(cur.last() == c);
            lemma_split_on_nonempty(pre, sep);
        }
        if c == sep {
            let piece = s.substring_char(start, i);
            out.push(piece);
            start = i + 1;
            proof {
                assert(s@.subrange(start as int, i + 1) =~= Seq::<char>::empty());
            }
        } else {
            proof {
                assert(s@.subrange(start as int, i + 1) =~= s@.subrange(start as int, i as int).push(
                    c,
                ));
            }
        }
        i += 1;
    }
    let last = s.substring_char(start, n);
    proof {
        assert(s@.subrange(0, n as int) =~= s@);
    }
    out.push(last);
    out
}

} // verus!
