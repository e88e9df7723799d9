//! Character-level helpers on string slices: trimming, splitting and case folding.

use vstd::prelude::*;

verus! {

/// Unicode's `White_Space` property.
pub open spec fn is_white_space(c: char) -> bool {
    let v = c as u32;
    ||| 0x9 <= v <= 0xD
    ||| v == 0x20
    ||| v == 0x85
    ||| v == 0xA0
    ||| v == 0x1680
    ||| 0x2000 <= v <= 0x200A
    ||| v == 0x2028
    ||| v == 0x2029
    ||| v == 0x202F
    ||| v == 0x205F
    ||| v == 0x3000
}

/// Whether `c` is white space in Unicode's sense.
pub fn white_space(c: char) -> (r: bool)
    ensures
        r == is_white_space(c),
{
    let v = c as u32;
    (0x9 <= v && v <= 0xD) || v == 0x20 || v == 0x85 || v == 0xA0 || v == 0x1680 || (0x2000 <= v
        && v <= 0x200A) || v == 0x2028 || v == 0x2029 || v == 0x202F || v == 0x205F || v == 0x3000
}

/// `s` without its leading white space.
pub open spec fn trim_start(s: Seq<char>) -> Seq<char>
    decreases s.len(),
{
    if s.len() > 0 && is_white_space(s[0]) {
        trim_start(s.drop_first())
    } else {
        s
    }
}

/// `s` without its trailing white space.
pub open spec fn trim_end(s: Seq<char>) -> Seq<char>
    decreases s.len(),
{
    if s.len() > 0 && is_white_space(s.last()) {
        trim_end(s.drop_last())
    } else {
        s
    }
}

/// `s` without white space at either end.
pub open spec fn trimmed(s: Seq<char>) -> Seq<char> {
    trim_end(trim_start(s))
}

/// Whether no character of `s` is white space.
pub open spec fn no_white_space(s: Seq<char>) -> bool {
    forall|i: int| 0 <= i < s.len() ==> !is_white_space(#[trigger] s[i])
}

/// A string with no white space is its own trimmed form.
pub proof fn lemma_trimmed_unchanged(s: Seq<char>)
    requires
        no_white_space(s),
    ensures
        trimmed(s) == s,
{
    if s.len() > 0 {
        assert(!is_white_space(s[0]));
        assert(!is_white_space(s.last()));
    }
}

/// The slice of `s` with white space removed at both ends.
pub fn trim(s: &str) -> (r: &str)
    ensures
        r@ == trimmed(s@),
{
    let n = s.unicode_len();
    let mut i: usize = 0;
    assert(s@.subrange(0, n as int) =~= s@);
    while i < n && white_space(s.get_char(i))
        invariant
            n == s@.len(),
            i <= n,
            trim_start(s@) == trim_start(s@.subrange(i as int, n as int)),
        decreases n - i,
    {
        assert(s@.subrange(i as int, n as int).drop_first() =~= s@.subrange(i + 1, n as int));
        i = i + 1;
    }
    let ghost rest = s@.subrange(i as int, n as int);
    assert(trim_start(rest) == rest);
    let mut j: usize = n;
    while j > i && white_space(s.get_char(j - 1))
        invariant
            n == s@.len(),
            i <= j <= n,
            trim_end(rest) == trim_end(s@.subrange(i as int, j as int)),
            rest == s@.subrange(i as int, n as int),
        decreases j,
    {
        assert(s@.subrange(i as int, j as int).drop_last() =~= s@.subrange(i as int, j - 1));
        j = j - 1;
    }
    s.substring_char(i, j)
}

/// Index of the first `'+'` in `s`, or its length if there is none.
pub open spec fn first_plus(s: Seq<char>) -> nat
    decreases s.len(),
{
    if s.len() == 0 || s[0] == '+' {
        0
    } else {
        1 + first_plus(s.drop_first())
    }
}

/// The pieces of `s` between `'+'` separators; there is always at least one.
pub open spec fn split_plus(s: Seq<char>) -> Seq<Seq<char>>
    decreases s.len(),
{
    let i = first_plus(s);
    if i >= s.len() {
        seq![s]
    } else {
        seq![s.take(i as int)] + split_plus(s.skip(i + 1int))
    }
}

/// Whether `s` holds no `'+'`.
pub open spec fn no_plus(s: Seq<char>) -> bool {
    forall|i: int| 0 <= i < s.len() ==> #[trigger] s[i] != '+'
}

pub proof fn lemma_first_plus(s: Seq<char>, j: int)
    requires
        0 <= j <= s.len(),
        forall|k: int| 0 <= k < j ==> #[trigger] s[k] != '+',
        j == s.len() || s[j] == '+',
    ensures
        first_plus(s) == j,
    decreases j,
{
    if j > 0 {
        let t = s.drop_first();
        assert forall|k: int| 0 <= k < j - 1 implies #[trigger] t[k] != '+' by {
            assert(s[k + 1] != '+');
        }
        lemma_first_plus(t, j - 1);
    }
}

/// A piece without `'+'` followed by a separator splits off as the first piece.
pub proof fn lemma_split_head(a: Seq<char>, rest: Seq<char>)
    requires
        no_plus(a),
    ensures
        split_plus(a + seq!['+'] + rest) == seq![a] + split_plus(rest),
{
    let s = a + seq!['+'] + rest;
    assert forall|k: int| 0 <= k < a.len() implies #[trigger] s[k] != '+' by {
        assert(s[k] == a[k]);
    }
    lemma_first_plus(s, a.len() as int);
    assert(s.take(a.len() as int) =~= a);
    assert(s.skip(a.len() + 1int) =~= rest);
}

/// A string without `'+'` is a single piece.
pub proof fn lemma_split_single(a: Seq<char>)
    requires
        no_plus(a),
    ensures
        split_plus(a) == seq![a],
{
    lemma_first_plus(a, a.len() as int);
}

/// The pieces of `s` between `'+'` separators, as slices of `s`.
pub fn split_plus_slices<'a>(s: &'a str) -> (r: Vec<&'a str>)
    ensures
        r@.map_values(|p: &str| p@) == split_plus(s@),
{
    let n = s.unicode_len();
    let mut parts: Vec<&'a str> = Vec::new();
    let mut start: usize = 0;
    let mut i: usize = 0;
    assert(s@.skip(0) =~= s@);
    assert(parts@.map_values(|p: &str| p@) =~= Seq::<Seq<char>>::empty());
    while i < n
        invariant
            n == s@.len(),
            start <= i <= n,
            forall|k: int| start <= k < i ==> #[trigger] s@[k] != '+',
            split_plus(s@) == parts@.map_values(|p: &str| p@) + split_plus(s@.skip(start as int)),
        decreases n - i,
    {
        if s.get_char(i) == '+' {
            let ghost t = s@.skip(start as int);
            proof {
                assert forall|k: int| 0 <= k < i - start implies #[trigger] t[k] != '+' by {
                    assert(t[k] == s@[start + k]);
                }
                lemma_first_plus(t, i - start);
                assert(t.take(i - start) =~= s@.subrange(start as int, i as int));
                assert(t.skip(i - start + 1) =~= s@.skip(i + 1));
            }
            let piece = s.substring_char(start, i);
            let ghost before = parts@;
            parts.push(piece);
            proof {
                assert(parts@.map_values(|p: &str| p@) =~= before.map_values(|p: &str| p@) + seq![
                    piece@,
                ]);
            }
            start = i + 1;
        }
        i = i + 1;
    }
    let ghost t = s@.skip(start as int);
    proof {
        assert forall|k: int| 0 <= k < t.len() implies #[trigger] t[k] != '+' by {
            assert(t[k] == s@[start + k]);
        }
        lemma_first_plus(t, t.len() as int);
        assert(t =~= s@.subrange(start as int, n as int));
    }
    let piece = s.substring_char(start, n);
    let ghost before = parts@;
    parts.push(piece);
    proof {
        assert(parts@.map_values(|p: &str| p@) =~= before.map_values(|p: &str| p@) + seq![piece@]);
    }
    parts
}

/// The lower-case form of a character sequence, as `str::to_lowercase` computes it.
pub uninterp spec fn lower_of(s: Seq<char>) -> Seq<char>;

/// Relies on `str::to_lowercase`: its result depends on the characters alone.
#[verifier::external_body]
pub(crate) fn lowercase(s: &str) -> (r: String)
    ensures
        r@ == lower_of(s@),
{
    s.to_lowercase()
}

} // verus!

verus! {

/// The decimal digit for `d`, which is below ten.
pub open spec fn digit_char(d: nat) -> char {
    if d == 0 {
        '0'
    } else if d == 1 {
        '1'
    } else if d == 2 {
        '2'
    } else if d == 3 {
        '3'
    } else if d == 4 {
        '4'
    } else if d == 5 {
        '5'
    } else if d == 6 {
        '6'
    } else if d == 7 {
        '7'
    } else if d == 8 {
        '8'
    } else {
        '9'
    }
}

/// The decimal digits of `n`, without leading zeros.
pub open spec fn decimal_of(n: nat) -> Seq<char>
    decreases n,
{
    if n < 10 {
        seq![digit_char(n)]
    } else {
        decimal_of(n / 10) + seq![digit_char(n % 10)]
    }
}

/// Relies on `u64`'s `Display`, which writes the decimal digits of the number.
#[verifier::external_body]
pub(crate) fn decimal(n: u64) -> (r: String)
    ensures
        r@ == decimal_of(n as nat),
{
    n.to_string()
}

} // verus!
