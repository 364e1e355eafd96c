//! Character sequences: suffix tests, splitting on a separator, joining,
//! and the bridge between `&str` and vectors of `char`.
use vstd::prelude::*;
use vstd::string::*;

verus! {

/// The lowercase form of a character sequence, as `str::to_lowercase`
/// computes it. The mapping follows the Unicode tables of the standard
/// library and may change the number of characters.
pub uninterp spec fn lowercase_of(s: Seq<char>) -> Seq<char>;

/// Calls `str::to_lowercase`. The contract only names the result: it is a
/// function of the argument's characters alone.
#[verifier::external_body]
pub(crate) fn lowercase(s: &str) -> (lowered: String)
    ensures
        lowered@ == lowercase_of(s@),
{
    s.to_lowercase()
}

/// `pattern` is a suffix of `name`.
pub open spec fn is_suffix(pattern: Seq<char>, name: Seq<char>) -> bool {
    pattern.len() <= name.len() && name.subrange(name.len() - pattern.len(), name.len() as int)
        == pattern
}

/// The pieces of `s` between occurrences of `sep`. A sequence with `k`
/// separators has `k + 1` pieces, some of which may be empty.
pub open spec fn split(s: Seq<char>, sep: char) -> Seq<Seq<char>>
    decreases s.len(),
{
    if s.len() == 0 {
        seq![Seq::<char>::empty()]
    } else if s.last() == sep {
        split(s.drop_last(), sep).push(Seq::<char>::empty())
    } else {
        let before = split(s.drop_last(), sep);
        before.drop_last().push(before.last().push(s.last()))
    }
}

/// A sequence with `k` separators has `k + 1` pieces.
pub proof fn lemma_split_len(s: Seq<char>, sep: char)
    ensures
        split(s, sep).len() == occurrences(s, sep) + 1,
    decreases s.len(),
{
    if s.len() > 0 {
        lemma_split_len(s.drop_last(), sep);
    }
}

/// Every piece followed by `sep`, concatenated.
pub open spec fn lead(parts: Seq<Seq<char>>, sep: char) -> Seq<char>
    decreases parts.len(),
{
    if parts.len() == 0 {
        Seq::<char>::empty()
    } else {
        lead(parts.drop_last(), sep) + parts.last() + seq![sep]
    }
}

/// The pieces concatenated with `sep` between neighbours.
pub open spec fn join(parts: Seq<Seq<char>>, sep: char) -> Seq<char> {
    if parts.len() == 0 {
        Seq::<char>::empty()
    } else {
        lead(parts.drop_last(), sep) + parts.last()
    }
}

/// How often `c` occurs in `s`.
pub open spec fn occurrences(s: Seq<char>, c: char) -> nat
    decreases s.len(),
{
    if s.len() == 0 {
        0
    } else if s.last() == c {
        occurrences(s.drop_last(), c) + 1
    } else {
        occurrences(s.drop_last(), c)
    }
}

/// Splitting and joining again gives the sequence back.
pub proof fn lemma_join_split(s: Seq<char>, sep: char)
    ensures
        join(split(s, sep), sep) == s,
    decreases s.len(),
{
    lemma_split_len(s, sep);
    if s.len() == 0 {
        assert(split(s, sep).drop_last() =~= Seq::<Seq<char>>::empty());
        assert(join(split(s, sep), sep) =~= s);
    } else {
        let init = s.drop_last();
        let before = split(init, sep);
        lemma_join_split(init, sep);
        lemma_split_len(init, sep);
        if s.last() == sep {
            let parts = before.push(Seq::<char>::empty());
            assert(parts.drop_last() =~= before);
            assert(join(parts, sep) =~= join(before, sep) + seq![sep]);
            assert(init + seq![sep] =~= s);
        } else {
            let parts = before.drop_last().push(before.last().push(s.last()));
            assert(parts.drop_last() =~= before.drop_last());
            assert(join(parts, sep) =~= join(before, sep).push(s.last()));
            assert(init.push(s.last()) =~= s);
        }
    }
}

/// No piece of a split sequence holds the separator.
pub proof fn lemma_split_pieces(s: Seq<char>, sep: char)
    ensures
        forall|i: int|
            0 <= i < split(s, sep).len() ==> occurrences(#[trigger] split(s, sep)[i], sep) == 0,
    decreases s.len(),
{
    lemma_split_len(s, sep);
    if s.len() > 0 {
        let init = s.drop_last();
        let before = split(init, sep);
        lemma_split_pieces(init, sep);
        lemma_split_len(init, sep);
        if s.last() != sep {
            let grown = before.last().push(s.last());
            assert(grown.drop_last() =~= before.last());
            assert(occurrences(grown, sep) == 0);
        }
    }
}

/// A sequence without the separator is its own single piece.
pub proof fn lemma_split_single(s: Seq<char>, sep: char)
    requires
        occurrences(s, sep) == 0,
    ensures
        split(s, sep) == seq![s],
    decreases s.len(),
{
    if s.len() == 0 {
        assert(s =~= Seq::<char>::empty());
    } else {
        let init = s.drop_last();
        lemma_split_single(init, sep);
        assert(init.push(s.last()) =~= s);
        assert(split(s, sep) =~= seq![s]);
    }
}

/// Appending a piece without the separator extends the last piece.
pub proof fn lemma_split_append(s: Seq<char>, piece: Seq<char>, sep: char)
    requires
        occurrences(piece, sep) == 0,
    ensures
        split(s + piece, sep) == split(s, sep).drop_last().push(split(s, sep).last() + piece),
    decreases piece.len(),
{
    lemma_split_len(s, sep);
    let before = split(s, sep);
    if piece.len() == 0 {
        assert(s + piece =~= s);
        assert(before.last() + piece =~= before.last());
        assert(before.drop_last().push(before.last()) =~= before);
    } else {
        let init = piece.drop_last();
        lemma_split_append(s, init, sep);
        assert((s + piece).drop_last() =~= s + init);
        let grown = before.drop_last().push(before.last() + init);
        assert(grown.drop_last() =~= before.drop_last());
        assert((before.last() + init).push(piece.last()) =~= before.last() + piece);
    }
}

/// Joining pieces that hold no separator and splitting again gives the
/// pieces back: `split` is the only way to cut a sequence into such
/// pieces.
pub proof fn lemma_split_join(parts: Seq<Seq<char>>, sep: char)
    requires
        parts.len() > 0,
        forall|i: int| 0 <= i < parts.len() ==> occurrences(#[trigger] parts[i], sep) == 0,
    ensures
        split(join(parts, sep), sep) == parts,
    decreases parts.len(),
{
    let init = parts.drop_last();
    let last = parts.last();
    assert(occurrences(last, sep) == 0) by {
        assert(last == parts[parts.len() - 1]);
    }
    if init.len() == 0 {
        assert(join(parts, sep) =~= last);
        lemma_split_single(last, sep);
        assert(seq![last] =~= parts);
    } else {
        assert forall|i: int| 0 <= i < init.len() implies occurrences(#[trigger] init[i], sep)
            == 0 by {
            assert(init[i] == parts[i]);
        }
        lemma_split_join(init, sep);
        let head = join(init, sep) + seq![sep];
        assert(lead(init, sep) =~= head);
        assert(head.drop_last() =~= join(init, sep));
        assert(split(head, sep) == init.push(Seq::<char>::empty()));
        lemma_split_append(head, last, sep);
        assert(init.push(Seq::<char>::empty()).drop_last() =~= init);
        assert(Seq::<char>::empty() + last =~= last);
        assert(init.push(last) =~= parts);
    }
}

/// Occurrences add up over concatenation.
pub proof fn lemma_occurrences_concat(a: Seq<char>, b: Seq<char>, c: char)
    ensures
        occurrences(a + b, c) == occurrences(a, c) + occurrences(b, c),
    decreases b.len(),
{
    if b.len() == 0 {
        assert(a + b =~= a);
    } else {
        lemma_occurrences_concat(a, b.drop_last(), c);
        assert((a + b).drop_last() =~= a + b.drop_last());
    }
}

/// A prefix holds a character no more often than the whole sequence.
pub proof fn lemma_occurrences_prefix(s: Seq<char>, n: int, c: char)
    requires
        0 <= n <= s.len(),
    ensures
        occurrences(s.take(n), c) <= occurrences(s, c),
{
    lemma_occurrences_concat(s.take(n), s.skip(n), c);
    assert(s.take(n) + s.skip(n) =~= s);
}

/// Where no piece holds the separator, the joined sequence holds one
/// separator less than there are pieces.
pub proof fn lemma_join_occurrences(parts: Seq<Seq<char>>, sep: char)
    requires
        parts.len() > 0,
        forall|i: int| 0 <= i < parts.len() ==> occurrences(#[trigger] parts[i], sep) == 0,
    ensures
        occurrences(join(parts, sep), sep) == parts.len() - 1,
        occurrences(lead(parts, sep), sep) == parts.len(),
    decreases parts.len(),
{
    let init = parts.drop_last();
    assert forall|i: int| 0 <= i < init.len() implies occurrences(#[trigger] init[i], sep)
        == 0 by {
        assert(init[i] == parts[i]);
    }
    assert(occurrences(parts.last(), sep) == 0) by {
        assert(parts.last() == parts[parts.len() - 1]);
    }
    if init.len() > 0 {
        lemma_join_occurrences(init, sep);
    }
    lemma_occurrences_concat(lead(init, sep), parts.last(), sep);
    lemma_occurrences_concat(lead(init, sep) + parts.last(), seq![sep], sep);
    assert(occurrences(seq![sep], sep) == 1) by {
        assert(seq![sep].drop_last() =~= Seq::<char>::empty());
        assert(occurrences(seq![sep].drop_last(), sep) == 0);
    }
}

/// The characters of a string slice, in order.
pub fn chars_of(s: &str) -> (chars: Vec<char>)
    ensures
        chars@ == s@,
{
    let mut chars: Vec<char> = Vec::new();
    for c in it: s.chars()
        invariant
            it.seq() == s@,
            chars@ == s@.take(it.index() as int),
    {
        chars.push(c);
        assert(chars@ =~= s@.take(it.index() + 1));
    }
    assert(s@.take(s@.len() as int) =~= s@);
    chars
}

/// Whether `name` ends with `pattern`.
pub fn ends_with(name: &[char], pattern: &[char]) -> (b: bool)
    ensures
        b == is_suffix(pattern@, name@),
{
    let n: usize = name.len();
    let m: usize = pattern.len();
    if m > n {
        return false;
    }
    let off: usize = n - m;
    let mut i: usize = 0;
    while i < m
        invariant
            n == name@.len(),
            m == pattern@.len(),
            off + m == n,
            i <= m,
            forall|k: int| 0 <= k < i ==> name@[off + k] == pattern@[k],
        decreases m - i,
    {
        if name[off + i] != pattern[i] {
            assert(name@.subrange(off as int, n as int)[i as int] != pattern@[i as int]);
            return false;
        }
        i += 1;
    }
    assert(name@.subrange(off as int, n as int) =~= pattern@);
    true
}

/// Whether two character slices hold the same characters.
pub fn same_chars(a: &[char], b: &[char]) -> (eq: bool)
    ensures
        eq == (a@ == b@),
{
    if a.len() != b.len() {
        return false;
    }
    let n: usize = a.len();
    let mut i: usize = 0;
    while i < n
        invariant
            n == a@.len(),
            n == b@.len(),
            i <= n,
            forall|k: int| 0 <= k < i ==> a@[k] == b@[k],
        decreases n - i,
    {
        if a[i] != b[i] {
            return false;
        }
        i += 1;
    }
    assert(a@ =~= b@);
    true
}

/// The patterns of a list, each as a sequence of characters.
pub open spec fn patterns_of(list: Seq<Vec<char>>) -> Seq<Seq<char>> {
    Seq::new(list.len(), |i: int| list[i]@)
}

/// Whether some pattern of `patterns` equals `name`.
pub open spec fn some_equals(patterns: Seq<Seq<char>>, name: Seq<char>) -> bool {
    exists|i: int| 0 <= i < patterns.len() && #[trigger] patterns[i] == name
}

/// Whether `name` ends with some pattern of `patterns`.
pub open spec fn some_suffix(patterns: Seq<Seq<char>>, name: Seq<char>) -> bool {
    exists|i: int| 0 <= i < patterns.len() && is_suffix(#[trigger] patterns[i], name)
}

/// Whether some pattern of the list equals `name`.
pub fn any_equals(patterns: &[Vec<char>], name: &[char]) -> (found: bool)
    ensures
        found == some_equals(patterns_of(patterns@), name@),
{
    let ghost views = patterns_of(patterns@);
    let mut i: usize = 0;
    while i < patterns.len()
        invariant
            i <= patterns@.len(),
            views == patterns_of(patterns@),
            forall|k: int| 0 <= k < i ==> #[trigger] views[k] != name@,
        decreases patterns@.len() - i,
    {
        if same_chars(patterns[i].as_slice(), name) {
            assert(views[i as int] == name@);
            return true;
        }
        i += 1;
    }
    false
}

/// Whether `name` ends with some pattern of the list.
pub fn any_suffix(patterns: &[Vec<char>], name: &[char]) -> (found: bool)
    ensures
        found == some_suffix(patterns_of(patterns@), name@),
{
    let ghost views = patterns_of(patterns@);
    let mut i: usize = 0;
    while i < patterns.len()
        invariant
            i <= patterns@.len(),
            views == patterns_of(patterns@),
            forall|k: int| 0 <= k < i ==> !is_suffix(#[trigger] views[k], name@),
        decreases patterns@.len() - i,
    {
        if ends_with(name, patterns[i].as_slice()) {
            assert(is_suffix(views[i as int], name@));
            return true;
        }
        i += 1;
    }
    false
}

/// Splits `s` at every occurrence of `sep`.
pub fn split_chars(s: &[char], sep: char) -> (parts: Vec<Vec<char>>)
    ensures
        patterns_of(parts@) == split(s@, sep),
{
    let mut parts: Vec<Vec<char>> = Vec::new();
    let mut current: Vec<char> = Vec::new();
    let mut i: usize = 0;
    assert(s@.take(0).len() == 0);
    assert(patterns_of(parts@).push(current@) =~= split(s@.take(0), sep));
    while i < s.len()
        invariant
            i <= s@.len(),
            patterns_of(parts@).push(current@) == split(s@.take(i as int), sep),
        decreases s@.len() - i,
    {
        let ghost before = split(s@.take(i as int), sep);
        let ghost done = patterns_of(parts@);
        proof {
            let upto = s@.take(i + 1);
            assert(upto.drop_last() =~= s@.take(i as int));
            assert(upto.last() == s@[i as int]);
            assert(before.drop_last() =~= done);
            assert(before.last() == current@);
        }
        if s[i] == sep {
            parts.push(current);
            current = Vec::new();
            assert(patterns_of(parts@) =~= before);
        } else {
            current.push(s[i]);
        }
        i += 1;
    }
    assert(s@.take(i as int) =~= s@);
    let ghost done = patterns_of(parts@);
    parts.push(current);
    assert(patterns_of(parts@) =~= done.push(current@));
    parts
}

/// The words of a list written with single spaces between them.
pub fn words(list: &str) -> (patterns: Vec<Vec<char>>)
    ensures
        patterns_of(patterns@) == split(list@, ' '),
{
    let chars = chars_of(list);
    split_chars(chars.as_slice(), ' ')
}

} // verus!
