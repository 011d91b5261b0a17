//! A model of the `str` operations the library relies on, stated over
//! `Seq<char>`, together with verified executable versions on `Vec<char>`.

use vstd::prelude::*;

verus! {

/// Unicode `White_Space`, the property that `char::is_whitespace` tests.
pub open spec fn is_whitespace(c: char) -> bool {
    ||| ('\u{9}' <= c && c <= '\u{d}')
    ||| c == ' '
    ||| c == '\u{85}'
    ||| c == '\u{a0}'
    ||| c == '\u{1680}'
    ||| ('\u{2000}' <= c && c <= '\u{200a}')
    ||| c == '\u{2028}'
    ||| c == '\u{2029}'
    ||| c == '\u{202f}'
    ||| c == '\u{205f}'
    ||| c == '\u{3000}'
}

/// Executable `char::is_whitespace`.
pub fn char_is_whitespace(c: char) -> (res: bool)
    ensures
        res == is_whitespace(c),
{
    ('\u{9}' <= c && c <= '\u{d}') || c == ' ' || c == '\u{85}' || c == '\u{a0}' || c == '\u{1680}'
        || ('\u{2000}' <= c && c <= '\u{200a}') || c == '\u{2028}' || c == '\u{2029}' || c
        == '\u{202f}' || c == '\u{205f}' || c == '\u{3000}'
}

/// The characters of a string slice, in order.
pub fn chars_of(s: &str) -> (res: Vec<char>)
    ensures
        res@ == s@,
{
    let mut res: Vec<char> = Vec::new();
    for c in it: s.chars()
        invariant
            res@ == it.seq().take(it.index() as int),
    {
        res.push(c);
    }
    res
}


/// The character patterns the library trims by.
#[derive(Clone, Copy, Debug, PartialEq, Eq)]
pub enum CharPattern {
    /// Any whitespace character (`char::is_whitespace`).
    Whitespace,
    /// Exactly the given character.
    Exactly(char),
}

impl CharPattern {
    pub open spec fn spec_accepts(self, c: char) -> bool {
        match self {
            CharPattern::Whitespace => is_whitespace(c),
            CharPattern::Exactly(d) => c == d,
        }
    }

    pub fn accepts(&self, c: char) -> (res: bool)
        ensures
            res == self.spec_accepts(c),
    {
        match self {
            CharPattern::Whitespace => char_is_whitespace(c),
            CharPattern::Exactly(d) => c == *d,
        }
    }
}

/// `s` with every leading character that `p` accepts removed
/// (`str::trim_start_matches`).
pub open spec fn strip_start(s: Seq<char>, p: CharPattern) -> Seq<char>
    decreases s.len(),
{
    if s.len() > 0 && p.spec_accepts(s[0]) {
        strip_start(s.drop_first(), p)
    } else {
        s
    }
}

/// `s` with every trailing character that `p` accepts removed
/// (`str::trim_end_matches`).
pub open spec fn strip_end(s: Seq<char>, p: CharPattern) -> Seq<char>
    decreases s.len(),
{
    if s.len() > 0 && p.spec_accepts(s.last()) {
        strip_end(s.drop_last(), p)
    } else {
        s
    }
}

/// `s` with all prefixes and suffixes accepted by `p` removed (`str::trim_matches`).
pub open spec fn trim_matching(s: Seq<char>, p: CharPattern) -> Seq<char> {
    strip_end(strip_start(s, p), p)
}

/// `str::trim`: leading and trailing whitespace removed.
pub open spec fn trim(s: Seq<char>) -> Seq<char> {
    trim_matching(s, CharPattern::Whitespace)
}

/// `str::trim_matches` for a single character.
pub open spec fn trim_char(s: Seq<char>, c: char) -> Seq<char> {
    trim_matching(s, CharPattern::Exactly(c))
}

/// A copy of `s[lo..hi]`.
pub fn copy_range(s: &Vec<char>, lo: usize, hi: usize) -> (res: Vec<char>)
    requires
        lo <= hi <= s.len(),
    ensures
        res@ == s@.subrange(lo as int, hi as int),
{
    let mut res: Vec<char> = Vec::new();
    let mut i = lo;
    while i < hi
        invariant
            lo <= i <= hi <= s.len(),
            res@ == s@.subrange(lo as int, i as int),
        decreases hi - i,
    {
        res.push(s[i]);
        i = i + 1;
        assert(res@ =~= s@.subrange(lo as int, i as int));
    }
    res
}

/// Executable `str::trim_start_matches`.
pub fn strip_start_exec(s: &Vec<char>, p: CharPattern) -> (res: Vec<char>)
    ensures
        res@ == strip_start(s@, p),
{
    let n = s.len();
    let mut i: usize = 0;
    assert(s@.skip(0) =~= s@);
    while i < n && p.accepts(s[i])
        invariant
            i <= n == s.len(),
            strip_start(s@, p) == strip_start(s@.skip(i as int), p),
        decreases n - i,
    {
        assert(s@.skip(i as int).drop_first() =~= s@.skip(i + 1));
        i = i + 1;
    }
    assert(s@.skip(i as int) =~= s@.subrange(i as int, n as int));
    copy_range(s, i, n)
}

/// Executable `str::trim_end_matches`.
pub fn strip_end_exec(s: &Vec<char>, p: CharPattern) -> (res: Vec<char>)
    ensures
        res@ == strip_end(s@, p),
{
    let mut j: usize = s.len();
    assert(s@.take(j as int) =~= s@);
    while j > 0 && p.accepts(s[j - 1])
        invariant
            j <= s.len(),
            strip_end(s@, p) == strip_end(s@.take(j as int), p),
        decreases j,
    {
        assert(s@.take(j as int).drop_last() =~= s@.take(j - 1));
        j = j - 1;
    }
    assert(s@.take(j as int) =~= s@.subrange(0, j as int));
    copy_range(s, 0, j)
}

/// Executable `str::trim_matches` by a pattern.
pub fn trim_matching_exec(s: &Vec<char>, p: CharPattern) -> (res: Vec<char>)
    ensures
        res@ == trim_matching(s@, p),
{
    let a = strip_start_exec(s, p);
    strip_end_exec(&a, p)
}

/// Executable `str::trim`.
pub fn trim_exec(s: &Vec<char>) -> (res: Vec<char>)
    ensures
        res@ == trim(s@),
{
    trim_matching_exec(s, CharPattern::Whitespace)
}


/// `i` is the first position of `c` in `s`.
pub open spec fn is_first_index(s: Seq<char>, c: char, i: int) -> bool {
    &&& 0 <= i < s.len()
    &&& s[i] == c
    &&& forall|j: int| 0 <= j < i ==> s[j] != c
}

/// The position of the first `c` in `s` (`str::find` with a `char`).
pub open spec fn first_index_of(s: Seq<char>, c: char) -> Option<int> {
    if exists|i: int| is_first_index(s, c, i) {
        Some(choose|i: int| is_first_index(s, c, i))
    } else {
        None
    }
}

/// `pat` occurs in `s` starting at `i`.
pub open spec fn occurs_at(s: Seq<char>, pat: Seq<char>, i: int) -> bool {
    0 <= i && i + pat.len() <= s.len() && s.subrange(i, i + pat.len()) == pat
}

/// `i` is the first position at which `pat` occurs in `s`.
pub open spec fn is_first_occurrence(s: Seq<char>, pat: Seq<char>, i: int) -> bool {
    &&& occurs_at(s, pat, i)
    &&& forall|j: int| 0 <= j < i ==> !occurs_at(s, pat, j)
}

/// The position of the first occurrence of `pat` in `s` (`str::find` with a `&str`).
pub open spec fn first_occurrence(s: Seq<char>, pat: Seq<char>) -> Option<int> {
    if exists|i: int| is_first_occurrence(s, pat, i) {
        Some(choose|i: int| is_first_occurrence(s, pat, i))
    } else {
        None
    }
}

/// `str::contains` with a `&str`.
pub open spec fn contains_seq(s: Seq<char>, pat: Seq<char>) -> bool {
    exists|i: int| occurs_at(s, pat, i)
}

/// Executable `str::find` with a `char`.
pub fn find_char(s: &Vec<char>, c: char) -> (res: Option<usize>)
    ensures
        match res {
            Some(i) => i < s@.len() && is_first_index(s@, c, i as int) && first_index_of(s@, c)
                == Some(i as int),
            None => first_index_of(s@, c) is None,
        },
{
    let mut i: usize = 0;
    while i < s.len()
        invariant
            i <= s.len(),
            forall|j: int| 0 <= j < i ==> s@[j] != c,
        decreases s.len() - i,
    {
        if s[i] == c {
            assert(is_first_index(s@, c, i as int));
            return Some(i);
        }
        i = i + 1;
    }
    assert(!exists|k: int| is_first_index(s@, c, k));
    None
}

/// Whether `pat` occurs in `s` at position `i`.
pub fn occurs_at_exec(s: &Vec<char>, pat: &Vec<char>, i: usize) -> (res: bool)
    ensures
        res == occurs_at(s@, pat@, i as int),
{
    if i > s.len() || pat.len() > s.len() - i {
        return false;
    }
    let mut k: usize = 0;
    while k < pat.len()
        invariant
            k <= pat.len(),
            i + pat.len() <= s.len(),
            forall|m: int| 0 <= m < k ==> s@[i + m] == pat@[m],
        decreases pat.len() - k,
    {
        if s[i + k] != pat[k] {
            assert(s@.subrange(i as int, i + pat.len())[k as int] != pat@[k as int]);
            return false;
        }
        k = k + 1;
    }
    assert(s@.subrange(i as int, i + pat.len()) =~= pat@);
    true
}

/// Executable `str::find` with a `&str`.
pub fn find_seq(s: &Vec<char>, pat: &Vec<char>) -> (res: Option<usize>)
    ensures
        match res {
            Some(i) => is_first_occurrence(s@, pat@, i as int) && first_occurrence(s@, pat@) == Some(
                i as int,
            ),
            None => first_occurrence(s@, pat@) is None && !contains_seq(s@, pat@),
        },
{
    let mut i: usize = 0;
    while i < s.len()
        invariant
            i <= s.len(),
            forall|j: int| 0 <= j < i ==> !occurs_at(s@, pat@, j),
        decreases s.len() - i,
    {
        if occurs_at_exec(s, pat, i) {
            assert(is_first_occurrence(s@, pat@, i as int));
            return Some(i);
        }
        i = i + 1;
    }
    if occurs_at_exec(s, pat, i) {
        assert(is_first_occurrence(s@, pat@, i as int));
        return Some(i);
    }
    assert(!exists|k: int| occurs_at(s@, pat@, k));
    assert(!exists|k: int| is_first_occurrence(s@, pat@, k));
    None
}

/// Executable `str::contains` with a `&str`.
pub fn contains_exec(s: &Vec<char>, pat: &Vec<char>) -> (res: bool)
    ensures
        res == contains_seq(s@, pat@),
{
    match find_seq(s, pat) {
        Some(i) => {
            assert(occurs_at(s@, pat@, i as int));
            true
        },
        None => false,
    }
}

/// Character-wise equality of two sequences.
pub fn chars_equal(a: &Vec<char>, b: &Vec<char>) -> (res: bool)
    ensures
        res == (a@ == b@),
{
    if a.len() != b.len() {
        return false;
    }
    let mut i: usize = 0;
    while i < a.len()
        invariant
            i <= a.len() == b.len(),
            forall|j: int| 0 <= j < i ==> a@[j] == b@[j],
        decreases a.len() - i,
    {
        if a[i] != b[i] {
            return false;
        }
        i = i + 1;
    }
    assert(a@ =~= b@);
    true
}

/// The pieces of `s` between occurrences of `sep` (`str::split` with a `char`).
pub open spec fn split(s: Seq<char>, sep: char) -> Seq<Seq<char>>
    decreases s.len(),
{
    if s.len() == 0 {
        seq![Seq::<char>::empty()]
    } else {
        let prev = split(s.drop_last(), sep);
        if s.last() == sep {
            prev.push(Seq::<char>::empty())
        } else {
            prev.update(prev.len() - 1, prev.last().push(s.last()))
        }
    }
}

/// The character sequences held by a sequence of character vectors.
pub open spec fn char_vec_views(v: Seq<Vec<char>>) -> Seq<Seq<char>> {
    v.map_values(|x: Vec<char>| x@)
}

/// The character sequences held by a sequence of strings.
pub open spec fn string_views(v: Seq<String>) -> Seq<Seq<char>> {
    v.map_values(|x: String| x@)
}

/// Executable `str::split` with a `char`, each piece copied out.
pub fn split_exec(s: &Vec<char>, sep: char) -> (res: Vec<Vec<char>>)
    ensures
        char_vec_views(res@) == split(s@, sep),
{
    let mut done: Vec<Vec<char>> = Vec::new();
    let mut cur: Vec<char> = Vec::new();
    let mut i: usize = 0;
    assert(s@.take(0) =~= Seq::<char>::empty());
    assert(char_vec_views(done@).push(cur@) =~= split(s@.take(0), sep));
    while i < s.len()
        invariant
            i <= s.len(),
            char_vec_views(done@).push(cur@) == split(s@.take(i as int), sep),
        decreases s.len() - i,
    {
        let ghost before = char_vec_views(done@);
        let ghost cur_before = cur@;
        assert(s@.take(i + 1).drop_last() =~= s@.take(i as int));
        assert(s@.take(i + 1).last() == s@[i as int]);
        if s[i] == sep {
            let finished = cur;
            done.push(finished);
            cur = Vec::new();
            assert(char_vec_views(done@) =~= before.push(cur_before));
            assert(char_vec_views(done@).push(cur@) =~= split(s@.take(i + 1), sep));
        } else {
            cur.push(s[i]);
            assert(char_vec_views(done@).push(cur@) =~= before.push(cur_before).update(
                before.len() as int,
                cur_before.push(s@[i as int]),
            ));
        }
        i = i + 1;
    }
    assert(s@.take(s.len() as int) =~= s@);
    let last = cur;
    done.push(last);
    done
}

/// `str::split_once` with a `char`: the parts before and after the first `sep`.
pub open spec fn split_once(s: Seq<char>, sep: char) -> Option<(Seq<char>, Seq<char>)> {
    match first_index_of(s, sep) {
        Some(i) => Some((s.take(i), s.skip(i + 1))),
        None => None,
    }
}

/// Executable `str::split_once` with a `char`.
pub fn split_once_exec(s: &Vec<char>, sep: char) -> (res: Option<(Vec<char>, Vec<char>)>)
    ensures
        match res {
            Some((a, b)) => split_once(s@, sep) == Some((a@, b@)),
            None => split_once(s@, sep) is None,
        },
{
    match find_char(s, sep) {
        Some(i) => {
            assert(i < s.len());
            let a = copy_range(s, 0, i);
            let b = copy_range(s, i + 1, s.len());
            assert(a@ =~= s@.take(i as int));
            assert(b@ =~= s@.skip(i + 1));
            Some((a, b))
        },
        None => None,
    }
}


/// `String::push`: appends one character.
#[verifier::external_body]
pub fn push_char(s: &mut String, c: char)
    ensures
        final(s)@ == old(s)@.push(c),
{
    s.push(c);
}

/// A `String` holding exactly the given characters.
pub fn string_from_chars(v: &Vec<char>) -> (res: String)
    ensures
        res@ == v@,
{
    let mut res = String::new();
    let mut i: usize = 0;
    while i < v.len()
        invariant
            i <= v.len(),
            res@ == v@.take(i as int),
        decreases v.len() - i,
    {
        push_char(&mut res, v[i]);
        assert(v@.take(i + 1) =~= v@.take(i as int).push(v@[i as int]));
        i = i + 1;
    }
    assert(v@.take(v.len() as int) =~= v@);
    res
}

/// Appends the given characters to `s`.
pub fn push_chars(s: &mut String, v: &Vec<char>)
    ensures
        final(s)@ == old(s)@ + v@,
{
    let mut i: usize = 0;
    while i < v.len()
        invariant
            i <= v.len(),
            s@ == old(s)@ + v@.take(i as int),
        decreases v.len() - i,
    {
        push_char(s, v[i]);
        assert(v@.take(i + 1) =~= v@.take(i as int).push(v@[i as int]));
        i = i + 1;
    }
    assert(v@.take(v.len() as int) =~= v@);
}

/// The parts joined with `sep` between neighbours (`[T]::join`).
pub open spec fn join(parts: Seq<Seq<char>>, sep: Seq<char>) -> Seq<char>
    decreases parts.len(),
{
    if parts.len() == 0 {
        Seq::<char>::empty()
    } else if parts.len() == 1 {
        parts[0]
    } else {
        join(parts.drop_last(), sep) + sep + parts.last()
    }
}

/// Executable `[String]::join`.
pub fn join_exec(parts: &Vec<String>, sep: &str) -> (res: String)
    ensures
        res@ == join(string_views(parts@), sep@),
{
    let mut res = String::new();
    let mut i: usize = 0;
    while i < parts.len()
        invariant
            i <= parts.len(),
            res@ == join(string_views(parts@).take(i as int), sep@),
        decreases parts.len() - i,
    {
        let ghost prefix = string_views(parts@).take(i as int);
        assert(string_views(parts@).take(i + 1).drop_last() =~= prefix);
        if i > 0 {
            res.append(sep);
        } else {
            assert(res@ =~= Seq::<char>::empty());
        }
        res.append(parts[i].as_str());
        i = i + 1;
    }
    assert(string_views(parts@).take(parts.len() as int) =~= string_views(parts@));
    res
}

/// The decimal digit character for `d < 10`.
pub open spec fn digit_char(d: nat) -> char {
    ((d + 48) as u8) as char
}

/// The decimal representation of `n`, as `Display` for unsigned integers writes it.
pub open spec fn decimal(n: nat) -> Seq<char>
    decreases n,
{
    if n < 10 {
        seq![digit_char(n)]
    } else {
        decimal(n / 10).push(digit_char(n % 10))
    }
}

/// Appends the decimal representation of `n` to `s`.
pub fn push_decimal(s: &mut String, n: usize)
    ensures
        final(s)@ == old(s)@ + decimal(n as nat),
    decreases n,
{
    if n >= 10 {
        push_decimal(s, n / 10);
    }
    let d = (n % 10) as u8;
    push_char(s, (d + 48) as char);
    assert(s@ =~= old(s)@ + decimal(n as nat));
}

/// `s` with each `"` replaced by `\"` (`str::replace('"', "\\\"")`).
pub open spec fn escape_quotes(s: Seq<char>) -> Seq<char>
    decreases s.len(),
{
    if s.len() == 0 {
        Seq::<char>::empty()
    } else if s.last() == '"' {
        escape_quotes(s.drop_last()) + seq!['\\', '"']
    } else {
        escape_quotes(s.drop_last()).push(s.last())
    }
}

/// Appends `escape_quotes(v)` to `s`.
pub fn push_escaped_quotes(s: &mut String, v: &Vec<char>)
    ensures
        final(s)@ == old(s)@ + escape_quotes(v@),
{
    let mut i: usize = 0;
    assert(v@.take(0) =~= Seq::<char>::empty());
    while i < v.len()
        invariant
            i <= v.len(),
            s@ == old(s)@ + escape_quotes(v@.take(i as int)),
        decreases v.len() - i,
    {
        assert(v@.take(i + 1).drop_last() =~= v@.take(i as int));
        if v[i] == '"' {
            push_char(s, '\\');
            push_char(s, '"');
        } else {
            push_char(s, v[i]);
        }
        assert(s@ =~= old(s)@ + escape_quotes(v@.take(i + 1)));
        i = i + 1;
    }
    assert(v@.take(v.len() as int) =~= v@);
}

/// Every quote of an escaped text is preceded by a backslash.
pub proof fn lemma_escaped_quotes_are_escaped(s: Seq<char>)
    ensures
        forall|i: int|
            0 <= i < escape_quotes(s).len() && #[trigger] escape_quotes(s)[i] == '"' ==> i > 0
                && escape_quotes(s)[i - 1] == '\\',
    decreases s.len(),
{
    if s.len() > 0 {
        lemma_escaped_quotes_are_escaped(s.drop_last());
        let prev = escape_quotes(s.drop_last());
        assert forall|i: int|
            0 <= i < escape_quotes(s).len() && #[trigger] escape_quotes(s)[i] == '"' implies i > 0
                && escape_quotes(s)[i - 1] == '\\' by {
            if i < prev.len() {
                assert(escape_quotes(s)[i] == prev[i]);
                assert(escape_quotes(s)[i - 1] == prev[i - 1]);
            }
        }
    }
}

/// The position where `strip_start` cuts `s`.
pub proof fn lemma_strip_start_offset(s: Seq<char>, p: CharPattern) -> (k: int)
    ensures
        0 <= k <= s.len(),
        strip_start(s, p) == s.subrange(k, s.len() as int),
    decreases s.len(),
{
    if s.len() > 0 && p.spec_accepts(s[0]) {
        let k = lemma_strip_start_offset(s.drop_first(), p);
        assert(s.drop_first().subrange(k, s.drop_first().len() as int) =~= s.subrange(
            k + 1,
            s.len() as int,
        ));
        k + 1
    } else {
        assert(s.subrange(0, s.len() as int) =~= s);
        0
    }
}

/// The position where `strip_end` cuts `s`.
pub proof fn lemma_strip_end_offset(s: Seq<char>, p: CharPattern) -> (k: int)
    ensures
        0 <= k <= s.len(),
        strip_end(s, p) == s.subrange(0, k),
    decreases s.len(),
{
    if s.len() > 0 && p.spec_accepts(s.last()) {
        let k = lemma_strip_end_offset(s.drop_last(), p);
        assert(s.drop_last().subrange(0, k) =~= s.subrange(0, k));
        k
    } else {
        assert(s.subrange(0, s.len() as int) =~= s);
        s.len() as int
    }
}

/// What occurs in a trimmed text occurs in the text itself.
pub proof fn lemma_trimmed_occurrence(s: Seq<char>, p: CharPattern, pat: Seq<char>)
    requires
        contains_seq(trim_matching(s, p), pat),
    ensures
        contains_seq(s, pat),
{
    let a = lemma_strip_start_offset(s, p);
    let t = strip_start(s, p);
    let b = lemma_strip_end_offset(t, p);
    let i = choose|i: int| occurs_at(trim_matching(s, p), pat, i);
    assert(trim_matching(s, p) =~= s.subrange(a, a + b));
    assert(s.subrange(a + i, a + i + pat.len()) =~= trim_matching(s, p).subrange(
        i,
        i + pat.len(),
    ));
    assert(occurs_at(s, pat, a + i));
}

/// `c` does not occur in `s`.
pub open spec fn lacks_char(s: Seq<char>, c: char) -> bool {
    forall|i: int| 0 <= i < s.len() ==> s[i] != c
}

/// A character absent from a text is absent from every part cut out of it.
pub proof fn lemma_lacks_char_subrange(s: Seq<char>, c: char, a: int, b: int)
    requires
        lacks_char(s, c),
        0 <= a <= b <= s.len(),
    ensures
        lacks_char(s.subrange(a, b), c),
{
    assert forall|i: int| 0 <= i < s.subrange(a, b).len() implies s.subrange(a, b)[i] != c by {
        assert(s.subrange(a, b)[i] == s[a + i]);
    }
}

/// A character absent from a text is absent from it trimmed by any pattern.
pub proof fn lemma_lacks_char_trimmed(s: Seq<char>, p: CharPattern, c: char)
    requires
        lacks_char(s, c),
    ensures
        lacks_char(strip_start(s, p), c),
        lacks_char(strip_end(s, p), c),
        lacks_char(trim_matching(s, p), c),
{
    let a = lemma_strip_start_offset(s, p);
    lemma_lacks_char_subrange(s, c, a, s.len() as int);
    let b = lemma_strip_end_offset(s, p);
    lemma_lacks_char_subrange(s, c, 0, b);
    let t = strip_start(s, p);
    let k = lemma_strip_end_offset(t, p);
    lemma_lacks_char_subrange(t, c, 0, k);
}

/// Splitting gives at least one piece.
pub proof fn lemma_split_nonempty(s: Seq<char>, sep: char)
    ensures
        split(s, sep).len() >= 1,
    decreases s.len(),
{
    if s.len() > 0 {
        lemma_split_nonempty(s.drop_last(), sep);
    }
}

/// A character absent from a text is absent from every piece of it.
pub proof fn lemma_lacks_char_split(s: Seq<char>, sep: char, c: char)
    requires
        lacks_char(s, c),
    ensures
        forall|i: int| 0 <= i < split(s, sep).len() ==> lacks_char(#[trigger] split(s, sep)[i], c),
    decreases s.len(),
{
    if s.len() > 0 {
        lemma_lacks_char_subrange(s, c, 0, s.len() - 1);
        assert(s.drop_last() =~= s.subrange(0, s.len() - 1));
        lemma_lacks_char_split(s.drop_last(), sep, c);
        lemma_split_nonempty(s.drop_last(), sep);
        let prev = split(s.drop_last(), sep);
        assert(s.last() != c);
        assert forall|i: int| 0 <= i < split(s, sep).len() implies lacks_char(
            #[trigger] split(s, sep)[i],
            c,
        ) by {
            if s.last() == sep {
                if i < prev.len() {
                    assert(split(s, sep)[i] == prev[i]);
                } else {
                    assert(split(s, sep)[i] =~= Seq::<char>::empty());
                }
            } else {
                if i < prev.len() - 1 {
                    assert(split(s, sep)[i] == prev[i]);
                } else {
                    let piece = prev.last().push(s.last());
                    assert(split(s, sep)[i] == piece);
                    assert(lacks_char(prev[prev.len() - 1], c));
                    assert forall|j: int| 0 <= j < piece.len() implies piece[j] != c by {
                        if j < piece.len() - 1 {
                            assert(piece[j] == prev[prev.len() - 1][j]);
                        }
                    }
                }
            }
        }
    }
}

/// When `first_index_of` finds a position, `c` stands there.
pub proof fn lemma_first_index_of_found(s: Seq<char>, c: char)
    ensures
        first_index_of(s, c) matches Some(i) ==> is_first_index(s, c, i),
{
}

/// When `first_occurrence` finds a position, `pat` occurs there.
pub proof fn lemma_first_occurrence_found(s: Seq<char>, pat: Seq<char>)
    ensures
        first_occurrence(s, pat) matches Some(i) ==> is_first_occurrence(s, pat, i),
{
}

/// A character absent from a text is absent from both parts of its `split_once`.
pub proof fn lemma_lacks_char_split_once(s: Seq<char>, sep: char, c: char)
    requires
        lacks_char(s, c),
    ensures
        split_once(s, sep) matches Some((a, b)) ==> lacks_char(a, c) && lacks_char(b, c),
{
    lemma_first_index_of_found(s, sep);
    if let Some(i) = first_index_of(s, sep) {
        lemma_lacks_char_subrange(s, c, 0, i);
        lemma_lacks_char_subrange(s, c, i + 1, s.len() as int);
        assert(s.take(i) =~= s.subrange(0, i));
        assert(s.skip(i + 1) =~= s.subrange(i + 1, s.len() as int));
    }
}

proof fn lemma_join_extend_last(parts: Seq<Seq<char>>, sep: Seq<char>, c: char)
    requires
        parts.len() >= 1,
    ensures
        join(parts.update(parts.len() - 1, parts.last().push(c)), sep) == join(parts, sep).push(c),
{
    let updated = parts.update(parts.len() - 1, parts.last().push(c));
    if parts.len() == 1 {
        assert(updated[0] == parts[0].push(c));
    } else {
        assert(updated.drop_last() =~= parts.drop_last());
        assert(updated.last() == parts.last().push(c));
        assert(join(updated, sep) =~= join(parts, sep).push(c));
    }
}

/// Joining the pieces of a split with the separator gives the text back, and
/// no piece holds the separator.
pub proof fn lemma_split_rejoins(s: Seq<char>, sep: char)
    ensures
        join(split(s, sep), seq![sep]) == s,
        forall|i: int|
            0 <= i < split(s, sep).len() ==> lacks_char(#[trigger] split(s, sep)[i], sep),
    decreases s.len(),
{
    if s.len() == 0 {
        assert(join(split(s, sep), seq![sep]) =~= s);
    } else {
        lemma_split_rejoins(s.drop_last(), sep);
        lemma_split_nonempty(s.drop_last(), sep);
        let prev = split(s.drop_last(), sep);
        if s.last() == sep {
            let parts = prev.push(Seq::<char>::empty());
            assert(parts.drop_last() =~= prev);
            assert(join(parts, seq![sep]) =~= s.drop_last() + seq![sep] + Seq::<char>::empty());
            assert(s.drop_last() + seq![sep] + Seq::<char>::empty() =~= s);
            assert forall|i: int| 0 <= i < parts.len() implies lacks_char(#[trigger] parts[i], sep) by {
                if i < prev.len() {
                    assert(parts[i] == prev[i]);
                }
            }
        } else {
            lemma_join_extend_last(prev, seq![sep], s.last());
            assert(s.drop_last().push(s.last()) =~= s);
            let parts = prev.update(prev.len() - 1, prev.last().push(s.last()));
            assert forall|i: int| 0 <= i < parts.len() implies lacks_char(#[trigger] parts[i], sep) by {
                if i < prev.len() - 1 {
                    assert(parts[i] == prev[i]);
                } else {
                    let piece = prev.last().push(s.last());
                    assert(parts[i] == piece);
                    assert(lacks_char(prev[prev.len() - 1], sep));
                    assert forall|j: int| 0 <= j < piece.len() implies piece[j] != sep by {
                        if j < piece.len() - 1 {
                            assert(piece[j] == prev[prev.len() - 1][j]);
                        }
                    }
                }
            }
        }
    }
}

/// `strip_start` empties a text exactly when the pattern accepts all of it.
pub proof fn lemma_strip_start_empty(s: Seq<char>, p: CharPattern)
    ensures
        strip_start(s, p).len() == 0 <==> forall|i: int| 0 <= i < s.len() ==> p.spec_accepts(s[i]),
        strip_start(s, p).len() > 0 ==> !p.spec_accepts(strip_start(s, p)[0]),
    decreases s.len(),
{
    if s.len() > 0 && p.spec_accepts(s[0]) {
        lemma_strip_start_empty(s.drop_first(), p);
        assert forall|i: int| 0 <= i < s.len() && i > 0 implies (p.spec_accepts(s[i])
            == p.spec_accepts(s.drop_first()[i - 1])) by {}
        if forall|i: int| 0 <= i < s.drop_first().len() ==> p.spec_accepts(s.drop_first()[i]) {
            assert forall|i: int| 0 <= i < s.len() implies p.spec_accepts(s[i]) by {
                if i > 0 {
                    assert(p.spec_accepts(s.drop_first()[i - 1]));
                }
            }
        }
    }
}

/// `strip_end` empties a text exactly when the pattern accepts all of it.
pub proof fn lemma_strip_end_empty(s: Seq<char>, p: CharPattern)
    ensures
        strip_end(s, p).len() == 0 <==> forall|i: int| 0 <= i < s.len() ==> p.spec_accepts(s[i]),
    decreases s.len(),
{
    if s.len() > 0 && p.spec_accepts(s.last()) {
        lemma_strip_end_empty(s.drop_last(), p);
        if forall|i: int| 0 <= i < s.drop_last().len() ==> p.spec_accepts(s.drop_last()[i]) {
            assert forall|i: int| 0 <= i < s.len() implies p.spec_accepts(s[i]) by {
                if i < s.len() - 1 {
                    assert(p.spec_accepts(s.drop_last()[i]));
                }
            }
        } else {
            let i = choose|i: int|
                0 <= i < s.drop_last().len() && !p.spec_accepts(s.drop_last()[i]);
            assert(s[i] == s.drop_last()[i]);
        }
    } else if s.len() > 0 {
        assert(!p.spec_accepts(s[s.len() - 1]));
    }
}

/// A text trims to nothing exactly when every character of it is whitespace.
pub proof fn lemma_trim_empty_iff_all_whitespace(s: Seq<char>)
    ensures
        trim(s).len() == 0 <==> forall|i: int| 0 <= i < s.len() ==> is_whitespace(s[i]),
{
    let p = CharPattern::Whitespace;
    lemma_strip_start_empty(s, p);
    let t = strip_start(s, p);
    lemma_strip_end_empty(t, p);
    if t.len() > 0 {
        assert(!p.spec_accepts(t[0]));
    }
}

/// The whitespace that trimming removes is Unicode `White_Space`: the code
/// points 9-13, 32, 0x85, 0xA0, 0x1680, 0x2000-0x200A, 0x2028, 0x2029,
/// 0x202F, 0x205F and 0x3000.
pub proof fn lemma_whitespace_code_points(c: char)
    ensures
        is_whitespace(c) <==> ({
            let u = c as u32;
            ||| 9 <= u <= 13
            ||| u == 32
            ||| u == 0x85
            ||| u == 0xa0
            ||| u == 0x1680
            ||| 0x2000 <= u <= 0x200a
            ||| u == 0x2028
            ||| u == 0x2029
            ||| u == 0x202f
            ||| u == 0x205f
            ||| u == 0x3000
        }),
{
}

} // verus!
