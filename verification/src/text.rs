//! Small string utilities shared by the display and key-formatting code.
use vstd::prelude::*;
use vstd::string::*;

verus! {

/// Concatenation of `parts` with `sep` between consecutive parts.
pub open spec fn join(parts: Seq<Seq<char>>, sep: Seq<char>) -> Seq<char>
    decreases parts.len(),
{
    if parts.len() == 0 {
        Seq::empty()
    } else if parts.len() == 1 {
        parts[0]
    } else {
        join(parts.drop_last(), sep) + sep + parts.last()
    }
}

/// Concatenation of all `parts` with nothing between them.
pub open spec fn concat(parts: Seq<Seq<char>>) -> Seq<char> {
    join(parts, Seq::empty())
}

/// The views of a sequence of strings.
pub open spec fn views(v: Seq<String>) -> Seq<Seq<char>> {
    v.map_values(|s: String| s@)
}

/// `prefix` is a prefix of `s`.
pub open spec fn has_prefix(s: Seq<char>, prefix: Seq<char>) -> bool {
    prefix.len() <= s.len() && s.subrange(0, prefix.len() as int) == prefix
}

/// Pushing onto a sequence inserts into its set of elements.
pub proof fn lemma_push_to_set<A>(s: Seq<A>, x: A)
    ensures
        s.push(x).to_set() == s.to_set().insert(x),
{
    Seq::lemma_to_set_insert_commutes(s, x);
    assert(s + seq![x] =~= s.push(x));
}

/// Character-wise equality of two string slices.
pub fn str_eq(a: &str, b: &str) -> (r: bool)
    ensures
        r == (a@ == b@),
{
    let sa = String::from_str(a);
    let sb = String::from_str(b);
    sa == sb
}

/// Whether `s` starts with `prefix`.
pub fn starts_with(s: &str, prefix: &str) -> (r: bool)
    ensures
        r == has_prefix(s@, prefix@),
{
    let n = s.unicode_len();
    let m = prefix.unicode_len();
    if m > n {
        return false;
    }
    let mut i: usize = 0;
    while i < m
        invariant
            m == prefix@.len(),
            n == s@.len(),
            m <= n,
            i <= m,
            forall|j: int| 0 <= j < i ==> s@[j] == prefix@[j],
        decreases m - i,
    {
        if s.get_char(i) != prefix.get_char(i) {
            assert(s@.subrange(0, m as int)[i as int] != prefix@[i as int]);
            return false;
        }
        i = i + 1;
    }
    assert(s@.subrange(0, m as int) =~= prefix@);
    true
}

/// Joins the strings in `parts`, putting `sep` between consecutive ones.
pub fn join_strings(parts: &Vec<String>, sep: &str) -> (r: String)
    ensures
        r@ == join(views(parts@), sep@),
{
    let mut r = String::new();
    let ghost all = views(parts@);
    let mut i: usize = 0;
    while i < parts.len()
        invariant
            i <= parts.len(),
            all == views(parts@),
            r@ == join(all.take(i as int), sep@),
        decreases parts.len() - i,
    {
        assert(all.take(i + 1).drop_last() =~= all.take(i as int));
        if i > 0 {
            r.append(sep);
        }
        r.append(parts[i].as_str());
        assert(all.take(i + 1).last() == parts@[i as int]@);
        i = i + 1;
    }
    assert(all.take(parts.len() as int) =~= all);
    r
}


/// Unicode White_Space, the set `char::is_whitespace` tests.
pub open spec fn is_ws(c: char) -> bool {
    let v = c as u32;
    (0x09 <= v <= 0x0D) || v == 0x20 || v == 0x85 || v == 0xA0 || v == 0x1680 || (0x2000 <= v
        <= 0x200A) || v == 0x2028 || v == 0x2029 || v == 0x202F || v == 0x205F || v == 0x3000
}

/// Whether `c` is Unicode whitespace.
pub fn char_is_ws(c: char) -> (r: bool)
    ensures
        r == is_ws(c),
{
    let v = c as u32;
    (0x09 <= v && v <= 0x0D) || v == 0x20 || v == 0x85 || v == 0xA0 || v == 0x1680 || (0x2000 <= v
        && v <= 0x200A) || v == 0x2028 || v == 0x2029 || v == 0x202F || v == 0x205F || v == 0x3000
}

/// `s` without its leading whitespace.
pub open spec fn trim_start(s: Seq<char>) -> Seq<char>
    decreases s.len(),
{
    if s.len() > 0 && is_ws(s[0]) {
        trim_start(s.drop_first())
    } else {
        s
    }
}

/// `s` without its trailing whitespace.
pub open spec fn trim_end(s: Seq<char>) -> Seq<char>
    decreases s.len(),
{
    if s.len() > 0 && is_ws(s.last()) {
        trim_end(s.drop_last())
    } else {
        s
    }
}

/// `s` without leading and trailing whitespace (what `str::trim` returns).
pub open spec fn trim(s: Seq<char>) -> Seq<char> {
    trim_end(trim_start(s))
}

/// A slice of `s` with leading and trailing whitespace removed.
pub fn trim_str(s: &str) -> (r: &str)
    ensures
        r@ == trim(s@),
{
    let n = s.unicode_len();
    let mut i: usize = 0;
    assert(s@.skip(0) =~= s@);
    while i < n && char_is_ws(s.get_char(i))
        invariant
            n == s@.len(),
            i <= n,
            trim_start(s@) == trim_start(s@.skip(i as int)),
        decreases n - i,
    {
        assert(s@.skip(i as int).drop_first() =~= s@.skip(i + 1));
        i = i + 1;
    }
    assert(trim_start(s@.skip(i as int)) == s@.skip(i as int));
    let mut j: usize = n;
    while j > i && char_is_ws(s.get_char(j - 1))
        invariant
            n == s@.len(),
            i <= j <= n,
            trim(s@) == trim_end(s@.subrange(i as int, j as int)),
        decreases j,
    {
        assert(s@.subrange(i as int, j as int).drop_last() =~= s@.subrange(i as int, j - 1));
        j = j - 1;
    }
    assert(s@.skip(i as int) =~= s@.subrange(i as int, n as int));
    s.substring_char(i, j)
}

/// `sep` occurs in `s` at position `i`.
pub open spec fn occurs_at(s: Seq<char>, sep: Seq<char>, i: int) -> bool {
    0 <= i && i + sep.len() <= s.len() && s.subrange(i, i + sep.len()) == sep
}

/// The first position at or after `i` where `sep` occurs in `s`, or -1.
pub open spec fn find_from(s: Seq<char>, sep: Seq<char>, i: int) -> int
    decreases s.len() - i,
{
    if i < 0 || i + sep.len() > s.len() || i >= s.len() {
        -1
    } else if occurs_at(s, sep, i) {
        i
    } else {
        find_from(s, sep, i + 1)
    }
}

/// What `find_from` returns is -1 or an occurrence at or after `i` with none before it.
pub proof fn lemma_find_from(s: Seq<char>, sep: Seq<char>, i: int)
    requires
        0 <= i,
        sep.len() > 0,
    ensures
        find_from(s, sep, i) == -1 || (i <= find_from(s, sep, i) && occurs_at(
            s,
            sep,
            find_from(s, sep, i),
        )),
        forall|k: int| i <= k && (find_from(s, sep, i) == -1 || k < find_from(s, sep, i)) ==> !occurs_at(
            s,
            sep,
            k,
        ),
    decreases s.len() - i,
{
    if i + sep.len() <= s.len() && !occurs_at(s, sep, i) {
        lemma_find_from(s, sep, i + 1);
    }
}

/// The pieces of `s` from position `start` on, cut at each occurrence of `sep`
/// (what `str::split` yields for a non-empty separator).
pub open spec fn split_from(s: Seq<char>, sep: Seq<char>, start: int) -> Seq<Seq<char>>
    decreases s.len() - start,
{
    if start < 0 || start > s.len() || sep.len() == 0 {
        seq![s.subrange(start, s.len() as int)]
    } else {
        let i = find_from(s, sep, start);
        if i < 0 {
            seq![s.subrange(start, s.len() as int)]
        } else {
            proof {
                lemma_find_from(s, sep, start);
            }
            seq![s.subrange(start, i)] + split_from(s, sep, i + sep.len())
        }
    }
}

/// The pieces of `s` cut at each occurrence of `sep`.
pub open spec fn split(s: Seq<char>, sep: Seq<char>) -> Seq<Seq<char>> {
    split_from(s, sep, 0)
}

/// No character of `s` occurs in `sep`.
pub open spec fn avoids(s: Seq<char>, sep: Seq<char>) -> bool {
    forall|k: int| 0 <= k < s.len() ==> !sep.contains(#[trigger] s[k])
}

/// Searching `p + r` from a position in `r` finds what searching `r` finds, shifted.
proof fn lemma_find_from_shift(p: Seq<char>, r: Seq<char>, sep: Seq<char>, j: int)
    requires
        0 <= j,
        sep.len() > 0,
    ensures
        find_from(p + r, sep, p.len() + j) == if find_from(r, sep, j) == -1 {
            -1
        } else {
            p.len() + find_from(r, sep, j)
        },
    decreases r.len() - j,
{
    let s = p + r;
    let i = p.len() + j;
    if !(i + sep.len() > s.len() || i >= s.len()) {
        assert(occurs_at(s, sep, i) == occurs_at(r, sep, j)) by {
            if j + sep.len() <= r.len() {
                assert(s.subrange(i, i + sep.len()) =~= r.subrange(j, j + sep.len()));
            }
        }
        if !occurs_at(r, sep, j) {
            lemma_find_from_shift(p, r, sep, j + 1);
        }
    }
}

/// Splitting `p + r` from a position in `r` gives the pieces of `r` from there.
proof fn lemma_split_from_shift(p: Seq<char>, r: Seq<char>, sep: Seq<char>, j: int)
    requires
        0 <= j <= r.len(),
        sep.len() > 0,
    ensures
        split_from(p + r, sep, p.len() + j) == split_from(r, sep, j),
    decreases r.len() - j,
{
    let s = p + r;
    let i = p.len() + j;
    lemma_find_from_shift(p, r, sep, j);
    lemma_find_from(r, sep, j);
    let f = find_from(r, sep, j);
    if f < 0 {
        assert(s.subrange(i, s.len() as int) =~= r.subrange(j, r.len() as int));
    } else {
        assert(s.subrange(i, p.len() + f) =~= r.subrange(j, f));
        lemma_split_from_shift(p, r, sep, f + sep.len());
    }
}

/// A text that avoids the separator's characters contains no occurrence of it.
proof fn lemma_no_occurrence(s: Seq<char>, sep: Seq<char>, i: int)
    requires
        sep.len() > 0,
        0 <= i,
        forall|k: int| i <= k < s.len() ==> !sep.contains(#[trigger] s[k]),
    ensures
        find_from(s, sep, i) == -1,
    decreases s.len() - i,
{
    if !(i + sep.len() > s.len() || i >= s.len()) {
        assert(sep.contains(sep[0]));
        if occurs_at(s, sep, i) {
            assert(s.subrange(i, i + sep.len())[0] == s[i]);
        }
        lemma_no_occurrence(s, sep, i + 1);
    }
}

/// Splitting a piece that avoids the separator, the separator and a rest gives the
/// piece, then the pieces of the rest.
proof fn lemma_split_head(a: Seq<char>, sep: Seq<char>, rest: Seq<char>)
    requires
        sep.len() > 0,
        avoids(a, sep),
    ensures
        split(a + sep + rest, sep) == seq![a] + split(rest, sep),
{
    let s = a + sep + rest;
    lemma_find_from(s, sep, 0);
    assert(occurs_at(s, sep, a.len() as int)) by {
        assert(s.subrange(a.len() as int, (a.len() + sep.len()) as int) =~= sep);
    }
    assert forall|k: int| 0 <= k < a.len() implies !occurs_at(s, sep, k) by {
        assert(sep.contains(sep[0]));
        if occurs_at(s, sep, k) {
            assert(s.subrange(k, k + sep.len())[0] == s[k]);
            assert(s[k] == a[k]);
        }
    }
    assert(find_from(s, sep, 0) == a.len());
    assert(s.subrange(0, a.len() as int) =~= a);
    assert(s =~= (a + sep) + rest);
    lemma_split_from_shift(a + sep, rest, sep, 0);
}

/// A join of at least two parts is the first part, the separator and the join of the
/// others.
proof fn lemma_join_front(parts: Seq<Seq<char>>, sep: Seq<char>)
    requires
        parts.len() >= 2,
    ensures
        join(parts, sep) == parts[0] + sep + join(parts.drop_first(), sep),
    decreases parts.len(),
{
    if parts.len() == 2 {
        assert(parts.drop_last() =~= seq![parts[0]]);
        assert(parts.drop_first() =~= seq![parts[1]]);
        assert(join(parts.drop_last(), sep) == parts[0]);
        assert(join(parts.drop_first(), sep) == parts[1]);
        assert(join(parts, sep) =~= parts[0] + sep + parts[1]);
    } else {
        let dl = parts.drop_last();
        let df = parts.drop_first();
        lemma_join_front(dl, sep);
        assert(dl.drop_first() =~= df.drop_last());
        assert(df.last() == parts.last());
        assert(dl[0] == parts[0]);
        assert(join(df, sep) == join(df.drop_last(), sep) + sep + df.last());
        assert(join(parts, sep) == join(dl, sep) + sep + parts.last());
        assert(join(parts, sep) =~= parts[0] + sep + join(df, sep));
    }
}

/// Splitting the join of parts that avoid the separator's characters gives the parts
/// back.
pub proof fn lemma_split_join(parts: Seq<Seq<char>>, sep: Seq<char>)
    requires
        sep.len() > 0,
        parts.len() > 0,
        forall|i: int| 0 <= i < parts.len() ==> avoids(#[trigger] parts[i], sep),
    ensures
        split(join(parts, sep), sep) == parts,
    decreases parts.len(),
{
    if parts.len() == 1 {
        let a = parts[0];
        assert(avoids(a, sep));
        lemma_no_occurrence(a, sep, 0);
        assert(a.subrange(0, a.len() as int) =~= a);
        assert(split(a, sep) =~= parts);
    } else {
        lemma_join_front(parts, sep);
        assert(avoids(parts[0], sep));
        lemma_split_head(parts[0], sep, join(parts.drop_first(), sep));
        assert forall|i: int| 0 <= i < parts.drop_first().len() implies avoids(
            #[trigger] parts.drop_first()[i],
            sep,
        ) by {
            assert(parts.drop_first()[i] == parts[i + 1]);
        }
        lemma_split_join(parts.drop_first(), sep);
        assert(seq![parts[0]] + parts.drop_first() =~= parts);
    }
}

/// Whether `sep` occurs in `s` at char position `i`.
fn occurs_at_exec(s: &str, sep: &str, i: usize, n: usize, m: usize) -> (r: bool)
    requires
        n == s@.len(),
        m == sep@.len(),
        i + m <= n,
    ensures
        r == occurs_at(s@, sep@, i as int),
{
    let mut k: usize = 0;
    while k < m
        invariant
            n == s@.len(),
            m == sep@.len(),
            i + m <= n,
            k <= m,
            forall|j: int| 0 <= j < k ==> s@[i + j] == sep@[j],
        decreases m - k,
    {
        if s.get_char(i + k) != sep.get_char(k) {
            assert(s@.subrange(i as int, i + m)[k as int] != sep@[k as int]);
            return false;
        }
        k = k + 1;
    }
    assert(s@.subrange(i as int, i + m) =~= sep@);
    true
}

/// The pieces of `s` between occurrences of the non-empty separator `sep`.
pub fn split_str(s: &str, sep: &str) -> (r: Vec<String>)
    requires
        sep@.len() > 0,
    ensures
        views(r@) == split(s@, sep@),
{
    let n = s.unicode_len();
    let m = sep.unicode_len();
    let mut r: Vec<String> = Vec::new();
    let mut cur: usize = 0;
    let mut i: usize = 0;
    while i <= n && n - i >= m
        invariant
            n == s@.len(),
            m == sep@.len(),
            m > 0,
            cur <= i,
            i <= n + m,
            cur <= n,
            views(r@) + split_from(s@, sep@, cur as int) == split(s@, sep@),
            find_from(s@, sep@, cur as int) == find_from(s@, sep@, i as int),
        decreases n - i,
    {
        if occurs_at_exec(s, sep, i, n, m) {
            assert(i + m <= n);
            let piece = String::from_str(s.substring_char(cur, i));
            proof {
                assert(find_from(s@, sep@, i as int) == i);
                assert(split_from(s@, sep@, cur as int) == seq![s@.subrange(cur as int, i as int)]
                    + split_from(s@, sep@, i + m));
                assert(views(r@.push(piece)) =~= views(r@).push(piece@));
                assert(views(r@).push(piece@) + split_from(s@, sep@, i + m) =~= views(r@) + (seq![
                    s@.subrange(cur as int, i as int),
                ] + split_from(s@, sep@, i + m)));
            }
            r.push(piece);
            cur = i + m;
            i = i + m;
        } else {
            i = i + 1;
        }
    }
    proof {
        assert(find_from(s@, sep@, i as int) == -1);
        assert(split_from(s@, sep@, cur as int) == seq![s@.subrange(cur as int, n as int)]);
    }
    let last = String::from_str(s.substring_char(cur, n));
    proof {
        assert(views(r@.push(last)) =~= views(r@) + seq![last@]);
    }
    r.push(last);
    r
}

/// The leading run of non-whitespace characters of `s`.
pub open spec fn word_prefix(s: Seq<char>) -> Seq<char>
    decreases s.len(),
{
    if s.len() == 0 || is_ws(s[0]) {
        Seq::empty()
    } else {
        seq![s[0]] + word_prefix(s.drop_first())
    }
}

/// The leading word is no longer than the text.
pub proof fn lemma_word_prefix_len(s: Seq<char>)
    ensures
        word_prefix(s).len() <= s.len(),
        s.len() > 0 && !is_ws(s[0]) ==> word_prefix(s).len() > 0,
    decreases s.len(),
{
    if s.len() > 0 && !is_ws(s[0]) {
        lemma_word_prefix_len(s.drop_first());
    }
}

/// The leading whitespace removed leaves a suffix.
pub proof fn lemma_trim_start_len(s: Seq<char>)
    ensures
        trim_start(s).len() <= s.len(),
        trim_start(s) == s.skip(s.len() - trim_start(s).len()),
    decreases s.len(),
{
    if s.len() > 0 && is_ws(s[0]) {
        lemma_trim_start_len(s.drop_first());
        assert(s.drop_first().skip(s.drop_first().len() - trim_start(s).len()) =~= s.skip(
            s.len() - trim_start(s).len(),
        ));
    } else {
        assert(s.skip(0) =~= s);
    }
}

/// The whitespace-separated words of `s` (what `str::split_whitespace` yields).
pub open spec fn words(s: Seq<char>) -> Seq<Seq<char>>
    decreases s.len(),
{
    let t = trim_start(s);
    if t.len() == 0 {
        Seq::empty()
    } else {
        let w = word_prefix(t);
        if 0 < w.len() <= t.len() <= s.len() {
            seq![w] + words(t.skip(w.len() as int))
        } else {
            Seq::empty()
        }
    }
}

/// The words of `s` skipping a leading whitespace character are those of `s`.
proof fn lemma_words_ws(s: Seq<char>, i: int)
    requires
        0 <= i < s.len(),
        is_ws(s[i]),
    ensures
        words(s.skip(i)) == words(s.skip(i + 1)),
{
    assert(s.skip(i).drop_first() =~= s.skip(i + 1));
    assert(trim_start(s.skip(i)) == trim_start(s.skip(i + 1)));
    lemma_trim_start_len(s.skip(i + 1));
    lemma_word_prefix_len(trim_start(s.skip(i + 1)));
}

/// The leading word from position `k` runs to `j`, the first whitespace at or after
/// `k` (or the end).
proof fn lemma_word_prefix_run(s: Seq<char>, k: int, j: int)
    requires
        0 <= k <= j <= s.len(),
        forall|m: int| k <= m < j ==> !is_ws(#[trigger] s[m]),
        j == s.len() || is_ws(s[j]),
    ensures
        word_prefix(s.skip(k)) == s.subrange(k, j),
    decreases j - k,
{
    if k == j {
        assert(s.subrange(k, j) =~= Seq::<char>::empty());
    } else {
        lemma_word_prefix_run(s, k + 1, j);
        assert(s.skip(k).drop_first() =~= s.skip(k + 1));
        assert(s.subrange(k, j) =~= seq![s[k]] + s.subrange(k + 1, j));
    }
}

/// The words of `s` from a non-whitespace position `i` start with the run up to `j`.
proof fn lemma_words_word(s: Seq<char>, i: int, j: int)
    requires
        0 <= i < j <= s.len(),
        forall|m: int| i <= m < j ==> !is_ws(#[trigger] s[m]),
        j == s.len() || is_ws(s[j]),
    ensures
        words(s.skip(i)) == seq![s.subrange(i, j)] + words(s.skip(j)),
{
    let t = s.skip(i);
    assert(trim_start(t) == t);
    lemma_word_prefix_run(s, i, j);
    assert(t.skip(j - i) =~= s.skip(j));
}

/// The whitespace-separated words of `s`.
pub fn split_whitespace_str(s: &str) -> (r: Vec<String>)
    ensures
        views(r@) == words(s@),
{
    let n = s.unicode_len();
    let mut r: Vec<String> = Vec::new();
    let mut i: usize = 0;
    assert(s@.skip(0) =~= s@);
    while i < n
        invariant
            n == s@.len(),
            i <= n,
            views(r@) + words(s@.skip(i as int)) == words(s@),
        decreases n - i,
    {
        if char_is_ws(s.get_char(i)) {
            proof {
                lemma_words_ws(s@, i as int);
            }
            i = i + 1;
        } else {
            let mut j: usize = i + 1;
            while j < n && !char_is_ws(s.get_char(j))
                invariant
                    n == s@.len(),
                    i < j <= n,
                    forall|m: int| i <= m < j ==> !is_ws(#[trigger] s@[m]),
                decreases n - j,
            {
                j = j + 1;
            }
            let w = String::from_str(s.substring_char(i, j));
            proof {
                lemma_words_word(s@, i as int, j as int);
                assert(views(r@.push(w)) =~= views(r@).push(w@));
                assert(views(r@).push(w@) + words(s@.skip(j as int)) =~= views(r@) + (seq![w@]
                    + words(s@.skip(j as int))));
            }
            r.push(w);
            i = j;
        }
    }
    proof {
        assert(s@.skip(n as int) =~= Seq::<char>::empty());
        assert(trim_start(Seq::<char>::empty()) == Seq::<char>::empty());
        assert(views(r@) + Seq::<Seq<char>>::empty() =~= views(r@));
    }
    r
}

/// Strict lexicographic order on character codes (the order of `String`'s `Ord`,
/// since UTF-8 preserves code point order).
pub open spec fn lex_lt(a: Seq<char>, b: Seq<char>) -> bool
    decreases a.len(),
{
    if a.len() == 0 {
        b.len() > 0
    } else if b.len() == 0 {
        false
    } else if a[0] != b[0] {
        (a[0] as int) < (b[0] as int)
    } else {
        lex_lt(a.drop_first(), b.drop_first())
    }
}

/// No sequence comes before itself.
pub proof fn lemma_lex_irreflexive(a: Seq<char>)
    ensures
        !lex_lt(a, a),
    decreases a.len(),
{
    if a.len() > 0 {
        lemma_lex_irreflexive(a.drop_first());
    }
}

/// `lex_lt` is a strict total order.
pub proof fn lemma_lex_order(a: Seq<char>, b: Seq<char>, c: Seq<char>)
    ensures
        !lex_lt(a, a),
        a != b ==> (lex_lt(a, b) || lex_lt(b, a)),
        !(lex_lt(a, b) && lex_lt(b, a)),
        lex_lt(a, b) && lex_lt(b, c) ==> lex_lt(a, c),
    decreases a.len() + b.len() + c.len(),
{
    lemma_lex_irreflexive(a);
    if a.len() > 0 && b.len() > 0 && c.len() > 0 {
        lemma_lex_order(a.drop_first(), b.drop_first(), c.drop_first());
        if a != b && a[0] == b[0] {
            assert(a =~= seq![a[0]] + a.drop_first());
            assert(b =~= seq![b[0]] + b.drop_first());
        }
        if (a[0] as int) == (b[0] as int) {
            assert(a[0] == b[0]);
        }
        if (b[0] as int) == (c[0] as int) {
            assert(b[0] == c[0]);
        }
        if (a[0] as int) == (c[0] as int) {
            assert(a[0] == c[0]);
        }
    } else if a.len() > 0 && b.len() > 0 {
        lemma_lex_order(a.drop_first(), b.drop_first(), c);
        if a != b && a[0] == b[0] {
            assert(a =~= seq![a[0]] + a.drop_first());
            assert(b =~= seq![b[0]] + b.drop_first());
        }
        if (a[0] as int) == (b[0] as int) {
            assert(a[0] == b[0]);
        }
    } else if a.len() == 0 && b.len() == 0 {
        assert(a =~= b);
    }
}

/// Whether `a` comes strictly before `b` in string order.
pub fn str_lt(a: &str, b: &str) -> (r: bool)
    ensures
        r == lex_lt(a@, b@),
{
    let n = a.unicode_len();
    let m = b.unicode_len();
    let mut i: usize = 0;
    assert(a@.skip(0) =~= a@);
    assert(b@.skip(0) =~= b@);
    while i < n && i < m
        invariant
            n == a@.len(),
            m == b@.len(),
            i <= n,
            i <= m,
            lex_lt(a@, b@) == lex_lt(a@.skip(i as int), b@.skip(i as int)),
        decreases n - i,
    {
        let ca = a.get_char(i);
        let cb = b.get_char(i);
        if ca != cb {
            return (ca as u32) < (cb as u32);
        }
        assert(a@.skip(i as int).drop_first() =~= a@.skip(i + 1));
        assert(b@.skip(i as int).drop_first() =~= b@.skip(i + 1));
        i = i + 1;
    }
    i == n && i < m
}

/// The decimal digits of `n` (no leading zeros; "0" for zero).
pub open spec fn decimal(n: nat) -> Seq<char>
    decreases n,
{
    if n < 10 {
        seq![digit_char(n)]
    } else {
        decimal(n / 10).push(digit_char(n % 10))
    }
}

/// The character of a digit value (0-15), upper-case for 10-15.
pub open spec fn digit_char(d: nat) -> char {
    if d < 10 {
        ((d + 48) as u32) as char
    } else {
        ((d + 55) as u32) as char
    }
}

/// The upper-case hexadecimal digits of `n` (no leading zeros; "0" for zero).
pub open spec fn hex(n: nat) -> Seq<char>
    decreases n,
{
    if n < 16 {
        seq![digit_char(n)]
    } else {
        hex(n / 16).push(digit_char(n % 16))
    }
}

/// The one-character string of a digit value (0-15).
fn digit_str(d: u32) -> (r: &'static str)
    requires
        d < 16,
    ensures
        r@ == seq![digit_char(d as nat)],
{
    let digits = "0123456789ABCDEF";
    proof {
        reveal_strlit("0123456789ABCDEF");
    }
    let r = digits.substring_char(d as usize, (d + 1) as usize);
    proof {
        assert(r@ =~= seq![digit_char(d as nat)]);
    }
    r
}

/// `n` in decimal.
pub fn decimal_string(n: u64) -> (r: String)
    ensures
        r@ == decimal(n as nat),
    decreases n,
{
    if n < 10 {
        String::from_str(digit_str(n as u32))
    } else {
        let mut r = decimal_string(n / 10);
        r.append(digit_str((n % 10) as u32));
        r
    }
}

/// `n` in upper-case hexadecimal.
pub fn hex_string(n: u32) -> (r: String)
    ensures
        r@ == hex(n as nat),
    decreases n,
{
    if n < 16 {
        String::from_str(digit_str(n))
    } else {
        let mut r = hex_string(n / 16);
        r.append(digit_str(n % 16));
        r
    }
}


/// The value of `c` as a digit (letters count from 10, either case); 99 for
/// characters that are no digit at all (what `char::to_digit` reads for radix ≤ 36).
pub open spec fn digit_of(c: char) -> int {
    if '0' <= c <= '9' {
        c as int - 48
    } else if 'a' <= c <= 'z' {
        c as int - 87
    } else if 'A' <= c <= 'Z' {
        c as int - 55
    } else {
        99
    }
}

/// Every character of `s` is a digit of the radix.
pub open spec fn all_digits(s: Seq<char>, radix: nat) -> bool {
    forall|i: int| 0 <= i < s.len() ==> digit_of(#[trigger] s[i]) < radix
}

/// The value of a string of digits in the radix.
pub open spec fn digits_value(s: Seq<char>, radix: nat) -> nat
    decreases s.len(),
{
    if s.len() == 0 {
        0
    } else {
        digits_value(s.drop_last(), radix) * radix + digit_of(s.last()) as nat
    }
}

/// The digits that `from_str_radix` for an unsigned integer reads: `s` without one
/// leading '+'.
pub open spec fn unsigned_body(s: Seq<char>) -> Seq<char> {
    if s.len() > 0 && s[0] == '+' {
        s.drop_first()
    } else {
        s
    }
}

/// What `from_str_radix` yields for an unsigned integer type whose largest value is
/// `max`: an optional '+' then at least one digit of the radix, with a value no larger
/// than `max`. Radix 10 is what `from_str` yields.
pub open spec fn parse_unsigned(s: Seq<char>, radix: nat, max: nat) -> Option<nat> {
    let body = unsigned_body(s);
    if body.len() > 0 && all_digits(body, radix) && digits_value(body, radix) <= max {
        Some(digits_value(body, radix))
    } else {
        None
    }
}

/// A longer digit string never has a smaller value than its prefix.
proof fn lemma_digits_value_grows(s: Seq<char>, radix: nat, i: int)
    requires
        0 <= i <= s.len(),
        all_digits(s, radix),
        radix > 0,
    ensures
        digits_value(s.take(i), radix) <= digits_value(s, radix),
    decreases s.len() - i,
{
    if i < s.len() {
        lemma_digits_value_grows(s, radix, i + 1);
        assert(s.take(i + 1).drop_last() =~= s.take(i));
        assert(s.take(i + 1).last() == s[i]);
        let a = digits_value(s.take(i), radix);
        assert(a <= a * radix) by (nonlinear_arith)
            requires
                radix > 0,
        ;
    } else {
        assert(s.take(i) =~= s);
    }
}

/// The digit value of `c` (99 when it is no digit).
pub fn digit_value(c: char) -> (r: u32)
    ensures
        r == digit_of(c),
{
    if '0' <= c && c <= '9' {
        c as u32 - 48
    } else if 'a' <= c && c <= 'z' {
        c as u32 - 87
    } else if 'A' <= c && c <= 'Z' {
        c as u32 - 55
    } else {
        99
    }
}

/// Parses an unsigned number in `radix` no larger than `max`, as `from_str_radix` does.
pub fn parse_unsigned_str(s: &str, radix: u32, max: u64) -> (r: Option<u64>)
    requires
        2 <= radix <= 36,
    ensures
        match parse_unsigned(s@, radix as nat, max as nat) {
            Some(v) => r == Some(v as u64),
            None => r is None,
        },
{
    let n = s.unicode_len();
    let mut start: usize = 0;
    if n > 0 && s.get_char(0) == '+' {
        start = 1;
    }
    if start >= n {
        return None;
    }
    let ghost body = unsigned_body(s@);
    assert(body =~= s@.skip(start as int));
    let rad = radix as u64;
    let mut value: u64 = 0;
    let mut i: usize = start;
    while i < n
        invariant
            n == s@.len(),
            start <= i <= n,
            2 <= rad <= 36,
            rad == radix,
            body == s@.skip(start as int),
            body == unsigned_body(s@),
            all_digits(body.take(i - start), radix as nat),
            value as nat == digits_value(body.take(i - start), radix as nat),
            value <= max,
        decreases n - i,
    {
        let c = s.get_char(i);
        let dv = digit_value(c);
        if dv >= radix {
            assert(body[i - start] == c);
            assert(!all_digits(body, radix as nat));
            return None;
        }
        let d = dv as u64;
        let ghost prefix = body.take(i - start);
        assert(body.take(i + 1 - start).drop_last() =~= prefix);
        assert(body.take(i + 1 - start).last() == c);
        assert(all_digits(body.take(i + 1 - start), radix as nat));
        if d > max {
            proof {
                if all_digits(body, radix as nat) {
                    lemma_digits_value_grows(body, radix as nat, i + 1 - start);
                }
                assert(value * rad + d > max) by (nonlinear_arith)
                    requires
                        d > max,
                        value >= 0,
                        rad > 0,
                ;
            }
            return None;
        }
        let q: u64 = (max - d) / rad;
        if value > q {
            proof {
                assert(value * rad + d > max) by (nonlinear_arith)
                    requires
                        value > q,
                        q == (max - d) / (rad as int),
                        d <= max,
                        rad > 0,
                ;
                if all_digits(body, radix as nat) {
                    lemma_digits_value_grows(body, radix as nat, i + 1 - start);
                }
            }
            return None;
        }
        proof {
            assert(value * rad + d <= max) by (nonlinear_arith)
                requires
                    value <= q,
                    q == (max - d) / (rad as int),
                    d <= max,
                    rad > 0,
            ;
        }
        value = value * rad + d;
        i = i + 1;
    }
    assert(body.take(n - start) =~= body);
    Some(value)
}


/// `s` is in strictly increasing string order.
pub open spec fn strictly_sorted(s: Seq<Seq<char>>) -> bool {
    forall|i: int, j: int| 0 <= i < j < s.len() ==> lex_lt(#[trigger] s[i], #[trigger] s[j])
}

/// A strictly sorted sequence has no duplicates.
pub proof fn lemma_strictly_sorted_distinct(s: Seq<Seq<char>>)
    requires
        strictly_sorted(s),
    ensures
        s.no_duplicates(),
{
    assert forall|i: int, j: int| 0 <= i < s.len() && 0 <= j < s.len() && i != j implies s[i]
        != s[j] by {
        lemma_lex_order(s[i], s[j], s[j]);
        if i < j {
            assert(lex_lt(s[i], s[j]));
        } else {
            assert(lex_lt(s[j], s[i]));
        }
    }
}

/// Two strictly sorted sequences with the same elements are equal.
pub proof fn lemma_sorted_listing_unique(a: Seq<Seq<char>>, b: Seq<Seq<char>>)
    requires
        strictly_sorted(a),
        strictly_sorted(b),
        a.to_set() == b.to_set(),
    ensures
        a == b,
    decreases a.len(),
{
    if a.len() == 0 {
        if b.len() > 0 {
            assert(b.to_set().contains(b[0]));
        }
        assert(a =~= b);
    } else {
        assert(a.to_set().contains(a[0]));
        assert(b.len() > 0);
        let j = choose|j: int| 0 <= j < b.len() && b[j] == a[0];
        assert(b.to_set().contains(b[0]));
        let i = choose|i: int| 0 <= i < a.len() && a[i] == b[0];
        if j > 0 {
            assert(lex_lt(b[0], b[j]));
            if i > 0 {
                assert(lex_lt(a[0], a[i]));
                lemma_lex_order(a[0], b[0], a[0]);
            } else {
                lemma_lex_irreflexive(a[0]);
            }
        }
        assert(a[0] == b[0]);
        let ta = a.drop_first();
        let tb = b.drop_first();
        assert(strictly_sorted(ta)) by {
            assert forall|x: int, y: int| 0 <= x < y < ta.len() implies lex_lt(
                #[trigger] ta[x],
                #[trigger] ta[y],
            ) by {
                assert(ta[x] == a[x + 1] && ta[y] == a[y + 1]);
            }
        }
        assert(strictly_sorted(tb)) by {
            assert forall|x: int, y: int| 0 <= x < y < tb.len() implies lex_lt(
                #[trigger] tb[x],
                #[trigger] tb[y],
            ) by {
                assert(tb[x] == b[x + 1] && tb[y] == b[y + 1]);
            }
        }
        lemma_strictly_sorted_distinct(a);
        lemma_strictly_sorted_distinct(b);
        assert forall|x: Seq<char>| ta.to_set().contains(x) implies tb.to_set().contains(x) by {
            let p = choose|p: int| 0 <= p < ta.len() && ta[p] == x;
            assert(a[p + 1] == x);
            assert(a.to_set().contains(x));
            let q = choose|q: int| 0 <= q < b.len() && b[q] == x;
            if q == 0 {
                assert(a[0] == a[p + 1]);
            } else {
                assert(tb[q - 1] == x);
            }
        }
        assert forall|x: Seq<char>| tb.to_set().contains(x) implies ta.to_set().contains(x) by {
            let p = choose|p: int| 0 <= p < tb.len() && tb[p] == x;
            assert(b[p + 1] == x);
            assert(b.to_set().contains(x));
            let q = choose|q: int| 0 <= q < a.len() && a[q] == x;
            if q == 0 {
                assert(b[0] == b[p + 1]);
            } else {
                assert(ta[q - 1] == x);
            }
        }
        assert(ta.to_set() =~= tb.to_set());
        lemma_sorted_listing_unique(ta, tb);
        assert(a =~= seq![a[0]] + ta);
        assert(b =~= seq![b[0]] + tb);
    }
}

/// The elements of `s` in strictly increasing order (meaningful when `s` is finite).
pub open spec fn sorted_of(s: Set<Seq<char>>) -> Seq<Seq<char>> {
    choose|t: Seq<Seq<char>>| strictly_sorted(t) && t.to_set() == s
}

/// A strictly sorted listing of a set is the set's `sorted_of`.
pub proof fn lemma_sorted_of(t: Seq<Seq<char>>)
    requires
        strictly_sorted(t),
    ensures
        sorted_of(t.to_set()) == t,
{
    let u = sorted_of(t.to_set());
    assert(strictly_sorted(u) && u.to_set() == t.to_set());
    lemma_sorted_listing_unique(u, t);
}

/// The strings of `v` in increasing order (the strings must be distinct).
pub fn sort_strings(v: &Vec<String>) -> (r: Vec<String>)
    requires
        views(v@).no_duplicates(),
    ensures
        strictly_sorted(views(r@)),
        views(r@).to_set() == views(v@).to_set(),
        views(r@) == sorted_of(views(v@).to_set()),
        r@.len() == v@.len(),
{
    let mut r: Vec<String> = Vec::new();
    let mut i: usize = 0;
    while i < v.len()
        invariant
            i <= v@.len(),
            views(v@).no_duplicates(),
            strictly_sorted(views(r@)),
            views(r@).to_set() == views(v@).take(i as int).to_set(),
            r@.len() == i,
        decreases v.len() - i,
    {
        let key = v[i].clone();
        let ghost k = key@;
        proof {
            assert(!views(v@).take(i as int).contains(k)) by {
                if views(v@).take(i as int).contains(k) {
                    let j = choose|j: int| 0 <= j < i && views(v@).take(i as int)[j] == k;
                    assert(views(v@)[j] == views(v@)[i as int]);
                }
            }
        }
        // Position of the first element greater than the key
        let mut p: usize = 0;
        while p < r.len() && !str_lt(key.as_str(), r[p].as_str())
            invariant
                p <= r@.len(),
                key@ == k,
                forall|q: int| 0 <= q < p ==> !lex_lt(k, #[trigger] views(r@)[q]),
            decreases r.len() - p,
        {
            assert(views(r@)[p as int] == r@[p as int]@);
            p = p + 1;
        }
        let ghost old_r = views(r@);
        proof {
            assert forall|q: int| 0 <= q < p implies lex_lt(#[trigger] old_r[q], k) by {
                lemma_lex_order(old_r[q], k, k);
                assert(old_r.to_set().contains(old_r[q]));
                assert(old_r[q] != k);
            }
            if p < r@.len() {
                assert(lex_lt(k, old_r[p as int]));
            }
        }
        r.insert(p, key);
        proof {
            let nr = views(r@);
            assert(nr =~= old_r.insert(p as int, k));
            assert forall|a: int, b: int| 0 <= a < b < nr.len() implies lex_lt(
                #[trigger] nr[a],
                #[trigger] nr[b],
            ) by {
                if a < p && b < p {
                    assert(nr[a] == old_r[a] && nr[b] == old_r[b]);
                } else if a < p && b == p {
                } else if a < p && b > p {
                    assert(nr[b] == old_r[b - 1]);
                    lemma_lex_order(old_r[a], k, old_r[b - 1]);
                    if b - 1 > p {
                        assert(lex_lt(old_r[p as int], old_r[b - 1]));
                        lemma_lex_order(k, old_r[p as int], old_r[b - 1]);
                    }
                } else if a == p {
                    assert(nr[b] == old_r[b - 1]);
                    if b - 1 > p {
                        assert(lex_lt(old_r[p as int], old_r[b - 1]));
                        lemma_lex_order(k, old_r[p as int], old_r[b - 1]);
                    }
                } else {
                    assert(nr[a] == old_r[a - 1] && nr[b] == old_r[b - 1]);
                }
            }
            assert(views(v@).take(i + 1) =~= views(v@).take(i as int).push(k));
            lemma_push_to_set(views(v@).take(i as int), k);
            assert(nr.to_set() =~= old_r.to_set().insert(k)) by {
                assert forall|x: Seq<char>| nr.to_set().contains(x) implies old_r.to_set().insert(
                    x,
                ).contains(x) by {}
                assert forall|x: Seq<char>| #[trigger] nr.to_set().contains(x) == old_r.to_set().insert(
                    k,
                ).contains(x) by {
                    if nr.contains(x) {
                        let j = choose|j: int| 0 <= j < nr.len() && nr[j] == x;
                        if j < p {
                            assert(old_r[j] == x);
                        } else if j > p {
                            assert(old_r[j - 1] == x);
                        }
                    }
                    if old_r.contains(x) {
                        let j = choose|j: int| 0 <= j < old_r.len() && old_r[j] == x;
                        if j < p {
                            assert(nr[j] == x);
                        } else {
                            assert(nr[j + 1] == x);
                        }
                    }
                    if x == k {
                        assert(nr[p as int] == k);
                    }
                }
            }
        }
        i = i + 1;
    }
    assert(views(v@).take(v@.len() as int) =~= views(v@));
    proof {
        lemma_sorted_of(views(r@));
    }
    r
}

} // verus!
