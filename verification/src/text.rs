//! Text helpers: searching character sequences, joining lines, and the
//! standard-library conversions that the handlers rely on.

use vstd::prelude::*;

verus! {

/// `pat` occurs in `s` starting at character index `i`.
pub open spec fn occurs_at(s: Seq<char>, pat: Seq<char>, i: int) -> bool {
    &&& 0 <= i
    &&& i + pat.len() <= s.len()
    &&& s.subrange(i, i + pat.len()) == pat
}

/// `i` is the first index at which `pat` occurs in `s`.
pub open spec fn is_first_occurrence(s: Seq<char>, pat: Seq<char>, i: int) -> bool {
    &&& occurs_at(s, pat, i)
    &&& forall|j: int| 0 <= j < i ==> !occurs_at(s, pat, j)
}

/// The first index at which `pat` occurs in `s`, if any.
pub open spec fn first_occurrence(s: Seq<char>, pat: Seq<char>) -> Option<int> {
    if exists|i: int| is_first_occurrence(s, pat, i) {
        Some(choose|i: int| is_first_occurrence(s, pat, i))
    } else {
        None
    }
}

/// `pat` occurs somewhere in `s`.
pub open spec fn contains_seq(s: Seq<char>, pat: Seq<char>) -> bool {
    exists|i: int| occurs_at(s, pat, i)
}

/// `i` is the last index of `s` that holds `c`.
pub open spec fn is_last_index_of(s: Seq<char>, c: char, i: int) -> bool {
    &&& 0 <= i < s.len()
    &&& s[i] == c
    &&& forall|j: int| i < j < s.len() ==> s[j] != c
}

/// The last index of `s` that holds `c`, if any.
pub open spec fn last_index_of(s: Seq<char>, c: char) -> Option<int> {
    if exists|i: int| is_last_index_of(s, c, i) {
        Some(choose|i: int| is_last_index_of(s, c, i))
    } else {
        None
    }
}

proof fn lemma_first_occurrence_unique(s: Seq<char>, pat: Seq<char>, i: int)
    requires
        is_first_occurrence(s, pat, i),
    ensures
        first_occurrence(s, pat) == Some(i),
{
    let k = choose|k: int| is_first_occurrence(s, pat, k);
    assert(is_first_occurrence(s, pat, k));
    if k < i {
        assert(!occurs_at(s, pat, k));
    } else if i < k {
        assert(!occurs_at(s, pat, i));
    }
}

proof fn lemma_last_index_unique(s: Seq<char>, c: char, i: int)
    requires
        is_last_index_of(s, c, i),
    ensures
        last_index_of(s, c) == Some(i),
{
    let k = choose|k: int| is_last_index_of(s, c, k);
    assert(is_last_index_of(s, c, k));
}

/// `first_occurrence` gives exactly the first index at which `pat` occurs.
pub proof fn lemma_first_occurrence_is(s: Seq<char>, pat: Seq<char>, i: int)
    ensures
        first_occurrence(s, pat) == Some(i) <==> is_first_occurrence(s, pat, i),
{
    if is_first_occurrence(s, pat, i) {
        lemma_first_occurrence_unique(s, pat, i);
    }
    if first_occurrence(s, pat) == Some(i) {
        let k = choose|k: int| is_first_occurrence(s, pat, k);
        assert(is_first_occurrence(s, pat, k));
    }
}

proof fn lemma_some_first(s: Seq<char>, pat: Seq<char>, i: int)
    requires
        occurs_at(s, pat, i),
    ensures
        exists|k: int| is_first_occurrence(s, pat, k),
    decreases i,
{
    if exists|j: int| 0 <= j < i && occurs_at(s, pat, j) {
        let j = choose|j: int| 0 <= j < i && occurs_at(s, pat, j);
        lemma_some_first(s, pat, j);
    } else {
        assert(is_first_occurrence(s, pat, i));
    }
}

/// `first_occurrence` finds nothing exactly when `pat` does not occur.
pub proof fn lemma_no_occurrence(s: Seq<char>, pat: Seq<char>)
    ensures
        first_occurrence(s, pat) is None <==> !contains_seq(s, pat),
{
    if contains_seq(s, pat) {
        let i = choose|i: int| occurs_at(s, pat, i);
        lemma_some_first(s, pat, i);
    } else {
        if exists|i: int| is_first_occurrence(s, pat, i) {
            let k = choose|i: int| is_first_occurrence(s, pat, i);
            assert(occurs_at(s, pat, k));
        }
    }
}

/// `last_index_of` gives exactly the last index that holds `c`.
pub proof fn lemma_last_index_is(s: Seq<char>, c: char, i: int)
    ensures
        last_index_of(s, c) == Some(i) <==> is_last_index_of(s, c, i),
{
    if is_last_index_of(s, c, i) {
        lemma_last_index_unique(s, c, i);
    }
    if last_index_of(s, c) == Some(i) {
        let k = choose|k: int| is_last_index_of(s, c, k);
        assert(is_last_index_of(s, c, k));
    }
}

/// `last_index_of` finds nothing exactly when `c` does not occur.
pub proof fn lemma_no_last_index(s: Seq<char>, c: char)
    ensures
        last_index_of(s, c) is None <==> forall|j: int| 0 <= j < s.len() ==> s[j] != c,
{
    if exists|j: int| 0 <= j < s.len() && s[j] == c {
        let j = choose|j: int| 0 <= j < s.len() && s[j] == c;
        lemma_some_last(s, c, j);
    } else {
        if exists|i: int| is_last_index_of(s, c, i) {
            let k = choose|i: int| is_last_index_of(s, c, i);
            assert(s[k] == c);
        }
    }
}

proof fn lemma_some_last(s: Seq<char>, c: char, j: int)
    requires
        0 <= j < s.len(),
        s[j] == c,
    ensures
        exists|k: int| is_last_index_of(s, c, k),
    decreases s.len() - j,
{
    if exists|t: int| j < t < s.len() && s[t] == c {
        let t = choose|t: int| j < t < s.len() && s[t] == c;
        lemma_some_last(s, c, t);
    } else {
        assert(is_last_index_of(s, c, j));
    }
}

/// The characters of `s`, in order.
pub fn chars_of(s: &str) -> (v: Vec<char>)
    ensures
        v@ == s@,
{
    let mut v: Vec<char> = Vec::new();
    for c in it: s.chars()
        invariant
            v@ == it.seq().take(it.index() as int),
    {
        v.push(c);
    }
    v
}

/// The first index at which `pat` occurs in `s`.
pub fn find_first(s: &Vec<char>, pat: &Vec<char>) -> (r: Option<usize>)
    ensures
        match r {
            Some(i) => first_occurrence(s@, pat@) == Some(i as int),
            None => first_occurrence(s@, pat@) is None && !contains_seq(s@, pat@),
        },
{
    let n = s.len();
    let m = pat.len();
    if m > n {
        assert forall|j: int| !occurs_at(s@, pat@, j) by {}
        return None;
    }
    let mut i: usize = 0;
    while i <= n - m
        invariant
            n == s@.len(),
            m == pat@.len(),
            m <= n,
            i <= n - m + 1,
            forall|j: int| 0 <= j < i ==> !occurs_at(s@, pat@, j),
        decreases n - i,
    {
        let mut k: usize = 0;
        while k < m && s[i + k] == pat[k]
            invariant
                n == s@.len(),
                m == pat@.len(),
                i + m <= n,
                k <= m,
                forall|t: int| 0 <= t < k ==> s@[i + t] == pat@[t],
            decreases m - k,
        {
            k = k + 1;
        }
        if k == m {
            proof {
                assert(s@.subrange(i as int, i + m) =~= pat@);
                lemma_first_occurrence_unique(s@, pat@, i as int);
            }
            return Some(i);
        }
        proof {
            assert(s@[i + k] != pat@[k as int]);
            assert(!occurs_at(s@, pat@, i as int)) by {
                if occurs_at(s@, pat@, i as int) {
                    assert(s@.subrange(i as int, i + m)[k as int] == s@[i + k]);
                }
            }
        }
        i = i + 1;
    }
    proof {
        assert forall|j: int| !occurs_at(s@, pat@, j) by {
            if j >= i {
                assert(j + pat@.len() > s@.len());
            }
        }
    }
    None
}

/// The last index of `s` that holds `c`.
pub fn rfind_char(s: &Vec<char>, c: char) -> (r: Option<usize>)
    ensures
        match r {
            Some(i) => last_index_of(s@, c) == Some(i as int),
            None => last_index_of(s@, c) is None && forall|j: int| 0 <= j < s@.len() ==> s@[j] != c,
        },
{
    let mut i: usize = s.len();
    while i > 0
        invariant
            i <= s@.len(),
            forall|j: int| i <= j < s@.len() ==> s@[j] != c,
        decreases i,
    {
        if s[i - 1] == c {
            proof {
                lemma_last_index_unique(s@, c, i - 1);
            }
            return Some(i - 1);
        }
        i = i - 1;
    }
    None
}

/// `pat` occurs somewhere in `s`.
pub fn contains(s: &Vec<char>, pat: &Vec<char>) -> (b: bool)
    ensures
        b == contains_seq(s@, pat@),
{
    match find_first(s, pat) {
        Some(i) => {
            proof {
                let k = choose|k: int| is_first_occurrence(s@, pat@, k);
                assert(occurs_at(s@, pat@, k));
            }
            true
        },
        None => false,
    }
}

/// The parts joined, with `sep` between each two neighbours.
pub open spec fn join_with(parts: Seq<Seq<char>>, sep: Seq<char>) -> Seq<char>
    decreases parts.len(),
{
    if parts.len() == 0 {
        Seq::empty()
    } else if parts.len() == 1 {
        parts[0]
    } else {
        join_with(parts.drop_last(), sep) + sep + parts.last()
    }
}

/// `s` cut at every newline: the lines of `s`, without their newline characters.
pub open spec fn split_lines(s: Seq<char>) -> Seq<Seq<char>>
    decreases s.len(),
{
    if exists|i: int| is_last_index_of(s, '\n', i) {
        let i = choose|i: int| is_last_index_of(s, '\n', i);
        split_lines(s.subrange(0, i)).push(s.subrange(i + 1, s.len() as int))
    } else {
        seq![s]
    }
}

/// `part` holds no newline character.
pub open spec fn is_single_line(part: Seq<char>) -> bool {
    forall|j: int| 0 <= j < part.len() ==> part[j] != '\n'
}

/// Items without newlines, joined by newlines, are read back line by line as
/// the same items.
pub proof fn lemma_lines_round_trip(parts: Seq<Seq<char>>)
    requires
        parts.len() > 0,
        forall|i: int| 0 <= i < parts.len() ==> is_single_line(#[trigger] parts[i]),
    ensures
        split_lines(join_with(parts, "\n"@)) == parts,
    decreases parts.len(),
{
    reveal_strlit("\n");
    let s = join_with(parts, "\n"@);
    if parts.len() == 1 {
        assert(is_single_line(parts[0]));
        assert(!exists|i: int| is_last_index_of(s, '\n', i));
        assert(seq![parts[0]] =~= parts);
    } else {
        let init = parts.drop_last();
        let last = parts.last();
        assert forall|i: int| 0 <= i < init.len() implies is_single_line(#[trigger] init[i]) by {
            assert(init[i] == parts[i]);
        }
        lemma_lines_round_trip(init);
        let j = join_with(init, "\n"@);
        assert(is_single_line(parts[parts.len() - 1]));
        assert(s == j + seq!['\n'] + last);
        let k = j.len() as int;
        assert(is_last_index_of(s, '\n', k)) by {
            assert(s[k] == '\n');
            assert forall|t: int| k < t < s.len() implies s[t] != '\n' by {
                assert(s[t] == last[t - k - 1]);
            }
        }
        lemma_last_index_unique(s, '\n', k);
        let c = choose|i: int| is_last_index_of(s, '\n', i);
        assert(is_last_index_of(s, '\n', c));
        assert(c == k);
        assert(s.subrange(0, k) =~= j);
        assert(s.subrange(k + 1, s.len() as int) =~= last);
        assert(init.push(last) =~= parts);
    }
}

/// The views of a sequence of strings.
pub open spec fn views(v: Seq<String>) -> Seq<Seq<char>> {
    v.map_values(|s: String| s@)
}

/// The items joined by newlines.
pub fn join_lines(items: &Vec<String>) -> (r: String)
    ensures
        r@ == join_with(views(items@), "\n"@),
{
    let mut out = String::new();
    let n = items.len();
    let mut i: usize = 0;
    while i < n
        invariant
            n == items@.len(),
            i <= n,
            out@ == join_with(views(items@).take(i as int), "\n"@),
        decreases n - i,
    {
        let ghost vs = views(items@);
        proof {
            assert(vs.take(i + 1).drop_last() =~= vs.take(i as int));
            assert(vs.take(i + 1).last() == items@[i as int]@);
        }
        if i > 0 {
            out.append("\n");
        } else {
            assert(vs.take(1) =~= seq![items@[0]@]);
        }
        out.append(items[i].as_str());
        i = i + 1;
    }
    assert(views(items@).take(n as int) =~= views(items@));
    out
}

/// The text that `String::from_utf8_lossy` makes of `bytes`: invalid sequences
/// become U+FFFD.
pub uninterp spec fn utf8_lossy(bytes: Seq<u8>) -> Seq<char>;

/// Calls `String::from_utf8_lossy` and takes ownership of the result. The contract
/// names the text `utf8_lossy(bytes@)` and states what the documentation promises
/// of valid input: valid UTF-8 decodes to its characters. How invalid sequences are
/// replaced is left unstated.
#[verifier::external_body]
pub(crate) fn decode_lossy(bytes: &[u8]) -> (s: String)
    ensures
        s@ == utf8_lossy(bytes@),
        vstd::utf8::valid_utf8(bytes@) ==> s@ == vstd::utf8::decode_utf8(bytes@),
{
    String::from_utf8_lossy(bytes).into_owned()
}

/// `c` has the Unicode `White_Space` property: U+0009 to U+000D, U+0020,
/// U+0085, U+00A0, U+1680, U+2000 to U+200A, U+2028, U+2029, U+202F, U+205F
/// and U+3000.
pub open spec fn is_white_space(c: char) -> bool {
    let v = c as u32;
    ||| 0x9 <= v <= 0xD
    ||| v == 0x20
    ||| v == 0x85
    ||| v == 0xA0
    ||| v == 0x1680
    ||| 0x2000 <= v <= 0x200A
    ||| v == 0x2028
    ||| v == 0x2029
    ||| v == 0x202F
    ||| v == 0x205F
    ||| v == 0x3000
}

/// `s` without its leading whitespace.
pub open spec fn trim_start(s: Seq<char>) -> Seq<char>
    decreases s.len(),
{
    if s.len() > 0 && is_white_space(s[0]) {
        trim_start(s.drop_first())
    } else {
        s
    }
}

/// `s` without its trailing whitespace.
pub open spec fn trim_end(s: Seq<char>) -> Seq<char>
    decreases s.len(),
{
    if s.len() > 0 && is_white_space(s.last()) {
        trim_end(s.drop_last())
    } else {
        s
    }
}

/// The text that `str::trim` leaves of `s`: leading and trailing whitespace removed.
pub open spec fn trim_whitespace(s: Seq<char>) -> Seq<char> {
    trim_end(trim_start(s))
}

proof fn lemma_trim_start_shape(s: Seq<char>)
    ensures
        exists|i: int|
            0 <= i <= s.len() && trim_start(s) == s.subrange(i, s.len() as int) && (forall|j: int|
                0 <= j < i ==> is_white_space(#[trigger] s[j])),
        trim_start(s).len() > 0 ==> !is_white_space(trim_start(s)[0]),
    decreases s.len(),
{
    if s.len() > 0 && is_white_space(s[0]) {
        let t = s.drop_first();
        lemma_trim_start_shape(t);
        let i = choose|i: int|
            0 <= i <= t.len() && trim_start(t) == t.subrange(i, t.len() as int) && (forall|j: int|
                0 <= j < i ==> is_white_space(#[trigger] t[j]));
        assert(t.subrange(i, t.len() as int) =~= s.subrange(i + 1, s.len() as int));
        assert forall|j: int| 0 <= j < i + 1 implies is_white_space(#[trigger] s[j]) by {
            if j > 0 {
                assert(s[j] == t[j - 1]);
            }
        }
    } else {
        assert(s.subrange(0, s.len() as int) =~= s);
    }
}

proof fn lemma_trim_end_shape(s: Seq<char>)
    ensures
        exists|k: int|
            0 <= k <= s.len() && trim_end(s) == s.subrange(0, k) && (forall|j: int|
                k <= j < s.len() ==> is_white_space(#[trigger] s[j])),
        trim_end(s).len() > 0 ==> !is_white_space(trim_end(s).last()),
    decreases s.len(),
{
    if s.len() > 0 && is_white_space(s.last()) {
        let t = s.drop_last();
        lemma_trim_end_shape(t);
        let k = choose|k: int|
            0 <= k <= t.len() && trim_end(t) == t.subrange(0, k) && (forall|j: int|
                k <= j < t.len() ==> is_white_space(#[trigger] t[j]));
        assert(t.subrange(0, k) =~= s.subrange(0, k));
        assert forall|j: int| k <= j < s.len() implies is_white_space(#[trigger] s[j]) by {
            if j < s.len() - 1 {
                assert(s[j] == t[j]);
            }
        }
    } else {
        assert(s.subrange(0, s.len() as int) =~= s);
    }
}

/// Trimming keeps a contiguous piece of the text that neither starts nor ends
/// with whitespace, and everything it removes is whitespace.
pub proof fn lemma_trim_shape(s: Seq<char>)
    ensures
        exists|i: int, k: int|
            0 <= i <= k <= s.len() && trim_whitespace(s) == s.subrange(i, k) && (forall|j: int|
                0 <= j < i ==> is_white_space(#[trigger] s[j])) && (forall|j: int|
                k <= j < s.len() ==> is_white_space(#[trigger] s[j])),
        trim_whitespace(s).len() > 0 ==> !is_white_space(trim_whitespace(s)[0]) && !is_white_space(
            trim_whitespace(s).last(),
        ),
{
    lemma_trim_start_shape(s);
    let i = choose|i: int|
        0 <= i <= s.len() && trim_start(s) == s.subrange(i, s.len() as int) && (forall|j: int|
            0 <= j < i ==> is_white_space(#[trigger] s[j]));
    let t = trim_start(s);
    lemma_trim_end_shape(t);
    let k = choose|k: int|
        0 <= k <= t.len() && trim_end(t) == t.subrange(0, k) && (forall|j: int|
            k <= j < t.len() ==> is_white_space(#[trigger] t[j]));
    assert(trim_whitespace(s) =~= s.subrange(i, i + k));
    assert forall|j: int| i + k <= j < s.len() implies is_white_space(#[trigger] s[j]) by {
        assert(s[j] == t[j - i]);
    }
    if trim_whitespace(s).len() > 0 {
        assert(trim_whitespace(s)[0] == t[0]);
    }
}

/// Calls `str::trim` and copies the result. The contract states it as the
/// documentation does: leading and trailing characters with the Unicode
/// `White_Space` property removed.
#[verifier::external_body]
pub(crate) fn trim(s: &str) -> (r: String)
    ensures
        r@ == trim_whitespace(s@),
{
    s.trim().to_string()
}

} // verus!
