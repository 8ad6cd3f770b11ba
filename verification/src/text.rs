//! Character-level text operations shared by the scrapers and the chunker.
//!
//! Every operation is specified over `Seq<char>`, the view of a string.

use vstd::prelude::*;

verus! {

/// `String::push`: appends the character to the end of the string.
pub assume_specification[ std::string::String::push ](s: &mut std::string::String, ch: char)
    ensures
        final(s)@ == old(s)@.push(ch),
;

/// `needle` stands in `hay` at index `i`.
pub open spec fn occurs_at(hay: Seq<char>, needle: Seq<char>, i: int) -> bool {
    &&& 0 <= i
    &&& i + needle.len() <= hay.len()
    &&& hay.subrange(i, i + needle.len()) == needle
}

/// `needle` stands somewhere in `hay`.
pub open spec fn occurs(hay: Seq<char>, needle: Seq<char>) -> bool {
    exists|i: int| occurs_at(hay, needle, i)
}

/// `i` is the leftmost index at which `needle` stands in `hay`.
pub open spec fn is_first_occurrence(hay: Seq<char>, needle: Seq<char>, i: int) -> bool {
    &&& occurs_at(hay, needle, i)
    &&& forall|j: int| 0 <= j < i ==> !occurs_at(hay, needle, j)
}

/// The leftmost index at which `needle` stands in `hay`, if it stands there at all.
pub open spec fn first_index(hay: Seq<char>, needle: Seq<char>) -> Option<int> {
    if exists|i: int| is_first_occurrence(hay, needle, i) {
        Some(choose|i: int| is_first_occurrence(hay, needle, i))
    } else {
        None
    }
}

/// What `hay` splits into around the leftmost `sep`: the text before it and
/// the text after it.
pub open spec fn split_once_spec(hay: Seq<char>, sep: Seq<char>) -> Option<(Seq<char>, Seq<char>)> {
    match first_index(hay, sep) {
        Some(i) => Some((hay.take(i), hay.skip(i + sep.len()))),
        None => None,
    }
}

/// The parts joined into one text with `sep` between neighbours.
pub open spec fn join_spec(parts: Seq<Seq<char>>, sep: Seq<char>) -> Seq<char>
    decreases parts.len(),
{
    if parts.len() == 0 {
        Seq::empty()
    } else if parts.len() == 1 {
        parts[0]
    } else {
        join_spec(parts.drop_last(), sep) + sep + parts.last()
    }
}

/// The characters with Unicode's `White_Space` property.
pub open spec fn is_whitespace_spec(c: char) -> bool {
    let n = c as u32;
    ||| 0x09 <= n <= 0x0D
    ||| n == 0x20
    ||| n == 0x85
    ||| n == 0xA0
    ||| n == 0x1680
    ||| 0x2000 <= n <= 0x200A
    ||| n == 0x2028
    ||| n == 0x2029
    ||| n == 0x202F
    ||| n == 0x205F
    ||| n == 0x3000
}

/// The words of a text: its maximal runs of characters that are not
/// whitespace, in order. Defined by what the last character adds.
pub open spec fn words_spec(s: Seq<char>) -> Seq<Seq<char>>
    decreases s.len(),
{
    if s.len() == 0 {
        Seq::empty()
    } else {
        let before = words_spec(s.drop_last());
        if is_whitespace_spec(s.last()) {
            before
        } else if s.len() == 1 || is_whitespace_spec(s[s.len() - 2]) {
            before.push(seq![s.last()])
        } else {
            before.drop_last().push(before.last().push(s.last()))
        }
    }
}

/// The views of a list of strings.
pub open spec fn views(v: Seq<String>) -> Seq<Seq<char>> {
    Seq::new(v.len(), |i: int| v[i]@)
}

/// A leftmost occurrence is the one that `first_index` names.
pub proof fn lemma_first_index_is(hay: Seq<char>, needle: Seq<char>, i: int)
    requires
        is_first_occurrence(hay, needle, i),
    ensures
        first_index(hay, needle) == Some(i),
{
    let j = choose|j: int| is_first_occurrence(hay, needle, j);
    assert(is_first_occurrence(hay, needle, j));
    if j < i {
        assert(!occurs_at(hay, needle, j));
    }
    if i < j {
        assert(!occurs_at(hay, needle, i));
    }
}

/// Where `needle` stands nowhere, `first_index` names nothing.
pub proof fn lemma_first_index_none(hay: Seq<char>, needle: Seq<char>)
    requires
        !occurs(hay, needle),
    ensures
        first_index(hay, needle) is None,
{
    if exists|i: int| is_first_occurrence(hay, needle, i) {
        let i = choose|i: int| is_first_occurrence(hay, needle, i);
        assert(occurs_at(hay, needle, i));
    }
}

/// `first_index` names an index exactly when `needle` stands in `hay`.
pub proof fn lemma_first_index_some(hay: Seq<char>, needle: Seq<char>)
    ensures
        first_index(hay, needle) is Some <==> occurs(hay, needle),
        first_index(hay, needle) matches Some(i) ==> is_first_occurrence(hay, needle, i),
{
    if occurs(hay, needle) {
        let w = choose|i: int| occurs_at(hay, needle, i);
        lemma_leftmost_exists(hay, needle, w);
    } else {
        lemma_first_index_none(hay, needle);
    }
}

/// Below any occurrence there is a leftmost one.
proof fn lemma_leftmost_exists(hay: Seq<char>, needle: Seq<char>, w: int)
    requires
        occurs_at(hay, needle, w),
    ensures
        exists|i: int| is_first_occurrence(hay, needle, i),
    decreases w,
{
    if exists|j: int| 0 <= j < w && occurs_at(hay, needle, j) {
        let j = choose|j: int| 0 <= j < w && occurs_at(hay, needle, j);
        lemma_leftmost_exists(hay, needle, j);
    } else {
        assert(is_first_occurrence(hay, needle, w));
    }
}

/// No word is empty, and no word holds whitespace.
pub proof fn lemma_words_hold_no_whitespace(s: Seq<char>, k: int)
    requires
        0 <= k < words_spec(s).len(),
    ensures
        words_spec(s)[k].len() > 0,
        forall|j: int| 0 <= j < words_spec(s)[k].len() ==> !is_whitespace_spec(words_spec(s)[k][j]),
    decreases s.len(),
{
    if s.len() > 0 {
        let before = words_spec(s.drop_last());
        if is_whitespace_spec(s.last()) {
            lemma_words_hold_no_whitespace(s.drop_last(), k);
        } else if s.len() == 1 || is_whitespace_spec(s[s.len() - 2]) {
            if k < before.len() {
                lemma_words_hold_no_whitespace(s.drop_last(), k);
            }
        } else {
            lemma_last_word_is_open(s.drop_last());
            if k < before.len() - 1 {
                lemma_words_hold_no_whitespace(s.drop_last(), k);
            } else {
                lemma_words_hold_no_whitespace(s.drop_last(), before.len() - 1);
            }
        }
    }
}

/// A text that does not end in whitespace has a last word.
proof fn lemma_last_word_is_open(s: Seq<char>)
    requires
        s.len() > 0,
        !is_whitespace_spec(s.last()),
    ensures
        words_spec(s).len() > 0,
{
}

/// Whether `c` is whitespace, as `char::is_whitespace` decides it.
pub fn is_whitespace(c: char) -> (r: bool)
    ensures
        r == is_whitespace_spec(c),
{
    let n: u32 = c as u32;
    (0x09 <= n && n <= 0x0D) || n == 0x20 || n == 0x85 || n == 0xA0 || n == 0x1680 || (0x2000 <= n
        && n <= 0x200A) || n == 0x2028 || n == 0x2029 || n == 0x202F || n == 0x205F || n == 0x3000
}

/// The characters of `s`, in order.
pub fn chars_of(s: &str) -> (r: Vec<char>)
    ensures
        r@ == s@,
{
    let mut out: Vec<char> = Vec::new();
    for c in it: s.chars()
        invariant
            out@ == it.seq().take(it.index() as int),
            it.seq() == s@,
    {
        out.push(c);
    }
    out
}

/// The string made of the characters `v[from..to]`, in order.
pub fn string_of_range(v: &Vec<char>, from: usize, to: usize) -> (r: String)
    requires
        from <= to <= v.len(),
    ensures
        r@ == v@.subrange(from as int, to as int),
{
    let mut out = String::new();
    let mut i: usize = from;
    while i < to
        invariant
            from <= i <= to <= v.len(),
            out@ == v@.subrange(from as int, i as int),
        decreases to - i,
    {
        out.push(v[i]);
        i += 1;
    }
    out
}

/// The string made of the characters of `v`, in order.
pub fn string_of(v: &Vec<char>) -> (r: String)
    ensures
        r@ == v@,
{
    string_of_range(v, 0, v.len())
}

/// Whether `needle` stands in `hay` at index `i`.
pub fn matches_at(hay: &Vec<char>, needle: &Vec<char>, i: usize) -> (r: bool)
    ensures
        r == occurs_at(hay@, needle@, i as int),
{
    if needle.len() > hay.len() || i > hay.len() - needle.len() {
        return false;
    }
    let mut k: usize = 0;
    while k < needle.len()
        invariant
            k <= needle.len(),
            i + needle.len() <= hay.len(),
            forall|m: int| 0 <= m < k ==> hay@[i + m] == needle@[m],
        decreases needle.len() - k,
    {
        if hay[i + k] != needle[k] {
            proof {
                let sub = hay@.subrange(i as int, i + needle.len());
                assert(sub[k as int] == hay@[i + k]);
            }
            return false;
        }
        k += 1;
    }
    assert(hay@.subrange(i as int, i + needle.len()) =~= needle@);
    true
}

/// The leftmost index at which `needle` stands in `hay`.
pub fn find(hay: &Vec<char>, needle: &Vec<char>) -> (r: Option<usize>)
    ensures
        match r {
            Some(i) => first_index(hay@, needle@) == Some(i as int),
            None => first_index(hay@, needle@) is None,
        },
{
    let mut i: usize = 0;
    while i <= hay.len()
        invariant
            i <= hay.len() + 1,
            forall|j: int| 0 <= j < i ==> !occurs_at(hay@, needle@, j),
        decreases hay.len() + 1 - i,
    {
        if matches_at(hay, needle, i) {
            proof {
                lemma_first_index_is(hay@, needle@, i as int);
            }
            return Some(i);
        }
        if i == hay.len() {
            proof {
                assert(!occurs(hay@, needle@));
                lemma_first_index_none(hay@, needle@);
            }
            return None;
        }
        i += 1;
    }
    proof {
        assert(!occurs(hay@, needle@));
        lemma_first_index_none(hay@, needle@);
    }
    None
}

/// Whether two strings hold the same text.
pub fn text_eq(a: &str, b: &str) -> (r: bool)
    ensures
        r == (a@ == b@),
{
    let x = chars_of(a);
    let y = chars_of(b);
    if x.len() != y.len() {
        return false;
    }
    let mut i: usize = 0;
    while i < x.len()
        invariant
            i <= x.len(),
            x.len() == y.len(),
            x@ == a@,
            y@ == b@,
            forall|k: int| 0 <= k < i ==> x@[k] == y@[k],
        decreases x.len() - i,
    {
        if x[i] != y[i] {
            assert(a@[i as int] != b@[i as int]);
            return false;
        }
        i += 1;
    }
    assert(x@ =~= y@);
    true
}

/// Whether `needle` stands somewhere in `hay`.
pub fn contains(hay: &str, needle: &str) -> (r: bool)
    ensures
        r == occurs(hay@, needle@),
{
    let h = chars_of(hay);
    let n = chars_of(needle);
    proof {
        lemma_first_index_some(h@, n@);
    }
    find(&h, &n).is_some()
}

/// Splits `hay` around the leftmost `sep`; `None` where `sep` does not occur.
pub fn split_once(hay: &str, sep: &str) -> (r: Option<(String, String)>)
    ensures
        match r {
            Some((a, b)) => split_once_spec(hay@, sep@) == Some((a@, b@)),
            None => split_once_spec(hay@, sep@) is None,
        },
{
    let h = chars_of(hay);
    let n = chars_of(sep);
    match find(&h, &n) {
        Some(i) => {
            proof {
                lemma_first_index_some(h@, n@);
                assert(occurs_at(h@, n@, i as int));
                assert(i + n.len() <= h.len());
            }
            let before = string_of_range(&h, 0, i);
            let after = string_of_range(&h, i + n.len(), h.len());
            Some((before, after))
        },
        None => None,
    }
}

/// Joins `parts` into one string with `sep` between neighbours.
pub fn join(parts: &Vec<String>, sep: &str) -> (r: String)
    ensures
        r@ == join_spec(views(parts@), sep@),
{
    let mut out = String::new();
    let mut i: usize = 0;
    while i < parts.len()
        invariant
            i <= parts.len(),
            out@ == join_spec(views(parts@).take(i as int), sep@),
        decreases parts.len() - i,
    {
        proof {
            let all = views(parts@);
            let next = all.take(i + 1);
            assert(next.drop_last() =~= all.take(i as int));
            assert(next.last() == parts@[i as int]@);
            if i == 0 {
                assert(join_spec(next, sep@) == next[0]);
            } else {
                assert(join_spec(next, sep@) == join_spec(next.drop_last(), sep@) + sep@
                    + next.last());
            }
        }
        if i > 0 {
            out.append(sep);
        }
        out.append(parts[i].as_str());
        i += 1;
    }
    assert(views(parts@).take(parts.len() as int) =~= views(parts@));
    out
}

/// The words of `text`: its maximal runs of characters that are not whitespace.
pub fn split_whitespace(text: &str) -> (r: Vec<String>)
    ensures
        views(r@) == words_spec(text@),
{
    let chars = chars_of(text);
    let mut out: Vec<String> = Vec::new();
    let mut start: usize = 0;
    let mut i: usize = 0;
    while i < chars.len()
        invariant
            start <= i <= chars.len(),
            forall|k: int| start <= k < i ==> !is_whitespace_spec(chars@[k]),
            start > 0 ==> is_whitespace_spec(chars@[start - 1]),
            words_spec(chars@.take(i as int)) == if start < i {
                views(out@).push(chars@.subrange(start as int, i as int))
            } else {
                views(out@)
            },
        decreases chars.len() - i,
    {
        let ghost prefix = chars@.take(i as int);
        let ghost next = chars@.take(i + 1);
        proof {
            assert(next.drop_last() =~= prefix);
            assert(next.last() == chars@[i as int]);
            if i > 0 {
                assert(next[next.len() - 2] == chars@[i - 1]);
            }
        }
        if is_whitespace(chars[i]) {
            if start < i {
                let word = string_of_range(&chars, start, i);
                let ghost old_out = views(out@);
                out.push(word);
                assert(views(out@) =~= old_out.push(chars@.subrange(start as int, i as int)));
            }
            start = i + 1;
        } else {
            proof {
                if start < i {
                    let before = views(out@).push(chars@.subrange(start as int, i as int));
                    assert(before.drop_last() =~= views(out@));
                    assert(before.last().push(chars@[i as int]) =~= chars@.subrange(
                        start as int,
                        i + 1,
                    ));
                } else {
                    assert(seq![chars@[i as int]] =~= chars@.subrange(start as int, i + 1));
                }
            }
        }
        i += 1;
    }
    assert(chars@.take(chars.len() as int) =~= chars@);
    if start < i {
        let word = string_of_range(&chars, start, i);
        let ghost old_out = views(out@);
        out.push(word);
        assert(views(out@) =~= old_out.push(chars@.subrange(start as int, i as int)));
    }
    out
}

} // verus!
