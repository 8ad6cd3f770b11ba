//! Cutting a transcript into chunks that fit one embedding call each.
//!
//! The text is first cut into windows of whole words, so that no single call
//! of the tokenizer sees more than a bounded number of words. The token ids
//! of all windows form one stream, and that stream is cut into overlapping
//! windows of at most `max_tokens` ids: the final chunks.

use crate::text::{join, join_spec, split_whitespace, views, words_spec};
use vstd::arithmetic::div_mod::lemma_div_multiples_vanish_fancy;
use vstd::prelude::*;

verus! {

/// The number of words that one call of the tokenizer sees at most.
pub const WORD_WINDOW: usize = 128;

/// The number of token ids that a chunk holds at most, unless asked
/// otherwise.
pub const DEFAULT_MAX_TOKENS: usize = 128;

/// The number of token ids that neighbouring chunks share, unless asked
/// otherwise.
pub const DEFAULT_OVERLAP: usize = 16;

/// How far the start of one window lies behind the start of the next: the
/// width less the overlap, and at least one.
pub open spec fn step_spec(width: int, overlap: int) -> int {
    if width > overlap {
        width - overlap
    } else {
        1
    }
}

/// The number of windows over `len` items whose starts lie `step` apart: one
/// for each start `0, step, 2 * step, ..` below `len`.
pub open spec fn window_count(len: int, step: int) -> int {
    if len <= 0 {
        0
    } else {
        (len - 1) / step + 1
    }
}

/// Where window `k` starts.
pub open spec fn window_start(step: int, k: int) -> int {
    k * step
}

/// Where window `k` ends: `width` items after its start, or at the end of
/// the items where they run out before.
pub open spec fn window_end(len: int, width: int, step: int, k: int) -> int {
    if k * step + width < len {
        k * step + width
    } else {
        len
    }
}

/// The bounds of the windows over `len` items.
pub open spec fn window_bounds(len: int, width: int, step: int) -> Seq<(int, int)> {
    Seq::new(
        window_count(len, step) as nat,
        |k: int| (window_start(step, k), window_end(len, width, step, k)),
    )
}

/// The windows of `width` items over `items`, their starts `step` apart.
pub open spec fn windows_spec<T>(items: Seq<T>, width: int, step: int) -> Seq<Seq<T>> {
    Seq::new(
        window_count(items.len() as int, step) as nat,
        |k: int|
            items.subrange(
                window_start(step, k),
                window_end(items.len() as int, width, step, k),
            ),
    )
}

/// The word windows of a text: its words in groups of `cap`, each group
/// joined with single spaces.
pub open spec fn word_windows_spec(text: Seq<char>, cap: int) -> Seq<Seq<char>> {
    windows_spec(words_spec(text), cap, cap).map_values(|w: Seq<Seq<char>>| join_spec(w, " "@))
}

/// The final chunks of a token stream, as token ids: windows of at most
/// `max_tokens` ids, neighbours sharing `overlap` ids.
pub open spec fn token_windows_spec(tokens: Seq<i64>, max_tokens: int, overlap: int) -> Seq<
    Seq<i64>,
> {
    windows_spec(tokens, max_tokens, step_spec(max_tokens, overlap))
}

/// The views of a list of token lists.
pub open spec fn token_views(parts: Seq<Vec<i64>>) -> Seq<Seq<i64>> {
    Seq::new(parts.len(), |i: int| parts[i]@)
}

/// The bounds of a list of windows, as mathematical integers.
pub open spec fn bound_views(bounds: Seq<(usize, usize)>) -> Seq<(int, int)> {
    Seq::new(bounds.len(), |i: int| (bounds[i].0 as int, bounds[i].1 as int))
}

/// The count of windows is the least `k` with `k * step >= len`.
pub proof fn lemma_window_count(len: int, step: int, k: int)
    requires
        step >= 1,
        0 <= len,
        k >= 0,
        k * step >= len,
        k > 0 ==> (k - 1) * step < len,
    ensures
        window_count(len, step) == k,
{
    if len > 0 {
        assert(k > 0) by (nonlinear_arith)
            requires
                k >= 0,
                k * step >= len,
                len > 0,
        ;
        let b = len - 1 - (k - 1) * step;
        assert(k * step == (k - 1) * step + step) by (nonlinear_arith);
        assert(0 <= b < step);
        lemma_div_multiples_vanish_fancy(k - 1, b, step);
        assert(step * (k - 1) == (k - 1) * step) by (nonlinear_arith);
    } else {
        assert(k == 0) by (nonlinear_arith)
            requires
                k >= 0,
                step >= 1,
                k > 0 ==> (k - 1) * step < 0,
        ;
    }
}

/// Every window lies within the items, starts before it ends where the
/// width is positive, and is no longer than the width.
pub proof fn lemma_window_in_range(len: int, width: int, step: int, k: int)
    requires
        step >= 1,
        width >= 0,
        0 <= k < window_count(len, step),
    ensures
        0 <= window_start(step, k) < len,
        window_start(step, k) <= window_end(len, width, step, k) <= len,
        window_end(len, width, step, k) - window_start(step, k) <= width,
{
    assert(k <= (len - 1) / step);
    assert(k * step <= len - 1) by (nonlinear_arith)
        requires
            0 <= k <= (len - 1) / step,
            step >= 1,
            len >= 1,
    {
        assert(((len - 1) / step) * step <= len - 1) by (nonlinear_arith)
            requires
                step >= 1,
                len >= 1,
        ;
        assert(k * step <= ((len - 1) / step) * step) by (nonlinear_arith)
            requires
                0 <= k <= (len - 1) / step,
                step >= 1,
        ;
    }
    assert(k * step >= 0) by (nonlinear_arith)
        requires
            k >= 0,
            step >= 1,
    ;
}

/// No chunk holds more than `max_tokens` token ids.
pub proof fn lemma_chunks_are_bounded(tokens: Seq<i64>, max_tokens: int, overlap: int, k: int)
    requires
        max_tokens >= 0,
        0 <= k < token_windows_spec(tokens, max_tokens, overlap).len(),
    ensures
        token_windows_spec(tokens, max_tokens, overlap)[k].len() <= max_tokens,
{
    lemma_window_in_range(tokens.len() as int, max_tokens, step_spec(max_tokens, overlap), k);
}

/// A stream with at least one token id gives at least one chunk, and an
/// empty stream gives none.
pub proof fn lemma_chunks_exist(tokens: Seq<i64>, max_tokens: int, overlap: int)
    ensures
        token_windows_spec(tokens, max_tokens, overlap).len() >= 1 <==> tokens.len() >= 1,
{
    let step = step_spec(max_tokens, overlap);
    let len = tokens.len() as int;
    if len >= 1 {
        assert((len - 1) / step >= 0) by (nonlinear_arith)
            requires
                len >= 1,
                step >= 1,
        ;
    }
}

/// With room for at least one token id per chunk, every token id of the
/// stream stands in a chunk: the id at index `i` in chunk `i / step`.
pub proof fn lemma_chunks_cover(tokens: Seq<i64>, max_tokens: int, overlap: int, i: int)
    requires
        max_tokens >= 1,
        overlap >= 0,
        0 <= i < tokens.len(),
    ensures
        ({
            let step = step_spec(max_tokens, overlap);
            let windows = token_windows_spec(tokens, max_tokens, overlap);
            let k = i / step;
            &&& 0 <= k < windows.len()
            &&& 0 <= i - k * step < windows[k].len()
            &&& windows[k][i - k * step] == tokens[i]
        }),
{
    let step = step_spec(max_tokens, overlap);
    let len = tokens.len() as int;
    let k = i / step;
    assert(0 <= k && k * step <= i < k * step + step) by (nonlinear_arith)
        requires
            k == i / step,
            step >= 1,
            i >= 0,
    ;
    assert(k <= (len - 1) / step) by (nonlinear_arith)
        requires
            k == i / step,
            step >= 1,
            0 <= i <= len - 1,
    ;
    lemma_window_in_range(len, max_tokens, step, k);
    let windows = token_windows_spec(tokens, max_tokens, overlap);
    assert(windows.len() == window_count(len, step));
    assert(windows[k] == tokens.subrange(
        window_start(step, k),
        window_end(len, max_tokens, step, k),
    ));
    assert(step <= max_tokens);
}

/// Neighbouring chunks share `overlap` token ids: where the chunks are wider
/// than the overlap, the ids that open chunk `k + 1` are those that stand
/// `step` places into chunk `k`.
pub proof fn lemma_chunks_overlap(
    tokens: Seq<i64>,
    max_tokens: int,
    overlap: int,
    k: int,
    j: int,
)
    requires
        0 <= overlap < max_tokens,
        0 <= k,
        k + 1 < token_windows_spec(tokens, max_tokens, overlap).len(),
        0 <= j < overlap,
        j < token_windows_spec(tokens, max_tokens, overlap)[k + 1].len(),
    ensures
        ({
            let step = step_spec(max_tokens, overlap);
            let windows = token_windows_spec(tokens, max_tokens, overlap);
            &&& step + j < windows[k].len()
            &&& windows[k + 1][j] == windows[k][step + j]
        }),
{
    let step = step_spec(max_tokens, overlap);
    let len = tokens.len() as int;
    lemma_window_in_range(len, max_tokens, step, k);
    lemma_window_in_range(len, max_tokens, step, k + 1);
    assert((k + 1) * step == k * step + step) by (nonlinear_arith);
}

/// The step between the starts of neighbouring chunks.
pub fn step_size(max_tokens: usize, overlap: usize) -> (r: usize)
    ensures
        r == step_spec(max_tokens as int, overlap as int),
        r >= 1,
{
    if max_tokens > overlap {
        max_tokens - overlap
    } else {
        1
    }
}

/// The bounds of the windows of `width` items over `len` items, their starts
/// `step` apart.
pub fn window_ranges(len: usize, width: usize, step: usize) -> (r: Vec<(usize, usize)>)
    requires
        step >= 1,
    ensures
        bound_views(r@) == window_bounds(len as int, width as int, step as int),
        forall|k: int| 0 <= k < r.len() ==> (#[trigger] r@[k]).0 <= r@[k].1 <= len,
{
    let mut out: Vec<(usize, usize)> = Vec::new();
    let mut start: usize = 0;
    let ghost mut k: int = 0;
    assert(0 * step == 0) by (nonlinear_arith);
    while start < len
        invariant
            step >= 1,
            k == out.len(),
            start <= len,
            start == if k * step < len {
                k * step
            } else {
                len as int
            },
            k > 0 ==> (k - 1) * step < len,
            forall|j: int|
                0 <= j < k ==> (#[trigger] out@[j]) == (
                    window_start(step as int, j) as usize,
                    window_end(len as int, width as int, step as int, j) as usize,
                ),
            forall|j: int| 0 <= j < k ==> (#[trigger] out@[j]).0 <= out@[j].1 <= len,
        decreases len - start,
    {
        let end = if width < len - start {
            start + width
        } else {
            len
        };
        out.push((start, end));
        proof {
            assert((k + 1) * step == k * step + step) by (nonlinear_arith);
            assert((k + 1 - 1) * step == k * step);
        }
        start = if step < len - start {
            start + step
        } else {
            len
        };
        proof {
            k = k + 1;
        }
    }
    proof {
        lemma_window_count(len as int, step as int, k);
        assert forall|j: int| 0 <= j < k implies bound_views(out@)[j] == window_bounds(
            len as int,
            width as int,
            step as int,
        )[j] by {
            lemma_window_in_range(len as int, width as int, step as int, j);
        }
        assert(bound_views(out@) =~= window_bounds(len as int, width as int, step as int));
    }
    out
}

/// The items `items[from..to]`.
fn slice_tokens(items: &Vec<i64>, from: usize, to: usize) -> (r: Vec<i64>)
    requires
        from <= to <= items.len(),
    ensures
        r@ == items@.subrange(from as int, to as int),
{
    let mut out: Vec<i64> = Vec::new();
    let mut i: usize = from;
    while i < to
        invariant
            from <= i <= to <= items.len(),
            out@ == items@.subrange(from as int, i as int),
        decreases to - i,
    {
        out.push(items[i]);
        i += 1;
    }
    out
}

/// The strings `items[from..to]`.
fn slice_words(items: &Vec<String>, from: usize, to: usize) -> (r: Vec<String>)
    requires
        from <= to <= items.len(),
    ensures
        views(r@) == views(items@).subrange(from as int, to as int),
{
    let mut out: Vec<String> = Vec::new();
    let mut i: usize = from;
    while i < to
        invariant
            from <= i <= to <= items.len(),
            views(out@) == views(items@).subrange(from as int, i as int),
        decreases to - i,
    {
        let ghost before = views(out@);
        out.push(items[i].clone());
        assert(views(out@) =~= before.push(items@[i as int]@));
        i += 1;
    }
    out
}

/// Cuts a text into windows of at most `cap` whole words each, the words of
/// a window joined with single spaces.
pub fn word_windows(text: &str, cap: usize) -> (r: Vec<String>)
    requires
        cap >= 1,
    ensures
        views(r@) == word_windows_spec(text@, cap as int),
{
    let words = split_whitespace(text);
    let ranges = window_ranges(words.len(), cap, cap);
    let ghost all = views(words@);
    let ghost bounds = window_bounds(words.len() as int, cap as int, cap as int);
    let ghost joined = |w: Seq<Seq<char>>| join_spec(w, " "@);
    let mut out: Vec<String> = Vec::new();
    let mut k: usize = 0;
    assert(bound_views(ranges@).len() == ranges.len());
    while k < ranges.len()
        invariant
            k <= ranges.len(),
            out.len() == k,
            all == views(words@),
            bounds == window_bounds(words.len() as int, cap as int, cap as int),
            bound_views(ranges@) == bounds,
            ranges.len() == bounds.len(),
            forall|j: int| 0 <= j < ranges.len() ==> (#[trigger] ranges@[j]).0 <= ranges@[j].1
                <= words.len(),
            forall|j: int|
                0 <= j < k ==> (#[trigger] out@[j])@ == join_spec(
                    all.subrange(bounds[j].0, bounds[j].1),
                    " "@,
                ),
        decreases ranges.len() - k,
    {
        let (from, to) = ranges[k];
        assert(bound_views(ranges@)[k as int] == (from as int, to as int));
        let part = slice_words(&words, from, to);
        out.push(join(&part, " "));
        k += 1;
    }
    assert(views(out@) =~= word_windows_spec(text@, cap as int));
    out
}

/// Cuts a text into the word windows that the tokenizer is called on, one
/// call each.
pub fn pre_chunk(text: &str) -> (r: Vec<String>)
    ensures
        views(r@) == word_windows_spec(text@, WORD_WINDOW as int),
{
    word_windows(text, WORD_WINDOW)
}

/// The token stream of a text: the token ids of its word windows, one
/// window after the other.
pub fn concat_tokens(parts: &Vec<Vec<i64>>) -> (r: Vec<i64>)
    ensures
        r@ == token_views(parts@).flatten(),
{
    let mut out: Vec<i64> = Vec::new();
    let mut i: usize = 0;
    assert(token_views(parts@).take(0) =~= Seq::empty());
    while i < parts.len()
        invariant
            i <= parts.len(),
            out@ == token_views(parts@).take(i as int).flatten(),
        decreases parts.len() - i,
    {
        let part = &parts[i];
        let ghost before = out@;
        let mut j: usize = 0;
        while j < part.len()
            invariant
                j <= part.len(),
                out@ == before + part@.take(j as int),
            decreases part.len() - j,
        {
            out.push(part[j]);
            assert(part@.take(j + 1) =~= part@.take(j as int).push(part@[j as int]));
            j += 1;
        }
        proof {
            assert(part@.take(part.len() as int) =~= part@);
            let views = token_views(parts@);
            assert(views.take(i + 1) =~= views.take(i as int).push(part@));
            views.take(i as int).lemma_flatten_push(part@);
        }
        i += 1;
    }
    assert(token_views(parts@).take(parts.len() as int) =~= token_views(parts@));
    out
}

/// Cuts a token stream into the final chunks: windows of at most
/// `max_tokens` token ids, neighbours sharing `overlap` ids.
pub fn token_windows(tokens: &Vec<i64>, max_tokens: usize, overlap: usize) -> (r: Vec<Vec<i64>>)
    ensures
        token_views(r@) == token_windows_spec(tokens@, max_tokens as int, overlap as int),
        forall|k: int| 0 <= k < r.len() ==> (#[trigger] r@[k]).len() <= max_tokens,
{
    let step = step_size(max_tokens, overlap);
    let ranges = window_ranges(tokens.len(), max_tokens, step);
    let ghost bounds = window_bounds(tokens.len() as int, max_tokens as int, step as int);
    let mut out: Vec<Vec<i64>> = Vec::new();
    let mut k: usize = 0;
    assert(bound_views(ranges@).len() == ranges.len());
    while k < ranges.len()
        invariant
            k <= ranges.len(),
            out.len() == k,
            bounds == window_bounds(tokens.len() as int, max_tokens as int, step as int),
            bound_views(ranges@) == bounds,
            ranges.len() == bounds.len(),
            forall|j: int| 0 <= j < ranges.len() ==> (#[trigger] ranges@[j]).0 <= ranges@[j].1
                <= tokens.len(),
            forall|j: int|
                0 <= j < k ==> (#[trigger] out@[j])@ == tokens@.subrange(bounds[j].0, bounds[j].1),
        decreases ranges.len() - k,
    {
        let (from, to) = ranges[k];
        assert(bound_views(ranges@)[k as int] == (from as int, to as int));
        out.push(slice_tokens(tokens, from, to));
        k += 1;
    }
    proof {
        assert(token_views(out@) =~= token_windows_spec(
            tokens@,
            max_tokens as int,
            overlap as int,
        ));
        assert forall|j: int| 0 <= j < out.len() implies (#[trigger] out@[j]).len()
            <= max_tokens by {
            assert(token_views(out@)[j] == out@[j]@);
            lemma_chunks_are_bounded(tokens@, max_tokens as int, overlap as int, j);
        }
    }
    out
}

} // verus!
