use crate::handlers::page_count;
use crate::markdown::{spans_view, SpanView, StyledLine, StyledSpan};
use vstd::prelude::*;

verus! {

/// The text of a line: its spans' contents, left to right.
pub open spec fn line_text(spans: Seq<SpanView>) -> Seq<char>
    decreases spans.len(),
{
    if spans.len() == 0 {
        Seq::empty()
    } else {
        line_text(spans.drop_last()) + spans.last().content
    }
}

/// Text that opens with the centering marker `->`.
pub open spec fn opens_centered(t: Seq<char>) -> bool {
    t.len() >= 2 && t[0] == '-' && t[1] == '>'
}

/// Text that closes with the centering marker `<-`.
pub open spec fn closes_centered(t: Seq<char>) -> bool {
    t.len() >= 2 && t[t.len() - 2] == '<' && t[t.len() - 1] == '-'
}

/// A line marked for centering with its markers taken out: `->` from the
/// front of its first span, then `<-` from the end of its last span.
pub open spec fn unmarked(spans: Seq<SpanView>) -> Seq<SpanView> {
    let a = if spans.len() > 0 && opens_centered(spans[0].content) {
        spans.update(
            0,
            SpanView {
                content: spans[0].content.subrange(2, spans[0].content.len() as int),
                style: spans[0].style,
            },
        )
    } else {
        spans
    };
    let n = a.len() - 1;
    if a.len() > 0 && closes_centered(a[n].content) {
        a.update(
            n,
            SpanView {
                content: a[n].content.subrange(0, a[n].content.len() - 2),
                style: a[n].style,
            },
        )
    } else {
        a
    }
}

fn line_string(line: &StyledLine) -> (r: String)
    ensures
        r@ == line_text(line@),
{
    let mut text = String::new();
    let mut i: usize = 0;
    while i < line.spans.len()
        invariant
            i <= line.spans.len(),
            text@ == line_text(spans_view(line.spans@.take(i as int))),
        decreases line.spans.len() - i,
    {
        let ghost next = spans_view(line.spans@.take(i + 1));
        assert(next.drop_last() =~= spans_view(line.spans@.take(i as int)));
        text.append(line.spans[i].content.as_str());
        i = i + 1;
    }
    assert(line.spans@.take(i as int) =~= line.spans@);
    text
}

proof fn lemma_empty_line_text(spans: Seq<SpanView>)
    requires
        line_text(spans).len() > 0,
    ensures
        spans.len() > 0,
{
}

/// A line whose text opens with `->` and closes with `<-` is to be centered:
/// the markers are taken out and true is returned. Any other line is left as
/// it is.
pub fn center_marked_line(line: &mut StyledLine) -> (r: bool)
    ensures
        r == (opens_centered(line_text(old(line)@)) && closes_centered(line_text(old(line)@))),
        r ==> final(line)@ == unmarked(old(line)@),
        !r ==> *final(line) == *old(line),
{
    let text = line_string(line);
    let n = text.as_str().unicode_len();
    if !(n >= 2 && text.as_str().get_char(0) == '-' && text.as_str().get_char(1) == '>'
        && text.as_str().get_char(n - 2) == '<' && text.as_str().get_char(n - 1) == '-') {
        return false;
    }
    proof {
        lemma_empty_line_text(line@);
    }
    let first = line.spans[0].content.as_str().unicode_len();
    if first >= 2 && line.spans[0].content.as_str().get_char(0) == '-'
        && line.spans[0].content.as_str().get_char(1) == '>' {
        let style = line.spans[0].style;
        let rest = String::from_str(line.spans[0].content.as_str().substring_char(2, first));
        let ghost before = line.spans@;
        line.spans.set(0, StyledSpan { content: rest, style });
        assert(spans_view(line.spans@) =~= spans_view(before).update(
            0,
            SpanView { content: spans_view(before)[0].content.subrange(2, first as int), style },
        ));
    }
    let ghost stripped_front = line@;
    let last = line.spans.len() - 1;
    let width = line.spans[last].content.as_str().unicode_len();
    if width >= 2 && line.spans[last].content.as_str().get_char(width - 2) == '<'
        && line.spans[last].content.as_str().get_char(width - 1) == '-' {
        let style = line.spans[last].style;
        let rest = String::from_str(line.spans[last].content.as_str().substring_char(0, width - 2));
        let ghost before = line.spans@;
        line.spans.set(last, StyledSpan { content: rest, style });
        assert(spans_view(line.spans@) =~= spans_view(before).update(
            last as int,
            SpanView {
                content: spans_view(before)[last as int].content.subrange(0, width - 2),
                style,
            },
        ));
    }
    true
}

/// How many skills fit on a page of the given height: each takes three rows
/// (name, bar, space) after a margin of two; at least one.
pub open spec fn per_page(height: u16) -> usize {
    let rows = if height >= 2 {
        height - 2
    } else {
        0
    };
    if rows / 3 >= 1 {
        (rows / 3) as usize
    } else {
        1
    }
}

/// How many skills fit on a page of the given height.
pub fn skills_per_page(height: u16) -> (r: usize)
    ensures
        r == per_page(height),
        r >= 1,
{
    let rows = height.saturating_sub(2);
    let fit = (rows / 3) as usize;
    if fit >= 1 {
        fit
    } else {
        1
    }
}

/// The page actually shown when `page` is asked for: the last page if it lies
/// beyond it, and 0 when there are no pages.
pub open spec fn shown_page(page: usize, pages: int) -> int {
    if page < pages {
        page as int
    } else if pages > 0 {
        pages - 1
    } else {
        0
    }
}

proof fn lemma_page_start(p: int, size: int, total: int, pages: int)
    requires
        size >= 1,
        total >= 0,
        0 <= p < pages,
        pages == total / size + if total % size == 0 {
            0int
        } else {
            1int
        },
    ensures
        p * size < total,
{
    vstd::arithmetic::div_mod::lemma_fundamental_div_mod(total, size);
    let q = total / size;
    let m = total % size;
    assert(0 <= m < size) by {
        vstd::arithmetic::div_mod::lemma_mod_bound(total, size);
    }
    if m == 0 {
        assert(p + 1 <= q);
        assert((p + 1) * size <= q * size) by (nonlinear_arith)
            requires
                p + 1 <= q,
                size >= 1,
        ;
        assert(p * size + size == (p + 1) * size) by (nonlinear_arith);
        assert(total == size * q);
        assert(size * q == q * size) by (nonlinear_arith);
    } else {
        assert(p <= q);
        assert(p * size <= q * size) by (nonlinear_arith)
            requires
                p <= q,
                size >= 1,
        ;
        assert(size * q == q * size) by (nonlinear_arith);
    }
}

/// The skills shown on a page: from `start` up to, not including, `end`, where
/// `start` is the shown page times the page size (a size of zero counts as
/// one) and `end` is a page size further, cut at the number of skills.
pub fn page_bounds(page: usize, page_size: usize, total: usize) -> (r: (usize, usize))
    ensures
        ({
            let size = if page_size == 0 {
                1
            } else {
                page_size as int
            };
            let p = shown_page(page, page_count(total, page_size));
            &&& r.0 == p * size
            &&& r.1 == if r.0 + size <= total {
                r.0 + size
            } else {
                total as int
            }
            &&& r.0 <= r.1 <= total
        }),
{
    let size: usize = if page_size == 0 {
        1
    } else {
        page_size
    };
    let pages = crate::handlers::page_count_of(total, page_size);
    let p: usize = if page < pages {
        page
    } else if pages > 0 {
        pages - 1
    } else {
        0
    };
    if pages == 0 {
        proof {
            if page_size > 0 {
                vstd::arithmetic::div_mod::lemma_fundamental_div_mod(total as int, size as int);
                assert(size * (total / size) == 0) by (nonlinear_arith)
                    requires
                        total / size == 0,
                ;
            }
        }
        return (0, 0);
    }
    proof {
        lemma_page_start(p as int, size as int, total as int, page_count(total, size));
    }
    let start = p * size;
    let end = if total - start >= size {
        start + size
    } else {
        total
    };
    (start, end)
}

} // verus!
