//! The scrolling title: a window of `width` columns slid over styled text
//! one column per step, wrapping around after a three-column gap. A wide
//! character is never split: the column left over at the window's left
//! edge becomes a space, and one that would overflow the right edge ends
//! the window early.
//!
//! Styles are carried as tags chosen by the caller; equal tags mean equal
//! styles, and consecutive characters of one tag form one run.

use vstd::prelude::*;
use vstd::arithmetic::div_mod::{lemma_fundamental_div_mod, lemma_fundamental_div_mod_converse};
use crate::text::{chars_of, string_from_chars};
use crate::ui::width::{cols, cut_width};

verus! {

/// Columns of blank space between the end of the text and its next start.
pub const MARQUEE_GAP: usize = 3;

/// The characters of every part, each with its part's tag.
pub open spec fn flatten(parts: Seq<(Seq<char>, u32)>) -> Seq<(char, u32)>
    decreases parts.len(),
{
    if parts.len() == 0 {
        Seq::empty()
    } else {
        flatten(parts.drop_last()) + parts.last().0.map_values(|c: char| (c, parts.last().1))
    }
}

/// The cells that scroll: the text, then the gap in the gap's tag.
pub open spec fn marquee_cells(parts: Seq<(Seq<char>, u32)>, gap_tag: u32) -> Seq<(char, u32)> {
    flatten(parts) + seq![(' ', gap_tag), (' ', gap_tag), (' ', gap_tag)]
}

/// Columns taken by a run of cells.
pub open spec fn cells_width(s: Seq<(char, u32)>) -> int
    decreases s.len(),
{
    if s.len() == 0 {
        0
    } else {
        cells_width(s.drop_last()) + cols(s.last().0)
    }
}

/// The first cell at or after `i` whose start column is at or past
/// `offset` (the number of cells when there is none).
pub open spec fn first_cell_from(cells: Seq<(char, u32)>, offset: int, i: int) -> int
    decreases cells.len() - i,
{
    if i >= cells.len() {
        cells.len() as int
    } else if cells_width(cells.take(i)) >= offset {
        i
    } else {
        first_cell_from(cells, offset, i + 1)
    }
}

/// Indices of the cells that take at least one column, in order.
pub open spec fn visible_cells(cells: Seq<(char, u32)>) -> Seq<int>
    decreases cells.len(),
{
    if cells.len() == 0 {
        Seq::empty()
    } else if cols(cells.last().0) > 0 {
        visible_cells(cells.drop_last()).push(cells.len() - 1)
    } else {
        visible_cells(cells.drop_last())
    }
}

/// The first position in `vis` at or after `p` holding a cell index at or
/// after `start`; 0 (wrapping to the first visible cell) when there is none.
pub open spec fn first_visible_from(vis: Seq<int>, start: int, p: int) -> int
    decreases vis.len() - p,
{
    if p < 0 || p >= vis.len() {
        0
    } else if vis[p] >= start {
        p
    } else {
        first_visible_from(vis, start, p + 1)
    }
}

/// Visible cells taken cyclically from position `p` of `vis` while they
/// fit in `budget` columns.
pub open spec fn emit(cells: Seq<(char, u32)>, vis: Seq<int>, p: int, budget: int) -> Seq<(char, u32)>
    decreases budget,
{
    if budget <= 0 || vis.len() == 0 || p < 0 || p >= vis.len() {
        Seq::empty()
    } else {
        let c = cells[vis[p]];
        let w = cols(c.0);
        if w > budget || w <= 0 {
            Seq::empty()
        } else {
            seq![c] + emit(cells, vis, (p + 1) % (vis.len() as int), budget - w)
        }
    }
}

/// The cells shown in a window of `width` columns at `step`.
pub open spec fn window_cells(parts: Seq<(Seq<char>, u32)>, gap_tag: u32, width: int, step: int) -> Seq<(char, u32)> {
    let cells = marquee_cells(parts, gap_tag);
    let total = cells_width(cells);
    if total == 0 || width == 0 {
        Seq::empty()
    } else {
        let offset = step % total;
        let start = first_cell_from(cells, offset, 0);
        let col = cells_width(cells.take(start));
        let pad = if col - offset < width { col - offset } else { width };
        let vis = visible_cells(cells);
        Seq::new(pad as nat, |i: int| (' ', gap_tag)) + emit(cells, vis, first_visible_from(vis, start, 0), width - pad)
    }
}

/// Consecutive cells of one tag gathered into runs.
pub open spec fn runs(s: Seq<(char, u32)>) -> Seq<(Seq<char>, u32)>
    decreases s.len(),
{
    if s.len() == 0 {
        Seq::empty()
    } else {
        let r = runs(s.drop_last());
        let (c, tag) = s.last();
        if r.len() > 0 && r.last().1 == tag {
            r.update(r.len() - 1, (r.last().0.push(c), tag))
        } else {
            r.push((seq![c], tag))
        }
    }
}

/// The runs of a window (see [`window_cells`]).
pub open spec fn spec_marquee(parts: Seq<(Seq<char>, u32)>, gap_tag: u32, width: int, step: int) -> Seq<(Seq<char>, u32)> {
    runs(window_cells(parts, gap_tag, width, step))
}

/// The string views of styled parts.
pub open spec fn parts_view(parts: Seq<(String, u32)>) -> Seq<(Seq<char>, u32)> {
    parts.map_values(|p: (String, u32)| (p.0@, p.1))
}

fn cells_of(parts: &Vec<(String, u32)>, gap_tag: u32) -> (r: Vec<(char, u32)>)
    ensures
        r@ == marquee_cells(parts_view(parts@), gap_tag),
{
    let mut cells: Vec<(char, u32)> = Vec::new();
    let mut k: usize = 0;
    while k < parts.len()
        invariant
            k <= parts.len(),
            cells@ == flatten(parts_view(parts@).take(k as int)),
        decreases parts.len() - k,
    {
        let cs = chars_of(parts[k].0.as_str());
        let tag = parts[k].1;
        let ghost before = cells@;
        let mut j: usize = 0;
        while j < cs.len()
            invariant
                j <= cs.len(),
                cells@ == before + cs@.take(j as int).map_values(|c: char| (c, tag)),
            decreases cs.len() - j,
        {
            cells.push((cs[j], tag));
            assert(cs@.take(j + 1).map_values(|c: char| (c, tag))
                =~= cs@.take(j as int).map_values(|c: char| (c, tag)).push((cs@[j as int], tag)));
            j = j + 1;
        }
        proof {
            let pv = parts_view(parts@);
            assert(cs@.take(cs@.len() as int) =~= cs@);
            assert(pv.take(k + 1).drop_last() =~= pv.take(k as int));
            assert(pv.take(k + 1).last() == (parts@[k as int].0@, tag));
        }
        k = k + 1;
    }
    proof {
        assert(parts_view(parts@).take(parts@.len() as int) =~= parts_view(parts@));
    }
    cells.push((' ', gap_tag));
    cells.push((' ', gap_tag));
    cells.push((' ', gap_tag));
    proof {
        assert(cells@ =~= marquee_cells(parts_view(parts@), gap_tag));
    }
    cells
}

/// The columns each cell takes, with the running total before each.
fn widths_of(cells: &Vec<(char, u32)>) -> (r: (Vec<usize>, u128))
    ensures
        r.0@.len() == cells@.len(),
        forall|i: int| 0 <= i < cells@.len() ==> r.0@[i] == cols(#[trigger] cells@[i].0),
        r.1 == cells_width(cells@),
{
    let mut widths: Vec<usize> = Vec::new();
    let mut total: u128 = 0;
    let mut i: usize = 0;
    while i < cells.len()
        invariant
            i <= cells.len(),
            widths@.len() == i,
            forall|k: int| 0 <= k < i ==> widths@[k] == cols(#[trigger] cells@[k].0),
            total == cells_width(cells@.take(i as int)),
            total <= i * (usize::MAX as int),
        decreases cells.len() - i,
    {
        let w = cut_width(cells[i].0);
        widths.push(w);
        assert(cells@.take(i + 1).drop_last() =~= cells@.take(i as int));
        assert(total + w <= (i + 1) * (usize::MAX as int)) by (nonlinear_arith)
            requires
                total <= i * (usize::MAX as int),
                w <= usize::MAX,
        ;
        assert((i + 1) * (usize::MAX as int) <= u128::MAX) by (nonlinear_arith)
            requires
                i < usize::MAX,
        ;
        total = total + w as u128;
        i = i + 1;
    }
    assert(cells@.take(cells@.len() as int) =~= cells@);
    (widths, total)
}

/// Gathers consecutive cells of one tag into runs (see [`runs`]).
fn gather_runs(cells: &Vec<(char, u32)>) -> (r: Vec<(String, u32)>)
    ensures
        r@.map_values(|p: (String, u32)| (p.0@, p.1)) == runs(cells@),
{
    let mut acc: Vec<(Vec<char>, u32)> = Vec::new();
    let mut i: usize = 0;
    while i < cells.len()
        invariant
            i <= cells.len(),
            acc@.map_values(|p: (Vec<char>, u32)| (p.0@, p.1)) == runs(cells@.take(i as int)),
        decreases cells.len() - i,
    {
        let (c, tag) = cells[i];
        let ghost prev = acc@.map_values(|p: (Vec<char>, u32)| (p.0@, p.1));
        assert(cells@.take(i + 1).drop_last() =~= cells@.take(i as int));
        assert(cells@.take(i + 1).last() == (c, tag));
        let n = acc.len();
        if n > 0 && acc[n - 1].1 == tag {
            let (mut last, t) = acc.pop().unwrap();
            last.push(c);
            acc.push((last, t));
            assert(acc@.map_values(|p: (Vec<char>, u32)| (p.0@, p.1))
                =~= prev.update(prev.len() - 1, (prev.last().0.push(c), tag)));
        } else {
            let mut one: Vec<char> = Vec::new();
            one.push(c);
            assert(one@ =~= seq![c]);
            acc.push((one, tag));
            assert(acc@.map_values(|p: (Vec<char>, u32)| (p.0@, p.1)) =~= prev.push((seq![c], tag)));
        }
        i = i + 1;
    }
    assert(cells@.take(cells@.len() as int) =~= cells@);
    let mut out: Vec<(String, u32)> = Vec::new();
    let mut j: usize = 0;
    while j < acc.len()
        invariant
            j <= acc.len(),
            out@.map_values(|p: (String, u32)| (p.0@, p.1))
                == acc@.map_values(|p: (Vec<char>, u32)| (p.0@, p.1)).take(j as int),
        decreases acc.len() - j,
    {
        let s = string_from_chars(&acc[j].0);
        let ghost before = out@.map_values(|p: (String, u32)| (p.0@, p.1));
        out.push((s, acc[j].1));
        assert(out@.map_values(|p: (String, u32)| (p.0@, p.1)) =~= before.push((acc@[j as int].0@, acc@[j as int].1)));
        assert(out@.map_values(|p: (String, u32)| (p.0@, p.1))
            =~= acc@.map_values(|p: (Vec<char>, u32)| (p.0@, p.1)).take(j + 1));
        j = j + 1;
    }
    assert(acc@.map_values(|p: (Vec<char>, u32)| (p.0@, p.1)).take(acc@.len() as int)
        =~= acc@.map_values(|p: (Vec<char>, u32)| (p.0@, p.1)));
    out
}

proof fn lemma_visible_bounds(cells: Seq<(char, u32)>)
    ensures
        forall|k: int| 0 <= k < visible_cells(cells).len() ==> {
            let v = #[trigger] visible_cells(cells)[k];
            0 <= v < cells.len() && cols(cells[v].0) > 0
        },
    decreases cells.len(),
{
    if cells.len() > 0 {
        lemma_visible_bounds(cells.drop_last());
        let prev = visible_cells(cells.drop_last());
        assert forall|k: int| 0 <= k < visible_cells(cells).len() implies {
            let v = #[trigger] visible_cells(cells)[k];
            0 <= v < cells.len() && cols(cells[v].0) > 0
        } by {
            if k < prev.len() {
                assert(visible_cells(cells)[k] == prev[k]);
                assert(cells.drop_last()[prev[k]] == cells[prev[k]]);
            }
        }
    }
}

/// The runs shown in a window of `width` columns over `parts` at `step`
/// (see [`spec_marquee`]); the gap takes `gap_tag`, and so do the spaces
/// standing in for a wide character cut by the left edge.
pub fn marquee_spans(parts: &Vec<(String, u32)>, gap_tag: u32, width: usize, step: usize) -> (r: Vec<(String, u32)>)
    ensures
        r@.map_values(|p: (String, u32)| (p.0@, p.1)) == spec_marquee(parts_view(parts@), gap_tag, width as int, step as int),
{
    let cells = cells_of(parts, gap_tag);
    let (widths, total) = widths_of(&cells);
    let ghost target = window_cells(parts_view(parts@), gap_tag, width as int, step as int);
    if total == 0 || width == 0 {
        let empty: Vec<(char, u32)> = Vec::new();
        proof {
            assert(target =~= empty@);
        }
        return gather_runs(&empty);
    }
    let offset: u128 = (step as u128) % total;
    let mut col: u128 = 0;
    let mut start: usize = cells.len();
    let mut i: usize = 0;
    while i < cells.len()
        invariant_except_break
            i <= cells.len(),
            col == cells_width(cells@.take(i as int)),
            col <= i * (usize::MAX as int),
            offset < total,
            i == cells.len() ==> col == total,
            first_cell_from(cells@, offset as int, 0) == first_cell_from(cells@, offset as int, i as int),
            widths@.len() == cells@.len(),
            forall|k: int| 0 <= k < cells@.len() ==> widths@[k] == cols(#[trigger] cells@[k].0),
            total == cells_width(cells@),
            start == cells.len(),
        ensures
            start == first_cell_from(cells@, offset as int, 0),
            col == cells_width(cells@.take(start as int)),
            start <= cells.len(),
            col >= offset,
        decreases cells.len() - i,
    {
        if col >= offset {
            start = i;
            break;
        }
        if i + 1 == cells.len() {
            assert(cells@.take(i + 1) =~= cells@);
        }
        assert(cells@.take(i + 1).drop_last() =~= cells@.take(i as int));
        assert(col + widths[i as int] <= (i + 1) * (usize::MAX as int)) by (nonlinear_arith)
            requires
                col <= i * (usize::MAX as int),
                widths[i as int] <= usize::MAX,
        ;
        assert((i + 1) * (usize::MAX as int) <= u128::MAX) by (nonlinear_arith)
            requires
                i < usize::MAX,
        ;
        col = col + widths[i] as u128;
        i = i + 1;
    }
    // The window starts inside the wide character before `start` when
    // `col` is past `offset`: its orphan columns become spaces.
    let gap: u128 = col - offset;
    let pad: usize = if gap < width as u128 { gap as usize } else { width };
    let mut out: Vec<(char, u32)> = Vec::new();
    let mut k: usize = 0;
    while k < pad
        invariant
            k <= pad,
            out@ == Seq::new(k as nat, |j: int| (' ', gap_tag)),
        decreases pad - k,
    {
        out.push((' ', gap_tag));
        assert(out@ =~= Seq::new((k + 1) as nat, |j: int| (' ', gap_tag)));
        k = k + 1;
    }
    let mut vis: Vec<usize> = Vec::new();
    let mut q: usize = 0;
    while q < cells.len()
        invariant
            q <= cells.len(),
            vis@.map_values(|x: usize| x as int) == visible_cells(cells@.take(q as int)),
            widths@.len() == cells@.len(),
            forall|k: int| 0 <= k < cells@.len() ==> widths@[k] == cols(#[trigger] cells@[k].0),
        decreases cells.len() - q,
    {
        assert(cells@.take(q + 1).drop_last() =~= cells@.take(q as int));
        assert(cells@.take(q + 1).last() == cells@[q as int]);
        if widths[q] > 0 {
            let ghost before = vis@.map_values(|x: usize| x as int);
            vis.push(q);
            assert(vis@.map_values(|x: usize| x as int) =~= before.push(q as int));
        }
        q = q + 1;
    }
    assert(cells@.take(cells@.len() as int) =~= cells@);
    let ghost vv = vis@.map_values(|x: usize| x as int);
    proof {
        lemma_visible_bounds(cells@);
    }
    let mut p: usize = 0;
    let mut first: usize = 0;
    while p < vis.len()
        invariant_except_break
            p <= vis.len(),
            vv == vis@.map_values(|x: usize| x as int),
            first_visible_from(vv, start as int, 0) == first_visible_from(vv, start as int, p as int),
            first == 0,
        ensures
            first == first_visible_from(vv, start as int, 0),
            vis.len() == 0 || first < vis.len(),
        decreases vis.len() - p,
    {
        if vis[p] >= start {
            first = p;
            break;
        }
        p = p + 1;
    }
    let m = vis.len();
    let mut budget: usize = width - pad;
    let mut at: usize = first;
    proof {
        assert(target == out@ + emit(cells@, vv, at as int, budget as int));
    }
    if m > 0 {
        while budget > 0
            invariant_except_break
                m == vis.len(),
                m > 0,
                at < m,
                vv == vis@.map_values(|x: usize| x as int),
                forall|j: int| 0 <= j < vv.len() ==> 0 <= #[trigger] vv[j] < cells@.len() && cols(cells@[vv[j]].0) > 0,
                widths@.len() == cells@.len(),
                forall|k: int| 0 <= k < cells@.len() ==> widths@[k] == cols(#[trigger] cells@[k].0),
                target == out@ + emit(cells@, vv, at as int, budget as int),
            ensures
                target == out@,
            decreases budget,
        {
            let idx = vis[at];
            assert(vv[at as int] == idx as int);
            let w = widths[idx];
            if w > budget {
                break;
            }
            let c = cells[idx];
            let ghost rest = emit(cells@, vv, (at + 1) % (m as int), budget - w);
            assert(emit(cells@, vv, at as int, budget as int) == seq![c] + rest);
            let ghost before = out@;
            out.push(c);
            assert(before + (seq![c] + rest) =~= out@ + rest);
            budget = budget - w;
            at = (at + 1) % m;
        }
    }
    gather_runs(&out)
}

proof fn lemma_cells_width_nonneg(s: Seq<(char, u32)>)
    ensures
        cells_width(s) >= 0,
    decreases s.len(),
{
    if s.len() > 0 {
        lemma_cells_width_nonneg(s.drop_last());
    }
}

/// The scrolling title repeats itself: one full cycle (the text's columns
/// plus the gap) later, the window shows the same runs.
pub proof fn lemma_marquee_cycle(parts: Seq<(Seq<char>, u32)>, gap_tag: u32, width: int, step: int)
    requires
        step >= 0,
    ensures
        spec_marquee(parts, gap_tag, width, step + cells_width(marquee_cells(parts, gap_tag)))
            == spec_marquee(parts, gap_tag, width, step),
{
    let total = cells_width(marquee_cells(parts, gap_tag));
    lemma_cells_width_nonneg(marquee_cells(parts, gap_tag));
    if total > 0 {
        lemma_fundamental_div_mod(step, total);
        let q = step / total;
        assert((q + 1) * total == q * total + total) by (nonlinear_arith);
        assert(total * q == q * total) by (nonlinear_arith);
        lemma_fundamental_div_mod_converse(step + total, total, q + 1, step % total);
    }
}

proof fn lemma_cells_width_concat(a: Seq<(char, u32)>, b: Seq<(char, u32)>)
    ensures
        cells_width(a + b) == cells_width(a) + cells_width(b),
    decreases b.len(),
{
    if b.len() == 0 {
        assert(a + b =~= a);
    } else {
        lemma_cells_width_concat(a, b.drop_last());
        assert((a + b).drop_last() =~= a + b.drop_last());
    }
}

/// The characters a window shows after its left padding never take more
/// columns than are left for them: a wide character that would overflow
/// ends the window instead.
pub proof fn lemma_emit_fits(cells: Seq<(char, u32)>, vis: Seq<int>, p: int, budget: int)
    requires
        budget >= 0,
    ensures
        cells_width(emit(cells, vis, p, budget)) <= budget,
    decreases budget,
{
    if budget <= 0 || vis.len() == 0 || p < 0 || p >= vis.len() {
        assert(cells_width(Seq::<(char, u32)>::empty()) == 0);
    } else {
        let c = cells[vis[p]];
        let w = cols(c.0);
        if w > budget || w <= 0 {
            assert(cells_width(Seq::<(char, u32)>::empty()) == 0);
        } else {
            let rest = emit(cells, vis, (p + 1) % (vis.len() as int), budget - w);
            lemma_emit_fits(cells, vis, (p + 1) % (vis.len() as int), budget - w);
            lemma_cells_width_concat(seq![c], rest);
            assert(seq![c].drop_last() =~= Seq::<(char, u32)>::empty());
            assert(cells_width(Seq::<(char, u32)>::empty()) == 0);
            assert(cells_width(seq![c]) == w);
            assert(emit(cells, vis, p, budget) == seq![c] + rest);
        }
    }
}

} // verus!
