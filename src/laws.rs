use vstd::prelude::*;

use crate::pen::{after, as_seq, moves, run, segment, step, stroke, with_pen, Action, Point, StateView};

verus! {

proof fn lemma_color_kept(s: StateView, acts: Seq<Action>)
    requires
        forall|i: int| 0 <= i < acts.len() ==> !(acts[i] is Color),
    ensures
        forall|i: int| 0 <= i < run(s, acts).len() ==> #[trigger] run(s, acts)[i].color == s.color,
    decreases acts.len(),
{
    if acts.len() > 0 {
        let t = step(s, acts[0]).0;
        let rest = acts.drop_first();
        assert forall|i: int| 0 <= i < rest.len() implies !(rest[i] is Color) by {
            assert(rest[i] == acts[i + 1]);
        }
        lemma_color_kept(t, rest);
        let h = as_seq(step(s, acts[0]).1);
        let r = run(s, acts);
        assert(r == h + run(t, rest));
        assert forall|i: int| 0 <= i < r.len() implies #[trigger] r[i].color == s.color by {
            if i >= h.len() {
                assert(r[i] == run(t, rest)[i - h.len()]);
            }
        }
    }
}

/// Once a color is selected, every segment drawn before the next color
/// selection has that color.
pub proof fn lemma_selected_color_used(s: StateView, c: Seq<char>, acts: Seq<Action>)
    requires
        forall|i: int| 0 <= i < acts.len() ==> !(acts[i] is Color),
    ensures
        forall|i: int|
            0 <= i < run(step(s, Action::Color(c)).0, acts).len() ==> #[trigger] run(
                step(s, Action::Color(c)).0,
                acts,
            )[i].color == c,
{
    lemma_color_kept(step(s, Action::Color(c)).0, acts);
}

proof fn lemma_width_kept(s: StateView, acts: Seq<Action>)
    requires
        forall|i: int| 0 <= i < acts.len() ==> !(acts[i] is Width),
    ensures
        forall|i: int| 0 <= i < run(s, acts).len() ==> #[trigger] run(s, acts)[i].width == s.width,
    decreases acts.len(),
{
    if acts.len() > 0 {
        let t = step(s, acts[0]).0;
        let rest = acts.drop_first();
        assert forall|i: int| 0 <= i < rest.len() implies !(rest[i] is Width) by {
            assert(rest[i] == acts[i + 1]);
        }
        lemma_width_kept(t, rest);
        let h = as_seq(step(s, acts[0]).1);
        let r = run(s, acts);
        assert(r == h + run(t, rest));
        assert forall|i: int| 0 <= i < r.len() implies #[trigger] r[i].width == s.width by {
            if i >= h.len() {
                assert(r[i] == run(t, rest)[i - h.len()]);
            }
        }
    }
}

/// Once a width is selected, every segment drawn before the next width
/// selection has that width.
pub proof fn lemma_selected_width_used(s: StateView, w: u32, acts: Seq<Action>)
    requires
        forall|i: int| 0 <= i < acts.len() ==> !(acts[i] is Width),
    ensures
        forall|i: int|
            0 <= i < run(step(s, Action::Width(w)).0, acts).len() ==> #[trigger] run(
                step(s, Action::Width(w)).0,
                acts,
            )[i].width == w,
{
    lemma_width_kept(step(s, Action::Width(w)).0, acts);
}

} // verus!

verus! {

proof fn lemma_stroke_shape(a: Point, ps: Seq<Point>, color: Seq<char>, width: u32)
    ensures
        stroke(a, ps, color, width).len() == ps.len(),
        ps.len() > 0 ==> stroke(a, ps, color, width)[0].from == a,
        forall|i: int|
            0 <= i < ps.len() ==> {
                let g = #[trigger] stroke(a, ps, color, width)[i];
                &&& g.to == ps[i]
                &&& g.color == color
                &&& g.width == width
                &&& i > 0 ==> g.from == ps[i - 1]
            },
    decreases ps.len(),
{
    if ps.len() > 0 {
        let rest = ps.drop_first();
        lemma_stroke_shape(ps[0], rest, color, width);
        let r = stroke(a, ps, color, width);
        let t = stroke(ps[0], rest, color, width);
        assert forall|i: int| 1 <= i < ps.len() implies r[i] == t[i - 1] && ps[i] == rest[i - 1] by {}
    }
}

proof fn lemma_open_path_to_up(s: StateView, ms: Seq<Point>, c: Point)
    requires
        s.pen_down(),
    ensures
        run(s, moves(ms).push(Action::Up(c))) == stroke(s.last->0, ms.push(c), s.color, s.width),
        after(s, moves(ms).push(Action::Up(c))) == with_pen(s, None),
    decreases ms.len(),
{
    let q = s.last->0;
    let acts = moves(ms).push(Action::Up(c));
    if ms.len() == 0 {
        assert(acts.drop_first() =~= Seq::<Action>::empty());
        assert(ms.push(c).drop_first() =~= Seq::<Point>::empty());
        assert(run(with_pen(s, None), acts.drop_first()) == Seq::<crate::pen::SegmentView>::empty());
        assert(stroke(c, ms.push(c).drop_first(), s.color, s.width) == Seq::<
            crate::pen::SegmentView,
        >::empty());
        assert(run(s, acts) =~= stroke(q, ms.push(c), s.color, s.width));
        assert(after(with_pen(s, None), acts.drop_first()) == with_pen(s, None));
    } else {
        let t = with_pen(s, Some(ms[0]));
        let rest = ms.drop_first();
        assert(acts[0] == Action::Move(ms[0]));
        assert(acts.drop_first() =~= moves(rest).push(Action::Up(c)));
        assert(ms.push(c).drop_first() =~= rest.push(c));
        lemma_open_path_to_up(t, rest, c);
        assert(step(s, acts[0]).1 == Some(segment(q, ms[0], s)));
        assert(run(s, acts) =~= stroke(q, ms.push(c), s.color, s.width));
        assert(with_pen(t, None) == with_pen(s, None));
    }
}

/// A pointer that goes down at `a`, moves through the points `ms` and goes up
/// at `c` draws exactly one continuous stroke: one segment from `a` to the
/// first point, one from each point to the next, one from the last to `c`,
/// all in the current style. The pen is up afterwards and the style unchanged.
pub proof fn lemma_one_continuous_stroke(s: StateView, a: Point, ms: Seq<Point>, c: Point)
    ensures
        ({
            let acts = seq![Action::Down(a)] + moves(ms).push(Action::Up(c));
            let r = run(s, acts);
            &&& r == stroke(a, ms.push(c), s.color, s.width)
            &&& r.len() == ms.len() + 1
            &&& r[0].from == a
            &&& forall|i: int|
                0 <= i < ms.len() ==> r[i].to == #[trigger] ms[i] && r[i + 1].from == ms[i]
            &&& r[ms.len() as int].to == c
            &&& forall|i: int|
                0 <= i < r.len() ==> #[trigger] r[i].color == s.color && r[i].width == s.width
            &&& after(s, acts) == with_pen(s, None)
        }),
{
    let acts = seq![Action::Down(a)] + moves(ms).push(Action::Up(c));
    let t = with_pen(s, Some(a));
    assert(acts[0] == Action::Down(a));
    assert(acts.drop_first() =~= moves(ms).push(Action::Up(c)));
    lemma_open_path_to_up(t, ms, c);
    assert(run(s, acts) == Seq::<crate::pen::SegmentView>::empty() + run(t, acts.drop_first()));
    assert(run(s, acts) =~= run(t, acts.drop_first()));
    lemma_stroke_shape(a, ms.push(c), s.color, s.width);
    let r = run(s, acts);
    assert forall|i: int| 0 <= i < ms.len() implies r[i].to == #[trigger] ms[i] && r[i + 1].from
        == ms[i] by {
        assert(ms.push(c)[i] == ms[i]);
    }
    assert(ms.push(c)[ms.len() as int] == c);
}

/// While the pen is up (before any pointer down, or after a pointer up),
/// pointer moves draw nothing and change nothing.
pub proof fn lemma_moves_with_pen_up(s: StateView, ms: Seq<Point>)
    requires
        !s.pen_down(),
    ensures
        run(s, moves(ms)) == Seq::<crate::pen::SegmentView>::empty(),
        after(s, moves(ms)) == s,
    decreases ms.len(),
{
    if ms.len() > 0 {
        let acts = moves(ms);
        assert(acts[0] == Action::Move(ms[0]));
        assert(acts.drop_first() =~= moves(ms.drop_first()));
        lemma_moves_with_pen_up(s, ms.drop_first());
        assert(run(s, acts) =~= Seq::<crate::pen::SegmentView>::empty());
    }
}

/// Once the pointer goes up, the moves that follow draw nothing: all that is
/// drawn is the segment that finishes the stroke, if one was in progress.
pub proof fn lemma_no_stroke_after_up(s: StateView, p: Point, ms: Seq<Point>)
    ensures
        run(s, seq![Action::Up(p)] + moves(ms)) == as_seq(step(s, Action::Up(p)).1),
{
    let acts = seq![Action::Up(p)] + moves(ms);
    let t = step(s, Action::Up(p)).0;
    assert(acts[0] == Action::Up(p));
    assert(acts.drop_first() =~= moves(ms));
    lemma_moves_with_pen_up(t, ms);
    assert(run(s, acts) =~= as_seq(step(s, Action::Up(p)).1));
}

} // verus!
