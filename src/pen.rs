use vstd::prelude::*;

verus! {

/// A position on the drawing surface, in surface pixels.
#[derive(Clone, Copy, Debug, PartialEq, Eq, Structural)]
pub struct Point {
    pub x: i32,
    pub y: i32,
}

/// What one drawn segment is: a straight piece of a stroke, with its style.
pub struct SegmentView {
    pub from: Point,
    pub to: Point,
    pub color: Seq<char>,
    pub width: u32,
}

/// A straight piece of a stroke, rendered with round caps so that
/// consecutive segments join into one continuous line.
#[derive(Clone, Debug, PartialEq, Eq)]
pub struct Segment {
    pub from: Point,
    pub to: Point,
    pub color: String,
    pub width: u32,
}

impl View for Segment {
    type V = SegmentView;

    open spec fn view(&self) -> SegmentView {
        SegmentView { from: self.from, to: self.to, color: self.color@, width: self.width }
    }
}

/// The abstract drawing state: where the open path ends, if the pen is down,
/// and the style of the next stroke.
pub struct StateView {
    pub last: Option<Point>,
    pub color: Seq<char>,
    pub width: u32,
}

impl StateView {
    pub open spec fn pen_down(self) -> bool {
        self.last is Some
    }
}

/// The drawing state shared by all event handlers.
#[derive(Clone, Debug)]
pub struct DrawingState {
    last: Option<Point>,
    color: String,
    width: u32,
}

impl View for DrawingState {
    type V = StateView;

    closed spec fn view(&self) -> StateView {
        StateView { last: self.last, color: self.color@, width: self.width }
    }
}

impl DrawingState {
    /// A surface with the pen up and the given stroke style.
    pub fn new(color: String, width: u32) -> (r: DrawingState)
        ensures
            r@ == (StateView { last: None, color: color@, width }),
    {
        DrawingState { last: None, color, width }
    }
}


/// What happens on the surface, as the handlers see it.
pub enum Action {
    Down(Point),
    Move(Point),
    Up(Point),
    Color(Seq<char>),
    Width(u32),
}

/// An input event of the drawing surface.
#[derive(Clone, Debug)]
pub enum Event {
    PointerDown(Point),
    PointerMove(Point),
    PointerUp(Point),
    SelectColor(String),
    SelectWidth(u32),
}

impl View for Event {
    type V = Action;

    open spec fn view(&self) -> Action {
        match self {
            Event::PointerDown(p) => Action::Down(*p),
            Event::PointerMove(p) => Action::Move(*p),
            Event::PointerUp(p) => Action::Up(*p),
            Event::SelectColor(c) => Action::Color(c@),
            Event::SelectWidth(w) => Action::Width(*w),
        }
    }
}

/// The segment from `from` to `to` in the style of `s`.
pub open spec fn segment(from: Point, to: Point, s: StateView) -> SegmentView {
    SegmentView { from, to, color: s.color, width: s.width }
}

/// `s` with the pen at `last` (down there, or up for `None`).
pub open spec fn with_pen(s: StateView, last: Option<Point>) -> StateView {
    StateView { last, color: s.color, width: s.width }
}

/// One event: the next state, and the segment it draws, if any.
///
/// Down opens a path at the point. Move, with the pen down, draws from the end
/// of the open path to the point and continues the path from there. Up draws
/// the last segment the same way and lifts the pen. Move and Up with the pen
/// up change nothing and draw nothing. Selecting a color or a width changes the
/// style of what is drawn next.
pub open spec fn step(s: StateView, a: Action) -> (StateView, Option<SegmentView>) {
    match a {
        Action::Down(p) => (with_pen(s, Some(p)), None),
        Action::Move(p) => match s.last {
            Some(q) => (with_pen(s, Some(p)), Some(segment(q, p, s))),
            None => (s, None),
        },
        Action::Up(p) => match s.last {
            Some(q) => (with_pen(s, None), Some(segment(q, p, s))),
            None => (s, None),
        },
        Action::Color(c) => (StateView { last: s.last, color: c, width: s.width }, None),
        Action::Width(w) => (StateView { last: s.last, color: s.color, width: w }, None),
    }
}

/// The segments drawn by `d`, as a sequence of at most one.
pub open spec fn as_seq(d: Option<SegmentView>) -> Seq<SegmentView> {
    match d {
        Some(g) => seq![g],
        None => Seq::empty(),
    }
}

/// Every segment drawn, in order, when the events `acts` reach state `s`.
pub open spec fn run(s: StateView, acts: Seq<Action>) -> Seq<SegmentView>
    decreases acts.len(),
{
    if acts.len() == 0 {
        Seq::empty()
    } else {
        as_seq(step(s, acts[0]).1) + run(step(s, acts[0]).0, acts.drop_first())
    }
}

/// The state reached when the events `acts` reach state `s`.
pub open spec fn after(s: StateView, acts: Seq<Action>) -> StateView
    decreases acts.len(),
{
    if acts.len() == 0 {
        s
    } else {
        after(step(s, acts[0]).0, acts.drop_first())
    }
}

/// A pointer moving through the points `ps`, in order.
pub open spec fn moves(ps: Seq<Point>) -> Seq<Action> {
    ps.map_values(|p: Point| Action::Move(p))
}

/// The connected segments from `a` through each point of `ps` in turn, in
/// the given color and width.
pub open spec fn stroke(a: Point, ps: Seq<Point>, color: Seq<char>, width: u32) -> Seq<SegmentView>
    decreases ps.len(),
{
    if ps.len() == 0 {
        Seq::empty()
    } else {
        seq![SegmentView { from: a, to: ps[0], color, width }] + stroke(
            ps[0],
            ps.drop_first(),
            color,
            width,
        )
    }
}

/// The abstract value of what a handler returns.
pub open spec fn drawn(r: Option<Segment>) -> Option<SegmentView> {
    match r {
        Some(g) => Some(g@),
        None => None,
    }
}

/// Sets the color of the strokes drawn from now on.
pub fn set_color(state: &mut DrawingState, color: String)
    ensures
        final(state)@ == step(old(state)@, Action::Color(color@)).0,
{
    state.color = color;
}

/// Sets the width of the strokes drawn from now on.
pub fn set_size(state: &mut DrawingState, width: u32)
    ensures
        final(state)@ == step(old(state)@, Action::Width(width)).0,
{
    state.width = width;
}

impl DrawingState {
    /// Whether a stroke is in progress.
    pub fn pen_down(&self) -> (r: bool)
        ensures
            r == self@.pen_down(),
    {
        self.last.is_some()
    }

    fn segment_to(&self, from: Point, to: Point) -> (r: Segment)
        ensures
            r@ == segment(from, to, self@),
    {
        Segment { from, to, color: self.color.clone(), width: self.width }
    }

    /// Puts the pen down at `p`, opening a new path there.
    pub fn pointer_down(&mut self, p: Point)
        ensures
            final(self)@ == step(old(self)@, Action::Down(p)).0,
    {
        self.last = Some(p);
    }

    /// Extends the open path to `p`, returning the segment to draw; nothing
    /// happens while the pen is up.
    pub fn pointer_move(&mut self, p: Point) -> (r: Option<Segment>)
        ensures
            (final(self)@, drawn(r)) == step(old(self)@, Action::Move(p)),
    {
        match self.last {
            Some(q) => {
                let g = self.segment_to(q, p);
                self.last = Some(p);
                Some(g)
            },
            None => None,
        }
    }

    /// Finishes the stroke at `p`, returning its last segment, and lifts the
    /// pen; nothing happens while the pen is up.
    pub fn pointer_up(&mut self, p: Point) -> (r: Option<Segment>)
        ensures
            (final(self)@, drawn(r)) == step(old(self)@, Action::Up(p)),
    {
        match self.last {
            Some(q) => {
                let g = self.segment_to(q, p);
                self.last = None;
                Some(g)
            },
            None => None,
        }
    }

    /// Applies one event, returning the segment that it draws, if any.
    pub fn handle(&mut self, e: Event) -> (r: Option<Segment>)
        ensures
            (final(self)@, drawn(r)) == step(old(self)@, e@),
    {
        match e {
            Event::PointerDown(p) => {
                self.pointer_down(p);
                None
            },
            Event::PointerMove(p) => self.pointer_move(p),
            Event::PointerUp(p) => self.pointer_up(p),
            Event::SelectColor(c) => {
                set_color(self, c);
                None
            },
            Event::SelectWidth(w) => {
                set_size(self, w);
                None
            },
        }
    }
}

} // verus!
