//! The streaming merger from glyphs to decoration lines.
use vstd::prelude::*;

use crate::glyph::{approx_eq, close, offset_of, Glyph, GlyphStyle, Line, LineType};

verus! {

/// The run of glyphs that a generator is merging into one line.
#[derive(Debug, Clone, Copy, PartialEq, Eq, Structural)]
pub struct OngoingLine {
    /// The y coordinate of the line.
    pub y: i64,
    /// The x coordinate of the line's start.
    pub start_x: i64,
    /// The current x coordinate of the line's end.
    pub end_x: i64,
    /// The style of the line so far.
    pub style: GlyphStyle,
    /// The line y of the last glyph absorbed.
    pub last_line_y: i64,
    /// The font size of the last glyph absorbed.
    pub font_size: i64,
}

/// Whether the sums that placing `g` under a decoration of kind `ty` computes fit in 64 bits.
pub open spec fn glyph_fits(ty: LineType, g: Glyph) -> bool {
    &&& i64::MIN <= g.x + g.width <= i64::MAX
    &&& i64::MIN <= g.line_y + offset_of(ty, g.font_size as int) <= i64::MAX
}

/// Whether glyph `g` continues the open run `run`: same text line and font size
/// up to the tolerance, no step backwards, and the same style.
pub open spec fn extends(run: OngoingLine, g: Glyph) -> bool {
    &&& close(run.last_line_y as int, g.line_y as int)
    &&& run.end_x <= g.x
    &&& close(run.font_size as int, g.font_size as int)
    &&& run.style == g.style
}

/// The run that glyph `g` opens under a decoration of kind `ty`.
pub open spec fn run_of(ty: LineType, g: Glyph) -> OngoingLine {
    OngoingLine {
        y: (g.line_y + offset_of(ty, g.font_size as int)) as i64,
        start_x: g.x,
        end_x: (g.x + g.width) as i64,
        style: g.style,
        last_line_y: g.line_y,
        font_size: g.font_size,
    }
}

/// The run `run` after absorbing glyph `g`.
pub open spec fn extended(run: OngoingLine, g: Glyph) -> OngoingLine {
    OngoingLine {
        end_x: (g.x + g.width) as i64,
        last_line_y: g.line_y,
        font_size: g.font_size,
        ..run
    }
}

/// The line that a run stands for.
pub open spec fn line_of(run: OngoingLine) -> Line {
    Line { y: run.y, start_x: run.start_x, end_x: run.end_x, style: run.style }
}

/// The line that `run` becomes when glyph `g` starts a new run: on the same
/// text line it ends exactly where `g` begins. The text line is judged by the
/// line y of the run's last glyph, not by the decoration's own y.
pub open spec fn closed_before(run: OngoingLine, g: Glyph) -> Line {
    if close(run.last_line_y as int, g.line_y as int) {
        Line { end_x: g.x, ..line_of(run) }
    } else {
        line_of(run)
    }
}

/// The open run after feeding glyph `g` to a generator of kind `ty` whose open run is `run`.
pub open spec fn next_run(ty: LineType, run: Option<OngoingLine>, g: Glyph) -> Option<OngoingLine> {
    match run {
        Some(r) => if extends(r, g) {
            Some(extended(r, g))
        } else {
            Some(run_of(ty, g))
        },
        None => Some(run_of(ty, g)),
    }
}

/// What feeding glyph `g` to a generator whose open run is `run` emits.
pub open spec fn emitted(run: Option<OngoingLine>, g: Glyph) -> Option<Line> {
    match run {
        Some(r) => if extends(r, g) {
            None
        } else {
            Some(closed_before(r, g))
        },
        None => None,
    }
}

/// What flushing a generator whose open run is `run` emits.
pub open spec fn flushed(run: Option<OngoingLine>) -> Option<Line> {
    match run {
        Some(r) => Some(line_of(r)),
        None => None,
    }
}

impl vstd::std_specs::convert::FromSpecImpl<OngoingLine> for Line {
    open spec fn obeys_from_spec() -> bool {
        true
    }

    open spec fn from_spec(v: OngoingLine) -> Line {
        line_of(v)
    }
}

impl From<OngoingLine> for Line {
    fn from(line: OngoingLine) -> Line {
        Line { y: line.y, start_x: line.start_x, end_x: line.end_x, style: line.style }
    }
}

/// The generator for lines: merges a stream of glyphs into decoration lines.
#[derive(Debug)]
pub struct LineGenerator {
    /// The line we are currently creating, if any.
    ongoing_line: Option<OngoingLine>,
    /// The type of line we are creating.
    line_type: LineType,
}

impl LineGenerator {
    /// The kind of decoration this generator produces.
    pub closed spec fn kind(&self) -> LineType {
        self.line_type
    }

    /// The run being merged, if any.
    pub closed spec fn open_run(&self) -> Option<OngoingLine> {
        self.ongoing_line
    }

    /// Create a new, empty line generator.
    pub fn new(ty: LineType) -> (r: Self)
        ensures
            r.kind() == ty,
            r.open_run() is None,
    {
        LineGenerator { ongoing_line: None, line_type: ty }
    }

    /// Pop the current line out of the generator, leaving it empty.
    pub fn pop_line(&mut self) -> (r: Option<Line>)
        ensures
            r == flushed(old(self).open_run()),
            final(self).open_run() is None,
            final(self).kind() == old(self).kind(),
    {
        match self.ongoing_line.take() {
            Some(line) => Some(Line::from(line)),
            None => None,
        }
    }

    /// Add a new glyph to the generator.
    ///
    /// Returns the line of the run that the glyph closes, if it closes one.
    pub fn add_glyph(&mut self, glyph: Glyph) -> (r: Option<Line>)
        requires
            glyph_fits(old(self).kind(), glyph),
        ensures
            r == emitted(old(self).open_run(), glyph),
            final(self).open_run() == next_run(old(self).kind(), old(self).open_run(), glyph),
            final(self).kind() == old(self).kind(),
    {
        self.add_glyph_impl(glyph)
    }

    fn add_glyph_impl(&mut self, glyph: Glyph) -> (r: Option<Line>)
        requires
            glyph_fits(old(self).line_type, glyph),
        ensures
            r == emitted(old(self).ongoing_line, glyph),
            final(self).ongoing_line == next_run(old(self).line_type, old(self).ongoing_line, glyph),
            final(self).line_type == old(self).line_type,
    {
        // See if the glyph continues the current run.
        if let Some(line) = self.ongoing_line.as_mut() {
            if approx_eq(line.last_line_y, glyph.line_y) && line.end_x <= glyph.x
                && approx_eq(line.font_size, glyph.font_size) && line.style == glyph.style {
                line.end_x = glyph.x + glyph.width;
                line.last_line_y = glyph.line_y;
                line.font_size = glyph.font_size;
                return None;
            }
        }
        // Start a new run.
        let new_line = OngoingLine {
            y: glyph.line_y + self.line_type.offset(glyph.font_size),
            start_x: glyph.x,
            end_x: glyph.x + glyph.width,
            style: glyph.style,
            last_line_y: glyph.line_y,
            font_size: glyph.font_size,
        };
        let old_line = self.ongoing_line.take();
        self.ongoing_line = Some(new_line);
        match old_line {
            Some(old_run) => {
                let mut closed = Line::from(old_run);
                // End the old line where the new glyph begins if both are on one text line.
                if approx_eq(old_run.last_line_y, glyph.line_y) {
                    closed.end_x = glyph.x;
                }
                Some(closed)
            },
            None => None,
        }
    }
}

/// Whether glyph `g`, coming right after glyph `prev`, continues the run that `prev` is in.
pub open spec fn joins(prev: Glyph, g: Glyph) -> bool {
    &&& close(prev.line_y as int, g.line_y as int)
    &&& prev.x + prev.width <= g.x
    &&& close(prev.font_size as int, g.font_size as int)
    &&& prev.style == g.style
}

/// How many glyphs of `gs` do not continue the run of the glyph before them,
/// `prev` standing before the first.
pub open spec fn breaks_after(prev: Glyph, gs: Seq<Glyph>) -> nat
    decreases gs.len(),
{
    if gs.len() == 0 {
        0
    } else {
        (if joins(prev, gs[0]) {
            0nat
        } else {
            1nat
        }) + breaks_after(gs[0], gs.drop_first())
    }
}

/// The number of maximal runs in a stream of glyphs.
pub open spec fn run_count(gs: Seq<Glyph>) -> nat {
    if gs.len() == 0 {
        0
    } else {
        1 + breaks_after(gs[0], gs.drop_first())
    }
}

/// The lines, zero or one, held in an `Option`.
pub open spec fn lines_of(l: Option<Line>) -> Seq<Line> {
    match l {
        Some(line) => seq![line],
        None => seq![],
    }
}

/// Every line emitted by feeding `gs` in order to a generator of kind `ty` whose
/// open run is `run`, and then flushing it once.
pub open spec fn stream_lines(ty: LineType, run: Option<OngoingLine>, gs: Seq<Glyph>) -> Seq<Line>
    decreases gs.len(),
{
    if gs.len() == 0 {
        lines_of(flushed(run))
    } else {
        lines_of(emitted(run, gs[0])) + stream_lines(ty, next_run(ty, run, gs[0]), gs.drop_first())
    }
}

/// Flushing emits a line exactly when a run is open, and leaves nothing for
/// a second flush right after.
pub proof fn lemma_flush_idempotent(gen: LineGenerator)
    ensures
        flushed(gen.open_run()) is Some <==> gen.open_run() is Some,
        flushed(None) is None,
{
}

proof fn lemma_breaks_bounded(prev: Glyph, gs: Seq<Glyph>)
    ensures
        breaks_after(prev, gs) <= gs.len(),
    decreases gs.len(),
{
    if gs.len() > 0 {
        lemma_breaks_bounded(gs[0], gs.drop_first());
    }
}

proof fn lemma_stream_from_run(ty: LineType, r: OngoingLine, prev: Glyph, gs: Seq<Glyph>)
    requires
        forall|i: int| 0 <= i < gs.len() ==> glyph_fits(ty, #[trigger] gs[i]),
        glyph_fits(ty, prev),
        r.end_x == prev.x + prev.width,
        r.last_line_y == prev.line_y,
        r.font_size == prev.font_size,
        r.style == prev.style,
    ensures
        stream_lines(ty, Some(r), gs).len() == 1 + breaks_after(prev, gs),
    decreases gs.len(),
{
    if gs.len() > 0 {
        let g = gs[0];
        assert(glyph_fits(ty, gs[0]));
        let rest = gs.drop_first();
        assert forall|i: int| 0 <= i < rest.len() implies glyph_fits(ty, #[trigger] rest[i]) by {
            assert(rest[i] == gs[i + 1]);
        }
        let next = next_run(ty, Some(r), g);
        lemma_stream_from_run(ty, next.unwrap(), g, rest);
    }
}

/// Feeding a stream of glyphs to a new generator and flushing it once emits one
/// line per maximal run of the stream, and never more lines than glyphs.
pub proof fn lemma_one_line_per_run(ty: LineType, gs: Seq<Glyph>)
    requires
        forall|i: int| 0 <= i < gs.len() ==> glyph_fits(ty, #[trigger] gs[i]),
    ensures
        stream_lines(ty, None, gs).len() == run_count(gs),
        run_count(gs) <= gs.len(),
{
    if gs.len() > 0 {
        let g = gs[0];
        assert(glyph_fits(ty, gs[0]));
        let rest = gs.drop_first();
        assert forall|i: int| 0 <= i < rest.len() implies glyph_fits(ty, #[trigger] rest[i]) by {
            assert(rest[i] == gs[i + 1]);
        }
        lemma_stream_from_run(ty, run_of(ty, g), g, rest);
        lemma_breaks_bounded(g, rest);
    }
}

} // verus!
