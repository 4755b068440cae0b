//! The graphics state: the interpreter's working paint, path, font and text
//! configuration, plus its stack of saved snapshots.
//!
//! The state is an explicit value: saving clones every field into a snapshot,
//! restoring applies a snapshot by value.  The number of restores is never
//! assumed to match the number of saves; restoring with an empty snapshot
//! stack falls back to the default state, and the executor additionally
//! treats such a restore as a no-op.

use vstd::prelude::*;

use crate::canvas::{PathElem, Shader, ShaderV, clone_opt_bytes, clone_path, clone_shader,
    shader_view};
use crate::color::{Color, spec_black};
use crate::ops::{StrokeCap, StrokeJoin, TextAlign, TextBase};

verus! {

/// Stroke width and font size travel in quarter units: the stored integer is
/// four times the intended value.
pub const DEFAULT_STROKE_WIDTH_Q: u16 = 4;

/// The default font size, 20 units, in quarter units.
pub const DEFAULT_FONT_SIZE_Q: u16 = 80;

/// The default miter limit (an integer on the wire).
pub const DEFAULT_MITER_LIMIT: u16 = 4;

/// The mathematical value of one saved snapshot: every graphics-state field
/// except the stack itself.
pub struct SnapV {
    pub fill_color: Color,
    pub fill_shader: Option<ShaderV>,
    pub stroke_color: Color,
    pub stroke_shader: Option<ShaderV>,
    pub stroke_width: u16,
    pub stroke_cap: StrokeCap,
    pub stroke_join: StrokeJoin,
    pub stroke_miter_limit: u16,
    pub path: Option<Seq<PathElem>>,
    pub font_id: Option<Seq<u8>>,
    pub font_size: u16,
    pub text_align: TextAlign,
    pub text_base: TextBase,
}

/// The mathematical value of the full graphics state.
pub struct GfxV {
    pub fill_color: Color,
    pub fill_shader: Option<ShaderV>,
    pub stroke_color: Color,
    pub stroke_shader: Option<ShaderV>,
    pub stroke_width: u16,
    pub stroke_cap: StrokeCap,
    pub stroke_join: StrokeJoin,
    pub stroke_miter_limit: u16,
    pub path: Option<Seq<PathElem>>,
    pub font_id: Option<Seq<u8>>,
    pub font_size: u16,
    pub text_align: TextAlign,
    pub text_base: TextBase,
    pub stack: Seq<SnapV>,
}

/// The default snapshot: black fill and stroke, 1-unit stroke width, butt
/// cap, miter join, miter limit 4, no path, no font, left-aligned text on
/// the alphabetic baseline.
pub open spec fn default_snap() -> SnapV {
    SnapV {
        fill_color: spec_black(),
        fill_shader: None,
        stroke_color: spec_black(),
        stroke_shader: None,
        stroke_width: DEFAULT_STROKE_WIDTH_Q,
        stroke_cap: StrokeCap::Butt,
        stroke_join: StrokeJoin::Miter,
        stroke_miter_limit: DEFAULT_MITER_LIMIT,
        path: None,
        font_id: None,
        font_size: DEFAULT_FONT_SIZE_Q,
        text_align: TextAlign::Left,
        text_base: TextBase::Alphabetic,
    }
}

/// The fresh graphics state each redraw starts from: the default snapshot's
/// fields and an empty snapshot stack.
pub open spec fn default_gfx() -> GfxV {
    with_snap(default_snap(), Seq::empty())
}

/// The snapshot of a state's current fields.
pub open spec fn snap_of(g: GfxV) -> SnapV {
    SnapV {
        fill_color: g.fill_color,
        fill_shader: g.fill_shader,
        stroke_color: g.stroke_color,
        stroke_shader: g.stroke_shader,
        stroke_width: g.stroke_width,
        stroke_cap: g.stroke_cap,
        stroke_join: g.stroke_join,
        stroke_miter_limit: g.stroke_miter_limit,
        path: g.path,
        font_id: g.font_id,
        font_size: g.font_size,
        text_align: g.text_align,
        text_base: g.text_base,
    }
}

/// The state whose fields come from a snapshot and whose stack is given.
pub open spec fn with_snap(s: SnapV, stack: Seq<SnapV>) -> GfxV {
    GfxV {
        fill_color: s.fill_color,
        fill_shader: s.fill_shader,
        stroke_color: s.stroke_color,
        stroke_shader: s.stroke_shader,
        stroke_width: s.stroke_width,
        stroke_cap: s.stroke_cap,
        stroke_join: s.stroke_join,
        stroke_miter_limit: s.stroke_miter_limit,
        path: s.path,
        font_id: s.font_id,
        font_size: s.font_size,
        text_align: s.text_align,
        text_base: s.text_base,
        stack: stack,
    }
}

/// The in-progress path, or an empty one where none has been started.
pub open spec fn cur_path(g: GfxV) -> Seq<PathElem> {
    match g.path {
        Some(p) => p,
        None => Seq::empty(),
    }
}

/// Saving: push a snapshot of the current fields.
pub open spec fn gfx_push(g: GfxV) -> GfxV {
    GfxV { stack: g.stack.push(snap_of(g)), ..g }
}

/// Restoring: pop the newest snapshot and apply it; with an empty stack,
/// fall back to the default snapshot.
pub open spec fn gfx_pop(g: GfxV) -> GfxV {
    if g.stack.len() > 0 {
        with_snap(g.stack.last(), g.stack.drop_last())
    } else {
        with_snap(default_snap(), Seq::empty())
    }
}

/// Restore-and-save: apply the newest snapshot but leave it on the stack;
/// with an empty stack, apply and push the default snapshot.
pub open spec fn gfx_pop_push(g: GfxV) -> GfxV {
    if g.stack.len() > 0 {
        with_snap(g.stack.last(), g.stack)
    } else {
        with_snap(default_snap(), seq![default_snap()])
    }
}

/// Restoring undoes saving exactly.
pub proof fn lemma_pop_of_push(g: GfxV)
    ensures
        gfx_pop(gfx_push(g)) == g,
{
    assert(g.stack.push(snap_of(g)).drop_last() =~= g.stack);
}

/// One saved snapshot of the graphics state.
#[derive(Clone, Debug)]
pub struct DrawStateSnapshot {
    pub fill_color: Color,
    pub fill_shader: Option<Shader>,
    pub stroke_color: Color,
    pub stroke_shader: Option<Shader>,
    pub stroke_width: u16,
    pub stroke_cap: StrokeCap,
    pub stroke_join: StrokeJoin,
    pub stroke_miter_limit: u16,
    pub path: Option<Vec<PathElem>>,
    pub font_id: Option<Vec<u8>>,
    pub font_size: u16,
    pub text_align: TextAlign,
    pub text_base: TextBase,
}

impl View for DrawStateSnapshot {
    type V = SnapV;

    open spec fn view(&self) -> SnapV {
        SnapV {
            fill_color: self.fill_color,
            fill_shader: shader_view(self.fill_shader),
            stroke_color: self.stroke_color,
            stroke_shader: shader_view(self.stroke_shader),
            stroke_width: self.stroke_width,
            stroke_cap: self.stroke_cap,
            stroke_join: self.stroke_join,
            stroke_miter_limit: self.stroke_miter_limit,
            path: match self.path {
                Some(ref p) => Some(p@),
                None => None,
            },
            font_id: match self.font_id {
                Some(ref id) => Some(id@),
                None => None,
            },
            font_size: self.font_size,
            text_align: self.text_align,
            text_base: self.text_base,
        }
    }
}

impl Default for DrawStateSnapshot {
    /// The default snapshot's fields.
    fn default() -> (r: DrawStateSnapshot)
        ensures
            r@ == default_snap(),
    {
        DrawStateSnapshot {
            fill_color: Color::black(),
            fill_shader: None,
            stroke_color: Color::black(),
            stroke_shader: None,
            stroke_width: DEFAULT_STROKE_WIDTH_Q,
            stroke_cap: StrokeCap::Butt,
            stroke_join: StrokeJoin::Miter,
            stroke_miter_limit: DEFAULT_MITER_LIMIT,
            path: None,
            font_id: None,
            font_size: DEFAULT_FONT_SIZE_Q,
            text_align: TextAlign::Left,
            text_base: TextBase::Alphabetic,
        }
    }
}

/// The interpreter's working graphics state and its snapshot stack.
#[derive(Clone, Debug)]
pub struct DrawState {
    pub fill_color: Color,
    pub fill_shader: Option<Shader>,
    pub stroke_color: Color,
    pub stroke_shader: Option<Shader>,
    pub stroke_width: u16,
    pub stroke_cap: StrokeCap,
    pub stroke_join: StrokeJoin,
    pub stroke_miter_limit: u16,
    pub path: Option<Vec<PathElem>>,
    pub font_id: Option<Vec<u8>>,
    pub font_size: u16,
    pub text_align: TextAlign,
    pub text_base: TextBase,
    pub stack: Vec<DrawStateSnapshot>,
}

impl View for DrawState {
    type V = GfxV;

    open spec fn view(&self) -> GfxV {
        GfxV {
            fill_color: self.fill_color,
            fill_shader: shader_view(self.fill_shader),
            stroke_color: self.stroke_color,
            stroke_shader: shader_view(self.stroke_shader),
            stroke_width: self.stroke_width,
            stroke_cap: self.stroke_cap,
            stroke_join: self.stroke_join,
            stroke_miter_limit: self.stroke_miter_limit,
            path: match self.path {
                Some(ref p) => Some(p@),
                None => None,
            },
            font_id: match self.font_id {
                Some(ref id) => Some(id@),
                None => None,
            },
            font_size: self.font_size,
            text_align: self.text_align,
            text_base: self.text_base,
            stack: self.stack@.map_values(|s: DrawStateSnapshot| s@),
        }
    }
}

impl Default for DrawState {
    /// The fresh state each redraw starts from.
    fn default() -> (r: DrawState)
        ensures
            r@ == default_gfx(),
    {
        let r = DrawState {
            fill_color: Color::black(),
            fill_shader: None,
            stroke_color: Color::black(),
            stroke_shader: None,
            stroke_width: DEFAULT_STROKE_WIDTH_Q,
            stroke_cap: StrokeCap::Butt,
            stroke_join: StrokeJoin::Miter,
            stroke_miter_limit: DEFAULT_MITER_LIMIT,
            path: None,
            font_id: None,
            font_size: DEFAULT_FONT_SIZE_Q,
            text_align: TextAlign::Left,
            text_base: TextBase::Alphabetic,
            stack: Vec::new(),
        };
        proof {
            assert(r@.stack =~= default_gfx().stack);
        }
        r
    }
}

impl DrawState {
    /// A snapshot of the current fields, as saving stores it.
    fn snapshot(&self) -> (r: DrawStateSnapshot)
        ensures
            r@ == snap_of(self@),
    {
        DrawStateSnapshot {
            fill_color: self.fill_color,
            fill_shader: clone_shader(&self.fill_shader),
            stroke_color: self.stroke_color,
            stroke_shader: clone_shader(&self.stroke_shader),
            stroke_width: self.stroke_width,
            stroke_cap: self.stroke_cap,
            stroke_join: self.stroke_join,
            stroke_miter_limit: self.stroke_miter_limit,
            path: clone_path(&self.path),
            font_id: clone_opt_bytes(&self.font_id),
            font_size: self.font_size,
            text_align: self.text_align,
            text_base: self.text_base,
        }
    }

    /// Saves a snapshot of the full graphics state.
    pub fn push(&mut self)
        ensures
            final(self)@ == gfx_push(old(self)@),
    {
        let snap = self.snapshot();
        self.stack.push(snap);
        proof {
            assert(self@.stack =~= gfx_push(old(self)@).stack);
        }
    }

    /// Whether a saved snapshot is available to restore.
    pub fn can_pop(&self) -> (r: bool)
        ensures
            r == (self@.stack.len() > 0),
    {
        self.stack.len() > 0
    }

    /// Restores the newest snapshot, or the default state if none is saved.
    pub fn pop(&mut self)
        ensures
            final(self)@ == gfx_pop(old(self)@),
    {
        let snap = match self.stack.pop() {
            Some(snap) => snap,
            None => DrawStateSnapshot::default(),
        };
        self.apply_snapshot(&snap);
        proof {
            if old(self)@.stack.len() > 0 {
                assert(self@.stack =~= gfx_pop(old(self)@).stack);
            } else {
                assert(self@.stack =~= gfx_pop(old(self)@).stack);
            }
        }
    }

    /// Applies the newest snapshot but leaves the stack depth unchanged;
    /// with no saved snapshot, applies and saves the default state.
    pub fn pop_push(&mut self)
        ensures
            final(self)@ == gfx_pop_push(old(self)@),
    {
        match self.stack.pop() {
            Some(snap) => {
                self.apply_snapshot(&snap);
                self.stack.push(snap);
                proof {
                    assert forall|i: int| 0 <= i < self.stack@.len() implies self.stack@[i]
                        == old(self).stack@[i] by {}
                    assert(self.stack@ =~= old(self).stack@);
                    assert(self@.stack =~= gfx_pop_push(old(self)@).stack);
                }
            },
            None => {
                let snap = DrawStateSnapshot::default();
                self.apply_snapshot(&snap);
                self.stack.push(snap);
                proof {
                    assert(self@.stack =~= gfx_pop_push(old(self)@).stack);
                }
            },
        }
    }

    /// Overwrites every field from a snapshot, leaving the stack alone.
    fn apply_snapshot(&mut self, snapshot: &DrawStateSnapshot)
        ensures
            final(self)@ == with_snap(snapshot@, old(self)@.stack),
            final(self).stack == old(self).stack,
    {
        self.fill_color = snapshot.fill_color;
        self.fill_shader = clone_shader(&snapshot.fill_shader);
        self.stroke_color = snapshot.stroke_color;
        self.stroke_shader = clone_shader(&snapshot.stroke_shader);
        self.stroke_width = snapshot.stroke_width;
        self.stroke_cap = snapshot.stroke_cap;
        self.stroke_join = snapshot.stroke_join;
        self.stroke_miter_limit = snapshot.stroke_miter_limit;
        self.path = clone_path(&snapshot.path);
        self.font_id = clone_opt_bytes(&snapshot.font_id);
        self.font_size = snapshot.font_size;
        self.text_align = snapshot.text_align;
        self.text_base = snapshot.text_base;
    }
}

} // verus!
