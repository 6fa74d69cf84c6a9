//! The fixed matrix of precompiled pipeline objects: one pipeline per
//! (clip mode, blend mode) pair, built once at initialization and then
//! only read. The pipeline objects themselves are opaque here (the type
//! parameter `T`); this module proves which cell every draw state
//! selects and with which fixed-function parameters each cell is built.

use vstd::prelude::*;
use crate::draw_state::{Blend, Stencil, stencil_ref_of};
use crate::pso_state::{BlendState, ColorMask, StencilState, blend_state_for, color_mask_for, spec_blend_state, spec_color_mask, spec_stencil_state, stencil_state_for};

verus! {

/// The number of blend modes of one sub-table (four modes plus "none").
pub const BLEND_COUNT: usize = 5;

/// The number of clip modes (three stencil modes plus "none").
pub const CLIP_COUNT: usize = 4;

/// The total number of pipelines in one matrix.
pub const CELL_COUNT: usize = 20;

/// One pipeline per blend setting.
pub struct PsoBlend<T> {
    pub alpha: T,
    pub add: T,
    pub multiply: T,
    pub invert: T,
    pub none: T,
}

impl<T> PsoBlend<T> {
    /// The entry selected by a blend mode; absence selects `none`.
    pub open spec fn entry(self, blend: Option<Blend>) -> T {
        match blend {
            Some(Blend::Alpha) => self.alpha,
            Some(Blend::Add) => self.add,
            Some(Blend::Multiply) => self.multiply,
            Some(Blend::Invert) => self.invert,
            None => self.none,
        }
    }

    /// Whether `t` is one of the five stored entries.
    pub open spec fn contains(self, t: T) -> bool {
        t == self.alpha || t == self.add || t == self.multiply || t == self.invert || t == self.none
    }

    /// Selects the entry for a blend mode.
    pub fn blend(&self, blend: Option<Blend>) -> (r: &T)
        ensures
            *r == self.entry(blend),
    {
        match blend {
            Some(Blend::Alpha) => &self.alpha,
            Some(Blend::Add) => &self.add,
            Some(Blend::Multiply) => &self.multiply,
            Some(Blend::Invert) => &self.invert,
            None => &self.none,
        }
    }
}

/// One blend sub-table per clip setting.
pub struct PsoStencil<T> {
    pub none: PsoBlend<T>,
    pub clip: PsoBlend<T>,
    pub inside: PsoBlend<T>,
    pub outside: PsoBlend<T>,
}

impl<T> PsoStencil<T> {
    /// The sub-table selected by a clip mode; absence selects `none`.
    pub open spec fn sub_table(self, stencil: Option<Stencil>) -> PsoBlend<T> {
        match stencil {
            None => self.none,
            Some(Stencil::Clip(_)) => self.clip,
            Some(Stencil::Inside(_)) => self.inside,
            Some(Stencil::Outside(_)) => self.outside,
        }
    }

    /// The cell selected by a clip mode and a blend mode.
    pub open spec fn cell(self, stencil: Option<Stencil>, blend: Option<Blend>) -> T {
        self.sub_table(stencil).entry(blend)
    }

    /// Whether `t` is one of the twenty stored cells.
    pub open spec fn contains(self, t: T) -> bool {
        self.none.contains(t) || self.clip.contains(t) || self.inside.contains(t)
            || self.outside.contains(t)
    }

    /// Assembles a matrix from its twenty compiled cells, handed over
    /// in the flat build order of `pipeline_specs`: the cell of every
    /// (clip, blend) pair is the entry at that pair's `cell_index`.
    pub fn new(cells: Vec<T>) -> (r: PsoStencil<T>)
        requires
            cells@.len() == CELL_COUNT,
        ensures
            forall|s: Option<Stencil>, b: Option<Blend>| #[trigger]
                r.cell(s, b) == cells@[cell_index(s, b)],
    {
        let mut c = cells;
        let outside_none = c.pop().unwrap();
        let outside_invert = c.pop().unwrap();
        let outside_multiply = c.pop().unwrap();
        let outside_add = c.pop().unwrap();
        let outside_alpha = c.pop().unwrap();
        let inside_none = c.pop().unwrap();
        let inside_invert = c.pop().unwrap();
        let inside_multiply = c.pop().unwrap();
        let inside_add = c.pop().unwrap();
        let inside_alpha = c.pop().unwrap();
        let clip_none = c.pop().unwrap();
        let clip_invert = c.pop().unwrap();
        let clip_multiply = c.pop().unwrap();
        let clip_add = c.pop().unwrap();
        let clip_alpha = c.pop().unwrap();
        let none_none = c.pop().unwrap();
        let none_invert = c.pop().unwrap();
        let none_multiply = c.pop().unwrap();
        let none_add = c.pop().unwrap();
        let none_alpha = c.pop().unwrap();
        let r = PsoStencil {
            none: PsoBlend {
                alpha: none_alpha,
                add: none_add,
                multiply: none_multiply,
                invert: none_invert,
                none: none_none,
            },
            clip: PsoBlend {
                alpha: clip_alpha,
                add: clip_add,
                multiply: clip_multiply,
                invert: clip_invert,
                none: clip_none,
            },
            inside: PsoBlend {
                alpha: inside_alpha,
                add: inside_add,
                multiply: inside_multiply,
                invert: inside_invert,
                none: inside_none,
            },
            outside: PsoBlend {
                alpha: outside_alpha,
                add: outside_add,
                multiply: outside_multiply,
                invert: outside_invert,
                none: outside_none,
            },
        };
        proof {
            assert forall|s: Option<Stencil>, b: Option<Blend>| #[trigger]
                r.cell(s, b) == cells@[cell_index(s, b)] by {
                assert(0 <= cell_index(s, b) < CELL_COUNT);
            }
        }
        r
    }

    /// Selects the pipeline and the stencil reference value for a draw
    /// state: the cell of the (clip, blend) pair, and the reference
    /// value carried by the clip descriptor (0 when absent).
    pub fn stencil_blend(&self, stencil: Option<Stencil>, blend: Option<Blend>) -> (r: (&T, u8))
        ensures
            *r.0 == self.cell(stencil, blend),
            r.1 == stencil_ref_of(stencil),
    {
        match stencil {
            None => (self.none.blend(blend), 0),
            Some(Stencil::Clip(v)) => (self.clip.blend(blend), v),
            Some(Stencil::Inside(v)) => (self.inside.blend(blend), v),
            Some(Stencil::Outside(v)) => (self.outside.blend(blend), v),
        }
    }
}

/// The row a clip mode selects, in the order the matrix is built:
/// absent, clip, inside, outside.
pub open spec fn clip_index(stencil: Option<Stencil>) -> int {
    match stencil {
        None => 0,
        Some(Stencil::Clip(_)) => 1,
        Some(Stencil::Inside(_)) => 2,
        Some(Stencil::Outside(_)) => 3,
    }
}

/// The column a blend mode selects, in the order the matrix is built:
/// alpha, add, multiply, invert, absent.
pub open spec fn blend_index(blend: Option<Blend>) -> int {
    match blend {
        Some(Blend::Alpha) => 0,
        Some(Blend::Add) => 1,
        Some(Blend::Multiply) => 2,
        Some(Blend::Invert) => 3,
        None => 4,
    }
}

/// The position of a (clip, blend) cell in the flat build order.
pub open spec fn cell_index(stencil: Option<Stencil>, blend: Option<Blend>) -> int {
    clip_index(stencil) * BLEND_COUNT + blend_index(blend)
}

/// The fixed-function parameters one matrix cell is compiled with.
#[derive(Clone, Copy, Debug, PartialEq, Eq, Structural)]
pub struct PipelineSpec {
    /// The blend function of the cell.
    pub blend: BlendState,
    /// The stencil test of the cell.
    pub stencil: StencilState,
    /// The color write mask of the cell.
    pub mask: ColorMask,
}

/// The parameters of the cell a (clip, blend) pair selects: the blend
/// function of the blend mode, and the stencil test and color mask of
/// the clip mode. The reference value carried by a clip descriptor does
/// not enter; it is supplied per draw call.
pub open spec fn spec_cell_params(stencil: Option<Stencil>, blend: Option<Blend>) -> PipelineSpec {
    PipelineSpec {
        blend: spec_blend_state(blend),
        stencil: spec_stencil_state(stencil),
        mask: spec_color_mask(stencil),
    }
}

/// Builds the parameters of one matrix cell.
pub fn cell_params(stencil: Option<Stencil>, blend: Option<Blend>) -> (r: PipelineSpec)
    ensures
        r == spec_cell_params(stencil, blend),
{
    PipelineSpec {
        blend: blend_state_for(blend),
        stencil: stencil_state_for(stencil),
        mask: color_mask_for(stencil),
    }
}

/// The parameters of all twenty cells, in the flat build order: for
/// every clip mode and blend mode, the cell at `cell_index` holds
/// exactly the parameters of that pair. The compiled matrix is built by
/// compiling one pipeline per entry of this list, in order.
pub fn pipeline_specs() -> (r: Vec<PipelineSpec>)
    ensures
        r@.len() == CELL_COUNT,
        forall|s: Option<Stencil>, b: Option<Blend>|
            r@[cell_index(s, b)] == #[trigger] spec_cell_params(s, b),
{
    let mut r: Vec<PipelineSpec> = Vec::new();
    r.push(cell_params(None, Some(Blend::Alpha)));
    r.push(cell_params(None, Some(Blend::Add)));
    r.push(cell_params(None, Some(Blend::Multiply)));
    r.push(cell_params(None, Some(Blend::Invert)));
    r.push(cell_params(None, None));
    r.push(cell_params(Some(Stencil::Clip(0)), Some(Blend::Alpha)));
    r.push(cell_params(Some(Stencil::Clip(0)), Some(Blend::Add)));
    r.push(cell_params(Some(Stencil::Clip(0)), Some(Blend::Multiply)));
    r.push(cell_params(Some(Stencil::Clip(0)), Some(Blend::Invert)));
    r.push(cell_params(Some(Stencil::Clip(0)), None));
    r.push(cell_params(Some(Stencil::Inside(0)), Some(Blend::Alpha)));
    r.push(cell_params(Some(Stencil::Inside(0)), Some(Blend::Add)));
    r.push(cell_params(Some(Stencil::Inside(0)), Some(Blend::Multiply)));
    r.push(cell_params(Some(Stencil::Inside(0)), Some(Blend::Invert)));
    r.push(cell_params(Some(Stencil::Inside(0)), None));
    r.push(cell_params(Some(Stencil::Outside(0)), Some(Blend::Alpha)));
    r.push(cell_params(Some(Stencil::Outside(0)), Some(Blend::Add)));
    r.push(cell_params(Some(Stencil::Outside(0)), Some(Blend::Multiply)));
    r.push(cell_params(Some(Stencil::Outside(0)), Some(Blend::Invert)));
    r.push(cell_params(Some(Stencil::Outside(0)), None));
    proof {
        assert forall|s: Option<Stencil>, b: Option<Blend>|
            r@[cell_index(s, b)] == #[trigger] spec_cell_params(s, b) by {
            lemma_cell_params_by_index(r@, s, b);
        }
    }
    r
}

/// The twenty cell parameters, checked cell by cell: in a list laid out
/// in the flat build order, the entry of a (clip, blend) pair holds
/// exactly that pair's parameters.
proof fn lemma_cell_params_by_index(
    specs: Seq<PipelineSpec>,
    s: Option<Stencil>,
    b: Option<Blend>,
)
    requires
        specs.len() == CELL_COUNT,
        specs[0] == spec_cell_params(None, Some(Blend::Alpha)),
        specs[1] == spec_cell_params(None, Some(Blend::Add)),
        specs[2] == spec_cell_params(None, Some(Blend::Multiply)),
        specs[3] == spec_cell_params(None, Some(Blend::Invert)),
        specs[4] == spec_cell_params(None, None),
        specs[5] == spec_cell_params(Some(Stencil::Clip(0)), Some(Blend::Alpha)),
        specs[6] == spec_cell_params(Some(Stencil::Clip(0)), Some(Blend::Add)),
        specs[7] == spec_cell_params(Some(Stencil::Clip(0)), Some(Blend::Multiply)),
        specs[8] == spec_cell_params(Some(Stencil::Clip(0)), Some(Blend::Invert)),
        specs[9] == spec_cell_params(Some(Stencil::Clip(0)), None),
        specs[10] == spec_cell_params(Some(Stencil::Inside(0)), Some(Blend::Alpha)),
        specs[11] == spec_cell_params(Some(Stencil::Inside(0)), Some(Blend::Add)),
        specs[12] == spec_cell_params(Some(Stencil::Inside(0)), Some(Blend::Multiply)),
        specs[13] == spec_cell_params(Some(Stencil::Inside(0)), Some(Blend::Invert)),
        specs[14] == spec_cell_params(Some(Stencil::Inside(0)), None),
        specs[15] == spec_cell_params(Some(Stencil::Outside(0)), Some(Blend::Alpha)),
        specs[16] == spec_cell_params(Some(Stencil::Outside(0)), Some(Blend::Add)),
        specs[17] == spec_cell_params(Some(Stencil::Outside(0)), Some(Blend::Multiply)),
        specs[18] == spec_cell_params(Some(Stencil::Outside(0)), Some(Blend::Invert)),
        specs[19] == spec_cell_params(Some(Stencil::Outside(0)), None),
    ensures
        specs[cell_index(s, b)] == spec_cell_params(s, b),
{
}

/// Law: selection never leaves the matrix, and the returned stencil
/// reference is exactly the value carried by the clip descriptor, or 0
/// when no clip mode is given. This holds for every one of the twenty
/// (clip, blend) combinations.
pub proof fn lemma_select_in_matrix<T>(m: PsoStencil<T>, stencil: Option<Stencil>, blend: Option<Blend>)
    ensures
        m.contains(m.cell(stencil, blend)),
        stencil is None ==> stencil_ref_of(stencil) == 0,
        forall|v: u8| stencil == Some(Stencil::Clip(v)) ==> stencil_ref_of(stencil) == v,
        forall|v: u8| stencil == Some(Stencil::Inside(v)) ==> stencil_ref_of(stencil) == v,
        forall|v: u8| stencil == Some(Stencil::Outside(v)) ==> stencil_ref_of(stencil) == v,
{
}

/// Law: selection has no hidden state. The cell is a function of the
/// matrix and the two mode arguments alone, so repeated selection with
/// absent blend and clip modes always yields the same entry: the
/// default cell of the matrix.
pub proof fn lemma_select_default<T>(m: PsoStencil<T>)
    ensures
        m.cell(None, None) == m.none.none,
{
}

} // verus!
