//! The glyph pipeline's state: its grid, its image size, its tunable
//! parameters, and whether its resources are bound.
//!
//! The pipeline runs three passes over the rendered image. The first marks
//! edges, the second gives each edge a direction, the third picks one glyph
//! and one colour for each cell of the grid. Each pass reads what the one
//! before it wrote, so the three are only ever recorded together and in
//! order.

use vstd::prelude::*;

verus! {

/// The edge of a workgroup of the two passes that run on pixels.
pub const PIXEL_WORKGROUP: u32 = 16;

/// The number of bytes of one packed cell.
pub const CELL_BYTES: u32 = 4;

/// The tunable parameters. Thresholds and factors are held in hundredths.
#[derive(Clone, Copy, Debug, PartialEq, Eq, Structural)]
pub struct Tuning {
    /// The depth step that counts as an edge, in hundredths.
    pub depth_threshold: u32,
    /// The turn of the surface that counts as an edge, in hundredths.
    pub normal_threshold: u32,
    /// The difference of Gaussians that counts as an edge, in hundredths.
    pub dog_threshold: u32,
    /// Whether depth steps make edges.
    pub use_depth: bool,
    /// Whether turns of the surface make edges.
    pub use_normals: bool,
    /// Whether differences of Gaussians make edges.
    pub use_dog: bool,
    /// How many edge pixels a tile needs to get an edge glyph.
    pub edge_vote_threshold: u32,
    /// The factor on a tile's mean luminance, in hundredths.
    pub exposure: u32,
    /// The exponent of the attenuation curve, in hundredths.
    pub gamma: u32,
}

/// The parameters that a new pipeline starts with: every edge signal on.
pub open spec fn default_tuning() -> Tuning {
    Tuning {
        depth_threshold: 8,
        normal_threshold: 80,
        dog_threshold: 8,
        use_depth: true,
        use_normals: true,
        use_dog: true,
        edge_vote_threshold: 3,
        exposure: 150,
        gamma: 80,
    }
}

/// What the pipeline has been told, as contracts see it.
#[derive(Clone, Copy, Debug, PartialEq, Eq, Structural)]
pub struct PipelineState {
    /// The grid's width in cells.
    pub cols: u32,
    /// The grid's height in cells.
    pub rows: u32,
    /// The width in pixels of the image and of both intermediate images.
    pub tex_width: u32,
    /// Their height in pixels.
    pub tex_height: u32,
    /// Whether the resource sets are bound to the present images.
    pub bound: bool,
    /// The tunable parameters.
    pub tuning: Tuning,
}

/// What a change of size asks of the device.
#[derive(Clone, Copy, Debug, PartialEq, Eq, Structural)]
pub struct ResizePlan {
    /// Allocate both intermediate images anew.
    pub images: bool,
    /// Allocate the output and staging buffers anew.
    pub buffers: bool,
    /// Drop all three resource sets.
    pub unbind: bool,
}

/// One of the three passes.
#[derive(Clone, Copy, Debug, PartialEq, Eq, Structural)]
pub enum Stage {
    /// Edge detection, one invocation for each pixel.
    Edges,
    /// Direction classification, one invocation for each pixel.
    Directions,
    /// Glyph selection, one invocation for each cell.
    Glyphs,
}

/// One recorded pass and the number of workgroups it runs, across and down.
#[derive(Clone, Copy, Debug, PartialEq, Eq, Structural)]
pub struct ComputePass {
    pub stage: Stage,
    pub groups_x: u32,
    pub groups_y: u32,
}

/// The parameters of the edge pass as the device gets them.
#[derive(Clone, Copy, Debug, PartialEq, Eq, Structural)]
pub struct EdgeParams {
    pub width: u32,
    pub height: u32,
    pub depth_threshold: u32,
    pub normal_threshold: u32,
    pub dog_threshold: u32,
    pub use_depth: u32,
    pub use_normals: u32,
    pub use_dog: u32,
}

/// The parameters of the direction pass as the device gets them.
#[derive(Clone, Copy, Debug, PartialEq, Eq, Structural)]
pub struct DirectionParams {
    pub width: u32,
    pub height: u32,
}

/// The parameters of the glyph pass as the device gets them.
#[derive(Clone, Copy, Debug, PartialEq, Eq, Structural)]
pub struct GlyphParams {
    pub tex_width: u32,
    pub tex_height: u32,
    pub cols: u32,
    pub rows: u32,
    pub edge_threshold: u32,
    pub exposure: u32,
    pub gamma: u32,
}

/// The parameters of all three passes.
#[derive(Clone, Copy, Debug, PartialEq, Eq, Structural)]
pub struct PassParams {
    pub edges: EdgeParams,
    pub directions: DirectionParams,
    pub glyphs: GlyphParams,
}

/// A switch as the device gets it: one for on, zero for off.
pub open spec fn flag(on: bool) -> u32 {
    if on {
        1
    } else {
        0
    }
}

/// How many workgroups cover so many pixels: the pixels divided by the
/// workgroup's edge, rounded up.
pub open spec fn pixel_groups(pixels: u32) -> int {
    (pixels + PIXEL_WORKGROUP - 1) / (PIXEL_WORKGROUP as int)
}

/// The size in bytes of the output buffer, and of the staging buffer, for a
/// grid.
pub open spec fn grid_bytes(cols: u32, rows: u32) -> int {
    cols * rows * CELL_BYTES
}

impl PipelineState {
    /// The state after a request for the given sizes: the sizes are taken
    /// over, the parameters stay, and the resource sets stay bound only
    /// where nothing changed.
    pub open spec fn resized(self, cols: u32, rows: u32, tex_width: u32, tex_height: u32) -> Self {
        PipelineState {
            cols,
            rows,
            tex_width,
            tex_height,
            bound: self.bound && !self.resize_plan(cols, rows, tex_width, tex_height).unbind,
            tuning: self.tuning,
        }
    }

    /// What a request for the given sizes asks of the device: new images
    /// where the image size changes, new buffers where the grid changes, and
    /// unbinding where either does.
    pub open spec fn resize_plan(self, cols: u32, rows: u32, tex_width: u32, tex_height: u32)
        -> ResizePlan {
        let images = tex_width != self.tex_width || tex_height != self.tex_height;
        let buffers = cols != self.cols || rows != self.rows;
        ResizePlan { images, buffers, unbind: images || buffers }
    }

    /// The parameters that binding hands to the three passes.
    pub open spec fn pass_params(self) -> PassParams {
        PassParams {
            edges: EdgeParams {
                width: self.tex_width,
                height: self.tex_height,
                depth_threshold: self.tuning.depth_threshold,
                normal_threshold: self.tuning.normal_threshold,
                dog_threshold: self.tuning.dog_threshold,
                use_depth: flag(self.tuning.use_depth),
                use_normals: flag(self.tuning.use_normals),
                use_dog: flag(self.tuning.use_dog),
            },
            directions: DirectionParams { width: self.tex_width, height: self.tex_height },
            glyphs: GlyphParams {
                tex_width: self.tex_width,
                tex_height: self.tex_height,
                cols: self.cols,
                rows: self.rows,
                edge_threshold: self.tuning.edge_vote_threshold,
                exposure: self.tuning.exposure,
                gamma: self.tuning.gamma,
            },
        }
    }

    /// The three passes in the order in which they are recorded.
    pub open spec fn passes(self) -> Seq<ComputePass> {
        seq![
            ComputePass {
                stage: Stage::Edges,
                groups_x: pixel_groups(self.tex_width) as u32,
                groups_y: pixel_groups(self.tex_height) as u32,
            },
            ComputePass {
                stage: Stage::Directions,
                groups_x: pixel_groups(self.tex_width) as u32,
                groups_y: pixel_groups(self.tex_height) as u32,
            },
            ComputePass { stage: Stage::Glyphs, groups_x: self.cols, groups_y: self.rows },
        ]
    }
}

/// The glyph pipeline's bookkeeping.
#[derive(Debug)]
pub struct AsciiPipeline {
    cols: u32,
    rows: u32,
    tex_width: u32,
    tex_height: u32,
    bound: bool,
    tuning: Tuning,
}

impl View for AsciiPipeline {
    type V = PipelineState;

    closed spec fn view(&self) -> PipelineState {
        PipelineState {
            cols: self.cols,
            rows: self.rows,
            tex_width: self.tex_width,
            tex_height: self.tex_height,
            bound: self.bound,
            tuning: self.tuning,
        }
    }
}

/// The workgroups that cover so many pixels.
fn groups_for(pixels: u32) -> (groups: u32)
    ensures
        groups == pixel_groups(pixels),
{
    if pixels % PIXEL_WORKGROUP == 0 {
        pixels / PIXEL_WORKGROUP
    } else {
        pixels / PIXEL_WORKGROUP + 1
    }
}

impl AsciiPipeline {
    /// A pipeline for a grid of `cols` by `rows` cells over an image of
    /// `tex_width` by `tex_height` pixels. It starts unbound and with the
    /// default parameters.
    pub fn new(cols: u32, rows: u32, tex_width: u32, tex_height: u32) -> (pipeline: Self)
        ensures
            pipeline@ == (PipelineState {
                cols,
                rows,
                tex_width,
                tex_height,
                bound: false,
                tuning: default_tuning(),
            }),
    {
        AsciiPipeline {
            cols,
            rows,
            tex_width,
            tex_height,
            bound: false,
            tuning: Tuning {
                depth_threshold: 8,
                normal_threshold: 80,
                dog_threshold: 8,
                use_depth: true,
                use_normals: true,
                use_dog: true,
                edge_vote_threshold: 3,
                exposure: 150,
                gamma: 80,
            },
        }
    }

    /// Whether the resource sets are bound to the present images, so that
    /// the passes may be recorded.
    pub fn is_bound(&self) -> (bound: bool)
        ensures
            bound == self@.bound,
    {
        self.bound
    }

    /// The tunable parameters.
    pub fn tuning(&self) -> (tuning: Tuning)
        ensures
            tuning == self@.tuning,
    {
        self.tuning
    }

    /// Replaces the tunable parameters. They reach the device with the next
    /// binding; until then the pipeline counts as unbound.
    pub fn set_tuning(&mut self, tuning: Tuning)
        ensures
            final(self)@ == (PipelineState { tuning, bound: false, ..old(self)@ }),
    {
        self.tuning = tuning;
        self.bound = false;
    }

    /// Sets the grid and the image size, and says what has to be allocated
    /// anew. With every size unchanged nothing changes and nothing is asked.
    /// The parameters are kept in any case.
    pub fn resize(&mut self, cols: u32, rows: u32, tex_width: u32, tex_height: u32) -> (plan:
        ResizePlan)
        ensures
            plan == old(self)@.resize_plan(cols, rows, tex_width, tex_height),
            final(self)@ == old(self)@.resized(cols, rows, tex_width, tex_height),
    {
        let size_changed = tex_width != self.tex_width || tex_height != self.tex_height;
        let cols_changed = cols != self.cols || rows != self.rows;
        if size_changed {
            self.tex_width = tex_width;
            self.tex_height = tex_height;
        }
        if cols_changed {
            self.cols = cols;
            self.rows = rows;
        }
        if size_changed || cols_changed {
            self.bound = false;
        }
        ResizePlan { images: size_changed, buffers: cols_changed, unbind: size_changed || cols_changed }
    }

    /// Binds the resource sets to the present colour and depth images, and
    /// gives the parameters to write for the three passes.
    pub fn update_bind_groups(&mut self) -> (params: PassParams)
        ensures
            params == old(self)@.pass_params(),
            final(self)@ == (PipelineState { bound: true, ..old(self)@ }),
    {
        self.bound = true;
        PassParams {
            edges: EdgeParams {
                width: self.tex_width,
                height: self.tex_height,
                depth_threshold: self.tuning.depth_threshold,
                normal_threshold: self.tuning.normal_threshold,
                dog_threshold: self.tuning.dog_threshold,
                use_depth: if self.tuning.use_depth { 1 } else { 0 },
                use_normals: if self.tuning.use_normals { 1 } else { 0 },
                use_dog: if self.tuning.use_dog { 1 } else { 0 },
            },
            directions: DirectionParams { width: self.tex_width, height: self.tex_height },
            glyphs: GlyphParams {
                tex_width: self.tex_width,
                tex_height: self.tex_height,
                cols: self.cols,
                rows: self.rows,
                edge_threshold: self.tuning.edge_vote_threshold,
                exposure: self.tuning.exposure,
                gamma: self.tuning.gamma,
            },
        }
    }

    /// The three passes to record, in order: edges and directions on the
    /// pixel grid, glyphs on the cell grid. The pipeline has to be bound.
    pub fn dispatch(&self) -> (passes: [ComputePass; 3])
        requires
            self@.bound,
        ensures
            passes@ == self@.passes(),
    {
        let pixel_wg_x = groups_for(self.tex_width);
        let pixel_wg_y = groups_for(self.tex_height);
        [
            ComputePass { stage: Stage::Edges, groups_x: pixel_wg_x, groups_y: pixel_wg_y },
            ComputePass { stage: Stage::Directions, groups_x: pixel_wg_x, groups_y: pixel_wg_y },
            ComputePass { stage: Stage::Glyphs, groups_x: self.cols, groups_y: self.rows },
        ]
    }

    /// The number of bytes to copy from the output buffer to the staging
    /// buffer, which is the size of either.
    pub fn copy_to_staging(&self) -> (bytes: u128)
        ensures
            bytes == grid_bytes(self@.cols, self@.rows),
    {
        let cols = self.cols as u128;
        let rows = self.rows as u128;
        assert(cols * rows <= 0xFFFF_FFFE_0000_0001) by (nonlinear_arith)
            requires
                0 <= cols <= 0xFFFF_FFFF,
                0 <= rows <= 0xFFFF_FFFF,
        ;
        let cells = cols * rows;
        assert(cells * CELL_BYTES <= 4 * 0xFFFF_FFFE_0000_0001);
        cells * (CELL_BYTES as u128)
    }

    /// The grid's width in cells.
    pub fn cols(&self) -> (cols: u32)
        ensures
            cols == self@.cols,
    {
        self.cols
    }

    /// The grid's height in cells.
    pub fn rows(&self) -> (rows: u32)
        ensures
            rows == self@.rows,
    {
        self.rows
    }
}

/// A request for the sizes that the pipeline already has changes nothing
/// and asks nothing: no image, no buffer and no binding is touched.
pub proof fn lemma_resize_unchanged(state: PipelineState)
    ensures
        state.resized(state.cols, state.rows, state.tex_width, state.tex_height) == state,
        state.resize_plan(state.cols, state.rows, state.tex_width, state.tex_height) == (ResizePlan {
            images: false,
            buffers: false,
            unbind: false,
        }),
{
}

/// A request that changes the image size alone leaves the buffers as they
/// are, at the size they had; it allocates the images anew and unbinds.
pub proof fn lemma_resize_image_only(state: PipelineState, tex_width: u32, tex_height: u32)
    requires
        tex_width != state.tex_width || tex_height != state.tex_height,
    ensures
        ({
            let plan = state.resize_plan(state.cols, state.rows, tex_width, tex_height);
            let after = state.resized(state.cols, state.rows, tex_width, tex_height);
            &&& plan == (ResizePlan { images: true, buffers: false, unbind: true })
            &&& grid_bytes(after.cols, after.rows) == grid_bytes(state.cols, state.rows)
            &&& !after.bound
        }),
{
}

/// A request that changes the grid alone leaves the intermediate images as
/// they are, at the size they had; it allocates the buffers anew and
/// unbinds.
pub proof fn lemma_resize_grid_only(state: PipelineState, cols: u32, rows: u32)
    requires
        cols != state.cols || rows != state.rows,
    ensures
        ({
            let plan = state.resize_plan(cols, rows, state.tex_width, state.tex_height);
            let after = state.resized(cols, rows, state.tex_width, state.tex_height);
            &&& plan == (ResizePlan { images: false, buffers: true, unbind: true })
            &&& after.tex_width == state.tex_width
            &&& after.tex_height == state.tex_height
            &&& !after.bound
        }),
{
}

/// No request for a size touches the tunable parameters.
pub proof fn lemma_resize_keeps_tuning(
    state: PipelineState,
    cols: u32,
    rows: u32,
    tex_width: u32,
    tex_height: u32,
)
    ensures
        state.resized(cols, rows, tex_width, tex_height).tuning == state.tuning,
{
}

/// The passes come in the order edges, directions, glyphs, and the two
/// pixel passes cover every pixel of the image.
pub proof fn lemma_passes_in_order(state: PipelineState)
    ensures
        state.passes().len() == 3,
        state.passes()[0].stage == Stage::Edges,
        state.passes()[1].stage == Stage::Directions,
        state.passes()[2].stage == Stage::Glyphs,
        state.passes()[0].groups_x * PIXEL_WORKGROUP >= state.tex_width,
        state.passes()[0].groups_y * PIXEL_WORKGROUP >= state.tex_height,
        state.passes()[1].groups_x == state.passes()[0].groups_x,
        state.passes()[1].groups_y == state.passes()[0].groups_y,
{
}

} // verus!
