//! The frame pipeline: startup outcome handling, the render target's
//! lifecycle, dispatch sizing for the tile-covering compute pass, and the
//! per-tick GPU command sequence.
//!
//! The pipeline itself never touches the device. The host compiles the shader
//! programs and reports their outcomes to [`FramePipeline::startup`], creates
//! the texture [`FramePipeline::install_target`] records, and executes the
//! commands [`FramePipeline::tick_commands`] lays out each tick. Every
//! decision — when the target is created, how many compute groups cover it,
//! and where the barrier stands between the pass that writes the image and
//! the pass that samples it — is made and verified here.

use vstd::prelude::*;

verus! {

/// Side length, in pixels, of the square tile one compute group covers.
pub const TILE: u32 = 16;

/// The uniform location of the current program that receives the camera
/// transform.
pub const TRANSFORM_LOCATION: i32 = 0;

/// The image slot the compute pass writes the render target through.
pub const IMAGE_BINDING: u32 = 0;

/// The texture unit the quad pass samples the render target from.
pub const QUAD_TEXTURE_UNIT: u32 = 0;

/// Vertex count of the screen-filling triangle strip.
pub const QUAD_VERTEX_COUNT: u32 = 4;

/// The number of size-`divisor` groups needed to cover `size` units: the
/// quotient rounded up.
pub open spec fn ceil_div_spec(size: int, divisor: int) -> int {
    (size + divisor - 1) / divisor
}

/// How many size-`divisor` groups cover `size` units: the quotient, rounded
/// up. The result both covers (`divisor * result >= size`) and is minimal
/// (one group fewer falls short).
pub fn ceil_div(size: u32, divisor: u32) -> (groups: u32)
    requires
        divisor >= 1,
        size + divisor - 1 <= u32::MAX,
    ensures
        groups == ceil_div_spec(size as int, divisor as int),
        divisor * groups >= size,
        divisor * (groups - 1) < size,
{
    proof {
        lemma_ceil_div_bounds(size as int, divisor as int);
    }
    (((size as u64) + (divisor as u64) - 1) / (divisor as u64)) as u32
}

/// Rounding the quotient up yields the least group count that covers.
proof fn lemma_ceil_div_bounds(size: int, divisor: int)
    requires
        divisor >= 1,
        size >= 0,
    ensures
        divisor * ceil_div_spec(size, divisor) >= size,
        divisor * (ceil_div_spec(size, divisor) - 1) < size,
        0 <= ceil_div_spec(size, divisor) <= size + divisor - 1,
{
    let q = ceil_div_spec(size, divisor);
    assert(divisor * q >= size && divisor * (q - 1) < size && 0 <= q <= size + divisor - 1)
        by (nonlinear_arith)
        requires
            divisor >= 1,
            size >= 0,
            q == (size + divisor - 1) / divisor,
    ;
}

/// Whether a dimension is small enough that rounding it up to whole tiles
/// stays within the group-count arithmetic.
pub open spec fn fits_tiling(size: u32) -> bool {
    size + TILE - 1 <= u32::MAX
}

/// The compute dispatch extents that cover a target of the given pixel
/// dimensions with 16-pixel tiles: the minimal group count along each spatial
/// axis, and a unit third axis. A kernel invocation whose global index falls
/// in the slack of the last tile row or column must discard itself; this
/// pipeline never clips.
pub fn dispatch_extents(width: u32, height: u32) -> (extents: (u32, u32, u32))
    requires
        fits_tiling(width),
        fits_tiling(height),
    ensures
        extents.0 == ceil_div_spec(width as int, TILE as int),
        extents.1 == ceil_div_spec(height as int, TILE as int),
        extents.2 == 1,
        TILE * extents.0 >= width && TILE * (extents.0 - 1) < width,
        TILE * extents.1 >= height && TILE * (extents.1 - 1) < height,
{
    (ceil_div(width, TILE), ceil_div(height, TILE), 1)
}

/// How the cursor follows window focus: grabbed and hidden while the window
/// is focused, released and shown otherwise. The first component says whether
/// to grab the cursor, the second whether to show it.
pub fn cursor_state(focused: bool) -> (state: (bool, bool))
    ensures
        state.0 == focused,
        state.1 == !focused,
{
    (focused, !focused)
}

/// Why startup failed: one shader stage failed to compile, or a program
/// failed to link. Either way the device driver's diagnostic text is carried
/// verbatim; both are fatal and the tick loop never begins.
#[derive(Debug, PartialEq, Eq)]
pub enum StartupError {
    Compile(String),
    Link(String),
}

impl StartupError {
    /// The driver-provided diagnostic text this error carries.
    pub open spec fn diagnostic_spec(self) -> Seq<char> {
        match self {
            StartupError::Compile(text) => text@,
            StartupError::Link(text) => text@,
        }
    }

    /// The driver-provided diagnostic text, to be surfaced verbatim.
    pub fn diagnostic(&self) -> (text: &String)
        ensures
            text@ == self.diagnostic_spec(),
    {
        match self {
            StartupError::Compile(text) => text,
            StartupError::Link(text) => text,
        }
    }
}

/// The outcome of compiling one shader stage, from the status and info log
/// the driver reported: success yields the stage's handle, failure a fatal
/// error carrying the compile diagnostic verbatim.
pub fn compile_outcome(compiled: bool, shader: u32, log: String) -> (outcome: Result<
    u32,
    StartupError,
>)
    ensures
        compiled ==> outcome == Ok::<u32, StartupError>(shader),
        !compiled ==> outcome == Err::<u32, StartupError>(StartupError::Compile(log)),
{
    if compiled {
        Ok(shader)
    } else {
        Err(StartupError::Compile(log))
    }
}

/// The outcome of linking a program, from the status and info log the driver
/// reported: failure is a fatal error carrying the link diagnostic verbatim.
pub fn link_outcome(linked: bool, log: String) -> (outcome: Result<(), StartupError>)
    ensures
        linked ==> outcome is Ok,
        !linked ==> outcome == Err::<(), StartupError>(StartupError::Link(log)),
{
    if linked {
        Ok(())
    } else {
        Err(StartupError::Link(log))
    }
}

/// The render target: the GPU image the compute pass writes and the quad pass
/// samples, as its driver handle and its pixel dimensions, fixed at creation.
#[derive(Clone, Copy, Debug, PartialEq, Eq, Structural)]
pub struct RenderTarget {
    pub texture: u32,
    pub width: u32,
    pub height: u32,
}

/// One step of the per-tick GPU sequence, in the order the host must execute
/// them. Handles are the driver's; a zero handle releases a binding.
#[derive(Clone, Copy, Debug, PartialEq, Eq, Structural)]
pub enum GpuCommand {
    /// Make this program current; 0 releases the binding.
    UseProgram(u32),
    /// Upload the camera transform to this uniform location of the current
    /// program.
    UploadTransform(i32),
    /// Bind this texture as the writable image at this slot (slot, handle).
    BindWriteImage(u32, u32),
    /// Launch the compute pass with this many groups along each axis.
    DispatchCompute(u32, u32, u32),
    /// Memory barrier over shader image access: makes the compute pass's
    /// image writes visible to the sampling pass that follows.
    ShaderImageBarrier,
    /// Bind this vertex array; 0 releases the binding.
    BindVertexArray(u32),
    /// Bind this texture for sampling at this texture unit (unit, handle).
    BindSampledTexture(u32, u32),
    /// Draw a triangle strip of this many vertices.
    DrawTriangleStrip(u32),
    /// Swap the presentable surface.
    Present,
}

/// The frame pipeline once startup has succeeded: the two linked programs,
/// the quad geometry, and the render target — absent until the first tick,
/// present with fixed dimensions ever after.
#[derive(Clone, Copy, Debug)]
pub struct FramePipeline {
    pub compute_program: u32,
    pub quad_program: u32,
    pub quad_vao: u32,
    pub target: Option<RenderTarget>,
}

impl FramePipeline {
    /// Any target this pipeline holds fits the tiling arithmetic.
    pub open spec fn wf(self) -> bool {
        self.target matches Some(t) ==> fits_tiling(t.width) && fits_tiling(t.height)
    }

    /// The exact command sequence of one tick: the compute pass writes the
    /// target tile by tile, the barrier publishes its writes, the quad pass
    /// samples the target onto the screen, and the surface is presented.
    pub open spec fn tick_plan(self) -> Seq<GpuCommand> {
        match self.target {
            Some(target) => seq![
                GpuCommand::UseProgram(self.compute_program),
                GpuCommand::UploadTransform(TRANSFORM_LOCATION),
                GpuCommand::BindWriteImage(IMAGE_BINDING, target.texture),
                GpuCommand::DispatchCompute(
                    ceil_div_spec(target.width as int, TILE as int) as u32,
                    ceil_div_spec(target.height as int, TILE as int) as u32,
                    1,
                ),
                GpuCommand::ShaderImageBarrier,
                GpuCommand::BindWriteImage(IMAGE_BINDING, 0),
                GpuCommand::UseProgram(0),
                GpuCommand::UseProgram(self.quad_program),
                GpuCommand::BindVertexArray(self.quad_vao),
                GpuCommand::BindSampledTexture(QUAD_TEXTURE_UNIT, target.texture),
                GpuCommand::DrawTriangleStrip(QUAD_VERTEX_COUNT),
                GpuCommand::BindSampledTexture(QUAD_TEXTURE_UNIT, 0),
                GpuCommand::BindVertexArray(0),
                GpuCommand::UseProgram(0),
                GpuCommand::Present,
            ],
            None => Seq::empty(),
        }
    }

    /// Startup succeeds exactly when both programs linked: the compute
    /// outcome is examined first, a failure of either is returned as is, with
    /// its diagnostic untouched, and no pipeline — so no tick — ever exists.
    /// On success the pipeline starts with no render target.
    pub fn startup(
        compute: Result<u32, StartupError>,
        quad: Result<u32, StartupError>,
        quad_vao: u32,
    ) -> (outcome: Result<FramePipeline, StartupError>)
        ensures
            compute matches Err(error) ==> outcome == Err::<FramePipeline, StartupError>(error),
            compute is Ok ==> (quad matches Err(error) ==> outcome == Err::<
                FramePipeline,
                StartupError,
            >(error)),
            compute is Ok && quad is Ok ==> outcome == Ok::<FramePipeline, StartupError>(
                FramePipeline {
                    compute_program: compute->Ok_0,
                    quad_program: quad->Ok_0,
                    quad_vao,
                    target: None,
                },
            ),
    {
        match (compute, quad) {
            (Err(error), _) => Err(error),
            (Ok(_), Err(error)) => Err(error),
            (Ok(compute_program), Ok(quad_program)) => Ok(
                FramePipeline { compute_program, quad_program, quad_vao, target: None },
            ),
        }
    }

    /// Whether the coming tick must first create the render target. True only
    /// before the first tick: the target, once present, is never recreated.
    pub fn needs_target(&self) -> (needed: bool)
        ensures
            needed == (self.target is None),
    {
        self.target.is_none()
    }

    /// Records the render target the host created for the first tick, sized
    /// to the surface dimensions captured at that moment. A pipeline accepts
    /// a target only once; the target keeps these dimensions for the
    /// pipeline's whole life, even if the surface is later resized.
    pub fn install_target(&mut self, texture: u32, width: u32, height: u32)
        requires
            old(self).target is None,
            fits_tiling(width),
            fits_tiling(height),
        ensures
            *final(self) == (FramePipeline {
                target: Some(RenderTarget { texture, width, height }),
                ..*old(self)
            }),
            final(self).wf(),
    {
        self.target = Some(RenderTarget { texture, width, height });
    }

    /// Lays out the GPU commands of one tick, in execution order. The
    /// sequence is exactly [`FramePipeline::tick_plan`]: compute pass,
    /// barrier, quad pass, present, with the dispatch extents covering the
    /// target minimally in 16-pixel tiles.
    pub fn tick_commands(&self) -> (commands: Vec<GpuCommand>)
        requires
            self.target is Some,
            self.wf(),
        ensures
            commands@ == self.tick_plan(),
    {
        let target = self.target.unwrap();
        let (groups_x, groups_y, groups_z) = dispatch_extents(target.width, target.height);
        let mut commands: Vec<GpuCommand> = Vec::new();
        commands.push(GpuCommand::UseProgram(self.compute_program));
        commands.push(GpuCommand::UploadTransform(TRANSFORM_LOCATION));
        commands.push(GpuCommand::BindWriteImage(IMAGE_BINDING, target.texture));
        commands.push(GpuCommand::DispatchCompute(groups_x, groups_y, groups_z));
        commands.push(GpuCommand::ShaderImageBarrier);
        commands.push(GpuCommand::BindWriteImage(IMAGE_BINDING, 0));
        commands.push(GpuCommand::UseProgram(0));
        commands.push(GpuCommand::UseProgram(self.quad_program));
        commands.push(GpuCommand::BindVertexArray(self.quad_vao));
        commands.push(GpuCommand::BindSampledTexture(QUAD_TEXTURE_UNIT, target.texture));
        commands.push(GpuCommand::DrawTriangleStrip(QUAD_VERTEX_COUNT));
        commands.push(GpuCommand::BindSampledTexture(QUAD_TEXTURE_UNIT, 0));
        commands.push(GpuCommand::BindVertexArray(0));
        commands.push(GpuCommand::UseProgram(0));
        commands.push(GpuCommand::Present);
        proof {
            assert(commands@ =~= self.tick_plan());
        }
        commands
    }
}

/// In every tick's command sequence the image barrier stands strictly after
/// the compute dispatch that writes the render target and strictly before
/// the draw that samples it: the producer/consumer ordering the two GPU
/// passes rely on holds unconditionally, every tick. The present closes the
/// tick, after everything else.
pub proof fn lemma_barrier_orders_passes(pipeline: FramePipeline)
    requires
        pipeline.target is Some,
    ensures
        exists|d: int, b: int, r: int|
            0 <= d < b < r < pipeline.tick_plan().len() && pipeline.tick_plan()[d]
                is DispatchCompute && pipeline.tick_plan()[b] is ShaderImageBarrier
                && pipeline.tick_plan()[r] is DrawTriangleStrip,
        pipeline.tick_plan().last() is Present,
{
    let plan = pipeline.tick_plan();
    assert(plan[3] is DispatchCompute && plan[4] is ShaderImageBarrier && plan[10]
        is DrawTriangleStrip);
    assert(0 <= 3 < 4 < 10 < plan.len());
}

/// The dispatch command of every tick covers the render target exactly: along
/// each axis the groups reach past the last pixel, one group fewer would not,
/// and the third extent is one.
pub proof fn lemma_dispatch_covers_target(pipeline: FramePipeline)
    requires
        pipeline.target is Some,
        pipeline.wf(),
    ensures
        ({
            let target = pipeline.target->Some_0;
            &&& pipeline.tick_plan()[3] matches GpuCommand::DispatchCompute(gx, gy, gz)
            &&& TILE * gx >= target.width
            &&& TILE * (gx - 1) < target.width
            &&& TILE * gy >= target.height
            &&& TILE * (gy - 1) < target.height
            &&& gz == 1
        }),
{
    let target = pipeline.target->Some_0;
    lemma_ceil_div_bounds(target.width as int, TILE as int);
    lemma_ceil_div_bounds(target.height as int, TILE as int);
}

} // verus!
