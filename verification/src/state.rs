//! The renderer's logical state: surface configuration, the uniform values
//! every GPU stage reads, the particle field, the optional background layer
//! and the intensity controller.
//!
//! The process around the library owns the device, the queue and the actual
//! buffers; after each operation here it copies the fields below into them,
//! so every rule about what those buffers hold is proved on this model.

use vstd::prelude::*;
use crate::intensity::{IntensityController, INITIAL_INTENSITY, SCALE, spec_step_gain,
    spec_step_intensity};
use crate::particles::{Particle, create_points};
use crate::pipeline::{WORKGROUP_SIZE, dispatch_workgroups};

verus! {

/// Particles simulated, fixed for the process lifetime.
pub const DEFAULT_POINTS_COUNT: usize = 1000;

/// Rendered size of one particle, in pixels.
pub const DEFAULT_POINT_SIZE: u32 = 5;

/// Delta time seeded before the first frame: 16 milliseconds, in millionths
/// of a second.
pub const INITIAL_DELTA_TIME: u64 = 16_000;

/// Model of the background layer: the pixel size of the texture holding the
/// image resampled to the monitor. Created once at startup or never; a
/// resize must leave it untouched.
#[derive(Clone, Copy, PartialEq, Debug)]
pub struct BackgroundLayer {
    pub texture_width: u32,
    pub texture_height: u32,
}

/// The uniform-and-configuration projection of the state: everything a
/// resize rewrites, with the two fields it must preserve. Ghost view used
/// by the resize contract.
pub struct GeometryView {
    pub config_width: int,
    pub config_height: int,
    pub is_surface_configured: bool,
    pub msaa_width: int,
    pub msaa_height: int,
    pub window_size_w: int,
    pub window_size_h: int,
    pub window_pos_x: int,
    pub window_pos_y: int,
    pub points_count: int,
    pub background: Option<BackgroundLayer>,
}

/// Where a resize with positive dimensions puts the geometry: surface,
/// anti-aliasing target and size uniform follow the new dimensions, the
/// position uniform follows the queried position with an origin fallback,
/// and the particle count and background layer are carried over unchanged.
/// A zero dimension changes nothing.
pub open spec fn spec_resized(
    g: GeometryView,
    width: u32,
    height: u32,
    queried_pos: Option<(i64, i64)>,
) -> GeometryView {
    if width == 0 || height == 0 {
        g
    } else {
        GeometryView {
            config_width: width as int,
            config_height: height as int,
            is_surface_configured: true,
            msaa_width: width as int,
            msaa_height: height as int,
            window_size_w: width as int,
            window_size_h: height as int,
            window_pos_x: match queried_pos {
                Some(p) => p.0 as int,
                None => 0,
            },
            window_pos_y: match queried_pos {
                Some(p) => p.1 as int,
                None => 0,
            },
            points_count: g.points_count,
            background: g.background,
        }
    }
}

/// The plan of one frame: nothing before the surface is configured,
/// otherwise one compute dispatch covering every particle followed by the
/// draws of the render pass.
#[derive(Clone, Copy, PartialEq, Debug)]
pub enum RenderPlan {
    /// The surface was never configured: present nothing, keep going.
    Skip,
    /// One frame: dispatch `workgroups` compute workgroups, then draw the
    /// background quad first when a background layer exists, then one quad
    /// instance per particle.
    Draw { workgroups: u32, draw_background: bool, instances: u32 },
}

/// Why a frame could not be presented.
#[derive(Clone, Copy, PartialEq, Debug)]
pub enum RenderFailure {
    /// The surface was lost and must be reconfigured.
    SurfaceLost,
    /// The surface no longer matches the window and must be reconfigured.
    SurfaceOutdated,
    /// Any other device error.
    Other,
}

/// What the caller does about a failed frame.
#[derive(Clone, Copy, PartialEq, Debug)]
pub enum FrameAction {
    /// Reconfigure the surface to the current window size and retry on the
    /// next frame.
    Reconfigure,
    /// Log the error and drop the frame; the next frame proceeds normally.
    LogAndContinue,
}

/// A lost or outdated surface is recoverable and asks for reconfiguration;
/// every other failure is logged and the frame dropped. Never fatal.
pub fn handle_render_failure(failure: &RenderFailure) -> (a: FrameAction)
    ensures
        a is Reconfigure <==> (failure is SurfaceLost || failure is SurfaceOutdated),
{
    match failure {
        RenderFailure::SurfaceLost => FrameAction::Reconfigure,
        RenderFailure::SurfaceOutdated => FrameAction::Reconfigure,
        RenderFailure::Other => FrameAction::LogAndContinue,
    }
}

/// The renderer's logical state.
#[derive(Clone, PartialEq, Debug)]
pub struct State {
    pub config_width: u32,
    pub config_height: u32,
    pub is_surface_configured: bool,
    pub msaa_width: u32,
    pub msaa_height: u32,
    pub window_size_w: u32,
    pub window_size_h: u32,
    pub window_pos_x: i64,
    pub window_pos_y: i64,
    pub delta_time: u64,
    pub point_size: u32,
    pub intensity_uniform: u64,
    pub points: Vec<Particle>,
    pub points_count: usize,
    pub background: Option<BackgroundLayer>,
    pub intensity: IntensityController,
}

impl State {
    /// The geometry projection the resize contract is stated over.
    pub open spec fn geometry(self) -> GeometryView {
        GeometryView {
            config_width: self.config_width as int,
            config_height: self.config_height as int,
            is_surface_configured: self.is_surface_configured,
            msaa_width: self.msaa_width as int,
            msaa_height: self.msaa_height as int,
            window_size_w: self.window_size_w as int,
            window_size_h: self.window_size_h as int,
            window_pos_x: self.window_pos_x as int,
            window_pos_y: self.window_pos_y as int,
            points_count: self.points_count as int,
            background: self.background,
        }
    }

    /// Internal invariant: the intensity state is in its bounds, the
    /// published intensity uniform never exceeds one unit, the particle
    /// field has exactly `points_count` members, all inside the current
    /// size uniform, and the count leaves room for the dispatch arithmetic.
    pub open spec fn wf(self) -> bool {
        &&& self.intensity.wf()
        &&& self.intensity_uniform <= SCALE
        &&& self.points.len() == self.points_count
        &&& self.points_count <= (u32::MAX - 63) as usize
        &&& forall|i: int|
            0 <= i < self.points.len() ==> #[trigger] self.points[i].wf(
                self.window_size_w,
                self.window_size_h,
            )
    }

    /// Builds the startup state for a window of the given size: uniforms
    /// seeded with the size, the queried position (origin when absent), a
    /// nominal first delta time, the default point size, the initial
    /// intensity, and a freshly seeded particle field. The surface is not
    /// yet configured; the first resize configures it.
    pub fn new(
        width: u32,
        height: u32,
        initial_pos: Option<(i64, i64)>,
        background: Option<BackgroundLayer>,
    ) -> (s: State)
        requires
            width > 0,
            height > 0,
        ensures
            s.wf(),
            s.config_width == width,
            s.config_height == height,
            !s.is_surface_configured,
            s.msaa_width == width,
            s.msaa_height == height,
            s.window_size_w == width,
            s.window_size_h == height,
            s.window_pos_x == (match initial_pos {
                Some(p) => p.0 as int,
                None => 0,
            }),
            s.window_pos_y == (match initial_pos {
                Some(p) => p.1 as int,
                None => 0,
            }),
            s.delta_time == INITIAL_DELTA_TIME,
            s.point_size == DEFAULT_POINT_SIZE,
            s.intensity_uniform == INITIAL_INTENSITY,
            s.points_count == DEFAULT_POINTS_COUNT,
            s.intensity.last_intensity == INITIAL_INTENSITY,
            s.intensity.gain_multiplier == SCALE,
            s.background == background,
    {
        let (pos_x, pos_y): (i64, i64) = match initial_pos {
            Some(p) => p,
            None => (0, 0),
        };
        let points = create_points(DEFAULT_POINTS_COUNT, width, height);
        State {
            config_width: width,
            config_height: height,
            is_surface_configured: false,
            msaa_width: width,
            msaa_height: height,
            window_size_w: width,
            window_size_h: height,
            window_pos_x: pos_x,
            window_pos_y: pos_y,
            delta_time: INITIAL_DELTA_TIME,
            point_size: DEFAULT_POINT_SIZE,
            intensity_uniform: INITIAL_INTENSITY,
            points,
            points_count: DEFAULT_POINTS_COUNT,
            background,
            intensity: IntensityController::new(),
        }
    }

    /// Applies a window resize: with positive dimensions the surface is
    /// reconfigured, the anti-aliasing target recreated, the size and
    /// position uniforms rewritten and the particle field re-seeded for the
    /// new viewport — exactly `spec_resized` on the geometry projection,
    /// which keeps the particle count and the background layer. A zero
    /// width or height leaves the whole state untouched.
    pub fn resize(&mut self, width: u32, height: u32, queried_pos: Option<(i64, i64)>)
        requires
            old(self).wf(),
        ensures
            final(self).wf(),
            final(self).geometry() == spec_resized(
                old(self).geometry(),
                width,
                height,
                queried_pos,
            ),
            width == 0 || height == 0 ==> *final(self) == *old(self),
            final(self).points.len() == old(self).points.len(),
            final(self).delta_time == old(self).delta_time,
            final(self).point_size == old(self).point_size,
            final(self).intensity_uniform == old(self).intensity_uniform,
            final(self).intensity == old(self).intensity,
    {
        if width > 0 && height > 0 {
            self.config_width = width;
            self.config_height = height;
            self.is_surface_configured = true;
            self.msaa_width = width;
            self.msaa_height = height;
            self.window_size_w = width;
            self.window_size_h = height;
            let (pos_x, pos_y): (i64, i64) = match queried_pos {
                Some(p) => p,
                None => (0, 0),
            };
            self.window_pos_x = pos_x;
            self.window_pos_y = pos_y;
            self.points = create_points(self.points_count, width, height);
        }
    }

    /// One per-frame update: publishes the elapsed time to the delta-time
    /// uniform, feeds the polled sample through the intensity controller
    /// and publishes the resulting intensity. Touches nothing else.
    pub fn update(&mut self, raw_sample: Option<u64>, dt: u64)
        requires
            old(self).wf(),
        ensures
            final(self).wf(),
            final(self).delta_time == dt,
            final(self).intensity_uniform == spec_step_intensity(
                old(self).intensity.last_intensity as int,
                old(self).intensity.gain_multiplier as int,
                raw_sample,
                dt as int,
            ),
            final(self).intensity.last_intensity == final(self).intensity_uniform,
            final(self).intensity.gain_multiplier == spec_step_gain(
                old(self).intensity.last_intensity as int,
                old(self).intensity.gain_multiplier as int,
                raw_sample,
                dt as int,
            ),
            final(self).geometry() == old(self).geometry(),
            final(self).points == old(self).points,
            final(self).point_size == old(self).point_size,
    {
        self.delta_time = dt;
        let out = self.intensity.step(raw_sample, dt);
        self.intensity_uniform = out;
    }

    /// Plans one frame. Before the surface has ever been configured the
    /// frame is skipped; afterwards the plan is one compute dispatch with a
    /// thread for every particle, the background quad exactly when a
    /// background layer exists, and one quad instance per particle.
    pub fn render(&self) -> (plan: RenderPlan)
        requires
            self.wf(),
        ensures
            !self.is_surface_configured ==> plan is Skip,
            self.is_surface_configured ==> plan == (RenderPlan::Draw {
                workgroups: ((self.points_count as int + (WORKGROUP_SIZE - 1)) / (
                WORKGROUP_SIZE as int)) as u32,
                draw_background: self.background is Some,
                instances: self.points_count as u32,
            }),
            plan matches RenderPlan::Draw { workgroups, .. } ==> workgroups * WORKGROUP_SIZE
                >= self.points_count,
    {
        if !self.is_surface_configured {
            return RenderPlan::Skip;
        }
        let workgroups = dispatch_workgroups(self.points_count as u32);
        RenderPlan::Draw {
            workgroups,
            draw_background: self.background.is_some(),
            instances: self.points_count as u32,
        }
    }
}

/// Resizing is idempotent: a second resize to the same dimensions and the
/// same queried position leaves the geometry exactly where the first put
/// it — the uniforms and the particle seed are functions of the latest
/// dimensions alone.
pub proof fn lemma_resize_idempotent(
    g: GeometryView,
    width: u32,
    height: u32,
    queried_pos: Option<(i64, i64)>,
)
    ensures
        spec_resized(spec_resized(g, width, height, queried_pos), width, height, queried_pos)
            == spec_resized(g, width, height, queried_pos),
{
}

/// The geometry after a whole sequence of resizes, applied left to right.
pub open spec fn spec_apply_resizes(
    g: GeometryView,
    ops: Seq<(u32, u32, Option<(i64, i64)>)>,
) -> GeometryView
    decreases ops.len(),
{
    if ops.len() == 0 {
        g
    } else {
        spec_apply_resizes(spec_resized(g, ops[0].0, ops[0].1, ops[0].2), ops.drop_first())
    }
}

/// No sequence of resizes, whatever its dimensions and positions, changes
/// the particle count or replaces the background layer.
pub proof fn lemma_resizes_preserve_count_and_background(
    g: GeometryView,
    ops: Seq<(u32, u32, Option<(i64, i64)>)>,
)
    ensures
        spec_apply_resizes(g, ops).points_count == g.points_count,
        spec_apply_resizes(g, ops).background == g.background,
    decreases ops.len(),
{
    if ops.len() > 0 {
        lemma_resizes_preserve_count_and_background(
            spec_resized(g, ops[0].0, ops[0].1, ops[0].2),
            ops.drop_first(),
        );
    }
}

} // verus!
