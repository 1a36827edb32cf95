use vstd::prelude::*;
use crate::grid::{Grid, encode_at};
use crate::instance::InstanceTileRaw;
use crate::mesh::{DrawCall, Mesh, draw_spec, replaced};

verus! {

/// The attachment a pass draws into.
#[derive(Clone, Copy, Debug, PartialEq, Eq, Structural)]
pub enum PassTarget {
    /// The offscreen colour target that the post-process pass samples.
    Offscreen,
    /// The image that is presented.
    Surface,
}

/// One render pass: its target, whether it first clears the target to
/// opaque black, and the draw it issues, if any.
#[derive(Clone, Copy, Debug, PartialEq, Eq, Structural)]
pub struct PassPlan {
    pub target: PassTarget,
    pub clear_to_black: bool,
    pub draw: Option<DrawCall>,
}

/// The work of one frame: the sprite pass, then the post-process pass, then
/// (when `present` holds) presenting the surface image.
#[derive(Clone, Copy, Debug, PartialEq, Eq, Structural)]
pub struct FramePlan {
    pub sprite: PassPlan,
    pub post: PassPlan,
    pub present: bool,
}

/// The renderer's state: the tile grid, the instanced tile mesh, the
/// full-screen quad, and the glyph atlas binding (of a handle type `G`) once
/// one is bound. Without a binding the renderer is initialized; with one it
/// is ready, and only then are tiles drawn.
pub struct RenderState<B, G> {
    pub grid: Grid,
    pub mesh: Mesh<B>,
    pub screen_mesh: Mesh<B>,
    pub bind_group: Option<G>,
}

/// The frame that `s` draws: tiles only once an atlas is bound, the
/// full-screen quad once, every time.
pub open spec fn frame_spec<B, G>(s: RenderState<B, G>) -> FramePlan {
    FramePlan {
        sprite: PassPlan {
            target: PassTarget::Offscreen,
            clear_to_black: true,
            draw: if s.bind_group is Some { Some(draw_spec(s.mesh)) } else { None },
        },
        post: PassPlan {
            target: PassTarget::Surface,
            clear_to_black: true,
            draw: Some(DrawCall { index_count: s.screen_mesh.num_indices, instance_count: 1 }),
        },
        present: true,
    }
}

impl<B, G> RenderState<B, G> {
    /// An initialized renderer: no atlas is bound yet.
    pub fn new(grid: Grid, mesh: Mesh<B>, screen_mesh: Mesh<B>) -> (s: RenderState<B, G>)
        ensures
            s == (RenderState::<B, G> { grid, mesh, screen_mesh, bind_group: None }),
    {
        RenderState { grid, mesh, screen_mesh, bind_group: None }
    }

    /// Whether an atlas is bound.
    pub fn is_ready(&self) -> (r: bool)
        ensures
            r == self.bind_group is Some,
    {
        self.bind_group.is_some()
    }

    /// Binds the glyph atlas; a binding already there is dropped.
    pub fn bind_texture(&mut self, bind_group: G)
        ensures
            *final(self) == (RenderState { bind_group: Some(bind_group), ..*old(self) }),
    {
        self.bind_group = Some(bind_group);
    }

    /// The instance records to upload: one per tile of the grid, in order.
    pub fn instance_data(&self) -> (r: Vec<InstanceTileRaw>)
        ensures
            r@.len() == self.grid@.tiles.len(),
            forall|i: int| 0 <= i < r@.len() ==> r@[i] == encode_at(self.grid@, i),
    {
        self.grid.instances()
    }

    /// Installs `buffer`, which holds the records of [`RenderState::instance_data`],
    /// as the tile mesh's instances, with the grid's tile count.
    pub fn install_instances(&mut self, buffer: B)
        ensures
            *final(self) == (RenderState {
                mesh: replaced(old(self).mesh, buffer, old(self).grid@.tiles.len() as u32),
                ..*old(self)
            }),
    {
        let n = self.grid.instance_count();
        self.mesh.replace_instance(buffer, n);
    }

    /// What the current frame does.
    pub fn plan_frame(&self) -> (p: FramePlan)
        ensures
            p == frame_spec(*self),
            self.bind_group is None ==> p.sprite.draw is None && p.sprite.clear_to_black && p.post.draw is Some
                && p.present,
    {
        let tiles = match &self.bind_group {
            Some(_) => Some(self.mesh.draw_call()),
            None => None,
        };
        FramePlan {
            sprite: PassPlan { target: PassTarget::Offscreen, clear_to_black: true, draw: tiles },
            post: PassPlan {
                target: PassTarget::Surface,
                clear_to_black: true,
                draw: Some(DrawCall { index_count: self.screen_mesh.num_indices, instance_count: 1 }),
            },
            present: true,
        }
    }
}

/// Why acquiring the next surface image failed.
#[derive(Clone, Copy, Debug, PartialEq, Eq, Structural)]
pub enum SurfaceFault {
    Timeout,
    Outdated,
    Lost,
    OutOfMemory,
}

/// What to do about a [`SurfaceFault`].
#[derive(Clone, Copy, Debug, PartialEq, Eq, Structural)]
pub enum Recovery {
    /// Draw nothing this frame and try again at the next.
    SkipFrame,
    /// Configure the surface again, then try again at the next frame.
    Reconfigure,
    /// Stop: nothing can be drawn any more.
    Abort,
}

/// A lost or outdated surface is configured again; a timeout skips the frame;
/// running out of memory ends rendering.
pub fn surface_recovery(fault: SurfaceFault) -> (r: Recovery)
    ensures
        r == match fault {
            SurfaceFault::Timeout => Recovery::SkipFrame,
            SurfaceFault::Outdated => Recovery::Reconfigure,
            SurfaceFault::Lost => Recovery::Reconfigure,
            SurfaceFault::OutOfMemory => Recovery::Abort,
        },
{
    match fault {
        SurfaceFault::Timeout => Recovery::SkipFrame,
        SurfaceFault::Outdated | SurfaceFault::Lost => Recovery::Reconfigure,
        SurfaceFault::OutOfMemory => Recovery::Abort,
    }
}

/// The surface and offscreen target are this many times the window's size.
pub const SURFACE_SCALE: u32 = 2;

/// Why no surface configuration can be chosen.
#[derive(Clone, Copy, Debug, PartialEq, Eq, Structural)]
pub enum SetupError {
    NoFormat,
    NoPresentMode,
    NoAlphaMode,
    SizeOverflow,
}

/// A surface configuration: format, present mode, alpha mode and size in pixels.
#[derive(Debug)]
pub struct SurfaceSettings<F, P, A> {
    pub format: F,
    pub present_mode: P,
    pub alpha_mode: A,
    pub width: u32,
    pub height: u32,
}

/// Chooses how the surface is configured for a window of `screen_size`
/// pixels: the platform's first (preferred) format, present mode and alpha
/// mode, at twice the window's size.
pub fn negotiate_surface<F: Copy, P: Copy, A: Copy>(
    formats: &Vec<F>,
    present_modes: &Vec<P>,
    alpha_modes: &Vec<A>,
    screen_size: [u32; 2],
) -> (r: Result<SurfaceSettings<F, P, A>, SetupError>)
    ensures
        formats@.len() == 0 <==> r matches Err(SetupError::NoFormat),
        (formats@.len() > 0 && present_modes@.len() == 0) <==> r matches Err(SetupError::NoPresentMode),
        (formats@.len() > 0 && present_modes@.len() > 0 && alpha_modes@.len() == 0)
            <==> r matches Err(SetupError::NoAlphaMode),
        (formats@.len() > 0 && present_modes@.len() > 0 && alpha_modes@.len() > 0 && (
            screen_size[0] * SURFACE_SCALE > u32::MAX || screen_size[1] * SURFACE_SCALE > u32::MAX))
            <==> r matches Err(SetupError::SizeOverflow),
        r matches Ok(s) ==> s.format == formats@[0] && s.present_mode == present_modes@[0]
            && s.alpha_mode == alpha_modes@[0] && s.width == screen_size[0] * SURFACE_SCALE
            && s.height == screen_size[1] * SURFACE_SCALE,
{
    if formats.len() == 0 {
        return Err(SetupError::NoFormat);
    }
    if present_modes.len() == 0 {
        return Err(SetupError::NoPresentMode);
    }
    if alpha_modes.len() == 0 {
        return Err(SetupError::NoAlphaMode);
    }
    let w = screen_size[0];
    let h = screen_size[1];
    if w > u32::MAX / SURFACE_SCALE || h > u32::MAX / SURFACE_SCALE {
        return Err(SetupError::SizeOverflow);
    }
    Ok(SurfaceSettings {
        format: formats[0],
        present_mode: present_modes[0],
        alpha_mode: alpha_modes[0],
        width: w * SURFACE_SCALE,
        height: h * SURFACE_SCALE,
    })
}

} // verus!
