//! The frame driver: one owned state object that reacts to window events and
//! walks each redraw through acquire, record, submit and present.
use vstd::prelude::*;
use crate::frame::{after, classify, recovery_of, FramePhase, Recovery, AcquireError};
use crate::geometry::{DrawCall, GeometryBuffer, GeometryUpload};
use crate::pipeline::{next_index, PipelineRegistry, VariantLayout};
use crate::surface::SurfaceConfig;

verus! {

/// The keys the driver gives a meaning to.
#[derive(Clone, Copy, Debug, PartialEq, Eq, Structural)]
pub enum Key {
    /// Cycles to the next pipeline variant.
    Space,
    /// Asks to shut down.
    Escape,
    Other,
}

/// A window event, as the event source delivers it. A pointer move carries
/// the clear colour that the new pointer position stands for.
pub enum WindowEvent<C> {
    Resized { width: u32, height: u32 },
    PointerMoved { color: C },
    KeyPressed(Key),
    KeyReleased(Key),
    RedrawRequested,
    CloseRequested,
    Other,
}

/// What the caller does after an event.
#[derive(Clone, Copy, Debug, PartialEq, Eq, Structural)]
pub enum Command {
    Nothing,
    /// Configure the surface again with `surface()`.
    ApplySurface,
    /// Run one frame: `begin_frame`, then acquire.
    Redraw,
    /// Leave the event loop.
    Exit,
}

/// The driver's answer to an event: whether the event was taken as input
/// (so the caller does not treat it any further) and what to do next.
#[derive(Clone, Copy, Debug, PartialEq, Eq, Structural)]
pub struct Response {
    pub consumed: bool,
    pub command: Command,
}

/// Everything one frame records, in order: a render pass that clears to
/// `clear_color`, the pipeline at `pipeline`, the shared resource set when
/// `bind_resources`, the geometry buffers when `bind_geometry`, and `draw`.
pub struct FramePlan<C> {
    pub clear_color: C,
    pub pipeline: usize,
    pub bind_resources: bool,
    pub bind_geometry: bool,
    pub draw: DrawCall,
}

/// What follows an acquisition.
pub enum FrameStep<C> {
    /// Record, submit and present this plan.
    Draw(FramePlan<C>),
    /// Configure the surface again with this size; draw nothing.
    Reconfigure { width: u32, height: u32 },
    /// Draw nothing; the next redraw tries again.
    Skip,
    /// Shut down.
    Fatal,
}

/// Why a driver cannot be assembled.
#[derive(Clone, Copy, Debug, PartialEq, Eq, Structural)]
pub enum SetupError {
    /// A variant reads the shared resource set, and there is none.
    MissingResources,
    /// A variant reads vertex and index buffers, and there are none.
    MissingGeometry,
}

/// The state threaded through the event loop: the surface configuration,
/// the compiled pipeline variants with the one in use, the shared resource
/// set and geometry (each optional), the clear colour and the frame phase.
pub struct FrameDriver<P, G, B, C> {
    surface: SurfaceConfig,
    pipelines: PipelineRegistry<P>,
    resources: Option<G>,
    geometry: Option<GeometryBuffer<B>>,
    clear_color: C,
    phase: FramePhase,
}

/// Whether every variant finds what its layout reads.
pub open spec fn layouts_served(layouts: Seq<VariantLayout>, has_resources: bool, has_geometry: bool) -> bool {
    forall|k: int|
        0 <= k < layouts.len() ==> {
            &&& (#[trigger] layouts[k]).uses_resources ==> has_resources
            &&& layouts[k].uses_geometry ==> has_geometry
        }
}

/// The first variant layout that cannot be served, as a setup error.
pub open spec fn setup_error(layouts: Seq<VariantLayout>, has_resources: bool, has_geometry: bool) -> Option<SetupError> {
    if exists|k: int| 0 <= k < layouts.len() && (#[trigger] layouts[k]).uses_resources && !has_resources {
        Some(SetupError::MissingResources)
    } else if exists|k: int| 0 <= k < layouts.len() && (#[trigger] layouts[k]).uses_geometry && !has_geometry {
        Some(SetupError::MissingGeometry)
    } else {
        None
    }
}

impl<P, G, B, C: Copy> FrameDriver<P, G, B, C> {
    pub closed spec fn spec_surface(&self) -> SurfaceConfig {
        self.surface
    }

    pub closed spec fn spec_pipelines(&self) -> PipelineRegistry<P> {
        self.pipelines
    }

    pub closed spec fn spec_resources(&self) -> Option<G> {
        self.resources
    }

    pub closed spec fn spec_geometry(&self) -> Option<GeometryBuffer<B>> {
        self.geometry
    }

    pub closed spec fn spec_clear_color(&self) -> C {
        self.clear_color
    }

    pub closed spec fn spec_phase(&self) -> FramePhase {
        self.phase
    }

    /// `after` is `before` moved to phase `p`: the surface configuration,
    /// pipelines, resource set, geometry and clear colour are the same.
    pub open spec fn moved_to(before: Self, after: Self, p: FramePhase) -> bool {
        &&& after.spec_surface() == before.spec_surface()
        &&& after.spec_pipelines() == before.spec_pipelines()
        &&& after.spec_resources() == before.spec_resources()
        &&& after.spec_geometry() == before.spec_geometry()
        &&& after.spec_clear_color() == before.spec_clear_color()
        &&& after.spec_phase() == p
    }

    /// The layouts of the pipeline variants, in order.
    pub open spec fn spec_layouts(&self) -> Seq<VariantLayout> {
        self.spec_pipelines().spec_variants().map_values(|v: crate::pipeline::PipelineVariant<P>| v.layout)
    }

    /// The layout of the variant in use.
    pub open spec fn spec_active_layout(&self) -> VariantLayout {
        self.spec_pipelines().spec_variants()[self.spec_pipelines().spec_active()].layout
    }

    pub open spec fn wf(&self) -> bool {
        &&& self.spec_surface().wf()
        &&& self.spec_pipelines().wf()
        &&& layouts_served(self.spec_layouts(), self.spec_resources() is Some, self.spec_geometry() is Some)
    }

    /// The frame that the driver records once an image is acquired.
    pub open spec fn spec_plan(&self) -> FramePlan<C> {
        let layout = self.spec_active_layout();
        FramePlan {
            clear_color: self.spec_clear_color(),
            pipeline: self.spec_pipelines().spec_active() as usize,
            bind_resources: layout.uses_resources,
            bind_geometry: layout.uses_geometry,
            draw: if layout.uses_geometry {
                self.spec_geometry()->Some_0.spec_full_draw()
            } else {
                DrawCall { indexed: false, start: 0, end: layout.vertex_count }
            },
        }
    }

    /// `after` and `r` are what `before` makes of `event`.
    pub open spec fn handled(before: Self, event: WindowEvent<C>, after: Self, r: Response) -> bool {
        match event {
            WindowEvent::Resized { width, height } => {
                &&& SurfaceConfig::configured(
                    before.spec_surface(),
                    width,
                    height,
                    after.spec_surface(),
                    width > 0 && height > 0,
                )
                &&& after.spec_pipelines() == before.spec_pipelines()
                &&& after.spec_resources() == before.spec_resources()
                &&& after.spec_geometry() == before.spec_geometry()
                &&& after.spec_clear_color() == before.spec_clear_color()
                &&& after.spec_phase() == before.spec_phase()
                &&& r == Response {
                    consumed: false,
                    command: if width > 0 && height > 0 { Command::ApplySurface } else { Command::Nothing },
                }
            },
            WindowEvent::PointerMoved { color } => {
                &&& after.spec_clear_color() == color
                &&& after.spec_surface() == before.spec_surface()
                &&& after.spec_pipelines() == before.spec_pipelines()
                &&& after.spec_resources() == before.spec_resources()
                &&& after.spec_geometry() == before.spec_geometry()
                &&& after.spec_phase() == before.spec_phase()
                &&& r == Response { consumed: true, command: Command::Nothing }
            },
            WindowEvent::KeyPressed(Key::Space) => {
                &&& after.spec_pipelines().spec_variants() == before.spec_pipelines().spec_variants()
                &&& after.spec_pipelines().spec_active() == next_index(
                    before.spec_pipelines().spec_active(),
                    before.spec_pipelines().spec_len(),
                )
                &&& after.spec_surface() == before.spec_surface()
                &&& after.spec_resources() == before.spec_resources()
                &&& after.spec_geometry() == before.spec_geometry()
                &&& after.spec_clear_color() == before.spec_clear_color()
                &&& after.spec_phase() == before.spec_phase()
                &&& r == Response { consumed: true, command: Command::Nothing }
            },
            WindowEvent::KeyPressed(Key::Escape) | WindowEvent::CloseRequested => {
                &&& Self::moved_to(before, after, FramePhase::ShuttingDown)
                &&& r == Response { consumed: false, command: Command::Exit }
            },
            WindowEvent::RedrawRequested => {
                &&& after == before
                &&& r == Response {
                    consumed: false,
                    command: if before.spec_phase() == FramePhase::ShuttingDown {
                        Command::Nothing
                    } else {
                        Command::Redraw
                    },
                }
            },
            _ => {
                &&& after == before
                &&& r == Response { consumed: false, command: Command::Nothing }
            },
        }
    }

    /// `after` and `r` are what `before`, waiting for an image, makes of the
    /// acquisition's `outcome`.
    pub open spec fn acquire_step(
        before: Self,
        outcome: Result<(), AcquireError>,
        after: Self,
        r: FrameStep<C>,
    ) -> bool {
        match outcome {
            Ok(()) => {
                &&& Self::moved_to(before, after, FramePhase::Recording)
                &&& r == FrameStep::Draw(before.spec_plan())
            },
            Err(e) => match recovery_of(e) {
                Recovery::Reconfigure => {
                    &&& Self::moved_to(before, after, FramePhase::Idle)
                    &&& r == FrameStep::<C>::Reconfigure {
                        width: before.spec_surface().spec_width(),
                        height: before.spec_surface().spec_height(),
                    }
                },
                Recovery::Skip => {
                    &&& Self::moved_to(before, after, FramePhase::Idle)
                    &&& r == FrameStep::<C>::Skip
                },
                Recovery::Fatal => {
                    &&& Self::moved_to(before, after, FramePhase::ShuttingDown)
                    &&& r == FrameStep::<C>::Fatal
                },
            },
        }
    }

    /// Assembles the driver in phase `Idle`. Fails when some variant reads
    /// the resource set or the geometry and that is missing; a missing
    /// resource set is reported first.
    pub fn new(
        surface: SurfaceConfig,
        pipelines: PipelineRegistry<P>,
        resources: Option<G>,
        geometry: Option<GeometryBuffer<B>>,
        clear_color: C,
    ) -> (r: Result<Self, SetupError>)
        requires
            surface.wf(),
            pipelines.wf(),
        ensures
            match r {
                Ok(d) => {
                    &&& setup_error(
                        pipelines.spec_variants().map_values(|v: crate::pipeline::PipelineVariant<P>| v.layout),
                        resources is Some,
                        geometry is Some,
                    ) is None
                    &&& d.wf()
                    &&& d.spec_surface() == surface
                    &&& d.spec_pipelines() == pipelines
                    &&& d.spec_resources() == resources
                    &&& d.spec_geometry() == geometry
                    &&& d.spec_clear_color() == clear_color
                    &&& d.spec_phase() == FramePhase::Idle
                },
                Err(e) => setup_error(
                    pipelines.spec_variants().map_values(|v: crate::pipeline::PipelineVariant<P>| v.layout),
                    resources is Some,
                    geometry is Some,
                ) == Some(e),
            },
    {
        let ghost layouts = pipelines.spec_variants().map_values(
            |v: crate::pipeline::PipelineVariant<P>| v.layout,
        );
        let mut needs_resources = false;
        let mut needs_geometry = false;
        let n = pipelines.len();
        let mut k: usize = 0;
        while k < n
            invariant
                n == layouts.len(),
                layouts == pipelines.spec_variants().map_values(
                    |v: crate::pipeline::PipelineVariant<P>| v.layout,
                ),
                k <= n,
                needs_resources == exists|j: int| 0 <= j < k && (#[trigger] layouts[j]).uses_resources,
                needs_geometry == exists|j: int| 0 <= j < k && (#[trigger] layouts[j]).uses_geometry,
            decreases n - k,
        {
            let layout = pipelines.variant(k).layout;
            assert(layout == layouts[k as int]);
            if layout.uses_resources {
                needs_resources = true;
            }
            if layout.uses_geometry {
                needs_geometry = true;
            }
            k = k + 1;
        }
        if needs_resources && resources.is_none() {
            return Err(SetupError::MissingResources);
        }
        if needs_geometry && geometry.is_none() {
            return Err(SetupError::MissingGeometry);
        }
        Ok(FrameDriver { surface, pipelines, resources, geometry, clear_color, phase: FramePhase::Idle })
    }

    /// Reacts to one window event: a resize reconfigures the surface (a
    /// size without area is ignored), a pointer move sets the clear colour,
    /// Space cycles the pipeline variant, Escape or a close request shuts
    /// down, and a redraw request asks for a frame unless shutting down.
    pub fn handle_event(&mut self, event: WindowEvent<C>) -> (r: Response)
        requires
            old(self).wf(),
        ensures
            final(self).wf(),
            Self::handled(*old(self), event, *final(self), r),
    {
        match event {
            WindowEvent::Resized { width, height } => {
                let applied = self.surface.configure(width, height);
                Response {
                    consumed: false,
                    command: if applied { Command::ApplySurface } else { Command::Nothing },
                }
            },
            WindowEvent::PointerMoved { color } => {
                self.clear_color = color;
                Response { consumed: true, command: Command::Nothing }
            },
            WindowEvent::KeyPressed(Key::Space) => {
                self.pipelines.cycle();
                assert(self.spec_layouts() =~= old(self).spec_layouts());
                Response { consumed: true, command: Command::Nothing }
            },
            WindowEvent::KeyPressed(Key::Escape) | WindowEvent::CloseRequested => {
                self.phase = FramePhase::ShuttingDown;
                Response { consumed: false, command: Command::Exit }
            },
            WindowEvent::RedrawRequested => {
                if self.phase == FramePhase::ShuttingDown {
                    Response { consumed: false, command: Command::Nothing }
                } else {
                    Response { consumed: false, command: Command::Redraw }
                }
            },
            _ => Response { consumed: false, command: Command::Nothing },
        }
    }

    /// Starts a frame: the caller then asks for the next redraw, runs
    /// `update` and acquires the surface's next image.
    pub fn begin_frame(&mut self)
        requires
            old(self).spec_phase() == FramePhase::Idle,
        ensures
            Self::moved_to(*old(self), *final(self), FramePhase::Acquiring),
    {
        self.phase = FramePhase::Acquiring;
    }

    /// Advances time-based state before a frame. Nothing moves on its own
    /// yet, so the state stays as it is.
    pub fn update(&mut self)
        ensures
            *final(self) == *old(self),
    {
    }

    /// Takes the outcome of acquiring the next image. An image leads to the
    /// frame plan; a lost or outdated surface to one reconfiguration with
    /// the current size; a timeout to a skipped frame; running out of
    /// memory or any other failure to shutting down.
    pub fn acquired(&mut self, outcome: Result<(), AcquireError>) -> (r: FrameStep<C>)
        requires
            old(self).wf(),
            old(self).spec_phase() == FramePhase::Acquiring,
        ensures
            final(self).wf(),
            Self::acquire_step(*old(self), outcome, *final(self), r),
    {
        match outcome {
            Ok(()) => {
                let plan = self.plan();
                self.phase = FramePhase::Recording;
                FrameStep::Draw(plan)
            },
            Err(e) => match classify(e) {
                Recovery::Reconfigure => {
                    self.phase = FramePhase::Idle;
                    FrameStep::Reconfigure { width: self.surface.width(), height: self.surface.height() }
                },
                Recovery::Skip => {
                    self.phase = FramePhase::Idle;
                    FrameStep::Skip
                },
                Recovery::Fatal => {
                    self.phase = FramePhase::ShuttingDown;
                    FrameStep::Fatal
                },
            },
        }
    }

    /// The frame to record now.
    pub fn plan(&self) -> (r: FramePlan<C>)
        requires
            self.wf(),
        ensures
            r == self.spec_plan(),
    {
        let active = self.pipelines.active();
        let layout = self.pipelines.active_variant().layout;
        assert(self.spec_layouts()[active as int] == layout);
        let draw = if layout.uses_geometry {
            match &self.geometry {
                Some(g) => g.full_draw(),
                None => {
                    assert(false);
                    DrawCall { indexed: true, start: 0, end: 0 }
                },
            }
        } else {
            DrawCall { indexed: false, start: 0, end: layout.vertex_count }
        };
        FramePlan {
            clear_color: self.clear_color,
            pipeline: active,
            bind_resources: layout.uses_resources,
            bind_geometry: layout.uses_geometry,
            draw,
        }
    }

    /// Marks the end of recording, of submitting or of presenting; after
    /// presenting the driver is idle again.
    pub fn advance(&mut self)
        requires
            old(self).spec_phase() == FramePhase::Recording || old(self).spec_phase() == FramePhase::Submitted
                || old(self).spec_phase() == FramePhase::Presented,
        ensures
            Self::moved_to(*old(self), *final(self), after(old(self).spec_phase())),
    {
        self.phase = match self.phase {
            FramePhase::Recording => FramePhase::Submitted,
            FramePhase::Submitted => FramePhase::Presented,
            _ => FramePhase::Idle,
        };
    }

    pub fn surface(&self) -> (r: &SurfaceConfig)
        ensures
            *r == self.spec_surface(),
    {
        &self.surface
    }

    pub fn pipelines(&self) -> (r: &PipelineRegistry<P>)
        ensures
            *r == self.spec_pipelines(),
    {
        &self.pipelines
    }

    pub fn resources(&self) -> (r: &Option<G>)
        ensures
            *r == self.spec_resources(),
    {
        &self.resources
    }

    pub fn geometry(&self) -> (r: &Option<GeometryBuffer<B>>)
        ensures
            *r == self.spec_geometry(),
    {
        &self.geometry
    }

    pub fn clear_color(&self) -> (r: C)
        ensures
            r == self.spec_clear_color(),
    {
        self.clear_color
    }

    pub fn phase(&self) -> (r: FramePhase)
        ensures
            r == self.spec_phase(),
    {
        self.phase
    }
}

/// A lost or outdated surface leads to exactly one reconfiguration, with
/// the size the surface had before the failure; the configuration itself
/// is left as it was, nothing is drawn, and the driver is idle again.
pub proof fn lemma_stale_surface_reconfigures<P, G, B, C: Copy>(
    before: FrameDriver<P, G, B, C>,
    e: AcquireError,
    after: FrameDriver<P, G, B, C>,
    r: FrameStep<C>,
)
    requires
        e == AcquireError::Lost || e == AcquireError::Outdated,
        FrameDriver::acquire_step(before, Err(e), after, r),
    ensures
        r == (FrameStep::<C>::Reconfigure {
            width: before.spec_surface().spec_width(),
            height: before.spec_surface().spec_height(),
        }),
        after.spec_surface() == before.spec_surface(),
        after.spec_phase() == FramePhase::Idle,
{
}

/// A timeout reconfigures nothing and draws nothing: the surface, the
/// clear colour and the pipeline in use stay as they were, and the driver
/// is idle again.
pub proof fn lemma_timeout_skips_frame<P, G, B, C: Copy>(
    before: FrameDriver<P, G, B, C>,
    after: FrameDriver<P, G, B, C>,
    r: FrameStep<C>,
)
    requires
        FrameDriver::acquire_step(before, Err(AcquireError::Timeout), after, r),
    ensures
        r == FrameStep::<C>::Skip,
        after.spec_surface() == before.spec_surface(),
        after.spec_clear_color() == before.spec_clear_color(),
        after.spec_pipelines() == before.spec_pipelines(),
        after.spec_phase() == FramePhase::Idle,
{
}

/// Running out of memory, or any other unrecoverable failure, shuts the
/// driver down, and from then on no event leads to another redraw or out of
/// shutting down.
pub proof fn lemma_fatal_error_shuts_down<P, G, B, C: Copy>(
    before: FrameDriver<P, G, B, C>,
    e: AcquireError,
    after: FrameDriver<P, G, B, C>,
    r: FrameStep<C>,
)
    requires
        e == AcquireError::OutOfMemory || e == AcquireError::Other,
        FrameDriver::acquire_step(before, Err(e), after, r),
    ensures
        r == FrameStep::<C>::Fatal,
        after.spec_phase() == FramePhase::ShuttingDown,
        forall|event: WindowEvent<C>, later: FrameDriver<P, G, B, C>, resp: Response|
            #[trigger] FrameDriver::handled(after, event, later, resp) ==> {
                &&& later.spec_phase() == FramePhase::ShuttingDown
                &&& resp.command != Command::Redraw
            },
{
    assert forall|event: WindowEvent<C>, later: FrameDriver<P, G, B, C>, resp: Response|
        #[trigger] FrameDriver::handled(after, event, later, resp) implies {
            &&& later.spec_phase() == FramePhase::ShuttingDown
            &&& resp.command != Command::Redraw
        } by {
        lemma_shutdown_is_final(after, event, later, resp);
    }
}

/// Once shutting down, every event leaves the driver shutting down and
/// none asks for a redraw.
pub proof fn lemma_shutdown_is_final<P, G, B, C: Copy>(
    before: FrameDriver<P, G, B, C>,
    event: WindowEvent<C>,
    after: FrameDriver<P, G, B, C>,
    r: Response,
)
    requires
        before.spec_phase() == FramePhase::ShuttingDown,
        FrameDriver::handled(before, event, after, r),
    ensures
        after.spec_phase() == FramePhase::ShuttingDown,
        r.command != Command::Redraw,
{
}

/// Geometry prepared from `I` indices and uploaded reports `I` indices, and
/// a frame drawn with a variant that reads it issues its one draw call over
/// the indices `[0, I)`.
pub proof fn lemma_geometry_round_trip<P, G, B, C: Copy>(
    vertex_bytes: Seq<u8>,
    vertex_stride: u64,
    indices: Seq<u16>,
    upload: GeometryUpload,
    buffer: GeometryBuffer<B>,
    driver: FrameDriver<P, G, B, C>,
)
    requires
        GeometryUpload::prepared(vertex_bytes, vertex_stride, indices, Ok(upload)),
        buffer.spec_index_count() == upload.spec_index_count(),
        driver.wf(),
        driver.spec_geometry() == Some(buffer),
        driver.spec_active_layout().uses_geometry,
    ensures
        buffer.spec_index_count() == indices.len(),
        driver.spec_plan().bind_geometry,
        driver.spec_plan().draw == (DrawCall { indexed: true, start: 0, end: indices.len() as u32 }),
{
}

} // verus!
