//! The rendering session and its state machine.
//!
//! The session owns the decisions of the render loop: how GPU
//! initialization advances from nothing to a configured surface and a
//! built pipeline, and how a ready session reacts to the events the host
//! delivers — resizes, mouse input, redraw requests, and the outcome of
//! each frame's image acquisition.  The host performs the GPU and
//! window-system work an action asks for and reports what happened; every
//! decision in between is taken here.
//!
//! The event step is given twice: once as the specification function
//! `step`, a mathematical map from state and event to next state and
//! action, and once as the executable `handle_event`, proved to implement
//! it.  The laws about event sequences are stated over `step`.

use crate::camera::{initial_camera, Camera};
use crate::geometry::GeometryBuffers;
use crate::pipeline::{
    background_color,
    clear_color,
    is_chosen_format,
    negotiate_surface_config,
    pipeline_config,
    ClearColor,
    ConfigError,
    PipelineConfig,
    PresentPacing,
    SurfaceConfig,
    SurfaceFormat,
};
use vstd::prelude::*;

verus! {

/// Where the session stands in its life: the initialization states are
/// passed once, in order; `Ready` is re-entered every frame; `Terminated`
/// is final, reached by a fatal startup failure or a close request.
#[derive(Clone, Copy, Debug, PartialEq, Eq, Structural)]
pub enum Phase {
    Uninitialized,
    AdapterAcquired,
    DeviceAcquired,
    SurfaceConfigured,
    Ready,
    Terminated,
}

/// A fatal startup failure; there is no retry path for any of these.
#[derive(Clone, Copy, Debug, PartialEq, Eq, Structural)]
pub enum InitError {
    NoAdapter,
    NoDevice,
    Config(ConfigError),
}

/// An event the host delivers to a ready session, in arrival order.
/// `SurfaceReconfigured` is the host's report that it applied the surface
/// configuration a previous action asked for.
#[derive(Clone, Copy, Debug, PartialEq, Eq, Structural)]
pub enum SessionEvent {
    Resized { width: u32, height: u32 },
    PrimaryButton { pressed: bool },
    PointerMotion { dx: i32, dy: i32 },
    SurfaceReconfigured,
    RedrawRequested,
    CloseRequested,
}

/// The command sequence of one frame: begin a render pass clearing the
/// target to `clear`, bind the pipeline and the camera binding at
/// `binding_slot`, bind the vertex and index buffers, and issue one
/// indexed draw of `index_count` indices starting at `first_index` for
/// `instance_count` instances.
#[derive(Clone, Copy, Debug, PartialEq, Eq, Structural)]
pub struct FramePlan {
    pub clear: ClearColor,
    pub binding_slot: u32,
    pub first_index: u32,
    pub index_count: u32,
    pub instance_count: u32,
}

/// What the host must do after a step.
#[derive(Clone, Copy, Debug, PartialEq, Eq, Structural)]
pub enum SessionAction {
    /// Nothing; hand control back to the event dispatcher.
    Continue,
    /// Apply this configuration to the surface, then report
    /// `SurfaceReconfigured`.
    Reconfigure(SurfaceConfig),
    /// Acquire the next surface image and, if that succeeds, encode and
    /// submit this frame; report the outcome through `finish_frame`.
    RenderFrame(FramePlan),
    /// Leave the event loop.
    Exit,
}

/// How acquiring the next presentable image went.  `Lost` and `Outdated`
/// are transient and ask for a reconfiguration; `Timeout` is transient and
/// asks for nothing; `OutOfMemory` is fatal.
#[derive(Clone, Copy, Debug, PartialEq, Eq, Structural)]
pub enum AcquireOutcome {
    Acquired,
    Lost,
    Outdated,
    Timeout,
    OutOfMemory,
}

/// The session: the current phase, the camera, the negotiated surface
/// configuration, the mouse-drag state, whether the surface must be
/// reconfigured before the next frame, how many indices a frame draws, and
/// the rotation the drag input has accumulated (in raw motion counts; the
/// host turns them into angles when the orbit math is wired in).
#[derive(Clone, Copy, Debug, PartialEq, Eq, Structural)]
pub struct Session {
    pub phase: Phase,
    pub camera: Camera,
    pub config: Option<SurfaceConfig>,
    pub dragging: bool,
    pub needs_reconfigure: bool,
    pub index_count: u32,
    pub yaw_steps: i64,
    pub pitch_steps: i64,
}

/// Clamp a mathematical integer into the `i64` range.
pub open spec fn clamp_i64(x: int) -> i64 {
    if x > i64::MAX as int {
        i64::MAX
    } else if x < i64::MIN as int {
        i64::MIN
    } else {
        x as i64
    }
}

/// Saturating addition on `i64`.
fn sat_add_i64(a: i64, b: i64) -> (r: i64)
    ensures
        r == clamp_i64(a + b),
{
    if b >= 0 {
        if a > i64::MAX - b {
            i64::MAX
        } else {
            a + b
        }
    } else {
        if a < i64::MIN - b {
            i64::MIN
        } else {
            a + b
        }
    }
}

impl Session {
    /// What every entry point preserves: the camera parameters stay valid,
    /// and from surface configuration onwards a configuration with a
    /// nonzero size is present.
    pub open spec fn inv(self) -> bool {
        &&& self.camera.well_formed()
        &&& (self.phase == Phase::SurfaceConfigured || self.phase == Phase::Ready) ==> {
            &&& self.config is Some
            &&& self.config->Some_0.width > 0
            &&& self.config->Some_0.height > 0
        }
    }

    /// A fresh session: nothing acquired, the default camera, no drag in
    /// progress, nothing drawn yet.
    pub fn new() -> (s: Session)
        ensures
            s == initial_session(),
            s.inv(),
    {
        Session {
            phase: Phase::Uninitialized,
            camera: Camera::default(),
            config: None,
            dragging: false,
            needs_reconfigure: false,
            index_count: 0,
            yaw_steps: 0,
            pitch_steps: 0,
        }
    }

    /// Record how the adapter request ended.  A compatible adapter moves
    /// the session on; none found is fatal.
    pub fn adapter_request_completed(&mut self, found: bool) -> (r: Result<(), InitError>)
        requires
            old(self).inv(),
            old(self).phase == Phase::Uninitialized,
        ensures
            final(self).inv(),
            found ==> r is Ok && *final(self) == (Session {
                phase: Phase::AdapterAcquired,
                ..*old(self)
            }),
            !found ==> r == Err::<(), InitError>(InitError::NoAdapter) && *final(self) == (Session {
                phase: Phase::Terminated,
                ..*old(self)
            }),
    {
        if found {
            self.phase = Phase::AdapterAcquired;
            Ok(())
        } else {
            self.phase = Phase::Terminated;
            Err(InitError::NoAdapter)
        }
    }

    /// Record how the device and queue request ended.  Denial is fatal.
    pub fn device_request_completed(&mut self, granted: bool) -> (r: Result<(), InitError>)
        requires
            old(self).inv(),
            old(self).phase == Phase::AdapterAcquired,
        ensures
            final(self).inv(),
            granted ==> r is Ok && *final(self) == (Session {
                phase: Phase::DeviceAcquired,
                ..*old(self)
            }),
            !granted ==> r == Err::<(), InitError>(InitError::NoDevice) && *final(self) == (Session {
                phase: Phase::Terminated,
                ..*old(self)
            }),
    {
        if granted {
            self.phase = Phase::DeviceAcquired;
            Ok(())
        } else {
            self.phase = Phase::Terminated;
            Err(InitError::NoDevice)
        }
    }

    /// Negotiate and adopt the surface configuration from what the surface
    /// reported and the window's current size, and point the camera's
    /// aspect ratio at that size.  Every failure is fatal.
    pub fn configure_surface(
        &mut self,
        formats: &Vec<SurfaceFormat>,
        alpha_mode_count: usize,
        width: u32,
        height: u32,
    ) -> (r: Result<SurfaceConfig, InitError>)
        requires
            old(self).inv(),
            old(self).phase == Phase::DeviceAcquired,
        ensures
            final(self).inv(),
            r is Ok <==> formats@.len() > 0 && alpha_mode_count > 0 && width > 0 && height > 0,
            match r {
                Ok(c) => {
                    &&& is_chosen_format(formats@, c.format)
                    &&& c.width == width
                    &&& c.height == height
                    &&& c.present == PresentPacing::AutoVsync
                    &&& c.alpha_mode_index == 0
                    &&& *final(self) == (Session {
                        phase: Phase::SurfaceConfigured,
                        camera: Camera { aspect_w: width, aspect_h: height, ..old(self).camera },
                        config: Some(c),
                        ..*old(self)
                    })
                },
                Err(e) => {
                    &&& final(self).phase == Phase::Terminated
                    &&& (e == InitError::Config(ConfigError::NoFormats) <==> formats@.len() == 0)
                    &&& (e == InitError::Config(ConfigError::NoAlphaModes) <==> formats@.len() > 0
                        && alpha_mode_count == 0)
                    &&& (e == InitError::Config(ConfigError::ZeroDimension) <==> formats@.len() > 0
                        && alpha_mode_count > 0 && (width == 0 || height == 0))
                },
            },
    {
        match negotiate_surface_config(formats, alpha_mode_count, width, height) {
            Ok(c) => {
                self.camera.set_aspect(width, height);
                self.config = Some(c);
                self.phase = Phase::SurfaceConfigured;
                Ok(c)
            },
            Err(e) => {
                self.phase = Phase::Terminated;
                Err(InitError::Config(e))
            },
        }
    }

    /// Build the pipeline configuration for the negotiated format, adopt
    /// the geometry's index count as the per-frame draw range, and become
    /// ready to render.
    pub fn make_ready(&mut self, geometry: &GeometryBuffers) -> (p: PipelineConfig)
        requires
            old(self).inv(),
            old(self).phase == Phase::SurfaceConfigured,
            geometry.well_formed(),
            geometry.indices@.len() <= u32::MAX,
        ensures
            final(self).inv(),
            p.is_session_pipeline(old(self).config->Some_0.format),
            *final(self) == (Session {
                phase: Phase::Ready,
                index_count: geometry.indices@.len() as u32,
                ..*old(self)
            }),
    {
        let cfg = self.config.unwrap();
        self.index_count = geometry.indices.len() as u32;
        self.phase = Phase::Ready;
        pipeline_config(cfg.format)
    }

    /// React to one host event; the returned action is what the host must
    /// do before handing the next event in.  Implements `step` exactly.
    pub fn handle_event(&mut self, event: SessionEvent) -> (a: SessionAction)
        requires
            old(self).inv(),
            old(self).phase == Phase::Ready,
        ensures
            final(self).inv(),
            *final(self) == step(*old(self), event).0,
            a == step(*old(self), event).1,
    {
        match event {
            SessionEvent::Resized { width, height } => {
                if width > 0 && height > 0 {
                    self.camera.set_aspect(width, height);
                    let old_cfg = self.config.unwrap();
                    let cfg = SurfaceConfig { width, height, ..old_cfg };
                    self.config = Some(cfg);
                    self.needs_reconfigure = true;
                    SessionAction::Reconfigure(cfg)
                } else {
                    SessionAction::Continue
                }
            },
            SessionEvent::PrimaryButton { pressed } => {
                self.dragging = pressed;
                SessionAction::Continue
            },
            SessionEvent::PointerMotion { dx, dy } => {
                if self.dragging {
                    self.yaw_steps = sat_add_i64(self.yaw_steps, -(dx as i64));
                    self.pitch_steps = sat_add_i64(self.pitch_steps, dy as i64);
                }
                SessionAction::Continue
            },
            SessionEvent::SurfaceReconfigured => {
                self.needs_reconfigure = false;
                SessionAction::Continue
            },
            SessionEvent::RedrawRequested => {
                if self.needs_reconfigure {
                    SessionAction::Reconfigure(self.config.unwrap())
                } else {
                    SessionAction::RenderFrame(
                        FramePlan {
                            clear: clear_color(),
                            binding_slot: 0,
                            first_index: 0,
                            index_count: self.index_count,
                            instance_count: 1,
                        },
                    )
                }
            },
            SessionEvent::CloseRequested => {
                self.phase = Phase::Terminated;
                SessionAction::Exit
            },
        }
    }

    /// Record how this frame's image acquisition went.  The frame is
    /// submitted and presented only on success; a lost or outdated surface
    /// skips the frame and demands a reconfiguration before the next
    /// attempt; a timeout just skips the frame; running out of memory ends
    /// the session.
    pub fn finish_frame(&mut self, outcome: AcquireOutcome) -> (submit: bool)
        requires
            old(self).inv(),
            old(self).phase == Phase::Ready,
        ensures
            final(self).inv(),
            submit <==> outcome == AcquireOutcome::Acquired,
            outcome == AcquireOutcome::Acquired ==> *final(self) == *old(self),
            outcome == AcquireOutcome::Lost || outcome == AcquireOutcome::Outdated
                ==> *final(self) == (Session { needs_reconfigure: true, ..*old(self) }),
            outcome == AcquireOutcome::Timeout ==> *final(self) == *old(self),
            outcome == AcquireOutcome::OutOfMemory ==> *final(self) == (Session {
                phase: Phase::Terminated,
                ..*old(self)
            }),
    {
        match outcome {
            AcquireOutcome::Acquired => true,
            AcquireOutcome::Lost | AcquireOutcome::Outdated => {
                self.needs_reconfigure = true;
                false
            },
            AcquireOutcome::Timeout => false,
            AcquireOutcome::OutOfMemory => {
                self.phase = Phase::Terminated;
                false
            },
        }
    }
}

/// The state a session is created in.
pub open spec fn initial_session() -> Session {
    Session {
        phase: Phase::Uninitialized,
        camera: initial_camera(),
        config: None,
        dragging: false,
        needs_reconfigure: false,
        index_count: 0,
        yaw_steps: 0,
        pitch_steps: 0,
    }
}

/// The frame a ready session encodes: clear to the fixed background and
/// draw the full index range once, with the camera binding at slot 0.
pub open spec fn frame_plan(s: Session) -> FramePlan {
    FramePlan {
        clear: background_color(),
        binding_slot: 0,
        first_index: 0,
        index_count: s.index_count,
        instance_count: 1,
    }
}

/// The event step of a ready session: the next state and the action the
/// host must perform.
///
/// A resize to a nonzero size updates the camera's aspect ratio and the
/// stored configuration and demands a reconfiguration; a resize to an
/// empty size changes nothing (the host delivers a real size when the
/// window reappears).  Button and motion events only touch the drag state
/// and the accumulated rotation.  A redraw request renders only when no
/// reconfiguration is pending; otherwise it demands the reconfiguration
/// again.  A close request terminates the session.
pub open spec fn step(s: Session, e: SessionEvent) -> (Session, SessionAction) {
    match e {
        SessionEvent::Resized { width, height } => {
            if width > 0 && height > 0 {
                let cfg = SurfaceConfig { width, height, ..s.config->Some_0 };
                (
                    Session {
                        camera: Camera { aspect_w: width, aspect_h: height, ..s.camera },
                        config: Some(cfg),
                        needs_reconfigure: true,
                        ..s
                    },
                    SessionAction::Reconfigure(cfg),
                )
            } else {
                (s, SessionAction::Continue)
            }
        },
        SessionEvent::PrimaryButton { pressed } => {
            (Session { dragging: pressed, ..s }, SessionAction::Continue)
        },
        SessionEvent::PointerMotion { dx, dy } => {
            if s.dragging {
                (
                    Session {
                        yaw_steps: clamp_i64(s.yaw_steps - dx),
                        pitch_steps: clamp_i64(s.pitch_steps + dy),
                        ..s
                    },
                    SessionAction::Continue,
                )
            } else {
                (s, SessionAction::Continue)
            }
        },
        SessionEvent::SurfaceReconfigured => {
            (Session { needs_reconfigure: false, ..s }, SessionAction::Continue)
        },
        SessionEvent::RedrawRequested => {
            if s.needs_reconfigure {
                (s, SessionAction::Reconfigure(s.config->Some_0))
            } else {
                (s, SessionAction::RenderFrame(frame_plan(s)))
            }
        },
        SessionEvent::CloseRequested => {
            (Session { phase: Phase::Terminated, ..s }, SessionAction::Exit)
        },
    }
}

/// Mouse input alone never moves the camera: neither a button change nor
/// pointer motion touches any camera field.
pub proof fn lemma_input_leaves_camera(s: Session, e: SessionEvent)
    requires
        e is PrimaryButton || e is PointerMotion,
    ensures
        step(s, e).0.camera == s.camera,
{
}

/// Pressing and then releasing the primary button with no motion in
/// between leaves the camera — its eye and target in particular —
/// exactly as it was.
pub proof fn lemma_click_without_motion_preserves_camera(s: Session)
    ensures
        ({
            let pressed = step(s, SessionEvent::PrimaryButton { pressed: true }).0;
            let released = step(pressed, SessionEvent::PrimaryButton { pressed: false }).0;
            &&& released.camera == s.camera
            &&& released.camera.eye == s.camera.eye
            &&& released.camera.target == s.camera.target
        }),
{
}

/// A resize to a nonzero size updates the camera's aspect ratio to exactly
/// the new width over the new height, leaves every other transform
/// parameter alone, records the new size in the configuration, and demands
/// a reconfiguration of the surface.
pub proof fn lemma_resize_updates_aspect(s: Session, width: u32, height: u32)
    requires
        width > 0,
        height > 0,
    ensures
        ({
            let (s2, a) = step(s, SessionEvent::Resized { width, height });
            &&& s2.camera.aspect_w == width
            &&& s2.camera.aspect_h == height
            &&& s2.camera.eye == s.camera.eye
            &&& s2.camera.target == s.camera.target
            &&& s2.camera.up == s.camera.up
            &&& s2.camera.fovy_mdeg == s.camera.fovy_mdeg
            &&& s2.camera.znear_milli == s.camera.znear_milli
            &&& s2.camera.zfar_milli == s.camera.zfar_milli
            &&& s2.needs_reconfigure
            &&& s2.config->Some_0.width == width
            &&& s2.config->Some_0.height == height
            &&& a == SessionAction::Reconfigure(s2.config->Some_0)
        }),
{
}

/// While a reconfiguration is pending, a redraw request never renders: it
/// demands the reconfiguration again instead.
pub proof fn lemma_no_render_while_reconfigure_pending(s: Session)
    requires
        s.needs_reconfigure,
    ensures
        !(step(s, SessionEvent::RedrawRequested).1 is RenderFrame),
        step(s, SessionEvent::RedrawRequested).1 == SessionAction::Reconfigure(s.config->Some_0),
{
}

/// Only the host's report that it reconfigured the surface clears the
/// pending-reconfiguration flag.
pub proof fn lemma_only_reconfiguration_clears_flag(s: Session, e: SessionEvent)
    requires
        s.needs_reconfigure,
        !(e is SurfaceReconfigured),
    ensures
        step(s, e).0.needs_reconfigure,
{
}

/// Run a sequence of events from a state, keeping only the final state.
pub open spec fn run_events(s: Session, events: Seq<SessionEvent>) -> Session
    decreases events.len(),
{
    if events.len() == 0 {
        s
    } else {
        run_events(step(s, events[0]).0, events.drop_first())
    }
}

/// No step through `events` from `s` ever asks the host to render.
pub open spec fn renders_nothing(s: Session, events: Seq<SessionEvent>) -> bool
    decreases events.len(),
{
    if events.len() == 0 {
        true
    } else {
        !(step(s, events[0]).1 is RenderFrame) && renders_nothing(
            step(s, events[0]).0,
            events.drop_first(),
        )
    }
}

/// The session invariant — a valid camera and, once configured, a
/// configuration of nonzero size — survives every event, and the phase
/// stays `Ready` for every event but a close request.
pub proof fn lemma_step_preserves_invariant(s: Session, e: SessionEvent)
    requires
        s.inv(),
        s.phase == Phase::Ready,
    ensures
        step(s, e).0.inv(),
        !(e is CloseRequested) ==> step(s, e).0.phase == Phase::Ready,
{
}

/// The invariant survives any whole sequence of events, by induction over
/// the single steps.
pub proof fn lemma_run_preserves_invariant(s: Session, events: Seq<SessionEvent>)
    requires
        s.inv(),
        s.phase == Phase::Ready,
        forall|i: int| 0 <= i < events.len() ==> !(#[trigger] events[i] is CloseRequested),
    ensures
        run_events(s, events).inv(),
        run_events(s, events).phase == Phase::Ready,
    decreases events.len(),
{
    if events.len() > 0 {
        lemma_step_preserves_invariant(s, events[0]);
        assert(forall|i: int|
            0 <= i < events.drop_first().len() ==> !(#[trigger] events.drop_first()[i]
                is CloseRequested));
        lemma_run_preserves_invariant(step(s, events[0]).0, events.drop_first());
    }
}

/// Once a resize (or a lost surface) has made a reconfiguration pending,
/// no redraw request is served until the host reports the surface
/// reconfigured: along any event sequence without that report, no step
/// renders and the demand stays pending.
pub proof fn lemma_no_render_before_reconfiguration(s: Session, events: Seq<SessionEvent>)
    requires
        s.needs_reconfigure,
        forall|i: int| 0 <= i < events.len() ==> !(#[trigger] events[i] is SurfaceReconfigured),
    ensures
        renders_nothing(s, events),
        run_events(s, events).needs_reconfigure,
    decreases events.len(),
{
    if events.len() > 0 {
        lemma_only_reconfiguration_clears_flag(s, events[0]);
        assert(forall|i: int|
            0 <= i < events.drop_first().len() ==> !(#[trigger] events.drop_first()[i]
                is SurfaceReconfigured));
        lemma_no_render_before_reconfiguration(step(s, events[0]).0, events.drop_first());
    }
}

} // verus!
