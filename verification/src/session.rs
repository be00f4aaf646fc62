//! The orchestrator: one session owns the surface lifecycle, the pointer
//! state and the frame pacing, and decides on every display-server event what
//! the embedding program must do. The program translates protocol events into
//! [`DisplayEvent`] values, feeds them to [`Session::handle_event`], and
//! carries out the returned [`Action`]; the decisions themselves all happen
//! here.

use vstd::prelude::*;
use crate::config::PaperConfig;
use crate::pointer::{PointerSample, PointerTrail};

verus! {

/// Nanoseconds in one second, for frame-interval arithmetic.
pub const NANOS_PER_SECOND: u64 = 1_000_000_000;

/// The surface dimension used when neither the launch configuration nor the
/// display server supplied one.
pub const DEFAULT_DIMENSION: u32 = 256;

/// Where the one render surface stands in its life.
#[derive(Clone, Copy, PartialEq, Eq, Structural, Debug)]
pub enum Phase {
    /// No output is bound; discovery is running.
    Unbound,
    /// Surface and pipeline exist; waiting for the compositor's configure.
    Bound,
    /// Configured; drawing on every frame-pacing callback.
    Rendering,
    /// The compositor closed the surface; the event loop should end.
    Destroyed,
}

/// One display-server event, reduced to the plain values the session decides
/// by. The embedding program resolves protocol object identities to the
/// booleans (`was_bound`, `on_surface`, `is_pointer`) and reads `now_nanos`
/// from a monotonic clock.
pub enum DisplayEvent {
    /// An output appeared, with its name and logical size where the display
    /// server reported them.
    OutputAdded {
        name: Option<String>,
        logical_width: Option<u32>,
        logical_height: Option<u32>,
        now_nanos: u64,
    },
    /// An output disappeared; `was_bound` says the surface sat on it.
    OutputRemoved { was_bound: bool },
    /// The pointer entered or moved at a surface-local pixel position;
    /// `on_surface` says the event concerns the bound surface.
    PointerMoved { px: u32, py: u32, on_surface: bool },
    /// The pointer left a surface.
    PointerLeft { on_surface: bool },
    /// The seat gained a capability; `is_pointer` says it is the pointer.
    CapabilityAdded { is_pointer: bool },
    /// The seat lost a capability.
    CapabilityRemoved { is_pointer: bool },
    /// The compositor negotiated a surface size; zero means "your choice".
    SurfaceConfigured { width: u32, height: u32, now_nanos: u64 },
    /// The compositor closed the surface.
    SurfaceClosed,
    /// The compositor is ready for the next frame.
    FramePacing { now_nanos: u64 },
}

/// What one frame draw needs from the session: how long to sleep first to
/// hold the frame-rate cap, and the elapsed time since the surface was bound,
/// for the time uniform.
#[derive(Clone, Copy, PartialEq, Eq, Structural, Debug)]
pub struct DrawCommand {
    pub sleep_nanos: u64,
    pub elapsed_nanos: u64,
}

/// What the embedding program must do after an event.
#[derive(Clone, Copy, PartialEq, Eq, Structural, Debug)]
pub enum Action {
    /// Nothing.
    Idle,
    /// Create the layer surface and GPU pipeline on the newly taken output,
    /// with this initial size and the configured anchors and margins.
    BindSurface { width: u32, height: u32 },
    /// (Re)configure the GPU surface to this size, then draw one frame.
    ConfigureSurface { width: u32, height: u32, draw: DrawCommand },
    /// Draw one frame.
    Draw { draw: DrawCommand },
    /// Destroy the surface's GPU resources; discovery starts over.
    TeardownSurface,
    /// Take the seat's pointer and start delivering its events.
    AcquirePointer,
    /// Drop the seat's pointer.
    ReleasePointer,
    /// Leave the event loop; the process exits cleanly.
    Exit,
}

/// Nanoseconds from `earlier` to `later` on a monotonic clock; zero where
/// the readings come out of order.
pub open spec fn nanos_between(earlier: u64, later: u64) -> u64 {
    if later >= earlier {
        (later - earlier) as u64
    } else {
        0
    }
}

/// The frame interval of a cap of `fps` frames per second.
pub open spec fn spec_frame_interval(fps: u64) -> u64
    recommends
        fps >= 1,
{
    (NANOS_PER_SECOND as int / fps as int) as u64
}

/// How long to sleep before drawing: what is left of the frame interval
/// since the previous frame; nothing when the frame is already late or no
/// cap is set.
pub open spec fn spec_frame_sleep(fps: Option<u64>, last_frame: u64, now: u64) -> u64 {
    match fps {
        Some(f) => nanos_between(nanos_between(last_frame, now), spec_frame_interval(f)),
        None => 0,
    }
}

/// The dimension a surface is created or configured with: the value at hand,
/// else the safe default.
pub open spec fn spec_dim_or_default(d: Option<u32>) -> u32 {
    match d {
        Some(w) => w,
        None => DEFAULT_DIMENSION,
    }
}

/// The dimension remembered at bind time: the configured value wins over the
/// output's logical size.
pub open spec fn spec_bind_dim(configured: Option<u32>, logical: Option<u32>) -> Option<u32> {
    match configured {
        Some(w) => Some(w),
        None => logical,
    }
}

/// The session: the decision state of the whole program, one per process.
pub struct Session {
    /// The launch configuration; never mutated.
    pub config: PaperConfig,
    /// Where the surface stands in its life.
    pub phase: Phase,
    /// The surface width as far as it is known (configured, or the bound
    /// output's logical width, or negotiated by a configure event).
    pub width: Option<u32>,
    /// The surface height, likewise.
    pub height: Option<u32>,
    /// Whether the seat's pointer is held.
    pub have_pointer: bool,
    /// The latest pointer position on the surface, or the sentinel.
    pub current: PointerSample,
    /// The trail of pointer positions handed to the shader, newest first.
    pub trail: PointerTrail,
    /// Monotonic reading when the surface was bound; elapsed time is
    /// measured from here, so a paused process never jumps the shader.
    pub start_nanos: u64,
    /// Monotonic reading of the previous frame, for the frame-rate cap.
    pub last_frame_nanos: u64,
}

/// Whether a discovered output is taken: nothing is bound yet, and the name
/// filter, where one is set, matches the output's reported name. An output
/// whose name is unknown never matches a filter.
pub open spec fn takes_output(s: Session, name: Option<String>) -> bool {
    &&& s.phase is Unbound
    &&& match s.config.output_name {
        Some(f) => name matches Some(n) && n@ == f@,
        None => true,
    }
}

/// Whether a pointer event is acted on: it concerns the bound surface, the
/// surface exists, and its size is known (without a size there is nothing to
/// normalize against). Everything else is silently discarded.
pub open spec fn spec_pointer_relevant(s: Session, on_surface: bool) -> bool {
    &&& on_surface
    &&& (s.phase is Bound || s.phase is Rendering)
    &&& s.width is Some
    &&& s.height is Some
}

/// The draw command one frame at monotonic reading `now` gets.
pub open spec fn spec_draw_command(pre: Session, now: u64) -> DrawCommand {
    DrawCommand {
        sleep_nanos: spec_frame_sleep(pre.config.fps, pre.last_frame_nanos, now),
        elapsed_nanos: nanos_between(pre.start_nanos, now),
    }
}

/// Everything but the tracked pointer position is unchanged.
pub open spec fn same_but_current(pre: Session, post: Session) -> bool {
    &&& post.config == pre.config
    &&& post.phase == pre.phase
    &&& post.width == pre.width
    &&& post.height == pre.height
    &&& post.have_pointer == pre.have_pointer
    &&& post.trail@ == pre.trail@
    &&& post.start_nanos == pre.start_nanos
    &&& post.last_frame_nanos == pre.last_frame_nanos
}

/// The shared part of every draw: the current pointer position (or sentinel)
/// is pushed onto the trail, the oldest entry drops out, and the frame time
/// is remembered for pacing. Nothing else moves.
pub open spec fn frame_post(pre: Session, post: Session, now: u64) -> bool {
    &&& post.trail@ == PointerTrail::spec_push(pre.trail@, pre.current)
    &&& post.last_frame_nanos == now
    &&& post.config == pre.config
    &&& post.phase == pre.phase
    &&& post.width == pre.width
    &&& post.height == pre.height
    &&& post.have_pointer == pre.have_pointer
    &&& post.current == pre.current
    &&& post.start_nanos == pre.start_nanos
}

/// What an output discovery does: a taken output binds the surface (the
/// remembered size prefers the configured one, then the output's logical
/// size) and starts the clock; any other output changes nothing.
pub open spec fn output_added_post(
    pre: Session,
    post: Session,
    name: Option<String>,
    lw: Option<u32>,
    lh: Option<u32>,
    now: u64,
    a: Action,
) -> bool {
    if takes_output(pre, name) {
        &&& post.phase is Bound
        &&& post.width == spec_bind_dim(pre.config.width, lw)
        &&& post.height == spec_bind_dim(pre.config.height, lh)
        &&& post.start_nanos == now
        &&& post.last_frame_nanos == now
        &&& post.config == pre.config
        &&& post.have_pointer == pre.have_pointer
        &&& post.current == pre.current
        &&& post.trail@ == pre.trail@
        &&& a == (Action::BindSurface {
            width: spec_dim_or_default(spec_bind_dim(pre.config.width, lw)),
            height: spec_dim_or_default(spec_bind_dim(pre.config.height, lh)),
        })
    } else {
        post == pre && a == Action::Idle
    }
}

/// What an output removal does: losing the bound output tears the surface
/// down and discovery starts over with a clean pointer state; losing any
/// other output changes nothing.
pub open spec fn output_removed_post(
    pre: Session,
    post: Session,
    was_bound: bool,
    a: Action,
) -> bool {
    if was_bound && (pre.phase is Bound || pre.phase is Rendering) {
        &&& post.phase is Unbound
        &&& post.width == pre.config.width
        &&& post.height == pre.config.height
        &&& post.current is Absent
        &&& post.trail@.len() == pre.trail@.len()
        &&& (forall|i: int| 0 <= i < post.trail@.len() ==> post.trail@[i] is Absent)
        &&& post.config == pre.config
        &&& post.have_pointer == pre.have_pointer
        &&& post.start_nanos == pre.start_nanos
        &&& post.last_frame_nanos == pre.last_frame_nanos
        &&& a == Action::TeardownSurface
    } else {
        post == pre && a == Action::Idle
    }
}

/// What a pointer motion (or enter) does: on the bound surface of known size
/// it stores the position, exactly, together with the size it is normalized
/// against; anywhere else it is discarded.
pub open spec fn pointer_moved_post(
    pre: Session,
    post: Session,
    px: u32,
    py: u32,
    on_surface: bool,
    a: Action,
) -> bool {
    if spec_pointer_relevant(pre, on_surface) {
        &&& post.current == (PointerSample::At {
            px,
            py,
            width: spec_dim_or_default(pre.width),
            height: spec_dim_or_default(pre.height),
        })
        &&& same_but_current(pre, post)
        &&& a == Action::Idle
    } else {
        post == pre && a == Action::Idle
    }
}

/// What a pointer leave does: on the bound surface it stores the sentinel,
/// so the next frame pushes "no pointer present".
pub open spec fn pointer_left_post(pre: Session, post: Session, on_surface: bool, a: Action) -> bool {
    if spec_pointer_relevant(pre, on_surface) {
        &&& post.current is Absent
        &&& same_but_current(pre, post)
        &&& a == Action::Idle
    } else {
        post == pre && a == Action::Idle
    }
}

/// What a gained seat capability does: the first pointer capability is
/// acquired; anything else is ignored.
pub open spec fn capability_added_post(pre: Session, post: Session, is_pointer: bool, a: Action) -> bool {
    if is_pointer && !pre.have_pointer {
        &&& post.have_pointer
        &&& post.config == pre.config
        &&& post.phase == pre.phase
        &&& post.width == pre.width
        &&& post.height == pre.height
        &&& post.current == pre.current
        &&& post.trail@ == pre.trail@
        &&& post.start_nanos == pre.start_nanos
        &&& post.last_frame_nanos == pre.last_frame_nanos
        &&& a == Action::AcquirePointer
    } else {
        post == pre && a == Action::Idle
    }
}

/// What a lost seat capability does: a held pointer is released.
pub open spec fn capability_removed_post(pre: Session, post: Session, is_pointer: bool, a: Action) -> bool {
    if is_pointer && pre.have_pointer {
        &&& !post.have_pointer
        &&& post.config == pre.config
        &&& post.phase == pre.phase
        &&& post.width == pre.width
        &&& post.height == pre.height
        &&& post.current == pre.current
        &&& post.trail@ == pre.trail@
        &&& post.start_nanos == pre.start_nanos
        &&& post.last_frame_nanos == pre.last_frame_nanos
        &&& a == Action::ReleasePointer
    } else {
        post == pre && a == Action::Idle
    }
}

/// What a configure does: a nonzero negotiated size wins over the remembered
/// one; an existing surface is (re)configured, moves to Rendering and draws
/// one frame at once. A configure with no surface only remembers the size.
pub open spec fn configure_post(
    pre: Session,
    post: Session,
    w: u32,
    h: u32,
    now: u64,
    a: Action,
) -> bool {
    let width1 = if w != 0 || h != 0 { Some(w) } else { pre.width };
    let height1 = if w != 0 || h != 0 { Some(h) } else { pre.height };
    if pre.phase is Bound || pre.phase is Rendering {
        &&& post.phase is Rendering
        &&& post.width == width1
        &&& post.height == height1
        &&& post.trail@ == PointerTrail::spec_push(pre.trail@, pre.current)
        &&& post.last_frame_nanos == now
        &&& post.config == pre.config
        &&& post.have_pointer == pre.have_pointer
        &&& post.current == pre.current
        &&& post.start_nanos == pre.start_nanos
        &&& a == (Action::ConfigureSurface {
            width: spec_dim_or_default(width1),
            height: spec_dim_or_default(height1),
            draw: spec_draw_command(pre, now),
        })
    } else {
        &&& post.phase == pre.phase
        &&& post.width == width1
        &&& post.height == height1
        &&& post.trail@ == pre.trail@
        &&& post.config == pre.config
        &&& post.have_pointer == pre.have_pointer
        &&& post.current == pre.current
        &&& post.start_nanos == pre.start_nanos
        &&& post.last_frame_nanos == pre.last_frame_nanos
        &&& a == Action::Idle
    }
}

/// What a close does: the session is destroyed and the program exits, in
/// every phase.
pub open spec fn closed_post(pre: Session, post: Session, a: Action) -> bool {
    &&& post.phase is Destroyed
    &&& post.config == pre.config
    &&& post.width == pre.width
    &&& post.height == pre.height
    &&& post.have_pointer == pre.have_pointer
    &&& post.current == pre.current
    &&& post.trail@ == pre.trail@
    &&& post.start_nanos == pre.start_nanos
    &&& post.last_frame_nanos == pre.last_frame_nanos
    &&& a == Action::Exit
}

/// What a frame-pacing callback does: while rendering it draws exactly one
/// frame (trail push, pacing sleep, elapsed time); in every other phase it
/// does nothing. Draws happen only here and after a configure, never
/// speculatively.
pub open spec fn frame_pacing_post(pre: Session, post: Session, now: u64, a: Action) -> bool {
    if pre.phase is Rendering {
        &&& frame_post(pre, post, now)
        &&& a == (Action::Draw { draw: spec_draw_command(pre, now) })
    } else {
        post == pre && a == Action::Idle
    }
}

/// The whole dispatch relation: how one event moves the session and what the
/// embedding program must do afterwards.
pub open spec fn step(pre: Session, ev: DisplayEvent, post: Session, a: Action) -> bool {
    match ev {
        DisplayEvent::OutputAdded { name, logical_width, logical_height, now_nanos } => {
            output_added_post(pre, post, name, logical_width, logical_height, now_nanos, a)
        },
        DisplayEvent::OutputRemoved { was_bound } => {
            output_removed_post(pre, post, was_bound, a)
        },
        DisplayEvent::PointerMoved { px, py, on_surface } => {
            pointer_moved_post(pre, post, px, py, on_surface, a)
        },
        DisplayEvent::PointerLeft { on_surface } => pointer_left_post(pre, post, on_surface, a),
        DisplayEvent::CapabilityAdded { is_pointer } => {
            capability_added_post(pre, post, is_pointer, a)
        },
        DisplayEvent::CapabilityRemoved { is_pointer } => {
            capability_removed_post(pre, post, is_pointer, a)
        },
        DisplayEvent::SurfaceConfigured { width, height, now_nanos } => {
            configure_post(pre, post, width, height, now_nanos, a)
        },
        DisplayEvent::SurfaceClosed => closed_post(pre, post, a),
        DisplayEvent::FramePacing { now_nanos } => frame_pacing_post(pre, post, now_nanos, a),
    }
}

/// Nanoseconds from `earlier` to `later`, zero when out of order.
pub fn monotonic_diff(earlier: u64, later: u64) -> (r: u64)
    ensures
        r == nanos_between(earlier, later),
{
    if later >= earlier {
        later - earlier
    } else {
        0
    }
}

/// The frame interval of a nonzero frame-rate cap.
pub fn frame_interval(fps: u64) -> (r: u64)
    requires
        fps >= 1,
    ensures
        r == spec_frame_interval(fps),
{
    NANOS_PER_SECOND / fps
}

/// The pacing sleep before one frame.
pub fn frame_sleep(fps: Option<u64>, last_frame: u64, now: u64) -> (r: u64)
    requires
        fps matches Some(f) ==> f >= 1,
    ensures
        r == spec_frame_sleep(fps, last_frame, now),
{
    match fps {
        Some(f) => {
            let since = monotonic_diff(last_frame, now);
            let interval = frame_interval(f);
            monotonic_diff(since, interval)
        },
        None => 0,
    }
}

/// A dimension, or the safe default where none is known.
pub fn dim_or_default(d: Option<u32>) -> (r: u32)
    ensures
        r == spec_dim_or_default(d),
{
    match d {
        Some(w) => w,
        None => DEFAULT_DIMENSION,
    }
}

/// The dimension remembered at bind time.
pub fn bind_dim(configured: Option<u32>, logical: Option<u32>) -> (r: Option<u32>)
    ensures
        r == spec_bind_dim(configured, logical),
{
    match configured {
        Some(w) => Some(w),
        None => logical,
    }
}

impl Session {
    /// The session's standing invariant: a well-formed configuration, and a
    /// trail of exactly the configured number of entries.
    pub open spec fn wf(&self) -> bool {
        &&& self.config.wf()
        &&& self.trail@.len() == self.config.pointer_trail_frames
    }

    /// A fresh session: nothing bound, no pointer held, every trail entry
    /// the sentinel.
    pub fn new(config: PaperConfig) -> (r: Session)
        requires
            config.wf(),
        ensures
            r.wf(),
            r.config == config,
            r.phase is Unbound,
            r.width == config.width,
            r.height == config.height,
            !r.have_pointer,
            r.current is Absent,
            forall|i: int| 0 <= i < r.trail@.len() ==> r.trail@[i] is Absent,
            r.start_nanos == 0,
            r.last_frame_nanos == 0,
    {
        let trail = PointerTrail::new(config.pointer_trail_frames);
        let width = config.width;
        let height = config.height;
        Session {
            config,
            phase: Phase::Unbound,
            width,
            height,
            have_pointer: false,
            current: PointerSample::Absent,
            trail,
            start_nanos: 0,
            last_frame_nanos: 0,
        }
    }

    /// Whether a discovered output with this name is taken.
    fn takes(&self, name: &Option<String>) -> (r: bool)
        ensures
            r == takes_output(*self, *name),
    {
        match self.phase {
            Phase::Unbound => {},
            _ => {
                return false;
            },
        }
        match &self.config.output_name {
            None => true,
            Some(f) => match name {
                Some(n) => f.eq(n),
                None => false,
            },
        }
    }

    /// Whether a pointer event on (or off) the bound surface is acted on.
    fn pointer_relevant(&self, on_surface: bool) -> (r: bool)
        ensures
            r == spec_pointer_relevant(*self, on_surface),
    {
        if !on_surface {
            return false;
        }
        let surface_live = match self.phase {
            Phase::Bound => true,
            Phase::Rendering => true,
            _ => false,
        };
        surface_live && self.width.is_some() && self.height.is_some()
    }

    /// The draw command for one frame at monotonic reading `now`.
    fn draw_command(&self, now: u64) -> (d: DrawCommand)
        requires
            self.config.wf(),
        ensures
            d == spec_draw_command(*self, now),
    {
        DrawCommand {
            sleep_nanos: frame_sleep(self.config.fps, self.last_frame_nanos, now),
            elapsed_nanos: monotonic_diff(self.start_nanos, now),
        }
    }

    /// Dispatches one display-server event: moves the session as [`step`]
    /// says and returns what the embedding program must do. The trail keeps
    /// exactly its configured length through every event.
    pub fn handle_event(&mut self, ev: DisplayEvent) -> (a: Action)
        requires
            old(self).wf(),
        ensures
            final(self).wf(),
            step(*old(self), ev, *final(self), a),
    {
        match ev {
            DisplayEvent::OutputAdded { name, logical_width, logical_height, now_nanos } => {
                if self.takes(&name) {
                    self.phase = Phase::Bound;
                    self.width = bind_dim(self.config.width, logical_width);
                    self.height = bind_dim(self.config.height, logical_height);
                    self.start_nanos = now_nanos;
                    self.last_frame_nanos = now_nanos;
                    let w = dim_or_default(self.width);
                    let h = dim_or_default(self.height);
                    Action::BindSurface { width: w, height: h }
                } else {
                    Action::Idle
                }
            },
            DisplayEvent::OutputRemoved { was_bound } => {
                let surface_live = match self.phase {
                    Phase::Bound => true,
                    Phase::Rendering => true,
                    _ => false,
                };
                if was_bound && surface_live {
                    self.phase = Phase::Unbound;
                    self.width = self.config.width;
                    self.height = self.config.height;
                    self.current = PointerSample::Absent;
                    self.trail.reset();
                    Action::TeardownSurface
                } else {
                    Action::Idle
                }
            },
            DisplayEvent::PointerMoved { px, py, on_surface } => {
                if self.pointer_relevant(on_surface) {
                    let w = dim_or_default(self.width);
                    let h = dim_or_default(self.height);
                    self.current = PointerSample::At { px, py, width: w, height: h };
                }
                Action::Idle
            },
            DisplayEvent::PointerLeft { on_surface } => {
                if self.pointer_relevant(on_surface) {
                    self.current = PointerSample::Absent;
                }
                Action::Idle
            },
            DisplayEvent::CapabilityAdded { is_pointer } => {
                if is_pointer && !self.have_pointer {
                    self.have_pointer = true;
                    Action::AcquirePointer
                } else {
                    Action::Idle
                }
            },
            DisplayEvent::CapabilityRemoved { is_pointer } => {
                if is_pointer && self.have_pointer {
                    self.have_pointer = false;
                    Action::ReleasePointer
                } else {
                    Action::Idle
                }
            },
            DisplayEvent::SurfaceConfigured { width, height, now_nanos } => {
                if width != 0 || height != 0 {
                    self.width = Some(width);
                    self.height = Some(height);
                }
                let surface_live = match self.phase {
                    Phase::Bound => true,
                    Phase::Rendering => true,
                    _ => false,
                };
                if surface_live {
                    let d = self.draw_command(now_nanos);
                    self.phase = Phase::Rendering;
                    self.trail.push(self.current);
                    self.last_frame_nanos = now_nanos;
                    let w = dim_or_default(self.width);
                    let h = dim_or_default(self.height);
                    Action::ConfigureSurface { width: w, height: h, draw: d }
                } else {
                    Action::Idle
                }
            },
            DisplayEvent::SurfaceClosed => {
                self.phase = Phase::Destroyed;
                Action::Exit
            },
            DisplayEvent::FramePacing { now_nanos } => {
                match self.phase {
                    Phase::Rendering => {
                        let d = self.draw_command(now_nanos);
                        self.trail.push(self.current);
                        self.last_frame_nanos = now_nanos;
                        Action::Draw { draw: d }
                    },
                    _ => Action::Idle,
                }
            },
        }
    }
}

/// The trail always holds exactly the configured number of entries: it does
/// so after construction, and no event changes its length.
pub proof fn lemma_trail_length_invariant(
    pre: Session,
    ev: DisplayEvent,
    post: Session,
    a: Action,
)
    requires
        pre.wf(),
        step(pre, ev, post, a),
    ensures
        post.trail@.len() == pre.config.pointer_trail_frames,
{
}

/// A discovered output binds the surface exactly when nothing is bound yet
/// and its reported name passes the filter: with a filter set, only a
/// matching name binds; with none, the first output does.
pub proof fn lemma_filter_decides_binding(
    pre: Session,
    post: Session,
    name: Option<String>,
    lw: Option<u32>,
    lh: Option<u32>,
    now: u64,
    a: Action,
)
    requires
        output_added_post(pre, post, name, lw, lh, now, a),
    ensures
        a is BindSurface <==> takes_output(pre, name),
        takes_output(pre, name) ==> post.phase is Bound,
        !takes_output(pre, name) ==> post == pre && a == Action::Idle,
        takes_output(pre, name) ==> match pre.config.output_name {
            Some(f) => name matches Some(n) && n@ == f@,
            None => true,
        },
        pre.phase is Unbound && pre.config.output_name is None ==> takes_output(pre, name),
{
}

/// The surface is bound at most once: a discovery that binds it leaves the
/// Unbound phase, so every further discovered output is ignored until the
/// surface is torn down or closed (the single-output policy).
pub proof fn lemma_binds_at_most_once(
    pre: Session,
    mid: Session,
    post: Session,
    n1: Option<String>,
    lw1: Option<u32>,
    lh1: Option<u32>,
    t1: u64,
    a1: Action,
    n2: Option<String>,
    lw2: Option<u32>,
    lh2: Option<u32>,
    t2: u64,
    a2: Action,
)
    requires
        output_added_post(pre, mid, n1, lw1, lh1, t1, a1),
        a1 is BindSurface,
        output_added_post(mid, post, n2, lw2, lh2, t2, a2),
    ensures
        a2 == Action::Idle,
        post == mid,
{
}

/// After the pointer leaves the bound surface, the next frame pushes the
/// sentinel to the front of the trail: the shader sees "no pointer present".
pub proof fn lemma_leave_then_sentinel(
    pre: Session,
    mid: Session,
    post: Session,
    on_surface: bool,
    a1: Action,
    now: u64,
    a2: Action,
)
    requires
        pre.trail@.len() >= 1,
        spec_pointer_relevant(pre, on_surface),
        pointer_left_post(pre, mid, on_surface, a1),
        mid.phase is Rendering,
        frame_pacing_post(mid, post, now, a2),
    ensures
        post.trail@[0] is Absent,
{
}

/// After the pointer enters or moves at (px, py) on the bound surface of
/// known size (W, H), the next frame pushes exactly the position record
/// (px, py, W, H) — read: the normalized pair (px / W, py / H) — and that
/// position lies in the unit square whenever (px, py) lies on the surface.
pub proof fn lemma_motion_then_position(
    pre: Session,
    mid: Session,
    post: Session,
    px: u32,
    py: u32,
    a1: Action,
    now: u64,
    a2: Action,
)
    requires
        pre.trail@.len() >= 1,
        spec_pointer_relevant(pre, true),
        pointer_moved_post(pre, mid, px, py, true, a1),
        mid.phase is Rendering,
        frame_pacing_post(mid, post, now, a2),
    ensures
        post.trail@[0] == (PointerSample::At {
            px,
            py,
            width: spec_dim_or_default(pre.width),
            height: spec_dim_or_default(pre.height),
        }),
        px <= spec_dim_or_default(pre.width) && py <= spec_dim_or_default(pre.height)
            ==> post.trail@[0].in_unit_square(),
{
}

/// The elapsed-time uniform never decreases: frames with later monotonic
/// readings see elapsed values at least as large, for one and the same bind.
pub proof fn lemma_elapsed_monotonic(start: u64, n1: u64, n2: u64)
    requires
        n1 <= n2,
    ensures
        nanos_between(start, n1) <= nanos_between(start, n2),
{
}

/// The frame-rate cap is honoured without falling behind: the pacing sleep
/// never exceeds one frame interval, and a frame already past its interval
/// is drawn without sleeping at all.
pub proof fn lemma_frame_pacing_bounds(fps: u64, last_frame: u64, now: u64)
    requires
        fps >= 1,
    ensures
        spec_frame_sleep(Some(fps), last_frame, now) <= spec_frame_interval(fps),
        nanos_between(last_frame, now) >= spec_frame_interval(fps) ==> spec_frame_sleep(
            Some(fps),
            last_frame,
            now,
        ) == 0,
{
}

/// Drawing is event-driven, never speculative: a draw is commanded only by a
/// frame-pacing callback or by the first draw after a configure.
pub proof fn lemma_draw_only_on_pacing(pre: Session, ev: DisplayEvent, post: Session, a: Action)
    requires
        step(pre, ev, post, a),
    ensures
        (a matches Action::Draw { .. }) ==> ev is FramePacing,
        (a matches Action::ConfigureSurface { .. }) ==> ev is SurfaceConfigured,
{
}

} // verus!
