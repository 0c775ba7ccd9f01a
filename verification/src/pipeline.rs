//! The dispatch pipeline: the order in which one render talks to its
//! compute backend.
//!
//! The pipeline performs no device work itself.  It is a state machine: the
//! caller reports what the backend did as an [`Event`], and the pipeline
//! answers with the next [`Action`] for the backend to perform.  A render
//! passes through
//! `Idle → RaysGenerated → BufferUploaded → Dispatched → ResultsMapped →
//! ImageAssembled → Idle`;
//! any failure returns it to `Idle` with nothing kept.

use vstd::prelude::*;
use crate::config::{Config, Scene};
use crate::error::RenderError;
use crate::raster::{Raster, Record, assemble, fits, raster_bytes};
use crate::rays::{Ray, ray_field, ray_field_of};

verus! {

/// Bit pattern of `-1.0`, written into the fourth channel of every
/// uploaded record to mark it as not yet shaded.
pub const SENTINEL_BITS: u32 = 0xBF80_0000;

/// Size in bytes of one record of the device buffer: four single-precision
/// channels.
pub const RECORD_BYTES: u64 = 16;

/// How far a render has come.
#[derive(Debug, Clone, Copy, PartialEq, Eq)]
pub enum Stage {
    /// No render is in flight.
    Idle,
    /// The ray field exists on the host; the buffer is being filled.
    RaysGenerated,
    /// The buffer holds every ray and its write mapping is released.
    BufferUploaded,
    /// The kernel is submitted.
    Dispatched,
    /// The device has finished, the buffer is mapped for reading and its
    /// colours are quantised.
    ResultsMapped,
    /// The raster is complete and the read mapping is released.
    ImageAssembled,
}

/// What the backend reports.
#[derive(Debug)]
pub enum Event {
    /// A render is requested; the device offers buffers of up to
    /// `max_buffer_bytes` bytes.
    Begin { max_buffer_bytes: u64 },
    /// A buffer of `count` records is allocated and filled, and its write
    /// mapping is released.
    Uploaded { count: u64 },
    /// The device could not provide the buffer.
    AllocationFailed,
    /// The kernel is submitted.
    Submitted,
    /// The device refused the submission or failed while executing it.
    DispatchFailed,
    /// The device has finished and the buffer is mapped for reading; these
    /// are its records.
    Mapped { records: Vec<Record> },
    /// The buffer could not be mapped.
    MapFailed,
    /// The read mapping is released.
    Released,
    /// The image has reached its destination.
    Written,
    /// The image could not be written to `path`.
    WriteFailed { path: String },
}

/// What the backend is to do next.
#[derive(Debug)]
pub enum Action {
    /// Allocate a buffer of `buffer_bytes` bytes, one record per ray; write
    /// into record `i` the unit vector along ray `i`, then `sentinel`;
    /// release the mapping.
    Upload { rays: Vec<Ray>, sentinel: u32, buffer_bytes: u64 },
    /// Submit the kernel bound to the buffer, one work item per record.
    Dispatch { work_items: u32 },
    /// Wait until the device reports completion, then map the buffer for
    /// reading.
    AwaitAndMap,
    /// Release the read mapping.
    Release,
    /// Write the raster to the file or the texture.
    Emit { raster: Raster },
    /// The render is complete.
    Finish,
    /// The render has failed; release whatever the backend still holds.
    Abort { error: RenderError },
    /// The event does not belong to the current stage; nothing has changed.
    Ignore,
}

/// An [`Event`] with its records as a sequence.
pub enum EventView {
    Begin { max_buffer_bytes: u64 },
    Uploaded { count: u64 },
    AllocationFailed,
    Submitted,
    DispatchFailed,
    Mapped { records: Seq<Record> },
    MapFailed,
    Released,
    Written,
    WriteFailed { path: String },
}

/// An [`Action`] with its rays and its raster as sequences.
pub enum ActionView {
    Upload { rays: Seq<Ray>, sentinel: u32, buffer_bytes: u64 },
    Dispatch { work_items: u32 },
    AwaitAndMap,
    Release,
    Emit { width: u32, height: u32, data: Seq<u8> },
    Finish,
    Abort { error: RenderError },
    Ignore,
}

impl View for Event {
    type V = EventView;

    open spec fn view(&self) -> EventView {
        match *self {
            Event::Begin { max_buffer_bytes } => EventView::Begin { max_buffer_bytes },
            Event::Uploaded { count } => EventView::Uploaded { count },
            Event::AllocationFailed => EventView::AllocationFailed,
            Event::Submitted => EventView::Submitted,
            Event::DispatchFailed => EventView::DispatchFailed,
            Event::Mapped { records } => EventView::Mapped { records: records@ },
            Event::MapFailed => EventView::MapFailed,
            Event::Released => EventView::Released,
            Event::Written => EventView::Written,
            Event::WriteFailed { path } => EventView::WriteFailed { path },
        }
    }
}

impl View for Action {
    type V = ActionView;

    open spec fn view(&self) -> ActionView {
        match *self {
            Action::Upload { rays, sentinel, buffer_bytes } => ActionView::Upload {
                rays: rays@,
                sentinel,
                buffer_bytes,
            },
            Action::Dispatch { work_items } => ActionView::Dispatch { work_items },
            Action::AwaitAndMap => ActionView::AwaitAndMap,
            Action::Release => ActionView::Release,
            Action::Emit { raster } => ActionView::Emit {
                width: raster.width,
                height: raster.height,
                data: raster.data@,
            },
            Action::Finish => ActionView::Finish,
            Action::Abort { error } => ActionView::Abort { error },
            Action::Ignore => ActionView::Ignore,
        }
    }
}

/// The state of a pipeline: its fixed inputs, its stage, and the bytes of
/// the raster it holds between quantising and handing it out.
pub struct PipelineView {
    pub cfg: Config,
    pub scene: Scene,
    pub stage: Stage,
    pub pending: Option<Seq<u8>>,
}

impl PipelineView {
    /// The state of a pipeline that has not begun.
    pub open spec fn idle(cfg: Config, scene: Scene) -> PipelineView {
        PipelineView { cfg, scene, stage: Stage::Idle, pending: None }
    }

    /// A render is in flight only for a renderable configuration, and a
    /// raster is held exactly in `ResultsMapped`, at the size of the frame.
    pub open spec fn wf(self) -> bool {
        &&& self.stage != Stage::Idle ==> self.cfg.renderable()
        &&& self.pending is Some <==> self.stage == Stage::ResultsMapped
        &&& self.pending is Some ==> self.pending->Some_0.len() == 3
            * self.cfg.spec_pixel_count()
    }

    /// The state after a failure: idle, with nothing held.
    pub open spec fn reset(self) -> PipelineView {
        PipelineView { stage: Stage::Idle, pending: None, ..self }
    }

    /// The state on reaching `stage` with nothing held.
    pub open spec fn at(self, stage: Stage) -> PipelineView {
        PipelineView { stage, pending: None, ..self }
    }

    /// The request to upload the frame's ray field.
    pub open spec fn upload(self) -> ActionView {
        ActionView::Upload {
            rays: ray_field_of(&self.cfg),
            sentinel: SENTINEL_BITS,
            buffer_bytes: (RECORD_BYTES * self.cfg.spec_pixel_count()) as u64,
        }
    }

    /// The failure to provide or map the frame's buffer.
    pub open spec fn resource_error(self) -> RenderError {
        RenderError::Resource { records: self.cfg.spec_pixel_count() as u64 }
    }
}

/// The transition function: the state after `event`, and the action that
/// answers it.
pub open spec fn step_spec(p: PipelineView, event: EventView) -> (PipelineView, ActionView) {
    match (p.stage, event) {
        (Stage::Idle, EventView::Begin { max_buffer_bytes }) => {
            if !p.cfg.renderable() {
                (
                    p,
                    ActionView::Abort {
                        error: RenderError::InvalidConfig {
                            width: p.cfg.width,
                            height: p.cfg.height,
                        },
                    },
                )
            } else if RECORD_BYTES * p.cfg.spec_pixel_count() > max_buffer_bytes {
                (p, ActionView::Abort { error: p.resource_error() })
            } else {
                (p.at(Stage::RaysGenerated), p.upload())
            }
        },
        (Stage::RaysGenerated, EventView::Uploaded { count }) => {
            if count == p.cfg.spec_pixel_count() {
                (
                    p.at(Stage::BufferUploaded),
                    ActionView::Dispatch { work_items: p.cfg.spec_pixel_count() as u32 },
                )
            } else {
                (p.reset(), ActionView::Abort { error: p.resource_error() })
            }
        },
        (Stage::RaysGenerated, EventView::AllocationFailed) => (
            p.reset(),
            ActionView::Abort { error: p.resource_error() },
        ),
        (Stage::BufferUploaded, EventView::Submitted) => (
            p.at(Stage::Dispatched),
            ActionView::AwaitAndMap,
        ),
        (Stage::BufferUploaded, EventView::DispatchFailed) => (
            p.reset(),
            ActionView::Abort { error: RenderError::Dispatch },
        ),
        (Stage::Dispatched, EventView::DispatchFailed) => (
            p.reset(),
            ActionView::Abort { error: RenderError::Dispatch },
        ),
        (Stage::Dispatched, EventView::Mapped { records }) => {
            if fits(&p.cfg, records) {
                (
                    PipelineView {
                        stage: Stage::ResultsMapped,
                        pending: Some(raster_bytes(records)),
                        ..p
                    },
                    ActionView::Release,
                )
            } else {
                (p.reset(), ActionView::Abort { error: p.resource_error() })
            }
        },
        (Stage::Dispatched, EventView::MapFailed) => (
            p.reset(),
            ActionView::Abort { error: p.resource_error() },
        ),
        (Stage::ResultsMapped, EventView::Released) => (
            p.at(Stage::ImageAssembled),
            ActionView::Emit {
                width: p.cfg.width,
                height: p.cfg.height,
                data: p.pending->Some_0,
            },
        ),
        (Stage::ImageAssembled, EventView::Written) => (p.reset(), ActionView::Finish),
        (Stage::ImageAssembled, EventView::WriteFailed { path }) => (
            p.reset(),
            ActionView::Abort { error: RenderError::Io { path } },
        ),
        _ => (p, ActionView::Ignore),
    }
}

/// The six reports of a render in which nothing fails, in order, for a
/// device that offers `max_buffer_bytes` and reads back `records`.
pub open spec fn clean_run(cfg: Config, max_buffer_bytes: u64, records: Seq<Record>) -> Seq<
    EventView,
> {
    seq![
        EventView::Begin { max_buffer_bytes },
        EventView::Uploaded { count: cfg.spec_pixel_count() as u64 },
        EventView::Submitted,
        EventView::Mapped { records },
        EventView::Released,
        EventView::Written,
    ]
}

/// The state after the first `n` of `events`, starting from `p`.
pub open spec fn state_after(p: PipelineView, events: Seq<EventView>, n: nat) -> PipelineView
    decreases n,
{
    if n == 0 {
        p
    } else {
        step_spec(state_after(p, events, (n - 1) as nat), events[n - 1]).0
    }
}

/// The action that answers the event at position `n` of `events`, starting
/// from `p`.
pub open spec fn action_at(p: PipelineView, events: Seq<EventView>, n: nat) -> ActionView {
    step_spec(state_after(p, events, n), events[n as int]).1
}

/// A kernel that shades every ray, as a function of what was uploaded.
pub open spec fn shades(kernel: spec_fn(Seq<Ray>) -> Seq<Record>, cfg: Config) -> bool {
    fits(&cfg, kernel(ray_field_of(&cfg)))
}

/// Every step keeps the state well formed and leaves the configuration and
/// the scene as they were.
pub proof fn lemma_step_keeps_inputs(p: PipelineView, event: EventView)
    requires
        p.wf(),
    ensures
        step_spec(p, event).0.wf(),
        step_spec(p, event).0.cfg == p.cfg,
        step_spec(p, event).0.scene == p.scene,
{
}

/// A configuration that is not renderable is refused when the render
/// begins: the answer is `InvalidConfig`, the pipeline stays idle, and the
/// backend is asked for nothing.  This covers every frame with a zero
/// dimension, whose ray field is empty.
pub proof fn lemma_invalid_config_refused(p: PipelineView, max_buffer_bytes: u64)
    requires
        p.stage == Stage::Idle,
        !p.cfg.renderable(),
    ensures
        step_spec(p, EventView::Begin { max_buffer_bytes }) == (
            p,
            ActionView::Abort {
                error: RenderError::InvalidConfig { width: p.cfg.width, height: p.cfg.height },
            },
        ),
        p.cfg.width == 0 || p.cfg.height == 0 ==> ray_field_of(&p.cfg).len() == 0,
{
    if p.cfg.width == 0 || p.cfg.height == 0 {
        assert((p.cfg.width as nat) * (p.cfg.height as nat) == 0) by (nonlinear_arith)
            requires
                p.cfg.width == 0 || p.cfg.height == 0,
        ;
    }
}

/// A frame whose buffer would exceed what the device offers is refused
/// when the render begins, as a `Resource` failure, before anything is
/// allocated.
pub proof fn lemma_oversized_buffer_refused(p: PipelineView, max_buffer_bytes: u64)
    requires
        p.stage == Stage::Idle,
        p.cfg.renderable(),
        RECORD_BYTES * p.cfg.spec_pixel_count() > max_buffer_bytes,
    ensures
        step_spec(p, EventView::Begin { max_buffer_bytes }) == (
            p,
            ActionView::Abort { error: p.resource_error() },
        ),
{
}

/// A failure of any kind leaves the pipeline idle and holding nothing, and
/// a raster is only ever handed out whole, at the size of the frame.
pub proof fn lemma_no_partial_output(p: PipelineView, event: EventView)
    requires
        p.wf(),
    ensures
        step_spec(p, event).1 is Abort ==> step_spec(p, event).0.stage == Stage::Idle
            && step_spec(p, event).0.pending is None,
        step_spec(p, event).1 matches ActionView::Emit { width, height, data } ==> width
            == p.cfg.width && height == p.cfg.height && data.len() == 3
            * p.cfg.spec_pixel_count(),
{
}

/// A render in which nothing fails visits the stages in order, asks the
/// backend for upload, dispatch, mapping, release and output in turn, hands
/// out the raster of the records read back, and ends idle as it began.
pub proof fn lemma_clean_run(
    cfg: Config,
    scene: Scene,
    max_buffer_bytes: u64,
    records: Seq<Record>,
)
    requires
        cfg.renderable(),
        RECORD_BYTES * cfg.spec_pixel_count() <= max_buffer_bytes,
        fits(&cfg, records),
    ensures
        ({
            let start = PipelineView::idle(cfg, scene);
            let run = clean_run(cfg, max_buffer_bytes, records);
            &&& state_after(start, run, 1).stage == Stage::RaysGenerated
            &&& state_after(start, run, 2).stage == Stage::BufferUploaded
            &&& state_after(start, run, 3).stage == Stage::Dispatched
            &&& state_after(start, run, 4).stage == Stage::ResultsMapped
            &&& state_after(start, run, 5).stage == Stage::ImageAssembled
            &&& state_after(start, run, 6) == start
            &&& action_at(start, run, 0) == start.upload()
            &&& action_at(start, run, 1) == (ActionView::Dispatch {
                work_items: cfg.spec_pixel_count() as u32,
            })
            &&& action_at(start, run, 2) == ActionView::AwaitAndMap
            &&& action_at(start, run, 3) == ActionView::Release
            &&& action_at(start, run, 4) == (ActionView::Emit {
                width: cfg.width,
                height: cfg.height,
                data: raster_bytes(records),
            })
            &&& action_at(start, run, 5) == ActionView::Finish
        }),
{
    let start = PipelineView::idle(cfg, scene);
    let run = clean_run(cfg, max_buffer_bytes, records);
    reveal_with_fuel(state_after, 7);
    assert(state_after(start, run, 1) == start.at(Stage::RaysGenerated));
    assert(state_after(start, run, 2) == start.at(Stage::BufferUploaded));
    assert(state_after(start, run, 3) == start.at(Stage::Dispatched));
    assert(state_after(start, run, 4) == (PipelineView {
        stage: Stage::ResultsMapped,
        pending: Some(raster_bytes(records)),
        ..start
    }));
    assert(state_after(start, run, 5) == start.at(Stage::ImageAssembled));
}

/// Rendering is repeatable: with the same configuration and scene, and a
/// kernel whose output is a function of what was uploaded, a second render
/// on the same pipeline uploads the same rays and hands out the same raster
/// as the first.
pub proof fn lemma_render_repeatable(
    cfg: Config,
    scene: Scene,
    max_buffer_bytes: u64,
    kernel: spec_fn(Seq<Ray>) -> Seq<Record>,
)
    requires
        cfg.renderable(),
        RECORD_BYTES * cfg.spec_pixel_count() <= max_buffer_bytes,
        shades(kernel, cfg),
    ensures
        ({
            let start = PipelineView::idle(cfg, scene);
            let uploaded = ray_field_of(&cfg);
            let run = clean_run(cfg, max_buffer_bytes, kernel(uploaded));
            let again = state_after(start, run, 6);
            &&& action_at(start, run, 0) matches ActionView::Upload { rays, .. } && rays
                == uploaded
            &&& action_at(again, run, 0) == action_at(start, run, 0)
            &&& action_at(again, run, 4) == action_at(start, run, 4)
            &&& action_at(start, run, 4) == (ActionView::Emit {
                width: cfg.width,
                height: cfg.height,
                data: raster_bytes(kernel(uploaded)),
            })
        }),
{
    lemma_clean_run(cfg, scene, max_buffer_bytes, kernel(ray_field_of(&cfg)));
}

/// One render's worth of pipeline state.
pub struct Pipeline {
    cfg: Config,
    scene: Scene,
    stage: Stage,
    pending: Option<Raster>,
}

impl View for Pipeline {
    type V = PipelineView;

    closed spec fn view(&self) -> PipelineView {
        PipelineView {
            cfg: self.cfg,
            scene: self.scene,
            stage: self.stage,
            pending: match self.pending {
                Some(raster) => Some(raster.data@),
                None => None,
            },
        }
    }
}

impl Pipeline {
    #[verifier::type_invariant]
    spec fn inv(self) -> bool {
        &&& self@.wf()
        &&& self.pending matches Some(raster) ==> raster.width == self.cfg.width && raster.height
            == self.cfg.height
    }

    /// An idle pipeline for rendering `cfg` as seen from `scene`.
    pub fn new(cfg: Config, scene: Scene) -> (p: Pipeline)
        ensures
            p@ == PipelineView::idle(cfg, scene),
    {
        Pipeline { cfg, scene, stage: Stage::Idle, pending: None }
    }

    pub fn stage(&self) -> (s: Stage)
        ensures
            s == self@.stage,
    {
        self.stage
    }

    pub fn config(&self) -> (cfg: Config)
        ensures
            cfg == self@.cfg,
    {
        self.cfg
    }

    pub fn scene(&self) -> (scene: Scene)
        ensures
            scene == self@.scene,
    {
        self.scene
    }

    /// Takes the backend's report and answers with its next task.
    pub fn step(&mut self, event: Event) -> (action: Action)
        ensures
            (final(self)@, action@) == step_spec(old(self)@, event@),
            final(self)@.wf(),
    {
        proof {
            use_type_invariant(&*self);
        }
        let cfg: Config = self.cfg;
        let scene: Scene = self.scene;
        let count: u64 = cfg.pixel_count();
        let resource = RenderError::Resource { records: count };
        match self.stage {
            Stage::Idle => match event {
                Event::Begin { max_buffer_bytes } => {
                    match cfg.validate() {
                        Err(error) => Action::Abort { error },
                        Ok(_) => {
                            if RECORD_BYTES * count > max_buffer_bytes {
                                Action::Abort { error: resource }
                            } else {
                                let rays: Vec<Ray> = ray_field(&cfg, &scene);
                                self.stage = Stage::RaysGenerated;
                                Action::Upload {
                                    rays,
                                    sentinel: SENTINEL_BITS,
                                    buffer_bytes: RECORD_BYTES * count,
                                }
                            }
                        },
                    }
                },
                _ => Action::Ignore,
            },
            Stage::RaysGenerated => match event {
                Event::Uploaded { count: uploaded } => {
                    if uploaded == count {
                        self.stage = Stage::BufferUploaded;
                        Action::Dispatch { work_items: count as u32 }
                    } else {
                        self.stage = Stage::Idle;
                        Action::Abort { error: resource }
                    }
                },
                Event::AllocationFailed => {
                    self.stage = Stage::Idle;
                    Action::Abort { error: resource }
                },
                _ => Action::Ignore,
            },
            Stage::BufferUploaded => match event {
                Event::Submitted => {
                    self.stage = Stage::Dispatched;
                    Action::AwaitAndMap
                },
                Event::DispatchFailed => {
                    self.stage = Stage::Idle;
                    Action::Abort { error: RenderError::Dispatch }
                },
                _ => Action::Ignore,
            },
            Stage::Dispatched => match event {
                Event::DispatchFailed => {
                    self.stage = Stage::Idle;
                    Action::Abort { error: RenderError::Dispatch }
                },
                Event::Mapped { records } => {
                    match assemble(&cfg, &records) {
                        Ok(raster) => {
                            *self = Pipeline {
                                cfg,
                                scene,
                                stage: Stage::ResultsMapped,
                                pending: Some(raster),
                            };
                            Action::Release
                        },
                        Err(error) => {
                            self.stage = Stage::Idle;
                            Action::Abort { error }
                        },
                    }
                },
                Event::MapFailed => {
                    self.stage = Stage::Idle;
                    Action::Abort { error: resource }
                },
                _ => Action::Ignore,
            },
            Stage::ResultsMapped => match event {
                Event::Released => {
                    let held: Option<Raster> = self.take_pending();
                    match held {
                        Some(raster) => Action::Emit { raster },
                        None => Action::Ignore,
                    }
                },
                _ => Action::Ignore,
            },
            Stage::ImageAssembled => match event {
                Event::Written => {
                    self.stage = Stage::Idle;
                    Action::Finish
                },
                Event::WriteFailed { path } => {
                    self.stage = Stage::Idle;
                    Action::Abort { error: RenderError::Io { path } }
                },
                _ => Action::Ignore,
            },
        }
    }

    /// Hands out the raster held in `ResultsMapped` and moves on to
    /// `ImageAssembled`.
    fn take_pending(&mut self) -> (held: Option<Raster>)
        requires
            old(self).stage == Stage::ResultsMapped,
        ensures
            held == old(self).pending,
            final(self).cfg == old(self).cfg,
            final(self).scene == old(self).scene,
            final(self).stage == Stage::ImageAssembled,
            final(self).pending is None,
    {
        proof {
            use_type_invariant(&*self);
        }
        let mut fresh = Pipeline {
            cfg: self.cfg,
            scene: self.scene,
            stage: Stage::ImageAssembled,
            pending: None,
        };
        std::mem::swap(self, &mut fresh);
        fresh.pending
    }
}

} // verus!
