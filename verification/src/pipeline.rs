//! The pipeline: at most one GPU context, bound to one player, with the
//! parameter buffer that it renders from.
//!
//! The pipeline decides; the host acts. Each operation that needs the GPU, the
//! stabilization engine or the player returns a request that says what the
//! host is to do, and a second operation takes the outcome.

use vstd::prelude::*;
use crate::buffer::{grown, values_in_rows, ParamsBuffer};
use crate::error::PipelineError;
use crate::geometry::{DisplaySize, Size};
use crate::ieee::{Binary32, Binary64};
use crate::params::{StabilizationParams, ROW_LEN};

verus! {

/// The native handle of a video player. Zero is the null handle.
#[derive(Clone, Copy, Debug, PartialEq, Eq, Structural)]
pub struct PlayerHandle {
    pub raw: usize,
}

impl PlayerHandle {
    /// Whether this is the null handle.
    pub fn is_null(&self) -> (null: bool)
        ensures
            null == (self.raw == 0),
    {
        self.raw == 0
    }
}

/// What a GPU context is created from.
#[derive(Clone, Copy, Debug, PartialEq, Eq, Structural)]
pub struct ContextConfig {
    /// The player whose frames the context renders.
    pub player: PlayerHandle,
    /// The size of the surface that the player asked for.
    pub surface_size: Size,
    /// The size at which the player shows the surface.
    pub display_size: DisplaySize,
    /// The resolution of the stabilized output.
    pub output_size: Size,
}

/// What the host does to initialize: drop the GPU context it holds, if it is
/// told to, then create one from `config`.
#[derive(Clone, Copy, Debug, PartialEq, Eq, Structural)]
pub struct InitRequest {
    /// Whether a context existed, which the host must release first.
    pub release_previous: bool,
    pub config: ContextConfig,
}

/// What the player passes for one frame.
#[derive(Clone, Copy, Debug, PartialEq, Eq, Structural)]
pub struct Frame {
    /// The frame's time in seconds.
    pub timestamp: Binary64,
    pub index: i32,
    /// Whether the frame is to be drawn, or only computed.
    pub do_render: bool,
}

/// What the host hands to the renderer for one frame, together with the
/// parameter buffer.
#[derive(Clone, Copy, Debug)]
pub struct Submission {
    pub player: PlayerHandle,
    pub frame: Frame,
    pub row_count: u32,
    pub background: [Binary32; 4],
}

/// What the host asks of the stabilization engine for one frame: to write
/// `element_count` values for the time `timestamp_us` into the front of the
/// parameter buffer.
#[derive(Clone, Copy, Debug)]
pub struct FillRequest {
    /// The frame's time in whole microseconds.
    pub timestamp_us: i64,
    pub element_count: usize,
    /// What to submit once the buffer is filled.
    pub submission: Submission,
}

/// A pipeline as its operations see it.
pub enum PipelineState {
    /// No GPU context exists.
    Uninitialized,
    /// A GPU context exists, made from `config`; `buffer` holds its parameters.
    Initialized { config: ContextConfig, buffer: Seq<u32> },
}

impl PipelineState {
    /// The state once an initialization has ended.
    pub open spec fn after_init(config: ContextConfig, created: bool) -> PipelineState {
        if created {
            PipelineState::Initialized { config, buffer: Seq::empty() }
        } else {
            PipelineState::Uninitialized
        }
    }

    /// The state once the context has been released.
    pub open spec fn after_cleanup(self) -> PipelineState {
        PipelineState::Uninitialized
    }

    /// The state once room for `rows` rows has been made for a frame.
    pub open spec fn after_begin_render(self, rows: u32) -> PipelineState {
        match self {
            PipelineState::Uninitialized => PipelineState::Uninitialized,
            PipelineState::Initialized { config, buffer } => PipelineState::Initialized {
                config,
                buffer: grown(buffer, rows),
            },
        }
    }

    /// The length of the parameter buffer; zero without a context.
    pub open spec fn buffer_len(self) -> nat {
        match self {
            PipelineState::Uninitialized => 0,
            PipelineState::Initialized { buffer, .. } => buffer.len(),
        }
    }
}

/// Cleaning up twice is cleaning up once: the second cleanup finds no context
/// and changes nothing.
pub proof fn lemma_cleanup_is_idempotent(state: PipelineState)
    ensures
        state.after_cleanup() is Uninitialized,
        state.after_cleanup().after_cleanup() == state.after_cleanup(),
{
}

/// A frame that arrives without a context touches no buffer, and one that
/// arrives with a context finds room for all of its rows.
pub proof fn lemma_begin_render_makes_room(state: PipelineState, rows: u32)
    ensures
        state is Uninitialized ==> state.after_begin_render(rows) == state,
        state is Initialized ==> state.after_begin_render(rows) is Initialized
            && state.after_begin_render(rows).buffer_len() >= values_in_rows(rows)
            && state.after_begin_render(rows).buffer_len() >= state.buffer_len(),
{
}

/// An initialization leaves no state in between: the pipeline holds a
/// context made from the request exactly when the context was created, and
/// is uninitialized otherwise, whatever it held before.
pub proof fn lemma_init_is_all_or_nothing(config: ContextConfig, created: bool)
    ensures
        created <==> PipelineState::after_init(config, created) is Initialized,
        !created <==> PipelineState::after_init(config, created) is Uninitialized,
        created ==> PipelineState::after_init(config, created)
            == (PipelineState::Initialized { config, buffer: Seq::empty() }),
{
}

impl Submission {
    /// What is submitted for `frame` of `player` under `params`.
    pub open spec fn is_for(
        self,
        player: PlayerHandle,
        params: StabilizationParams,
        frame: Frame,
    ) -> bool {
        &&& self.player == player
        &&& self.frame == frame
        &&& self.row_count == params.spec_row_count()
        &&& self.background@ == params.spec_normalized_background()
    }

    /// How the frame ends, given the renderer's answer.
    pub open spec fn submit_outcome(self, rendered: bool) -> Result<(), PipelineError> {
        if rendered {
            Ok(())
        } else {
            Err(PipelineError::GpuFailure)
        }
    }

    /// Takes the renderer's answer, which decides the frame.
    pub fn after_submit(&self, rendered: bool) -> (outcome: Result<(), PipelineError>)
        ensures
            outcome == self.submit_outcome(rendered),
    {
        if rendered {
            Ok(())
        } else {
            Err(PipelineError::GpuFailure)
        }
    }
}

impl FillRequest {
    /// What is asked of the engine for `frame` of `player` under `params`.
    pub open spec fn is_for(
        self,
        player: PlayerHandle,
        params: StabilizationParams,
        frame: Frame,
    ) -> bool {
        &&& self.timestamp_us == frame.timestamp.micros()
        &&& self.element_count == params.spec_row_count() * ROW_LEN
        &&& self.submission.is_for(player, params, frame)
    }

    /// What follows the engine's answer: the submission, or the end of the frame.
    pub open spec fn fill_outcome(self, filled: bool) -> Result<Submission, PipelineError> {
        if filled {
            Ok(self.submission)
        } else {
            Err(PipelineError::FillFailure)
        }
    }

    /// Takes the engine's answer. A filled buffer is to be submitted; a
    /// failed fill ends the frame, and nothing is submitted, whether or not
    /// the frame was to be drawn.
    pub fn after_fill(&self, filled: bool) -> (step: Result<Submission, PipelineError>)
        ensures
            step == self.fill_outcome(filled),
    {
        if filled {
            Ok(self.submission)
        } else {
            Err(PipelineError::FillFailure)
        }
    }
}

/// How a frame ends: `begun` is what the start of the frame gave, `filled`
/// the engine's answer and `rendered` the renderer's. An answer counts only
/// if the step before it succeeded.
pub open spec fn frame_outcome(
    begun: Result<FillRequest, PipelineError>,
    filled: bool,
    rendered: bool,
) -> Result<(), PipelineError> {
    match begun {
        Err(error) => Err(error),
        Ok(request) => match request.fill_outcome(filled) {
            Err(error) => Err(error),
            Ok(submission) => submission.submit_outcome(rendered),
        },
    }
}

/// A frame is rendered exactly when it was begun with a context, the engine
/// filled the buffer and the renderer accepted it. A frame whose fill failed
/// is never submitted and fails with `FillFailure`, whether or not it was to
/// be drawn; one that the renderer rejected fails with `GpuFailure`.
pub proof fn lemma_frame_needs_every_step(
    begun: Result<FillRequest, PipelineError>,
    filled: bool,
    rendered: bool,
)
    ensures
        frame_outcome(begun, filled, rendered) is Ok <==> begun is Ok && filled && rendered,
        begun is Err ==> frame_outcome(begun, filled, rendered) == Err::<(), PipelineError>(
            begun->Err_0,
        ),
        begun is Ok && !filled ==> begun->Ok_0.fill_outcome(filled) is Err && frame_outcome(
            begun,
            filled,
            rendered,
        ) == Err::<(), PipelineError>(PipelineError::FillFailure),
        begun is Ok && filled && !rendered ==> frame_outcome(begun, filled, rendered) == Err::<
            (),
            PipelineError,
        >(PipelineError::GpuFailure),
{
}

struct GpuContext {
    config: ContextConfig,
    params: ParamsBuffer,
}

/// The pipeline of one process: uninitialized, or holding one GPU context.
pub struct Pipeline {
    context: Option<GpuContext>,
}

impl View for Pipeline {
    type V = PipelineState;

    closed spec fn view(&self) -> PipelineState {
        match self.context {
            None => PipelineState::Uninitialized,
            Some(context) => PipelineState::Initialized {
                config: context.config,
                buffer: context.params@,
            },
        }
    }
}

impl Pipeline {
    /// An uninitialized pipeline.
    pub fn new() -> (pipeline: Pipeline)
        ensures
            pipeline@ == PipelineState::Uninitialized,
    {
        Pipeline { context: None }
    }

    /// Whether a GPU context exists.
    pub fn is_initialized(&self) -> (initialized: bool)
        ensures
            initialized == (self@ is Initialized),
    {
        self.context.is_some()
    }

    /// What the context was made from, if one exists.
    pub fn config(&self) -> (config: Option<ContextConfig>)
        ensures
            match self@ {
                PipelineState::Uninitialized => config is None,
                PipelineState::Initialized { config: made_from, .. } => config == Some(made_from),
            },
    {
        match &self.context {
            None => None,
            Some(context) => Some(context.config),
        }
    }

    /// Starts an initialization for `player`. Whatever context existed is
    /// given up, so that the old one is destroyed before the new one is
    /// created. The request carries the sizes that the player asked for and
    /// the output resolution from `params`.
    pub fn begin_init(
        &mut self,
        player: PlayerHandle,
        surface_size: Size,
        display_size: DisplaySize,
        params: &StabilizationParams,
    ) -> (request: InitRequest)
        ensures
            final(self)@ == PipelineState::Uninitialized,
            request.release_previous == (old(self)@ is Initialized),
            request.config == (ContextConfig {
                player,
                surface_size,
                display_size,
                output_size: params.output_size,
            }),
    {
        let release_previous = self.context.is_some();
        self.context = None;
        InitRequest {
            release_previous,
            config: ContextConfig {
                player,
                surface_size,
                display_size,
                output_size: params.output_size,
            },
        }
    }

    /// Ends an initialization. With `created`, the pipeline holds a context
    /// made from the request's configuration, with an empty parameter buffer.
    /// Without, it is uninitialized and the failure is reported.
    pub fn finish_init(&mut self, request: InitRequest, created: bool) -> (outcome: Result<
        (),
        PipelineError,
    >)
        ensures
            final(self)@ == PipelineState::after_init(request.config, created),
            outcome == if created {
                Ok::<(), PipelineError>(())
            } else {
                Err::<(), PipelineError>(PipelineError::InitFailure)
            },
    {
        if created {
            self.context = Some(GpuContext { config: request.config, params: ParamsBuffer::new() });
            Ok(())
        } else {
            self.context = None;
            Err(PipelineError::InitFailure)
        }
    }

    /// Gives up the context. Returns whether one existed, which the host must
    /// then release; without one, nothing changes.
    pub fn cleanup(&mut self) -> (released: bool)
        ensures
            final(self)@ == old(self)@.after_cleanup(),
            released == (old(self)@ is Initialized),
    {
        let released = self.context.is_some();
        self.context = None;
        released
    }

    /// Starts a frame. Without a context the frame is refused and nothing
    /// changes. With one, the parameter buffer is made long enough for the
    /// frame's rows, and the request says what the engine is to fill in.
    pub fn begin_render(&mut self, params: &StabilizationParams, frame: Frame) -> (step: Result<
        FillRequest,
        PipelineError,
    >)
        requires
            old(self)@ is Initialized ==> params.rows_fit(),
        ensures
            final(self)@ == old(self)@.after_begin_render(params.spec_row_count() as u32),
            match old(self)@ {
                PipelineState::Uninitialized => step == Err::<FillRequest, PipelineError>(
                    PipelineError::NotInitialized,
                ),
                PipelineState::Initialized { config, .. } => step is Ok && step->Ok_0.is_for(
                    config.player,
                    *params,
                    frame,
                ),
            },
    {
        match &mut self.context {
            None => Err(PipelineError::NotInitialized),
            Some(context) => {
                let frame_params = params.frame_params();
                context.params.ensure_capacity(frame_params.row_count);
                Ok(
                    FillRequest {
                        timestamp_us: frame.timestamp.to_micros(),
                        element_count: frame_params.row_count as usize * ROW_LEN,
                        submission: Submission {
                            player: context.config.player,
                            frame,
                            row_count: frame_params.row_count,
                            background: frame_params.background,
                        },
                    },
                )
            },
        }
    }

    /// The number of values in the parameter buffer; zero without a context.
    pub fn buffer_len(&self) -> (len: usize)
        ensures
            len == self@.buffer_len(),
    {
        match &self.context {
            None => 0,
            Some(context) => context.params.len(),
        }
    }

    /// The parameter buffer, if a context exists.
    pub fn params(&self) -> (values: Option<&[u32]>)
        ensures
            match self@ {
                PipelineState::Uninitialized => values is None,
                PipelineState::Initialized { buffer, .. } => values is Some && values->0@ == buffer,
            },
    {
        match &self.context {
            None => None,
            Some(context) => Some(context.params.as_slice()),
        }
    }

    /// The first `rows` rows of the parameter buffer, for the engine to write
    /// to: exactly `rows * 9` values. There is none without a context, or
    /// where the buffer is shorter than that.
    pub fn fill_window(&mut self, rows: u32) -> (window: Option<&mut [u32]>)
        ensures
            match old(self)@ {
                PipelineState::Initialized { config, buffer } if values_in_rows(rows)
                    <= buffer.len() => {
                    &&& window is Some
                    &&& window->0@ == buffer.subrange(0, values_in_rows(rows))
                    &&& final(self)@ == PipelineState::Initialized {
                        config,
                        buffer: final(window->0)@ + buffer.subrange(
                            values_in_rows(rows),
                            buffer.len() as int,
                        ),
                    }
                },
                _ => window is None && final(self)@ == old(self)@,
            },
    {
        match &mut self.context {
            None => None,
            Some(context) => {
                if context.params.len() / ROW_LEN >= rows as usize {
                    Some(context.params.rows_mut(rows))
                } else {
                    None
                }
            },
        }
    }
}

} // verus!
