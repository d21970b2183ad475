//! Attaching the pipeline to a video player and detaching it again.
//!
//! A player calls back when its surface is created or resized, for each
//! decoded frame, and when the surface is torn down. These functions decide
//! what the host tells the player; the host carries the commands out in order.

use vstd::prelude::*;
use crate::pipeline::{Pipeline, PipelineState, PlayerHandle};

verus! {

/// One thing for the host to do.
#[derive(Clone, Copy, Debug, PartialEq, Eq, Structural)]
pub enum HostCommand {
    /// Release the GPU context that the host holds.
    ReleaseContext,
    /// Have the player run the cleanup callback that is installed on it and
    /// drop its GPU state.
    CleanupGpuCompute(PlayerHandle),
    /// Install the pipeline's init, render and cleanup callbacks on the
    /// player, in place of any that are installed.
    InstallCallbacks(PlayerHandle),
    /// Leave the player without callbacks.
    ClearCallbacks(PlayerHandle),
}

/// The commands that attach the pipeline to `player`: none for the null
/// handle, else a cleanup of what was attached and then the installation.
pub open spec fn attach_commands(player: PlayerHandle) -> Seq<HostCommand> {
    if player.raw == 0 {
        Seq::empty()
    } else {
        seq![HostCommand::CleanupGpuCompute(player), HostCommand::InstallCallbacks(player)]
    }
}

/// The commands that detach the pipeline from `player`, for a handle that is
/// not null: the release of the context if one exists, a cleanup on the
/// player, and the removal of the callbacks.
pub open spec fn detach_commands(state: PipelineState, player: PlayerHandle) -> Seq<HostCommand> {
    let release = if state is Initialized {
        seq![HostCommand::ReleaseContext]
    } else {
        Seq::empty()
    };
    release + seq![HostCommand::CleanupGpuCompute(player), HostCommand::ClearCallbacks(player)]
}

/// Attaches the pipeline to `player`. The player then calls back to
/// initialize, so the pipeline itself is not touched here.
pub fn init_player(player: PlayerHandle) -> (commands: Vec<HostCommand>)
    ensures
        commands@ == attach_commands(player),
{
    let mut commands: Vec<HostCommand> = Vec::new();
    if !player.is_null() {
        commands.push(HostCommand::CleanupGpuCompute(player));
        commands.push(HostCommand::InstallCallbacks(player));
    }
    assert(commands@ =~= attach_commands(player));
    commands
}

/// Reacts to a change of the output size: a pipeline with a context is
/// attached to its player anew, which tears the context down and has the
/// player initialize again. Without a context there is nothing to do.
pub fn resize_player(pipeline: &Pipeline) -> (commands: Vec<HostCommand>)
    ensures
        commands@ == match pipeline@ {
            PipelineState::Uninitialized => Seq::<HostCommand>::empty(),
            PipelineState::Initialized { config, .. } => attach_commands(config.player),
        },
{
    match pipeline.config() {
        None => Vec::new(),
        Some(config) => init_player(config.player),
    }
}

/// Detaches the pipeline from `player`. For the null handle nothing happens.
/// Otherwise the context is given up, whichever player it was bound to, and
/// the player is left without callbacks.
pub fn deinit_player(pipeline: &mut Pipeline, player: PlayerHandle) -> (commands: Vec<HostCommand>)
    ensures
        player.raw == 0 ==> final(pipeline)@ == old(pipeline)@ && commands@
            == Seq::<HostCommand>::empty(),
        player.raw != 0 ==> final(pipeline)@ == old(pipeline)@.after_cleanup() && commands@
            == detach_commands(old(pipeline)@, player),
{
    let mut commands: Vec<HostCommand> = Vec::new();
    if !player.is_null() {
        if pipeline.cleanup() {
            commands.push(HostCommand::ReleaseContext);
        }
        commands.push(HostCommand::CleanupGpuCompute(player));
        commands.push(HostCommand::ClearCallbacks(player));
        assert(commands@ =~= detach_commands(old(pipeline)@, player));
    }
    commands
}

} // verus!
