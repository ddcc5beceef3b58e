//! Properties that relate several controller operations.
use vstd::prelude::*;
use crate::engine::EngineCommand;
use crate::player::{advanced_to_head, pause_toggled, reconciled, Player};
use crate::state::PlayerMode;

verus! {

/// Moving to the queue head and then receiving the engine's report that the
/// file it loaded (position 0 of the replaced playlist) started takes exactly
/// one entry off the queue: the report does not pop a second one.
pub proof fn lemma_next_then_start_report_pops_once(
    p0: Player,
    p1: Player,
    p2: Player,
    cmds: Seq<EngineCommand>,
)
    requires
        p0.queue@.len() > 0,
        advanced_to_head(p0, p1, cmds),
        reconciled(p1, p2, 0),
    ensures
        p2.queue@ == p0.queue@.drop_first(),
        p2.state == p1.state,
        p2.outbox == p1.outbox,
{
}

/// A start report delivered twice for the same position takes at most one
/// entry off the queue: the second delivery changes nothing.
pub proof fn lemma_repeated_report_pops_once(p0: Player, p1: Player, p2: Player, playlist_pos: int)
    requires
        reconciled(p0, p1, playlist_pos),
        reconciled(p1, p2, playlist_pos),
    ensures
        p1.queue@ == p0.queue@ || p1.queue@ == p0.queue@.drop_first(),
        p2.queue == p1.queue,
        p2.state == p1.state,
        p2.outbox == p1.outbox,
{
}

/// When the engine's pause flag agrees with the mode, toggling pause turns
/// Playing into Paused and Paused into Playing, and keeps the source.
pub proof fn lemma_pause_toggles_mode(p0: Player, p1: Player, paused: bool, cmds: Seq<EngineCommand>)
    requires
        p0.state.mode != PlayerMode::Stopped,
        paused == (p0.state.mode == PlayerMode::Paused),
        pause_toggled(p0, p1, paused, cmds),
    ensures
        p1.state.mode == (if p0.state.mode == PlayerMode::Playing {
            PlayerMode::Paused
        } else {
            PlayerMode::Playing
        }),
        p1.state.source == p0.state.source,
{
}

/// Toggling pause twice, with the engine's flag inverted by the first toggle,
/// gives back the starting state.
pub proof fn lemma_pause_twice_restores(
    p0: Player,
    p1: Player,
    p2: Player,
    paused: bool,
    cmds1: Seq<EngineCommand>,
    cmds2: Seq<EngineCommand>,
)
    requires
        p0.state.mode != PlayerMode::Stopped,
        paused == (p0.state.mode == PlayerMode::Paused),
        pause_toggled(p0, p1, paused, cmds1),
        pause_toggled(p1, p2, !paused, cmds2),
    ensures
        p2.state == p0.state,
        p2.queue@ == p0.queue@,
{
}

} // verus!
