//! A model of the engine's playlist and the laws that keep the queue equal to
//! the part of that playlist after the current entry.
use vstd::prelude::*;
use crate::engine::{EngineCommand, LoadMode};
use crate::player::{appended, clear_commands, playlist_started, reconciled, removed, Player};
use crate::queue::QueueItem;

verus! {

/// The engine's playlist (paths, in order) and the position of the current entry.
pub struct EngineModel {
    pub playlist: Seq<Seq<char>>,
    pub pos: int,
}

/// The engine after running one command.
pub open spec fn step(e: EngineModel, c: EngineCommand) -> EngineModel {
    match c {
        EngineCommand::LoadFile { path, mode: LoadMode::Replace } => EngineModel {
            playlist: seq![path@],
            pos: 0,
        },
        EngineCommand::LoadFile { path, mode: LoadMode::Append } => EngineModel {
            playlist: e.playlist.push(path@),
            pos: e.pos,
        },
        EngineCommand::PlaylistRemove(i) => if e.pos < i < e.playlist.len() {
            EngineModel { playlist: e.playlist.remove(i as int), pos: e.pos }
        } else {
            e
        },
        EngineCommand::PlaylistNext => if e.pos + 1 < e.playlist.len() {
            EngineModel { playlist: e.playlist, pos: e.pos + 1 }
        } else {
            e
        },
        EngineCommand::PlaylistPrev => if e.pos > 0 {
            EngineModel { playlist: e.playlist, pos: e.pos - 1 }
        } else {
            e
        },
        _ => e,
    }
}

/// The engine after running `cmds` in order.
pub open spec fn run(e: EngineModel, cmds: Seq<EngineCommand>) -> EngineModel
    decreases cmds.len(),
{
    if cmds.len() == 0 {
        e
    } else {
        run(step(e, cmds[0]), cmds.drop_first())
    }
}

/// The paths of queue entries.
pub open spec fn queue_paths(q: Seq<QueueItem>) -> Seq<Seq<char>> {
    q.map_values(|item: QueueItem| item.file_path@)
}

/// The queue of `p` is exactly the part of the engine's playlist after its
/// current entry.
pub open spec fn mirrors(p: Player, e: EngineModel) -> bool {
    &&& 0 <= e.pos < e.playlist.len()
    &&& e.playlist.subrange(e.pos + 1, e.playlist.len() as int) == queue_paths(p.queue@)
}

/// Running `a + b` runs `a`, then `b`.
pub proof fn lemma_run_concat(e: EngineModel, a: Seq<EngineCommand>, b: Seq<EngineCommand>)
    ensures
        run(e, a + b) == run(run(e, a), b),
    decreases a.len(),
{
    if a.len() == 0 {
        assert(a + b =~= b);
    } else {
        assert((a + b).drop_first() =~= a.drop_first() + b);
        lemma_run_concat(step(e, a[0]), a.drop_first(), b);
    }
}

/// Running a single command is a step.
proof fn lemma_run_one(e: EngineModel, c: EngineCommand)
    ensures
        run(e, seq![c]) == step(e, c),
{
    assert(seq![c].drop_first() =~= Seq::<EngineCommand>::empty());
    assert(run(step(e, c), Seq::<EngineCommand>::empty()) == step(e, c));
}

/// Starting a playlist leaves the engine playing its first track with the
/// others after it, which is exactly the new queue.
pub proof fn lemma_playlist_start_mirrors(
    p0: Player,
    p1: Player,
    i: int,
    cmds: Seq<EngineCommand>,
    e: EngineModel,
)
    requires
        0 <= i < p0.library.playlists@.len(),
        p0.library.playlists@[i].tracks@.len() > 0,
        playlist_started(p0, p1, i, cmds),
    ensures
        mirrors(p1, run(e, cmds)),
        run(e, cmds).pos == 0,
{
    let t = p0.library.playlists@[i].tracks@;
    let n = t.len() as int;
    let paths = t.map_values(|tr: crate::library::Track| tr.filename@);
    // After the first k commands the engine holds the first k paths.
    assert forall|k: int| 1 <= k <= n implies run(e, cmds.subrange(0, k)) == (EngineModel {
        playlist: paths.subrange(0, k),
        pos: 0,
    }) by {
        lemma_loads_prefix(e, cmds, paths, k);
    }
    let loaded = run(e, cmds.subrange(0, n));
    assert(cmds =~= cmds.subrange(0, n) + cmds.subrange(n, n + 2));
    lemma_run_concat(e, cmds.subrange(0, n), cmds.subrange(n, n + 2));
    assert(cmds.subrange(n, n + 2).drop_first() =~= seq![cmds[n + 1]]);
    lemma_run_one(step(loaded, cmds[n]), cmds[n + 1]);
    assert(run(e, cmds) == loaded);
    assert(loaded.playlist =~= paths);
    assert(paths.subrange(1, n) =~= queue_paths(p1.queue@));
}

/// The first `k` commands of a playlist start load its first `k` paths.
proof fn lemma_loads_prefix(e: EngineModel, cmds: Seq<EngineCommand>, paths: Seq<Seq<char>>, k: int)
    requires
        1 <= k <= paths.len(),
        cmds.len() >= paths.len(),
        cmds[0] == (EngineCommand::LoadFile { path: cmds[0]->path, mode: LoadMode::Replace }),
        cmds[0]->path@ == paths[0],
        forall|m: int|
            1 <= m < paths.len() ==> (#[trigger] cmds[m]) is LoadFile && cmds[m]->mode
                == LoadMode::Append && cmds[m]->path@ == paths[m],
    ensures
        run(e, cmds.subrange(0, k)) == (EngineModel { playlist: paths.subrange(0, k), pos: 0 }),
    decreases k,
{
    if k == 1 {
        assert(cmds.subrange(0, 1) =~= seq![cmds[0]]);
        lemma_run_one(e, cmds[0]);
        assert(paths.subrange(0, 1) =~= seq![paths[0]]);
    } else {
        lemma_loads_prefix(e, cmds, paths, k - 1);
        assert(cmds.subrange(0, k) =~= cmds.subrange(0, k - 1) + seq![cmds[k - 1]]);
        lemma_run_concat(e, cmds.subrange(0, k - 1), seq![cmds[k - 1]]);
        lemma_run_one(run(e, cmds.subrange(0, k - 1)), cmds[k - 1]);
        assert(paths.subrange(0, k) =~= paths.subrange(0, k - 1).push(paths[k - 1]));
    }
}

/// Appending a track adds its path after the last engine entry and to the end
/// of the queue, so the queue keeps mirroring the engine.
pub proof fn lemma_append_keeps_mirror(
    p0: Player,
    p1: Player,
    i: int,
    j: int,
    cmds: Seq<EngineCommand>,
    e: EngineModel,
)
    requires
        0 <= i < p0.library.playlists@.len(),
        0 <= j < p0.library.playlists@[i].tracks@.len(),
        mirrors(p0, e),
        appended(p0, p1, i, j, cmds),
    ensures
        mirrors(p1, run(e, cmds)),
{
    lemma_run_one(e, cmds[0]);
    let e1 = run(e, cmds);
    assert(cmds =~= seq![cmds[0]]);
    assert(p1.queue@ =~= p0.queue@.push(p1.queue@.last()));
    assert(queue_paths(p1.queue@) =~= queue_paths(p0.queue@).push(p1.queue@.last().file_path@));
    assert(e1.playlist.subrange(e1.pos + 1, e1.playlist.len() as int) =~= e.playlist.subrange(
        e.pos + 1,
        e.playlist.len() as int,
    ).push(p1.queue@.last().file_path@));
}

/// Removing queue entry `k` at the absolute index `playlist_pos + 1 + k`
/// removes the engine entry that mirrors it, so the queue keeps mirroring the
/// engine.
pub proof fn lemma_remove_keeps_mirror(
    p0: Player,
    p1: Player,
    k: int,
    cmds: Seq<EngineCommand>,
    e: EngineModel,
)
    requires
        0 <= k < p0.queue@.len(),
        e.pos + 1 + k <= usize::MAX,
        mirrors(p0, e),
        removed(p0, p1, k, e.pos, cmds),
    ensures
        mirrors(p1, run(e, cmds)),
{
    lemma_run_one(e, cmds[0]);
    let e1 = run(e, cmds);
    let n = e.playlist.len() as int;
    assert(cmds =~= seq![cmds[0]]);
    assert(e.playlist.subrange(e.pos + 1, n).len() == p0.queue@.len());
    assert(e1.playlist == e.playlist.remove(e.pos + 1 + k));
    assert(queue_paths(p1.queue@) =~= queue_paths(p0.queue@).remove(k));
    assert(e1.playlist.subrange(e1.pos + 1, n - 1) =~= e.playlist.subrange(e.pos + 1, n).remove(
        k,
    ));
}

/// Removing the entries after the current one, highest index first, leaves
/// exactly the entries up to the current one.
pub proof fn lemma_clear_commands_truncate(e: EngineModel, playlist_pos: int, playlist_count: int)
    requires
        0 <= playlist_pos == e.pos < e.playlist.len() == playlist_count,
        playlist_count <= usize::MAX + 1,
    ensures
        run(e, clear_commands(playlist_pos, playlist_count)) == (EngineModel {
            playlist: e.playlist.subrange(0, playlist_pos + 1),
            pos: playlist_pos,
        }),
    decreases playlist_count,
{
    let cmds = clear_commands(playlist_pos, playlist_count);
    if playlist_count == playlist_pos + 1 {
        assert(cmds.len() == 0);
        assert(e.playlist.subrange(0, playlist_pos + 1) =~= e.playlist);
    } else {
        let rest = clear_commands(playlist_pos, playlist_count - 1);
        let first = EngineCommand::PlaylistRemove((playlist_count - 1) as usize);
        assert(cmds =~= seq![first] + rest);
        lemma_run_concat(e, seq![first], rest);
        lemma_run_one(e, first);
        let e1 = step(e, first);
        assert(e1.playlist =~= e.playlist.subrange(0, playlist_count - 1));
        lemma_clear_commands_truncate(e1, playlist_pos, playlist_count - 1);
        assert(e1.playlist.subrange(0, playlist_pos + 1) =~= e.playlist.subrange(
            0,
            playlist_pos + 1,
        ));
    }
}

/// Clearing the queue with the engine's own position and count removes every
/// engine entry after the current one, so the empty queue mirrors the engine.
pub proof fn lemma_clear_keeps_mirror(p1: Player, e: EngineModel, cmds: Seq<EngineCommand>)
    requires
        0 <= e.pos < e.playlist.len() <= usize::MAX,
        cmds == clear_commands(e.pos, e.playlist.len() as int),
        p1.queue@.len() == 0,
    ensures
        mirrors(p1, run(e, cmds)),
        run(e, cmds).playlist == e.playlist.subrange(0, e.pos + 1),
{
    lemma_clear_commands_truncate(e, e.pos, e.playlist.len() as int);
    assert(queue_paths(p1.queue@) =~= Seq::<Seq<char>>::empty());
    let e1 = run(e, cmds);
    assert(e1.playlist.subrange(e1.pos + 1, e1.playlist.len() as int) =~= Seq::<Seq<char>>::empty());
}

/// When the engine moves on to its next entry by itself and reports the new
/// position, the queue head leaves the queue, so the queue keeps mirroring
/// the engine.
pub proof fn lemma_advance_keeps_mirror(p0: Player, p1: Player, e: EngineModel)
    requires
        mirrors(p0, e),
        p0.loaded_position == e.pos,
        e.pos + 1 < e.playlist.len(),
        reconciled(p0, p1, step(e, EngineCommand::PlaylistNext).pos),
    ensures
        mirrors(p1, step(e, EngineCommand::PlaylistNext)),
{
    let n = e.playlist.len() as int;
    assert(e.playlist.subrange(e.pos + 1, n).len() == p0.queue@.len());
    assert(queue_paths(p1.queue@) =~= queue_paths(p0.queue@).drop_first());
    assert(e.playlist.subrange(e.pos + 2, n) =~= e.playlist.subrange(e.pos + 1, n).drop_first());
}

} // verus!
