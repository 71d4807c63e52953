use vstd::prelude::*;

verus! {

/// Ticks between two flushes of the benchmark timers: five seconds at ten ticks a
/// second.
pub const BENCHMARK_PERIOD: u32 = 50;

/// One step of an arena's tick.
#[derive(Clone, Copy, Debug, PartialEq, Eq, Structural)]
pub enum TickStep {
    /// Remove disconnected clients, releasing their boats.
    PruneClients,
    /// Move the number of bots toward the minimum number of players.
    UpdateBotCount,
    /// Advance the game by one tick.
    UpdateGame,
    /// Recompute each player's liveness and team from the entities they own.
    UpdatePlayers,
    /// Send each client its view of the new state.
    UpdateClients,
    /// Let each bot choose its input.
    UpdateBots,
    /// Feed the liveboard and the players to the leaderboard.
    ProcessLeaderboard,
    /// Run the game's post-update work, where static entities are refilled.
    PostUpdate,
    /// Report the benchmark timers and reset them.
    FlushBenchmarks,
}

/// The steps of the tick numbered `counter`, in the order they must run.
pub open spec fn tick_steps(counter: u32) -> Seq<TickStep> {
    let steps = seq![
        TickStep::PruneClients,
        TickStep::UpdateBotCount,
        TickStep::UpdateGame,
        TickStep::UpdatePlayers,
        TickStep::UpdateClients,
        TickStep::UpdateBots,
        TickStep::ProcessLeaderboard,
        TickStep::PostUpdate,
    ];
    if counter % BENCHMARK_PERIOD == 0 {
        steps.push(TickStep::FlushBenchmarks)
    } else {
        steps
    }
}

/// Drives the ticks of one arena: it keeps the tick counter and decides which steps
/// each tick runs; the caller carries them out against the arena's services.
pub struct ContextService {
    pub counter: u32,
    pub min_players: usize,
}

impl ContextService {
    /// A service for an arena that keeps at least `min_players` players, bots included.
    pub fn new(min_players: usize) -> (r: ContextService)
        ensures
            r.counter == 0,
            r.min_players == min_players,
    {
        ContextService { counter: 0, min_players }
    }

    /// Counts one more tick (wrapping around) and returns the steps it runs.
    pub fn update(&mut self) -> (r: Vec<TickStep>)
        ensures
            final(self).min_players == old(self).min_players,
            final(self).counter == if old(self).counter == u32::MAX {
                0
            } else {
                (old(self).counter + 1) as u32
            },
            r@ == tick_steps(final(self).counter),
    {
        self.counter = if self.counter == u32::MAX {
            0
        } else {
            self.counter + 1
        };
        let mut steps = vec![
            TickStep::PruneClients,
            TickStep::UpdateBotCount,
            TickStep::UpdateGame,
            TickStep::UpdatePlayers,
            TickStep::UpdateClients,
            TickStep::UpdateBots,
            TickStep::ProcessLeaderboard,
            TickStep::PostUpdate,
        ];
        if self.counter % BENCHMARK_PERIOD == 0 {
            steps.push(TickStep::FlushBenchmarks);
        }
        assert(steps@ =~= tick_steps(self.counter));
        steps
    }
}

} // verus!
