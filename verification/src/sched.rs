use crate::state::{step_spec, State, StateModel};
use vstd::arithmetic::div_mod::{
    lemma_basic_div, lemma_div_minus_one, lemma_fundamental_div_mod, lemma_small_mod,
};
use vstd::prelude::*;

verus! {

/// The most simulated time, in microseconds, that one catch-up step may
/// cover: the quantum of the fixed-timestep scheduler.
pub const MAX_TIME_PER_UPDATE: u64 = 250_000;

/// The timestamps and sizes of the simulation steps that catch simulated
/// time (`game`) up to wall-clock time (`real`): one full quantum while at
/// least a whole quantum of lag remains, then one final step covering the
/// remainder — zero-length when the gap is a whole number of quanta.
pub open spec fn plan(game_ts: u64, real_ts: u64, quantum: u64) -> Seq<(u64, u64)>
    decreases real_ts - game_ts,
    when 0 < quantum && game_ts <= real_ts
{
    if real_ts - game_ts >= quantum {
        seq![(game_ts, quantum)] + plan((game_ts + quantum) as u64, real_ts, quantum)
    } else {
        seq![(game_ts, (real_ts - game_ts) as u64)]
    }
}

/// The catch-up bound: however large the stall, the plan for a gap of
/// `real - game` microseconds holds exactly `gap / quantum` full-quantum
/// steps followed by one final step of `gap % quantum` microseconds. The
/// steps' timestamps chain, starting at `game` and ending so that the last
/// step reaches `real` exactly.
pub proof fn lemma_plan_shape(game_ts: u64, real_ts: u64, quantum: u64)
    requires
        0 < quantum,
        game_ts <= real_ts,
    ensures
        plan(game_ts, real_ts, quantum).len() == (real_ts - game_ts) / (quantum as int) + 1,
        forall|k: int|
            0 <= k < plan(game_ts, real_ts, quantum).len() - 1 ==> (#[trigger] plan(
                game_ts,
                real_ts,
                quantum,
            )[k]).1 == quantum,
        plan(game_ts, real_ts, quantum).last().1 == (real_ts - game_ts) % (quantum as int),
        plan(game_ts, real_ts, quantum)[0].0 == game_ts,
        forall|k: int|
            0 < k < plan(game_ts, real_ts, quantum).len() ==> (#[trigger] plan(game_ts, real_ts, quantum)[k]).0
                == plan(game_ts, real_ts, quantum)[k - 1].0 + plan(game_ts, real_ts, quantum)[k - 1].1,
        plan(game_ts, real_ts, quantum).last().0 + plan(game_ts, real_ts, quantum).last().1 == real_ts,
    decreases real_ts - game_ts,
{
    let gap = real_ts - game_ts;
    let q = quantum as int;
    if gap >= quantum {
        lemma_plan_shape((game_ts + quantum) as u64, real_ts, quantum);
        lemma_div_minus_one(gap as int, q);
        lemma_fundamental_div_mod(gap as int, q);
        lemma_fundamental_div_mod(gap - q, q);
        assert(q * (gap / q - 1) == q * (gap / q) - q) by (nonlinear_arith);
    } else {
        lemma_basic_div(gap as int, q);
        lemma_small_mod(gap as nat, quantum as nat);
    }
}

/// The catch-up plan as a value.
pub fn plan_steps(game_timestamp: u64, real_timestamp: u64, quantum: u64) -> (r: Vec<(u64, u64)>)
    requires
        0 < quantum,
        game_timestamp <= real_timestamp,
    ensures
        r@ == plan(game_timestamp, real_timestamp, quantum),
{
    let mut r: Vec<(u64, u64)> = Vec::new();
    let mut g = game_timestamp;
    while real_timestamp - g >= quantum
        invariant
            0 < quantum,
            game_timestamp <= g <= real_timestamp,
            plan(game_timestamp, real_timestamp, quantum) == r@ + plan(
                g,
                real_timestamp,
                quantum,
            ),
        decreases real_timestamp - g,
    {
        r.push((g, quantum));
        proof {
            assert(plan(game_timestamp, real_timestamp, quantum) =~= r@ + plan(
                (g + quantum) as u64,
                real_timestamp,
                quantum,
            ));
        }
        g = g + quantum;
    }
    r.push((g, real_timestamp - g));
    proof {
        assert(plan(game_timestamp, real_timestamp, quantum) =~= r@);
    }
    r
}

/// The simulation after the plan's steps have run in order.
pub open spec fn run_plan(s: StateModel, p: Seq<(u64, u64)>) -> StateModel
    decreases p.len(),
{
    if p.len() == 0 {
        s
    } else {
        run_plan(step_spec(s, p[0].0, p[0].1), p.drop_first())
    }
}

impl State {
    /// Catches simulated time up to `real_timestamp`: runs one simulation
    /// step per whole quantum of lag, each of exactly
    /// [`MAX_TIME_PER_UPDATE`] microseconds, then one final step covering
    /// the remainder, and returns the new game timestamp — which equals
    /// `real_timestamp`. The bounded quantum keeps the number of steps at
    /// `gap / quantum + 1` however long the stall was. The id and store
    /// headroom in the preconditions covers the at most one block spawned
    /// per tank per step.
    pub fn advance(&mut self, game_timestamp: u64, real_timestamp: u64) -> (r: u64)
        requires
            old(self).wf(),
            game_timestamp <= real_timestamp,
            old(self).id_counter + plan(game_timestamp, real_timestamp, MAX_TIME_PER_UPDATE).len()
                * old(self).tank_ids.len() <= u32::MAX,
            old(self).sliding_block_ids.len() + plan(
                game_timestamp,
                real_timestamp,
                MAX_TIME_PER_UPDATE,
            ).len() * old(self).tank_ids.len() <= usize::MAX,
        ensures
            r == real_timestamp,
            final(self).wf(),
            final(self)@ == run_plan(
                old(self)@,
                plan(game_timestamp, real_timestamp, MAX_TIME_PER_UPDATE),
            ),
    {
        let ghost full = plan(game_timestamp, real_timestamp, MAX_TIME_PER_UPDATE);
        let ghost init = self@;
        let mut g = game_timestamp;
        while real_timestamp - g >= MAX_TIME_PER_UPDATE
            invariant
                self.wf(),
                game_timestamp <= g <= real_timestamp,
                run_plan(init, full) == run_plan(self@, plan(g, real_timestamp, MAX_TIME_PER_UPDATE)),
                self.id_counter + plan(g, real_timestamp, MAX_TIME_PER_UPDATE).len()
                    * self.tank_ids.len() <= u32::MAX,
                self.sliding_block_ids.len() + plan(g, real_timestamp, MAX_TIME_PER_UPDATE).len()
                    * self.tank_ids.len() <= usize::MAX,
            decreases real_timestamp - g,
        {
            let ghost pre = self@;
            let ghost rest = plan(g, real_timestamp, MAX_TIME_PER_UPDATE);
            let ghost tanks = self.tank_ids.len() as int;
            proof {
                assert(rest.len() >= 1);
                assert(rest.len() * tanks >= 1 * tanks) by (nonlinear_arith)
                    requires
                        rest.len() >= 1,
                        tanks >= 0,
                ;
            }
            self.step(g, MAX_TIME_PER_UPDATE);
            proof {
                assert((rest.len() - 1) * tanks == rest.len() * tanks - tanks)
                    by (nonlinear_arith);
                assert(rest.drop_first() =~= plan(
                    (g + MAX_TIME_PER_UPDATE) as u64,
                    real_timestamp,
                    MAX_TIME_PER_UPDATE,
                ));
                assert(run_plan(pre, rest) == run_plan(
                    self@,
                    plan((g + MAX_TIME_PER_UPDATE) as u64, real_timestamp, MAX_TIME_PER_UPDATE),
                ));
            }
            g = g + MAX_TIME_PER_UPDATE;
        }
        let ghost pre = self@;
        let ghost rest = plan(g, real_timestamp, MAX_TIME_PER_UPDATE);
        let ghost tanks = self.tank_ids.len() as int;
        proof {
            assert(rest.len() == 1);
            assert(rest.len() * tanks == tanks) by (nonlinear_arith)
                requires
                    rest.len() == 1,
            ;
        }
        self.step(g, real_timestamp - g);
        proof {
            assert(rest.drop_first() =~= Seq::<(u64, u64)>::empty());
            assert(run_plan(pre, rest) == run_plan(self@, rest.drop_first()));
            assert(run_plan(self@, rest.drop_first()) == self@);
        }
        real_timestamp
    }
}

} // verus!
