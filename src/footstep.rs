use rand::Rng;
use vstd::prelude::*;

verus! {

/// Why a footstep could not be played.
#[derive(PartialEq, Eq, Structural, Clone, Copy, Debug)]
pub enum FootstepError {
    /// The cue pool holds no audio cue to choose from.
    EmptyCuePool,
}

/// What the host does for one footstep: emit cue number `cue` of the pool,
/// and attach the emitter under the ground anchor when `attach` holds.
///
/// A missing ground anchor is tolerated: the emitter is then dropped
/// without playing. An empty pool is an error, reported before any emitter
/// exists.
#[derive(PartialEq, Eq, Structural, Clone, Copy, Debug)]
pub struct StepCue {
    pub cue: usize,
    pub attach: bool,
}

/// Relies on rand's `thread_rng` and `Rng::gen_range` over `0..=hi`: the
/// drawn value lies in that range, which is never empty, so the call does
/// not panic.
#[verifier::external_body]
fn draw_index_up_to(hi: usize) -> (r: usize)
    ensures
        r <= hi,
{
    rand::thread_rng().gen_range(0..=hi)
}

/// Picks, at random, the cue of a pool of `pool_len` cues that a footstep
/// plays, and whether its emitter is attached to the scene.
pub fn play_step(pool_len: usize, has_anchor: bool) -> (r: Result<StepCue, FootstepError>)
    ensures
        r is Err <==> pool_len == 0,
        r is Err ==> r->Err_0 == FootstepError::EmptyCuePool,
        r is Ok ==> r->Ok_0.cue < pool_len,
        r is Ok ==> r->Ok_0.attach == has_anchor,
        pool_len == 1 ==> r is Ok && r->Ok_0.cue == 0,
{
    if pool_len == 0 {
        return Err(FootstepError::EmptyCuePool);
    }
    let cue = draw_index_up_to(pool_len - 1);
    Ok(StepCue { cue, attach: has_anchor })
}

} // verus!
