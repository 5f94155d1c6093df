//! Checkpoints: one-shot markers that score a point when the bird passes.
use vstd::prelude::*;

use crate::pipe::Pipe;

verus! {

/// Whether the bird, at horizontal position `bird_x`, passes the pipe's
/// checkpoint: the pipe still carries one and the bird is right of it.
pub open spec fn passes(bird_x: i64, p: Pipe) -> bool {
    p.checkpoint && bird_x > p.position.x
}

/// The pipe after the checkpoint pass: a passed checkpoint is removed.
pub open spec fn checkpoint_cleared(bird_x: i64, p: Pipe) -> Pipe {
    if passes(bird_x, p) {
        Pipe { checkpoint: false, ..p }
    } else {
        p
    }
}

/// All pipes after the checkpoint pass.
pub open spec fn checkpoints_cleared(bird_x: i64, s: Seq<Pipe>) -> Seq<Pipe> {
    Seq::new(s.len(), |i: int| checkpoint_cleared(bird_x, s[i]))
}

/// How many checkpoints of `s` the bird passes.
pub open spec fn passed_count(bird_x: i64, s: Seq<Pipe>) -> nat
    decreases s.len(),
{
    if s.len() == 0 {
        0
    } else {
        passed_count(bird_x, s.drop_last()) + if passes(bird_x, s.last()) {
            1nat
        } else {
            0nat
        }
    }
}

/// How many pipes of `s` carry a checkpoint.
pub open spec fn marked_count(s: Seq<Pipe>) -> nat
    decreases s.len(),
{
    if s.len() == 0 {
        0
    } else {
        marked_count(s.drop_last()) + if s.last().checkpoint {
            1nat
        } else {
            0nat
        }
    }
}

/// Removes the checkpoint of every pipe the bird has passed and returns how
/// many were passed: one event per checkpoint.
pub fn update_checkpoints(bird_x: i64, pipes: &mut Vec<Pipe>) -> (passed: usize)
    ensures
        final(pipes)@ == checkpoints_cleared(bird_x, old(pipes)@),
        passed == passed_count(bird_x, old(pipes)@),
{
    let n = pipes.len();
    let mut passed: usize = 0;
    let mut i: usize = 0;
    while i < n
        invariant
            n == pipes.len() == old(pipes)@.len(),
            0 <= i <= n,
            passed == passed_count(bird_x, old(pipes)@.subrange(0, i as int)),
            passed <= i,
            forall|j: int| 0 <= j < i ==> pipes@[j] == checkpoint_cleared(bird_x, old(pipes)@[j]),
            forall|j: int| i <= j < n ==> pipes@[j] == old(pipes)@[j],
        decreases n - i,
    {
        let p = pipes[i];
        proof {
            assert(old(pipes)@.subrange(0, i + 1).drop_last() =~= old(pipes)@.subrange(0, i as int));
        }
        if p.checkpoint && bird_x > p.position.x {
            pipes.set(i, Pipe { checkpoint: false, ..p });
            passed += 1;
        }
        i += 1;
    }
    assert(old(pipes)@.subrange(0, n as int) =~= old(pipes)@);
    assert(pipes@ =~= checkpoints_cleared(bird_x, old(pipes)@));
    passed
}

/// A checkpoint fires at most once: after a pass at `x1`, a second pass at
/// any `x2` never fires for a pipe whose checkpoint already fired, so the two
/// passes together fire at most once per checkpoint.
pub proof fn lemma_checkpoint_fires_once(s: Seq<Pipe>, x1: i64, x2: i64)
    ensures
        forall|i: int|
            0 <= i < s.len() ==> !(passes(x1, s[i]) && passes(
                x2,
                #[trigger] checkpoints_cleared(x1, s)[i],
            )),
        passed_count(x1, s) + passed_count(x2, checkpoints_cleared(x1, s)) <= marked_count(s),
    decreases s.len(),
{
    if s.len() > 0 {
        lemma_checkpoint_fires_once(s.drop_last(), x1, x2);
        assert(checkpoints_cleared(x1, s).drop_last() =~= checkpoints_cleared(x1, s.drop_last()));
    }
}

} // verus!
