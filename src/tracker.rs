//! The change tracker: remembers the frame with the largest change score
//! observed so far.
use vstd::prelude::*;

verus! {

/// The frame with the largest change score seen in the monitoring window.
#[derive(Clone, Copy, Debug, PartialEq, Eq, Structural)]
pub struct MaxAverageFrame {
    pub frame_number: u64,
}

/// The tracked frame and its score. Scores are in millionths (`300000` is a
/// change of 0.3); `max_score` means nothing while no frame is tracked.
#[derive(Clone, Copy, Debug, PartialEq, Eq, Structural)]
pub struct ChangeTracker {
    pub max_frame: Option<MaxAverageFrame>,
    pub max_score: i64,
}

/// The tracker after one observation: the first observation, or one whose
/// score is strictly above the tracked maximum, becomes the tracked frame.
/// On a score equal to the tracked maximum the earlier frame stays: a frame
/// is replaced only by a strictly larger score.
pub open spec fn observed(t: ChangeTracker, frame_number: u64, score: i64) -> ChangeTracker {
    if t.max_frame is None || score > t.max_score {
        ChangeTracker { max_frame: Some(MaxAverageFrame { frame_number }), max_score: score }
    } else {
        t
    }
}

/// The tracker after a sequence of (frame number, score) observations, in order.
pub open spec fn replay(t: ChangeTracker, obs: Seq<(u64, i64)>) -> ChangeTracker
    decreases obs.len(),
{
    if obs.len() == 0 {
        t
    } else {
        observed(replay(t, obs.drop_last()), obs.last().0, obs.last().1)
    }
}

pub open spec fn fresh() -> ChangeTracker {
    ChangeTracker { max_frame: None, max_score: 0 }
}

impl ChangeTracker {
    /// A tracker that tracks no frame yet.
    pub fn new() -> (r: ChangeTracker)
        ensures
            r == fresh(),
    {
        ChangeTracker { max_frame: None, max_score: 0 }
    }

    /// Records the change score of a frame.
    pub fn observe(&mut self, frame_number: u64, score: i64)
        ensures
            *final(self) == observed(*old(self), frame_number, score),
    {
        let replace = match self.max_frame {
            None => true,
            Some(_) => score > self.max_score,
        };
        if replace {
            self.max_frame = Some(MaxAverageFrame { frame_number });
            self.max_score = score;
        }
    }

    /// The number of the tracked frame, or 0 when none is tracked.
    pub fn max_frame_number(&self) -> (r: u64)
        ensures
            r == match self.max_frame {
                Some(f) => f.frame_number,
                None => 0,
            },
    {
        match self.max_frame {
            Some(f) => f.frame_number,
            None => 0,
        }
    }
}

/// After any non-empty sequence of observations on a fresh tracker, the
/// tracked score is the largest score observed, and the tracked frame is the
/// earliest observation that reached it.
pub proof fn lemma_tracks_first_maximum(obs: Seq<(u64, i64)>)
    requires
        obs.len() > 0,
    ensures
        exists|k: int|
            0 <= k < obs.len() && replay(fresh(), obs).max_frame == Some(MaxAverageFrame { frame_number: obs[k].0 })
                && replay(fresh(), obs).max_score == obs[k].1
                && (forall|j: int| 0 <= j < k ==> #[trigger] obs[j].1 < obs[k].1),
        forall|j: int| 0 <= j < obs.len() ==> #[trigger] obs[j].1 <= replay(fresh(), obs).max_score,
    decreases obs.len(),
{
    let pre = obs.drop_last();
    if pre.len() == 0 {
        assert(replay(fresh(), pre) == fresh());
        assert(obs[0] == obs.last());
    } else {
        lemma_tracks_first_maximum(pre);
        let t = replay(fresh(), pre);
        let k = choose|k: int|
            0 <= k < pre.len() && t.max_frame == Some(MaxAverageFrame { frame_number: pre[k].0 })
                && t.max_score == pre[k].1
                && (forall|j: int| 0 <= j < k ==> #[trigger] pre[j].1 < pre[k].1);
        if obs.last().1 > t.max_score {
            let last = obs.len() - 1;
            assert forall|j: int| 0 <= j < last implies #[trigger] obs[j].1 < obs[last].1 by {
                assert(obs[j] == pre[j]);
            }
        } else {
            assert(obs[k] == pre[k]);
            assert forall|j: int| 0 <= j < k implies #[trigger] obs[j].1 < obs[k].1 by {
                assert(obs[j] == pre[j]);
            }
        }
        assert forall|j: int| 0 <= j < obs.len() implies #[trigger] obs[j].1 <= replay(fresh(), obs).max_score by {
            if j < pre.len() {
                assert(obs[j] == pre[j]);
            }
        }
    }
}

} // verus!
