use vstd::prelude::*;

use crate::consts::NOPTS_VALUE;

verus! {

/// The presentation-time correction counters that a decoder context keeps
/// (`pts_correction_*` in FFmpeg's codec context).
#[derive(Clone, Copy, Debug, PartialEq, Eq)]
pub struct PtsCorrection {
    pub num_faulty_pts: i64,
    pub num_faulty_dts: i64,
    pub last_pts: i64,
    pub last_dts: i64,
}

/// Whether a decoding timestamp counts as faulty: it is set and does not
/// advance past the last one seen.
pub open spec fn dts_is_faulty(s: PtsCorrection, dts: i64) -> bool {
    dts != NOPTS_VALUE && dts <= s.last_dts
}

/// Whether a reordered presentation timestamp counts as faulty.
pub open spec fn pts_is_faulty(s: PtsCorrection, reordered_pts: i64) -> bool {
    reordered_pts != NOPTS_VALUE && reordered_pts <= s.last_pts
}

/// The counters cannot overflow on this frame.
pub open spec fn can_correct(s: PtsCorrection, reordered_pts: i64, dts: i64) -> bool {
    &&& dts_is_faulty(s, dts) ==> s.num_faulty_dts < i64::MAX
    &&& pts_is_faulty(s, reordered_pts) ==> s.num_faulty_pts < i64::MAX
}

/// The counters after one frame with the given timestamps.
pub open spec fn corrected_state(s: PtsCorrection, reordered_pts: i64, dts: i64) -> PtsCorrection {
    PtsCorrection {
        num_faulty_dts: if dts_is_faulty(s, dts) { (s.num_faulty_dts + 1) as i64 } else { s.num_faulty_dts },
        last_dts: if dts != NOPTS_VALUE { dts } else if reordered_pts != NOPTS_VALUE { reordered_pts } else { s.last_dts },
        num_faulty_pts: if pts_is_faulty(s, reordered_pts) { (s.num_faulty_pts + 1) as i64 } else { s.num_faulty_pts },
        last_pts: if reordered_pts != NOPTS_VALUE { reordered_pts } else if dts != NOPTS_VALUE { dts } else { s.last_pts },
    }
}

/// The timestamp chosen for a frame: the reordered presentation timestamp,
/// unless it is missing, the decoding timestamp is present and the
/// presentation timestamps have been faulty more often than the decoding ones.
pub open spec fn chosen_pts(s: PtsCorrection, reordered_pts: i64, dts: i64) -> i64 {
    let t = corrected_state(s, reordered_pts, dts);
    if t.num_faulty_pts <= t.num_faulty_dts || dts == NOPTS_VALUE || reordered_pts != NOPTS_VALUE {
        reordered_pts
    } else {
        dts
    }
}

impl PtsCorrection {
    /// Whether the counters can take this frame without overflowing.
    pub fn can_correct(&self, reordered_pts: i64, dts: i64) -> (b: bool)
        ensures
            b == can_correct(*self, reordered_pts, dts),
    {
        let dts_ok = !(dts != NOPTS_VALUE && dts <= self.last_dts) || self.num_faulty_dts < i64::MAX;
        let pts_ok = !(reordered_pts != NOPTS_VALUE && reordered_pts <= self.last_pts) || self.num_faulty_pts
            < i64::MAX;
        dts_ok && pts_ok
    }

    /// Picks the best presentation timestamp for a decoded frame and updates
    /// the counters, as `guess_correct_pts` does.
    pub fn guess_correct_pts(&mut self, reordered_pts: i64, dts: i64) -> (pts: i64)
        requires
            can_correct(*old(self), reordered_pts, dts),
        ensures
            *final(self) == corrected_state(*old(self), reordered_pts, dts),
            pts == chosen_pts(*old(self), reordered_pts, dts),
            dts != NOPTS_VALUE && dts <= old(self).last_dts ==> final(self).num_faulty_dts
                == old(self).num_faulty_dts + 1,
            !(dts != NOPTS_VALUE && dts <= old(self).last_dts) ==> final(self).num_faulty_dts
                == old(self).num_faulty_dts,
            reordered_pts != NOPTS_VALUE && reordered_pts <= old(self).last_pts ==> final(self).num_faulty_pts
                == old(self).num_faulty_pts + 1,
            !(reordered_pts != NOPTS_VALUE && reordered_pts <= old(self).last_pts)
                ==> final(self).num_faulty_pts == old(self).num_faulty_pts,
            dts != NOPTS_VALUE ==> final(self).last_dts == dts,
            dts == NOPTS_VALUE && reordered_pts != NOPTS_VALUE ==> final(self).last_dts == reordered_pts,
            reordered_pts != NOPTS_VALUE ==> final(self).last_pts == reordered_pts,
            reordered_pts == NOPTS_VALUE && dts != NOPTS_VALUE ==> final(self).last_pts == dts,
            reordered_pts == NOPTS_VALUE && dts == NOPTS_VALUE ==> *final(self) == *old(self),
            reordered_pts != NOPTS_VALUE ==> pts == reordered_pts,
            reordered_pts == NOPTS_VALUE && dts == NOPTS_VALUE ==> pts == NOPTS_VALUE,
            reordered_pts == NOPTS_VALUE && dts != NOPTS_VALUE ==> pts == if old(self).num_faulty_pts
                > final(self).num_faulty_dts {
                dts
            } else {
                NOPTS_VALUE
            },
    {
        if dts != NOPTS_VALUE {
            if dts <= self.last_dts {
                self.num_faulty_dts = self.num_faulty_dts + 1;
            }
            self.last_dts = dts;
        } else if reordered_pts != NOPTS_VALUE {
            self.last_dts = reordered_pts;
        }
        if reordered_pts != NOPTS_VALUE {
            if reordered_pts <= self.last_pts {
                self.num_faulty_pts = self.num_faulty_pts + 1;
            }
            self.last_pts = reordered_pts;
        } else if dts != NOPTS_VALUE {
            self.last_pts = dts;
        }
        if (self.num_faulty_pts <= self.num_faulty_dts || dts == NOPTS_VALUE) || reordered_pts != NOPTS_VALUE {
            reordered_pts
        } else {
            dts
        }
    }
}

/// The chosen timestamp is always one of the two timestamps of the frame.
pub proof fn lemma_chosen_is_an_input(s: PtsCorrection, reordered_pts: i64, dts: i64)
    ensures
        chosen_pts(s, reordered_pts, dts) == reordered_pts || chosen_pts(s, reordered_pts, dts) == dts,
{
}

/// A frame that carries a reordered presentation timestamp always gets it.
pub proof fn lemma_present_pts_wins(s: PtsCorrection, reordered_pts: i64, dts: i64)
    requires
        reordered_pts != NOPTS_VALUE,
    ensures
        chosen_pts(s, reordered_pts, dts) == reordered_pts,
{
}

/// The decoding timestamp is chosen only when the presentation timestamp is
/// missing, the decoding timestamp is present, and presentation timestamps
/// have been faulty more often than decoding ones.
pub proof fn lemma_when_dts_is_chosen(s: PtsCorrection, reordered_pts: i64, dts: i64)
    requires
        chosen_pts(s, reordered_pts, dts) != reordered_pts,
    ensures
        reordered_pts == NOPTS_VALUE,
        dts != NOPTS_VALUE,
        s.num_faulty_pts > corrected_state(s, reordered_pts, dts).num_faulty_dts,
{
}

/// A frame with neither timestamp leaves the counters as they were and gets
/// no timestamp.
pub proof fn lemma_no_timestamps(s: PtsCorrection)
    ensures
        corrected_state(s, NOPTS_VALUE, NOPTS_VALUE) == s,
        chosen_pts(s, NOPTS_VALUE, NOPTS_VALUE) == NOPTS_VALUE,
{
}

/// The fault counters never go down, and each grows by at most one a frame.
pub proof fn lemma_counters_step(s: PtsCorrection, reordered_pts: i64, dts: i64)
    requires
        can_correct(s, reordered_pts, dts),
    ensures
        s.num_faulty_dts <= corrected_state(s, reordered_pts, dts).num_faulty_dts <= s.num_faulty_dts + 1,
        s.num_faulty_pts <= corrected_state(s, reordered_pts, dts).num_faulty_pts <= s.num_faulty_pts + 1,
{
}

/// A present timestamp becomes the last one seen of its kind.
pub proof fn lemma_last_seen(s: PtsCorrection, reordered_pts: i64, dts: i64)
    ensures
        dts != NOPTS_VALUE ==> corrected_state(s, reordered_pts, dts).last_dts == dts,
        reordered_pts != NOPTS_VALUE ==> corrected_state(s, reordered_pts, dts).last_pts == reordered_pts,
{
}

/// Two frames in a row with the same decoding timestamp: the second one is
/// counted as a faulty decoding timestamp.
pub proof fn lemma_repeated_dts_is_faulty(s: PtsCorrection, pts1: i64, pts2: i64, dts: i64)
    requires
        dts != NOPTS_VALUE,
        can_correct(s, pts1, dts),
        can_correct(corrected_state(s, pts1, dts), pts2, dts),
    ensures
        ({
            let t = corrected_state(s, pts1, dts);
            corrected_state(t, pts2, dts).num_faulty_dts == t.num_faulty_dts + 1
        }),
{
}

/// The counters after a run of frames, each given as its reordered
/// presentation timestamp and its decoding timestamp, in order.
pub open spec fn correct_run(s: PtsCorrection, frames: Seq<(i64, i64)>) -> PtsCorrection
    decreases frames.len(),
{
    if frames.len() == 0 {
        s
    } else {
        let f = frames.last();
        corrected_state(correct_run(s, frames.drop_last()), f.0, f.1)
    }
}

/// Over a run of frames the fault counters only grow, by at most the number
/// of frames.
pub proof fn lemma_run_counters(s: PtsCorrection, frames: Seq<(i64, i64)>)
    requires
        s.num_faulty_dts + frames.len() <= i64::MAX,
        s.num_faulty_pts + frames.len() <= i64::MAX,
    ensures
        s.num_faulty_dts <= correct_run(s, frames).num_faulty_dts <= s.num_faulty_dts + frames.len(),
        s.num_faulty_pts <= correct_run(s, frames).num_faulty_pts <= s.num_faulty_pts + frames.len(),
    decreases frames.len(),
{
    if frames.len() > 0 {
        lemma_run_counters(s, frames.drop_last());
    }
}

/// Decoding timestamps that are all present and strictly increasing, each
/// above the last one seen, are never counted as faulty.
pub proof fn lemma_increasing_dts_not_faulty(s: PtsCorrection, frames: Seq<(i64, i64)>)
    requires
        forall|i: int| 0 <= i < frames.len() ==> #[trigger] frames[i].1 != NOPTS_VALUE,
        forall|i: int, j: int| 0 <= i < j < frames.len() ==> frames[i].1 < frames[j].1,
        frames.len() > 0 ==> s.last_dts < frames[0].1,
    ensures
        correct_run(s, frames).num_faulty_dts == s.num_faulty_dts,
        frames.len() > 0 ==> correct_run(s, frames).last_dts == frames.last().1,
    decreases frames.len(),
{
    if frames.len() > 0 {
        let prefix = frames.drop_last();
        assert forall|i: int, j: int| 0 <= i < j < prefix.len() implies prefix[i].1 < prefix[j].1 by {
            assert(prefix[i] == frames[i] && prefix[j] == frames[j]);
        }
        assert forall|i: int| 0 <= i < prefix.len() implies #[trigger] prefix[i].1 != NOPTS_VALUE by {
            assert(prefix[i] == frames[i]);
        }
        if prefix.len() > 0 {
            assert(prefix[0] == frames[0]);
        }
        lemma_increasing_dts_not_faulty(s, prefix);
        if prefix.len() > 0 {
            assert(prefix.last() == frames[prefix.len() - 1]);
        }
    }
}

/// A present decoding timestamp that does not advance past the last one seen
/// (equal to it or going back, as after a backward seek) adds one to the
/// faulty-dts counter; one that advances, or a missing one, leaves it.
pub proof fn lemma_dts_fault_counting(s: PtsCorrection, reordered_pts: i64, dts: i64)
    requires
        s.num_faulty_dts < i64::MAX,
    ensures
        dts != NOPTS_VALUE && dts <= s.last_dts ==> corrected_state(s, reordered_pts, dts).num_faulty_dts
            == s.num_faulty_dts + 1,
        dts != NOPTS_VALUE && dts < s.last_dts ==> corrected_state(s, reordered_pts, dts).num_faulty_dts
            == s.num_faulty_dts + 1,
        (dts == NOPTS_VALUE || dts > s.last_dts) ==> corrected_state(s, reordered_pts, dts).num_faulty_dts
            == s.num_faulty_dts,
{
}

/// A present presentation timestamp that does not advance past the last one
/// seen adds one to the faulty-pts counter; otherwise the counter stays.
pub proof fn lemma_pts_fault_counting(s: PtsCorrection, reordered_pts: i64, dts: i64)
    requires
        s.num_faulty_pts < i64::MAX,
    ensures
        reordered_pts != NOPTS_VALUE && reordered_pts <= s.last_pts ==> corrected_state(
            s,
            reordered_pts,
            dts,
        ).num_faulty_pts == s.num_faulty_pts + 1,
        (reordered_pts == NOPTS_VALUE || reordered_pts > s.last_pts) ==> corrected_state(
            s,
            reordered_pts,
            dts,
        ).num_faulty_pts == s.num_faulty_pts,
{
}

/// A frame without a presentation timestamp gets its decoding timestamp
/// exactly when that one is present and, after counting this frame,
/// presentation timestamps have been faulty more often than decoding ones;
/// otherwise it gets no timestamp.
pub proof fn lemma_missing_pts_choice(s: PtsCorrection, dts: i64)
    requires
        s.num_faulty_dts < i64::MAX,
    ensures
        ({
            let faulty_dts = if dts != NOPTS_VALUE && dts <= s.last_dts {
                s.num_faulty_dts + 1
            } else {
                s.num_faulty_dts as int
            };
            chosen_pts(s, NOPTS_VALUE, dts) == if dts != NOPTS_VALUE && s.num_faulty_pts > faulty_dts {
                dts
            } else {
                NOPTS_VALUE
            }
        }),
{
}

} // verus!
