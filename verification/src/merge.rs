//! Two-stream merge scheduler.
//!
//! Audio and video frames arrive on independent channels, each at its own
//! rate. The scheduler interleaves them into a single processing order by
//! comparing the timestamp of the last frame consumed on each channel and
//! advancing whichever channel is behind; a tie advances video. An exhausted
//! channel has its clock pinned to the sentinel `u64::MAX`, so the other
//! channel is always preferred from then on, and the merge ends only when
//! both channels are exhausted. Timestamps are ticks (e.g. nanoseconds);
//! every real frame time lies strictly below the sentinel.

use vstd::prelude::*;

verus! {

/// Which of the two frame channels the scheduler advances next.
#[derive(Clone, Copy, PartialEq, Eq, Structural, Debug)]
pub enum Channel {
    Audio,
    Video,
}

/// The scheduling decision: audio only while it is strictly behind video;
/// a tie advances video.
pub open spec fn pick_time(audio_time: u64, video_time: u64) -> Channel {
    if audio_time < video_time {
        Channel::Audio
    } else {
        Channel::Video
    }
}

/// Bookkeeping state of the merge: one clock per channel, pinned to
/// `u64::MAX` once that channel is exhausted.
pub struct MergeScheduler {
    audio_time: u64,
    video_time: u64,
    audio_live: bool,
    video_live: bool,
}

impl MergeScheduler {
    /// Clock of the audio channel: timestamp of the last consumed audio
    /// frame, or the sentinel once exhausted.
    pub closed spec fn audio_time_spec(self) -> u64 {
        self.audio_time
    }

    /// Clock of the video channel.
    pub closed spec fn video_time_spec(self) -> u64 {
        self.video_time
    }

    /// Whether the audio channel may still yield frames.
    pub closed spec fn audio_live_spec(self) -> bool {
        self.audio_live
    }

    /// Whether the video channel may still yield frames.
    pub closed spec fn video_live_spec(self) -> bool {
        self.video_live
    }

    /// An exhausted channel has its clock pinned to the sentinel, and a live
    /// clock is below it.
    pub open spec fn wf(self) -> bool {
        &&& (!self.audio_live_spec() ==> self.audio_time_spec() == u64::MAX)
        &&& (!self.video_live_spec() ==> self.video_time_spec() == u64::MAX)
        &&& (self.audio_live_spec() ==> self.audio_time_spec() < u64::MAX)
        &&& (self.video_live_spec() ==> self.video_time_spec() < u64::MAX)
    }

    /// Both channels start live at time zero.
    pub fn new() -> (s: MergeScheduler)
        ensures
            s.wf(),
            s.audio_live_spec(),
            s.video_live_spec(),
            s.audio_time_spec() == 0,
            s.video_time_spec() == 0,
    {
        MergeScheduler { audio_time: 0u64, video_time: 0u64, audio_live: true, video_live: true }
    }

    /// The merge ends when both channels are exhausted.
    pub fn is_done(&self) -> (r: bool)
        ensures
            r == (!self.audio_live_spec() && !self.video_live_spec()),
    {
        !self.audio_live && !self.video_live
    }

    /// Which channel to advance next. An exhausted channel is never picked
    /// while the other is live, so a drained stream cannot starve the other.
    pub fn pick(&self) -> (c: Channel)
        requires
            self.wf(),
            self.audio_live_spec() || self.video_live_spec(),
        ensures
            c == pick_time(self.audio_time_spec(), self.video_time_spec()),
            !self.audio_live_spec() ==> c == Channel::Video,
            !self.video_live_spec() ==> c == Channel::Audio,
    {
        if self.audio_time < self.video_time {
            Channel::Audio
        } else {
            Channel::Video
        }
    }

    /// A frame with timestamp `t` was consumed on channel `c`: that
    /// channel's clock moves to `t`; nothing else changes.
    pub fn record(&mut self, c: Channel, t: u64)
        requires
            old(self).wf(),
            t < u64::MAX,
            c == Channel::Audio ==> old(self).audio_live_spec(),
            c == Channel::Video ==> old(self).video_live_spec(),
        ensures
            final(self).wf(),
            final(self).audio_live_spec() == old(self).audio_live_spec(),
            final(self).video_live_spec() == old(self).video_live_spec(),
            final(self).audio_time_spec() == (if c == Channel::Audio {
                t
            } else {
                old(self).audio_time_spec()
            }),
            final(self).video_time_spec() == (if c == Channel::Video {
                t
            } else {
                old(self).video_time_spec()
            }),
    {
        match c {
            Channel::Audio => {
                self.audio_time = t;
            },
            Channel::Video => {
                self.video_time = t;
            },
        }
    }

    /// Channel `c` yielded no frame and no further buffer: mark it
    /// exhausted and pin its clock to the sentinel.
    pub fn exhaust(&mut self, c: Channel)
        requires
            old(self).wf(),
        ensures
            final(self).wf(),
            final(self).audio_live_spec() == (old(self).audio_live_spec() && c != Channel::Audio),
            final(self).video_live_spec() == (old(self).video_live_spec() && c != Channel::Video),
            c == Channel::Audio ==> final(self).audio_time_spec() == u64::MAX
                && final(self).video_time_spec() == old(self).video_time_spec(),
            c == Channel::Video ==> final(self).video_time_spec() == u64::MAX
                && final(self).audio_time_spec() == old(self).audio_time_spec(),
    {
        match c {
            Channel::Audio => {
                self.audio_live = false;
                self.audio_time = u64::MAX;
            },
            Channel::Video => {
                self.video_live = false;
                self.video_time = u64::MAX;
            },
        }
    }
}

/// Clamped count of entries not yet consumed.
pub open spec fn rem(len: nat, i: int) -> int {
    if i <= len {
        len - i
    } else {
        0
    }
}

/// Consistency of a merge state: every frame time lies below the sentinel,
/// an exhausted channel has its clock pinned to the sentinel, and a live
/// clock lies below it.
pub open spec fn merge_ok(
    at: Seq<u64>,
    vt: Seq<u64>,
    ai: int,
    vi: int,
    atime: u64,
    vtime: u64,
    alive: bool,
    vlive: bool,
) -> bool {
    &&& (forall|i: int| 0 <= i < at.len() ==> at[i] < u64::MAX)
    &&& (forall|i: int| 0 <= i < vt.len() ==> vt[i] < u64::MAX)
    &&& (alive ==> atime < u64::MAX)
    &&& (vlive ==> vtime < u64::MAX)
    &&& (!alive ==> atime == u64::MAX)
    &&& (!vlive ==> vtime == u64::MAX)
}

/// The complete order in which the scheduler advances the two channels,
/// starting from the given state: `at` and `vt` are the frame timestamps of
/// the audio and the video channel, `ai` and `vi` the next frame of each,
/// `atime` and `vtime` the channel clocks.
pub open spec fn merge_spec(
    at: Seq<u64>,
    vt: Seq<u64>,
    ai: int,
    vi: int,
    atime: u64,
    vtime: u64,
    alive: bool,
    vlive: bool,
) -> Seq<Channel>
    decreases rem(at.len(), ai) + rem(vt.len(), vi) + (if alive {
        1int
    } else {
        0int
    }) + (if vlive {
        1int
    } else {
        0int
    }),
    when merge_ok(at, vt, ai, vi, atime, vtime, alive, vlive)
{
    if !alive && !vlive {
        Seq::empty()
    } else if pick_time(atime, vtime) == Channel::Audio {
        if ai < at.len() {
            seq![Channel::Audio] + merge_spec(at, vt, ai + 1, vi, at[ai], vtime, alive, vlive)
        } else {
            merge_spec(at, vt, ai, vi, u64::MAX, vtime, false, vlive)
        }
    } else {
        if vi < vt.len() {
            seq![Channel::Video] + merge_spec(at, vt, ai, vi + 1, atime, vt[vi], alive, vlive)
        } else {
            merge_spec(at, vt, ai, vi, atime, u64::MAX, alive, false)
        }
    }
}

/// Number of entries of `s` equal to `c`.
pub open spec fn count_ch(s: Seq<Channel>, c: Channel) -> int
    decreases s.len(),
{
    if s.len() == 0 {
        0
    } else {
        (if s[0] == c {
            1int
        } else {
            0int
        }) + count_ch(s.subrange(1, s.len() as int), c)
    }
}

/// Law: from any consistent merge state in which a dead channel is fully
/// consumed, the scheduler advances each channel exactly once per remaining
/// frame — no frame is dropped and neither stream can starve the other, even
/// after one stream is exhausted — and then stops.
pub proof fn lemma_merge_emits_all(
    at: Seq<u64>,
    vt: Seq<u64>,
    ai: int,
    vi: int,
    atime: u64,
    vtime: u64,
    alive: bool,
    vlive: bool,
)
    requires
        merge_ok(at, vt, ai, vi, atime, vtime, alive, vlive),
        0 <= ai <= at.len(),
        0 <= vi <= vt.len(),
        !alive ==> ai == at.len(),
        !vlive ==> vi == vt.len(),
    ensures
        count_ch(merge_spec(at, vt, ai, vi, atime, vtime, alive, vlive), Channel::Audio) == at.len()
            - ai,
        count_ch(merge_spec(at, vt, ai, vi, atime, vtime, alive, vlive), Channel::Video) == vt.len()
            - vi,
        merge_spec(at, vt, ai, vi, atime, vtime, alive, vlive).len() == (at.len() - ai) + (vt.len()
            - vi),
    decreases rem(at.len(), ai) + rem(vt.len(), vi) + (if alive {
        1int
    } else {
        0int
    }) + (if vlive {
        1int
    } else {
        0int
    }),
{
    let s = merge_spec(at, vt, ai, vi, atime, vtime, alive, vlive);
    if !alive && !vlive {
    } else if pick_time(atime, vtime) == Channel::Audio {
        if ai < at.len() {
            let tail = merge_spec(at, vt, ai + 1, vi, at[ai], vtime, alive, vlive);
            lemma_merge_emits_all(at, vt, ai + 1, vi, at[ai], vtime, alive, vlive);
            assert(s == seq![Channel::Audio] + tail);
            assert(s.subrange(1, s.len() as int) =~= tail);
        } else {
            lemma_merge_emits_all(at, vt, ai, vi, u64::MAX, vtime, false, vlive);
        }
    } else {
        if vi < vt.len() {
            let tail = merge_spec(at, vt, ai, vi + 1, atime, vt[vi], alive, vlive);
            lemma_merge_emits_all(at, vt, ai, vi + 1, atime, vt[vi], alive, vlive);
            assert(s == seq![Channel::Video] + tail);
            assert(s.subrange(1, s.len() as int) =~= tail);
        } else {
            lemma_merge_emits_all(at, vt, ai, vi, atime, u64::MAX, alive, false);
        }
    }
}

/// The complete schedule for two channels whose frames carry the given
/// timestamps, each channel consumed in order from a fresh scheduler.
pub open spec fn full_merge(at: Seq<u64>, vt: Seq<u64>) -> Seq<Channel> {
    merge_spec(at, vt, 0, 0, 0, 0, true, true)
}

/// Run the merge over two fully known channels: the emitted order is exactly
/// `full_merge`, so every frame of both channels is advanced exactly once.
pub fn merge_schedule(audio_times: &Vec<u64>, video_times: &Vec<u64>) -> (order: Vec<Channel>)
    requires
        forall|i: int| 0 <= i < audio_times@.len() ==> audio_times@[i] < u64::MAX,
        forall|i: int| 0 <= i < video_times@.len() ==> video_times@[i] < u64::MAX,
    ensures
        order@ == full_merge(audio_times@, video_times@),
        order@.len() == audio_times@.len() + video_times@.len(),
        count_ch(order@, Channel::Audio) == audio_times@.len(),
        count_ch(order@, Channel::Video) == video_times@.len(),
{
    let at = audio_times;
    let vt = video_times;
    let mut sched = MergeScheduler::new();
    let mut ai: usize = 0;
    let mut vi: usize = 0;
    let mut order: Vec<Channel> = Vec::new();
    while !sched.is_done()
        invariant
            sched.wf(),
            0 <= ai <= at@.len(),
            0 <= vi <= vt@.len(),
            forall|i: int| 0 <= i < at@.len() ==> at@[i] < u64::MAX,
            forall|i: int| 0 <= i < vt@.len() ==> vt@[i] < u64::MAX,
            !sched.audio_live_spec() ==> ai == at@.len(),
            !sched.video_live_spec() ==> vi == vt@.len(),
            full_merge(at@, vt@) == order@ + merge_spec(
                at@,
                vt@,
                ai as int,
                vi as int,
                sched.audio_time_spec(),
                sched.video_time_spec(),
                sched.audio_live_spec(),
                sched.video_live_spec(),
            ),
        decreases rem(at@.len(), ai as int) + rem(vt@.len(), vi as int) + (if sched.audio_live_spec() {
            1int
        } else {
            0int
        }) + (if sched.video_live_spec() {
            1int
        } else {
            0int
        }),
    {
        let ghost pre_rest = merge_spec(
            at@,
            vt@,
            ai as int,
            vi as int,
            sched.audio_time_spec(),
            sched.video_time_spec(),
            sched.audio_live_spec(),
            sched.video_live_spec(),
        );
        match sched.pick() {
            Channel::Audio => {
                if ai < at.len() {
                    let t = at[ai];
                    order.push(Channel::Audio);
                    sched.record(Channel::Audio, t);
                    ai = ai + 1;
                    proof {
                        let rest = merge_spec(
                            at@,
                            vt@,
                            ai as int,
                            vi as int,
                            sched.audio_time_spec(),
                            sched.video_time_spec(),
                            sched.audio_live_spec(),
                            sched.video_live_spec(),
                        );
                        assert(pre_rest == seq![Channel::Audio] + rest);
                        assert(order@ + rest =~= full_merge(at@, vt@));
                    }
                } else {
                    sched.exhaust(Channel::Audio);
                }
            },
            Channel::Video => {
                if vi < vt.len() {
                    let t = vt[vi];
                    order.push(Channel::Video);
                    sched.record(Channel::Video, t);
                    vi = vi + 1;
                    proof {
                        let rest = merge_spec(
                            at@,
                            vt@,
                            ai as int,
                            vi as int,
                            sched.audio_time_spec(),
                            sched.video_time_spec(),
                            sched.audio_live_spec(),
                            sched.video_live_spec(),
                        );
                        assert(pre_rest == seq![Channel::Video] + rest);
                        assert(order@ + rest =~= full_merge(at@, vt@));
                    }
                } else {
                    sched.exhaust(Channel::Video);
                }
            },
        }
    }
    proof {
        assert(merge_spec(
            at@,
            vt@,
            ai as int,
            vi as int,
            sched.audio_time_spec(),
            sched.video_time_spec(),
            sched.audio_live_spec(),
            sched.video_live_spec(),
        ) =~= Seq::<Channel>::empty());
        assert(order@ + Seq::<Channel>::empty() =~= order@);
        lemma_merge_emits_all(at@, vt@, 0, 0, 0, 0, true, true);
    }
    order
}

} // verus!
