use vstd::prelude::*;
use vstd::string::StringExecFns;

use rodio::queue::SourcesQueueOutput;
use rodio::Sink;

use crate::effects::{adjusted, default_effects, toggled, EffectManager, ParamKind};
use crate::mixing::{mix_plan, plan_for, MixJob, MixPlan};
use crate::visualizer::{next_wave, SineTable, WaveformVisualizer, WAVEFORM_POINTS};

verus! {

/// Diagnostic messages kept; older ones are dropped first.
pub const MESSAGE_LOG_LEN: usize = 5;

/// One playback request in flight: the sink it plays on, whether it loops,
/// and the source it was built from, so that a loop can be rebuilt.
pub struct PlaybackSession {
    pub sink: Sink,
    pub is_looping: bool,
    pub source: Vec<u8>,
}

/// A session just started: the mix to queue on its sink, and the sink's
/// output, which plays once it is added to the device's mixer.
pub struct PlayStart {
    pub job: MixJob,
    pub queue: SourcesQueueOutput,
}

/// The log after appending `m`, keeping the most recent entries only.
pub open spec fn logged(log: Seq<Seq<char>>, m: Seq<char>) -> Seq<Seq<char>> {
    if log.len() < MESSAGE_LOG_LEN {
        log.push(m)
    } else {
        log.push(m).drop_first()
    }
}

pub open spec fn open_error_text(path: Seq<char>) -> Seq<char> {
    "Error opening file: Make sure "@ + path + " exists!"@
}

pub open spec fn decode_error_text() -> Seq<char> {
    "Error decoding audio file"@
}

/// The first `k` sessions without the finished ones: a session stays when it
/// loops or its sink still had audio.
pub open spec fn kept(s: Seq<PlaybackSession>, drained: Seq<bool>, k: int) -> Seq<PlaybackSession>
    decreases k,
{
    if k <= 0 {
        Seq::empty()
    } else if s[k - 1].is_looping || !drained[k - 1] {
        kept(s, drained, k - 1).push(s[k - 1])
    } else {
        kept(s, drained, k - 1)
    }
}

/// The indices below `k` of looping sessions whose sinks ran dry.
pub open spec fn refill_indices(s: Seq<PlaybackSession>, drained: Seq<bool>, k: int) -> Seq<usize>
    decreases k,
{
    if k <= 0 {
        Seq::empty()
    } else if s[k - 1].is_looping && drained[k - 1] {
        refill_indices(s, drained, k - 1).push((k - 1) as usize)
    } else {
        refill_indices(s, drained, k - 1)
    }
}

/// The restarts, built to `plan`, of the looping sessions whose sinks ran dry.
pub open spec fn refill_jobs(s: Seq<PlaybackSession>, drained: Seq<bool>, plan: MixPlan) -> Seq<MixJob> {
    let idx = refill_indices(s, drained, drained.len() as int);
    Seq::new(idx.len(), |j: int| MixJob { session: idx[j], plan })
}

/// The looping sessions of `s`, in order.
pub open spec fn loopers(s: Seq<PlaybackSession>) -> Seq<PlaybackSession>
    decreases s.len(),
{
    if s.len() == 0 {
        Seq::empty()
    } else if s.last().is_looping {
        loopers(s.drop_last()).push(s.last())
    } else {
        loopers(s.drop_last())
    }
}

/// Whether anything counts as playing.
pub open spec fn playing(visual_only_mode: bool, s: Seq<PlaybackSession>) -> bool {
    visual_only_mode || s.len() > 0
}

/// The playback engine: effect parameters, sessions in flight, a bounded
/// diagnostic log and the waveform display.
pub struct AudioPlayer {
    pub active_sinks: Vec<PlaybackSession>,
    pub messages: Vec<String>,
    /// When a sound was last started, in milliseconds of the caller's clock.
    pub last_played: Option<u64>,
    pub visual_only_mode: bool,
    pub effect_manager: EffectManager,
    pub visualizer: WaveformVisualizer,
}

impl AudioPlayer {
    pub open spec fn wf(&self) -> bool {
        &&& self.visual_only_mode ==> self.active_sinks@.len() == 0
        &&& self.messages@.len() <= MESSAGE_LOG_LEN
        &&& self.effect_manager.wf()
        &&& self.visualizer.wf()
        &&& self.visualizer.waveform_values@.len() == WAVEFORM_POINTS
    }

    pub open spec fn log(&self) -> Seq<Seq<char>> {
        self.messages@.map_values(|m: String| m@)
    }

    /// An engine with default parameters and no session; without an output
    /// device it runs in visual-only mode.
    pub fn new(has_device: bool) -> (r: Self)
        ensures
            r.wf(),
            r.visual_only_mode == !has_device,
            r.active_sinks@.len() == 0,
            r.log().len() == 0,
            r.last_played.is_none(),
            r.effect_manager == default_effects(),
            r.visualizer.waveform_values@ == Seq::new(WAVEFORM_POINTS as nat, |i: int| 0u32),
            r.visualizer.audio_samples@.len() == 0,
    {
        let visual_only_mode = !has_device;
        let r = AudioPlayer {
            active_sinks: Vec::new(),
            messages: Vec::new(),
            last_played: None,
            visual_only_mode,
            effect_manager: EffectManager::new(),
            visualizer: WaveformVisualizer::new(WAVEFORM_POINTS),
        };
        assert(r.log() =~= Seq::<Seq<char>>::empty());
        r
    }

    /// Appends a diagnostic message, dropping the oldest past the log's length.
    pub fn add_message(&mut self, message: String)
        requires
            old(self).wf(),
        ensures
            final(self).wf(),
            final(self).log() == logged(old(self).log(), message@),
            final(self).active_sinks == old(self).active_sinks,
            final(self).last_played == old(self).last_played,
            final(self).visual_only_mode == old(self).visual_only_mode,
            final(self).effect_manager == old(self).effect_manager,
            final(self).visualizer == old(self).visualizer,
    {
        let ghost before = self.log();
        self.messages.push(message);
        assert(self.log() =~= before.push(message@));
        if self.messages.len() > MESSAGE_LOG_LEN {
            self.messages.remove(0);
            assert(self.log() =~= before.push(message@).drop_first());
        }
    }

    /// Starts a sound. `contents` holds the bytes of the source at
    /// `file_path`, or None when it could not be opened; `decodes` says
    /// whether the decoder accepts them. Nothing here fails: without a device
    /// only the time is recorded; a source that cannot be opened or decoded
    /// adds a message and starts nothing. Otherwise a new session is added on
    /// a new sink, and the caller gets the mix to queue on it and the sink's
    /// output to connect to the device.
    pub fn play_sound(
        &mut self,
        file_path: &str,
        contents: Option<Vec<u8>>,
        decodes: bool,
        is_looping: bool,
        now_ms: u64,
    ) -> (r: Option<PlayStart>)
        requires
            old(self).wf(),
        ensures
            final(self).wf(),
            final(self).visual_only_mode == old(self).visual_only_mode,
            final(self).effect_manager == old(self).effect_manager,
            final(self).visualizer == old(self).visualizer,
            old(self).visual_only_mode ==> {
                &&& r.is_none()
                &&& final(self).last_played == Some(now_ms)
                &&& final(self).active_sinks@ == old(self).active_sinks@
                &&& final(self).log() == old(self).log()
            },
            !old(self).visual_only_mode && contents.is_none() ==> {
                &&& r.is_none()
                &&& final(self).last_played == old(self).last_played
                &&& final(self).active_sinks@ == old(self).active_sinks@
                &&& final(self).log() == logged(old(self).log(), open_error_text(file_path@))
            },
            !old(self).visual_only_mode && contents.is_some() && !decodes ==> {
                &&& r.is_none()
                &&& final(self).last_played == old(self).last_played
                &&& final(self).active_sinks@ == old(self).active_sinks@
                &&& final(self).log() == logged(old(self).log(), decode_error_text())
            },
            !old(self).visual_only_mode && contents.is_some() && decodes ==> {
                &&& r matches Some(start)
                &&& start.job == (MixJob {
                    session: old(self).active_sinks@.len() as usize,
                    plan: plan_for(old(self).effect_manager),
                })
                &&& final(self).last_played == Some(now_ms)
                &&& final(self).active_sinks@.len() == old(self).active_sinks@.len() + 1
                &&& final(self).active_sinks@.drop_last() == old(self).active_sinks@
                &&& final(self).active_sinks@.last().is_looping == is_looping
                &&& final(self).active_sinks@.last().source@ == contents.unwrap()@
                &&& final(self).log() == old(self).log()
            },
    {
        if self.visual_only_mode {
            self.last_played = Some(now_ms);
            return None;
        }
        let bytes = match contents {
            None => {
                let text = String::from_str("Error opening file: Make sure ").concat(
                    file_path,
                ).concat(" exists!");
                proof {
                    reveal_strlit("Error opening file: Make sure ");
                    reveal_strlit(" exists!");
                }
                self.add_message(text);
                return None;
            },
            Some(b) => b,
        };
        if !decodes {
            let text = String::from_str("Error decoding audio file");
            proof {
                reveal_strlit("Error decoding audio file");
            }
            self.add_message(text);
            return None;
        }
        let (sink, queue) = Sink::new();
        let session = self.active_sinks.len();
        let plan = mix_plan(&self.effect_manager);
        self.active_sinks.push(PlaybackSession { sink, is_looping, source: bytes });
        self.last_played = Some(now_ms);
        assert(self.active_sinks@.drop_last() =~= old(self).active_sinks@);
        Some(PlayStart { job: MixJob { session, plan }, queue })
    }

    /// The mixes that restart every looping session whose sink ran dry, as
    /// `drained` reports for each session, built from the current parameters.
    pub fn refill_drained(&self, drained: &Vec<bool>) -> (r: Vec<MixJob>)
        requires
            self.wf(),
            drained@.len() == self.active_sinks@.len(),
        ensures
            r@ == refill_jobs(self.active_sinks@, drained@, plan_for(self.effect_manager)),
    {
        let mut jobs: Vec<MixJob> = Vec::new();
        let n = self.active_sinks.len();
        let plan = mix_plan(&self.effect_manager);
        let ghost s = self.active_sinks@;
        let mut i: usize = 0;
        while i < n
            invariant
                n == s.len(),
                s == self.active_sinks@,
                drained@.len() == n,
                i <= n,
                plan == plan_for(self.effect_manager),
                jobs@.len() == refill_indices(s, drained@, i as int).len(),
                forall|j: int|
                    0 <= j < jobs@.len() ==> #[trigger] jobs@[j] == (MixJob {
                        session: refill_indices(s, drained@, i as int)[j],
                        plan,
                    }),
            decreases n - i,
        {
            if self.active_sinks[i].is_looping && drained[i] {
                jobs.push(MixJob { session: i, plan });
            }
            i = i + 1;
        }
        assert(jobs@ =~= refill_jobs(s, drained@, plan));
        jobs
    }

    /// Rebuilds the mix of every looping session whose sink ran dry, from the
    /// session's own source, and returns those mixes for queueing on the same
    /// sinks. The sessions themselves stay as they are.
    pub fn update_looping_sounds(&self) -> (r: Vec<MixJob>)
        requires
            self.wf(),
        ensures
            self.visual_only_mode ==> r@.len() == 0,
            !self.visual_only_mode ==> exists|drained: Seq<bool>|
                drained.len() == self.active_sinks@.len() && r@ == #[trigger] refill_jobs(
                    self.active_sinks@,
                    drained,
                    plan_for(self.effect_manager),
                ),
            forall|j: int|
                0 <= j < r@.len() ==> {
                    &&& (#[trigger] r@[j]).session < self.active_sinks@.len()
                    &&& self.active_sinks@[r@[j].session as int].is_looping
                    &&& r@[j].plan == plan_for(self.effect_manager)
                },
    {
        if self.visual_only_mode {
            return Vec::new();
        }
        let drained = self.drained_sinks();
        let r = self.refill_drained(&drained);
        proof {
            assert forall|j: int| 0 <= j < r@.len() implies {
                &&& (#[trigger] r@[j]).session < self.active_sinks@.len()
                &&& self.active_sinks@[r@[j].session as int].is_looping
            } by {
                lemma_refill_indices_loop(
                    self.active_sinks@,
                    drained@,
                    drained@.len() as int,
                    j,
                );
            }
            assert(r@ == refill_jobs(self.active_sinks@, drained@, plan_for(self.effect_manager)));
        }
        r
    }

    /// Asks each session's sink whether it has run dry.
    fn drained_sinks(&self) -> (r: Vec<bool>)
        ensures
            r@.len() == self.active_sinks@.len(),
            self.active_sinks@.len() <= usize::MAX,
    {
        let mut r: Vec<bool> = Vec::new();
        let mut i: usize = 0;
        while i < self.active_sinks.len()
            invariant
                i <= self.active_sinks@.len(),
                r@.len() == i,
            decreases self.active_sinks@.len() - i,
        {
            r.push(self.active_sinks[i].sink.empty());
            i = i + 1;
        }
        r
    }

    /// Removes every session that does not loop and whose sink ran dry, as
    /// `drained` reports for each session; the others keep their order.
    pub fn remove_finished(&mut self, drained: &Vec<bool>)
        requires
            old(self).wf(),
            drained@.len() == old(self).active_sinks@.len(),
        ensures
            final(self).wf(),
            final(self).active_sinks@ == kept(
                old(self).active_sinks@,
                drained@,
                drained@.len() as int,
            ),
            final(self).visual_only_mode == old(self).visual_only_mode,
            final(self).log() == old(self).log(),
            final(self).last_played == old(self).last_played,
            final(self).effect_manager == old(self).effect_manager,
            final(self).visualizer == old(self).visualizer,
    {
        let mut rest: Vec<PlaybackSession> = Vec::new();
        std::mem::swap(&mut rest, &mut self.active_sinks);
        let ghost s = rest@;
        let n = rest.len();
        let mut i: usize = 0;
        while i < n
            invariant
                n == s.len(),
                drained@.len() == n,
                i <= n,
                rest@ == s.skip(i as int),
                self.active_sinks@ == kept(s, drained@, i as int),
                self.visual_only_mode == old(self).visual_only_mode,
                self.messages == old(self).messages,
                self.last_played == old(self).last_played,
                self.effect_manager == old(self).effect_manager,
                self.visualizer == old(self).visualizer,
                s == old(self).active_sinks@,
            decreases n - i,
        {
            let session = rest.remove(0);
            assert(session == s[i as int]);
            if session.is_looping || !drained[i] {
                self.active_sinks.push(session);
            }
            assert(rest@ =~= s.skip(i + 1));
            i = i + 1;
        }
        proof {
            lemma_kept_subset(s, drained@, n as int);
        }
    }

    /// Removes every session that does not loop and whose sink has run dry.
    pub fn cleanup_finished(&mut self)
        requires
            old(self).wf(),
        ensures
            final(self).wf(),
            exists|drained: Seq<bool>|
                drained.len() == old(self).active_sinks@.len() && #[trigger] kept(
                    old(self).active_sinks@,
                    drained,
                    drained.len() as int,
                ) == final(self).active_sinks@,
            forall|j: int|
                0 <= j < final(self).active_sinks@.len() ==> old(self).active_sinks@.contains(
                    #[trigger] final(self).active_sinks@[j],
                ),
            loopers(final(self).active_sinks@) == loopers(old(self).active_sinks@),
            final(self).visual_only_mode == old(self).visual_only_mode,
            final(self).log() == old(self).log(),
            final(self).last_played == old(self).last_played,
            final(self).effect_manager == old(self).effect_manager,
            final(self).visualizer == old(self).visualizer,
    {
        let drained = self.drained_sinks();
        let ghost s = self.active_sinks@;
        self.remove_finished(&drained);
        proof {
            lemma_kept_subset(s, drained@, drained@.len() as int);
            lemma_loopers_survive(s, drained@);
            assert(kept(s, drained@, drained@.len() as int) == self.active_sinks@);
        }
    }

    /// One step of the playback speed, for mixes built from now on.
    pub fn change_pitch(&mut self, increase: bool)
        requires
            old(self).wf(),
        ensures
            final(self).wf(),
            final(self).effect_manager == adjusted(old(self).effect_manager, ParamKind::Speed, increase),
            final(self).active_sinks == old(self).active_sinks,
            final(self).visual_only_mode == old(self).visual_only_mode,
            final(self).last_played == old(self).last_played,
            final(self).messages == old(self).messages,
            final(self).visualizer == old(self).visualizer,
    {
        self.effect_manager.change_pitch(increase);
    }

    /// One step of the volume, for mixes built from now on.
    pub fn change_volume(&mut self, increase: bool)
        requires
            old(self).wf(),
        ensures
            final(self).wf(),
            final(self).effect_manager == adjusted(old(self).effect_manager, ParamKind::Volume, increase),
            final(self).active_sinks == old(self).active_sinks,
            final(self).visual_only_mode == old(self).visual_only_mode,
            final(self).last_played == old(self).last_played,
            final(self).messages == old(self).messages,
            final(self).visualizer == old(self).visualizer,
    {
        self.effect_manager.change_volume(increase);
    }

    /// One step of the low-pass cutoff, for mixes built from now on.
    pub fn change_lowpass(&mut self, increase: bool)
        requires
            old(self).wf(),
        ensures
            final(self).wf(),
            final(self).effect_manager == adjusted(old(self).effect_manager, ParamKind::Lowpass, increase),
            final(self).active_sinks == old(self).active_sinks,
            final(self).visual_only_mode == old(self).visual_only_mode,
            final(self).last_played == old(self).last_played,
            final(self).messages == old(self).messages,
            final(self).visualizer == old(self).visualizer,
    {
        self.effect_manager.change_lowpass(increase);
    }

    /// Switches the reverb on or off, for mixes built from now on.
    pub fn toggle_reverb(&mut self)
        requires
            old(self).wf(),
        ensures
            final(self).wf(),
            final(self).effect_manager == toggled(old(self).effect_manager),
            final(self).active_sinks == old(self).active_sinks,
            final(self).visual_only_mode == old(self).visual_only_mode,
            final(self).last_played == old(self).last_played,
            final(self).messages == old(self).messages,
            final(self).visualizer == old(self).visualizer,
    {
        self.effect_manager.toggle_reverb();
    }

    /// True without a device, or while any session is in flight.
    pub fn is_playing(&self) -> (r: bool)
        ensures
            r == playing(self.visual_only_mode, self.active_sinks@),
    {
        self.visual_only_mode || self.active_sinks.len() > 0
    }

    /// Refreshes the waveform display from the engine's state.
    pub fn update_waveform(&mut self, now_ms: u64, sines: &SineTable)
        requires
            old(self).wf(),
            sines.fits(WAVEFORM_POINTS as nat),
        ensures
            final(self).wf(),
            final(self).visualizer.waveform_values@ == next_wave(
                old(self).visualizer.waveform_values@,
                old(self).visualizer.audio_samples@,
                old(self).active_sinks@.len() > 0,
                old(self).last_played,
                now_ms,
                old(self).visual_only_mode,
                old(self).effect_manager,
                *sines,
            ),
            final(self).visualizer.audio_samples == old(self).visualizer.audio_samples,
            final(self).active_sinks == old(self).active_sinks,
            final(self).visual_only_mode == old(self).visual_only_mode,
            final(self).messages == old(self).messages,
            final(self).last_played == old(self).last_played,
            final(self).effect_manager == old(self).effect_manager,
    {
        let has_sessions = self.active_sinks.len() > 0;
        self.visualizer.update(
            has_sessions,
            self.last_played,
            now_ms,
            self.visual_only_mode,
            &self.effect_manager,
            sines,
        );
    }

    /// The rest of a tick, once the loop restarts that `update_looping_sounds`
    /// returned are queued: evicts finished sessions, then refreshes the display.
    pub fn update(&mut self, now_ms: u64, sines: &SineTable)
        requires
            old(self).wf(),
            sines.fits(WAVEFORM_POINTS as nat),
        ensures
            final(self).wf(),
            forall|j: int|
                0 <= j < final(self).active_sinks@.len() ==> old(self).active_sinks@.contains(
                    #[trigger] final(self).active_sinks@[j],
                ),
            loopers(final(self).active_sinks@) == loopers(old(self).active_sinks@),
            final(self).visualizer.waveform_values@ == next_wave(
                old(self).visualizer.waveform_values@,
                old(self).visualizer.audio_samples@,
                final(self).active_sinks@.len() > 0,
                old(self).last_played,
                now_ms,
                old(self).visual_only_mode,
                old(self).effect_manager,
                *sines,
            ),
            final(self).visual_only_mode == old(self).visual_only_mode,
            final(self).log() == old(self).log(),
            final(self).last_played == old(self).last_played,
            final(self).effect_manager == old(self).effect_manager,
    {
        self.cleanup_finished();
        self.update_waveform(now_ms, sines);
    }
}

/// Every index that `refill_indices` lists is below `k` and names a looping session.
proof fn lemma_refill_indices_loop(s: Seq<PlaybackSession>, drained: Seq<bool>, k: int, j: int)
    requires
        0 <= k <= s.len(),
        s.len() <= usize::MAX,
        drained.len() == s.len(),
        0 <= j < refill_indices(s, drained, k).len(),
    ensures
        refill_indices(s, drained, k)[j] < k,
        s[refill_indices(s, drained, k)[j] as int].is_looping,
    decreases k,
{
    if k > 0 {
        if s[k - 1].is_looping && drained[k - 1] {
            if j < refill_indices(s, drained, k - 1).len() {
                lemma_refill_indices_loop(s, drained, k - 1, j);
            }
        } else {
            lemma_refill_indices_loop(s, drained, k - 1, j);
        }
    }
}

/// What `kept` keeps comes from the sessions it was given.
proof fn lemma_kept_subset(s: Seq<PlaybackSession>, drained: Seq<bool>, k: int)
    requires
        0 <= k <= s.len(),
    ensures
        forall|j: int| 0 <= j < kept(s, drained, k).len() ==> s.contains(#[trigger] kept(s, drained, k)[j]),
    decreases k,
{
    if k > 0 {
        lemma_kept_subset(s, drained, k - 1);
        assert forall|j: int| 0 <= j < kept(s, drained, k).len() implies s.contains(
            #[trigger] kept(s, drained, k)[j],
        ) by {
            if j < kept(s, drained, k - 1).len() {
                assert(kept(s, drained, k)[j] == kept(s, drained, k - 1)[j]);
            } else {
                assert(kept(s, drained, k)[j] == s[k - 1]);
            }
        }
    }
}

proof fn lemma_loopers_prefix(s: Seq<PlaybackSession>, drained: Seq<bool>, k: int)
    requires
        0 <= k <= s.len(),
        drained.len() == s.len(),
    ensures
        loopers(kept(s, drained, k)) == loopers(s.take(k)),
    decreases k,
{
    if k > 0 {
        lemma_loopers_prefix(s, drained, k - 1);
        assert(s.take(k).drop_last() =~= s.take(k - 1));
        let prev = kept(s, drained, k - 1);
        if s[k - 1].is_looping || !drained[k - 1] {
            assert(prev.push(s[k - 1]).drop_last() =~= prev);
        }
    }
}

/// Cleanup never evicts a looping session: the looping sessions, in order,
/// are the same before and after, whatever the sinks report.
pub proof fn lemma_loopers_survive(s: Seq<PlaybackSession>, drained: Seq<bool>)
    requires
        drained.len() == s.len(),
    ensures
        loopers(kept(s, drained, s.len() as int)) == loopers(s),
{
    lemma_loopers_prefix(s, drained, s.len() as int);
    assert(s.take(s.len() as int) =~= s);
}

/// Once every sink has run dry and no session loops, cleanup leaves no
/// session, and outside visual-only mode nothing counts as playing.
pub proof fn lemma_drained_sessions_end(s: Seq<PlaybackSession>, drained: Seq<bool>)
    requires
        drained.len() == s.len(),
        forall|i: int| 0 <= i < s.len() ==> !(#[trigger] s[i]).is_looping && drained[i],
    ensures
        kept(s, drained, s.len() as int).len() == 0,
        !playing(false, kept(s, drained, s.len() as int)),
{
    lemma_kept_empty(s, drained, s.len() as int);
}

proof fn lemma_kept_empty(s: Seq<PlaybackSession>, drained: Seq<bool>, k: int)
    requires
        0 <= k <= s.len(),
        drained.len() == s.len(),
        forall|i: int| 0 <= i < s.len() ==> !(#[trigger] s[i]).is_looping && drained[i],
    ensures
        kept(s, drained, k).len() == 0,
    decreases k,
{
    if k > 0 {
        assert(!s[k - 1].is_looping && drained[k - 1]);
        lemma_kept_empty(s, drained, k - 1);
    }
}

/// Without a device the engine always counts as playing.
pub proof fn lemma_visual_only_always_playing(s: Seq<PlaybackSession>)
    ensures
        playing(true, s),
{
}

} // verus!
