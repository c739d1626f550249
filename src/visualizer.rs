use vstd::prelude::*;

use crate::effects::EffectManager;

verus! {

/// Full height of a bin, and the magnitude of a full-scale sample or sine value.
pub const BIN_SCALE: u32 = 10000;

/// Bins below this level after a decay step are set to silence.
pub const SNAP_BELOW: u32 = 100;

/// Number of bins of the display.
pub const WAVEFORM_POINTS: usize = 100;

/// Most recent samples kept for the sample-driven strategy.
pub const SAMPLE_RING_CAPACITY: usize = 4096;

/// Silence after which the display decays, in milliseconds.
pub const IDLE_TIMEOUT_MS: u64 = 5000;

pub const SAMPLE_RATE_HZ: u64 = 44100;

/// One decay step: scale by `num / den`, then snap what fell below the threshold to 0.
pub open spec fn decayed(v: int, num: int, den: int) -> int {
    let d = v * num / den;
    if d < SNAP_BELOW { 0 } else { d }
}

/// The idle decay step of a whole buffer.
pub open spec fn idle_step(w: Seq<u32>) -> Seq<u32> {
    Seq::new(w.len(), |i: int| decayed(w[i] as int, 9, 10) as u32)
}

/// The fade step of a whole buffer, used while nothing plays.
pub open spec fn fade_step(w: Seq<u32>) -> Seq<u32> {
    Seq::new(w.len(), |i: int| decayed(w[i] as int, 95, 100) as u32)
}

/// The buffer after `k` idle decay steps.
pub open spec fn idle_steps(w: Seq<u32>, k: nat) -> Seq<u32>
    decreases k,
{
    if k == 0 {
        w
    } else {
        idle_step(idle_steps(w, (k - 1) as nat))
    }
}

/// One value after `k` idle decay steps.
pub open spec fn decayed_n(v: int, k: nat) -> int
    decreases k,
{
    if k == 0 {
        v
    } else {
        decayed(decayed_n(v, (k - 1) as nat), 9, 10)
    }
}

pub open spec fn min_int(a: int, b: int) -> int {
    if a < b { a } else { b }
}

pub open spec fn abs_int(a: int) -> int {
    if a < 0 { -a } else { a }
}

/// Offset of the reverb tap in the sample ring, in samples.
pub open spec fn reverb_offset(delay_ms: int) -> int {
    delay_ms * SAMPLE_RATE_HZ as int / 1000
}

/// The ring index that bin `i` of `n` reads.
pub open spec fn sample_index(i: int, n: int, len: int) -> int {
    min_int(i * len / n, len - 1)
}

/// Bin `i` of `n` in the sample-driven strategy: the magnitude at the mapped
/// index, scaled by the volume and by the filter factor `cutoff / 20000`,
/// plus a reverb tap at the delay's offset scaled by `0.3 * volume`, each
/// clamped to full height.
pub open spec fn sample_level(ring: Seq<u32>, i: int, n: int, fx: EffectManager) -> int {
    let idx = sample_index(i, n, ring.len() as int);
    let dry = min_int(
        ring[idx] as int * fx.volume as int * fx.lowpass_cutoff as int / 200000,
        BIN_SCALE as int,
    );
    if fx.reverb_enabled {
        let ridx = (idx + reverb_offset(fx.reverb_delay as int)) % (ring.len() as int);
        min_int(dry + ring[ridx] as int * 3 * fx.volume as int / 100, BIN_SCALE as int)
    } else {
        dry
    }
}

/// A bin of the synthetic waveform from its three sine values (each in
/// ten-thousandths): `|base * volume + harmonic * 0.3 * filter| * volume`,
/// plus `|echo * 0.3 * volume|` with reverb on, scaled by 0.7 and clamped.
pub open spec fn synthetic_level(base: int, harmonic: int, echo: int, fx: EffectManager) -> int {
    let v = fx.volume as int;
    let mixed = base * v * 20000 + harmonic * 3 * fx.lowpass_cutoff as int;
    let combined = abs_int(mixed) * v / 2000000;
    let reverb = if fx.reverb_enabled { abs_int(echo) * 3 * v / 100 } else { 0 };
    min_int((combined + reverb) * 7 / 10, BIN_SCALE as int)
}

/// Sine values of the synthetic waveform, one of each per bin, in ten-thousandths.
pub struct SineTable {
    /// `sin(t * 5 * speed + x)`
    pub base: Vec<i32>,
    /// `sin(t * 10 * speed + x)`
    pub harmonic: Vec<i32>,
    /// `sin(t * 5 * speed + x - 0.5)`
    pub echo: Vec<i32>,
}

impl SineTable {
    pub open spec fn fits(&self, n: nat) -> bool {
        &&& self.base@.len() == n
        &&& self.harmonic@.len() == n
        &&& self.echo@.len() == n
        &&& forall|i: int|
            0 <= i < n ==> -(BIN_SCALE as int) <= #[trigger] self.base@[i] <= BIN_SCALE
        &&& forall|i: int|
            0 <= i < n ==> -(BIN_SCALE as int) <= #[trigger] self.harmonic@[i] <= BIN_SCALE
        &&& forall|i: int|
            0 <= i < n ==> -(BIN_SCALE as int) <= #[trigger] self.echo@[i] <= BIN_SCALE
    }
}

/// The synthetic buffer for a table of sines.
pub open spec fn synthetic_wave(t: SineTable, fx: EffectManager) -> Seq<u32> {
    Seq::new(
        t.base@.len(),
        |i: int| synthetic_level(t.base@[i] as int, t.harmonic@[i] as int, t.echo@[i] as int, fx) as u32,
    )
}

/// The sample-driven buffer of `n` bins.
pub open spec fn sample_wave(ring: Seq<u32>, n: nat, fx: EffectManager) -> Seq<u32> {
    Seq::new(n, |i: int| sample_level(ring, i, n as int, fx) as u32)
}

/// True when the display should decay towards silence: nothing plays, and
/// nothing was started within the idle timeout.
pub open spec fn idle(active: bool, last_played: Option<u64>, now_ms: u64) -> bool {
    !active && match last_played {
        None => true,
        Some(t) => now_ms - t > IDLE_TIMEOUT_MS,
    }
}

/// The display after one refresh. With no session and nothing started within
/// the idle timeout, every bin decays; otherwise the sample ring drives the
/// bins while a session plays, the sine table drives them while a session
/// plays or no device is present, and they fade in the remaining cases.
pub open spec fn next_wave(
    w: Seq<u32>,
    ring: Seq<u32>,
    has_sessions: bool,
    last_played: Option<u64>,
    now_ms: u64,
    visual_only_mode: bool,
    fx: EffectManager,
    sines: SineTable,
) -> Seq<u32> {
    if idle(has_sessions, last_played, now_ms) {
        idle_step(w)
    } else if ring.len() > 0 {
        if has_sessions {
            sample_wave(ring, w.len(), fx)
        } else {
            fade_step(w)
        }
    } else if has_sessions || visual_only_mode {
        synthetic_wave(sines, fx)
    } else {
        fade_step(w)
    }
}

/// The displayed waveform and the ring of recent sample magnitudes.
pub struct WaveformVisualizer {
    /// One level per bin, in ten-thousandths of full height.
    pub waveform_values: Vec<u32>,
    /// Recent sample magnitudes, oldest first, in ten-thousandths of full scale.
    pub audio_samples: Vec<u32>,
}

impl WaveformVisualizer {
    pub open spec fn wf(&self) -> bool {
        &&& self.audio_samples@.len() <= SAMPLE_RING_CAPACITY
        &&& forall|i: int|
            0 <= i < self.waveform_values@.len() ==> #[trigger] self.waveform_values@[i]
                <= BIN_SCALE
    }

    /// A silent display of `points` bins and an empty sample ring.
    pub fn new(points: usize) -> (r: Self)
        ensures
            r.wf(),
            r.waveform_values@ == Seq::new(points as nat, |i: int| 0u32),
            r.audio_samples@.len() == 0,
    {
        let mut values: Vec<u32> = Vec::new();
        let mut i: usize = 0;
        while i < points
            invariant
                i <= points,
                values@ == Seq::new(i as nat, |j: int| 0u32),
            decreases points - i,
        {
            values.push(0);
            i = i + 1;
        }
        WaveformVisualizer { waveform_values: values, audio_samples: Vec::new() }
    }

    /// Appends one sample magnitude, dropping the oldest past the ring's capacity.
    pub fn push_sample(&mut self, magnitude: u32)
        requires
            old(self).wf(),
        ensures
            final(self).wf(),
            final(self).waveform_values == old(self).waveform_values,
            old(self).audio_samples@.len() < SAMPLE_RING_CAPACITY ==> final(self).audio_samples@
                == old(self).audio_samples@.push(magnitude),
            old(self).audio_samples@.len() == SAMPLE_RING_CAPACITY ==> final(self).audio_samples@
                == old(self).audio_samples@.push(magnitude).drop_first(),
    {
        self.audio_samples.push(magnitude);
        if self.audio_samples.len() > SAMPLE_RING_CAPACITY {
            self.audio_samples.remove(0);
        }
    }

    /// Scales every bin by `num / den` and snaps levels below the threshold to 0.
    fn decay_all(&mut self, num: u64, den: u64)
        requires
            old(self).wf(),
            0 < num <= den,
            den <= 100,
        ensures
            final(self).wf(),
            final(self).audio_samples == old(self).audio_samples,
            final(self).waveform_values@ == Seq::new(
                old(self).waveform_values@.len(),
                |i: int| decayed(old(self).waveform_values@[i] as int, num as int, den as int) as u32,
            ),
    {
        let n = self.waveform_values.len();
        let ghost w0 = self.waveform_values@;
        let mut i: usize = 0;
        while i < n
            invariant
                n == w0.len(),
                i <= n,
                0 < num <= den,
                den <= 100,
                self.audio_samples == old(self).audio_samples,
                self.audio_samples@.len() <= SAMPLE_RING_CAPACITY,
                w0 == old(self).waveform_values@,
                forall|j: int| 0 <= j < n ==> #[trigger] w0[j] <= BIN_SCALE,
                self.waveform_values@.len() == n,
                forall|j: int|
                    0 <= j < i ==> self.waveform_values@[j] == decayed(
                        w0[j] as int,
                        num as int,
                        den as int,
                    ) as u32,
                forall|j: int| i <= j < n ==> self.waveform_values@[j] == w0[j],
                forall|j: int| 0 <= j < n ==> #[trigger] self.waveform_values@[j] <= BIN_SCALE,
            decreases n - i,
        {
            let v = self.waveform_values[i] as u64;
            assert(v * num <= 10000 * 100) by (nonlinear_arith)
                requires
                    v <= 10000,
                    num <= 100,
            ;
            assert((v as int) * (num as int) / (den as int) <= v as int) by (nonlinear_arith)
                requires
                    num <= den,
                    0 < den,
            ;
            let d = v * num / den;
            let nv: u32 = if d < SNAP_BELOW as u64 { 0 } else { d as u32 };
            self.waveform_values.set(i, nv);
            i = i + 1;
        }
        assert(self.waveform_values@ =~= Seq::new(
            w0.len(),
            |i: int| decayed(w0[i] as int, num as int, den as int) as u32,
        ));
    }

    /// The sample-driven strategy: while something plays, each bin reads the
    /// sample ring; otherwise the display fades.
    pub fn update_from_samples(&mut self, is_active: bool, fx: &EffectManager)
        requires
            old(self).wf(),
            old(self).audio_samples@.len() > 0,
            fx.wf(),
        ensures
            final(self).wf(),
            final(self).audio_samples == old(self).audio_samples,
            is_active ==> final(self).waveform_values@ == sample_wave(
                old(self).audio_samples@,
                old(self).waveform_values@.len(),
                *fx,
            ),
            !is_active ==> final(self).waveform_values@ == fade_step(old(self).waveform_values@),
    {
        if !is_active {
            self.decay_all(95, 100);
            assert(self.waveform_values@ =~= fade_step(old(self).waveform_values@));
            return;
        }
        let n = self.waveform_values.len();
        let len = self.audio_samples.len();
        let vol = fx.volume as u64;
        let cutoff = fx.lowpass_cutoff as u64;
        let offset = (fx.reverb_delay as u64 * SAMPLE_RATE_HZ / 1000) as usize;
        let ghost ring = self.audio_samples@;
        let mut i: usize = 0;
        while i < n
            invariant
                0 < len <= SAMPLE_RING_CAPACITY,
                i <= n,
                fx.wf(),
                vol == fx.volume,
                cutoff == fx.lowpass_cutoff,
                offset == reverb_offset(fx.reverb_delay as int),
                self.audio_samples == old(self).audio_samples,
                ring == self.audio_samples@,
                len == ring.len(),
                self.waveform_values@.len() == n,
                n == old(self).waveform_values@.len(),
                forall|j: int|
                    0 <= j < i ==> self.waveform_values@[j] == sample_level(
                        ring,
                        j,
                        n as int,
                        *fx,
                    ) as u32,
                forall|j: int| 0 <= j < n ==> #[trigger] self.waveform_values@[j] <= BIN_SCALE,
            decreases n - i,
        {
            assert((i as int) * (len as int) <= 18446744073709551615 * 4096) by (nonlinear_arith)
                requires
                    0 <= i <= 18446744073709551615,
                    0 <= len <= 4096,
            ;
            let q128 = (i as u128) * (len as u128) / (n as u128);
            assert((i as int) * (len as int) / (n as int) <= len as int) by (nonlinear_arith)
                requires
                    i < n,
                    0 < n,
                    0 < len,
            ;
            let q = q128 as usize;
            let idx = if q < len - 1 { q } else { len - 1 };
            let mag = self.audio_samples[idx] as u64;
            assert(mag * vol <= 4294967295 * 20) by (nonlinear_arith)
                requires
                    mag <= 4294967295,
                    vol <= 20,
            ;
            assert(mag * vol * cutoff <= 4294967295 * 20 * 20000) by (nonlinear_arith)
                requires
                    mag * vol <= 4294967295 * 20,
                    cutoff <= 20000,
            ;
            let scaled = mag * vol * cutoff / 200000;
            let dry: u64 = if scaled < BIN_SCALE as u64 { scaled } else { BIN_SCALE as u64 };
            let level: u64 = if fx.reverb_enabled {
                let ridx = (idx + offset) % len;
                let rmag = self.audio_samples[ridx] as u64;
                assert(rmag * 3 * vol <= 4294967295 * 3 * 20) by (nonlinear_arith)
                    requires
                        rmag <= 4294967295,
                        vol <= 20,
                ;
                let wet = dry + rmag * 3 * vol / 100;
                if wet < BIN_SCALE as u64 { wet } else { BIN_SCALE as u64 }
            } else {
                dry
            };
            self.waveform_values.set(i, level as u32);
            i = i + 1;
        }
        assert(self.waveform_values@ =~= sample_wave(ring, n as nat, *fx));
    }

    /// The synthetic strategy: while something plays, or without an output
    /// device, each bin follows its sine values; otherwise the display fades.
    pub fn simulate_waveform(
        &mut self,
        is_active: bool,
        visual_only_mode: bool,
        fx: &EffectManager,
        sines: &SineTable,
    )
        requires
            old(self).wf(),
            fx.wf(),
            sines.fits(old(self).waveform_values@.len()),
        ensures
            final(self).wf(),
            final(self).audio_samples == old(self).audio_samples,
            is_active || visual_only_mode ==> final(self).waveform_values@ == synthetic_wave(
                *sines,
                *fx,
            ),
            !(is_active || visual_only_mode) ==> final(self).waveform_values@ == fade_step(
                old(self).waveform_values@,
            ),
    {
        if !(is_active || visual_only_mode) {
            self.decay_all(95, 100);
            assert(self.waveform_values@ =~= fade_step(old(self).waveform_values@));
            return;
        }
        let n = self.waveform_values.len();
        let v = fx.volume as i64;
        let c = fx.lowpass_cutoff as i64;
        let mut i: usize = 0;
        while i < n
            invariant
                i <= n,
                fx.wf(),
                v == fx.volume,
                c == fx.lowpass_cutoff,
                sines.fits(n as nat),
                self.audio_samples == old(self).audio_samples,
                self.audio_samples@.len() <= SAMPLE_RING_CAPACITY,
                self.waveform_values@.len() == n,
                forall|j: int|
                    0 <= j < i ==> self.waveform_values@[j] == synthetic_level(
                        sines.base@[j] as int,
                        sines.harmonic@[j] as int,
                        sines.echo@[j] as int,
                        *fx,
                    ) as u32,
                forall|j: int| 0 <= j < n ==> #[trigger] self.waveform_values@[j] <= BIN_SCALE,
            decreases n - i,
        {
            let b = sines.base[i] as i64;
            let h = sines.harmonic[i] as i64;
            let e = sines.echo[i] as i64;
            assert(-200000 <= b * v <= 200000) by (nonlinear_arith)
                requires
                    -10000 <= b <= 10000,
                    0 <= v <= 20,
            ;
            assert(-600000000 <= h * 3 * c <= 600000000) by (nonlinear_arith)
                requires
                    -10000 <= h <= 10000,
                    0 <= c <= 20000,
            ;
            let mixed = b * v * 20000 + h * 3 * c;
            let a: i64 = if mixed < 0 { -mixed } else { mixed };
            assert(a * v <= 4600000000 * 20) by (nonlinear_arith)
                requires
                    0 <= a <= 4600000000,
                    0 <= v <= 20,
            ;
            let combined = a * v / 2000000;
            let reverb: i64 = if fx.reverb_enabled {
                let ea: i64 = if e < 0 { -e } else { e };
                assert(ea * 3 * v <= 10000 * 3 * 20) by (nonlinear_arith)
                    requires
                        0 <= ea <= 10000,
                        0 <= v <= 20,
                ;
                ea * 3 * v / 100
            } else {
                0
            };
            let total = (combined + reverb) * 7 / 10;
            let level: i64 = if total < BIN_SCALE as i64 { total } else { BIN_SCALE as i64 };
            self.waveform_values.set(i, level as u32);
            i = i + 1;
        }
        assert(self.waveform_values@ =~= synthetic_wave(*sines, *fx));
    }

    /// One refresh of the display.
    pub fn update(
        &mut self,
        has_sessions: bool,
        last_played: Option<u64>,
        now_ms: u64,
        visual_only_mode: bool,
        fx: &EffectManager,
        sines: &SineTable,
    )
        requires
            old(self).wf(),
            fx.wf(),
            sines.fits(old(self).waveform_values@.len()),
        ensures
            final(self).wf(),
            final(self).audio_samples == old(self).audio_samples,
            final(self).waveform_values@ == next_wave(
                old(self).waveform_values@,
                old(self).audio_samples@,
                has_sessions,
                last_played,
                now_ms,
                visual_only_mode,
                *fx,
                *sines,
            ),
    {
        let timed_out = match last_played {
            None => true,
            Some(t) => now_ms > t && now_ms - t > IDLE_TIMEOUT_MS,
        };
        if !has_sessions && timed_out {
            self.decay_all(9, 10);
            assert(self.waveform_values@ =~= idle_step(old(self).waveform_values@));
            return;
        }
        if self.audio_samples.len() > 0 {
            self.update_from_samples(has_sessions, fx);
        } else {
            self.simulate_waveform(has_sessions, visual_only_mode, fx, sines);
        }
    }
}

/// A decay step never raises a level, and lowers a sounding one by at least
/// a tenth of the snap threshold.
proof fn lemma_decay_step_shrinks(v: int)
    requires
        0 <= v <= BIN_SCALE,
    ensures
        0 <= decayed(v, 9, 10) <= v,
        decayed(v, 9, 10) == 0 || decayed(v, 9, 10) <= v - 10,
{
    assert(0 <= v * 9 / 10 <= v) by (nonlinear_arith)
        requires
            0 <= v,
    ;
    if v * 9 / 10 >= SNAP_BELOW {
        assert(v * 9 / 10 <= v - 10) by (nonlinear_arith)
            requires
                v * 9 / 10 >= 100,
                v >= 0,
        ;
    }
}

/// After `k` idle steps a level is 0 or at least `10 * k` below where it started.
proof fn lemma_decayed_n_bound(v: int, k: nat)
    requires
        0 <= v <= BIN_SCALE,
    ensures
        0 <= decayed_n(v, k) <= v,
        decayed_n(v, k) == 0 || decayed_n(v, k) <= v - 10 * k,
    decreases k,
{
    if k > 0 {
        lemma_decayed_n_bound(v, (k - 1) as nat);
        let p = decayed_n(v, (k - 1) as nat);
        lemma_decay_step_shrinks(p);
        if p == 0 {
            assert(decayed(0, 9, 10) == 0);
        }
    }
}

/// A ceiling on a level after `k` idle steps from full height.
pub open spec fn decay_bound(k: nat) -> int
    decreases k,
{
    if k == 0 {
        BIN_SCALE as int
    } else {
        decay_bound((k - 1) as nat) * 9 / 10
    }
}

proof fn lemma_decayed_n_below(v: int, k: nat)
    requires
        0 <= v <= BIN_SCALE,
    ensures
        0 <= decayed_n(v, k) <= decay_bound(k),
    decreases k,
{
    if k > 0 {
        lemma_decayed_n_below(v, (k - 1) as nat);
        let p = decayed_n(v, (k - 1) as nat);
        let b = decay_bound((k - 1) as nat);
        assert(0 <= p * 9 / 10 <= b * 9 / 10) by (nonlinear_arith)
            requires
                0 <= p <= b,
        ;
    }
}

proof fn lemma_decay_bound_43()
    ensures
        decay_bound(43) == 104,
{
    assert(decay_bound(0) == 10000);
    assert(decay_bound(1) == 9000);
    assert(decay_bound(2) == 8100);
    assert(decay_bound(3) == 7290);
    assert(decay_bound(4) == 6561);
    assert(decay_bound(5) == 5904);
    assert(decay_bound(6) == 5313);
    assert(decay_bound(7) == 4781);
    assert(decay_bound(8) == 4302);
    assert(decay_bound(9) == 3871);
    assert(decay_bound(10) == 3483);
    assert(decay_bound(11) == 3134);
    assert(decay_bound(12) == 2820);
    assert(decay_bound(13) == 2538);
    assert(decay_bound(14) == 2284);
    assert(decay_bound(15) == 2055);
    assert(decay_bound(16) == 1849);
    assert(decay_bound(17) == 1664);
    assert(decay_bound(18) == 1497);
    assert(decay_bound(19) == 1347);
    assert(decay_bound(20) == 1212);
    assert(decay_bound(21) == 1090);
    assert(decay_bound(22) == 981);
    assert(decay_bound(23) == 882);
    assert(decay_bound(24) == 793);
    assert(decay_bound(25) == 713);
    assert(decay_bound(26) == 641);
    assert(decay_bound(27) == 576);
    assert(decay_bound(28) == 518);
    assert(decay_bound(29) == 466);
    assert(decay_bound(30) == 419);
    assert(decay_bound(31) == 377);
    assert(decay_bound(32) == 339);
    assert(decay_bound(33) == 305);
    assert(decay_bound(34) == 274);
    assert(decay_bound(35) == 246);
    assert(decay_bound(36) == 221);
    assert(decay_bound(37) == 198);
    assert(decay_bound(38) == 178);
    assert(decay_bound(39) == 160);
    assert(decay_bound(40) == 144);
    assert(decay_bound(41) == 129);
    assert(decay_bound(42) == 116);
    assert(decay_bound(43) == 104);
}

/// After 44 idle steps or more, a level that started within full height is 0.
proof fn lemma_decayed_n_settles(v: int, k: nat)
    requires
        0 <= v <= BIN_SCALE,
        k >= 44,
    ensures
        decayed_n(v, k) == 0,
    decreases k,
{
    if k == 44 {
        lemma_decayed_n_below(v, 43);
        lemma_decay_bound_43();
        let p = decayed_n(v, 43);
        assert(p * 9 / 10 < 100) by (nonlinear_arith)
            requires
                0 <= p <= 104,
        ;
    } else {
        lemma_decayed_n_settles(v, (k - 1) as nat);
        assert(decayed(0, 9, 10) == 0);
    }
}

/// Bin `i` of the buffer after `k` idle steps is bin `i` of the start decayed `k` times.
proof fn lemma_idle_steps_pointwise(w: Seq<u32>, k: nat, i: int)
    requires
        0 <= i < w.len(),
        forall|j: int| 0 <= j < w.len() ==> #[trigger] w[j] <= BIN_SCALE,
    ensures
        idle_steps(w, k).len() == w.len(),
        idle_steps(w, k)[i] as int == decayed_n(w[i] as int, k),
    decreases k,
{
    if k > 0 {
        lemma_idle_steps_pointwise(w, (k - 1) as nat, i);
        lemma_decayed_n_bound(w[i] as int, (k - 1) as nat);
        lemma_decay_step_shrinks(decayed_n(w[i] as int, (k - 1) as nat));
    }
}

/// Idle decay settles: from levels within full height, every bin is exactly
/// silent after 44 idle steps or more.
pub proof fn lemma_idle_decay_settles(w: Seq<u32>, k: nat)
    requires
        forall|j: int| 0 <= j < w.len() ==> #[trigger] w[j] <= BIN_SCALE,
        k >= 44,
    ensures
        idle_steps(w, k).len() == w.len(),
        forall|i: int| 0 <= i < w.len() ==> #[trigger] idle_steps(w, k)[i] == 0,
{
    assert forall|i: int| 0 <= i < w.len() implies #[trigger] idle_steps(w, k)[i] == 0 by {
        lemma_idle_steps_pointwise(w, k, i);
        lemma_decayed_n_settles(w[i] as int, k);
    }
    if w.len() == 0 {
        lemma_idle_steps_len(w, k);
    } else {
        lemma_idle_steps_pointwise(w, k, 0);
    }
}

proof fn lemma_idle_steps_len(w: Seq<u32>, k: nat)
    ensures
        idle_steps(w, k).len() == w.len(),
    decreases k,
{
    if k > 0 {
        lemma_idle_steps_len(w, (k - 1) as nat);
    }
}

} // verus!
