use vstd::prelude::*;

verus! {

/// Speed and volume are counted in tenths: a speed of 10 plays at normal speed.
pub const SPEED_MIN: u32 = 1;

pub const SPEED_MAX: u32 = 30;

pub const SPEED_DEFAULT: u32 = 10;

pub const VOLUME_MIN: u32 = 0;

pub const VOLUME_MAX: u32 = 20;

pub const VOLUME_DEFAULT: u32 = 10;

/// Low-pass cutoff in Hz; the largest value means that the filter is off.
pub const CUTOFF_MIN: u32 = 500;

pub const CUTOFF_MAX: u32 = 20000;

pub const CUTOFF_STEP: u32 = 500;

/// Delay of the reverb copy of a sound, in milliseconds.
pub const REVERB_DELAY_MS: u32 = 60;

/// The adjustable effect parameters.
#[derive(Clone, Copy, Debug, PartialEq, Eq, Structural)]
pub enum ParamKind {
    Speed,
    Volume,
    Lowpass,
}

/// The effect parameters that every new mix is built from.
pub struct EffectManager {
    /// Playback speed in tenths.
    pub playback_speed: u32,
    /// Gain in tenths.
    pub volume: u32,
    /// Low-pass cutoff in Hz.
    pub lowpass_cutoff: u32,
    pub reverb_enabled: bool,
    /// Reverb delay in milliseconds.
    pub reverb_delay: u32,
}

/// One step from `v`, up or down by `step`, saturating at `lo` and `hi`.
pub open spec fn clamped_step(v: int, increase: bool, step: int, lo: int, hi: int) -> int {
    if increase {
        if v + step > hi { hi } else { v + step }
    } else {
        if v - step < lo { lo } else { v - step }
    }
}

pub open spec fn param_value(m: EffectManager, kind: ParamKind) -> int {
    match kind {
        ParamKind::Speed => m.playback_speed as int,
        ParamKind::Volume => m.volume as int,
        ParamKind::Lowpass => m.lowpass_cutoff as int,
    }
}

pub open spec fn param_step(kind: ParamKind) -> int {
    match kind {
        ParamKind::Lowpass => CUTOFF_STEP as int,
        _ => 1,
    }
}

pub open spec fn param_min(kind: ParamKind) -> int {
    match kind {
        ParamKind::Speed => SPEED_MIN as int,
        ParamKind::Volume => VOLUME_MIN as int,
        ParamKind::Lowpass => CUTOFF_MIN as int,
    }
}

pub open spec fn param_max(kind: ParamKind) -> int {
    match kind {
        ParamKind::Speed => SPEED_MAX as int,
        ParamKind::Volume => VOLUME_MAX as int,
        ParamKind::Lowpass => CUTOFF_MAX as int,
    }
}

/// The parameters after one step of `kind`; the others keep their values.
pub open spec fn adjusted(m: EffectManager, kind: ParamKind, increase: bool) -> EffectManager {
    let v = clamped_step(
        param_value(m, kind),
        increase,
        param_step(kind),
        param_min(kind),
        param_max(kind),
    );
    match kind {
        ParamKind::Speed => EffectManager { playback_speed: v as u32, ..m },
        ParamKind::Volume => EffectManager { volume: v as u32, ..m },
        ParamKind::Lowpass => EffectManager { lowpass_cutoff: v as u32, ..m },
    }
}

/// The parameters that a new manager starts with.
pub open spec fn default_effects() -> EffectManager {
    EffectManager {
        playback_speed: SPEED_DEFAULT,
        volume: VOLUME_DEFAULT,
        lowpass_cutoff: CUTOFF_MAX,
        reverb_enabled: false,
        reverb_delay: REVERB_DELAY_MS,
    }
}

/// The parameters with the reverb switched the other way.
pub open spec fn toggled(m: EffectManager) -> EffectManager {
    EffectManager { reverb_enabled: !m.reverb_enabled, ..m }
}

/// The parameters after a sequence of steps, applied in order.
pub open spec fn adjusted_all(m: EffectManager, steps: Seq<(ParamKind, bool)>) -> EffectManager
    decreases steps.len(),
{
    if steps.len() == 0 {
        m
    } else {
        adjusted_all(adjusted(m, steps[0].0, steps[0].1), steps.drop_first())
    }
}

/// The parameters after `n` steps of one kind in one direction.
pub open spec fn adjusted_repeatedly(
    m: EffectManager,
    kind: ParamKind,
    increase: bool,
    n: nat,
) -> EffectManager
    decreases n,
{
    if n == 0 {
        m
    } else {
        adjusted(adjusted_repeatedly(m, kind, increase, (n - 1) as nat), kind, increase)
    }
}

impl EffectManager {
    /// Every value within its range; the cutoff on its grid; the reverb delay fixed.
    pub open spec fn wf(&self) -> bool {
        &&& SPEED_MIN <= self.playback_speed <= SPEED_MAX
        &&& VOLUME_MIN <= self.volume <= VOLUME_MAX
        &&& CUTOFF_MIN <= self.lowpass_cutoff <= CUTOFF_MAX
        &&& self.lowpass_cutoff % CUTOFF_STEP == 0
        &&& self.reverb_delay == REVERB_DELAY_MS
    }

    pub fn new() -> (r: Self)
        ensures
            r.wf(),
            r == default_effects(),
    {
        EffectManager {
            playback_speed: SPEED_DEFAULT,
            volume: VOLUME_DEFAULT,
            lowpass_cutoff: CUTOFF_MAX,
            reverb_enabled: false,
            reverb_delay: REVERB_DELAY_MS,
        }
    }

    /// Volume in tenths.
    pub fn get_volume(&self) -> (r: u32)
        ensures
            r == self.volume,
    {
        self.volume
    }

    pub fn change_volume(&mut self, increase: bool)
        requires
            old(self).wf(),
        ensures
            final(self).wf(),
            *final(self) == adjusted(*old(self), ParamKind::Volume, increase),
    {
        if increase {
            self.volume = if self.volume + 1 > VOLUME_MAX { VOLUME_MAX } else { self.volume + 1 };
        } else {
            self.volume = if self.volume < VOLUME_MIN + 1 { VOLUME_MIN } else { self.volume - 1 };
        }
    }

    /// Playback speed in tenths.
    pub fn get_playback_speed(&self) -> (r: u32)
        ensures
            r == self.playback_speed,
    {
        self.playback_speed
    }

    pub fn change_pitch(&mut self, increase: bool)
        requires
            old(self).wf(),
        ensures
            final(self).wf(),
            *final(self) == adjusted(*old(self), ParamKind::Speed, increase),
    {
        if increase {
            self.playback_speed = if self.playback_speed + 1 > SPEED_MAX {
                SPEED_MAX
            } else {
                self.playback_speed + 1
            };
        } else {
            self.playback_speed = if self.playback_speed < SPEED_MIN + 1 {
                SPEED_MIN
            } else {
                self.playback_speed - 1
            };
        }
    }

    /// Low-pass cutoff in Hz.
    pub fn get_lowpass_cutoff(&self) -> (r: u32)
        ensures
            r == self.lowpass_cutoff,
    {
        self.lowpass_cutoff
    }

    pub fn change_lowpass(&mut self, increase: bool)
        requires
            old(self).wf(),
        ensures
            final(self).wf(),
            *final(self) == adjusted(*old(self), ParamKind::Lowpass, increase),
    {
        if increase {
            self.lowpass_cutoff = if self.lowpass_cutoff + CUTOFF_STEP > CUTOFF_MAX {
                CUTOFF_MAX
            } else {
                self.lowpass_cutoff + CUTOFF_STEP
            };
        } else {
            self.lowpass_cutoff = if self.lowpass_cutoff < CUTOFF_MIN + CUTOFF_STEP {
                CUTOFF_MIN
            } else {
                self.lowpass_cutoff - CUTOFF_STEP
            };
        }
    }

    /// One step of the parameter `kind`; returns its new value.
    pub fn adjust(&mut self, kind: ParamKind, increase: bool) -> (r: u32)
        requires
            old(self).wf(),
        ensures
            final(self).wf(),
            *final(self) == adjusted(*old(self), kind, increase),
            r == param_value(*final(self), kind),
    {
        match kind {
            ParamKind::Speed => {
                self.change_pitch(increase);
                self.playback_speed
            },
            ParamKind::Volume => {
                self.change_volume(increase);
                self.volume
            },
            ParamKind::Lowpass => {
                self.change_lowpass(increase);
                self.lowpass_cutoff
            },
        }
    }

    pub fn is_reverb_enabled(&self) -> (r: bool)
        ensures
            r == self.reverb_enabled,
    {
        self.reverb_enabled
    }

    /// Reverb delay in milliseconds.
    pub fn get_reverb_delay(&self) -> (r: u32)
        ensures
            r == self.reverb_delay,
    {
        self.reverb_delay
    }

    pub fn toggle_reverb(&mut self)
        ensures
            *final(self) == toggled(*old(self)),
    {
        self.reverb_enabled = !self.reverb_enabled;
    }
}

/// One step of any parameter keeps every parameter within its range.
pub proof fn lemma_adjusted_wf(m: EffectManager, kind: ParamKind, increase: bool)
    requires
        m.wf(),
    ensures
        adjusted(m, kind, increase).wf(),
{
}

/// Any sequence of steps, in any order and direction, leaves every parameter
/// within its closed range.
pub proof fn lemma_adjustments_stay_in_range(m: EffectManager, steps: Seq<(ParamKind, bool)>)
    requires
        m.wf(),
    ensures
        adjusted_all(m, steps).wf(),
    decreases steps.len(),
{
    if steps.len() > 0 {
        lemma_adjusted_wf(m, steps[0].0, steps[0].1);
        lemma_adjustments_stay_in_range(adjusted(m, steps[0].0, steps[0].1), steps.drop_first());
    }
}

/// Stepping `n` times up moves a parameter by `n` steps or to its ceiling,
/// whichever is lower; stepping down, by `n` steps or to its floor. Steps past
/// the bound leave the value exactly at the bound.
pub proof fn lemma_repeated_steps_saturate(m: EffectManager, kind: ParamKind, increase: bool, n: nat)
    requires
        m.wf(),
    ensures
        adjusted_repeatedly(m, kind, increase, n).wf(),
        increase ==> param_value(adjusted_repeatedly(m, kind, increase, n), kind) == if param_value(
            m,
            kind,
        ) + n * param_step(kind) > param_max(kind) {
            param_max(kind)
        } else {
            param_value(m, kind) + n * param_step(kind)
        },
        !increase ==> param_value(adjusted_repeatedly(m, kind, increase, n), kind) == if param_value(
            m,
            kind,
        ) - n * param_step(kind) < param_min(kind) {
            param_min(kind)
        } else {
            param_value(m, kind) - n * param_step(kind)
        },
    decreases n,
{
    if n > 0 {
        let prev = adjusted_repeatedly(m, kind, increase, (n - 1) as nat);
        lemma_repeated_steps_saturate(m, kind, increase, (n - 1) as nat);
        lemma_adjusted_wf(prev, kind, increase);
        assert((n - 1) * param_step(kind) + param_step(kind) == n * param_step(kind))
            by (nonlinear_arith);
    }
}

/// Toggling the reverb twice restores the original parameters.
pub proof fn lemma_toggle_reverb_twice(m: EffectManager)
    ensures
        toggled(toggled(m)) == m,
{
}

} // verus!
