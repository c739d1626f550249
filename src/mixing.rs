use vstd::prelude::*;

use rodio::Sink;

use crate::effects::{EffectManager, CUTOFF_MAX};

verus! {

#[verifier::external_type_specification]
#[verifier::external_body]
pub struct ExSink(rodio::Sink);

#[verifier::external_type_specification]
#[verifier::external_body]
pub struct ExSourcesQueueOutput(rodio::queue::SourcesQueueOutput);

/// Relies on rodio::Sink::new: a sink with an empty queue, and the source
/// that plays what is queued on it. It only allocates the queue.
pub assume_specification[ rodio::Sink::new ]() -> (Sink, rodio::queue::SourcesQueueOutput);

/// Relies on rodio::Sink::empty: whether the sink's queue has run out. It
/// changes as the device consumes audio, so nothing is promised of it.
pub assume_specification[ rodio::Sink::empty ](sink: &Sink) -> bool;

/// The reverb branch of a mix: a second decode of the source, quieter and later.
#[derive(Clone, Copy, Debug, PartialEq, Eq, Structural)]
pub struct EchoPlan {
    /// Gain in hundredths.
    pub gain: u32,
    /// Delay in milliseconds.
    pub delay_ms: u32,
}

/// The processing graph that one playback request is built from.
#[derive(Clone, Copy, Debug, PartialEq, Eq, Structural)]
pub struct MixPlan {
    /// Time scale in tenths.
    pub speed: u32,
    /// Gain of the primary stream in hundredths.
    pub gain: u32,
    pub echo: Option<EchoPlan>,
    /// Low-pass cutoff in Hz, when the filter is on.
    pub lowpass: Option<u32>,
}

/// The graph for the current parameters: speed and volume on the primary
/// stream; with reverb, a copy at 0.4 of the volume after the reverb delay;
/// a low-pass filter on the mix unless the cutoff is at its maximum.
pub open spec fn plan_for(fx: EffectManager) -> MixPlan {
    MixPlan {
        speed: fx.playback_speed,
        gain: (fx.volume * 10) as u32,
        echo: if fx.reverb_enabled {
            Some(EchoPlan { gain: (fx.volume * 4) as u32, delay_ms: fx.reverb_delay })
        } else {
            None
        },
        lowpass: if fx.lowpass_cutoff < CUTOFF_MAX {
            Some(fx.lowpass_cutoff)
        } else {
            None
        },
    }
}

/// The graph that a mix is built from for the given parameters.
pub fn mix_plan(fx: &EffectManager) -> (r: MixPlan)
    requires
        fx.wf(),
    ensures
        r == plan_for(*fx),
{
    MixPlan {
        speed: fx.playback_speed,
        gain: fx.volume * 10,
        echo: if fx.reverb_enabled {
            Some(EchoPlan { gain: fx.volume * 4, delay_ms: fx.reverb_delay })
        } else {
            None
        },
        lowpass: if fx.lowpass_cutoff < CUTOFF_MAX {
            Some(fx.lowpass_cutoff)
        } else {
            None
        },
    }
}

/// A mix for the caller to build from the source of session `session` and
/// to queue on that session's sink: decode the source, and with a reverb
/// branch decode it a second time, then shape the streams as `plan` says.
#[derive(Clone, Copy, Debug, PartialEq, Eq, Structural)]
pub struct MixJob {
    pub session: usize,
    pub plan: MixPlan,
}

} // verus!
