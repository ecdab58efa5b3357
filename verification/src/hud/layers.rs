//! What the display draws, in order, and the chip that tells that the microphone
//! is open.
use vstd::prelude::*;
use crate::color::{Rgba, shade, translucent};

verus! {

/// The parts of the display.
#[derive(Clone, Copy, Debug, PartialEq, Eq, Structural)]
pub enum HudLayer {
    PerfStats,
    ConnectionLag,
    Voice,
    MeteorShower,
    Vignette,
    CombatFeedback,
    Charge(ChargeSource),
    Health,
}

/// What the charge bar shows.
#[derive(Clone, Copy, Debug, PartialEq, Eq, Structural)]
pub enum ChargeSource {
    Ranged,
    Throw,
    Consume,
}

/// What is known in a frame.
#[derive(Clone, Copy, Debug, PartialEq, Eq, Structural)]
pub struct HudInputs {
    pub show_perf_stats: bool,
    pub lagging: bool,
    /// Whether the own body is known.
    pub has_local_view: bool,
    pub ranged_view: bool,
    pub throw_view: bool,
    pub consume_view: bool,
}

/// The source of the charge bar: a ranged weapon before a throw, a throw before a
/// use.
pub open spec fn charge_source(inputs: HudInputs) -> Option<ChargeSource> {
    if inputs.ranged_view {
        Some(ChargeSource::Ranged)
    } else if inputs.throw_view {
        Some(ChargeSource::Throw)
    } else if inputs.consume_view {
        Some(ChargeSource::Consume)
    } else {
        None
    }
}

/// The parts of the display, from the bottom up. Without a body of one's own only
/// what concerns the session is drawn.
pub open spec fn layers_of(inputs: HudInputs) -> Seq<HudLayer> {
    (if inputs.show_perf_stats {
        seq![HudLayer::PerfStats]
    } else {
        Seq::empty()
    }) + (if inputs.lagging {
        seq![HudLayer::ConnectionLag]
    } else {
        Seq::empty()
    }) + seq![HudLayer::Voice, HudLayer::MeteorShower] + (if inputs.has_local_view {
        seq![HudLayer::Vignette, HudLayer::CombatFeedback] + (match charge_source(inputs) {
            Some(source) => seq![HudLayer::Charge(source)],
            None => Seq::empty(),
        }) + seq![HudLayer::Health]
    } else {
        Seq::empty()
    })
}

/// Lists the parts of the display.
pub fn hud_layers(inputs: HudInputs) -> (r: Vec<HudLayer>)
    ensures
        r@ == layers_of(inputs),
{
    let mut layers: Vec<HudLayer> = Vec::new();
    if inputs.show_perf_stats {
        layers.push(HudLayer::PerfStats);
    }
    if inputs.lagging {
        layers.push(HudLayer::ConnectionLag);
    }
    layers.push(HudLayer::Voice);
    layers.push(HudLayer::MeteorShower);
    if inputs.has_local_view {
        layers.push(HudLayer::Vignette);
        layers.push(HudLayer::CombatFeedback);
        if inputs.ranged_view {
            layers.push(HudLayer::Charge(ChargeSource::Ranged));
        } else if inputs.throw_view {
            layers.push(HudLayer::Charge(ChargeSource::Throw));
        } else if inputs.consume_view {
            layers.push(HudLayer::Charge(ChargeSource::Consume));
        }
        layers.push(HudLayer::Health);
    }
    proof {
        assert(layers@ =~= layers_of(inputs));
    }
    layers
}

/// The chip of an open microphone.
pub struct VoiceChip {
    pub label: String,
    pub background: Rgba,
    pub border: Rgba,
    /// How far the chip is in, in millionths.
    pub opacity: u32,
    /// Whether it is still moving.
    pub moving: bool,
}

/// Draws up the chip of an open microphone. The envelope is in millionths; a
/// trace of it draws nothing.
pub fn voice_indicator(envelope: u32) -> (r: Option<VoiceChip>)
    ensures
        r is Some == (envelope > 5_000),
        r matches Some(chip) ==> {
            let opacity = if envelope > 1_000_000 {
                1_000_000
            } else {
                envelope as int
            };
            &&& chip.label@ == "Voice On"@
            &&& chip.opacity == opacity
            &&& chip.background == shade(6, 9, 13, (opacity * 230 / 1_000_000) as u8)
            &&& chip.border == shade(248, 128, 96, 96)
            &&& chip.moving == (opacity < 999_000)
        },
{
    if envelope <= 5_000 {
        return None;
    }
    let opacity: u32 = if envelope > 1_000_000 {
        1_000_000
    } else {
        envelope
    };
    let alpha: u8 = (opacity * 230 / 1_000_000) as u8;
    Some(
        VoiceChip {
            label: "Voice On".to_owned(),
            background: translucent(6, 9, 13, alpha),
            border: translucent(248, 128, 96, 96),
            opacity,
            moving: opacity < 999_000,
        },
    )
}

/// The chip of an unstable connection.
pub struct LagChip {
    pub label: String,
    pub background: Rgba,
    pub border: Rgba,
}

/// Draws up the chip of an unstable connection.
pub fn connection_lag_indicator() -> (r: LagChip)
    ensures
        r.label@ == "Connection unstable"@,
        r.background == shade(58, 24, 16, 220),
        r.border == shade(220, 120, 80, 200),
{
    LagChip {
        label: "Connection unstable".to_owned(),
        background: translucent(58, 24, 16, 220),
        border: translucent(220, 120, 80, 200),
    }
}

/// A ranged weapon comes before a throw, a throw before a use, and without any of them
/// there is no charge bar.
pub proof fn ranged_weapons_come_first(inputs: HudInputs)
    ensures
        charge_source(inputs) == Some(ChargeSource::Ranged) <==> inputs.ranged_view,
        charge_source(inputs) == Some(ChargeSource::Throw) <==> !inputs.ranged_view
            && inputs.throw_view,
        charge_source(inputs) == Some(ChargeSource::Consume) <==> !inputs.ranged_view
            && !inputs.throw_view && inputs.consume_view,
        charge_source(inputs) is None <==> !inputs.ranged_view && !inputs.throw_view
            && !inputs.consume_view,
{
}

/// Each part of the display has its own condition: the statistics and the lag chip their
/// switches, voice and meteors none, and everything about the own body that body.
pub proof fn every_part_has_its_own_condition(inputs: HudInputs, source: ChargeSource)
    ensures
        ({
            let layers = layers_of(inputs);
            let body = inputs.has_local_view;
            &&& layers.contains(HudLayer::PerfStats) <==> inputs.show_perf_stats
            &&& layers.contains(HudLayer::ConnectionLag) <==> inputs.lagging
            &&& layers.contains(HudLayer::Voice)
            &&& layers.contains(HudLayer::MeteorShower)
            &&& layers.contains(HudLayer::Vignette) <==> body
            &&& layers.contains(HudLayer::CombatFeedback) <==> body
            &&& layers.contains(HudLayer::Health) <==> body
            &&& layers.contains(HudLayer::Charge(source)) <==> body && charge_source(inputs)
                == Some(source)
            &&& body ==> layers.last() == HudLayer::Health
            &&& !body ==> layers.last() == HudLayer::MeteorShower
        }),
{
    let layers = layers_of(inputs);
    let lag: int = if inputs.show_perf_stats {
        1
    } else {
        0
    };
    let voice: int = lag + if inputs.lagging {
        1int
    } else {
        0
    };
    if inputs.show_perf_stats {
        assert(layers[0] == HudLayer::PerfStats);
    }
    if inputs.lagging {
        assert(layers[lag] == HudLayer::ConnectionLag);
    }
    assert(layers[voice] == HudLayer::Voice);
    assert(layers[voice + 1] == HudLayer::MeteorShower);
    if inputs.has_local_view {
        assert(layers[voice + 2] == HudLayer::Vignette);
        assert(layers[voice + 3] == HudLayer::CombatFeedback);
        assert(layers[layers.len() - 1] == HudLayer::Health);
        if let Some(shown) = charge_source(inputs) {
            assert(layers[voice + 4] == HudLayer::Charge(shown));
        }
    }
}

} // verus!
