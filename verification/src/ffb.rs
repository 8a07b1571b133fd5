//! Force-feedback effect descriptors and the translation engine that
//! turns them into IFORCE commands.

use vstd::prelude::*;

use vstd::pervasive::VecAdditionalExecFns;

use crate::config::FfbConfig;
use crate::device::IforceCommand;
use crate::error::Result;
use crate::{
    clamp_spec, hi_byte, hi_byte_spec, i16_bits, i16_bits_spec, lo_byte, lo_byte_spec,
    trunc_div_spec, UNIT,
};

verus! {

/// Waveform of a periodic effect.
#[derive(Debug, Clone, Copy, PartialEq, Eq, Structural)]
pub enum Waveform {
    Sine,
    Square,
    Triangle,
    SawtoothUp,
    SawtoothDown,
}

/// Kind of a condition effect.
#[derive(Debug, Clone, Copy, PartialEq, Eq, Structural)]
pub enum ConditionType {
    Spring,
    Damper,
    Inertia,
    Friction,
}

/// Constant-force parameters.
#[derive(Debug, Clone, Copy, PartialEq, Eq, Structural)]
pub struct ConstantEffect {
    pub magnitude: i16,
    /// Milliseconds; 0 means infinite.
    pub duration: u16,
}

/// Periodic-effect parameters.
#[derive(Debug, Clone, Copy, PartialEq, Eq, Structural)]
pub struct PeriodicEffect {
    pub magnitude: u16,
    /// Milliseconds.
    pub period: u16,
    /// Degrees, 0-359.
    pub phase: u16,
    pub waveform: Waveform,
}

/// Condition-effect parameters, passed through with gain applied.
#[derive(Debug, Clone, Copy, PartialEq, Eq, Structural)]
pub struct ConditionEffect {
    pub positive_coefficient: i16,
    pub negative_coefficient: i16,
    pub condition_type: ConditionType,
}

/// Ramp-effect parameters.
#[derive(Debug, Clone, Copy, PartialEq, Eq, Structural)]
pub struct RampEffect {
    pub start_magnitude: i16,
    pub end_magnitude: i16,
    pub duration: u16,
}

/// The effect payload of a descriptor.
#[derive(Debug, Clone, Copy, PartialEq, Eq, Structural)]
pub enum EffectType {
    Constant(ConstantEffect),
    Periodic(PeriodicEffect),
    Condition(ConditionEffect),
    Ramp(RampEffect),
}

/// A parsed FFB effect descriptor. `id` is the PID effect block index,
/// 1 to 40.
#[derive(Debug, Clone, Copy, PartialEq, Eq, Structural)]
pub struct FfbEffect {
    pub id: u8,
    pub effect_type: EffectType,
    /// Initial gain byte; gains proper are applied by the engine.
    pub gain: u8,
}

} // verus!

verus! {

/// An effect held in the engine's table: the descriptor, when it was
/// started, and whether it is playing.
#[derive(Debug, Clone, Copy, PartialEq, Eq, Structural)]
pub struct ActiveEffect {
    pub effect: FfbEffect,
    /// Millisecond timestamp of insertion or refresh.
    pub start_ms: u64,
    pub enabled: bool,
}

/// Milliseconds elapsed from `earlier` to `later`, zero when the clock
/// appears to have gone backwards.
pub open spec fn elapsed_ms_spec(later: u64, earlier: u64) -> int {
    if later >= earlier {
        later - earlier
    } else {
        0
    }
}

/// A magnitude with a per-effect gain and the global gain applied, each
/// a fixed-point fraction, truncated toward zero and clamped to the
/// symmetric signed 16-bit range.
pub open spec fn apply_gain_spec(value: i16, gain: u32, global_gain: u32) -> i16 {
    clamp_spec(
        trunc_div_spec(value * gain * global_gain, (UNIT * UNIT) as int),
        -32767,
        32767,
    ) as i16
}

/// A gained magnitude rescaled by the force limit: `max_force` over the
/// 2.5 N reference baseline, truncated toward zero and clamped again.
pub open spec fn scale_magnitude_spec(magnitude: i16, max_force: u32) -> i16 {
    clamp_spec(trunc_div_spec(magnitude * max_force, 25000), -32767, 32767) as i16
}

/// IFORCE waveform identifier of a waveform.
pub open spec fn waveform_id_spec(w: Waveform) -> u8 {
    match w {
        Waveform::Sine => 0x01,
        Waveform::Square => 0x02,
        Waveform::Triangle => 0x03,
        Waveform::SawtoothUp => 0x04,
        Waveform::SawtoothDown => 0x05,
    }
}

/// IFORCE condition identifier of a condition kind.
pub open spec fn condition_id_spec(c: ConditionType) -> u8 {
    match c {
        ConditionType::Spring => 0x01,
        ConditionType::Damper => 0x02,
        ConditionType::Inertia => 0x03,
        ConditionType::Friction => 0x04,
    }
}

/// The gain knob that applies to a condition kind; inertia has no knob
/// of its own and passes through at full gain.
pub open spec fn condition_gain_spec(cfg: FfbConfig, c: ConditionType) -> u32 {
    match c {
        ConditionType::Spring => cfg.spring_gain,
        ConditionType::Damper => cfg.damper_gain,
        ConditionType::Inertia => UNIT,
        ConditionType::Friction => cfg.friction_gain,
    }
}

/// The IFORCE command id synthesised for an effect kind.
pub open spec fn iforce_command_id_spec(e: EffectType) -> u8 {
    match e {
        EffectType::Constant(_) => 0x41,
        EffectType::Periodic(_) => 0x42,
        EffectType::Condition(_) => 0x43,
        EffectType::Ramp(_) => 0x44,
    }
}

/// The IFORCE command payload synthesised for an effect under a
/// configuration: the effect id, the kind's identifiers, and the
/// gain-scaled parameters little-endian.
pub open spec fn iforce_data_spec(effect: FfbEffect, cfg: FfbConfig) -> Seq<u8> {
    match effect.effect_type {
        EffectType::Constant(c) => {
            let m = i16_bits_spec(
                scale_magnitude_spec(
                    apply_gain_spec(c.magnitude, cfg.constant_gain, cfg.global_gain),
                    cfg.max_force,
                ),
            );
            seq![
                effect.id,
                lo_byte_spec(m),
                hi_byte_spec(m),
                lo_byte_spec(c.duration),
                hi_byte_spec(c.duration),
            ]
        }
        EffectType::Periodic(p) => {
            let m = i16_bits_spec(
                scale_magnitude_spec(
                    apply_gain_spec(p.magnitude as i16, cfg.periodic_gain, cfg.global_gain),
                    cfg.max_force,
                ),
            );
            seq![
                effect.id,
                waveform_id_spec(p.waveform),
                lo_byte_spec(m),
                hi_byte_spec(m),
                lo_byte_spec(p.period),
                hi_byte_spec(p.period),
                lo_byte_spec(p.phase),
                hi_byte_spec(p.phase),
            ]
        }
        EffectType::Condition(c) => {
            let gain = condition_gain_spec(cfg, c.condition_type);
            let pos = i16_bits_spec(
                apply_gain_spec(c.positive_coefficient, gain, cfg.global_gain),
            );
            let neg = i16_bits_spec(
                apply_gain_spec(c.negative_coefficient, gain, cfg.global_gain),
            );
            seq![
                effect.id,
                condition_id_spec(c.condition_type),
                lo_byte_spec(pos),
                hi_byte_spec(pos),
                lo_byte_spec(neg),
                hi_byte_spec(neg),
            ]
        }
        EffectType::Ramp(rp) => {
            let start = i16_bits_spec(
                apply_gain_spec(rp.start_magnitude, cfg.ramp_gain, cfg.global_gain),
            );
            let end = i16_bits_spec(
                apply_gain_spec(rp.end_magnitude, cfg.ramp_gain, cfg.global_gain),
            );
            seq![
                effect.id,
                lo_byte_spec(start),
                hi_byte_spec(start),
                lo_byte_spec(end),
                hi_byte_spec(end),
                lo_byte_spec(rp.duration),
                hi_byte_spec(rp.duration),
            ]
        }
    }
}

/// Milliseconds between periodic updates at the configured rate.
pub open spec fn update_interval_spec(cfg: FfbConfig) -> int
    recommends
        cfg.update_rate_hz >= 1,
{
    1000int / cfg.update_rate_hz as int
}

/// What survives the expiry sweep: a constant effect with a finite
/// duration is dropped once that long has elapsed since its start; all
/// other effects persist until explicit removal or engine teardown.
pub open spec fn retained_effect_spec(slot: Option<ActiveEffect>, now_ms: u64) -> Option<
    ActiveEffect,
> {
    match slot {
        Option::None => Option::None,
        Option::Some(ae) => match ae.effect.effect_type {
            EffectType::Constant(c) => if c.duration > 0 && elapsed_ms_spec(now_ms, ae.start_ms)
                >= c.duration {
                Option::None
            } else {
                Option::Some(ae)
            },
            _ => Option::Some(ae),
        },
    }
}

/// The stateful FFB engine: holds the table of active effects, keyed by
/// effect block index in a fixed-size sparse array, and the time of the
/// last periodic update. Timestamps come in as milliseconds from the
/// caller's monotonic clock.
pub struct FfbEngine {
    pub config: FfbConfig,
    /// Slot `i` holds the effect with block index `i`; indices 1 to 40
    /// are used, slot 0 never is.
    pub active_effects: Vec<Option<ActiveEffect>>,
    pub last_update_ms: u64,
}

impl FfbEngine {
    /// The table always spans the 40 effect block indices.
    pub open spec fn wf(&self) -> bool {
        self.config.wf() && self.active_effects@.len() == 41
    }

    /// An engine over the given configuration with an empty effect
    /// table, timed from `now_ms`.
    pub fn new(config: FfbConfig, now_ms: u64) -> (e: Self)
        ensures
            e.config == config,
            e.last_update_ms == now_ms,
            e.active_effects@.len() == 41,
            forall|i: int| 0 <= i < 41 ==> e.active_effects@[i] is None,
            config.wf() ==> e.wf(),
    {
        let mut active_effects: Vec<Option<ActiveEffect>> = Vec::new();
        let mut i: usize = 0;
        while i < 41
            invariant
                i <= 41,
                active_effects@.len() == i as int,
                forall|k: int| 0 <= k < i as int ==> active_effects@[k] is None,
            decreases 41 - i,
        {
            active_effects.push(None);
            i = i + 1;
        }
        FfbEngine { config, active_effects, last_update_ms: now_ms }
    }

    /// A magnitude with the given per-effect gain and the global gain
    /// applied, clamped to the symmetric signed 16-bit range.
    pub fn apply_gain(&self, value: i16, gain: u32) -> (r: i16)
        requires
            self.config.wf(),
            gain <= UNIT,
        ensures
            r == apply_gain_spec(value, gain, self.config.global_gain),
    {
        let global = self.config.global_gain;
        let mag: u64 = if value >= 0 {
            value as u64
        } else {
            (-(value as i64)) as u64
        };
        assert(mag <= 32768);
        proof {
            assert((UNIT as u64) * (UNIT as u64) == 100000000) by (nonlinear_arith)
                requires
                    UNIT == 10000,
            ;
            lemma_mul_le(mag as int, gain as int, 32768, 10000);
            lemma_mul_le((mag * gain) as int, global as int, 327680000, 10000);
            if value >= 0 {
                assert(value * gain * global == (mag * gain * global) as int)
                    by (nonlinear_arith)
                    requires
                        mag == value,
                ;
            } else {
                assert(value * gain * global == -((mag * gain * global) as int))
                    by (nonlinear_arith)
                    requires
                        mag == -(value as int),
                ;
            }
        }
        let scaled = mag * (gain as u64) * (global as u64) / ((UNIT as u64) * (UNIT as u64));
        let clamped: u64 = if scaled > 32767 {
            32767
        } else {
            scaled
        };
        if value >= 0 {
            clamped as i16
        } else {
            -(clamped as i16)
        }
    }

    /// A gained magnitude rescaled by the configured force limit over
    /// the 2.5 N baseline, clamped to the symmetric signed 16-bit range.
    pub fn scale_magnitude(&self, magnitude: i16) -> (r: i16)
        requires
            self.config.wf(),
        ensures
            r == scale_magnitude_spec(magnitude, self.config.max_force),
    {
        let max_force = self.config.max_force;
        let mag: u64 = if magnitude >= 0 {
            magnitude as u64
        } else {
            (-(magnitude as i64)) as u64
        };
        assert(mag <= 32768);
        proof {
            lemma_mul_le(mag as int, max_force as int, 32768, 0xFFFF_FFFF);
            if magnitude >= 0 {
                assert(magnitude * max_force == (mag * max_force) as int) by (nonlinear_arith)
                    requires
                        mag == magnitude,
                ;
            } else {
                assert(magnitude * max_force == -((mag * max_force) as int)) by (nonlinear_arith)
                    requires
                        mag == -(magnitude as int),
                ;
            }
        }
        let scaled = mag * (max_force as u64) / 25000;
        let clamped: u64 = if scaled > 32767 {
            32767
        } else {
            scaled
        };
        if magnitude >= 0 {
            clamped as i16
        } else {
            -(clamped as i16)
        }
    }
}

proof fn lemma_mul_le(a: int, b: int, amax: int, bmax: int)
    by (nonlinear_arith)
    requires
        0 <= a <= amax,
        0 <= b <= bmax,
    ensures
        a * b <= amax * bmax,
{
}

} // verus!

verus! {

impl FfbEngine {
    /// One IFORCE constant-force command for a constant effect.
    fn translate_constant_effect(&self, effect_id: u8, effect: &ConstantEffect) -> (r: Result<
        Vec<IforceCommand>,
    >)
        requires
            self.config.wf(),
        ensures
            r matches Result::Ok(cmds) && cmds@.len() == 1 && cmds@[0].command_id == 0x41
                && cmds@[0].data@ == iforce_data_spec(
                FfbEffect { id: effect_id, effect_type: EffectType::Constant(*effect), gain: 255 },
                self.config,
            ),
    {
        let magnitude = self.apply_gain(effect.magnitude, self.config.constant_gain);
        let scaled_magnitude = self.scale_magnitude(magnitude);
        let bits = i16_bits(scaled_magnitude);

        let cmd = IforceCommand {
            command_id: 0x41,
            data: vec![
                effect_id,
                lo_byte(bits),
                hi_byte(bits),
                lo_byte(effect.duration),
                hi_byte(effect.duration),
            ],
        };
        proof {
            assert(cmd.data@ =~= iforce_data_spec(
                FfbEffect { id: effect_id, effect_type: EffectType::Constant(*effect), gain: 255 },
                self.config,
            ));
        }
        Ok(vec![cmd])
    }

    /// One IFORCE periodic-effect command for a periodic effect.
    fn translate_periodic_effect(&self, effect_id: u8, effect: &PeriodicEffect) -> (r: Result<
        Vec<IforceCommand>,
    >)
        requires
            self.config.wf(),
        ensures
            r matches Result::Ok(cmds) && cmds@.len() == 1 && cmds@[0].command_id == 0x42
                && cmds@[0].data@ == iforce_data_spec(
                FfbEffect { id: effect_id, effect_type: EffectType::Periodic(*effect), gain: 255 },
                self.config,
            ),
    {
        #[verifier::truncate]
        let signed_magnitude = effect.magnitude as i16;
        let magnitude = self.apply_gain(signed_magnitude, self.config.periodic_gain);
        let scaled_magnitude = self.scale_magnitude(magnitude);
        let bits = i16_bits(scaled_magnitude);

        let waveform_id: u8 = match effect.waveform {
            Waveform::Sine => 0x01,
            Waveform::Square => 0x02,
            Waveform::Triangle => 0x03,
            Waveform::SawtoothUp => 0x04,
            Waveform::SawtoothDown => 0x05,
        };

        let cmd = IforceCommand {
            command_id: 0x42,
            data: vec![
                effect_id,
                waveform_id,
                lo_byte(bits),
                hi_byte(bits),
                lo_byte(effect.period),
                hi_byte(effect.period),
                lo_byte(effect.phase),
                hi_byte(effect.phase),
            ],
        };
        proof {
            assert(cmd.data@ =~= iforce_data_spec(
                FfbEffect { id: effect_id, effect_type: EffectType::Periodic(*effect), gain: 255 },
                self.config,
            ));
        }
        Ok(vec![cmd])
    }

    /// One IFORCE condition-effect command for a condition effect. The
    /// coefficients pass through with gain applied; no force-limit
    /// rescale.
    fn translate_condition_effect(&self, effect_id: u8, effect: &ConditionEffect) -> (r: Result<
        Vec<IforceCommand>,
    >)
        requires
            self.config.wf(),
        ensures
            r matches Result::Ok(cmds) && cmds@.len() == 1 && cmds@[0].command_id == 0x43
                && cmds@[0].data@ == iforce_data_spec(
                FfbEffect {
                    id: effect_id,
                    effect_type: EffectType::Condition(*effect),
                    gain: 255,
                },
                self.config,
            ),
    {
        let gain = match effect.condition_type {
            ConditionType::Spring => self.config.spring_gain,
            ConditionType::Damper => self.config.damper_gain,
            ConditionType::Inertia => UNIT,
            ConditionType::Friction => self.config.friction_gain,
        };

        let pos_coeff = self.apply_gain(effect.positive_coefficient, gain);
        let neg_coeff = self.apply_gain(effect.negative_coefficient, gain);
        let pos_bits = i16_bits(pos_coeff);
        let neg_bits = i16_bits(neg_coeff);

        let condition_id: u8 = match effect.condition_type {
            ConditionType::Spring => 0x01,
            ConditionType::Damper => 0x02,
            ConditionType::Inertia => 0x03,
            ConditionType::Friction => 0x04,
        };

        let cmd = IforceCommand {
            command_id: 0x43,
            data: vec![
                effect_id,
                condition_id,
                lo_byte(pos_bits),
                hi_byte(pos_bits),
                lo_byte(neg_bits),
                hi_byte(neg_bits),
            ],
        };
        proof {
            assert(cmd.data@ =~= iforce_data_spec(
                FfbEffect {
                    id: effect_id,
                    effect_type: EffectType::Condition(*effect),
                    gain: 255,
                },
                self.config,
            ));
        }
        Ok(vec![cmd])
    }

    /// One IFORCE ramp-effect command for a ramp effect. The two
    /// magnitudes take the ramp gain; no force-limit rescale.
    fn translate_ramp_effect(&self, effect_id: u8, effect: &RampEffect) -> (r: Result<
        Vec<IforceCommand>,
    >)
        requires
            self.config.wf(),
        ensures
            r matches Result::Ok(cmds) && cmds@.len() == 1 && cmds@[0].command_id == 0x44
                && cmds@[0].data@ == iforce_data_spec(
                FfbEffect { id: effect_id, effect_type: EffectType::Ramp(*effect), gain: 255 },
                self.config,
            ),
    {
        let start_magnitude = self.apply_gain(effect.start_magnitude, self.config.ramp_gain);
        let end_magnitude = self.apply_gain(effect.end_magnitude, self.config.ramp_gain);
        let start_bits = i16_bits(start_magnitude);
        let end_bits = i16_bits(end_magnitude);

        let cmd = IforceCommand {
            command_id: 0x44,
            data: vec![
                effect_id,
                lo_byte(start_bits),
                hi_byte(start_bits),
                lo_byte(end_bits),
                hi_byte(end_bits),
                lo_byte(effect.duration),
                hi_byte(effect.duration),
            ],
        };
        proof {
            assert(cmd.data@ =~= iforce_data_spec(
                FfbEffect { id: effect_id, effect_type: EffectType::Ramp(*effect), gain: 255 },
                self.config,
            ));
        }
        Ok(vec![cmd])
    }

    /// Translate one parsed effect descriptor into IFORCE commands.
    /// When FFB is disabled nothing is stored and nothing is emitted;
    /// otherwise the effect is inserted into (or refreshes) its slot of
    /// the active-effect table and exactly one command per the IFORCE
    /// tables is returned.
    pub fn translate_effect(&mut self, effect: FfbEffect, now_ms: u64) -> (r: Result<
        Vec<IforceCommand>,
    >)
        requires
            old(self).wf(),
            1 <= effect.id <= 40,
        ensures
            final(self).wf(),
            final(self).config == old(self).config,
            final(self).last_update_ms == old(self).last_update_ms,
            !old(self).config.enabled ==> final(self).active_effects@ == old(
                self,
            ).active_effects@ && (r matches Result::Ok(cmds) && cmds@.len() == 0),
            old(self).config.enabled ==> final(self).active_effects@ == old(
                self,
            ).active_effects@.update(
                effect.id as int,
                Some(ActiveEffect { effect, start_ms: now_ms, enabled: true }),
            ) && (r matches Result::Ok(cmds) && cmds@.len() == 1 && cmds@[0].command_id
                == iforce_command_id_spec(effect.effect_type) && cmds@[0].data@
                == iforce_data_spec(effect, old(self).config)),
    {
        if !self.config.enabled {
            return Ok(Vec::new());
        }

        let active_effect = ActiveEffect { effect, start_ms: now_ms, enabled: true };
        self.active_effects.set(effect.id as usize, Some(active_effect));

        match &effect.effect_type {
            EffectType::Constant(constant) => self.translate_constant_effect(effect.id, constant),
            EffectType::Periodic(periodic) => self.translate_periodic_effect(effect.id, periodic),
            EffectType::Condition(condition) => self.translate_condition_effect(
                effect.id,
                condition,
            ),
            EffectType::Ramp(ramp) => self.translate_ramp_effect(effect.id, ramp),
        }
    }

    /// Phase refresh for a surviving periodic effect. Dynamic phase
    /// updates are a best-effort enhancement that this engine does not
    /// emit, so no command is ever produced.
    pub fn update_periodic_effect(&self, effect_id: u8, effect: &PeriodicEffect, now_ms: u64) -> (r:
        Result<Option<IforceCommand>>)
        ensures
            r matches Result::Ok(cmd) && cmd is None,
    {
        Ok(None)
    }

    /// The periodic housekeeping pass, rate-limited to the configured
    /// update frequency: before the update interval has elapsed it does
    /// nothing; at or past it, expired constant effects are swept from
    /// the table and the update clock restarts at `now_ms`. No refresh
    /// commands are emitted by this engine.
    pub fn update_active_effects(&mut self, now_ms: u64) -> (r: Result<Vec<IforceCommand>>)
        requires
            old(self).wf(),
        ensures
            final(self).wf(),
            final(self).config == old(self).config,
            r matches Result::Ok(cmds) && cmds@.len() == 0,
            elapsed_ms_spec(now_ms, old(self).last_update_ms) < update_interval_spec(
                old(self).config,
            ) ==> final(self).active_effects@ == old(self).active_effects@
                && final(self).last_update_ms == old(self).last_update_ms,
            elapsed_ms_spec(now_ms, old(self).last_update_ms) >= update_interval_spec(
                old(self).config,
            ) ==> final(self).last_update_ms == now_ms && final(self).active_effects@.len() == 41
                && forall|i: int|
                0 <= i < 41 ==> final(self).active_effects@[i] == retained_effect_spec(
                    old(self).active_effects@[i],
                    now_ms,
                ),
    {
        let interval_ms = (1000 / self.config.update_rate_hz) as u64;
        let elapsed: u64 = if now_ms >= self.last_update_ms {
            now_ms - self.last_update_ms
        } else {
            0
        };
        if elapsed < interval_ms {
            return Ok(Vec::new());
        }

        let commands: Vec<IforceCommand> = Vec::new();

        // Expiry sweep over the fixed-size table.
        let ghost initial = self.active_effects@;
        let mut i: usize = 0;
        while i < 41
            invariant
                self.config == old(self).config,
                self.last_update_ms == old(self).last_update_ms,
                self.active_effects@.len() == 41,
                initial == old(self).active_effects@,
                i <= 41,
                forall|k: int|
                    0 <= k < i as int ==> self.active_effects@[k] == retained_effect_spec(
                        initial[k],
                        now_ms,
                    ),
                forall|k: int| i as int <= k < 41 ==> self.active_effects@[k] == initial[k],
            decreases 41 - i,
        {
            let keep: bool = match &self.active_effects[i] {
                None => true,
                Some(active) => match &active.effect.effect_type {
                    EffectType::Constant(constant) => {
                        if constant.duration > 0 {
                            let effect_elapsed: u64 = if now_ms >= active.start_ms {
                                now_ms - active.start_ms
                            } else {
                                0
                            };
                            effect_elapsed < constant.duration as u64
                        } else {
                            true
                        }
                    }
                    _ => true,
                },
            };
            if !keep {
                self.active_effects.set(i, None);
            }
            i = i + 1;
        }

        self.last_update_ms = now_ms;
        Ok(commands)
    }
}

} // verus!
