//! Protocol translation between the Thrustmaster and G29 dialects:
//! the input pipeline (steering deadzone and rescale, pedal curves,
//! button remap, D-pad encoding) and the PID output-report parser.

use vstd::prelude::*;
use vstd::string::StringExecFns;
use vstd::arithmetic::div_mod::{
    lemma_div_is_ordered, lemma_div_pos_is_pos, lemma_fundamental_div_mod,
};
use vstd::arithmetic::mul::lemma_mul_inequality;

use crate::config::{CurveType, InputConfig, OutputConfig};
use crate::device::{G29InputReport, G29OutputReport, ThrustmasterInputReport};
use crate::error::{Result, TranslatorError};
use crate::ffb::{
    ConditionEffect, ConditionType, ConstantEffect, EffectType, FfbEffect, PeriodicEffect,
    Waveform,
};
use crate::{
    clamp_spec, le16, le16_spec, le_i16, le_i16_spec, round_div_spec, UNIT,
};

verus! {

/// Magnitude of a raw steering value.
pub open spec fn abs_i16(r: i16) -> int {
    if r >= 0 {
        r as int
    } else {
        -(r as int)
    }
}

/// The G29 steering value produced for a raw reading: normalise over
/// 32767, zero inside the deadzone, rescale the remainder so full
/// deflection stays full, apply the multiplier, recentre at 0x8000 and
/// saturate to 16 bits. A deadzone of one collapses every input to
/// centre.
pub open spec fn steering_spec(raw: i16, deadzone: u32, multiplier: u32) -> int {
    let a = abs_i16(raw);
    if deadzone >= UNIT {
        0x8000
    } else if a * (UNIT as int) < (deadzone as int) * 32767 {
        0x8000
    } else {
        let mag = round_div_spec(
            (a * (UNIT as int) - (deadzone as int) * 32767) * (multiplier as int),
            ((UNIT - deadzone) as int) * (UNIT as int),
        );
        if raw >= 0 {
            clamp_spec(mag + 0x8000, 0, 0xFFFF)
        } else {
            clamp_spec(0x8000 - mag, 0, 0xFFFF)
        }
    }
}

/// The 10-bit pedal value produced for a raw reading under a curve.
pub open spec fn pedal_spec(raw: u8, curve: CurveType) -> int {
    match curve {
        CurveType::Linear => round_div_spec(raw * 1023, 255),
        CurveType::Squared => round_div_spec(raw * raw * 1023, (255 * 255) as int),
        CurveType::Cubed => round_div_spec(raw * raw * raw * 1023, (255 * 255 * 255) as int),
        CurveType::Custom(table) => custom_curve_spec(raw, table@),
    }
}

/// Piecewise-linear interpolation over a table of fixed-point output
/// fractions, indexed by `raw / 255` of the table span, with the right
/// endpoint held beyond the table.
pub open spec fn custom_curve_spec(raw: u8, table: Seq<u16>) -> int
    recommends
        table.len() >= 1,
{
    let n = table.len() as int;
    let idx = (raw * (n - 1)) / 255;
    if idx >= n - 1 {
        round_div_spec(table[n - 1] * 1023, UNIT as int)
    } else {
        let fnum = raw * (n - 1) - idx * 255;
        let interp = table[idx] * (255 - fnum) + table[idx + 1] * fnum;
        round_div_spec(interp * 1023, 255 * (UNIT as int))
    }
}

/// The virtual bit contributed by one map entry: the entry's virtual
/// bit when its physical bit is set in the incoming bitfield.
pub open spec fn button_mask(pair: (u8, u8), buttons: u16) -> u32 {
    if buttons & (1u16 << (pair.0 as u16)) != 0 {
        1u32 << (pair.1 as u32)
    } else {
        0u32
    }
}

/// The remapped 24-bit button field: the OR of the masks of all map
/// entries whose physical bit is set.
pub open spec fn mapped_buttons_spec(map: Seq<(u8, u8)>, buttons: u16) -> u32
    decreases map.len(),
{
    if map.len() == 0 {
        0u32
    } else {
        mapped_buttons_spec(map.drop_last(), buttons) | button_mask(map.last(), buttons)
    }
}

/// The full G29 button field: the D-pad value, clamped to centre (8)
/// when out of range, in the top byte above the 24 mapped buttons.
pub open spec fn include_dpad_spec(buttons: u32, dpad: u8) -> u32 {
    let d: u8 = if dpad < 8 {
        dpad
    } else {
        8u8
    };
    buttons | ((d as u32) << 24)
}

proof fn lemma_u32_or_zero(x: u32)
    by (bit_vector)
    ensures
        x | 0 == x,
        0 | x == x,
        x & 0 == 0,
        0u32 & x == 0,
{
}

proof fn lemma_u32_or_bit(x: u32, y: u32, m: u32)
    by (bit_vector)
    ensures
        ((x | y) & m != 0) == (x & m != 0 || y & m != 0),
{
}

proof fn lemma_u32_shift_eq(v: u32, b: u32)
    by (bit_vector)
    requires
        v < 32,
        b < 32,
    ensures
        ((1u32 << v) & (1u32 << b) != 0) == (v == b),
{
}

proof fn lemma_u32_shift_lt(v: u32)
    by (bit_vector)
    requires
        v < 24,
    ensures
        1u32 << v < 0x1000000,
        1u32 << v != 0,
{
}

proof fn lemma_u32_or_lt(x: u32, y: u32)
    by (bit_vector)
    requires
        x < 0x1000000,
        y < 0x1000000,
    ensures
        (x | y) < 0x1000000,
{
}

proof fn lemma_dpad_bits(buttons: u32, d: u32)
    by (bit_vector)
    requires
        buttons < 0x1000000,
        d <= 8,
    ensures
        (buttons | (d << 24)) & 0xFFFFFF == buttons,
        (buttons | (d << 24)) >> 24 == d,
{
}

/// The mapped button field stays below the D-pad byte: with every
/// virtual bit under 24, no bit at or above bit 24 is ever produced.
pub proof fn lemma_mapped_buttons_bounded(map: Seq<(u8, u8)>, buttons: u16)
    requires
        forall|i: int| 0 <= i < map.len() ==> (#[trigger] map[i]).1 < 24,
    ensures
        mapped_buttons_spec(map, buttons) < 0x1000000,
    decreases map.len(),
{
    if map.len() == 0 {
    } else {
        lemma_mapped_buttons_bounded(map.drop_last(), buttons);
        let rest = mapped_buttons_spec(map.drop_last(), buttons);
        let mask = button_mask(map.last(), buttons);
        assert(map[map.len() - 1].1 < 24);
        if buttons & (1u16 << (map.last().0 as u16)) != 0 {
            lemma_u32_shift_lt(map.last().1 as u32);
        } else {
            assert(mask == 0);
        }
        lemma_u32_or_lt(rest, mask);
    }
}

/// Button-map round trip: a set physical bit whose entry is in the map
/// sets the corresponding virtual bit, and every set virtual bit comes
/// from some map entry whose physical bit is set — no unmapped virtual
/// bits appear.
pub proof fn lemma_button_map_round_trip(map: Seq<(u8, u8)>, buttons: u16)
    requires
        forall|i: int|
            0 <= i < map.len() ==> (#[trigger] map[i]).0 < 16 && (#[trigger] map[i]).1 < 24,
    ensures
        forall|i: int|
            0 <= i < map.len() && buttons & (1u16 << ((#[trigger] map[i]).0 as u16)) != 0
                ==> mapped_buttons_spec(map, buttons) & (1u32 << (map[i].1 as u32)) != 0,
        forall|b: u32|
            b < 32 && #[trigger] (mapped_buttons_spec(map, buttons) & (1u32 << b)) != 0
                ==> exists|i: int|
                0 <= i < map.len() && (#[trigger] map[i]).1 == b && buttons & (1u16 << (
                map[i].0 as u16)) != 0,
    decreases map.len(),
{
    let mapped = mapped_buttons_spec(map, buttons);
    if map.len() == 0 {
        assert forall|b: u32| b < 32 implies #[trigger] (mapped & (1u32 << b)) == 0 by {
            lemma_u32_or_zero(1u32 << b);
        }
    } else {
        let prefix = map.drop_last();
        let last = map.last();
        let rest = mapped_buttons_spec(prefix, buttons);
        let mask = button_mask(last, buttons);
        lemma_button_map_round_trip(prefix, buttons);

        assert forall|i: int|
            0 <= i < map.len() && buttons & (1u16 << ((#[trigger] map[i]).0 as u16))
                != 0 implies mapped & (1u32 << (map[i].1 as u32)) != 0 by {
            if i < map.len() - 1 {
                assert(prefix[i] == map[i]);
                lemma_u32_or_bit(rest, mask, 1u32 << (map[i].1 as u32));
            } else {
                assert(map[i] == last);
                lemma_u32_shift_eq(last.1 as u32, last.1 as u32);
                lemma_u32_or_bit(rest, mask, 1u32 << (last.1 as u32));
            }
        }

        assert forall|b: u32| b < 32 && #[trigger] (mapped & (1u32 << b)) != 0 implies exists|
            i: int,
        |
            0 <= i < map.len() && (#[trigger] map[i]).1 == b && buttons & (1u16 << (
            map[i].0 as u16)) != 0 by {
            lemma_u32_or_bit(rest, mask, 1u32 << b);
            if rest & (1u32 << b) != 0 {
                let i = choose|i: int|
                    0 <= i < prefix.len() && (#[trigger] prefix[i]).1 == b && buttons & (1u16 << (
                    prefix[i].0 as u16)) != 0;
                assert(map[i] == prefix[i]);
                assert(map[i].1 == b && buttons & (1u16 << (map[i].0 as u16)) != 0);
            } else {
                assert(mask & (1u32 << b) != 0);
                lemma_u32_or_zero(1u32 << b);
                assert(buttons & (1u16 << (last.0 as u16)) != 0);
                lemma_u32_shift_eq(last.1 as u32, b);
                let i = map.len() - 1;
                assert(map[i].1 == b && buttons & (1u16 << (map[i].0 as u16)) != 0);
            }
        }
    }
}

/// For every raw steering value, any deadzone below one and any
/// multiplier, the translated steering lies in the 16-bit range and is
/// exactly centre whenever the normalised input is inside the deadzone.
pub proof fn lemma_steering_translation(raw: i16, deadzone: u32, multiplier: u32)
    requires
        deadzone < UNIT,
    ensures
        0 <= steering_spec(raw, deadzone, multiplier) <= 0xFFFF,
        abs_i16(raw) * (UNIT as int) < (deadzone as int) * 32767 ==> steering_spec(
            raw,
            deadzone,
            multiplier,
        ) == 0x8000,
{
}

/// Under the three analytic curves the pedal output is monotone
/// non-decreasing in the raw input.
pub proof fn lemma_pedal_curve_monotone(r1: u8, r2: u8, curve: CurveType)
    requires
        r1 <= r2,
        curve is Linear || curve is Squared || curve is Cubed,
    ensures
        pedal_spec(r1, curve) <= pedal_spec(r2, curve),
{
    assert(r1 * r1 <= r2 * r2 && r1 * r1 * r1 <= r2 * r2 * r2) by (nonlinear_arith)
        requires
            0 <= r1 <= r2,
    ;
    match curve {
        CurveType::Linear => {
            lemma_div_is_ordered(2 * (r1 * 1023) + 255, 2 * (r2 * 1023) + 255, (2 * 255) as int);
        }
        CurveType::Squared => {
            lemma_div_is_ordered(
                2 * (r1 * r1 * 1023) + 255 * 255,
                2 * (r2 * r2 * 1023) + 255 * 255,
                (2 * (255 * 255)) as int,
            );
        }
        CurveType::Cubed => {
            lemma_div_is_ordered(
                2 * (r1 * r1 * r1 * 1023) + 255 * 255 * 255,
                2 * (r2 * r2 * r2 * 1023) + 255 * 255 * 255,
                (2 * (255 * 255 * 255)) as int,
            );
        }
        _ => {}
    }
}

/// Under the three analytic curves a released pedal maps to zero and a
/// fully pressed pedal to full scale.
pub proof fn lemma_pedal_curve_endpoints(curve: CurveType)
    requires
        curve is Linear || curve is Squared || curve is Cubed,
    ensures
        pedal_spec(0, curve) == 0,
        pedal_spec(255, curve) == 1023,
{
    lemma_round_div_consts();
}

proof fn lemma_round_div_consts()
    ensures
        round_div_spec(0, 255) == 0,
        round_div_spec(255int * 1023, 255) == 1023,
        round_div_spec(0, 255int * 255) == 0,
        round_div_spec(255int * 255 * 1023, 255int * 255) == 1023,
        round_div_spec(0, 255int * 255 * 255) == 0,
        round_div_spec(255int * 255 * 255 * 1023, 255int * 255 * 255) == 1023,
{
    assert(255int / 510 == 0);
    assert(65025int / 130050 == 0);
    assert(16581375int / 33162750 == 0);
    assert(521985int / 510 == 1023);
    assert(133106175int / 130050 == 1023);
    assert(33942074625int / 33162750 == 1023);
}

proof fn lemma_mul_le(a: int, b: int, amax: int, bmax: int)
    by (nonlinear_arith)
    requires
        0 <= a <= amax,
        0 <= b <= bmax,
    ensures
        a * b <= amax * bmax,
{
}

proof fn lemma_interp_bound(lo: int, hi: int, f: int)
    by (nonlinear_arith)
    requires
        0 <= lo <= 10000,
        0 <= hi <= 10000,
        0 <= f < 255,
    ensures
        0 <= lo * (255 - f) + hi * f <= 2550000,
{
}

/// Translates Thrustmaster input reports into G29 input reports. The
/// transformation itself is stateless; the last produced steering value
/// is retained for diagnostics only.
pub struct InputTranslator {
    pub config: InputConfig,
    pub last_steering: u16,
}

impl InputTranslator {
    /// A translator over the given input configuration.
    pub fn new(config: InputConfig) -> (t: Self)
        ensures
            t.config == config,
            t.last_steering == 0,
    {
        InputTranslator { config, last_steering: 0 }
    }

    /// Apply deadzone, rescale and multiplier to a raw steering value
    /// and recentre it for the G29. The result is centre (0x8000)
    /// whenever the input is inside the deadzone, and saturates at the
    /// 16-bit range ends.
    pub fn process_steering(&mut self, raw_steering: i16) -> (result: u16)
        requires
            old(self).config.wf(),
        ensures
            result == steering_spec(
                raw_steering,
                old(self).config.steering_deadzone,
                old(self).config.axis_scaling.steering_multiplier,
            ),
            final(self).config == old(self).config,
            final(self).last_steering == result,
    {
        let deadzone = self.config.steering_deadzone;
        let multiplier = self.config.axis_scaling.steering_multiplier;
        let a: u64 = if raw_steering >= 0 {
            raw_steering as u64
        } else {
            (-(raw_steering as i64)) as u64
        };

        assert(a <= 32768);
        let result: u16;
        if deadzone >= UNIT {
            result = 0x8000;
        } else {
            proof {
                lemma_mul_le(a as int, UNIT as int, 32768, 10000);
            }
            let scaled_a = a * (UNIT as u64);
            let dz_edge = (deadzone as u64) * 32767;
            if scaled_a < dz_edge {
                result = 0x8000;
            } else {
                proof {
                    lemma_mul_le(
                        scaled_a - dz_edge,
                        multiplier as int,
                        327680000,
                        0xFFFF_FFFF,
                    );
                }
                let num = (scaled_a - dz_edge) * (multiplier as u64);
                proof {
                    lemma_mul_le((UNIT - deadzone) as int, UNIT as int, 10000, 10000);
                    assert(((UNIT - deadzone) as int) * (UNIT as int) >= 10000)
                        by (nonlinear_arith)
                        requires
                            deadzone < UNIT,
                            UNIT == 10000,
                    ;
                }
                let den = ((UNIT - deadzone) as u64) * (UNIT as u64);
                let mag = (2 * num + den) / (2 * den);
                if raw_steering >= 0 {
                    if mag >= 32767 {
                        result = 0xFFFF;
                    } else {
                        result = mag as u16 + 0x8000;
                    }
                } else {
                    if mag >= 32768 {
                        result = 0;
                    } else {
                        result = 0x8000 - mag as u16;
                    }
                }
            }
        }
        self.last_steering = result;
        result
    }

    /// Shape one raw pedal reading with the given curve and scale it to
    /// the G29's 10-bit pedal range.
    pub fn apply_pedal_curve(&self, raw_value: u8, curve: &CurveType) -> (out: u32)
        requires
            curve.wf(),
        ensures
            out == pedal_spec(raw_value, *curve),
            out <= 1023,
    {
        match curve {
            CurveType::Linear => {
                let n = (raw_value as u64) * 1023;
                proof {
                    lemma_div_is_ordered(2 * n + 255, 2int * 255 * 1023 + 255, 510);
                }
                ((2 * n + 255) / 510) as u32
            }
            CurveType::Squared => {
                let r = raw_value as u64;
                proof {
                    lemma_mul_le(r as int, r as int, 255, 255);
                }
                let n = r * r * 1023;
                proof {
                    lemma_div_is_ordered(2 * n + 65025, 2int * 65025 * 1023 + 65025, 130050);
                }
                ((2 * n + 65025) / 130050) as u32
            }
            CurveType::Cubed => {
                let r = raw_value as u64;
                proof {
                    lemma_mul_le(r as int, r as int, 255, 255);
                    lemma_mul_le((r * r) as int, r as int, 65025, 255);
                }
                let n = r * r * r * 1023;
                proof {
                    lemma_div_is_ordered(
                        2 * n + 16581375,
                        2int * 16581375 * 1023 + 16581375,
                        33162750,
                    );
                }
                ((2 * n + 16581375) / 33162750) as u32
            }
            CurveType::Custom(table) => {
                let n = table.len();
                proof {
                    lemma_mul_le(raw_value as int, n - 1, 255, usize::MAX as int);
                }
                let prod: u128 = (raw_value as u128) * ((n - 1) as u128);
                proof {
                    assert(raw_value * (n - 1) <= 255 * (n - 1)) by (nonlinear_arith)
                        requires
                            raw_value <= 255,
                            n >= 1,
                    ;
                    lemma_div_is_ordered(prod as int, 255 * (n - 1), 255);
                    assert((255 * (n - 1)) / 255 == n - 1) by (nonlinear_arith)
                        requires
                            n >= 1,
                    ;
                }
                let idx = (prod / 255) as usize;
                if idx >= n - 1 {
                    assert(table@[n - 1] <= UNIT as u16);
                    let t = (table[n - 1] as u64) * 1023;
                    proof {
                        lemma_div_is_ordered(
                            2 * t + (UNIT as int),
                            2 * (UNIT as int) * 1023 + (UNIT as int),
                            2 * (UNIT as int),
                        );
                    }
                    ((2 * t + (UNIT as u64)) / (2 * (UNIT as u64))) as u32
                } else {
                    proof {
                        lemma_fundamental_div_mod(prod as int, 255);
                    }
                    let fnum = (prod % 255) as u64;
                    assert(fnum < 255);
                    assert(table@[idx as int] <= UNIT as u16 && table@[idx + 1] <= UNIT as u16);
                    proof {
                        lemma_interp_bound(
                            table@[idx as int] as int,
                            table@[idx + 1] as int,
                            fnum as int,
                        );
                    }
                    let interp = (table[idx] as u64) * (255 - fnum) + (table[idx + 1] as u64)
                        * fnum;
                    let t = interp * 1023;
                    proof {
                        lemma_div_is_ordered(
                            2 * t + 2550000,
                            2int * 2550000 * 1023 + 2550000,
                            5100000,
                        );
                    }
                    ((2 * t + 2550000) / 5100000) as u32
                }
            }
        }
    }

    /// Remap the 16-bit physical button field onto the 24 virtual G29
    /// buttons: unmapped physical bits are dropped, unmapped virtual
    /// bits stay clear.
    pub fn map_buttons(&self, buttons: u16) -> (mapped: u32)
        requires
            self.config.wf(),
        ensures
            mapped == mapped_buttons_spec(self.config.button_mapping@, buttons),
            mapped < 0x1000000,
    {
        let map = &self.config.button_mapping;
        let mut mapped: u32 = 0;
        let mut i: usize = 0;
        while i < map.len()
            invariant
                self.config.wf(),
                map == &self.config.button_mapping,
                i <= map@.len(),
                mapped == mapped_buttons_spec(map@.take(i as int), buttons),
                mapped < 0x1000000,
            decreases map@.len() - i,
        {
            let (p, v) = map[i];
            let ghost prev = mapped;
            if buttons & (1u16 << (p as u16)) != 0 {
                mapped = mapped | (1u32 << (v as u32));
                proof {
                    lemma_u32_shift_lt(v as u32);
                    lemma_u32_or_lt(prev, 1u32 << (v as u32));
                }
            } else {
                proof {
                    lemma_u32_or_zero(prev);
                }
            }
            proof {
                assert(map@.take(i + 1 as int).drop_last() =~= map@.take(i as int));
                assert(map@.take(i + 1 as int).last() == map@[i as int]);
                assert(mapped == prev | button_mask(map@[i as int], buttons));
            }
            i = i + 1;
        }
        proof {
            assert(map@.take(map@.len() as int) =~= map@);
        }
        mapped
    }

    /// Fold the D-pad value (clamped to centre when out of range) into
    /// the top byte of the button field.
    pub fn include_dpad(&self, buttons: u32, dpad: u8) -> (r: u32)
        requires
            buttons < 0x1000000,
        ensures
            r == include_dpad_spec(buttons, dpad),
            r & 0xFFFFFF == buttons,
    {
        let dpad_value: u8 = if dpad < 8 {
            dpad
        } else {
            8
        };
        proof {
            lemma_dpad_bits(buttons, dpad_value as u32);
        }
        buttons | ((dpad_value as u32) << 24)
    }

    /// Translate one Thrustmaster input report into a G29 input report.
    /// Every invocation produces a report; there are no errors.
    pub fn translate(&mut self, input: ThrustmasterInputReport) -> (report: G29InputReport)
        requires
            old(self).config.wf(),
        ensures
            report.report_id == 0x01,
            report.steering == steering_spec(
                input.steering,
                old(self).config.steering_deadzone,
                old(self).config.axis_scaling.steering_multiplier,
            ),
            report.throttle == pedal_spec(
                input.throttle,
                old(self).config.pedal_curves.throttle_curve,
            ),
            report.brake == pedal_spec(input.brake, old(self).config.pedal_curves.brake_curve),
            report.clutch == pedal_spec(input.clutch, old(self).config.pedal_curves.clutch_curve),
            report.buttons == include_dpad_spec(
                mapped_buttons_spec(old(self).config.button_mapping@, input.buttons),
                input.dpad,
            ),
            report.unused@ =~= seq![0u8, 0u8, 0u8, 0u8],
            final(self).config == old(self).config,
            final(self).last_steering == report.steering,
    {
        let steering = self.process_steering(input.steering);

        let throttle = self.apply_pedal_curve(
            input.throttle,
            &self.config.pedal_curves.throttle_curve,
        );
        let brake = self.apply_pedal_curve(input.brake, &self.config.pedal_curves.brake_curve);
        let clutch = self.apply_pedal_curve(input.clutch, &self.config.pedal_curves.clutch_curve);

        let buttons = self.map_buttons(input.buttons);
        let buttons_with_dpad = self.include_dpad(buttons, input.dpad);

        G29InputReport {
            report_id: 0x01,
            steering,
            throttle: throttle as u16,
            brake: brake as u16,
            clutch: clutch as u16,
            buttons: buttons_with_dpad,
            unused: [0; 4],
        }
    }
}

} // verus!

verus! {

/// Minimum number of parameter bytes, after the type code and its
/// reserved byte, that an accepted effect type needs.
pub open spec fn effect_param_min_len(effect_type: u8) -> int {
    if effect_type == 0x01 {
        4
    } else if 0x03 <= effect_type && effect_type <= 0x07 {
        6
    } else if 0x08 <= effect_type && effect_type <= 0x0B {
        4
    } else {
        0
    }
}

/// Whether a PID effect type code has a descriptor in this dialect.
/// Ramp effects exist in the engine's vocabulary but have no wire-level
/// code here.
pub open spec fn known_effect_type(effect_type: u8) -> bool {
    effect_type == 0x01 || (0x03 <= effect_type && effect_type <= 0x07) || (0x08 <= effect_type
        && effect_type <= 0x0B)
}

/// The waveform encoded by a periodic effect type code.
pub open spec fn waveform_of_code(effect_type: u8) -> Waveform {
    if effect_type == 0x03 {
        Waveform::Square
    } else if effect_type == 0x04 {
        Waveform::Sine
    } else if effect_type == 0x05 {
        Waveform::Triangle
    } else if effect_type == 0x06 {
        Waveform::SawtoothUp
    } else {
        Waveform::SawtoothDown
    }
}

/// The condition kind encoded by a condition effect type code.
pub open spec fn condition_of_code(effect_type: u8) -> ConditionType {
    if effect_type == 0x08 {
        ConditionType::Spring
    } else if effect_type == 0x09 {
        ConditionType::Damper
    } else if effect_type == 0x0A {
        ConditionType::Inertia
    } else {
        ConditionType::Friction
    }
}

/// Whether an output report passes the accept filter: report id 0x01
/// and an effect block index in 1 to 40 as its first payload byte.
pub open spec fn report_accepted(report_id: u8, data: Seq<u8>) -> bool {
    report_id == 0x01 && data.len() >= 1 && 1 <= data[0] <= 40
}

/// The descriptor carried by an accepted, well-sized payload:
/// `[index, type code, reserved, parameters...]` with all parameters
/// little-endian.
pub open spec fn effect_from_report(data: Seq<u8>) -> FfbEffect
    recommends
        data.len() >= 2,
        known_effect_type(data[1]),
        data.len() >= 3 + effect_param_min_len(data[1]),
{
    let id = data[0];
    let t = data[1];
    if t == 0x01 {
        FfbEffect {
            id,
            effect_type: EffectType::Constant(
                ConstantEffect {
                    magnitude: le_i16_spec(data[3], data[4]),
                    duration: le16_spec(data[5], data[6]),
                },
            ),
            gain: 255,
        }
    } else if 0x03 <= t && t <= 0x07 {
        FfbEffect {
            id,
            effect_type: EffectType::Periodic(
                PeriodicEffect {
                    magnitude: le16_spec(data[3], data[4]),
                    period: le16_spec(data[5], data[6]),
                    phase: le16_spec(data[7], data[8]),
                    waveform: waveform_of_code(t),
                },
            ),
            gain: 255,
        }
    } else {
        FfbEffect {
            id,
            effect_type: EffectType::Condition(
                ConditionEffect {
                    positive_coefficient: le_i16_spec(data[3], data[4]),
                    negative_coefficient: le_i16_spec(data[5], data[6]),
                    condition_type: condition_of_code(t),
                },
            ),
            gain: 255,
        }
    }
}

/// Parses PID output reports into FFB effect descriptors.
pub struct OutputTranslator {
    pub config: OutputConfig,
}

impl OutputTranslator {
    /// A parser over the given output configuration.
    pub fn new(config: OutputConfig) -> (t: Self)
        ensures
            t.config == config,
    {
        OutputTranslator { config }
    }

    /// Parse a G29 output report and extract the FFB effect if one is
    /// present. Reports that are not PID effect reports give `None`;
    /// accepted reports that are malformed give an error: too short for
    /// their type code is `InvalidReport`, an unknown type code is
    /// `FfbError`.
    pub fn parse_ffb_effect(&self, output: G29OutputReport) -> (r: Result<Option<FfbEffect>>)
        ensures
            !report_accepted(output.report_id, output.data@) ==> r == Result::<
                Option<FfbEffect>,
            >::Ok(None),
            report_accepted(output.report_id, output.data@) ==> {
                let data = output.data@;
                if data.len() < 2 {
                    r matches Result::Err(TranslatorError::InvalidReport { .. })
                } else if !known_effect_type(data[1]) {
                    r matches Result::Err(TranslatorError::FfbError { .. })
                } else if data.len() < 3 + effect_param_min_len(data[1]) {
                    r matches Result::Err(TranslatorError::InvalidReport { .. })
                } else {
                    r == Result::<Option<FfbEffect>>::Ok(Some(effect_from_report(data)))
                }
            },
            r matches Result::Ok(Some(effect)) ==> 1 <= effect.id <= 40 && effect.id
                == output.data@[0],
    {
        if output.report_id != 0x01 || output.data.len() == 0 {
            return Ok(None);
        }

        let effect_id = output.data[0];
        if effect_id == 0 || effect_id > 40 {
            return Ok(None);
        }

        if output.data.len() < 2 {
            return Err(TranslatorError::invalid_report(String::from_str(
                "FFB report too short",
            )));
        }

        let effect_type = output.data[1];
        let effect = self.parse_effect_by_type(effect_id, effect_type, &output.data)?;
        Ok(Some(effect))
    }

    /// Decode the parameter block of one effect type from an accepted
    /// payload: `[index, type code, reserved, parameters...]`.
    pub fn parse_effect_by_type(&self, effect_id: u8, effect_type: u8, data: &Vec<u8>) -> (r:
        Result<FfbEffect>)
        requires
            data@.len() >= 2,
            data@[0] == effect_id,
            data@[1] == effect_type,
        ensures
            !known_effect_type(effect_type) ==> r matches Result::Err(
                TranslatorError::FfbError { .. },
            ),
            known_effect_type(effect_type) && data@.len() < 3 + effect_param_min_len(effect_type)
                ==> r matches Result::Err(TranslatorError::InvalidReport { .. }),
            known_effect_type(effect_type) && data@.len() >= 3 + effect_param_min_len(effect_type)
                ==> r == Result::<FfbEffect>::Ok(effect_from_report(data@)),
    {
        if effect_type == 0x01 {
            // Constant force.
            if data.len() < 7 {
                return Err(TranslatorError::invalid_report(String::from_str(
                    "Constant effect data too short",
                )));
            }
            let magnitude = le_i16(data[3], data[4]);
            let duration = le16(data[5], data[6]);
            Ok(FfbEffect {
                id: effect_id,
                effect_type: EffectType::Constant(ConstantEffect { magnitude, duration }),
                gain: 255,
            })
        } else if 0x03 <= effect_type && effect_type <= 0x07 {
            // Periodic effects: square, sine, triangle, sawtooths.
            if data.len() < 9 {
                return Err(TranslatorError::invalid_report(String::from_str(
                    "Periodic effect data too short",
                )));
            }
            let magnitude = le16(data[3], data[4]);
            let period = le16(data[5], data[6]);
            let phase = le16(data[7], data[8]);
            let waveform = if effect_type == 0x03 {
                Waveform::Square
            } else if effect_type == 0x04 {
                Waveform::Sine
            } else if effect_type == 0x05 {
                Waveform::Triangle
            } else if effect_type == 0x06 {
                Waveform::SawtoothUp
            } else {
                Waveform::SawtoothDown
            };
            Ok(FfbEffect {
                id: effect_id,
                effect_type: EffectType::Periodic(
                    PeriodicEffect { magnitude, period, phase, waveform },
                ),
                gain: 255,
            })
        } else if 0x08 <= effect_type && effect_type <= 0x0B {
            // Condition effects: spring, damper, inertia, friction.
            if data.len() < 7 {
                return Err(TranslatorError::invalid_report(String::from_str(
                    "Condition effect data too short",
                )));
            }
            let positive_coefficient = le_i16(data[3], data[4]);
            let negative_coefficient = le_i16(data[5], data[6]);
            let condition_type = if effect_type == 0x08 {
                ConditionType::Spring
            } else if effect_type == 0x09 {
                ConditionType::Damper
            } else if effect_type == 0x0A {
                ConditionType::Inertia
            } else {
                ConditionType::Friction
            };
            Ok(FfbEffect {
                id: effect_id,
                effect_type: EffectType::Condition(
                    ConditionEffect {
                        positive_coefficient,
                        negative_coefficient,
                        condition_type,
                    },
                ),
                gain: 255,
            })
        } else {
            Err(TranslatorError::ffb_error(String::from_str("Unsupported effect type")))
        }
    }
}

} // verus!

verus! {

/// The rescaled magnitude of a steering deflection `a` outside the
/// deadzone, before recentring.
pub open spec fn steering_mag_spec(a: int, deadzone: u32, multiplier: u32) -> int {
    round_div_spec(
        (a * (UNIT as int) - (deadzone as int) * 32767) * (multiplier as int),
        ((UNIT - deadzone) as int) * (UNIT as int),
    )
}

proof fn lemma_steering_mag_nonneg(a: int, deadzone: u32, multiplier: u32)
    requires
        deadzone < UNIT,
        a * (UNIT as int) >= (deadzone as int) * 32767,
    ensures
        steering_mag_spec(a, deadzone, multiplier) >= 0,
{
    let numer = (a * (UNIT as int) - (deadzone as int) * 32767) * (multiplier as int);
    let denom = ((UNIT - deadzone) as int) * (UNIT as int);
    assert((a * (UNIT as int) - (deadzone as int) * 32767) * (multiplier as int) >= 0)
        by (nonlinear_arith)
        requires
            a * (UNIT as int) >= (deadzone as int) * 32767,
    ;
    assert(((UNIT - deadzone) as int) * (UNIT as int) > 0) by (nonlinear_arith)
        requires
            deadzone < UNIT,
            UNIT == 10000,
    ;
    lemma_div_pos_is_pos(2 * numer + denom, 2 * denom);
}

proof fn lemma_steering_mag_mono(a1: int, a2: int, deadzone: u32, multiplier: u32)
    requires
        deadzone < UNIT,
        a1 <= a2,
    ensures
        steering_mag_spec(a1, deadzone, multiplier) <= steering_mag_spec(
            a2,
            deadzone,
            multiplier,
        ),
{
    let edge = (deadzone as int) * 32767;
    let denom = ((UNIT - deadzone) as int) * (UNIT as int);
    lemma_mul_inequality(a1, a2, UNIT as int);
    lemma_mul_inequality(a1 * (UNIT as int) - edge, a2 * (UNIT as int) - edge, multiplier as int);
    assert(((UNIT - deadzone) as int) * (UNIT as int) > 0) by (nonlinear_arith)
        requires
            deadzone < UNIT,
            UNIT == 10000,
    ;
    lemma_div_is_ordered(
        2 * ((a1 * (UNIT as int) - edge) * (multiplier as int)) + denom,
        2 * ((a2 * (UNIT as int) - edge) * (multiplier as int)) + denom,
        2 * denom,
    );
}

/// The translated steering is monotone in the raw input: turning the
/// wheel further one way never moves the G29 value the other way, for
/// any deadzone below one and any multiplier.
pub proof fn lemma_steering_monotone(raw1: i16, raw2: i16, deadzone: u32, multiplier: u32)
    requires
        deadzone < UNIT,
        raw1 <= raw2,
    ensures
        steering_spec(raw1, deadzone, multiplier) <= steering_spec(raw2, deadzone, multiplier),
{
    let edge = (deadzone as int) * 32767;
    let out1 = steering_spec(raw1, deadzone, multiplier);
    let out2 = steering_spec(raw2, deadzone, multiplier);

    // Every output outside the deadzone sits on the side of centre that
    // its sign names; inside, it is centre.
    if raw1 >= 0 {
        // Both non-negative: deflections are ordered as the raw values.
        if abs_i16(raw1) * (UNIT as int) >= edge {
            lemma_steering_mag_nonneg(abs_i16(raw1), deadzone, multiplier);
            lemma_steering_mag_mono(abs_i16(raw1), abs_i16(raw2), deadzone, multiplier);
        } else if abs_i16(raw2) * (UNIT as int) >= edge {
            lemma_steering_mag_nonneg(abs_i16(raw2), deadzone, multiplier);
        }
    } else if raw2 < 0 {
        // Both negative: the deflection of raw1 is the larger.
        if abs_i16(raw2) * (UNIT as int) >= edge {
            lemma_steering_mag_nonneg(abs_i16(raw2), deadzone, multiplier);
            lemma_steering_mag_mono(abs_i16(raw2), abs_i16(raw1), deadzone, multiplier);
        } else if abs_i16(raw1) * (UNIT as int) >= edge {
            lemma_steering_mag_nonneg(abs_i16(raw1), deadzone, multiplier);
        }
    } else {
        // Opposite signs: the left side stays at or below centre, the
        // right side at or above it.
        if abs_i16(raw1) * (UNIT as int) >= edge {
            lemma_steering_mag_nonneg(abs_i16(raw1), deadzone, multiplier);
        }
        if abs_i16(raw2) * (UNIT as int) >= edge {
            lemma_steering_mag_nonneg(abs_i16(raw2), deadzone, multiplier);
        }
        assert(out1 <= 0x8000 <= out2);
    }
}

} // verus!
