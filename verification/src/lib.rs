//! Translation core for presenting a Thrustmaster racing wheel as a
//! Logitech G29: input-report conversion, PID force-feedback parsing,
//! and IFORCE command synthesis.

use vstd::prelude::*;

pub mod config;
pub mod device;
pub mod error;
pub mod ffb;
pub mod linux;
pub mod macos;
pub mod protocol;
pub mod windows;

verus! {

/// Fixed-point denominator for fractional configuration values
/// (deadzones, gains, multipliers): a stored value of `UNIT` means 1.0.
pub const UNIT: u32 = 10000;

/// Clamp an integer to the inclusive range `[lo, hi]`.
pub open spec fn clamp_spec(v: int, lo: int, hi: int) -> int {
    if v < lo {
        lo
    } else if v > hi {
        hi
    } else {
        v
    }
}

/// Division of `n` by `d`, rounded to the nearest integer
/// (halves round up); meaningful for `n >= 0, d > 0`.
pub open spec fn round_div_spec(n: int, d: int) -> int {
    (2 * n + d) / (2 * d)
}

/// Division truncated toward zero, as Rust's integer `/` behaves.
pub open spec fn trunc_div_spec(n: int, d: int) -> int {
    if n >= 0 {
        n / d
    } else {
        -((-n) / d)
    }
}

/// The unsigned 16-bit value encoded little-endian by two bytes.
pub open spec fn le16_spec(lo: u8, hi: u8) -> u16 {
    (lo + 256 * hi) as u16
}

/// The signed 16-bit value encoded little-endian by two bytes.
pub open spec fn le_i16_spec(lo: u8, hi: u8) -> i16 {
    le16_spec(lo, hi) as i16
}

/// Low byte of a 16-bit value.
pub open spec fn lo_byte_spec(v: u16) -> u8 {
    (v % 256) as u8
}

/// High byte of a 16-bit value.
pub open spec fn hi_byte_spec(v: u16) -> u8 {
    (v / 256) as u8
}

/// Two's-complement bit pattern of a signed 16-bit value.
pub open spec fn i16_bits_spec(v: i16) -> u16 {
    v as u16
}

/// Assemble the unsigned 16-bit value encoded little-endian by two bytes.
pub fn le16(lo: u8, hi: u8) -> (r: u16)
    ensures
        r == le16_spec(lo, hi),
{
    lo as u16 + 256 * (hi as u16)
}

/// Assemble the signed 16-bit value encoded little-endian by two bytes.
pub fn le_i16(lo: u8, hi: u8) -> (r: i16)
    ensures
        r == le_i16_spec(lo, hi),
{
    #[verifier::truncate]
    (le16(lo, hi) as i16)
}

/// Low byte of a 16-bit value.
pub fn lo_byte(v: u16) -> (r: u8)
    ensures
        r == lo_byte_spec(v),
{
    (v % 256) as u8
}

/// High byte of a 16-bit value.
pub fn hi_byte(v: u16) -> (r: u8)
    ensures
        r == hi_byte_spec(v),
{
    (v / 256) as u8
}

/// Two's-complement bit pattern of a signed 16-bit value.
pub fn i16_bits(v: i16) -> (r: u16)
    ensures
        r == i16_bits_spec(v),
{
    #[verifier::truncate]
    (v as u16)
}

} // verus!

verus! {

/// For every accepted PID output report, parsing and then translating
/// preserves the effect block index into the first payload byte, and
/// the waveform or condition code maps per the IFORCE tables.
pub proof fn lemma_effect_codes_preserved(data: Seq<u8>, cfg: config::FfbConfig)
    requires
        data.len() >= 2,
        protocol::known_effect_type(data[1]),
        data.len() >= 3 + protocol::effect_param_min_len(data[1]),
    ensures
        ({
            let effect = protocol::effect_from_report(data);
            let payload = ffb::iforce_data_spec(effect, cfg);
            &&& effect.id == data[0]
            &&& payload[0] == data[0]
            &&& effect.effect_type is Periodic ==> payload[1] == ffb::waveform_id_spec(
                protocol::waveform_of_code(data[1]),
            )
            &&& effect.effect_type is Condition ==> payload[1] == ffb::condition_id_spec(
                protocol::condition_of_code(data[1]),
            )
        }),
{
}

/// The output pump's decision step: parse one G29 output report and,
/// when it carries an effect descriptor, let the engine translate it
/// into IFORCE commands. Reports that are not effect reports produce
/// no commands; malformed accepted reports surface their parse error
/// and leave the engine untouched.
pub fn process_output_report(
    output_translator: &protocol::OutputTranslator,
    ffb_engine: &mut ffb::FfbEngine,
    report: device::G29OutputReport,
    now_ms: u64,
) -> (r: error::Result<Vec<device::IforceCommand>>)
    requires
        old(ffb_engine).wf(),
    ensures
        final(ffb_engine).wf(),
        final(ffb_engine).config == old(ffb_engine).config,
        final(ffb_engine).last_update_ms == old(ffb_engine).last_update_ms,
        !protocol::report_accepted(report.report_id, report.data@)
            ==> final(ffb_engine).active_effects@ == old(ffb_engine).active_effects@
            && (r matches Ok(cmds) && cmds@.len() == 0),
        r is Err ==> final(ffb_engine).active_effects@ == old(ffb_engine).active_effects@,
        ({
            let data = report.data@;
            protocol::report_accepted(report.report_id, data) && data.len() >= 2
                && protocol::known_effect_type(data[1]) && data.len() >= 3
                + protocol::effect_param_min_len(data[1]) ==> {
                let effect = protocol::effect_from_report(data);
                &&& old(ffb_engine).config.enabled ==> final(ffb_engine).active_effects@
                    == old(ffb_engine).active_effects@.update(
                    effect.id as int,
                    Some(ffb::ActiveEffect { effect, start_ms: now_ms, enabled: true }),
                ) && (r matches Ok(cmds) && cmds@.len() == 1 && cmds@[0].command_id
                    == ffb::iforce_command_id_spec(effect.effect_type) && cmds@[0].data@
                    == ffb::iforce_data_spec(effect, old(ffb_engine).config))
                &&& !old(ffb_engine).config.enabled ==> final(ffb_engine).active_effects@
                    == old(ffb_engine).active_effects@ && (r matches Ok(cmds) && cmds@.len() == 0)
            }
        }),
{
    match output_translator.parse_ffb_effect(report)? {
        Some(effect) => ffb_engine.translate_effect(effect, now_ms),
        None => Ok(Vec::new()),
    }
}

} // verus!
