//! LoRa time-on-air arithmetic.
//!
//! The air time of a packet is computed from the modulation and packet
//! settings alone and never touches the chip. The result is built in two
//! steps: an integer numerator proportional to the air time, and a rounded
//! division by the bandwidth in Hz.

use vstd::prelude::*;
use vstd::arithmetic::div_mod::lemma_div_nonincreasing;
use vstd::arithmetic::div_mod::lemma_div_is_ordered_by_denominator;
use crate::mod_params::Bandwidth;
use crate::mod_params::CodingRate;
use crate::mod_params::SpreadingFactor;
use crate::mod_params::clamped_preamble;
use crate::mod_params::ldro_flag;
use crate::mod_params::spec_low_data_rate_optimize;

verus! {

/// Rounded-up integer division.
pub open spec fn spec_ceil_div(a: int, b: int) -> int {
    (a + b - 1) / b
}

/// Coded payload bits before clipping: eight bits per payload byte, sixteen
/// for the CRC, twenty for the explicit header, less the bits the first
/// (spreading-factor-sized) block carries; spreading factors above six add
/// eight bits of sync overhead.
pub open spec fn spec_cell_numerator(
    sf: SpreadingFactor,
    payload_len: u8,
    fixed_len: bool,
    crc_on: bool,
) -> int {
    let base = 8 * (payload_len as int) + (if crc_on {
        16int
    } else {
        0int
    }) - 4 * (sf.spec_value() as int) + (if fixed_len {
        0int
    } else {
        20int
    });
    if sf.spec_value() <= 6 {
        base
    } else {
        base + 8
    }
}

/// Bits carried per coded block: four per spreading-factor chip, two chips
/// fewer under low-data-rate optimisation.
pub open spec fn spec_cell_denominator(sf: SpreadingFactor, bw: Bandwidth) -> int {
    if sf.spec_value() <= 6 {
        4 * (sf.spec_value() as int)
    } else if spec_low_data_rate_optimize(sf, bw) {
        4 * ((sf.spec_value() as int) - 2)
    } else {
        4 * (sf.spec_value() as int)
    }
}

/// Chips per quarter symbol: two to the spreading factor, divided by four.
pub open spec fn spec_sf_symbol_scale(sf: SpreadingFactor) -> int {
    match sf {
        SpreadingFactor::_5 => 8,
        SpreadingFactor::_6 => 16,
        SpreadingFactor::_7 => 32,
        SpreadingFactor::_8 => 64,
        SpreadingFactor::_9 => 128,
        SpreadingFactor::_10 => 256,
        SpreadingFactor::_11 => 512,
        SpreadingFactor::_12 => 1024,
    }
}

/// Air time of a packet, expressed in chip periods: symbol count (coded
/// blocks, preamble, and the fixed preamble/header overhead of twelve
/// symbols, two more below spreading factor seven) in quarter symbols, times
/// chips per quarter symbol.
pub open spec fn spec_time_on_air_numerator(
    sf: SpreadingFactor,
    bw: Bandwidth,
    cr: CodingRate,
    preamble_length: u16,
    fixed_len: bool,
    payload_len: u8,
    crc_on: bool,
) -> int {
    let clipped = if spec_cell_numerator(sf, payload_len, fixed_len, crc_on) < 0 {
        0int
    } else {
        spec_cell_numerator(sf, payload_len, fixed_len, crc_on)
    };
    let blocks = spec_ceil_div(clipped, spec_cell_denominator(sf, bw)) * ((cr.spec_value() as int)
        + 4);
    let symbols = blocks + (crate::mod_params::spec_clamped_preamble(sf, preamble_length) as int)
        + 12 + (if sf.spec_value() <= 6 {
        2int
    } else {
        0int
    });
    (4 * symbols + 1) * spec_sf_symbol_scale(sf)
}

/// Air time in milliseconds, rounded up; meaningful only for a bandwidth
/// with a nonzero Hz value.
pub open spec fn spec_time_on_air_ms(
    sf: SpreadingFactor,
    bw: Bandwidth,
    cr: CodingRate,
    preamble_length: u16,
    fixed_len: bool,
    payload_len: u8,
    crc_on: bool,
) -> int {
    spec_ceil_div(
        1000 * spec_time_on_air_numerator(sf, bw, cr, preamble_length, fixed_len, payload_len, crc_on),
        bw.spec_value_in_hz() as int,
    )
}

/// Computes the time-on-air numerator.
#[verifier::rlimit(60)]
pub fn time_on_air_numerator(
    sf: SpreadingFactor,
    bw: Bandwidth,
    cr: CodingRate,
    preamble_length: u16,
    fixed_len: bool,
    payload_len: u8,
    crc_on: bool,
) -> (r: u32)
    ensures
        r == spec_time_on_air_numerator(sf, bw, cr, preamble_length, fixed_len, payload_len, crc_on),
        r <= 338318336,
{
    let sfv: u32 = sf.value() as u32;
    let cr_denominator: u32 = cr.value() as u32 + 4;
    let preamble: u32 = clamped_preamble(sf, preamble_length) as u32;
    let low_data_rate_optimize: bool = ldro_flag(sf, bw) == 0x01;

    // The single negative contribution is kept apart so the clip at zero is
    // a plain comparison.
    let mut positive: u32 = 8 * (payload_len as u32) + (if crc_on {
        16
    } else {
        0
    }) + (if fixed_len {
        0
    } else {
        20
    });
    let negative: u32 = 4 * sfv;

    let cell_denominator: u32;
    if sfv <= 6 {
        cell_denominator = 4 * sfv;
    } else {
        positive = positive + 8;
        if low_data_rate_optimize {
            cell_denominator = 4 * (sfv - 2);
        } else {
            cell_denominator = 4 * sfv;
        }
    }

    let clipped: u32 = if positive > negative {
        positive - negative
    } else {
        0
    };

    assert(5 <= sfv <= 12);
    assert(20 <= cell_denominator <= 48);
    assert(clipped <= 2084);

    let quotient: u32 = (clipped + cell_denominator - 1) / cell_denominator;
    proof {
        lemma_div_nonincreasing((clipped + cell_denominator - 1) as int, cell_denominator as int);
        assert(quotient <= 2131);
    }

    proof {
        assert(quotient * cr_denominator <= 17048) by (nonlinear_arith)
            requires
                quotient <= 2131,
                cr_denominator <= 8,
                quotient >= 0,
                cr_denominator >= 0,
        ;
    }
    let blocks: u32 = quotient * cr_denominator;

    let mut intermediate: u32 = blocks + preamble + 12;
    if sfv <= 6 {
        intermediate = intermediate + 2;
    }
    assert(intermediate <= 82597);

    let scale: u32 = match sf {
        SpreadingFactor::_5 => 8,
        SpreadingFactor::_6 => 16,
        SpreadingFactor::_7 => 32,
        SpreadingFactor::_8 => 64,
        SpreadingFactor::_9 => 128,
        SpreadingFactor::_10 => 256,
        SpreadingFactor::_11 => 512,
        SpreadingFactor::_12 => 1024,
    };

    proof {
        assert((4 * intermediate + 1) * scale <= 338318336) by (nonlinear_arith)
            requires
                intermediate <= 82597,
                1 <= scale <= 1024,
        ;
    }
    let r: u32 = (4 * intermediate + 1) * scale;

    proof {
        let s_num = spec_cell_numerator(sf, payload_len, fixed_len, crc_on);
        let s_den = spec_cell_denominator(sf, bw);
        let s_clipped = if s_num < 0 { 0int } else { s_num };
        assert(cell_denominator == s_den);
        assert(clipped == s_clipped);
        assert(quotient == spec_ceil_div(s_clipped, s_den));
        assert(scale == spec_sf_symbol_scale(sf));
        assert(blocks == spec_ceil_div(s_clipped, s_den) * ((cr.spec_value() as int) + 4));
        assert(r == spec_time_on_air_numerator(
            sf,
            bw,
            cr,
            preamble_length,
            fixed_len,
            payload_len,
            crc_on,
        ));
    }
    r
}

/// Computes the air time in milliseconds, rounded up. Fails exactly when
/// the bandwidth has no Hz value.
pub fn time_on_air_ms(
    sf: SpreadingFactor,
    bw: Bandwidth,
    cr: CodingRate,
    preamble_length: u16,
    fixed_len: bool,
    payload_len: u8,
    crc_on: bool,
) -> (r: Option<u32>)
    ensures
        r is Some <==> bw.spec_value_in_hz() != 0,
        r matches Some(ms) ==> ms == spec_time_on_air_ms(
            sf,
            bw,
            cr,
            preamble_length,
            fixed_len,
            payload_len,
            crc_on,
        ),
{
    let numerator: u32 = time_on_air_numerator(
        sf,
        bw,
        cr,
        preamble_length,
        fixed_len,
        payload_len,
        crc_on,
    );
    let denominator: u32 = bw.value_in_hz();
    if denominator == 0 {
        None
    } else {
        let total: u64 = 1000u64 * (numerator as u64);
        let ms: u64 = (total + (denominator as u64) - 1) / (denominator as u64);
        proof {
            assert(denominator >= 125000);
            lemma_div_is_ordered_by_denominator(
                (total + denominator - 1) as int,
                125000int,
                denominator as int,
            );
            assert(ms <= (338318336000int + 124999) / 125000);
        }
        Some(ms as u32)
    }
}

} // verus!
