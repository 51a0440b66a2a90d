//! Register arithmetic for the VL53L0X time-of-flight ranging sensor.

use vstd::prelude::*;
use vstd::arithmetic::power2::pow2;
use vstd::arithmetic::power2::lemma2_to64;

verus! {

/// Number of halvings after which `v` fits in eight bits.
pub open spec fn timeout_exponent(v: nat) -> nat
    decreases v,
{
    if v < 256 {
        0
    } else {
        1 + timeout_exponent(v / 2)
    }
}

/// The eight-bit value that is left of `v` after `timeout_exponent(v)` halvings.
pub open spec fn timeout_mantissa(v: nat) -> nat
    decreases v,
{
    if v < 256 {
        v
    } else {
        timeout_mantissa(v / 2)
    }
}

/// The register encoding of a timeout of `t` macro-clock periods: zero stays
/// zero; otherwise `t - 1` is stored as an eight-bit mantissa in the low byte
/// and the number of halvings that produced it in the high byte.
pub open spec fn encoded_timeout(t: nat) -> nat {
    if t == 0 {
        0
    } else {
        256 * timeout_exponent((t - 1) as nat) + timeout_mantissa((t - 1) as nat)
    }
}

/// The mantissa is `v` divided by two to the exponent, it fits in a byte, and
/// no smaller exponent would make it fit.
pub proof fn lemma_timeout_parts(v: nat)
    ensures
        timeout_mantissa(v) == v / pow2(timeout_exponent(v)),
        timeout_mantissa(v) < 256,
        forall|e: nat| e < timeout_exponent(v) ==> v / #[trigger] pow2(e) >= 256,
    decreases v,
{
    lemma2_to64();
    if v < 256 {
        assert(timeout_exponent(v) == 0);
        lemma_quotient_by_one(v);
    } else {
        let h = v / 2;
        lemma_timeout_parts(h);
        let k = timeout_exponent(h);
        lemma_halved_quotient(v, k);
        assert forall|e: nat| e < timeout_exponent(v) implies v / #[trigger] pow2(e) >= 256 by {
            if e == 0 {
                lemma_quotient_by_one(v);
            } else {
                let e1 = (e - 1) as nat;
                assert(h / pow2(e1) >= 256);
                lemma_halved_quotient(v, e1);
            }
        }
    }
}

proof fn lemma_quotient_by_one(v: nat)
    ensures
        v / pow2(0) == v,
{
    lemma2_to64();
    assert(pow2(0) == 1);
    assert(v / 1 == v);
}

/// Halving first and then dividing by `2^k` is dividing by `2^(k+1)`.
proof fn lemma_halved_quotient(v: nat, k: nat)
    ensures
        (v / 2) / pow2(k) == v / pow2(k + 1),
{
    vstd::arithmetic::power2::lemma_pow2_unfold(k + 1);
    vstd::arithmetic::power2::lemma_pow2_pos(k);
    vstd::arithmetic::div_mod::lemma_div_denominator(v as int, 2, pow2(k) as int);
}

/// For a 16-bit value the exponent is at most eight.
pub proof fn lemma_timeout_exponent_bound(v: nat)
    ensures
        v < 65536 ==> timeout_exponent(v) <= 8,
{
    reveal_with_fuel(timeout_exponent, 10);
}

/// Encodes a timeout given in macro-clock periods for the sensor's timeout
/// registers.
pub fn encode_timeout(timeout_mclks: u16) -> (encoded: u16)
    ensures
        encoded as nat == encoded_timeout(timeout_mclks as nat),
{
    if timeout_mclks == 0 {
        return 0;
    }
    let mut ls_byte: u16 = timeout_mclks - 1;
    let mut ms_byte: u16 = 0;
    proof {
        lemma_timeout_exponent_bound((timeout_mclks - 1) as nat);
    }
    while ls_byte >= 256
        invariant
            ms_byte + timeout_exponent(ls_byte as nat) == timeout_exponent((timeout_mclks - 1) as nat),
            timeout_mantissa(ls_byte as nat) == timeout_mantissa((timeout_mclks - 1) as nat),
            timeout_exponent((timeout_mclks - 1) as nat) <= 8,
        decreases ls_byte,
    {
        assert(ls_byte >> 1 == ls_byte / 2) by (bit_vector);
        ls_byte = ls_byte >> 1;
        ms_byte = ms_byte + 1;
    }
    assert((ms_byte << 8) | (ls_byte & 0xFF) == ms_byte * 256 + ls_byte) by (bit_vector)
        requires
            ms_byte <= 8,
            ls_byte < 256,
    ;
    (ms_byte << 8) | (ls_byte & 0xFF)
}

/// One write of a byte to a sensor register.
#[derive(Clone, Copy, Debug, PartialEq, Eq, Structural)]
pub struct RegisterWrite {
    pub register: u8,
    pub value: u8,
}

/// Why a measurement timing budget was refused.
#[derive(Clone, Copy, Debug, PartialEq, Eq, Structural)]
pub enum BudgetError {
    /// The budget is below the sensor's minimum of 20 ms.
    TooLow,
}

/// Smallest accepted timing budget, in microseconds.
pub const MIN_BUDGET_US: u32 = 20000;

/// Largest timing budget whose phase lengths, in nanoseconds, fit in 32 bits.
pub const MAX_BUDGET_US: u32 = 6442450;

/// VCSEL period of the pre-range phase, in PLL clocks.
pub const PRE_RANGE_VCSEL_PERIOD_PCLKS: u32 = 18;

/// VCSEL period of the final-range phase, in PLL clocks.
pub const FINAL_RANGE_VCSEL_PERIOD_PCLKS: u32 = 14;

/// Share of the budget given to the pre-range phase: one third, rounded down.
pub open spec fn pre_range_us(budget_us: nat) -> nat {
    budget_us / 3
}

/// Share of the budget given to the final-range phase: what the pre-range
/// phase leaves.
pub open spec fn final_range_us(budget_us: nat) -> nat {
    (budget_us - budget_us / 3) as nat
}

/// Macro-clock count of a phase of `phase_us` microseconds at the given VCSEL
/// period, as the 16-bit register arithmetic sees it: the low 16 bits of
/// `phase_us * 1000 / (2 * period)`.
pub open spec fn phase_mclks(phase_us: nat, vcsel_period_pclks: nat) -> nat {
    ((phase_us * 1000) / (2 * vcsel_period_pclks)) % 65536
}

/// The four register writes that set a timing budget: the encoded pre-range
/// timeout, high byte then low byte, to 0x51 and 0x52, and the encoded
/// final-range timeout to 0x71 and 0x72.
pub open spec fn budget_writes(budget_us: nat) -> Seq<RegisterWrite> {
    let pre = encoded_timeout(phase_mclks(pre_range_us(budget_us), PRE_RANGE_VCSEL_PERIOD_PCLKS as nat));
    let fin = encoded_timeout(phase_mclks(final_range_us(budget_us), FINAL_RANGE_VCSEL_PERIOD_PCLKS as nat));
    seq![
        RegisterWrite { register: 0x51, value: (pre / 256) as u8 },
        RegisterWrite { register: 0x52, value: (pre % 256) as u8 },
        RegisterWrite { register: 0x71, value: (fin / 256) as u8 },
        RegisterWrite { register: 0x72, value: (fin % 256) as u8 },
    ]
}

/// The encoding of a 16-bit timeout fits in 16 bits; its high byte is at most eight.
pub proof fn lemma_encoded_timeout_bound(t: nat)
    requires
        t < 65536,
    ensures
        encoded_timeout(t) < 256 * 9,
{
    if t > 0 {
        lemma_timeout_exponent_bound((t - 1) as nat);
        lemma_timeout_parts((t - 1) as nat);
    }
}

fn split_phase(phase_us: u32, vcsel_period_pclks: u32) -> (bytes: (u8, u8))
    requires
        phase_us * 1000 <= u32::MAX,
        1 <= vcsel_period_pclks <= 0x7fff_ffff,
    ensures
        bytes.0 as nat == encoded_timeout(phase_mclks(phase_us as nat, vcsel_period_pclks as nat)) / 256,
        bytes.1 as nat == encoded_timeout(phase_mclks(phase_us as nat, vcsel_period_pclks as nat)) % 256,
{
    let mclks: u32 = (phase_us * 1000) / (vcsel_period_pclks * 2);
    assert((mclks & 0xffff) == mclks % 65536) by (bit_vector);
    let low: u16 = (mclks & 0xffff) as u16;
    let encoded = encode_timeout(low);
    proof {
        lemma_encoded_timeout_bound(low as nat);
    }
    assert((encoded >> 8) == encoded / 256 && (encoded & 0xff) == encoded % 256) by (bit_vector);
    ((encoded >> 8) as u8, (encoded & 0xff) as u8)
}

/// Computes the register writes that give the sensor a measurement timing
/// budget of `budget_us` microseconds, in the order in which they are to be
/// written. A budget under 20 ms is refused.
pub fn timing_budget_writes(budget_us: u32) -> (r: Result<[RegisterWrite; 4], BudgetError>)
    requires
        budget_us <= MAX_BUDGET_US,
    ensures
        budget_us < MIN_BUDGET_US ==> r == Err::<[RegisterWrite; 4], BudgetError>(BudgetError::TooLow),
        budget_us >= MIN_BUDGET_US ==> r is Ok && r->Ok_0@ == budget_writes(budget_us as nat),
{
    if budget_us < MIN_BUDGET_US {
        return Err(BudgetError::TooLow);
    }
    let pre_range_us: u32 = budget_us / 3;
    let final_range_us: u32 = budget_us - pre_range_us;
    let pre = split_phase(pre_range_us, PRE_RANGE_VCSEL_PERIOD_PCLKS);
    let fin = split_phase(final_range_us, FINAL_RANGE_VCSEL_PERIOD_PCLKS);
    let writes = [
        RegisterWrite { register: 0x51, value: pre.0 },
        RegisterWrite { register: 0x52, value: pre.1 },
        RegisterWrite { register: 0x71, value: fin.0 },
        RegisterWrite { register: 0x72, value: fin.1 },
    ];
    assert(writes@ =~= budget_writes(budget_us as nat));
    Ok(writes)
}

/// Bus address of the sensor.
pub const SENSOR_ADDRESS: u8 = 0x29;

/// Register that holds the model identification.
pub const REG_WHO_AM_I: u8 = 0xc0;

/// Value of the identification register on a VL53L0X.
pub const EXPECTED_DEVICE_ID: u8 = 0xee;

/// Register that starts a measurement.
pub const REG_SYSRANGE_START: u8 = 0x00;

/// Register that tells whether a measurement is ready.
pub const REG_RESULT_INTERRUPT_STATUS: u8 = 0x13;

/// Register at which the result block begins.
pub const REG_RESULT_RANGE_STATUS: u8 = 0x14;

/// Offset of the range value in the result block.
pub const RANGE_VALUE_OFFSET: u8 = 10;

/// Register that clears the sensor's interrupt.
pub const REG_SYSTEM_INTERRUPT_CLEAR: u8 = 0x0b;

/// Return signal rate limit in the sensor's 9.7 fixed-point format: 0.25 MCPS.
pub const SIGNAL_RATE_LIMIT: u16 = 0x0100;

/// Timing budget that the sensor is set up with, in microseconds.
pub const DEFAULT_BUDGET_US: u32 = 33000;

/// How many times the status is read before a measurement is given up.
pub const POLL_LIMIT: u32 = 1000;

/// Pause between two reads of the status, in milliseconds.
pub const POLL_PAUSE_MS: u32 = 10;

/// The high and the low byte of a 16-bit register value.
pub fn split_bytes(value: u16) -> (bytes: (u8, u8))
    ensures
        bytes.0 as nat == value as nat / 256,
        bytes.1 as nat == value as nat % 256,
{
    assert((value >> 8) == value / 256 && (value & 0xff) == value % 256) by (bit_vector);
    ((value >> 8) as u8, (value & 0xff) as u8)
}

/// The writes that prepare the sensor before its timing budget is set, in
/// order: pad supply, bus mode, pulse periods of 18 and 14 VCSEL clocks,
/// signal-rate check, SPAD selection and reference map, SPAD count and type,
/// and the signal rate limit, high byte first.
pub open spec fn setup_table() -> Seq<RegisterWrite> {
    seq![
        RegisterWrite { register: 0x89, value: 0x01 },
        RegisterWrite { register: 0x88, value: 0x00 },
        RegisterWrite { register: 0x50, value: 0x00 },
        RegisterWrite { register: 0x51, value: 0x12 },
        RegisterWrite { register: 0x52, value: 0x00 },
        RegisterWrite { register: 0x53, value: 0x0e },
        RegisterWrite { register: 0x60, value: 0x12 },
        RegisterWrite { register: 0x60, value: 0x00 },
        RegisterWrite { register: 0x61, value: 0x00 },
        RegisterWrite { register: 0x62, value: 0x00 },
        RegisterWrite { register: 0xb0, value: 0x00 },
        RegisterWrite { register: 0xb1, value: 0x10 },
        RegisterWrite { register: 0xb2, value: 0x00 },
        RegisterWrite { register: 0xb3, value: 0x00 },
        RegisterWrite { register: 0xb4, value: 0x00 },
        RegisterWrite { register: 0xb5, value: 0x00 },
        RegisterWrite { register: 0x4e, value: 0x2c },
        RegisterWrite { register: 0x4f, value: 0x00 },
        RegisterWrite { register: 0x44, value: (SIGNAL_RATE_LIMIT / 256) as u8 },
        RegisterWrite { register: 0x45, value: (SIGNAL_RATE_LIMIT % 256) as u8 },
    ]
}

/// The writes that end the setup, after the timing budget: all sequence
/// steps on, interrupt on new sample, pending interrupt cleared.
pub open spec fn finish_table() -> Seq<RegisterWrite> {
    seq![
        RegisterWrite { register: 0x01, value: 0xff },
        RegisterWrite { register: 0x0a, value: 0x04 },
        RegisterWrite { register: REG_SYSTEM_INTERRUPT_CLEAR, value: 0x01 },
    ]
}

/// The register writes that prepare the sensor, up to its timing budget.
pub fn setup_writes() -> (writes: [RegisterWrite; 20])
    ensures
        writes@ == setup_table(),
{
    let limit = split_bytes(SIGNAL_RATE_LIMIT);
    let writes = [
        RegisterWrite { register: 0x89, value: 0x01 },
        RegisterWrite { register: 0x88, value: 0x00 },
        RegisterWrite { register: 0x50, value: 0x00 },
        RegisterWrite { register: 0x51, value: 0x12 },
        RegisterWrite { register: 0x52, value: 0x00 },
        RegisterWrite { register: 0x53, value: 0x0e },
        RegisterWrite { register: 0x60, value: 0x12 },
        RegisterWrite { register: 0x60, value: 0x00 },
        RegisterWrite { register: 0x61, value: 0x00 },
        RegisterWrite { register: 0x62, value: 0x00 },
        RegisterWrite { register: 0xb0, value: 0x00 },
        RegisterWrite { register: 0xb1, value: 0x10 },
        RegisterWrite { register: 0xb2, value: 0x00 },
        RegisterWrite { register: 0xb3, value: 0x00 },
        RegisterWrite { register: 0xb4, value: 0x00 },
        RegisterWrite { register: 0xb5, value: 0x00 },
        RegisterWrite { register: 0x4e, value: 0x2c },
        RegisterWrite { register: 0x4f, value: 0x00 },
        RegisterWrite { register: 0x44, value: limit.0 },
        RegisterWrite { register: 0x45, value: limit.1 },
    ];
    assert(writes@ =~= setup_table());
    writes
}

/// The register writes that end the setup, after the timing budget.
pub fn finish_writes() -> (writes: [RegisterWrite; 3])
    ensures
        writes@ == finish_table(),
{
    let writes = [
        RegisterWrite { register: 0x01, value: 0xff },
        RegisterWrite { register: 0x0a, value: 0x04 },
        RegisterWrite { register: REG_SYSTEM_INTERRUPT_CLEAR, value: 0x01 },
    ];
    assert(writes@ =~= finish_table());
    writes
}

/// Whether the interrupt status says that a measurement is ready: one of its
/// three low bits is set.
pub fn data_ready(interrupt_status: u8) -> (ready: bool)
    ensures
        ready == (interrupt_status % 8 != 0),
{
    assert((interrupt_status & 0x07) == interrupt_status % 8) by (bit_vector);
    (interrupt_status & 0x07) != 0
}

/// The error code of a measurement: the high four bits of the range status
/// register. Zero means that the range is valid.
pub fn range_status(status_register: u8) -> (code: u8)
    ensures
        code == status_register / 16,
{
    assert(((status_register >> 4) & 0x0f) == status_register / 16) by (bit_vector);
    (status_register >> 4) & 0x0f
}

/// The distance in millimetres that the two bytes of a range reading stand
/// for, the first byte being the lower.
pub fn distance_mm(reading: [u8; 2]) -> (mm: u16)
    ensures
        mm == reading@[1] * 256 + reading@[0],
{
    let low = reading[0];
    let high = reading[1];
    assert((((high as u16) << 8) | (low as u16)) == high * 256 + low) by (bit_vector);
    ((high as u16) << 8) | (low as u16)
}

/// What to do after a read of the interrupt status while a measurement is
/// awaited.
#[derive(Clone, Copy, Debug, PartialEq, Eq, Structural)]
pub enum Poll {
    /// The measurement is ready to be read.
    Ready,
    /// Pause for `POLL_PAUSE_MS` and read the status again; `attempts` reads
    /// have been made without success.
    Again { attempts: u32 },
    /// Pause for `POLL_PAUSE_MS` and give up; so many milliseconds were
    /// spent waiting.
    TimedOut { waited_ms: u32 },
}

/// What follows a read of the interrupt status after `attempts` earlier
/// reads without success.
pub open spec fn poll_outcome(attempts: nat, interrupt_status: nat) -> Poll {
    if interrupt_status % 8 != 0 {
        Poll::Ready
    } else if attempts + 1 < POLL_LIMIT {
        Poll::Again { attempts: (attempts + 1) as u32 }
    } else {
        Poll::TimedOut { waited_ms: ((attempts + 1) * POLL_PAUSE_MS) as u32 }
    }
}

/// Decides what follows a read of the interrupt status after `attempts`
/// earlier reads without success.
pub fn next_poll(attempts: u32, interrupt_status: u8) -> (poll: Poll)
    requires
        attempts < POLL_LIMIT,
    ensures
        poll == poll_outcome(attempts as nat, interrupt_status as nat),
        poll matches Poll::Again { attempts: more } ==> more < POLL_LIMIT,
{
    if data_ready(interrupt_status) {
        Poll::Ready
    } else if attempts + 1 < POLL_LIMIT {
        Poll::Again { attempts: attempts + 1 }
    } else {
        Poll::TimedOut { waited_ms: (attempts + 1) * POLL_PAUSE_MS }
    }
}

impl BudgetError {
    /// A short description of the error.
    pub fn message(&self) -> (text: &'static str)
        ensures
            text@ == "Budget too low (min 20ms)"@,
    {
        "Budget too low (min 20ms)"
    }
}

} // verus!
