//! Pure timing helpers for the RP2040 PIO UART.
use vstd::prelude::*;

verus! {

pub const PIO_UART_CYCLES_PER_BIT: u32 = 8;

pub const RX_FIRST_DATA_SAMPLE_CYCLE: u32 = 12;

pub const PIO_RX_FIFO_BYTES: usize = 8;

pub const ASIC_TELEMETRY_FRAME_BYTES: usize = 10;

pub const ASIC_RX_WIRE_BITS_PER_BYTE: u8 = 11;

pub const ESP_TX_WIRE_BITS_PER_BYTE: u8 = 10;

pub const ASIC_RX_DMA_RING_WORDS: usize = 1024;

pub const ASIC_RX_DMA_TRANSFER_COUNT: u32 = 0x7fff_ffff;

pub const ASIC_RX_DESIGN_WORDS_PER_SECOND: u32 = 16_000;

pub const ESP_DATA_BAUD_RATE: u32 = 2_000_000;

pub const QUALIFICATION_SOAK_SECONDS: u32 = 24 * 60 * 60;

/// Number of values a `u32` transfer counter can take before it wraps.
pub open spec fn counter_modulus() -> int {
    0x1_0000_0000
}

/// Distance from `consumed` forward to `produced` on a wrapping 32-bit counter.
pub open spec fn counter_distance(produced: u32, consumed: u32) -> int {
    (produced - consumed) % counter_modulus()
}

/// ASIC output is meaningful only while its I/O rail is enabled and reset is
/// released. Keeping the PIO state machine active in any other state can turn
/// an unpowered low RX line into an endless stream of synthetic zero bytes.
pub fn asic_rx_forwarding_allowed(five_volt_enabled: bool, asic_reset_asserted: bool) -> (allowed:
    bool)
    ensures
        allowed == (five_volt_enabled && !asic_reset_asserted),
{
    five_volt_enabled && !asic_reset_asserted
}

/// Whether a complete ASIC response can be buffered without software draining
/// the PIO FIFO while the frame is arriving.
pub fn rx_fifo_holds_complete_frame(frame_bytes: usize) -> (fits: bool)
    ensures
        fits == (frame_bytes <= PIO_RX_FIFO_BYTES),
{
    frame_bytes <= PIO_RX_FIFO_BYTES
}

/// Resolve the readable DMA-ring window from monotonically increasing transfer
/// counts. If the producer lapped the consumer, retain the newest ring and
/// report exactly how many older words were overwritten.
///
/// The result is `(start, available, dropped)`: the window always ends at
/// `produced`, never holds more than `capacity` words, and the readable and
/// dropped words together account for every word produced since `consumed`.
pub fn dma_ring_window(produced: u32, consumed: u32, capacity: usize) -> (window: (u32, usize, u32))
    ensures
        ({
            let distance = counter_distance(produced, consumed);
            let (start, available, dropped) = window;
            &&& if distance > capacity {
                &&& available == capacity
                &&& dropped == distance - capacity
                &&& start as int == (produced - capacity) % counter_modulus()
            } else {
                &&& start == consumed
                &&& available == distance
                &&& dropped == 0
            }
            &&& available <= capacity
            &&& available + dropped == distance
            &&& (start + available) % counter_modulus() == produced as int
        }),
{
    let available = produced.wrapping_sub(consumed) as usize;
    if available > capacity {
        let dropped = available - capacity;
        (produced.wrapping_sub(capacity as u32), capacity, dropped as u32)
    } else {
        (consumed, available, 0)
    }
}

/// The RP2040 16.8 fixed-point PIO clock divider for `baudrate`, before the
/// checks of [`clock_divider_bits`]: system clock times 256 over the PIO
/// cycles spent on one bit.
pub open spec fn divider_value(system_clock_hz: u32, baudrate: u32) -> int {
    (system_clock_hz * 256) / (baudrate * PIO_UART_CYCLES_PER_BIT)
}

/// Return the RP2040 16.8 PIO clock divider bits for a UART baud rate.
///
/// Fails closed (`None`) on a zero clock or baud rate and on a divider that
/// is zero or does not fit in 32 bits.
pub fn clock_divider_bits(system_clock_hz: u32, baudrate: u32) -> (bits: Option<u32>)
    ensures
        bits == (if system_clock_hz == 0 || baudrate == 0 {
            None
        } else if divider_value(system_clock_hz, baudrate) == 0 || divider_value(
            system_clock_hz,
            baudrate,
        ) > u32::MAX {
            None
        } else {
            Some(divider_value(system_clock_hz, baudrate) as u32)
        }),
{
    let divisor = match (baudrate as u64).checked_mul(PIO_UART_CYCLES_PER_BIT as u64) {
        Some(divisor) => divisor,
        None => return None,
    };
    if system_clock_hz == 0 || divisor == 0 {
        return None;
    }
    let scaled = match (system_clock_hz as u64).checked_mul(256) {
        Some(scaled) => scaled,
        None => return None,
    };
    let bits = match scaled.checked_div(divisor) {
        Some(bits) => bits,
        None => return None,
    };
    if bits == 0 || bits > u32::MAX as u64 {
        return None;
    }
    Some(bits as u32)
}

/// The PIO cycle at which data bit `bit_index` is sampled: one and a half bit
/// periods after start detection for the first bit, then one bit period per
/// bit.
pub open spec fn sample_cycle(bit_index: int) -> int {
    RX_FIRST_DATA_SAMPLE_CYCLE + bit_index * PIO_UART_CYCLES_PER_BIT
}

/// The receiver samples each of the nine bits at the center of its bit
/// period: the first one and a half periods after start detection, each
/// next one exactly one period later.
pub proof fn lemma_samples_are_centered_and_evenly_spaced(bit_index: int)
    ensures
        2 * sample_cycle(0) == 3 * PIO_UART_CYCLES_PER_BIT,
        sample_cycle(bit_index + 1) == sample_cycle(bit_index) + PIO_UART_CYCLES_PER_BIT,
{
}

/// PIO-cycle position at which an RX data bit is sampled, relative to the
/// start-bit detection instruction. The returned position is the center of
/// each nominal data bit for the eight-cycle receiver program.
pub fn rx_data_sample_cycle(bit_index: u8) -> (cycle: Option<u32>)
    ensures
        cycle == (if bit_index >= 9 {
            None
        } else {
            Some(sample_cycle(bit_index as int) as u32)
        }),
{
    if bit_index >= 9 {
        return None;
    }
    Some(RX_FIRST_DATA_SAMPLE_CYCLE + bit_index as u32 * PIO_UART_CYCLES_PER_BIT)
}

} // verus!
