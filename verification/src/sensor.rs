//! The sensor task's logic: decoding the 32-bit frame that the thermocouple
//! converter sends, and deciding what a read cycle stores and what it logs.
//! The bus transaction that fetches the frame is the caller's.
//!
//! The frame, most significant bit first: bits 31 to 18 hold the thermocouple
//! temperature as a signed 14-bit number of quarter degrees, bit 17 is
//! reserved and reads 0, bit 16 is the fault flag, bits 15 to 4 hold the
//! temperature of the reference junction, bit 3 is reserved and reads 0, and
//! bits 2, 1 and 0 name the fault: shorted to supply, shorted to ground, open
//! circuit.

use crate::reading::TemperatureReading;
use crate::reading::SENTINEL_CENTI;
use crate::store::with_temperature;
use crate::store::SharedStateStore;
use crate::store::StoreSnapshot;
use vstd::prelude::*;

verus! {

/// Time between two reads of the sensor, in milliseconds.
pub const SENSOR_PERIOD_MS: u32 = 1000;

/// The lowest temperature that the sensor is specified for, in hundredths of
/// a degree: -270 degrees.
pub const MIN_CENTI: i32 = -27000;

/// The highest temperature that the sensor is specified for, in hundredths
/// of a degree: +1800 degrees.
pub const MAX_CENTI: i32 = 180000;

/// The bus transaction with the sensor failed.
#[derive(Clone, Copy, Debug, PartialEq, Eq, Structural)]
pub struct PeripheralError;

/// Why a frame gives no temperature.
#[derive(Clone, Copy, Debug, PartialEq, Eq, Structural)]
pub enum SensorDecodeError {
    /// A reserved bit is set, or the fault flag and the bits that name the
    /// fault disagree: this is no frame of the sensor.
    Malformed,
    /// The sensor reports a fault of the thermocouple.
    Fault { open_circuit: bool, short_to_ground: bool, short_to_supply: bool },
    /// The temperature lies outside the range that the sensor is specified for.
    OutOfRange,
}

/// Why a read cycle gives no temperature.
#[derive(Clone, Copy, Debug, PartialEq, Eq, Structural)]
pub enum SensorError {
    /// The bus transaction failed.
    Peripheral,
    /// The frame that came back gives no temperature.
    Decode(SensorDecodeError),
}

/// The bit of a frame whose place value is `weight`, a power of two.
pub open spec fn frame_bit(raw: u32, weight: int) -> bool
    recommends
        weight > 0,
{
    (raw as int / weight) % 2 == 1
}

/// The open-circuit bit of a frame (bit 0).
pub open spec fn open_circuit_bit(raw: u32) -> bool {
    frame_bit(raw, 1)
}

/// The shorted-to-ground bit of a frame (bit 1).
pub open spec fn short_to_ground_bit(raw: u32) -> bool {
    frame_bit(raw, 2)
}

/// The shorted-to-supply bit of a frame (bit 2).
pub open spec fn short_to_supply_bit(raw: u32) -> bool {
    frame_bit(raw, 4)
}

/// The fault flag of a frame (bit 16).
pub open spec fn fault_flag(raw: u32) -> bool {
    frame_bit(raw, 0x1_0000)
}

/// Whether a reserved bit of a frame (bit 3 or bit 17) is set.
pub open spec fn reserved_bit_set(raw: u32) -> bool {
    frame_bit(raw, 8) || frame_bit(raw, 0x2_0000)
}

/// The thermocouple field of a frame (bits 31 to 18) as the signed number of
/// quarter degrees that it stands for.
pub open spec fn quarter_degrees(raw: u32) -> int {
    let field = raw as int / 0x4_0000;
    if field >= 0x2000 {
        field - 0x4000
    } else {
        field
    }
}

/// The thermocouple temperature of a frame in hundredths of a degree.
pub open spec fn frame_centi(raw: u32) -> int {
    25 * quarter_degrees(raw)
}

/// Whether a frame carries a temperature: no reserved bit set, no fault
/// flagged or named, and the temperature within the sensor's range.
pub open spec fn well_formed_frame(raw: u32) -> bool {
    &&& !reserved_bit_set(raw)
    &&& !fault_flag(raw)
    &&& !open_circuit_bit(raw)
    &&& !short_to_ground_bit(raw)
    &&& !short_to_supply_bit(raw)
    &&& MIN_CENTI <= frame_centi(raw) <= MAX_CENTI
}

/// What [`decode_frame`] returns for a frame.
pub open spec fn decode_frame_of(raw: u32) -> Result<TemperatureReading, SensorDecodeError> {
    let named = open_circuit_bit(raw) || short_to_ground_bit(raw) || short_to_supply_bit(raw);
    if reserved_bit_set(raw) || fault_flag(raw) != named {
        Err(SensorDecodeError::Malformed)
    } else if fault_flag(raw) {
        Err(
            SensorDecodeError::Fault {
                open_circuit: open_circuit_bit(raw),
                short_to_ground: short_to_ground_bit(raw),
                short_to_supply: short_to_supply_bit(raw),
            },
        )
    } else if !(MIN_CENTI <= frame_centi(raw) <= MAX_CENTI) {
        Err(SensorDecodeError::OutOfRange)
    } else {
        Ok(TemperatureReading { centi: frame_centi(raw) as i32 })
    }
}

/// What a read cycle makes of the bus transaction's result.
pub open spec fn read_outcome_of(
    exchange: Result<u32, PeripheralError>,
) -> Result<TemperatureReading, SensorError> {
    match exchange {
        Ok(raw) => match decode_frame_of(raw) {
            Ok(reading) => Ok(reading),
            Err(e) => Err(SensorError::Decode(e)),
        },
        Err(_) => Err(SensorError::Peripheral),
    }
}

/// Decodes a frame into the thermocouple temperature.
pub fn decode_frame(raw: u32) -> (r: Result<TemperatureReading, SensorDecodeError>)
    ensures
        r == decode_frame_of(raw),
        r is Ok <==> well_formed_frame(raw),
        r matches Ok(reading) ==> MIN_CENTI <= reading.centi <= MAX_CENTI,
{
    let open_circuit = raw & 0x1 != 0;
    let short_to_ground = raw & 0x2 != 0;
    let short_to_supply = raw & 0x4 != 0;
    let fault = raw & 0x1_0000 != 0;
    let reserved = raw & 0x2_0008 != 0;
    let field: u32 = raw >> 18;
    proof {
        assert((raw & 0x1 != 0) == ((raw / 1) % 2 == 1)) by (bit_vector);
        assert((raw & 0x2 != 0) == ((raw / 2) % 2 == 1)) by (bit_vector);
        assert((raw & 0x4 != 0) == ((raw / 4) % 2 == 1)) by (bit_vector);
        assert((raw & 0x1_0000 != 0) == ((raw / 0x1_0000) % 2 == 1)) by (bit_vector);
        assert((raw & 0x2_0008 != 0) == ((raw / 8) % 2 == 1 || (raw / 0x2_0000) % 2 == 1))
            by (bit_vector);
        assert(raw >> 18 == raw / 0x4_0000) by (bit_vector);
        assert(raw >> 18 < 0x4000) by (bit_vector);
    }
    if reserved || fault != (open_circuit || short_to_ground || short_to_supply) {
        return Err(SensorDecodeError::Malformed);
    }
    if fault {
        return Err(SensorDecodeError::Fault { open_circuit, short_to_ground, short_to_supply });
    }
    let quarters: i32 = if field >= 0x2000 {
        field as i32 - 0x4000
    } else {
        field as i32
    };
    let centi: i32 = 25 * quarters;
    if centi < MIN_CENTI || centi > MAX_CENTI {
        return Err(SensorDecodeError::OutOfRange);
    }
    Ok(TemperatureReading::from_centi(centi))
}

/// What one read cycle gives: the reading to store, or the failure to log. On
/// a failure nothing is stored, so the reading stored before stays.
pub fn read_outcome(
    exchange: Result<u32, PeripheralError>,
) -> (r: Result<TemperatureReading, SensorError>)
    ensures
        r == read_outcome_of(exchange),
{
    match exchange {
        Ok(raw) => match decode_frame(raw) {
            Ok(reading) => Ok(reading),
            Err(e) => Err(SensorError::Decode(e)),
        },
        Err(_) => Err(SensorError::Peripheral),
    }
}

/// The reading that stands after a read cycle, given the one that stood
/// before: the one that the cycle gave, or, on a failure, the one before.
pub open spec fn next_reading(
    previous: TemperatureReading,
    exchange: Result<u32, PeripheralError>,
) -> TemperatureReading {
    match read_outcome_of(exchange) {
        Ok(reading) => reading,
        Err(_) => previous,
    }
}

/// What a read cycle gives to log.
pub open spec fn report_of_exchange(
    exchange: Result<u32, PeripheralError>,
) -> Option<SensorError> {
    match read_outcome_of(exchange) {
        Ok(_) => None,
        Err(e) => Some(e),
    }
}

/// What the store holds after a read cycle, given what it held before: the
/// temperature is the one that the cycle gave, or, on a failure, the one
/// before; nothing else changes.
pub open spec fn store_after_cycle(
    held: StoreSnapshot,
    exchange: Result<u32, PeripheralError>,
) -> StoreSnapshot {
    with_temperature(held, next_reading(held.temperature, exchange))
}

/// The reading that stands after a run of read cycles, given the one that
/// stood before them.
pub open spec fn reading_after(
    start: TemperatureReading,
    exchanges: Seq<Result<u32, PeripheralError>>,
) -> TemperatureReading
    decreases exchanges.len(),
{
    if exchanges.len() == 0 {
        start
    } else {
        next_reading(reading_after(start, exchanges.drop_last()), exchanges.last())
    }
}

/// What the store holds after a run of read cycles, given what it held
/// before them.
pub open spec fn store_after_cycles(
    held: StoreSnapshot,
    exchanges: Seq<Result<u32, PeripheralError>>,
) -> StoreSnapshot
    decreases exchanges.len(),
{
    if exchanges.len() == 0 {
        held
    } else {
        store_after_cycle(store_after_cycles(held, exchanges.drop_last()), exchanges.last())
    }
}

/// The sensor task's own state: the reading that it stored last. The task is
/// the only writer of the stored temperature, so this is what the store holds.
pub struct SensorLoop {
    last: TemperatureReading,
}

impl SensorLoop {
    /// The reading that the task stored last.
    pub closed spec fn reading(&self) -> TemperatureReading {
        self.last
    }

    /// The state at start-up: no reading yet.
    pub fn new() -> (s: Self)
        ensures
            s.reading().centi == SENTINEL_CENTI,
    {
        SensorLoop { last: TemperatureReading::unavailable() }
    }

    /// The reading that the task stored last.
    pub fn last_reading(&self) -> (r: TemperatureReading)
        ensures
            r == self.reading(),
    {
        self.last
    }

    /// Takes note of one read cycle: keeps the reading that the transaction
    /// gave, or keeps the one before and hands back the failure to log.
    pub fn record(
        &mut self,
        exchange: Result<u32, PeripheralError>,
    ) -> (report: Option<SensorError>)
        ensures
            final(self).reading() == next_reading(old(self).reading(), exchange),
            report == report_of_exchange(exchange),
    {
        match read_outcome(exchange) {
            Ok(reading) => {
                self.last = reading;
                None
            },
            Err(e) => Some(e),
        }
    }

    /// One read cycle against the shared store: as [`SensorLoop::record`], and
    /// a reading that the transaction gave replaces the stored temperature.
    /// On a failure the store is not written, so it keeps all that it held.
    pub fn cycle(
        &mut self,
        store: &mut SharedStateStore,
        exchange: Result<u32, PeripheralError>,
    ) -> (report: Option<SensorError>)
        ensures
            final(self).reading() == next_reading(old(self).reading(), exchange),
            report == report_of_exchange(exchange),
            final(store)@ == store_after_cycle(old(store)@, exchange),
    {
        let report = self.record(exchange);
        if report.is_none() {
            store.set_temperature(self.last);
        }
        report
    }
}

/// Every frame is either decoded or refused. The frames that are decoded are
/// the well-formed ones, and what they decode to lies within the sensor's
/// range, on the sensor's grid of quarter degrees.
pub proof fn lemma_decoded_frames_are_in_range(raw: u32)
    ensures
        decode_frame_of(raw) is Ok <==> well_formed_frame(raw),
        decode_frame_of(raw) matches Ok(reading) ==> {
            &&& MIN_CENTI <= reading.centi <= MAX_CENTI
            &&& reading.centi == frame_centi(raw)
            &&& reading.centi % 25 == 0
        },
{
}

/// Failed read cycles change nothing: after any run of them the reading is
/// the one that stood before. So until a read succeeds for the first time the
/// reading is the sentinel.
pub proof fn lemma_failures_keep_reading(
    start: TemperatureReading,
    exchanges: Seq<Result<u32, PeripheralError>>,
)
    requires
        forall|i: int| 0 <= i < exchanges.len() ==> read_outcome_of(#[trigger] exchanges[i]) is Err,
    ensures
        reading_after(start, exchanges) == start,
    decreases exchanges.len(),
{
    if exchanges.len() > 0 {
        let head = exchanges.drop_last();
        assert forall|i: int| 0 <= i < head.len() implies read_outcome_of(
            #[trigger] head[i],
        ) is Err by {
            assert(head[i] == exchanges[i]);
        }
        lemma_failures_keep_reading(start, head);
        assert(exchanges.last() == exchanges[exchanges.len() - 1]);
    }
}

/// The sensor task writes the temperature and nothing else, and what it
/// writes is what it holds itself: after any run of read cycles the store's
/// link status and upload flag are as they were, and its temperature is the
/// reading of [`reading_after`]. So until a read succeeds for the first time
/// the store holds the sentinel, and from then on a temperature within the
/// sensor's range.
pub proof fn lemma_store_follows_sensor(
    held: StoreSnapshot,
    exchanges: Seq<Result<u32, PeripheralError>>,
)
    ensures
        store_after_cycles(held, exchanges) == with_temperature(
            held,
            reading_after(held.temperature, exchanges),
        ),
        (forall|i: int| 0 <= i < exchanges.len() ==> read_outcome_of(#[trigger] exchanges[i]) is Err)
            ==> store_after_cycles(held, exchanges) == held,
        held.temperature.centi == SENTINEL_CENTI ==> {
            let centi = store_after_cycles(held, exchanges).temperature.centi;
            centi == SENTINEL_CENTI || MIN_CENTI <= centi <= MAX_CENTI
        },
    decreases exchanges.len(),
{
    if exchanges.len() > 0 {
        lemma_store_follows_sensor(held, exchanges.drop_last());
    }
    if forall|i: int| 0 <= i < exchanges.len() ==> read_outcome_of(#[trigger] exchanges[i]) is Err {
        lemma_failures_keep_reading(held.temperature, exchanges);
    }
    if held.temperature.centi == SENTINEL_CENTI {
        lemma_readings_stay_in_range(exchanges);
    }
}

/// Whatever the bus delivers, the task never holds anything but the sentinel
/// or a temperature within the sensor's range.
pub proof fn lemma_readings_stay_in_range(exchanges: Seq<Result<u32, PeripheralError>>)
    ensures
        ({
            let reading = reading_after(TemperatureReading { centi: SENTINEL_CENTI }, exchanges);
            reading.centi == SENTINEL_CENTI || MIN_CENTI <= reading.centi <= MAX_CENTI
        }),
    decreases exchanges.len(),
{
    if exchanges.len() > 0 {
        lemma_readings_stay_in_range(exchanges.drop_last());
    }
}

/// The bits of the reference junction play no part: two frames that agree in
/// all other bits decode alike.
pub proof fn lemma_reference_junction_is_ignored(raw: u32, other: u32)
    requires
        raw / 0x1_0000 == other / 0x1_0000,
        raw % 16 == other % 16,
    ensures
        decode_frame_of(raw) == decode_frame_of(other),
{
    assert((raw / 1) % 2 == (other / 1) % 2 && (raw / 2) % 2 == (other / 2) % 2 && (raw / 4) % 2
        == (other / 4) % 2 && (raw / 8) % 2 == (other / 8) % 2) by (bit_vector)
        requires
            raw % 16 == other % 16,
    ;
    assert((raw / 0x1_0000) % 2 == (other / 0x1_0000) % 2 && (raw / 0x2_0000) % 2 == (other
        / 0x2_0000) % 2 && raw / 0x4_0000 == other / 0x4_0000) by (bit_vector)
        requires
            raw / 0x1_0000 == other / 0x1_0000,
    ;
}

} // verus!
