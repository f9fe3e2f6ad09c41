use stemma_soil_sensor::decode::{celsius_from_raw, i32_from_be_bytes, u16_from_be_bytes};
use stemma_soil_sensor::error::{AbortReason, BusError, I2CError, SetupError};
use stemma_soil_sensor::exchange::{Action, Event, Exchange, Phase};
use stemma_soil_sensor::seesaw::Register;
use stemma_soil_sensor::sensor::DEFAULT_ADDRESS;
use stemma_soil_sensor::SoilSensor;

#[derive(Debug, PartialEq)]
enum Op {
    Write(u8, u8, u8),
    Wait(u64),
    Read(u8, usize),
}

/// A bus that answers every write and every read the same way, and keeps a
/// log of what was asked of it.
struct StubBus {
    write: Result<(), I2CError>,
    read: Result<Vec<u8>, I2CError>,
    log: Vec<Op>,
}

impl StubBus {
    fn answering(bytes: &[u8]) -> StubBus {
        StubBus { write: Ok(()), read: Ok(bytes.to_vec()), log: Vec::new() }
    }

    fn run(&mut self, mut exchange: Exchange) -> Result<Vec<u8>, I2CError> {
        let mut event = Event::Start;
        loop {
            assert!(exchange.accepts(&event));
            event = match exchange.step(event) {
                Action::Write { address, base, offset } => {
                    self.log.push(Op::Write(address, base, offset));
                    Event::Written(self.write)
                }
                Action::Wait { micros } => {
                    self.log.push(Op::Wait(micros));
                    Event::Waited
                }
                Action::Read { address, len } => {
                    self.log.push(Op::Read(address, len));
                    Event::Received(self.read.clone())
                }
                Action::Finish(outcome) => return outcome,
            };
        }
    }

    fn setup(&mut self, address: u8) -> Result<SoilSensor, SetupError> {
        let probe = SoilSensor::probe(address)?;
        let reply = self.run(probe);
        SoilSensor::identify(address, reply)
    }
}

fn sensor_at(address: u8) -> SoilSensor {
    StubBus::answering(&[0x55]).setup(address).unwrap()
}

const NACK: I2CError = I2CError(AbortReason::NoAcknowledge);

#[test]
fn invalid_address_fails_before_the_bus() {
    for address in 0..=255u8 {
        if (0x36..=0x39).contains(&address) {
            continue;
        }
        let mut bus = StubBus::answering(&[0x55]);
        assert_eq!(bus.setup(address).err(), Some(SetupError::InvalidI2CAddress { address }));
        assert!(bus.log.is_empty());
        assert_eq!(
            SoilSensor::identify(address, Ok(vec![0x55])).err(),
            Some(SetupError::InvalidI2CAddress { address })
        );
    }
}

#[test]
fn valid_addresses_are_probed() {
    for address in 0x36..=0x39u8 {
        let mut bus = StubBus::answering(&[0x55]);
        let sensor = bus.setup(address).unwrap();
        assert_eq!(sensor.address(), address);
        assert_eq!(bus.log, vec![Op::Write(address, 0x00, 0x01), Op::Wait(125), Op::Read(address, 1)]);
    }
}

#[test]
fn default_probe_uses_address_0x36() {
    let mut bus = StubBus::answering(&[0x55]);
    let reply = bus.run(SoilSensor::probe_default());
    let sensor = SoilSensor::identify(DEFAULT_ADDRESS, reply).unwrap();
    assert_eq!(sensor.address(), 0x36);
    assert_eq!(bus.log[0], Op::Write(0x36, 0x00, 0x01));
}

#[test]
fn setup_succeeds_only_on_hw_id_0x55() {
    for id in 0..=255u8 {
        let result = StubBus::answering(&[id]).setup(0x37);
        if id == 0x55 {
            assert_eq!(result.unwrap().address(), 0x37);
        } else {
            assert_eq!(result.err(), Some(SetupError::InvalidDevice { hw_id: id }));
        }
    }
    assert_eq!(
        StubBus::answering(&[0x00]).setup(0x36).err(),
        Some(SetupError::InvalidDevice { hw_id: 0x00 })
    );
    assert_eq!(
        StubBus::answering(&[0xFF]).setup(0x36).err(),
        Some(SetupError::InvalidDevice { hw_id: 0xFF })
    );
}

#[test]
fn setup_bus_failure_is_a_transport_error() {
    let mut bus = StubBus { write: Err(NACK), read: Ok(vec![0x55]), log: Vec::new() };
    assert_eq!(bus.setup(0x36).err(), Some(SetupError::I2C(NACK)));
    let lost = I2CError(AbortReason::ArbitrationLoss);
    let mut bus = StubBus { write: Ok(()), read: Err(lost), log: Vec::new() };
    assert_eq!(bus.setup(0x36).err(), Some(SetupError::I2C(lost)));
}

#[test]
fn temperature_of_zero_is_zero() {
    let sensor = sensor_at(0x36);
    let mut bus = StubBus::answering(&[0x00, 0x00, 0x00, 0x00]);
    let reply = bus.run(sensor.temperature_exchange());
    assert_eq!(SoilSensor::temperature(reply), Ok(0));
}

#[test]
fn temperature_of_65536_is_one_degree() {
    let sensor = sensor_at(0x36);
    let mut bus = StubBus::answering(&[0x00, 0x01, 0x00, 0x00]);
    let reply = bus.run(sensor.temperature_exchange());
    assert_eq!(SoilSensor::temperature(reply), Ok(1));
}

#[test]
fn temperature_rounds_half_up() {
    assert_eq!(celsius_from_raw(25 * 65536), 25);
    assert_eq!(celsius_from_raw(25 * 65536 + 32768 + 100), 26);
    assert_eq!(celsius_from_raw(25 * 65536 + 32768 - 100), 25);
    assert_eq!(celsius_from_raw(32767), 0);
}

#[test]
fn negative_temperature_keeps_its_sign() {
    assert_eq!(i32_from_be_bytes(&[0xFF, 0xFF, 0x00, 0x00]), -65536);
    assert_eq!(SoilSensor::temperature(Ok(vec![0xFF, 0xFF, 0x00, 0x00])), Ok(0));
    assert_eq!(SoilSensor::temperature(Ok(vec![0xFF, 0xFE, 0x00, 0x00])), Ok(-1));
    assert_eq!(SoilSensor::temperature(Ok(vec![0xFF, 0xF6, 0x00, 0x00])), Ok(-9));
    assert_eq!(celsius_from_raw(i32::MIN), -32767);
    assert_eq!(celsius_from_raw(i32::MAX), 32768);
}

#[test]
fn big_endian_bytes() {
    assert_eq!(i32_from_be_bytes(&[0x12, 0x34, 0x56, 0x78]), 0x12345678);
    assert_eq!(i32_from_be_bytes(&[0x80, 0x00, 0x00, 0x00]), i32::MIN);
    assert_eq!(u16_from_be_bytes(&[0x12, 0x34]), 0x1234);
}

#[test]
fn moisture_1000() {
    let sensor = sensor_at(0x38);
    let mut bus = StubBus::answering(&[0x03, 0xE8]);
    let reply = bus.run(sensor.moisture_exchange());
    assert_eq!(SoilSensor::moisture(reply), Ok(1000));
}

#[test]
fn moisture_65535() {
    let sensor = sensor_at(0x36);
    let mut bus = StubBus::answering(&[0xFF, 0xFF]);
    let reply = bus.run(sensor.moisture_exchange());
    assert_eq!(SoilSensor::moisture(reply), Ok(65535));
}

#[test]
fn each_exchange_writes_waits_and_reads_once() {
    let sensor = sensor_at(0x39);
    let mut bus = StubBus::answering(&[0x01, 0x02]);
    bus.run(sensor.moisture_exchange()).unwrap();
    assert_eq!(bus.log, vec![Op::Write(0x39, 0x0F, 0x10), Op::Wait(5000), Op::Read(0x39, 2)]);
    let mut bus = StubBus::answering(&[0, 0, 0, 0]);
    bus.run(sensor.temperature_exchange()).unwrap();
    assert_eq!(bus.log, vec![Op::Write(0x39, 0x00, 0x04), Op::Wait(125), Op::Read(0x39, 4)]);
    let mut bus = StubBus::answering(&[0x55]);
    assert_eq!(SoilSensor::hw_id(bus.run(sensor.hw_id_exchange())), Ok(0x55));
    assert_eq!(bus.log, vec![Op::Write(0x39, 0x00, 0x01), Op::Wait(125), Op::Read(0x39, 1)]);
}

#[test]
fn failed_write_stops_the_exchange() {
    let sensor = sensor_at(0x36);
    let mut bus = StubBus { write: Err(NACK), read: Ok(vec![0, 0]), log: Vec::new() };
    let reply = bus.run(sensor.moisture_exchange());
    assert_eq!(bus.log, vec![Op::Write(0x36, 0x0F, 0x10)]);
    assert_eq!(SoilSensor::moisture(reply), Err(NACK));
}

#[test]
fn failed_read_surfaces_unchanged() {
    let sensor = sensor_at(0x36);
    let failure = I2CError(AbortReason::TxNotEmpty(7));
    let mut bus = StubBus { write: Ok(()), read: Err(failure), log: Vec::new() };
    let reply = bus.run(sensor.temperature_exchange());
    assert_eq!(bus.log.len(), 3);
    assert_eq!(SoilSensor::temperature(reply), Err(failure));
    let reply = bus.run(sensor.moisture_exchange());
    assert_eq!(SoilSensor::moisture(reply), Err(failure));
}

#[test]
fn repeated_readings_agree() {
    let sensor = sensor_at(0x36);
    let mut bus = StubBus::answering(&[0x00, 0x19, 0x80, 0x00]);
    let first = SoilSensor::temperature(bus.run(sensor.temperature_exchange()));
    let second = SoilSensor::temperature(bus.run(sensor.temperature_exchange()));
    assert_eq!(first, Ok(25));
    assert_eq!(first, second);
    let mut bus = StubBus::answering(&[0x02, 0x58]);
    let first = SoilSensor::moisture(bus.run(sensor.moisture_exchange()));
    let second = SoilSensor::moisture(bus.run(sensor.moisture_exchange()));
    assert_eq!(first, Ok(600));
    assert_eq!(first, second);
}

#[test]
fn exchange_rejects_events_out_of_order() {
    let mut exchange = Exchange::new(0x36, Register::Moisture);
    assert_eq!(exchange.phase(), Phase::Idle);
    assert!(!exchange.accepts(&Event::Waited));
    assert!(!exchange.accepts(&Event::Written(Ok(()))));
    exchange.step(Event::Start);
    assert_eq!(exchange.phase(), Phase::Writing);
    assert!(!exchange.accepts(&Event::Start));
    exchange.step(Event::Written(Ok(())));
    exchange.step(Event::Waited);
    assert_eq!(exchange.phase(), Phase::Reading);
    assert!(!exchange.accepts(&Event::Received(Ok(vec![1, 2, 3]))));
    assert!(exchange.accepts(&Event::Received(Ok(vec![1, 2]))));
    assert!(exchange.accepts(&Event::Received(Err(NACK))));
    exchange.step(Event::Received(Err(NACK)));
    assert_eq!(exchange.phase(), Phase::Finished);
    assert!(!exchange.accepts(&Event::Start));
}

#[test]
fn register_map() {
    assert_eq!(Register::HardwareId.pair(), (0x00, 0x01));
    assert_eq!(Register::Temperature.pair(), (0x00, 0x04));
    assert_eq!(Register::Moisture.pair(), (0x0F, 0x10));
    assert_eq!(Register::HardwareId.response_len(), 1);
    assert_eq!(Register::Temperature.response_len(), 4);
    assert_eq!(Register::Moisture.response_len(), 2);
    assert_eq!(Register::HardwareId.settle_micros(), 125);
    assert_eq!(Register::Temperature.settle_micros(), 125);
    assert_eq!(Register::Moisture.settle_micros(), 5000);
}

#[test]
fn bus_errors() {
    let abort = BusError::Abort(AbortReason::Other(3));
    assert!(abort.is_abort());
    assert_eq!(I2CError::from(abort), I2CError(AbortReason::Other(3)));
    assert!(!BusError::InvalidReadBufferLength.is_abort());
    assert!(!BusError::InvalidWriteBufferLength.is_abort());
    assert!(!BusError::AddressOutOfRange(0x400).is_abort());
    assert!(!BusError::AddressReserved(0x03).is_abort());
    assert_eq!(SetupError::from(NACK), SetupError::I2C(NACK));
}
