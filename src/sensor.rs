//! The soil sensor: address and identity checks, and readings.

use crate::decode::{be_i32, be_u16, celsius, celsius_from_raw, i32_from_be_bytes, u16_from_be_bytes};
use crate::error::{I2CError, SetupError};
use crate::exchange::{next_action, next_state, Action, Event, Exchange, ExchangeState, Phase};
use crate::seesaw::{Register, SENSOR_HW_ID_CODE};
use vstd::prelude::*;

verus! {

/// The address a soil sensor answers on unless configured otherwise.
pub const DEFAULT_ADDRESS: u8 = 0x36;

/// The lowest address a soil sensor can be configured to.
pub const MIN_ADDRESS: u8 = 0x36;

/// The highest address a soil sensor can be configured to.
pub const MAX_ADDRESS: u8 = 0x39;

pub open spec fn valid_address(address: u8) -> bool {
    MIN_ADDRESS <= address <= MAX_ADDRESS
}

/// The hardware id in a reply to the hardware-id register.
pub open spec fn hw_id_reading(reply: Result<Vec<u8>, I2CError>) -> Result<u8, I2CError> {
    match reply {
        Ok(bytes) => Ok(bytes@[0]),
        Err(failure) => Err(failure),
    }
}

/// The temperature, in degrees Celsius, in a reply to the temperature
/// register.
pub open spec fn temperature_reading(reply: Result<Vec<u8>, I2CError>) -> Result<i32, I2CError> {
    match reply {
        Ok(bytes) => Ok(celsius(be_i32(bytes@)) as i32),
        Err(failure) => Err(failure),
    }
}

/// The moisture count in a reply to the moisture channel, as the device
/// gives it.
pub open spec fn moisture_reading(reply: Result<Vec<u8>, I2CError>) -> Result<u16, I2CError> {
    match reply {
        Ok(bytes) => Ok(be_u16(bytes@) as u16),
        Err(failure) => Err(failure),
    }
}

/// How setting up a sensor at `address` ends, given the reply to the
/// hardware-id probe: the sensor's address, or the error.
pub open spec fn setup_result(address: u8, reply: Result<Vec<u8>, I2CError>) -> Result<
    u8,
    SetupError,
> {
    if !valid_address(address) {
        Err(SetupError::InvalidI2CAddress { address })
    } else {
        match reply {
            Err(failure) => Err(SetupError::I2C(failure)),
            Ok(bytes) => if bytes@[0] == SENSOR_HW_ID_CODE {
                Ok(address)
            } else {
                Err(SetupError::InvalidDevice { hw_id: bytes@[0] })
            },
        }
    }
}

/// The first state of an exchange that reads `register` at `address`.
pub open spec fn fresh(address: u8, register: Register) -> ExchangeState {
    ExchangeState { address, register, phase: Phase::Idle }
}

/// Setup succeeds exactly on the soil sensor's hardware id. At a valid
/// address, a one-byte reply to the probe sets up a sensor at that address
/// if the byte is 0x55, and otherwise fails with `InvalidDevice` holding the
/// byte that was read.
pub proof fn lemma_setup_checks_hw_id(address: u8, bytes: Vec<u8>)
    requires
        valid_address(address),
        bytes@.len() == 1,
    ensures
        setup_result(address, Ok(bytes)) is Ok <==> bytes@[0] == 0x55,
        bytes@[0] == 0x55 ==> setup_result(address, Ok(bytes)) == Ok::<u8, SetupError>(address),
        bytes@[0] != 0x55 ==> setup_result(address, Ok(bytes)) == Err::<u8, SetupError>(
            SetupError::InvalidDevice { hw_id: bytes@[0] },
        ),
{
}

/// A failed read surfaces unchanged. When the write of an exchange goes
/// through and its read fails, the exchange ends with the read's failure;
/// every reading made of that reply is that same failure, with no value; and
/// setup made of it fails with the failure as its bus error.
pub proof fn lemma_read_failure_surfaces(s0: ExchangeState, failure: I2CError, address: u8)
    requires
        s0.phase == Phase::Idle,
        valid_address(address),
    ensures
        ({
            let s1 = next_state(s0, Event::Start);
            let s2 = next_state(s1, Event::Written(Ok(())));
            let s3 = next_state(s2, Event::Waited);
            next_action(s3, Event::Received(Err(failure))) == Action::Finish(Err(failure))
        }),
        hw_id_reading(Err(failure)) == Err::<u8, I2CError>(failure),
        temperature_reading(Err(failure)) == Err::<i32, I2CError>(failure),
        moisture_reading(Err(failure)) == Err::<u16, I2CError>(failure),
        setup_result(address, Err(failure)) == Err::<u8, SetupError>(SetupError::I2C(failure)),
{
}

/// Readings keep no state: replies with the same bytes decode to the same
/// reading. A sensor is not changed by starting an exchange (the exchanges
/// borrow it shared, and start from a state made of its address alone), so
/// a device that keeps answering the same bytes keeps giving the same reading.
pub proof fn lemma_readings_repeat(first: Vec<u8>, second: Vec<u8>)
    requires
        first@ == second@,
    ensures
        temperature_reading(Ok(first)) == temperature_reading(Ok(second)),
        moisture_reading(Ok(first)) == moisture_reading(Ok(second)),
        hw_id_reading(Ok(first)) == hw_id_reading(Ok(second)),
{
}

/// A soil sensor whose address is valid and whose hardware id has been
/// checked. The only way to get one is [`SoilSensor::identify`] with a
/// reply that holds the soil sensor's hardware id.
pub struct SoilSensor {
    address: u8,
}

impl SoilSensor {
    #[verifier::type_invariant]
    spec fn inv(self) -> bool {
        valid_address(self.address)
    }

    pub closed spec fn spec_address(self) -> u8 {
        self.address
    }

    /// The address of the sensor on the bus.
    pub fn address(&self) -> (r: u8)
        ensures
            r == self.spec_address(),
            valid_address(r),
    {
        proof {
            use_type_invariant(self);
        }
        self.address
    }

    /// Begins setting up a sensor at `address`. An address outside 0x36 to
    /// 0x39 fails at once, before anything is done on the bus; otherwise the
    /// result is the exchange that reads the hardware id, whose reply goes to
    /// [`SoilSensor::identify`].
    pub fn probe(address: u8) -> (r: Result<Exchange, SetupError>)
        ensures
            r is Ok <==> valid_address(address),
            r matches Ok(ex) ==> ex@ == fresh(address, Register::HardwareId),
            r matches Err(e) ==> e == (SetupError::InvalidI2CAddress { address }),
    {
        if address < MIN_ADDRESS || address > MAX_ADDRESS {
            return Err(SetupError::InvalidI2CAddress { address });
        }
        Ok(Exchange::new(address, Register::HardwareId))
    }

    /// [`SoilSensor::probe`] at the default address.
    pub fn probe_default() -> (r: Exchange)
        ensures
            r@ == fresh(DEFAULT_ADDRESS, Register::HardwareId),
    {
        Exchange::new(DEFAULT_ADDRESS, Register::HardwareId)
    }

    /// Ends setting up a sensor at `address`, given the reply to the
    /// hardware-id probe. The sensor is returned only where the address is
    /// valid and the reply holds the soil sensor's hardware id.
    pub fn identify(address: u8, reply: Result<Vec<u8>, I2CError>) -> (r: Result<
        SoilSensor,
        SetupError,
    >)
        requires
            reply matches Ok(bytes) ==> bytes@.len() == 1,
        ensures
            r matches Ok(sensor) ==> setup_result(address, reply) == Ok::<u8, SetupError>(
                sensor.spec_address(),
            ),
            r matches Err(e) ==> setup_result(address, reply) == Err::<u8, SetupError>(e),
    {
        if address < MIN_ADDRESS || address > MAX_ADDRESS {
            return Err(SetupError::InvalidI2CAddress { address });
        }
        let hw_id = match Self::hw_id(reply) {
            Ok(hw_id) => hw_id,
            Err(failure) => return Err(SetupError::from(failure)),
        };
        if hw_id == SENSOR_HW_ID_CODE {
            Ok(SoilSensor { address })
        } else {
            Err(SetupError::InvalidDevice { hw_id })
        }
    }

    /// The exchange that reads the hardware id of this sensor.
    pub fn hw_id_exchange(&self) -> (r: Exchange)
        ensures
            r@ == fresh(self.spec_address(), Register::HardwareId),
    {
        Exchange::new(self.address, Register::HardwareId)
    }

    /// The exchange that reads the temperature of this sensor.
    pub fn temperature_exchange(&self) -> (r: Exchange)
        ensures
            r@ == fresh(self.spec_address(), Register::Temperature),
    {
        Exchange::new(self.address, Register::Temperature)
    }

    /// The exchange that reads the moisture of this sensor.
    pub fn moisture_exchange(&self) -> (r: Exchange)
        ensures
            r@ == fresh(self.spec_address(), Register::Moisture),
    {
        Exchange::new(self.address, Register::Moisture)
    }

    /// The hardware id in a reply to the hardware-id exchange.
    pub fn hw_id(reply: Result<Vec<u8>, I2CError>) -> (r: Result<u8, I2CError>)
        requires
            reply matches Ok(bytes) ==> bytes@.len() == 1,
        ensures
            r == hw_id_reading(reply),
    {
        match reply {
            Ok(bytes) => Ok(bytes[0]),
            Err(failure) => Err(failure),
        }
    }

    /// The temperature, in degrees Celsius, in a reply to the temperature
    /// exchange. The sensor is good to about two degrees either way.
    pub fn temperature(reply: Result<Vec<u8>, I2CError>) -> (r: Result<i32, I2CError>)
        requires
            reply matches Ok(bytes) ==> bytes@.len() == 4,
        ensures
            r == temperature_reading(reply),
    {
        match reply {
            Ok(bytes) => Ok(celsius_from_raw(i32_from_be_bytes(bytes.as_slice()))),
            Err(failure) => Err(failure),
        }
    }

    /// The moisture count in a reply to the moisture exchange: about 200
    /// when very dry to about 2000 when very wet.
    pub fn moisture(reply: Result<Vec<u8>, I2CError>) -> (r: Result<u16, I2CError>)
        requires
            reply matches Ok(bytes) ==> bytes@.len() == 2,
        ensures
            r == moisture_reading(reply),
    {
        match reply {
            Ok(bytes) => Ok(u16_from_be_bytes(bytes.as_slice())),
            Err(failure) => Err(failure),
        }
    }
}

} // verus!
