//! The register transaction of the seesaw protocol, as a state machine.
//!
//! Reading a register takes three bus operations: write the register pair to
//! the device, wait the register's settle time, read the reply. The caller
//! owns the bus and the timer. It feeds [`Event::Start`] to an [`Exchange`],
//! performs the [`Action`] it gets back, reports how that went as the next
//! [`Event`], and so on until the action is [`Action::Finish`].

use crate::error::I2CError;
use crate::seesaw::Register;
use vstd::prelude::*;

verus! {

/// Where an exchange stands.
#[derive(Clone, Copy, Debug, PartialEq, Eq, Structural)]
pub enum Phase {
    /// Not started yet.
    Idle,
    /// The register pair is being written.
    Writing,
    /// The device is given its settle time.
    Waiting,
    /// The reply is being read.
    Reading,
    /// Over; nothing more is done on the bus.
    Finished,
}

/// What the caller is to do next.
#[derive(Debug)]
pub enum Action {
    /// Write the two bytes `[base, offset]` to the device at `address`.
    Write { address: u8, base: u8, offset: u8 },
    /// Wait `micros` microseconds.
    Wait { micros: u64 },
    /// Read `len` bytes from the device at `address`.
    Read { address: u8, len: usize },
    /// The exchange is over, with the bytes read or the failure that ended it.
    Finish(Result<Vec<u8>, I2CError>),
}

/// What happened to the last action.
#[derive(Debug)]
pub enum Event {
    /// Begin the exchange.
    Start,
    /// The write went through, or failed.
    Written(Result<(), I2CError>),
    /// The wait is over.
    Waited,
    /// The read gave these bytes, or failed.
    Received(Result<Vec<u8>, I2CError>),
}

/// The abstract state of an exchange.
pub struct ExchangeState {
    pub address: u8,
    pub register: Register,
    pub phase: Phase,
}

/// Whether `e` is what an exchange in state `s` waits for. A successful read
/// must bring exactly as many bytes as the register answers with.
pub open spec fn expects(s: ExchangeState, e: Event) -> bool {
    match s.phase {
        Phase::Idle => e is Start,
        Phase::Writing => e is Written,
        Phase::Waiting => e is Waited,
        Phase::Reading => match e {
            Event::Received(Ok(bytes)) => bytes@.len() == s.register.spec_response_len(),
            Event::Received(Err(_)) => true,
            _ => false,
        },
        Phase::Finished => false,
    }
}

/// The phase that follows `s` on `e`.
pub open spec fn next_phase(s: ExchangeState, e: Event) -> Phase
    recommends
        expects(s, e),
{
    match e {
        Event::Start => Phase::Writing,
        Event::Written(Ok(_)) => Phase::Waiting,
        Event::Written(Err(_)) => Phase::Finished,
        Event::Waited => Phase::Reading,
        Event::Received(_) => Phase::Finished,
    }
}

/// The action that answers `e` in state `s`.
pub open spec fn next_action(s: ExchangeState, e: Event) -> Action
    recommends
        expects(s, e),
{
    match e {
        Event::Start => Action::Write {
            address: s.address,
            base: s.register.spec_pair().0,
            offset: s.register.spec_pair().1,
        },
        Event::Written(Ok(_)) => Action::Wait { micros: s.register.spec_settle_micros() },
        Event::Written(Err(failure)) => Action::Finish(Err(failure)),
        Event::Waited => Action::Read {
            address: s.address,
            len: s.register.spec_response_len() as usize,
        },
        Event::Received(reply) => Action::Finish(reply),
    }
}

/// The state that follows `s` on `e`.
pub open spec fn next_state(s: ExchangeState, e: Event) -> ExchangeState
    recommends
        expects(s, e),
{
    ExchangeState { phase: next_phase(s, e), ..s }
}

/// The order of an exchange. It accepts only `Start` at first, and answers
/// with one write of the register pair. If that write fails, the exchange ends
/// with the write's failure, and neither waits nor reads. Otherwise it waits
/// once, for the register's settle time, then reads once, the register's
/// response length, and ends with what the read gave. An exchange that has
/// ended accepts nothing more.
pub proof fn lemma_exchange_order(
    s0: ExchangeState,
    written: Result<(), I2CError>,
    received: Result<Vec<u8>, I2CError>,
)
    requires
        s0.phase == Phase::Idle,
        received matches Ok(bytes) ==> bytes@.len() == s0.register.spec_response_len(),
    ensures
        ({
            let s1 = next_state(s0, Event::Start);
            let s2 = next_state(s1, Event::Written(written));
            let s3 = next_state(s2, Event::Waited);
            let s4 = next_state(s3, Event::Received(received));
            &&& forall|e: Event| expects(s0, e) <==> e is Start
            &&& next_action(s0, Event::Start) == (Action::Write {
                address: s0.address,
                base: s0.register.spec_pair().0,
                offset: s0.register.spec_pair().1,
            })
            &&& forall|e: Event| expects(s1, e) <==> e is Written
            &&& match written {
                Err(failure) => {
                    &&& next_action(s1, Event::Written(written)) == Action::Finish(Err(failure))
                    &&& forall|e: Event| !expects(s2, e)
                },
                Ok(_) => {
                    &&& next_action(s1, Event::Written(written)) == (Action::Wait {
                        micros: s0.register.spec_settle_micros(),
                    })
                    &&& forall|e: Event| expects(s2, e) <==> e is Waited
                    &&& next_action(s2, Event::Waited) == (Action::Read {
                        address: s0.address,
                        len: s0.register.spec_response_len() as usize,
                    })
                    &&& expects(s3, Event::Received(received))
                    &&& forall|e: Event| expects(s3, e) ==> e is Received
                    &&& next_action(s3, Event::Received(received)) == Action::Finish(received)
                    &&& forall|e: Event| !expects(s4, e)
                },
            }
        }),
{
}

/// One register transaction with the device at `address`.
pub struct Exchange {
    address: u8,
    register: Register,
    phase: Phase,
}

impl View for Exchange {
    type V = ExchangeState;

    closed spec fn view(&self) -> ExchangeState {
        ExchangeState { address: self.address, register: self.register, phase: self.phase }
    }
}

impl Exchange {
    /// An exchange, not yet started, that reads `register` from the device at
    /// `address`.
    pub fn new(address: u8, register: Register) -> (r: Exchange)
        ensures
            r@ == (ExchangeState { address, register, phase: Phase::Idle }),
    {
        Exchange { address, register, phase: Phase::Idle }
    }

    pub fn phase(&self) -> (r: Phase)
        ensures
            r == self@.phase,
    {
        self.phase
    }

    /// Whether `e` is what this exchange waits for.
    pub fn accepts(&self, e: &Event) -> (r: bool)
        ensures
            r == expects(self@, *e),
    {
        match (self.phase, e) {
            (Phase::Idle, Event::Start) => true,
            (Phase::Writing, Event::Written(_)) => true,
            (Phase::Waiting, Event::Waited) => true,
            (Phase::Reading, Event::Received(Ok(bytes))) => bytes.len()
                == self.register.response_len(),
            (Phase::Reading, Event::Received(Err(_))) => true,
            _ => false,
        }
    }

    /// Takes in what happened to the last action and says what to do next.
    pub fn step(&mut self, e: Event) -> (a: Action)
        requires
            expects(old(self)@, e),
        ensures
            final(self)@ == next_state(old(self)@, e),
            a == next_action(old(self)@, e),
    {
        match e {
            Event::Start => {
                self.phase = Phase::Writing;
                let (base, offset) = self.register.pair();
                Action::Write { address: self.address, base, offset }
            },
            Event::Written(Ok(())) => {
                self.phase = Phase::Waiting;
                Action::Wait { micros: self.register.settle_micros() }
            },
            Event::Written(Err(failure)) => {
                self.phase = Phase::Finished;
                Action::Finish(Err(failure))
            },
            Event::Waited => {
                self.phase = Phase::Reading;
                Action::Read { address: self.address, len: self.register.response_len() }
            },
            Event::Received(reply) => {
                self.phase = Phase::Finished;
                Action::Finish(reply)
            },
        }
    }
}

} // verus!
