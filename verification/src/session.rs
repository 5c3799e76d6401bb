//! A session with one adapter, and the exchanges that run on it.
//!
//! Every I2C operation is one exchange: first a probe that asks whether the addressed
//! device acknowledges, then the operation's own frames. The crate performs no
//! transfer. An exchange hands out one transfer at a time, as a [`Step`]; the caller
//! carries it out on the named bulk endpoint, within [`DEFAULT_USB_TIMEOUT_MS`], and
//! answers with what the USB layer returned. A transfer that is pending takes only the
//! kind of answer that fits it, so an exchange cannot be answered out of turn.
//!
//! One exchange runs on a session at a time: the adapter drives a single bus, and
//! frames of two operations must not interleave.

use vstd::prelude::*;
use vstd::slice::slice_to_vec;
use crate::discovery::{bulk_pair, find_bulk_endpoints, InterfaceInfo};
use crate::error::{Error, TransferFault};
use crate::exchange::{begin, probe_verdict, Exchange, Next, Operation, Yield};
use crate::frame::{
    encode_check, encode_read, encode_set_speed, encode_write, encode_write_then_read,
    read_frame, speed_frame,
};
use crate::speed::I2CSpeed;

verus! {

/// Time limit of one bulk transfer, in milliseconds.
pub const DEFAULT_USB_TIMEOUT_MS: u64 = 1000;

/// Most bytes the adapter returns in one bulk transfer.
pub const RESPONSE_CAPACITY: usize = 32;

/// A session with one adapter: the addresses of its two bulk endpoints, fixed when the
/// session is opened, and the bus clock it was last set to.
///
/// A session exists from the moment its first set-speed command is made, so it
/// always has a speed. The command is sent once, not with every operation.
#[derive(Clone, Copy, Debug, PartialEq, Eq)]
pub struct Device {
    ep_in: u8,
    ep_out: u8,
    speed: I2CSpeed,
}

/// What an operation yields when it succeeds.
#[derive(Debug, PartialEq, Eq)]
pub enum Outcome {
    /// The bytes that were read: as many as were asked for.
    Data(Vec<u8>),
    /// The number of bytes of the write frame that went out.
    Written(usize),
}

/// The fixed part of an exchange and the place it has reached.
#[derive(Debug, PartialEq, Eq)]
struct Progress {
    ep_out: u8,
    ep_in: u8,
    operation: Operation,
    address: u8,
    payload: Vec<u8>,
    length: usize,
    position: u8,
}

/// An exchange whose pending transfer is a send. It is answered by [`SendPending::sent`].
#[derive(Debug, PartialEq, Eq)]
pub struct SendPending {
    state: Progress,
    /// The read frame of a write followed by a read, kept while the write goes out.
    queued: Vec<u8>,
}

/// An exchange whose pending transfer is a receive. It is answered by
/// [`ReceivePending::received`].
#[derive(Debug, PartialEq, Eq)]
pub struct ReceivePending {
    state: Progress,
}

/// What the caller does next.
#[derive(Debug, PartialEq, Eq)]
#[allow(inconsistent_fields)]
pub enum Step {
    /// Send `data` to the bulk OUT endpoint `endpoint`, then call `pending.sent`.
    Send { pending: SendPending, endpoint: u8, data: Vec<u8> },
    /// Take up to `capacity` bytes from the bulk IN endpoint `endpoint`, then call
    /// `pending.received`.
    Receive { pending: ReceivePending, endpoint: u8, capacity: usize },
    /// Nothing: the exchange is over, with this result.
    Finished(Result<Outcome, Error>),
}

impl View for Outcome {
    type V = Yield;

    open spec fn view(&self) -> Yield {
        match self {
            Outcome::Data(bytes) => Yield::Data(bytes@),
            Outcome::Written(count) => Yield::Written(*count),
        }
    }
}

impl Progress {
    spec fn view(&self) -> Exchange {
        Exchange {
            ep_out: self.ep_out,
            ep_in: self.ep_in,
            operation: self.operation,
            address: self.address,
            payload: self.payload@,
            length: self.length as nat,
            position: self.position as nat,
        }
    }
}

impl View for SendPending {
    type V = Exchange;

    closed spec fn view(&self) -> Exchange {
        self.state@
    }
}

impl View for ReceivePending {
    type V = Exchange;

    closed spec fn view(&self) -> Exchange {
        self.state@
    }
}

impl View for Step {
    type V = Next;

    open spec fn view(&self) -> Next {
        match self {
            Step::Send { pending, endpoint, data } => Next::Send {
                pending: pending@,
                endpoint: *endpoint,
                data: data@,
            },
            Step::Receive { pending, endpoint, capacity } => Next::Receive {
                pending: pending@,
                endpoint: *endpoint,
                capacity: *capacity,
            },
            Step::Finished(result) => Next::Finished(
                match result {
                    Ok(outcome) => Ok(outcome@),
                    Err(e) => Err(*e),
                },
            ),
        }
    }
}

/// The bytes of a receive's answer, as a sequence.
pub open spec fn received_view(reply: Result<Vec<u8>, TransferFault>) -> Result<
    Seq<u8>,
    TransferFault,
> {
    match reply {
        Ok(bytes) => Ok(bytes@),
        Err(fault) => Err(fault),
    }
}

/// Judges the adapter's answer to a probe: an empty answer is a short read, a first
/// byte with the top bit set means that the device did not acknowledge.
pub fn check_response(response: &[u8]) -> (r: Result<(), Error>)
    ensures
        r == probe_verdict(response@),
{
    if response.len() == 0 {
        Err(Error::ShortRead)
    } else if response[0] & 0x80 != 0 {
        Err(Error::NoAcknowledge)
    } else {
        Ok(())
    }
}

impl SendPending {
    #[verifier::type_invariant]
    spec fn inv(self) -> bool {
        &&& self.state@.wf()
        &&& self.state@.awaited() is Send
        &&& self.state.operation == Operation::WriteRead && self.state.position == 2
            ==> self.queued@ == read_frame(self.state.address, self.state.length as nat)
    }

    /// Takes the answer to the pending send: the number of bytes that went out, or the
    /// fault. Says what to do next.
    pub fn sent(self, reply: Result<usize, TransferFault>) -> (step: Step)
        ensures
            step@ == self@.after_sent(reply),
    {
        proof {
            use_type_invariant(&self);
        }
        let SendPending { state, queued } = self;
        match reply {
            Err(fault) => Step::Finished(Err(Error::Transport(fault))),
            Ok(count) => {
                let mut state = state;
                let ep_in = state.ep_in;
                let ep_out = state.ep_out;
                if state.position == 0 {
                    state.position = 1;
                    Step::Receive {
                        pending: ReceivePending { state },
                        endpoint: ep_in,
                        capacity: RESPONSE_CAPACITY,
                    }
                } else {
                    match state.operation {
                        Operation::Read => {
                            state.position = 3;
                            Step::Receive {
                                pending: ReceivePending { state },
                                endpoint: ep_in,
                                capacity: RESPONSE_CAPACITY,
                            }
                        },
                        Operation::Write => Step::Finished(Ok(Outcome::Written(count))),
                        Operation::WriteRead => {
                            if state.position == 2 {
                                state.position = 3;
                                Step::Send {
                                    pending: SendPending { state, queued: Vec::new() },
                                    endpoint: ep_out,
                                    data: queued,
                                }
                            } else {
                                state.position = 4;
                                Step::Receive {
                                    pending: ReceivePending { state },
                                    endpoint: ep_in,
                                    capacity: RESPONSE_CAPACITY,
                                }
                            }
                        },
                    }
                }
            },
        }
    }
}

impl ReceivePending {
    #[verifier::type_invariant]
    spec fn inv(self) -> bool {
        &&& self.state@.wf()
        &&& self.state@.awaited() is Receive
    }

    /// Takes the answer to the pending receive: the bytes that came in, or the fault.
    /// Says what to do next.
    pub fn received(self, reply: Result<Vec<u8>, TransferFault>) -> (step: Step)
        ensures
            step@ == self@.after_received(received_view(reply)),
    {
        proof {
            use_type_invariant(&self);
        }
        let ReceivePending { state } = self;
        match reply {
            Err(fault) => Step::Finished(Err(Error::Transport(fault))),
            Ok(bytes) => {
                if state.position == 1 {
                    match check_response(bytes.as_slice()) {
                        Err(e) => Step::Finished(Err(e)),
                        Ok(_) => start_data(state),
                    }
                } else if bytes.len() < state.length {
                    Step::Finished(Err(Error::ShortRead))
                } else {
                    let mut data = bytes;
                    data.truncate(state.length);
                    Step::Finished(Ok(Outcome::Data(data)))
                }
            },
        }
    }
}

/// Starts the data phase: builds the operation's frames and hands out the first, or
/// ends the exchange if they cannot be built.
fn start_data(state: Progress) -> (step: Step)
    ensures
        step@ == state@.at(2).proceed(),
{
    let mut state = state;
    let ep_out = state.ep_out;
    match state.operation {
        Operation::Read => match encode_read(state.address, state.length) {
            Ok(frame) => {
                state.position = 2;
                Step::Send {
                    pending: SendPending { state, queued: Vec::new() },
                    endpoint: ep_out,
                    data: frame,
                }
            },
            Err(e) => Step::Finished(Err(e)),
        },
        Operation::Write => match encode_write(state.address, state.payload.as_slice()) {
            Ok(frame) => {
                state.position = 2;
                Step::Send {
                    pending: SendPending { state, queued: Vec::new() },
                    endpoint: ep_out,
                    data: frame,
                }
            },
            Err(e) => Step::Finished(Err(e)),
        },
        Operation::WriteRead => match encode_write_then_read(
            state.address,
            state.payload.as_slice(),
            state.length,
        ) {
            Ok((opening, reading)) => {
                state.position = 2;
                Step::Send {
                    pending: SendPending { state, queued: reading },
                    endpoint: ep_out,
                    data: opening,
                }
            },
            Err(e) => Step::Finished(Err(e)),
        },
    }
}

/// Begins an exchange: hands out the check frame.
fn start_probe(
    device: &Device,
    operation: Operation,
    address: u8,
    payload: Vec<u8>,
    length: usize,
) -> (step: Step)
    ensures
        step@ == begin(device.ep_out, device.ep_in, operation, address, payload@, length as nat),
{
    let state = Progress {
        ep_out: device.ep_out,
        ep_in: device.ep_in,
        operation,
        address,
        payload,
        length,
        position: 0,
    };
    Step::Send {
        pending: SendPending { state, queued: Vec::new() },
        endpoint: device.ep_out,
        data: encode_check(address),
    }
}

impl Device {
    /// Address of the bulk IN endpoint.
    pub closed spec fn spec_ep_in(&self) -> u8 {
        self.ep_in
    }

    /// Address of the bulk OUT endpoint.
    pub closed spec fn spec_ep_out(&self) -> u8 {
        self.ep_out
    }

    /// The bus clock the session was last set to.
    pub closed spec fn spec_speed(&self) -> I2CSpeed {
        self.speed
    }

    /// Address of the bulk IN endpoint.
    #[verifier::when_used_as_spec(spec_ep_in)]
    pub fn ep_in(&self) -> (a: u8)
        ensures
            a == self.spec_ep_in(),
    {
        self.ep_in
    }

    /// Address of the bulk OUT endpoint.
    #[verifier::when_used_as_spec(spec_ep_out)]
    pub fn ep_out(&self) -> (a: u8)
        ensures
            a == self.spec_ep_out(),
    {
        self.ep_out
    }

    /// The bus clock the session was last set to.
    #[verifier::when_used_as_spec(spec_speed)]
    pub fn speed(&self) -> (s: I2CSpeed)
        ensures
            s == self.spec_speed(),
    {
        self.speed
    }

    /// Sets the bus clock. Returns the command to send to the bulk OUT endpoint; the
    /// session keeps the new speed and its endpoints.
    pub fn set_speed(&mut self, speed: I2CSpeed) -> (command: Vec<u8>)
        ensures
            command@ == speed_frame(speed),
            final(self).spec_speed() == speed,
            final(self).spec_ep_in() == old(self).spec_ep_in(),
            final(self).spec_ep_out() == old(self).spec_ep_out(),
    {
        self.speed = speed;
        encode_set_speed(speed)
    }

    /// Begins reading `length` bytes from the device at `address`.
    pub fn read(&self, address: u8, length: usize) -> (step: Step)
        ensures
            step@ == begin(
                self.spec_ep_out(),
                self.spec_ep_in(),
                Operation::Read,
                address,
                Seq::empty(),
                length as nat,
            ),
    {
        start_probe(self, Operation::Read, address, Vec::new(), length)
    }

    /// Begins writing `bytes` to the device at `address`.
    pub fn write(&self, address: u8, bytes: &[u8]) -> (step: Step)
        ensures
            step@ == begin(
                self.spec_ep_out(),
                self.spec_ep_in(),
                Operation::Write,
                address,
                bytes@,
                0,
            ),
    {
        start_probe(self, Operation::Write, address, slice_to_vec(bytes), 0)
    }

    /// Begins writing `bytes` to the device at `address` and then reading `length`
    /// bytes from it, within one bus transaction.
    pub fn write_read(&self, address: u8, bytes: &[u8], length: usize) -> (step: Step)
        ensures
            step@ == begin(
                self.spec_ep_out(),
                self.spec_ep_in(),
                Operation::WriteRead,
                address,
                bytes@,
                length as nat,
            ),
    {
        start_probe(self, Operation::WriteRead, address, slice_to_vec(bytes), length)
    }
}

/// Opens a session on a device whose interfaces are `interfaces`. Returns the session
/// and the command that sets the bus to the standard speed, to be sent to the bulk
/// OUT endpoint before anything else. A device without the two bulk endpoints is
/// refused.
pub fn new(interfaces: &Vec<InterfaceInfo>) -> (r: Result<(Device, Vec<u8>), Error>)
    ensures
        match r {
            Ok(opened) => {
                &&& bulk_pair(interfaces@) == Some((opened.0.spec_ep_out(), opened.0.spec_ep_in()))
                &&& opened.0.spec_speed() == I2CSpeed::Standard
                &&& opened.1@ == speed_frame(I2CSpeed::Standard)
            },
            Err(e) => bulk_pair(interfaces@) is None && e == Error::NotFound,
        },
{
    match find_bulk_endpoints(interfaces) {
        Ok((ep_out, ep_in)) => {
            let mut device = Device { ep_in, ep_out, speed: I2CSpeed::Standard };
            let command = device.set_speed(I2CSpeed::Standard);
            Ok((device, command))
        },
        Err(e) => Err(e),
    }
}

} // verus!
