//! The course of an exchange with the adapter, as mathematics.
//!
//! An exchange is a plan of bulk transfers, walked one transfer at a time: the
//! probe's two transfers, then the frames of the operation that was asked for. This
//! module says what the plan of each operation is, what follows each answer of the
//! transport, and what holds of every run of an exchange, whatever the transport
//! answers. The executable session in [`crate::session`] is proved to do as this
//! module says.

use vstd::prelude::*;
use crate::error::{Error, TransferFault};
use crate::frame::{check_frame, read_fits, read_frame, write_fits, write_frame, write_phase};
use crate::session::RESPONSE_CAPACITY;

verus! {

/// The three I2C operations.
#[derive(Clone, Copy, Debug, PartialEq, Eq, Structural)]
pub enum Operation {
    /// Read `length` bytes from the device.
    Read,
    /// Write the payload to the device.
    Write,
    /// Write the payload, then read `length` bytes, within one bus transaction.
    WriteRead,
}

/// One bulk transfer.
pub enum Transfer {
    /// Send `data` to the bulk OUT endpoint `endpoint`.
    Send { endpoint: u8, data: Seq<u8> },
    /// Take up to `capacity` bytes from the bulk IN endpoint `endpoint`.
    Receive { endpoint: u8, capacity: usize },
}

/// What the USB layer returned for a transfer.
pub enum Reply {
    /// For a send: how many bytes went out, or the fault.
    Sent(Result<usize, TransferFault>),
    /// For a receive: the bytes that came in, or the fault.
    Received(Result<Seq<u8>, TransferFault>),
}

/// An exchange in progress: the session's endpoints, the operation that was asked for,
/// and `position`, the place in [`Exchange::plan`] of the transfer that is pending.
pub struct Exchange {
    pub ep_out: u8,
    pub ep_in: u8,
    pub operation: Operation,
    pub address: u8,
    /// The bytes to write; empty for a read.
    pub payload: Seq<u8>,
    /// The number of bytes to read; zero for a write.
    pub length: nat,
    pub position: nat,
}

/// What an operation yields when it succeeds.
pub enum Yield {
    /// The bytes that were read.
    Data(Seq<u8>),
    /// The number of bytes of the write frame that went out.
    Written(usize),
}

/// What happens next in an exchange.
pub enum Next {
    /// The transfer `pending.awaited()`, a send, is to be carried out.
    Send { pending: Exchange, endpoint: u8, data: Seq<u8> },
    /// The transfer `pending.awaited()`, a receive, is to be carried out.
    Receive { pending: Exchange, endpoint: u8, capacity: usize },
    /// The exchange is over.
    Finished(Result<Yield, Error>),
}

/// Whether a response byte reports that the device did not acknowledge: its top bit is set.
pub open spec fn is_nack(status: u8) -> bool {
    status & 0x80 != 0
}

/// What the adapter's answer to a probe says: nothing came back, the device did not
/// acknowledge, or all is well. Only the first byte counts.
pub open spec fn probe_verdict(response: Seq<u8>) -> Result<(), Error> {
    if response.len() == 0 {
        Err(Error::ShortRead)
    } else if is_nack(response[0]) {
        Err(Error::NoAcknowledge)
    } else {
        Ok(())
    }
}

impl Exchange {
    /// Whether the operation's lengths fit the frames' length fields.
    pub open spec fn fits(self) -> bool {
        match self.operation {
            Operation::Read => read_fits(self.length),
            Operation::Write => write_fits(self.payload.len()),
            Operation::WriteRead => write_fits(self.payload.len()) && read_fits(self.length),
        }
    }

    /// The probe: send the check frame, then take the adapter's answer.
    pub open spec fn probe(self) -> Seq<Transfer> {
        seq![
            Transfer::Send { endpoint: self.ep_out, data: check_frame(self.address) },
            Transfer::Receive { endpoint: self.ep_in, capacity: RESPONSE_CAPACITY },
        ]
    }

    /// The transfers of the operation itself.
    pub open spec fn data_phase(self) -> Seq<Transfer> {
        match self.operation {
            Operation::Read => seq![
                Transfer::Send {
                    endpoint: self.ep_out,
                    data: read_frame(self.address, self.length),
                },
                Transfer::Receive { endpoint: self.ep_in, capacity: RESPONSE_CAPACITY },
            ],
            Operation::Write => seq![
                Transfer::Send {
                    endpoint: self.ep_out,
                    data: write_frame(self.address, self.payload),
                },
            ],
            Operation::WriteRead => seq![
                Transfer::Send {
                    endpoint: self.ep_out,
                    data: write_phase(self.address, self.payload),
                },
                Transfer::Send {
                    endpoint: self.ep_out,
                    data: read_frame(self.address, self.length),
                },
                Transfer::Receive { endpoint: self.ep_in, capacity: RESPONSE_CAPACITY },
            ],
        }
    }

    /// All transfers of an exchange that nothing cuts short, in order.
    pub open spec fn plan(self) -> Seq<Transfer> {
        self.probe() + self.data_phase()
    }

    /// The transfer that is pending.
    pub open spec fn awaited(self) -> Transfer {
        self.plan()[self.position as int]
    }

    /// The same exchange at another place of its plan.
    pub open spec fn at(self, position: nat) -> Exchange {
        Exchange { position, ..self }
    }

    /// Whether `position` is a place of the plan.
    pub open spec fn wf(self) -> bool {
        self.position < self.plan().len()
    }

    /// Hands out the pending transfer. The data phase does not start for an operation
    /// whose lengths do not fit: the exchange ends there, and no data frame goes out.
    pub open spec fn proceed(self) -> Next {
        if self.position == 2 && !self.fits() {
            Next::Finished(Err(Error::Encoding))
        } else {
            match self.awaited() {
                Transfer::Send { endpoint, data } => Next::Send { pending: self, endpoint, data },
                Transfer::Receive { endpoint, capacity } => Next::Receive {
                    pending: self,
                    endpoint,
                    capacity,
                },
            }
        }
    }

    /// What follows the answer to a pending send. A fault ends the exchange and is
    /// passed on as it is. After the last transfer of a write, the exchange yields
    /// the number of bytes that went out; otherwise the next transfer is handed out.
    pub open spec fn after_sent(self, reply: Result<usize, TransferFault>) -> Next {
        match reply {
            Err(fault) => Next::Finished(Err(Error::Transport(fault))),
            Ok(count) => if self.position + 1 < self.plan().len() {
                self.at(self.position + 1).proceed()
            } else {
                Next::Finished(Ok(Yield::Written(count)))
            },
        }
    }

    /// What follows the answer to a pending receive. A fault ends the exchange and is
    /// passed on as it is. The probe's answer is judged by [`probe_verdict`]; if it is
    /// good, the data phase starts. The data's answer must hold at least the `length`
    /// bytes asked for, and the exchange yields exactly that many.
    pub open spec fn after_received(self, reply: Result<Seq<u8>, TransferFault>) -> Next {
        match reply {
            Err(fault) => Next::Finished(Err(Error::Transport(fault))),
            Ok(bytes) => if self.position < 2 {
                match probe_verdict(bytes) {
                    Err(e) => Next::Finished(Err(e)),
                    Ok(_) => self.at(2).proceed(),
                }
            } else if bytes.len() < self.length {
                Next::Finished(Err(Error::ShortRead))
            } else {
                Next::Finished(Ok(Yield::Data(bytes.take(self.length as int))))
            },
        }
    }
}

/// Whether `reply` is the kind of answer that `transfer` takes.
pub open spec fn answers(reply: Reply, transfer: Transfer) -> bool {
    match (reply, transfer) {
        (Reply::Sent(_), Transfer::Send { .. }) => true,
        (Reply::Received(_), Transfer::Receive { .. }) => true,
        _ => false,
    }
}

/// The beginning of an exchange: its first transfer, the check frame, is handed out.
pub open spec fn begin(
    ep_out: u8,
    ep_in: u8,
    operation: Operation,
    address: u8,
    payload: Seq<u8>,
    length: nat,
) -> Next {
    Exchange { ep_out, ep_in, operation, address, payload, length, position: 0 }.proceed()
}

/// What an exchange did: the transfers it handed out, in order, and its result if it
/// came to an end.
pub struct Trace {
    pub transfers: Seq<Transfer>,
    pub result: Option<Result<Yield, Error>>,
}

/// The reaction of an exchange to the answer to its pending transfer.
pub open spec fn react(pending: Exchange, reply: Reply) -> Next {
    match reply {
        Reply::Sent(result) => pending.after_sent(result),
        Reply::Received(result) => pending.after_received(result),
    }
}

/// Runs an exchange from `next` on against a transport that gives the answers
/// `replies`, in order. Each transfer that is handed out is carried out and takes the
/// next answer. The run stops when the exchange is over; it also stops, without a
/// result, when the answers run out or one is not of the kind the transfer takes.
pub open spec fn run(next: Next, replies: Seq<Reply>) -> Trace
    decreases replies.len(), 1int,
{
    match next {
        Next::Finished(result) => Trace { transfers: Seq::empty(), result: Some(result) },
        Next::Send { pending, endpoint, data } => carry_out(
            pending,
            Transfer::Send { endpoint, data },
            replies,
        ),
        Next::Receive { pending, endpoint, capacity } => carry_out(
            pending,
            Transfer::Receive { endpoint, capacity },
            replies,
        ),
    }
}

/// Carries out `transfer` for `pending` and runs on with the answer it takes.
pub open spec fn carry_out(pending: Exchange, transfer: Transfer, replies: Seq<Reply>) -> Trace
    decreases replies.len(), 0int,
{
    if replies.len() == 0 || !answers(replies[0], transfer) {
        Trace { transfers: seq![transfer], result: None }
    } else {
        let rest = run(react(pending, replies[0]), replies.skip(1));
        Trace { transfers: seq![transfer] + rest.transfers, result: rest.result }
    }
}

/// One step of [`run`]: a send that is answered by a send's reply.
proof fn lemma_run_send(pending: Exchange, endpoint: u8, data: Seq<u8>, replies: Seq<Reply>)
    requires
        replies.len() > 0,
        replies[0] is Sent,
    ensures
        run(Next::Send { pending, endpoint, data }, replies) == ({
            let rest = run(react(pending, replies[0]), replies.skip(1));
            Trace {
                transfers: seq![Transfer::Send { endpoint, data }] + rest.transfers,
                result: rest.result,
            }
        }),
{
}

/// One step of [`run`]: a receive that is answered by a receive's reply.
proof fn lemma_run_receive(pending: Exchange, endpoint: u8, capacity: usize, replies: Seq<Reply>)
    requires
        replies.len() > 0,
        replies[0] is Received,
    ensures
        run(Next::Receive { pending, endpoint, capacity }, replies) == ({
            let rest = run(react(pending, replies[0]), replies.skip(1));
            Trace {
                transfers: seq![Transfer::Receive { endpoint, capacity }] + rest.transfers,
                result: rest.result,
            }
        }),
{
}

/// The probe of any exchange, answered in turn: the run hands out the probe's two
/// transfers and goes on from the reaction to the probe's answer.
proof fn lemma_run_probe(x: Exchange, count: usize, response: Seq<u8>, rest: Seq<Reply>)
    requires
        x.position == 0,
    ensures
        run(x.proceed(), seq![Reply::Sent(Ok(count)), Reply::Received(Ok(response))] + rest) == ({
            let tail = run(x.at(1).after_received(Ok(response)), rest);
            Trace { transfers: x.probe() + tail.transfers, result: tail.result }
        }),
{
    let replies = seq![Reply::Sent(Ok(count)), Reply::Received(Ok(response))] + rest;
    assert(replies.skip(1).skip(1) =~= rest);
    lemma_run_send(x, x.ep_out, check_frame(x.address), replies);
    lemma_run_receive(x.at(1), x.ep_in, RESPONSE_CAPACITY, replies.skip(1));
    let tail = run(x.at(1).after_received(Ok(response)), rest);
    assert(seq![x.probe()[0]] + (seq![x.probe()[1]] + tail.transfers) =~= x.probe()
        + tail.transfers);
}

/// A response byte reports a missing acknowledgement exactly when it is 128 or more.
pub proof fn law_nack_is_top_bit(status: u8)
    ensures
        is_nack(status) <==> status >= 0x80,
{
    assert((status & 0x80 != 0) <==> status >= 0x80) by (bit_vector);
}

/// A fault of the transport ends an exchange at once, whatever it was waiting for,
/// and comes out as it went in.
pub proof fn law_fault_is_passed_on(pending: Exchange, fault: TransferFault)
    ensures
        pending.after_sent(Err(fault)) == Next::Finished(Err(Error::Transport(fault))),
        pending.after_received(Err(fault)) == Next::Finished(Err(Error::Transport(fault))),
{
}

/// Every exchange begins with the probe's send: the check frame for the address, to
/// the bulk OUT endpoint.
pub proof fn law_exchange_begins_with_probe(
    ep_out: u8,
    ep_in: u8,
    operation: Operation,
    address: u8,
    payload: Seq<u8>,
    length: nat,
)
    ensures
        begin(ep_out, ep_in, operation, address, payload, length) == (Next::Send {
            pending: Exchange { ep_out, ep_in, operation, address, payload, length, position: 0 },
            endpoint: ep_out,
            data: check_frame(address),
        }),
{
}

/// If the adapter answers the probe with a byte whose top bit is set, the exchange
/// ends with [`Error::NoAcknowledge`], for each of the three operations, and the
/// probe's two transfers are all that it ever asks for: nothing of the data phase
/// goes out, whatever the transport would have answered.
pub proof fn law_no_acknowledge_stops_exchange(
    ep_out: u8,
    ep_in: u8,
    operation: Operation,
    address: u8,
    payload: Seq<u8>,
    length: nat,
    count: usize,
    response: Seq<u8>,
    rest: Seq<Reply>,
)
    requires
        response.len() > 0,
        is_nack(response[0]),
    ensures
        run(
            begin(ep_out, ep_in, operation, address, payload, length),
            seq![Reply::Sent(Ok(count)), Reply::Received(Ok(response))] + rest,
        ) == (Trace {
            transfers: seq![
                Transfer::Send { endpoint: ep_out, data: check_frame(address) },
                Transfer::Receive { endpoint: ep_in, capacity: RESPONSE_CAPACITY },
            ],
            result: Some(Err(Error::NoAcknowledge)),
        }),
{
    law_bad_probe_stops_exchange(
        ep_out,
        ep_in,
        operation,
        address,
        payload,
        length,
        count,
        response,
        rest,
    );
}

/// If the probe's answer is bad, because it is empty or reports a missing
/// acknowledgement, the exchange ends with the verdict's error after the probe's two
/// transfers.
pub proof fn law_bad_probe_stops_exchange(
    ep_out: u8,
    ep_in: u8,
    operation: Operation,
    address: u8,
    payload: Seq<u8>,
    length: nat,
    count: usize,
    response: Seq<u8>,
    rest: Seq<Reply>,
)
    requires
        probe_verdict(response) is Err,
    ensures
        run(
            begin(ep_out, ep_in, operation, address, payload, length),
            seq![Reply::Sent(Ok(count)), Reply::Received(Ok(response))] + rest,
        ) == (Trace {
            transfers: Exchange {
                ep_out,
                ep_in,
                operation,
                address,
                payload,
                length,
                position: 0,
            }.probe(),
            result: Some(Err(probe_verdict(response)->Err_0)),
        }),
{
    let x = Exchange { ep_out, ep_in, operation, address, payload, length, position: 0 };
    lemma_run_probe(x, count, response, rest);
}

/// A good answer to the probe of an operation whose lengths do not fit ends the
/// exchange with [`Error::Encoding`]: no frame of the data phase goes out.
pub proof fn law_unfit_lengths_stop_exchange(
    ep_out: u8,
    ep_in: u8,
    operation: Operation,
    address: u8,
    payload: Seq<u8>,
    length: nat,
    count: usize,
    response: Seq<u8>,
    rest: Seq<Reply>,
)
    requires
        probe_verdict(response) is Ok,
        !(Exchange { ep_out, ep_in, operation, address, payload, length, position: 0 }).fits(),
    ensures
        run(
            begin(ep_out, ep_in, operation, address, payload, length),
            seq![Reply::Sent(Ok(count)), Reply::Received(Ok(response))] + rest,
        ) == (Trace {
            transfers: Exchange {
                ep_out,
                ep_in,
                operation,
                address,
                payload,
                length,
                position: 0,
            }.probe(),
            result: Some(Err(Error::Encoding)),
        }),
{
    let x = Exchange { ep_out, ep_in, operation, address, payload, length, position: 0 };
    lemma_run_probe(x, count, response, rest);
}

/// A read whose length fits and whose probe is answered well sends the read frame
/// and takes the data. If fewer bytes come than were asked for, it ends with
/// [`Error::ShortRead`] and yields no byte at all; otherwise it yields exactly the
/// bytes asked for, the first `length` of the answer.
pub proof fn law_read_runs_to_its_data(
    ep_out: u8,
    ep_in: u8,
    address: u8,
    length: nat,
    counts: (usize, usize),
    response: Seq<u8>,
    data: Seq<u8>,
    rest: Seq<Reply>,
)
    requires
        read_fits(length),
        probe_verdict(response) is Ok,
    ensures
        run(
            begin(ep_out, ep_in, Operation::Read, address, Seq::empty(), length),
            seq![
                Reply::Sent(Ok(counts.0)),
                Reply::Received(Ok(response)),
                Reply::Sent(Ok(counts.1)),
                Reply::Received(Ok(data)),
            ] + rest,
        ) == (Trace {
            transfers: seq![
                Transfer::Send { endpoint: ep_out, data: check_frame(address) },
                Transfer::Receive { endpoint: ep_in, capacity: RESPONSE_CAPACITY },
                Transfer::Send { endpoint: ep_out, data: read_frame(address, length) },
                Transfer::Receive { endpoint: ep_in, capacity: RESPONSE_CAPACITY },
            ],
            result: Some(
                if data.len() < length {
                    Err(Error::ShortRead)
                } else {
                    Ok(Yield::Data(data.take(length as int)))
                },
            ),
        }),
{
    let x = Exchange {
        ep_out,
        ep_in,
        operation: Operation::Read,
        address,
        payload: Seq::empty(),
        length,
        position: 0,
    };
    let later = seq![Reply::Sent(Ok(counts.1)), Reply::Received(Ok(data))] + rest;
    assert(seq![
        Reply::Sent(Ok(counts.0)),
        Reply::Received(Ok(response)),
        Reply::Sent(Ok(counts.1)),
        Reply::Received(Ok(data)),
    ] + rest =~= seq![Reply::Sent(Ok(counts.0)), Reply::Received(Ok(response))] + later);
    lemma_run_probe(x, counts.0, response, later);
    let plan = seq![
        Transfer::Send { endpoint: ep_out, data: check_frame(address) },
        Transfer::Receive { endpoint: ep_in, capacity: RESPONSE_CAPACITY },
        Transfer::Send { endpoint: ep_out, data: read_frame(address, length) },
        Transfer::Receive { endpoint: ep_in, capacity: RESPONSE_CAPACITY },
    ];
    assert(x.plan() =~= plan);
    assert(x.at(1).at(2) == x.at(2));
    assert(x.at(2).fits());
    assert(x.at(2).plan() == x.plan() && x.at(3).plan() == x.plan());
    assert(x.at(2).awaited() == plan[2]);
    assert(x.at(3).awaited() == plan[3]);
    let l1 = later.skip(1);
    assert(later[0] == Reply::Sent(Ok(counts.1)));
    assert(l1[0] == Reply::Received(Ok(data)));
    lemma_run_send(x.at(2), ep_out, read_frame(address, length), later);
    assert(x.at(2).at(3) == x.at(3));
    assert(react(x.at(2), later[0]) == x.at(3).proceed());
    lemma_run_receive(x.at(3), ep_in, RESPONSE_CAPACITY, l1);
    let end = x.at(3).after_received(Ok(data));
    assert(react(x.at(3), l1[0]) == end);
    assert(end is Finished);
    let t = run(x.proceed(), seq![Reply::Sent(Ok(counts.0)), Reply::Received(Ok(response))] + later);
    assert(t.transfers =~= plan);
}

/// A write whose payload fits and whose probe is answered well sends the write frame
/// and yields the number of bytes the transport says went out.
pub proof fn law_write_runs_to_its_count(
    ep_out: u8,
    ep_in: u8,
    address: u8,
    payload: Seq<u8>,
    counts: (usize, usize),
    response: Seq<u8>,
    rest: Seq<Reply>,
)
    requires
        write_fits(payload.len()),
        probe_verdict(response) is Ok,
    ensures
        run(
            begin(ep_out, ep_in, Operation::Write, address, payload, 0),
            seq![
                Reply::Sent(Ok(counts.0)),
                Reply::Received(Ok(response)),
                Reply::Sent(Ok(counts.1)),
            ] + rest,
        ) == (Trace {
            transfers: seq![
                Transfer::Send { endpoint: ep_out, data: check_frame(address) },
                Transfer::Receive { endpoint: ep_in, capacity: RESPONSE_CAPACITY },
                Transfer::Send { endpoint: ep_out, data: write_frame(address, payload) },
            ],
            result: Some(Ok(Yield::Written(counts.1))),
        }),
{
    let x = Exchange {
        ep_out,
        ep_in,
        operation: Operation::Write,
        address,
        payload,
        length: 0,
        position: 0,
    };
    let later = seq![Reply::Sent(Ok(counts.1))] + rest;
    assert(seq![
        Reply::Sent(Ok(counts.0)),
        Reply::Received(Ok(response)),
        Reply::Sent(Ok(counts.1)),
    ] + rest =~= seq![Reply::Sent(Ok(counts.0)), Reply::Received(Ok(response))] + later);
    lemma_run_probe(x, counts.0, response, later);
    let plan = seq![
        Transfer::Send { endpoint: ep_out, data: check_frame(address) },
        Transfer::Receive { endpoint: ep_in, capacity: RESPONSE_CAPACITY },
        Transfer::Send { endpoint: ep_out, data: write_frame(address, payload) },
    ];
    assert(x.plan() =~= plan);
    assert(x.at(1).at(2) == x.at(2));
    assert(x.at(2).fits());
    assert(x.at(2).plan() == x.plan());
    assert(x.at(2).awaited() == plan[2]);
    assert(later[0] == Reply::Sent(Ok(counts.1)));
    lemma_run_send(x.at(2), ep_out, write_frame(address, payload), later);
    let end = x.at(2).after_sent(Ok(counts.1));
    assert(react(x.at(2), later[0]) == end);
    assert(end == Next::Finished(Ok(Yield::Written(counts.1))));
    let t = run(x.proceed(), seq![Reply::Sent(Ok(counts.0)), Reply::Received(Ok(response))] + later);
    assert(t.transfers =~= plan);
}

/// A write followed by a read, with lengths that fit and a probe answered well, sends
/// the opening of the write, then the read frame, and takes the data. If fewer bytes
/// come than were asked for, it ends with [`Error::ShortRead`] and yields no byte at
/// all; otherwise it yields exactly the bytes asked for.
pub proof fn law_write_read_runs_to_its_data(
    ep_out: u8,
    ep_in: u8,
    address: u8,
    payload: Seq<u8>,
    length: nat,
    counts: (usize, usize, usize),
    response: Seq<u8>,
    data: Seq<u8>,
    rest: Seq<Reply>,
)
    requires
        write_fits(payload.len()),
        read_fits(length),
        probe_verdict(response) is Ok,
    ensures
        run(
            begin(ep_out, ep_in, Operation::WriteRead, address, payload, length),
            seq![
                Reply::Sent(Ok(counts.0)),
                Reply::Received(Ok(response)),
                Reply::Sent(Ok(counts.1)),
                Reply::Sent(Ok(counts.2)),
                Reply::Received(Ok(data)),
            ] + rest,
        ) == (Trace {
            transfers: seq![
                Transfer::Send { endpoint: ep_out, data: check_frame(address) },
                Transfer::Receive { endpoint: ep_in, capacity: RESPONSE_CAPACITY },
                Transfer::Send { endpoint: ep_out, data: write_phase(address, payload) },
                Transfer::Send { endpoint: ep_out, data: read_frame(address, length) },
                Transfer::Receive { endpoint: ep_in, capacity: RESPONSE_CAPACITY },
            ],
            result: Some(
                if data.len() < length {
                    Err(Error::ShortRead)
                } else {
                    Ok(Yield::Data(data.take(length as int)))
                },
            ),
        }),
{
    let x = Exchange {
        ep_out,
        ep_in,
        operation: Operation::WriteRead,
        address,
        payload,
        length,
        position: 0,
    };
    let later = seq![
        Reply::Sent(Ok(counts.1)),
        Reply::Sent(Ok(counts.2)),
        Reply::Received(Ok(data)),
    ] + rest;
    assert(seq![
        Reply::Sent(Ok(counts.0)),
        Reply::Received(Ok(response)),
        Reply::Sent(Ok(counts.1)),
        Reply::Sent(Ok(counts.2)),
        Reply::Received(Ok(data)),
    ] + rest =~= seq![Reply::Sent(Ok(counts.0)), Reply::Received(Ok(response))] + later);
    lemma_run_probe(x, counts.0, response, later);
    let plan = seq![
        Transfer::Send { endpoint: ep_out, data: check_frame(address) },
        Transfer::Receive { endpoint: ep_in, capacity: RESPONSE_CAPACITY },
        Transfer::Send { endpoint: ep_out, data: write_phase(address, payload) },
        Transfer::Send { endpoint: ep_out, data: read_frame(address, length) },
        Transfer::Receive { endpoint: ep_in, capacity: RESPONSE_CAPACITY },
    ];
    assert(x.plan() =~= plan);
    assert(x.at(1).at(2) == x.at(2));
    assert(x.at(2).fits());
    assert(x.at(2).plan() == x.plan() && x.at(3).plan() == x.plan() && x.at(4).plan()
        == x.plan());
    assert(x.at(2).awaited() == plan[2]);
    assert(x.at(3).awaited() == plan[3]);
    assert(x.at(4).awaited() == plan[4]);
    let l1 = later.skip(1);
    let l2 = l1.skip(1);
    assert(later[0] == Reply::Sent(Ok(counts.1)));
    assert(l1[0] == Reply::Sent(Ok(counts.2)));
    assert(l2[0] == Reply::Received(Ok(data)));
    lemma_run_send(x.at(2), ep_out, write_phase(address, payload), later);
    assert(x.at(2).at(3) == x.at(3));
    assert(react(x.at(2), later[0]) == x.at(3).proceed());
    lemma_run_send(x.at(3), ep_out, read_frame(address, length), l1);
    assert(x.at(3).at(4) == x.at(4));
    assert(react(x.at(3), l1[0]) == x.at(4).proceed());
    lemma_run_receive(x.at(4), ep_in, RESPONSE_CAPACITY, l2);
    let end = x.at(4).after_received(Ok(data));
    assert(react(x.at(4), l2[0]) == end);
    assert(end is Finished);
    let t = run(x.proceed(), seq![Reply::Sent(Ok(counts.0)), Reply::Received(Ok(response))] + later);
    assert(t.transfers =~= plan);
}

/// Whatever the transport answers, an exchange asks only for transfers of its plan,
/// in the plan's order and each at most once: from any place of the plan on, what a
/// run hands out is the beginning of what is left of the plan.
pub proof fn law_transfers_follow_plan(pending: Exchange, replies: Seq<Reply>)
    requires
        pending.wf(),
    ensures
        run(pending.proceed(), replies).transfers.is_prefix_of(
            pending.plan().skip(pending.position as int),
        ),
    decreases replies.len(),
{
    let x = pending;
    let p = x.position;
    let left = x.plan().skip(p as int);
    let next = x.proceed();
    let t = run(next, replies);
    if next is Finished {
        assert(t.transfers =~= Seq::<Transfer>::empty());
    } else {
        let transfer = x.awaited();
        assert(left[0] == transfer);
        assert(t == carry_out(x, transfer, replies));
        if replies.len() == 0 || !answers(replies[0], transfer) {
            assert(t.transfers =~= seq![transfer]);
        } else {
            let reaction = react(x, replies[0]);
            let rest = run(reaction, replies.skip(1));
            assert(t.transfers == seq![transfer] + rest.transfers);
            if reaction is Finished {
                assert(rest.transfers =~= Seq::<Transfer>::empty());
            } else {
                let y = x.at(p + 1);
                assert(x.plan().len() >= 3);
                assert(transfer is Receive && p < 2 ==> p == 1) by {
                    assert(x.plan()[0] == x.probe()[0]);
                }
                assert(reaction == y.proceed());
                assert(y.plan() == x.plan());
                law_transfers_follow_plan(y, replies.skip(1));
                let beyond = x.plan().skip(p as int + 1);
                assert(rest.transfers.is_prefix_of(beyond));
                assert forall|i: int| 0 <= i < t.transfers.len() implies t.transfers[i]
                    == left[i] by {
                    if i > 0 {
                        assert(t.transfers[i] == rest.transfers[i - 1]);
                        assert(beyond[i - 1] == left[i]);
                    }
                }
            }
        }
    }
}

/// Whatever the transport answers, the transfers of an exchange are the beginning of
/// its plan: the probe first, then the frames of the operation that was asked for.
pub proof fn law_exchange_stays_within_plan(
    ep_out: u8,
    ep_in: u8,
    operation: Operation,
    address: u8,
    payload: Seq<u8>,
    length: nat,
    replies: Seq<Reply>,
)
    ensures
        run(
            begin(ep_out, ep_in, operation, address, payload, length),
            replies,
        ).transfers.is_prefix_of(
            Exchange { ep_out, ep_in, operation, address, payload, length, position: 0 }.plan(),
        ),
{
    let x = Exchange { ep_out, ep_in, operation, address, payload, length, position: 0 };
    assert(x.plan().len() >= 3);
    law_transfers_follow_plan(x, replies);
    assert(x.plan().skip(0) =~= x.plan());
}

} // verus!
