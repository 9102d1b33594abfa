//! The decisions of the Modbus link: what the answer to a read brings to the
//! tables, which writes of a batch go out and when the batch stops, what the
//! interface is told of a failed request, and which link opens at start-up.

use vstd::prelude::*;
use crate::enums::{ModbusWriteCommand, SelectedTopTab};
use crate::queue::{
    bit_updates, bits_to_updates, word_updates, words_to_updates, write_request, write_request_of,
    WriteRequest,
};

verus! {

/// The answer to a read request.
pub enum ReadReply {
    /// The bits read, from the start address on.
    Bits(Vec<bool>),
    /// The words read, from the start address on.
    Words(Vec<u16>),
    /// The device answered with a Modbus exception.
    Exception,
    /// The connection failed.
    Lost,
}

/// The answer to a write request.
#[derive(Clone, Copy, Debug, PartialEq, Eq, Structural)]
pub enum WriteReply {
    Done,
    /// The device answered with a Modbus exception.
    Exception,
    /// The connection failed.
    Lost,
}

/// What the interface is told of a failed request.
#[derive(Clone, Copy, Debug, PartialEq, Eq, Structural)]
pub enum LinkReport {
    /// An error message for the user; the link stays as it is.
    Error,
    /// The link is reported broken, with the exception's message.
    ConnectionError,
    /// The link is reported lost.
    ConnectionLost,
}

/// A failed read of holding registers breaks the link; a failed read of
/// another table is only shown; a lost connection is lost whatever was read.
pub open spec fn read_report_of(table: SelectedTopTab, reply: ReadReply) -> Option<LinkReport> {
    match reply {
        ReadReply::Exception => Some(
            if table == SelectedTopTab::HoldingRegisters {
                LinkReport::ConnectionError
            } else {
                LinkReport::Error
            },
        ),
        ReadReply::Lost => Some(LinkReport::ConnectionLost),
        _ => None,
    }
}

/// The cell updates that the answer to a read from `start` brings.
pub open spec fn read_updates_of(table: SelectedTopTab, start: u16, reply: ReadReply) -> Seq<
    ModbusWriteCommand,
> {
    match reply {
        ReadReply::Bits(bits) => bit_updates(table, start, bits@),
        ReadReply::Words(words) => word_updates(table, start, words@),
        _ => Seq::empty(),
    }
}

/// The values read stay within the 16-bit address space.
pub open spec fn read_span_fits(start: u16, reply: ReadReply) -> bool {
    match reply {
        ReadReply::Bits(bits) => start + bits@.len() <= 65536,
        ReadReply::Words(words) => start + words@.len() <= 65536,
        _ => true,
    }
}

/// Adds the updates that the answer to a read brings to those of the earlier
/// reads, and says what the interface must be told when the read failed.
pub fn after_read_reply(
    table: SelectedTopTab,
    start: u16,
    reply: ReadReply,
    updates: &mut Vec<ModbusWriteCommand>,
) -> (r: Option<LinkReport>)
    requires
        read_span_fits(start, reply),
    ensures
        final(updates)@ == old(updates)@ + read_updates_of(table, start, reply),
        r == read_report_of(table, reply),
{
    match reply {
        ReadReply::Bits(bits) => {
            let mut more = bits_to_updates(table, start, &bits);
            updates.append(&mut more);
            None
        },
        ReadReply::Words(words) => {
            let mut more = words_to_updates(table, start, &words);
            updates.append(&mut more);
            None
        },
        ReadReply::Exception => {
            proof {
                assert(final(updates)@ =~= old(updates)@ + read_updates_of(table, start, reply));
            }
            if table == SelectedTopTab::HoldingRegisters {
                Some(LinkReport::ConnectionError)
            } else {
                Some(LinkReport::Error)
            }
        },
        ReadReply::Lost => {
            proof {
                assert(final(updates)@ =~= old(updates)@ + read_updates_of(table, start, reply));
            }
            Some(LinkReport::ConnectionLost)
        },
    }
}

/// What a failed write tells the interface.
pub open spec fn write_report_of(reply: WriteReply) -> Option<LinkReport> {
    match reply {
        WriteReply::Done => None,
        WriteReply::Exception => Some(LinkReport::Error),
        WriteReply::Lost => Some(LinkReport::ConnectionLost),
    }
}

/// The first command at or after `from` that can be written, or the length
/// of the list where none can.
pub open spec fn first_writable(commands: Seq<ModbusWriteCommand>, from: int) -> int
    decreases commands.len() - from,
{
    if from >= commands.len() {
        commands.len() as int
    } else if write_request_of(commands[from]) is Some {
        from
    } else {
        first_writable(commands, from + 1)
    }
}

/// The progress of a batch of writes.
pub struct WriteBatchView {
    pub commands: Seq<ModbusWriteCommand>,
    /// The commands before this one have been dealt with.
    pub next: nat,
    /// A write has failed.
    pub failed: bool,
}

/// A batch of queued updates written one after the other: commands that
/// cannot be written are passed over, and the first failure ends the batch.
pub struct WriteBatch {
    commands: Vec<ModbusWriteCommand>,
    next: usize,
    failed: bool,
}

impl View for WriteBatch {
    type V = WriteBatchView;

    closed spec fn view(&self) -> WriteBatchView {
        WriteBatchView { commands: self.commands@, next: self.next as nat, failed: self.failed }
    }
}

impl WriteBatch {
    pub open spec fn wf(&self) -> bool {
        self@.next <= self@.commands.len()
    }

    pub fn new(commands: Vec<ModbusWriteCommand>) -> (r: WriteBatch)
        ensures
            r.wf(),
            r@ == (WriteBatchView { commands: commands@, next: 0, failed: false }),
    {
        WriteBatch { commands, next: 0, failed: false }
    }

    /// The next write to send: none once a write failed; otherwise the first
    /// writable command not yet dealt with, if there is one.
    pub fn next_request(&mut self) -> (r: Option<WriteRequest>)
        requires
            old(self).wf(),
        ensures
            final(self).wf(),
            final(self)@.commands == old(self)@.commands,
            final(self)@.failed == old(self)@.failed,
            old(self)@.failed ==> r is None && final(self)@.next == old(self)@.next,
            !old(self)@.failed ==> {
                let k = first_writable(old(self)@.commands, old(self)@.next as int);
                &&& k < old(self)@.commands.len() ==> r == write_request_of(old(self)@.commands[k])
                    && final(self)@.next == k + 1
                &&& k >= old(self)@.commands.len() ==> r is None && final(self)@.next
                    == old(self)@.commands.len()
            },
    {
        if self.failed {
            return None;
        }
        let ghost k = first_writable(self@.commands, self@.next as int);
        while self.next < self.commands.len()
            invariant
                self.wf(),
                !self.failed,
                !old(self)@.failed,
                k == first_writable(old(self)@.commands, old(self)@.next as int),
                self@.commands == old(self)@.commands,
                old(self)@.next <= self@.next,
                first_writable(self@.commands, self@.next as int) == k,
            decreases self@.commands.len() - self@.next,
        {
            let command = self.commands[self.next];
            self.next = self.next + 1;
            match write_request(command) {
                Some(request) => {
                    return Some(request);
                },
                None => {},
            }
        }
        None
    }

    /// Takes the answer to the write last sent; a failure ends the batch and
    /// says what the interface must be told.
    pub fn on_reply(&mut self, reply: WriteReply) -> (r: Option<LinkReport>)
        requires
            old(self).wf(),
        ensures
            final(self).wf(),
            final(self)@ == (WriteBatchView {
                failed: old(self)@.failed || reply != WriteReply::Done,
                ..old(self)@
            }),
            r == write_report_of(reply),
    {
        match reply {
            WriteReply::Done => None,
            WriteReply::Exception => {
                self.failed = true;
                Some(LinkReport::Error)
            },
            WriteReply::Lost => {
                self.failed = true;
                Some(LinkReport::ConnectionLost)
            },
        }
    }

    /// Whether no write of the batch failed.
    pub fn succeeded(&self) -> (r: bool)
        ensures
            r == !self@.failed,
    {
        !self.failed
    }
}

/// The link opened at start-up.
#[derive(Clone, Copy, Debug, PartialEq, Eq, Structural)]
pub enum StartupLink {
    Tcp,
    Rtu,
    Neither,
}

/// TCP when an address and a port were given; otherwise RTU when a serial
/// port, a baud rate and a slave id were; otherwise no link.
pub fn startup_link<A>(
    address: &Option<A>,
    port: Option<u16>,
    serial_port: &Option<String>,
    baud_rate: Option<u32>,
    slave_id: Option<u8>,
) -> (r: StartupLink)
    ensures
        r == (if address is Some && port is Some {
            StartupLink::Tcp
        } else if serial_port is Some && baud_rate is Some && slave_id is Some {
            StartupLink::Rtu
        } else {
            StartupLink::Neither
        }),
{
    if address.is_some() && port.is_some() {
        StartupLink::Tcp
    } else if serial_port.is_some() && baud_rate.is_some() && slave_id.is_some() {
        StartupLink::Rtu
    } else {
        StartupLink::Neither
    }
}

} // verus!
