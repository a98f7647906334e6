//! The status-query command: builds the fixed request descriptor, bounds
//! checks the caller-supplied reply capacity against the protocol's
//! field-width limit, and decodes the variable-length reply into the open
//! stream count and the per-stream identifiers.

use vstd::prelude::*;

use crate::command::{Command, DataDirection, ResultData, Scsi, Transport};
use crate::layout::{CommandBuffer, RequestFields};
use crate::reply::{FlexibleStruct, ELEMENT_SIZE, HEADER_SIZE};
use crate::Error;

verus! {

/// Operation code of the status query.
pub const OPERATION_CODE: u8 = 0x9e;

/// Service action of the status query, a 5-bit sub-operation code.
pub const SERVICE_ACTION: u8 = 0x16;

/// The largest requested element capacity the protocol can address: the
/// allocation length field is 32 bits wide and must hold the header plus
/// the requested elements.
pub const MAX_DESCRIPTOR_LENGTH: u32 = (0xffff_ffff - 8) / 8;

/// The element count a reply header reports: its total parameter length,
/// less the fixed 8-byte length-field overhead, divided by the element
/// size. A length too short to cover even that overhead reports zero
/// elements rather than failing.
pub open spec fn reported_count(parameter_data_length: u32) -> int {
    if parameter_data_length >= 8 {
        (parameter_data_length - 8) / 8
    } else {
        0
    }
}

/// What decoding promises for every completed transaction outcome.
/// A transport failure takes precedence over a device fault; a fault-free
/// outcome decodes to the reported count, the open stream count read
/// verbatim from the header, and the identifier run clamped to the
/// buffer's allocated capacity, in on-wire order. The reported count is
/// returned as-is: a device may report more open streams, and more
/// descriptors, than the requested capacity could bring back.
pub open spec fn stream_status_obligation(
    outcome: ResultData,
    r: Result<CommandResult, Error>,
) -> bool {
    match (outcome.transport_failure, outcome.device_failure) {
        (Some(code), _) => r == Err::<CommandResult, Error>(Error::TransportError { code }),
        (None, Some(sense_key)) => r == Err::<CommandResult, Error>(
            Error::ProtocolError { sense_key },
        ),
        (None, None) => {
            let reported = reported_count(outcome.data.spec_parameter_data_length());
            let decoded = if reported < outcome.data.spec_capacity() {
                reported
            } else {
                outcome.data.spec_capacity()
            };
            &&& r matches Ok(res)
            &&& res.total_descriptor_length == reported
            &&& res.number_of_open_streams == outcome.data.spec_number_of_open_streams()
            &&& res.stream_identifiers@ == outcome.data.spec_identifiers(decoded)
            &&& res.stream_identifiers@.len() == decoded
        },
    }
}

/// The typed result of a successful status query.
#[derive(Debug)]
pub struct CommandResult {
    /// How many descriptors the device reported, before clamping: it may
    /// exceed the number of identifiers actually returned.
    pub total_descriptor_length: usize,
    /// The open stream count, verbatim from the reply header.
    pub number_of_open_streams: u16,
    /// The decoded identifiers, in their on-wire order, at most as many
    /// as the reply buffer's allocated capacity could bring back.
    pub stream_identifiers: Vec<u16>,
}

/// One configured invocation of the status query: chained setters
/// accumulate the configuration, then a single terminal `issue` consumes
/// it. An instance cannot be issued twice.
pub struct GetStreamStatusCommand<'a, T: Transport> {
    interface: &'a Scsi<T>,
    command_buffer: CommandBuffer,
    descriptor_length: u32,
    issued: bool,
}

impl<'a, T: Transport> GetStreamStatusCommand<'a, T> {
    /// The requested element capacity for the reply.
    pub closed spec fn descriptor_length_spec(&self) -> u32 {
        self.descriptor_length
    }

    /// Whether the terminal `issue` has already consumed this instance.
    pub closed spec fn issued_spec(&self) -> bool {
        self.issued
    }

    /// The fields of the request descriptor as configured so far.
    pub closed spec fn request_fields(&self) -> RequestFields {
        self.command_buffer.fields()
    }

    /// The configured request descriptor is canonical: every reserved bit
    /// is zero.
    pub closed spec fn wf(&self) -> bool {
        self.command_buffer.wf()
    }

    fn new(interface: &'a Scsi<T>) -> (r: Self)
        ensures
            r.wf(),
            !r.issued_spec(),
            r.descriptor_length_spec() == 0,
            r.request_fields() == (RequestFields {
                operation_code: OPERATION_CODE,
                service_action: SERVICE_ACTION,
                starting_stream_identifier: 0,
                allocation_length: 0,
                control: 0,
            }),
    {
        GetStreamStatusCommand {
            interface,
            descriptor_length: 0,
            command_buffer: CommandBuffer::new().with_operation_code(OPERATION_CODE)
                .with_service_action(SERVICE_ACTION),
            issued: false,
        }
    }

    /// Sets the 16-bit starting stream identifier of the request.
    pub fn starting_stream_identifier(&mut self, value: u16) -> (ret: &mut Self)
        requires
            !old(self).issued_spec(),
        ensures
            (*ret).request_fields() == (RequestFields {
                starting_stream_identifier: value,
                ..old(self).request_fields()
            }),
            (*ret).descriptor_length_spec() == old(self).descriptor_length_spec(),
            !(*ret).issued_spec(),
            old(self).wf() ==> (*ret).wf(),
            *final(self) == *final(ret),
    {
        self.command_buffer.set_starting_stream_identifier(value);
        self
    }

    /// Sets the control byte of the request.
    pub fn control(&mut self, value: u8) -> (ret: &mut Self)
        requires
            !old(self).issued_spec(),
        ensures
            (*ret).request_fields() == (RequestFields {
                control: value,
                ..old(self).request_fields()
            }),
            (*ret).descriptor_length_spec() == old(self).descriptor_length_spec(),
            !(*ret).issued_spec(),
            old(self).wf() ==> (*ret).wf(),
            *final(self) == *final(ret),
    {
        self.command_buffer.set_control(value);
        self
    }

    /// Sets the requested element capacity of the reply. Values above
    /// `MAX_DESCRIPTOR_LENGTH` are accepted here and rejected by `issue`.
    pub fn descriptor_length(&mut self, value: u32) -> (ret: &mut Self)
        requires
            !old(self).issued_spec(),
        ensures
            (*ret).descriptor_length_spec() == value,
            (*ret).request_fields() == old(self).request_fields(),
            !(*ret).issued_spec(),
            old(self).wf() ==> (*ret).wf(),
            *final(self) == *final(ret),
    {
        self.descriptor_length = value;
        self
    }

    /// The terminal operation: validates the requested capacity against
    /// the protocol limit, computes the allocation length, runs one
    /// transaction, and decodes the outcome. A capacity above the limit
    /// fails with the out-of-bounds error before any transaction is
    /// attempted; within the limit, the returned value is the decoding,
    /// as `stream_status_obligation` states it, of some completed outcome.
    pub fn issue(&mut self) -> (r: Result<CommandResult, Error>)
        requires
            !old(self).issued_spec(),
            old(self).wf(),
        ensures
            (r matches Err(e) && e matches Error::ArgumentOutOfBounds { .. })
                <==> old(self).descriptor_length_spec() > MAX_DESCRIPTOR_LENGTH,
            old(self).descriptor_length_spec() > MAX_DESCRIPTOR_LENGTH
                ==> r == (Err::<CommandResult, Error>(Error::ArgumentOutOfBounds {
                    limit: MAX_DESCRIPTOR_LENGTH,
                    value: old(self).descriptor_length_spec(),
                })) && !final(self).issued_spec(),
            old(self).descriptor_length_spec() <= MAX_DESCRIPTOR_LENGTH
                ==> final(self).issued_spec() && (exists|outcome: ResultData|
                    #[trigger] stream_status_obligation(outcome, r)),
            final(self).descriptor_length_spec() == old(self).descriptor_length_spec(),
            final(self).request_fields() == old(self).request_fields(),
            final(self).wf(),
    {
        if self.descriptor_length > MAX_DESCRIPTOR_LENGTH {
            return Err(
                Error::ArgumentOutOfBounds {
                    limit: MAX_DESCRIPTOR_LENGTH,
                    value: self.descriptor_length,
                },
            );
        }
        let temp = ThisCommand {
            command_buffer: self.command_buffer.with_allocation_length(
                HEADER_SIZE as u32 + self.descriptor_length * (ELEMENT_SIZE as u32),
            ),
            max_descriptor_length: self.descriptor_length,
        };
        self.issued = true;
        let r = self.interface.issue(&temp);
        proof {
            let outcome = choose|o: ResultData| #[trigger] temp.process_obligation(o, r);
            assert(stream_status_obligation(outcome, r));
        }
        r
    }
}

impl<T: Transport> Scsi<T> {
    /// Begins configuring one status query to issue through this handle.
    pub fn get_stream_status(&self) -> (r: GetStreamStatusCommand<'_, T>)
        ensures
            r.wf(),
            !r.issued_spec(),
            r.descriptor_length_spec() == 0,
            r.request_fields() == (RequestFields {
                operation_code: OPERATION_CODE,
                service_action: SERVICE_ACTION,
                starting_stream_identifier: 0,
                allocation_length: 0,
                control: 0,
            }),
    {
        GetStreamStatusCommand::new(self)
    }
}

/// For every requested capacity within the protocol limit, the allocation
/// length `header size + capacity × element size` is representable in its
/// 32-bit field; for every capacity beyond the limit it is not. The limit
/// is therefore exactly the boundary the bounds check enforces.
pub proof fn lemma_descriptor_length_limit(count: u32)
    ensures
        count <= MAX_DESCRIPTOR_LENGTH ==> HEADER_SIZE + ELEMENT_SIZE * count <= u32::MAX,
        count > MAX_DESCRIPTOR_LENGTH ==> HEADER_SIZE + ELEMENT_SIZE * count > u32::MAX,
{
}

/// Transport-error precedence: when an outcome reports both a transport
/// failure and a device fault, the decoding surfaces the transport
/// failure.
pub proof fn lemma_transport_error_precedence(
    outcome: ResultData,
    r: Result<CommandResult, Error>,
    code: i32,
    sense_key: u8,
)
    requires
        stream_status_obligation(outcome, r),
        outcome.transport_failure == Some(code),
        outcome.device_failure == Some(sense_key),
    ensures
        r == (Err::<CommandResult, Error>(Error::TransportError { code })),
{
}

/// Decode clamping: a fault-free outcome decodes to exactly
/// `min(reported count, allocated capacity)` identifiers — never more
/// than the buffer holds, and never fewer than the device reported when
/// the report fits — holding the on-wire identifiers of exactly that
/// prefix, in order, while the reported count itself is returned
/// unclamped.
pub proof fn lemma_decode_clamping(outcome: ResultData, r: Result<CommandResult, Error>)
    requires
        stream_status_obligation(outcome, r),
        outcome.transport_failure is None,
        outcome.device_failure is None,
    ensures
        r matches Ok(res) && {
            let reported = reported_count(outcome.data.spec_parameter_data_length());
            let decoded = if reported < outcome.data.spec_capacity() {
                reported
            } else {
                outcome.data.spec_capacity()
            };
            &&& res.stream_identifiers@.len() == decoded
            &&& res.stream_identifiers@ == outcome.data.spec_identifiers(decoded)
            &&& res.total_descriptor_length == reported
        },
{
}

/// No partial success and no silent default: the decoding returns `Ok`
/// exactly when the outcome reports neither a transport failure nor a
/// device fault, and an error otherwise.
pub proof fn lemma_success_iff_fault_free(outcome: ResultData, r: Result<CommandResult, Error>)
    requires
        stream_status_obligation(outcome, r),
    ensures
        r is Ok <==> (outcome.transport_failure is None && outcome.device_failure is None),
{
}

struct ThisCommand {
    command_buffer: CommandBuffer,
    max_descriptor_length: u32,
}

impl Command for ThisCommand {
    type ReturnType = Result<CommandResult, Error>;

    closed spec fn wf_spec(&self) -> bool {
        self.max_descriptor_length <= MAX_DESCRIPTOR_LENGTH
    }

    closed spec fn direction_spec(&self) -> DataDirection {
        DataDirection::FromDevice
    }

    closed spec fn command_spec(&self) -> CommandBuffer {
        self.command_buffer
    }

    closed spec fn data_size_spec(&self) -> u32 {
        (HEADER_SIZE + ELEMENT_SIZE * self.max_descriptor_length) as u32
    }

    closed spec fn process_obligation(&self, result: ResultData, r: Self::ReturnType) -> bool {
        stream_status_obligation(result, r)
    }

    fn direction(&self) -> DataDirection {
        DataDirection::FromDevice
    }

    fn command(&self) -> CommandBuffer {
        self.command_buffer
    }

    fn data(&self) -> (r: FlexibleStruct) {
        let r = FlexibleStruct::with_length(self.max_descriptor_length as usize);
        proof {
            assert(r@ =~= Seq::new(self.data_size_spec() as nat, |i: int| 0u8));
        }
        r
    }

    fn data_size(&self) -> (r: u32) {
        HEADER_SIZE as u32 + self.max_descriptor_length * (ELEMENT_SIZE as u32)
    }

    fn process_result(&self, result: ResultData) -> (r: Result<CommandResult, Error>) {
        match result.check_transport_error() {
            Err(e) => {
                return Err(e);
            },
            Ok(()) => {},
        }
        match result.check_device_error() {
            Err(e) => {
                return Err(e);
            },
            Ok(()) => {},
        }
        let header = result.data.header();
        let parameter_data_length = header.parameter_data_length();
        let reported: usize = if parameter_data_length >= 8 {
            ((parameter_data_length - 8) / 8) as usize
        } else {
            0
        };
        let cap = result.data.capacity();
        let take = if reported < cap {
            reported
        } else {
            cap
        };
        let mut stream_identifiers: Vec<u16> = Vec::new();
        let mut i: usize = 0;
        while i < take
            invariant
                i <= take,
                take <= result.data.spec_capacity(),
                take == if reported_count(result.data.spec_parameter_data_length()) < result
                    .data.spec_capacity() {
                    reported_count(result.data.spec_parameter_data_length())
                } else {
                    result.data.spec_capacity()
                },
                stream_identifiers@ == result.data.spec_identifiers(i as int),
            decreases take - i,
        {
            let d = result.data.element(i);
            stream_identifiers.push(d.stream_identifier());
            proof {
                assert(stream_identifiers@ =~= result.data.spec_identifiers(i + 1));
            }
            i = i + 1;
        }
        proof {
            assert(stream_identifiers@ =~= result.data.spec_identifiers(i as int));
        }
        Ok(
            CommandResult {
                total_descriptor_length: reported,
                number_of_open_streams: header.number_of_open_streams(),
                stream_identifiers,
            },
        )
    }
}

} // verus!
