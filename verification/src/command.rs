//! The command contract every protocol command implements, the transport
//! interface it is dispatched through, and the generic execution path that
//! joins the two without knowing any particular command's data shape.

use vstd::prelude::*;

use crate::layout::CommandBuffer;
use crate::reply::FlexibleStruct;

verus! {

/// Which way the transaction moves data.
#[derive(Clone, Copy, Debug, PartialEq, Eq, Structural)]
pub enum DataDirection {
    /// The device fills the reply buffer.
    FromDevice,
    /// The device consumes the buffer.
    ToDevice,
    /// No data phase.
    NoData,
}

/// The outcome of one completed transaction: a transport-level status, a
/// protocol-level status, and the reply buffer as the device left it.
#[derive(Debug)]
pub struct ResultData {
    /// Set when the execution mechanism itself failed: the transaction
    /// could not be submitted or completed. Carries the mechanism's code.
    pub transport_failure: Option<i32>,
    /// Set when the transaction completed but the device signaled a fault
    /// condition. Carries the sense key.
    pub device_failure: Option<u8>,
    /// The reply buffer, as filled (or partially filled) by the device.
    pub data: FlexibleStruct,
}

impl ResultData {
    /// Checks the transport-level status. This is always checked first: a
    /// transport failure takes precedence over any protocol failure.
    pub fn check_transport_error(&self) -> (r: Result<(), crate::Error>)
        ensures
            r is Ok <==> self.transport_failure is None,
            self.transport_failure matches Some(code) ==> r == Err::<(), crate::Error>(
                crate::Error::TransportError { code },
            ),
    {
        match self.transport_failure {
            Some(code) => Err(crate::Error::TransportError { code }),
            None => Ok(()),
        }
    }

    /// Checks the protocol-level status: whether the device, having
    /// executed the transaction, reported a fault condition.
    pub fn check_device_error(&self) -> (r: Result<(), crate::Error>)
        ensures
            r is Ok <==> self.device_failure is None,
            self.device_failure matches Some(sense_key) ==> r == Err::<(), crate::Error>(
                crate::Error::ProtocolError { sense_key },
            ),
    {
        match self.device_failure {
            Some(sense_key) => Err(crate::Error::ProtocolError { sense_key }),
            None => Ok(()),
        }
    }
}

/// Executes one request/reply buffer pair against a device. The transport
/// is an external collaborator: nothing is assumed of the outcome it
/// returns, and every command proves its decoding correct for all of them.
pub trait Transport {
    /// Carries out one transaction: sends the request descriptor, moves up
    /// to `data_size` bytes in the declared direction through the reply
    /// buffer, and reports how the attempt ended.
    fn transact(
        &self,
        request: CommandBuffer,
        direction: DataDirection,
        data: FlexibleStruct,
        data_size: u32,
    ) -> (outcome: ResultData);
}

/// The abstraction every protocol command implements: produce a request
/// descriptor, declare a direction, shape and size the reply buffer, and
/// convert a completed transaction into a typed result or an error.
pub trait Command: Sized {
    /// What a completed invocation of this command yields.
    type ReturnType;

    /// When the command's configuration is internally consistent; the
    /// other obligations are only owed from such a state.
    spec fn wf_spec(&self) -> bool;

    /// Which way the command declares its data to move.
    spec fn direction_spec(&self) -> DataDirection;

    /// The request descriptor the command dispatches.
    spec fn command_spec(&self) -> CommandBuffer;

    /// How many bytes the transaction should transfer.
    spec fn data_size_spec(&self) -> u32;

    /// What the command promises of its decoding: relates any completed
    /// transaction outcome to the value `process_result` returns for it.
    spec fn process_obligation(&self, result: ResultData, r: Self::ReturnType) -> bool;

    /// Declares whether the transaction moves data from the device, to the
    /// device, or neither.
    fn direction(&self) -> (r: DataDirection)
        ensures
            r == self.direction_spec(),
    ;

    /// The fixed-size request descriptor value to send: exactly the
    /// configured one, unmodified.
    fn command(&self) -> (r: CommandBuffer)
        requires
            self.wf_spec(),
        ensures
            r == self.command_spec(),
    ;

    /// The reply buffer shape to allocate for the transaction: its byte
    /// length is exactly the declared transfer size, and every byte of the
    /// fresh region is zero.
    fn data(&self) -> (r: FlexibleStruct)
        requires
            self.wf_spec(),
        ensures
            r@.len() == self.data_size_spec(),
            r@ == Seq::new(self.data_size_spec() as nat, |i: int| 0u8),
    ;

    /// Exactly how much data, in bytes, the transaction should transfer.
    fn data_size(&self) -> (r: u32)
        requires
            self.wf_spec(),
        ensures
            r == self.data_size_spec(),
    ;

    /// Consumes the completed transaction and produces a typed success
    /// value or a structured error, as promised by `process_obligation`.
    fn process_result(&self, result: ResultData) -> (r: Self::ReturnType)
        requires
            self.wf_spec(),
        ensures
            self.process_obligation(result, r),
    ;
}

/// A device handle: the single entry point that dispatches any configured
/// command through the transport it owns.
pub struct Scsi<T: Transport> {
    transport: T,
}

impl<T: Transport> Scsi<T> {
    /// A handle that issues every command through the given transport.
    pub fn new(transport: T) -> Self {
        Scsi { transport }
    }

    /// Executes one command: builds its request descriptor and reply
    /// buffer, runs the transaction, and hands the outcome back to the
    /// command for decoding. Whatever the transport did, the returned
    /// value is the command's own decoding of some completed outcome.
    pub fn issue<C: Command>(&self, command: &C) -> (r: C::ReturnType)
        requires
            command.wf_spec(),
        ensures
            exists|outcome: ResultData| #[trigger] command.process_obligation(outcome, r),
    {
        let direction = command.direction();
        let request = command.command();
        let data = command.data();
        let data_size = command.data_size();
        let outcome = self.transport.transact(request, direction, data, data_size);
        let ghost witness = outcome;
        let r = command.process_result(outcome);
        proof {
            assert(command.process_obligation(witness, r));
        }
        r
    }
}

} // verus!
