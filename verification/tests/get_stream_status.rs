use scsir::command::{DataDirection, ResultData, Scsi, Transport};
use scsir::get_stream_status::MAX_DESCRIPTOR_LENGTH;
use scsir::layout::{CommandBuffer, Descriptor, ParameterHeader};
use scsir::reply::FlexibleStruct;
use scsir::Error;

const COMMAND_LENGTH: usize = 16;
const PARAMETER_HEADER_LENGTH: usize = 8;
const DESCRIPTOR_LENGTH: usize = 8;

/// A device that completes every transaction: it writes the given header
/// fields and as many of the given identifiers as the buffer can hold.
struct FakeDevice {
    parameter_data_length: u32,
    number_of_open_streams: u16,
    identifiers: Vec<u16>,
}

impl Transport for FakeDevice {
    fn transact(
        &self,
        _request: CommandBuffer,
        _direction: DataDirection,
        data: FlexibleStruct,
        _data_size: u32,
    ) -> ResultData {
        let mut data = data;
        let header = ParameterHeader::new()
            .with_parameter_data_length(self.parameter_data_length)
            .with_number_of_open_streams(self.number_of_open_streams);
        data.write_header(&header);
        let cap = data.capacity();
        let count = if self.identifiers.len() < cap {
            self.identifiers.len()
        } else {
            cap
        };
        for i in 0..count {
            let d = Descriptor::new().with_stream_identifier(self.identifiers[i]);
            data.write_element(i, &d);
        }
        ResultData { transport_failure: None, device_failure: None, data }
    }
}

/// A transport that fails as instructed, leaving the buffer untouched.
struct FailingDevice {
    transport_failure: Option<i32>,
    device_failure: Option<u8>,
}

impl Transport for FailingDevice {
    fn transact(
        &self,
        _request: CommandBuffer,
        _direction: DataDirection,
        data: FlexibleStruct,
        _data_size: u32,
    ) -> ResultData {
        ResultData {
            transport_failure: self.transport_failure,
            device_failure: self.device_failure,
            data,
        }
    }
}

/// A transport that must never be reached.
struct UnreachableDevice;

impl Transport for UnreachableDevice {
    fn transact(
        &self,
        _request: CommandBuffer,
        _direction: DataDirection,
        _data: FlexibleStruct,
        _data_size: u32,
    ) -> ResultData {
        panic!("the transport was contacted");
    }
}

/// A device that checks the request descriptor and the declared sizes
/// before completing with an empty reply.
struct InspectingDevice {
    expected_cdb: [u8; 16],
    expected_data_size: u32,
}

impl Transport for InspectingDevice {
    fn transact(
        &self,
        request: CommandBuffer,
        direction: DataDirection,
        data: FlexibleStruct,
        data_size: u32,
    ) -> ResultData {
        assert_eq!(request.to_bytes(), self.expected_cdb);
        assert!(matches!(direction, DataDirection::FromDevice));
        assert_eq!(data_size, self.expected_data_size);
        assert_eq!(data.byte_length() as u32, data_size);
        let mut data = data;
        let header = ParameterHeader::new().with_parameter_data_length(8);
        data.write_header(&header);
        ResultData { transport_failure: None, device_failure: None, data }
    }
}

#[test]
fn layout_test() {
    assert_eq!(
        std::mem::size_of::<CommandBuffer>(),
        COMMAND_LENGTH,
        "Size of: CommandBuffer"
    );

    assert_eq!(
        std::mem::size_of::<ParameterHeader>(),
        PARAMETER_HEADER_LENGTH,
        "Size of: ParameterHeader"
    );

    assert_eq!(
        std::mem::size_of::<Descriptor>(),
        DESCRIPTOR_LENGTH,
        "Size of: Descriptor"
    );
}

#[test]
fn request_descriptor_round_trip() {
    let mut cdb = CommandBuffer::new()
        .with_operation_code(0x9e)
        .with_service_action(0x16)
        .with_allocation_length(0x1122_3344);
    cdb.set_starting_stream_identifier(0xabcd);
    cdb.set_control(0x07);

    assert_eq!(cdb.operation_code(), 0x9e);
    assert_eq!(cdb.service_action(), 0x16);
    assert_eq!(cdb.starting_stream_identifier(), 0xabcd);
    assert_eq!(cdb.allocation_length(), 0x1122_3344);
    assert_eq!(cdb.control(), 0x07);

    let wire = cdb.to_bytes();
    assert_eq!(
        wire,
        [
            0x9e, 0x16, 0x00, 0x00, 0xab, 0xcd, 0x00, 0x00, 0x00, 0x00, 0x11, 0x22, 0x33, 0x44,
            0x00, 0x07,
        ]
    );

    let decoded = CommandBuffer::from_bytes(wire);
    assert_eq!(decoded.operation_code(), 0x9e);
    assert_eq!(decoded.service_action(), 0x16);
    assert_eq!(decoded.starting_stream_identifier(), 0xabcd);
    assert_eq!(decoded.allocation_length(), 0x1122_3344);
    assert_eq!(decoded.control(), 0x07);
}

#[test]
fn parameter_header_round_trip() {
    let header = ParameterHeader::new()
        .with_parameter_data_length(24)
        .with_number_of_open_streams(5);
    assert_eq!(header.parameter_data_length(), 24);
    assert_eq!(header.number_of_open_streams(), 5);
    assert_eq!(header.to_bytes(), [0, 0, 0, 24, 0, 0, 0, 5]);

    let decoded = ParameterHeader::from_bytes(header.to_bytes());
    assert_eq!(decoded.parameter_data_length(), 24);
    assert_eq!(decoded.number_of_open_streams(), 5);
}

#[test]
fn descriptor_round_trip() {
    let descriptor = Descriptor::new().with_stream_identifier(0x0102);
    assert_eq!(descriptor.stream_identifier(), 0x0102);
    assert_eq!(descriptor.to_bytes(), [0, 0, 0x01, 0x02, 0, 0, 0, 0]);

    let decoded = Descriptor::from_bytes(descriptor.to_bytes());
    assert_eq!(decoded.stream_identifier(), 0x0102);
}

#[test]
fn flexible_buffer_shape() {
    let buffer = FlexibleStruct::with_length(3);
    assert_eq!(buffer.byte_length(), 8 + 3 * 8);
    assert_eq!(buffer.capacity(), 3);
    assert_eq!(buffer.header().parameter_data_length(), 0);
    assert_eq!(buffer.header().number_of_open_streams(), 0);
    for i in 0..3 {
        assert_eq!(buffer.element(i).stream_identifier(), 0);
    }

    let empty = FlexibleStruct::with_length(0);
    assert_eq!(empty.byte_length(), 8);
    assert_eq!(empty.capacity(), 0);
}

#[test]
fn issue_rejects_capacity_over_limit() {
    let scsi = Scsi::new(UnreachableDevice);
    let result = scsi
        .get_stream_status()
        .descriptor_length(MAX_DESCRIPTOR_LENGTH + 1)
        .issue();
    match result {
        Err(Error::ArgumentOutOfBounds { limit, value }) => {
            assert_eq!(limit, 536_870_910);
            assert_eq!(value, 536_870_911);
        },
        _ => panic!("expected the out-of-bounds error"),
    }
}

#[test]
fn end_to_end_decodes_reply() {
    let scsi = Scsi::new(FakeDevice {
        parameter_data_length: 8 + 2 * 8,
        number_of_open_streams: 5,
        identifiers: vec![10, 20],
    });
    let result = scsi.get_stream_status().descriptor_length(3).issue().unwrap();
    assert_eq!(result.total_descriptor_length, 2);
    assert_eq!(result.number_of_open_streams, 5);
    assert_eq!(result.stream_identifiers, vec![10, 20]);
}

#[test]
fn decode_clamps_reported_count_to_capacity() {
    let scsi = Scsi::new(FakeDevice {
        parameter_data_length: 8 + 5 * 8,
        number_of_open_streams: 5,
        identifiers: vec![1, 2, 3, 4, 5],
    });
    let result = scsi.get_stream_status().descriptor_length(2).issue().unwrap();
    assert_eq!(result.total_descriptor_length, 5);
    assert_eq!(result.stream_identifiers, vec![1, 2]);
}

#[test]
fn decode_takes_short_reported_count() {
    let scsi = Scsi::new(FakeDevice {
        parameter_data_length: 8 + 8,
        number_of_open_streams: 9,
        identifiers: vec![7],
    });
    let result = scsi.get_stream_status().descriptor_length(3).issue().unwrap();
    assert_eq!(result.total_descriptor_length, 1);
    assert_eq!(result.number_of_open_streams, 9);
    assert_eq!(result.stream_identifiers, vec![7]);
}

#[test]
fn decode_handles_length_below_overhead() {
    let scsi = Scsi::new(FakeDevice {
        parameter_data_length: 0,
        number_of_open_streams: 3,
        identifiers: vec![],
    });
    let result = scsi.get_stream_status().descriptor_length(2).issue().unwrap();
    assert_eq!(result.total_descriptor_length, 0);
    assert_eq!(result.number_of_open_streams, 3);
    assert_eq!(result.stream_identifiers, Vec::<u16>::new());
}

#[test]
fn zero_capacity_query_decodes_counts_only() {
    let scsi = Scsi::new(FakeDevice {
        parameter_data_length: 8 + 4 * 8,
        number_of_open_streams: 4,
        identifiers: vec![11, 12, 13, 14],
    });
    let result = scsi.get_stream_status().descriptor_length(0).issue().unwrap();
    assert_eq!(result.total_descriptor_length, 4);
    assert_eq!(result.number_of_open_streams, 4);
    assert_eq!(result.stream_identifiers, Vec::<u16>::new());
}

#[test]
fn transport_error_takes_precedence() {
    let scsi = Scsi::new(FailingDevice {
        transport_failure: Some(-5),
        device_failure: Some(3),
    });
    let result = scsi.get_stream_status().descriptor_length(1).issue();
    match result {
        Err(Error::TransportError { code }) => assert_eq!(code, -5),
        _ => panic!("expected the transport error"),
    }
}

#[test]
fn device_fault_is_reported() {
    let scsi = Scsi::new(FailingDevice {
        transport_failure: None,
        device_failure: Some(0x0b),
    });
    let result = scsi.get_stream_status().descriptor_length(1).issue();
    match result {
        Err(Error::ProtocolError { sense_key }) => assert_eq!(sense_key, 0x0b),
        _ => panic!("expected the protocol error"),
    }
}

#[test]
fn issue_sends_the_configured_request() {
    let scsi = Scsi::new(InspectingDevice {
        expected_cdb: [
            0x9e, 0x16, 0x00, 0x00, 0x12, 0x34, 0x00, 0x00, 0x00, 0x00, 0x00, 0x00, 0x00, 0x18,
            0x00, 0x40,
        ],
        expected_data_size: 8 + 2 * 8,
    });
    let result = scsi
        .get_stream_status()
        .starting_stream_identifier(0x1234)
        .control(0x40)
        .descriptor_length(2)
        .issue()
        .unwrap();
    assert_eq!(result.total_descriptor_length, 0);
    assert_eq!(result.stream_identifiers, Vec::<u16>::new());
}

#[test]
fn reply_buffer_writes_are_read_back() {
    let mut buffer = FlexibleStruct::with_length(2);
    let header = ParameterHeader::new()
        .with_parameter_data_length(0xdead_beef)
        .with_number_of_open_streams(0x0708);
    buffer.write_header(&header);
    buffer.write_element(0, &Descriptor::new().with_stream_identifier(41));
    buffer.write_element(1, &Descriptor::new().with_stream_identifier(42));

    assert_eq!(buffer.header().parameter_data_length(), 0xdead_beef);
    assert_eq!(buffer.header().number_of_open_streams(), 0x0708);
    assert_eq!(buffer.element(0).stream_identifier(), 41);
    assert_eq!(buffer.element(1).stream_identifier(), 42);
    assert_eq!(buffer.byte_length(), 24);
}
