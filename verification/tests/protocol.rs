use mpu9150::decode::SAMPLE_LEN;
use mpu9150::protocol::{check_whoami, read_register_block, read_sample, setup};
use mpu9150::transport::{MpuError, OpRecord, ScriptedTransport, TransportError};

fn scripted(responses: Vec<Vec<u8>>) -> ScriptedTransport {
    ScriptedTransport::new(responses)
}

#[test]
fn register_block_is_one_write_one_read() {
    // One register select, one bulk read, whatever the buffer length.
    for len in [1usize, 4, SAMPLE_LEN] {
        let response: Vec<u8> = (0..len as u8).collect();
        let mut bus = scripted(vec![response.clone()]);
        let mut buf = vec![0u8; len];
        let r = read_register_block(&mut bus, 0x3b, &mut buf);
        assert!(r.is_ok());
        assert_eq!(
            bus.log,
            vec![OpRecord::Write(vec![0x3b]), OpRecord::Read(len)],
        );
        assert_eq!(buf, response);
    }
}

#[test]
fn register_block_read_failure_propagates() {
    // Exhausted script: the select goes out, the read fails.
    let mut bus = scripted(vec![]);
    let mut buf = vec![0u8; 2];
    let r = read_register_block(&mut bus, 0x75, &mut buf);
    assert_eq!(r, Err(TransportError));
    assert_eq!(bus.log, vec![OpRecord::Write(vec![0x75]), OpRecord::Read(2)]);
}

#[test]
fn whoami_decision() {
    assert!(check_whoami(0x68).is_ok());
    for wrong in [0x00u8, 0x67, 0x69, 0xff] {
        assert_eq!(check_whoami(wrong), Err(MpuError::DeviceNotRecognized));
    }
}

#[test]
fn setup_full_configuration_in_order() {
    // WhoAmI answers 0x68: the wake write and the configuration write
    // follow, in order, and setup succeeds.
    let mut bus = scripted(vec![vec![0x68]]);
    assert_eq!(setup(&mut bus), Ok(()));
    assert_eq!(
        bus.log,
        vec![
            OpRecord::Write(vec![0x75]),
            OpRecord::Read(1),
            OpRecord::Write(vec![0x6b, 0x00]),
            OpRecord::Write(vec![0x19, 199, 0x06, 0x00, 0x00]),
        ],
    );
    assert_eq!(bus.read_log, vec![vec![0x68]]);
}

#[test]
fn setup_rejects_wrong_identity_without_writing() {
    // Any WhoAmI byte other than 0x68 fails fast: no write after the
    // identity check.
    for wrong in [0x00u8, 0x69, 0xff] {
        let mut bus = scripted(vec![vec![wrong]]);
        assert_eq!(setup(&mut bus), Err(MpuError::DeviceNotRecognized));
        assert_eq!(bus.log, vec![OpRecord::Write(vec![0x75]), OpRecord::Read(1)]);
    }
}

#[test]
fn setup_transport_failure_propagates() {
    // The WhoAmI read fails at the bus level: no configuration write.
    let mut bus = scripted(vec![]);
    assert_eq!(setup(&mut bus), Err(MpuError::Transport(TransportError)));
    assert_eq!(bus.log, vec![OpRecord::Write(vec![0x75]), OpRecord::Read(1)]);
}

#[test]
fn read_sample_end_to_end() {
    // Raw accel-X bytes 0x10,0x00 = 4096 counts; everything else zero.
    let block = vec![
        0x10, 0x00, 0x00, 0x00, 0x00, 0x00, 0x00, 0x00, 0x00, 0x00, 0x00, 0x00, 0x00, 0x00,
    ];
    let mut bus = scripted(vec![block]);
    let s = read_sample(&mut bus).unwrap();
    assert_eq!(s.accel, [4096, 0, 0]);
    assert_eq!(s.temp, 0);
    assert_eq!(s.gyro, [0, 0, 0]);
    // In physical units: 0.25 g on X, 35 degrees Celsius, no rotation.
    let accel: Vec<f32> = s.accel.iter().map(|&v| v as f32 / 16384.0).collect();
    assert_eq!(accel, vec![0.25, 0.0, 0.0]);
    assert_eq!(s.temp as f32 / 340.0 + 35.0, 35.0);
    let gyro: Vec<f32> = s.gyro.iter().map(|&v| v as f32 / 131.0).collect();
    assert_eq!(gyro, vec![0.0, 0.0, 0.0]);
    // The block came from one atomic register read.
    assert_eq!(
        bus.log,
        vec![OpRecord::Write(vec![0x3b]), OpRecord::Read(SAMPLE_LEN)],
    );
}

#[test]
fn read_sample_transport_failure_propagates() {
    let mut bus = scripted(vec![]);
    assert_eq!(read_sample(&mut bus), Err(MpuError::Transport(TransportError)));
}

#[test]
fn scripted_read_rejects_length_mismatch() {
    // A response of the wrong length is a failed read, not a torn one.
    let mut bus = scripted(vec![vec![1, 2, 3]]);
    let mut buf = vec![0u8; 2];
    assert_eq!(read_register_block(&mut bus, 0x3b, &mut buf), Err(TransportError));
    assert_eq!(buf, vec![0, 0]);
}
