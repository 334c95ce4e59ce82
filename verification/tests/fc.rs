use flight_controller::fc::{
    FlightController, InitError, MPUSample, Measurement, ACCEL_COUNTS_PER_G, GYRO_COUNTS_PER_DPS,
    MEASUREMENTS, MEASUREMENTS_LEN, MPU_IDENTITY, TEMP_COUNTS_PER_DEGREE, TEMP_OFFSET_DEGREES,
    WHO_AM_I,
};
use flight_controller::io::{BusError, BusOp, BusReply, Step};
use i2cdev::mock::MockI2CDevice;
use std::collections::VecDeque;
use std::io;

/// What the scripted device expects next, and how it answers.
#[derive(Debug)]
enum Expected {
    Write(Vec<u8>, Result<(), &'static str>),
    Read(Vec<u8>, Result<(), &'static str>),
}

/// A device that follows a script, and panics at anything that is not in it.
struct ScriptedDevice {
    script: VecDeque<Expected>,
}

impl ScriptedDevice {
    fn new(script: Vec<Expected>) -> ScriptedDevice {
        ScriptedDevice { script: script.into() }
    }

    fn answer(result: Result<(), &'static str>) -> Result<(), io::Error> {
        result.map_err(|message| io::Error::new(io::ErrorKind::Other, message))
    }
}

impl i2cdev::core::I2CDevice for ScriptedDevice {
    type Error = io::Error;

    fn read(&mut self, data: &mut [u8]) -> Result<(), io::Error> {
        match self.script.pop_front() {
            Some(Expected::Read(bytes, result)) => {
                assert_eq!(data.len(), bytes.len());
                data.copy_from_slice(&bytes);
                ScriptedDevice::answer(result)
            }
            otherwise => panic!("Expected {:?}, found read with buf len {}", otherwise, data.len()),
        }
    }

    fn write(&mut self, data: &[u8]) -> Result<(), io::Error> {
        match self.script.pop_front() {
            Some(Expected::Write(bytes, result)) => {
                assert_eq!(data, &bytes[..]);
                ScriptedDevice::answer(result)
            }
            otherwise => panic!("Expected {:?}, found write of {:?}", otherwise, data),
        }
    }

    fn smbus_write_quick(&mut self, _bit: bool) -> Result<(), io::Error> {
        panic!("no SMBus call is expected")
    }

    fn smbus_read_block_data(&mut self, _register: u8) -> Result<Vec<u8>, io::Error> {
        panic!("no SMBus call is expected")
    }

    fn smbus_read_i2c_block_data(&mut self, _register: u8, _len: u8) -> Result<Vec<u8>, io::Error> {
        panic!("no SMBus call is expected")
    }

    fn smbus_write_block_data(&mut self, _register: u8, _values: &[u8]) -> Result<(), io::Error> {
        panic!("no SMBus call is expected")
    }

    fn smbus_write_i2c_block_data(&mut self, _register: u8, _values: &[u8]) -> Result<(), io::Error> {
        panic!("no SMBus call is expected")
    }

    fn smbus_process_block(&mut self, _register: u8, _values: &[u8]) -> Result<Vec<u8>, io::Error> {
        panic!("no SMBus call is expected")
    }
}

/// Performs one bus operation on the device.
fn perform<I: i2cdev::core::I2CDevice>(bus: &mut I, op: BusOp) -> BusReply<I::Error> {
    match op {
        BusOp::Write(bytes) => match bus.write(&bytes) {
            Ok(()) => BusReply::Written,
            Err(error) => BusReply::Failed(error),
        },
        BusOp::Read(len) => {
            let mut data = vec![0u8; len];
            match bus.read(&mut data) {
                Ok(()) => BusReply::Data(data),
                Err(error) => BusReply::Failed(error),
            }
        }
    }
}

/// Runs the handshake on the device.
fn set_up<I: i2cdev::core::I2CDevice>(bus: &mut I) -> Result<FlightController, InitError<I::Error>> {
    let (mut handshake, mut op) = FlightController::new();
    loop {
        match handshake.advance(perform(bus, op)) {
            Step::Issue(next, next_op) => {
                handshake = next;
                op = next_op;
            }
            Step::Done(result) => return result,
        }
    }
}

/// Reads one sample from the device.
fn sample<I: i2cdev::core::I2CDevice>(
    bus: &mut I,
    controller: &FlightController,
) -> Result<MPUSample, BusError<I::Error>> {
    let (mut reading, mut op) = controller.read_sample();
    loop {
        match reading.advance(perform(bus, op)) {
            Step::Issue(next, next_op) => {
                reading = next;
                op = next_op;
            }
            Step::Done(result) => return result,
        }
    }
}

/// The script of a handshake that goes through.
fn good_handshake() -> Vec<Expected> {
    vec![
        Expected::Write(vec![0x75], Ok(())),
        Expected::Read(vec![0x68], Ok(())),
        Expected::Write(vec![0x6b, 0x00], Ok(())),
        Expected::Write(vec![0x19, 199, 0x06, 0x00, 0x00], Ok(())),
    ]
}

/// The value in real units that a measurement stands for.
fn in_units(measurement: Measurement) -> f32 {
    measurement.raw as f32 / measurement.per_unit as f32 + measurement.offset as f32
}

#[test]
fn constants_are_those_of_the_device() {
    assert_eq!(WHO_AM_I, 0x75);
    assert_eq!(MPU_IDENTITY, 0x68);
    assert_eq!(MEASUREMENTS, 0x3b);
    assert_eq!(MEASUREMENTS_LEN, (3 + 1 + 3) * 2);
    assert_eq!(ACCEL_COUNTS_PER_G, 16384);
    assert_eq!(TEMP_COUNTS_PER_DEGREE, 340);
    assert_eq!(TEMP_OFFSET_DEGREES, 35);
    assert_eq!(GYRO_COUNTS_PER_DPS, 131);
}

#[test]
fn handshake_identifies_wakes_and_configures() {
    let mut dev = ScriptedDevice::new(good_handshake());
    assert!(set_up(&mut dev).is_ok());
    assert!(dev.script.is_empty());
}

#[test]
fn handshake_stops_at_a_wrong_identity() {
    for identity in [0x00u8, 0x67, 0x69, 0xff] {
        let mut dev = ScriptedDevice::new(vec![
            Expected::Write(vec![0x75], Ok(())),
            Expected::Read(vec![identity], Ok(())),
        ]);
        assert!(matches!(set_up(&mut dev), Err(InitError::IdentityMismatch)));
        assert!(dev.script.is_empty());
    }
}

#[test]
fn handshake_stops_at_the_first_transport_failure() {
    for failing in 0..4 {
        let mut script = good_handshake();
        script.truncate(failing + 1);
        match &mut script[failing] {
            Expected::Write(_, result) | Expected::Read(_, result) => *result = Err("bus fault"),
        }
        let mut dev = ScriptedDevice::new(script);
        match set_up(&mut dev) {
            Err(InitError::Transport(error)) => assert_eq!(error.to_string(), "bus fault"),
            other => panic!("expected the error of the transport, found {:?}", other),
        }
        assert!(dev.script.is_empty());
    }
}

#[test]
fn handshake_refuses_a_reply_that_is_out_of_step() {
    let (handshake, _) = FlightController::new();
    assert!(matches!(
        handshake.advance::<io::Error>(BusReply::Data(vec![0x68])),
        Step::Done(Err(InitError::OutOfStep))
    ));

    for wrong in [vec![], vec![0x68, 0x68]] {
        let (handshake, _) = FlightController::new();
        let handshake = match handshake.advance::<io::Error>(BusReply::Written) {
            Step::Issue(next, BusOp::Read(1)) => next,
            other => panic!("expected the read of the identity, found {:?}", other),
        };
        assert!(matches!(
            handshake.advance::<io::Error>(BusReply::Data(wrong)),
            Step::Done(Err(InitError::OutOfStep))
        ));
    }

    let (handshake, _) = FlightController::new();
    let handshake = match handshake.advance::<io::Error>(BusReply::Written) {
        Step::Issue(next, _) => next,
        other => panic!("expected the read of the identity, found {:?}", other),
    };
    let handshake = match handshake.advance::<io::Error>(BusReply::Data(vec![0x68])) {
        Step::Issue(next, BusOp::Write(bytes)) => {
            assert_eq!(bytes, vec![0x6b, 0x00]);
            next
        }
        other => panic!("expected the wake-up write, found {:?}", other),
    };
    assert!(matches!(
        handshake.advance::<io::Error>(BusReply::Data(vec![0])),
        Step::Done(Err(InitError::OutOfStep))
    ));
}

#[test]
fn handshake_on_the_mock_device_of_i2cdev() {
    let mut dev = MockI2CDevice::new();
    dev.regmap.write_regs(0x75, &[0x68]);
    assert!(set_up(&mut dev).is_ok());

    let mut configuration = [0xffu8; 4];
    dev.regmap.write_regs(0x19, &[]);
    i2cdev::core::I2CDevice::write(&mut dev, &[0x19]).unwrap();
    i2cdev::core::I2CDevice::read(&mut dev, &mut configuration).unwrap();
    assert_eq!(configuration, [199, 0x06, 0x00, 0x00]);

    let mut other = MockI2CDevice::new();
    other.regmap.write_regs(0x75, &[0x71]);
    assert!(matches!(set_up(&mut other), Err(InitError::IdentityMismatch)));
    let mut untouched = [0xffu8; 4];
    i2cdev::core::I2CDevice::write(&mut other, &[0x19]).unwrap();
    i2cdev::core::I2CDevice::read(&mut other, &mut untouched).unwrap();
    assert_eq!(untouched, [0, 0, 0, 0]);
}

#[test]
fn sample_of_the_fixed_block() {
    let block = [
        0x10, 0x00, 0x00, 0x00, 0x00, 0x00, 0x00, 0x00, 0x00, 0x00, 0x00, 0x00, 0x00, 0x00,
    ];
    let mut script = good_handshake();
    script.push(Expected::Write(vec![0x3b], Ok(())));
    script.push(Expected::Read(block.to_vec(), Ok(())));
    let mut dev = ScriptedDevice::new(script);
    let controller = set_up(&mut dev).unwrap();
    let sample = sample(&mut dev, &controller).unwrap();
    assert!(dev.script.is_empty());

    assert_eq!(sample.accel[0].raw, 4096);
    assert_eq!(in_units(sample.accel[0]), 4096.0 / 16384.0);
    assert_eq!(in_units(sample.accel[0]), 0.25);
    assert_eq!(in_units(sample.accel[1]), 0.0);
    assert_eq!(in_units(sample.accel[2]), 0.0);
    assert_eq!(in_units(sample.temp), 0.0 / 340.0 + 35.0);
    assert_eq!(in_units(sample.temp), 35.0);
    assert_eq!(in_units(sample.gyro[0]), 0.0);
    assert_eq!(in_units(sample.gyro[1]), 0.0);
    assert_eq!(in_units(sample.gyro[2]), 0.0);
    assert_eq!(MPUSample::decode(&block), Some(sample));
}

#[test]
fn decode_reads_seven_big_endian_words_in_order() {
    let block = [
        0x00, 0x01, 0xff, 0xff, 0x7f, 0xff, 0x80, 0x00, 0x01, 0x00, 0xfe, 0x0c, 0x12, 0x34,
    ];
    let sample = MPUSample::decode(&block).unwrap();
    let accel = Measurement { raw: 0, per_unit: 16384, offset: 0 };
    let temp = Measurement { raw: 0, per_unit: 340, offset: 35 };
    let gyro = Measurement { raw: 0, per_unit: 131, offset: 0 };
    assert_eq!(sample.accel[0], Measurement { raw: 1, ..accel });
    assert_eq!(sample.accel[1], Measurement { raw: -1, ..accel });
    assert_eq!(sample.accel[2], Measurement { raw: 32767, ..accel });
    assert_eq!(sample.temp, Measurement { raw: -32768, ..temp });
    assert_eq!(sample.gyro[0], Measurement { raw: 256, ..gyro });
    assert_eq!(sample.gyro[1], Measurement { raw: -500, ..gyro });
    assert_eq!(sample.gyro[2], Measurement { raw: 0x1234, ..gyro });

    assert_eq!(in_units(sample.accel[1]), -1.0 / 16384.0);
    assert_eq!(in_units(sample.temp), -32768.0 / 340.0 + 35.0);
    assert_eq!(in_units(sample.gyro[1]), -500.0 / 131.0);
}

#[test]
fn measurements_carry_the_scale_of_their_kind() {
    assert_eq!(Measurement::accel(-16384), Measurement { raw: -16384, per_unit: 16384, offset: 0 });
    assert_eq!(Measurement::temp(340), Measurement { raw: 340, per_unit: 340, offset: 35 });
    assert_eq!(Measurement::gyro(131), Measurement { raw: 131, per_unit: 131, offset: 0 });
    assert_eq!(in_units(Measurement::accel(-16384)), -1.0);
    assert_eq!(in_units(Measurement::temp(340)), 36.0);
    assert_eq!(in_units(Measurement::gyro(131)), 1.0);
}

#[test]
fn decode_wants_the_whole_block() {
    assert_eq!(MPUSample::decode(&[]), None);
    assert_eq!(MPUSample::decode(&[0u8; 13]), None);
    assert_eq!(MPUSample::decode(&[0u8; 15]), None);
    assert!(MPUSample::decode(&[0u8; 14]).is_some());
}

#[test]
fn sample_on_the_mock_device_of_i2cdev() {
    let mut dev = MockI2CDevice::new();
    dev.regmap.write_regs(0x75, &[0x68]);
    let controller = set_up(&mut dev).unwrap();
    let block = [
        0xc0, 0x00, 0x20, 0x00, 0x40, 0x00, 0x01, 0x54, 0x00, 0x83, 0xff, 0x7d, 0x00, 0x00,
    ];
    dev.regmap.write_regs(0x3b, &block);
    let sample = sample(&mut dev, &controller).unwrap();
    assert_eq!(in_units(sample.accel[0]), -1.0);
    assert_eq!(in_units(sample.accel[1]), 0.5);
    assert_eq!(in_units(sample.accel[2]), 1.0);
    assert_eq!(in_units(sample.temp), 36.0);
    assert_eq!(in_units(sample.gyro[0]), 1.0);
    assert_eq!(in_units(sample.gyro[1]), -1.0);
    assert_eq!(in_units(sample.gyro[2]), 0.0);
}

#[test]
fn sample_stops_at_a_transport_failure() {
    let controller = set_up(&mut ScriptedDevice::new(good_handshake())).unwrap();

    let mut dev = ScriptedDevice::new(vec![Expected::Write(vec![0x3b], Err("bus fault"))]);
    match sample(&mut dev, &controller) {
        Err(BusError::Transport(error)) => assert_eq!(error.to_string(), "bus fault"),
        other => panic!("expected the error of the write, found {:?}", other),
    }
    assert!(dev.script.is_empty());

    let mut dev = ScriptedDevice::new(vec![
        Expected::Write(vec![0x3b], Ok(())),
        Expected::Read(vec![0x11; 14], Err("no answer")),
    ]);
    match sample(&mut dev, &controller) {
        Err(BusError::Transport(error)) => assert_eq!(error.to_string(), "no answer"),
        other => panic!("expected the error of the read, found {:?}", other),
    }
    assert!(dev.script.is_empty());
}

#[test]
fn sample_refuses_a_block_of_another_length() {
    let controller = set_up(&mut ScriptedDevice::new(good_handshake())).unwrap();
    let (reading, op) = controller.read_sample();
    assert!(matches!(op, BusOp::Write(ref bytes) if bytes[..] == [0x3b]));
    let reading = match reading.advance::<io::Error>(BusReply::Written) {
        Step::Issue(next, BusOp::Read(14)) => next,
        other => panic!("expected the read of the block, found {:?}", other),
    };
    assert!(matches!(
        reading.advance::<io::Error>(BusReply::Data(vec![0; 13])),
        Step::Done(Err(BusError::OutOfStep))
    ));
}
