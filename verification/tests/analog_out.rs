use waveshare::analog_out::{AnalogOutput, AnalogOutputError, ControlMode, HoldingRegisterBases};
use waveshare::common::{Baudrates, Channel, Parity, WaveshareModbus};
use waveshare::link::{Exchange, Reply, Request, Response};
use waveshare::ThreadSafeContext;

const ANALOG_OUT_MODES: [ControlMode; 5] = [
    ControlMode::V0V10,
    ControlMode::V2V10,
    ControlMode::C0C20,
    ControlMode::C4C20,
    ControlMode::RAW,
];

fn analog_out_timeout() -> Reply {
    Err(tokio_modbus::Error::Transport(std::io::Error::new(
        std::io::ErrorKind::TimedOut,
        "timed out",
    )))
}

fn analog_out_exception() -> Reply {
    Ok(Err(tokio_modbus::ExceptionCode::IllegalFunction))
}

#[test]
fn analog_out_register_base_has_its_fixed_address() {
    assert_eq!(HoldingRegisterBases::AnalogValue.address(), 0x0000);
}

#[test]
fn analog_out_control_mode_round_trips() {
    for (value, mode) in ANALOG_OUT_MODES.iter().enumerate() {
        assert_eq!(mode.code() as usize, value);
        assert_eq!(ControlMode::from_u16(mode.code()).unwrap(), *mode);
    }
}

#[test]
fn analog_out_control_mode_rejects_undefined_codes() {
    for value in [0x0005u16, 0x0006, 0x0100, 0xFFFF] {
        assert!(matches!(
            ControlMode::from_u16(value),
            Err(AnalogOutputError::InvalidControlMode)
        ));
    }
}

#[test]
fn analog_output_value_operations() {
    let device = AnalogOutput::new(9);
    let mut link = ThreadSafeContext::new();
    assert_eq!(
        device.read_output_channel_value(&mut link, Channel::Channel2),
        Exchange {
            slave: 9,
            request: Request::ReadHoldingRegisters(0x0002, 1)
        }
    );
    assert_eq!(
        device.write_output_channel_value(&mut link, Channel::Channel7, 4095),
        Exchange {
            slave: 9,
            request: Request::WriteSingleRegister(0x0007, 4095)
        }
    );
    assert_eq!(link.selected_slave(), Some(9));
}

#[test]
fn analog_output_common_operations_use_the_common_registers() {
    let device = AnalogOutput::new(10);
    let mut link = ThreadSafeContext::new();
    assert_eq!(
        device.set_uart_parameters(&mut link, Baudrates::B4800, Parity::NoParity),
        Exchange {
            slave: 10,
            request: Request::WriteSingleRegister(0x2000, 0x0000)
        }
    );
    assert_eq!(
        device.set_device_address(&mut link, 1),
        Exchange {
            slave: 10,
            request: Request::WriteSingleRegister(0x4000, 0x0001)
        }
    );
    assert_eq!(
        device.read_software_version(&mut link),
        Exchange {
            slave: 10,
            request: Request::ReadHoldingRegisters(0x8000, 1)
        }
    );
}

#[test]
fn analog_output_value_is_the_first_word() {
    assert_eq!(
        AnalogOutput::decode_output_channel_value(Ok(Ok(Response::Words(vec![1234])))).unwrap(),
        1234
    );
    assert!(matches!(
        AnalogOutput::decode_output_channel_value(Ok(Ok(Response::Words(vec![])))),
        Err(AnalogOutputError::UnexpectedResponse)
    ));
    assert!(matches!(
        AnalogOutput::decode_output_channel_value(Ok(Ok(Response::Written))),
        Err(AnalogOutputError::UnexpectedResponse)
    ));
}

#[test]
fn analog_output_failures_keep_their_kind() {
    assert!(matches!(
        AnalogOutput::decode_output_channel_value(analog_out_timeout()),
        Err(AnalogOutputError::ModbusError(tokio_modbus::Error::Transport(_)))
    ));
    assert!(matches!(
        AnalogOutput::decode_output_channel_value(analog_out_exception()),
        Err(AnalogOutputError::ModbusException(
            tokio_modbus::ExceptionCode::IllegalFunction
        ))
    ));
    assert!(matches!(
        AnalogOutput::decode_write(analog_out_exception()),
        Err(AnalogOutputError::ModbusException(_))
    ));
    assert!(matches!(
        AnalogOutput::decode_software_version(analog_out_timeout()),
        Err(AnalogOutputError::ModbusError(_))
    ));
}

#[test]
fn analog_output_write_and_version_results() {
    assert!(AnalogOutput::decode_write(Ok(Ok(Response::Written))).is_ok());
    assert!(matches!(
        AnalogOutput::decode_write(Ok(Ok(Response::Bits(vec![])))),
        Err(AnalogOutputError::UnexpectedResponse)
    ));
    assert_eq!(
        AnalogOutput::decode_software_version(Ok(Ok(Response::Words(vec![0x0101])))).unwrap(),
        0x0101
    );
}

#[test]
fn analog_output_refusal_names_each_kind() {
    assert!(matches!(
        AnalogOutput::refusal(analog_out_timeout()),
        AnalogOutputError::ModbusError(_)
    ));
    assert!(matches!(
        AnalogOutput::refusal(analog_out_exception()),
        AnalogOutputError::ModbusException(_)
    ));
    assert!(matches!(
        AnalogOutput::refusal(Ok(Ok(Response::Written))),
        AnalogOutputError::UnexpectedResponse
    ));
}
