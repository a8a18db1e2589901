use waveshare::analog_in::AnalogInput;
use waveshare::analog_out::AnalogOutput;
use waveshare::common::{Channel, WaveshareModbus};
use waveshare::digital::{Action, DigitalIO};
use waveshare::link::{Exchange, Reply, Request, Response};
use waveshare::ThreadSafeContext;

#[derive(Debug, PartialEq)]
enum Seen {
    Select(u8),
    Transact(u8, Request),
}

struct SimulatedLink {
    state: ThreadSafeContext,
    wire: Vec<Seen>,
}

fn simulated_link() -> SimulatedLink {
    SimulatedLink {
        state: ThreadSafeContext::new(),
        wire: Vec::new(),
    }
}

fn simulated_reply(request: &Request) -> Reply {
    match request {
        Request::ReadCoils(_, cnt) | Request::ReadDiscreteInputs(_, cnt) => {
            Ok(Ok(Response::Bits(vec![true; *cnt as usize])))
        }
        Request::ReadHoldingRegisters(addr, cnt) | Request::ReadInputRegisters(addr, cnt) => Ok(
            Ok(Response::Words((0..*cnt).map(|i| addr + 100 + i).collect())),
        ),
        Request::ReadWriteMultipleRegisters(_, cnt, _, _) => {
            Ok(Ok(Response::Words(vec![0; *cnt as usize])))
        }
        _ => Ok(Ok(Response::Written)),
    }
}

fn perform(link: &mut SimulatedLink, caller: u8, unit: Exchange) -> Reply {
    link.wire.push(Seen::Select(unit.slave));
    let reply = simulated_reply(&unit.request);
    link.wire.push(Seen::Transact(caller, unit.request));
    reply
}

#[test]
fn interleaved_callers_never_split_select_from_transaction() {
    let mut link = simulated_link();
    let first = DigitalIO::new(1);
    let second = AnalogInput::new(2);
    for round in 0u16..16 {
        if round % 3 != 0 {
            let unit = first.flash_output_on(&mut link.state, Channel::Channel1, round);
            perform(&mut link, first.unit_id, unit);
        }
        if round % 2 == 0 {
            let unit = second.read_input_channels(&mut link.state);
            perform(&mut link, second.unit_id, unit);
        }
        let unit = second.read_input_channel_status(&mut link.state, Channel::Channel0);
        perform(&mut link, second.unit_id, unit);
        let unit = first.open_all_outputs(&mut link.state);
        perform(&mut link, first.unit_id, unit);
    }
    assert_eq!(link.wire.len() % 2, 0);
    for (i, step) in link.wire.iter().enumerate() {
        match step {
            Seen::Select(slave) => {
                assert!(matches!(
                    link.wire.get(i + 1),
                    Some(Seen::Transact(caller, _)) if caller == slave
                ));
            }
            Seen::Transact(caller, _) => {
                assert!(i >= 1);
                assert_eq!(link.wire[i - 1], Seen::Select(*caller));
            }
        }
    }
}

#[test]
fn selected_slave_is_the_one_of_the_unit_in_hand() {
    let mut link = ThreadSafeContext::new();
    let first = DigitalIO::new(17);
    let second = DigitalIO::new(42);
    let unit = first.close_all_outputs(&mut link);
    assert_eq!(link.selected_slave(), Some(unit.slave));
    assert_eq!(unit.slave, 17);
    let unit = second.close_all_outputs(&mut link);
    assert_eq!(link.selected_slave(), Some(unit.slave));
    assert_eq!(unit.slave, 42);
    let unit = first.write_output_channel(&mut link, Channel::Channel0, Action::On);
    assert_eq!(link.selected_slave(), Some(unit.slave));
    assert_eq!(unit.slave, 17);
}

#[test]
fn writing_eight_actions_puts_one_multi_coil_write_on_the_wire() {
    let mut link = simulated_link();
    let device = DigitalIO::new(1);
    let actions = [
        Action::On,
        Action::Off,
        Action::On,
        Action::Off,
        Action::On,
        Action::Off,
        Action::On,
        Action::Off,
    ];
    let unit = device.write_output_channels(&mut link.state, actions);
    let reply = perform(&mut link, device.unit_id, unit);
    assert!(DigitalIO::decode_write(reply).is_ok());
    assert_eq!(
        link.wire,
        vec![
            Seen::Select(1),
            Seen::Transact(
                1,
                Request::WriteMultipleCoils(
                    0x0000,
                    vec![true, false, true, false, true, false, true, false]
                )
            ),
        ]
    );
}

#[test]
fn reading_eight_analog_inputs_is_one_read_in_channel_order() {
    let mut link = simulated_link();
    let device = AnalogInput::new(1);
    let unit = device.read_input_channels(&mut link.state);
    let reply = perform(&mut link, device.unit_id, unit);
    assert_eq!(
        link.wire,
        vec![
            Seen::Select(1),
            Seen::Transact(1, Request::ReadInputRegisters(0x0000, 8)),
        ]
    );
    assert_eq!(
        AnalogInput::decode_input_channels(reply).unwrap(),
        vec![100, 101, 102, 103, 104, 105, 106, 107]
    );
}

fn stage_new_address<D: WaveshareModbus>(device: &D, link: &mut ThreadSafeContext) -> Exchange {
    device.set_device_address(link, 0x10)
}

#[test]
fn every_class_shares_the_common_operations() {
    let mut link = ThreadSafeContext::new();
    let units = [
        stage_new_address(&AnalogInput::new(1), &mut link),
        stage_new_address(&AnalogOutput::new(2), &mut link),
        stage_new_address(&DigitalIO::new(3), &mut link),
    ];
    for (i, unit) in units.iter().enumerate() {
        assert_eq!(unit.slave as usize, i + 1);
        assert_eq!(unit.request, Request::WriteSingleRegister(0x4000, 0x0010));
    }
    assert_eq!(link.selected_slave(), Some(3));
    assert_eq!(AnalogInput::new(1).unit_id(), 1);
    assert_eq!(AnalogOutput::new(2).unit_id(), 2);
    assert_eq!(DigitalIO::new(3).unit_id(), 3);
}
