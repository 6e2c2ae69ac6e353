use thermal_control::command::pump::{Fault, FromPeripheral, ToPeripheral};
use thermal_control::framing::Overflow;
use thermal_control::model::{Entry, Model};
use thermal_control::peripherals::pump::{Error, Exchange, Pump};
use thermal_control::peripherals::{remaining_period, Action, Event, Timing};
use thermal_control::types::pump::PumpState;
use thermal_control::wire::DecodeError;

const TIMING: Timing = Timing { period: 200, timeout: 100 };

fn awaiting(target: PumpState, now: u64) -> Pump {
    let mut pump = Pump::new(TIMING);
    assert_eq!(pump.update_pump(target, now), Ok(vec![0xca, target.to_byte()]));
    pump
}

#[test]
fn new_pump_is_idle() {
    let pump = Pump::new(TIMING);
    assert!(pump.is_idle());
    assert_eq!(pump.exchange(), None);
    assert_eq!(pump.buffered_len(), 0);
}

#[test]
fn write_command_gives_the_frame() {
    assert_eq!(Pump::write_command(ToPeripheral::SetState(PumpState::On)), vec![0xca, 0x5e]);
    assert_eq!(Pump::write_command(ToPeripheral::SetState(PumpState::Off)), vec![0xca, 0xed]);
    assert_eq!(Pump::write_command(ToPeripheral::Get), vec![0x11]);
}

#[test]
fn update_pump_starts_an_exchange() {
    let mut pump = Pump::new(TIMING);
    assert_eq!(pump.update_pump(PumpState::Off, 77), Ok(vec![0xca, 0xed]));
    assert!(!pump.is_idle());
    assert_eq!(pump.exchange(), Some(Exchange { target: PumpState::Off, started: 77 }));
}

#[test]
fn second_request_is_refused_while_one_is_outstanding() {
    let mut pump = awaiting(PumpState::On, 5);
    assert_eq!(pump.update_pump(PumpState::Off, 6), Err(Error::TransferInProgress));
    assert_eq!(pump.exchange(), Some(Exchange { target: PumpState::On, started: 5 }));
}

#[test]
fn matching_acknowledgement_is_success() {
    assert_eq!(
        Pump::check_response(PumpState::On, FromPeripheral::PumpState(PumpState::On)),
        Ok(())
    );
    assert_eq!(
        Pump::check_response(PumpState::Off, FromPeripheral::PumpState(PumpState::Off)),
        Ok(())
    );
}

#[test]
fn set_on_answered_with_off_is_non_conformance() {
    assert_eq!(
        Pump::check_response(PumpState::On, FromPeripheral::PumpState(PumpState::Off)),
        Err(Error::NonConformance)
    );
    assert_eq!(
        Pump::check_response(PumpState::Off, FromPeripheral::PumpState(PumpState::On)),
        Err(Error::NonConformance)
    );
}

#[test]
fn fault_carries_its_kind() {
    assert_eq!(
        Pump::check_response(PumpState::On, FromPeripheral::Fault(Fault::Temperature)),
        Err(Error::Fault(Fault::Temperature))
    );
    assert_eq!(
        Pump::check_response(PumpState::Off, FromPeripheral::Fault(Fault::Current)),
        Err(Error::Fault(Fault::Current))
    );
}

#[test]
fn read_command_steps() {
    let mut pump = Pump::new(TIMING);
    assert_eq!(pump.read_command(&[]), Ok(None));
    assert_eq!(pump.read_command(&[0xaa]), Ok(None));
    assert_eq!(pump.buffered_len(), 1);
    assert_eq!(pump.read_command(&[0x5e]), Ok(Some(FromPeripheral::PumpState(PumpState::On))));
    assert_eq!(pump.buffered_len(), 0);
    assert_eq!(pump.read_command(&[0x07]), Err(Error::Deserialize(DecodeError::UnknownOpcode)));
    assert_eq!(pump.buffered_len(), 1);
}

#[test]
fn on_wake_with_conforming_acknowledgement() {
    let mut pump = awaiting(PumpState::On, 0);
    assert_eq!(pump.on_wake(&[0xaa, 0x5e]), Some(Ok(())));
    assert!(pump.is_idle());
    assert_eq!(pump.buffered_len(), 0);
}

#[test]
fn on_wake_with_diverging_acknowledgement() {
    let mut pump = awaiting(PumpState::On, 0);
    assert_eq!(pump.on_wake(&[0xaa, 0xed]), Some(Err(Error::NonConformance)));
    assert!(pump.is_idle());
}

#[test]
fn on_wake_with_partial_frame_keeps_waiting() {
    let mut pump = awaiting(PumpState::Off, 0);
    assert_eq!(pump.on_wake(&[]), None);
    assert_eq!(pump.on_wake(&[0xaa]), None);
    assert!(!pump.is_idle());
    assert_eq!(pump.buffered_len(), 1);
    assert_eq!(pump.on_wake(&[0xed]), Some(Ok(())));
    assert!(pump.is_idle());
    assert_eq!(pump.buffered_len(), 0);
}

#[test]
fn on_timeout_abandons_the_exchange_and_keeps_the_buffer() {
    let mut pump = awaiting(PumpState::On, 0);
    assert_eq!(pump.on_wake(&[0xaa]), None);
    assert_eq!(pump.on_timeout(), Error::Timeout);
    assert!(pump.is_idle());
    assert_eq!(pump.buffered_len(), 1);
    // The next exchange finds the stale byte in front of its own answer.
    assert_eq!(pump.update_pump(PumpState::Off, 500), Ok(vec![0xca, 0xed]));
    assert_eq!(pump.on_wake(&[0x5e]), Some(Err(Error::NonConformance)));
}

#[test]
fn run_commands_on_with_no_history() {
    let mut model = Model::new(60);
    let mut pump = Pump::new(TIMING);
    assert_eq!(
        pump.run(&mut model, Event::Tick, 1000),
        Action::Transmit { frame: vec![0xca, 0x5e], timeout: 100 }
    );
    assert_eq!(pump.exchange(), Some(Exchange { target: PumpState::On, started: 1000 }));
    assert_eq!(model.history(), Vec::<Entry>::new());
}

#[test]
fn run_commands_what_the_control_law_says() {
    let mut model = Model::new(60);
    model.push_temperature(60, 1);
    model.push_pump_state(PumpState::On, 2);
    let mut pump = Pump::new(TIMING);
    assert_eq!(
        pump.run(&mut model, Event::Tick, 10),
        Action::Transmit { frame: vec![0xca, 0xed], timeout: 100 }
    );
    let mut model = Model::new(60);
    model.push_temperature(61, 1);
    model.push_pump_state(PumpState::Off, 2);
    let mut pump = Pump::new(TIMING);
    assert_eq!(
        pump.run(&mut model, Event::Tick, 10),
        Action::Transmit { frame: vec![0xca, 0x5e], timeout: 100 }
    );
}

#[test]
fn run_whole_cycle() {
    let mut model = Model::new(60);
    model.push_temperature(75, 990);
    let mut pump = Pump::new(TIMING);
    assert_eq!(
        pump.run(&mut model, Event::Tick, 1000),
        Action::Transmit { frame: vec![0xca, 0x5e], timeout: 100 }
    );
    assert_eq!(pump.run(&mut model, Event::Wake(&[0xaa]), 1010), Action::Await);
    assert_eq!(model.history(), Vec::<Entry>::new());
    assert_eq!(pump.run(&mut model, Event::Wake(&[0x5e]), 1030), Action::Rest { delay: 170 });
    assert!(pump.is_idle());
    assert_eq!(
        model.history(),
        vec![Entry { timestamp: 1030, temperature: 75, pump_state: PumpState::On }]
    );
    assert_eq!(
        pump.run(&mut model, Event::Tick, 1200),
        Action::Transmit { frame: vec![0xca, 0x5e], timeout: 100 }
    );
}

#[test]
fn run_without_a_temperature_leaves_the_state_pending() {
    let mut model = Model::new(60);
    let mut pump = Pump::new(TIMING);
    pump.run(&mut model, Event::Tick, 0);
    assert_eq!(pump.run(&mut model, Event::Wake(&[0xaa, 0x5e]), 250), Action::Rest { delay: 0 });
    assert_eq!(model.pending(), (None, Some(PumpState::On)));
    assert_eq!(model.history(), Vec::<Entry>::new());
}

#[test]
fn run_halts_on_non_conformance_and_spares_the_model() {
    let mut model = Model::new(60);
    model.push_temperature(75, 1);
    let mut pump = Pump::new(TIMING);
    pump.run(&mut model, Event::Tick, 10);
    assert_eq!(
        pump.run(&mut model, Event::Wake(&[0xaa, 0xed]), 20),
        Action::Halt(Error::NonConformance)
    );
    assert_eq!(model.pending(), (Some(75), None));
    assert_eq!(model.history(), Vec::<Entry>::new());
    assert!(pump.is_idle());
}

#[test]
fn run_halts_on_fault() {
    let mut model = Model::new(60);
    let mut pump = Pump::new(TIMING);
    pump.run(&mut model, Event::Tick, 10);
    assert_eq!(
        pump.run(&mut model, Event::Wake(&[0x1f, 0xad]), 20),
        Action::Halt(Error::Fault(Fault::Current))
    );
    assert_eq!(model.pending(), (None, None));
}

#[test]
fn run_halts_on_timeout_and_delivers_nothing() {
    let mut model = Model::new(60);
    model.push_temperature(75, 1);
    let mut pump = Pump::new(TIMING);
    pump.run(&mut model, Event::Tick, 10);
    assert_eq!(pump.run(&mut model, Event::Wake(&[]), 20), Action::Await);
    assert_eq!(pump.run(&mut model, Event::Wake(&[0xaa]), 30), Action::Await);
    assert_eq!(pump.run(&mut model, Event::Deadline, 110), Action::Halt(Error::Timeout));
    assert_eq!(model.pending(), (Some(75), None));
    assert_eq!(model.history(), Vec::<Entry>::new());
    assert!(pump.is_idle());
    assert_eq!(pump.buffered_len(), 1);
}

#[test]
fn run_halts_on_undecodable_bytes_and_keeps_them() {
    let mut model = Model::new(60);
    let mut pump = Pump::new(TIMING);
    pump.run(&mut model, Event::Tick, 10);
    assert_eq!(
        pump.run(&mut model, Event::Wake(&[0x99, 0xaa, 0x5e]), 20),
        Action::Halt(Error::Deserialize(DecodeError::UnknownOpcode))
    );
    assert_eq!(pump.buffered_len(), 3);
    let mut pump = Pump::new(TIMING);
    pump.run(&mut model, Event::Tick, 10);
    assert_eq!(
        pump.run(&mut model, Event::Wake(&[0xaa, 0x99]), 20),
        Action::Halt(Error::Deserialize(DecodeError::MalformedPayload))
    );
    assert_eq!(pump.buffered_len(), 2);
}

#[test]
fn run_halts_on_overflow() {
    let mut model = Model::new(60);
    let mut pump = Pump::new(TIMING);
    pump.run(&mut model, Event::Tick, 10);
    assert_eq!(pump.run(&mut model, Event::Wake(&[0xaa]), 20), Action::Await);
    assert_eq!(
        pump.run(&mut model, Event::Wake(&[0u8; 256]), 30),
        Action::Halt(Error::Ingestion(Overflow))
    );
    assert_eq!(pump.buffered_len(), 1);
}

#[test]
fn run_takes_exactly_the_capacity() {
    let mut pump = Pump::new(TIMING);
    let mut bytes = vec![0xaau8];
    bytes.extend([0u8; 255]);
    assert_eq!(
        pump.read_command(&bytes),
        Err(Error::Deserialize(DecodeError::MalformedPayload))
    );
    assert_eq!(pump.buffered_len(), 256);
    assert_eq!(pump.read_command(&[0]), Err(Error::Ingestion(Overflow)));
}

#[test]
fn run_refuses_a_tick_during_an_exchange() {
    let mut model = Model::new(60);
    let mut pump = Pump::new(TIMING);
    pump.run(&mut model, Event::Tick, 10);
    assert_eq!(pump.run(&mut model, Event::Tick, 20), Action::Halt(Error::TransferInProgress));
    assert_eq!(pump.exchange(), Some(Exchange { target: PumpState::On, started: 10 }));
}

#[test]
fn rest_is_what_is_left_of_the_period() {
    assert_eq!(remaining_period(200, 1000, 1000), 200);
    assert_eq!(remaining_period(200, 1000, 1030), 170);
    assert_eq!(remaining_period(200, 1000, 1199), 1);
    assert_eq!(remaining_period(200, 1000, 1200), 0);
    assert_eq!(remaining_period(200, 1000, 5000), 0);
    assert_eq!(remaining_period(200, 1000, 999), 200);
    assert_eq!(remaining_period(0, 10, 10), 0);
    assert_eq!(remaining_period(u64::MAX, 0, u64::MAX), 0);
    assert_eq!(remaining_period(u64::MAX, 0, 1), u64::MAX - 1);
}
