use winrtble::model::BleError;
use winrtble::pairing::{event_fits_stage, PairingAction, SETTLE_MILLIS, PairingEvent, PairingFlow, PairingStage};

fn failed(text: &str) -> PairingEvent {
    PairingEvent::Failed(text.to_string())
}

#[test]
fn already_paired_device_needs_nothing() {
    let mut flow = PairingFlow::for_device();
    assert_eq!(flow.stage(), PairingStage::DeviceInformation);
    assert_eq!(flow.advance(PairingEvent::Done), PairingAction::Perform(PairingStage::Pairing));
    assert_eq!(flow.advance(PairingEvent::Done), PairingAction::Perform(PairingStage::PairedState));
    assert_eq!(flow.advance(PairingEvent::IsPaired(true)), PairingAction::Finish(Ok(())));
    assert_eq!(flow.stage(), PairingStage::Finished);
}

#[test]
fn unpaired_device_is_paired_and_settles() {
    let mut flow = PairingFlow::from_descriptor();
    assert_eq!(flow.advance(PairingEvent::Done), PairingAction::Perform(PairingStage::Service));
    assert_eq!(flow.advance(PairingEvent::Done), PairingAction::Perform(PairingStage::Device));
    assert_eq!(flow.advance(PairingEvent::Done), PairingAction::Perform(PairingStage::DeviceInformation));
    assert_eq!(flow.advance(PairingEvent::Done), PairingAction::Perform(PairingStage::Pairing));
    assert_eq!(flow.advance(PairingEvent::Done), PairingAction::Perform(PairingStage::PairedState));
    assert_eq!(flow.advance(failed("query failed")), PairingAction::Perform(PairingStage::PairRequest));
    assert_eq!(flow.advance(PairingEvent::Done), PairingAction::Perform(PairingStage::PairOperation));
    assert_eq!(flow.advance(PairingEvent::Done), PairingAction::Perform(PairingStage::PairStatus));
    assert_eq!(
        flow.advance(PairingEvent::Status { code: 3, text: "DevicePairingResultStatus(3)".to_string() }),
        PairingAction::Pause(500)
    );
    assert_eq!(flow.stage(), PairingStage::Settle);
    assert_eq!(flow.advance(PairingEvent::Done), PairingAction::Finish(Ok(())));
}

#[test]
fn rejected_pairing_reports_status() {
    let mut flow = PairingFlow::from_characteristic();
    assert_eq!(flow.stage(), PairingStage::Service);
    flow.advance(PairingEvent::Done);
    flow.advance(PairingEvent::Done);
    flow.advance(PairingEvent::Done);
    assert_eq!(flow.advance(PairingEvent::IsPaired(false)), PairingAction::Perform(PairingStage::PairRequest));
    flow.advance(PairingEvent::Done);
    flow.advance(PairingEvent::Done);
    assert_eq!(
        flow.advance(PairingEvent::Status { code: 19, text: "DevicePairingResultStatus(19)".to_string() }),
        PairingAction::Finish(Err(BleError::Other("Pairing failed: DevicePairingResultStatus(19)".to_string())))
    );
}

#[test]
fn each_failing_step_names_itself() {
    let cases = [
        (PairingFlow::from_descriptor(), 0, "Failed to get Characteristic: e"),
        (PairingFlow::from_characteristic(), 0, "Failed to get Service: e"),
        (PairingFlow::from_characteristic(), 1, "Failed to get Device: e"),
        (PairingFlow::for_device(), 0, "Failed to get DeviceInformation: e"),
        (PairingFlow::for_device(), 1, "Failed to get DeviceInformationPairing: e"),
    ];
    for (mut flow, done, message) in cases {
        for _ in 0..done {
            flow.advance(PairingEvent::Done);
        }
        assert_eq!(flow.advance(failed("e")), PairingAction::Finish(Err(BleError::Other(message.to_string()))));
    }
    let later = [
        (0, "PairAsync call failed: e"),
        (1, "PairAsync operation failed: e"),
        (2, "Failed to get PairingStatus: e"),
    ];
    for (done, message) in later {
        let mut flow = PairingFlow::for_device();
        flow.advance(PairingEvent::Done);
        flow.advance(PairingEvent::Done);
        flow.advance(PairingEvent::IsPaired(false));
        for _ in 0..done {
            flow.advance(PairingEvent::Done);
        }
        assert_eq!(flow.advance(failed("e")), PairingAction::Finish(Err(BleError::Other(message.to_string()))));
    }
}

#[test]
fn events_that_each_step_can_report() {
    assert!(event_fits_stage(PairingStage::Device, &PairingEvent::Done));
    assert!(event_fits_stage(PairingStage::Device, &failed("e")));
    assert!(!event_fits_stage(PairingStage::Device, &PairingEvent::IsPaired(true)));
    assert!(event_fits_stage(PairingStage::PairedState, &PairingEvent::IsPaired(false)));
    assert!(!event_fits_stage(PairingStage::PairedState, &PairingEvent::Done));
    assert!(event_fits_stage(PairingStage::PairStatus, &PairingEvent::Status { code: 0, text: String::new() }));
    assert!(!event_fits_stage(PairingStage::Settle, &failed("e")));
    assert!(!event_fits_stage(PairingStage::Finished, &PairingEvent::Done));
}

#[test]
fn settling_takes_half_a_second() {
    assert_eq!(SETTLE_MILLIS, 500);
}
