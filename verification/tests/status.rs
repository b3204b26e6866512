use escpos::status::{RealTimeStatusRequest, RealTimeStatusResponse};

#[test]
fn test_from_real_time_status_request_to_u8_tuple() {
    let mut result: (u8, u8) = RealTimeStatusRequest::Printer.to_pair();
    assert_eq!(result, (1, 0));

    result = RealTimeStatusRequest::OfflineCause.to_pair();
    assert_eq!(result, (2, 0));

    result = RealTimeStatusRequest::ErrorCause.to_pair();
    assert_eq!(result, (3, 0));

    result = RealTimeStatusRequest::RollPaperSensor.to_pair();
    assert_eq!(result, (4, 0));

    result = RealTimeStatusRequest::InkA.to_pair();
    assert_eq!(result, (7, 1));

    result = RealTimeStatusRequest::InkB.to_pair();
    assert_eq!(result, (7, 2));

    result = RealTimeStatusRequest::Peeler.to_pair();
    assert_eq!(result, (8, 3));

    result = RealTimeStatusRequest::Interface.to_pair();
    assert_eq!(result, (18, 1));

    result = RealTimeStatusRequest::DMD.to_pair();
    assert_eq!(result, (18, 2));
}

#[test]
fn test_is_pattern_valid() {
    let data = [0, 1, 0, 1, 1, 1, 0, 0];
    assert!(RealTimeStatusResponse::is_pattern_valid(&data));

    let data = [0, 1, 0, 1, 1, 1, 0];
    assert!(!RealTimeStatusResponse::is_pattern_valid(&data));

    let data = [0, 1, 0, 1, 1, 1, 0, 1];
    assert!(!RealTimeStatusResponse::is_pattern_valid(&data));
}

#[test]
fn test_parse_real_time_status_response() {
    let response = RealTimeStatusResponse::parse(RealTimeStatusRequest::Printer, 0b00011010).unwrap();
    assert_eq!(response.get(RealTimeStatusResponse::DrawerKickOutConnectorPin3Low), Some(true));
    assert_eq!(response.get(RealTimeStatusResponse::Online), Some(false));
    assert_eq!(response.get(RealTimeStatusResponse::WaitingForOnlineRecovery), Some(false));
    assert_eq!(response.get(RealTimeStatusResponse::PaperFeedButtonPressed), Some(false));

    let response = RealTimeStatusResponse::parse(RealTimeStatusRequest::OfflineCause, 0b01011110).unwrap();
    assert_eq!(response.get(RealTimeStatusResponse::CoverClosed), Some(false));
    assert_eq!(response.get(RealTimeStatusResponse::PaperFedByPaperFeedButton), Some(true));
    assert_eq!(response.get(RealTimeStatusResponse::PrintingStopsDueToPaperEnd), Some(false));
    assert_eq!(response.get(RealTimeStatusResponse::ErrorOccurred), Some(true));

    let response = RealTimeStatusResponse::parse(RealTimeStatusRequest::ErrorCause, 0b00011010).unwrap();
    assert_eq!(response.get(RealTimeStatusResponse::RecoverableErrorOccurred), Some(false));
    assert_eq!(response.get(RealTimeStatusResponse::AutocutterErrorOccurred), Some(true));
    assert_eq!(response.get(RealTimeStatusResponse::UnrecoverableErrorOccurred), Some(false));
    assert_eq!(response.get(RealTimeStatusResponse::AutoRecoverableErrorOccurred), Some(false));

    let response = RealTimeStatusResponse::parse(RealTimeStatusRequest::RollPaperSensor, 0b00010010).unwrap();
    assert_eq!(
        response.get(RealTimeStatusResponse::RollPaperNearEndSensorPaperAdequate),
        Some(true)
    );
    assert_eq!(response.get(RealTimeStatusResponse::RollPaperEndSensorPaperPresent), Some(true));

    let response = RealTimeStatusResponse::parse(RealTimeStatusRequest::InkA, 0b01011010).unwrap();
    assert_eq!(response.get(RealTimeStatusResponse::InkNearEndDetected), Some(false));
    assert_eq!(response.get(RealTimeStatusResponse::InkEndDetected), Some(true));
    assert_eq!(response.get(RealTimeStatusResponse::InkCartridgeDetected), Some(true));
    assert_eq!(response.get(RealTimeStatusResponse::CleaningPerformed), Some(true));

    let response = RealTimeStatusResponse::parse(RealTimeStatusRequest::InkB, 0b01011010).unwrap();
    assert_eq!(response.get(RealTimeStatusResponse::InkNearEndDetected), Some(false));
    assert_eq!(response.get(RealTimeStatusResponse::InkEndDetected), Some(true));
    assert_eq!(response.get(RealTimeStatusResponse::InkCartridgeDetected), Some(true));

    let response = RealTimeStatusResponse::parse(RealTimeStatusRequest::Peeler, 0b00010010).unwrap();
    assert_eq!(response.get(RealTimeStatusResponse::WaitingForLabelToBeRemoved), Some(false));
    assert_eq!(
        response.get(RealTimeStatusResponse::PaperPresentInLabelPeelingDetector),
        Some(true)
    );

    let response = RealTimeStatusResponse::parse(RealTimeStatusRequest::Interface, 0b00010010).unwrap();
    assert_eq!(
        response.get(RealTimeStatusResponse::PrintingMultipleInterfacesEnabled),
        Some(false)
    );

    let response = RealTimeStatusResponse::parse(RealTimeStatusRequest::DMD, 0b00010010).unwrap();
    assert_eq!(response.get(RealTimeStatusResponse::DMDTransmissionStatusReady), Some(true));
}

#[test]
fn test_parse_rejects_bad_template() {
    // Every category rejects a byte that breaks the fixed template.
    let requests = [
        RealTimeStatusRequest::Printer,
        RealTimeStatusRequest::OfflineCause,
        RealTimeStatusRequest::ErrorCause,
        RealTimeStatusRequest::RollPaperSensor,
        RealTimeStatusRequest::InkA,
        RealTimeStatusRequest::InkB,
        RealTimeStatusRequest::Peeler,
        RealTimeStatusRequest::Interface,
        RealTimeStatusRequest::DMD,
    ];
    for request in requests {
        assert!(RealTimeStatusResponse::parse(request, 0b0000_0001).is_err()); // bit 0 set
        assert!(RealTimeStatusResponse::parse(request, 0b0001_0000).is_err()); // bit 1 clear
        assert!(RealTimeStatusResponse::parse(request, 0b0000_0010).is_err()); // bit 4 clear
        assert!(RealTimeStatusResponse::parse(request, 0b1001_0010).is_err()); // bit 7 set
        assert!(RealTimeStatusResponse::parse(request, 0b0001_0010).is_ok());
    }
}

#[test]
fn test_parse_key_set_is_fixed_per_category() {
    // Whatever valid byte arrives, the flag set is the category's.
    let expected: [(&RealTimeStatusRequest, usize); 4] = [
        (&RealTimeStatusRequest::Printer, 4),
        (&RealTimeStatusRequest::RollPaperSensor, 2),
        (&RealTimeStatusRequest::Interface, 1),
        (&RealTimeStatusRequest::DMD, 1),
    ];
    for (request, count) in expected {
        for byte in [0b0001_0010u8, 0b0111_1110u8] {
            let flags = RealTimeStatusResponse::parse(*request, byte).unwrap();
            assert_eq!(flags.entries().len(), count);
        }
    }
    let flags = RealTimeStatusResponse::parse(RealTimeStatusRequest::Printer, 0b0001_0010).unwrap();
    assert_eq!(flags.get(RealTimeStatusResponse::InkEndDetected), None);
}
