//! Real-time status protocol: request categories, the fixed bit template
//! of a response byte, and the per-category decoding into named flags.

use vstd::prelude::*;

use crate::errors::PrinterError;

verus! {

/// Real-time status request category.
#[derive(Debug, Clone, Copy, PartialEq, Eq, Structural)]
#[allow(clippy::upper_case_acronyms)]
pub enum RealTimeStatusRequest {
    Printer,
    OfflineCause,
    ErrorCause,
    RollPaperSensor,
    InkA,
    InkB,
    Peeler,
    Interface,
    DMD,
}

/// The fixed `(n, a)` byte pair of each request category.
pub open spec fn request_pair(request: RealTimeStatusRequest) -> (u8, u8) {
    match request {
        RealTimeStatusRequest::Printer => (1u8, 0u8),
        RealTimeStatusRequest::OfflineCause => (2u8, 0u8),
        RealTimeStatusRequest::ErrorCause => (3u8, 0u8),
        RealTimeStatusRequest::RollPaperSensor => (4u8, 0u8),
        RealTimeStatusRequest::InkA => (7u8, 1u8),
        RealTimeStatusRequest::InkB => (7u8, 2u8),
        RealTimeStatusRequest::Peeler => (8u8, 3u8),
        RealTimeStatusRequest::Interface => (18u8, 1u8),
        RealTimeStatusRequest::DMD => (18u8, 2u8),
    }
}

impl RealTimeStatusRequest {
    /// The `(n, a)` pair sent after the two fixed request bytes.
    pub fn to_pair(self) -> (r: (u8, u8))
        ensures
            r == request_pair(self),
    {
        match self {
            RealTimeStatusRequest::Printer => (1, 0),
            RealTimeStatusRequest::OfflineCause => (2, 0),
            RealTimeStatusRequest::ErrorCause => (3, 0),
            RealTimeStatusRequest::RollPaperSensor => (4, 0),
            RealTimeStatusRequest::InkA => (7, 1),
            RealTimeStatusRequest::InkB => (7, 2),
            RealTimeStatusRequest::Peeler => (8, 3),
            RealTimeStatusRequest::Interface => (18, 1),
            RealTimeStatusRequest::DMD => (18, 2),
        }
    }
}

/// Named flag of a real-time status response.
#[derive(Debug, Clone, Copy, PartialEq, Eq, Hash, Structural)]
#[allow(clippy::upper_case_acronyms)]
pub enum RealTimeStatusResponse {
    // Printer status
    DrawerKickOutConnectorPin3Low,
    Online,
    WaitingForOnlineRecovery,
    PaperFeedButtonPressed,
    // Offline cause status
    CoverClosed,
    PaperFedByPaperFeedButton,
    PrintingStopsDueToPaperEnd,
    ErrorOccurred,
    // Error cause status
    RecoverableErrorOccurred,
    AutocutterErrorOccurred,
    UnrecoverableErrorOccurred,
    AutoRecoverableErrorOccurred,
    // Roll paper sensor status
    RollPaperNearEndSensorPaperAdequate,
    RollPaperEndSensorPaperPresent,
    // Ink (A and B) status
    InkNearEndDetected,
    InkEndDetected,
    InkCartridgeDetected,
    CleaningPerformed,
    // Peeler status
    WaitingForLabelToBeRemoved,
    PaperPresentInLabelPeelingDetector,
    // Interface status
    PrintingMultipleInterfacesEnabled,
    // DM-D status
    DMDTransmissionStatusReady,
}

/// Bit `i` of `b`, LSB-indexed.
pub open spec fn bit(b: u8, i: u8) -> bool {
    ((b >> i) & 1) == 1
}

/// The fixed bit template every status response byte must match:
/// bit 0 clear, bit 1 set, bit 4 set, bit 7 clear.
pub open spec fn pattern_valid(b: u8) -> bool {
    !bit(b, 0) && bit(b, 1) && bit(b, 4) && !bit(b, 7)
}

/// The named flags of each request category with their decoded values,
/// in the fixed order of the device specification.
pub open spec fn decoded_flags(request: RealTimeStatusRequest, b: u8) -> Seq<
    (RealTimeStatusResponse, bool),
> {
    match request {
        RealTimeStatusRequest::Printer => seq![
            (RealTimeStatusResponse::DrawerKickOutConnectorPin3Low, !bit(b, 2)),
            (RealTimeStatusResponse::Online, !bit(b, 3)),
            (RealTimeStatusResponse::WaitingForOnlineRecovery, bit(b, 5)),
            (RealTimeStatusResponse::PaperFeedButtonPressed, bit(b, 6)),
        ],
        RealTimeStatusRequest::OfflineCause => seq![
            (RealTimeStatusResponse::CoverClosed, !bit(b, 2)),
            (RealTimeStatusResponse::PaperFedByPaperFeedButton, bit(b, 3)),
            (RealTimeStatusResponse::PrintingStopsDueToPaperEnd, bit(b, 5)),
            (RealTimeStatusResponse::ErrorOccurred, bit(b, 6)),
        ],
        RealTimeStatusRequest::ErrorCause => seq![
            (RealTimeStatusResponse::RecoverableErrorOccurred, bit(b, 2)),
            (RealTimeStatusResponse::AutocutterErrorOccurred, bit(b, 3)),
            (RealTimeStatusResponse::UnrecoverableErrorOccurred, bit(b, 5)),
            (RealTimeStatusResponse::AutoRecoverableErrorOccurred, bit(b, 6)),
        ],
        RealTimeStatusRequest::RollPaperSensor => seq![
            (RealTimeStatusResponse::RollPaperNearEndSensorPaperAdequate, !bit(b, 2) && !bit(b, 3)),
            (RealTimeStatusResponse::RollPaperEndSensorPaperPresent, !bit(b, 5) && !bit(b, 6)),
        ],
        RealTimeStatusRequest::InkA => seq![
            (RealTimeStatusResponse::InkNearEndDetected, bit(b, 2)),
            (RealTimeStatusResponse::InkEndDetected, bit(b, 3)),
            (RealTimeStatusResponse::InkCartridgeDetected, !bit(b, 5)),
            (RealTimeStatusResponse::CleaningPerformed, bit(b, 6)),
        ],
        RealTimeStatusRequest::InkB => seq![
            (RealTimeStatusResponse::InkNearEndDetected, bit(b, 2)),
            (RealTimeStatusResponse::InkEndDetected, bit(b, 3)),
            (RealTimeStatusResponse::InkCartridgeDetected, !bit(b, 5)),
        ],
        RealTimeStatusRequest::Peeler => seq![
            (RealTimeStatusResponse::WaitingForLabelToBeRemoved, bit(b, 2)),
            (RealTimeStatusResponse::PaperPresentInLabelPeelingDetector, !bit(b, 5)),
        ],
        RealTimeStatusRequest::Interface => seq![
            (RealTimeStatusResponse::PrintingMultipleInterfacesEnabled, bit(b, 2)),
        ],
        RealTimeStatusRequest::DMD => seq![
            (RealTimeStatusResponse::DMDTransmissionStatusReady, !bit(b, 2)),
        ],
    }
}

/// The fixed flag set of a request category: the keys of its decoding,
/// independent of the response byte.
pub open spec fn flag_keys(request: RealTimeStatusRequest) -> Seq<RealTimeStatusResponse> {
    decoded_flags(request, 0).map_values(|e: (RealTimeStatusResponse, bool)| e.0)
}

/// Whichever byte arrives, the key set of its decoding is the category's
/// fixed flag set.
pub proof fn lemma_flag_keys_fixed(request: RealTimeStatusRequest, b: u8)
    ensures
        decoded_flags(request, b).map_values(|e: (RealTimeStatusResponse, bool)| e.0)
            == flag_keys(request),
{
    assert(decoded_flags(request, b).map_values(|e: (RealTimeStatusResponse, bool)| e.0)
        =~= decoded_flags(request, 0).map_values(|e: (RealTimeStatusResponse, bool)| e.0));
}

/// The decoded flags of one response byte, paired with their category:
/// an ordered list of named flags and their boolean values.
#[derive(Debug, Clone)]
pub struct StatusFlags {
    entries: Vec<(RealTimeStatusResponse, bool)>,
}

impl StatusFlags {
    /// The ordered (flag, value) pairs of the decoding.
    pub closed spec fn spec_entries(&self) -> Seq<(RealTimeStatusResponse, bool)> {
        self.entries@
    }

    /// The value of `key`, where `key` belongs to the category's flag set.
    pub open spec fn spec_get(&self, key: RealTimeStatusResponse) -> Option<bool> {
        spec_lookup(self.spec_entries(), key)
    }

    /// The ordered (flag, value) pairs, for callers that walk all flags.
    pub fn entries(&self) -> (r: &Vec<(RealTimeStatusResponse, bool)>)
        ensures
            r@ == self.spec_entries(),
    {
        &self.entries
    }

    /// Look the value of one flag up; `None` when the flag does not
    /// belong to the decoded category.
    pub fn get(&self, key: RealTimeStatusResponse) -> (r: Option<bool>)
        ensures
            r == spec_lookup(self.spec_entries(), key),
    {
        let mut i: usize = 0;
        proof {
            assert(self.spec_entries().skip(0) =~= self.spec_entries());
        }
        while i < self.entries.len()
            invariant
                i <= self.spec_entries().len(),
                spec_lookup(self.spec_entries(), key) == spec_lookup(
                    self.spec_entries().skip(i as int),
                    key,
                ),
            decreases self.spec_entries().len() - i,
        {
            let e = self.entries[i];
            proof {
                assert(self.spec_entries().skip(i as int).drop_first() =~= self.spec_entries().skip(
                    i + 1,
                ));
            }
            if e.0 == key {
                return Some(e.1);
            }
            i += 1;
        }
        None
    }
}

/// First-match lookup in an ordered (flag, value) list.
pub open spec fn spec_lookup(
    entries: Seq<(RealTimeStatusResponse, bool)>,
    key: RealTimeStatusResponse,
) -> Option<bool>
    decreases entries.len(),
{
    if entries.len() == 0 {
        Option::None
    } else if entries[0].0 == key {
        Option::Some(entries[0].1)
    } else {
        spec_lookup(entries.drop_first(), key)
    }
}

impl RealTimeStatusResponse {
    /// Check a bit array of length 8 (LSB first) against the fixed
    /// template `0xx1xx10` (bit 0 clear, bit 1 set, bit 4 set, bit 7
    /// clear).
    pub fn is_pattern_valid(data: &[u8]) -> (r: bool)
        ensures
            r == (data@.len() == 8 && data@[0] == 0 && data@[1] == 1 && data@[4] == 1 && data@[7]
                == 0),
    {
        if data.len() != 8 {
            return false;
        }
        if data[0] != 0 || data[1] != 1 || data[4] != 1 || data[7] != 0 {
            return false;
        }
        true
    }

    /// Decode one response byte against the category of the request it
    /// answers.  Rejects every byte that fails the fixed bit template;
    /// a byte that passes decodes to exactly the category's flag set.
    pub fn parse(request: RealTimeStatusRequest, response: u8) -> (r: Result<
        StatusFlags,
        PrinterError,
    >)
        ensures
            r is Ok <==> pattern_valid(response),
            r matches Ok(f) ==> f.spec_entries() == decoded_flags(request, response),
            r matches Err(e) ==> e is InvalidResponse,
    {
        let p0 = ((response >> 0u8) & 1) == 1;
        let p1 = ((response >> 1u8) & 1) == 1;
        let p4 = ((response >> 4u8) & 1) == 1;
        let p7 = ((response >> 7u8) & 1) == 1;
        if !(!p0 && p1 && p4 && !p7) {
            return Err(PrinterError::InvalidResponse("invalid response pattern".to_owned()));
        }
        let t2 = ((response >> 2u8) & 1) == 1;
        let t3 = ((response >> 3u8) & 1) == 1;
        let t5 = ((response >> 5u8) & 1) == 1;
        let t6 = ((response >> 6u8) & 1) == 1;
        let mut entries: Vec<(RealTimeStatusResponse, bool)> = Vec::new();
        match request {
            RealTimeStatusRequest::Printer => {
                entries.push((RealTimeStatusResponse::DrawerKickOutConnectorPin3Low, !t2));
                entries.push((RealTimeStatusResponse::Online, !t3));
                entries.push((RealTimeStatusResponse::WaitingForOnlineRecovery, t5));
                entries.push((RealTimeStatusResponse::PaperFeedButtonPressed, t6));
            },
            RealTimeStatusRequest::OfflineCause => {
                entries.push((RealTimeStatusResponse::CoverClosed, !t2));
                entries.push((RealTimeStatusResponse::PaperFedByPaperFeedButton, t3));
                entries.push((RealTimeStatusResponse::PrintingStopsDueToPaperEnd, t5));
                entries.push((RealTimeStatusResponse::ErrorOccurred, t6));
            },
            RealTimeStatusRequest::ErrorCause => {
                entries.push((RealTimeStatusResponse::RecoverableErrorOccurred, t2));
                entries.push((RealTimeStatusResponse::AutocutterErrorOccurred, t3));
                entries.push((RealTimeStatusResponse::UnrecoverableErrorOccurred, t5));
                entries.push((RealTimeStatusResponse::AutoRecoverableErrorOccurred, t6));
            },
            RealTimeStatusRequest::RollPaperSensor => {
                entries.push(
                    (RealTimeStatusResponse::RollPaperNearEndSensorPaperAdequate, !t2 && !t3),
                );
                entries.push((RealTimeStatusResponse::RollPaperEndSensorPaperPresent, !t5 && !t6));
            },
            RealTimeStatusRequest::InkA => {
                entries.push((RealTimeStatusResponse::InkNearEndDetected, t2));
                entries.push((RealTimeStatusResponse::InkEndDetected, t3));
                entries.push((RealTimeStatusResponse::InkCartridgeDetected, !t5));
                entries.push((RealTimeStatusResponse::CleaningPerformed, t6));
            },
            RealTimeStatusRequest::InkB => {
                entries.push((RealTimeStatusResponse::InkNearEndDetected, t2));
                entries.push((RealTimeStatusResponse::InkEndDetected, t3));
                entries.push((RealTimeStatusResponse::InkCartridgeDetected, !t5));
            },
            RealTimeStatusRequest::Peeler => {
                entries.push((RealTimeStatusResponse::WaitingForLabelToBeRemoved, t2));
                entries.push((RealTimeStatusResponse::PaperPresentInLabelPeelingDetector, !t5));
            },
            RealTimeStatusRequest::Interface => {
                entries.push((RealTimeStatusResponse::PrintingMultipleInterfacesEnabled, t2));
            },
            RealTimeStatusRequest::DMD => {
                entries.push((RealTimeStatusResponse::DMDTransmissionStatusReady, !t2));
            },
        }
        proof {
            assert(entries@ =~= decoded_flags(request, response));
        }
        Ok(StatusFlags { entries })
    }
}

} // verus!
