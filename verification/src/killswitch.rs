//! The killswitch: the decisions taken when a device is reported stolen.
//!
//! When a device is reported stolen its record flips to stolen (the asset is
//! frozen), the recovery contact is stored for a finder, and the promised
//! bounty is recorded under the device's key. Reading and writing the
//! contract's storage, and checking the owner's signature, happen around
//! these functions: they are handed what storage holds and say what is to be
//! written back.

use vstd::prelude::*;
use crate::device::{AccountId, Device, DeviceView, device_opt_view};

verus! {

/// Minimum bounty amount required for economic viability, in the smallest
/// unit of the payment token (stroops for XLM). Reports with a smaller
/// bounty are rejected, so that a report always carries a meaningful
/// incentive for finders.
pub const MIN_BOUNTY_AMOUNT: i128 = 100;

/// Why a report is refused.
#[derive(Debug, Clone, Copy, PartialEq, Eq, Structural)]
pub enum KillswitchError {
    /// The bounty is zero or negative.
    NonPositiveBounty,
    /// The bounty is positive but below `MIN_BOUNTY_AMOUNT`.
    BountyBelowMinimum,
    /// No device is registered under the key.
    DeviceNotFound,
    /// The reporter is not the registered owner.
    NotDeviceOwner,
    /// The device is already reported as stolen.
    AlreadyStolen,
}

/// The text that the contract fails with for each refusal.
pub open spec fn error_message(e: KillswitchError) -> Seq<char> {
    match e {
        KillswitchError::NonPositiveBounty => "bounty amount must be positive"@,
        KillswitchError::BountyBelowMinimum => "bounty amount below minimum threshold"@,
        KillswitchError::DeviceNotFound => "device not found"@,
        KillswitchError::NotDeviceOwner => "not the device owner"@,
        KillswitchError::AlreadyStolen => "device already reported as stolen"@,
    }
}

impl KillswitchError {
    /// The text that the contract fails with for this refusal.
    pub fn message(&self) -> (msg: &'static str)
        ensures
            msg@ == error_message(*self),
    {
        match self {
            KillswitchError::NonPositiveBounty => "bounty amount must be positive",
            KillswitchError::BountyBelowMinimum => "bounty amount below minimum threshold",
            KillswitchError::DeviceNotFound => "device not found",
            KillswitchError::NotDeviceOwner => "not the device owner",
            KillswitchError::AlreadyStolen => "device already reported as stolen",
        }
    }
}

/// What an accepted report writes to storage, as a mathematical value.
pub struct StolenReportView {
    pub device: DeviceView,
    pub bounty: i128,
}

/// What an accepted report writes to storage: the updated device record,
/// under the device's key, and the bounty, under the bounty's key.
pub struct StolenReport {
    pub device: Device,
    pub bounty: i128,
}

impl View for StolenReport {
    type V = StolenReportView;

    open spec fn view(&self) -> StolenReportView {
        StolenReportView { device: self.device@, bounty: self.bounty }
    }
}

/// The outcome of reporting the device stored as `stored` stolen, by
/// `reporter`, with the given bounty and recovery contact. The checks come in
/// this order: the bounty is positive, the bounty meets the minimum, the
/// device exists, the reporter owns it, it is not already stolen.
pub open spec fn report_outcome(
    stored: Option<DeviceView>,
    reporter: Seq<u8>,
    bounty_amount: i128,
    recovery_contact: Seq<u8>,
) -> Result<StolenReportView, KillswitchError> {
    if bounty_amount <= 0 {
        Err(KillswitchError::NonPositiveBounty)
    } else if bounty_amount < MIN_BOUNTY_AMOUNT {
        Err(KillswitchError::BountyBelowMinimum)
    } else {
        match stored {
            None => Err(KillswitchError::DeviceNotFound),
            Some(d) => if d.owner != reporter {
                Err(KillswitchError::NotDeviceOwner)
            } else if d.is_stolen {
                Err(KillswitchError::AlreadyStolen)
            } else {
                Ok(
                    StolenReportView {
                        device: DeviceView { is_stolen: true, recovery_contact, ..d },
                        bounty: bounty_amount,
                    },
                )
            },
        }
    }
}

/// The bounty read for a device, given what the bounty's key holds:
/// the stored amount, or 0 where no bounty has been set.
pub open spec fn bounty_read(stored: Option<i128>) -> i128 {
    match stored {
        Some(amount) => amount,
        None => 0,
    }
}

/// Report a device as stolen and record its recovery bounty.
///
/// `stored` is what storage holds under the device's key. On success the
/// result is what is to be written back: the device, now stolen and with the
/// new recovery contact, and the bounty. On a refusal nothing is written.
/// The caller checks beforehand that `owner` has signed the call.
pub fn report_stolen(
    stored: Option<Device>,
    owner: &AccountId,
    bounty_amount: i128,
    recovery_contact: Vec<u8>,
) -> (result: Result<StolenReport, KillswitchError>)
    ensures
        match result {
            Ok(report) => report_outcome(
                device_opt_view(stored),
                owner@,
                bounty_amount,
                recovery_contact@,
            ) == Ok::<StolenReportView, KillswitchError>(report@),
            Err(e) => report_outcome(
                device_opt_view(stored),
                owner@,
                bounty_amount,
                recovery_contact@,
            ) == Err::<StolenReportView, KillswitchError>(e),
        },
        result matches Ok(report) ==> {
            &&& report.bounty == bounty_amount
            &&& report.bounty >= MIN_BOUNTY_AMOUNT
            &&& report.device.is_stolen
            &&& report.device.recovery_contact@ == recovery_contact@
            &&& report.device.owner@ == owner@
        },
        result is Ok <==> {
            &&& bounty_amount >= MIN_BOUNTY_AMOUNT
            &&& stored is Some
            &&& stored->0.owner@ == owner@
            &&& !stored->0.is_stolen
        },
{
    if bounty_amount <= 0 {
        return Err(KillswitchError::NonPositiveBounty);
    }
    if bounty_amount < MIN_BOUNTY_AMOUNT {
        return Err(KillswitchError::BountyBelowMinimum);
    }
    let mut device = match stored {
        Some(d) => d,
        None => {
            return Err(KillswitchError::DeviceNotFound);
        },
    };
    if !device.owner.same_as(owner) {
        return Err(KillswitchError::NotDeviceOwner);
    }
    if device.is_stolen {
        return Err(KillswitchError::AlreadyStolen);
    }
    device.is_stolen = true;
    device.recovery_contact = recovery_contact;
    Ok(StolenReport { device, bounty: bounty_amount })
}

/// The current bounty amount for a device, given what storage holds under
/// the bounty's key: 0 if no bounty has been set.
pub fn get_bounty(stored: Option<i128>) -> (amount: i128)
    ensures
        amount == bounty_read(stored),
        stored matches Some(a) ==> amount == a,
        stored is None ==> amount == 0,
{
    match stored {
        Some(amount) => amount,
        None => 0,
    }
}

/// A report is accepted exactly when the bounty meets the minimum, the
/// device is registered, the reporter is its owner and it is not already
/// stolen.
pub proof fn lemma_report_accepted_iff(
    stored: Option<DeviceView>,
    reporter: Seq<u8>,
    bounty_amount: i128,
    recovery_contact: Seq<u8>,
)
    ensures
        report_outcome(stored, reporter, bounty_amount, recovery_contact) is Ok <==> {
            &&& bounty_amount >= MIN_BOUNTY_AMOUNT
            &&& stored is Some
            &&& stored->0.owner == reporter
            &&& !stored->0.is_stolen
        },
{
}

/// No bounty below `MIN_BOUNTY_AMOUNT` is ever accepted.
pub proof fn lemma_accepted_bounty_meets_minimum(
    stored: Option<DeviceView>,
    reporter: Seq<u8>,
    bounty_amount: i128,
    recovery_contact: Seq<u8>,
)
    ensures
        bounty_amount < MIN_BOUNTY_AMOUNT ==> report_outcome(
            stored,
            reporter,
            bounty_amount,
            recovery_contact,
        ) is Err,
{
}

/// An accepted report freezes the device: it is now stolen, carries the new
/// recovery contact, and keeps its owner, model and insurer.
pub proof fn lemma_accepted_report_freezes_device(
    stored: Option<DeviceView>,
    reporter: Seq<u8>,
    bounty_amount: i128,
    recovery_contact: Seq<u8>,
)
    ensures
        report_outcome(stored, reporter, bounty_amount, recovery_contact) matches Ok(report) ==> {
            &&& report.device.is_stolen
            &&& report.device.recovery_contact == recovery_contact
            &&& report.device.owner == reporter
            &&& report.device.owner == stored->0.owner
            &&& report.device.device_model == stored->0.device_model
            &&& report.device.insurer == stored->0.insurer
        },
{
}

/// An accepted report records exactly the reported amount as the bounty.
pub proof fn lemma_accepted_report_records_reported_amount(
    stored: Option<DeviceView>,
    reporter: Seq<u8>,
    bounty_amount: i128,
    recovery_contact: Seq<u8>,
)
    ensures
        report_outcome(stored, reporter, bounty_amount, recovery_contact) matches Ok(report)
            ==> report.bounty == bounty_amount,
{
}

/// Reading a stored bounty gives it back unchanged; with none stored the
/// read is 0.
pub proof fn lemma_bounty_read_returns_stored_amount(amount: i128)
    ensures
        bounty_read(Some(amount)) == amount,
        bounty_read(None) == 0,
{
}

/// Reading the bounty after an accepted report gives back the reported
/// amount.
pub proof fn lemma_reported_bounty_is_read_back(
    stored: Option<DeviceView>,
    reporter: Seq<u8>,
    bounty_amount: i128,
    recovery_contact: Seq<u8>,
)
    ensures
        report_outcome(stored, reporter, bounty_amount, recovery_contact) matches Ok(report)
            ==> bounty_read(Some(report.bounty)) == bounty_amount,
{
}

/// A device reported stolen cannot be reported again: every later report on
/// the written record is refused, and by its owner with an acceptable bounty
/// it is refused as already stolen.
pub proof fn lemma_stolen_device_cannot_be_reported_again(
    stored: Option<DeviceView>,
    reporter: Seq<u8>,
    bounty_amount: i128,
    recovery_contact: Seq<u8>,
    next_reporter: Seq<u8>,
    next_bounty: i128,
    next_contact: Seq<u8>,
)
    ensures
        report_outcome(stored, reporter, bounty_amount, recovery_contact) matches Ok(report) ==> {
            &&& report_outcome(Some(report.device), next_reporter, next_bounty, next_contact) is Err
            &&& (next_reporter == reporter && next_bounty >= MIN_BOUNTY_AMOUNT) ==> report_outcome(
                Some(report.device),
                next_reporter,
                next_bounty,
                next_contact,
            ) == Err::<StolenReportView, KillswitchError>(KillswitchError::AlreadyStolen)
        },
{
}

} // verus!
