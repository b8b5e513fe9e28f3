use haven_registry::device::{AccountId, Device};
use haven_registry::killswitch::{get_bounty, report_stolen, KillswitchError, MIN_BOUNTY_AMOUNT};

const OWNER: &str = "GBRPYHIL2CI3FNQ4BXLFMNDLFJUNPU2HY3ZMFSHONUCEOASW7QC7OX2H";
const STRANGER: &str = "GDQNY3PBOJOKYZSRMK2S7LHHGWZIUISD4QORETLMXEWXBI7KFZZMKTL3";

fn account(strkey: &str) -> AccountId {
    AccountId::new(strkey.as_bytes().to_vec())
}

/// The record that registering a device leaves in storage.
fn registered_device(model: &str) -> Device {
    Device {
        owner: account(OWNER),
        device_model: model.as_bytes().to_vec(),
        is_stolen: false,
        recovery_contact: Vec::new(),
        insurer: None,
    }
}

/// Reports as the contract does: a refusal fails the call with its message.
fn report_or_fail(stored: Option<Device>, owner: &AccountId, bounty: i128, contact: &str) -> (Device, i128) {
    match report_stolen(stored, owner, bounty, contact.as_bytes().to_vec()) {
        Ok(report) => (report.device, report.bounty),
        Err(e) => panic!("{}", e.message()),
    }
}

#[test]
fn test_report_stolen() {
    let device = registered_device("iPhone 15 Pro");
    let owner = account(OWNER);
    let (device, bounty) = report_or_fail(Some(device), &owner, 1_000_000i128, "owner@email.com");
    assert_eq!(device.is_stolen, true);
    let bounty = get_bounty(Some(bounty));
    assert_eq!(bounty, 1_000_000i128);
}

#[test]
#[should_panic(expected = "device already reported as stolen")]
fn test_report_stolen_twice() {
    let device = registered_device("iPhone 15 Pro");
    let owner = account(OWNER);
    let (device, _) = report_or_fail(Some(device), &owner, 1_000_000i128, "owner@email.com");
    report_or_fail(Some(device), &owner, 1_000_000i128, "owner@email.com");
}

#[test]
#[should_panic(expected = "bounty amount must be positive")]
fn test_report_stolen_zero_bounty() {
    let device = registered_device("iPhone 15 Pro");
    let owner = account(OWNER);
    report_or_fail(Some(device), &owner, 0i128, "owner@email.com");
}

#[test]
#[should_panic(expected = "bounty amount must be positive")]
fn test_report_stolen_negative_bounty() {
    let device = registered_device("iPhone 15 Pro");
    let owner = account(OWNER);
    report_or_fail(Some(device), &owner, -1i128, "owner@email.com");
}

#[test]
#[should_panic(expected = "bounty amount below minimum threshold")]
fn test_report_stolen_below_minimum() {
    let device = registered_device("iPhone 15 Pro");
    let owner = account(OWNER);
    report_or_fail(Some(device), &owner, 50i128, "owner@email.com");
}

#[test]
fn test_report_stolen_minimum_bounty() {
    let device = registered_device("iPhone 15 Pro");
    let owner = account(OWNER);
    let (device, bounty) = report_or_fail(Some(device), &owner, 100i128, "owner@email.com");
    assert_eq!(device.is_stolen, true);
    let bounty = get_bounty(Some(bounty));
    assert_eq!(bounty, 100i128);
}

#[test]
fn report_writes_contact_and_keeps_other_fields() {
    let mut device = registered_device("Samsung Galaxy S24");
    device.insurer = Some(account(STRANGER));
    let owner = account(OWNER);
    let report = report_stolen(Some(device), &owner, 500i128, b"+1 555 0100".to_vec()).ok().unwrap();
    assert!(report.device.is_stolen);
    assert_eq!(report.device.recovery_contact, b"+1 555 0100".to_vec());
    assert_eq!(report.device.owner.strkey, OWNER.as_bytes().to_vec());
    assert_eq!(report.device.device_model, b"Samsung Galaxy S24".to_vec());
    assert_eq!(report.device.insurer.unwrap().strkey, STRANGER.as_bytes().to_vec());
    assert_eq!(report.bounty, 500i128);
}

#[test]
fn report_by_stranger_is_refused() {
    let device = registered_device("iPhone 15 Pro");
    let stranger = account(STRANGER);
    let result = report_stolen(Some(device), &stranger, 1_000_000i128, b"x".to_vec());
    assert_eq!(result.err(), Some(KillswitchError::NotDeviceOwner));
}

#[test]
fn report_of_unregistered_device_is_refused() {
    let owner = account(OWNER);
    let result = report_stolen(None, &owner, 1_000_000i128, b"x".to_vec());
    assert_eq!(result.err(), Some(KillswitchError::DeviceNotFound));
}

#[test]
fn bounty_checks_come_before_device_checks() {
    let owner = account(OWNER);
    assert_eq!(report_stolen(None, &owner, 0, Vec::new()).err(), Some(KillswitchError::NonPositiveBounty));
    assert_eq!(report_stolen(None, &owner, 99, Vec::new()).err(), Some(KillswitchError::BountyBelowMinimum));
    assert_eq!(report_stolen(None, &owner, i128::MIN, Vec::new()).err(), Some(KillswitchError::NonPositiveBounty));
    let stolen = Device { is_stolen: true, ..registered_device("m") };
    assert_eq!(report_stolen(Some(stolen), &owner, 1, Vec::new()).err(), Some(KillswitchError::BountyBelowMinimum));
}

#[test]
fn second_report_by_stranger_is_refused() {
    let owner = account(OWNER);
    let (device, _) = report_or_fail(Some(registered_device("m")), &owner, MIN_BOUNTY_AMOUNT, "a");
    let result = report_stolen(Some(device), &account(STRANGER), 1_000, b"b".to_vec());
    assert_eq!(result.err(), Some(KillswitchError::NotDeviceOwner));
}

#[test]
fn largest_bounty_is_accepted() {
    let owner = account(OWNER);
    let (_, bounty) = report_or_fail(Some(registered_device("m")), &owner, i128::MAX, "a");
    assert_eq!(get_bounty(Some(bounty)), i128::MAX);
}

#[test]
fn bounty_is_zero_when_none_was_set() {
    assert_eq!(get_bounty(None), 0i128);
    assert_eq!(get_bounty(Some(42i128)), 42i128);
}

#[test]
fn minimum_bounty_is_one_hundred() {
    assert_eq!(MIN_BOUNTY_AMOUNT, 100i128);
}

#[test]
fn refusal_messages() {
    assert_eq!(KillswitchError::NonPositiveBounty.message(), "bounty amount must be positive");
    assert_eq!(KillswitchError::BountyBelowMinimum.message(), "bounty amount below minimum threshold");
    assert_eq!(KillswitchError::DeviceNotFound.message(), "device not found");
    assert_eq!(KillswitchError::NotDeviceOwner.message(), "not the device owner");
    assert_eq!(KillswitchError::AlreadyStolen.message(), "device already reported as stolen");
}

#[test]
fn account_comparison() {
    assert!(account(OWNER).same_as(&account(OWNER)));
    assert!(!account(OWNER).same_as(&account(STRANGER)));
    assert!(!account("GA").same_as(&account("GAB")));
    assert!(account("").same_as(&account("")));
}
