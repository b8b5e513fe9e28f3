//! The registry's record of a device, held as plain values.

use vstd::prelude::*;

verus! {

/// An account or contract address, held as the bytes of its Stellar strkey
/// (`G...` for accounts, `C...` for contracts). Two addresses are the same
/// exactly when their strkeys are.
pub struct AccountId {
    pub strkey: Vec<u8>,
}

impl View for AccountId {
    type V = Seq<u8>;

    open spec fn view(&self) -> Seq<u8> {
        self.strkey@
    }
}

impl AccountId {
    /// An address with the given strkey bytes.
    pub fn new(strkey: Vec<u8>) -> (id: AccountId)
        ensures
            id@ == strkey@,
    {
        AccountId { strkey }
    }

    /// Whether two addresses are the same.
    pub fn same_as(&self, other: &AccountId) -> (same: bool)
        ensures
            same == (self@ == other@),
    {
        let n = self.strkey.len();
        if n != other.strkey.len() {
            return false;
        }
        let mut i: usize = 0;
        while i < n
            invariant
                n == self.strkey@.len(),
                n == other.strkey@.len(),
                i <= n,
                forall|j: int| 0 <= j < i ==> self.strkey@[j] == other.strkey@[j],
            decreases n - i,
        {
            if self.strkey[i] != other.strkey[i] {
                return false;
            }
            i = i + 1;
        }
        assert(self.strkey@ =~= other.strkey@);
        true
    }
}

/// What the registry knows of a device, as a mathematical value.
pub struct DeviceView {
    pub owner: Seq<u8>,
    pub device_model: Seq<u8>,
    pub is_stolen: bool,
    pub recovery_contact: Seq<u8>,
    pub insurer: Option<Seq<u8>>,
}

/// The registry's record of a device.
pub struct Device {
    /// The registered owner.
    pub owner: AccountId,
    /// The device model, as the bytes of the registry's string.
    pub device_model: Vec<u8>,
    /// Whether the device has been reported stolen (and is frozen).
    pub is_stolen: bool,
    /// Email or phone number for a finder to reach the owner.
    pub recovery_contact: Vec<u8>,
    /// The insurer of a filed insurance claim, if any.
    pub insurer: Option<AccountId>,
}

/// The view of an optional address.
pub open spec fn account_opt_view(a: Option<AccountId>) -> Option<Seq<u8>> {
    match a {
        Some(id) => Some(id@),
        None => None,
    }
}

impl View for Device {
    type V = DeviceView;

    open spec fn view(&self) -> DeviceView {
        DeviceView {
            owner: self.owner@,
            device_model: self.device_model@,
            is_stolen: self.is_stolen,
            recovery_contact: self.recovery_contact@,
            insurer: account_opt_view(self.insurer),
        }
    }
}

/// The view of what storage holds for a device key: a record or nothing.
pub open spec fn device_opt_view(d: Option<Device>) -> Option<DeviceView> {
    match d {
        Some(device) => Some(device@),
        None => None,
    }
}

} // verus!
