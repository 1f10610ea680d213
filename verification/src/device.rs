//! The built device handle and its holder sub-record.
//!
//! A handle carries the identifiers, firmware version and battery reading of
//! one device.  Identifier fields are immutable once built; the battery
//! reading is the only field mutated in place, through an explicit reload
//! from a characteristic read.  The transport connection and the two
//! control-characteristic references live with the unverified transport
//! layer that drives this handle.

use vstd::prelude::*;

use crate::error::IqosError;
use crate::firmware::FirmwareVersion;
use crate::model::{spec_is_one_piece, IQOSModel};

verus! {

/// A battery characteristic read carries the charge percentage at offset 2.
pub const BATTERY_READING_MIN_LEN: usize = 3;

/// The holder-specific sub-record of a two-piece device: the holder's
/// product number and its own firmware version.  One-piece families carry
/// no such record; its absence is a first-class state, not a default value.
#[derive(Debug, Clone)]
pub struct HolderSpecific {
    pub holder_product_number: String,
    pub firmware_version: FirmwareVersion,
}

/// The firmware version before any response populated it.
pub open spec fn spec_zero_firmware() -> FirmwareVersion {
    FirmwareVersion { major: 0, minor: 0, patch: 0, year: 0 }
}

impl HolderSpecific {
    /// An empty holder record, populated field by field from the holder
    /// response frames.
    pub fn new() -> (r: Self)
        ensures
            r.holder_product_number@ == Seq::<char>::empty(),
            r.firmware_version == spec_zero_firmware(),
    {
        HolderSpecific {
            holder_product_number: String::new(),
            firmware_version: FirmwareVersion { major: 0, minor: 0, patch: 0, year: 0 },
        }
    }

    /// The holder's product number.
    pub fn holder_product_number(&self) -> (r: &String)
        ensures
            r == &self.holder_product_number,
    {
        &self.holder_product_number
    }

    /// The holder's firmware version.
    pub fn firmware_version(&self) -> (r: FirmwareVersion)
        ensures
            r == self.firmware_version,
    {
        self.firmware_version
    }

    /// This record with the product number replaced.
    pub fn with_holder_product_number(self, value: String) -> (r: Self)
        ensures
            r == (HolderSpecific { holder_product_number: value, ..self }),
    {
        HolderSpecific { holder_product_number: value, ..self }
    }

    /// This record with the firmware version replaced.
    pub fn with_firmware_version(self, value: FirmwareVersion) -> (r: Self)
        ensures
            r == (HolderSpecific { firmware_version: value, ..self }),
    {
        HolderSpecific { firmware_version: value, ..self }
    }
}

/// The built, long-lived device handle: the device's identifiers, firmware
/// version, battery reading, detected model family, and the holder record
/// of a two-piece family.
#[derive(Debug, Clone)]
pub struct IqosBle {
    pub model: IQOSModel,
    pub modelnumber: String,
    pub serialnumber: String,
    pub softwarerevision: String,
    pub manufacturername: String,
    pub holder_battery_status: u8,
    pub product_number: String,
    pub firmware_version: FirmwareVersion,
    pub iluma: Option<HolderSpecific>,
}

impl IqosBle {
    /// The detected model family.
    pub fn model(&self) -> (r: &IQOSModel)
        ensures
            r == &self.model,
    {
        &self.model
    }

    /// The last battery reading, as a charge percentage.
    pub fn battery_status(&self) -> (r: u8)
        ensures
            r == self.holder_battery_status,
    {
        self.holder_battery_status
    }

    /// The model-number identifier.
    pub fn modelnumber(&self) -> (r: &String)
        ensures
            r == &self.modelnumber,
    {
        &self.modelnumber
    }

    /// The serial-number identifier.
    pub fn serialnumber(&self) -> (r: &String)
        ensures
            r == &self.serialnumber,
    {
        &self.serialnumber
    }

    /// The software-revision identifier.
    pub fn softwarerevision(&self) -> (r: &String)
        ensures
            r == &self.softwarerevision,
    {
        &self.softwarerevision
    }

    /// The manufacturer-name identifier.
    pub fn manufacturername(&self) -> (r: &String)
        ensures
            r == &self.manufacturername,
    {
        &self.manufacturername
    }

    /// The stick product-number string.
    pub fn product_number(&self) -> (r: &String)
        ensures
            r == &self.product_number,
    {
        &self.product_number
    }

    /// The stick firmware version.
    pub fn firmware_version(&self) -> (r: FirmwareVersion)
        ensures
            r == self.firmware_version,
    {
        self.firmware_version
    }

    /// The holder record of a two-piece device, absent on one-piece
    /// families.
    pub fn holder(&self) -> (r: &Option<HolderSpecific>)
        ensures
            r == &self.iluma,
    {
        &self.iluma
    }

    /// The device is the generic two-piece family.
    pub fn is_iluma(&self) -> (r: bool)
        ensures
            r == (self.model is Iluma),
    {
        matches!(self.model, IQOSModel::Iluma)
    }

    /// The device is the generic family or its second generation.
    pub fn is_iluma_or_higher(&self) -> (r: bool)
        ensures
            r == (self.model is Iluma || self.model is IlumaI),
    {
        matches!(self.model, IQOSModel::Iluma | IQOSModel::IlumaI)
    }

    /// The device is the second-generation base family.
    pub fn is_iluma_i(&self) -> (r: bool)
        ensures
            r == (self.model is IlumaI),
    {
        matches!(self.model, IQOSModel::IlumaI)
    }

    /// The device is a one-piece design without a separate holder.
    pub fn is_one_piece(&self) -> (r: bool)
        ensures
            r == spec_is_one_piece(self.model),
    {
        self.model.is_iluma_one()
    }

    /// This handle, offered only when the device is the generic two-piece
    /// family.
    pub fn as_iluma(&self) -> (r: Option<&Self>)
        ensures
            self.model is Iluma ==> r == Some(self),
            !(self.model is Iluma) ==> r is None,
    {
        match self.model {
            IQOSModel::Iluma => Some(self),
            _ => None,
        }
    }

    /// This handle, offered only when the device is the second-generation
    /// base family.
    pub fn as_iluma_i(&self) -> (r: Option<&Self>)
        ensures
            self.model is IlumaI ==> r == Some(self),
            !(self.model is IlumaI) ==> r is None,
    {
        match self.model {
            IQOSModel::IlumaI => Some(self),
            _ => None,
        }
    }

    /// Applies a battery characteristic read: the byte at offset 2 of the
    /// read value is the new battery percentage.  Fails, changing nothing,
    /// when the read value cannot carry that byte.
    pub fn reload_battery_from(&mut self, data: &[u8]) -> (r: Result<(), IqosError>)
        ensures
            data@.len() >= BATTERY_READING_MIN_LEN ==> r is Ok && *final(self) == (IqosBle {
                holder_battery_status: data@[2],
                ..*old(self)
            }),
            data@.len() < BATTERY_READING_MIN_LEN ==> r == Err::<(), IqosError>(
                IqosError::FrameTooShort { expected_min: BATTERY_READING_MIN_LEN },
            ) && *final(self) == *old(self),
    {
        if data.len() < BATTERY_READING_MIN_LEN {
            return Err(IqosError::FrameTooShort { expected_min: BATTERY_READING_MIN_LEN });
        }
        self.holder_battery_status = data[2];
        Ok(())
    }
}

} // verus!
