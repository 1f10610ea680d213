//! The staged device initializer.
//!
//! Initialization is strictly ordered: the transport layer connects,
//! discovers services, reads the device-information characteristics,
//! resolves the two control characteristics, subscribes, and then issues the
//! product-number, firmware and (for two-piece families) holder requests.
//! This builder records the outcome of every stage and assembles the device
//! handle; the transport work itself happens outside the crate, and each
//! response buffer is handed in here to be decoded and committed.

use vstd::prelude::*;

use crate::device::{HolderSpecific, IqosBle};
use crate::error::{IqosError, MissingField};
use crate::firmware::{spec_decode_firmware, FirmwareKind, FirmwareVersion};
use crate::identifier::{
    decode_ascii_identifier,
    spec_decode_ascii_identifier,
    HOLDER_PRODUCT_NUM_PREFIX,
    PRODUCT_NUM_PREFIX,
};
use crate::model::{spec_is_one_piece, spec_model_of_name, IQOSModel};

verus! {

/// The accumulating state of the initializer: every field of the future
/// handle, each absent until its stage populates it, and the resolution
/// state of the transport prerequisites the handle will depend on.
#[derive(Debug, Clone)]
pub struct IQOSBuilder {
    pub peripheral_attached: bool,
    pub model: Option<IQOSModel>,
    pub modelnumber: Option<String>,
    pub serialnumber: Option<String>,
    pub softwarerevision: Option<String>,
    pub manufacturername: Option<String>,
    pub battery_characteristic_resolved: bool,
    pub scp_control_characteristic_resolved: bool,
    pub product_number: Option<String>,
    pub firmware_version: Option<FirmwareVersion>,
    pub iluma: Option<HolderSpecific>,
}

/// The first mandatory field, in the order the build checks them, that was
/// never populated; `None` when the builder can build.
pub open spec fn spec_missing_mandatory(b: IQOSBuilder) -> Option<MissingField> {
    if !b.peripheral_attached {
        Some(MissingField::Peripheral)
    } else if b.model is None {
        Some(MissingField::Model)
    } else if b.serialnumber is None {
        Some(MissingField::SerialNumber)
    } else if !b.battery_characteristic_resolved {
        Some(MissingField::BatteryCharacteristic)
    } else if !b.scp_control_characteristic_resolved {
        Some(MissingField::ControlCharacteristic)
    } else if b.firmware_version is None {
        Some(MissingField::FirmwareVersion)
    } else {
        None
    }
}

impl IQOSBuilder {
    /// A builder with no stage run yet.
    pub fn new() -> (r: Self)
        ensures
            !r.peripheral_attached,
            r.model is None,
            r.modelnumber is None,
            r.serialnumber is None,
            r.softwarerevision is None,
            r.manufacturername is None,
            !r.battery_characteristic_resolved,
            !r.scp_control_characteristic_resolved,
            r.product_number is None,
            r.firmware_version is None,
            r.iluma is None,
    {
        IQOSBuilder {
            peripheral_attached: false,
            model: None,
            modelnumber: None,
            serialnumber: None,
            softwarerevision: None,
            manufacturername: None,
            battery_characteristic_resolved: false,
            scp_control_characteristic_resolved: false,
            product_number: None,
            firmware_version: None,
            iluma: None,
        }
    }

    /// Records that the transport layer holds a connected peripheral for
    /// this builder.
    pub fn attach_peripheral(&mut self)
        ensures
            *final(self) == (IQOSBuilder { peripheral_attached: true, ..*old(self) }),
    {
        self.peripheral_attached = true;
    }

    /// Detects and records the model family from the advertised device
    /// name.
    pub fn detect_model(&mut self, name: &[u8])
        ensures
            *final(self) == (IQOSBuilder {
                model: Some(spec_model_of_name(name@)),
                ..*old(self)
            }),
    {
        self.model = Some(IQOSModel::from_name(name));
    }

    /// Records the model-number identifier read from the
    /// device-information service.
    pub fn set_model_number(&mut self, value: String)
        ensures
            *final(self) == (IQOSBuilder { modelnumber: Some(value), ..*old(self) }),
    {
        self.modelnumber = Some(value);
    }

    /// Records the serial-number identifier read from the
    /// device-information service.
    pub fn set_serial_number(&mut self, value: String)
        ensures
            *final(self) == (IQOSBuilder { serialnumber: Some(value), ..*old(self) }),
    {
        self.serialnumber = Some(value);
    }

    /// Records the software-revision identifier read from the
    /// device-information service.
    pub fn set_software_revision(&mut self, value: String)
        ensures
            *final(self) == (IQOSBuilder { softwarerevision: Some(value), ..*old(self) }),
    {
        self.softwarerevision = Some(value);
    }

    /// Records the manufacturer-name identifier read from the
    /// device-information service.
    pub fn set_manufacturer_name(&mut self, value: String)
        ensures
            *final(self) == (IQOSBuilder { manufacturername: Some(value), ..*old(self) }),
    {
        self.manufacturername = Some(value);
    }

    /// Records that the battery characteristic of the core service was
    /// found.
    pub fn resolve_battery_characteristic(&mut self)
        ensures
            *final(self) == (IQOSBuilder { battery_characteristic_resolved: true, ..*old(self) }),
    {
        self.battery_characteristic_resolved = true;
    }

    /// Records that the mandatory control characteristic of the core
    /// service was found.
    pub fn resolve_control_characteristic(&mut self)
        ensures
            *final(self) == (IQOSBuilder {
                scp_control_characteristic_resolved: true,
                ..*old(self)
            }),
    {
        self.scp_control_characteristic_resolved = true;
    }

    /// Whether the holder stage must run: every family but the one-piece
    /// designs carries a holder.
    pub fn holder_info_required(&self) -> (r: bool)
        requires
            self.model is Some,
        ensures
            r == !spec_is_one_piece(self.model->Some_0),
    {
        match &self.model {
            Some(m) => !m.is_iluma_one(),
            None => false,
        }
    }

    /// Decodes and commits the product-number response: the text behind the
    /// stick prefix, less the trailing byte the stick frame carries.  A
    /// response with a foreign prefix commits nothing; a buffer shorter than
    /// the prefix fails and changes nothing.
    pub fn apply_product_number_response(&mut self, bytes: &[u8]) -> (r: Result<(), IqosError>)
        ensures
            ({
                let d = spec_decode_ascii_identifier(bytes@, PRODUCT_NUM_PREFIX@, true);
                &&& (r matches Err(e) ==> d == Err::<Option<Seq<char>>, IqosError>(e) && *final(self)
                    == *old(self))
                &&& (r is Ok ==> d is Ok)
                &&& (r is Ok && d->Ok_0 is None ==> *final(self) == *old(self))
                &&& (r is Ok ==> (d->Ok_0 matches Some(text) ==> {
                    &&& *final(self) == (IQOSBuilder {
                        product_number: final(self).product_number,
                        ..*old(self)
                    })
                    &&& final(self).product_number matches Some(p) && p@ == text
                }))
            }),
    {
        match decode_ascii_identifier(bytes, PRODUCT_NUM_PREFIX.as_slice(), true) {
            Err(e) => Err(e),
            Ok(None) => Ok(()),
            Ok(Some(text)) => {
                self.product_number = Some(text);
                Ok(())
            },
        }
    }

    /// Decodes and commits the stick firmware-version response; a response
    /// that does not decode fails and changes nothing.
    pub fn apply_firmware_response(&mut self, bytes: &[u8]) -> (r: Result<(), IqosError>)
        ensures
            ({
                let d = spec_decode_firmware(bytes@, FirmwareKind::Vape);
                &&& (r matches Err(e) ==> d == Err::<FirmwareVersion, IqosError>(e) && *final(self)
                    == *old(self))
                &&& (r is Ok ==> d is Ok && *final(self) == (IQOSBuilder {
                    firmware_version: Some(d->Ok_0),
                    ..*old(self)
                }))
            }),
    {
        match FirmwareVersion::from_bytes(bytes, FirmwareKind::Vape) {
            Err(e) => Err(e),
            Ok(v) => {
                self.firmware_version = Some(v);
                Ok(())
            },
        }
    }

    /// The holder stage: a one-piece family skips it, leaving the handle
    /// without a holder record; every other family populates the record
    /// from the holder product-number and holder firmware responses.  The
    /// product text is taken exactly when its frame carries the holder
    /// prefix and stays empty otherwise; a firmware response that does not
    /// decode, or a product response shorter than its prefix, fails the
    /// stage and commits nothing.
    pub fn load_holder_info(&mut self, product_resp: &[u8], firmware_resp: &[u8]) -> (r: Result<
        (),
        IqosError,
    >)
        requires
            old(self).model is Some,
            old(self).iluma is None,
        ensures
            ({
                let m = old(self).model->Some_0;
                let dp = spec_decode_ascii_identifier(
                    product_resp@,
                    HOLDER_PRODUCT_NUM_PREFIX@,
                    false,
                );
                let df = spec_decode_firmware(firmware_resp@, FirmwareKind::Holder);
                &&& (spec_is_one_piece(m) ==> r is Ok && *final(self) == *old(self))
                &&& (!spec_is_one_piece(m) ==> {
                    &&& (dp matches Err(e) ==> r == Err::<(), IqosError>(e) && *final(self)
                        == *old(self))
                    &&& (dp is Ok ==> (df matches Err(e) ==> r == Err::<(), IqosError>(e)
                        && *final(self) == *old(self)))
                    &&& (dp is Ok && df is Ok ==> {
                        &&& r is Ok
                        &&& *final(self) == (IQOSBuilder { iluma: final(self).iluma, ..*old(self) })
                        &&& final(self).iluma matches Some(h) && {
                            &&& h.firmware_version == df->Ok_0
                            &&& (dp->Ok_0 matches Some(text) ==> h.holder_product_number@ == text)
                            &&& (dp->Ok_0 is None ==> h.holder_product_number@ == Seq::<
                                char,
                            >::empty())
                        }
                    })
                })
            }),
    {
        let skip = match &self.model {
            Some(m) => m.is_iluma_one(),
            None => true,
        };
        if skip {
            return Ok(());
        }
        let text = match decode_ascii_identifier(
            product_resp,
            HOLDER_PRODUCT_NUM_PREFIX.as_slice(),
            false,
        ) {
            Err(e) => {
                return Err(e);
            },
            Ok(None) => String::new(),
            Ok(Some(text)) => text,
        };
        let version = match FirmwareVersion::from_bytes(firmware_resp, FirmwareKind::Holder) {
            Err(e) => {
                return Err(e);
            },
            Ok(v) => v,
        };
        self.iluma = Some(
            HolderSpecific { holder_product_number: text, firmware_version: version },
        );
        Ok(())
    }

    /// Assembles the device handle.
    ///
    /// Fails naming the first mandatory field that was never populated:
    /// the peripheral, the model, the serial number, the battery
    /// characteristic, the control characteristic or the firmware version,
    /// in that order.  Optional identifiers that stayed absent default to
    /// the placeholder text rather than failing the build; the battery
    /// reading starts at zero until the first explicit reload.
    pub fn build(self) -> (r: Result<IqosBle, IqosError>)
        ensures
            spec_missing_mandatory(self) matches Some(f) ==> r == Err::<IqosBle, IqosError>(
                IqosError::Configuration(f),
            ),
            spec_missing_mandatory(self) is None ==> (r matches Ok(d) && {
                &&& d.model == self.model->Some_0
                &&& d.serialnumber == self.serialnumber->Some_0
                &&& d.firmware_version == self.firmware_version->Some_0
                &&& d.iluma == self.iluma
                &&& d.holder_battery_status == 0
                &&& (self.modelnumber matches Some(s) ==> d.modelnumber == s)
                &&& (self.modelnumber is None ==> d.modelnumber@ == "Unknown"@)
                &&& (self.softwarerevision matches Some(s) ==> d.softwarerevision == s)
                &&& (self.softwarerevision is None ==> d.softwarerevision@ == "Unknown"@)
                &&& (self.manufacturername matches Some(s) ==> d.manufacturername == s)
                &&& (self.manufacturername is None ==> d.manufacturername@ == "Unknown"@)
                &&& (self.product_number matches Some(s) ==> d.product_number == s)
                &&& (self.product_number is None ==> d.product_number@ == "Unknown"@)
            }),
    {
        if !self.peripheral_attached {
            return Err(IqosError::Configuration(MissingField::Peripheral));
        }
        let model = match self.model {
            Some(m) => m,
            None => {
                return Err(IqosError::Configuration(MissingField::Model));
            },
        };
        let serialnumber = match self.serialnumber {
            Some(s) => s,
            None => {
                return Err(IqosError::Configuration(MissingField::SerialNumber));
            },
        };
        if !self.battery_characteristic_resolved {
            return Err(IqosError::Configuration(MissingField::BatteryCharacteristic));
        }
        if !self.scp_control_characteristic_resolved {
            return Err(IqosError::Configuration(MissingField::ControlCharacteristic));
        }
        let firmware_version = match self.firmware_version {
            Some(v) => v,
            None => {
                return Err(IqosError::Configuration(MissingField::FirmwareVersion));
            },
        };
        let modelnumber = match self.modelnumber {
            Some(s) => s,
            None => "Unknown".to_owned(),
        };
        let softwarerevision = match self.softwarerevision {
            Some(s) => s,
            None => "Unknown".to_owned(),
        };
        let manufacturername = match self.manufacturername {
            Some(s) => s,
            None => "Unknown".to_owned(),
        };
        let product_number = match self.product_number {
            Some(s) => s,
            None => "Unknown".to_owned(),
        };
        Ok(
            IqosBle {
                model,
                modelnumber,
                serialnumber,
                softwarerevision,
                manufacturername,
                holder_battery_status: 0,
                product_number,
                firmware_version,
                iluma: self.iluma,
            },
        )
    }
}

} // verus!
