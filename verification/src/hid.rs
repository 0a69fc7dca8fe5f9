//! HID identities of the supported keyboard, transport selection, and the
//! feature-report payloads that configure it.

use vstd::prelude::*;

use crate::text::str_eq;

verus! {

pub const VID_LENOVO: u16 = 0x17EF;

pub const PID_USB: u16 = 0x60EE;

pub const PID_BT: u16 = 0x60E1;

pub const USAGE_PAGE_GENERIC_DESKTOP_CONTROL: u16 = 0x0001;

pub const USAGE_GENERIC_DESKTOP_CONTROL_MOUSE: u16 = 0x0002;

pub const USAGE_PAGE_CONSUMER_PAGE: u16 = 0x000C;

pub const USAGE_CONSUMER_PAGE_CONSUMER_CONTROL: u16 = 0x0001;

pub const USAGE_PAGE_VENDOR1: u16 = 0xFF00;

pub const USAGE_PAGE_VENDOR2: u16 = 0xFF10;

pub const USAGE_PAGE_VENDOR3: u16 = 0xFFA0;

/// The identity of one HID interface.
#[derive(Copy, Clone, Debug, PartialEq, Eq, Structural)]
pub struct DeviceInfo {
    pub vendor_id: u16,
    pub product_id: u16,
    pub usage_page: u16,
    pub usage: u16,
}

impl DeviceInfo {
    /// The transport a product id belongs to, if it is one of ours.
    pub fn transport(&self) -> (r: Option<Transport>)
        ensures
            r == Some(Transport::USB) <==> self.product_id == PID_USB,
            r == Some(Transport::BT) <==> (self.product_id == PID_BT && self.product_id
                != PID_USB),
            r is None <==> (self.product_id != PID_USB && self.product_id != PID_BT),
    {
        if self.product_id == PID_USB {
            Some(Transport::USB)
        } else if self.product_id == PID_BT {
            Some(Transport::BT)
        } else {
            None
        }
    }
}

/// The interface the keyboard takes feature reports on, per transport.
pub fn feature_device_info(transport: Transport) -> (r: DeviceInfo)
    ensures
        transport is USB ==> r == (DeviceInfo {
            vendor_id: VID_LENOVO,
            product_id: PID_USB,
            usage_page: USAGE_PAGE_CONSUMER_PAGE,
            usage: USAGE_CONSUMER_PAGE_CONSUMER_CONTROL,
        }),
        transport is BT ==> r == (DeviceInfo {
            vendor_id: VID_LENOVO,
            product_id: PID_BT,
            usage_page: 0xFF01u16,
            usage: 0x01u16,
        }),
{
    match transport {
        Transport::USB => DeviceInfo {
            vendor_id: VID_LENOVO,
            product_id: PID_USB,
            usage_page: USAGE_PAGE_CONSUMER_PAGE,
            usage: USAGE_CONSUMER_PAGE_CONSUMER_CONTROL,
        },
        Transport::BT => DeviceInfo {
            vendor_id: VID_LENOVO,
            product_id: PID_BT,
            usage_page: 0xFF01,
            usage: 0x01,
        },
    }
}

/// The middle-button HID interface, per transport.
pub open spec fn spec_middle_button_device(transport: Transport) -> DeviceInfo {
    match transport {
        Transport::USB => DeviceInfo {
            vendor_id: VID_LENOVO,
            product_id: PID_USB,
            usage_page: USAGE_PAGE_VENDOR3,
            usage: 0x01u16,
        },
        Transport::BT => DeviceInfo {
            vendor_id: VID_LENOVO,
            product_id: PID_BT,
            usage_page: USAGE_PAGE_VENDOR1,
            usage: 0x01u16,
        },
    }
}

/// The non-native wheel interface, per transport.
pub open spec fn spec_wheel_device(transport: Transport) -> DeviceInfo {
    DeviceInfo {
        vendor_id: VID_LENOVO,
        product_id: match transport {
            Transport::USB => PID_USB,
            Transport::BT => PID_BT,
        },
        usage_page: USAGE_PAGE_VENDOR2,
        usage: 0x01u16,
    }
}

/// The native mouse interface the keyboard exposes over Bluetooth.
pub fn wheel_hid_bt_device() -> (r: DeviceInfo)
    ensures
        r == (DeviceInfo {
            vendor_id: VID_LENOVO,
            product_id: PID_BT,
            usage_page: USAGE_PAGE_GENERIC_DESKTOP_CONTROL,
            usage: USAGE_GENERIC_DESKTOP_CONTROL_MOUSE,
        }),
{
    DeviceInfo {
        vendor_id: VID_LENOVO,
        product_id: PID_BT,
        usage_page: USAGE_PAGE_GENERIC_DESKTOP_CONTROL,
        usage: USAGE_GENERIC_DESKTOP_CONTROL_MOUSE,
    }
}

/// The keyboard's transport.
#[derive(Copy, Clone, Debug, PartialEq, Eq, Structural)]
pub enum Transport {
    USB,
    BT,
}

/// Why a transport name was rejected.
#[derive(Debug, PartialEq, Eq)]
pub enum TransportParseError {
    InvalidConnectionMethod(String),
}

impl Transport {
    /// The interfaces to listen on for this transport: the middle-button
    /// interface, then the non-native wheel interface.
    pub fn device_info(&self) -> (r: Vec<DeviceInfo>)
        ensures
            r@ =~= seq![spec_middle_button_device(*self), spec_wheel_device(*self)],
    {
        let mut v: Vec<DeviceInfo> = Vec::new();
        match self {
            Transport::USB => {
                v.push(
                    DeviceInfo {
                        vendor_id: VID_LENOVO,
                        product_id: PID_USB,
                        usage_page: USAGE_PAGE_VENDOR3,
                        usage: 0x01,
                    },
                );
                v.push(
                    DeviceInfo {
                        vendor_id: VID_LENOVO,
                        product_id: PID_USB,
                        usage_page: USAGE_PAGE_VENDOR2,
                        usage: 0x01,
                    },
                );
            },
            Transport::BT => {
                v.push(
                    DeviceInfo {
                        vendor_id: VID_LENOVO,
                        product_id: PID_BT,
                        usage_page: USAGE_PAGE_VENDOR1,
                        usage: 0x01,
                    },
                );
                v.push(
                    DeviceInfo {
                        vendor_id: VID_LENOVO,
                        product_id: PID_BT,
                        usage_page: USAGE_PAGE_VENDOR2,
                        usage: 0x01,
                    },
                );
            },
        }
        v
    }

    /// Parse a transport name.
    pub fn from_str(s: &str) -> (r: Result<Transport, TransportParseError>)
        ensures
            r == Ok::<Transport, TransportParseError>(Transport::USB) <==> (s@ == "USB"@ || s@
                == "usb"@),
            r == Ok::<Transport, TransportParseError>(Transport::BT) <==> (s@ == "BT"@ || s@
                == "bt"@ || s@ == "bluetooth"@),
            r matches Err(TransportParseError::InvalidConnectionMethod(m)) ==> m@ == s@,
    {
        proof {
            reveal_strlit("USB");
            reveal_strlit("usb");
            reveal_strlit("BT");
            reveal_strlit("bt");
            reveal_strlit("bluetooth");
            assert("USB"@.len() == 3 && "usb"@.len() == 3 && "BT"@.len() == 2 && "bt"@.len() == 2
                && "bluetooth"@.len() == 9);
        }
        if str_eq(s, "USB") || str_eq(s, "usb") {
            Ok(Transport::USB)
        } else if str_eq(s, "BT") || str_eq(s, "bt") || str_eq(s, "bluetooth") {
            Ok(Transport::BT)
        } else {
            Err(TransportParseError::InvalidConnectionMethod(s.to_owned()))
        }
    }

    /// The transport's display name.
    pub fn name(&self) -> (r: String)
        ensures
            *self is USB ==> r@ == "USB"@,
            *self is BT ==> r@ == "Bluetooth"@,
    {
        match self {
            Transport::USB => "USB".to_owned(),
            Transport::BT => "Bluetooth".to_owned(),
        }
    }
}

/// The interfaces whose arrival and removal drive reconnection.
pub fn device_infos_notify() -> (r: Vec<DeviceInfo>)
    ensures
        r@ =~= seq![
            spec_middle_button_device(Transport::USB),
            spec_middle_button_device(Transport::BT),
            DeviceInfo {
                vendor_id: VID_LENOVO,
                product_id: PID_BT,
                usage_page: USAGE_PAGE_GENERIC_DESKTOP_CONTROL,
                usage: USAGE_GENERIC_DESKTOP_CONTROL_MOUSE,
            },
        ],
{
    let mut v: Vec<DeviceInfo> = Vec::new();
    v.push(
        DeviceInfo {
            vendor_id: VID_LENOVO,
            product_id: PID_USB,
            usage_page: USAGE_PAGE_VENDOR3,
            usage: 0x01,
        },
    );
    v.push(
        DeviceInfo {
            vendor_id: VID_LENOVO,
            product_id: PID_BT,
            usage_page: USAGE_PAGE_VENDOR1,
            usage: 0x01,
        },
    );
    v.push(wheel_hid_bt_device());
    v
}

/// The interfaces whose input is captured even in the background; the
/// native Bluetooth wheel is among them so it can be blocked.
pub fn device_infos_sink() -> (r: Vec<DeviceInfo>)
    ensures
        r@ =~= seq![
            spec_middle_button_device(Transport::USB),
            spec_wheel_device(Transport::USB),
            spec_middle_button_device(Transport::BT),
            spec_wheel_device(Transport::BT),
            DeviceInfo {
                vendor_id: VID_LENOVO,
                product_id: PID_BT,
                usage_page: USAGE_PAGE_GENERIC_DESKTOP_CONTROL,
                usage: USAGE_GENERIC_DESKTOP_CONTROL_MOUSE,
            },
        ],
{
    let mut v: Vec<DeviceInfo> = Vec::new();
    v.push(
        DeviceInfo {
            vendor_id: VID_LENOVO,
            product_id: PID_USB,
            usage_page: USAGE_PAGE_VENDOR3,
            usage: 0x01,
        },
    );
    v.push(
        DeviceInfo {
            vendor_id: VID_LENOVO,
            product_id: PID_USB,
            usage_page: USAGE_PAGE_VENDOR2,
            usage: 0x01,
        },
    );
    v.push(
        DeviceInfo {
            vendor_id: VID_LENOVO,
            product_id: PID_BT,
            usage_page: USAGE_PAGE_VENDOR1,
            usage: 0x01,
        },
    );
    v.push(
        DeviceInfo {
            vendor_id: VID_LENOVO,
            product_id: PID_BT,
            usage_page: USAGE_PAGE_VENDOR2,
            usage: 0x01,
        },
    );
    v.push(wheel_hid_bt_device());
    v
}

/// Whether a device list holds the given identity.
pub fn contains_device(list: &Vec<DeviceInfo>, di: &DeviceInfo) -> (r: bool)
    ensures
        r == list@.contains(*di),
{
    let mut i: usize = 0;
    while i < list.len()
        invariant
            i <= list@.len(),
            forall|j: int| 0 <= j < i ==> list@[j] != *di,
        decreases list@.len() - i,
    {
        if list[i] == *di {
            return true;
        }
        i = i + 1;
    }
    proof {
        assert(!list@.contains(*di));
    }
    false
}

/// The feature report that sets TrackPoint sensitivity over USB.
pub fn usb_sensitivity_report(sensitivity: u8) -> (r: Vec<u8>)
    requires
        1 <= sensitivity <= 9,
    ensures
        r@ =~= seq![0x13u8, 0x02u8, sensitivity, 0u8, 0u8, 0u8, 0u8, 0u8],
{
    let mut v: Vec<u8> = Vec::new();
    v.push(0x13);
    v.push(0x02);
    v.push(sensitivity);
    v.push(0x00);
    v.push(0x00);
    v.push(0x00);
    v.push(0x00);
    v.push(0x00);
    v
}

/// The feature report that switches fn-lock over USB.
pub fn usb_fn_lock_report(enable: bool) -> (r: Vec<u8>)
    ensures
        r@ =~= seq![
            0x13u8,
            0x05u8,
            (if enable {
                0x01u8
            } else {
                0x00u8
            }),
            0u8,
            0u8,
            0u8,
            0u8,
            0u8,
        ],
{
    let code: u8 = if enable {
        0x01
    } else {
        0x00
    };
    let mut v: Vec<u8> = Vec::new();
    v.push(0x13);
    v.push(0x05);
    v.push(code);
    v.push(0x00);
    v.push(0x00);
    v.push(0x00);
    v.push(0x00);
    v.push(0x00);
    v
}

/// The feature report that selects who synthesizes scroll events over USB:
/// disabling the native middle button makes the keyboard send raw scroll
/// reports.
pub fn usb_native_middle_button_report(enable: bool) -> (r: Vec<u8>)
    ensures
        r@ =~= seq![
            0x13u8,
            0x09u8,
            (if enable {
                0x00u8
            } else {
                0x01u8
            }),
            0u8,
            0u8,
            0u8,
            0u8,
            0u8,
        ],
{
    let code: u8 = if enable {
        0x00
    } else {
        0x01
    };
    let mut v: Vec<u8> = Vec::new();
    v.push(0x13);
    v.push(0x09);
    v.push(code);
    v.push(0x00);
    v.push(0x00);
    v.push(0x00);
    v.push(0x00);
    v.push(0x00);
    v
}

/// The write that sets TrackPoint sensitivity over Bluetooth.
pub fn bt_sensitivity_report(sensitivity: u8) -> (r: Vec<u8>)
    requires
        1 <= sensitivity <= 9,
    ensures
        r@ =~= seq![0x18u8, 0x02u8, sensitivity],
{
    let mut v: Vec<u8> = Vec::new();
    v.push(0x18);
    v.push(0x02);
    v.push(sensitivity);
    v
}

/// The write that switches fn-lock over Bluetooth.
pub fn bt_fn_lock_report(enable: bool) -> (r: Vec<u8>)
    ensures
        r@ =~= seq![
            0x18u8,
            0x05u8,
            (if enable {
                0x01u8
            } else {
                0x00u8
            }),
        ],
{
    let code: u8 = if enable {
        0x01
    } else {
        0x00
    };
    let mut v: Vec<u8> = Vec::new();
    v.push(0x18);
    v.push(0x05);
    v.push(code);
    v
}

/// The write that selects who synthesizes scroll events over Bluetooth.
pub fn bt_native_middle_button_report(enable: bool) -> (r: Vec<u8>)
    ensures
        r@ =~= seq![
            0x18u8,
            0x09u8,
            (if enable {
                0x00u8
            } else {
                0x01u8
            }),
        ],
{
    let code: u8 = if enable {
        0x00
    } else {
        0x01
    };
    let mut v: Vec<u8> = Vec::new();
    v.push(0x18);
    v.push(0x09);
    v.push(code);
    v
}

} // verus!
