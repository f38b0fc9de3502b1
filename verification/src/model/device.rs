//! Devices: ids, names, types and the public data of a device.
use vstd::prelude::*;
use crate::collections::{KeyEq, ViewClone};
use crate::ids::{IdString, U64IdUrlEnc, UuidUrlEnc, Base64Text};
use crate::model::keys::{OpenBox, device_id_of};
use crate::model::device_link::LoopbackDeviceLink;

verus! {

/// The id of a device, derived from its transport public key.
#[derive(Debug)]
pub struct DeviceId(pub U64IdUrlEnc);

impl View for DeviceId {
    type V = Seq<char>;

    open spec fn view(&self) -> Seq<char> {
        self.0@
    }
}

impl Clone for DeviceId {
    fn clone(&self) -> (r: Self)
        ensures
            r == *self,
    {
        DeviceId(self.0.clone())
    }
}

impl ViewClone for DeviceId {
    fn view_clone(&self) -> (r: Self) {
        self.clone()
    }
}

impl PartialEq for DeviceId {
    fn eq(&self, other: &Self) -> (r: bool) {
        self.0.text.0 == other.0.text.0
    }
}

impl vstd::std_specs::cmp::PartialEqSpecImpl for DeviceId {
    open spec fn obeys_eq_spec() -> bool {
        true
    }

    open spec fn eq_spec(&self, other: &Self) -> bool {
        self@ == other@
    }
}

impl KeyEq for DeviceId {
    fn key_eq(&self, other: &Self) -> (r: bool) {
        self.0.text.0 == other.0.text.0
    }
}

impl IdString for DeviceId {
    open spec fn id_view(&self) -> Seq<char> {
        self@
    }

    fn id_str(self) -> (r: String) {
        self.0.text.0
    }
}

impl DeviceId {
    /// A device id whose text is given as it is.
    pub fn from_text(text: &str) -> (r: Self)
        ensures
            r@ == text@,
    {
        DeviceId(U64IdUrlEnc { text: Base64Text(String::from_str(text)) })
    }

    pub fn wasm_id_str(&self) -> (r: String)
        ensures
            r@ == self@,
    {
        self.0.text.0.clone()
    }

    /// The text of the id, as it is displayed.
    pub fn to_string(&self) -> (r: String)
        ensures
            r@ == self@,
    {
        self.0.text.0.clone()
    }

    pub fn loopback(self) -> (r: LoopbackDeviceLink)
        ensures
            r.device == self,
    {
        LoopbackDeviceLink::from(self)
    }

    /// The id of the device that owns the given public keys.
    pub fn from_open_box(open_box: &OpenBox) -> (r: Self)
        ensures
            r@ == device_id_of(open_box.transport_pk@),
    {
        open_box.transport_pk.to_device_id()
    }
}

/// The human-readable name of a device.
#[derive(Debug)]
pub struct DeviceName(pub String);

impl View for DeviceName {
    type V = Seq<char>;

    open spec fn view(&self) -> Seq<char> {
        self.0@
    }
}

impl Clone for DeviceName {
    fn clone(&self) -> (r: Self)
        ensures
            r == *self,
    {
        DeviceName(self.0.clone())
    }
}

impl PartialEq for DeviceName {
    fn eq(&self, other: &Self) -> (r: bool) {
        self.0 == other.0
    }
}

impl vstd::std_specs::cmp::PartialEqSpecImpl for DeviceName {
    open spec fn obeys_eq_spec() -> bool {
        true
    }

    open spec fn eq_spec(&self, other: &Self) -> bool {
        self@ == other@
    }
}

impl DeviceName {
    pub fn from(name: &str) -> (r: Self)
        ensures
            r@ == name@,
    {
        DeviceName(String::from_str(name))
    }

    pub fn from_string(name: String) -> (r: Self)
        ensures
            r@ == name@,
    {
        DeviceName(name)
    }

    pub fn server() -> (r: Self)
        ensures
            r@ == "server_device"@,
    {
        DeviceName::from("server_device")
    }

    pub fn virtual_device() -> (r: Self)
        ensures
            r@ == "vd_device"@,
    {
        DeviceName::from("vd_device")
    }

    pub fn client() -> (r: Self)
        ensures
            r@ == "client_device"@,
    {
        DeviceName::from("client_device")
    }

    pub fn client_b() -> (r: Self)
        ensures
            r@ == "client_device_b"@,
    {
        DeviceName::from("client_device_b")
    }

    pub fn as_str(&self) -> (r: String)
        ensures
            r@ == self@,
    {
        self.0.clone()
    }

    /// A random name: a random 128-bit id in base64.
    pub fn generate() -> (r: Self)
        ensures
            exists|b: Seq<u8>| b.len() == 16 && r@ == crate::ids::base64_url(b),
    {
        let uuid = UuidUrlEnc::generate();
        DeviceName(uuid.id_str())
    }
}

/// The kind of a device ("Android", "iPhone", ...).
#[derive(Debug)]
pub struct DeviceType(pub String);

impl View for DeviceType {
    type V = Seq<char>;

    open spec fn view(&self) -> Seq<char> {
        self.0@
    }
}

impl Clone for DeviceType {
    fn clone(&self) -> (r: Self)
        ensures
            r == *self,
    {
        DeviceType(self.0.clone())
    }
}

impl PartialEq for DeviceType {
    fn eq(&self, other: &Self) -> (r: bool) {
        self.0 == other.0
    }
}

impl vstd::std_specs::cmp::PartialEqSpecImpl for DeviceType {
    open spec fn obeys_eq_spec() -> bool {
        true
    }

    open spec fn eq_spec(&self, other: &Self) -> bool {
        self@ == other@
    }
}

impl DeviceType {
    pub fn from(device_type: &str) -> (r: Self)
        ensures
            r@ == device_type@,
    {
        DeviceType(String::from_str(device_type))
    }

    pub fn android() -> (r: Self)
        ensures
            r@ == "Android"@,
    {
        DeviceType::from("Android")
    }

    pub fn iphone() -> (r: Self)
        ensures
            r@ == "iPhone"@,
    {
        DeviceType::from("iPhone")
    }

    pub fn tablet() -> (r: Self)
        ensures
            r@ == "Tablet"@,
    {
        DeviceType::from("Tablet")
    }

    pub fn web() -> (r: Self)
        ensures
            r@ == "Web"@,
    {
        DeviceType::from("Web")
    }

    pub fn cli() -> (r: Self)
        ensures
            r@ == "CLI"@,
    {
        DeviceType::from("CLI")
    }

    pub fn desktop() -> (r: Self)
        ensures
            r@ == "Desktop"@,
    {
        DeviceType::from("Desktop")
    }

    pub fn other() -> (r: Self)
        ensures
            r@ == "Other"@,
    {
        DeviceType::from("Other")
    }

    pub fn as_str(&self) -> (r: String)
        ensures
            r@ == self@,
    {
        self.0.clone()
    }
}

impl Default for DeviceType {
    fn default() -> (r: Self)
        ensures
            r@ == "Other"@,
    {
        DeviceType::other()
    }
}

pub struct DeviceDataView {
    pub device_id: Seq<char>,
    pub device_name: Seq<char>,
    pub device_type: Seq<char>,
    pub keys: (Seq<char>, Seq<char>),
}

/// The public information about a device.
#[derive(Debug)]
pub struct DeviceData {
    pub device_id: DeviceId,
    pub device_name: DeviceName,
    pub device_type: DeviceType,
    pub keys: OpenBox,
}

impl View for DeviceData {
    type V = DeviceDataView;

    open spec fn view(&self) -> DeviceDataView {
        DeviceDataView {
            device_id: self.device_id@,
            device_name: self.device_name@,
            device_type: self.device_type@,
            keys: self.keys@,
        }
    }
}

impl Clone for DeviceData {
    fn clone(&self) -> (r: Self)
        ensures
            r == *self,
    {
        DeviceData {
            device_id: self.device_id.clone(),
            device_name: self.device_name.clone(),
            device_type: self.device_type.clone(),
            keys: self.keys.clone(),
        }
    }
}

impl PartialEq for DeviceData {
    fn eq(&self, other: &Self) -> (r: bool) {
        self.device_id == other.device_id && self.device_name == other.device_name
            && self.device_type == other.device_type && self.keys == other.keys
    }
}

impl vstd::std_specs::cmp::PartialEqSpecImpl for DeviceData {
    open spec fn obeys_eq_spec() -> bool {
        true
    }

    open spec fn eq_spec(&self, other: &Self) -> bool {
        self@ == other@
    }
}

impl DeviceData {
    pub fn from_with_type(device_name: DeviceName, device_type: DeviceType, open_box: OpenBox) -> (r: Self)
        ensures
            r.device_id@ == device_id_of(open_box.transport_pk@),
            r.device_name == device_name,
            r.device_type == device_type,
            r.keys == open_box,
    {
        let device_id = DeviceId::from_open_box(&open_box);
        DeviceData { device_id, device_name, device_type, keys: open_box }
    }

    pub fn from(device_name: DeviceName, open_box: OpenBox) -> (r: Self)
        ensures
            r.device_id@ == device_id_of(open_box.transport_pk@),
            r.device_name == device_name,
            r.device_type@ == "Other"@,
            r.keys == open_box,
    {
        Self::from_with_type(device_name, DeviceType::other(), open_box)
    }
}

} // verus!
