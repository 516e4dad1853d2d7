//! The data the dashboard works on: devices, their sensors, attributes and
//! raw readings, each with the mathematical value its contracts speak of.

use vstd::prelude::*;
use vstd::string::*;

verus! {

/// How a sensor's raw tokens are to be read.
#[derive(Clone, Copy, PartialEq, Eq, Structural, Debug)]
pub enum SensorType {
    Gauge,
    Text,
    Switch,
    Snapshot,
}

impl Default for SensorType {
    /// A sensor is a gauge unless it says otherwise.
    fn default() -> (kind: SensorType)
        ensures
            kind == SensorType::Gauge,
    {
        SensorType::Gauge
    }
}

/// The value of an optional string.
pub open spec fn text_view(text: Option<String>) -> Option<Seq<char>> {
    match text {
        Some(s) => Some(s@),
        None => None,
    }
}

/// The value of a list of strings.
pub open spec fn texts_view(texts: Seq<String>) -> Seq<Seq<char>> {
    Seq::new(texts.len(), |i: int| texts[i]@)
}

/// Copies an optional string.
pub fn clone_text(text: &Option<String>) -> (res: Option<String>)
    ensures
        text_view(res) == text_view(*text),
{
    match text {
        Some(s) => Some(s.clone()),
        None => None,
    }
}

/// Copies a list of strings, in order.
pub fn clone_texts(texts: &Vec<String>) -> (res: Vec<String>)
    ensures
        texts_view(res@) == texts_view(texts@),
{
    let mut res: Vec<String> = Vec::new();
    let mut i: usize = 0;
    while i < texts.len()
        invariant
            i <= texts.len(),
            res@.len() == i,
            forall|j: int| 0 <= j < i ==> res@[j]@ == texts@[j]@,
        decreases texts.len() - i,
    {
        res.push(texts[i].clone());
        i += 1;
    }
    assert(texts_view(res@) =~= texts_view(texts@));
    res
}

/// A free-form key/value pair attached to a device or a sensor. Keys need not
/// be unique and order matters.
#[derive(PartialEq, Eq, Debug)]
pub struct Attribute {
    pub key: String,
    pub value: String,
}

/// The value of an [`Attribute`].
pub struct AttributeView {
    pub key: Seq<char>,
    pub value: Seq<char>,
}

impl View for Attribute {
    type V = AttributeView;

    open spec fn view(&self) -> AttributeView {
        AttributeView { key: self.key@, value: self.value@ }
    }
}

impl Clone for Attribute {
    fn clone(&self) -> (res: Self)
        ensures
            res == *self,
    {
        Attribute { key: self.key.clone(), value: self.value.clone() }
    }
}

/// The value of an attribute list.
pub open spec fn attributes_view(attributes: Seq<Attribute>) -> Seq<AttributeView> {
    Seq::new(attributes.len(), |i: int| attributes[i]@)
}

/// The value of an optional attribute list.
pub open spec fn optional_attributes_view(attributes: Option<Vec<Attribute>>) -> Option<
    Seq<AttributeView>,
> {
    match attributes {
        Some(list) => Some(attributes_view(list@)),
        None => None,
    }
}

/// The attribute list an entity carries, an absent list counting as empty.
pub open spec fn attributes_or_empty(attributes: Option<Vec<Attribute>>) -> Seq<AttributeView> {
    match attributes {
        Some(list) => attributes_view(list@),
        None => Seq::empty(),
    }
}

/// Copies an attribute list, in order.
pub fn clone_attributes(attributes: &Vec<Attribute>) -> (res: Vec<Attribute>)
    ensures
        attributes_view(res@) == attributes_view(attributes@),
{
    let mut res: Vec<Attribute> = Vec::new();
    let mut i: usize = 0;
    while i < attributes.len()
        invariant
            i <= attributes.len(),
            res@.len() == i,
            forall|j: int| 0 <= j < i ==> res@[j]@ == attributes@[j]@,
        decreases attributes.len() - i,
    {
        res.push(attributes[i].clone());
        i += 1;
    }
    assert(attributes_view(res@) =~= attributes_view(attributes@));
    res
}

/// Copies an optional attribute list.
pub fn clone_optional_attributes(attributes: &Option<Vec<Attribute>>) -> (res: Option<
    Vec<Attribute>,
>)
    ensures
        optional_attributes_view(res) == optional_attributes_view(*attributes),
{
    match attributes {
        Some(list) => Some(clone_attributes(list)),
        None => None,
    }
}

/// Whether two attribute lists hold the same pairs in the same order.
pub fn attributes_equal(left: &Vec<Attribute>, right: &Vec<Attribute>) -> (same: bool)
    ensures
        same == (attributes_view(left@) == attributes_view(right@)),
{
    if left.len() != right.len() {
        assert(attributes_view(left@).len() != attributes_view(right@).len());
        return false;
    }
    let mut i: usize = 0;
    while i < left.len()
        invariant
            i <= left.len(),
            left.len() == right.len(),
            forall|j: int| 0 <= j < i ==> left@[j]@ == right@[j]@,
        decreases left.len() - i,
    {
        if left[i].key != right[i].key || left[i].value != right[i].value {
            assert(attributes_view(left@)[i as int] != attributes_view(right@)[i as int]);
            return false;
        }
        i += 1;
    }
    assert(attributes_view(left@) =~= attributes_view(right@));
    true
}

/// One measuring point of a device. Its identity is `id`, unique within the
/// device.
#[derive(PartialEq, Eq, Debug, Default)]
pub struct Sensor {
    pub id: String,
    pub name: String,
    pub desc: Option<String>,
    pub kind: SensorType,
    pub uri: Option<String>,
    pub formula: Option<String>,
    pub attributes: Option<Vec<Attribute>>,
}

/// The value of a [`Sensor`].
pub struct SensorView {
    pub id: Seq<char>,
    pub name: Seq<char>,
    pub desc: Option<Seq<char>>,
    pub kind: SensorType,
    pub uri: Option<Seq<char>>,
    pub formula: Option<Seq<char>>,
    pub attributes: Option<Seq<AttributeView>>,
}

impl View for Sensor {
    type V = SensorView;

    open spec fn view(&self) -> SensorView {
        SensorView {
            id: self.id@,
            name: self.name@,
            desc: text_view(self.desc),
            kind: self.kind,
            uri: text_view(self.uri),
            formula: text_view(self.formula),
            attributes: optional_attributes_view(self.attributes),
        }
    }
}

impl Clone for Sensor {
    fn clone(&self) -> (res: Self)
        ensures
            res@ == self@,
    {
        Sensor {
            id: self.id.clone(),
            name: self.name.clone(),
            desc: clone_text(&self.desc),
            kind: self.kind,
            uri: clone_text(&self.uri),
            formula: clone_text(&self.formula),
            attributes: clone_optional_attributes(&self.attributes),
        }
    }
}

/// The value of a sensor list.
pub open spec fn sensors_view(sensors: Seq<Sensor>) -> Seq<SensorView> {
    Seq::new(sensors.len(), |i: int| sensors[i]@)
}

/// The value of an optional sensor list.
pub open spec fn optional_sensors_view(sensors: Option<Vec<Sensor>>) -> Option<Seq<SensorView>> {
    match sensors {
        Some(list) => Some(sensors_view(list@)),
        None => None,
    }
}

/// The sensors a device carries, an absent list counting as empty.
pub open spec fn sensors_or_empty(sensors: Option<Vec<Sensor>>) -> Seq<SensorView> {
    match sensors {
        Some(list) => sensors_view(list@),
        None => Seq::empty(),
    }
}

/// Copies a sensor list, in order.
pub fn clone_sensors(sensors: &Vec<Sensor>) -> (res: Vec<Sensor>)
    ensures
        sensors_view(res@) == sensors_view(sensors@),
{
    let mut res: Vec<Sensor> = Vec::new();
    let mut i: usize = 0;
    while i < sensors.len()
        invariant
            i <= sensors.len(),
            res@.len() == i,
            forall|j: int| 0 <= j < i ==> res@[j]@ == sensors@[j]@,
        decreases sensors.len() - i,
    {
        res.push(sensors[i].clone());
        i += 1;
    }
    assert(sensors_view(res@) =~= sensors_view(sensors@));
    res
}

/// The partial update sent when a sensor's attributes are saved: fields left
/// `None` are omitted from the request.
#[derive(Clone, PartialEq, Eq, Debug, Default)]
pub struct EditSensor {
    pub name: String,
    pub desc: Option<String>,
    pub kind: SensorType,
    pub uri: Option<String>,
    pub formula: Option<String>,
    pub attributes: Option<Vec<Attribute>>,
}

/// The value of an [`EditSensor`].
pub struct EditSensorView {
    pub name: Seq<char>,
    pub desc: Option<Seq<char>>,
    pub kind: SensorType,
    pub uri: Option<Seq<char>>,
    pub formula: Option<Seq<char>>,
    pub attributes: Option<Seq<AttributeView>>,
}

impl View for EditSensor {
    type V = EditSensorView;

    open spec fn view(&self) -> EditSensorView {
        EditSensorView {
            name: self.name@,
            desc: text_view(self.desc),
            kind: self.kind,
            uri: text_view(self.uri),
            formula: text_view(self.formula),
            attributes: optional_attributes_view(self.attributes),
        }
    }
}

/// A device as the backend describes it. Its identity is `id`, unique within
/// one metadata response. The coordinates are carried as the bit patterns of
/// IEEE 754 doubles; nothing here computes with them.
#[derive(PartialEq, Eq, Debug, Default)]
pub struct Device {
    pub id: String,
    pub name: String,
    pub desc: Option<String>,
    pub kind: String,
    pub uri: Option<String>,
    pub lat: Option<u64>,
    pub lon: Option<u64>,
    pub attributes: Option<Vec<Attribute>>,
    pub sensors: Option<Vec<Sensor>>,
}

/// The value of a [`Device`].
pub struct DeviceView {
    pub id: Seq<char>,
    pub name: Seq<char>,
    pub desc: Option<Seq<char>>,
    pub kind: Seq<char>,
    pub uri: Option<Seq<char>>,
    pub lat: Option<u64>,
    pub lon: Option<u64>,
    pub attributes: Option<Seq<AttributeView>>,
    pub sensors: Option<Seq<SensorView>>,
}

impl View for Device {
    type V = DeviceView;

    open spec fn view(&self) -> DeviceView {
        DeviceView {
            id: self.id@,
            name: self.name@,
            desc: text_view(self.desc),
            kind: self.kind@,
            uri: text_view(self.uri),
            lat: self.lat,
            lon: self.lon,
            attributes: optional_attributes_view(self.attributes),
            sensors: optional_sensors_view(self.sensors),
        }
    }
}

impl Clone for Device {
    fn clone(&self) -> (res: Self)
        ensures
            res@ == self@,
    {
        let sensors = match &self.sensors {
            Some(list) => Some(clone_sensors(list)),
            None => None,
        };
        Device {
            id: self.id.clone(),
            name: self.name.clone(),
            desc: clone_text(&self.desc),
            kind: self.kind.clone(),
            uri: clone_text(&self.uri),
            lat: self.lat,
            lon: self.lon,
            attributes: clone_optional_attributes(&self.attributes),
            sensors,
        }
    }
}

/// The value of a device list.
pub open spec fn devices_view(devices: Seq<Device>) -> Seq<DeviceView> {
    Seq::new(devices.len(), |i: int| devices[i]@)
}

/// Copies a device list, in order.
pub fn clone_devices(devices: &Vec<Device>) -> (res: Vec<Device>)
    ensures
        devices_view(res@) == devices_view(devices@),
{
    let mut res: Vec<Device> = Vec::new();
    let mut i: usize = 0;
    while i < devices.len()
        invariant
            i <= devices.len(),
            res@.len() == i,
            forall|j: int| 0 <= j < i ==> res@[j]@ == devices@[j]@,
        decreases devices.len() - i,
    {
        res.push(devices[i].clone());
        i += 1;
    }
    assert(devices_view(res@) =~= devices_view(devices@));
    res
}

/// The partial update sent when a device's attributes are saved: fields left
/// `None` are omitted from the request.
#[derive(Clone, PartialEq, Eq, Debug, Default)]
pub struct EditDevice {
    pub name: String,
    pub desc: Option<String>,
    pub kind: String,
    pub uri: Option<String>,
    pub lat: Option<u64>,
    pub lon: Option<u64>,
    pub attributes: Option<Vec<Attribute>>,
}

/// The value of an [`EditDevice`].
pub struct EditDeviceView {
    pub name: Seq<char>,
    pub desc: Option<Seq<char>>,
    pub kind: Seq<char>,
    pub uri: Option<Seq<char>>,
    pub lat: Option<u64>,
    pub lon: Option<u64>,
    pub attributes: Option<Seq<AttributeView>>,
}

impl View for EditDevice {
    type V = EditDeviceView;

    open spec fn view(&self) -> EditDeviceView {
        EditDeviceView {
            name: self.name@,
            desc: text_view(self.desc),
            kind: self.kind@,
            uri: text_view(self.uri),
            lat: self.lat,
            lon: self.lon,
            attributes: optional_attributes_view(self.attributes),
        }
    }
}

/// The latest reading of one sensor: an ordered sequence of opaque tokens.
/// `id` is the id of the sensor the reading belongs to.
#[derive(PartialEq, Eq, Debug)]
pub struct RawData {
    pub id: String,
    pub device_id: String,
    pub value: Vec<String>,
    pub time: Option<String>,
}

/// The value of a [`RawData`].
pub struct RawDataView {
    pub id: Seq<char>,
    pub device_id: Seq<char>,
    pub value: Seq<Seq<char>>,
    pub time: Option<Seq<char>>,
}

impl View for RawData {
    type V = RawDataView;

    open spec fn view(&self) -> RawDataView {
        RawDataView {
            id: self.id@,
            device_id: self.device_id@,
            value: texts_view(self.value@),
            time: text_view(self.time),
        }
    }
}

impl Clone for RawData {
    fn clone(&self) -> (res: Self)
        ensures
            res@ == self@,
    {
        RawData {
            id: self.id.clone(),
            device_id: self.device_id.clone(),
            value: clone_texts(&self.value),
            time: clone_text(&self.time),
        }
    }
}

/// The value of an optional reading.
pub open spec fn optional_raw_view(data: Option<RawData>) -> Option<RawDataView> {
    match data {
        Some(d) => Some(d@),
        None => None,
    }
}

/// A sensor together with its reading, if the backend reported one.
#[derive(PartialEq, Eq, Debug)]
pub struct SensorWithData {
    pub sensor: Sensor,
    pub data: Option<RawData>,
}

/// The value of a [`SensorWithData`].
pub struct SensorWithDataView {
    pub sensor: SensorView,
    pub data: Option<RawDataView>,
}

impl View for SensorWithData {
    type V = SensorWithDataView;

    open spec fn view(&self) -> SensorWithDataView {
        SensorWithDataView { sensor: self.sensor@, data: optional_raw_view(self.data) }
    }
}

impl Clone for SensorWithData {
    fn clone(&self) -> (res: Self)
        ensures
            res@ == self@,
    {
        let data = match &self.data {
            Some(d) => Some(d.clone()),
            None => None,
        };
        SensorWithData { sensor: self.sensor.clone(), data }
    }
}

/// What the backend last knew of a device's liveness.
#[derive(Clone, Copy, PartialEq, Eq, Structural, Debug)]
pub enum ActiveStatus {
    Unset,
    Start,
    Online,
    Offline,
    Stop,
    Abnormal,
}

impl Default for ActiveStatus {
    /// Nothing is known of a device's liveness until the backend says so.
    fn default() -> (status: ActiveStatus)
        ensures
            status == ActiveStatus::Unset,
    {
        ActiveStatus::Unset
    }
}

impl ActiveStatus {
    /// The label shown for the status.
    pub open spec fn spec_label(self) -> Seq<char> {
        match self {
            ActiveStatus::Unset => "Unset"@,
            ActiveStatus::Start => "Start"@,
            ActiveStatus::Online => "Online"@,
            ActiveStatus::Offline => "Offline"@,
            ActiveStatus::Stop => "Stop"@,
            ActiveStatus::Abnormal => "Abnormal"@,
        }
    }

    /// The label shown for the status, as text.
    pub fn label(&self) -> (text: String)
        ensures
            text@ == self.spec_label(),
    {
        match self {
            ActiveStatus::Unset => String::from_str("Unset"),
            ActiveStatus::Start => String::from_str("Start"),
            ActiveStatus::Online => String::from_str("Online"),
            ActiveStatus::Offline => String::from_str("Offline"),
            ActiveStatus::Stop => String::from_str("Stop"),
            ActiveStatus::Abnormal => String::from_str("Abnormal"),
        }
    }
}

/// A device's liveness record.
#[derive(Clone, PartialEq, Eq, Debug, Default)]
pub struct ActiveInfo {
    pub device_id: String,
    pub status: ActiveStatus,
    pub record: Option<i32>,
    pub last_data_time: Option<String>,
    pub create_time: String,
}

/// The liveness monitoring configured for a device.
#[derive(Clone, PartialEq, Eq, Debug, Default)]
pub struct ActiveDevice {
    pub device_id: String,
    pub enable: bool,
    pub period: String,
    pub min_uploads: Option<i32>,
    pub max_uploads: Option<i32>,
    pub create_time: Option<u64>,
}

/// Where a liveness notification goes and what it says.
#[derive(Clone, PartialEq, Eq, Debug, Default)]
pub struct ActiveNotifySetting {
    pub to: String,
    pub message: Option<String>,
}

/// One configured liveness notification of a device.
#[derive(Clone, PartialEq, Eq, Debug, Default)]
pub struct ActiveNotify {
    pub id: i32,
    pub device_id: String,
    pub enable: bool,
    pub name: String,
    pub kind: String,
    pub setting: ActiveNotifySetting,
    pub create_time: String,
}

/// A named pairing of a backend access key with the name of an endpoint. The
/// endpoint name is not checked when the project is stored; a dangling name
/// shows when the project is resolved.
#[derive(PartialEq, Eq, Debug, Default)]
pub struct Project {
    pub project_key: String,
    pub endpoint_key: String,
}

/// The value of a [`Project`].
pub struct ProjectView {
    pub project_key: Seq<char>,
    pub endpoint_key: Seq<char>,
}

impl View for Project {
    type V = ProjectView;

    open spec fn view(&self) -> ProjectView {
        ProjectView { project_key: self.project_key@, endpoint_key: self.endpoint_key@ }
    }
}

impl Clone for Project {
    fn clone(&self) -> (res: Self)
        ensures
            res == *self,
    {
        Project { project_key: self.project_key.clone(), endpoint_key: self.endpoint_key.clone() }
    }
}

} // verus!
