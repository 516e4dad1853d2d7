//! Joining a device's sensors with their latest readings, and deciding what
//! each sensor shows: its text value or a snapshot image.

use vstd::prelude::*;
use vstd::string::*;
use vstd::hash_map::StringHashMap;
use base64::prelude::{Engine, BASE64_STANDARD};
use crate::endpoint::{snapshot_url, Endpoint, EndpointTrait};
use crate::fetch::{FetchError, Fetcher, Method, Request, RequestView};
use crate::model::{
    optional_raw_view, sensors_or_empty, sensors_view, texts_view, Device, Project, RawData,
    RawDataView, Sensor, SensorType, SensorView, SensorWithData, SensorWithDataView,
};

verus! {

/// The value of a list of readings.
pub open spec fn raws_view(raw: Seq<RawData>) -> Seq<RawDataView> {
    Seq::new(raw.len(), |i: int| raw[i]@)
}

/// The value of a list of sensors with their readings.
pub open spec fn joined_view(items: Seq<SensorWithData>) -> Seq<SensorWithDataView> {
    Seq::new(items.len(), |i: int| items[i]@)
}

/// The position of the last reading with the given sensor id.
pub open spec fn last_reading(raw: Seq<RawDataView>, id: Seq<char>) -> Option<int>
    decreases raw.len(),
{
    if raw.len() == 0 {
        None
    } else if raw.last().id == id {
        Some(raw.len() - 1)
    } else {
        last_reading(raw.drop_last(), id)
    }
}

/// The reading that belongs to the sensor with the given id: the last one
/// listed under that id, if there is any.
pub open spec fn reading_for(raw: Seq<RawDataView>, id: Seq<char>) -> Option<RawDataView> {
    match last_reading(raw, id) {
        Some(k) => Some(raw[k]),
        None => None,
    }
}

/// The join of sensors and readings: one element per sensor, in the sensors'
/// order, each with the reading that belongs to it.
pub open spec fn joined(sensors: Seq<SensorView>, raw: Seq<RawDataView>) -> Seq<
    SensorWithDataView,
> {
    Seq::new(
        sensors.len(),
        |i: int| SensorWithDataView { sensor: sensors[i], data: reading_for(raw, sensors[i].id) },
    )
}

/// `last_reading` finds a reading with the id after which no reading has the
/// id, and finds none only where no reading has the id.
pub proof fn lemma_last_reading(raw: Seq<RawDataView>, id: Seq<char>)
    ensures
        match last_reading(raw, id) {
            Some(k) => 0 <= k < raw.len() && raw[k].id == id && forall|j: int|
                k < j < raw.len() ==> raw[j].id != id,
            None => forall|j: int| 0 <= j < raw.len() ==> raw[j].id != id,
        },
    decreases raw.len(),
{
    if raw.len() > 0 && raw.last().id != id {
        let front = raw.drop_last();
        lemma_last_reading(front, id);
        assert forall|j: int| 0 <= j < front.len() implies front[j] == raw[j] by {}
        match last_reading(front, id) {
            Some(k) => {
                assert forall|j: int| k < j < raw.len() implies raw[j].id != id by {
                    if j < front.len() {
                        assert(front[j].id != id);
                    }
                }
            },
            None => {
                assert forall|j: int| 0 <= j < raw.len() implies raw[j].id != id by {
                    if j < front.len() {
                        assert(front[j].id != id);
                    }
                }
            },
        }
    }
}

/// The join keeps the sensors: it is as long as the sensor list, and its
/// element at each position carries the sensor at that position, with a
/// reading of that sensor's id or none.
pub proof fn lemma_join_keeps_sensors(sensors: Seq<SensorView>, raw: Seq<RawDataView>)
    ensures
        joined(sensors, raw).len() == sensors.len(),
        forall|i: int|
            0 <= i < sensors.len() ==> (#[trigger] joined(sensors, raw)[i]).sensor == sensors[i],
        forall|i: int|
            0 <= i < sensors.len() ==> (#[trigger] joined(sensors, raw)[i]).sensor.id
                == sensors[i].id,
        forall|i: int|
            0 <= i < sensors.len() && (#[trigger] joined(sensors, raw)[i]).data.is_some()
                ==> joined(sensors, raw)[i].data.unwrap().id == sensors[i].id,
{
    assert forall|i: int|
        0 <= i < sensors.len() && (#[trigger] joined(sensors, raw)[i]).data.is_some()
        implies joined(sensors, raw)[i].data.unwrap().id == sensors[i].id by {
        lemma_last_reading(raw, sensors[i].id);
    }
}

/// Joins the sensors with the readings by sensor id. Every sensor appears
/// once, in its place, whether or not a reading matched; where several
/// readings carry one id, the last one counts.
pub fn join_sensor_data(sensors: &Vec<Sensor>, raw: &Vec<RawData>) -> (items: Vec<SensorWithData>)
    ensures
        joined_view(items@) == joined(sensors_view(sensors@), raws_view(raw@)),
        items@.len() == sensors@.len(),
        forall|i: int| 0 <= i < sensors@.len() ==> (#[trigger] items@[i]).sensor@ == sensors@[i]@,
{
    let ghost readings = raws_view(raw@);
    let mut index: StringHashMap<usize> = StringHashMap::new();
    let mut i: usize = 0;
    while i < raw.len()
        invariant
            i <= raw.len(),
            readings == raws_view(raw@),
            forall|id: Seq<char>| #[trigger]
                index@.contains_key(id) <==> last_reading(readings.take(i as int), id).is_some(),
            forall|id: Seq<char>| #[trigger]
                index@.contains_key(id) ==> Some(index@[id] as int) == last_reading(
                    readings.take(i as int),
                    id,
                ),
        decreases raw.len() - i,
    {
        proof {
            assert(readings.take(i + 1).drop_last() =~= readings.take(i as int));
            assert(readings.take(i + 1).last() == raw@[i as int]@);
        }
        index.insert(raw[i].id.clone(), i);
        i += 1;
    }
    assert(readings.take(i as int) =~= readings);

    let mut items: Vec<SensorWithData> = Vec::new();
    let mut j: usize = 0;
    while j < sensors.len()
        invariant
            j <= sensors.len(),
            items@.len() == j,
            readings == raws_view(raw@),
            forall|id: Seq<char>| #[trigger]
                index@.contains_key(id) <==> last_reading(readings, id).is_some(),
            forall|id: Seq<char>| #[trigger]
                index@.contains_key(id) ==> Some(index@[id] as int) == last_reading(readings, id),
            forall|t: int|
                0 <= t < j ==> items@[t]@ == joined(sensors_view(sensors@), readings)[t],
        decreases sensors.len() - j,
    {
        let sensor = &sensors[j];
        proof {
            lemma_last_reading(readings, sensor.id@);
        }
        let data = match index.get(sensor.id.as_str()) {
            Some(k) => Some(raw[*k].clone()),
            None => None,
        };
        items.push(SensorWithData { sensor: sensor.clone(), data });
        j += 1;
    }
    assert(joined_view(items@) =~= joined(sensors_view(sensors@), readings));
    assert forall|i: int| 0 <= i < sensors@.len() implies (#[trigger] items@[i]).sensor@
        == sensors@[i]@ by {
        assert(items@[i]@ == joined(sensors_view(sensors@), readings)[i]);
    }
    items
}

/// Joins a device's sensors with the readings fetched for it. A device
/// without a sensor list has no sensors.
pub fn device_sensor_data(device: &Device, raw: &Vec<RawData>) -> (items: Vec<SensorWithData>)
    ensures
        joined_view(items@) == joined(sensors_or_empty(device.sensors), raws_view(raw@)),
        items@.len() == sensors_or_empty(device.sensors).len(),
        forall|i: int|
            0 <= i < items@.len() ==> (#[trigger] items@[i]).sensor@ == sensors_or_empty(
                device.sensors,
            )[i],
{
    match &device.sensors {
        Some(sensors) => join_sensor_data(sensors, raw),
        None => {
            let items: Vec<SensorWithData> = Vec::new();
            assert(joined_view(items@) =~= joined(
                sensors_or_empty(device.sensors),
                raws_view(raw@),
            ));
            items
        },
    }
}

/// The sensors of a device with their readings, as fetched: the joined list,
/// or why there is none.
pub type SensorData = Fetcher<Result<Vec<SensorWithData>, FetchError>>;

/// Whether `shown` is what a raw-data fetch for the device that ended in
/// `outcome` puts on display: the device's sensors joined with the readings,
/// or the failure of the fetch.
pub open spec fn shows_readings(
    shown: Result<Vec<SensorWithData>, FetchError>,
    device: Device,
    outcome: Result<Vec<RawData>, FetchError>,
) -> bool {
    match outcome {
        Ok(raw) => shown.is_ok() && joined_view(shown.unwrap()@) == joined(
            sensors_or_empty(device.sensors),
            raws_view(raw@),
        ),
        Err(e) => shown == Err::<Vec<SensorWithData>, FetchError>(e),
    }
}

/// Hands in the outcome of a device's raw-data fetch. If the fetch is the
/// one awaited, the readings are joined with the device's sensors and put on
/// display, or the failure is; a superseded fetch changes nothing.
pub fn readings_arrived(
    view: &mut SensorData,
    ticket: u64,
    device: &Device,
    outcome: Result<Vec<RawData>, FetchError>,
) -> (applied: bool)
    ensures
        applied == old(view)@.awaits(ticket),
        !applied ==> final(view)@ == old(view)@,
        applied ==> final(view)@.issued == old(view)@.issued && !final(view)@.pending,
        applied ==> final(view)@.value.is_some() && shows_readings(
            final(view)@.value.unwrap(),
            *device,
            outcome,
        ),
{
    let shown = match outcome {
        Ok(raw) => Ok(device_sensor_data(device, &raw)),
        Err(e) => Err(e),
    };
    view.complete(ticket, shown)
}

/// The tokens of a reading written out with one space between neighbours.
pub open spec fn spaced(tokens: Seq<Seq<char>>) -> Seq<char>
    decreases tokens.len(),
{
    if tokens.len() == 0 {
        Seq::empty()
    } else if tokens.len() == 1 {
        tokens[0]
    } else {
        spaced(tokens.drop_last()) + " "@ + tokens.last()
    }
}

/// Writes the tokens out with one space between neighbours.
pub fn join_tokens(tokens: &Vec<String>) -> (text: String)
    ensures
        text@ == spaced(texts_view(tokens@)),
{
    let ghost all = texts_view(tokens@);
    let mut text = String::new();
    let mut i: usize = 0;
    while i < tokens.len()
        invariant
            i <= tokens.len(),
            all == texts_view(tokens@),
            text@ == spaced(all.take(i as int)),
        decreases tokens.len() - i,
    {
        proof {
            assert(all.take(i + 1).drop_last() =~= all.take(i as int));
            assert(all.take(i + 1).last() == tokens@[i as int]@);
        }
        if i > 0 {
            text.append(" ");
        } else {
            assert(Seq::<char>::empty() + tokens@[i as int]@ =~= tokens@[i as int]@);
        }
        text.append(tokens[i].as_str());
        i += 1;
    }
    assert(all.take(i as int) =~= all);
    text
}

/// The text a sensor shows: its reading's tokens, or nothing without one.
pub open spec fn display_value(data: Option<RawDataView>) -> Seq<char> {
    match data {
        Some(reading) => spaced(reading.value),
        None => Seq::empty(),
    }
}

/// The text a sensor shows.
pub fn display_text(item: &SensorWithData) -> (text: String)
    ensures
        text@ == display_value(item@.data),
{
    match &item.data {
        Some(reading) => join_tokens(&reading.value),
        None => String::new(),
    }
}

/// The number of leading characters of a snapshot sensor's value that come
/// before the snapshot id.
pub const SNAPSHOT_ID_OFFSET: usize = 11;

/// The snapshot id that a sensor's value holds: for a snapshot sensor whose
/// value is longer than the offset, what follows the offset.
pub open spec fn snapshot_id(kind: SensorType, value: Seq<char>) -> Option<Seq<char>> {
    if kind == SensorType::Snapshot && value.len() > SNAPSHOT_ID_OFFSET {
        Some(value.subrange(SNAPSHOT_ID_OFFSET as int, value.len() as int))
    } else {
        None
    }
}

/// Reads the snapshot id out of a sensor's value, if it holds one.
pub fn read_snapshot_id(kind: SensorType, value: &str) -> (id: Option<String>)
    ensures
        crate::model::text_view(id) == snapshot_id(kind, value@),
{
    let len = value.unicode_len();
    if kind == SensorType::Snapshot && len > SNAPSHOT_ID_OFFSET {
        Some(String::from_str(value.substring_char(SNAPSHOT_ID_OFFSET, len)))
    } else {
        None
    }
}

/// The request that fetches one snapshot image.
pub open spec fn snapshot_request_for(
    endpoint: Endpoint,
    project_key: Seq<char>,
    device_id: Seq<char>,
    sensor_id: Seq<char>,
    snapshot: Seq<char>,
) -> RequestView {
    RequestView {
        method: Method::Get,
        url: snapshot_url(endpoint.spec_snapshot_root(), device_id, sensor_id, snapshot),
        project_key,
    }
}

/// The request for the image of a sensor, made only for a snapshot sensor
/// whose value holds a snapshot id; every other sensor shows its text.
pub fn snapshot_request(
    endpoint: &Endpoint,
    project: &Project,
    device: &Device,
    item: &SensorWithData,
) -> (request: Option<Request>)
    ensures
        match snapshot_id(item.sensor.kind, display_value(item@.data)) {
            Some(snapshot) => request.is_some() && request.unwrap()@ == snapshot_request_for(
                *endpoint,
                project.project_key@,
                device.id@,
                item.sensor.id@,
                snapshot,
            ),
            None => request.is_none(),
        },
{
    let value = display_text(item);
    match read_snapshot_id(item.sensor.kind, value.as_str()) {
        Some(snapshot) => Some(
            Request {
                method: Method::Get,
                url: endpoint.snapshot(
                    device.id.as_str(),
                    item.sensor.id.as_str(),
                    snapshot.as_str(),
                ),
                project_key: project.project_key.clone(),
            },
        ),
        None => None,
    }
}

/// The standard base64 encoding, with padding, of a byte sequence.
pub uninterp spec fn base64_standard(bytes: Seq<u8>) -> Seq<char>;

/// Whether an image of that many bytes is encoded: its encoding, four
/// characters for every three bytes, must fit in memory.
pub open spec fn encodable(len: nat) -> bool {
    len / 3 < usize::MAX / 8
}

/// `Engine::encode` of `base64`, on the engine `BASE64_STANDARD`: the result
/// is the standard padded base64 text of the bytes. The encoder fails on a
/// length whose encoding does not fit in `usize`; such lengths are excluded.
#[verifier::external_body]
fn encode_base64(bytes: &[u8]) -> (text: String)
    requires
        encodable(bytes@.len()),
    ensures
        text@ == base64_standard(bytes@),
{
    BASE64_STANDARD.encode(bytes)
}

/// The data URI under which an encoded JPEG image is displayed.
pub open spec fn data_uri(encoded: Seq<char>) -> Seq<char> {
    "data:image/jpeg;base64,"@ + encoded
}

/// Wraps base64 text into a JPEG data URI.
pub fn image_data_uri(encoded: &str) -> (uri: String)
    ensures
        uri@ == data_uri(encoded@),
{
    let mut uri = String::from_str("data:image/jpeg;base64,");
    uri.append(encoded);
    uri
}

/// Turns the bytes of a fetched snapshot into a data URI for display. An
/// image too large to encode gives `None`.
pub fn snapshot_image(bytes: &[u8]) -> (uri: Option<String>)
    ensures
        encodable(bytes@.len()) ==> uri.is_some() && uri.unwrap()@ == data_uri(
            base64_standard(bytes@),
        ),
        !encodable(bytes@.len()) ==> uri.is_none(),
{
    if bytes.len() / 3 < usize::MAX / 8 {
        let encoded = encode_base64(bytes);
        Some(image_data_uri(encoded.as_str()))
    } else {
        None
    }
}

/// What a sensor's card shows.
#[derive(Clone, Debug, PartialEq, Eq)]
pub enum SensorDisplay {
    /// The snapshot image, as a data URI.
    Image(String),
    /// The sensor's text value.
    Text(String),
}

/// The snapshot image of one sensor, as fetched: the data URI, or why there
/// is none.
pub type SnapshotImage = Fetcher<Result<String, FetchError>>;

/// What is recorded for an image that is too large to encode.
pub open spec fn oversize_message() -> Seq<char> {
    "Image too large"@
}

/// Whether `shown` is what a snapshot fetch that ended in `outcome` puts on
/// display: the data URI of the image bytes, or the failure of the fetch. An
/// image too large to encode counts as undecodable.
pub open spec fn shows_image(
    shown: Result<String, FetchError>,
    outcome: Result<Vec<u8>, FetchError>,
) -> bool {
    match outcome {
        Ok(bytes) => if encodable(bytes@.len()) {
            shown.is_ok() && shown.unwrap()@ == data_uri(base64_standard(bytes@))
        } else {
            shown.is_err() && shown.unwrap_err() is Decode && shown.unwrap_err().spec_message()
                == oversize_message()
        },
        Err(e) => shown == Err::<String, FetchError>(e),
    }
}

/// Hands in the outcome of a snapshot fetch. If the fetch is the one
/// awaited, the image's data URI is put on display, or the failure is; a
/// superseded fetch changes nothing.
pub fn image_arrived(view: &mut SnapshotImage, ticket: u64, outcome: Result<Vec<u8>, FetchError>)
    -> (applied: bool)
    ensures
        applied == old(view)@.awaits(ticket),
        !applied ==> final(view)@ == old(view)@,
        applied ==> final(view)@.issued == old(view)@.issued && !final(view)@.pending,
        applied ==> final(view)@.value.is_some() && shows_image(
            final(view)@.value.unwrap(),
            outcome,
        ),
{
    let shown = match outcome {
        Ok(bytes) => match snapshot_image(bytes.as_slice()) {
            Some(uri) => Ok(uri),
            None => Err(FetchError::Decode(String::from_str("Image too large"))),
        },
        Err(e) => Err(e),
    };
    view.complete(ticket, shown)
}

/// Decides what a sensor's card shows: the image once its fetch succeeded,
/// and the text value while the image is awaited, when no image was asked
/// for, and when its fetch failed.
pub fn sensor_display(value: String, image: Option<&Result<String, FetchError>>) -> (shown:
    SensorDisplay)
    ensures
        shown == (match image {
            Some(Ok(uri)) => SensorDisplay::Image(*uri),
            _ => SensorDisplay::Text(value),
        }),
{
    match image {
        Some(Ok(uri)) => SensorDisplay::Image(uri.clone()),
        _ => SensorDisplay::Text(value),
    }
}

} // verus!
