//! What a device page shows: the device and the sensor that the navigation
//! state selects out of the fetched metadata, and the panel on screen.

use vstd::prelude::*;
use vstd::string::*;
use crate::directory::{Endpoints, Projects};
use crate::endpoint::{metadata_url, EndpointTrait};
use crate::fetch::{
    metadata_request, resolution, resolve, FetchError, Fetcher, FetcherView, Method, Request,
    RequestView, Resolved,
};
use crate::model::{Device, Sensor};
use crate::navigation::{PageContext, PageContextView, ViewStatus};

verus! {

/// The ids of a device list, in order.
pub open spec fn device_ids(devices: Seq<Device>) -> Seq<Seq<char>> {
    Seq::new(devices.len(), |i: int| devices[i].id@)
}

/// The ids of a sensor list, in order.
pub open spec fn sensor_ids(sensors: Seq<Sensor>) -> Seq<Seq<char>> {
    Seq::new(sensors.len(), |i: int| sensors[i].id@)
}

/// The first position that holds the id.
pub open spec fn first_index(ids: Seq<Seq<char>>, id: Seq<char>) -> Option<int>
    decreases ids.len(),
{
    if ids.len() == 0 {
        None
    } else {
        match first_index(ids.drop_last(), id) {
            Some(k) => Some(k),
            None => if ids.last() == id {
                Some(ids.len() - 1)
            } else {
                None
            },
        }
    }
}

/// `first_index` finds a position that holds the id and before which no
/// position does, and finds none only where no position holds the id.
pub proof fn lemma_first_index(ids: Seq<Seq<char>>, id: Seq<char>)
    ensures
        match first_index(ids, id) {
            Some(k) => 0 <= k < ids.len() && ids[k] == id && forall|j: int|
                0 <= j < k ==> ids[j] != id,
            None => forall|j: int| 0 <= j < ids.len() ==> ids[j] != id,
        },
    decreases ids.len(),
{
    if ids.len() > 0 {
        let front = ids.drop_last();
        lemma_first_index(front, id);
        assert forall|j: int| 0 <= j < front.len() implies front[j] == ids[j] by {}
        match first_index(front, id) {
            Some(k) => {
                assert forall|j: int| 0 <= j < k implies ids[j] != id by {
                    assert(front[j] != id);
                }
            },
            None => {
                assert forall|j: int| 0 <= j < front.len() implies ids[j] != id by {
                    assert(front[j] != id);
                }
            },
        }
    }
}

/// The position of the first device with the given id.
pub fn device_index(devices: &Vec<Device>, id: &str) -> (found: Option<usize>)
    ensures
        match found {
            Some(k) => k < devices@.len() && first_index(device_ids(devices@), id@) == Some(
                k as int,
            ),
            None => first_index(device_ids(devices@), id@).is_none(),
        },
{
    let needle = String::from_str(id);
    let ghost ids = device_ids(devices@);
    let mut i: usize = 0;
    while i < devices.len()
        invariant
            i <= devices.len(),
            ids == device_ids(devices@),
            needle@ == id@,
            forall|j: int| 0 <= j < i ==> ids[j] != id@,
        decreases devices.len() - i,
    {
        if devices[i].id == needle {
            proof {
                assert(ids[i as int] == id@);
                lemma_first_index(ids, id@);
                match first_index(ids, id@) {
                    Some(k) => {
                        if k < i {
                            assert(ids[k] != id@);
                        }
                    },
                    None => {},
                }
            }
            return Some(i);
        }
        assert(ids[i as int] != id@);
        i += 1;
    }
    proof {
        lemma_first_index(ids, id@);
        match first_index(ids, id@) {
            Some(k) => {
                assert(ids[k] != id@);
            },
            None => {},
        }
    }
    None
}

/// The position of the first sensor with the given id.
pub fn sensor_index(sensors: &Vec<Sensor>, id: &str) -> (found: Option<usize>)
    ensures
        match found {
            Some(k) => k < sensors@.len() && first_index(sensor_ids(sensors@), id@) == Some(
                k as int,
            ),
            None => first_index(sensor_ids(sensors@), id@).is_none(),
        },
{
    let needle = String::from_str(id);
    let ghost ids = sensor_ids(sensors@);
    let mut i: usize = 0;
    while i < sensors.len()
        invariant
            i <= sensors.len(),
            ids == sensor_ids(sensors@),
            needle@ == id@,
            forall|j: int| 0 <= j < i ==> ids[j] != id@,
        decreases sensors.len() - i,
    {
        if sensors[i].id == needle {
            proof {
                assert(ids[i as int] == id@);
                lemma_first_index(ids, id@);
                match first_index(ids, id@) {
                    Some(k) => {
                        if k < i {
                            assert(ids[k] != id@);
                        }
                    },
                    None => {},
                }
            }
            return Some(i);
        }
        assert(ids[i as int] != id@);
        i += 1;
    }
    proof {
        lemma_first_index(ids, id@);
        match first_index(ids, id@) {
            Some(k) => {
                assert(ids[k] != id@);
            },
            None => {},
        }
    }
    None
}

/// The first device of the list with the given id.
pub open spec fn device_with_id(devices: Seq<Device>, id: Seq<char>) -> Option<Device> {
    match first_index(device_ids(devices), id) {
        Some(k) => Some(devices[k]),
        None => None,
    }
}

/// The first sensor of the list with the given id.
pub open spec fn sensor_with_id(sensors: Seq<Sensor>, id: Seq<char>) -> Option<Sensor> {
    match first_index(sensor_ids(sensors), id) {
        Some(k) => Some(sensors[k]),
        None => None,
    }
}

/// The id a selection stands for; no selection stands for the empty id.
pub open spec fn selected_id(selection: Option<Seq<char>>) -> Seq<char> {
    match selection {
        Some(id) => id,
        None => Seq::empty(),
    }
}

/// The metadata of a project as fetched: the devices, or why there are none.
pub type Metadata = Fetcher<Result<Vec<Device>, FetchError>>;

/// The metadata holder after a page was opened on a project: a fetch is
/// under way for a project that resolved, and the failure is on display for
/// one that did not. Whatever was shown for the previous project is gone,
/// unless the project resolved and no further fetch can be numbered.
pub open spec fn opened(
    before: FetcherView<Result<Vec<Device>, FetchError>>,
    resolved: Result<Resolved, FetchError>,
) -> FetcherView<Result<Vec<Device>, FetchError>> {
    match resolved {
        Ok(_) => before.reset(),
        Err(e) => before.settle(Err(e)),
    }
}

/// Opens the page on a project: navigation starts over on the device list,
/// and the metadata is fetched from scratch, so that a fetch still under way
/// for the previous project is superseded. Returns the number of the new
/// fetch and the request to send for it; `None` where the project does not
/// resolve, in which case the failure is what the page shows, and where the
/// fetch numbers are used up.
pub fn open_project(
    ctx: &mut PageContext,
    metadata: &mut Metadata,
    projects: &Projects,
    endpoints: &Endpoints,
    project_name: &str,
) -> (sent: Option<(u64, Request)>)
    ensures
        final(ctx)@ == PageContextView::initial(),
        final(metadata)@ == opened(
            old(metadata)@,
            resolution(projects@, endpoints@, project_name@),
        ),
        match resolution(projects@, endpoints@, project_name@) {
            Ok(found) => if old(metadata)@.can_start() {
                sent.is_some() && sent.unwrap().0 == final(metadata)@.issued && sent.unwrap().1@
                    == (RequestView {
                    method: Method::Get,
                    url: metadata_url(found.endpoint.spec_baseurl()),
                    project_key: found.project.project_key@,
                })
            } else {
                sent.is_none()
            },
            Err(_) => sent.is_none(),
        },
{
    ctx.reset();
    match resolve(projects, endpoints, project_name) {
        Ok(found) => match metadata.reset() {
            Some(ticket) => Some((ticket, metadata_request(&found.endpoint, &found.project))),
            None => None,
        },
        Err(e) => {
            metadata.settle(Err(e));
            None
        },
    }
}

/// The device the page displays: the first fetched device with the selected
/// id. There is none while the metadata is loading, after a failed fetch, and
/// when no fetched device has the id.
pub open spec fn shown_device(
    selection: Option<Seq<char>>,
    metadata: Option<Result<Vec<Device>, FetchError>>,
) -> Option<Device> {
    match metadata {
        Some(Ok(devices)) => device_with_id(devices@, selected_id(selection)),
        _ => None,
    }
}

/// The sensor the page displays: the first sensor of the displayed device
/// with the selected id.
pub open spec fn shown_sensor(selection: Option<Seq<char>>, device: Option<Device>) -> Option<
    Sensor,
> {
    match device {
        Some(d) => match d.sensors {
            Some(sensors) => sensor_with_id(sensors@, selected_id(selection)),
            None => None,
        },
        None => None,
    }
}

fn selection_text(selection: Option<&String>) -> (id: String)
    ensures
        id@ == (match selection {
            Some(s) => s@,
            None => Seq::<char>::empty(),
        }),
{
    match selection {
        Some(s) => s.clone(),
        None => String::new(),
    }
}

/// Picks the displayed device out of the fetched metadata.
pub fn displayed_device<'a>(ctx: &PageContext, metadata: &'a Metadata) -> (device: Option<
    &'a Device,
>)
    ensures
        device.is_some() == shown_device(ctx@.selected_device, metadata@.value).is_some(),
        device.is_some() ==> *device.unwrap() == shown_device(
            ctx@.selected_device,
            metadata@.value,
        ).unwrap(),
{
    let id = selection_text(ctx.selected_device());
    match metadata.value() {
        Some(Ok(devices)) => match device_index(devices, id.as_str()) {
            Some(k) => Some(&devices[k]),
            None => None,
        },
        _ => None,
    }
}

/// Picks the displayed sensor out of the displayed device.
pub fn displayed_sensor<'a>(ctx: &PageContext, device: Option<&'a Device>) -> (sensor: Option<
    &'a Sensor,
>)
    ensures
        sensor.is_some() == shown_sensor(
            ctx@.selected_sensor,
            match device {
                Some(d) => Some(*d),
                None => None,
            },
        ).is_some(),
        sensor.is_some() ==> *sensor.unwrap() == shown_sensor(
            ctx@.selected_sensor,
            match device {
                Some(d) => Some(*d),
                None => None,
            },
        ).unwrap(),
{
    let id = selection_text(ctx.selected_sensor());
    match device {
        Some(d) => match &d.sensors {
            Some(sensors) => match sensor_index(sensors, id.as_str()) {
                Some(k) => Some(&sensors[k]),
                None => None,
            },
            None => None,
        },
        None => None,
    }
}

/// The panel a device page has on screen.
#[derive(Clone, Copy, PartialEq, Eq, Structural, Debug)]
pub enum Panel {
    /// The metadata has not arrived yet.
    Loading,
    /// The metadata could not be fetched.
    LoadError,
    /// The device list.
    Devices,
    /// The attribute editor of the displayed device.
    DeviceAttributes,
    /// The sensors of the displayed device.
    Sensors,
    /// The attribute editor of the displayed sensor.
    SensorAttributes,
}

/// The panel for a navigation level once the metadata is there.
pub open spec fn panel_of(status: ViewStatus) -> Panel {
    match status {
        ViewStatus::Device => Panel::Devices,
        ViewStatus::DeviceAttr => Panel::DeviceAttributes,
        ViewStatus::Sensor => Panel::Sensors,
        ViewStatus::SensorAttr => Panel::SensorAttributes,
    }
}

/// Chooses the panel: the fetch decides between loading, error and content,
/// and the navigation level decides which content.
pub fn page_panel(ctx: &PageContext, metadata: &Metadata) -> (panel: Panel)
    ensures
        panel == (match metadata@.value {
            None => Panel::Loading,
            Some(Err(_)) => Panel::LoadError,
            Some(Ok(_)) => panel_of(ctx@.view_status),
        }),
{
    match metadata.value() {
        None => Panel::Loading,
        Some(Err(_)) => Panel::LoadError,
        Some(Ok(_)) => match ctx.view_status() {
            ViewStatus::Device => Panel::Devices,
            ViewStatus::DeviceAttr => Panel::DeviceAttributes,
            ViewStatus::Sensor => Panel::Sensors,
            ViewStatus::SensorAttr => Panel::SensorAttributes,
        },
    }
}

/// Whether a panel has what it needs to show its content: the device list
/// needs nothing, a device's panels need the resolved project and endpoint
/// and the displayed device, and a sensor's editor needs the displayed sensor
/// as well. A panel that lacks something shows an error card with a working
/// back button instead.
pub open spec fn has_content(panel: Panel, resolved: bool, device: bool, sensor: bool) -> bool {
    match panel {
        Panel::Loading => false,
        Panel::LoadError => false,
        Panel::Devices => true,
        Panel::DeviceAttributes => resolved && device,
        Panel::Sensors => resolved && device,
        Panel::SensorAttributes => resolved && device && sensor,
    }
}

/// Whether the panel can show its content, given what was found.
pub fn panel_has_content(panel: Panel, resolved: bool, device: bool, sensor: bool) -> (ready: bool)
    ensures
        ready == has_content(panel, resolved, device, sensor),
{
    match panel {
        Panel::Loading => false,
        Panel::LoadError => false,
        Panel::Devices => true,
        Panel::DeviceAttributes => resolved && device,
        Panel::Sensors => resolved && device,
        Panel::SensorAttributes => resolved && device && sensor,
    }
}

} // verus!
