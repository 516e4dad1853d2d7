//! Editing the attribute list of a device or a sensor: a working copy next
//! to the fetched baseline, the update it is saved with, and what the user is
//! told afterwards.

use vstd::prelude::*;
use vstd::string::*;
use crate::fetch::Fetcher;
use crate::model::{
    attributes_equal, attributes_or_empty, attributes_view, clone_attributes, Attribute,
    AttributeView, Device, EditDevice, EditDeviceView, EditSensor, EditSensorView, Sensor,
};
use crate::notice::{NoticeLevel, Notification, NotificationView};

verus! {

/// The part of an attribute that an edit replaces.
#[derive(Clone, Copy, PartialEq, Eq, Structural, Debug)]
pub enum AttributeField {
    Key,
    Value,
}

/// The value of an [`AttributeEditor`].
pub struct AttributeEditorView {
    pub baseline: Seq<AttributeView>,
    pub working: Seq<AttributeView>,
}

/// The attribute with one of its parts replaced.
pub open spec fn with_field(attribute: AttributeView, field: AttributeField, text: Seq<char>)
    -> AttributeView {
    match field {
        AttributeField::Key => AttributeView { key: text, value: attribute.value },
        AttributeField::Value => AttributeView { key: attribute.key, value: text },
    }
}

/// The attribute a new row starts as.
pub open spec fn blank_attribute() -> AttributeView {
    AttributeView { key: Seq::empty(), value: Seq::empty() }
}

/// The editor of one entity's attributes.
#[derive(Debug)]
pub struct AttributeEditor {
    baseline: Vec<Attribute>,
    working: Vec<Attribute>,
}

impl View for AttributeEditor {
    type V = AttributeEditorView;

    closed spec fn view(&self) -> AttributeEditorView {
        AttributeEditorView {
            baseline: attributes_view(self.baseline@),
            working: attributes_view(self.working@),
        }
    }
}

fn attributes_or_default(attributes: &Option<Vec<Attribute>>) -> (list: Vec<Attribute>)
    ensures
        attributes_view(list@) == attributes_or_empty(*attributes),
{
    match attributes {
        Some(list) => clone_attributes(list),
        None => {
            let list: Vec<Attribute> = Vec::new();
            assert(attributes_view(list@) =~= Seq::<AttributeView>::empty());
            list
        },
    }
}

impl AttributeEditor {
    /// An editor that starts from the entity's attributes, an absent list
    /// counting as empty.
    pub fn new(attributes: &Option<Vec<Attribute>>) -> (editor: AttributeEditor)
        ensures
            editor@.baseline == attributes_or_empty(*attributes),
            editor@.working == attributes_or_empty(*attributes),
    {
        AttributeEditor {
            baseline: attributes_or_default(attributes),
            working: attributes_or_default(attributes),
        }
    }

    /// Takes the entity's attributes as fetched anew for the baseline; the
    /// working copy stays as the user left it.
    pub fn rebase(&mut self, attributes: &Option<Vec<Attribute>>)
        ensures
            final(self)@.baseline == attributes_or_empty(*attributes),
            final(self)@.working == old(self)@.working,
    {
        self.baseline = attributes_or_default(attributes);
    }

    /// The working copy.
    pub fn attributes(&self) -> (list: &Vec<Attribute>)
        ensures
            attributes_view(list@) == self@.working,
    {
        &self.working
    }

    /// Appends a blank row.
    pub fn add(&mut self)
        ensures
            final(self)@.working == old(self)@.working.push(blank_attribute()),
            final(self)@.baseline == old(self)@.baseline,
    {
        self.working.push(Attribute { key: String::new(), value: String::new() });
        assert(attributes_view(self.working@) =~= attributes_view(old(self).working@).push(
            blank_attribute(),
        ));
    }

    /// Replaces the key or the value of the row at `index`. An index past the
    /// end changes nothing.
    pub fn update(&mut self, index: usize, field: AttributeField, text: String) -> (applied: bool)
        ensures
            applied == (index < old(self)@.working.len()),
            applied ==> final(self)@.working == old(self)@.working.update(
                index as int,
                with_field(old(self)@.working[index as int], field, text@),
            ),
            !applied ==> final(self)@.working == old(self)@.working,
            final(self)@.baseline == old(self)@.baseline,
    {
        if index >= self.working.len() {
            return false;
        }
        let row = match field {
            AttributeField::Key => Attribute {
                key: text,
                value: self.working[index].value.clone(),
            },
            AttributeField::Value => Attribute {
                key: self.working[index].key.clone(),
                value: text,
            },
        };
        self.working.set(index, row);
        assert(attributes_view(self.working@) =~= attributes_view(old(self).working@).update(
            index as int,
            with_field(attributes_view(old(self).working@)[index as int], field, text@),
        ));
        true
    }

    /// Removes the row at `index`. An index past the end changes nothing.
    pub fn remove(&mut self, index: usize) -> (applied: bool)
        ensures
            applied == (index < old(self)@.working.len()),
            applied ==> final(self)@.working == old(self)@.working.remove(index as int),
            !applied ==> final(self)@.working == old(self)@.working,
            final(self)@.baseline == old(self)@.baseline,
    {
        if index >= self.working.len() {
            return false;
        }
        self.working.remove(index);
        assert(attributes_view(self.working@) =~= attributes_view(old(self).working@).remove(
            index as int,
        ));
        true
    }

    /// Whether the working copy differs from the baseline.
    pub fn is_dirty(&self) -> (dirty: bool)
        ensures
            dirty == (self@.working != self@.baseline),
    {
        !attributes_equal(&self.working, &self.baseline)
    }

    /// The update that saves the working copy to a device: the device's name
    /// and kind, the whole working list, and nothing else.
    pub fn device_payload(&self, device: &Device) -> (payload: EditDevice)
        ensures
            payload@ == (EditDeviceView {
                name: device.name@,
                desc: None,
                kind: device.kind@,
                uri: None,
                lat: None,
                lon: None,
                attributes: Some(self@.working),
            }),
    {
        EditDevice {
            name: device.name.clone(),
            desc: None,
            kind: device.kind.clone(),
            uri: None,
            lat: None,
            lon: None,
            attributes: Some(clone_attributes(&self.working)),
        }
    }

    /// The update that saves the working copy to a sensor: the sensor's name
    /// and kind, the whole working list, and nothing else.
    pub fn sensor_payload(&self, sensor: &Sensor) -> (payload: EditSensor)
        ensures
            payload@ == (EditSensorView {
                name: sensor.name@,
                desc: None,
                kind: sensor.kind,
                uri: None,
                formula: None,
                attributes: Some(self@.working),
            }),
    {
        EditSensor {
            name: sensor.name.clone(),
            desc: None,
            kind: sensor.kind,
            uri: None,
            formula: None,
            attributes: Some(clone_attributes(&self.working)),
        }
    }
}

/// How a save request ended.
#[derive(Clone, Debug, PartialEq, Eq)]
pub enum SaveResponse {
    /// The backend answered; the text of its answer, if it could be read.
    Answered(Option<String>),
    /// The request failed; the transport's message.
    Failed(String),
}

/// The notification a save ends with: the backend's answer for five seconds,
/// or the failure for ten.
pub open spec fn save_notice(response: SaveResponse) -> NotificationView {
    match response {
        SaveResponse::Answered(Some(text)) => NotificationView {
            level: NoticeLevel::Success,
            title: "Updated"@,
            description: Some(text@),
            seconds: 5,
        },
        SaveResponse::Answered(None) => NotificationView {
            level: NoticeLevel::Success,
            title: "Updated"@,
            description: Some("Error parse String"@),
            seconds: 5,
        },
        SaveResponse::Failed(message) => NotificationView {
            level: NoticeLevel::Error,
            title: "Update Failed"@,
            description: Some(message@),
            seconds: 10,
        },
    }
}

/// Whether a save is followed by a fresh fetch of the metadata: after every
/// answer of the backend, and never after a failure.
pub open spec fn save_refreshes(response: SaveResponse) -> bool {
    response is Answered
}

/// What follows a save: the notification, and the number of the metadata
/// fetch that was started, if one was.
#[derive(Clone, Debug, PartialEq, Eq)]
pub struct SaveReport {
    pub notice: Notification,
    pub refresh: Option<u64>,
}

/// Concludes a save. After an answer the metadata is fetched anew, so that
/// the baseline follows the backend; after a failure nothing is touched. The
/// editor's working copy is not involved either way.
pub fn finish_save<T>(response: SaveResponse, metadata: &mut Fetcher<T>) -> (report: SaveReport)
    ensures
        report.notice@ == save_notice(response),
        save_refreshes(response) ==> final(metadata)@ == old(metadata)@.restart(),
        save_refreshes(response) && old(metadata)@.can_start() ==> report.refresh == Some(
            final(metadata)@.issued,
        ),
        save_refreshes(response) && !old(metadata)@.can_start() ==> report.refresh.is_none(),
        !save_refreshes(response) ==> final(metadata)@ == old(metadata)@
            && report.refresh.is_none(),
{
    match response {
        SaveResponse::Answered(body) => {
            let description = match body {
                Some(text) => text,
                None => String::from_str("Error parse String"),
            };
            let refresh = metadata.restart();
            SaveReport {
                notice: Notification {
                    level: NoticeLevel::Success,
                    title: String::from_str("Updated"),
                    description: Some(description),
                    seconds: 5,
                },
                refresh,
            }
        },
        SaveResponse::Failed(message) => SaveReport {
            notice: Notification {
                level: NoticeLevel::Error,
                title: String::from_str("Update Failed"),
                description: Some(message),
                seconds: 10,
            },
            refresh: None,
        },
    }
}

} // verus!
