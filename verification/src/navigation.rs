//! The page's navigation state: which level of the Device → Sensor →
//! Attribute hierarchy is shown, and what is selected on the way there.

use vstd::prelude::*;
use vstd::string::*;
use crate::model::text_view;

verus! {

/// The level of the hierarchy that is on screen.
#[derive(Clone, Copy, PartialEq, Eq, Structural, Debug)]
pub enum ViewStatus {
    /// The device list: nothing is selected.
    Device,
    /// The attributes of the selected device.
    DeviceAttr,
    /// The sensors of the selected device.
    Sensor,
    /// The attributes of the selected sensor of the selected device.
    SensorAttr,
}

/// The value of a [`PageContext`].
pub struct PageContextView {
    pub view_status: ViewStatus,
    pub selected_device: Option<Seq<char>>,
    pub selected_sensor: Option<Seq<char>>,
}

impl PageContextView {
    /// The state a page starts in, and returns to when the project changes.
    pub open spec fn initial() -> PageContextView {
        PageContextView {
            view_status: ViewStatus::Device,
            selected_device: None,
            selected_sensor: None,
        }
    }

    /// A sensor is selected exactly on the sensor-attribute level, and a
    /// device is selected exactly off the device list.
    pub open spec fn consistent(self) -> bool {
        &&& self.selected_sensor.is_some() <==> self.view_status == ViewStatus::SensorAttr
        &&& self.selected_device.is_some() <==> self.view_status != ViewStatus::Device
    }

    /// After a device was picked to see its sensors.
    pub open spec fn view_sensors(self, device_id: Seq<char>) -> PageContextView {
        PageContextView {
            view_status: ViewStatus::Sensor,
            selected_device: Some(device_id),
            ..self
        }
    }

    /// After a device was picked to see its attributes.
    pub open spec fn view_device_attr(self, device_id: Seq<char>) -> PageContextView {
        PageContextView {
            view_status: ViewStatus::DeviceAttr,
            selected_device: Some(device_id),
            ..self
        }
    }

    /// After a sensor was picked to see its attributes.
    pub open spec fn view_sensor_attr(self, sensor_id: Seq<char>) -> PageContextView {
        PageContextView {
            view_status: ViewStatus::SensorAttr,
            selected_sensor: Some(sensor_id),
            ..self
        }
    }

    /// After a sensor's attributes were left for the sensor list.
    pub open spec fn back_to_sensors(self) -> PageContextView {
        PageContextView { view_status: ViewStatus::Sensor, selected_sensor: None, ..self }
    }

    /// One level up: from a sensor's attributes to the sensors, from anywhere
    /// else to the device list.
    pub open spec fn back(self) -> PageContextView {
        if self.view_status == ViewStatus::SensorAttr {
            self.back_to_sensors()
        } else {
            PageContextView::initial()
        }
    }
}

/// What the user can do to the navigation state.
pub enum Transition {
    /// Pick a device and see its sensors.
    ViewSensors(Seq<char>),
    /// Pick a device and see its attributes.
    ViewDeviceAttr(Seq<char>),
    /// Pick a sensor and see its attributes.
    ViewSensorAttr(Seq<char>),
    /// Go one level up.
    Back,
    /// Go to the device list.
    BackToDevice,
    /// Change the project the page is on.
    SwitchProject,
}

/// Whether the page offers the transition in the given state: a device is
/// picked from the device list, a sensor from the sensor list; going back and
/// switching project are always on offer.
pub open spec fn offered(state: PageContextView, transition: Transition) -> bool {
    match transition {
        Transition::ViewSensors(_) => state.view_status == ViewStatus::Device,
        Transition::ViewDeviceAttr(_) => state.view_status == ViewStatus::Device,
        Transition::ViewSensorAttr(_) => state.view_status == ViewStatus::Sensor,
        Transition::Back => true,
        Transition::BackToDevice => true,
        Transition::SwitchProject => true,
    }
}

/// The state after a transition; one that is not on offer changes nothing.
pub open spec fn step(state: PageContextView, transition: Transition) -> PageContextView {
    if !offered(state, transition) {
        state
    } else {
        match transition {
            Transition::ViewSensors(id) => state.view_sensors(id),
            Transition::ViewDeviceAttr(id) => state.view_device_attr(id),
            Transition::ViewSensorAttr(id) => state.view_sensor_attr(id),
            Transition::Back => state.back(),
            Transition::BackToDevice => PageContextView::initial(),
            Transition::SwitchProject => PageContextView::initial(),
        }
    }
}

/// The state after a sequence of transitions, applied in order.
pub open spec fn run(state: PageContextView, transitions: Seq<Transition>) -> PageContextView
    decreases transitions.len(),
{
    if transitions.len() == 0 {
        state
    } else {
        step(run(state, transitions.drop_last()), transitions.last())
    }
}

/// A single transition keeps a consistent state consistent.
pub proof fn lemma_step_keeps_consistency(state: PageContextView, transition: Transition)
    requires
        state.consistent(),
    ensures
        step(state, transition).consistent(),
{
}

/// Every state that can be reached from the initial one is consistent: on the
/// sensor-attribute level both a device and a sensor are selected, and on the
/// device list neither is.
pub proof fn lemma_reachable_states_are_consistent(transitions: Seq<Transition>)
    ensures
        run(PageContextView::initial(), transitions).consistent(),
        run(PageContextView::initial(), transitions).view_status == ViewStatus::SensorAttr ==> run(
            PageContextView::initial(),
            transitions,
        ).selected_sensor.is_some() && run(
            PageContextView::initial(),
            transitions,
        ).selected_device.is_some(),
        run(PageContextView::initial(), transitions).view_status == ViewStatus::Device ==> run(
            PageContextView::initial(),
            transitions,
        ).selected_device.is_none() && run(
            PageContextView::initial(),
            transitions,
        ).selected_sensor.is_none(),
    decreases transitions.len(),
{
    if transitions.len() > 0 {
        lemma_reachable_states_are_consistent(transitions.drop_last());
        lemma_step_keeps_consistency(
            run(PageContextView::initial(), transitions.drop_last()),
            transitions.last(),
        );
    }
}

/// A user action, ready to be applied to a [`PageContext`].
#[derive(Clone, Debug, PartialEq, Eq)]
pub enum NavAction {
    ViewSensors(String),
    ViewDeviceAttr(String),
    ViewSensorAttr(String),
    Back,
    BackToDevice,
    SwitchProject,
}

impl View for NavAction {
    type V = Transition;

    open spec fn view(&self) -> Transition {
        match self {
            NavAction::ViewSensors(id) => Transition::ViewSensors(id@),
            NavAction::ViewDeviceAttr(id) => Transition::ViewDeviceAttr(id@),
            NavAction::ViewSensorAttr(id) => Transition::ViewSensorAttr(id@),
            NavAction::Back => Transition::Back,
            NavAction::BackToDevice => Transition::BackToDevice,
            NavAction::SwitchProject => Transition::SwitchProject,
        }
    }
}

/// The navigation state of one page.
#[derive(Debug, PartialEq, Eq)]
pub struct PageContext {
    view_status: ViewStatus,
    selected_device: Option<String>,
    selected_sensor: Option<String>,
}

impl View for PageContext {
    type V = PageContextView;

    closed spec fn view(&self) -> PageContextView {
        PageContextView {
            view_status: self.view_status,
            selected_device: text_view(self.selected_device),
            selected_sensor: text_view(self.selected_sensor),
        }
    }
}

impl Clone for PageContext {
    fn clone(&self) -> (res: Self)
        ensures
            res@ == self@,
    {
        PageContext {
            view_status: self.view_status,
            selected_device: crate::model::clone_text(&self.selected_device),
            selected_sensor: crate::model::clone_text(&self.selected_sensor),
        }
    }
}

impl PageContext {
    /// A page on the device list with nothing selected.
    pub fn new() -> (ctx: PageContext)
        ensures
            ctx@ == PageContextView::initial(),
    {
        PageContext {
            view_status: ViewStatus::Device,
            selected_device: None,
            selected_sensor: None,
        }
    }

    /// The level on screen.
    pub fn view_status(&self) -> (status: ViewStatus)
        ensures
            status == self@.view_status,
    {
        self.view_status
    }

    /// The id of the selected device, if one is selected.
    pub fn selected_device(&self) -> (id: Option<&String>)
        ensures
            id.is_some() == self@.selected_device.is_some(),
            id.is_some() ==> id.unwrap()@ == self@.selected_device.unwrap(),
    {
        self.selected_device.as_ref()
    }

    /// The id of the selected sensor, if one is selected.
    pub fn selected_sensor(&self) -> (id: Option<&String>)
        ensures
            id.is_some() == self@.selected_sensor.is_some(),
            id.is_some() ==> id.unwrap()@ == self@.selected_sensor.unwrap(),
    {
        self.selected_sensor.as_ref()
    }

    /// Returns to the device list and drops both selections.
    pub fn back_to_device(&mut self)
        ensures
            final(self)@ == PageContextView::initial(),
    {
        self.selected_device = None;
        self.selected_sensor = None;
        self.view_status = ViewStatus::Device;
    }

    /// Selects a device and shows its sensors. Offered on the device list,
    /// from where the state stays consistent.
    pub fn view_sensors(&mut self, selected_device: &str)
        ensures
            final(self)@ == old(self)@.view_sensors(selected_device@),
            old(self)@.consistent() && old(self)@.view_status == ViewStatus::Device 
                ==> final(self)@.consistent(),
    {
        self.selected_device = Some(String::from_str(selected_device));
        self.view_status = ViewStatus::Sensor;
    }

    /// Selects a sensor and shows its attributes. Offered on the sensor list,
    /// from where the state stays consistent.
    pub fn view_sensor_attr(&mut self, selected_sensor: &str)
        ensures
            final(self)@ == old(self)@.view_sensor_attr(selected_sensor@),
            old(self)@.consistent() && old(self)@.view_status == ViewStatus::Sensor 
                ==> final(self)@.consistent(),
    {
        self.selected_sensor = Some(String::from_str(selected_sensor));
        self.view_status = ViewStatus::SensorAttr;
    }

    /// Leaves a sensor's attributes for the sensor list, keeping the device.
    pub fn back_to_sensors(&mut self)
        ensures
            final(self)@ == old(self)@.back_to_sensors(),
            old(self)@.consistent() && old(self)@.view_status == ViewStatus::SensorAttr 
                ==> final(self)@.consistent(),
    {
        self.selected_sensor = None;
        self.view_status = ViewStatus::Sensor;
    }

    /// Selects a device and shows its attributes. Offered on the device list,
    /// from where the state stays consistent.
    pub fn view_device_attr(&mut self, selected_device: &str)
        ensures
            final(self)@ == old(self)@.view_device_attr(selected_device@),
            old(self)@.consistent() && old(self)@.view_status == ViewStatus::Device 
                ==> final(self)@.consistent(),
    {
        self.selected_device = Some(String::from_str(selected_device));
        self.view_status = ViewStatus::DeviceAttr;
    }

    /// Goes one level up.
    pub fn back(&mut self)
        ensures
            final(self)@ == old(self)@.back(),
            old(self)@.consistent() ==> final(self)@.consistent(),
    {
        match self.view_status {
            ViewStatus::SensorAttr => self.back_to_sensors(),
            _ => self.back_to_device(),
        }
    }

    /// Starts over on the device list, as a change of project demands.
    pub fn reset(&mut self)
        ensures
            final(self)@ == PageContextView::initial(),
    {
        self.back_to_device();
    }

    /// Applies a user action if the page offers it in the current state and
    /// ignores it otherwise, so that a consistent state stays consistent
    /// whatever arrives.
    pub fn apply(&mut self, action: &NavAction) -> (applied: bool)
        ensures
            applied == offered(old(self)@, action@),
            final(self)@ == step(old(self)@, action@),
            old(self)@.consistent() ==> final(self)@.consistent(),
    {
        match action {
            NavAction::ViewSensors(id) => {
                if self.view_status == ViewStatus::Device {
                    self.view_sensors(id.as_str());
                    true
                } else {
                    false
                }
            },
            NavAction::ViewDeviceAttr(id) => {
                if self.view_status == ViewStatus::Device {
                    self.view_device_attr(id.as_str());
                    true
                } else {
                    false
                }
            },
            NavAction::ViewSensorAttr(id) => {
                if self.view_status == ViewStatus::Sensor {
                    self.view_sensor_attr(id.as_str());
                    true
                } else {
                    false
                }
            },
            NavAction::Back => {
                self.back();
                true
            },
            NavAction::BackToDevice => {
                self.back_to_device();
                true
            },
            NavAction::SwitchProject => {
                self.reset();
                true
            },
        }
    }
}

} // verus!
