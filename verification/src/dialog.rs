//! The dialogs that add and delete directory entries: what they hold while
//! open, and what submitting or confirming them does to the directory.

use vstd::prelude::*;
use vstd::string::*;
use crate::directory::{
    added_notice, create_endpoint, create_project, name_is_free, refused_notice, without_name,
    Endpoints, Projects,
};
use crate::notice::{NoticeLevel, Notification};

verus! {

/// The dialog that registers an endpoint.
#[derive(Clone, Debug, Default, PartialEq, Eq)]
pub struct NewEndpointInfo {
    pub name: String,
    pub endpoint_url: String,
    pub is_open: bool,
}

impl NewEndpointInfo {
    /// Opens the dialog with empty fields.
    pub fn open_dialog(&mut self)
        ensures
            final(self).name@ == Seq::<char>::empty(),
            final(self).endpoint_url@ == Seq::<char>::empty(),
            final(self).is_open,
    {
        self.name = String::new();
        self.endpoint_url = String::new();
        self.is_open = true;
    }
}

/// The dialog that asks before an endpoint is deleted.
#[derive(Clone, Debug, Default, PartialEq, Eq)]
pub struct DeleteInfo {
    pub is_open: bool,
    pub target: String,
}

impl DeleteInfo {
    /// Opens the dialog for the entry of that name.
    pub fn prompt_delete(&mut self, target: &str)
        ensures
            final(self).target@ == target@,
            final(self).is_open,
    {
        self.target = String::from_str(target);
        self.is_open = true;
    }
}

/// The dialog that registers a project.
#[derive(Clone, Debug, Default, PartialEq, Eq)]
pub struct AddProjectCtx {
    pub is_open: bool,
    pub name: String,
    pub project_key: String,
    pub endpoint_key: String,
}

impl AddProjectCtx {
    /// Opens the dialog with empty fields.
    pub fn open_dialog(&mut self)
        ensures
            final(self).name@ == Seq::<char>::empty(),
            final(self).project_key@ == Seq::<char>::empty(),
            final(self).endpoint_key@ == Seq::<char>::empty(),
            final(self).is_open,
    {
        self.name = String::new();
        self.project_key = String::new();
        self.endpoint_key = String::new();
        self.is_open = true;
    }
}

/// The dialog that asks before a project is deleted.
#[derive(Clone, Debug, Default, PartialEq, Eq)]
pub struct DeleteCtx {
    pub is_open: bool,
    pub target: String,
}

impl DeleteCtx {
    /// Opens the dialog for the entry of that name.
    pub fn prompt_delete(&mut self, target: &str)
        ensures
            final(self).target@ == target@,
            final(self).is_open,
    {
        self.target = String::from_str(target);
        self.is_open = true;
    }
}

/// Submits the endpoint dialog. A free name registers a general endpoint
/// with the entered URL, empties the fields and closes the dialog. An empty
/// or taken name changes neither the directory nor the dialog, so that the
/// user can correct the name and submit again.
pub fn submit_new_endpoint(info: &mut NewEndpointInfo, endpoints: &mut Endpoints) -> (notice:
    Notification)
    requires
        old(endpoints).wf(),
    ensures
        final(endpoints).wf(),
        name_is_free(old(endpoints)@, old(info).name@) ==> {
            &&& final(endpoints)@.dom() == old(endpoints)@.dom().insert(old(info).name@)
            &&& final(endpoints)@[old(info).name@] is General
            &&& final(endpoints)@[old(info).name@]->General_0.base_url@ == old(info).endpoint_url@
            &&& forall|other: Seq<char>|
                old(endpoints)@.contains_key(other) ==> final(endpoints)@[other] == old(
                    endpoints,
                )@[other]
            &&& final(endpoints).names() == old(endpoints).names().push(old(info).name@)
            &&& notice@ == added_notice("endpoint"@, old(info).name@)
            &&& final(info).name@ == Seq::<char>::empty()
            &&& final(info).endpoint_url@ == Seq::<char>::empty()
            &&& !final(info).is_open
        },
        !name_is_free(old(endpoints)@, old(info).name@) ==> {
            &&& final(endpoints)@ == old(endpoints)@
            &&& final(endpoints).names() == old(endpoints).names()
            &&& notice@ == refused_notice("endpoint"@)
            &&& *final(info) == *old(info)
        },
{
    let notice = create_endpoint(endpoints, info.name.clone(), info.endpoint_url.clone());
    if notice.level == NoticeLevel::Success {
        info.name = String::new();
        info.endpoint_url = String::new();
        info.is_open = false;
    }
    notice
}

/// Submits the project dialog. A free name registers the project with the
/// entered key and endpoint name, empties the fields and closes the dialog.
/// An empty or taken name changes neither the directory nor the dialog.
pub fn submit_new_project(ctx: &mut AddProjectCtx, projects: &mut Projects) -> (notice:
    Notification)
    requires
        old(projects).wf(),
    ensures
        final(projects).wf(),
        name_is_free(old(projects)@, old(ctx).name@) ==> {
            &&& final(projects)@.dom() == old(projects)@.dom().insert(old(ctx).name@)
            &&& final(projects)@[old(ctx).name@].project_key@ == old(ctx).project_key@
            &&& final(projects)@[old(ctx).name@].endpoint_key@ == old(ctx).endpoint_key@
            &&& forall|other: Seq<char>|
                old(projects)@.contains_key(other) ==> final(projects)@[other] == old(
                    projects,
                )@[other]
            &&& final(projects).names() == old(projects).names().push(old(ctx).name@)
            &&& notice@ == added_notice("project"@, old(ctx).name@)
            &&& final(ctx).name@ == Seq::<char>::empty()
            &&& final(ctx).project_key@ == Seq::<char>::empty()
            &&& final(ctx).endpoint_key@ == Seq::<char>::empty()
            &&& !final(ctx).is_open
        },
        !name_is_free(old(projects)@, old(ctx).name@) ==> {
            &&& final(projects)@ == old(projects)@
            &&& final(projects).names() == old(projects).names()
            &&& notice@ == refused_notice("project"@)
            &&& *final(ctx) == *old(ctx)
        },
{
    let notice = create_project(
        projects,
        ctx.name.clone(),
        ctx.project_key.clone(),
        ctx.endpoint_key.clone(),
    );
    if notice.level == NoticeLevel::Success {
        ctx.name = String::new();
        ctx.project_key = String::new();
        ctx.endpoint_key = String::new();
        ctx.is_open = false;
    }
    notice
}

/// Confirms the deletion of an endpoint: the entry of the dialog's target
/// leaves the directory, if it is there, and the dialog closes.
pub fn confirm_delete_endpoint(info: &mut DeleteInfo, endpoints: &mut Endpoints)
    requires
        old(endpoints).wf(),
    ensures
        final(endpoints).wf(),
        final(endpoints)@ == old(endpoints)@.remove(old(info).target@),
        final(endpoints).names() == without_name(old(endpoints).names(), old(info).target@),
        final(info).target@ == Seq::<char>::empty(),
        !final(info).is_open,
{
    endpoints.remove(info.target.as_str());
    info.target = String::new();
    info.is_open = false;
}

/// Confirms the deletion of a project: the entry of the dialog's target
/// leaves the directory, if it is there, and the dialog closes.
pub fn confirm_delete_project(ctx: &mut DeleteCtx, projects: &mut Projects)
    requires
        old(projects).wf(),
    ensures
        final(projects).wf(),
        final(projects)@ == old(projects)@.remove(old(ctx).target@),
        final(projects).names() == without_name(old(projects).names(), old(ctx).target@),
        final(ctx).target@ == Seq::<char>::empty(),
        !final(ctx).is_open,
{
    projects.remove(ctx.target.as_str());
    ctx.target = String::new();
    ctx.is_open = false;
}

} // verus!
