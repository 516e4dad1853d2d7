//! Backend endpoints and the URL of every operation they offer.
//!
//! An endpoint is a base URL plus a variant tag. Every operation's URL is the
//! base URL followed by a fixed path template; the variants differ only in the
//! template used for snapshot retrieval.

use vstd::prelude::*;
use vstd::string::*;

verus! {

/// `{base}/metadata`
pub open spec fn metadata_url(base: Seq<char>) -> Seq<char> {
    base + "/metadata"@
}

/// `{base}/device/{device_id}`
pub open spec fn device_url(base: Seq<char>, device_id: Seq<char>) -> Seq<char> {
    base + "/device/"@ + device_id
}

/// `{base}/device/{device_id}/sensor/{sensor_id}`
pub open spec fn sensor_url(base: Seq<char>, device_id: Seq<char>, sensor_id: Seq<char>) -> Seq<
    char,
> {
    device_url(base, device_id) + "/sensor/"@ + sensor_id
}

/// `{base}/device/{device_id}/rawdata`
pub open spec fn rawdata_url(base: Seq<char>, device_id: Seq<char>) -> Seq<char> {
    device_url(base, device_id) + "/rawdata"@
}

/// `{root}/device/{device_id}/sensor/{sensor_id}/snapshot/{snapshot_id}`, where
/// `root` is the variant's snapshot root.
pub open spec fn snapshot_url(
    root: Seq<char>,
    device_id: Seq<char>,
    sensor_id: Seq<char>,
    snapshot_id: Seq<char>,
) -> Seq<char> {
    sensor_url(root, device_id, sensor_id) + "/snapshot/"@ + snapshot_id
}

/// `{base}/device/{device_id}/active`
pub open spec fn active_url(base: Seq<char>, device_id: Seq<char>) -> Seq<char> {
    device_url(base, device_id) + "/active"@
}

/// `{base}/device/{device_id}/active/setting`
pub open spec fn active_setting_url(base: Seq<char>, device_id: Seq<char>) -> Seq<char> {
    device_url(base, device_id) + "/active/setting"@
}

/// `{base}/device/{device_id}/active/notify`
pub open spec fn active_notify_url(base: Seq<char>, device_id: Seq<char>) -> Seq<char> {
    device_url(base, device_id) + "/active/notify"@
}

/// The snapshot root of an edge deployment: `{base}/snapshot`.
pub open spec fn edge_snapshot_root(base: Seq<char>) -> Seq<char> {
    base + "/snapshot"@
}

/// The capability every endpoint variant offers: one URL per backend
/// operation. Callers never branch on the variant.
pub trait EndpointTrait {
    /// The stored base URL, exactly as configured (no trimming).
    spec fn spec_baseurl(&self) -> Seq<char>;

    /// The prefix under which this variant serves snapshots.
    spec fn spec_snapshot_root(&self) -> Seq<char>;

    /// The variant's human-readable label.
    spec fn spec_kind(&self) -> Seq<char>;

    fn active_notify(&self, device_id: &str) -> (url: String)
        ensures
            url@ == active_notify_url(self.spec_baseurl(), device_id@),
    ;

    fn active_setting(&self, device_id: &str) -> (url: String)
        ensures
            url@ == active_setting_url(self.spec_baseurl(), device_id@),
    ;

    fn active(&self, device_id: &str) -> (url: String)
        ensures
            url@ == active_url(self.spec_baseurl(), device_id@),
    ;

    fn sensor(&self, device_id: &str, sensor_id: &str) -> (url: String)
        ensures
            url@ == sensor_url(self.spec_baseurl(), device_id@, sensor_id@),
    ;

    fn metadata(&self) -> (url: String)
        ensures
            url@ == metadata_url(self.spec_baseurl()),
    ;

    fn rawdata(&self, device_id: &str) -> (url: String)
        ensures
            url@ == rawdata_url(self.spec_baseurl(), device_id@),
    ;

    fn snapshot(&self, device_id: &str, sensor_id: &str, snapshot_id: &str) -> (url: String)
        ensures
            url@ == snapshot_url(self.spec_snapshot_root(), device_id@, sensor_id@, snapshot_id@),
    ;

    fn baseurl(&self) -> (url: String)
        ensures
            url@ == self.spec_baseurl(),
    ;

    fn kind(&self) -> (label: String)
        ensures
            label@ == self.spec_kind(),
    ;

    fn device(&self, device_id: &str) -> (url: String)
        ensures
            url@ == device_url(self.spec_baseurl(), device_id@),
    ;
}

/// Builds `{base}/device/{device_id}`, the stem shared by every per-device URL.
fn device_stem(base: &String, device_id: &str) -> (url: String)
    ensures
        url@ == device_url(base@, device_id@),
{
    let mut url = base.clone();
    url.append("/device/");
    url.append(device_id);
    url
}

/// Builds `{root}/device/{device_id}/sensor/{sensor_id}`.
fn sensor_stem(root: &String, device_id: &str, sensor_id: &str) -> (url: String)
    ensures
        url@ == sensor_url(root@, device_id@, sensor_id@),
{
    let mut url = device_stem(root, device_id);
    url.append("/sensor/");
    url.append(sensor_id);
    url
}

/// A general deployment: snapshots live under the sensor they belong to.
#[derive(Debug, Default, PartialEq, Eq)]
pub struct GeneralEndpoint {
    pub base_url: String,
}

impl Clone for GeneralEndpoint {
    fn clone(&self) -> (res: Self)
        ensures
            res == *self,
    {
        GeneralEndpoint { base_url: self.base_url.clone() }
    }
}

impl EndpointTrait for GeneralEndpoint {
    open spec fn spec_baseurl(&self) -> Seq<char> {
        self.base_url@
    }

    open spec fn spec_snapshot_root(&self) -> Seq<char> {
        self.base_url@
    }

    open spec fn spec_kind(&self) -> Seq<char> {
        "General"@
    }

    fn metadata(&self) -> (url: String)
        ensures
            url@ == metadata_url(self.base_url@),
    {
        let mut url = self.base_url.clone();
        url.append("/metadata");
        url
    }

    fn rawdata(&self, device_id: &str) -> (url: String)
        ensures
            url@ == rawdata_url(self.base_url@, device_id@),
    {
        let mut url = device_stem(&self.base_url, device_id);
        url.append("/rawdata");
        url
    }

    fn snapshot(&self, device_id: &str, sensor_id: &str, snapshot_id: &str) -> (url: String)
        ensures
            url@ == snapshot_url(self.base_url@, device_id@, sensor_id@, snapshot_id@),
    {
        let mut url = sensor_stem(&self.base_url, device_id, sensor_id);
        url.append("/snapshot/");
        url.append(snapshot_id);
        url
    }

    fn baseurl(&self) -> (url: String)
        ensures
            url@ == self.base_url@,
    {
        self.base_url.clone()
    }

    fn kind(&self) -> (label: String)
        ensures
            label@ == "General"@,
    {
        String::from_str("General")
    }

    fn device(&self, device_id: &str) -> (url: String)
        ensures
            url@ == device_url(self.base_url@, device_id@),
    {
        device_stem(&self.base_url, device_id)
    }

    fn sensor(&self, device_id: &str, sensor_id: &str) -> (url: String)
        ensures
            url@ == sensor_url(self.base_url@, device_id@, sensor_id@),
    {
        sensor_stem(&self.base_url, device_id, sensor_id)
    }

    fn active(&self, device_id: &str) -> (url: String)
        ensures
            url@ == active_url(self.base_url@, device_id@),
    {
        let mut url = device_stem(&self.base_url, device_id);
        url.append("/active");
        url
    }

    fn active_setting(&self, device_id: &str) -> (url: String)
        ensures
            url@ == active_setting_url(self.base_url@, device_id@),
    {
        let mut url = device_stem(&self.base_url, device_id);
        url.append("/active/setting");
        url
    }

    fn active_notify(&self, device_id: &str) -> (url: String)
        ensures
            url@ == active_notify_url(self.base_url@, device_id@),
    {
        let mut url = device_stem(&self.base_url, device_id);
        url.append("/active/notify");
        url
    }
}

/// An edge deployment: snapshots live under an extra `/snapshot` segment
/// directly below the base URL.
#[derive(Debug, Default, PartialEq, Eq)]
pub struct EdgeEndpoint {
    pub base_url: String,
}

impl Clone for EdgeEndpoint {
    fn clone(&self) -> (res: Self)
        ensures
            res == *self,
    {
        EdgeEndpoint { base_url: self.base_url.clone() }
    }
}

impl EndpointTrait for EdgeEndpoint {
    open spec fn spec_baseurl(&self) -> Seq<char> {
        self.base_url@
    }

    open spec fn spec_snapshot_root(&self) -> Seq<char> {
        edge_snapshot_root(self.base_url@)
    }

    open spec fn spec_kind(&self) -> Seq<char> {
        "Edge"@
    }

    fn sensor(&self, device_id: &str, sensor_id: &str) -> (url: String)
        ensures
            url@ == sensor_url(self.base_url@, device_id@, sensor_id@),
    {
        sensor_stem(&self.base_url, device_id, sensor_id)
    }

    fn metadata(&self) -> (url: String)
        ensures
            url@ == metadata_url(self.base_url@),
    {
        let mut url = self.base_url.clone();
        url.append("/metadata");
        url
    }

    fn rawdata(&self, device_id: &str) -> (url: String)
        ensures
            url@ == rawdata_url(self.base_url@, device_id@),
    {
        let mut url = device_stem(&self.base_url, device_id);
        url.append("/rawdata");
        url
    }

    fn snapshot(&self, device_id: &str, sensor_id: &str, snapshot_id: &str) -> (url: String)
        ensures
            url@ == snapshot_url(edge_snapshot_root(self.base_url@), device_id@, sensor_id@, snapshot_id@),
    {
        let mut root = self.base_url.clone();
        root.append("/snapshot");
        let mut url = sensor_stem(&root, device_id, sensor_id);
        url.append("/snapshot/");
        url.append(snapshot_id);
        url
    }

    fn baseurl(&self) -> (url: String)
        ensures
            url@ == self.base_url@,
    {
        self.base_url.clone()
    }

    fn kind(&self) -> (label: String)
        ensures
            label@ == "Edge"@,
    {
        String::from_str("Edge")
    }

    fn device(&self, device_id: &str) -> (url: String)
        ensures
            url@ == device_url(self.base_url@, device_id@),
    {
        device_stem(&self.base_url, device_id)
    }

    fn active_notify(&self, device_id: &str) -> (url: String)
        ensures
            url@ == active_notify_url(self.base_url@, device_id@),
    {
        let mut url = device_stem(&self.base_url, device_id);
        url.append("/active/notify");
        url
    }

    fn active_setting(&self, device_id: &str) -> (url: String)
        ensures
            url@ == active_setting_url(self.base_url@, device_id@),
    {
        let mut url = device_stem(&self.base_url, device_id);
        url.append("/active/setting");
        url
    }

    fn active(&self, device_id: &str) -> (url: String)
        ensures
            url@ == active_url(self.base_url@, device_id@),
    {
        let mut url = device_stem(&self.base_url, device_id);
        url.append("/active");
        url
    }
}

/// A configured backend: the closed set of deployment variants.
#[derive(Debug, PartialEq, Eq)]
pub enum Endpoint {
    General(GeneralEndpoint),
    Edge(EdgeEndpoint),
}

impl Clone for Endpoint {
    fn clone(&self) -> (res: Self)
        ensures
            res == *self,
    {
        match self {
            Endpoint::General(endpoint) => Endpoint::General(endpoint.clone()),
            Endpoint::Edge(endpoint) => Endpoint::Edge(endpoint.clone()),
        }
    }
}

impl EndpointTrait for Endpoint {
    open spec fn spec_baseurl(&self) -> Seq<char> {
        match self {
            Endpoint::General(endpoint) => endpoint.spec_baseurl(),
            Endpoint::Edge(endpoint) => endpoint.spec_baseurl(),
        }
    }

    open spec fn spec_snapshot_root(&self) -> Seq<char> {
        match self {
            Endpoint::General(endpoint) => endpoint.spec_snapshot_root(),
            Endpoint::Edge(endpoint) => endpoint.spec_snapshot_root(),
        }
    }

    open spec fn spec_kind(&self) -> Seq<char> {
        match self {
            Endpoint::General(endpoint) => endpoint.spec_kind(),
            Endpoint::Edge(endpoint) => endpoint.spec_kind(),
        }
    }

    fn metadata(&self) -> (url: String)
        ensures
            url@ == metadata_url(self.spec_baseurl()),
    {
        match self {
            Endpoint::General(endpoint) => endpoint.metadata(),
            Endpoint::Edge(endpoint) => endpoint.metadata(),
        }
    }

    fn rawdata(&self, device_id: &str) -> (url: String)
        ensures
            url@ == rawdata_url(self.spec_baseurl(), device_id@),
    {
        match self {
            Endpoint::General(endpoint) => endpoint.rawdata(device_id),
            Endpoint::Edge(endpoint) => endpoint.rawdata(device_id),
        }
    }

    fn snapshot(&self, device_id: &str, sensor_id: &str, snapshot_id: &str) -> (url: String)
        ensures
            url@ == snapshot_url(self.spec_snapshot_root(), device_id@, sensor_id@, snapshot_id@),
    {
        match self {
            Endpoint::General(endpoint) => endpoint.snapshot(device_id, sensor_id, snapshot_id),
            Endpoint::Edge(endpoint) => endpoint.snapshot(device_id, sensor_id, snapshot_id),
        }
    }

    fn baseurl(&self) -> (url: String)
        ensures
            url@ == self.spec_baseurl(),
    {
        match self {
            Endpoint::General(endpoint) => endpoint.baseurl(),
            Endpoint::Edge(endpoint) => endpoint.baseurl(),
        }
    }

    fn kind(&self) -> (label: String)
        ensures
            label@ == self.spec_kind(),
    {
        match self {
            Endpoint::General(endpoint) => endpoint.kind(),
            Endpoint::Edge(endpoint) => endpoint.kind(),
        }
    }

    fn device(&self, device_id: &str) -> (url: String)
        ensures
            url@ == device_url(self.spec_baseurl(), device_id@),
    {
        match self {
            Endpoint::General(endpoint) => endpoint.device(device_id),
            Endpoint::Edge(endpoint) => endpoint.device(device_id),
        }
    }

    fn sensor(&self, device_id: &str, sensor_id: &str) -> (url: String)
        ensures
            url@ == sensor_url(self.spec_baseurl(), device_id@, sensor_id@),
    {
        match self {
            Endpoint::General(endpoint) => endpoint.sensor(device_id, sensor_id),
            Endpoint::Edge(endpoint) => endpoint.sensor(device_id, sensor_id),
        }
    }

    fn active_notify(&self, device_id: &str) -> (url: String)
        ensures
            url@ == active_notify_url(self.spec_baseurl(), device_id@),
    {
        match self {
            Endpoint::General(endpoint) => endpoint.active_notify(device_id),
            Endpoint::Edge(endpoint) => endpoint.active_notify(device_id),
        }
    }

    fn active_setting(&self, device_id: &str) -> (url: String)
        ensures
            url@ == active_setting_url(self.spec_baseurl(), device_id@),
    {
        match self {
            Endpoint::General(endpoint) => endpoint.active_setting(device_id),
            Endpoint::Edge(endpoint) => endpoint.active_setting(device_id),
        }
    }

    fn active(&self, device_id: &str) -> (url: String)
        ensures
            url@ == active_url(self.spec_baseurl(), device_id@),
    {
        match self {
            Endpoint::General(endpoint) => endpoint.active(device_id),
            Endpoint::Edge(endpoint) => endpoint.active(device_id),
        }
    }
}

/// Two endpoints with the same base URL agree on the metadata, device, sensor,
/// raw-data and active-status URLs, whatever their variants.
pub proof fn lemma_variants_share_templates(
    a: Endpoint,
    b: Endpoint,
    device_id: Seq<char>,
    sensor_id: Seq<char>,
)
    requires
        a.spec_baseurl() == b.spec_baseurl(),
    ensures
        metadata_url(a.spec_baseurl()) == metadata_url(b.spec_baseurl()),
        device_url(a.spec_baseurl(), device_id) == device_url(b.spec_baseurl(), device_id),
        sensor_url(a.spec_baseurl(), device_id, sensor_id) == sensor_url(
            b.spec_baseurl(),
            device_id,
            sensor_id,
        ),
        rawdata_url(a.spec_baseurl(), device_id) == rawdata_url(b.spec_baseurl(), device_id),
        active_url(a.spec_baseurl(), device_id) == active_url(b.spec_baseurl(), device_id),
        active_setting_url(a.spec_baseurl(), device_id) == active_setting_url(
            b.spec_baseurl(),
            device_id,
        ),
        active_notify_url(a.spec_baseurl(), device_id) == active_notify_url(
            b.spec_baseurl(),
            device_id,
        ),
{
}

/// Two endpoints with the same base URL differ in the shape of their
/// snapshot URLs exactly when their variants differ: an edge endpoint's URL
/// is the general one with `/snapshot` put in after the base URL, and so is
/// longer by nine characters.
pub proof fn lemma_snapshot_shape_differs(
    a: Endpoint,
    b: Endpoint,
    device_id: Seq<char>,
    sensor_id: Seq<char>,
    snapshot_id: Seq<char>,
)
    requires
        a.spec_baseurl() == b.spec_baseurl(),
    ensures
        (a is General) == (b is General) ==> snapshot_url(
            a.spec_snapshot_root(),
            device_id,
            sensor_id,
            snapshot_id,
        ) == snapshot_url(b.spec_snapshot_root(), device_id, sensor_id, snapshot_id),
        a is General && b is Edge ==> {
            &&& snapshot_url(b.spec_snapshot_root(), device_id, sensor_id, snapshot_id)
                == snapshot_url(
                a.spec_baseurl() + "/snapshot"@,
                device_id,
                sensor_id,
                snapshot_id,
            )
            &&& snapshot_url(b.spec_snapshot_root(), device_id, sensor_id, snapshot_id).len()
                == snapshot_url(a.spec_snapshot_root(), device_id, sensor_id, snapshot_id).len()
                + 9
            &&& snapshot_url(b.spec_snapshot_root(), device_id, sensor_id, snapshot_id)
                != snapshot_url(a.spec_snapshot_root(), device_id, sensor_id, snapshot_id)
        },
{
    reveal_strlit("/snapshot");
}

} // verus!
