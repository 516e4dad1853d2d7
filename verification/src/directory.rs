//! The directory of endpoints and projects: named entries, each name used at
//! most once, listed in the order in which they were added.

use vstd::prelude::*;
use vstd::string::*;
use vstd::hash_map::StringHashMap;
use crate::endpoint::{Endpoint, GeneralEndpoint};
use crate::error::ErrorKind;
use crate::model::{texts_view, Project};
use crate::notice::{NoticeLevel, Notification, NotificationView};

verus! {

/// A keyed store of named entries. Its value is the map from names to
/// entries; `names` lists the same names once each.
#[verifier::reject_recursive_types(V)]
pub struct Directory<V> {
    names: Vec<String>,
    entries: StringHashMap<V>,
}

impl<V> View for Directory<V> {
    type V = Map<Seq<char>, V>;

    closed spec fn view(&self) -> Map<Seq<char>, V> {
        self.entries@
    }
}

/// The list without its entry at the first position that holds `name`; the
/// list itself where no position does.
pub open spec fn without_name(names: Seq<Seq<char>>, name: Seq<char>) -> Seq<Seq<char>> {
    if names.contains(name) {
        names.remove(names.index_of(name))
    } else {
        names
    }
}

impl<V> Directory<V> {
    /// The names in the directory, oldest first.
    pub closed spec fn names(&self) -> Seq<Seq<char>> {
        texts_view(self.names@)
    }

    /// The listed names are exactly the keys of the map, each listed once.
    pub closed spec fn wf(&self) -> bool {
        &&& self.names().no_duplicates()
        &&& forall|name: Seq<char>| #[trigger]
            self.names().contains(name) <==> self@.contains_key(name)
    }

    /// In a well-formed directory the listed names are the keys of the map,
    /// each listed once, so there are as many names as entries.
    pub proof fn lemma_names_are_keys(&self)
        requires
            self.wf(),
        ensures
            self.names().no_duplicates(),
            forall|name: Seq<char>| #[trigger]
                self.names().contains(name) <==> self@.contains_key(name),
            self@.dom().finite(),
            self.names().len() == self@.len(),
    {
        let names = self.names();
        assert(names.to_set() =~= self@.dom());
        names.unique_seq_to_set();
        vstd::seq_lib::seq_to_set_is_finite(names);
    }

    /// An empty directory.
    pub fn new() -> (dir: Directory<V>)
        ensures
            dir.wf(),
            dir@ == Map::<Seq<char>, V>::empty(),
            dir.names() == Seq::<Seq<char>>::empty(),
    {
        let dir = Directory { names: Vec::new(), entries: StringHashMap::new() };
        assert(dir.names() =~= Seq::<Seq<char>>::empty());
        dir
    }

    /// The number of entries.
    pub fn len(&self) -> (n: usize)
        ensures
            n == self.names().len(),
            self.wf() ==> n == self@.len(),
    {
        proof {
            if self.wf() {
                self.lemma_names_are_keys();
            }
        }
        self.names.len()
    }

    /// Whether the directory holds no entry.
    pub fn is_empty(&self) -> (empty: bool)
        ensures
            empty == (self.names().len() == 0),
            self.wf() ==> empty == (self@.len() == 0),
    {
        proof {
            if self.wf() {
                self.lemma_names_are_keys();
            }
        }
        self.names.len() == 0
    }

    /// Whether an entry of that name exists.
    pub fn contains_key(&self, name: &str) -> (found: bool)
        ensures
            found == self@.contains_key(name@),
    {
        self.entries.contains_key(name)
    }

    /// The entry of that name, if there is one.
    pub fn get(&self, name: &str) -> (entry: Option<&V>)
        ensures
            entry.is_some() == self@.contains_key(name@),
            entry.is_some() ==> *entry.unwrap() == self@[name@],
    {
        self.entries.get(name)
    }

    /// The names in the directory, oldest first.
    pub fn keys(&self) -> (names: Vec<String>)
        ensures
            texts_view(names@) == self.names(),
    {
        crate::model::clone_texts(&self.names)
    }

    /// Adds an entry under a name that is not yet taken. A taken name is
    /// refused and the directory stays as it is: nothing is ever overwritten.
    pub fn insert(&mut self, name: String, entry: V) -> (inserted: bool)
        requires
            old(self).wf(),
        ensures
            final(self).wf(),
            inserted == !old(self)@.contains_key(name@),
            inserted ==> final(self)@ == old(self)@.insert(name@, entry) && final(self).names()
                == old(self).names().push(name@),
            !inserted ==> final(self)@ == old(self)@ && final(self).names() == old(self).names(),
    {
        if self.entries.contains_key(name.as_str()) {
            return false;
        }
        let ghost before = self.names();
        assert(!before.contains(name@));
        self.entries.insert(name.clone(), entry);
        self.names.push(name);
        proof {
            assert(self.names() =~= before.push(name@));
            assert forall|other: Seq<char>| #[trigger]
                self.names().contains(other) <==> self@.contains_key(other) by {
                if other == name@ {
                    assert(self.names()[before.len() as int] == other);
                } else if before.contains(other) {
                    let i = choose|i: int| 0 <= i < before.len() && before[i] == other;
                    assert(self.names()[i] == other);
                }
            }
        }
        true
    }

    /// Removes the entry of that name; a name that is not there changes
    /// nothing.
    pub fn remove(&mut self, name: &str) -> (removed: bool)
        requires
            old(self).wf(),
        ensures
            final(self).wf(),
            removed == old(self)@.contains_key(name@),
            final(self)@ == old(self)@.remove(name@),
            final(self).names() == without_name(old(self).names(), name@),
    {
        if !self.entries.contains_key(name) {
            assert(self@.remove(name@) =~= self@);
            return false;
        }
        let ghost before = self.names();
        assert(before.contains(name@));
        let needle = String::from_str(name);
        let mut i: usize = 0;
        while i < self.names.len() && self.names[i] != needle
            invariant
                i <= self.names.len(),
                self.names() == before,
                before.contains(name@),
                needle@ == name@,
                forall|j: int| 0 <= j < i ==> before[j] != name@,
            decreases self.names.len() - i,
        {
            assert(self.names()[i as int] == self.names@[i as int]@);
            i += 1;
        }
        proof {
            let k = choose|k: int| 0 <= k < before.len() && before[k] == name@;
            assert(i <= k);
            assert(before[i as int] == self.names@[i as int]@);
            assert(before[i as int] == name@);
            assert(before.index_of(name@) == i as int) by {
                let w = before.index_of(name@);
                assert(0 <= w < before.len() && before[w] == name@);
            }
        }
        self.entries.remove(name);
        self.names.remove(i);
        proof {
            let after = self.names();
            assert(after =~= before.remove(i as int));
            assert forall|a: int, b: int|
                0 <= a < after.len() && 0 <= b < after.len() && a != b implies after[a]
                != after[b] by {
                let a0 = if a < i { a } else { a + 1 };
                let b0 = if b < i { b } else { b + 1 };
                assert(after[a] == before[a0]);
                assert(after[b] == before[b0]);
            }
            assert forall|other: Seq<char>| #[trigger]
                after.contains(other) <==> self@.contains_key(other) by {
                if after.contains(other) {
                    let a = choose|a: int| 0 <= a < after.len() && after[a] == other;
                    let a0 = if a < i { a } else { a + 1 };
                    assert(before[a0] == other);
                    assert(before.contains(other));
                }
                if self@.contains_key(other) {
                    assert(before.contains(other));
                    let b = choose|b: int| 0 <= b < before.len() && before[b] == other;
                    assert(b != i);
                    let b1 = if b < i { b } else { b - 1 };
                    assert(after[b1] == other);
                }
            }
        }
        true
    }
}

/// The endpoints the user has registered, by name.
pub type Endpoints = Directory<Endpoint>;

/// The projects the user has registered, by name.
pub type Projects = Directory<Project>;

/// A new entry may be stored under a name that is not empty and not taken.
pub open spec fn name_is_free<V>(entries: Map<Seq<char>, V>, name: Seq<char>) -> bool {
    name.len() > 0 && !entries.contains_key(name)
}

/// Why a name was refused for a new entry.
#[derive(Clone, Copy, PartialEq, Eq, Structural, Debug)]
pub enum NameError {
    /// The name is empty.
    Empty,
    /// An entry of that name exists already.
    Taken,
}

impl NameError {
    /// A refused name is a failure of validation.
    pub fn kind(&self) -> (kind: ErrorKind)
        ensures
            kind == ErrorKind::Validation,
    {
        ErrorKind::Validation
    }
}

/// What the check of a name for a new entry comes to.
pub open spec fn name_check<V>(entries: Map<Seq<char>, V>, name: Seq<char>) -> Result<
    (),
    NameError,
> {
    if name.len() == 0 {
        Err(NameError::Empty)
    } else if entries.contains_key(name) {
        Err(NameError::Taken)
    } else {
        Ok(())
    }
}

/// Checks a name for a new entry: it must not be empty and not be taken.
pub fn check_name<V>(directory: &Directory<V>, name: &str) -> (res: Result<(), NameError>)
    ensures
        res == name_check(directory@, name@),
        res.is_ok() == name_is_free(directory@, name@),
{
    if name.unicode_len() == 0 {
        Err(NameError::Empty)
    } else if directory.contains_key(name) {
        Err(NameError::Taken)
    } else {
        Ok(())
    }
}

/// The notification after an entry of the given sort (`"endpoint"`,
/// `"project"`) was added under `name`.
pub open spec fn added_notice(sort: Seq<char>, name: Seq<char>) -> NotificationView {
    NotificationView {
        level: NoticeLevel::Success,
        title: "Add "@ + sort + " '"@ + name + "' success"@,
        description: None,
        seconds: 5,
    }
}

/// The notification after a name was refused.
pub open spec fn refused_notice(sort: Seq<char>) -> NotificationView {
    NotificationView {
        level: NoticeLevel::Error,
        title: "Add "@ + sort + " Failed"@,
        description: Some("name is already exist or empty"@),
        seconds: 5,
    }
}

fn notice_added(sort: &str, name: &str) -> (notice: Notification)
    ensures
        notice@ == added_notice(sort@, name@),
{
    let mut title = String::from_str("Add ");
    title.append(sort);
    title.append(" '");
    title.append(name);
    title.append("' success");
    Notification { level: NoticeLevel::Success, title, description: None, seconds: 5 }
}

fn notice_refused(sort: &str) -> (notice: Notification)
    ensures
        notice@ == refused_notice(sort@),
{
    let mut title = String::from_str("Add ");
    title.append(sort);
    title.append(" Failed");
    Notification {
        level: NoticeLevel::Error,
        title,
        description: Some(String::from_str("name is already exist or empty")),
        seconds: 5,
    }
}

/// Registers a general endpoint under `name`. An empty or taken name is
/// refused: the directory is left as it was and the notification says so.
pub fn create_endpoint(endpoints: &mut Endpoints, name: String, endpoint_url: String) -> (notice:
    Notification)
    requires
        old(endpoints).wf(),
    ensures
        final(endpoints).wf(),
        name_is_free(old(endpoints)@, name@) ==> {
            &&& final(endpoints)@ == old(endpoints)@.insert(
                name@,
                Endpoint::General(GeneralEndpoint { base_url: endpoint_url }),
            )
            &&& final(endpoints).names() == old(endpoints).names().push(name@)
            &&& notice@ == added_notice("endpoint"@, name@)
        },
        !name_is_free(old(endpoints)@, name@) ==> {
            &&& final(endpoints)@ == old(endpoints)@
            &&& final(endpoints).names() == old(endpoints).names()
            &&& notice@ == refused_notice("endpoint"@)
        },
{
    match check_name(endpoints, name.as_str()) {
        Ok(()) => {
            let notice = notice_added("endpoint", name.as_str());
            let endpoint = Endpoint::General(GeneralEndpoint { base_url: endpoint_url });
            endpoints.insert(name, endpoint);
            notice
        },
        Err(_) => notice_refused("endpoint"),
    }
}

/// Registers a project under `name`. An empty or taken name is refused: the
/// directory is left as it was and the notification says so. The endpoint
/// name is stored unchecked.
pub fn create_project(
    projects: &mut Projects,
    name: String,
    project_key: String,
    endpoint_key: String,
) -> (notice: Notification)
    requires
        old(projects).wf(),
    ensures
        final(projects).wf(),
        name_is_free(old(projects)@, name@) ==> {
            &&& final(projects)@ == old(projects)@.insert(
                name@,
                (Project { project_key, endpoint_key }),
            )
            &&& final(projects).names() == old(projects).names().push(name@)
            &&& notice@ == added_notice("project"@, name@)
        },
        !name_is_free(old(projects)@, name@) ==> {
            &&& final(projects)@ == old(projects)@
            &&& final(projects).names() == old(projects).names()
            &&& notice@ == refused_notice("project"@)
        },
{
    match check_name(projects, name.as_str()) {
        Ok(()) => {
            let notice = notice_added("project", name.as_str());
            projects.insert(name, Project { project_key, endpoint_key });
            notice
        },
        Err(_) => notice_refused("project"),
    }
}

} // verus!
