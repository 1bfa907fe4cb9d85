//! Plain-value models of what the backend reports, and the age of things.
pub mod order;
pub mod reflector;
pub mod scale;

use crate::text::{decimal, push_decimal, str_eq};
use std::sync::Arc;
use vstd::prelude::*;
use vstd::string::StringExecFns;

verus! {

/// An instant, as whole seconds since the Unix epoch.
#[derive(Clone, Copy, Debug, PartialEq, Eq, Structural)]
pub struct Time(pub i64);

/// Seconds in a minute, an hour and a day.
pub const MINUTE: u64 = 60;

pub const HOUR: u64 = 3600;

pub const DAY: u64 = 86400;

/// The text of an age of `age` seconds: whole days once past two days,
/// whole hours once past two hours, whole minutes once past two minutes,
/// whole seconds otherwise.
pub open spec fn coarse_age(age: nat) -> Seq<char> {
    if age > 2 * DAY {
        decimal(age / (DAY as nat)).push('d')
    } else if age > 2 * HOUR {
        decimal(age / (HOUR as nat)).push('h')
    } else if age > 2 * MINUTE {
        decimal(age / (MINUTE as nat)).push('m')
    } else {
        decimal(age).push('s')
    }
}

/// The text of the time that passed from `time` to `now`; none when `time`
/// lies after `now`.
pub open spec fn age_between(time: Time, now: Time) -> Option<Seq<char>> {
    if time.0 <= now.0 {
        Some(coarse_age((now.0 - time.0) as nat))
    } else {
        None
    }
}

/// The current instant, read from `chrono::Utc::now` and cut to whole
/// seconds by `DateTime::timestamp`. Nothing is claimed of the value: it is
/// whatever the system clock says. `Utc::now` gives up where the system
/// clock stands before the Unix epoch.
#[verifier::external_body]
pub(crate) fn now() -> Time {
    Time(chrono::Utc::now().timestamp())
}

/// How long before `now` the instant `time` was, as a coarse text.
pub fn ago_at(time: &Time, now: &Time) -> (r: Option<String>)
    ensures
        r.deep_view() == age_between(*time, *now),
{
    if time.0 > now.0 {
        return None;
    }
    let age: u64 = (now.0 as i128 - time.0 as i128) as u64;
    let mut text = String::new();
    proof {
        reveal_strlit("d");
        reveal_strlit("h");
        reveal_strlit("m");
        reveal_strlit("s");
    }
    if age > 2 * DAY {
        push_decimal(&mut text, age / DAY);
        text.append("d");
    } else if age > 2 * HOUR {
        push_decimal(&mut text, age / HOUR);
        text.append("h");
    } else if age > 2 * MINUTE {
        push_decimal(&mut text, age / MINUTE);
        text.append("m");
    } else {
        push_decimal(&mut text, age);
        text.append("s");
    }
    assert(text@ =~= coarse_age(age as nat));
    Some(text)
}

/// How long ago the instant `time` was, by the system clock.
pub fn ago(time: &Time) -> (r: Option<String>)
    ensures
        exists|at: Time| r.deep_view() == age_between(*time, at),
{
    let at = now();
    ago_at(time, &at)
}

/// What identifies an object among those of its kind: its namespace and
/// its name.
pub struct ObjectIdentity {
    pub namespace: Option<Seq<char>>,
    pub name: Seq<char>,
}

/// The part of an object's metadata that the dashboard reads.
#[derive(Clone, Debug)]
pub struct ObjectMeta {
    pub name: Option<String>,
    pub generate_name: Option<String>,
    pub namespace: Option<String>,
    pub uid: Option<String>,
    pub creation_timestamp: Option<Time>,
    pub deletion_timestamp: Option<Time>,
}

impl Default for ObjectMeta {
    fn default() -> (meta: ObjectMeta)
        ensures
            meta.name is None,
            meta.generate_name is None,
            meta.namespace is None,
            meta.uid is None,
            meta.creation_timestamp is None,
            meta.deletion_timestamp is None,
    {
        ObjectMeta {
            name: None,
            generate_name: None,
            namespace: None,
            uid: None,
            creation_timestamp: None,
            deletion_timestamp: None,
        }
    }
}

impl ObjectMeta {
    /// The name of the object: its name, else the prefix from which a name
    /// would be generated, else the empty name.
    pub open spec fn spec_name_any(&self) -> Seq<char> {
        match self.name {
            Some(name) => name@,
            None => match self.generate_name {
                Some(prefix) => prefix@,
                None => Seq::empty(),
            },
        }
    }

    /// The identity of the object.
    pub open spec fn identity(&self) -> ObjectIdentity {
        ObjectIdentity { namespace: self.namespace.deep_view(), name: self.spec_name_any() }
    }

    /// The name of the object, borrowed.
    pub fn name_str(&self) -> (name: &str)
        ensures
            name@ == self.spec_name_any(),
    {
        match &self.name {
            Some(name) => name.as_str(),
            None => match &self.generate_name {
                Some(prefix) => prefix.as_str(),
                None => {
                    proof {
                        reveal_strlit("");
                    }
                    assert(""@ =~= Seq::<char>::empty());
                    ""
                },
            },
        }
    }

    /// The name of the object.
    pub fn name_any(&self) -> (name: String)
        ensures
            name@ == self.spec_name_any(),
    {
        self.name_str().to_owned()
    }

    /// Whether two objects of one kind are the same object.
    pub fn same_identity(&self, other: &ObjectMeta) -> (same: bool)
        ensures
            same == (self.identity() == other.identity()),
    {
        let same_namespace = match (&self.namespace, &other.namespace) {
            (Some(mine), Some(theirs)) => str_eq(mine.as_str(), theirs.as_str()),
            (None, None) => true,
            _ => false,
        };
        same_namespace && str_eq(self.name_str(), other.name_str())
    }
}

/// An object of the backend: something with metadata.
pub trait Resource {
    spec fn spec_meta(&self) -> ObjectMeta;

    fn meta(&self) -> (meta: &ObjectMeta)
        ensures
            *meta == self.spec_meta(),
    ;
}

/// A shared object is the object it points to.
impl<K: Resource> Resource for Arc<K> {
    open spec fn spec_meta(&self) -> ObjectMeta {
        (**self).spec_meta()
    }

    fn meta(&self) -> (meta: &ObjectMeta) {
        (**self).meta()
    }
}

/// The identity of an object.
pub open spec fn identity_of<K: Resource>(object: &K) -> ObjectIdentity {
    object.spec_meta().identity()
}

/// The name of an object.
pub open spec fn name_of<K: Resource>(object: &K) -> Seq<char> {
    object.spec_meta().spec_name_any()
}

/// A second handle on a shared object, made by `Arc::clone`: it points to
/// the same object as the first.
#[verifier::external_body]
pub(crate) fn share<T>(object: &Arc<T>) -> (shared: Arc<T>)
    ensures
        shared == *object,
{
    Arc::clone(object)
}

} // verus!
