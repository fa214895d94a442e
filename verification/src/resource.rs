//! The two scoped resources: a tagged resource whose teardown marker embeds
//! its label, and a callable resource that owns a tagged resource of its own.
//!
//! Neither resource prints anything itself: each teardown or invocation hands
//! its marker line back to the caller, so that the caller decides where the
//! line stands in the overall output. Teardown consumes the resource, so a
//! marker can be produced at most once per instance.

use crate::output::{callable_drop_line, invoked_line, tagged_drop_line};
use vstd::prelude::*;

verus! {

/// A resource wrapping a short text label. Its teardown marker embeds the
/// label, which stays available however often the value is moved.
pub struct TaggedResource {
    label: String,
}

impl View for TaggedResource {
    type V = Seq<char>;

    closed spec fn view(&self) -> Seq<char> {
        self.label@
    }
}

impl TaggedResource {
    /// Constructs a resource carrying `label`.
    pub fn new(label: String) -> (r: Self)
        ensures
            r@ == label@,
    {
        TaggedResource { label }
    }

    /// The label the resource carries.
    pub fn label(&self) -> (r: &str)
        ensures
            r@ == self@,
    {
        self.label.as_str()
    }

    /// Releases the resource and hands back its teardown marker. Taking the
    /// resource by value, this can happen at most once per instance.
    pub fn teardown(self) -> (line: String)
        ensures
            line@ == tagged_drop_line(self@),
    {
        let mut line = String::from_str("TaggedResource (\"");
        line.append(self.label.as_str());
        line.append("\")::drop()");
        line
    }
}

impl Default for TaggedResource {
    /// The default resource carries the empty label.
    fn default() -> (r: Self)
        ensures
            r@ == Seq::<char>::empty(),
    {
        TaggedResource { label: String::new() }
    }
}

/// A resource that can be invoked with one tagged resource as argument. It
/// owns a tagged resource of its own, which it neither reads nor changes; the
/// view of the callable is the view of that internal resource.
pub struct CallableResource {
    inner: TaggedResource,
}

impl View for CallableResource {
    type V = Seq<char>;

    closed spec fn view(&self) -> Seq<char> {
        self.inner@
    }
}

impl CallableResource {
    /// Invokes the resource. The argument is passed by value; the invocation
    /// does not end its storage, so it is handed back to the caller, whose
    /// scope still owns its teardown. The marker line never depends on the
    /// argument or on the callable's own fields.
    pub fn invoke(&self, arg: TaggedResource) -> (r: (String, TaggedResource))
        ensures
            r.0@ == invoked_line(),
            r.1 == arg,
    {
        let line = String::from_str("CallableResource invoked");
        (line, arg)
    }

    /// Releases the resource and hands back its own teardown marker together
    /// with its internal tagged resource, whose teardown the owner runs next:
    /// a nested resource tears down as part of its owner's teardown, right
    /// after the owner's own marker.
    pub fn teardown(self) -> (r: (String, TaggedResource))
        ensures
            r.0@ == callable_drop_line(),
            r.1@ == self@,
    {
        let line = String::from_str("CallableResource::drop()");
        (line, self.inner)
    }
}

impl Default for CallableResource {
    /// The default callable owns a default (empty-label) tagged resource.
    fn default() -> (r: Self)
        ensures
            r@ == Seq::<char>::empty(),
    {
        CallableResource { inner: TaggedResource::default() }
    }
}

} // verus!
