//! Persisted light groups.
use vstd::prelude::*;
use crate::worker::string_views;

verus! {

/// A named group of devices.
///
/// Devices are identified by MAC address so names survive rediscovery.
#[derive(Debug, Clone)]
pub struct Group {
    pub name: String,
    pub macs: Vec<String>,
}

/// A group with its texts taken as character sequences.
pub struct GroupView {
    pub name: Seq<char>,
    pub macs: Seq<Seq<char>>,
}

impl View for Group {
    type V = GroupView;

    open spec fn view(&self) -> GroupView {
        GroupView { name: self.name@, macs: string_views(self.macs@) }
    }
}

} // verus!
