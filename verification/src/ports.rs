//! Cached per-port view of one hub: each 1-based port paired with the
//! display name of its occupant and the power state last reported or set.

use vstd::prelude::*;

verus! {

/// One selectable row of the port picker: a 1-based port index, the
/// occupant's display name, and the cached power state.
pub struct PortState {
    pub index: u8,
    pub name: String,
    pub powered: bool,
}

/// The per-port state of one open hub, refreshed once at session start
/// and flipped locally after each successful toggle. Entry `i` describes
/// port `i + 1`.
pub struct HubPorts {
    pub children: Vec<(String, bool)>,
}

impl HubPorts {
    /// A hub never reports more than 255 ports, so every entry has a
    /// 1-based index that fits in a byte.
    pub open spec fn wf(self) -> bool {
        self.children@.len() <= 255
    }

    /// Pair each child display name with the power state its port
    /// initially reported.
    pub fn new(names: Vec<String>, powered: Vec<bool>) -> (r: HubPorts)
        requires
            names@.len() == powered@.len(),
            names@.len() <= 255,
        ensures
            r.wf(),
            r.children@.len() == names@.len(),
            forall|i: int|
                0 <= i < names@.len() ==> r.children@[i].0 == names@[i] && r.children@[i].1
                    == powered@[i],
    {
        let mut children: Vec<(String, bool)> = Vec::new();
        let mut i: usize = 0;
        while i < names.len()
            invariant
                i <= names@.len(),
                names@.len() == powered@.len(),
                children@.len() == i,
                forall|j: int|
                    0 <= j < i ==> children@[j].0 == names@[j] && children@[j].1 == powered@[j],
            decreases names@.len() - i,
        {
            children.push((names[i].clone(), powered[i]));
            i = i + 1;
        }
        HubPorts { children }
    }

    /// Number of ports this view covers.
    pub fn len(&self) -> (r: usize)
        ensures
            r == self.children@.len(),
    {
        self.children.len()
    }

    /// Record a successful toggle of 1-based `port`: its cached power
    /// state flips, its name and every other port stay as they were.
    pub fn set_toggled(&mut self, port: u8)
        requires
            1 <= port,
            port as int <= old(self).children@.len(),
        ensures
            final(self).children@.len() == old(self).children@.len(),
            final(self).children@[port - 1].0 == old(self).children@[port - 1].0,
            final(self).children@[port - 1].1 == !old(self).children@[port - 1].1,
            forall|i: int|
                0 <= i < old(self).children@.len() && i != port - 1 ==> final(self).children@[i]
                    == old(self).children@[i],
    {
        let i = port as usize - 1;
        let flipped = !self.children[i].1;
        let name = self.children[i].0.clone();
        self.children.set(i, (name, flipped));
    }

    /// Rows for the port picker, in port order: entry `i` carries the
    /// 1-based index `i + 1` beside the cached name and state.
    pub fn selection(&self) -> (r: Vec<PortState>)
        requires
            self.wf(),
        ensures
            r@.len() == self.children@.len(),
            forall|i: int|
                0 <= i < r@.len() ==> r@[i].index == i + 1 && r@[i].name == self.children@[i].0
                    && r@[i].powered == self.children@[i].1,
    {
        let mut rows: Vec<PortState> = Vec::new();
        let mut i: usize = 0;
        while i < self.children.len()
            invariant
                i <= self.children@.len(),
                self.children@.len() <= 255,
                rows@.len() == i,
                forall|j: int|
                    0 <= j < i ==> rows@[j].index == j + 1 && rows@[j].name == self.children@[j].0
                        && rows@[j].powered == self.children@[j].1,
            decreases self.children@.len() - i,
        {
            rows.push(
                PortState {
                    index: (i + 1) as u8,
                    name: self.children[i].0.clone(),
                    powered: self.children[i].1,
                },
            );
            i = i + 1;
        }
        rows
    }
}

} // verus!
