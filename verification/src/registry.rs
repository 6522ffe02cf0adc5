//! The registry of open serial ports: one session per port name, each owning
//! the handle of its device.

use vstd::prelude::*;
use crate::config::PortSettings;
use crate::text::same_text;

verus! {

/// One open serial connection: the settings it was opened with and the handle
/// of the device. `H` is whatever the caller opens devices as; the registry
/// owns it and never looks inside.
#[derive(Debug, PartialEq, Eq)]
pub struct PortSession<H> {
    pub settings: PortSettings,
    pub handle: H,
}

/// The open serial ports by name. A name has at most one session; a session's
/// handle lives in the registry from the moment the port is opened until it is
/// closed, and is dropped with it.
pub struct SerialManager<H> {
    names: Vec<String>,
    sessions: Vec<PortSession<H>>,
}

spec fn distinct(names: Seq<String>) -> bool {
    forall|i: int, j: int|
        0 <= i < names.len() && 0 <= j < names.len() && i != j ==> names[i]@ != names[j]@
}

spec fn held(names: Seq<String>, name: Seq<char>) -> bool {
    exists|i: int| 0 <= i < names.len() && names[i]@ == name
}

spec fn position(names: Seq<String>, name: Seq<char>) -> int {
    choose|i: int| 0 <= i < names.len() && names[i]@ == name
}

impl<H> SerialManager<H> {
    #[verifier::type_invariant]
    spec fn well_formed(self) -> bool {
        distinct(self.names@) && self.names@.len() == self.sessions@.len()
    }

    /// The sessions by port name.
    pub closed spec fn view(&self) -> Map<Seq<char>, PortSession<H>> {
        Map::new(
            |name: Seq<char>| held(self.names@, name),
            |name: Seq<char>| self.sessions@[position(self.names@, name)],
        )
    }

    /// A registry without sessions.
    pub fn new() -> (manager: Self)
        ensures
            manager@ == Map::<Seq<char>, PortSession<H>>::empty(),
    {
        let manager = SerialManager { names: Vec::new(), sessions: Vec::new() };
        assert(manager@ =~= Map::<Seq<char>, PortSession<H>>::empty());
        manager
    }

    fn find(&self, name: &str) -> (found: Option<usize>)
        ensures
            match found {
                Some(i) => i < self.names@.len() && self.names@[i as int]@ == name@,
                None => !held(self.names@, name@),
            },
    {
        let mut i: usize = 0;
        while i < self.names.len()
            invariant
                i <= self.names@.len(),
                forall|j: int| 0 <= j < i ==> self.names@[j]@ != name@,
            decreases self.names@.len() - i,
        {
            if same_text(self.names[i].as_str(), name) {
                return Some(i);
            }
            i += 1;
        }
        None
    }

    /// Whether the port has a session.
    pub fn is_open(&self, port_name: &str) -> (open: bool)
        ensures
            open == self@.dom().contains(port_name@),
    {
        self.find(port_name).is_some()
    }

    /// The settings that the port was opened with.
    pub fn settings(&self, port_name: &str) -> (settings: Option<PortSettings>)
        ensures
            settings == if self@.dom().contains(port_name@) {
                Some(self@[port_name@].settings)
            } else {
                None
            },
    {
        proof {
            use_type_invariant(self);
        }
        match self.find(port_name) {
            Some(i) => Some(self.sessions[i].settings),
            None => None,
        }
    }

    /// The handle of the port's device, for the caller to perform I/O on.
    /// Whatever the caller does to the handle, the registry holds the same
    /// names with the same settings afterwards.
    pub fn handle_mut(&mut self, port_name: &str) -> (handle: Option<&mut H>)
        ensures
            match handle {
                Some(h) => {
                    &&& old(self)@.dom().contains(port_name@)
                    &&& *h == old(self)@[port_name@].handle
                    &&& final(self)@ == old(self)@.insert(
                        port_name@,
                        PortSession { settings: old(self)@[port_name@].settings, handle: *final(h) },
                    )
                },
                None => !old(self)@.dom().contains(port_name@) && final(self)@ == old(self)@,
            },
    {
        proof {
            use_type_invariant(&*self);
        }
        match self.find(port_name) {
            Some(i) => Some(&mut self.sessions[i].handle),
            None => None,
        }
    }

    /// Adds a session for a port that has none.
    pub(crate) fn insert(&mut self, port_name: String, session: PortSession<H>)
        requires
            !old(self)@.dom().contains(port_name@),
        ensures
            final(self)@ == old(self)@.insert(port_name@, session),
    {
        proof {
            use_type_invariant(&*self);
        }
        let ghost before = self.names@;
        let ghost key = port_name@;
        // Names and sessions change together: the registry is taken apart and
        // put together again, so that it is never seen with one of them
        // changed and the other not.
        let mut taken = SerialManager::new();
        std::mem::swap(self, &mut taken);
        let SerialManager { mut names, mut sessions } = taken;
        names.push(port_name);
        sessions.push(session);
        *self = SerialManager { names, sessions };
        proof {
            assert forall|name: Seq<char>| held(self.names@, name) <==> (name == key || held(
                before,
                name,
            )) by {
                if held(before, name) {
                    let i = position(before, name);
                    assert(self.names@[i]@ == name);
                }
                if name == key {
                    assert(self.names@[before.len() as int]@ == name);
                }
            }
            assert(self@ =~= old(self)@.insert(key, session));
        }
    }

    /// Takes the port's session out of the registry, if it has one.
    pub(crate) fn remove(&mut self, port_name: &str) -> (removed: Option<PortSession<H>>)
        ensures
            removed == if old(self)@.dom().contains(port_name@) {
                Some(old(self)@[port_name@])
            } else {
                None
            },
            final(self)@ == old(self)@.remove(port_name@),
    {
        proof {
            use_type_invariant(&*self);
        }
        match self.find(port_name) {
            Some(i) => {
                let ghost before = self.names@;
                let ghost before_sessions = self.sessions@;
                let mut taken = SerialManager::new();
                std::mem::swap(self, &mut taken);
                let SerialManager { mut names, mut sessions } = taken;
                let _ = names.remove(i);
                let session = sessions.remove(i);
                *self = SerialManager { names, sessions };
                proof {
                    let after = self.names@;
                    let after_sessions = self.sessions@;
                    assert forall|name: Seq<char>| held(after, name) <==> (name != port_name@
                        && held(before, name)) by {
                        if held(after, name) {
                            let j = position(after, name);
                            let b = if j < i { j } else { j + 1 };
                            assert(before[b]@ == name);
                        }
                        if name != port_name@ && held(before, name) {
                            let p = position(before, name);
                            let a = if p < i { p } else { p - 1 };
                            assert(after[a]@ == name);
                        }
                    }
                    assert forall|name: Seq<char>| held(after, name) implies after_sessions[position(
                        after,
                        name,
                    )] == before_sessions[position(before, name)] by {
                        let j = position(after, name);
                        let b = if j < i { j } else { j + 1 };
                        assert(before[b]@ == name);
                        assert(position(before, name) == b);
                    }
                    assert(self@ =~= old(self)@.remove(port_name@));
                }
                Some(session)
            },
            None => {
                assert(self@ =~= old(self)@.remove(port_name@));
                None
            },
        }
    }
}

} // verus!
