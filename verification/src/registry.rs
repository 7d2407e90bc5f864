//! Capability registry: bookkeeping for the globals the display server
//! advertises during the discovery round-trip.
//!
//! The registry collects every advertised output into the known-output set
//! (advertisement order), tracks the seat used for idleness measurement, and
//! records whether the power-control and idle-signal capabilities are
//! present. Either capability being absent after discovery is a fatal
//! startup condition.

use vstd::prelude::*;

verus! {

/// The kinds of advertised globals this system binds; everything else is
/// ignored.
#[derive(Clone, Copy, PartialEq, Eq, Structural, Debug)]
pub enum InterfaceKind {
    Output,
    Seat,
    PowerManager,
    IdleNotifier,
    Other,
}

/// Which capability is missing when startup fails.
#[derive(Clone, Copy, PartialEq, Eq, Structural, Debug)]
pub enum CapabilityError {
    PowerControlMissing,
    IdleSignalMissing,
}

/// The kind an advertised interface name denotes.
pub open spec fn kind_of(s: Seq<char>) -> InterfaceKind {
    if s == "wl_output"@ {
        InterfaceKind::Output
    } else if s == "wl_seat"@ {
        InterfaceKind::Seat
    } else if s == "zwlr_output_power_manager_v1"@ {
        InterfaceKind::PowerManager
    } else if s == "ext_idle_notifier_v1"@ {
        InterfaceKind::IdleNotifier
    } else {
        InterfaceKind::Other
    }
}

fn str_eq(a: &str, b: &str) -> (r: bool)
    ensures
        r == (a@ == b@),
{
    let sa = String::from_str(a);
    let sb = String::from_str(b);
    sa == sb
}

/// Sort an advertised interface name into the kinds this system cares
/// about.
pub fn classify_interface(interface: &str) -> (k: InterfaceKind)
    ensures
        k == kind_of(interface@),
{
    if str_eq(interface, "wl_output") {
        InterfaceKind::Output
    } else if str_eq(interface, "wl_seat") {
        InterfaceKind::Seat
    } else if str_eq(interface, "zwlr_output_power_manager_v1") {
        InterfaceKind::PowerManager
    } else if str_eq(interface, "ext_idle_notifier_v1") {
        InterfaceKind::IdleNotifier
    } else {
        InterfaceKind::Other
    }
}

/// The fixed set of optional handles bound from the discovery round-trip.
/// Outputs and the seat are identified by the numeric name the server
/// assigned to the global; the two capabilities are present or absent as a
/// whole.
#[derive(Debug)]
pub struct Registry {
    /// Registry names of the known outputs, in advertisement order.
    pub outputs: Vec<u32>,
    /// Registry name of the tracked seat: the first one advertised.
    pub seat: Option<u32>,
    /// Whether the power-control capability was advertised.
    pub has_power_manager: bool,
    /// Whether the idle-signal capability was advertised.
    pub has_idle_notifier: bool,
}

/// Both required capabilities are present: the system may proceed.
pub open spec fn caps_ok(r: Registry) -> bool {
    r.has_power_manager && r.has_idle_notifier
}

impl Registry {
    /// An empty registry, before any global has been advertised.
    pub fn new() -> (r: Registry)
        ensures
            r.outputs@ == Seq::<u32>::empty(),
            r.seat is None,
            !r.has_power_manager,
            !r.has_idle_notifier,
    {
        Registry { outputs: Vec::new(), seat: None, has_power_manager: false, has_idle_notifier: false }
    }

    /// Record one advertised global: an output joins the known set, the
    /// first seat is tracked, and each capability is marked present when it
    /// appears. Unknown interfaces change nothing.
    pub fn on_global(&mut self, interface: &str, name: u32)
        ensures
            final(self).outputs@ == if kind_of(interface@) is Output {
                old(self).outputs@.push(name)
            } else {
                old(self).outputs@
            },
            final(self).seat == if kind_of(interface@) is Seat && old(self).seat is None {
                Some(name)
            } else {
                old(self).seat
            },
            final(self).has_power_manager == (old(self).has_power_manager || kind_of(
                interface@,
            ) is PowerManager),
            final(self).has_idle_notifier == (old(self).has_idle_notifier || kind_of(
                interface@,
            ) is IdleNotifier),
    {
        match classify_interface(interface) {
            InterfaceKind::Output => self.outputs.push(name),
            InterfaceKind::Seat => {
                if self.seat.is_none() {
                    self.seat = Some(name);
                }
            },
            InterfaceKind::PowerManager => self.has_power_manager = true,
            InterfaceKind::IdleNotifier => self.has_idle_notifier = true,
            InterfaceKind::Other => {},
        }
    }

    /// Prune a retracted global from the known-output set: every output
    /// whose registry name matches is removed, the rest keep their order.
    pub fn on_global_remove(&mut self, name: u32)
        ensures
            final(self).outputs@ == old(self).outputs@.filter(|o: u32| o != name),
            final(self).seat == old(self).seat,
            final(self).has_power_manager == old(self).has_power_manager,
            final(self).has_idle_notifier == old(self).has_idle_notifier,
    {
        let mut kept: Vec<u32> = Vec::new();
        let mut i: usize = 0;
        while i < self.outputs.len()
            invariant
                i <= self.outputs@.len(),
                kept@ == self.outputs@.subrange(0, i as int).filter(|o: u32| o != name),
            decreases self.outputs@.len() - i,
        {
            let o = self.outputs[i];
            proof {
                reveal_with_fuel(Seq::filter, 2);
                assert(self.outputs@.subrange(0, i + 1 as int).drop_last() =~= self.outputs@
                    .subrange(0, i as int));
                assert(self.outputs@.subrange(0, i + 1 as int).last() == o);
            }
            if o != name {
                kept.push(o);
            }
            i = i + 1;
        }
        assert(self.outputs@.subrange(0, self.outputs@.len() as int) =~= self.outputs@);
        self.outputs = kept;
    }

    /// Startup gating: the system proceeds only when both the power-control
    /// and the idle-signal capability are present; otherwise the missing one
    /// is reported, power control first.
    pub fn check_capabilities(&self) -> (r: Result<(), CapabilityError>)
        ensures
            r is Ok <==> caps_ok(*self),
            !self.has_power_manager ==> r == Result::<(), CapabilityError>::Err(
                CapabilityError::PowerControlMissing,
            ),
            self.has_power_manager && !self.has_idle_notifier ==> r == Result::<
                (),
                CapabilityError,
            >::Err(CapabilityError::IdleSignalMissing),
    {
        if !self.has_power_manager {
            Err(CapabilityError::PowerControlMissing)
        } else if !self.has_idle_notifier {
            Err(CapabilityError::IdleSignalMissing)
        } else {
            Ok(())
        }
    }
}

} // verus!
