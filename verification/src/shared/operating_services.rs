//! Service switches without a lock, behind an interface that each component
//! implements for its own services.

use vstd::prelude::*;

verus! {

/// The state of one service switch.
#[derive(Debug, Clone, Copy, PartialEq, Eq, Structural)]
pub struct ServiceValue {
    /// Whether the operation is enabled.
    pub value: bool,
}

/// The switches of a component's services.
pub trait OperatingServiceManager: Sized {
    /// The services of the component.
    type Service;

    /// Whether `service` is switched on.
    spec fn enabled(&self, service: Self::Service) -> bool;

    /// Every service switched on.
    fn new() -> (r: Self)
        ensures
            forall|service: Self::Service| #[trigger] r.enabled(service),
    ;

    /// Switches `service` on or off and leaves the others as they were.
    fn update_service(&mut self, service: Self::Service, value: bool) -> (r: Result<(), String>)
        ensures
            r.is_ok(),
            final(self).enabled(service) == value,
            forall|other: Self::Service|
                other != service ==> #[trigger] final(self).enabled(other) == old(self).enabled(
                    other,
                ),
    ;

    /// The switch of `service`.
    fn get_service(&self, service: Self::Service) -> (r: ServiceValue)
        ensures
            r.value == self.enabled(service),
    ;
}

} // verus!
