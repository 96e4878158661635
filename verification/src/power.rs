//! The power button: an event descriptor of the host that is watched by the
//! event loop.

use vstd::prelude::*;
use crate::pipeline::Action;
use crate::pipeline::Pipeline;
use crate::pipeline::PipelineView;

verus! {

/// What a notifier asks the event loop to do with its descriptor.
#[derive(Clone, Copy, Debug, PartialEq, Eq, Structural)]
pub enum NotifierOperation {
    /// Watch the descriptor for this notifier alone.
    AddExclusion,
    /// Watch the descriptor; other notifiers may watch it too.
    AddShared,
    /// Change the events that are watched.
    Modify,
    /// Stop watching the descriptor.
    Delete,
    /// Suspend the watch.
    Park,
    /// Take the watch up again.
    Resume,
}

/// A request to the event loop.
#[derive(Clone, Copy, Debug, PartialEq, Eq, Structural)]
pub struct EventNotifier {
    /// The descriptor to watch.
    pub raw_fd: i32,
    /// What to do with it.
    pub op: NotifierOperation,
    /// A descriptor whose watch is suspended while this one is watched.
    pub parked_fd: Option<i32>,
    /// The events to watch for, as an epoll mask.
    pub event: u32,
}

/// What registering the power button asks of the host.
pub open spec fn power_plan() -> Seq<Action> {
    seq![Action::RegisterNotifier]
}

/// The epoll mask of `vmm_sys_util::epoll::EventSet::IN`, "the descriptor
/// can be read", which the crate defines as `EPOLLIN`: 1.
#[verifier::external_body]
fn readable_events() -> (mask: u32)
    ensures
        mask == 1,
{
    vmm_sys_util::epoll::EventSet::IN.bits()
}

/// Plans the registration of the power button.
///
/// `button_fd` is the host's duplicate of the button's event descriptor.
/// It is watched, shared, for becoming readable.
pub fn register_power_event(button_fd: i32) -> (planned: (EventNotifier, Pipeline))
    ensures
        planned.0 == (EventNotifier {
            raw_fd: button_fd,
            op: NotifierOperation::AddShared,
            parked_fd: None,
            event: 1,
        }),
        planned.1@ == PipelineView::start(power_plan(), None),
{
    let notifier = EventNotifier {
        raw_fd: button_fd,
        op: NotifierOperation::AddShared,
        parked_fd: None,
        event: readable_events(),
    };
    let mut steps: Vec<Action> = Vec::new();
    steps.push(Action::RegisterNotifier);
    assert(steps@ =~= power_plan());
    (notifier, Pipeline::new(steps, None))
}

/// What follows a signal of the power button, once the host has drained
/// the descriptor and read `count` from it: no request to the event loop.
/// The guest learns of the button through the platform's own device.
pub fn power_button_pressed(count: u64) -> (requests: Option<Vec<EventNotifier>>)
    ensures
        requests is None,
{
    None
}

} // verus!
