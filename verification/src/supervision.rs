//! The decisions of the loop that supervises the controller threads and of
//! the loop that runs one controller.

use vstd::prelude::*;

use crate::devices::{DeviceProperties, DeviceState};

verus! {

/// Every this many cycles a connected controller is refreshed actively.
pub const ACTIVE_REFRESH_INTERVAL: u64 = 300;

/// How a controller thread refreshes the state of its device in one cycle.
#[derive(Debug, Clone, Copy, PartialEq, Eq, Structural)]
pub enum RefreshKind {
    /// Ask the device for its state.
    Active,
    /// Only read what the device sends.
    Passive,
}

/// What a controller thread does with its virtual controller in one cycle.
#[derive(Debug, Clone, Copy, PartialEq, Eq, Structural)]
pub enum VirtualControllerAction {
    Keep,
    Remove,
    Create,
}

pub open spec fn spec_refresh_kind(run_counter: u64, properties: DeviceProperties) -> RefreshKind {
    if run_counter % ACTIVE_REFRESH_INTERVAL == 0 && properties.is_connected() {
        RefreshKind::Active
    } else {
        RefreshKind::Passive
    }
}

/// How to refresh in cycle `run_counter`: actively every
/// `ACTIVE_REFRESH_INTERVAL` cycles while connected, passively otherwise.
pub fn refresh_kind(run_counter: u64, properties: &DeviceProperties) -> (kind: RefreshKind)
    ensures
        kind == spec_refresh_kind(run_counter, *properties),
{
    if run_counter % ACTIVE_REFRESH_INTERVAL == 0 && properties.connected == Some(true) {
        RefreshKind::Active
    } else {
        RefreshKind::Passive
    }
}

pub open spec fn spec_virtual_controller_action(
    connected: Option<bool>,
    has_virtual_controller: bool,
) -> VirtualControllerAction {
    if connected == Some(false) && has_virtual_controller {
        VirtualControllerAction::Remove
    } else if connected == Some(true) && !has_virtual_controller {
        VirtualControllerAction::Create
    } else {
        VirtualControllerAction::Keep
    }
}

/// Whether a virtual controller exists after `action`.
pub open spec fn spec_has_virtual_after(action: VirtualControllerAction, had: bool) -> bool {
    match action {
        VirtualControllerAction::Keep => had,
        VirtualControllerAction::Remove => false,
        VirtualControllerAction::Create => true,
    }
}

/// Lets the virtual controller's existence mirror the real controller's
/// connection.
pub fn virtual_controller_action(connected: Option<bool>, has_virtual_controller: bool) -> (action:
    VirtualControllerAction)
    ensures
        action == spec_virtual_controller_action(connected, has_virtual_controller),
{
    if connected == Some(false) && has_virtual_controller {
        VirtualControllerAction::Remove
    } else if connected == Some(true) && !has_virtual_controller {
        VirtualControllerAction::Create
    } else {
        VirtualControllerAction::Keep
    }
}

/// After one decision a virtual controller exists exactly while the
/// controller is known to be connected; while the connection is unknown,
/// nothing changes.
pub proof fn lemma_virtual_controller_mirrors_connection(connected: Option<bool>, has_virtual: bool)
    ensures
        connected is Some ==> spec_has_virtual_after(
            spec_virtual_controller_action(connected, has_virtual),
            has_virtual,
        ) == (connected == Some(true)),
        connected is None ==> spec_virtual_controller_action(connected, has_virtual)
            == VirtualControllerAction::Keep,
{
    match connected {
        Some(true) => {},
        Some(false) => {},
        None => {},
    }
}

/// The properties with the connection marked unknown.
pub open spec fn spec_connection_unknown(properties: DeviceProperties) -> DeviceProperties {
    DeviceProperties {
        battery_level: properties.battery_level,
        charging_state: properties.charging_state,
        connected: None,
    }
}

/// The step of a controller thread whose refresh failed: the connection
/// becomes unknown, and the properties returned are the ones to publish
/// before the thread stops.
pub fn refresh_failed(state: &mut DeviceState) -> (published: DeviceProperties)
    ensures
        final(state).spec_properties() == spec_connection_unknown(old(state).spec_properties()),
        final(state).pending_reports() == old(state).pending_reports(),
        published == final(state).spec_properties(),
{
    let mut properties = state.properties();
    properties.connected = None;
    state.set_properties(properties);
    properties
}

/// A connected controller is refreshed actively exactly every 300th cycle,
/// starting with the first; a controller that is not known to be connected
/// is always refreshed passively.
pub proof fn lemma_refresh_every_interval(run_counter: u64, properties: DeviceProperties)
    ensures
        ACTIVE_REFRESH_INTERVAL == 300,
        spec_refresh_kind(run_counter, properties) == RefreshKind::Active <==> (run_counter % 300
            == 0 && properties.connected == Some(true)),
        spec_refresh_kind(run_counter, properties) == RefreshKind::Passive <==> !(run_counter % 300
            == 0 && properties.connected == Some(true)),
{
}

/// How one cycle of a controller thread ends.
#[derive(Debug, Clone, Copy, PartialEq, Eq, Structural)]
pub enum CycleEnd {
    /// Run the next cycle, with this run counter.
    Continue(u64),
    /// Stop the controller thread.
    Stop,
}

/// The run counter of the next cycle; it wraps around after `u64::MAX`.
pub open spec fn spec_next_run_counter(run_counter: u64) -> u64 {
    if run_counter == u64::MAX {
        0
    } else {
        (run_counter + 1) as u64
    }
}

pub open spec fn spec_end_of_cycle(run_counter: u64, exit_requested: bool) -> CycleEnd {
    if exit_requested {
        CycleEnd::Stop
    } else {
        CycleEnd::Continue(spec_next_run_counter(run_counter))
    }
}

/// The end of a cycle in which the refresh succeeded, the commands were
/// applied and the properties published: stop when the exit was requested,
/// otherwise continue with the next run counter.
pub fn end_of_cycle(run_counter: u64, exit_requested: bool) -> (end: CycleEnd)
    ensures
        end == spec_end_of_cycle(run_counter, exit_requested),
{
    if exit_requested {
        CycleEnd::Stop
    } else if run_counter == u64::MAX {
        CycleEnd::Continue(0)
    } else {
        CycleEnd::Continue(run_counter + 1)
    }
}

pub open spec fn spec_should_restart(
    interface_count: Option<u32>,
    initial_count: u32,
    any_thread_finished: bool,
) -> bool {
    let count = match interface_count {
        Some(c) => c,
        None => u32::MAX,
    };
    count != initial_count || any_thread_finished
}

/// Whether the controller threads must be stopped and the devices
/// connected anew: a puck or controller came or went (an unknown count
/// counts as `u32::MAX`), or a controller thread ended.
pub fn should_restart(interface_count: Option<u32>, initial_count: u32, any_thread_finished: bool) -> (restart: bool)
    ensures
        restart == spec_should_restart(interface_count, initial_count, any_thread_finished),
{
    let count = match interface_count {
        Some(c) => c,
        None => u32::MAX,
    };
    count != initial_count || any_thread_finished
}

/// The threads are restarted whenever the interface count, taken as
/// `u32::MAX` when unknown, differs from the initial one, whether a device
/// came or went, and whenever a thread finished; otherwise they keep
/// running.
pub proof fn lemma_restart_on_any_change(
    interface_count: Option<u32>,
    initial_count: u32,
    any_thread_finished: bool,
)
    ensures
        interface_count matches Some(c) && c != initial_count ==> spec_should_restart(
            interface_count,
            initial_count,
            any_thread_finished,
        ),
        interface_count is None && initial_count != u32::MAX ==> spec_should_restart(
            interface_count,
            initial_count,
            any_thread_finished,
        ),
        any_thread_finished ==> spec_should_restart(interface_count, initial_count, any_thread_finished),
        interface_count == Some(initial_count) && !any_thread_finished ==> !spec_should_restart(
            interface_count,
            initial_count,
            any_thread_finished,
        ),
        interface_count is None && initial_count == u32::MAX && !any_thread_finished
            ==> !spec_should_restart(interface_count, initial_count, any_thread_finished),
{
}

/// The states among the first `n` that are shown while more than one
/// device is around: device 0, and each connected one.
pub open spec fn spec_candidates(states: Seq<DeviceProperties>, n: nat) -> Seq<DeviceProperties>
    decreases n,
{
    if n == 0 {
        Seq::empty()
    } else {
        let prev = spec_candidates(states, (n - 1) as nat);
        if n - 1 == 0 || states[n - 1].is_connected() {
            prev.push(states[n - 1])
        } else {
            prev
        }
    }
}

/// The connected states among the first `n`.
pub open spec fn spec_connected(states: Seq<DeviceProperties>, n: nat) -> Seq<DeviceProperties>
    decreases n,
{
    if n == 0 {
        Seq::empty()
    } else {
        let prev = spec_connected(states, (n - 1) as nat);
        if states[n - 1].is_connected() {
            prev.push(states[n - 1])
        } else {
            prev
        }
    }
}

/// The states shown to the user: device 0 and the connected devices; when
/// that is more than one state, only the connected ones.
pub open spec fn spec_visible_states(states: Seq<DeviceProperties>) -> Seq<DeviceProperties> {
    let candidates = spec_candidates(states, states.len());
    if candidates.len() == 1 {
        candidates
    } else {
        spec_connected(states, states.len())
    }
}

proof fn lemma_filters(states: Seq<DeviceProperties>, n: nat)
    requires
        n <= states.len(),
    ensures
        forall|k: int|
            0 <= k < spec_connected(states, n).len() ==> (#[trigger] spec_connected(states, n)[k]).is_connected(),
        forall|k: int|
            0 <= k < spec_connected(states, n).len() ==> exists|i: int|
                0 <= i < n && states[i] == #[trigger] spec_connected(states, n)[k],
        forall|k: int|
            0 <= k < spec_candidates(states, n).len() ==> ((#[trigger] spec_candidates(states, n)[k]).is_connected()
                || spec_candidates(states, n)[k] == states[0]),
        forall|k: int|
            0 <= k < spec_candidates(states, n).len() ==> exists|i: int|
                0 <= i < n && states[i] == #[trigger] spec_candidates(states, n)[k],
        forall|i: int|
            0 <= i < n && (#[trigger] states[i]).is_connected() ==> spec_connected(states, n).contains(states[i])
                && spec_candidates(states, n).contains(states[i]),
    decreases n,
{
    if n > 0 {
        let m = (n - 1) as nat;
        lemma_filters(states, m);
        let pc = spec_connected(states, m);
        let pd = spec_candidates(states, m);
        let c = spec_connected(states, n);
        let d = spec_candidates(states, n);
        assert forall|k: int| 0 <= k < c.len() implies exists|i: int|
            0 <= i < n && states[i] == #[trigger] c[k] by {
            if k < pc.len() {
                assert(c[k] == pc[k]);
                let i = choose|i: int| 0 <= i < m && states[i] == #[trigger] pc[k];
                assert(0 <= i < n && states[i] == c[k]);
            } else {
                assert(states[m as int] == c[k]);
            }
        }
        assert forall|k: int| 0 <= k < d.len() implies exists|i: int|
            0 <= i < n && states[i] == #[trigger] d[k] by {
            if k < pd.len() {
                assert(d[k] == pd[k]);
                let i = choose|i: int| 0 <= i < m && states[i] == #[trigger] pd[k];
                assert(0 <= i < n && states[i] == d[k]);
            } else {
                assert(states[m as int] == d[k]);
            }
        }
        assert forall|k: int| 0 <= k < c.len() implies (#[trigger] c[k]).is_connected() by {
            if k < pc.len() {
                assert(c[k] == pc[k]);
            }
        }
        assert forall|k: int| 0 <= k < d.len() implies ((#[trigger] d[k]).is_connected() || d[k]
            == states[0]) by {
            if k < pd.len() {
                assert(d[k] == pd[k]);
            }
        }
        assert forall|i: int| 0 <= i < n && (#[trigger] states[i]).is_connected() implies c.contains(
            states[i],
        ) && d.contains(states[i]) by {
            if i < m {
                let kc = choose|kc: int| 0 <= kc < pc.len() && pc[kc] == states[i];
                assert(c[kc] == pc[kc]);
                let kd = choose|kd: int| 0 <= kd < pd.len() && pd[kd] == states[i];
                assert(d[kd] == pd[kd]);
            } else {
                assert(c[c.len() - 1] == states[i]);
                assert(d[d.len() - 1] == states[i]);
            }
        }
    }
}

/// What the selection of shown states keeps: only states of the input;
/// every connected state; only connected states unless a single state is
/// left, which, if not connected, is device 0.
pub proof fn lemma_visible_states(states: Seq<DeviceProperties>)
    ensures
        forall|k: int|
            0 <= k < spec_visible_states(states).len() ==> exists|i: int|
                0 <= i < states.len() && states[i] == #[trigger] spec_visible_states(states)[k],
        forall|i: int|
            0 <= i < states.len() && (#[trigger] states[i]).is_connected() ==> spec_visible_states(states).contains(states[i]),
        spec_visible_states(states).len() != 1 ==> forall|k: int|
            0 <= k < spec_visible_states(states).len() ==> (#[trigger] spec_visible_states(states)[k]).is_connected(),
        spec_visible_states(states).len() == 1 && !spec_visible_states(states)[0].is_connected()
            ==> spec_visible_states(states)[0] == states[0],
{
    lemma_filters(states, states.len());
}

/// Selects the states to show: device 0 and the connected devices; in case
/// there is more than one, device 0 is dropped unless it is connected.
pub fn select_visible_states(states: &Vec<DeviceProperties>) -> (visible: Vec<DeviceProperties>)
    ensures
        visible@ == spec_visible_states(states@),
{
    let mut candidates: Vec<DeviceProperties> = Vec::new();
    let mut connected: Vec<DeviceProperties> = Vec::new();
    let mut i: usize = 0;
    while i < states.len()
        invariant
            i <= states@.len(),
            candidates@ == spec_candidates(states@, i as nat),
            connected@ == spec_connected(states@, i as nat),
        decreases states@.len() - i,
    {
        let is_connected = states[i].connected == Some(true);
        if i == 0 || is_connected {
            candidates.push(states[i]);
        }
        if is_connected {
            connected.push(states[i]);
        }
        i = i + 1;
    }
    if candidates.len() == 1 {
        candidates
    } else {
        connected
    }
}

} // verus!
