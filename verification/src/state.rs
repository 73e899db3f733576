//! Controller lifecycle and per-endpoint protocol states.
//!
//! The controller moves through `Reset` (disabled), `Idle` (enabled,
//! detached from the bus) and `Active` (enabled, attached). In device
//! mode it carries a per-endpoint configuration snapshot and a
//! per-endpoint runtime state. The state value lives in a single-owner
//! cell: at most one actor may hold it at a time, and taking it twice
//! without putting it back is a programmer error, excluded here by
//! precondition.

use vstd::prelude::*;

verus! {

/// Number of physical endpoints the controller exposes.
pub const N_ENDPOINTS: usize = 12;

/// Protocol phase of a control endpoint.
#[derive(Copy, Clone, Debug, PartialEq, Eq, Structural)]
pub enum CtrlState {
    Init,
    ReadIn,
    ReadStatus,
    WriteOut,
    WriteStatus,
    WriteStatusWait,
    InDelay,
}

/// Protocol phase of a bulk IN endpoint.
#[derive(Copy, Clone, Debug, PartialEq, Eq, Structural)]
pub enum BulkInState {
    Init,
    Delay,
}

/// Protocol phase of a bulk OUT endpoint.
#[derive(Copy, Clone, Debug, PartialEq, Eq, Structural)]
pub enum BulkOutState {
    Init,
    Delay,
}

/// Runtime state of one endpoint.
#[derive(Copy, Clone, Debug, PartialEq, Eq, Structural)]
pub enum EndpointState {
    Disabled,
    Ctrl(CtrlState),
    BulkIn(BulkInState),
    BulkOut(BulkOutState),
    Iso,
}

/// Bus speed the controller is enabled at in device mode.
#[derive(Copy, Clone, Debug, PartialEq, Eq, Structural)]
pub enum DeviceSpeed {
    Full,
    Low,
}

/// USB transfer type requested when enabling an endpoint.
#[derive(Copy, Clone, Debug, PartialEq, Eq, Structural)]
pub enum TransferType {
    Control,
    Bulk,
    Interrupt,
    Isochronous,
}

/// Snapshot of the negotiated per-endpoint IN configuration register
/// value, captured when the endpoint is enabled.
#[derive(Copy, Clone, Debug, PartialEq, Eq, Structural)]
pub struct EndpointConfigValue {
    pub bits: u32,
}

/// Per-endpoint configuration snapshots; `None` for inactive endpoints.
#[derive(Copy, Clone, Debug, PartialEq, Eq)]
pub struct DeviceConfig {
    pub endpoint_configs: [Option<EndpointConfigValue>; 12],
}

/// Holds when no endpoint of `c` has a configuration snapshot.
pub open spec fn config_is_default(c: DeviceConfig) -> bool {
    forall|i: int| 0 <= i < N_ENDPOINTS ==> c.endpoint_configs@[i] is None
}

impl Default for DeviceConfig {
    /// All endpoints start without a configuration snapshot.
    fn default() -> (d: Self)
        ensures
            config_is_default(d),
    {
        DeviceConfig { endpoint_configs: [None; 12] }
    }
}

/// Runtime states of all endpoints.
#[derive(Copy, Clone, Debug, PartialEq, Eq)]
pub struct DeviceState {
    pub endpoint_states: [EndpointState; 12],
}

/// Holds when every endpoint of `d` is disabled.
pub open spec fn all_endpoints_disabled(d: DeviceState) -> bool {
    forall|i: int| 0 <= i < N_ENDPOINTS ==> d.endpoint_states@[i] is Disabled
}

impl Default for DeviceState {
    /// All endpoints start disabled.
    fn default() -> (d: Self)
        ensures
            all_endpoints_disabled(d),
    {
        DeviceState { endpoint_states: [EndpointState::Disabled; 12] }
    }
}

/// Operating mode the controller was enabled in.
#[derive(Copy, Clone, Debug, PartialEq, Eq)]
pub enum Mode {
    Host,
    Device { speed: DeviceSpeed, config: DeviceConfig, state: DeviceState },
}

/// Top-level controller lifecycle state.
#[derive(Copy, Clone, Debug, PartialEq, Eq)]
pub enum State {
    /// Controller disabled.
    Reset,
    /// Controller enabled, detached from the bus.
    Idle(Mode),
    /// Controller enabled, attached to the bus.
    Active(Mode),
}

/// Holds when `m` is a device mode freshly enabled at `speed`: default
/// configuration and every endpoint disabled.
pub open spec fn mode_is_fresh_device(m: Mode, speed: DeviceSpeed) -> bool {
    &&& m matches Mode::Device { speed: s, config, state }
    &&& s == speed
    &&& config_is_default(config)
    &&& all_endpoints_disabled(state)
}

/// Hardware bank index of an endpoint's buffer slot.
#[derive(Copy, Clone, Debug, PartialEq, Eq, Structural)]
pub enum BankIndex {
    Bank0,
    Bank1,
}

impl From<BankIndex> for usize {
    /// Numeric index of the bank.
    fn from(bi: BankIndex) -> (r: usize)
        ensures
            r == bank_index_spec(bi),
    {
        match bi {
            BankIndex::Bank0 => 0,
            BankIndex::Bank1 => 1,
        }
    }
}

/// Numeric index of a bank.
pub open spec fn bank_index_spec(bi: BankIndex) -> usize {
    match bi {
        BankIndex::Bank0 => 0usize,
        BankIndex::Bank1 => 1usize,
    }
}

impl vstd::std_specs::convert::FromSpecImpl<BankIndex> for usize {
    open spec fn obeys_from_spec() -> bool {
        true
    }

    open spec fn from_spec(bi: BankIndex) -> usize {
        bank_index_spec(bi)
    }
}

/// Single-owner cell holding the controller state.
///
/// The cell yields the state to exactly one borrower at a time: `take`
/// empties it and `put` refills it. Taking an empty cell, or putting
/// into a full one, is the fatal reentrancy error of the design; both
/// are excluded by precondition, and the driver proves it never asks
/// for either.
pub struct StateCell {
    value: Option<State>,
}

impl View for StateCell {
    type V = Option<State>;

    closed spec fn view(&self) -> Option<State> {
        self.value
    }
}

impl StateCell {
    /// A cell initially holding `s`.
    pub fn new(s: State) -> (c: Self)
        ensures
            c@ == Some(s),
    {
        StateCell { value: Some(s) }
    }

    /// Take the state out, leaving the cell empty.
    pub fn take(&mut self) -> (s: State)
        requires
            old(self)@ is Some,
        ensures
            old(self)@ == Some(s),
            final(self)@ is None,
    {
        let v = self.value;
        self.value = None;
        match v {
            Some(s) => s,
            None => vstd::pervasive::unreached(),
        }
    }

    /// Put a state back into the empty cell.
    pub fn put(&mut self, s: State)
        requires
            old(self)@ is None,
        ensures
            final(self)@ == Some(s),
    {
        self.value = Some(s);
    }

    /// Read the state without taking ownership; `None` while it is
    /// taken.
    pub fn peek(&self) -> (s: Option<State>)
        ensures
            s == self@,
    {
        self.value
    }
}

} // verus!
