//! The USB device controller driver: lifecycle state machine, endpoint
//! enabling, buffer staging, and the interrupt entry point.
//!
//! The driver owns its register block as an explicit handle — never a
//! global — and holds the lifecycle state in a single-owner cell. Every
//! public operation states exactly which registers it writes (through
//! the ghost write log) and how the state moves; operations the
//! contract declares but this revision does not implement report a
//! not-supported error instead of silently doing nothing.

use vstd::prelude::*;

use crate::endpoint::BufferAddr;
use crate::endpoint::Endpoint;
use crate::registers::RegId;
use crate::registers::RegsView;
use crate::registers::UsbRegisters;
use crate::registers::USBCTRL_ENABLE_SHIFT;
use crate::registers::USBCTRL_ENABLE_WIDTH;
use crate::registers::field_place;
use crate::registers::spec_field_place;
use crate::registers::sw_write;
use crate::state::DeviceConfig;
use crate::state::DeviceSpeed;
use crate::state::DeviceState;
use crate::state::Mode;
use crate::state::State;
use crate::state::StateCell;
use crate::state::TransferType;
use crate::state::mode_is_fresh_device;
use crate::state::N_ENDPOINTS;

verus! {

/// Token naming the single registered client. The embedding maps it to
/// the object that receives packet and bus-state notifications; the
/// driver only records who is registered.
#[derive(Copy, Clone, Debug, PartialEq, Eq, Structural)]
pub struct ClientId {
    pub id: u32,
}

/// Errors an operation reports instead of succeeding.
#[derive(Copy, Clone, Debug, PartialEq, Eq, Structural)]
pub enum UsbError {
    /// Fatal programmer error: the controller was already enabled.
    AlreadyEnabled,
    /// The operation is declared by the contract but not implemented
    /// in this revision; never silently ignored.
    NotSupported,
}

/// Benign conditions a call reports while continuing: the call was
/// valid but redundant in the current state, and no register was
/// written. The embedding logs them.
#[derive(Copy, Clone, Debug, PartialEq, Eq, Structural)]
pub enum Warning {
    /// `attach` was called before the controller was enabled.
    NotEnabled,
    /// `attach` was called while already attached.
    AlreadyAttached,
}

/// Receive-enable mask bit for one endpoint: per-endpoint mask
/// registers hold endpoint `e`'s bit at position `e`.
pub open spec fn ep_mask(endpoint: usize) -> u32 {
    1u32 << (endpoint as u32)
}

/// Register writes issued when the controller is enabled: the
/// receive-setup and receive-out bits of endpoint 0 are set, then the
/// global enable bit. Each write sets its bit and keeps every other
/// bit of the register as it was.
pub open spec fn enable_effect(r: RegsView) -> RegsView {
    sw_write(
        sw_write(
            sw_write(r, RegId::RxEnableSetup, r.rxenable_setup | spec_field_place(0, 1, 1)),
            RegId::RxEnableOut,
            r.rxenable_out | spec_field_place(0, 1, 1),
        ),
        RegId::UsbCtrl,
        r.usbctrl | spec_field_place(USBCTRL_ENABLE_SHIFT, USBCTRL_ENABLE_WIDTH, 1),
    )
}

/// Register writes issued on bus attach: the receive-setup mask is
/// broadened to include endpoint 10, the receive-out bit of endpoint 0
/// re-asserted, and the global enable bit re-asserted. Broadening adds
/// bits: every bit already set stays set.
pub open spec fn attach_effect(r: RegsView) -> RegsView {
    sw_write(
        sw_write(
            sw_write(r, RegId::RxEnableSetup, r.rxenable_setup | spec_field_place(10, 1, 1)),
            RegId::RxEnableOut,
            r.rxenable_out | spec_field_place(0, 1, 1),
        ),
        RegId::UsbCtrl,
        r.usbctrl | spec_field_place(USBCTRL_ENABLE_SHIFT, USBCTRL_ENABLE_WIDTH, 1),
    )
}

/// Register writes issued when an IN endpoint is enabled: the
/// endpoint's receive-setup and receive-out bits are set; isochronous
/// transfers also set the endpoint's isochronous bit. Every other bit
/// keeps its value: enabling one endpoint never revokes another's
/// reception. The hardware distinction between control and bulk
/// enabling is unresolved, so both program the same bits. Interrupt
/// transfers are not supported and write nothing.
pub open spec fn in_enable_effect(r: RegsView, transfer_type: TransferType, endpoint: usize) -> RegsView {
    match transfer_type {
        TransferType::Control => sw_write(
            sw_write(r, RegId::RxEnableSetup, r.rxenable_setup | ep_mask(endpoint)),
            RegId::RxEnableOut,
            r.rxenable_out | ep_mask(endpoint),
        ),
        TransferType::Bulk => sw_write(
            sw_write(r, RegId::RxEnableSetup, r.rxenable_setup | ep_mask(endpoint)),
            RegId::RxEnableOut,
            r.rxenable_out | ep_mask(endpoint),
        ),
        TransferType::Interrupt => r,
        TransferType::Isochronous => sw_write(
            sw_write(
                sw_write(r, RegId::RxEnableSetup, r.rxenable_setup | ep_mask(endpoint)),
                RegId::RxEnableOut,
                r.rxenable_out | ep_mask(endpoint),
            ),
            RegId::Iso,
            r.iso | ep_mask(endpoint),
        ),
    }
}

/// Register writes issued when an OUT endpoint is enabled: only the
/// endpoint's receive-setup bit is set; isochronous transfers also set
/// the endpoint's isochronous bit. Every other bit keeps its value.
/// Interrupt transfers are not supported and write nothing.
pub open spec fn out_enable_effect(r: RegsView, transfer_type: TransferType, endpoint: usize) -> RegsView {
    match transfer_type {
        TransferType::Control => sw_write(
            r,
            RegId::RxEnableSetup,
            r.rxenable_setup | ep_mask(endpoint),
        ),
        TransferType::Bulk => sw_write(r, RegId::RxEnableSetup, r.rxenable_setup | ep_mask(endpoint)),
        TransferType::Interrupt => r,
        TransferType::Isochronous => sw_write(
            sw_write(r, RegId::RxEnableSetup, r.rxenable_setup | ep_mask(endpoint)),
            RegId::Iso,
            r.iso | ep_mask(endpoint),
        ),
    }
}

/// Transition taken by a bus attach from view `v`: from `Idle` the
/// mode is kept, the attach writes are issued and the state becomes
/// `Active`; from `Reset` or `Active` nothing changes — not even the
/// write log — and the warning is reported.
pub open spec fn attach_result(v: UsbView) -> (UsbView, Option<Warning>)
    recommends
        v.state is Some,
{
    match v.state {
        Some(State::Reset) => (v, Some(Warning::NotEnabled)),
        Some(State::Active(_)) => (v, Some(Warning::AlreadyAttached)),
        Some(State::Idle(mode)) => (
            UsbView { regs: attach_effect(v.regs), state: Some(State::Active(mode)), ..v },
            None,
        ),
        None => (v, None),
    }
}

/// Mathematical view of the whole driver.
#[verifier::ext_equal]
pub ghost struct UsbView {
    /// Register block: current values and the software write log.
    pub regs: RegsView,
    /// Buffer staged for each endpoint, `None` where unset.
    pub descriptors: Seq<Option<BufferAddr>>,
    /// The registered client, if any.
    pub client: Option<ClientId>,
    /// Lifecycle state; `None` only while an actor holds it.
    pub state: Option<State>,
    /// Interrupts received so far (saturating).
    pub irq_count: u64,
}

/// The USB device controller driver.
pub struct Usb {
    registers: UsbRegisters,
    descriptors: [Endpoint; 12],
    client: Option<ClientId>,
    state: StateCell,
    irq_count: u64,
}

impl View for Usb {
    type V = UsbView;

    closed spec fn view(&self) -> UsbView {
        UsbView {
            regs: self.registers@,
            descriptors: self.descriptors@.map_values(|e: Endpoint| e@),
            client: self.client,
            state: self.state@,
            irq_count: self.irq_count,
        }
    }
}

impl Usb {
    /// Well-formed between calls: no actor holds the state, and the
    /// descriptor table has one slot per endpoint.
    pub open spec fn wf(&self) -> bool {
        &&& self@.state is Some
        &&& self@.descriptors.len() == N_ENDPOINTS
    }

    /// A driver owning the register block `registers`, constructed in
    /// `Reset` with no buffers staged and no client registered.
    pub fn new(registers: UsbRegisters) -> (u: Usb)
        ensures
            u.wf(),
            u@.regs == registers@,
            u@.state == Some(State::Reset),
            u@.client is None,
            u@.irq_count == 0,
            u@.descriptors.len() == N_ENDPOINTS,
            forall|i: int| 0 <= i < N_ENDPOINTS ==> u@.descriptors[i] is None,
    {
        Usb {
            registers,
            descriptors: [
                Endpoint::new(),
                Endpoint::new(),
                Endpoint::new(),
                Endpoint::new(),
                Endpoint::new(),
                Endpoint::new(),
                Endpoint::new(),
                Endpoint::new(),
                Endpoint::new(),
                Endpoint::new(),
                Endpoint::new(),
                Endpoint::new(),
            ],
            client: None,
            state: StateCell::new(State::Reset),
            irq_count: 0,
        }
    }

    /// Register the client that receives upcalls; replaces any earlier
    /// registration.
    pub fn set_client(&mut self, client: ClientId)
        requires
            old(self).wf(),
        ensures
            final(self).wf(),
            final(self)@ == (UsbView { client: Some(client), ..old(self)@ }),
    {
        self.client = Some(client);
    }

    /// Lifecycle state as observed from outside; `None` only while an
    /// actor holds it, which never outlives a call.
    pub fn current_state(&self) -> (s: Option<State>)
        ensures
            s == self@.state,
    {
        self.state.peek()
    }

    /// The registered client, if any.
    pub fn client(&self) -> (c: Option<ClientId>)
        ensures
            c == self@.client,
    {
        self.client
    }

    /// The register block, for inspection.
    pub fn regs(&self) -> (r: &UsbRegisters)
        ensures
            r@ == self@.regs,
    {
        &self.registers
    }

    /// Interrupts received so far.
    pub fn interrupt_count(&self) -> (n: u64)
        ensures
            n == self@.irq_count,
    {
        self.irq_count
    }

    /// Buffer currently staged for `endpoint`.
    pub fn endpoint_buffer(&self, endpoint: usize) -> (b: Option<BufferAddr>)
        requires
            endpoint < N_ENDPOINTS,
        ensures
            b == self@.descriptors[endpoint as int],
    {
        let ep = self.descriptors[endpoint];
        ep.addr_value()
    }

    /// Interrupt entry point, invoked once per hardware interrupt
    /// event. This revision only records receipt of the event; it
    /// decodes nothing and writes no register. It never blocks.
    pub fn handle_interrupt(&mut self)
        requires
            old(self).wf(),
        ensures
            final(self).wf(),
            final(self)@.regs == old(self)@.regs,
            final(self)@.descriptors == old(self)@.descriptors,
            final(self)@.client == old(self)@.client,
            final(self)@.state == old(self)@.state,
            old(self)@.irq_count < u64::MAX ==> final(self)@.irq_count == old(self)@.irq_count
                + 1,
            old(self)@.irq_count == u64::MAX ==> final(self)@.irq_count == old(self)@.irq_count,
    {
        if self.irq_count < u64::MAX {
            self.irq_count = self.irq_count + 1;
        }
    }

    /// Stage `buf` for transfers in and out of `endpoint`. Valid in any
    /// controller state: buffers may be staged before the controller is
    /// enabled. The caller keeps `buf`'s memory valid and reserved for
    /// the hardware until the endpoint is disabled or reassigned.
    /// Out-of-range endpoints are a caller error, excluded by
    /// precondition.
    fn endpoint_bank_set_buffer(&mut self, endpoint: usize, buf: BufferAddr)
        requires
            old(self).wf(),
            endpoint < N_ENDPOINTS,
        ensures
            final(self).wf(),
            final(self)@ == (UsbView {
                descriptors: old(self)@.descriptors.update(endpoint as int, Some(buf)),
                ..old(self)@
            }),
    {
        let mut ep = self.descriptors[endpoint];
        ep.set_addr(buf);
        self.descriptors[endpoint] = ep;
    }

    /// Stage `buf` for the control endpoint (endpoint 0).
    pub fn endpoint_set_ctrl_buffer(&mut self, buf: BufferAddr)
        requires
            old(self).wf(),
        ensures
            final(self).wf(),
            final(self)@ == (UsbView {
                descriptors: old(self)@.descriptors.update(0, Some(buf)),
                ..old(self)@
            }),
    {
        self.endpoint_bank_set_buffer(0, buf);
    }

    /// Stage `buf` for IN transfers on `endpoint`.
    pub fn endpoint_set_in_buffer(&mut self, endpoint: usize, buf: BufferAddr)
        requires
            old(self).wf(),
            endpoint < N_ENDPOINTS,
        ensures
            final(self).wf(),
            final(self)@ == (UsbView {
                descriptors: old(self)@.descriptors.update(endpoint as int, Some(buf)),
                ..old(self)@
            }),
    {
        self.endpoint_bank_set_buffer(endpoint, buf);
    }

    /// Stage `buf` for OUT transfers on `endpoint`.
    pub fn endpoint_set_out_buffer(&mut self, endpoint: usize, buf: BufferAddr)
        requires
            old(self).wf(),
            endpoint < N_ENDPOINTS,
        ensures
            final(self).wf(),
            final(self)@ == (UsbView {
                descriptors: old(self)@.descriptors.update(endpoint as int, Some(buf)),
                ..old(self)@
            }),
    {
        self.endpoint_bank_set_buffer(endpoint, buf);
    }

    /// Set the bits of `mask` in the receive-setup enable register,
    /// keeping every other bit.
    fn set_rxenable_setup_bits(&mut self, mask: u32)
        ensures
            final(self)@ == (UsbView {
                regs: sw_write(
                    old(self)@.regs,
                    RegId::RxEnableSetup,
                    old(self)@.regs.rxenable_setup | mask,
                ),
                ..old(self)@
            }),
    {
        let v = self.registers.read_rxenable_setup();
        self.registers.write_rxenable_setup(v | mask);
    }

    /// Set the bits of `mask` in the receive-out enable register,
    /// keeping every other bit.
    fn set_rxenable_out_bits(&mut self, mask: u32)
        ensures
            final(self)@ == (UsbView {
                regs: sw_write(
                    old(self)@.regs,
                    RegId::RxEnableOut,
                    old(self)@.regs.rxenable_out | mask,
                ),
                ..old(self)@
            }),
    {
        let v = self.registers.read_rxenable_out();
        self.registers.write_rxenable_out(v | mask);
    }

    /// Set the bits of `mask` in the isochronous mask register,
    /// keeping every other bit.
    fn set_iso_bits(&mut self, mask: u32)
        ensures
            final(self)@ == (UsbView {
                regs: sw_write(old(self)@.regs, RegId::Iso, old(self)@.regs.iso | mask),
                ..old(self)@
            }),
    {
        let v = self.registers.read_iso();
        self.registers.write_iso(v | mask);
    }

    /// Enable the controller in `mode`: program the default
    /// receive-enable bits for endpoint 0, assert the global enable
    /// bit, and move to `Idle(mode)`. Calling this anywhere but `Reset`
    /// is the fatal "already enabled" programmer error, excluded by
    /// precondition; the public entry point checks the state first.
    fn enable(&mut self, mode: Mode)
        requires
            old(self).wf(),
            old(self)@.state == Some(State::Reset),
        ensures
            final(self).wf(),
            final(self)@ == (UsbView {
                regs: enable_effect(old(self)@.regs),
                state: Some(State::Idle(mode)),
                ..old(self)@
            }),
    {
        let _taken = self.state.take();
        // Set the receive-setup and receive-out bits of endpoint 0,
        // then the global enable bit, leaving all other bits in place.
        let setup = self.registers.read_rxenable_setup();
        self.registers.write_rxenable_setup(setup | field_place(0, 1, 1));
        let out = self.registers.read_rxenable_out();
        self.registers.write_rxenable_out(out | field_place(0, 1, 1));
        let ctrl = self.registers.read_usbctrl();
        self.registers.write_usbctrl(
            ctrl | field_place(USBCTRL_ENABLE_SHIFT, USBCTRL_ENABLE_WIDTH, 1),
        );
        self.state.put(State::Idle(mode));
    }

    /// Enable the controller as a device on the bus at `speed`: from
    /// `Reset` it moves to `Idle` in device mode with the default
    /// configuration and every endpoint disabled, issuing the enable
    /// writes. From any other state the call is rejected as the fatal
    /// "already enabled" programmer error and re-initializes nothing.
    pub fn enable_as_device(&mut self, speed: DeviceSpeed) -> (r: Result<(), UsbError>)
        requires
            old(self).wf(),
        ensures
            final(self).wf(),
            old(self)@.state == Some(State::Reset) ==> {
                &&& r == Ok::<(), UsbError>(())
                &&& final(self)@.state matches Some(State::Idle(m)) && mode_is_fresh_device(
                    m,
                    speed,
                )
                &&& final(self)@.regs == enable_effect(old(self)@.regs)
                &&& final(self)@.descriptors == old(self)@.descriptors
                &&& final(self)@.client == old(self)@.client
                &&& final(self)@.irq_count == old(self)@.irq_count
            },
            old(self)@.state != Some(State::Reset) ==> {
                &&& r == Err::<(), UsbError>(UsbError::AlreadyEnabled)
                &&& final(self)@ == old(self)@
            },
    {
        match self.state.peek() {
            Some(State::Reset) => {
                self.enable(
                    Mode::Device {
                        speed,
                        config: DeviceConfig::default(),
                        state: DeviceState::default(),
                    },
                );
                Ok(())
            },
            _ => Err(UsbError::AlreadyEnabled),
        }
    }

    /// Attach to the bus. From `Idle` the mode is kept, the
    /// receive-setup mask broadened, the global enable re-asserted, and
    /// the state becomes `Active`. Called before enabling, or while
    /// already attached, it is a benign no-op: it reports the warning
    /// for the embedding to log, changes no state and writes no
    /// register.
    pub fn attach(&mut self) -> (w: Option<Warning>)
        requires
            old(self).wf(),
        ensures
            final(self).wf(),
            (final(self)@, w) == attach_result(old(self)@),
    {
        let s = self.state.take();
        match s {
            State::Reset => {
                self.state.put(s);
                Some(Warning::NotEnabled)
            },
            State::Active(_) => {
                self.state.put(s);
                Some(Warning::AlreadyAttached)
            },
            State::Idle(mode) => {
                // Broaden the receive-setup mask to endpoint 10 and
                // re-assert the endpoint-0 receive-out and global
                // enable bits, keeping every bit already set.
                let setup = self.registers.read_rxenable_setup();
                self.registers.write_rxenable_setup(setup | field_place(10, 1, 1));
                let out = self.registers.read_rxenable_out();
                self.registers.write_rxenable_out(out | field_place(0, 1, 1));
                let ctrl = self.registers.read_usbctrl();
                self.registers.write_usbctrl(
                    ctrl | field_place(USBCTRL_ENABLE_SHIFT, USBCTRL_ENABLE_WIDTH, 1),
                );
                self.state.put(State::Active(mode));
                None
            },
        }
    }

    /// Detach from the bus: declared by the contract, not implemented
    /// in this revision; reports not-supported rather than silently
    /// succeeding.
    pub fn detach(&self) -> (r: Result<(), UsbError>)
        ensures
            r == Err::<(), UsbError>(UsbError::NotSupported),
    {
        Err(UsbError::NotSupported)
    }

    /// Program the device address: declared by the contract, not
    /// implemented in this revision; reports not-supported rather than
    /// silently succeeding.
    pub fn set_address(&self, _addr: u16) -> (r: Result<(), UsbError>)
        ensures
            r == Err::<(), UsbError>(UsbError::NotSupported),
    {
        Err(UsbError::NotSupported)
    }

    /// Begin using the programmed device address: declared by the
    /// contract, not implemented in this revision; reports
    /// not-supported rather than silently succeeding.
    pub fn enable_address(&self) -> (r: Result<(), UsbError>)
        ensures
            r == Err::<(), UsbError>(UsbError::NotSupported),
    {
        Err(UsbError::NotSupported)
    }

    /// Enable `endpoint` for IN transfers of `transfer_type`. Control
    /// and bulk set the endpoint's receive-setup and receive-out bits;
    /// isochronous also sets the endpoint's isochronous bit. Every
    /// other bit keeps its value, so endpoints already enabled stay
    /// enabled. Interrupt transfers are not supported and write
    /// nothing. Out-of-range endpoints are a caller error, excluded by
    /// precondition.
    pub fn endpoint_in_enable(&mut self, transfer_type: TransferType, endpoint: usize) -> (r:
        Result<(), UsbError>)
        requires
            old(self).wf(),
            endpoint < N_ENDPOINTS,
        ensures
            final(self).wf(),
            final(self)@ == (UsbView {
                regs: in_enable_effect(old(self)@.regs, transfer_type, endpoint),
                ..old(self)@
            }),
            r == if transfer_type is Interrupt {
                Err::<(), UsbError>(UsbError::NotSupported)
            } else {
                Ok::<(), UsbError>(())
            },
    {
        let mask: u32 = 1u32 << (endpoint as u32);
        match transfer_type {
            TransferType::Control => {
                self.set_rxenable_setup_bits(mask);
                self.set_rxenable_out_bits(mask);
                Ok(())
            },
            TransferType::Bulk => {
                self.set_rxenable_setup_bits(mask);
                self.set_rxenable_out_bits(mask);
                Ok(())
            },
            TransferType::Interrupt => Err(UsbError::NotSupported),
            TransferType::Isochronous => {
                self.set_rxenable_setup_bits(mask);
                self.set_rxenable_out_bits(mask);
                self.set_iso_bits(mask);
                Ok(())
            },
        }
    }

    /// Enable `endpoint` for OUT transfers of `transfer_type`. Control
    /// and bulk set only the endpoint's receive-setup bit; isochronous
    /// also sets the endpoint's isochronous bit. Every other bit keeps
    /// its value. Interrupt transfers are not supported and write
    /// nothing. Out-of-range endpoints are a caller error, excluded by
    /// precondition.
    pub fn endpoint_out_enable(&mut self, transfer_type: TransferType, endpoint: usize) -> (r:
        Result<(), UsbError>)
        requires
            old(self).wf(),
            endpoint < N_ENDPOINTS,
        ensures
            final(self).wf(),
            final(self)@ == (UsbView {
                regs: out_enable_effect(old(self)@.regs, transfer_type, endpoint),
                ..old(self)@
            }),
            r == if transfer_type is Interrupt {
                Err::<(), UsbError>(UsbError::NotSupported)
            } else {
                Ok::<(), UsbError>(())
            },
    {
        let mask: u32 = 1u32 << (endpoint as u32);
        match transfer_type {
            TransferType::Control => {
                self.set_rxenable_setup_bits(mask);
                Ok(())
            },
            TransferType::Bulk => {
                self.set_rxenable_setup_bits(mask);
                Ok(())
            },
            TransferType::Interrupt => Err(UsbError::NotSupported),
            TransferType::Isochronous => {
                self.set_rxenable_setup_bits(mask);
                self.set_iso_bits(mask);
                Ok(())
            },
        }
    }

    /// Enable an endpoint for both directions: declared by the
    /// contract, not implemented in this revision; reports
    /// not-supported rather than silently succeeding.
    pub fn endpoint_in_out_enable(&self, _transfer_type: TransferType, _endpoint: usize) -> (r:
        Result<(), UsbError>)
        ensures
            r == Err::<(), UsbError>(UsbError::NotSupported),
    {
        Err(UsbError::NotSupported)
    }

    /// Resume a paused IN transfer: declared by the contract, not
    /// implemented in this revision; reports not-supported rather than
    /// silently succeeding.
    pub fn endpoint_resume_in(&self, _endpoint: usize) -> (r: Result<(), UsbError>)
        ensures
            r == Err::<(), UsbError>(UsbError::NotSupported),
    {
        Err(UsbError::NotSupported)
    }

    /// Resume a paused OUT transfer: declared by the contract, not
    /// implemented in this revision; reports not-supported rather than
    /// silently succeeding.
    pub fn endpoint_resume_out(&self, _endpoint: usize) -> (r: Result<(), UsbError>)
        ensures
            r == Err::<(), UsbError>(UsbError::NotSupported),
    {
        Err(UsbError::NotSupported)
    }
}

/// Law: from `Idle`, an attach keeps the mode payload while moving to
/// `Active`, and a second attach changes nothing — the write log stays
/// as it was, so it issues zero register writes — and reports the
/// already-attached warning.
pub proof fn lemma_second_attach_is_benign(v: UsbView)
    requires
        v.state matches Some(State::Idle(_)),
    ensures
        ({
            let (v1, w1) = attach_result(v);
            let (v2, w2) = attach_result(v1);
            &&& w1 is None
            &&& v1.state matches Some(State::Active(mode)) && v.state == Some(State::Idle(mode))
            &&& v2 == v1
            &&& v2.regs.writes == v1.regs.writes
            &&& w2 == Some(Warning::AlreadyAttached)
        }),
{
}

/// Law: an attach straight from `Reset` changes nothing — the write
/// log stays as it was, so it issues zero register writes — and
/// reports the not-enabled warning.
pub proof fn lemma_attach_from_reset_is_benign(v: UsbView)
    requires
        v.state == Some(State::Reset),
    ensures
        attach_result(v).0 == v,
        attach_result(v).0.regs.writes == v.regs.writes,
        attach_result(v).1 == Some(Warning::NotEnabled),
{
}

/// Whether bit `i` of `v` is set.
pub open spec fn bit_set(v: u32, i: u32) -> bool {
    (v >> i) & 1 == 1
}

/// Law: enabling an endpoint for isochronous IN transfers sets exactly
/// the endpoint's receive-setup, receive-out and isochronous bits:
/// afterwards those three bits are set, every other bit of those three
/// registers keeps its value, and every other register is unchanged.
pub proof fn lemma_in_enable_iso_sets_exactly_three_bits(r: RegsView, endpoint: usize)
    requires
        endpoint < N_ENDPOINTS,
    ensures
        ({
            let post = in_enable_effect(r, TransferType::Isochronous, endpoint);
            &&& bit_set(post.rxenable_setup, endpoint as u32)
            &&& bit_set(post.rxenable_out, endpoint as u32)
            &&& bit_set(post.iso, endpoint as u32)
            &&& forall|i: u32|
                i < 32 && i != endpoint ==> #[trigger] bit_set(post.rxenable_setup, i) == bit_set(
                    r.rxenable_setup,
                    i,
                )
            &&& forall|i: u32|
                i < 32 && i != endpoint ==> #[trigger] bit_set(post.rxenable_out, i) == bit_set(
                    r.rxenable_out,
                    i,
                )
            &&& forall|i: u32|
                i < 32 && i != endpoint ==> #[trigger] bit_set(post.iso, i) == bit_set(r.iso, i)
            &&& post.intr_state == r.intr_state
            &&& post.intr_enable == r.intr_enable
            &&& post.intr_test == r.intr_test
            &&& post.usbctrl == r.usbctrl
            &&& post.usbstat == r.usbstat
            &&& post.avbuffer == r.avbuffer
            &&& post.rxfifo == r.rxfifo
            &&& post.in_sent == r.in_sent
            &&& post.stall == r.stall
            &&& post.configin == r.configin
            &&& post.data_toggle_clear == r.data_toggle_clear
            &&& post.phy_config == r.phy_config
        }),
{
    assert(forall|v: u32, e: u32|
        e < 32 ==> #[trigger] bit_set(v | (1u32 << e), e)) by (bit_vector);
    assert(forall|v: u32, e: u32, i: u32|
        e < 32 && i < 32 && i != e ==> #[trigger] bit_set(v | (1u32 << e), i) == bit_set(v, i))
        by (bit_vector);
}

/// Law: enabling an IN endpoint for control transfers and for bulk
/// transfers programs identical register writes — the receive-setup
/// and receive-out bits of that endpoint, nothing else — for every
/// endpoint.
pub proof fn lemma_in_enable_control_bulk_agree(r: RegsView, endpoint: usize)
    requires
        endpoint < N_ENDPOINTS,
    ensures
        in_enable_effect(r, TransferType::Control, endpoint) == in_enable_effect(
            r,
            TransferType::Bulk,
            endpoint,
        ),
{
}

/// Law: staging a buffer for one endpoint updates exactly that
/// descriptor slot — the slot then holds that buffer, every other slot
/// is untouched, and the table keeps its size.
pub proof fn lemma_buffer_set_targets_one_slot(
    d: Seq<Option<BufferAddr>>,
    endpoint: int,
    buf: BufferAddr,
)
    requires
        0 <= endpoint < d.len(),
    ensures
        d.update(endpoint, Some(buf))[endpoint] == Some(buf),
        forall|j: int|
            0 <= j < d.len() && j != endpoint ==> d.update(endpoint, Some(buf))[j] == d[j],
        d.update(endpoint, Some(buf)).len() == d.len(),
{
}

} // verus!
