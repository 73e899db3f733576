//! Typed model of the controller's memory-mapped register block.
//!
//! The block has a fixed byte layout (offsets `0x000`–`0x067`,
//! little-endian 32-bit fields). Each register carries its
//! hardware-defined access mode: write-only registers expose no read
//! accessor and read-only registers expose no write accessor, so a
//! forbidden access cannot be written down at all. Every software
//! write is an observable hardware side effect; the model records each
//! one in a ghost log, so a contract can say exactly which writes an
//! operation issued — including that it issued none.
//!
//! Read-only registers (status, receive FIFO) and the interrupt-state
//! register are filled by the hardware; the `hw_set_*` methods model
//! that side and are not software writes.

use vstd::prelude::*;

verus! {

/// Byte offset of the interrupt-state register.
pub const INTR_STATE_OFFSET: usize = 0x000;
/// Byte offset of the interrupt-enable register.
pub const INTR_ENABLE_OFFSET: usize = 0x004;
/// Byte offset of the write-only interrupt-test register.
pub const INTR_TEST_OFFSET: usize = 0x008;
/// Byte offset of the USB control register.
pub const USBCTRL_OFFSET: usize = 0x00c;
/// Byte offset of the read-only USB status register.
pub const USBSTAT_OFFSET: usize = 0x010;
/// Byte offset of the write-only available-buffer queue register.
pub const AVBUFFER_OFFSET: usize = 0x014;
/// Byte offset of the read-only receive-FIFO register.
pub const RXFIFO_OFFSET: usize = 0x018;
/// Byte offset of the per-endpoint receive-setup enable mask.
pub const RXENABLE_SETUP_OFFSET: usize = 0x01c;
/// Byte offset of the per-endpoint receive-out enable mask.
pub const RXENABLE_OUT_OFFSET: usize = 0x020;
/// Byte offset of the per-endpoint "in sent" status register.
pub const IN_SENT_OFFSET: usize = 0x024;
/// Byte offset of the per-endpoint stall control register.
pub const STALL_OFFSET: usize = 0x028;
/// Byte offset of the first of twelve per-endpoint IN configuration
/// registers; the others follow at four-byte strides.
pub const CONFIGIN_OFFSET: usize = 0x02c;
/// Byte offset of the per-endpoint isochronous mask.
pub const ISO_OFFSET: usize = 0x05c;
/// Byte offset of the write-only data-toggle-clear register.
pub const DATA_TOGGLE_CLEAR_OFFSET: usize = 0x060;
/// Byte offset of the PHY configuration register.
pub const PHY_CONFIG_OFFSET: usize = 0x064;

// Interrupt-state / enable / test registers: one bit per event.
pub const INTR_PKT_RECEIVED_SHIFT: u32 = 0;
pub const INTR_PKT_SENT_SHIFT: u32 = 1;
pub const INTR_DISCONNECTED_SHIFT: u32 = 2;
pub const INTR_HOST_LOST_SHIFT: u32 = 3;
pub const INTR_LINK_RESET_SHIFT: u32 = 4;
pub const INTR_LINK_SUSPEND_SHIFT: u32 = 5;
pub const INTR_LINK_RESUME_SHIFT: u32 = 6;
pub const INTR_AV_EMPTY_SHIFT: u32 = 7;
pub const INTR_RX_FULL_SHIFT: u32 = 8;
pub const INTR_AV_OVERFLOW_SHIFT: u32 = 9;
pub const INTR_LINK_IN_ERR_SHIFT: u32 = 10;
pub const INTR_RX_CRC_ERR_SHIFT: u32 = 11;
pub const INTR_RX_PID_ERR_SHIFT: u32 = 12;
pub const INTR_RX_BITSTUFF_ERR_SHIFT: u32 = 13;
pub const INTR_FRAME_SHIFT: u32 = 14;
pub const INTR_CONNECTED_SHIFT: u32 = 15;
/// Every interrupt field is one bit wide.
pub const INTR_FIELD_WIDTH: u32 = 1;

// USB control register fields.
pub const USBCTRL_ENABLE_SHIFT: u32 = 0;
pub const USBCTRL_ENABLE_WIDTH: u32 = 1;
pub const USBCTRL_DEVICE_ADDRESS_SHIFT: u32 = 16;
pub const USBCTRL_DEVICE_ADDRESS_WIDTH: u32 = 6;

// USB status register fields (read-only).
pub const USBSTAT_FRAME_SHIFT: u32 = 0;
pub const USBSTAT_FRAME_WIDTH: u32 = 10;
pub const USBSTAT_HOST_LOST_SHIFT: u32 = 11;
pub const USBSTAT_HOST_LOST_WIDTH: u32 = 1;
pub const USBSTAT_LINK_STATE_SHIFT: u32 = 12;
pub const USBSTAT_LINK_STATE_WIDTH: u32 = 2;
pub const USBSTAT_SENSE_SHIFT: u32 = 15;
pub const USBSTAT_SENSE_WIDTH: u32 = 1;
pub const USBSTAT_AV_DEPTH_SHIFT: u32 = 16;
pub const USBSTAT_AV_DEPTH_WIDTH: u32 = 2;
pub const USBSTAT_AV_FULL_SHIFT: u32 = 23;
pub const USBSTAT_AV_FULL_WIDTH: u32 = 1;
pub const USBSTAT_RX_DEPTH_SHIFT: u32 = 24;
pub const USBSTAT_RX_DEPTH_WIDTH: u32 = 2;
pub const USBSTAT_RX_EMPTY_SHIFT: u32 = 31;
pub const USBSTAT_RX_EMPTY_WIDTH: u32 = 1;

// Available-buffer queue register field (write-only).
pub const AVBUFFER_BUFFER_SHIFT: u32 = 0;
pub const AVBUFFER_BUFFER_WIDTH: u32 = 4;

// Receive-FIFO register fields (read-only).
pub const RXFIFO_BUFFER_SHIFT: u32 = 0;
pub const RXFIFO_BUFFER_WIDTH: u32 = 4;
pub const RXFIFO_SIZE_SHIFT: u32 = 8;
pub const RXFIFO_SIZE_WIDTH: u32 = 6;
pub const RXFIFO_SETUP_SHIFT: u32 = 19;
pub const RXFIFO_SETUP_WIDTH: u32 = 1;
pub const RXFIFO_EP_SHIFT: u32 = 20;
pub const RXFIFO_EP_WIDTH: u32 = 3;

// Per-endpoint IN configuration register fields.
pub const CONFIGIN_BUFFER_SHIFT: u32 = 0;
pub const CONFIGIN_BUFFER_WIDTH: u32 = 4;
pub const CONFIGIN_SIZE_SHIFT: u32 = 8;
pub const CONFIGIN_SIZE_WIDTH: u32 = 6;
pub const CONFIGIN_PEND_SHIFT: u32 = 30;
pub const CONFIGIN_PEND_WIDTH: u32 = 1;
pub const CONFIGIN_RDY_SHIFT: u32 = 31;
pub const CONFIGIN_RDY_WIDTH: u32 = 1;

// PHY configuration register fields.
pub const PHY_CONFIG_RX_DIFFERENTIAL_MODE_SHIFT: u32 = 0;
pub const PHY_CONFIG_TX_DIFFERENTIAL_MODE_SHIFT: u32 = 1;
pub const PHY_CONFIG_EOP_SINGLE_BIT_SHIFT: u32 = 2;
pub const PHY_CONFIG_OVERRIDE_PWR_SENSE_EN_SHIFT: u32 = 3;
pub const PHY_CONFIG_OVERRIDE_PWR_SENSE_VAL_SHIFT: u32 = 4;
/// Every PHY configuration field is one bit wide.
pub const PHY_CONFIG_FIELD_WIDTH: u32 = 1;

// The per-endpoint mask registers (receive-setup, receive-out,
// in-sent, stall, isochronous, data-toggle-clear) hold one bit per
// endpoint: endpoint `e`'s bit has shift `e` and width 1.

/// Identity of a software-writable register, as recorded in the write
/// log.
#[derive(Copy, Clone, Debug, PartialEq, Eq, Structural)]
pub enum RegId {
    IntrState,
    IntrEnable,
    IntrTest,
    UsbCtrl,
    AvBuffer,
    RxEnableSetup,
    RxEnableOut,
    InSent,
    Stall,
    ConfigIn(usize),
    Iso,
    DataToggleClear,
    PhyConfig,
}

/// One observable software write: which register, and the value.
#[derive(Copy, Clone, Debug, PartialEq, Eq, Structural)]
pub struct RegWrite {
    pub reg: RegId,
    pub value: u32,
}

/// Mathematical view of the register block: the current value of each
/// register and the log of all software writes so far.
#[verifier::ext_equal]
pub ghost struct RegsView {
    pub intr_state: u32,
    pub intr_enable: u32,
    pub intr_test: u32,
    pub usbctrl: u32,
    pub usbstat: u32,
    pub avbuffer: u32,
    pub rxfifo: u32,
    pub rxenable_setup: u32,
    pub rxenable_out: u32,
    pub in_sent: u32,
    pub stall: u32,
    pub configin: Seq<u32>,
    pub iso: u32,
    pub data_toggle_clear: u32,
    pub phy_config: u32,
    pub writes: Seq<RegWrite>,
}

/// Effect of one software write on the register block: the named
/// register takes the value, every other register is untouched, and
/// the write is appended to the log.
pub open spec fn sw_write(r: RegsView, id: RegId, v: u32) -> RegsView {
    let logged = RegsView { writes: r.writes.push(RegWrite { reg: id, value: v }), ..r };
    match id {
        RegId::IntrState => RegsView { intr_state: v, ..logged },
        RegId::IntrEnable => RegsView { intr_enable: v, ..logged },
        RegId::IntrTest => RegsView { intr_test: v, ..logged },
        RegId::UsbCtrl => RegsView { usbctrl: v, ..logged },
        RegId::AvBuffer => RegsView { avbuffer: v, ..logged },
        RegId::RxEnableSetup => RegsView { rxenable_setup: v, ..logged },
        RegId::RxEnableOut => RegsView { rxenable_out: v, ..logged },
        RegId::InSent => RegsView { in_sent: v, ..logged },
        RegId::Stall => RegsView { stall: v, ..logged },
        RegId::ConfigIn(i) => RegsView { configin: logged.configin.update(i as int, v), ..logged },
        RegId::Iso => RegsView { iso: v, ..logged },
        RegId::DataToggleClear => RegsView { data_toggle_clear: v, ..logged },
        RegId::PhyConfig => RegsView { phy_config: v, ..logged },
    }
}

/// The block as it comes out of hardware reset: every register zero,
/// no software write issued yet.
pub open spec fn regs_reset() -> RegsView {
    RegsView {
        intr_state: 0,
        intr_enable: 0,
        intr_test: 0,
        usbctrl: 0,
        usbstat: 0,
        avbuffer: 0,
        rxfifo: 0,
        rxenable_setup: 0,
        rxenable_out: 0,
        in_sent: 0,
        stall: 0,
        configin: Seq::new(12, |i: int| 0u32),
        iso: 0,
        data_toggle_clear: 0,
        phy_config: 0,
        writes: Seq::empty(),
    }
}

/// Mask of a field `width` bits wide, right-aligned.
pub open spec fn spec_field_mask(width: u32) -> u32 {
    ((1u64 << (width as u64)) - 1) as u32
}

/// Value of the field at `shift` with `width` bits in register value
/// `reg`.
pub open spec fn spec_field_get(reg: u32, shift: u32, width: u32) -> u32 {
    (reg >> shift) & spec_field_mask(width)
}

/// Register value holding exactly the field at `shift` with `width`
/// bits set to `value`, every other bit zero. This is the value a
/// whole-register field write programs.
pub open spec fn spec_field_place(shift: u32, width: u32, value: u32) -> u32 {
    (value & spec_field_mask(width)) << shift
}

/// Mask of a field `width` bits wide, right-aligned.
pub fn field_mask(width: u32) -> (r: u32)
    requires
        0 < width < 32,
    ensures
        r == spec_field_mask(width),
{
    proof {
        assert((1u64 << (width as u64)) >= 1 && (1u64 << (width as u64)) <= 0x8000_0000u64)
            by (bit_vector)
            requires
                0 < width < 32,
        ;
    }
    let m: u64 = (1u64 << (width as u64)) - 1;
    m as u32
}

/// Extract the field at `shift` with `width` bits from register value
/// `reg`.
pub fn field_get(reg: u32, shift: u32, width: u32) -> (r: u32)
    requires
        0 < width < 32,
        shift < 32,
    ensures
        r == spec_field_get(reg, shift, width),
{
    (reg >> shift) & field_mask(width)
}

/// Build the register value that programs the field at `shift` with
/// `width` bits to `value` and every other bit to zero.
pub fn field_place(shift: u32, width: u32, value: u32) -> (r: u32)
    requires
        0 < width < 32,
        shift < 32,
    ensures
        r == spec_field_place(shift, width, value),
{
    (value & field_mask(width)) << shift
}

/// The controller's register block.
///
/// Software-facing accessors follow the hardware access modes: no
/// read accessor exists for a write-only register and no write
/// accessor for a read-only one.
pub struct UsbRegisters {
    intr_state: u32,
    intr_enable: u32,
    intr_test: u32,
    usbctrl: u32,
    usbstat: u32,
    avbuffer: u32,
    rxfifo: u32,
    rxenable_setup: u32,
    rxenable_out: u32,
    in_sent: u32,
    stall: u32,
    configin: [u32; 12],
    iso: u32,
    data_toggle_clear: u32,
    phy_config: u32,
    writes: Ghost<Seq<RegWrite>>,
}

impl View for UsbRegisters {
    type V = RegsView;

    closed spec fn view(&self) -> RegsView {
        RegsView {
            intr_state: self.intr_state,
            intr_enable: self.intr_enable,
            intr_test: self.intr_test,
            usbctrl: self.usbctrl,
            usbstat: self.usbstat,
            avbuffer: self.avbuffer,
            rxfifo: self.rxfifo,
            rxenable_setup: self.rxenable_setup,
            rxenable_out: self.rxenable_out,
            in_sent: self.in_sent,
            stall: self.stall,
            configin: self.configin@,
            iso: self.iso,
            data_toggle_clear: self.data_toggle_clear,
            phy_config: self.phy_config,
            writes: self.writes@,
        }
    }
}

impl UsbRegisters {
    /// The block as it comes out of hardware reset.
    pub fn new() -> (r: Self)
        ensures
            r@ == regs_reset(),
    {
        let r = UsbRegisters {
            intr_state: 0,
            intr_enable: 0,
            intr_test: 0,
            usbctrl: 0,
            usbstat: 0,
            avbuffer: 0,
            rxfifo: 0,
            rxenable_setup: 0,
            rxenable_out: 0,
            in_sent: 0,
            stall: 0,
            configin: [0u32; 12],
            iso: 0,
            data_toggle_clear: 0,
            phy_config: 0,
            writes: Ghost(Seq::empty()),
        };
        proof {
            assert(r@.configin =~= regs_reset().configin);
            assert(r@ =~= regs_reset());
        }
        r
    }

    /// Interrupt-state register.
    pub fn read_intr_state(&self) -> (r: u32)
        ensures
            r == self@.intr_state,
    {
        self.intr_state
    }

    /// Write the interrupt-state register (write-one-to-clear on the
    /// hardware side).
    pub fn write_intr_state(&mut self, v: u32)
        ensures
            final(self)@ == sw_write(old(self)@, RegId::IntrState, v),
    {
        self.intr_state = v;
        self.writes = Ghost(self.writes@.push(RegWrite { reg: RegId::IntrState, value: v }));
    }

    /// The hardware raising interrupt-state bits; not a software write.
    pub fn hw_set_intr_state(&mut self, v: u32)
        ensures
            final(self)@ == (RegsView { intr_state: v, ..old(self)@ }),
    {
        self.intr_state = v;
    }

    /// Interrupt-enable register.
    pub fn read_intr_enable(&self) -> (r: u32)
        ensures
            r == self@.intr_enable,
    {
        self.intr_enable
    }

    /// Write the interrupt-enable register.
    pub fn write_intr_enable(&mut self, v: u32)
        ensures
            final(self)@ == sw_write(old(self)@, RegId::IntrEnable, v),
    {
        self.intr_enable = v;
        self.writes = Ghost(self.writes@.push(RegWrite { reg: RegId::IntrEnable, value: v }));
    }

    /// Write the interrupt-test register (write-only).
    pub fn write_intr_test(&mut self, v: u32)
        ensures
            final(self)@ == sw_write(old(self)@, RegId::IntrTest, v),
    {
        self.intr_test = v;
        self.writes = Ghost(self.writes@.push(RegWrite { reg: RegId::IntrTest, value: v }));
    }

    /// USB control register.
    pub fn read_usbctrl(&self) -> (r: u32)
        ensures
            r == self@.usbctrl,
    {
        self.usbctrl
    }

    /// Write the USB control register.
    pub fn write_usbctrl(&mut self, v: u32)
        ensures
            final(self)@ == sw_write(old(self)@, RegId::UsbCtrl, v),
    {
        self.usbctrl = v;
        self.writes = Ghost(self.writes@.push(RegWrite { reg: RegId::UsbCtrl, value: v }));
    }

    /// USB status register (read-only).
    pub fn read_usbstat(&self) -> (r: u32)
        ensures
            r == self@.usbstat,
    {
        self.usbstat
    }

    /// The hardware updating the status register; not a software write.
    pub fn hw_set_usbstat(&mut self, v: u32)
        ensures
            final(self)@ == (RegsView { usbstat: v, ..old(self)@ }),
    {
        self.usbstat = v;
    }

    /// Write the available-buffer queue register (write-only).
    pub fn write_avbuffer(&mut self, v: u32)
        ensures
            final(self)@ == sw_write(old(self)@, RegId::AvBuffer, v),
    {
        self.avbuffer = v;
        self.writes = Ghost(self.writes@.push(RegWrite { reg: RegId::AvBuffer, value: v }));
    }

    /// Receive-FIFO register (read-only).
    pub fn read_rxfifo(&self) -> (r: u32)
        ensures
            r == self@.rxfifo,
    {
        self.rxfifo
    }

    /// The hardware presenting a receive-FIFO entry; not a software
    /// write.
    pub fn hw_set_rxfifo(&mut self, v: u32)
        ensures
            final(self)@ == (RegsView { rxfifo: v, ..old(self)@ }),
    {
        self.rxfifo = v;
    }

    /// Per-endpoint receive-setup enable mask.
    pub fn read_rxenable_setup(&self) -> (r: u32)
        ensures
            r == self@.rxenable_setup,
    {
        self.rxenable_setup
    }

    /// Write the receive-setup enable mask.
    pub fn write_rxenable_setup(&mut self, v: u32)
        ensures
            final(self)@ == sw_write(old(self)@, RegId::RxEnableSetup, v),
    {
        self.rxenable_setup = v;
        self.writes = Ghost(self.writes@.push(RegWrite { reg: RegId::RxEnableSetup, value: v }));
    }

    /// Per-endpoint receive-out enable mask.
    pub fn read_rxenable_out(&self) -> (r: u32)
        ensures
            r == self@.rxenable_out,
    {
        self.rxenable_out
    }

    /// Write the receive-out enable mask.
    pub fn write_rxenable_out(&mut self, v: u32)
        ensures
            final(self)@ == sw_write(old(self)@, RegId::RxEnableOut, v),
    {
        self.rxenable_out = v;
        self.writes = Ghost(self.writes@.push(RegWrite { reg: RegId::RxEnableOut, value: v }));
    }

    /// Per-endpoint "in sent" status register.
    pub fn read_in_sent(&self) -> (r: u32)
        ensures
            r == self@.in_sent,
    {
        self.in_sent
    }

    /// Write the "in sent" status register (write-one-to-clear on the
    /// hardware side).
    pub fn write_in_sent(&mut self, v: u32)
        ensures
            final(self)@ == sw_write(old(self)@, RegId::InSent, v),
    {
        self.in_sent = v;
        self.writes = Ghost(self.writes@.push(RegWrite { reg: RegId::InSent, value: v }));
    }

    /// Per-endpoint stall control register.
    pub fn read_stall(&self) -> (r: u32)
        ensures
            r == self@.stall,
    {
        self.stall
    }

    /// Write the stall control register.
    pub fn write_stall(&mut self, v: u32)
        ensures
            final(self)@ == sw_write(old(self)@, RegId::Stall, v),
    {
        self.stall = v;
        self.writes = Ghost(self.writes@.push(RegWrite { reg: RegId::Stall, value: v }));
    }

    /// Per-endpoint IN configuration register `i`.
    pub fn read_configin(&self, i: usize) -> (r: u32)
        requires
            i < 12,
        ensures
            r == self@.configin[i as int],
    {
        self.configin[i]
    }

    /// Write per-endpoint IN configuration register `i`.
    pub fn write_configin(&mut self, i: usize, v: u32)
        requires
            i < 12,
        ensures
            final(self)@ == sw_write(old(self)@, RegId::ConfigIn(i), v),
    {
        self.configin[i] = v;
        self.writes = Ghost(self.writes@.push(RegWrite { reg: RegId::ConfigIn(i), value: v }));
    }

    /// Per-endpoint isochronous mask.
    pub fn read_iso(&self) -> (r: u32)
        ensures
            r == self@.iso,
    {
        self.iso
    }

    /// Write the isochronous mask.
    pub fn write_iso(&mut self, v: u32)
        ensures
            final(self)@ == sw_write(old(self)@, RegId::Iso, v),
    {
        self.iso = v;
        self.writes = Ghost(self.writes@.push(RegWrite { reg: RegId::Iso, value: v }));
    }

    /// Write the data-toggle-clear register (write-only).
    pub fn write_data_toggle_clear(&mut self, v: u32)
        ensures
            final(self)@ == sw_write(old(self)@, RegId::DataToggleClear, v),
    {
        self.data_toggle_clear = v;
        self.writes = Ghost(self.writes@.push(RegWrite { reg: RegId::DataToggleClear, value: v }));
    }

    /// PHY configuration register.
    pub fn read_phy_config(&self) -> (r: u32)
        ensures
            r == self@.phy_config,
    {
        self.phy_config
    }

    /// Write the PHY configuration register.
    pub fn write_phy_config(&mut self, v: u32)
        ensures
            final(self)@ == sw_write(old(self)@, RegId::PhyConfig, v),
    {
        self.phy_config = v;
        self.writes = Ghost(self.writes@.push(RegWrite { reg: RegId::PhyConfig, value: v }));
    }
}

} // verus!
