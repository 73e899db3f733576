//! Endpoint enabling, buffer staging, the register accessors, and the
//! bit-field helpers.

use usbdev::driver::{Usb, UsbError};
use usbdev::endpoint::BufferAddr;
use usbdev::registers::{
    field_get, field_mask, field_place, UsbRegisters, CONFIGIN_BUFFER_SHIFT,
    CONFIGIN_BUFFER_WIDTH, CONFIGIN_RDY_SHIFT, CONFIGIN_RDY_WIDTH, CONFIGIN_SIZE_SHIFT,
    CONFIGIN_SIZE_WIDTH, INTR_FIELD_WIDTH, INTR_LINK_RESET_SHIFT, INTR_PKT_RECEIVED_SHIFT,
    USBCTRL_DEVICE_ADDRESS_SHIFT, USBCTRL_DEVICE_ADDRESS_WIDTH, USBCTRL_ENABLE_SHIFT,
    USBCTRL_ENABLE_WIDTH, USBSTAT_FRAME_SHIFT, USBSTAT_FRAME_WIDTH, USBSTAT_SENSE_SHIFT,
    USBSTAT_SENSE_WIDTH,
};
use usbdev::state::{BankIndex, DeviceConfig, DeviceState, EndpointState, State, TransferType,
    N_ENDPOINTS};

fn fresh() -> Usb {
    Usb::new(UsbRegisters::new())
}

#[test]
fn in_enable_control_and_bulk_program_identical_bits() {
    for e in 0..N_ENDPOINTS {
        let mut ctrl = fresh();
        let mut bulk = fresh();
        assert_eq!(ctrl.endpoint_in_enable(TransferType::Control, e), Ok(()));
        assert_eq!(bulk.endpoint_in_enable(TransferType::Bulk, e), Ok(()));
        for u in [&ctrl, &bulk] {
            let r = u.regs();
            assert_eq!(r.read_rxenable_setup(), 1 << e);
            assert_eq!(r.read_rxenable_out(), 1 << e);
            assert_eq!(r.read_iso(), 0);
            assert_eq!(r.read_usbctrl(), 0);
            assert_eq!(r.read_stall(), 0);
            assert_eq!(r.read_in_sent(), 0);
        }
    }
}

#[test]
fn in_enable_isochronous_sets_exactly_three_bits() {
    let mut u = fresh();
    assert_eq!(u.endpoint_in_enable(TransferType::Isochronous, 7), Ok(()));
    let r = u.regs();
    assert_eq!(r.read_rxenable_setup(), 1 << 7);
    assert_eq!(r.read_rxenable_out(), 1 << 7);
    assert_eq!(r.read_iso(), 1 << 7);
    assert_eq!(r.read_usbctrl(), 0);
    assert_eq!(r.read_stall(), 0);
    assert_eq!(r.read_in_sent(), 0);
    assert_eq!(r.read_intr_enable(), 0);
    assert_eq!(r.read_phy_config(), 0);
    for i in 0..N_ENDPOINTS {
        assert_eq!(r.read_configin(i), 0);
    }
}

#[test]
fn out_enable_bulk_endpoint_three_sets_only_setup_bit() {
    let mut u = fresh();
    assert_eq!(u.endpoint_out_enable(TransferType::Bulk, 3), Ok(()));
    let r = u.regs();
    assert_eq!(r.read_rxenable_setup(), 1 << 3);
    assert_eq!(r.read_rxenable_out(), 0);
    assert_eq!(r.read_iso(), 0);
}

#[test]
fn out_enable_isochronous_also_sets_iso_bit() {
    let mut u = fresh();
    assert_eq!(u.endpoint_out_enable(TransferType::Isochronous, 2), Ok(()));
    let r = u.regs();
    assert_eq!(r.read_rxenable_setup(), 1 << 2);
    assert_eq!(r.read_rxenable_out(), 0);
    assert_eq!(r.read_iso(), 1 << 2);
}

#[test]
fn enabling_more_endpoints_keeps_earlier_enables() {
    let mut u = fresh();
    assert_eq!(u.endpoint_in_enable(TransferType::Bulk, 2), Ok(()));
    assert_eq!(u.endpoint_in_enable(TransferType::Isochronous, 7), Ok(()));
    let setup_and_out = (1 << 2) | (1 << 7);
    assert_eq!(u.regs().read_rxenable_setup(), setup_and_out);
    assert_eq!(u.regs().read_rxenable_out(), setup_and_out);
    assert_eq!(u.regs().read_iso(), 1 << 7);
    assert_eq!(u.endpoint_out_enable(TransferType::Control, 5), Ok(()));
    assert_eq!(u.regs().read_rxenable_setup(), setup_and_out | (1 << 5));
    assert_eq!(u.regs().read_rxenable_out(), setup_and_out);
    assert_eq!(u.regs().read_iso(), 1 << 7);
}

#[test]
fn interrupt_transfer_type_is_not_supported() {
    let mut u = fresh();
    assert_eq!(
        u.endpoint_in_enable(TransferType::Interrupt, 1),
        Err(UsbError::NotSupported)
    );
    assert_eq!(
        u.endpoint_out_enable(TransferType::Interrupt, 1),
        Err(UsbError::NotSupported)
    );
    let r = u.regs();
    assert_eq!(r.read_rxenable_setup(), 0);
    assert_eq!(r.read_rxenable_out(), 0);
    assert_eq!(r.read_iso(), 0);
}

#[test]
fn staged_buffer_is_returned_and_other_slots_untouched() {
    let mut u = fresh();
    let buf = BufferAddr { addr: 0x2000_0000 };
    u.endpoint_set_in_buffer(4, buf);
    assert_eq!(u.endpoint_buffer(4), Some(buf));
    for e in 0..N_ENDPOINTS {
        if e != 4 {
            assert_eq!(u.endpoint_buffer(e), None);
        }
    }
    // Staging happens before the controller is enabled.
    assert_eq!(u.current_state(), Some(State::Reset));
    let other = BufferAddr { addr: 0x2000_0040 };
    u.endpoint_set_out_buffer(9, other);
    assert_eq!(u.endpoint_buffer(9), Some(other));
    assert_eq!(u.endpoint_buffer(4), Some(buf));
}

#[test]
fn ctrl_buffer_goes_to_endpoint_zero() {
    let mut u = fresh();
    let buf = BufferAddr { addr: 0x2000_1000 };
    u.endpoint_set_ctrl_buffer(buf);
    assert_eq!(u.endpoint_buffer(0), Some(buf));
    for e in 1..N_ENDPOINTS {
        assert_eq!(u.endpoint_buffer(e), None);
    }
}

#[test]
fn reassigning_a_slot_replaces_its_buffer() {
    let mut u = fresh();
    u.endpoint_set_in_buffer(5, BufferAddr { addr: 0x100 });
    u.endpoint_set_in_buffer(5, BufferAddr { addr: 0x200 });
    assert_eq!(u.endpoint_buffer(5), Some(BufferAddr { addr: 0x200 }));
}

#[test]
fn read_write_registers_round_trip() {
    let mut r = UsbRegisters::new();
    r.write_intr_state(0xaaaa);
    assert_eq!(r.read_intr_state(), 0xaaaa);
    r.write_intr_enable(0x5555);
    assert_eq!(r.read_intr_enable(), 0x5555);
    r.write_usbctrl(0x002a_0001);
    assert_eq!(r.read_usbctrl(), 0x002a_0001);
    r.write_rxenable_setup(0xfff);
    assert_eq!(r.read_rxenable_setup(), 0xfff);
    r.write_rxenable_out(0x123);
    assert_eq!(r.read_rxenable_out(), 0x123);
    r.write_in_sent(0x800);
    assert_eq!(r.read_in_sent(), 0x800);
    r.write_stall(0x7);
    assert_eq!(r.read_stall(), 0x7);
    r.write_iso(0x9);
    assert_eq!(r.read_iso(), 0x9);
    r.write_phy_config(0x1f);
    assert_eq!(r.read_phy_config(), 0x1f);
    for i in 0..N_ENDPOINTS {
        r.write_configin(i, 0x8000_0000 | i as u32);
        assert_eq!(r.read_configin(i), 0x8000_0000 | i as u32);
    }
    // A write to one configuration register leaves the others alone.
    assert_eq!(r.read_configin(0), 0x8000_0000);
    assert_eq!(r.read_configin(11), 0x8000_000b);
}

#[test]
fn read_only_registers_reflect_the_hardware_side() {
    let mut r = UsbRegisters::new();
    assert_eq!(r.read_usbstat(), 0);
    r.hw_set_usbstat(0x8001_0234);
    assert_eq!(r.read_usbstat(), 0x8001_0234);
    r.hw_set_rxfifo(0x0030_1905);
    assert_eq!(r.read_rxfifo(), 0x0030_1905);
    r.hw_set_intr_state(0x3);
    assert_eq!(r.read_intr_state(), 0x3);
}

#[test]
fn write_only_registers_touch_no_readable_register() {
    let mut r = UsbRegisters::new();
    r.write_intr_test(0x3);
    r.write_avbuffer(0x5);
    r.write_data_toggle_clear(0xfff);
    assert_eq!(r.read_intr_state(), 0);
    assert_eq!(r.read_intr_enable(), 0);
    assert_eq!(r.read_usbctrl(), 0);
    assert_eq!(r.read_rxenable_setup(), 0);
    assert_eq!(r.read_rxenable_out(), 0);
    assert_eq!(r.read_in_sent(), 0);
    assert_eq!(r.read_stall(), 0);
    assert_eq!(r.read_iso(), 0);
    assert_eq!(r.read_phy_config(), 0);
}

#[test]
fn field_helpers_place_and_extract() {
    assert_eq!(field_mask(1), 0x1);
    assert_eq!(field_mask(4), 0xf);
    assert_eq!(field_mask(10), 0x3ff);
    assert_eq!(
        field_place(USBCTRL_DEVICE_ADDRESS_SHIFT, USBCTRL_DEVICE_ADDRESS_WIDTH, 0x2a),
        0x2a << 16
    );
    assert_eq!(field_place(USBCTRL_ENABLE_SHIFT, USBCTRL_ENABLE_WIDTH, 1), 1);
    // Placing masks off bits beyond the field's width.
    assert_eq!(
        field_place(USBCTRL_DEVICE_ADDRESS_SHIFT, USBCTRL_DEVICE_ADDRESS_WIDTH, 0xff),
        0x3f << 16
    );
    let stat = field_place(USBSTAT_FRAME_SHIFT, USBSTAT_FRAME_WIDTH, 0x155)
        | field_place(USBSTAT_SENSE_SHIFT, USBSTAT_SENSE_WIDTH, 1);
    assert_eq!(field_get(stat, USBSTAT_FRAME_SHIFT, USBSTAT_FRAME_WIDTH), 0x155);
    assert_eq!(field_get(stat, USBSTAT_SENSE_SHIFT, USBSTAT_SENSE_WIDTH), 1);
    assert_eq!(
        field_get(0x002a_0001, USBCTRL_DEVICE_ADDRESS_SHIFT, USBCTRL_DEVICE_ADDRESS_WIDTH),
        0x2a
    );
}

#[test]
fn interrupt_and_configin_fields_extract() {
    let mut r = UsbRegisters::new();
    r.hw_set_intr_state(1 << INTR_LINK_RESET_SHIFT);
    let intr = r.read_intr_state();
    assert_eq!(field_get(intr, INTR_LINK_RESET_SHIFT, INTR_FIELD_WIDTH), 1);
    assert_eq!(field_get(intr, INTR_PKT_RECEIVED_SHIFT, INTR_FIELD_WIDTH), 0);
    let cfg = field_place(CONFIGIN_BUFFER_SHIFT, CONFIGIN_BUFFER_WIDTH, 3)
        | field_place(CONFIGIN_SIZE_SHIFT, CONFIGIN_SIZE_WIDTH, 32)
        | field_place(CONFIGIN_RDY_SHIFT, CONFIGIN_RDY_WIDTH, 1);
    r.write_configin(6, cfg);
    let back = r.read_configin(6);
    assert_eq!(field_get(back, CONFIGIN_BUFFER_SHIFT, CONFIGIN_BUFFER_WIDTH), 3);
    assert_eq!(field_get(back, CONFIGIN_SIZE_SHIFT, CONFIGIN_SIZE_WIDTH), 32);
    assert_eq!(field_get(back, CONFIGIN_RDY_SHIFT, CONFIGIN_RDY_WIDTH), 1);
}

#[test]
fn bank_index_converts_to_usize() {
    assert_eq!(usize::from(BankIndex::Bank0), 0);
    assert_eq!(usize::from(BankIndex::Bank1), 1);
}

#[test]
fn default_config_and_state_are_inactive() {
    let config = DeviceConfig::default();
    for c in config.endpoint_configs.iter() {
        assert!(c.is_none());
    }
    let state = DeviceState::default();
    for s in state.endpoint_states.iter() {
        assert!(matches!(s, EndpointState::Disabled));
    }
}
