use isolapurr_usb_hub::{
    boot_supply_setpoint, decode_power_request, enable_profile_plan, ensure_allowed_address,
    format_ma_2dp_4, format_mv_2dp_5, glyph_6x8, negotiation_active, protocol_of_id,
    render_char_6x8_scaled, set_1bpp_24x48, CsSpiDevice, Field, FrameCache, I2cAllowlist,
    I2cAllowlistError, PdI2cAddr, ProtocolTag,
};

#[test]
fn power_bus_admits_only_the_charger_and_the_regulator() {
    assert_eq!(PdI2cAddr::Sw2303.as_7bit(), 0x3C);
    assert_eq!(PdI2cAddr::Tps55288.as_7bit(), 0x74);
    assert!(ensure_allowed_address::<()>(0x3C).is_ok());
    assert!(ensure_allowed_address::<()>(0x74).is_ok());
    assert_eq!(
        ensure_allowed_address::<()>(0x41),
        Err(I2cAllowlistError::NotAllowedAddress(0x41))
    );
    assert_eq!(
        ensure_allowed_address::<()>(0x00),
        Err(I2cAllowlistError::NotAllowedAddress(0x00))
    );
}

#[test]
fn power_bus_guard_owns_the_bus() {
    let mut guard = I2cAllowlist::new(3u8);
    *guard.inner_mut() = 5;
    assert_eq!(guard.into_inner(), 5);
}

#[test]
fn spi_device_pairs_bus_and_chip_select() {
    let dev = CsSpiDevice::new(11u8, 22u8);
    assert_eq!(dev.into_inner(), (11, 22));
}

#[test]
fn protocol_ids_follow_the_manual() {
    assert_eq!(protocol_of_id(1), Some(ProtocolTag::Qc20));
    assert_eq!(protocol_of_id(2), Some(ProtocolTag::Qc30));
    assert_eq!(protocol_of_id(3), Some(ProtocolTag::Fcp));
    assert_eq!(protocol_of_id(5), Some(ProtocolTag::Scp));
    assert_eq!(protocol_of_id(6), Some(ProtocolTag::Pd));
    assert_eq!(protocol_of_id(7), Some(ProtocolTag::Pd));
    assert_eq!(protocol_of_id(9), Some(ProtocolTag::Pe20));
    assert_eq!(protocol_of_id(0xC), Some(ProtocolTag::Sfcp));
    assert_eq!(protocol_of_id(0xD), Some(ProtocolTag::Afc));
    assert_eq!(protocol_of_id(0), None);
    assert_eq!(protocol_of_id(4), None);
    assert_eq!(protocol_of_id(8), None);
}

#[test]
fn decoding_reads_the_status_bits() {
    let req = decode_power_request(0x80, 0xC6, 9000, 2150);
    assert!(req.online);
    assert!(req.fast_protocol);
    assert!(req.fast_voltage);
    assert_eq!(req.negotiated_protocol, Some(ProtocolTag::Pd));
    assert_eq!(req.v_req_mv, 9000);
    assert_eq!(req.i_req_ma, 2150);

    let quiet = decode_power_request(0x00, 0x00, 5000, 500);
    assert!(!quiet.online);
    assert!(!quiet.fast_protocol);
    assert!(!quiet.fast_voltage);
    assert_eq!(quiet.negotiated_protocol, None);
}

#[test]
fn negotiation_activity_ignores_the_online_bit() {
    // Only protocol and fast-charge activity count; the ambiguous online
    // bit alone changes nothing.
    let online_only = decode_power_request(0x80, 0x00, 5000, 500);
    assert!(!negotiation_active(&online_only));

    let fast_only = decode_power_request(0x00, 0x40, 5000, 500);
    assert!(negotiation_active(&fast_only));

    let proto_only = decode_power_request(0x00, 0x06, 9000, 2000);
    assert!(negotiation_active(&proto_only));
}

#[test]
fn enable_profile_caps_power_and_enables_everything() {
    let plan = enable_profile_plan();
    assert_eq!(plan.power_cap_w, 100);
    assert!(plan.pd_enabled);
    assert!(plan.legacy_fast_charge_enabled);
    assert!(plan.all_fixed_voltages);
    assert!(plan.pps_enabled);
    assert!(plan.high_voltage_tiers);
    assert!(!plan.force_type_c_current);
}

#[test]
fn boot_setpoint_keeps_the_charger_powered() {
    let sp = boot_supply_setpoint();
    assert!(sp.output_enabled);
    assert_eq!(sp.v_out_mv, 5000);
}

#[test]
fn voltage_formats_to_five_cells() {
    assert_eq!(format_mv_2dp_5(Field::Val(5000)), *b"05.00");
    assert_eq!(format_mv_2dp_5(Field::Val(12345)), *b"12.35");
    assert_eq!(format_mv_2dp_5(Field::Val(9000)), *b"09.00");
    assert_eq!(format_mv_2dp_5(Field::Val(65535)), *b"65.54");
    assert_eq!(format_mv_2dp_5(Field::Missing), *b"ERR  ");
}

#[test]
fn current_formats_to_four_cells() {
    assert_eq!(format_ma_2dp_4(Field::Val(2100)), *b"2.10");
    assert_eq!(format_ma_2dp_4(Field::Val(150)), *b"0.15");
    assert_eq!(format_ma_2dp_4(Field::Val(65535)), *b"9.99");
    assert_eq!(format_ma_2dp_4(Field::Missing), *b"ERR ");
}

#[test]
fn frame_cache_starts_with_undrawable_cells() {
    let cache = FrameCache::empty();
    assert_eq!(cache.u17_v, *b"-----");
    assert_eq!(cache.u17_i, *b"----");
    assert_eq!(cache.set_v, *b"-----");
}

#[test]
fn pixel_setter_addresses_the_tile_row_major() {
    let mut buf = [0u8; 144];
    set_1bpp_24x48(&mut buf, 0, 0);
    assert_eq!(buf[0], 0b1000_0000);
    set_1bpp_24x48(&mut buf, 23, 0);
    assert_eq!(buf[2], 0b0000_0001);
    set_1bpp_24x48(&mut buf, 0, 1);
    assert_eq!(buf[3], 0b1000_0000);
}

#[test]
fn renderer_scales_the_glyph_into_the_tile() {
    let mut out = [1u8; 144];
    render_char_6x8_scaled(b' ', &mut out);
    assert_eq!(out, [0u8; 144]);

    // The dash glyph has only row 3 set, scaled to rows 18..24; row 0 of
    // the tile stays empty, row 18 carries the 24-pixel bar.
    let mut dash = [0u8; 144];
    render_char_6x8_scaled(b'-', &mut dash);
    assert_eq!(dash[0], 0);
    assert_eq!(dash[18 * 3], 0xFF);
    assert_eq!(dash[18 * 3 + 1], 0xFF);
    assert_eq!(dash[18 * 3 + 2], 0xFF);

    let glyph = glyph_6x8(b'-');
    assert_eq!(glyph[3], 0b111111);
    // Unknown characters fall back to the question-mark glyph.
    assert_eq!(glyph_6x8(b'~'), glyph_6x8(b'?'));
}
