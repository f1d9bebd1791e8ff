use litra::{
    decode_flag_response, decode_value_response, device_type_from_product_id,
    generate_commit_back_color_bytes, generate_get_back_brightness_bytes,
    generate_get_brightness_in_lumen_bytes, generate_get_temperature_in_kelvin_bytes,
    generate_is_back_on_bytes, generate_is_on_bytes, generate_set_back_brightness_percentage_bytes,
    generate_set_back_color_bytes, generate_set_back_on_bytes,
    generate_set_brightness_in_lumen_bytes, generate_set_on_bytes,
    generate_set_temperature_in_kelvin_bytes, resolve_device_type, DeviceError, DeviceType,
};

const MODELS: [DeviceType; 3] = [
    DeviceType::LitraGlow,
    DeviceType::LitraBeam,
    DeviceType::LitraBeamLX,
];

fn group(model: DeviceType) -> u8 {
    match model {
        DeviceType::LitraGlow | DeviceType::LitraBeam => 0x04,
        DeviceType::LitraBeamLX => 0x06,
    }
}

fn expected(header: [u8; 4], args: &[u8]) -> [u8; 20] {
    let mut r = [0u8; 20];
    r[..4].copy_from_slice(&header);
    r[4..4 + args.len()].copy_from_slice(args);
    r
}

#[test]
fn known_product_ids_resolve_to_their_models() {
    assert_eq!(device_type_from_product_id(0xc900), Some(DeviceType::LitraGlow));
    assert_eq!(device_type_from_product_id(0xc901), Some(DeviceType::LitraBeam));
    assert_eq!(device_type_from_product_id(0xb901), Some(DeviceType::LitraBeam));
    assert_eq!(device_type_from_product_id(0xc903), Some(DeviceType::LitraBeamLX));
    assert_eq!(resolve_device_type(0x046d, 0xc900, 0xff43), Some(DeviceType::LitraGlow));
    assert_eq!(resolve_device_type(0x046d, 0xc901, 0xff43), Some(DeviceType::LitraBeam));
    assert_eq!(resolve_device_type(0x046d, 0xb901, 0xff43), Some(DeviceType::LitraBeam));
    assert_eq!(resolve_device_type(0x046d, 0xc903, 0xff43), Some(DeviceType::LitraBeamLX));
}

#[test]
fn other_ids_are_not_supported() {
    assert_eq!(device_type_from_product_id(0xc902), None);
    assert_eq!(device_type_from_product_id(0x0000), None);
    assert_eq!(resolve_device_type(0x046d, 0xc904, 0xff43), None);
    assert_eq!(resolve_device_type(0x046e, 0xc900, 0xff43), None);
    assert_eq!(resolve_device_type(0x046d, 0xc900, 0xff00), None);
}

#[test]
fn set_brightness_report_for_every_model() {
    for model in MODELS {
        for v in [0u16, 20, 30, 250, 256, 400, 0x1234, u16::MAX] {
            let r = generate_set_brightness_in_lumen_bytes(&model, v);
            assert_eq!(r, expected([0x11, 0xff, group(model), 0x4c], &v.to_be_bytes()));
        }
    }
    let r = generate_set_brightness_in_lumen_bytes(&DeviceType::LitraBeam, 400);
    assert_eq!(&r[..6], &[0x11, 0xff, 0x04, 0x4c, 0x01, 0x90]);
}

#[test]
fn set_temperature_report_for_every_model() {
    for model in MODELS {
        for v in [2700u16, 4000, 6500] {
            let r = generate_set_temperature_in_kelvin_bytes(&model, v);
            assert_eq!(r, expected([0x11, 0xff, group(model), 0x9c], &v.to_be_bytes()));
        }
    }
    let r = generate_set_temperature_in_kelvin_bytes(&DeviceType::LitraBeamLX, 6500);
    assert_eq!(&r[..6], &[0x11, 0xff, 0x06, 0x9c, 0x19, 0x64]);
}

#[test]
fn query_and_power_reports() {
    for model in MODELS {
        let g = group(model);
        assert_eq!(generate_is_on_bytes(&model), expected([0x11, 0xff, g, 0x01], &[]));
        assert_eq!(
            generate_get_brightness_in_lumen_bytes(&model),
            expected([0x11, 0xff, g, 0x31], &[])
        );
        assert_eq!(
            generate_get_temperature_in_kelvin_bytes(&model),
            expected([0x11, 0xff, g, 0x81], &[])
        );
        assert_eq!(generate_set_on_bytes(&model, true), expected([0x11, 0xff, g, 0x1c], &[1]));
        assert_eq!(generate_set_on_bytes(&model, false), expected([0x11, 0xff, g, 0x1c], &[0]));
    }
}

#[test]
fn back_panel_reports() {
    assert_eq!(generate_is_back_on_bytes(), expected([0x11, 0xff, 0x0a, 0x3b], &[]));
    assert_eq!(generate_set_back_on_bytes(true), expected([0x11, 0xff, 0x0a, 0x4b], &[1]));
    assert_eq!(generate_set_back_on_bytes(false), expected([0x11, 0xff, 0x0a, 0x4b], &[0]));
    assert_eq!(generate_get_back_brightness_bytes(), expected([0x11, 0xff, 0x0a, 0x1b], &[]));
    assert_eq!(
        generate_set_back_brightness_percentage_bytes(55),
        expected([0x11, 0xff, 0x0a, 0x2b], &[0, 55])
    );
    assert_eq!(
        generate_set_back_color_bytes(3, 0x10, 0x20, 0x30),
        expected([0x11, 0xff, 0x0c, 0x1b], &[3, 0x10, 0x20, 0x30])
    );
    assert_eq!(generate_commit_back_color_bytes(), expected([0x11, 0xff, 0x0c, 0x7b], &[]));
}

#[test]
fn decoded_value_round_trips() {
    for v in [0u16, 1, 20, 255, 256, 400, 2700, 6500, 0xabcd, u16::MAX] {
        let reply = generate_set_brightness_in_lumen_bytes(&DeviceType::LitraGlow, v);
        assert!(matches!(decode_value_response(&reply, 20), Ok(x) if x == v));
        assert!(matches!(decode_value_response(&reply, 6), Ok(x) if x == v));
    }
    let mut reply = [0u8; 20];
    reply[4] = 0x01;
    reply[5] = 0x2c;
    assert!(matches!(decode_value_response(&reply, 20), Ok(300)));
}

#[test]
fn decoded_flag_reads_byte_four() {
    let mut reply = [0u8; 20];
    assert!(matches!(decode_flag_response(&reply, 20), Ok(false)));
    reply[4] = 1;
    assert!(matches!(decode_flag_response(&reply, 20), Ok(true)));
    assert!(matches!(decode_flag_response(&reply, 5), Ok(true)));
    reply[4] = 2;
    assert!(matches!(decode_flag_response(&reply, 20), Ok(false)));
}

#[test]
fn short_replies_are_rejected() {
    let reply = [0u8; 20];
    assert!(matches!(
        decode_flag_response(&reply, 4),
        Err(DeviceError::IncompleteResponse(4))
    ));
    assert!(matches!(
        decode_value_response(&reply, 5),
        Err(DeviceError::IncompleteResponse(5))
    ));
    assert!(matches!(
        decode_value_response(&reply, 0),
        Err(DeviceError::IncompleteResponse(0))
    ));
}
