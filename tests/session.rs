use litra::{
    generate_commit_back_color_bytes, generate_set_back_brightness_percentage_bytes,
    generate_set_back_color_bytes, generate_set_brightness_in_lumen_bytes,
    generate_set_temperature_in_kelvin_bytes, DeviceError, DeviceHandle, DeviceType,
};

const MODELS: [DeviceType; 3] = [
    DeviceType::LitraGlow,
    DeviceType::LitraBeam,
    DeviceType::LitraBeamLX,
];

#[test]
fn brightness_limits_per_model() {
    let glow = DeviceHandle::new(DeviceType::LitraGlow);
    assert_eq!(glow.minimum_brightness_in_lumen(), 20);
    assert_eq!(glow.maximum_brightness_in_lumen(), 250);
    for model in [DeviceType::LitraBeam, DeviceType::LitraBeamLX] {
        let h = DeviceHandle::new(model);
        assert_eq!(h.minimum_brightness_in_lumen(), 30);
        assert_eq!(h.maximum_brightness_in_lumen(), 400);
    }
    for model in MODELS {
        let h = DeviceHandle::new(model);
        assert_eq!(h.device_type(), model);
        assert_eq!(h.minimum_temperature_in_kelvin(), 2700);
        assert_eq!(h.maximum_temperature_in_kelvin(), 6500);
    }
}

#[test]
fn set_brightness_accepts_exactly_the_range() {
    for model in MODELS {
        let h = DeviceHandle::new(model);
        let min = h.minimum_brightness_in_lumen();
        let max = h.maximum_brightness_in_lumen();
        for v in [min, min + 1, max - 1, max] {
            let r = h.set_brightness_in_lumen(v).unwrap();
            assert_eq!(r, generate_set_brightness_in_lumen_bytes(&model, v));
        }
        for v in [0, min - 1, max + 1, u16::MAX] {
            assert!(matches!(
                h.set_brightness_in_lumen(v),
                Err(DeviceError::InvalidBrightness(x)) if x == v
            ));
        }
    }
}

#[test]
fn set_temperature_accepts_the_grid() {
    for model in MODELS {
        let h = DeviceHandle::new(model);
        for v in [2700u16, 2800, 5000, 6500] {
            let r = h.set_temperature_in_kelvin(v).unwrap();
            assert_eq!(r, generate_set_temperature_in_kelvin_bytes(&model, v));
        }
        for v in [0u16, 2600, 2750, 2701, 6499, 6600, u16::MAX] {
            assert!(matches!(
                h.set_temperature_in_kelvin(v),
                Err(DeviceError::InvalidTemperature(x)) if x == v
            ));
        }
    }
}

#[test]
fn brightness_from_percentage() {
    let glow = DeviceHandle::new(DeviceType::LitraGlow);
    assert_eq!(
        glow.set_brightness_percentage(0).unwrap(),
        generate_set_brightness_in_lumen_bytes(&DeviceType::LitraGlow, 20)
    );
    assert_eq!(
        glow.set_brightness_percentage(1).unwrap(),
        generate_set_brightness_in_lumen_bytes(&DeviceType::LitraGlow, 23)
    );
    assert_eq!(
        glow.set_brightness_percentage(100).unwrap(),
        generate_set_brightness_in_lumen_bytes(&DeviceType::LitraGlow, 250)
    );
    assert!(matches!(
        glow.set_brightness_percentage(101),
        Err(DeviceError::InvalidPercentage(101))
    ));
}

#[test]
fn brightness_steps_do_not_clamp() {
    let glow = DeviceHandle::new(DeviceType::LitraGlow);
    assert_eq!(
        glow.brightness_up(100, 50).unwrap(),
        generate_set_brightness_in_lumen_bytes(&DeviceType::LitraGlow, 150)
    );
    assert!(matches!(
        glow.brightness_up(200, 51),
        Err(DeviceError::InvalidBrightness(251))
    ));
    assert!(matches!(
        glow.brightness_up(200, u16::MAX),
        Err(DeviceError::InvalidBrightness(u16::MAX))
    ));
    assert_eq!(
        glow.brightness_down(100, 80).unwrap(),
        generate_set_brightness_in_lumen_bytes(&DeviceType::LitraGlow, 20)
    );
    assert!(matches!(
        glow.brightness_down(100, 81),
        Err(DeviceError::InvalidBrightness(19))
    ));
    assert!(matches!(
        glow.brightness_down(100, 200),
        Err(DeviceError::InvalidBrightness(0))
    ));
}

#[test]
fn brightness_percentage_steps() {
    let beam = DeviceHandle::new(DeviceType::LitraBeam);
    // 10% of 30..400 is 37 Lumen above the minimum.
    assert_eq!(
        beam.brightness_up_percentage(100, 10).unwrap(),
        generate_set_brightness_in_lumen_bytes(&DeviceType::LitraBeam, 137)
    );
    assert_eq!(
        beam.brightness_down_percentage(100, 10).unwrap(),
        generate_set_brightness_in_lumen_bytes(&DeviceType::LitraBeam, 63)
    );
    assert!(matches!(
        beam.brightness_up_percentage(400, 1),
        Err(DeviceError::InvalidBrightness(404))
    ));
    assert!(matches!(
        beam.brightness_down_percentage(30, 100),
        Err(DeviceError::InvalidBrightness(0))
    ));
    assert!(matches!(
        beam.brightness_up_percentage(100, 200),
        Err(DeviceError::InvalidPercentage(200))
    ));
    assert!(matches!(
        beam.brightness_down_percentage(100, 101),
        Err(DeviceError::InvalidPercentage(101))
    ));
}

#[test]
fn temperature_steps() {
    let h = DeviceHandle::new(DeviceType::LitraBeamLX);
    assert_eq!(
        h.temperature_up(6000, 500).unwrap(),
        generate_set_temperature_in_kelvin_bytes(&DeviceType::LitraBeamLX, 6500)
    );
    assert!(matches!(
        h.temperature_up(6000, 600),
        Err(DeviceError::InvalidTemperature(6600))
    ));
    assert!(matches!(
        h.temperature_up(6000, 50),
        Err(DeviceError::InvalidTemperature(6050))
    ));
    assert_eq!(
        h.temperature_down(3000, 300).unwrap(),
        generate_set_temperature_in_kelvin_bytes(&DeviceType::LitraBeamLX, 2700)
    );
    assert!(matches!(
        h.temperature_down(3000, 400),
        Err(DeviceError::InvalidTemperature(2600))
    ));
    assert!(matches!(
        h.temperature_down(3000, 3000),
        Err(DeviceError::InvalidTemperature(0))
    ));
}

#[test]
fn back_color_needs_a_back_panel() {
    for model in [DeviceType::LitraGlow, DeviceType::LitraBeam] {
        let h = DeviceHandle::new(model);
        for zone in [0u8, 1, 7, 8] {
            assert!(matches!(
                h.set_back_color(zone, 10, 20, 30),
                Err(DeviceError::UnsupportedDeviceType)
            ));
        }
        assert!(matches!(h.is_back_on_query(), Err(DeviceError::UnsupportedDeviceType)));
        assert!(matches!(h.set_back_on(true), Err(DeviceError::UnsupportedDeviceType)));
        assert!(matches!(
            h.back_brightness_percentage_query(),
            Err(DeviceError::UnsupportedDeviceType)
        ));
        assert!(matches!(
            h.set_back_brightness_percentage(50),
            Err(DeviceError::UnsupportedDeviceType)
        ));
    }
}

#[test]
fn back_color_zones() {
    let h = DeviceHandle::new(DeviceType::LitraBeamLX);
    assert!(matches!(h.set_back_color(0, 1, 2, 3), Err(DeviceError::InvalidZone(0))));
    assert!(matches!(h.set_back_color(8, 1, 2, 3), Err(DeviceError::InvalidZone(8))));
    for zone in 1..=7u8 {
        let (color, commit) = h.set_back_color(zone, 0xff, 0x80, 0x01).unwrap();
        assert_eq!(color, generate_set_back_color_bytes(zone, 0xff, 0x80, 0x01));
        assert_eq!(commit, generate_commit_back_color_bytes());
    }
}

#[test]
fn back_color_channels_are_at_least_one() {
    let h = DeviceHandle::new(DeviceType::LitraBeamLX);
    let (color, _) = h.set_back_color(2, 0, 0, 0).unwrap();
    assert_eq!(&color[..8], &[0x11, 0xff, 0x0c, 0x1b, 2, 1, 1, 1]);
    let (color, _) = h.set_back_color(5, 0, 9, 0).unwrap();
    assert_eq!(&color[4..8], &[5, 1, 9, 1]);
}

#[test]
fn back_brightness_percentage_range() {
    let h = DeviceHandle::new(DeviceType::LitraBeamLX);
    for v in [1u8, 50, 100] {
        assert_eq!(
            h.set_back_brightness_percentage(v).unwrap(),
            generate_set_back_brightness_percentage_bytes(v)
        );
    }
    for v in [0u8, 101, 255] {
        assert!(matches!(
            h.set_back_brightness_percentage(v),
            Err(DeviceError::InvalidPercentage(x)) if x == v
        ));
    }
    assert_eq!(
        h.back_brightness_up(40, 60).unwrap(),
        generate_set_back_brightness_percentage_bytes(100)
    );
    assert!(matches!(
        h.back_brightness_up(40, 61),
        Err(DeviceError::InvalidPercentage(101))
    ));
    assert!(matches!(
        h.back_brightness_up(200, 100),
        Err(DeviceError::InvalidPercentage(255))
    ));
    assert_eq!(
        h.back_brightness_down(40, 39).unwrap(),
        generate_set_back_brightness_percentage_bytes(1)
    );
    assert!(matches!(
        h.back_brightness_down(40, 40),
        Err(DeviceError::InvalidPercentage(0))
    ));
}

#[test]
fn back_panel_power_on_beam_lx() {
    let h = DeviceHandle::new(DeviceType::LitraBeamLX);
    assert_eq!(&h.is_back_on_query().unwrap()[..4], &[0x11, 0xff, 0x0a, 0x3b]);
    assert_eq!(&h.set_back_on(true).unwrap()[..5], &[0x11, 0xff, 0x0a, 0x4b, 1]);
    assert_eq!(
        &h.back_brightness_percentage_query().unwrap()[..4],
        &[0x11, 0xff, 0x0a, 0x1b]
    );
}

#[test]
fn front_queries_and_power() {
    let h = DeviceHandle::new(DeviceType::LitraBeamLX);
    assert_eq!(&h.is_on_query()[..4], &[0x11, 0xff, 0x06, 0x01]);
    assert_eq!(&h.brightness_in_lumen_query()[..4], &[0x11, 0xff, 0x06, 0x31]);
    assert_eq!(&h.temperature_in_kelvin_query()[..4], &[0x11, 0xff, 0x06, 0x81]);
    assert_eq!(&h.set_on(true)[..5], &[0x11, 0xff, 0x06, 0x1c, 1]);
    assert_eq!(&h.set_on(false)[..5], &[0x11, 0xff, 0x06, 0x1c, 0]);
}
