use nucleid::{ConnectorInfo, ConnectorStatus, Device, Error, Mode, ModeInfo, ModeType};

fn mode_info(name: &str, width: u16, height: u16, refresh: u32, type_: u32) -> ModeInfo {
    ModeInfo {
        clock: 148500,
        hdisplay: width,
        hsync_start: width + 88,
        hsync_end: width + 132,
        htotal: width + 280,
        hskew: 0,
        vdisplay: height,
        vsync_start: height + 4,
        vsync_end: height + 9,
        vtotal: height + 45,
        vscan: 0,
        vrefresh: refresh,
        flags: 0,
        type_,
        name: name.to_string(),
    }
}

fn connector_info(modes: Vec<ModeInfo>, connection: u32) -> ConnectorInfo {
    ConnectorInfo {
        connector_id: 300,
        connector_type: 10, // DisplayPort
        connector_type_id: 0,
        connection,
        mm_width: 600,
        mm_height: 340,
        encoder_ids: vec![200],
        modes,
    }
}

fn sample_device() -> Device {
    Device::new(1, vec![100], vec![], vec![connector_info(vec![], 1)], vec![]).unwrap()
}

#[test]
fn mode_classification_is_mask_membership() {
    // Preferred together with Driver: the preferred test must be
    // unaffected by the other bits.
    let preferred = Mode::new(mode_info("1920x1080", 1920, 1080, 60, 0x48));
    assert!(preferred.has_type(ModeType::Preferred));
    assert!(preferred.has_type(ModeType::Driver));
    assert!(!preferred.has_type(ModeType::Builtin));

    let driver_only = Mode::new(mode_info("1280x720", 1280, 720, 60, 0x40));
    assert!(!driver_only.has_type(ModeType::Preferred));
    assert!(driver_only.has_type(ModeType::Driver));

    // ClockC's mask carries the builtin bit as well: both must be set.
    let builtin_only = Mode::new(mode_info("640x480", 640, 480, 60, 0x01));
    assert!(builtin_only.has_type(ModeType::Builtin));
    assert!(!builtin_only.has_type(ModeType::ClockC));
    let clock_c = Mode::new(mode_info("640x480", 640, 480, 60, 0x03));
    assert!(clock_c.has_type(ModeType::ClockC));
}

#[test]
fn mode_getters_report_the_timing() {
    let mode = Mode::new(mode_info("1920x1080", 1920, 1080, 60, 0x48));
    assert_eq!(mode.width(), 1920);
    assert_eq!(mode.height(), 1080);
    assert_eq!(mode.refresh(), 60);
    assert_eq!(mode.inner().name, "1920x1080");
}

#[test]
fn preferred_mode_of_connected_connector() {
    let device = sample_device();
    let modes = vec![
        mode_info("1280x720", 1280, 720, 60, 0x40),
        mode_info("1920x1080", 1920, 1080, 60, 0x48),
        mode_info("1920x1080", 1920, 1080, 30, 0x40),
    ];
    let info = connector_info(modes, 1);
    let connector = device
        .connectors()
        .iter()
        .find(|c| c.status(&device, &info).unwrap() == ConnectorStatus::Connected)
        .unwrap();

    let mode = connector.preferred_mode(&device, &info).unwrap();
    assert!(mode.has_type(ModeType::Preferred));
    assert_eq!(mode.width(), 1920);
    assert_eq!(mode.height(), 1080);
}

#[test]
fn preferred_mode_absent_is_not_found() {
    let device = sample_device();
    let info = connector_info(vec![mode_info("1280x720", 1280, 720, 60, 0x40)], 1);
    let connector = &device.connectors()[0];
    assert_eq!(connector.preferred_mode(&device, &info).unwrap_err(), Error::NotFound);
}

#[test]
fn connector_status_decodes_the_reported_code() {
    let device = sample_device();
    let connector = &device.connectors()[0];
    assert_eq!(
        connector.status(&device, &connector_info(vec![], 1)).unwrap(),
        ConnectorStatus::Connected
    );
    assert_eq!(
        connector.status(&device, &connector_info(vec![], 2)).unwrap(),
        ConnectorStatus::Disconnected
    );
    assert_eq!(
        connector.status(&device, &connector_info(vec![], 3)).unwrap(),
        ConnectorStatus::Unknown
    );
    assert_eq!(
        connector.status(&device, &connector_info(vec![], 9)).unwrap_err(),
        Error::InvalidData
    );
}

#[test]
fn modes_listing_reports_every_advertised_mode() {
    let device = sample_device();
    let info = connector_info(
        vec![
            mode_info("1920x1080", 1920, 1080, 60, 0x48),
            mode_info("1280x720", 1280, 720, 60, 0x40),
        ],
        1,
    );
    let connector = &device.connectors()[0];
    let modes = connector.modes(&device, &info).unwrap();
    assert_eq!(modes.len(), 2);
    assert_eq!(modes.get(0).unwrap().width(), 1920);
    let all = modes.into_vec();
    assert_eq!(all[1].height(), 720);
}

#[test]
fn connector_kind_getters() {
    let device = sample_device();
    let connector = &device.connectors()[0];
    assert_eq!(connector.connector_type(), nucleid::ConnectorType::DisplayPort);
    assert_eq!(connector.connector_type_id(), 0);
    assert_eq!(connector.connector_type().label(), "DisplayPort");
}
