use nucleid::{ConnectorInfo, Device, EncoderInfo, Error, Format, PlaneInfo};

fn connector_info(id: u32, encoder_ids: Vec<u32>) -> ConnectorInfo {
    ConnectorInfo {
        connector_id: id,
        connector_type: 11, // HDMI-A
        connector_type_id: 0,
        connection: 1, // connected
        mm_width: 600,
        mm_height: 340,
        encoder_ids,
        modes: Vec::new(),
    }
}

fn sample_device() -> Device {
    let crtc_ids = vec![100, 101];
    let encoders = vec![
        EncoderInfo { encoder_id: 200, encoder_type: 2, possible_crtcs: 0b10, possible_clones: 0 },
        EncoderInfo { encoder_id: 201, encoder_type: 1, possible_crtcs: 0b01, possible_clones: 0 },
    ];
    let connectors = vec![connector_info(300, vec![201, 200])];
    let planes = vec![
        PlaneInfo {
            plane_id: 400,
            possible_crtcs: 0b01,
            formats: vec![0x34325258, 0x11111111, 0x34324752],
        },
        PlaneInfo { plane_id: 401, possible_crtcs: 0b10, formats: vec![0x34325258] },
    ];
    Device::new(1, crtc_ids, encoders, connectors, planes).unwrap()
}

#[test]
fn crtc_indices_are_contiguous() {
    let device = sample_device();
    let crtcs = device.crtcs();
    assert_eq!(crtcs.len(), 2);
    for (i, crtc) in crtcs.iter().enumerate() {
        assert_eq!(crtc.index(), i);
    }
    assert_eq!(crtcs[0].id, 100);
    assert_eq!(crtcs[1].id, 101);
}

#[test]
fn encoder_crtcs_filter_by_index_not_id() {
    let device = sample_device();
    // Encoder 200 carries mask 0b10: bit 1 names the second-discovered
    // CRTC (id 101), not any object id.
    let encoder = device.encoders()[0];
    assert_eq!(encoder.id(), 200);
    let crtcs = encoder.crtcs(&device).unwrap();
    assert_eq!(crtcs.len(), 1);
    assert_eq!(crtcs[0].id, 101);
    assert_eq!(crtcs[0].index(), 1);
}

#[test]
fn connector_encoders_follow_device_order() {
    let device = sample_device();
    // The connector reports its encoders as [201, 200]; the traversal
    // yields them in device discovery order instead.
    let connector = &device.connectors()[0];
    let encoders = connector.encoders(&device).unwrap();
    let ids: Vec<u32> = encoders.iter().map(|e| e.id()).collect();
    assert_eq!(ids, vec![200, 201]);
}

#[test]
fn plane_formats_skip_unknown_codes() {
    let device = sample_device();
    let plane = &device.planes()[0];
    let formats = plane.formats();
    assert_eq!(formats.len(), 2);
    assert_eq!(formats.get(0), Some(Format::XRGB8888));
    assert_eq!(formats.get(1), Some(Format::RGB888));
    assert!(formats.supports(Format::RGB888));
}

#[test]
fn output_from_connector_is_first_fit() {
    let device = sample_device();
    let connector = device.connectors()[0].clone();
    let output = device.output_from_connector(&connector).unwrap();
    // First reachable encoder in device order is 200; its mask selects
    // the CRTC at index 1.
    assert_eq!(output.encoder.id, 200);
    assert_eq!(output.crtc.id, 101);
    assert_eq!(output.connector.id, 300);
}

#[test]
fn output_from_connector_without_encoder_is_not_found() {
    let crtc_ids = vec![100];
    let encoders = vec![];
    let connectors = vec![connector_info(300, vec![])];
    let device = Device::new(1, crtc_ids, encoders, connectors, vec![]).unwrap();
    let connector = device.connectors()[0].clone();
    assert_eq!(device.output_from_connector(&connector).unwrap_err(), Error::NotFound);
}

#[test]
fn output_from_connector_without_crtc_is_not_found() {
    let crtc_ids = vec![100];
    let encoders = vec![
        EncoderInfo { encoder_id: 200, encoder_type: 2, possible_crtcs: 0, possible_clones: 0 },
    ];
    let connectors = vec![connector_info(300, vec![200])];
    let device = Device::new(1, crtc_ids, encoders, connectors, vec![]).unwrap();
    let connector = device.connectors()[0].clone();
    assert_eq!(device.output_from_connector(&connector).unwrap_err(), Error::NotFound);
}

#[test]
fn output_planes_filter_by_crtc_index() {
    let device = sample_device();
    let connector = device.connectors()[0].clone();
    let output = device.output_from_connector(&connector).unwrap();
    // The output's CRTC has index 1; only plane 401 carries that bit.
    let planes = output.planes(&device).unwrap();
    assert_eq!(planes.len(), 1);
    assert_eq!(planes[0].id, 401);
}

#[test]
fn unknown_encoder_type_rejects_discovery() {
    let encoders = vec![
        EncoderInfo { encoder_id: 200, encoder_type: 99, possible_crtcs: 0, possible_clones: 0 },
    ];
    let r = Device::new(1, vec![100], encoders, vec![], vec![]);
    assert_eq!(r.unwrap_err(), Error::InvalidData);
}

#[test]
fn unknown_connector_type_rejects_discovery() {
    let mut info = connector_info(300, vec![]);
    info.connector_type = 99;
    let r = Device::new(1, vec![100], vec![], vec![info], vec![]);
    assert_eq!(r.unwrap_err(), Error::InvalidData);
}

#[test]
fn destroyed_device_makes_handles_stale() {
    let mut device = sample_device();
    let connector = device.connectors()[0].clone();
    let encoder = device.encoders()[0];
    let info = connector_info(300, vec![201, 200]);
    device.destroy();
    assert_eq!(connector.status(&device, &info).unwrap_err(), Error::DeviceGone);
    assert_eq!(connector.modes(&device, &info).unwrap_err(), Error::DeviceGone);
    assert_eq!(connector.encoders(&device).unwrap_err(), Error::DeviceGone);
    assert_eq!(encoder.crtcs(&device).unwrap_err(), Error::DeviceGone);
    assert_eq!(device.output_from_connector(&connector).unwrap_err(), Error::DeviceGone);
}
