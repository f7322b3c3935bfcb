use nucleid::{
    AllocationInfo, BufferType, CommitContext, ConnectorInfo, ConnectorUpdate, Device,
    EncoderInfo, Error, Format, Mode, ModeInfo, ObjectProperties, ObjectUpdate, Output,
    PlaneInfo, PlaneUpdate, Property, PropertyWrite,
};

fn sample_device() -> Device {
    let crtc_ids = vec![7];
    let encoders = vec![
        EncoderInfo { encoder_id: 9, encoder_type: 2, possible_crtcs: 0b1, possible_clones: 0 },
    ];
    let connectors = vec![ConnectorInfo {
        connector_id: 11,
        connector_type: 11,
        connector_type_id: 0,
        connection: 1,
        mm_width: 600,
        mm_height: 340,
        encoder_ids: vec![9],
        modes: vec![],
    }];
    let planes = vec![PlaneInfo { plane_id: 13, possible_crtcs: 0b1, formats: vec![0x34325258] }];
    Device::new(1, crtc_ids, encoders, connectors, planes).unwrap()
}

fn sample_output(device: &Device) -> Output {
    let connector = device.connectors()[0].clone();
    device.output_from_connector(&connector).unwrap()
}

fn table(object_id: u32, entries: &[(u32, &str)]) -> ObjectProperties {
    ObjectProperties {
        object_id,
        properties: entries
            .iter()
            .map(|e| Property::new(object_id, e.0, e.1.to_string(), 0))
            .collect(),
    }
}

fn full_context() -> CommitContext {
    CommitContext {
        tables: vec![
            table(7, &[(21, "ACTIVE"), (22, "MODE_ID")]),
            table(11, &[(41, "CRTC_ID")]),
            table(
                13,
                &[
                    (31, "CRTC_ID"),
                    (32, "FB_ID"),
                    (33, "CRTC_X"),
                    (34, "CRTC_Y"),
                    (35, "CRTC_W"),
                    (36, "CRTC_H"),
                ],
            ),
        ],
        mode_blob_id: Some(77),
    }
}

fn sample_mode() -> Mode {
    Mode::new(ModeInfo {
        clock: 148500,
        hdisplay: 1920,
        hsync_start: 2008,
        hsync_end: 2052,
        htotal: 2200,
        hskew: 0,
        vdisplay: 1080,
        vsync_start: 1084,
        vsync_end: 1089,
        vtotal: 1125,
        vscan: 0,
        vrefresh: 60,
        flags: 0,
        type_: 0x48,
        name: "1920x1080".to_string(),
    })
}

#[test]
fn commit_builds_the_grouped_transaction() {
    let device = sample_device();
    let output = sample_output(&device);
    let connector = device.connectors()[0].clone();
    let plane = device.planes()[0].clone();
    let alloc = AllocationInfo {
        width: 1920,
        height: 1080,
        pitch: 7680,
        size: 7680 * 1080,
        handle: 5,
    };
    let fb = device
        .allocate_buffer(BufferType::Dumb, 1920, 1080, 32, alloc)
        .unwrap()
        .into_framebuffer(Format::XRGB8888, 55);

    let (output, request) = output
        .start_update()
        .set_mode(sample_mode())
        .add_connector(ConnectorUpdate::new(&connector))
        .add_plane(
            PlaneUpdate::new(&plane)
                .set_framebuffer(&fb)
                .set_display_size(1920, 1080)
                .set_display_coordinates(0, 0),
        )
        .commit(&device, &full_context())
        .unwrap();

    // The four arrays are mutually consistent and grouped by object, the
    // objects ascending and the triples sorted.
    assert_eq!(request.objects, vec![7, 11, 13]);
    assert_eq!(request.count_props, vec![2, 1, 6]);
    assert_eq!(request.property_ids, vec![21, 22, 41, 31, 32, 33, 34, 35, 36]);
    assert_eq!(request.values, vec![1, 77, 7, 7, 55, 0, 0, 1920, 1080]);
    let total: u32 = request.count_props.iter().sum();
    assert_eq!(total as usize, request.property_ids.len());
    assert_eq!(request.values.len(), request.property_ids.len());

    // The output comes back unchanged and supports a further update.
    assert_eq!(output.crtc.id, 7);
    let (output, request) = output.start_update().commit(&device, &full_context()).unwrap();
    assert_eq!(request.objects, vec![7]);
    assert_eq!(request.property_ids, vec![21]);
    assert_eq!(request.values, vec![1]);
    assert_eq!(output.connector.id, 11);
}

#[test]
fn commit_with_unknown_property_name_is_not_found() {
    let device = sample_device();
    let output = sample_output(&device);
    let plane = device.planes()[0].clone();
    let r = output
        .start_update()
        .add_plane(PlaneUpdate::new(&plane).set_property("NONSENSE", 1))
        .commit(&device, &full_context());
    assert_eq!(r.unwrap_err(), Error::NotFound);
}

#[test]
fn commit_without_a_table_is_an_io_error() {
    let device = sample_device();
    let output = sample_output(&device);
    let plane = device.planes()[0].clone();
    let ctx = CommitContext {
        tables: vec![table(7, &[(21, "ACTIVE"), (22, "MODE_ID")])],
        mode_blob_id: None,
    };
    let r = output
        .start_update()
        .add_plane(PlaneUpdate::new(&plane))
        .commit(&device, &ctx);
    assert_eq!(r.unwrap_err(), Error::Io);
}

#[test]
fn commit_of_a_mode_without_a_blob_is_an_io_error() {
    let device = sample_device();
    let output = sample_output(&device);
    let mut ctx = full_context();
    ctx.mode_blob_id = None;
    let r = output.start_update().set_mode(sample_mode()).commit(&device, &ctx);
    assert_eq!(r.unwrap_err(), Error::Io);
}

#[test]
fn commit_on_a_destroyed_device_is_stale() {
    let mut device = sample_device();
    let output = sample_output(&device);
    device.destroy();
    let r = output.start_update().commit(&device, &full_context());
    assert_eq!(r.unwrap_err(), Error::DeviceGone);
}

#[test]
fn identical_staged_triples_collapse_to_one() {
    let device = sample_device();
    let output = sample_output(&device);
    let plane = device.planes()[0].clone();
    // Two plane updates staging the identical write: the CRTC_ID triple
    // and the FB_ID triple of the second update duplicate the first's and
    // collapse away.
    let (_, request) = output
        .start_update()
        .add_plane(PlaneUpdate::new(&plane).set_property("FB_ID", 55))
        .add_plane(PlaneUpdate::new(&plane).set_property("FB_ID", 55))
        .commit(&device, &full_context())
        .unwrap();
    assert_eq!(request.objects, vec![7, 13]);
    assert_eq!(request.count_props, vec![1, 2]);
    assert_eq!(request.property_ids, vec![21, 31, 32]);
    assert_eq!(request.values, vec![1, 7, 55]);
}

#[test]
fn conflicting_values_for_one_property_both_survive() {
    let device = sample_device();
    let output = sample_output(&device);
    let plane = device.planes()[0].clone();
    // Two updates of the same plane property with different values: only
    // full-duplicate triples collapse, so both writes are sent and the
    // kernel applies the later one.
    let (_, request) = output
        .start_update()
        .add_plane(PlaneUpdate::new(&plane).set_property("FB_ID", 55))
        .add_plane(PlaneUpdate::new(&plane).set_property("FB_ID", 56))
        .commit(&device, &full_context())
        .unwrap();
    assert_eq!(request.objects, vec![7, 13]);
    assert_eq!(request.count_props, vec![1, 3]);
    assert_eq!(request.property_ids, vec![21, 31, 32, 32]);
    assert_eq!(request.values, vec![1, 7, 55, 56]);
}

#[test]
fn last_write_wins_within_one_update() {
    let plane_info = PlaneInfo { plane_id: 13, possible_crtcs: 0b1, formats: vec![] };
    let device = Device::new(1, vec![7], vec![], vec![], vec![plane_info]).unwrap();
    let plane = device.planes()[0].clone();
    let pu = PlaneUpdate::new(&plane)
        .set_property("FB_ID", 55)
        .set_property("CRTC_W", 640)
        .set_property("FB_ID", 56);
    assert_eq!(pu.properties.len(), 2);
    assert_eq!(pu.properties[0].name, "FB_ID");
    assert_eq!(pu.properties[0].value, 56);
    assert_eq!(pu.properties[1].name, "CRTC_W");
    assert_eq!(pu.properties[1].value, 640);
}

#[test]
fn connector_update_records_symbolic_writes() {
    let device = sample_device();
    let connector = device.connectors()[0].clone();
    let cu = ConnectorUpdate::new(&connector)
        .set_property("link-status", 0)
        .set_property("link-status", 1);
    assert_eq!(cu.connector.id, 11);
    assert_eq!(cu.properties.len(), 1);
    assert_eq!(cu.properties[0].value, 1);
}

#[test]
fn assemble_request_sorts_dedups_and_groups() {
    let writes = vec![
        PropertyWrite { object_id: 20, property_id: 2, value: 9 },
        PropertyWrite { object_id: 10, property_id: 5, value: 1 },
        PropertyWrite { object_id: 20, property_id: 1, value: 3 },
        PropertyWrite { object_id: 10, property_id: 5, value: 1 },
        PropertyWrite { object_id: 10, property_id: 4, value: 8 },
    ];
    let request = nucleid::assemble_request(writes).unwrap();
    assert_eq!(request.objects, vec![10, 20]);
    assert_eq!(request.count_props, vec![2, 2]);
    assert_eq!(request.property_ids, vec![4, 5, 1, 2]);
    assert_eq!(request.values, vec![8, 1, 3, 9]);
    assert_eq!(request.writes.len(), 4);
}

#[test]
fn update_accumulation_is_monotonic() {
    let device = sample_device();
    let output = sample_output(&device);
    let plane = device.planes()[0].clone();
    let connector = device.connectors()[0].clone();
    let update = output
        .start_update()
        .add_plane(PlaneUpdate::new(&plane))
        .add_plane(PlaneUpdate::new(&plane).set_property("FB_ID", 55))
        .add_connector(ConnectorUpdate::new(&connector))
        .set_mode(sample_mode());
    assert_eq!(update.planes.len(), 2);
    assert!(update.connector.is_some());
    assert!(update.mode.is_some());
    assert_eq!(update.planes[1].properties[0].name, "FB_ID");
}
