use linux_video_tools::connector::connector_connection_str;
use linux_video_tools::connector::connector_subpixel_str;
use linux_video_tools::connector::connector_type_str;
use linux_video_tools::property::name_before_nul;
use linux_video_tools::Connection;
use linux_video_tools::Connector;
use linux_video_tools::ModeInfo;
use linux_video_tools::Property;
use linux_video_tools::Resources;
use linux_video_tools::SubPixel;

fn connector_with(connector_type: u32, connection: Connection, subpixel: SubPixel) -> Connector {
    Connector {
        connector_id: 31,
        encoder_id: 42,
        connector_type,
        connection,
        mm_width: 600,
        mm_height: 340,
        subpixel,
        modes: Vec::new(),
        props: Vec::new(),
        prop_values: Vec::new(),
        count_encoders: 1,
    }
}

#[test]
fn it_works() {
}

#[test]
fn type_labels_match_the_documented_table() {
    let expected: [(u32, &str); 18] = [
        (0, "unknown"),
        (1, "vga"),
        (2, "dvi-i"),
        (3, "dvi-d"),
        (4, "dvi-a"),
        (5, "composite"),
        (6, "s-video"),
        (7, "lvds"),
        (8, "component"),
        (9, "9 pin din"),
        (10, "displayport"),
        (11, "hdmi a"),
        (12, "hdmi b"),
        (13, "tv"),
        (14, "edp"),
        (15, "virtual"),
        (16, "dsi"),
        (17, "-- invalid --"),
    ];
    for (code, label) in expected {
        let c = connector_with(code, Connection::Unknown, SubPixel::Unknown);
        assert_eq!(connector_type_str(&c), label);
    }
}

#[test]
fn type_label_of_a_large_code_is_invalid() {
    let c = connector_with(4096, Connection::Unknown, SubPixel::Unknown);
    assert_eq!(connector_type_str(&c), "-- invalid --");
}

#[test]
fn connection_labels() {
    let c = connector_with(1, Connection::Connected, SubPixel::Unknown);
    assert_eq!(connector_connection_str(&c), "connected");
    let d = connector_with(1, Connection::Disconnected, SubPixel::Unknown);
    assert_eq!(connector_connection_str(&d), "disconnected");
    let u = connector_with(1, Connection::Unknown, SubPixel::Unknown);
    assert_eq!(connector_connection_str(&u), "unknown");
}

#[test]
fn subpixel_labels() {
    let expected: [(SubPixel, &str); 6] = [
        (SubPixel::Unknown, "unknown"),
        (SubPixel::HorizontalRgb, "horizontal rgb"),
        (SubPixel::HorizontalBgr, "horizontal bgr"),
        (SubPixel::VerticalRgb, "vertical rgb"),
        (SubPixel::VerticalBgr, "vertical bgr"),
        (SubPixel::NoSubpixels, "none"),
    ];
    for (sub, label) in expected {
        let c = connector_with(1, Connection::Unknown, sub);
        assert_eq!(connector_subpixel_str(&c), label);
    }
}

#[test]
fn connected_only_in_the_connected_state() {
    let c = connector_with(11, Connection::Connected, SubPixel::Unknown);
    assert!(c.connected());
    let d = connector_with(11, Connection::Disconnected, SubPixel::Unknown);
    assert!(!d.connected());
    let u = connector_with(11, Connection::Unknown, SubPixel::Unknown);
    assert!(!u.connected());
}

#[test]
fn connector_getters_hand_the_lists_back() {
    let mut c = connector_with(10, Connection::Connected, SubPixel::HorizontalRgb);
    c.modes = vec![
        ModeInfo { hdisplay: 1920, vdisplay: 1080, vrefresh: 60 },
        ModeInfo { hdisplay: 1280, vdisplay: 720, vrefresh: 50 },
    ];
    c.props = vec![2, 5];
    assert_eq!(
        c.modes(),
        &vec![
            ModeInfo { hdisplay: 1920, vdisplay: 1080, vrefresh: 60 },
            ModeInfo { hdisplay: 1280, vdisplay: 720, vrefresh: 50 },
        ]
    );
    assert_eq!(c.property_ids(), &vec![2, 5]);
}

#[test]
fn pairs_follow_the_order_of_the_lists() {
    let mut c = connector_with(10, Connection::Connected, SubPixel::Unknown);
    c.props = vec![2, 5, 7];
    c.prop_values = vec![20, 50, 70];
    assert_eq!(c.property_id_value_pairs(), vec![(2, 20), (5, 50), (7, 70)]);
}

#[test]
fn pairs_stop_at_the_shorter_list() {
    let mut c = connector_with(10, Connection::Connected, SubPixel::Unknown);
    c.props = vec![2, 5, 7];
    c.prop_values = vec![20];
    assert_eq!(c.property_id_value_pairs(), vec![(2, 20)]);

    c.props = vec![2];
    c.prop_values = vec![20, 50];
    assert_eq!(c.property_id_value_pairs(), vec![(2, 20)]);
}

#[test]
fn no_pairs_without_properties() {
    let c = connector_with(10, Connection::Connected, SubPixel::Unknown);
    assert_eq!(c.property_id_value_pairs(), vec![]);
}

#[test]
fn resources_hand_the_connector_ids_back() {
    let r = Resources::new(vec![31, 32, 33]);
    assert_eq!(r.connector_ids(), &vec![31, 32, 33]);
}

#[test]
fn resources_may_be_empty() {
    let r = Resources::new(Vec::new());
    assert_eq!(r.connector_ids(), &Vec::<u32>::new());
}

#[test]
fn name_stops_at_the_first_nul() {
    let raw = vec![b'E', b'D', b'I', b'D', 0, b'X', 0, b'Y'];
    assert_eq!(name_before_nul(&raw), b"EDID".to_vec());
}

#[test]
fn name_of_a_nul_free_array_is_the_whole_array() {
    let raw = vec![b'D', b'P', b'M', b'S'];
    assert_eq!(name_before_nul(&raw), b"DPMS".to_vec());
}

#[test]
fn name_of_a_leading_nul_is_empty() {
    let raw = vec![0, b'A', b'B'];
    assert_eq!(name_before_nul(&raw), Vec::<u8>::new());
}

#[test]
fn name_of_an_empty_array_is_empty() {
    let raw: Vec<u8> = Vec::new();
    assert_eq!(name_before_nul(&raw), Vec::<u8>::new());
}

#[test]
fn property_keeps_its_fields_and_trims_its_name() {
    let mut raw_name = vec![0u8; 32];
    raw_name[0] = b'D';
    raw_name[1] = b'P';
    raw_name[2] = b'M';
    raw_name[3] = b'S';
    let p = Property::new(2, &raw_name, 4, 4, 0);
    assert_eq!(p.prop_id, 2);
    assert_eq!(p.name, b"DPMS".to_vec());
    assert_eq!(p.count_values, 4);
    assert_eq!(p.count_enums, 4);
    assert_eq!(p.count_blobs, 0);
}
