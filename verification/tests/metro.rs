use flate2::write::GzEncoder;
use flate2::Compression;
use std::io::Write;
use trafdat::json::{implied, ObjectWriter};
use trafdat::metro::{
    build_full_json, build_json, corridor_xpath, false_str, ff_str, future_str,
    get_corridor_on_date, get_xml_file, handle_1_param_json, handle_1_param_xml,
    handle_3_params_json, handle_3_params_xml, handle_corridors, implied_str, lookup_corridors,
    none_str, right_str, snapshot_file_path, station_str, tfz_str, true_str, tt_str, zero_str,
    Camera, Commlink, Controller, Corridor, Detector, Dms, Element, Meter, RNode, TmsConfig,
};
use trafdat::request::{start, step, Action, Attempt, Event, Lookup};
use trafdat::response::{Body, ContentType, Response};
use trafdat::sensor::Config;

fn some(s: &str) -> Option<String> {
    Some(s.to_string())
}

fn gz(text: &str) -> Vec<u8> {
    let mut enc = GzEncoder::new(Vec::new(), Compression::default());
    enc.write_all(text.as_bytes()).unwrap();
    enc.finish().unwrap()
}

fn ok(content_type: ContentType, body: &str) -> Action {
    Action::Respond(Response {
        status: 200,
        content_type: Some(content_type),
        body: Body::Text(body.to_string()),
    })
}

fn not_found() -> Action {
    Action::Respond(Response {
        status: 404,
        content_type: None,
        body: Body::Text("Not Found".to_string()),
    })
}

fn corridor_35w() -> Corridor {
    Corridor {
        r_node: vec![RNode {
            detector: vec![Detector { name: some("D1"), ..Default::default() }],
            meter: vec![],
            name: some("rnd_1"),
            station_id: some("S1"),
            lon: some("-93.1"),
            lat: some("45.0"),
            ..Default::default()
        }],
        route: some("35W"),
        dir: some("NB"),
    }
}

const CORRIDOR_35W_JSON: &str = "{\"r_node\":[{\"detector\":[{\"name\":\"D1\",\"label\":\"FUTURE\",\"abandoned\":\"f\",\"category\":\"\",\"lane\":\"0\",\"field\":\"22.0\"}],\"meter\":[],\"name\":\"rnd_1\",\"n_type\":\"Station\",\"pickable\":\"f\",\"above\":\"f\",\"transition\":\"None\",\"station_id\":\"S1\",\"label\":\"\",\"lon\":\"-93.1\",\"lat\":\"45.0\",\"lanes\":\"0\",\"attach_side\":\"right\",\"shift\":\"0\",\"active\":\"t\",\"abandoned\":\"f\",\"s_limit\":\"55\"}],\"route\":\"35W\",\"dir\":\"NB\"}";

#[test]
fn defaults_of_the_document_type() {
    assert_eq!(station_str(), "Station");
    assert_eq!(false_str(), "f");
    assert_eq!(true_str(), "t");
    assert_eq!(zero_str(), "0");
    assert_eq!(none_str(), "None");
    assert_eq!(right_str(), "right");
    assert_eq!(ff_str(), "55");
    assert_eq!(tt_str(), "22.0");
    assert_eq!(tfz_str(), "240");
    assert_eq!(future_str(), "FUTURE");
    assert_eq!(implied_str(), "#IMPLIED");
    assert!(implied(&implied_str()));
    assert!(!implied(&"".to_string()));
    assert!(!implied(&"#implied".to_string()));
}

#[test]
fn a_detector_with_defaults() {
    let d = Detector { name: some("D1"), ..Default::default() };
    assert_eq!(
        d.to_json(),
        some("{\"name\":\"D1\",\"label\":\"FUTURE\",\"abandoned\":\"f\",\"category\":\"\",\"lane\":\"0\",\"field\":\"22.0\"}")
    );
}

#[test]
fn a_detector_with_everything_given() {
    let d = Detector {
        name: some("D2"),
        label: some("35W/26St"),
        abandoned: some("t"),
        category: some("H"),
        lane: some("2"),
        field: some("20.5"),
        controller: some("C7"),
    };
    assert_eq!(
        d.to_json(),
        some("{\"name\":\"D2\",\"label\":\"35W/26St\",\"abandoned\":\"t\",\"category\":\"H\",\"lane\":\"2\",\"field\":\"20.5\",\"controller\":\"C7\"}")
    );
}

#[test]
fn a_missing_required_attribute_fails() {
    assert_eq!(Detector::default().to_json(), None);
    assert_eq!(Meter { name: some("M"), ..Default::default() }.to_json(), None);
    assert_eq!(Commlink { name: some("L"), description: some("d"), protocol: None }.to_json(), None);
    let mut cor = corridor_35w();
    cor.r_node[0].detector.push(Detector::default());
    assert_eq!(cor.to_json(), None);
    assert_eq!(build_json(Some(cor)), None);
    let mut cor = corridor_35w();
    cor.dir = None;
    assert_eq!(build_json(Some(cor)), None);
    assert_eq!(build_json(None), None);
    assert_eq!(build_full_json(None), None);
    assert_eq!(build_full_json(Some(TmsConfig::default())), None);
}

#[test]
fn implied_attributes_are_left_out_unless_given() {
    let m = Meter { name: some("M1"), storage: some("300"), ..Default::default() };
    assert_eq!(m.to_json(), some("{\"name\":\"M1\",\"storage\":\"300\",\"max_wait\":\"240\"}"));
    let m = Meter {
        name: some("M1"),
        lon: some("-93"),
        lat: some("45"),
        storage: some("300"),
        max_wait: some("120"),
    };
    assert_eq!(
        m.to_json(),
        some("{\"name\":\"M1\",\"lon\":\"-93\",\"lat\":\"45\",\"storage\":\"300\",\"max_wait\":\"120\"}")
    );
    let c = Camera { name: some("C1"), description: some("cam"), ..Default::default() };
    assert_eq!(c.to_json(), some("{\"name\":\"C1\",\"description\":\"cam\"}"));
    let s = Dms { name: some("V1"), description: some("sign"), ..Default::default() };
    assert_eq!(s.to_json(), some("{\"name\":\"V1\",\"description\":\"sign\"}"));
    let s = Dms {
        name: some("V1"),
        description: some("sign"),
        width_pixels: some("125"),
        height_pixels: some("27"),
        ..Default::default()
    };
    assert_eq!(
        s.to_json(),
        some("{\"name\":\"V1\",\"description\":\"sign\",\"width_pixels\":\"125\",\"height_pixels\":\"27\"}")
    );
    let k = Controller {
        name: some("K1"),
        condition: some("Active"),
        drop: some("1"),
        location: some("here"),
        ..Default::default()
    };
    assert_eq!(
        k.to_json(),
        some("{\"name\":\"K1\",\"condition\":\"Active\",\"drop\":\"1\",\"location\":\"here\"}")
    );
    let k = Controller {
        name: some("K1"),
        condition: some("Active"),
        drop: some("1"),
        commlink: some("L1"),
        lon: some("1"),
        lat: some("2"),
        location: some("here"),
        cabinet: some("334"),
        notes: some("n"),
    };
    assert_eq!(
        k.to_json(),
        some("{\"name\":\"K1\",\"condition\":\"Active\",\"drop\":\"1\",\"commlink\":\"L1\",\"lon\":\"1\",\"lat\":\"2\",\"location\":\"here\",\"cabinet\":\"334\",\"notes\":\"n\"}")
    );
}

#[test]
fn the_sentinel_is_never_written() {
    let c = Camera {
        name: some("C1"),
        description: some("cam"),
        lon: some("#IMPLIED"),
        lat: some("45"),
    };
    assert_eq!(c.to_json(), some("{\"name\":\"C1\",\"description\":\"cam\",\"lat\":\"45\"}"));
}

#[test]
fn strings_are_escaped() {
    let l = Commlink {
        name: some("L\"1\""),
        description: some("a\\b\nc\td"),
        protocol: some("é<>&"),
    };
    assert_eq!(
        l.to_json(),
        some("{\"name\":\"L\\\"1\\\"\",\"description\":\"a\\\\b\\nc\\td\",\"protocol\":\"é<>&\"}")
    );
}

#[test]
fn a_corridor_with_defaults_filled_in() {
    assert_eq!(corridor_35w().to_json(), some(CORRIDOR_35W_JSON));
    assert_eq!(build_json(Some(corridor_35w())), some(CORRIDOR_35W_JSON));
    let empty = Corridor { r_node: vec![], route: some("94"), dir: some("EB") };
    assert_eq!(empty.to_json(), some("{\"r_node\":[],\"route\":\"94\",\"dir\":\"EB\"}"));
}

#[test]
fn a_node_with_meters_and_forks() {
    let n = RNode {
        detector: vec![],
        meter: vec![
            Meter { name: some("M1"), storage: some("1"), ..Default::default() },
            Meter { name: some("M2"), storage: some("2"), ..Default::default() },
        ],
        name: some("n"),
        lon: some("1"),
        lat: some("2"),
        forks: some("n2"),
        ..Default::default()
    };
    assert_eq!(
        n.to_json(),
        some("{\"detector\":[],\"meter\":[{\"name\":\"M1\",\"storage\":\"1\",\"max_wait\":\"240\"},{\"name\":\"M2\",\"storage\":\"2\",\"max_wait\":\"240\"}],\"name\":\"n\",\"n_type\":\"Station\",\"pickable\":\"f\",\"above\":\"f\",\"transition\":\"None\",\"label\":\"\",\"lon\":\"1\",\"lat\":\"2\",\"lanes\":\"0\",\"attach_side\":\"right\",\"shift\":\"0\",\"active\":\"t\",\"abandoned\":\"f\",\"s_limit\":\"55\",\"forks\":\"n2\"}")
    );
}

#[test]
fn a_whole_configuration() {
    let config = TmsConfig {
        corridor: vec![Corridor { r_node: vec![], route: some("94"), dir: some("EB") }],
        camera: vec![Camera { name: some("C1"), description: some("cam"), ..Default::default() }],
        commlink: vec![],
        controller: vec![],
        dms: vec![
            Dms { name: some("V1"), description: some("a"), ..Default::default() },
            Dms { name: some("V2"), description: some("b"), ..Default::default() },
        ],
        time_stamp: some("Mon Jun 15 2020"),
    };
    assert_eq!(
        build_full_json(Some(config)),
        some("{\"corridor\":[{\"r_node\":[],\"route\":\"94\",\"dir\":\"EB\"}],\"camera\":[{\"name\":\"C1\",\"description\":\"cam\"}],\"commlink\":[],\"controller\":[],\"dms\":[{\"name\":\"V1\",\"description\":\"a\"},{\"name\":\"V2\",\"description\":\"b\"}],\"time_stamp\":\"Mon Jun 15 2020\"}")
    );
    let bare = TmsConfig { time_stamp: some("t"), ..Default::default() };
    assert_eq!(
        build_full_json(Some(bare)),
        some("{\"corridor\":[],\"camera\":[],\"commlink\":[],\"controller\":[],\"dms\":[],\"time_stamp\":\"t\"}")
    );
}

#[test]
fn writing_again_what_was_written_changes_nothing() {
    // What the JSON of the corridor holds, read back attribute by attribute.
    let read_back = Corridor {
        r_node: vec![RNode {
            detector: vec![Detector {
                name: some("D1"),
                label: some("FUTURE"),
                abandoned: some("f"),
                category: some(""),
                lane: some("0"),
                field: some("22.0"),
                controller: None,
            }],
            meter: vec![],
            name: some("rnd_1"),
            n_type: some("Station"),
            pickable: some("f"),
            above: some("f"),
            transition: some("None"),
            station_id: some("S1"),
            label: some(""),
            lon: some("-93.1"),
            lat: some("45.0"),
            lanes: some("0"),
            attach_side: some("right"),
            shift: some("0"),
            active: some("t"),
            abandoned: some("f"),
            s_limit: some("55"),
            forks: None,
        }],
        route: some("35W"),
        dir: some("NB"),
    };
    assert_eq!(read_back.to_json(), corridor_35w().to_json());
}

#[test]
fn an_object_is_written_member_by_member() {
    let mut w = ObjectWriter::new();
    w.required("a", &some("1"));
    w.implied("b", &None);
    w.defaulted("c", &None, "3".to_string());
    w.list("d", &vec![some("{}"), some("{\"x\":\"y\"}")]);
    w.implied("e", &some("5"));
    assert_eq!(
        w.finish(),
        some("{\"a\":\"1\",\"c\":\"3\",\"d\":[{},{\"x\":\"y\"}],\"e\":\"5\"}")
    );
    assert_eq!(ObjectWriter::new().finish(), some("{}"));
    let mut w = ObjectWriter::new();
    w.implied("a", &None);
    w.list("b", &vec![]);
    assert_eq!(w.finish(), some("{\"b\":[]}"));
    let mut w = ObjectWriter::new();
    w.required("a", &some("1"));
    w.list("b", &vec![some("{}"), None]);
    w.required("c", &some("3"));
    assert_eq!(w.finish(), None);
    let mut w = ObjectWriter::new();
    w.required("a", &None);
    assert_eq!(w.finish(), None);
}

#[test]
fn a_snapshot_is_decompressed() {
    let xml = "<tms_config time_stamp='now'>\n  <corridor route='35W' dir='NB'/>\n</tms_config>\n";
    assert_eq!(get_xml_file(Some(gz(xml))), some(xml));
    assert_eq!(get_xml_file(Some(gz(""))), some(""));
    assert_eq!(get_xml_file(None), None);
    assert_eq!(get_xml_file(Some(vec![])), None);
    assert_eq!(get_xml_file(Some(xml.as_bytes().to_vec())), None);
    let mut not_text = GzEncoder::new(Vec::new(), Compression::default());
    not_text.write_all(&[0xff, 0xfe, 0xfd]).unwrap();
    assert_eq!(get_xml_file(Some(not_text.finish().unwrap())), None);
}

#[test]
fn snapshot_paths_and_corridor_queries() {
    assert_eq!(
        snapshot_file_path("/var/lib/iris/metro_config", "20200615"),
        "/var/lib/iris/metro_config/metro_config_20200615.xml.gz"
    );
    assert_eq!(corridor_xpath("35W", "NB"), "//corridor[@route='35W' and @dir='NB']");
    assert_eq!(corridor_xpath("", ""), "//corridor[@route='' and @dir='']");
}

#[test]
fn the_first_selected_node_is_the_corridor() {
    assert_eq!(get_corridor_on_date(None), None);
    assert_eq!(get_corridor_on_date(Some(vec![])), None);
    assert_eq!(get_corridor_on_date(Some(vec!["".to_string()])), None);
    assert_eq!(get_corridor_on_date(Some(vec!["".to_string(), "<b/>".to_string()])), None);
    assert_eq!(
        get_corridor_on_date(Some(vec!["<a/>".to_string(), "<b/>".to_string()])),
        some("<a/>")
    );
    assert_eq!(get_corridor_on_date(Some(vec![" ".to_string()])), some(" "));
    assert_eq!(get_corridor_on_date(Some(vec!["\u{301}".to_string()])), some("\u{301}"));
}

#[test]
fn corridors_are_named_by_route_and_direction() {
    let config = TmsConfig {
        corridor: vec![
            Corridor { r_node: vec![], route: some("35W"), dir: some("NB") },
            Corridor { r_node: vec![], route: some("94"), dir: some("EB") },
            Corridor { r_node: vec![], route: some("35W"), dir: some("NB") },
        ],
        ..Default::default()
    };
    assert_eq!(
        lookup_corridors(&config),
        Some(vec!["35W_NB".to_string(), "94_EB".to_string(), "35W_NB".to_string()])
    );
    assert_eq!(lookup_corridors(&TmsConfig::default()), Some(vec![]));
    let broken = TmsConfig {
        corridor: vec![
            Corridor { r_node: vec![], route: some("35W"), dir: some("NB") },
            Corridor { r_node: vec![], route: None, dir: some("EB") },
        ],
        ..Default::default()
    };
    assert_eq!(lookup_corridors(&broken), None);
}

#[test]
fn plans_for_snapshots() {
    assert_eq!(
        handle_1_param_xml("20200615"),
        vec![Attempt::Lookup(Lookup::ConfigXml { date: "20200615".to_string() })]
    );
    assert_eq!(handle_1_param_xml("2020"), vec![]);
    assert_eq!(
        handle_1_param_json("20200615"),
        vec![Attempt::Lookup(Lookup::ConfigJson { date: "20200615".to_string() })]
    );
    assert_eq!(handle_1_param_json("20201315"), vec![]);
    assert_eq!(
        handle_corridors("20200615"),
        vec![Attempt::Lookup(Lookup::Corridors { date: "20200615".to_string() })]
    );
    assert_eq!(handle_corridors("x"), vec![]);
    assert_eq!(
        handle_3_params_xml("20200615", "35W", "NB"),
        vec![Attempt::Lookup(Lookup::CorridorXml {
            date: "20200615".to_string(),
            route: "35W".to_string(),
            dir: "NB".to_string()
        })]
    );
    assert_eq!(handle_3_params_xml("0", "35W", "NB"), vec![]);
    assert_eq!(
        handle_3_params_json("20200615", "35W", "NB"),
        vec![Attempt::Lookup(Lookup::CorridorJson {
            date: "20200615".to_string(),
            route: "35W".to_string(),
            dir: "NB".to_string()
        })]
    );
    assert_eq!(handle_3_params_json("0", "35W", "NB"), vec![]);
}

#[test]
fn a_corridor_is_served_as_json() {
    let cfg = Config::default();
    let xml = "<tms_config time_stamp='now'><corridor route='35W' dir='NB'><r_node name='rnd_1' station_id='S1' lon='-93.1' lat='45.0'><detector name='D1'/></r_node></corridor></tms_config>";
    let node = "<corridor route=\"35W\" dir=\"NB\"><r_node name=\"rnd_1\" station_id=\"S1\" lon=\"-93.1\" lat=\"45.0\"><detector name=\"D1\"/></r_node></corridor>";
    let plan = handle_3_params_json("20200615", "35W", "NB");
    let (at, action) = step(&cfg, &plan, start(), Event::Start);
    assert_eq!(
        action,
        Action::LoadFile {
            path: "/var/lib/iris/metro_config/metro_config_20200615.xml.gz".to_string()
        }
    );
    let (at, action) = step(&cfg, &plan, at, Event::Bytes(Some(gz(xml))));
    assert_eq!(
        action,
        Action::SelectNodes {
            xml: xml.to_string(),
            xpath: "//corridor[@route='35W' and @dir='NB']".to_string()
        }
    );
    let (at, action) = step(&cfg, &plan, at, Event::Nodes(Some(vec![node.to_string()])));
    assert_eq!(action, Action::ParseCorridor { xml: node.to_string() });
    let (_, action) = step(&cfg, &plan, at, Event::Corridor(Some(corridor_35w())));
    assert_eq!(action, ok(ContentType::Json, CORRIDOR_35W_JSON));
}

#[test]
fn a_corridor_is_served_as_xml() {
    let cfg = Config::default();
    let plan = handle_3_params_xml("20200615", "35W", "NB");
    let (at, _) = step(&cfg, &plan, start(), Event::Start);
    let (at, action) = step(&cfg, &plan, at, Event::Bytes(Some(gz("<tms_config/>"))));
    assert_eq!(
        action,
        Action::SelectNodes {
            xml: "<tms_config/>".to_string(),
            xpath: "//corridor[@route='35W' and @dir='NB']".to_string()
        }
    );
    let (_, action) = step(&cfg, &plan, at, Event::Nodes(Some(vec!["<corridor/>".to_string()])));
    assert_eq!(action, ok(ContentType::Xml, "<corridor/>"));
}

#[test]
fn an_unmatched_corridor_is_not_found() {
    let cfg = Config::default();
    for nodes in [None, Some(vec![]), Some(vec!["".to_string()])] {
        let plan = handle_3_params_json("20200615", "35W", "NB");
        let (at, _) = step(&cfg, &plan, start(), Event::Start);
        let (at, _) = step(&cfg, &plan, at, Event::Bytes(Some(gz("<tms_config/>"))));
        let (_, action) = step(&cfg, &plan, at, Event::Nodes(nodes));
        assert_eq!(action, not_found());
    }
    let plan = handle_3_params_json("20200615", "35W", "NB");
    let (at, _) = step(&cfg, &plan, start(), Event::Start);
    let (at, _) = step(&cfg, &plan, at, Event::Bytes(Some(gz("<tms_config/>"))));
    let (at, _) = step(&cfg, &plan, at, Event::Nodes(Some(vec!["<corridor/>".to_string()])));
    let (_, action) = step(&cfg, &plan, at, Event::Corridor(None));
    assert_eq!(action, not_found());
}

#[test]
fn a_snapshot_is_served_whole() {
    let cfg = Config::default();
    let plan = handle_1_param_xml("20200615");
    let (at, _) = step(&cfg, &plan, start(), Event::Start);
    let (_, action) = step(&cfg, &plan, at, Event::Bytes(Some(gz("<tms_config/>"))));
    assert_eq!(action, ok(ContentType::Xml, "<tms_config/>"));
    let plan = handle_1_param_json("20200615");
    let (at, _) = step(&cfg, &plan, start(), Event::Start);
    let (at, action) = step(&cfg, &plan, at, Event::Bytes(Some(gz("<tms_config/>"))));
    assert_eq!(action, Action::ParseConfig { xml: "<tms_config/>".to_string() });
    let parsed = TmsConfig { time_stamp: some("t"), ..Default::default() };
    let (_, action) = step(&cfg, &plan, at, Event::Config(Some(parsed)));
    assert_eq!(
        action,
        ok(
            ContentType::Json,
            "{\"corridor\":[],\"camera\":[],\"commlink\":[],\"controller\":[],\"dms\":[],\"time_stamp\":\"t\"}"
        )
    );
}

#[test]
fn a_missing_or_broken_snapshot_is_not_found() {
    let cfg = Config::default();
    for file in [None, Some(vec![]), Some(b"<tms_config/>".to_vec())] {
        let plan = handle_1_param_xml("20200615");
        let (at, _) = step(&cfg, &plan, start(), Event::Start);
        let (_, action) = step(&cfg, &plan, at, Event::Bytes(file.clone()));
        assert_eq!(action, not_found());
        let plan = handle_1_param_json("20200615");
        let (at, _) = step(&cfg, &plan, start(), Event::Start);
        let (_, action) = step(&cfg, &plan, at, Event::Bytes(file));
        assert_eq!(action, not_found());
    }
    let plan = handle_1_param_json("20200615");
    let (at, _) = step(&cfg, &plan, start(), Event::Start);
    let (at, _) = step(&cfg, &plan, at, Event::Bytes(Some(gz("<tms_config/>"))));
    let (_, action) = step(&cfg, &plan, at, Event::Config(None));
    assert_eq!(action, not_found());
    let (_, action) = step(&cfg, &handle_1_param_xml("nodate"), start(), Event::Start);
    assert_eq!(action, not_found());
}

#[test]
fn the_corridors_of_a_date_are_listed() {
    let cfg = Config::default();
    let plan = handle_corridors("20200615");
    let (at, _) = step(&cfg, &plan, start(), Event::Start);
    let (at, action) = step(&cfg, &plan, at, Event::Bytes(Some(gz("<tms_config/>"))));
    assert_eq!(action, Action::ParseConfig { xml: "<tms_config/>".to_string() });
    let parsed = TmsConfig {
        corridor: vec![
            Corridor { r_node: vec![], route: some("35W"), dir: some("NB") },
            Corridor { r_node: vec![], route: some("94"), dir: some("EB") },
        ],
        time_stamp: some("t"),
        ..Default::default()
    };
    let (_, action) = step(&cfg, &plan, at, Event::Config(Some(parsed)));
    assert_eq!(action, ok(ContentType::Json, "[\"35W_NB\",\"94_EB\"]"));
    let (at, _) = step(&cfg, &plan, start(), Event::Start);
    let (at, _) = step(&cfg, &plan, at, Event::Bytes(Some(gz("<tms_config/>"))));
    let (_, action) = step(&cfg, &plan, at, Event::Config(Some(TmsConfig::default())));
    assert_eq!(action, not_found());
}
