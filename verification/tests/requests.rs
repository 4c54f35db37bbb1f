use std::io::{Cursor, Write};
use trafdat::lister::{DirEntry, FileKind};
use trafdat::request::{start, step, Action, Attempt, Event, Lookup, Position, Stage};
use trafdat::response::{Body, ContentType, Response};
use trafdat::sensor::{
    handle_1_param, handle_2_params, handle_2_params_json, handle_3_params,
    handle_3_params_json, handle_did_date, handle_did_date_sid, handle_did_date_sid_ext,
    handle_did_date_sidext, handle_did_year, handle_did_year_date, handle_did_year_date_sidext,
    handle_did_year_json, handle_districts_json, read_path_sid_ext, Config, OutputMode,
};
use trafdat::request::Progress;
use zip::write::SimpleFileOptions;
use zip::ZipWriter;

fn dir(name: &str) -> DirEntry {
    DirEntry { name: Some(name.to_string()), kind: Some(FileKind::Dir) }
}

fn file(name: &str) -> DirEntry {
    DirEntry { name: Some(name.to_string()), kind: Some(FileKind::File) }
}

fn one_member(name: &str, data: &[u8]) -> Vec<u8> {
    let mut zip = ZipWriter::new(Cursor::new(Vec::new()));
    zip.start_file(name, SimpleFileOptions::default()).unwrap();
    zip.write_all(data).unwrap();
    zip.finish().unwrap().into_inner()
}

fn sensors(district: &str, date: &str) -> Attempt {
    Attempt::Lookup(Lookup::Sensors { district: district.to_string(), date: date.to_string() })
}

fn sample(district: &str, date: &str, sid: &str, ext: &str, mode: OutputMode) -> Attempt {
    Attempt::Lookup(Lookup::Sample {
        district: district.to_string(),
        date: date.to_string(),
        sid: sid.to_string(),
        ext: ext.to_string(),
        mode,
    })
}

fn ok(content_type: ContentType, body: &str) -> Action {
    Action::Respond(Response {
        status: 200,
        content_type: Some(content_type),
        body: Body::Text(body.to_string()),
    })
}

fn not_found() -> Action {
    Action::Respond(Response {
        status: 404,
        content_type: None,
        body: Body::Text("Not Found".to_string()),
    })
}

fn bad_request() -> Action {
    Action::Respond(Response {
        status: 400,
        content_type: None,
        body: Body::Text("Bad request".to_string()),
    })
}

#[test]
fn single_readings() {
    assert_eq!(
        handle_did_year("tms", "2020"),
        Some(Attempt::Lookup(Lookup::DatesText {
            district: "tms".to_string(),
            year: "2020".to_string()
        }))
    );
    assert_eq!(handle_did_year("tms", "1899"), None);
    assert_eq!(
        handle_did_year_json("d7", "2021"),
        Some(Attempt::Lookup(Lookup::DatesJson {
            district: "d7".to_string(),
            year: "2021".to_string()
        }))
    );
    assert_eq!(handle_did_year_json("d7", "x"), None);
    assert_eq!(handle_did_date("tms", "20200101"), Some(sensors("tms", "20200101")));
    assert_eq!(handle_did_date("tms", "2020"), None);
    assert_eq!(
        handle_did_date_sid("tms", "20200101", "100"),
        Some(Attempt::Lookup(Lookup::Extensions {
            district: "tms".to_string(),
            date: "20200101".to_string(),
            sid: "100".to_string()
        }))
    );
    assert_eq!(handle_did_date_sid("tms", "20200199", "100"), None);
}

#[test]
fn readings_of_a_sample_file() {
    assert_eq!(
        handle_did_date_sid_ext(OutputMode::Binary, "tms", "20200101", "100", "v30"),
        Some(sample("tms", "20200101", "100", "v30", OutputMode::Binary))
    );
    assert_eq!(handle_did_date_sid_ext(OutputMode::Binary, "tms", "20200101", "100", "v7"), None);
    assert_eq!(handle_did_date_sid_ext(OutputMode::Binary, "tms", "2020", "100", "v30"), None);
    assert_eq!(
        handle_did_date_sidext(OutputMode::Json, "tms", "20200101", "100.v30"),
        Some(sample("tms", "20200101", "100", "v30", OutputMode::Json))
    );
    assert_eq!(
        handle_did_date_sidext(OutputMode::Json, "tms", "20200101", ".vlog"),
        Some(sample("tms", "20200101", "", "vlog", OutputMode::Json))
    );
    assert_eq!(handle_did_date_sidext(OutputMode::Json, "tms", "20200101", "100"), None);
    assert_eq!(handle_did_date_sidext(OutputMode::Json, "tms", "20200101", "100.a.v30"), None);
    assert_eq!(handle_did_date_sidext(OutputMode::Json, "tms", "20200101", "100."), None);
}

#[test]
fn a_year_that_disagrees_with_the_date_is_refused() {
    assert_eq!(handle_did_year_date("tms", "2020", "20200101"), Some(sensors("tms", "20200101")));
    assert_eq!(handle_did_year_date("tms", "2020", "20210101"), Some(Attempt::BadRequest));
    assert_eq!(handle_did_year_date("tms", "+2020", "20200101"), Some(Attempt::BadRequest));
    assert_eq!(handle_did_year_date("tms", "2020", "2020"), None);
    assert_eq!(handle_did_year_date("tms", "tms", "20200101"), None);
    assert_eq!(
        handle_did_year_date_sidext(OutputMode::Binary, "tms", "2020", "20200101", "100.v30"),
        Some(sample("tms", "20200101", "100", "v30", OutputMode::Binary))
    );
    assert_eq!(
        handle_did_year_date_sidext(OutputMode::Binary, "tms", "2021", "20200101", "100.v30"),
        Some(Attempt::BadRequest)
    );
    assert_eq!(
        handle_did_year_date_sidext(OutputMode::Binary, "tms", "2021", "20200101", "nothing"),
        Some(Attempt::BadRequest)
    );
    assert_eq!(
        handle_did_year_date_sidext(OutputMode::Binary, "tms", "2020", "20200101", "nothing"),
        None
    );
}

#[test]
fn plans_list_the_readings_in_order() {
    let cfg = Config::default();
    assert_eq!(handle_districts_json(), vec![Attempt::Lookup(Lookup::Districts)]);
    assert_eq!(
        handle_1_param(&cfg, "2020"),
        vec![Attempt::Lookup(Lookup::DatesText {
            district: "tms".to_string(),
            year: "2020".to_string()
        })]
    );
    assert_eq!(handle_1_param(&cfg, "districts"), vec![]);
    assert_eq!(
        handle_2_params_json("d7", "2020"),
        vec![Attempt::Lookup(Lookup::DatesJson {
            district: "d7".to_string(),
            year: "2020".to_string()
        })]
    );
    assert_eq!(handle_2_params_json("d7", "20200101"), vec![]);
    // A district and a date.
    assert_eq!(handle_2_params(&cfg, "d7", "20200101"), vec![sensors("d7", "20200101")]);
    // A year and a date: both the first and the second reading hold.
    assert_eq!(
        handle_2_params(&cfg, "2020", "20200101"),
        vec![sensors("2020", "20200101"), sensors("tms", "20200101")]
    );
    // A year and a date that disagree: the refusal ends the plan.
    assert_eq!(
        handle_2_params(&cfg, "2021", "20200101"),
        vec![sensors("2021", "20200101"), Attempt::BadRequest]
    );
    // A district and a year.
    assert_eq!(
        handle_2_params(&cfg, "d7", "2020"),
        vec![Attempt::Lookup(Lookup::DatesText {
            district: "d7".to_string(),
            year: "2020".to_string()
        })]
    );
    assert_eq!(handle_2_params(&cfg, "d7", "x"), vec![]);
}

#[test]
fn plans_of_three_parameters() {
    let cfg = Config::default();
    assert_eq!(
        handle_3_params(&cfg, "tms", "20200101", "100.v30"),
        vec![sample("tms", "20200101", "100", "v30", OutputMode::Binary)]
    );
    assert_eq!(
        handle_3_params(&cfg, "2020", "20200101", "100.v30"),
        vec![
            sample("2020", "20200101", "100", "v30", OutputMode::Binary),
            sample("tms", "20200101", "100", "v30", OutputMode::Binary)
        ]
    );
    assert_eq!(
        handle_3_params(&cfg, "d7", "2020", "20200101"),
        vec![sensors("d7", "20200101")]
    );
    assert_eq!(handle_3_params(&cfg, "tms", "2020", "20210101"), vec![Attempt::BadRequest]);
    assert_eq!(
        handle_3_params(&cfg, "2021", "20200101", "100.v30"),
        vec![sample("2021", "20200101", "100", "v30", OutputMode::Binary), Attempt::BadRequest]
    );
    assert_eq!(
        handle_3_params_json(&cfg, "tms", "20200101", "100.v30"),
        vec![
            sample("tms", "20200101", "100", "v30", OutputMode::Json),
            Attempt::Lookup(Lookup::Extensions {
                district: "tms".to_string(),
                date: "20200101".to_string(),
                sid: "100.v30".to_string()
            })
        ]
    );
    assert_eq!(
        handle_3_params_json(&cfg, "tms", "20200101", "100"),
        vec![Attempt::Lookup(Lookup::Extensions {
            district: "tms".to_string(),
            date: "20200101".to_string(),
            sid: "100".to_string()
        })]
    );
    assert_eq!(
        handle_3_params_json(&cfg, "2021", "20200101", "100.v30"),
        vec![
            sample("2021", "20200101", "100", "v30", OutputMode::Json),
            Attempt::Lookup(Lookup::Extensions {
                district: "2021".to_string(),
                date: "20200101".to_string(),
                sid: "100.v30".to_string()
            }),
            Attempt::BadRequest
        ]
    );
    assert_eq!(handle_3_params_json(&cfg, "tms", "2020", "20210101"), vec![]);
}

#[test]
fn districts_are_listed_as_json() {
    let cfg = Config::default();
    let plan = handle_districts_json();
    let (at, action) = step(&cfg, &plan, start(), Event::Start);
    assert_eq!(action, Action::ListDir { path: "/var/lib/iris/traffic".to_string() });
    assert_eq!(at, Position { pos: 0, stage: Stage::Listing });
    let entries = vec![dir("tms"), dir("rtest"), file("README")];
    let (at, action) = step(&cfg, &plan, at, Event::Entries(Some(entries)));
    assert_eq!(action, ok(ContentType::Json, "[\"tms\",\"rtest\"]"));
    assert_eq!(at, Position { pos: 1, stage: Stage::Start });
    let (_, again) = step(&cfg, &plan, at, Event::Start);
    assert_eq!(again, not_found());
}

#[test]
fn no_districts_is_not_found() {
    let cfg = Config::default();
    let plan = handle_districts_json();
    let (at, _) = step(&cfg, &plan, start(), Event::Start);
    let (_, action) = step(&cfg, &plan, at, Event::Entries(Some(vec![file("README")])));
    assert_eq!(action, not_found());
    let (at, _) = step(&cfg, &plan, start(), Event::Start);
    let (_, action) = step(&cfg, &plan, at, Event::Entries(None));
    assert_eq!(action, not_found());
}

#[test]
fn dates_of_a_year_are_listed_as_text() {
    let cfg = Config::default();
    let plan = handle_1_param(&cfg, "2020");
    let (at, action) = step(&cfg, &plan, start(), Event::Start);
    assert_eq!(action, Action::ListDir { path: "/var/lib/iris/traffic/tms/2020".to_string() });
    let entries = vec![dir("20200101"), dir("20200103"), file("20200102.traffic")];
    let (_, action) = step(&cfg, &plan, at, Event::Entries(Some(entries)));
    assert_eq!(action, ok(ContentType::Plain, "20200101\n20200102\n20200103\n"));
}

#[test]
fn dates_of_a_year_are_listed_as_json() {
    let cfg = Config::default();
    let plan = handle_2_params_json("d7", "2020");
    let (at, action) = step(&cfg, &plan, start(), Event::Start);
    assert_eq!(action, Action::ListDir { path: "/var/lib/iris/traffic/d7/2020".to_string() });
    let entries = vec![dir("20200103"), file("20200102.traffic")];
    let (_, action) = step(&cfg, &plan, at, Event::Entries(Some(entries)));
    assert_eq!(action, ok(ContentType::Json, "[\"20200103\",\"20200102\"]"));
}

#[test]
fn a_loose_sample_file_is_served() {
    let cfg = Config::default();
    let plan = handle_3_params(&cfg, "tms", "20200101", "100.v30");
    let (at, action) = step(&cfg, &plan, start(), Event::Start);
    assert_eq!(
        action,
        Action::OpenFile { path: "/var/lib/iris/traffic/tms/2020/20200101/100.v30".to_string() }
    );
    let (at, action) = step(&cfg, &plan, at, Event::Opened(Some(2880)));
    assert_eq!(action, Action::ReadFile { len: 2880 });
    let data: Vec<u8> = (0..2880u32).map(|i| (i % 7) as u8).collect();
    let (_, action) = step(&cfg, &plan, at, Event::Bytes(Some(data.clone())));
    assert_eq!(
        action,
        Action::Respond(Response {
            status: 200,
            content_type: Some(ContentType::OctetStream),
            body: Body::Bytes(data)
        })
    );
}

#[test]
fn a_sample_file_is_served_from_the_bundle() {
    let cfg = Config::default();
    let plan = handle_3_params(&cfg, "tms", "20200101", "100.v30");
    let (at, _) = step(&cfg, &plan, start(), Event::Start);
    let (at, action) = step(&cfg, &plan, at, Event::Missing);
    assert_eq!(
        action,
        Action::LoadFile { path: "/var/lib/iris/traffic/tms/2020/20200101.traffic".to_string() }
    );
    let data: Vec<u8> = (0..2880u32).map(|i| (i % 11) as u8).collect();
    let bundle = one_member("100.v30", &data);
    let (_, action) = step(&cfg, &plan, at, Event::Bytes(Some(bundle)));
    assert_eq!(
        action,
        Action::Respond(Response {
            status: 200,
            content_type: Some(ContentType::OctetStream),
            body: Body::Bytes(data)
        })
    );
}

#[test]
fn a_loose_file_of_the_wrong_length_is_not_found() {
    let cfg = Config::default();
    let plan = handle_3_params(&cfg, "tms", "20200101", "100.v30");
    let (at, _) = step(&cfg, &plan, start(), Event::Start);
    let (_, action) = step(&cfg, &plan, at, Event::Opened(Some(2879)));
    assert_eq!(action, not_found());
    // The length could not be queried.
    let (at, _) = step(&cfg, &plan, start(), Event::Start);
    let (_, action) = step(&cfg, &plan, at, Event::Opened(None));
    assert_eq!(action, not_found());
    // Reading failed, or gave another length than was asked for.
    let (at, _) = step(&cfg, &plan, start(), Event::Start);
    let (at, _) = step(&cfg, &plan, at, Event::Opened(Some(2880)));
    let (_, action) = step(&cfg, &plan, at, Event::Bytes(None));
    assert_eq!(action, not_found());
    let (at, _) = step(&cfg, &plan, start(), Event::Start);
    let (at, _) = step(&cfg, &plan, at, Event::Opened(Some(2880)));
    let (_, action) = step(&cfg, &plan, at, Event::Bytes(Some(vec![0; 10])));
    assert_eq!(action, not_found());
}

#[test]
fn a_missing_bundle_or_member_is_not_found() {
    let cfg = Config::default();
    let plan = handle_3_params(&cfg, "tms", "20200101", "100.v30");
    let (at, _) = step(&cfg, &plan, start(), Event::Start);
    let (at, _) = step(&cfg, &plan, at, Event::Missing);
    let (_, action) = step(&cfg, &plan, at, Event::Bytes(None));
    assert_eq!(action, not_found());
    let (at, _) = step(&cfg, &plan, start(), Event::Start);
    let (at, _) = step(&cfg, &plan, at, Event::Missing);
    let (_, action) = step(&cfg, &plan, at, Event::Bytes(Some(one_member("101.v30", &[0; 2880]))));
    assert_eq!(action, not_found());
    let (at, _) = step(&cfg, &plan, start(), Event::Start);
    let (at, _) = step(&cfg, &plan, at, Event::Missing);
    let (_, action) = step(&cfg, &plan, at, Event::Bytes(Some(one_member("100.v30", &[0; 28]))));
    assert_eq!(action, not_found());
}

#[test]
fn sample_data_as_json() {
    let cfg = Config::default();
    let plan = handle_3_params_json(&cfg, "tms", "20200101", "100.vlog");
    let (at, _) = step(&cfg, &plan, start(), Event::Start);
    let (at, action) = step(&cfg, &plan, at, Event::Opened(Some(3)));
    assert_eq!(action, Action::ReadFile { len: 3 });
    let (_, action) = step(&cfg, &plan, at, Event::Bytes(Some(vec![1, 20, 255])));
    assert_eq!(action, ok(ContentType::Json, "[\"1\",\"20\",\"255\"]"));
}

#[test]
fn the_next_reading_is_tried_when_one_gives_nothing() {
    let cfg = Config::default();
    // No sample file `100.v30`: the name is then read as a sensor ID.
    let plan = handle_3_params_json(&cfg, "tms", "20200101", "100.v30");
    let (at, _) = step(&cfg, &plan, start(), Event::Start);
    let (at, _) = step(&cfg, &plan, at, Event::Missing);
    let (at, action) = step(&cfg, &plan, at, Event::Bytes(None));
    assert_eq!(
        action,
        Action::ListDay {
            dir: "/var/lib/iris/traffic/tms/2020/20200101".to_string(),
            bundle: "/var/lib/iris/traffic/tms/2020/20200101.traffic".to_string()
        }
    );
    assert_eq!(at, Position { pos: 1, stage: Stage::Listing });
    let entries = vec![file("100.v30.c30"), file("100.v30")];
    let (_, action) = step(&cfg, &plan, at, Event::Day { entries: Some(entries), bundle: None });
    assert_eq!(action, ok(ContentType::Json, "[\"c30\"]"));
}

#[test]
fn a_year_and_date_fall_back_to_the_default_district() {
    let cfg = Config::default();
    let plan = handle_2_params(&cfg, "2020", "20200101");
    let (at, action) = step(&cfg, &plan, start(), Event::Start);
    assert_eq!(
        action,
        Action::ListDay {
            dir: "/var/lib/iris/traffic/2020/2020/20200101".to_string(),
            bundle: "/var/lib/iris/traffic/2020/2020/20200101.traffic".to_string()
        }
    );
    let (at, action) = step(&cfg, &plan, at, Event::Day { entries: None, bundle: None });
    assert_eq!(
        action,
        Action::ListDay {
            dir: "/var/lib/iris/traffic/tms/2020/20200101".to_string(),
            bundle: "/var/lib/iris/traffic/tms/2020/20200101.traffic".to_string()
        }
    );
    let entries = vec![file("100.v30"), file("101.v30")];
    let bundle = one_member("102.c30", &[]);
    let (_, action) =
        step(&cfg, &plan, at, Event::Day { entries: Some(entries), bundle: Some(bundle) });
    assert_eq!(action, ok(ContentType::Json, "[\"100\",\"101\",\"102\"]"));
}

#[test]
fn a_mismatch_is_a_bad_request() {
    let cfg = Config::default();
    let plan = handle_3_params(&cfg, "tms", "2020", "20210101");
    let (at, action) = step(&cfg, &plan, start(), Event::Start);
    assert_eq!(action, bad_request());
    assert_eq!(at, Position { pos: 1, stage: Stage::Start });
}

#[test]
fn a_mismatch_is_refused_only_after_the_earlier_readings() {
    let cfg = Config::default();
    let plan = handle_2_params(&cfg, "2021", "20200101");
    let (at, action) = step(&cfg, &plan, start(), Event::Start);
    assert_eq!(
        action,
        Action::ListDay {
            dir: "/var/lib/iris/traffic/2021/2020/20200101".to_string(),
            bundle: "/var/lib/iris/traffic/2021/2020/20200101.traffic".to_string()
        }
    );
    let (_, action) = step(&cfg, &plan, at, Event::Day { entries: None, bundle: None });
    assert_eq!(action, bad_request());
    // Had the first reading found sensors, they would have been served.
    let (at, _) = step(&cfg, &plan, start(), Event::Start);
    let (_, action) =
        step(&cfg, &plan, at, Event::Day { entries: Some(vec![file("1.v30")]), bundle: None });
    assert_eq!(action, ok(ContentType::Json, "[\"1\"]"));
}

#[test]
fn three_parameters_as_json_never_name_a_year_and_a_district() {
    let cfg = Config::default();
    let plan = handle_3_params_json(&cfg, "tms", "2020", "20210101");
    let (_, action) = step(&cfg, &plan, start(), Event::Start);
    assert_eq!(action, not_found());
}

#[test]
fn an_empty_plan_is_not_found() {
    let cfg = Config::default();
    let (at, action) = step(&cfg, &vec![], start(), Event::Start);
    assert_eq!(action, not_found());
    assert_eq!(at, Position { pos: 0, stage: Stage::Start });
}

#[test]
fn an_outcome_that_was_not_asked_for_ends_the_reading() {
    let cfg = Config::default();
    let plan = handle_districts_json();
    let (at, _) = step(&cfg, &plan, start(), Event::Start);
    let (_, action) = step(&cfg, &plan, at, Event::Bytes(Some(vec![1])));
    assert_eq!(action, not_found());
    let (_, action) =
        step(&cfg, &plan, Position { pos: 0, stage: Stage::Reading }, Event::Entries(None));
    assert_eq!(action, not_found());
    let (_, action) = step(&cfg, &plan, Position { pos: 7, stage: Stage::Listing }, Event::Start);
    assert_eq!(action, not_found());
}

#[test]
fn reading_a_sample_file_step_by_step() {
    let root = "/data";
    match read_path_sid_ext(
        root, "d", "20200101", "9", "o60", OutputMode::Binary, Stage::Start, Event::Start,
    ) {
        Progress::Ask(action, stage) => {
            assert_eq!(action, Action::OpenFile { path: "/data/d/2020/20200101/9.o60".to_string() });
            assert_eq!(stage, Stage::Opening);
        }
        Progress::Done(_) => panic!("nothing was asked"),
    }
    match read_path_sid_ext(
        root, "d", "20200101", "9", "o60", OutputMode::Binary, Stage::Opening,
        Event::Opened(Some(2880)),
    ) {
        Progress::Ask(action, stage) => {
            assert_eq!(action, Action::ReadFile { len: 2880 });
            assert_eq!(stage, Stage::Reading);
        }
        Progress::Done(_) => panic!("nothing was asked"),
    }
    match read_path_sid_ext(
        root, "d", "20200101", "9", "o60", OutputMode::Binary, Stage::Opening,
        Event::Opened(Some(1440)),
    ) {
        Progress::Done(None) => {}
        _ => panic!("a wrong length was accepted"),
    }
}
