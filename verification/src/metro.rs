//! Network configuration snapshots and their JSON form.
//!
//! A snapshot is a gzip-compressed XML document. Each element is held here
//! with its attributes as the document gave them: `None` for one that it
//! did not give. Writing an element as JSON fills in the defaults of the
//! document type, leaves out the implied attributes that were not given,
//! and fails where a required attribute is missing.

use vstd::prelude::*;
use vstd::string::StringExecFns;
use flate2::read::GzDecoder;
use std::io::Read;
use unicode_segmentation::UnicodeSegmentation;
use crate::bundle::opt_texts;
use crate::date::{is_valid_date, valid_date};
use crate::json::{object_json, opt_string, Member, ObjectWriter, Rule};
use crate::lister::texts;
use crate::request::{
    attempts, list_response, respond_list, text_of, Action, ActionView, Attempt, AttemptView,
    Event, Lookup, LookupView, Progress, ProgressView, Stage,
};
use crate::response::{json_response, xml_response, ContentType};

verus! {

/// The default of an r-node's `n_type`.
pub fn station_str() -> (s: String)
    ensures
        s@ == "Station"@,
{
    String::from_str("Station")
}

/// The default of the attributes that are false unless given.
pub fn false_str() -> (s: String)
    ensures
        s@ == "f"@,
{
    String::from_str("f")
}

/// The default of the attributes that are true unless given.
pub fn true_str() -> (s: String)
    ensures
        s@ == "t"@,
{
    String::from_str("t")
}

/// The default of the attributes that count from zero.
pub fn zero_str() -> (s: String)
    ensures
        s@ == "0"@,
{
    String::from_str("0")
}

/// The default of an r-node's `transition`.
pub fn none_str() -> (s: String)
    ensures
        s@ == "None"@,
{
    String::from_str("None")
}

/// The default of an r-node's `attach_side`.
pub fn right_str() -> (s: String)
    ensures
        s@ == "right"@,
{
    String::from_str("right")
}

/// The default of an r-node's `s_limit`.
pub fn ff_str() -> (s: String)
    ensures
        s@ == "55"@,
{
    String::from_str("55")
}

/// The default of a detector's `field`.
pub fn tt_str() -> (s: String)
    ensures
        s@ == "22.0"@,
{
    String::from_str("22.0")
}

/// The default of a meter's `max_wait`.
pub fn tfz_str() -> (s: String)
    ensures
        s@ == "240"@,
{
    String::from_str("240")
}

/// The default of a detector's `label`.
pub fn future_str() -> (s: String)
    ensures
        s@ == "FUTURE"@,
{
    String::from_str("FUTURE")
}

/// The sentinel that stands in for an implied attribute that was not
/// given.
pub fn implied_str() -> (s: String)
    ensures
        s@ == crate::json::sentinel(),
{
    String::from_str("#IMPLIED")
}

/// Something that is written as a JSON object.
pub trait Element {
    /// The members of the object, in the order in which they are written.
    spec fn members(&self) -> Seq<Member>;

    /// Writes the element as JSON, if it can be written.
    fn to_json(&self) -> (r: Option<String>)
        ensures
            opt_string(r) == object_json(self.members()),
    ;
}

/// An attribute that must be given.
pub open spec fn required_attr(key: Seq<char>, given: Option<String>) -> Member {
    Member::Attr { key, rule: Rule::Required, given: opt_string(given) }
}

/// An attribute with a default.
pub open spec fn defaulted_attr(key: Seq<char>, given: Option<String>, default: Seq<char>) -> Member {
    Member::Attr { key, rule: Rule::Defaulted(default), given: opt_string(given) }
}

/// An attribute that is left out where it is not given.
pub open spec fn implied_attr(key: Seq<char>, given: Option<String>) -> Member {
    Member::Attr { key, rule: Rule::Implied, given: opt_string(given) }
}

/// The JSON of each element of a list.
pub open spec fn jsons<T: Element>(items: Seq<T>) -> Seq<Option<Seq<char>>> {
    items.map_values(|x: T| object_json(x.members()))
}

/// A list of elements.
pub open spec fn list_of<T: Element>(key: Seq<char>, items: Seq<T>) -> Member {
    Member::List { key, items: jsons(items) }
}

/// Writes each element of a list as JSON.
pub fn list_json<T: Element>(items: &Vec<T>) -> (r: Vec<Option<String>>)
    ensures
        opt_texts(r@) == jsons(items@),
{
    let mut r: Vec<Option<String>> = Vec::new();
    let mut i: usize = 0;
    while i < items.len()
        invariant
            i <= items.len(),
            opt_texts(r@) == jsons(items@.subrange(0, i as int)),
        decreases items.len() - i,
    {
        let json = items[i].to_json();
        let ghost before = r@;
        r.push(json);
        i += 1;
        proof {
            let head = items@.subrange(0, i - 1);
            assert(items@.subrange(0, i as int) =~= head.push(items@[i - 1]));
            assert(jsons(head.push(items@[i - 1])) =~= jsons(head).push(
                object_json(items@[i - 1].members()),
            ));
            assert(opt_texts(r@) =~= opt_texts(before).push(opt_string(json)));
        }
    }
    assert(items@.subrange(0, i as int) == items@);
    r
}

/// A detector of a roadway node. Attributes are held as the document gave them.
#[derive(Debug, Default, PartialEq, Eq)]
pub struct Detector {
    pub name: Option<String>,
    pub label: Option<String>,
    pub abandoned: Option<String>,
    pub category: Option<String>,
    pub lane: Option<String>,
    pub field: Option<String>,
    pub controller: Option<String>,
}

impl Element for Detector {
    open spec fn members(&self) -> Seq<Member> {
        seq![
            required_attr("name"@, self.name),
            defaulted_attr("label"@, self.label, "FUTURE"@),
            defaulted_attr("abandoned"@, self.abandoned, "f"@),
            defaulted_attr("category"@, self.category, Seq::empty()),
            defaulted_attr("lane"@, self.lane, "0"@),
            defaulted_attr("field"@, self.field, "22.0"@),
            implied_attr("controller"@, self.controller),
        ]
    }

    fn to_json(&self) -> (r: Option<String>) {
        let mut w = ObjectWriter::new();
        w.required("name", &self.name);
        w.defaulted("label", &self.label, future_str());
        w.defaulted("abandoned", &self.abandoned, false_str());
        w.defaulted("category", &self.category, String::new());
        w.defaulted("lane", &self.lane, zero_str());
        w.defaulted("field", &self.field, tt_str());
        w.implied("controller", &self.controller);
        assert(w.members() =~= self.members());
        w.finish()
    }
}

/// A ramp meter of a roadway node. Attributes are held as the document gave them.
#[derive(Debug, Default, PartialEq, Eq)]
pub struct Meter {
    pub name: Option<String>,
    pub lon: Option<String>,
    pub lat: Option<String>,
    pub storage: Option<String>,
    pub max_wait: Option<String>,
}

impl Element for Meter {
    open spec fn members(&self) -> Seq<Member> {
        seq![
            required_attr("name"@, self.name),
            implied_attr("lon"@, self.lon),
            implied_attr("lat"@, self.lat),
            required_attr("storage"@, self.storage),
            defaulted_attr("max_wait"@, self.max_wait, "240"@),
        ]
    }

    fn to_json(&self) -> (r: Option<String>) {
        let mut w = ObjectWriter::new();
        w.required("name", &self.name);
        w.implied("lon", &self.lon);
        w.implied("lat", &self.lat);
        w.required("storage", &self.storage);
        w.defaulted("max_wait", &self.max_wait, tfz_str());
        assert(w.members() =~= self.members());
        w.finish()
    }
}

/// A roadway node of a corridor. Attributes are held as the document gave them.
#[derive(Debug, Default, PartialEq, Eq)]
pub struct RNode {
    pub detector: Vec<Detector>,
    pub meter: Vec<Meter>,
    pub name: Option<String>,
    pub n_type: Option<String>,
    pub pickable: Option<String>,
    pub above: Option<String>,
    pub transition: Option<String>,
    pub station_id: Option<String>,
    pub label: Option<String>,
    pub lon: Option<String>,
    pub lat: Option<String>,
    pub lanes: Option<String>,
    pub attach_side: Option<String>,
    pub shift: Option<String>,
    pub active: Option<String>,
    pub abandoned: Option<String>,
    pub s_limit: Option<String>,
    pub forks: Option<String>,
}

impl Element for RNode {
    open spec fn members(&self) -> Seq<Member> {
        seq![
            list_of("detector"@, self.detector@),
            list_of("meter"@, self.meter@),
            required_attr("name"@, self.name),
            defaulted_attr("n_type"@, self.n_type, "Station"@),
            defaulted_attr("pickable"@, self.pickable, "f"@),
            defaulted_attr("above"@, self.above, "f"@),
            defaulted_attr("transition"@, self.transition, "None"@),
            implied_attr("station_id"@, self.station_id),
            defaulted_attr("label"@, self.label, Seq::empty()),
            required_attr("lon"@, self.lon),
            required_attr("lat"@, self.lat),
            defaulted_attr("lanes"@, self.lanes, "0"@),
            defaulted_attr("attach_side"@, self.attach_side, "right"@),
            defaulted_attr("shift"@, self.shift, "0"@),
            defaulted_attr("active"@, self.active, "t"@),
            defaulted_attr("abandoned"@, self.abandoned, "f"@),
            defaulted_attr("s_limit"@, self.s_limit, "55"@),
            implied_attr("forks"@, self.forks),
        ]
    }

    fn to_json(&self) -> (r: Option<String>) {
        let mut w = ObjectWriter::new();
        let detector = list_json(&self.detector);
        w.list("detector", &detector);
        let meter = list_json(&self.meter);
        w.list("meter", &meter);
        w.required("name", &self.name);
        w.defaulted("n_type", &self.n_type, station_str());
        w.defaulted("pickable", &self.pickable, false_str());
        w.defaulted("above", &self.above, false_str());
        w.defaulted("transition", &self.transition, none_str());
        w.implied("station_id", &self.station_id);
        w.defaulted("label", &self.label, String::new());
        w.required("lon", &self.lon);
        w.required("lat", &self.lat);
        w.defaulted("lanes", &self.lanes, zero_str());
        w.defaulted("attach_side", &self.attach_side, right_str());
        w.defaulted("shift", &self.shift, zero_str());
        w.defaulted("active", &self.active, true_str());
        w.defaulted("abandoned", &self.abandoned, false_str());
        w.defaulted("s_limit", &self.s_limit, ff_str());
        w.implied("forks", &self.forks);
        assert(w.members() =~= self.members());
        w.finish()
    }
}

/// A corridor: a route in one direction. Attributes are held as the document gave them.
#[derive(Debug, Default, PartialEq, Eq)]
pub struct Corridor {
    pub r_node: Vec<RNode>,
    pub route: Option<String>,
    pub dir: Option<String>,
}

impl Element for Corridor {
    open spec fn members(&self) -> Seq<Member> {
        seq![
            list_of("r_node"@, self.r_node@),
            required_attr("route"@, self.route),
            required_attr("dir"@, self.dir),
        ]
    }

    fn to_json(&self) -> (r: Option<String>) {
        let mut w = ObjectWriter::new();
        let r_node = list_json(&self.r_node);
        w.list("r_node", &r_node);
        w.required("route", &self.route);
        w.required("dir", &self.dir);
        assert(w.members() =~= self.members());
        w.finish()
    }
}

/// A camera. Attributes are held as the document gave them.
#[derive(Debug, Default, PartialEq, Eq)]
pub struct Camera {
    pub name: Option<String>,
    pub description: Option<String>,
    pub lon: Option<String>,
    pub lat: Option<String>,
}

impl Element for Camera {
    open spec fn members(&self) -> Seq<Member> {
        seq![
            required_attr("name"@, self.name),
            required_attr("description"@, self.description),
            implied_attr("lon"@, self.lon),
            implied_attr("lat"@, self.lat),
        ]
    }

    fn to_json(&self) -> (r: Option<String>) {
        let mut w = ObjectWriter::new();
        w.required("name", &self.name);
        w.required("description", &self.description);
        w.implied("lon", &self.lon);
        w.implied("lat", &self.lat);
        assert(w.members() =~= self.members());
        w.finish()
    }
}

/// A communication link. Attributes are held as the document gave them.
#[derive(Debug, Default, PartialEq, Eq)]
pub struct Commlink {
    pub name: Option<String>,
    pub description: Option<String>,
    pub protocol: Option<String>,
}

impl Element for Commlink {
    open spec fn members(&self) -> Seq<Member> {
        seq![
            required_attr("name"@, self.name),
            required_attr("description"@, self.description),
            required_attr("protocol"@, self.protocol),
        ]
    }

    fn to_json(&self) -> (r: Option<String>) {
        let mut w = ObjectWriter::new();
        w.required("name", &self.name);
        w.required("description", &self.description);
        w.required("protocol", &self.protocol);
        assert(w.members() =~= self.members());
        w.finish()
    }
}

/// A controller. Attributes are held as the document gave them.
#[derive(Debug, Default, PartialEq, Eq)]
pub struct Controller {
    pub name: Option<String>,
    pub condition: Option<String>,
    pub drop: Option<String>,
    pub commlink: Option<String>,
    pub lon: Option<String>,
    pub lat: Option<String>,
    pub location: Option<String>,
    pub cabinet: Option<String>,
    pub notes: Option<String>,
}

impl Element for Controller {
    open spec fn members(&self) -> Seq<Member> {
        seq![
            required_attr("name"@, self.name),
            required_attr("condition"@, self.condition),
            required_attr("drop"@, self.drop),
            implied_attr("commlink"@, self.commlink),
            implied_attr("lon"@, self.lon),
            implied_attr("lat"@, self.lat),
            required_attr("location"@, self.location),
            implied_attr("cabinet"@, self.cabinet),
            implied_attr("notes"@, self.notes),
        ]
    }

    fn to_json(&self) -> (r: Option<String>) {
        let mut w = ObjectWriter::new();
        w.required("name", &self.name);
        w.required("condition", &self.condition);
        w.required("drop", &self.drop);
        w.implied("commlink", &self.commlink);
        w.implied("lon", &self.lon);
        w.implied("lat", &self.lat);
        w.required("location", &self.location);
        w.implied("cabinet", &self.cabinet);
        w.implied("notes", &self.notes);
        assert(w.members() =~= self.members());
        w.finish()
    }
}

/// A dynamic message sign. Attributes are held as the document gave them.
#[derive(Debug, Default, PartialEq, Eq)]
pub struct Dms {
    pub name: Option<String>,
    pub description: Option<String>,
    pub lon: Option<String>,
    pub lat: Option<String>,
    pub width_pixels: Option<String>,
    pub height_pixels: Option<String>,
}

impl Element for Dms {
    open spec fn members(&self) -> Seq<Member> {
        seq![
            required_attr("name"@, self.name),
            required_attr("description"@, self.description),
            implied_attr("lon"@, self.lon),
            implied_attr("lat"@, self.lat),
            implied_attr("width_pixels"@, self.width_pixels),
            implied_attr("height_pixels"@, self.height_pixels),
        ]
    }

    fn to_json(&self) -> (r: Option<String>) {
        let mut w = ObjectWriter::new();
        w.required("name", &self.name);
        w.required("description", &self.description);
        w.implied("lon", &self.lon);
        w.implied("lat", &self.lat);
        w.implied("width_pixels", &self.width_pixels);
        w.implied("height_pixels", &self.height_pixels);
        assert(w.members() =~= self.members());
        w.finish()
    }
}

/// The whole configuration snapshot. Attributes are held as the document gave them.
#[derive(Debug, Default, PartialEq, Eq)]
pub struct TmsConfig {
    pub corridor: Vec<Corridor>,
    pub camera: Vec<Camera>,
    pub commlink: Vec<Commlink>,
    pub controller: Vec<Controller>,
    pub dms: Vec<Dms>,
    pub time_stamp: Option<String>,
}

impl Element for TmsConfig {
    open spec fn members(&self) -> Seq<Member> {
        seq![
            list_of("corridor"@, self.corridor@),
            list_of("camera"@, self.camera@),
            list_of("commlink"@, self.commlink@),
            list_of("controller"@, self.controller@),
            list_of("dms"@, self.dms@),
            required_attr("time_stamp"@, self.time_stamp),
        ]
    }

    fn to_json(&self) -> (r: Option<String>) {
        let mut w = ObjectWriter::new();
        let corridor = list_json(&self.corridor);
        w.list("corridor", &corridor);
        let camera = list_json(&self.camera);
        w.list("camera", &camera);
        let commlink = list_json(&self.commlink);
        w.list("commlink", &commlink);
        let controller = list_json(&self.controller);
        w.list("controller", &controller);
        let dms = list_json(&self.dms);
        w.list("dms", &dms);
        w.required("time_stamp", &self.time_stamp);
        assert(w.members() =~= self.members());
        w.finish()
    }
}

/// Converts a whole configuration snapshot, as it was parsed, to JSON.
pub fn build_full_json(parsed: Option<TmsConfig>) -> (r: Option<String>)
    ensures
        opt_string(r) == parsed_json(parsed),
{
    match parsed {
        Some(config) => config.to_json(),
        None => None,
    }
}

/// Converts one corridor, as it was parsed, to JSON.
pub fn build_json(parsed: Option<Corridor>) -> (r: Option<String>)
    ensures
        opt_string(r) == parsed_json(parsed),
{
    match parsed {
        Some(corridor) => corridor.to_json(),
        None => None,
    }
}

/// The text that `bytes` hold in gzip form, as `flate2`'s `GzDecoder`
/// reads it; `None` where they cannot be decompressed or are no text.
pub uninterp spec fn gunzip_text(bytes: Seq<u8>) -> Option<Seq<char>>;

/// The number of extended grapheme clusters of `s`, as
/// `unicode_segmentation` counts them.
pub uninterp spec fn graphemes(s: Seq<char>) -> nat;

/// Decompresses `bytes` with `flate2::read::GzDecoder` and reads all of
/// the text with `read_to_string`. The contract gives the result a name
/// and promises nothing more of it.
#[verifier::external_body]
fn gunzip(bytes: &Vec<u8>) -> (r: Option<String>)
    ensures
        opt_string(r) == gunzip_text(bytes@),
{
    let mut dec = GzDecoder::new(bytes.as_slice());
    let mut text = String::new();
    dec.read_to_string(&mut text).ok()?;
    Some(text)
}

/// Counts the extended grapheme clusters of `s` with
/// `UnicodeSegmentation::graphemes`. The iterator gives nothing for the
/// empty string and something for every other, so the count is zero for
/// the empty string alone.
#[verifier::external_body]
fn grapheme_count(s: &str) -> (n: usize)
    ensures
        n == graphemes(s@),
        (n == 0) == (s@.len() == 0),
{
    s.graphemes(true).count()
}

/// The path of the configuration snapshot of a date.
pub open spec fn snapshot_path(root: Seq<char>, date: Seq<char>) -> Seq<char> {
    root + "/metro_config_"@ + date + ".xml.gz"@
}

/// Builds the path of the configuration snapshot of a date.
pub fn snapshot_file_path(root: &str, date: &str) -> (path: String)
    ensures
        path@ == snapshot_path(root@, date@),
{
    let mut path = String::from_str(root);
    path.append("/metro_config_");
    path.append(date);
    path.append(".xml.gz");
    path
}

/// Gets the XML text of a configuration snapshot from the bytes of its
/// file; a file that could not be read is given as `None`.
pub fn get_xml_file(file: Option<Vec<u8>>) -> (r: Option<String>)
    ensures
        opt_string(r) == match file {
            Some(bytes) => gunzip_text(bytes@),
            None => None,
        },
{
    match file {
        Some(bytes) => gunzip(&bytes),
        None => None,
    }
}

/// The XPath expression that selects the corridors of a route and
/// direction.
pub open spec fn corridor_query(route: Seq<char>, dir: Seq<char>) -> Seq<char> {
    "//corridor[@route='"@ + route + "' and @dir='"@ + dir + "']"@
}

/// Builds the XPath expression that selects the corridors of a route and
/// direction.
pub fn corridor_xpath(route: &str, dir: &str) -> (xpath: String)
    ensures
        xpath@ == corridor_query(route@, dir@),
{
    let mut xpath = String::from_str("//corridor[@route='");
    xpath.append(route);
    xpath.append("' and @dir='");
    xpath.append(dir);
    xpath.append("']");
    xpath
}

/// The corridor among the selected nodes: the first, unless it is empty.
pub open spec fn first_corridor(nodes: Option<Vec<String>>) -> Option<Seq<char>> {
    match nodes {
        Some(n) => if n@.len() > 0 && n@[0]@.len() > 0 {
            Some(n@[0]@)
        } else {
            None
        },
        None => None,
    }
}

/// Finds the corridor among the nodes that the XPath expression selected,
/// each given as XML text; a selection that failed is given as `None`.
pub fn get_corridor_on_date(nodes: Option<Vec<String>>) -> (r: Option<String>)
    ensures
        opt_string(r) == first_corridor(nodes),
{
    if let Some(cors) = nodes {
        if cors.len() > 0 {
            let cor = cors[0].clone();
            if grapheme_count(cor.as_str()) > 0 {
                return Some(cor);
            }
        }
    }
    None
}

/// The name of a corridor in a request: route, underscore, direction.
pub open spec fn corridor_name(c: Corridor) -> Option<Seq<char>> {
    match (c.route, c.dir) {
        (Some(route), Some(dir)) => Some(route@ + seq!['_'] + dir@),
        _ => None,
    }
}

/// The names of the corridors, in their order; `None` where a corridor
/// lacks its route or its direction.
pub open spec fn corridor_names(corridors: Seq<Corridor>) -> Option<Seq<Seq<char>>>
    decreases corridors.len(),
{
    if corridors.len() == 0 {
        Some(Seq::empty())
    } else {
        match (corridor_names(corridors.drop_last()), corridor_name(corridors.last())) {
            (Some(names), Some(name)) => Some(names.push(name)),
            _ => None,
        }
    }
}

/// Lists the corridors of a configuration snapshot by name.
pub fn lookup_corridors(config: &TmsConfig) -> (r: Option<Vec<String>>)
    ensures
        match r {
            Some(names) => corridor_names(config.corridor@) == Some(texts(names@)),
            None => corridor_names(config.corridor@) is None,
        },
{
    let mut names: Vec<String> = Vec::new();
    let mut i: usize = 0;
    assert(config.corridor@.subrange(0, 0) =~= Seq::empty());
    assert(texts(names@) =~= Seq::empty());
    while i < config.corridor.len()
        invariant
            i <= config.corridor.len(),
            corridor_names(config.corridor@.subrange(0, i as int)) == Some(texts(names@)),
        decreases config.corridor.len() - i,
    {
        let c = &config.corridor[i];
        let ghost head = config.corridor@.subrange(0, i as int);
        let ghost next = config.corridor@.subrange(0, i + 1);
        proof {
            assert(next.drop_last() == head);
            assert(next.last() == *c);
        }
        match (&c.route, &c.dir) {
            (Some(route), Some(dir)) => {
                let mut name = String::from_str(route.as_str());
                name.push('_');
                name.append(dir.as_str());
                assert(name@ =~= route@ + seq!['_'] + dir@);
                let ghost before = texts(names@);
                names.push(name);
                assert(texts(names@) =~= before.push(name@));
            },
            _ => {
                proof {
                    lemma_corridor_names_fail(config.corridor@, i as int);
                }
                return None;
            },
        }
        i += 1;
    }
    assert(config.corridor@.subrange(0, i as int) == config.corridor@);
    Some(names)
}

/// A corridor without a name leaves the whole list without names.
proof fn lemma_corridor_names_fail(corridors: Seq<Corridor>, i: int)
    requires
        0 <= i < corridors.len(),
        corridor_name(corridors[i]) is None,
    ensures
        corridor_names(corridors) is None,
    decreases corridors.len(),
{
    if i < corridors.len() - 1 {
        lemma_corridor_names_fail(corridors.drop_last(), i);
    }
}

/// The text of a configuration snapshot whose file was read as `file`.
pub open spec fn snapshot_text(file: Option<Vec<u8>>) -> Option<Seq<char>> {
    match file {
        Some(bytes) => gunzip_text(bytes@),
        None => None,
    }
}

/// The JSON of an element that was parsed, if it was.
pub open spec fn parsed_json<T: Element>(parsed: Option<T>) -> Option<Seq<char>> {
    match parsed {
        Some(x) => object_json(x.members()),
        None => None,
    }
}

/// What looking into a configuration snapshot comes to, step by step. The
/// snapshot's file is read and decompressed first. For one corridor, the
/// nodes that match its route and direction are selected next. For JSON,
/// what was found is parsed last and written as JSON.
pub open spec fn snapshot_step(lookup: Lookup, stage: Stage, event: Event) -> ProgressView {
    match (lookup, stage, event) {
        (Lookup::ConfigXml { .. }, Stage::Fetching, Event::Bytes(file)) => ProgressView::Done(
            text_of(ContentType::Xml, snapshot_text(file)),
        ),
        (Lookup::ConfigJson { .. }, Stage::Fetching, Event::Bytes(file)) => match snapshot_text(
            file,
        ) {
            Some(xml) => ProgressView::Ask(ActionView::ParseConfig { xml }, Stage::Parsing),
            None => ProgressView::Done(None),
        },
        (Lookup::Corridors { .. }, Stage::Fetching, Event::Bytes(file)) => match snapshot_text(
            file,
        ) {
            Some(xml) => ProgressView::Ask(ActionView::ParseConfig { xml }, Stage::Parsing),
            None => ProgressView::Done(None),
        },
        (Lookup::CorridorXml { route, dir, .. }, Stage::Fetching, Event::Bytes(file)) => match
            snapshot_text(file) {
            Some(xml) => ProgressView::Ask(
                ActionView::SelectNodes { xml, xpath: corridor_query(route@, dir@) },
                Stage::Selecting,
            ),
            None => ProgressView::Done(None),
        },
        (Lookup::CorridorJson { route, dir, .. }, Stage::Fetching, Event::Bytes(file)) => match
            snapshot_text(file) {
            Some(xml) => ProgressView::Ask(
                ActionView::SelectNodes { xml, xpath: corridor_query(route@, dir@) },
                Stage::Selecting,
            ),
            None => ProgressView::Done(None),
        },
        (Lookup::CorridorXml { .. }, Stage::Selecting, Event::Nodes(nodes)) => ProgressView::Done(
            text_of(ContentType::Xml, first_corridor(nodes)),
        ),
        (Lookup::CorridorJson { .. }, Stage::Selecting, Event::Nodes(nodes)) => match first_corridor(
            nodes,
        ) {
            Some(xml) => ProgressView::Ask(ActionView::ParseCorridor { xml }, Stage::Parsing),
            None => ProgressView::Done(None),
        },
        (Lookup::ConfigJson { .. }, Stage::Parsing, Event::Config(parsed)) => ProgressView::Done(
            text_of(ContentType::Json, parsed_json(parsed)),
        ),
        (Lookup::CorridorJson { .. }, Stage::Parsing, Event::Corridor(parsed)) => ProgressView::Done(
            text_of(ContentType::Json, parsed_json(parsed)),
        ),
        (Lookup::Corridors { .. }, Stage::Parsing, Event::Config(Some(config))) => match corridor_names(
            config.corridor@,
        ) {
            Some(names) => ProgressView::Done(list_response(names)),
            None => ProgressView::Done(None),
        },
        _ => ProgressView::Done(None),
    }
}

/// Says what to do next for a lookup into a configuration snapshot, given
/// the stage that it is at and the outcome of what was asked last.
pub fn read_snapshot(lookup: &Lookup, stage: Stage, event: Event) -> (r: Progress)
    ensures
        r@ == snapshot_step(*lookup, stage, event),
{
    match stage {
        Stage::Fetching => match event {
            Event::Bytes(file) => {
                let text = get_xml_file(file);
                match lookup {
                    Lookup::ConfigXml { .. } => Progress::Done(xml_response(text)),
                    Lookup::ConfigJson { .. } | Lookup::Corridors { .. } => match text {
                        Some(xml) => Progress::Ask(Action::ParseConfig { xml }, Stage::Parsing),
                        None => Progress::Done(None),
                    },
                    Lookup::CorridorXml { route, dir, .. }
                    | Lookup::CorridorJson { route, dir, .. } => match text {
                        Some(xml) => Progress::Ask(
                            Action::SelectNodes {
                                xml,
                                xpath: corridor_xpath(route.as_str(), dir.as_str()),
                            },
                            Stage::Selecting,
                        ),
                        None => Progress::Done(None),
                    },
                    _ => Progress::Done(None),
                }
            },
            _ => Progress::Done(None),
        },
        Stage::Selecting => match event {
            Event::Nodes(nodes) => {
                let corridor = get_corridor_on_date(nodes);
                match lookup {
                    Lookup::CorridorXml { .. } => Progress::Done(xml_response(corridor)),
                    Lookup::CorridorJson { .. } => match corridor {
                        Some(xml) => Progress::Ask(Action::ParseCorridor { xml }, Stage::Parsing),
                        None => Progress::Done(None),
                    },
                    _ => Progress::Done(None),
                }
            },
            _ => Progress::Done(None),
        },
        Stage::Parsing => match (lookup, event) {
            (Lookup::ConfigJson { .. }, Event::Config(parsed)) => Progress::Done(
                json_response(build_full_json(parsed)),
            ),
            (Lookup::CorridorJson { .. }, Event::Corridor(parsed)) => Progress::Done(
                json_response(build_json(parsed)),
            ),
            (Lookup::Corridors { .. }, Event::Config(Some(config))) => match lookup_corridors(
                &config,
            ) {
                Some(names) => Progress::Done(respond_list(names)),
                None => Progress::Done(None),
            },
            _ => Progress::Done(None),
        },
        _ => Progress::Done(None),
    }
}

/// The plan of a request that has one reading, which asks for `lookup`
/// where `date` is a date.
pub open spec fn dated(date: Seq<char>, lookup: LookupView) -> Seq<AttemptView> {
    if valid_date(date) {
        seq![AttemptView::Lookup(lookup)]
    } else {
        Seq::empty()
    }
}

/// Makes the plan of a request that has one reading.
fn single(lookup: Option<Lookup>) -> (r: Vec<Attempt>)
    ensures
        attempts(r@) == match lookup {
            Some(l) => seq![AttemptView::Lookup(l@)],
            None => Seq::empty(),
        },
{
    let mut r: Vec<Attempt> = Vec::new();
    match lookup {
        Some(l) => {
            r.push(Attempt::Lookup(l));
            assert(attempts(r@) =~= seq![AttemptView::Lookup(l@)]);
        },
        None => {
            assert(attempts(r@) =~= Seq::empty());
        },
    }
    r
}

/// Handles a request for the configuration of a date, as XML.
pub fn handle_1_param_xml(p1: &str) -> (r: Vec<Attempt>)
    ensures
        attempts(r@) == dated(p1@, LookupView::ConfigXml { date: p1@ }),
{
    if is_valid_date(p1) {
        single(Some(Lookup::ConfigXml { date: p1.to_owned() }))
    } else {
        single(None)
    }
}

/// Handles a request for the configuration of a date, as JSON.
pub fn handle_1_param_json(p1: &str) -> (r: Vec<Attempt>)
    ensures
        attempts(r@) == dated(p1@, LookupView::ConfigJson { date: p1@ }),
{
    if is_valid_date(p1) {
        single(Some(Lookup::ConfigJson { date: p1.to_owned() }))
    } else {
        single(None)
    }
}

/// Handles a request for the corridors of the configuration of a date.
pub fn handle_corridors(p1: &str) -> (r: Vec<Attempt>)
    ensures
        attempts(r@) == dated(p1@, LookupView::Corridors { date: p1@ }),
{
    if is_valid_date(p1) {
        single(Some(Lookup::Corridors { date: p1.to_owned() }))
    } else {
        single(None)
    }
}

/// Handles a request for one corridor of the configuration of a date, as
/// XML: the date, the route and the direction.
pub fn handle_3_params_xml(p1: &str, p2: &str, p3: &str) -> (r: Vec<Attempt>)
    ensures
        attempts(r@) == dated(p1@, LookupView::CorridorXml { date: p1@, route: p2@, dir: p3@ }),
{
    if is_valid_date(p1) {
        single(
            Some(
                Lookup::CorridorXml {
                    date: p1.to_owned(),
                    route: p2.to_owned(),
                    dir: p3.to_owned(),
                },
            ),
        )
    } else {
        single(None)
    }
}

/// Handles a request for one corridor of the configuration of a date, as
/// JSON: the date, the route and the direction.
pub fn handle_3_params_json(p1: &str, p2: &str, p3: &str) -> (r: Vec<Attempt>)
    ensures
        attempts(r@) == dated(p1@, LookupView::CorridorJson { date: p1@, route: p2@, dir: p3@ }),
{
    if is_valid_date(p1) {
        single(
            Some(
                Lookup::CorridorJson {
                    date: p1.to_owned(),
                    route: p2.to_owned(),
                    dir: p3.to_owned(),
                },
            ),
        )
    } else {
        single(None)
    }
}

} // verus!
