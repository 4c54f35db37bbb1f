//! Requests as plans: the readings of a request in the order in which they
//! are tried.
//!
//! A request can be read in more than one way. Each reading that passes
//! validation becomes an attempt; the attempts are tried in their order and
//! the first that gives a response wins. A reading whose year and date
//! disagree becomes a refusal, which ends the plan.

use vstd::prelude::*;
use crate::lister::{bundle_candidates, kept, texts, DirEntry, Pick};
use crate::metro::{
    read_snapshot, snapshot_file_path, snapshot_path, snapshot_step, Corridor, TmsConfig,
};
use crate::order::sorted_texts;
use crate::response::{
    bad_request, bad_request_view, json_response, not_found, not_found_view, ok_text,
    opt_response, text_response, Body, ContentType, Response, ResponseView,
};
use crate::sample::valid_sample_len;
use crate::sensor::{
    bundle_file_path, bundle_path, date_dir, date_dir_path, entry_candidates, handle_dates_text,
    item_texts, json_list, lines, lookup_dates, lookup_districts, lookup_ext, lookup_sensors,
    read_path_sid_ext, sample_path, sample_step, year_dir, year_dir_path, Config, OutputMode,
};

verus! {

/// One validated reading of a request: what is looked up.
#[derive(Debug, PartialEq, Eq)]
pub enum Lookup {
    /// The districts, as JSON.
    Districts,
    /// The dates of a district's year, as plain text.
    DatesText { district: String, year: String },
    /// The dates of a district's year, as JSON.
    DatesJson { district: String, year: String },
    /// The sensors of a district's date, as JSON.
    Sensors { district: String, date: String },
    /// The sample file extensions of a sensor on a district's date, as JSON.
    Extensions { district: String, date: String, sid: String },
    /// The sample file of a sensor on a district's date.
    Sample { district: String, date: String, sid: String, ext: String, mode: OutputMode },
    /// The configuration snapshot of a date, as XML.
    ConfigXml { date: String },
    /// The configuration snapshot of a date, as JSON.
    ConfigJson { date: String },
    /// The corridors of the configuration snapshot of a date, as JSON.
    Corridors { date: String },
    /// One corridor of the configuration snapshot of a date, as XML.
    CorridorXml { date: String, route: String, dir: String },
    /// One corridor of the configuration snapshot of a date, as JSON.
    CorridorJson { date: String, route: String, dir: String },
}

/// What a lookup holds.
pub enum LookupView {
    Districts,
    DatesText { district: Seq<char>, year: Seq<char> },
    DatesJson { district: Seq<char>, year: Seq<char> },
    Sensors { district: Seq<char>, date: Seq<char> },
    Extensions { district: Seq<char>, date: Seq<char>, sid: Seq<char> },
    Sample { district: Seq<char>, date: Seq<char>, sid: Seq<char>, ext: Seq<char>, mode: OutputMode },
    ConfigXml { date: Seq<char> },
    ConfigJson { date: Seq<char> },
    Corridors { date: Seq<char> },
    CorridorXml { date: Seq<char>, route: Seq<char>, dir: Seq<char> },
    CorridorJson { date: Seq<char>, route: Seq<char>, dir: Seq<char> },
}

impl View for Lookup {
    type V = LookupView;

    open spec fn view(&self) -> LookupView {
        match self {
            Lookup::Districts => LookupView::Districts,
            Lookup::DatesText { district, year } => LookupView::DatesText {
                district: district@,
                year: year@,
            },
            Lookup::DatesJson { district, year } => LookupView::DatesJson {
                district: district@,
                year: year@,
            },
            Lookup::Sensors { district, date } => LookupView::Sensors {
                district: district@,
                date: date@,
            },
            Lookup::Extensions { district, date, sid } => LookupView::Extensions {
                district: district@,
                date: date@,
                sid: sid@,
            },
            Lookup::Sample { district, date, sid, ext, mode } => LookupView::Sample {
                district: district@,
                date: date@,
                sid: sid@,
                ext: ext@,
                mode: *mode,
            },
            Lookup::ConfigXml { date } => LookupView::ConfigXml { date: date@ },
            Lookup::ConfigJson { date } => LookupView::ConfigJson { date: date@ },
            Lookup::Corridors { date } => LookupView::Corridors { date: date@ },
            Lookup::CorridorXml { date, route, dir } => LookupView::CorridorXml {
                date: date@,
                route: route@,
                dir: dir@,
            },
            Lookup::CorridorJson { date, route, dir } => LookupView::CorridorJson {
                date: date@,
                route: route@,
                dir: dir@,
            },
        }
    }
}

/// One step of a plan.
#[derive(Debug, PartialEq, Eq)]
pub enum Attempt {
    /// Look this up; go on with the next step if it gives nothing.
    Lookup(Lookup),
    /// Refuse the request as a bad one.
    BadRequest,
}

/// What an attempt holds.
pub enum AttemptView {
    Lookup(LookupView),
    BadRequest,
}

impl View for Attempt {
    type V = AttemptView;

    open spec fn view(&self) -> AttemptView {
        match self {
            Attempt::Lookup(l) => AttemptView::Lookup(l@),
            Attempt::BadRequest => AttemptView::BadRequest,
        }
    }
}

/// What an optional attempt holds.
pub open spec fn opt_attempt(a: Option<Attempt>) -> Option<AttemptView> {
    match a {
        Some(x) => Some(x@),
        None => None,
    }
}

/// What the attempts of a plan hold.
pub open spec fn attempts(plan: Seq<Attempt>) -> Seq<AttemptView> {
    plan.map_values(|a: Attempt| a@)
}

/// The plan that the readings `alts` make: the readings that passed
/// validation, in their order, up to and including the first refusal.
pub open spec fn plan_of(alts: Seq<Option<AttemptView>>) -> Seq<AttemptView>
    decreases alts.len(),
{
    if alts.len() == 0 {
        Seq::empty()
    } else {
        match alts[0] {
            None => plan_of(alts.drop_first()),
            Some(AttemptView::BadRequest) => seq![AttemptView::BadRequest],
            Some(a) => seq![a] + plan_of(alts.drop_first()),
        }
    }
}

/// Makes the plan of up to three readings, the first tried first.
pub fn plan(first: Option<Attempt>, second: Option<Attempt>, third: Option<Attempt>) -> (r: Vec<
    Attempt,
>)
    ensures
        attempts(r@) == plan_of(seq![opt_attempt(first), opt_attempt(second), opt_attempt(third)]),
{
    let ghost alts = seq![opt_attempt(first), opt_attempt(second), opt_attempt(third)];
    let ghost a1 = alts.drop_first();
    let ghost a2 = a1.drop_first();
    proof {
        assert(a1 =~= seq![opt_attempt(second), opt_attempt(third)]);
        assert(a2 =~= seq![opt_attempt(third)]);
        assert(a2.drop_first() =~= Seq::empty());
        reveal_with_fuel(plan_of, 4);
    }
    let mut r: Vec<Attempt> = Vec::new();
    assert(attempts(r@) =~= Seq::empty());
    if let Some(a) = first {
        let stop = matches!(a, Attempt::BadRequest);
        let ghost before = attempts(r@);
        r.push(a);
        assert(attempts(r@) =~= before.push(a@));
        if stop {
            assert(attempts(r@) =~= plan_of(alts));
            return r;
        }
    }
    if let Some(a) = second {
        let stop = matches!(a, Attempt::BadRequest);
        let ghost before = attempts(r@);
        r.push(a);
        assert(attempts(r@) =~= before.push(a@));
        if stop {
            assert(attempts(r@) =~= plan_of(alts));
            return r;
        }
    }
    if let Some(a) = third {
        let ghost before = attempts(r@);
        r.push(a);
        assert(attempts(r@) =~= before.push(a@));
    }
    assert(attempts(r@) =~= plan_of(alts));
    r
}

/// What is asked of the surroundings: one piece of reading or parsing, or
/// to send the response.
#[derive(Debug, PartialEq, Eq)]
pub enum Action {
    /// Read the entries of the directory at `path`.
    ListDir { path: String },
    /// Read the entries of the directory at `dir` and the bytes of the
    /// file at `bundle`.
    ListDay { dir: String, bundle: String },
    /// Open the file at `path` and tell its length.
    OpenFile { path: String },
    /// Read exactly `len` bytes from the file that was opened.
    ReadFile { len: usize },
    /// Read the bytes of the file at `path`.
    LoadFile { path: String },
    /// Parse `xml` as a whole configuration.
    ParseConfig { xml: String },
    /// Parse `xml` as one corridor.
    ParseCorridor { xml: String },
    /// Select the nodes of the document `xml` that `xpath` matches, each
    /// as XML text.
    SelectNodes { xml: String, xpath: String },
    /// Send this response: the request is done.
    Respond(Response),
}

/// What an action holds.
pub enum ActionView {
    ListDir { path: Seq<char> },
    ListDay { dir: Seq<char>, bundle: Seq<char> },
    OpenFile { path: Seq<char> },
    ReadFile { len: usize },
    LoadFile { path: Seq<char> },
    ParseConfig { xml: Seq<char> },
    ParseCorridor { xml: Seq<char> },
    SelectNodes { xml: Seq<char>, xpath: Seq<char> },
    Respond(ResponseView),
}

impl View for Action {
    type V = ActionView;

    open spec fn view(&self) -> ActionView {
        match self {
            Action::ListDir { path } => ActionView::ListDir { path: path@ },
            Action::ListDay { dir, bundle } => ActionView::ListDay { dir: dir@, bundle: bundle@ },
            Action::OpenFile { path } => ActionView::OpenFile { path: path@ },
            Action::ReadFile { len } => ActionView::ReadFile { len: *len },
            Action::LoadFile { path } => ActionView::LoadFile { path: path@ },
            Action::ParseConfig { xml } => ActionView::ParseConfig { xml: xml@ },
            Action::ParseCorridor { xml } => ActionView::ParseCorridor { xml: xml@ },
            Action::SelectNodes { xml, xpath } => ActionView::SelectNodes {
                xml: xml@,
                xpath: xpath@,
            },
            Action::Respond(r) => ActionView::Respond(r@),
        }
    }
}

/// What the surroundings report: the outcome of the action asked last.
#[derive(Debug, PartialEq, Eq)]
pub enum Event {
    /// Nothing was asked yet.
    Start,
    /// The entries of a directory; `None` where it could not be read.
    Entries(Option<Vec<DirEntry>>),
    /// The entries of a directory and the bytes of a file, each `None`
    /// where it could not be read.
    Day { entries: Option<Vec<DirEntry>>, bundle: Option<Vec<u8>> },
    /// The file was opened; its length, or `None` where the length could
    /// not be queried.
    Opened(Option<u64>),
    /// The file could not be opened.
    Missing,
    /// The bytes that were read; `None` where reading failed.
    Bytes(Option<Vec<u8>>),
    /// The configuration that was parsed; `None` where parsing failed.
    Config(Option<TmsConfig>),
    /// The corridor that was parsed; `None` where parsing failed.
    Corridor(Option<Corridor>),
    /// The nodes that were selected; `None` where selecting failed.
    Nodes(Option<Vec<String>>),
}

/// What a lookup is waiting for.
#[derive(Clone, Copy, Debug, PartialEq, Eq, Structural)]
pub enum Stage {
    /// Nothing was asked yet.
    Start,
    /// A listing.
    Listing,
    /// Whether the loose sample file opens.
    Opening,
    /// The bytes of the loose sample file.
    Reading,
    /// The bytes of the bundle.
    Loading,
    /// The bytes of the configuration snapshot.
    Fetching,
    /// The nodes of the corridor.
    Selecting,
    /// The parsed configuration or corridor.
    Parsing,
}

/// What a lookup comes to after an event.
pub enum Progress {
    /// It asks for this action and then waits at this stage.
    Ask(Action, Stage),
    /// It is over: with this response, or with nothing.
    Done(Option<Response>),
}

/// What a progress holds.
pub enum ProgressView {
    Ask(ActionView, Stage),
    Done(Option<ResponseView>),
}

impl View for Progress {
    type V = ProgressView;

    open spec fn view(&self) -> ProgressView {
        match self {
            Progress::Ask(a, s) => ProgressView::Ask(a@, *s),
            Progress::Done(r) => ProgressView::Done(opt_response(*r)),
        }
    }
}

/// The JSON response that lists `items`: none for an empty list.
pub open spec fn list_response(items: Seq<Seq<char>>) -> Option<ResponseView> {
    if items.len() > 0 {
        Some(ok_text(ContentType::Json, json_list(items)))
    } else {
        None
    }
}

/// The plain text response that lists `dates`, sorted: none for an empty
/// list.
pub open spec fn dates_response(dates: Seq<Seq<char>>) -> Option<ResponseView> {
    if dates.len() > 0 {
        Some(ok_text(ContentType::Plain, lines(sorted_texts(dates))))
    } else {
        None
    }
}

/// The response with `text` of the media type `content_type`, if there is
/// text.
pub open spec fn text_of(content_type: ContentType, text: Option<Seq<char>>) -> Option<
    ResponseView,
> {
    match text {
        Some(t) => Some(ok_text(content_type, t)),
        None => None,
    }
}

/// Builds the JSON response that lists `items`.
pub fn respond_list(items: Vec<String>) -> (r: Option<Response>)
    ensures
        opt_response(r) == list_response(texts(items@)),
{
    assert(item_texts(items@) =~= texts(items@));
    json_response(crate::sensor::build_json(items))
}

/// What a lookup asks first, and the stage at which it then waits.
pub open spec fn opening(cfg: Config, lookup: Lookup) -> (ActionView, Stage) {
    match lookup {
        Lookup::Districts => (ActionView::ListDir { path: cfg.traffic_root@ }, Stage::Listing),
        Lookup::DatesText { district, year } => (
            ActionView::ListDir { path: year_dir(cfg.traffic_root@, district@, year@) },
            Stage::Listing,
        ),
        Lookup::DatesJson { district, year } => (
            ActionView::ListDir { path: year_dir(cfg.traffic_root@, district@, year@) },
            Stage::Listing,
        ),
        Lookup::Sensors { district, date } => (
            ActionView::ListDay {
                dir: date_dir(cfg.traffic_root@, district@, date@),
                bundle: bundle_path(cfg.traffic_root@, district@, date@),
            },
            Stage::Listing,
        ),
        Lookup::Extensions { district, date, sid } => (
            ActionView::ListDay {
                dir: date_dir(cfg.traffic_root@, district@, date@),
                bundle: bundle_path(cfg.traffic_root@, district@, date@),
            },
            Stage::Listing,
        ),
        Lookup::Sample { district, date, sid, ext, mode } => (
            ActionView::OpenFile {
                path: sample_path(cfg.traffic_root@, district@, date@, sid@, ext@),
            },
            Stage::Opening,
        ),
        Lookup::ConfigXml { date } => (
            ActionView::LoadFile { path: snapshot_path(cfg.config_root@, date@) },
            Stage::Fetching,
        ),
        Lookup::ConfigJson { date } => (
            ActionView::LoadFile { path: snapshot_path(cfg.config_root@, date@) },
            Stage::Fetching,
        ),
        Lookup::Corridors { date } => (
            ActionView::LoadFile { path: snapshot_path(cfg.config_root@, date@) },
            Stage::Fetching,
        ),
        Lookup::CorridorXml { date, route, dir } => (
            ActionView::LoadFile { path: snapshot_path(cfg.config_root@, date@) },
            Stage::Fetching,
        ),
        Lookup::CorridorJson { date, route, dir } => (
            ActionView::LoadFile { path: snapshot_path(cfg.config_root@, date@) },
            Stage::Fetching,
        ),
    }
}

/// Says what a lookup asks first.
pub fn open_lookup(cfg: &Config, lookup: &Lookup) -> (r: (Action, Stage))
    ensures
        (r.0@, r.1) == opening(*cfg, *lookup),
{
    let root = cfg.traffic_root.as_str();
    match lookup {
        Lookup::Districts => (Action::ListDir { path: root.to_owned() }, Stage::Listing),
        Lookup::DatesText { district, year } | Lookup::DatesJson { district, year } => (
            Action::ListDir { path: year_dir_path(root, district.as_str(), year.as_str()) },
            Stage::Listing,
        ),
        Lookup::Sensors { district, date } | Lookup::Extensions { district, date, .. } => (
            Action::ListDay {
                dir: date_dir_path(root, district.as_str(), date.as_str()),
                bundle: bundle_file_path(root, district.as_str(), date.as_str()),
            },
            Stage::Listing,
        ),
        Lookup::Sample { district, date, sid, ext, .. } => (
            Action::OpenFile {
                path: crate::sensor::sample_file_path(
                    root,
                    district.as_str(),
                    date.as_str(),
                    sid.as_str(),
                    ext.as_str(),
                ),
            },
            Stage::Opening,
        ),
        Lookup::ConfigXml { date }
        | Lookup::ConfigJson { date }
        | Lookup::Corridors { date }
        | Lookup::CorridorXml { date, .. }
        | Lookup::CorridorJson { date, .. } => (
            Action::LoadFile { path: snapshot_file_path(cfg.config_root.as_str(), date.as_str()) },
            Stage::Fetching,
        ),
    }
}

/// The response that a listing gives from what was read for it.
pub open spec fn listing_of(lookup: Lookup, event: Event) -> Option<ResponseView> {
    match (lookup, event) {
        (Lookup::Districts, Event::Entries(entries)) => list_response(
            kept(Pick::Dirs, entry_candidates(entries)),
        ),
        (Lookup::DatesText { .. }, Event::Entries(entries)) => dates_response(
            kept(Pick::Dates, entry_candidates(entries)),
        ),
        (Lookup::DatesJson { .. }, Event::Entries(entries)) => list_response(
            kept(Pick::Dates, entry_candidates(entries)),
        ),
        (Lookup::Sensors { .. }, Event::Day { entries, bundle }) => list_response(
            kept(Pick::Sensors, entry_candidates(entries)) + kept(
                Pick::Sensors,
                bundle_candidates(bundle),
            ),
        ),
        (Lookup::Extensions { sid, .. }, Event::Day { entries, bundle }) => list_response(
            kept(Pick::Extensions { sid: sid@ }, entry_candidates(entries)) + kept(
                Pick::Extensions { sid: sid@ },
                bundle_candidates(bundle),
            ),
        ),
        _ => None,
    }
}

/// Builds the response of a listing from what was read for it.
pub fn respond_listing(lookup: &Lookup, event: Event) -> (r: Option<Response>)
    ensures
        opt_response(r) == listing_of(*lookup, event),
{
    match (lookup, event) {
        (Lookup::Districts, Event::Entries(entries)) => respond_list(lookup_districts(&entries)),
        (Lookup::DatesText { .. }, Event::Entries(entries)) => text_response(
            handle_dates_text(lookup_dates(&entries)),
        ),
        (Lookup::DatesJson { .. }, Event::Entries(entries)) => respond_list(lookup_dates(&entries)),
        (Lookup::Sensors { .. }, Event::Day { entries, bundle }) => respond_list(
            lookup_sensors(&entries, bundle),
        ),
        (Lookup::Extensions { sid, .. }, Event::Day { entries, bundle }) => respond_list(
            lookup_ext(&entries, bundle, sid.as_str()),
        ),
        _ => None,
    }
}

/// Whether `data` may be sent for `lookup`: the lookup asks for a sample
/// file, and the extension of that file allows the length of the data.
pub open spec fn sends_sample(lookup: Lookup, data: Seq<u8>) -> bool {
    lookup matches Lookup::Sample { ext, .. } && valid_sample_len(ext@, data.len())
}

/// What a lookup comes to at `stage` after `event`.
pub open spec fn advance_of(cfg: Config, lookup: Lookup, stage: Stage, event: Event) -> ProgressView {
    if stage == Stage::Start {
        ProgressView::Ask(opening(cfg, lookup).0, opening(cfg, lookup).1)
    } else {
        match lookup {
            Lookup::Districts
            | Lookup::DatesText { .. }
            | Lookup::DatesJson { .. }
            | Lookup::Sensors { .. }
            | Lookup::Extensions { .. } => if stage == Stage::Listing {
                ProgressView::Done(listing_of(lookup, event))
            } else {
                ProgressView::Done(None)
            },
            Lookup::Sample { district, date, sid, ext, mode } => sample_step(
                cfg.traffic_root@,
                district@,
                date@,
                sid@,
                ext@,
                mode,
                stage,
                event,
            ),
            _ => snapshot_step(lookup, stage, event),
        }
    }
}

/// Says what a lookup comes to at `stage` after `event`.
pub fn advance(cfg: &Config, lookup: &Lookup, stage: Stage, event: Event) -> (r: Progress)
    ensures
        r@ == advance_of(*cfg, *lookup, stage, event),
        r matches Progress::Done(Some(response)) ==> (response.body matches Body::Bytes(data)
            ==> sends_sample(*lookup, data@)),
{
    if stage == Stage::Start {
        let (action, next) = open_lookup(cfg, lookup);
        return Progress::Ask(action, next);
    }
    match lookup {
        Lookup::Districts
        | Lookup::DatesText { .. }
        | Lookup::DatesJson { .. }
        | Lookup::Sensors { .. }
        | Lookup::Extensions { .. } => {
            if stage == Stage::Listing {
                Progress::Done(respond_listing(lookup, event))
            } else {
                Progress::Done(None)
            }
        },
        Lookup::Sample { district, date, sid, ext, mode } => read_path_sid_ext(
            cfg.traffic_root.as_str(),
            district.as_str(),
            date.as_str(),
            sid.as_str(),
            ext.as_str(),
            *mode,
            stage,
            event,
        ),
        _ => read_snapshot(lookup, stage, event),
    }
}

/// Where a request is: the attempt that is being tried, and the stage that
/// its lookup is at.
#[derive(Clone, Copy, Debug, PartialEq, Eq, Structural)]
pub struct Position {
    /// The index of the attempt in the plan; the length of the plan once
    /// the request is done.
    pub pos: usize,
    /// The stage of the attempt's lookup.
    pub stage: Stage,
}

/// The position of a request that is done.
pub open spec fn done(plan: Seq<Attempt>) -> Position {
    Position { pos: plan.len() as usize, stage: Stage::Start }
}

/// What trying the attempts from `pos` on comes to: the first of them asks
/// its opening action or refuses the request; past the last attempt the
/// response is that nothing was found.
pub open spec fn begin(cfg: Config, plan: Seq<Attempt>, pos: int) -> (Position, ActionView) {
    if 0 <= pos < plan.len() {
        match plan[pos] {
            Attempt::Lookup(lookup) => (
                Position { pos: pos as usize, stage: opening(cfg, lookup).1 },
                opening(cfg, lookup).0,
            ),
            Attempt::BadRequest => (done(plan), ActionView::Respond(bad_request_view())),
        }
    } else {
        (done(plan), ActionView::Respond(not_found_view()))
    }
}

/// The next position and action of a request whose plan is `plan`, which is
/// at `at` and is told `event`. The attempt at the position goes on with
/// the event. If it asks for something, that is the action. If it is over
/// with a response, the request is done with that response. If it is over
/// with nothing, the next attempt begins.
pub open spec fn step_of(cfg: Config, plan: Seq<Attempt>, at: Position, event: Event) -> (
    Position,
    ActionView,
) {
    if at.pos < plan.len() {
        match plan[at.pos as int] {
            Attempt::Lookup(lookup) => match advance_of(cfg, lookup, at.stage, event) {
                ProgressView::Ask(action, stage) => (Position { pos: at.pos, stage }, action),
                ProgressView::Done(Some(response)) => (done(plan), ActionView::Respond(response)),
                ProgressView::Done(None) => begin(cfg, plan, at.pos + 1),
            },
            Attempt::BadRequest => (done(plan), ActionView::Respond(bad_request_view())),
        }
    } else {
        (done(plan), ActionView::Respond(not_found_view()))
    }
}

/// Begins with the attempt at `pos`.
fn begin_at(cfg: &Config, plan: &Vec<Attempt>, pos: usize) -> (r: (Position, Action))
    ensures
        (r.0, r.1@) == begin(*cfg, plan@, pos as int),
{
    let end = Position { pos: plan.len(), stage: Stage::Start };
    if pos < plan.len() {
        match &plan[pos] {
            Attempt::Lookup(lookup) => {
                let (action, stage) = open_lookup(cfg, lookup);
                (Position { pos, stage }, action)
            },
            Attempt::BadRequest => (end, Action::Respond(bad_request())),
        }
    } else {
        (end, Action::Respond(not_found()))
    }
}

/// The position of a request that has not begun.
pub fn start() -> (at: Position)
    ensures
        at == (Position { pos: 0, stage: Stage::Start }),
{
    Position { pos: 0, stage: Stage::Start }
}

/// Takes a request one step further: from where it is and the outcome of
/// what was asked last to where it is next and what to do next.
pub fn step(cfg: &Config, plan: &Vec<Attempt>, at: Position, event: Event) -> (r: (Position, Action))
    ensures
        (r.0, r.1@) == step_of(*cfg, plan@, at, event),
        r.1 matches Action::Respond(response) ==> (response.body matches Body::Bytes(data) ==> at.pos
            < plan@.len() && (plan@[at.pos as int] matches Attempt::Lookup(lookup)
            && sends_sample(lookup, data@))),
{
    let end = Position { pos: plan.len(), stage: Stage::Start };
    if at.pos < plan.len() {
        match &plan[at.pos] {
            Attempt::Lookup(lookup) => match advance(cfg, lookup, at.stage, event) {
                Progress::Ask(action, stage) => (Position { pos: at.pos, stage }, action),
                Progress::Done(Some(response)) => (end, Action::Respond(response)),
                Progress::Done(None) => begin_at(cfg, plan, at.pos + 1),
            },
            Attempt::BadRequest => (end, Action::Respond(bad_request())),
        }
    } else {
        (end, Action::Respond(not_found()))
    }
}

} // verus!
