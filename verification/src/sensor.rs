//! The sensor data archive: listings, sample files and the requests that
//! ask for them.

use vstd::prelude::*;
use vstd::string::StringExecFns;
use crate::bundle::{
    member_data, member_size, open_archive, read_by_name, size_by_name, unzip_names,
};
use crate::date::{
    is_valid_date, is_valid_year_date, parse_year, valid_date, valid_year_date, year_of,
};
use crate::lister::{
    bundle_candidates, dir_candidates, kept, list_dir, list_zip, texts, DateLister, DirEntry,
    DirLister, ExtLister, Pick, SidLister,
};
use crate::order::{sort_names, sorted_texts};
use crate::request::{
    attempts, opt_attempt, plan, plan_of, Action, ActionView, Attempt, AttemptView, Event,
    Lookup, LookupView, Progress, ProgressView, Stage,
};
use crate::response::{
    json_response, ok_bytes, ok_text, opt_response, Body, ContentType, Response,
};
use crate::sample::{is_valid_sample_len, sample_file_ext, valid_ext, valid_sample_len};
use crate::text::{head, head_of, same, split_at_first, split_once};

verus! {

/// Where the archives are, and which district a request means that names
/// none.
#[derive(Debug, PartialEq, Eq)]
pub struct Config {
    /// The directory that holds one directory for each district.
    pub traffic_root: String,
    /// The directory that holds the configuration snapshots.
    pub config_root: String,
    /// The district of a request that names none.
    pub default_district: String,
}

impl Default for Config {
    /// The conventional places, and the district `tms`.
    fn default() -> (cfg: Config)
        ensures
            cfg.traffic_root@ == "/var/lib/iris/traffic"@,
            cfg.config_root@ == "/var/lib/iris/metro_config"@,
            cfg.default_district@ == "tms"@,
    {
        Config {
            traffic_root: String::from_str("/var/lib/iris/traffic"),
            config_root: String::from_str("/var/lib/iris/metro_config"),
            default_district: String::from_str("tms"),
        }
    }
}

/// The path of `name` inside the directory `dir`.
pub open spec fn child(dir: Seq<char>, name: Seq<char>) -> Seq<char> {
    dir + seq!['/'] + name
}

/// The directory of the dates of a district's year.
pub open spec fn year_dir(root: Seq<char>, district: Seq<char>, year: Seq<char>) -> Seq<char> {
    child(child(root, district), year)
}

/// The directory of the loose sample files of a district's date. Its
/// parent is named by the date's first four characters.
pub open spec fn date_dir(root: Seq<char>, district: Seq<char>, date: Seq<char>) -> Seq<char> {
    child(year_dir(root, district, head(date, 4)), date)
}

/// The path of the bundle of a district's date, beside the date's directory.
pub open spec fn bundle_path(root: Seq<char>, district: Seq<char>, date: Seq<char>) -> Seq<
    char,
> {
    date_dir(root, district, date) + ".traffic"@
}

/// The name of a sensor's sample file: its ID, a dot and the extension.
pub open spec fn sample_name(sid: Seq<char>, ext: Seq<char>) -> Seq<char> {
    sid + seq!['.'] + ext
}

/// The path of a sensor's loose sample file.
pub open spec fn sample_path(
    root: Seq<char>,
    district: Seq<char>,
    date: Seq<char>,
    sid: Seq<char>,
    ext: Seq<char>,
) -> Seq<char> {
    child(date_dir(root, district, date), sample_name(sid, ext))
}

/// Appends `/` and `name` to the path `path`.
fn push_child(path: &mut String, name: &str)
    ensures
        final(path)@ == child(old(path)@, name@),
{
    path.push('/');
    path.append(name);
    assert(path@ =~= child(old(path)@, name@));
}

/// Builds the path of the directory of the dates of a district's year.
pub fn year_dir_path(root: &str, district: &str, year: &str) -> (path: String)
    ensures
        path@ == year_dir(root@, district@, year@),
{
    let mut path = String::from_str(root);
    push_child(&mut path, district);
    push_child(&mut path, year);
    path
}

/// Builds the path of the directory of the loose sample files of a
/// district's date.
pub fn date_dir_path(root: &str, district: &str, date: &str) -> (path: String)
    ensures
        path@ == date_dir(root@, district@, date@),
{
    let mut path = year_dir_path(root, district, head_of(date, 4));
    push_child(&mut path, date);
    path
}

/// Builds the path of the bundle of a district's date.
pub fn bundle_file_path(root: &str, district: &str, date: &str) -> (path: String)
    ensures
        path@ == bundle_path(root@, district@, date@),
{
    let mut path = date_dir_path(root, district, date);
    path.append(".traffic");
    path
}

/// Builds the name of a sensor's sample file.
pub fn sample_file_name(sid: &str, ext: &str) -> (name: String)
    ensures
        name@ == sample_name(sid@, ext@),
{
    let mut name = String::from_str(sid);
    name.push('.');
    name.append(ext);
    assert(name@ =~= sample_name(sid@, ext@));
    name
}

/// Builds the path of a sensor's loose sample file.
pub fn sample_file_path(root: &str, district: &str, date: &str, sid: &str, ext: &str) -> (path:
    String)
    ensures
        path@ == sample_path(root@, district@, date@, sid@, ext@),
{
    let mut path = date_dir_path(root, district, date);
    let name = sample_file_name(sid, ext);
    push_child(&mut path, name.as_str());
    path
}

/// The candidates that a directory gives: none where it could not be read.
pub open spec fn entry_candidates(entries: Option<Vec<DirEntry>>) -> Seq<crate::lister::Candidate> {
    match entries {
        Some(e) => dir_candidates(e@),
        None => Seq::empty(),
    }
}

/// The items, each followed by a newline.
pub open spec fn lines(items: Seq<Seq<char>>) -> Seq<char>
    decreases items.len(),
{
    if items.len() == 0 {
        Seq::empty()
    } else {
        lines(items.drop_last()) + items.last() + seq!['\n']
    }
}

/// Builds the plain text list of the dates: sorted, one to a line. An empty
/// list gives no text at all.
pub fn handle_dates_text(dates: Vec<String>) -> (r: Option<String>)
    ensures
        match r {
            Some(text) => dates@.len() > 0 && text@ == lines(sorted_texts(texts(dates@))),
            None => dates@.len() == 0,
        },
{
    if dates.len() > 0 {
        let sorted = sort_names(dates);
        let ghost items = texts(sorted@);
        let mut res = String::new();
        let mut i: usize = 0;
        while i < sorted.len()
            invariant
                i <= sorted.len(),
                items == texts(sorted@),
                res@ == lines(items.subrange(0, i as int)),
            decreases sorted.len() - i,
        {
            proof {
                assert(items.subrange(0, i + 1).drop_last() == items.subrange(0, i as int));
            }
            res.append(sorted[i].as_str());
            res.push('\n');
            i += 1;
        }
        assert(items.subrange(0, i as int) == items);
        Some(res)
    } else {
        None
    }
}

/// Looks up the districts: the directories of the archive's root, given
/// as the entries of that directory.
pub fn lookup_districts(entries: &Option<Vec<DirEntry>>) -> (list: Vec<String>)
    ensures
        texts(list@) == kept(Pick::Dirs, entry_candidates(*entries)),
{
    let lister = DirLister { };
    list_dir(&lister, entries)
}

/// Looks up all sampled dates in a year, given as the entries of the
/// year's directory: the date directories and the bundles.
pub fn lookup_dates(entries: &Option<Vec<DirEntry>>) -> (list: Vec<String>)
    ensures
        texts(list@) == kept(Pick::Dates, entry_candidates(*entries)),
{
    let lister = DateLister { };
    list_dir(&lister, entries)
}

/// Looks up the sensors sampled on one date, given as the entries of the
/// date's directory and the bytes of its bundle: the sensors of the
/// directory, then those of the bundle.
pub fn lookup_sensors(entries: &Option<Vec<DirEntry>>, bundle: Option<Vec<u8>>) -> (list: Vec<
    String,
>)
    ensures
        texts(list@) == kept(Pick::Sensors, entry_candidates(*entries)) + kept(
            Pick::Sensors,
            bundle_candidates(bundle),
        ),
{
    let lister = SidLister { };
    let mut sensors = list_dir(&lister, entries);
    let mut more = list_zip(&lister, bundle);
    let ghost a = texts(sensors@);
    let ghost b = texts(more@);
    sensors.append(&mut more);
    assert(texts(sensors@) =~= a + b);
    sensors
}

/// Looks up the sample file extensions of one sensor on one date, given as
/// the entries of the date's directory and the bytes of its bundle: the
/// extensions found in the directory, then those found in the bundle.
pub fn lookup_ext(entries: &Option<Vec<DirEntry>>, bundle: Option<Vec<u8>>, sid: &str) -> (list:
    Vec<String>)
    ensures
        texts(list@) == kept(Pick::Extensions { sid: sid@ }, entry_candidates(*entries)) + kept(
            Pick::Extensions { sid: sid@ },
            bundle_candidates(bundle),
        ),
{
    let lister = ExtLister { sid };
    let mut exts = list_dir(&lister, entries);
    let mut more = list_zip(&lister, bundle);
    let ghost a = texts(exts@);
    let ghost b = texts(more@);
    exts.append(&mut more);
    assert(texts(exts@) =~= a + b);
    exts
}

/// The character that writes the digit `d`.
pub open spec fn digit_char(d: nat) -> char
    recommends
        d < 10,
{
    ((d + 48) as u8) as char
}

/// The decimal notation of `n`, without leading zeros.
pub open spec fn decimal_text(n: nat) -> Seq<char>
    decreases n,
{
    if n < 10 {
        seq![digit_char(n)]
    } else {
        decimal_text(n / 10).push(digit_char(n % 10))
    }
}

/// The character that writes the digit `d`.
fn digit_of(d: u8) -> (c: char)
    requires
        d < 10,
    ensures
        c == digit_char(d as nat),
{
    (48u8 + d) as char
}

/// Something that a list can show as text.
pub trait ListItem {
    /// The text that stands for the item.
    spec fn text(&self) -> Seq<char>;

    /// Appends the item's text to `out`.
    fn write_to(&self, out: &mut String)
        ensures
            final(out)@ == old(out)@ + self.text(),
    ;
}

impl ListItem for String {
    /// A string stands for itself.
    open spec fn text(&self) -> Seq<char> {
        self@
    }

    fn write_to(&self, out: &mut String) {
        out.append(self.as_str());
    }
}

impl ListItem for u8 {
    /// A byte stands for its value in decimal notation.
    open spec fn text(&self) -> Seq<char> {
        decimal_text(*self as nat)
    }

    fn write_to(&self, out: &mut String) {
        let n: u8 = *self;
        let ghost start = out@;
        proof {
            reveal_with_fuel(decimal_text, 3);
        }
        if n >= 100 {
            out.push(digit_of(n / 100));
            out.push(digit_of((n / 10) % 10));
            out.push(digit_of(n % 10));
            assert(out@ =~= start + decimal_text(n as nat));
        } else if n >= 10 {
            out.push(digit_of(n / 10));
            out.push(digit_of(n % 10));
            assert(out@ =~= start + decimal_text(n as nat));
        } else {
            out.push(digit_of(n));
            assert(out@ =~= start + decimal_text(n as nat));
        }
    }
}

/// The texts of the items of a list.
pub open spec fn item_texts<T: ListItem>(items: Seq<T>) -> Seq<Seq<char>> {
    items.map_values(|x: T| x.text())
}

/// The items between double quotes, with a comma between one and the next.
pub open spec fn quoted_items(items: Seq<Seq<char>>) -> Seq<char>
    decreases items.len(),
{
    if items.len() == 0 {
        Seq::empty()
    } else if items.len() == 1 {
        seq!['"'] + items[0] + seq!['"']
    } else {
        quoted_items(items.drop_last()) + seq![','] + seq!['"'] + items.last() + seq!['"']
    }
}

/// The JSON array of the items as strings. Nothing in an item is escaped.
pub open spec fn json_list(items: Seq<Seq<char>>) -> Seq<char> {
    seq!['['] + quoted_items(items) + seq![']']
}

/// Builds the JSON array of the items of a list as strings. An empty list
/// gives no JSON at all.
pub fn build_json<T: ListItem>(arr: Vec<T>) -> (r: Option<String>)
    ensures
        match r {
            Some(json) => arr@.len() > 0 && json@ == json_list(item_texts(arr@)),
            None => arr@.len() == 0,
        },
{
    if arr.len() > 0 {
        let ghost items = item_texts(arr@);
        let mut res = String::new();
        res.push('[');
        let mut i: usize = 0;
        while i < arr.len()
            invariant
                i <= arr.len(),
                items == item_texts(arr@),
                res@ == seq!['['] + quoted_items(items.subrange(0, i as int)),
            decreases arr.len() - i,
        {
            let ghost before = res@;
            let ghost head = items.subrange(0, i as int);
            let ghost next = items.subrange(0, i + 1);
            proof {
                assert(next.drop_last() == head);
                assert(next.last() == arr@[i as int].text());
            }
            if i > 0 {
                res.push(',');
            }
            res.push('"');
            arr[i].write_to(&mut res);
            res.push('"');
            assert(res@ =~= seq!['['] + quoted_items(next));
            i += 1;
        }
        assert(items.subrange(0, i as int) == items);
        res.push(']');
        Some(res)
    } else {
        None
    }
}

/// How the bytes of a sample file are sent.
#[derive(Clone, Copy, Debug, PartialEq, Eq, Structural)]
pub enum OutputMode {
    /// As a JSON array with one string for each byte.
    Json,
    /// As they are, as an octet stream.
    Binary,
}

impl OutputMode {
    /// The response that sends `data` in this mode.
    pub open spec fn shape(self, data: Option<Seq<u8>>) -> Option<crate::response::ResponseView> {
        match data {
            Some(b) => match self {
                OutputMode::Json => if b.len() > 0 {
                    Some(ok_text(ContentType::Json, json_list(b.map_values(|x: u8| x.text()))))
                } else {
                    None
                },
                OutputMode::Binary => Some(ok_bytes(b)),
            },
            None => None,
        }
    }

    /// Builds the response from the data of a sample file, if there is any.
    pub fn build(self, data: Option<Vec<u8>>) -> (r: Option<Response>)
        ensures
            opt_response(r) == self.shape(
                match data {
                    Some(b) => Some(b@),
                    None => None,
                },
            ),
    {
        match data {
            Some(b) => match self {
                OutputMode::Json => json_response(build_json(b)),
                OutputMode::Binary => Some(
                    Response {
                        status: 200,
                        content_type: Some(ContentType::OctetStream),
                        body: Body::Bytes(b),
                    },
                ),
            },
            None => None,
        }
    }
}

/// The bytes of an optional vector.
pub open spec fn opt_bytes(b: Option<Vec<u8>>) -> Option<Seq<u8>> {
    match b {
        Some(v) => Some(v@),
        None => None,
    }
}

/// How many bytes are read of a sample file with extension `ext` whose
/// length is `len`: all of them where the extension allows that length,
/// and a buffer can be that long at all.
pub open spec fn read_len(ext: Seq<char>, len: u64) -> Option<usize> {
    if valid_sample_len(ext, len as nat) && len <= isize::MAX {
        Some(len as usize)
    } else {
        None
    }
}

/// Decides how many bytes to read of a sample file from its length.
pub fn sample_read_len(ext: &str, len: u64) -> (r: Option<usize>)
    ensures
        r == read_len(ext@, len),
{
    if is_valid_sample_len(ext, len) && len <= isize::MAX as u64 {
        Some(len as usize)
    } else {
        None
    }
}

/// The sample file of `sid` with extension `ext` in the bundle `bundle`:
/// the member named after both, if the bundle is an archive, the size that
/// it declares for the member is one that the extension allows, and that
/// many bytes can be read of it.
pub open spec fn bundle_sample(bundle: Seq<u8>, sid: Seq<char>, ext: Seq<char>) -> Option<
    Seq<u8>,
> {
    if unzip_names(bundle) is None {
        None
    } else {
        match member_size(bundle, sample_name(sid, ext)) {
            Some(size) => if size <= u64::MAX {
                match read_len(ext, size as u64) {
                    Some(len) => member_data(bundle, sample_name(sid, ext), len as nat),
                    None => None,
                }
            } else {
                None
            },
            None => None,
        }
    }
}

/// Reads the sample file of a sensor from the bundle of its date, given
/// as the bytes of the bundle's file.
pub fn read_bundle_member(bundle: Vec<u8>, sid: &str, ext: &str) -> (r: Option<Vec<u8>>)
    ensures
        opt_bytes(r) == bundle_sample(bundle@, sid@, ext@),
        r matches Some(data) ==> valid_sample_len(ext@, data@.len()),
{
    match open_archive(bundle) {
        Some(mut zip) => {
            let name = sample_file_name(sid, ext);
            match size_by_name(&mut zip, name.as_str()) {
                Some(size) => match sample_read_len(ext, size) {
                    Some(len) => read_by_name(&mut zip, name.as_str(), len),
                    None => None,
                },
                None => None,
            }
        },
        None => None,
    }
}

/// What reading a sample file comes to, step by step. The loose file is
/// tried first: if it opens, its length decides whether it is read, and
/// the bundle is not looked at. The bundle is read only where the loose
/// file does not open.
pub open spec fn sample_step(
    root: Seq<char>,
    district: Seq<char>,
    date: Seq<char>,
    sid: Seq<char>,
    ext: Seq<char>,
    mode: OutputMode,
    stage: Stage,
    event: Event,
) -> ProgressView {
    match (stage, event) {
        (Stage::Start, _) => ProgressView::Ask(
            ActionView::OpenFile { path: sample_path(root, district, date, sid, ext) },
            Stage::Opening,
        ),
        (Stage::Opening, Event::Opened(Some(len))) => match read_len(ext, len) {
            Some(n) => ProgressView::Ask(ActionView::ReadFile { len: n }, Stage::Reading),
            None => ProgressView::Done(None),
        },
        (Stage::Opening, Event::Missing) => ProgressView::Ask(
            ActionView::LoadFile { path: bundle_path(root, district, date) },
            Stage::Loading,
        ),
        (Stage::Reading, Event::Bytes(Some(data))) => if valid_sample_len(ext, data@.len()) {
            ProgressView::Done(mode.shape(Some(data@)))
        } else {
            ProgressView::Done(None)
        },
        (Stage::Loading, Event::Bytes(Some(bundle))) => ProgressView::Done(
            mode.shape(bundle_sample(bundle@, sid, ext)),
        ),
        _ => ProgressView::Done(None),
    }
}

/// Reads sampled data from a path, one step at a time: says what to do
/// next for the sample file of `sid` with extension `ext`, given the stage
/// that the reading is at and the outcome of what was asked last.
pub fn read_path_sid_ext(
    root: &str,
    district: &str,
    date: &str,
    sid: &str,
    ext: &str,
    mode: OutputMode,
    stage: Stage,
    event: Event,
) -> (r: Progress)
    ensures
        r@ == sample_step(root@, district@, date@, sid@, ext@, mode, stage, event),
        r matches Progress::Done(Some(response)) ==> (response.body matches Body::Bytes(data)
            ==> valid_sample_len(ext@, data@.len())),
{
    match stage {
        Stage::Start => Progress::Ask(
            Action::OpenFile { path: sample_file_path(root, district, date, sid, ext) },
            Stage::Opening,
        ),
        Stage::Opening => match event {
            Event::Opened(Some(len)) => match sample_read_len(ext, len) {
                Some(n) => Progress::Ask(Action::ReadFile { len: n }, Stage::Reading),
                None => Progress::Done(None),
            },
            Event::Missing => Progress::Ask(
                Action::LoadFile { path: bundle_file_path(root, district, date) },
                Stage::Loading,
            ),
            _ => Progress::Done(None),
        },
        Stage::Reading => match event {
            Event::Bytes(Some(data)) => {
                if is_valid_sample_len(ext, data.len() as u64) {
                    Progress::Done(mode.build(Some(data)))
                } else {
                    Progress::Done(None)
                }
            },
            _ => Progress::Done(None),
        },
        Stage::Loading => match event {
            Event::Bytes(Some(bundle)) => Progress::Done(
                mode.build(read_bundle_member(bundle, sid, ext)),
            ),
            _ => Progress::Done(None),
        },
        _ => Progress::Done(None),
    }
}

/// The reading of `/district/year` as a request for the dates of that
/// year, as plain text.
pub open spec fn did_year(district: Seq<char>, year: Seq<char>) -> Option<AttemptView> {
    if year_of(year) is Some {
        Some(AttemptView::Lookup(LookupView::DatesText { district, year }))
    } else {
        None
    }
}

/// The reading of `/district/year` as a request for the dates of that
/// year, as JSON.
pub open spec fn did_year_json(district: Seq<char>, year: Seq<char>) -> Option<AttemptView> {
    if year_of(year) is Some {
        Some(AttemptView::Lookup(LookupView::DatesJson { district, year }))
    } else {
        None
    }
}

/// The reading of `/district/date` as a request for the sensors of that
/// date.
pub open spec fn did_date(district: Seq<char>, date: Seq<char>) -> Option<AttemptView> {
    if valid_date(date) {
        Some(AttemptView::Lookup(LookupView::Sensors { district, date }))
    } else {
        None
    }
}

/// A reading with both a year and a date: it is followed only where the
/// date begins with the year, and refused where it does not.
pub open spec fn checked_year(
    year: Seq<char>,
    date: Seq<char>,
    then: Option<AttemptView>,
) -> Option<AttemptView> {
    if valid_year_date(year, date) {
        if date.subrange(0, 4) == year {
            then
        } else {
            Some(AttemptView::BadRequest)
        }
    } else {
        None
    }
}

/// The reading of `/year/date` as a request for the sensors of that date
/// in `district`.
pub open spec fn did_year_date(district: Seq<char>, year: Seq<char>, date: Seq<char>) -> Option<
    AttemptView,
> {
    checked_year(year, date, did_date(district, date))
}

/// The reading of `/district/date/sid` as a request for the sample file
/// extensions of that sensor.
pub open spec fn did_date_sid(district: Seq<char>, date: Seq<char>, sid: Seq<char>) -> Option<
    AttemptView,
> {
    if valid_date(date) {
        Some(AttemptView::Lookup(LookupView::Extensions { district, date, sid }))
    } else {
        None
    }
}

/// The reading of a date, a sensor ID and an extension as a request for
/// that sample file.
pub open spec fn did_date_sid_ext(
    mode: OutputMode,
    district: Seq<char>,
    date: Seq<char>,
    sid: Seq<char>,
    ext: Seq<char>,
) -> Option<AttemptView> {
    if valid_date(date) && valid_ext(ext) {
        Some(AttemptView::Lookup(LookupView::Sample { district, date, sid, ext, mode }))
    } else {
        None
    }
}

/// The reading of `/district/date/sid.ext` as a request for that sample
/// file: the sensor ID ends at the first dot.
pub open spec fn did_date_sidext(
    mode: OutputMode,
    district: Seq<char>,
    date: Seq<char>,
    sid_ext: Seq<char>,
) -> Option<AttemptView> {
    match split_once(sid_ext, '.') {
        Some((sid, ext)) => did_date_sid_ext(mode, district, date, sid, ext),
        None => None,
    }
}

/// The reading of `/year/date/sid.ext` as a request for that sample file
/// in `district`.
pub open spec fn did_year_date_sidext(
    mode: OutputMode,
    district: Seq<char>,
    year: Seq<char>,
    date: Seq<char>,
    sid_ext: Seq<char>,
) -> Option<AttemptView> {
    checked_year(year, date, did_date_sidext(mode, district, date, sid_ext))
}

/// Where a reading with both a year and a date is looked up, the date
/// begins with the year.
pub proof fn law_date_begins_with_year(
    mode: OutputMode,
    district: Seq<char>,
    year: Seq<char>,
    date: Seq<char>,
    sid_ext: Seq<char>,
)
    ensures
        did_year_date(district, year, date) matches Some(AttemptView::Lookup(_)) ==> year.is_prefix_of(
            date,
        ),
        did_year_date_sidext(mode, district, year, date, sid_ext) matches Some(
            AttemptView::Lookup(_),
        ) ==> year.is_prefix_of(date),
{
}

/// Handles a request for the dates of a year, as plain text.
pub fn handle_did_year(district: &str, year: &str) -> (r: Option<Attempt>)
    ensures
        opt_attempt(r) == did_year(district@, year@),
{
    if parse_year(year).is_some() {
        Some(
            Attempt::Lookup(
                Lookup::DatesText { district: district.to_owned(), year: year.to_owned() },
            ),
        )
    } else {
        None
    }
}

/// Handles a request for the dates of a year, as JSON.
pub fn handle_did_year_json(district: &str, year: &str) -> (r: Option<Attempt>)
    ensures
        opt_attempt(r) == did_year_json(district@, year@),
{
    if parse_year(year).is_some() {
        Some(
            Attempt::Lookup(
                Lookup::DatesJson { district: district.to_owned(), year: year.to_owned() },
            ),
        )
    } else {
        None
    }
}

/// Handles a request for the sensors of a date, as JSON.
pub fn handle_did_date(district: &str, date: &str) -> (r: Option<Attempt>)
    ensures
        opt_attempt(r) == did_date(district@, date@),
{
    if is_valid_date(date) {
        Some(
            Attempt::Lookup(Lookup::Sensors { district: district.to_owned(), date: date.to_owned() }),
        )
    } else {
        None
    }
}

/// Handles a request for the sensors sampled on a date that also names
/// the year.
pub fn handle_did_year_date(district: &str, year: &str, date: &str) -> (r: Option<Attempt>)
    ensures
        opt_attempt(r) == did_year_date(district@, year@, date@),
{
    if is_valid_year_date(year, date) {
        if same(date.substring_char(0, 4), year) {
            handle_did_date(district, date)
        } else {
            Some(Attempt::BadRequest)
        }
    } else {
        None
    }
}

/// Handles a request for the sample file extensions of a sensor.
pub fn handle_did_date_sid(district: &str, date: &str, sid: &str) -> (r: Option<Attempt>)
    ensures
        opt_attempt(r) == did_date_sid(district@, date@, sid@),
{
    if is_valid_date(date) {
        Some(
            Attempt::Lookup(
                Lookup::Extensions {
                    district: district.to_owned(),
                    date: date.to_owned(),
                    sid: sid.to_owned(),
                },
            ),
        )
    } else {
        None
    }
}

/// Handles a request for sampled data, the sensor ID and the extension
/// given apart.
pub fn handle_did_date_sid_ext(
    mode: OutputMode,
    district: &str,
    date: &str,
    sid: &str,
    ext: &str,
) -> (r: Option<Attempt>)
    ensures
        opt_attempt(r) == did_date_sid_ext(mode, district@, date@, sid@, ext@),
{
    if is_valid_date(date) && sample_file_ext(ext).is_some() {
        Some(
            Attempt::Lookup(
                Lookup::Sample {
                    district: district.to_owned(),
                    date: date.to_owned(),
                    sid: sid.to_owned(),
                    ext: ext.to_owned(),
                    mode,
                },
            ),
        )
    } else {
        None
    }
}

/// Handles a request for sampled data, the sensor ID and the extension
/// given as one name.
pub fn handle_did_date_sidext(mode: OutputMode, district: &str, date: &str, sid_ext: &str) -> (r:
    Option<Attempt>)
    ensures
        opt_attempt(r) == did_date_sidext(mode, district@, date@, sid_ext@),
{
    match split_at_first(sid_ext, '.') {
        Some((sid, ext)) => handle_did_date_sid_ext(mode, district, date, sid, ext),
        None => None,
    }
}

/// Handles a request for sampled data that also names the year.
pub fn handle_did_year_date_sidext(
    mode: OutputMode,
    district: &str,
    year: &str,
    date: &str,
    sid_ext: &str,
) -> (r: Option<Attempt>)
    ensures
        opt_attempt(r) == did_year_date_sidext(mode, district@, year@, date@, sid_ext@),
{
    if is_valid_year_date(year, date) {
        if same(date.substring_char(0, 4), year) {
            handle_did_date_sidext(mode, district, date, sid_ext)
        } else {
            Some(Attempt::BadRequest)
        }
    } else {
        None
    }
}

/// Handles the districts request: one reading.
pub fn handle_districts_json() -> (r: Vec<Attempt>)
    ensures
        attempts(r@) == seq![AttemptView::Lookup(LookupView::Districts)],
{
    let mut r: Vec<Attempt> = Vec::new();
    r.push(Attempt::Lookup(Lookup::Districts));
    assert(attempts(r@) =~= seq![AttemptView::Lookup(LookupView::Districts)]);
    r
}

/// Handles a request with one parameter: a year of the default district,
/// for its dates as plain text.
pub fn handle_1_param(cfg: &Config, year: &str) -> (r: Vec<Attempt>)
    ensures
        attempts(r@) == plan_of(seq![did_year(cfg.default_district@, year@), None, None]),
{
    plan(handle_did_year(cfg.default_district.as_str(), year), None, None)
}

/// Handles a JSON request with two parameters: a district and a year, for
/// the year's dates.
pub fn handle_2_params_json(p1: &str, p2: &str) -> (r: Vec<Attempt>)
    ensures
        attempts(r@) == plan_of(seq![did_year_json(p1@, p2@), None, None]),
{
    plan(handle_did_year_json(p1, p2), None, None)
}

/// Handles a request with two parameters. They are read as a district and
/// a date, then as a year and a date of the default district, then as a
/// district and a year.
pub fn handle_2_params(cfg: &Config, p1: &str, p2: &str) -> (r: Vec<Attempt>)
    ensures
        attempts(r@) == plan_of(
            seq![
                did_date(p1@, p2@),
                did_year_date(cfg.default_district@, p1@, p2@),
                did_year(p1@, p2@),
            ],
        ),
{
    plan(
        handle_did_date(p1, p2),
        handle_did_year_date(cfg.default_district.as_str(), p1, p2),
        handle_did_year(p1, p2),
    )
}

/// Handles a JSON request with three parameters. They are read as a
/// district, a date and a sample file, then as a district, a date and a
/// sensor, then as a year, a date and a sample file of the default
/// district.
pub fn handle_3_params_json(cfg: &Config, p1: &str, p2: &str, p3: &str) -> (r: Vec<Attempt>)
    ensures
        attempts(r@) == plan_of(
            seq![
                did_date_sidext(OutputMode::Json, p1@, p2@, p3@),
                did_date_sid(p1@, p2@, p3@),
                did_year_date_sidext(OutputMode::Json, cfg.default_district@, p1@, p2@, p3@),
            ],
        ),
{
    plan(
        handle_did_date_sidext(OutputMode::Json, p1, p2, p3),
        handle_did_date_sid(p1, p2, p3),
        handle_did_year_date_sidext(OutputMode::Json, cfg.default_district.as_str(), p1, p2, p3),
    )
}

/// Handles a request with three parameters. They are read as a district, a
/// date and a sample file, then as a year, a date and a sample file of the
/// default district, then as a district, a year and a date.
pub fn handle_3_params(cfg: &Config, p1: &str, p2: &str, p3: &str) -> (r: Vec<Attempt>)
    ensures
        attempts(r@) == plan_of(
            seq![
                did_date_sidext(OutputMode::Binary, p1@, p2@, p3@),
                did_year_date_sidext(OutputMode::Binary, cfg.default_district@, p1@, p2@, p3@),
                did_year_date(p1@, p2@, p3@),
            ],
        ),
{
    plan(
        handle_did_date_sidext(OutputMode::Binary, p1, p2, p3),
        handle_did_year_date_sidext(OutputMode::Binary, cfg.default_district.as_str(), p1, p2, p3),
        handle_did_year_date(p1, p2, p3),
    )
}

} // verus!
