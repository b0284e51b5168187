//! Weather reports as they come from the station: where the report stands
//! in what the server sent, whether it reads as a report at all, and what
//! its remarks say of the station.

use vstd::prelude::*;
use vstd::string::*;
use crate::text::{chars_of, find, first_occurrence, occurs_at};

verus! {

/// How an automated station tells rain from snow.
#[derive(Clone, Copy, Debug, PartialEq, Eq, Structural)]
pub enum ObservationType {
    AutomatedWithoutPrecipitationDiscriminator,
    AutomatedWithPrecipitationDiscriminator,
}

/// What the remarks of a report say.
#[derive(Clone, Copy, Debug, PartialEq, Eq)]
pub struct Remark {
    observation_type: Option<ObservationType>,
}

/// Where something was seen, and how far off.
#[derive(Clone, Copy, Debug, PartialEq, Eq)]
pub struct DirectionalVector {
    pub distance: Option<Distance>,
    pub direction: Direction,
}

/// How far off something was seen.
#[derive(Clone, Copy, Debug, PartialEq, Eq, Structural)]
pub enum Distance {
    Distant,
}

/// The eight directions of the compass.
#[derive(Clone, Copy, Debug, PartialEq, Eq, Structural)]
pub enum Direction {
    N,
    W,
    S,
    E,
    NW,
    NE,
    SW,
    SE,
}

/// Whether the character is white space: one of the characters that
/// separate the terms of a text.
pub open spec fn is_space(c: char) -> bool {
    let code = c as u32;
    ||| 0x09 <= code <= 0x0d
    ||| code == 0x20
    ||| code == 0x85
    ||| code == 0xa0
    ||| code == 0x1680
    ||| 0x2000 <= code <= 0x200a
    ||| code == 0x2028
    ||| code == 0x2029
    ||| code == 0x202f
    ||| code == 0x205f
    ||| code == 0x3000
}

/// Whether a term of `text` ends just before `end` and reads `AO` and then
/// `last`. A term is a run of characters that are no white space, with white
/// space or an end of the text on either side.
pub open spec fn station_term(text: Seq<char>, end: int, last: char) -> bool {
    &&& 3 <= end <= text.len()
    &&& text[end - 3] == 'A'
    &&& text[end - 2] == 'O'
    &&& text[end - 1] == last
    &&& (end == 3 || is_space(text[end - 4]))
    &&& (end == text.len() || is_space(text[end]))
}

/// What the last term that names a kind of station, among the terms that
/// end at or before `end`, says of the station.
pub open spec fn last_station_term(text: Seq<char>, end: int) -> Option<ObservationType>
    decreases end,
{
    if end <= 0 {
        None
    } else if station_term(text, end, '2') {
        Some(ObservationType::AutomatedWithPrecipitationDiscriminator)
    } else if station_term(text, end, '1') {
        Some(ObservationType::AutomatedWithoutPrecipitationDiscriminator)
    } else {
        last_station_term(text, end - 1)
    }
}

/// Whether the character is white space.
pub fn is_whitespace(c: char) -> (r: bool)
    ensures
        r == is_space(c),
{
    let code: u32 = c as u32;
    (0x09 <= code && code <= 0x0d) || code == 0x20 || code == 0x85 || code == 0xa0 || code
        == 0x1680 || (0x2000 <= code && code <= 0x200a) || code == 0x2028 || code == 0x2029
        || code == 0x202f || code == 0x205f || code == 0x3000
}

fn is_station_term(text: &Vec<char>, end: usize, last: char) -> (r: bool)
    requires
        end <= text.len(),
    ensures
        r == station_term(text@, end as int, last),
{
    end >= 3 && text[end - 3] == 'A' && text[end - 2] == 'O' && text[end - 1] == last && (end
        == 3 || is_whitespace(text[end - 4])) && (end == text.len() || is_whitespace(text[end]))
}

impl Default for Remark {
    fn default() -> (r: Remark)
        ensures
            r.kind() is None,
    {
        Remark { observation_type: None }
    }
}

impl Remark {
    /// What the remarks say of the station, if anything.
    pub closed spec fn kind(&self) -> Option<ObservationType> {
        self.observation_type
    }

    pub fn observation_type(&self) -> (r: Option<ObservationType>)
        ensures
            r == self.kind(),
    {
        self.observation_type
    }

    /// Reads the remarks of a report. Of the terms `AO1` and `AO2`, the one
    /// that comes last decides; other terms say nothing here.
    pub fn parse_from_str(raw: &str) -> (remark: Remark)
        ensures
            remark.kind() == last_station_term(raw@, raw@.len() as int),
    {
        let text: Vec<char> = chars_of(raw);
        let mut remark = Remark::default();
        let mut seen: usize = 0;
        while seen < text.len()
            invariant
                seen <= text.len(),
                text@ == raw@,
                remark.kind() == last_station_term(text@, seen as int),
            decreases text.len() - seen,
        {
            let end: usize = seen + 1;
            if is_station_term(&text, end, '2') {
                remark.observation_type = Some(
                    ObservationType::AutomatedWithPrecipitationDiscriminator,
                );
            } else if is_station_term(&text, end, '1') {
                remark.observation_type = Some(
                    ObservationType::AutomatedWithoutPrecipitationDiscriminator,
                );
            }
            seen = end;
        }
        remark
    }
}

/// The character at a position of the text, if the text reaches that far.
pub open spec fn char_at(text: Seq<char>, at: int) -> Option<char> {
    if 0 <= at < text.len() {
        Some(text[at])
    } else {
        None
    }
}

/// Whether the character `c` stands at `at`.
pub open spec fn is_at(text: Seq<char>, at: int, c: char) -> bool {
    char_at(text, at) == Some(c)
}

/// Whether a character from `first` to `last` stands at `at`.
pub open spec fn within_at(text: Seq<char>, at: int, first: char, last: char) -> bool {
    char_at(text, at) matches Some(c) && first as u32 <= c as u32 <= last as u32
}

/// Whether a decimal digit stands at `at`.
pub open spec fn digit_at(text: Seq<char>, at: int) -> bool {
    within_at(text, at, '0', '9')
}

/// Whether a wind direction that is no number stands at `at`: three strokes
/// for one that is not known, or the mark of a variable wind.
pub open spec fn blank_heading(text: Seq<char>, at: int) -> bool {
    ||| is_at(text, at, '/') && is_at(text, at + 1, '/') && is_at(text, at + 2, '/')
    ||| is_at(text, at, 'V') && is_at(text, at + 1, 'R') && is_at(text, at + 2, 'B')
}

/// Whether a wind direction that is a number stands at `at`: three digits,
/// from 000 to 369.
pub open spec fn numbered_heading(text: Seq<char>, at: int) -> bool {
    &&& digit_at(text, at + 2)
    &&& ((within_at(text, at, '0', '2') && digit_at(text, at + 1)) || (is_at(text, at, '3')
        && within_at(text, at + 1, '0', '6')))
}

/// Whether a wind direction stands at `at`, as a number or not.
pub open spec fn heading(text: Seq<char>, at: int) -> bool {
    blank_heading(text, at) || numbered_heading(text, at)
}

/// Whether the seven characters from `at` on read as a range of wind
/// directions of which one is no number: a direction, the letter `V`, and
/// a direction.
pub open spec fn blank_range_at(text: Seq<char>, at: int) -> bool {
    &&& is_at(text, at + 3, 'V')
    &&& heading(text, at)
    &&& heading(text, at + 4)
    &&& (blank_heading(text, at) || blank_heading(text, at + 4))
}

/// The first position from `at` on at which no blank stands. Blanks may
/// part the groups of a report, and none need to.
pub open spec fn after_blanks(text: Seq<char>, at: int) -> int
    decreases text.len() - at,
{
    if is_at(text, at, ' ') {
        after_blanks(text, at + 1)
    } else {
        at
    }
}

/// Whether the name of a station stands at `at`: four capital letters.
pub open spec fn station_at(text: Seq<char>, at: int) -> bool {
    &&& within_at(text, at, 'A', 'Z')
    &&& within_at(text, at + 1, 'A', 'Z')
    &&& within_at(text, at + 2, 'A', 'Z')
    &&& within_at(text, at + 3, 'A', 'Z')
}

/// Whether the time of an observation stands at `at`: the day of the month
/// from 00 to 31, the hour from 00 to 23, the minute from 00 to 59, each in
/// two digits, and the letter `Z`.
pub open spec fn time_at(text: Seq<char>, at: int) -> bool {
    &&& ((within_at(text, at, '0', '2') && digit_at(text, at + 1)) || (is_at(text, at, '3')
        && within_at(text, at + 1, '0', '1')))
    &&& ((within_at(text, at + 2, '0', '1') && digit_at(text, at + 3)) || (is_at(text, at + 2, '2')
        && within_at(text, at + 3, '0', '3')))
    &&& within_at(text, at + 4, '0', '5')
    &&& digit_at(text, at + 5)
    &&& is_at(text, at + 6, 'Z')
}

/// The length of the word that says how the report was made, `AUTO` or
/// `COR`, if one stands at `at`, and 0 otherwise.
pub open spec fn method_len(text: Seq<char>, at: int) -> int {
    if is_at(text, at, 'A') && is_at(text, at + 1, 'U') && is_at(text, at + 2, 'T') && is_at(
        text,
        at + 3,
        'O',
    ) {
        4
    } else if is_at(text, at, 'C') && is_at(text, at + 1, 'O') && is_at(text, at + 2, 'R') {
        3
    } else {
        0
    }
}

/// The length of the wind speed at `at`, and 0 where none stands there: two
/// strokes, or two or three digits, which the letter `P` may precede.
pub open spec fn speed_len(text: Seq<char>, at: int) -> int {
    if is_at(text, at, '/') && is_at(text, at + 1, '/') {
        2
    } else {
        let mark: int = if is_at(text, at, 'P') {
            1
        } else {
            0
        };
        if digit_at(text, at + mark) && digit_at(text, at + mark + 1) {
            if digit_at(text, at + mark + 2) {
                mark + 3
            } else {
                mark + 2
            }
        } else {
            0
        }
    }
}

/// The length of the gusts at `at`, and 0 where none stand there: the
/// letter `G` and two digits.
pub open spec fn gust_len(text: Seq<char>, at: int) -> int {
    if is_at(text, at, 'G') && digit_at(text, at + 1) && digit_at(text, at + 2) {
        3
    } else {
        0
    }
}

/// The length of the unit of speed at `at`, and 0 where none stands there:
/// `KT`, `MPS` or `KPH`.
pub open spec fn unit_len(text: Seq<char>, at: int) -> int {
    if is_at(text, at, 'K') && is_at(text, at + 1, 'T') {
        2
    } else if is_at(text, at, 'M') && is_at(text, at + 1, 'P') && is_at(text, at + 2, 'S') {
        3
    } else if is_at(text, at, 'K') && is_at(text, at + 1, 'P') && is_at(text, at + 2, 'H') {
        3
    } else {
        0
    }
}

/// The length of the wind group at `at`, and 0 where none stands there:
/// `CALM`, or a direction, a speed, gusts if there are any, and a unit, with
/// nothing between them.
pub open spec fn wind_len(text: Seq<char>, at: int) -> int {
    if is_at(text, at, 'C') && is_at(text, at + 1, 'A') && is_at(text, at + 2, 'L') && is_at(
        text,
        at + 3,
        'M',
    ) {
        4
    } else if heading(text, at) && speed_len(text, at + 3) > 0 {
        let speed = speed_len(text, at + 3);
        let gust = gust_len(text, at + 3 + speed);
        let unit = unit_len(text, at + 3 + speed + gust);
        if unit > 0 {
            3 + speed + gust + unit
        } else {
            0
        }
    } else {
        0
    }
}

/// Where the parser of reports looks for a range of wind directions: behind
/// the station, the time, the word `AUTO` or `COR` if it is there, and the
/// wind group if it is there, past any blanks between and behind them. None
/// where the text does not begin with a station and a time.
pub open spec fn variation_start(text: Seq<char>) -> Option<int> {
    let station = after_blanks(text, 0);
    let time = after_blanks(text, station + 4);
    let method = after_blanks(text, time + 7);
    let wind = after_blanks(text, method + method_len(text, method));
    if station_at(text, station) && time_at(text, time) {
        Some(after_blanks(text, wind + wind_len(text, wind)))
    } else {
        None
    }
}

/// Whether the parser of reports reads a range of wind directions of which
/// one is no number. It cannot take such a range.
pub open spec fn reads_blank_range(text: Seq<char>) -> bool {
    variation_start(text) matches Some(at) && blank_range_at(text, at)
}

/// The character `offset` places behind `at`, if the text reaches that far.
fn peek(text: &Vec<char>, at: usize, offset: usize) -> (r: Option<char>)
    ensures
        r == char_at(text@, at + offset),
{
    let total: usize = text.len();
    match at.checked_add(offset) {
        Some(index) => if index < total {
            Some(text[index])
        } else {
            None
        },
        None => None,
    }
}

fn reads(text: &Vec<char>, at: usize, offset: usize, c: char) -> (r: bool)
    ensures
        r == is_at(text@, at + offset, c),
{
    match peek(text, at, offset) {
        Some(found) => found == c,
        None => false,
    }
}

fn reads_within(text: &Vec<char>, at: usize, offset: usize, first: char, last: char) -> (r: bool)
    ensures
        r == within_at(text@, at + offset, first, last),
{
    match peek(text, at, offset) {
        Some(found) => first as u32 <= found as u32 && found as u32 <= last as u32,
        None => false,
    }
}

fn reads_blank_heading(text: &Vec<char>, at: usize, offset: usize) -> (r: bool)
    requires
        offset <= 4,
    ensures
        r == blank_heading(text@, at + offset),
{
    (reads(text, at, offset, '/') && reads(text, at, offset + 1, '/') && reads(
        text,
        at,
        offset + 2,
        '/',
    )) || (reads(text, at, offset, 'V') && reads(text, at, offset + 1, 'R') && reads(
        text,
        at,
        offset + 2,
        'B',
    ))
}

fn reads_numbered_heading(text: &Vec<char>, at: usize, offset: usize) -> (r: bool)
    requires
        offset <= 4,
    ensures
        r == numbered_heading(text@, at + offset),
{
    reads_within(text, at, offset + 2, '0', '9') && ((reads_within(text, at, offset, '0', '2')
        && reads_within(text, at, offset + 1, '0', '9')) || (reads(text, at, offset, '3')
        && reads_within(text, at, offset + 1, '0', '6')))
}

fn reads_heading(text: &Vec<char>, at: usize, offset: usize) -> (r: bool)
    requires
        offset <= 4,
    ensures
        r == heading(text@, at + offset),
{
    reads_blank_heading(text, at, offset) || reads_numbered_heading(text, at, offset)
}

/// Says whether a range of wind directions of which one is no number stands
/// at `at`.
pub fn is_blank_range(text: &Vec<char>, at: usize) -> (r: bool)
    ensures
        r == blank_range_at(text@, at as int),
{
    reads(text, at, 3, 'V') && reads_heading(text, at, 0) && reads_heading(text, at, 4) && (
    reads_blank_heading(text, at, 0) || reads_blank_heading(text, at, 4))
}

/// Steps over the blanks from `at` on.
fn skip_blanks(text: &Vec<char>, at: usize) -> (r: usize)
    requires
        at <= text.len(),
    ensures
        r == after_blanks(text@, at as int),
        at <= r <= text.len(),
{
    let mut i: usize = at;
    while i < text.len() && text[i] == ' '
        invariant
            at <= i <= text.len(),
            after_blanks(text@, at as int) == after_blanks(text@, i as int),
        decreases text.len() - i,
    {
        i = i + 1;
    }
    i
}

fn reads_station(text: &Vec<char>, at: usize) -> (r: bool)
    ensures
        r == station_at(text@, at as int),
{
    reads_within(text, at, 0, 'A', 'Z') && reads_within(text, at, 1, 'A', 'Z') && reads_within(
        text,
        at,
        2,
        'A',
        'Z',
    ) && reads_within(text, at, 3, 'A', 'Z')
}

fn reads_time(text: &Vec<char>, at: usize) -> (r: bool)
    ensures
        r == time_at(text@, at as int),
{
    ((reads_within(text, at, 0, '0', '2') && reads_within(text, at, 1, '0', '9')) || (reads(
        text,
        at,
        0,
        '3',
    ) && reads_within(text, at, 1, '0', '1'))) && ((reads_within(text, at, 2, '0', '1')
        && reads_within(text, at, 3, '0', '9')) || (reads(text, at, 2, '2') && reads_within(
        text,
        at,
        3,
        '0',
        '3',
    ))) && reads_within(text, at, 4, '0', '5') && reads_within(text, at, 5, '0', '9') && reads(
        text,
        at,
        6,
        'Z',
    )
}

fn method_length(text: &Vec<char>, at: usize) -> (r: usize)
    ensures
        r == method_len(text@, at as int),
        at + r <= text.len() || r == 0,
{
    if reads(text, at, 0, 'A') && reads(text, at, 1, 'U') && reads(text, at, 2, 'T') && reads(
        text,
        at,
        3,
        'O',
    ) {
        4
    } else if reads(text, at, 0, 'C') && reads(text, at, 1, 'O') && reads(text, at, 2, 'R') {
        3
    } else {
        0
    }
}

fn speed_length(text: &Vec<char>, at: usize, offset: usize) -> (r: usize)
    requires
        offset == 3,
    ensures
        r == speed_len(text@, at + offset),
        r <= 4,
        at + offset + r <= text.len() || r == 0,
{
    if reads(text, at, offset, '/') && reads(text, at, offset + 1, '/') {
        2
    } else {
        let mark: usize = if reads(text, at, offset, 'P') {
            1
        } else {
            0
        };
        if reads_within(text, at, offset + mark, '0', '9') && reads_within(
            text,
            at,
            offset + mark + 1,
            '0',
            '9',
        ) {
            if reads_within(text, at, offset + mark + 2, '0', '9') {
                mark + 3
            } else {
                mark + 2
            }
        } else {
            0
        }
    }
}

fn gust_length(text: &Vec<char>, at: usize, offset: usize) -> (r: usize)
    requires
        offset <= 7,
    ensures
        r == gust_len(text@, at + offset),
        r <= 3,
        at + offset + r <= text.len() || r == 0,
{
    if reads(text, at, offset, 'G') && reads_within(text, at, offset + 1, '0', '9')
        && reads_within(text, at, offset + 2, '0', '9') {
        3
    } else {
        0
    }
}

fn unit_length(text: &Vec<char>, at: usize, offset: usize) -> (r: usize)
    requires
        offset <= 10,
    ensures
        r == unit_len(text@, at + offset),
        r <= 3,
        at + offset + r <= text.len() || r == 0,
{
    if reads(text, at, offset, 'K') && reads(text, at, offset + 1, 'T') {
        2
    } else if reads(text, at, offset, 'M') && reads(text, at, offset + 1, 'P') && reads(
        text,
        at,
        offset + 2,
        'S',
    ) {
        3
    } else if reads(text, at, offset, 'K') && reads(text, at, offset + 1, 'P') && reads(
        text,
        at,
        offset + 2,
        'H',
    ) {
        3
    } else {
        0
    }
}

fn wind_length(text: &Vec<char>, at: usize) -> (r: usize)
    ensures
        r == wind_len(text@, at as int),
        at + r <= text.len() || r == 0,
{
    if reads(text, at, 0, 'C') && reads(text, at, 1, 'A') && reads(text, at, 2, 'L') && reads(
        text,
        at,
        3,
        'M',
    ) {
        return 4;
    }
    if !reads_heading(text, at, 0) {
        return 0;
    }
    let speed: usize = speed_length(text, at, 3);
    if speed == 0 {
        return 0;
    }
    let gust: usize = gust_length(text, at, 3 + speed);
    let unit: usize = unit_length(text, at, 3 + speed + gust);
    if unit == 0 {
        return 0;
    }
    3 + speed + gust + unit
}

/// Finds where the parser of reports looks for a range of wind directions.
pub fn find_variation(text: &Vec<char>) -> (start: Option<usize>)
    ensures
        start is Some <==> variation_start(text@) is Some,
        start is Some ==> start->0 == variation_start(text@)->0,
{
    let station: usize = skip_blanks(text, 0);
    if !reads_station(text, station) {
        return None;
    }
    let time: usize = skip_blanks(text, station + 4);
    if !reads_time(text, time) {
        return None;
    }
    let method: usize = skip_blanks(text, time + 7);
    let wind: usize = skip_blanks(text, method + method_length(text, method));
    Some(skip_blanks(text, wind + wind_length(text, wind)))
}

/// Says whether the parser of reports would read a range of wind
/// directions of which one is no number.
pub fn holds_blank_range(text: &Vec<char>) -> (r: bool)
    ensures
        r == reads_blank_range(text@),
{
    match find_variation(text) {
        Some(at) => is_blank_range(text, at),
        None => false,
    }
}

/// Whether the parser of the `metar` crate takes the text as a report.
pub uninterp spec fn metar_accepts(raw: Seq<char>) -> bool;

/// What the parser of the `metar` crate says of a text that it does not take.
#[verifier::external_type_specification]
#[verifier::external_body]
pub struct ExMetarError(metar::MetarError);

/// Calls `metar::Metar::parse` and hands on whether it took the text, and
/// its complaint where it did not. Whether it takes a text is a matter of the
/// text alone, by a grammar of some length, and goes by the name
/// `metar_accepts`. Where the parser reads a range of wind directions of
/// which one is no number it panics. It looks for such a range in one place
/// only, behind station, time, method and wind, and reads one wherever a
/// direction, the letter `V` and a direction stand there side by side; so a
/// text with such a range in that place is not handed to it.
#[verifier::external_body]
fn metar_parse(raw: &str) -> (taken: Result<(), metar::MetarError>)
    requires
        !reads_blank_range(raw@),
    ensures
        taken is Ok <==> metar_accepts(raw@),
{
    metar::Metar::parse(raw).map(|_| ())
}

/// Why a text was not kept as a report.
#[derive(Clone, Copy, Debug, PartialEq, Eq, Structural)]
pub enum ReportError {
    /// The closing tag comes before the end of the opening tag.
    Misplaced,
    /// Where the range of wind directions stands, one is given of which
    /// one direction is no number.
    BlankRange,
    /// The parser did not take the text.
    Rejected,
}

/// What is made of a text that is looked at as a report.
pub open spec fn report_verdict(raw: Seq<char>) -> Result<(), ReportError> {
    if reads_blank_range(raw) {
        Err(ReportError::BlankRange)
    } else if metar_accepts(raw) {
        Ok(())
    } else {
        Err(ReportError::Rejected)
    }
}

/// The address at which the newest report of `station` is asked for.
pub open spec fn report_address(station: Seq<char>) -> Seq<char> {
    "https://www.aviationweather.gov/adds/dataserver_current/httpparam?datasource=metars&requesttype=retrieve&format=xml&hoursBeforeNow=1.25&mostRecentForEachStation=constraint&stationString="@
        + station
}

/// Writes the address at which the newest report of `station` is asked for.
pub fn report_url(station: &str) -> (url: String)
    ensures
        url@ == report_address(station@),
{
    let mut url: String = String::from_str(
        "https://www.aviationweather.gov/adds/dataserver_current/httpparam?datasource=metars&requesttype=retrieve&format=xml&hoursBeforeNow=1.25&mostRecentForEachStation=constraint&stationString=",
    );
    url.append(station);
    url
}

/// Where the report stands in what the server sent: between the first
/// opening tag and the first closing tag, or up to the end where no closing
/// tag comes; all of the text where no opening tag comes. None where the
/// closing tag comes before the end of the opening tag.
pub open spec fn report_section(data: Seq<char>) -> Option<(int, int)> {
    match first_occurrence(data, "<raw_text>"@, 0) {
        None => Some((0, data.len() as int)),
        Some(open) => {
            let from = open + "<raw_text>"@.len();
            let to = match first_occurrence(data, "</raw_text>"@, 0) {
                Some(close) => close,
                None => data.len() as int,
            };
            if from <= to {
                Some((from, to))
            } else {
                None
            }
        },
    }
}

/// Whether a text is kept as a report: the parser can take it, and does.
pub open spec fn reads_as_report(raw: Seq<char>) -> bool {
    report_verdict(raw) is Ok
}

/// Says of a text whether it reads as a report, and why not where it does
/// not.
pub fn check_report(raw: &str) -> (verdict: Result<(), ReportError>)
    ensures
        verdict == report_verdict(raw@),
{
    let text: Vec<char> = chars_of(raw);
    if holds_blank_range(&text) {
        Err(ReportError::BlankRange)
    } else {
        match metar_parse(raw) {
            Ok(()) => Ok(()),
            Err(_) => Err(ReportError::Rejected),
        }
    }
}

/// Picks the report out of what the server sent and has it parsed: the
/// report if it reads as one, and why it does not otherwise.
pub fn parse_metar_data<'a>(data: &'a str) -> (report: Result<&'a str, ReportError>)
    ensures
        match report_section(data@) {
            Some((from, to)) => match report_verdict(data@.subrange(from, to)) {
                Ok(_) => report is Ok && report->Ok_0@ == data@.subrange(from, to),
                Err(error) => report == Err::<&str, ReportError>(error),
            },
            None => report == Err::<&str, ReportError>(ReportError::Misplaced),
        },
{
    let text: Vec<char> = chars_of(data);
    let open_tag: Vec<char> = chars_of("<raw_text>");
    let close_tag: Vec<char> = chars_of("</raw_text>");
    let total: usize = text.len();
    let (from, to): (usize, usize) = match find(&text, &open_tag) {
        None => (0, total),
        Some(open) => {
            assert(occurs_at(text@, open_tag@, open as int));
            let from: usize = open + open_tag.len();
            let to: usize = match find(&text, &close_tag) {
                Some(close) => close,
                None => total,
            };
            if from > to {
                return Err(ReportError::Misplaced);
            }
            (from, to)
        },
    };
    let raw: &str = data.substring_char(from, to);
    match check_report(raw) {
        Ok(()) => Ok(raw),
        Err(error) => Err(error),
    }
}

} // verus!
