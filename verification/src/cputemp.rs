//! Temperature and fan readings of one chassis.

use crate::gen_ssh::{decimal, decimal_string};
use crate::json::{
    has_at, json_document, json_has, json_len, json_text, json_u64, len_at, parse_document,
    text_at,
    u64_at,
};
use crate::report::{
    fan_record_views, lemma_never_invalid, reading_from, sensor_record_views, FanRecord,
    FanRecordView, SensorRecord, SensorRecordView, ThermalRecord, ThermalRecordView,
};
use vstd::prelude::*;

verus! {

/// The temperature of one processor.
#[derive(Debug, Clone, Copy, PartialEq, Eq, Structural)]
pub struct CpuTemp {
    /// The processor's number, counted from one.
    pub cpuid: u8,
    /// Its temperature in degrees Celsius.
    pub current: u8,
}

/// The state of one fan.
#[derive(Debug, Clone, PartialEq, Eq)]
pub struct Fan {
    /// The fan's label.
    pub name: String,
    /// Its speed in percent.
    pub current: u8,
    /// Its health as the controller words it.
    pub status: String,
}

/// One reading of a chassis.
#[derive(Debug, Clone, PartialEq, Eq)]
pub struct TempData {
    /// The processors, in the order reported.
    pub cpu_temps: Vec<CpuTemp>,
    /// Whether any sensor is above its critical threshold.
    pub high_temp_critical_reached_component: bool,
    /// The names of the sensors that are.
    pub high_temp_component_name: Vec<String>,
    /// The number of fans.
    pub num_fans: u8,
    /// The fans, in the order reported.
    pub fans: Vec<Fan>,
}

/// `top` is the highest temperature among `temps`, or zero where there is
/// none.
pub open spec fn is_hottest(temps: Seq<CpuTemp>, top: u8) -> bool {
    &&& forall|i: int| 0 <= i < temps.len() ==> (#[trigger] temps[i]).current <= top
    &&& temps.len() == 0 ==> top == 0
    &&& temps.len() > 0 ==> exists|i: int| 0 <= i < temps.len() && (#[trigger] temps[i]).current == top
}

/// The highest temperature among `temps`, zero where there is none.
pub open spec fn hottest(temps: Seq<CpuTemp>) -> u8
    decreases temps.len(),
{
    if temps.len() == 0 {
        0
    } else {
        let rest = hottest(temps.drop_last());
        if temps.last().current > rest {
            temps.last().current
        } else {
            rest
        }
    }
}

impl TempData {
    /// The highest processor temperature of the reading. No processor is
    /// taken to be the hottest by its position.
    pub fn max_cpu_temp(&self) -> (top: u8)
        ensures
            top == hottest(self.cpu_temps@),
            is_hottest(self.cpu_temps@, top),
    {
        let mut top: u8 = 0;
        let mut at: usize = 0;
        while at < self.cpu_temps.len()
            invariant
                at <= self.cpu_temps@.len(),
                top == hottest(self.cpu_temps@.take(at as int)),
            decreases self.cpu_temps@.len() - at,
        {
            assert(self.cpu_temps@.take(at + 1).drop_last() =~= self.cpu_temps@.take(at as int));
            let current = self.cpu_temps[at].current;
            if current > top {
                top = current;
            }
            at += 1;
        }
        proof {
            assert(self.cpu_temps@.take(at as int) =~= self.cpu_temps@);
            lemma_hottest_is_highest(self.cpu_temps@);
        }
        top
    }
}

/// The highest temperature is at least every reading and, where there is a
/// reading, is one of them.
pub proof fn lemma_hottest_is_highest(temps: Seq<CpuTemp>)
    ensures
        is_hottest(temps, hottest(temps)),
    decreases temps.len(),
{
    if temps.len() > 0 {
        let front = temps.drop_last();
        lemma_hottest_is_highest(front);
        let top = hottest(temps);
        assert forall|i: int| 0 <= i < temps.len() implies (#[trigger] temps[i]).current <= top by {
            if i < front.len() {
                assert(front[i].current <= hottest(front));
            }
        }
        if temps.last().current > hottest(front) {
            assert(temps[temps.len() - 1].current == top);
        } else if front.len() > 0 {
            let w = choose|i: int| 0 <= i < front.len() && (#[trigger] front[i]).current == hottest(front);
            assert(temps[w].current == top);
        } else {
            assert(temps[0].current == top);
        }
    }
}

/// The highest temperature is determined by the readings alone.
pub proof fn lemma_hottest_unique(temps: Seq<CpuTemp>, a: u8, b: u8)
    requires
        is_hottest(temps, a),
        is_hottest(temps, b),
    ensures
        a == b,
{
    if temps.len() > 0 {
        let i = choose|i: int| 0 <= i < temps.len() && (#[trigger] temps[i]).current == a;
        let j = choose|j: int| 0 <= j < temps.len() && (#[trigger] temps[j]).current == b;
        assert(temps[i].current <= b);
        assert(temps[j].current <= a);
    }
}

/// Why a thermal report could not be read.
#[derive(Debug, Clone, Copy, PartialEq, Eq, Structural)]
pub enum ParseError {
    /// The text is no JSON document.
    InvalidJson,
    /// The report has no list of fans.
    NoFanData,
    /// A fan has no name.
    NoFanName,
    /// A fan or a sensor has no current reading.
    NoCurrentReading,
    /// A fan has no status.
    NoStatus,
    /// The report has no temperatures.
    NoTemperatureData,
    /// A sensor has no critical threshold.
    NoUpperThresholdCritical,
    /// A sensor has no name.
    NoComponentName,
    /// A sensor does not say what it measures.
    NoPhysicalContext,
    /// A value is there but is not of the kind expected in its place.
    Malformed,
}

impl ParseError {
    /// A sentence for the operator.
    pub fn message(&self) -> (text: &'static str)
        ensures
            text@ == match *self {
                ParseError::InvalidJson => "The report is not valid JSON"@,
                ParseError::NoFanData => "No fan data found"@,
                ParseError::NoFanName => "No fan name found"@,
                ParseError::NoCurrentReading => "No current reading found"@,
                ParseError::NoStatus => "No status found"@,
                ParseError::NoTemperatureData => "No temperature data found"@,
                ParseError::NoUpperThresholdCritical => "No UpperThresholdCritical found"@,
                ParseError::NoComponentName => "No component name found"@,
                ParseError::NoPhysicalContext => "No PhysicalContext found"@,
                ParseError::Malformed => "Unexpected value in the report"@,
            },
    {
        match self {
            ParseError::InvalidJson => "The report is not valid JSON",
            ParseError::NoFanData => "No fan data found",
            ParseError::NoFanName => "No fan name found",
            ParseError::NoCurrentReading => "No current reading found",
            ParseError::NoStatus => "No status found",
            ParseError::NoTemperatureData => "No temperature data found",
            ParseError::NoUpperThresholdCritical => "No UpperThresholdCritical found",
            ParseError::NoComponentName => "No component name found",
            ParseError::NoPhysicalContext => "No PhysicalContext found",
            ParseError::Malformed => "Unexpected value in the report",
        }
    }
}

/// What a [`Fan`] holds.
pub struct FanView {
    pub name: Seq<char>,
    pub current: u8,
    pub status: Seq<char>,
}

/// What a [`TempData`] holds.
pub struct TempDataView {
    pub cpu_temps: Seq<CpuTemp>,
    pub high_temp_critical_reached_component: bool,
    pub high_temp_component_name: Seq<Seq<char>>,
    pub num_fans: u8,
    pub fans: Seq<FanView>,
}

impl View for Fan {
    type V = FanView;

    open spec fn view(&self) -> FanView {
        FanView { name: self.name@, current: self.current, status: self.status@ }
    }
}

/// The views of a sequence of fans.
pub open spec fn fan_views(fans: Seq<Fan>) -> Seq<FanView> {
    Seq::new(fans.len(), |i: int| fans[i]@)
}

/// The views of a sequence of names.
pub open spec fn name_views(names: Seq<String>) -> Seq<Seq<char>> {
    Seq::new(names.len(), |i: int| names[i]@)
}

impl View for TempData {
    type V = TempDataView;

    open spec fn view(&self) -> TempDataView {
        TempDataView {
            cpu_temps: self.cpu_temps@,
            high_temp_critical_reached_component: self.high_temp_critical_reached_component,
            high_temp_component_name: name_views(self.high_temp_component_name@),
            num_fans: self.num_fans,
            fans: fan_views(self.fans@),
        }
    }
}

/// The JSON pointer to `field` of element `index` of the array `list`.
pub open spec fn entry(list: Seq<char>, index: nat, field: Seq<char>) -> Seq<char> {
    "/"@ + list + "/"@ + decimal(index) + "/"@ + field
}

/// Fan `i` of the report in `doc`, member by member.
pub open spec fn fan_record_of(doc: serde_json::Value, i: nat) -> FanRecordView {
    FanRecordView {
        has_name: json_has(doc, entry("Fans"@, i, "FanName"@)),
        name: json_text(doc, entry("Fans"@, i, "FanName"@)),
        has_reading: json_has(doc, entry("Fans"@, i, "CurrentReading"@)),
        reading: json_u64(doc, entry("Fans"@, i, "CurrentReading"@)),
        has_status: json_has(doc, entry("Fans"@, i, "Status"@)),
        health: json_text(doc, entry("Fans"@, i, "Status/Health"@)),
    }
}

/// Sensor `j` of the report in `doc`, member by member.
pub open spec fn sensor_record_of(doc: serde_json::Value, j: nat) -> SensorRecordView {
    SensorRecordView {
        has_reading: json_has(doc, entry("Temperatures"@, j, "CurrentReading"@)),
        reading: json_u64(doc, entry("Temperatures"@, j, "CurrentReading"@)),
        has_limit: json_has(doc, entry("Temperatures"@, j, "UpperThresholdCritical"@)),
        limit: json_u64(doc, entry("Temperatures"@, j, "UpperThresholdCritical"@)),
        has_name: json_has(doc, entry("Temperatures"@, j, "Name"@)),
        name: json_text(doc, entry("Temperatures"@, j, "Name"@)),
        has_context: json_has(doc, entry("Temperatures"@, j, "PhysicalContext"@)),
        context: json_text(doc, entry("Temperatures"@, j, "PhysicalContext"@)),
    }
}

/// The report in `doc`: its list of fans under `Fans` and its list of
/// sensors under `Temperatures`, as far as it has them.
pub open spec fn record_of(doc: serde_json::Value) -> ThermalRecordView {
    ThermalRecordView {
        fans: match json_len(doc, "/Fans"@) {
            Some(count) => Some(Seq::new(count, |i: int| fan_record_of(doc, i as nat))),
            None => None,
        },
        has_temperatures: json_has(doc, "/Temperatures"@),
        temperatures: match json_len(doc, "/Temperatures"@) {
            Some(count) => Some(Seq::new(count, |j: int| sensor_record_of(doc, j as nat))),
            None => None,
        },
    }
}

/// The reading that the report in `doc` holds.
pub open spec fn thermal_of(doc: serde_json::Value) -> Result<TempDataView, ParseError> {
    reading_from(record_of(doc))
}

/// The view of a parse result.
pub open spec fn parsed_view(result: Result<TempData, ParseError>) -> Result<
    TempDataView,
    ParseError,
> {
    match result {
        Ok(data) => Ok(data@),
        Err(e) => Err(e),
    }
}

/// Builds the JSON pointer to `field` of element `index` of the array `list`.
fn entry_pointer(list: &str, index: usize, field: &str) -> (pointer: String)
    ensures
        pointer@ == entry(list@, index as nat, field@),
{
    let mut pointer = String::from_str("/");
    pointer.append(list);
    pointer.append("/");
    let number = decimal_string(index);
    pointer.append(number.as_str());
    pointer.append("/");
    pointer.append(field);
    pointer
}

/// Reads fan `i` of the report, member by member.
fn read_fan_record(doc: &serde_json::Value, i: usize) -> (record: FanRecord)
    ensures
        record@ == fan_record_of(*doc, i as nat),
{
    let name_at = entry_pointer("Fans", i, "FanName");
    let reading_at = entry_pointer("Fans", i, "CurrentReading");
    let status_at = entry_pointer("Fans", i, "Status");
    let health_at = entry_pointer("Fans", i, "Status/Health");
    FanRecord {
        has_name: has_at(doc, name_at.as_str()),
        name: text_at(doc, name_at.as_str()),
        has_reading: has_at(doc, reading_at.as_str()),
        reading: u64_at(doc, reading_at.as_str()),
        has_status: has_at(doc, status_at.as_str()),
        health: text_at(doc, health_at.as_str()),
    }
}

/// Reads sensor `j` of the report, member by member.
fn read_sensor_record(doc: &serde_json::Value, j: usize) -> (record: SensorRecord)
    ensures
        record@ == sensor_record_of(*doc, j as nat),
{
    let reading_at = entry_pointer("Temperatures", j, "CurrentReading");
    let limit_at = entry_pointer("Temperatures", j, "UpperThresholdCritical");
    let name_at = entry_pointer("Temperatures", j, "Name");
    let context_at = entry_pointer("Temperatures", j, "PhysicalContext");
    SensorRecord {
        has_reading: has_at(doc, reading_at.as_str()),
        reading: u64_at(doc, reading_at.as_str()),
        has_limit: has_at(doc, limit_at.as_str()),
        limit: u64_at(doc, limit_at.as_str()),
        has_name: has_at(doc, name_at.as_str()),
        name: text_at(doc, name_at.as_str()),
        has_context: has_at(doc, context_at.as_str()),
        context: text_at(doc, context_at.as_str()),
    }
}

/// Reads the first `count` fans of the report.
fn read_fan_records(doc: &serde_json::Value, count: usize) -> (records: Vec<FanRecord>)
    ensures
        fan_record_views(records@) == Seq::new(
            count as nat,
            |i: int| fan_record_of(*doc, i as nat),
        ),
{
    let mut records: Vec<FanRecord> = Vec::new();
    let mut at: usize = 0;
    while at < count
        invariant
            at <= count,
            records@.len() == at,
            forall|i: int| 0 <= i < at ==> (#[trigger] records@[i])@ == fan_record_of(*doc, i as nat),
        decreases count - at,
    {
        records.push(read_fan_record(doc, at));
        at += 1;
    }
    assert(fan_record_views(records@) =~= Seq::new(
        count as nat,
        |i: int| fan_record_of(*doc, i as nat),
    ));
    records
}

/// Reads the first `count` sensors of the report.
fn read_sensor_records(doc: &serde_json::Value, count: usize) -> (records: Vec<SensorRecord>)
    ensures
        sensor_record_views(records@) == Seq::new(
            count as nat,
            |j: int| sensor_record_of(*doc, j as nat),
        ),
{
    let mut records: Vec<SensorRecord> = Vec::new();
    let mut at: usize = 0;
    while at < count
        invariant
            at <= count,
            records@.len() == at,
            forall|j: int|
                0 <= j < at ==> (#[trigger] records@[j])@ == sensor_record_of(*doc, j as nat),
        decreases count - at,
    {
        records.push(read_sensor_record(doc, at));
        at += 1;
    }
    assert(sensor_record_views(records@) =~= Seq::new(
        count as nat,
        |j: int| sensor_record_of(*doc, j as nat),
    ));
    records
}

/// Takes the report out of a document, member by member.
pub fn record_from(doc: &serde_json::Value) -> (record: ThermalRecord)
    ensures
        record@ == record_of(*doc),
{
    let fans = match len_at(doc, "/Fans") {
        Some(count) => Some(read_fan_records(doc, count)),
        None => None,
    };
    let has_temperatures = has_at(doc, "/Temperatures");
    let temperatures = match len_at(doc, "/Temperatures") {
        Some(count) => Some(read_sensor_records(doc, count)),
        None => None,
    };
    ThermalRecord { fans, has_temperatures, temperatures }
}

/// Reads the thermal report that `doc` holds.
pub fn thermal_from(doc: &serde_json::Value) -> (reading: Result<TempData, ParseError>)
    ensures
        parsed_view(reading) == thermal_of(*doc),
{
    let record = record_from(doc);
    record.reading()
}

/// The reading that the text of a thermal report holds.
pub open spec fn reading_of(json: Seq<char>) -> Result<TempDataView, ParseError> {
    match json_document(json) {
        None => Err(ParseError::InvalidJson),
        Some(doc) => thermal_of(doc),
    }
}

/// Reads a thermal report from its JSON text.
pub fn json_parser(json: &str) -> (reading: Result<TempData, ParseError>)
    ensures
        parsed_view(reading) == reading_of(json@),
        reading == Err::<TempData, ParseError>(ParseError::InvalidJson) <==> json_document(
            json@,
        ) is None,
{
    match parse_document(json) {
        Err(_) => Err(ParseError::InvalidJson),
        Ok(doc) => {
            let reading = thermal_from(&doc);
            proof {
                lemma_never_invalid(record_of(doc));
            }
            reading
        },
    }
}

/// Why no reading could be had from a controller.
#[derive(Debug, Clone, Copy, PartialEq, Eq, Structural)]
pub enum TelemetryError {
    /// The controller did not answer the request.
    Unreachable,
    /// It answered, but not with a thermal report.
    Unreadable(ParseError),
}

/// The address of the thermal report of the controller at `address`.
pub open spec fn thermal_url_of(address: Seq<char>) -> Seq<char> {
    "https://"@ + address + "/redfish/v1/Chassis/1/Thermal"@
}

/// Builds the address of the thermal report of the controller at `address`.
pub fn thermal_url(address: &str) -> (url: String)
    ensures
        url@ == thermal_url_of(address@),
{
    let mut url = String::from_str("https://");
    url.append(address);
    url.append("/redfish/v1/Chassis/1/Thermal");
    url
}

/// Turns the controller's answer into a reading. `response` is the body of
/// the answer to a request for [`thermal_url`], or nothing where the request
/// failed.
pub fn get_temp_data(response: Option<&str>) -> (reading: Result<TempData, TelemetryError>)
    ensures
        telemetry_view(reading) == match response {
            None => Err(TelemetryError::Unreachable),
            Some(body) => telemetry_of(reading_of(body@)),
        },
{
    match response {
        None => Err(TelemetryError::Unreachable),
        Some(body) => match json_parser(body) {
            Ok(data) => Ok(data),
            Err(e) => Err(TelemetryError::Unreadable(e)),
        },
    }
}

/// A parse result as the result of a request.
pub open spec fn telemetry_of(parsed: Result<TempDataView, ParseError>) -> Result<
    TempDataView,
    TelemetryError,
> {
    match parsed {
        Ok(data) => Ok(data),
        Err(e) => Err(TelemetryError::Unreadable(e)),
    }
}

/// The view of the result of a request.
pub open spec fn telemetry_view(result: Result<TempData, TelemetryError>) -> Result<
    TempDataView,
    TelemetryError,
> {
    match result {
        Ok(data) => Ok(data@),
        Err(e) => Err(e),
    }
}

} // verus!
