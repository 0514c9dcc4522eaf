//! A thermal report as plain values, and the reading that it holds.
//!
//! A record says of every member that the reading depends on whether the
//! report has it, and gives its value where that is of the kind expected.

use crate::cputemp::{
    fan_views, name_views, parsed_view, CpuTemp, Fan, FanView, ParseError, TempData, TempDataView,
};
use crate::words::{cpu_number, trailing_number};
use vstd::prelude::*;

verus! {

/// One fan as the report words it.
#[derive(Debug, Clone, PartialEq, Eq)]
pub struct FanRecord {
    /// Whether the fan has a name at all.
    pub has_name: bool,
    /// The name, where it is a string.
    pub name: Option<String>,
    /// Whether the fan has a current reading at all.
    pub has_reading: bool,
    /// The reading, where it is an integer from zero to `u64::MAX`.
    pub reading: Option<u64>,
    /// Whether the fan has a status at all.
    pub has_status: bool,
    /// The health that the status gives, where it gives one as a string.
    pub health: Option<String>,
}

/// One temperature sensor as the report words it.
#[derive(Debug, Clone, PartialEq, Eq)]
pub struct SensorRecord {
    /// Whether the sensor has a current reading at all.
    pub has_reading: bool,
    /// The reading, where it is an integer from zero to `u64::MAX`.
    pub reading: Option<u64>,
    /// Whether the sensor has a critical threshold at all.
    pub has_limit: bool,
    /// The threshold, where it is an integer from zero to `u64::MAX`.
    pub limit: Option<u64>,
    /// Whether the sensor has a name at all.
    pub has_name: bool,
    /// The name, where it is a string.
    pub name: Option<String>,
    /// Whether the sensor says what it measures.
    pub has_context: bool,
    /// What it measures, where that is a string.
    pub context: Option<String>,
}

/// A thermal report as the controller words it.
#[derive(Debug, Clone, PartialEq, Eq)]
pub struct ThermalRecord {
    /// The fans, where the report has a list of them.
    pub fans: Option<Vec<FanRecord>>,
    /// Whether the report has temperatures at all.
    pub has_temperatures: bool,
    /// The sensors, where the temperatures are a list.
    pub temperatures: Option<Vec<SensorRecord>>,
}

/// What a [`FanRecord`] holds.
pub struct FanRecordView {
    pub has_name: bool,
    pub name: Option<Seq<char>>,
    pub has_reading: bool,
    pub reading: Option<u64>,
    pub has_status: bool,
    pub health: Option<Seq<char>>,
}

/// What a [`SensorRecord`] holds.
pub struct SensorRecordView {
    pub has_reading: bool,
    pub reading: Option<u64>,
    pub has_limit: bool,
    pub limit: Option<u64>,
    pub has_name: bool,
    pub name: Option<Seq<char>>,
    pub has_context: bool,
    pub context: Option<Seq<char>>,
}

/// What a [`ThermalRecord`] holds.
pub struct ThermalRecordView {
    pub fans: Option<Seq<FanRecordView>>,
    pub has_temperatures: bool,
    pub temperatures: Option<Seq<SensorRecordView>>,
}

/// The view of a string that may be missing.
pub open spec fn text_view(text: Option<String>) -> Option<Seq<char>> {
    match text {
        Some(s) => Some(s@),
        None => None,
    }
}

impl View for FanRecord {
    type V = FanRecordView;

    open spec fn view(&self) -> FanRecordView {
        FanRecordView {
            has_name: self.has_name,
            name: text_view(self.name),
            has_reading: self.has_reading,
            reading: self.reading,
            has_status: self.has_status,
            health: text_view(self.health),
        }
    }
}

impl View for SensorRecord {
    type V = SensorRecordView;

    open spec fn view(&self) -> SensorRecordView {
        SensorRecordView {
            has_reading: self.has_reading,
            reading: self.reading,
            has_limit: self.has_limit,
            limit: self.limit,
            has_name: self.has_name,
            name: text_view(self.name),
            has_context: self.has_context,
            context: text_view(self.context),
        }
    }
}

/// The views of a sequence of fan records.
pub open spec fn fan_record_views(records: Seq<FanRecord>) -> Seq<FanRecordView> {
    Seq::new(records.len(), |i: int| records[i]@)
}

/// The views of a sequence of sensor records.
pub open spec fn sensor_record_views(records: Seq<SensorRecord>) -> Seq<SensorRecordView> {
    Seq::new(records.len(), |i: int| records[i]@)
}

impl View for ThermalRecord {
    type V = ThermalRecordView;

    open spec fn view(&self) -> ThermalRecordView {
        ThermalRecordView {
            fans: match self.fans {
                Some(list) => Some(fan_record_views(list@)),
                None => None,
            },
            has_temperatures: self.has_temperatures,
            temperatures: match self.temperatures {
                Some(list) => Some(sensor_record_views(list@)),
                None => None,
            },
        }
    }
}

/// The low eight bits of a number, as a byte.
pub open spec fn low_byte(n: u64) -> u8 {
    (n % 256) as u8
}

/// The fan that a record describes. What is missing is asked for in the
/// order name, reading, status; only then is the kind of each value looked at.
pub open spec fn fan_from(record: FanRecordView) -> Result<FanView, ParseError> {
    if !record.has_name {
        Err(ParseError::NoFanName)
    } else if !record.has_reading {
        Err(ParseError::NoCurrentReading)
    } else if !record.has_status {
        Err(ParseError::NoStatus)
    } else {
        match (record.name, record.reading, record.health) {
            (Some(name), Some(reading), Some(health)) => Ok(
                FanView { name, current: low_byte(reading), status: health },
            ),
            _ => Err(ParseError::Malformed),
        }
    }
}

/// The fans that the records describe, or the error of the first record
/// that describes none.
pub open spec fn fans_from(records: Seq<FanRecordView>) -> Result<Seq<FanView>, ParseError>
    decreases records.len(),
{
    if records.len() == 0 {
        Ok(Seq::empty())
    } else {
        match fans_from(records.drop_last()) {
            Err(e) => Err(e),
            Ok(fans) => match fan_from(records.last()) {
                Err(e) => Err(e),
                Ok(fan) => Ok(fans.push(fan)),
            },
        }
    }
}

/// The name of a sensor where it reads above its critical threshold, a
/// threshold of zero meaning that the sensor has none.
pub open spec fn alarm_from(record: SensorRecordView) -> Result<Option<Seq<char>>, ParseError> {
    if !record.has_reading {
        Err(ParseError::NoCurrentReading)
    } else if !record.has_limit {
        Err(ParseError::NoUpperThresholdCritical)
    } else if !record.has_name {
        Err(ParseError::NoComponentName)
    } else {
        match (record.reading, record.limit) {
            (Some(reading), Some(limit)) => if reading > limit && limit != 0 {
                match record.name {
                    Some(name) => Ok(Some(name)),
                    None => Err(ParseError::Malformed),
                }
            } else {
                Ok(None)
            },
            _ => Err(ParseError::Malformed),
        }
    }
}

/// The names of the sensors that read above their critical threshold, in
/// order, or the error of the first sensor that cannot be judged.
pub open spec fn alarms_from(records: Seq<SensorRecordView>) -> Result<Seq<Seq<char>>, ParseError>
    decreases records.len(),
{
    if records.len() == 0 {
        Ok(Seq::empty())
    } else {
        match alarms_from(records.drop_last()) {
            Err(e) => Err(e),
            Ok(names) => match alarm_from(records.last()) {
                Err(e) => Err(e),
                Ok(Some(name)) => Ok(names.push(name)),
                Ok(None) => Ok(names),
            },
        }
    }
}

/// A sensor as a processor temperature, where it measures a processor: the
/// processor's number is the number at the end of the sensor's name.
pub open spec fn cpu_from(record: SensorRecordView) -> Result<Option<CpuTemp>, ParseError> {
    if !record.has_context {
        Err(ParseError::NoPhysicalContext)
    } else {
        match record.context {
            None => Err(ParseError::Malformed),
            Some(context) => if context == "CPU"@ {
                match (record.name, record.reading) {
                    (Some(name), Some(reading)) => match trailing_number(name) {
                        Some(cpuid) => Ok(Some(CpuTemp { cpuid, current: low_byte(reading) })),
                        None => Err(ParseError::Malformed),
                    },
                    _ => Err(ParseError::Malformed),
                }
            } else {
                Ok(None)
            },
        }
    }
}

/// The processors among the sensors, in order, or the error of the first
/// sensor that cannot be read.
pub open spec fn cpus_from(records: Seq<SensorRecordView>) -> Result<Seq<CpuTemp>, ParseError>
    decreases records.len(),
{
    if records.len() == 0 {
        Ok(Seq::empty())
    } else {
        match cpus_from(records.drop_last()) {
            Err(e) => Err(e),
            Ok(cpus) => match cpu_from(records.last()) {
                Err(e) => Err(e),
                Ok(Some(cpu)) => Ok(cpus.push(cpu)),
                Ok(None) => Ok(cpus),
            },
        }
    }
}

/// The reading that a report holds. The fans are read first, then every
/// sensor is held against its critical threshold, then the processors are
/// picked out; the first thing that cannot be read decides the error.
pub open spec fn reading_from(record: ThermalRecordView) -> Result<TempDataView, ParseError> {
    match record.fans {
        None => Err(ParseError::NoFanData),
        Some(fan_records) => match fans_from(fan_records) {
            Err(e) => Err(e),
            Ok(fans) => if !record.has_temperatures {
                Err(ParseError::NoTemperatureData)
            } else {
                match record.temperatures {
                    None => Err(ParseError::Malformed),
                    Some(sensors) => match alarms_from(sensors) {
                        Err(e) => Err(e),
                        Ok(names) => match cpus_from(sensors) {
                            Err(e) => Err(e),
                            Ok(cpus) => Ok(
                                TempDataView {
                                    cpu_temps: cpus,
                                    high_temp_critical_reached_component: names.len() > 0,
                                    high_temp_component_name: names,
                                    num_fans: (fans.len() % 256) as u8,
                                    fans,
                                },
                            ),
                        },
                    },
                }
            },
        },
    }
}

/// Once a record describes no fan, further records change nothing.
proof fn lemma_fans_error_stays(records: Seq<FanRecordView>, n: int)
    requires
        0 <= n <= records.len(),
        fans_from(records.take(n)) is Err,
    ensures
        fans_from(records) == fans_from(records.take(n)),
    decreases records.len(),
{
    if n < records.len() {
        assert(records.drop_last().take(n) =~= records.take(n));
        lemma_fans_error_stays(records.drop_last(), n);
    } else {
        assert(records.take(n) =~= records);
    }
}

/// Once a sensor cannot be judged, further sensors change nothing.
proof fn lemma_alarms_error_stays(records: Seq<SensorRecordView>, n: int)
    requires
        0 <= n <= records.len(),
        alarms_from(records.take(n)) is Err,
    ensures
        alarms_from(records) == alarms_from(records.take(n)),
    decreases records.len(),
{
    if n < records.len() {
        assert(records.drop_last().take(n) =~= records.take(n));
        lemma_alarms_error_stays(records.drop_last(), n);
    } else {
        assert(records.take(n) =~= records);
    }
}

/// Once a sensor cannot be read, further sensors change nothing.
proof fn lemma_cpus_error_stays(records: Seq<SensorRecordView>, n: int)
    requires
        0 <= n <= records.len(),
        cpus_from(records.take(n)) is Err,
    ensures
        cpus_from(records) == cpus_from(records.take(n)),
    decreases records.len(),
{
    if n < records.len() {
        assert(records.drop_last().take(n) =~= records.take(n));
        lemma_cpus_error_stays(records.drop_last(), n);
    } else {
        assert(records.take(n) =~= records);
    }
}

/// No record is turned down as invalid JSON: that is said of text only.
pub proof fn lemma_never_invalid(record: ThermalRecordView)
    ensures
        reading_from(record) != Err::<TempDataView, ParseError>(ParseError::InvalidJson),
{
    match record.fans {
        Some(fans) => {
            lemma_fans_never_invalid(fans);
        },
        None => {},
    }
    match record.temperatures {
        Some(sensors) => {
            lemma_sensors_never_invalid(sensors);
        },
        None => {},
    }
}

proof fn lemma_fans_never_invalid(records: Seq<FanRecordView>)
    ensures
        fans_from(records) != Err::<Seq<FanView>, ParseError>(ParseError::InvalidJson),
    decreases records.len(),
{
    if records.len() > 0 {
        lemma_fans_never_invalid(records.drop_last());
    }
}

proof fn lemma_sensors_never_invalid(records: Seq<SensorRecordView>)
    ensures
        alarms_from(records) != Err::<Seq<Seq<char>>, ParseError>(ParseError::InvalidJson),
        cpus_from(records) != Err::<Seq<CpuTemp>, ParseError>(ParseError::InvalidJson),
    decreases records.len(),
{
    if records.len() > 0 {
        lemma_sensors_never_invalid(records.drop_last());
    }
}

impl FanRecord {
    /// The fan that the record describes.
    pub fn fan(&self) -> (fan: Result<Fan, ParseError>)
        ensures
            match fan {
                Ok(f) => fan_from(self@) == Ok::<FanView, ParseError>(f@),
                Err(e) => fan_from(self@) == Err::<FanView, ParseError>(e),
            },
    {
        if !self.has_name {
            return Err(ParseError::NoFanName);
        }
        if !self.has_reading {
            return Err(ParseError::NoCurrentReading);
        }
        if !self.has_status {
            return Err(ParseError::NoStatus);
        }
        match (&self.name, self.reading, &self.health) {
            (Some(name), Some(reading), Some(health)) => Ok(
                Fan { name: name.clone(), current: (reading % 256) as u8, status: health.clone() },
            ),
            _ => Err(ParseError::Malformed),
        }
    }
}

impl SensorRecord {
    /// The sensor's name where it reads above its critical threshold.
    pub fn alarm(&self) -> (alarm: Result<Option<String>, ParseError>)
        ensures
            match alarm {
                Ok(Some(name)) => alarm_from(self@) == Ok::<Option<Seq<char>>, ParseError>(
                    Some(name@),
                ),
                Ok(None) => alarm_from(self@) == Ok::<Option<Seq<char>>, ParseError>(None),
                Err(e) => alarm_from(self@) == Err::<Option<Seq<char>>, ParseError>(e),
            },
    {
        if !self.has_reading {
            return Err(ParseError::NoCurrentReading);
        }
        if !self.has_limit {
            return Err(ParseError::NoUpperThresholdCritical);
        }
        if !self.has_name {
            return Err(ParseError::NoComponentName);
        }
        match (self.reading, self.limit) {
            (Some(reading), Some(limit)) => {
                if reading > limit && limit != 0 {
                    match &self.name {
                        Some(name) => Ok(Some(name.clone())),
                        None => Err(ParseError::Malformed),
                    }
                } else {
                    Ok(None)
                }
            },
            _ => Err(ParseError::Malformed),
        }
    }

    /// The sensor as a processor temperature, where it measures a processor.
    pub fn cpu(&self) -> (cpu: Result<Option<CpuTemp>, ParseError>)
        ensures
            cpu == cpu_from(self@),
    {
        if !self.has_context {
            return Err(ParseError::NoPhysicalContext);
        }
        let context = match &self.context {
            Some(context) => context,
            None => {
                return Err(ParseError::Malformed);
            },
        };
        if *context != String::from_str("CPU") {
            return Ok(None);
        }
        match (&self.name, self.reading) {
            (Some(name), Some(reading)) => match cpu_number(name.as_str()) {
                Some(cpuid) => Ok(Some(CpuTemp { cpuid, current: (reading % 256) as u8 })),
                None => Err(ParseError::Malformed),
            },
            _ => Err(ParseError::Malformed),
        }
    }
}

/// Reads the fans that the records describe.
fn read_fans(records: &Vec<FanRecord>) -> (fans: Result<Vec<Fan>, ParseError>)
    ensures
        match fans {
            Ok(list) => fans_from(fan_record_views(records@)) == Ok::<Seq<FanView>, ParseError>(
                fan_views(list@),
            ),
            Err(e) => fans_from(fan_record_views(records@)) == Err::<Seq<FanView>, ParseError>(e),
        },
{
    let ghost all = fan_record_views(records@);
    let mut list: Vec<Fan> = Vec::new();
    let mut at: usize = 0;
    assert(fan_views(list@) =~= Seq::<FanView>::empty());
    while at < records.len()
        invariant
            at <= records@.len(),
            all == fan_record_views(records@),
            fans_from(all.take(at as int)) == Ok::<Seq<FanView>, ParseError>(fan_views(list@)),
        decreases records@.len() - at,
    {
        let ghost before = fan_views(list@);
        proof {
            assert(all.take(at + 1).drop_last() =~= all.take(at as int));
            assert(all.take(at + 1).last() == records@[at as int]@);
        }
        match records[at].fan() {
            Err(e) => {
                proof {
                    lemma_fans_error_stays(all, at + 1);
                }
                return Err(e);
            },
            Ok(fan) => {
                list.push(fan);
                assert(fan_views(list@) =~= before.push(fan@));
            },
        }
        at += 1;
    }
    assert(all.take(at as int) =~= all);
    Ok(list)
}

/// Reads the names of the sensors above their critical threshold.
fn read_alarms(records: &Vec<SensorRecord>) -> (alarms: Result<Vec<String>, ParseError>)
    ensures
        match alarms {
            Ok(names) => alarms_from(sensor_record_views(records@)) == Ok::<
                Seq<Seq<char>>,
                ParseError,
            >(name_views(names@)),
            Err(e) => alarms_from(sensor_record_views(records@)) == Err::<
                Seq<Seq<char>>,
                ParseError,
            >(e),
        },
{
    let ghost all = sensor_record_views(records@);
    let mut names: Vec<String> = Vec::new();
    let mut at: usize = 0;
    assert(name_views(names@) =~= Seq::<Seq<char>>::empty());
    while at < records.len()
        invariant
            at <= records@.len(),
            all == sensor_record_views(records@),
            alarms_from(all.take(at as int)) == Ok::<Seq<Seq<char>>, ParseError>(
                name_views(names@),
            ),
        decreases records@.len() - at,
    {
        let ghost before = name_views(names@);
        proof {
            assert(all.take(at + 1).drop_last() =~= all.take(at as int));
            assert(all.take(at + 1).last() == records@[at as int]@);
        }
        match records[at].alarm() {
            Err(e) => {
                proof {
                    lemma_alarms_error_stays(all, at + 1);
                }
                return Err(e);
            },
            Ok(Some(name)) => {
                names.push(name);
                assert(name_views(names@) =~= before.push(name@));
            },
            Ok(None) => {},
        }
        at += 1;
    }
    assert(all.take(at as int) =~= all);
    Ok(names)
}

/// Picks the processors out of the sensors.
fn read_cpus(records: &Vec<SensorRecord>) -> (cpus: Result<Vec<CpuTemp>, ParseError>)
    ensures
        match cpus {
            Ok(list) => cpus_from(sensor_record_views(records@)) == Ok::<Seq<CpuTemp>, ParseError>(
                list@,
            ),
            Err(e) => cpus_from(sensor_record_views(records@)) == Err::<Seq<CpuTemp>, ParseError>(
                e,
            ),
        },
{
    let ghost all = sensor_record_views(records@);
    let mut list: Vec<CpuTemp> = Vec::new();
    let mut at: usize = 0;
    assert(list@ =~= Seq::<CpuTemp>::empty());
    while at < records.len()
        invariant
            at <= records@.len(),
            all == sensor_record_views(records@),
            cpus_from(all.take(at as int)) == Ok::<Seq<CpuTemp>, ParseError>(list@),
        decreases records@.len() - at,
    {
        proof {
            assert(all.take(at + 1).drop_last() =~= all.take(at as int));
            assert(all.take(at + 1).last() == records@[at as int]@);
        }
        match records[at].cpu() {
            Err(e) => {
                proof {
                    lemma_cpus_error_stays(all, at + 1);
                }
                return Err(e);
            },
            Ok(Some(cpu)) => {
                list.push(cpu);
            },
            Ok(None) => {},
        }
        at += 1;
    }
    assert(all.take(at as int) =~= all);
    Ok(list)
}

impl ThermalRecord {
    /// The reading that the report holds.
    pub fn reading(&self) -> (reading: Result<TempData, ParseError>)
        ensures
            parsed_view(reading) == reading_from(self@),
    {
        let fans = match &self.fans {
            Some(records) => match read_fans(records) {
                Ok(fans) => fans,
                Err(e) => {
                    return Err(e);
                },
            },
            None => {
                return Err(ParseError::NoFanData);
            },
        };
        if !self.has_temperatures {
            return Err(ParseError::NoTemperatureData);
        }
        let sensors = match &self.temperatures {
            Some(sensors) => sensors,
            None => {
                return Err(ParseError::Malformed);
            },
        };
        let names = match read_alarms(sensors) {
            Ok(names) => names,
            Err(e) => {
                return Err(e);
            },
        };
        let cpu_temps = match read_cpus(sensors) {
            Ok(cpus) => cpus,
            Err(e) => {
                return Err(e);
            },
        };
        let data = TempData {
            cpu_temps,
            high_temp_critical_reached_component: names.len() > 0,
            high_temp_component_name: names,
            num_fans: (fans.len() % 256) as u8,
            fans,
        };
        Ok(data)
    }
}

} // verus!
