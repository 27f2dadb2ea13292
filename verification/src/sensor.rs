//! The sensors whose readings the database holds, and the table each one owns.

use vstd::prelude::*;

verus! {

/// A source of readings. Every kind owns exactly one table of the database.
#[derive(Clone, Copy, Debug, PartialEq, Eq, Structural)]
pub enum SensorKind {
    ADC,
    GPS,
    MKR,
}

impl SensorKind {
    /// The name of the table that holds this kind's readings.
    pub open spec fn spec_table_name(self) -> Seq<char> {
        match self {
            SensorKind::ADC => "adc_data"@,
            SensorKind::GPS => "gps_data"@,
            SensorKind::MKR => "mkr_data"@,
        }
    }

    /// The identifier under which a view of this kind keeps its scroll position.
    pub open spec fn spec_scroll_area_id(self) -> Seq<char> {
        match self {
            SensorKind::ADC => "adc_scroll_area"@,
            SensorKind::GPS => "gps_scroll_area"@,
            SensorKind::MKR => "mkr_scroll_area"@,
        }
    }

    /// The heading shown above this kind's readings.
    pub open spec fn spec_title(self) -> Seq<char> {
        match self {
            SensorKind::ADC => "ADC Sensor Data"@,
            SensorKind::GPS => "GPS Sensor Data"@,
            SensorKind::MKR => "MIKROE Sensor Data"@,
        }
    }

    pub fn table_name(self) -> (name: &'static str)
        ensures
            name@ == self.spec_table_name(),
    {
        match self {
            SensorKind::ADC => "adc_data",
            SensorKind::GPS => "gps_data",
            SensorKind::MKR => "mkr_data",
        }
    }

    pub fn scroll_area_id(self) -> (id: &'static str)
        ensures
            id@ == self.spec_scroll_area_id(),
    {
        match self {
            SensorKind::ADC => "adc_scroll_area",
            SensorKind::GPS => "gps_scroll_area",
            SensorKind::MKR => "mkr_scroll_area",
        }
    }

    pub fn title(self) -> (text: &'static str)
        ensures
            text@ == self.spec_title(),
    {
        match self {
            SensorKind::ADC => "ADC Sensor Data",
            SensorKind::GPS => "GPS Sensor Data",
            SensorKind::MKR => "MIKROE Sensor Data",
        }
    }
}

/// Every table name is eight characters long.
pub proof fn lemma_table_name_len(kind: SensorKind)
    ensures
        kind.spec_table_name().len() == 8,
{
    reveal_strlit("adc_data");
    reveal_strlit("gps_data");
    reveal_strlit("mkr_data");
}

/// Two different kinds never share a table.
pub proof fn lemma_table_names_distinct(a: SensorKind, b: SensorKind)
    requires
        a != b,
    ensures
        a.spec_table_name() != b.spec_table_name(),
{
    reveal_strlit("adc_data");
    reveal_strlit("gps_data");
    reveal_strlit("mkr_data");
    assert(a.spec_table_name()[0] != b.spec_table_name()[0]);
}

/// Two different kinds never share a scroll position.
pub proof fn lemma_scroll_area_ids_distinct(a: SensorKind, b: SensorKind)
    requires
        a != b,
    ensures
        a.spec_scroll_area_id() != b.spec_scroll_area_id(),
{
    reveal_strlit("adc_scroll_area");
    reveal_strlit("gps_scroll_area");
    reveal_strlit("mkr_scroll_area");
    assert(a.spec_scroll_area_id()[0] != b.spec_scroll_area_id()[0]);
}

} // verus!
