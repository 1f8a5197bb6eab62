//! The sea: waves, ice and water level.

use crate::fields::codes::lemma_sentinel_is_listed;
use crate::fields::codes::CodeRecord;
use crate::fields::codes::QUALITY_CODES;
use crate::fields::schema::code_at;
use crate::fields::schema::code_cell;
use crate::fields::schema::coded;
use crate::fields::schema::first_failure;
use crate::fields::schema::measure;
use crate::fields::schema::measure_at;
use crate::fields::schema::measure_cell;
use crate::fields::schema::Cell;
use crate::fields::schema::FieldError;
use crate::fields::schema::FieldGroup;
use crate::fields::schema::Outcome;
use crate::model::RecordValue;
use crate::number::Ratio;
use crate::util::tokenize;
use vstd::prelude::*;

verus! {

pub const METHOD_CODES: [(&'static str, &'static str); 3] = [
    ("M", "Manual"),
    ("I", "Instrumental"),
    ("9", "Missing"),
];

pub const SEA_STATE_CODES: [(&'static str, &'static str); 11] = [
    ("00", "Calm, glassy - wave height = 0 meters"),
    ("01", "Calm, rippled - wave height = 0-0.1 meters"),
    ("02", "Smooth, wavelets - wave height = 0.1-0.5 meters"),
    ("03", "Slight, wave height = 0.5-1.25 meters"),
    ("04", "Moderate - wave height 1.25-2.5 meters"),
    ("05", "Rough - wave height = 2.5-4.0 meters"),
    ("06", "Very rough - wave height = 4.0-6.0 meters"),
    ("07", "High - wave height = 6.0-9.0 meters"),
    ("08", "Very high - wave height 9.0-14.0 meters"),
    ("09", "Phenomenal - wave height = over 14.0 meters"),
    ("99", "Missing"),
];

pub const ICE_ACCRETION_SOURCE_CODES: [(&'static str, &'static str); 6] = [
    ("1", "Icing from ocean spray"),
    ("2", "Icing from fog"),
    ("3", "Icing from spray and fog"),
    ("4", "Icing from rain"),
    ("5", "Icing from spray and rain"),
    ("9", "Missing"),
];

pub const ICE_ACCRETION_TENDENCY_CODES: [(&'static str, &'static str); 6] = [
    ("0", "Ice not building up"),
    ("1", "Ice building up slowly"),
    ("2", "Ice building up rapidly"),
    ("3", "Ice melting or breaking up slowly"),
    ("4", "Ice melting or breaking up rapidly"),
    ("9", "Missing"),
];

pub const EDGE_BEARING_CODES: [(&'static str, &'static str); 12] = [
    ("00", "Ship in shore or flaw lead"),
    ("01", "Principal ice edge towards NE"),
    ("02", "Principal ice edge towards E"),
    ("03", "Principal ice edge towards SE"),
    ("04", "Principal ice edge towards S"),
    ("05", "Principal ice edge towards SW"),
    ("06", "Principal ice edge towards W"),
    ("07", "Principal ice edge towards NW"),
    ("08", "Principal ice edge towards N"),
    ("09", "Not determined (ship in ice)"),
    ("10", "Unable to report, because of darkness, lack of visibility or because only ice of land origin is visible."),
    ("99", "Missing"),
];

pub const EDGE_ORIENTATION_CODES: [(&'static str, &'static str); 11] = [
    ("00", "Orientation of ice edge impossible to estimate--ship outside the ice"),
    ("01", "Ice edge lying in a direction NE to SW with ice situated to the NW"),
    ("02", "Ice edge lying in a direction E to W with ice situated to the N"),
    ("03", "Ice edge lying in a direction SE to NW with ice situated to the NE"),
    ("04", "Ice edge lying in a direction S to N with ice situated to the E"),
    ("05", "Ice edge lying in a direction SW to NE with ice situated to the SE"),
    ("06", "Ice edge lying in a direction W to E with ice situated to the S"),
    ("07", "Ice edge lying in a direction NW to SE with ice situated to the SW"),
    ("08", "Ice edge lying in a direction N to S with ice situated to the W"),
    ("09", "Orientation of ice edge impossible to estimate--ship inside the ice"),
    ("99", "Missing"),
];

pub const NON_UNIFORM_CONCENTRATION_CODES: [(&'static str, &'static str); 5] = [
    ("06", "Strips and patches of pack ice with open water between"),
    ("07", "Strips and patches of close or very close pack ice with areas of lesser concentration between"),
    ("08", "Fast ice with open water, very open or open pack ice to seaward of the ice boundary"),
    ("09", "Fast ice with close or very close pack ice to seaward of the ice boundary"),
    ("99", "Unable to report, because of darkness, lack of visibility, or because ship is more than 0.5 nautical mile away from ice edge"),
];

pub const SHIP_RELATIVE_POSITION_CODES: [(&'static str, &'static str); 4] = [
    ("0", "Ship in open water with floating ice in sight"),
    ("1", "In open lead or fast ice"),
    ("2", "In ice or within 0.5 nautical miles of ice edge"),
    ("9", "Missing"),
];

pub const SHIP_PENETRABILITY_CODES: [(&'static str, &'static str); 4] = [
    ("1", "Easy"),
    ("2", "Difficult"),
    ("3", "Beset (Surrounded so closely by sea ice that steering control is lost.)"),
    ("9", "Missing"),
];

pub const FORMATION_TYPE_CODES: [(&'static str, &'static str); 11] = [
    ("00", "No ice (0 may be used to report ice blink and then a direction must be reported)"),
    ("01", "New ice"),
    ("02", "Fast ice"),
    ("03", "Pack-ice/drift-ice"),
    ("04", "Packed (compact) slush or sludge"),
    ("05", "Shore lead"),
    ("06", "Heavy fast ice"),
    ("07", "Heavy pack-ice/drift-ice"),
    ("08", "Hummocked ice"),
    ("09", "Icebergs-icebergs can be reported in plain language"),
    ("99", "Missing"),
];

pub const NAVIGATION_EFFECT_CODES: [(&'static str, &'static str); 11] = [
    ("00", "Navigation unobstructed"),
    ("01", "Navigation unobstructed for steamers, difficult for sailing ships"),
    ("02", "Navigation difficult for low-powered steamers, closed to sailing ships"),
    ("03", "Navigation possible only for powerful steamers"),
    ("04", "Navigation possible only for steamers constructed to withstand ice pressure"),
    ("05", "Navigation possible with the assistance of ice-breakers"),
    ("06", "Channel open in the solid ice"),
    ("07", "Navigation temporarily closed"),
    ("08", "Navigation closed"),
    ("09", "Navigation conditions unknown, e.g., owing to bad weather"),
    ("99", "Missing"),
];

pub const ICE_TREND_CODES: [(&'static str, &'static str); 7] = [
    ("1", "Conditions improving"),
    ("2", "Conditions static"),
    ("3", "Conditions worsening"),
    ("4", "Conditions worsening; ice forming and floes freezing together"),
    ("5", "Conditions worsening; ice under slight pressure"),
    ("6", "Conditions worsening; ice under moderate or severe pressure"),
    ("9", "Missing"),
];

pub const DEVELOPMENT_CODES: [(&'static str, &'static str); 11] = [
    ("00", "New ice only (frazil ice, grease ice, slush, slugs)"),
    ("01", "Nilas or ice rind, less than 10 cm thick"),
    ("02", "Young ice (grey ice, grey-white ice), 10 - 30 cm thick"),
    ("03", "Predominantly new and/or young ice with some first year ice"),
    ("04", "Predominantly thin first year ice with some new and/or young ice"),
    ("05", "All thin first year ice (30 - 70 cm thick)"),
    ("06", "Predominantly medium first year ice (70 - 120 cm thick) and thick first year ice (> 120 cm thick) with some thinner (younger) first year ice"),
    ("07", "All medium and thick first year ice"),
    ("08", "Predominantly medium and thick first year ice with some old ice (usually more than 2 m thick)"),
    ("09", "Predominantly old ice"),
    ("99", "Unable to report, because of darkness, lack of visibility or because only ice of land origin is visible or because ship is more than .5 NM away from ice"),
];

pub const GROWLER_BERGY_BIT_PRESENCE_CODE: [(&'static str, &'static str); 4] = [
    ("0", "Not present"),
    ("1", "Present"),
    ("2", "Unknown"),
    ("9", "Missing"),
];

pub const ICE_PHENOMENA_CODES: [(&'static str, &'static str); 55] = [
    ("00", "Water surface free of ice"),
    ("01", "Ice along banks"),
    ("02", "Ice crystals"),
    ("03", "Ice slush"),
    ("04", "Ice flows from tributaries entering near the river, lake or reservoir station"),
    ("10", "Floating slush ice covering approximately 1/3 (up to 30%) of the water surface"),
    ("11", "Floating slush ice covering about half (40% - 60%) of the water surface"),
    ("12", "Floating slush ice covering more than half (70% - 100%) of the water surface"),
    ("20", "Floating ice covering 10% of the water surface"),
    ("21", "Floating ice covering 20% of the water surface"),
    ("22", "Floating ice covering 30% of the water surface"),
    ("23", "Floating ice covering 40% of the water surface"),
    ("24", "Floating ice covering 50% of the water surface"),
    ("25", "Floating ice covering 60% of the water surface"),
    ("26", "Floating ice covering 70% of the water surface"),
    ("27", "Floating ice covering 80% of the water surface"),
    ("28", "Floating ice covering 90% of the water surface"),
    ("29", "Floating ice covering 100% of the water surface"),
    ("30", "Water surface frozen at station, free upstream"),
    ("31", "Water surface frozen at station, free downstream"),
    ("32", "Water surface free at station, free upstream"),
    ("33", "Water surface free at station, free downstream"),
    ("34", "Ice floes near the station, water surface frozen downstream"),
    ("35", "Water surface frozen with breaks"),
    ("36", "Water surface completely frozen over"),
    ("37", "Water surface frozen over with pile-ups"),
    ("40", "Ice melting along the banks"),
    ("41", "Some water on the ice"),
    ("42", "Ice waterlogged"),
    ("43", "Water holes in the ice cover"),
    ("44", "Ice moving"),
    ("45", "Open water in breaks"),
    ("46", "Break up (first day of movement of ice on the entire water surface)"),
    ("47", "Ice broken artificially"),
    ("50", "Ice jam below the station"),
    ("51", "Ice jam at the station"),
    ("52", "Ice jam above the station"),
    ("53", "Scale and position of jam unchanged"),
    ("54", "Jam has frozen solid in the same place"),
    ("55", "Jam has solidified and expanded upstream"),
    ("56", "Jam has solidified and moved downstream"),
    ("57", "Jam is weakening"),
    ("58", "Jam broken up by explosives or other methods"),
    ("59", "Jam broken"),
    ("60", "Fractured ice"),
    ("61", "Ice piling up againgst the bank"),
    ("62", "Ice carried towards the bank"),
    ("63", "Band of ice less than 100 meters wide fixed to banks"),
    ("64", "Band of ice less than 100 to 500 meters wide fixed to banks"),
    ("65", "Band of ice wider than 500 meters fixed to banks"),
    ("70", "Cracks in the ice, mainly across the line of flow"),
    ("71", "Cracks along the flow line"),
    ("72", "Smooth sheet of ice"),
    ("73", "Ice sheet with pile-ups"),
    ("99", "Missing"),
];

pub const UNDER_ICE_SLUSH_CONDITION_CODES: [(&'static str, &'static str); 5] = [
    ("0", "No slush ice"),
    ("1", "Slush ice to approximately 1/3 of depth of the river, lake or reservoir"),
    ("2", "Slush ice from 1/3 to 2/3 of depth of the river, lake or reservoir"),
    ("3", "Slush ice to depth of the river, lake or reservoir greater than 2/3."),
    ("9", "Missing"),
];

pub const WATER_LEVEL_CODES: [(&'static str, &'static str); 5] = [
    ("B", "much below normal"),
    ("H", "high but not overflowing"),
    ("N", "normal"),
    ("O", "banks overflowing"),
    ("9", "missing"),
];

/// A wave measurement.
#[derive(Debug, PartialEq)]
pub struct UA1 {
    pub method_code: CodeRecord,
    pub wave_period_quantity: Option<RecordValue<isize>>,
    pub wave_height_dimension: Option<RecordValue<Ratio>>,
    pub wave_quality_code: CodeRecord,
    pub sea_state_code: CodeRecord,
    pub sea_state_quality_code: CodeRecord,
}

impl View for UA1 {
    type V = Seq<Cell>;

    open spec fn view(&self) -> Seq<Cell> {
        seq![
            code_cell(self.method_code),
            measure_cell(self.wave_period_quantity),
            measure_cell(self.wave_height_dimension),
            code_cell(self.wave_quality_code),
            code_cell(self.sea_state_code),
            code_cell(self.sea_state_quality_code),
        ]
    }
}

impl FieldGroup for UA1 {
    open spec fn schema(parts: Seq<Seq<char>>) -> Seq<Outcome> {
        seq![
            code_at(parts, 0, METHOD_CODES@),
            measure_at::<isize>(parts, 1, "s"@, 1),
            measure_at::<Ratio>(parts, 2, "m"@, Ratio::whole(10)),
            code_at(parts, 4, QUALITY_CODES@),
            code_at(parts, 5, SEA_STATE_CODES@),
            code_at(parts, 6, QUALITY_CODES@),
        ]
    }

    fn from_str(s: &str) -> (r: Result<UA1, FieldError>) {
        proof {
            reveal_with_fuel(first_failure, 7);
        }
        let parts = tokenize(s);
        let method_code = coded(&parts, 0, &METHOD_CODES)?;
        let wave_period_quantity = measure::<isize>(&parts, 1, "s", 1)?;
        let wave_height_dimension = measure::<Ratio>(&parts, 2, "m", Ratio::whole(10))?;
        let wave_quality_code = coded(&parts, 4, &QUALITY_CODES)?;
        let sea_state_code = coded(&parts, 5, &SEA_STATE_CODES)?;
        let sea_state_quality_code = coded(&parts, 6, &QUALITY_CODES)?;
        Ok(
            UA1 {
                method_code,
                wave_period_quantity,
                wave_height_dimension,
                wave_quality_code,
                sea_state_code,
                sea_state_quality_code,
            },
        )
    }
}

/// A swell measurement (UG1 to UG2).
#[derive(Debug, PartialEq)]
pub struct UGX {
    pub period_quantity: Option<RecordValue<isize>>,
    pub height_dimension: Option<RecordValue<Ratio>>,
    pub direction_angle: Option<RecordValue<isize>>,
    pub quality_code: CodeRecord,
}

impl View for UGX {
    type V = Seq<Cell>;

    open spec fn view(&self) -> Seq<Cell> {
        seq![
            measure_cell(self.period_quantity),
            measure_cell(self.height_dimension),
            measure_cell(self.direction_angle),
            code_cell(self.quality_code),
        ]
    }
}

impl FieldGroup for UGX {
    open spec fn schema(parts: Seq<Seq<char>>) -> Seq<Outcome> {
        seq![
            measure_at::<isize>(parts, 0, "s"@, 1),
            measure_at::<Ratio>(parts, 1, "m"@, Ratio::whole(10)),
            measure_at::<isize>(parts, 2, "Â°"@, 1),
            code_at(parts, 3, QUALITY_CODES@),
        ]
    }

    fn from_str(s: &str) -> (r: Result<UGX, FieldError>) {
        proof {
            reveal_with_fuel(first_failure, 5);
        }
        let parts = tokenize(s);
        let period_quantity = measure::<isize>(&parts, 0, "s", 1)?;
        let height_dimension = measure::<Ratio>(&parts, 1, "m", Ratio::whole(10))?;
        let direction_angle = measure::<isize>(&parts, 2, "Â°", 1)?;
        let quality_code = coded(&parts, 3, &QUALITY_CODES)?;
        Ok(UGX { period_quantity, height_dimension, direction_angle, quality_code })
    }
}

/// Ice accretion on a platform.
#[derive(Debug, PartialEq)]
pub struct WA1 {
    pub source_code: CodeRecord,
    pub thickness_dimension: Option<RecordValue<Ratio>>,
    pub tendency_code: CodeRecord,
    pub quality_code: CodeRecord,
}

impl View for WA1 {
    type V = Seq<Cell>;

    open spec fn view(&self) -> Seq<Cell> {
        seq![
            code_cell(self.source_code),
            measure_cell(self.thickness_dimension),
            code_cell(self.tendency_code),
            code_cell(self.quality_code),
        ]
    }
}

impl FieldGroup for WA1 {
    open spec fn schema(parts: Seq<Seq<char>>) -> Seq<Outcome> {
        seq![
            code_at(parts, 0, ICE_ACCRETION_SOURCE_CODES@),
            measure_at::<Ratio>(parts, 1, "cm"@, Ratio::whole(10)),
            code_at(parts, 2, ICE_ACCRETION_TENDENCY_CODES@),
            code_at(parts, 3, QUALITY_CODES@),
        ]
    }

    fn from_str(s: &str) -> (r: Result<WA1, FieldError>) {
        proof {
            reveal_with_fuel(first_failure, 5);
        }
        let parts = tokenize(s);
        let source_code = coded(&parts, 0, &ICE_ACCRETION_SOURCE_CODES)?;
        let thickness_dimension = measure::<Ratio>(&parts, 1, "cm", Ratio::whole(10))?;
        let tendency_code = coded(&parts, 2, &ICE_ACCRETION_TENDENCY_CODES)?;
        let quality_code = coded(&parts, 3, &QUALITY_CODES)?;
        Ok(WA1 { source_code, thickness_dimension, tendency_code, quality_code })
    }
}

/// Ice on the water surface.
#[derive(Debug, PartialEq)]
pub struct WD1 {
    pub edge_bearing_code: CodeRecord,
    pub uniform_concentration_rate: Option<RecordValue<Ratio>>,
    pub non_uniform_concentration_code: CodeRecord,
    pub ship_relative_position_code: CodeRecord,
    pub ship_penatrability_code: CodeRecord,
    pub ice_trend_code: CodeRecord,
    pub development_code: CodeRecord,
    pub growler_bergy_bit_presence_code: CodeRecord,
    pub growler_bergy_bit_quantity: Option<RecordValue<isize>>,
    pub iceberg_quantity: Option<RecordValue<isize>>,
    pub quality_code: CodeRecord,
}

impl View for WD1 {
    type V = Seq<Cell>;

    open spec fn view(&self) -> Seq<Cell> {
        seq![
            code_cell(self.edge_bearing_code),
            measure_cell(self.uniform_concentration_rate),
            code_cell(self.non_uniform_concentration_code),
            code_cell(self.ship_relative_position_code),
            code_cell(self.ship_penatrability_code),
            code_cell(self.ice_trend_code),
            code_cell(self.development_code),
            code_cell(self.growler_bergy_bit_presence_code),
            measure_cell(self.growler_bergy_bit_quantity),
            measure_cell(self.iceberg_quantity),
            code_cell(self.quality_code),
        ]
    }
}

impl FieldGroup for WD1 {
    open spec fn schema(parts: Seq<Seq<char>>) -> Seq<Outcome> {
        seq![
            code_at(parts, 0, EDGE_BEARING_CODES@),
            measure_at::<Ratio>(parts, 1, "%"@, Ratio::whole(1)),
            code_at(parts, 2, NON_UNIFORM_CONCENTRATION_CODES@),
            code_at(parts, 3, SHIP_RELATIVE_POSITION_CODES@),
            code_at(parts, 4, SHIP_PENETRABILITY_CODES@),
            code_at(parts, 5, ICE_TREND_CODES@),
            code_at(parts, 6, DEVELOPMENT_CODES@),
            code_at(parts, 7, GROWLER_BERGY_BIT_PRESENCE_CODE@),
            measure_at::<isize>(parts, 8, ""@, 1),
            measure_at::<isize>(parts, 9, ""@, 1),
            code_at(parts, 10, QUALITY_CODES@),
        ]
    }

    fn from_str(s: &str) -> (r: Result<WD1, FieldError>) {
        proof {
            reveal_with_fuel(first_failure, 12);
        }
        let parts = tokenize(s);
        let edge_bearing_code = coded(&parts, 0, &EDGE_BEARING_CODES)?;
        let uniform_concentration_rate = measure::<Ratio>(&parts, 1, "%", Ratio::whole(1))?;
        let non_uniform_concentration_code = coded(&parts, 2, &NON_UNIFORM_CONCENTRATION_CODES)?;
        let ship_relative_position_code = coded(&parts, 3, &SHIP_RELATIVE_POSITION_CODES)?;
        let ship_penatrability_code = coded(&parts, 4, &SHIP_PENETRABILITY_CODES)?;
        let ice_trend_code = coded(&parts, 5, &ICE_TREND_CODES)?;
        let development_code = coded(&parts, 6, &DEVELOPMENT_CODES)?;
        let growler_bergy_bit_presence_code = coded(&parts, 7, &GROWLER_BERGY_BIT_PRESENCE_CODE)?;
        let growler_bergy_bit_quantity = measure::<isize>(&parts, 8, "", 1)?;
        let iceberg_quantity = measure::<isize>(&parts, 9, "", 1)?;
        let quality_code = coded(&parts, 10, &QUALITY_CODES)?;
        Ok(
            WD1 {
                edge_bearing_code,
                uniform_concentration_rate,
                non_uniform_concentration_code,
                ship_relative_position_code,
                ship_penatrability_code,
                ice_trend_code,
                development_code,
                growler_bergy_bit_presence_code,
                growler_bergy_bit_quantity,
                iceberg_quantity,
                quality_code,
            },
        )
    }
}

/// Ice on the water surface, from earlier observations.
#[derive(Debug, PartialEq)]
pub struct WG1 {
    pub edge_bearing_code: CodeRecord,
    pub edge_distance_dimension: Option<RecordValue<Ratio>>,
    pub edge_orientation_code: CodeRecord,
    pub formation_type_code: CodeRecord,
    pub navigation_effect_code: CodeRecord,
    pub quality_code: CodeRecord,
}

impl View for WG1 {
    type V = Seq<Cell>;

    open spec fn view(&self) -> Seq<Cell> {
        seq![
            code_cell(self.edge_bearing_code),
            measure_cell(self.edge_distance_dimension),
            code_cell(self.edge_orientation_code),
            code_cell(self.formation_type_code),
            code_cell(self.navigation_effect_code),
            code_cell(self.quality_code),
        ]
    }
}

impl FieldGroup for WG1 {
    open spec fn schema(parts: Seq<Seq<char>>) -> Seq<Outcome> {
        seq![
            code_at(parts, 0, EDGE_BEARING_CODES@),
            measure_at::<Ratio>(parts, 1, "km"@, Ratio::whole(10)),
            code_at(parts, 2, EDGE_ORIENTATION_CODES@),
            code_at(parts, 3, FORMATION_TYPE_CODES@),
            code_at(parts, 4, NAVIGATION_EFFECT_CODES@),
            code_at(parts, 5, QUALITY_CODES@),
        ]
    }

    fn from_str(s: &str) -> (r: Result<WG1, FieldError>) {
        proof {
            reveal_with_fuel(first_failure, 7);
        }
        let parts = tokenize(s);
        let edge_bearing_code = coded(&parts, 0, &EDGE_BEARING_CODES)?;
        let edge_distance_dimension = measure::<Ratio>(&parts, 1, "km", Ratio::whole(10))?;
        let edge_orientation_code = coded(&parts, 2, &EDGE_ORIENTATION_CODES)?;
        let formation_type_code = coded(&parts, 3, &FORMATION_TYPE_CODES)?;
        let navigation_effect_code = coded(&parts, 4, &NAVIGATION_EFFECT_CODES)?;
        let quality_code = coded(&parts, 5, &QUALITY_CODES)?;
        Ok(
            WG1 {
                edge_bearing_code,
                edge_distance_dimension,
                edge_orientation_code,
                formation_type_code,
                navigation_effect_code,
                quality_code,
            },
        )
    }
}

/// The water level.
#[derive(Debug, PartialEq)]
pub struct WJ1 {
    pub ice_thickness: Option<RecordValue<Ratio>>,
    pub discharge_rate: Option<RecordValue<Ratio>>,
    pub primary_ice_phenomenon: CodeRecord,
    pub secondary_ice_phenomenon: CodeRecord,
    pub stage_height: Option<RecordValue<Ratio>>,
    pub under_ice_slush_condition: CodeRecord,
    pub water_level: CodeRecord,
}

impl View for WJ1 {
    type V = Seq<Cell>;

    open spec fn view(&self) -> Seq<Cell> {
        seq![
            measure_cell(self.ice_thickness),
            measure_cell(self.discharge_rate),
            code_cell(self.primary_ice_phenomenon),
            code_cell(self.secondary_ice_phenomenon),
            measure_cell(self.stage_height),
            code_cell(self.under_ice_slush_condition),
            code_cell(self.water_level),
        ]
    }
}

impl FieldGroup for WJ1 {
    open spec fn schema(parts: Seq<Seq<char>>) -> Seq<Outcome> {
        seq![
            measure_at::<Ratio>(parts, 0, "cm"@, Ratio::whole(1)),
            measure_at::<Ratio>(parts, 1, "m^3/s"@, Ratio::whole(1)),
            code_at(parts, 2, ICE_PHENOMENA_CODES@),
            code_at(parts, 3, ICE_PHENOMENA_CODES@),
            measure_at::<Ratio>(parts, 4, "cm"@, Ratio::whole(1)),
            code_at(parts, 5, UNDER_ICE_SLUSH_CONDITION_CODES@),
            code_at(parts, 6, WATER_LEVEL_CODES@),
        ]
    }

    fn from_str(s: &str) -> (r: Result<WJ1, FieldError>) {
        proof {
            reveal_with_fuel(first_failure, 8);
        }
        let parts = tokenize(s);
        let ice_thickness = measure::<Ratio>(&parts, 0, "cm", Ratio::whole(1))?;
        let discharge_rate = measure::<Ratio>(&parts, 1, "m^3/s", Ratio::whole(1))?;
        let primary_ice_phenomenon = coded(&parts, 2, &ICE_PHENOMENA_CODES)?;
        let secondary_ice_phenomenon = coded(&parts, 3, &ICE_PHENOMENA_CODES)?;
        let stage_height = measure::<Ratio>(&parts, 4, "cm", Ratio::whole(1))?;
        let under_ice_slush_condition = coded(&parts, 5, &UNDER_ICE_SLUSH_CONDITION_CODES)?;
        let water_level = coded(&parts, 6, &WATER_LEVEL_CODES)?;
        Ok(
            WJ1 {
                ice_thickness,
                discharge_rate,
                primary_ice_phenomenon,
                secondary_ice_phenomenon,
                stage_height,
                under_ice_slush_condition,
                water_level,
            },
        )
    }
}

/// Every table of this module lists its sentinel code, the one of nines
/// only: looking it up gives its entry and never fails.
pub proof fn lemma_tables_list_their_sentinels()
    ensures
        CodeRecord::lookup("9"@, METHOD_CODES@) is Some,
        CodeRecord::lookup("99"@, SEA_STATE_CODES@) is Some,
        CodeRecord::lookup("9"@, ICE_ACCRETION_SOURCE_CODES@) is Some,
        CodeRecord::lookup("9"@, ICE_ACCRETION_TENDENCY_CODES@) is Some,
        CodeRecord::lookup("99"@, EDGE_BEARING_CODES@) is Some,
        CodeRecord::lookup("99"@, EDGE_ORIENTATION_CODES@) is Some,
        CodeRecord::lookup("99"@, NON_UNIFORM_CONCENTRATION_CODES@) is Some,
        CodeRecord::lookup("9"@, SHIP_RELATIVE_POSITION_CODES@) is Some,
        CodeRecord::lookup("9"@, SHIP_PENETRABILITY_CODES@) is Some,
        CodeRecord::lookup("99"@, FORMATION_TYPE_CODES@) is Some,
        CodeRecord::lookup("99"@, NAVIGATION_EFFECT_CODES@) is Some,
        CodeRecord::lookup("9"@, ICE_TREND_CODES@) is Some,
        CodeRecord::lookup("99"@, DEVELOPMENT_CODES@) is Some,
        CodeRecord::lookup("9"@, GROWLER_BERGY_BIT_PRESENCE_CODE@) is Some,
        CodeRecord::lookup("99"@, ICE_PHENOMENA_CODES@) is Some,
        CodeRecord::lookup("9"@, UNDER_ICE_SLUSH_CONDITION_CODES@) is Some,
        CodeRecord::lookup("9"@, WATER_LEVEL_CODES@) is Some,
{
    reveal_strlit("9");
    reveal_strlit("99");
    assert(METHOD_CODES@[2].0@ == "9"@);
    lemma_sentinel_is_listed(METHOD_CODES@, 2, "9"@);
    assert(SEA_STATE_CODES@[10].0@ == "99"@);
    lemma_sentinel_is_listed(SEA_STATE_CODES@, 10, "99"@);
    assert(ICE_ACCRETION_SOURCE_CODES@[5].0@ == "9"@);
    lemma_sentinel_is_listed(ICE_ACCRETION_SOURCE_CODES@, 5, "9"@);
    assert(ICE_ACCRETION_TENDENCY_CODES@[5].0@ == "9"@);
    lemma_sentinel_is_listed(ICE_ACCRETION_TENDENCY_CODES@, 5, "9"@);
    assert(EDGE_BEARING_CODES@[11].0@ == "99"@);
    lemma_sentinel_is_listed(EDGE_BEARING_CODES@, 11, "99"@);
    assert(EDGE_ORIENTATION_CODES@[10].0@ == "99"@);
    lemma_sentinel_is_listed(EDGE_ORIENTATION_CODES@, 10, "99"@);
    assert(NON_UNIFORM_CONCENTRATION_CODES@[4].0@ == "99"@);
    lemma_sentinel_is_listed(NON_UNIFORM_CONCENTRATION_CODES@, 4, "99"@);
    assert(SHIP_RELATIVE_POSITION_CODES@[3].0@ == "9"@);
    lemma_sentinel_is_listed(SHIP_RELATIVE_POSITION_CODES@, 3, "9"@);
    assert(SHIP_PENETRABILITY_CODES@[3].0@ == "9"@);
    lemma_sentinel_is_listed(SHIP_PENETRABILITY_CODES@, 3, "9"@);
    assert(FORMATION_TYPE_CODES@[10].0@ == "99"@);
    lemma_sentinel_is_listed(FORMATION_TYPE_CODES@, 10, "99"@);
    assert(NAVIGATION_EFFECT_CODES@[10].0@ == "99"@);
    lemma_sentinel_is_listed(NAVIGATION_EFFECT_CODES@, 10, "99"@);
    assert(ICE_TREND_CODES@[6].0@ == "9"@);
    lemma_sentinel_is_listed(ICE_TREND_CODES@, 6, "9"@);
    assert(DEVELOPMENT_CODES@[10].0@ == "99"@);
    lemma_sentinel_is_listed(DEVELOPMENT_CODES@, 10, "99"@);
    assert(GROWLER_BERGY_BIT_PRESENCE_CODE@[3].0@ == "9"@);
    lemma_sentinel_is_listed(GROWLER_BERGY_BIT_PRESENCE_CODE@, 3, "9"@);
    assert(ICE_PHENOMENA_CODES@[54].0@ == "99"@);
    lemma_sentinel_is_listed(ICE_PHENOMENA_CODES@, 54, "99"@);
    assert(UNDER_ICE_SLUSH_CONDITION_CODES@[4].0@ == "9"@);
    lemma_sentinel_is_listed(UNDER_ICE_SLUSH_CONDITION_CODES@, 4, "9"@);
    assert(WATER_LEVEL_CODES@[4].0@ == "9"@);
    lemma_sentinel_is_listed(WATER_LEVEL_CODES@, 4, "9"@);
}

} // verus!
