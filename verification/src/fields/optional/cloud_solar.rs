//! Clouds and solar radiation.

use crate::fields::codes::lemma_sentinel_is_listed;
use crate::fields::codes::CodeRecord;
use crate::fields::codes::QUALITY_CODES;
use crate::fields::schema::code_at;
use crate::fields::schema::code_cell;
use crate::fields::schema::coded;
use crate::fields::schema::first_failure;
use crate::fields::schema::measure;
use crate::fields::schema::measure_at;
use crate::fields::schema::measure_cell;
use crate::fields::schema::Cell;
use crate::fields::schema::FieldError;
use crate::fields::schema::FieldGroup;
use crate::fields::schema::Outcome;
use crate::model::RecordValue;
use crate::util::tokenize;
use vstd::prelude::*;

verus! {

pub const COVERAGE_CODES: [(&'static str, &'static str); 29] = [
    ("00", "None, SKC or CLR"),
    ("01", "One okta - 1/10 or less but not zero"),
    ("02", "Two oktas - 2/10 - 3/10, or FEW"),
    ("03", "Three oktas - 4/10"),
    ("04", "Four oktas - 5/10, or SCT"),
    ("05", "Five oktas - 6/10"),
    ("06", "Six oktas - 7/10 - 8/10"),
    ("07", "Seven oktas - 9/10 or more but not 10/10, or BKN"),
    ("08", "Eight oktas - 10/10, or OVC"),
    ("09", "Sky obscured, or cloud amount cannot be estimated"),
    ("10", "Partial Obscuration"),
    ("11", "Thin Scattered"),
    ("12", "Scattered"),
    ("13", "Dark Scattered"),
    ("14", "Thin Broken"),
    ("15", "Broken"),
    ("16", "Dark Broken"),
    ("17", "Thin Overcast"),
    ("18", "Overcast"),
    ("19", "Dark overcast"),
    ("99", "Missing"),
    ("0", "Clear - No coverage"),
    ("1", "FEW - 2/8 or less coverage (not including zero)"),
    ("2", "SCATTERED - 3/8-4/8 coverage"),
    ("3", "BROKEN - 5/8-7/8 coverage"),
    ("4", "OVERCAST - 8/8 coverage"),
    ("5", "OBSCURED"),
    ("6", "PARTIALLY OBSCURED"),
    ("9", "MISSING"),
];

pub const CLOUD_TYPE_CODES: [(&'static str, &'static str); 25] = [
    ("00", "Cirrus (Ci)"),
    ("01", "Cirrocumulus (Cc)"),
    ("02", "Cirrostratus (Cs)"),
    ("03", "Altocumulus (Ac)"),
    ("04", "Altostratus (As)"),
    ("05", "Nimbostratus (Ns)"),
    ("06", "Stratocumulus (Sc)"),
    ("07", "Stratus (St)"),
    ("08", "Cumulus (Cu)"),
    ("09", "Cumulonimbus (Cb)"),
    ("10", "Cloud not visible owing to darkness, fog, duststorm, sandstorm, or other analogous phenonomena/sky obcured"),
    ("11", "Not used"),
    ("12", "Towering Cumulus (Tcu)"),
    ("13", "Stratus fractus (Stfra)"),
    ("14", "Stratocumulus Lenticular (Scsl)"),
    ("15", "Cumulus Fractus (Cufra)"),
    ("16", "Cumulonimbus Mammatus (Cbmam)"),
    ("17", "Altocumulus Lenticular (Acsl)"),
    ("18", "Altocumulus Castellanus (Accas)"),
    ("19", "Altocumulus Mammatus (Acmam)"),
    ("20", "Cirrocumulus Lenticular (Ccsl)"),
    ("21", "Cirrus and/or Cirrocumulus"),
    ("22", "jenkins-content-114Stratus and/or Fracto-stratus"),
    ("23", "Cumulus and/or Fracto-cumulus"),
    ("99", "Missing"),
];

pub const CLOUD_ATTRIBURE_CODES: [(&'static str, &'static str); 9] = [
    ("0", "None"),
    ("1", "ACSL (Altocumulus Standing Lenticular)"),
    ("2", "ACCAS (Altocumulus Castelanus)"),
    ("3", "TCU (Towering Cumulus)"),
    ("4", "MDT CU (Moderate Cumulus)"),
    ("5", "CB/CB MAM DISTANT (Cumulonimbus or Cumulonimbus Mammatus in the distance)"),
    ("6", "CB/CBMAM (Cumulonimbus or Cumulonimbus Mammatus within 20 nautical miles)"),
    ("7", "Unknown"),
    ("9", "missing"),
];

pub const VERTICAL_DATUM_ATTRIBUTE_CODES: [(&'static str, &'static str); 45] = [
    ("AGL", "Above Ground Level"),
    ("ALAT", "Approximate lowest astronomical tide"),
    ("AP", "Apparent"),
    ("CFB", "Crest of first berm"),
    ("CRD", "Columbia River datum"),
    ("ESLW", "Equatorial Spring low water"),
    ("GCLWD", "Gulf Coast low water datum"),
    ("HAT", "Highest astronomical tide"),
    ("HHW", "Higher high water"),
    ("HTWW", "High tide wave wash"),
    ("HW", "High water"),
    ("HWFC", "High water full and change"),
    ("IND", "Indefinite"),
    ("ISLW", "Indian Spring low water"),
    ("LAT", "Lowest astronomical tide"),
    ("LLW", "Lowest low water"),
    ("LNLW", "Lowest normal low water"),
    ("LRLW", "Lower low water"),
    ("LSD", "Land survey datum"),
    ("LW", "Low water"),
    ("LWD", "Low water datum"),
    ("LWFC", "Low water full and charge"),
    ("MHHW", "Mean higher high water"),
    ("MHLW", "Mean higher low water"),
    ("MHW", "Mean high water"),
    ("MHWN", "Mean high water neap"),
    ("MHWS", "Mean high water spring"),
    ("MLHW", "Mean lower high water"),
    ("MLLW", "Mean lower low water"),
    ("MLLWS", "Mean lower low water springs"),
    ("MLWN", "Mean low water neap"),
    ("MLW", "Mean low water"),
    ("MLWS", "Mean low water spring"),
    ("MSL", "Mean sea level"),
    ("MTL", "Mean tide level"),
    ("NC", "No correction"),
    ("NT", "Neap tide"),
    ("ST", "Spring tide"),
    ("SWA", "Storm wave action"),
    ("TLLW", "Tropic lower low water"),
    ("UD", "Undetermined"),
    ("UK", "Unknown"),
    ("WGS84E", "WGS84 Ellispoid"),
    ("WGS84G", "WGS84 GEOID"),
    ("999999", "missing"),
];

pub const LOW_CLOUD_GENUS_CODES: [(&'static str, &'static str); 11] = [
    ("00", "No low clouds"),
    ("01", "Cumulus humulis or Cumulus fractus other than of bad weather or both"),
    ("02", "Cumulus mediocris or congestus, with or without Cumulus of species fractus or humulis or Stratocumulus all having bases at the same level"),
    ("03", "Cumulonimbus calvus, with or without Cumulus, Stratocumulus or Stratus"),
    ("04", "Stratocumulus cumulogenitus"),
    ("05", "Stratocumulus other than Stratocumulus cumulogenitus"),
    ("06", "Stratus nebulosus or Stratus fractus other than of bad weather, or both"),
    ("07", "Stratus fractus or Cumulus fractus of bad weather, both (pannus) usually below Altostratus or Nimbostratus."),
    ("08", "Cumulus and Stratocumulus other than Stratocumulus cumulogenitus, with bases at different levels"),
    ("09", "Cumulonimbus capillatus (often with an anvil), with or without Cumulonimbus calvus, Cumulus, Stratocumulus, Stratus or pannus"),
    ("99", "Missing"),
];

pub const MID_CLOUD_GENUS_CODES: [(&'static str, &'static str); 11] = [
    ("00", "No middle clouds"),
    ("01", "Altostratus translucidus"),
    ("02", "Altostratus opacus or Nimbostratus"),
    ("03", "Altocumulus translucidus at a single level"),
    ("04", "Patches (often lenticulre) of Altocumulus translucidus, continually changing and occurring at one or more levels"),
    ("05", "Altocumulus translucidus in bands, or one or more layers of Altocumulus translucidus or opacus, progressing invading the sky; these Altocumulus clouds generally thicken as a whole"),
    ("06", "Altocumulus cumulogentis (or cumulonimbogentus)"),
    ("07", "Altocumulus translucidus or opacus in two or more layers, or Altocumulus opacus in a single layer, not progressively invading the sky, or Altocumulus with Altostratus or Nimbostratus"),
    ("08", "Altocumulus castellanus or floccus"),
    ("09", "Altocumulus of a chaotic sky; generally at several levels"),
    ("99", "Missing"),
];

pub const HIGH_CLOUD_GENUS_CODES: [(&'static str, &'static str); 11] = [
    ("00", "No High Clouds"),
    ("01", "Cirrus fibratus, sometimes uncinus, not progressively invading the sky"),
    ("02", "Cirrus spissatus, in patches or entangled sheaves, which usually do not increase and sometimes seem to be the remains of the upper part of a Cumulonimbus; or Cirrus castellanus or floccus"),
    ("03", "Cirrus spissatus cumulonimbogenitus"),
    ("04", "Cirrus unicinus or fibratus, or both, progressively invading the sky; they generally thicken as a whole"),
    ("05", "Cirrus (often in bands) and Cirrostratus, or Cirrostratus alone, progressively invading the sky; they generally thicken as a whole, but the continuous veil does not reach 45 degrees above the horizon"),
    ("06", "Cirrus (often in bands) and Cirrostratus, or Cirrostratus alone, progressively invading the sky; they generally thicken as a whole; the continuous veil extends more than 45 degrees above the horizon, without the sky being totally covered."),
    ("07", "Cirrostratus covering the whole sky"),
    ("08", "Cirrostratus not progressively invading the sky and not entirely covering it"),
    ("09", "Cirrocumulus alone, or Cirrocumulus predominant among the High clouds"),
    ("99", "Missing"),
];

pub const TOP_CODES: [(&'static str, &'static str); 11] = [
    ("00", "Isolated cloud or fragments of clouds"),
    ("01", "Continuous flat tops"),
    ("02", "Broken cloud - small breaks, flat tops"),
    ("03", "Broken cloud - large breaks, flat tops"),
    ("04", "Continuous cloud, undulation tops"),
    ("05", "Broken cloud - small breaks, undulating tops"),
    ("06", "Broken cloud - large breaks, undulating tops"),
    ("07", "Continuous or almost continuous with towering clouds above the top of the layer"),
    ("08", "Groups of waves with towering clouds above the top of the layer"),
    ("09", "Two of more layers at different levels"),
    ("99", "Missing"),
];

pub const CHARACTERISTIC_CODES: [(&'static str, &'static str); 5] = [
    ("1", "Variable height"),
    ("2", "Variable amount"),
    ("3", "Thin clouds"),
    ("4", "Dark layer (reported in data prior to 1950)"),
    ("9", "Missing"),
];

pub const QUALITY_FLAG_CODES: [(&'static str, &'static str); 10] = [
    ("0", "Passed all quality control checks"),
    ("1", "Did not pass all quality checks"),
    ("2", "Did not pass all quality checks"),
    ("3", "Did not pass all quality checks"),
    ("4", "Did not pass all quality checks"),
    ("5", "Did not pass all quality checks"),
    ("6", "Did not pass all quality checks"),
    ("7", "Did not pass all quality checks"),
    ("8", "Did not pass all quality checks"),
    ("9", "Did not pass all quality checks"),
];

pub const DATA_FLAG_CODES: [(&'static str, &'static str); 100] = [
    ("00", "Untested (raw data)"),
    ("01", "Passed one-component test; data fall within max-min limits of Kt, Kn, or Kd"),
    ("02", "Passed two-component test; data fall within 0.03 of the Gompertz boundaries"),
    ("03", "Passed three-component test; data come within + 0.03 of satisfying Kt = Kn + Kd"),
    ("04", "Passed visual inspection: not used by SERI_QC1"),
    ("05", "Failed visual inspection: not used by SERI_QC1"),
    ("06", "Value estimated; passes all pertinent SERI_QC tests"),
    ("07", "Failed one-component test; lower than allowed minimum"),
    ("08", "Failed one-component test; higher than allowed maximum"),
    ("09", "Passed three-component test but failed two-component test by 0.05"),
    ("10", "Failed two- or three- component tests in one of four ways."),
    ("11", "Failed two- or three- component tests in one of four ways."),
    ("12", "Failed two- or three- component tests in one of four ways."),
    ("13", "Failed two- or three- component tests in one of four ways."),
    ("14", "Failed two- or three- component tests in one of four ways."),
    ("15", "Failed two- or three- component tests in one of four ways."),
    ("16", "Failed two- or three- component tests in one of four ways."),
    ("17", "Failed two- or three- component tests in one of four ways."),
    ("18", "Failed two- or three- component tests in one of four ways."),
    ("19", "Failed two- or three- component tests in one of four ways."),
    ("20", "Failed two- or three- component tests in one of four ways."),
    ("21", "Failed two- or three- component tests in one of four ways."),
    ("22", "Failed two- or three- component tests in one of four ways."),
    ("23", "Failed two- or three- component tests in one of four ways."),
    ("24", "Failed two- or three- component tests in one of four ways."),
    ("25", "Failed two- or three- component tests in one of four ways."),
    ("26", "Failed two- or three- component tests in one of four ways."),
    ("27", "Failed two- or three- component tests in one of four ways."),
    ("28", "Failed two- or three- component tests in one of four ways."),
    ("29", "Failed two- or three- component tests in one of four ways."),
    ("30", "Failed two- or three- component tests in one of four ways."),
    ("31", "Failed two- or three- component tests in one of four ways."),
    ("32", "Failed two- or three- component tests in one of four ways."),
    ("33", "Failed two- or three- component tests in one of four ways."),
    ("34", "Failed two- or three- component tests in one of four ways."),
    ("35", "Failed two- or three- component tests in one of four ways."),
    ("36", "Failed two- or three- component tests in one of four ways."),
    ("37", "Failed two- or three- component tests in one of four ways."),
    ("38", "Failed two- or three- component tests in one of four ways."),
    ("39", "Failed two- or three- component tests in one of four ways."),
    ("40", "Failed two- or three- component tests in one of four ways."),
    ("41", "Failed two- or three- component tests in one of four ways."),
    ("42", "Failed two- or three- component tests in one of four ways."),
    ("43", "Failed two- or three- component tests in one of four ways."),
    ("44", "Failed two- or three- component tests in one of four ways."),
    ("45", "Failed two- or three- component tests in one of four ways."),
    ("46", "Failed two- or three- component tests in one of four ways."),
    ("47", "Failed two- or three- component tests in one of four ways."),
    ("48", "Failed two- or three- component tests in one of four ways."),
    ("49", "Failed two- or three- component tests in one of four ways."),
    ("50", "Failed two- or three- component tests in one of four ways."),
    ("51", "Failed two- or three- component tests in one of four ways."),
    ("52", "Failed two- or three- component tests in one of four ways."),
    ("53", "Failed two- or three- component tests in one of four ways."),
    ("54", "Failed two- or three- component tests in one of four ways."),
    ("55", "Failed two- or three- component tests in one of four ways."),
    ("56", "Failed two- or three- component tests in one of four ways."),
    ("57", "Failed two- or three- component tests in one of four ways."),
    ("58", "Failed two- or three- component tests in one of four ways."),
    ("59", "Failed two- or three- component tests in one of four ways."),
    ("60", "Failed two- or three- component tests in one of four ways."),
    ("61", "Failed two- or three- component tests in one of four ways."),
    ("62", "Failed two- or three- component tests in one of four ways."),
    ("63", "Failed two- or three- component tests in one of four ways."),
    ("64", "Failed two- or three- component tests in one of four ways."),
    ("65", "Failed two- or three- component tests in one of four ways."),
    ("66", "Failed two- or three- component tests in one of four ways."),
    ("67", "Failed two- or three- component tests in one of four ways."),
    ("68", "Failed two- or three- component tests in one of four ways."),
    ("69", "Failed two- or three- component tests in one of four ways."),
    ("70", "Failed two- or three- component tests in one of four ways."),
    ("71", "Failed two- or three- component tests in one of four ways."),
    ("72", "Failed two- or three- component tests in one of four ways."),
    ("73", "Failed two- or three- component tests in one of four ways."),
    ("74", "Failed two- or three- component tests in one of four ways."),
    ("75", "Failed two- or three- component tests in one of four ways."),
    ("76", "Failed two- or three- component tests in one of four ways."),
    ("77", "Failed two- or three- component tests in one of four ways."),
    ("78", "Failed two- or three- component tests in one of four ways."),
    ("79", "Failed two- or three- component tests in one of four ways."),
    ("80", "Failed two- or three- component tests in one of four ways."),
    ("81", "Failed two- or three- component tests in one of four ways."),
    ("82", "Failed two- or three- component tests in one of four ways."),
    ("83", "Failed two- or three- component tests in one of four ways."),
    ("84", "Failed two- or three- component tests in one of four ways."),
    ("85", "Failed two- or three- component tests in one of four ways."),
    ("86", "Failed two- or three- component tests in one of four ways."),
    ("87", "Failed two- or three- component tests in one of four ways."),
    ("88", "Failed two- or three- component tests in one of four ways."),
    ("89", "Failed two- or three- component tests in one of four ways."),
    ("90", "Failed two- or three- component tests in one of four ways."),
    ("91", "Failed two- or three- component tests in one of four ways."),
    ("92", "Failed two- or three- component tests in one of four ways."),
    ("93", "Failed two- or three- component tests in one of four ways."),
    ("94", "Data fails into physically impossible region where Kn > Kt by K-space distances of 0.05 to 0.10."),
    ("95", "Data fails into physically impossible region where Kn > Kt by K-space distances of 0.10 to 0.15."),
    ("96", "Data fails into physically impossible region where Kn > Kt by K-space distances of 0.15 to 0.20."),
    ("97", "Data fails into physically impossible region where Kn > Kt by K-space distances of > 0.20."),
    ("98", "Not used"),
    ("99", "Missing data"),
];

pub const MOD_GLOBAL_HORIZONTAL_SOURCE_FLAGS: [(&'static str, &'static str); 4] = [
    ("01", "Value modeled from METSTAT model"),
    ("02", "Value time-shifted from SUNY satellite model"),
    ("03", "Value time-shifted from SUNY satellite model, adjusted to a minimum low-diffuse envelope"),
    ("99", "Missing data"),
];

/// One layer of sky cover (GA1 to GA6).
#[derive(Debug, PartialEq)]
pub struct GAX {
    pub coverage_code: CodeRecord,
    pub coverage_quality_code: CodeRecord,
    pub base_height: Option<RecordValue<i32>>,
    pub base_height_quality_code: CodeRecord,
    pub cloud_type_code: CodeRecord,
    pub cloud_type_quality_code: CodeRecord,
}

impl View for GAX {
    type V = Seq<Cell>;

    open spec fn view(&self) -> Seq<Cell> {
        seq![
            code_cell(self.coverage_code),
            code_cell(self.coverage_quality_code),
            measure_cell(self.base_height),
            code_cell(self.base_height_quality_code),
            code_cell(self.cloud_type_code),
            code_cell(self.cloud_type_quality_code),
        ]
    }
}

impl FieldGroup for GAX {
    open spec fn schema(parts: Seq<Seq<char>>) -> Seq<Outcome> {
        seq![
            code_at(parts, 0, COVERAGE_CODES@),
            code_at(parts, 1, QUALITY_CODES@),
            measure_at::<i32>(parts, 2, "meters"@, 1),
            code_at(parts, 3, QUALITY_CODES@),
            code_at(parts, 4, CLOUD_TYPE_CODES@),
            code_at(parts, 5, QUALITY_CODES@),
        ]
    }

    fn from_str(s: &str) -> (r: Result<GAX, FieldError>) {
        proof {
            reveal_with_fuel(first_failure, 7);
        }
        let parts = tokenize(s);
        let coverage_code = coded(&parts, 0, &COVERAGE_CODES)?;
        let coverage_quality_code = coded(&parts, 1, &QUALITY_CODES)?;
        let base_height = measure::<i32>(&parts, 2, "meters", 1)?;
        let base_height_quality_code = coded(&parts, 3, &QUALITY_CODES)?;
        let cloud_type_code = coded(&parts, 4, &CLOUD_TYPE_CODES)?;
        let cloud_type_quality_code = coded(&parts, 5, &QUALITY_CODES)?;
        Ok(
            GAX {
                coverage_code,
                coverage_quality_code,
                base_height,
                base_height_quality_code,
                cloud_type_code,
                cloud_type_quality_code,
            },
        )
    }
}

/// The summation state of the sky cover (GD1 to GD6).
#[derive(Debug, PartialEq)]
pub struct GDX {
    pub coverage_code: CodeRecord,
    pub coverage_code_2: CodeRecord,
    pub coverage_quality_code: CodeRecord,
    pub height_dimension: Option<RecordValue<i32>>,
    pub height_dimension_quality_code: CodeRecord,
    pub characteristic_code: CodeRecord,
}

impl View for GDX {
    type V = Seq<Cell>;

    open spec fn view(&self) -> Seq<Cell> {
        seq![
            code_cell(self.coverage_code),
            code_cell(self.coverage_code_2),
            code_cell(self.coverage_quality_code),
            measure_cell(self.height_dimension),
            code_cell(self.height_dimension_quality_code),
            code_cell(self.characteristic_code),
        ]
    }
}

impl FieldGroup for GDX {
    open spec fn schema(parts: Seq<Seq<char>>) -> Seq<Outcome> {
        seq![
            code_at(parts, 0, COVERAGE_CODES@),
            code_at(parts, 1, COVERAGE_CODES@),
            code_at(parts, 2, QUALITY_CODES@),
            measure_at::<i32>(parts, 3, "meters"@, 1),
            code_at(parts, 4, QUALITY_CODES@),
            code_at(parts, 5, CHARACTERISTIC_CODES@),
        ]
    }

    fn from_str(s: &str) -> (r: Result<GDX, FieldError>) {
        proof {
            reveal_with_fuel(first_failure, 7);
        }
        let parts = tokenize(s);
        let coverage_code = coded(&parts, 0, &COVERAGE_CODES)?;
        let coverage_code_2 = coded(&parts, 1, &COVERAGE_CODES)?;
        let coverage_quality_code = coded(&parts, 2, &QUALITY_CODES)?;
        let height_dimension = measure::<i32>(&parts, 3, "meters", 1)?;
        let height_dimension_quality_code = coded(&parts, 4, &QUALITY_CODES)?;
        let characteristic_code = coded(&parts, 5, &CHARACTERISTIC_CODES)?;
        Ok(
            GDX {
                coverage_code,
                coverage_code_2,
                coverage_quality_code,
                height_dimension,
                height_dimension_quality_code,
                characteristic_code,
            },
        )
    }
}

/// How the sky condition was observed: convective cloud and datum.
#[derive(Debug, PartialEq)]
pub struct GE1 {
    pub connective_cloud_code: CodeRecord,
    pub vertical_datum_code: CodeRecord,
    pub base_height_ur: Option<RecordValue<i32>>,
    pub base_height_lr: Option<RecordValue<i32>>,
}

impl View for GE1 {
    type V = Seq<Cell>;

    open spec fn view(&self) -> Seq<Cell> {
        seq![
            code_cell(self.connective_cloud_code),
            code_cell(self.vertical_datum_code),
            measure_cell(self.base_height_ur),
            measure_cell(self.base_height_lr),
        ]
    }
}

impl FieldGroup for GE1 {
    open spec fn schema(parts: Seq<Seq<char>>) -> Seq<Outcome> {
        seq![
            code_at(parts, 0, CLOUD_ATTRIBURE_CODES@),
            code_at(parts, 1, VERTICAL_DATUM_ATTRIBUTE_CODES@),
            measure_at::<i32>(parts, 2, "meters"@, 1),
            measure_at::<i32>(parts, 3, "meters"@, 1),
        ]
    }

    fn from_str(s: &str) -> (r: Result<GE1, FieldError>) {
        proof {
            reveal_with_fuel(first_failure, 5);
        }
        let parts = tokenize(s);
        let connective_cloud_code = coded(&parts, 0, &CLOUD_ATTRIBURE_CODES)?;
        let vertical_datum_code = coded(&parts, 1, &VERTICAL_DATUM_ATTRIBUTE_CODES)?;
        let base_height_ur = measure::<i32>(&parts, 2, "meters", 1)?;
        let base_height_lr = measure::<i32>(&parts, 3, "meters", 1)?;
        Ok(GE1 { connective_cloud_code, vertical_datum_code, base_height_ur, base_height_lr })
    }
}

/// The sky condition: total and low cloud cover, and the cloud genera.
#[derive(Debug, PartialEq)]
pub struct GF1 {
    pub total_coverage_code: CodeRecord,
    pub total_opaque_coverage_code: CodeRecord,
    pub total_coverage_quality_code: CodeRecord,
    pub low_total_coverage_code: CodeRecord,
    pub low_total_coverage_quality_code: CodeRecord,
    pub low_cloud_genus_code: CodeRecord,
    pub low_cloud_genus_quality_code: CodeRecord,
    pub low_cloud_base_height: Option<RecordValue<i32>>,
    pub low_cloud_base_height_quality_code: CodeRecord,
    pub mid_cloud_genus_code: CodeRecord,
    pub mid_cloud_genus_quality_code: CodeRecord,
    pub high_cloud_genus_code: CodeRecord,
}

impl View for GF1 {
    type V = Seq<Cell>;

    open spec fn view(&self) -> Seq<Cell> {
        seq![
            code_cell(self.total_coverage_code),
            code_cell(self.total_opaque_coverage_code),
            code_cell(self.total_coverage_quality_code),
            code_cell(self.low_total_coverage_code),
            code_cell(self.low_total_coverage_quality_code),
            code_cell(self.low_cloud_genus_code),
            code_cell(self.low_cloud_genus_quality_code),
            measure_cell(self.low_cloud_base_height),
            code_cell(self.low_cloud_base_height_quality_code),
            code_cell(self.mid_cloud_genus_code),
            code_cell(self.mid_cloud_genus_quality_code),
            code_cell(self.high_cloud_genus_code),
        ]
    }
}

impl FieldGroup for GF1 {
    open spec fn schema(parts: Seq<Seq<char>>) -> Seq<Outcome> {
        seq![
            code_at(parts, 0, COVERAGE_CODES@),
            code_at(parts, 1, COVERAGE_CODES@),
            code_at(parts, 2, QUALITY_CODES@),
            code_at(parts, 3, COVERAGE_CODES@),
            code_at(parts, 4, QUALITY_CODES@),
            code_at(parts, 5, LOW_CLOUD_GENUS_CODES@),
            code_at(parts, 6, QUALITY_CODES@),
            measure_at::<i32>(parts, 7, "meters"@, 1),
            code_at(parts, 8, QUALITY_CODES@),
            code_at(parts, 9, MID_CLOUD_GENUS_CODES@),
            code_at(parts, 10, QUALITY_CODES@),
            code_at(parts, 11, HIGH_CLOUD_GENUS_CODES@),
        ]
    }

    fn from_str(s: &str) -> (r: Result<GF1, FieldError>) {
        proof {
            reveal_with_fuel(first_failure, 13);
        }
        let parts = tokenize(s);
        let total_coverage_code = coded(&parts, 0, &COVERAGE_CODES)?;
        let total_opaque_coverage_code = coded(&parts, 1, &COVERAGE_CODES)?;
        let total_coverage_quality_code = coded(&parts, 2, &QUALITY_CODES)?;
        let low_total_coverage_code = coded(&parts, 3, &COVERAGE_CODES)?;
        let low_total_coverage_quality_code = coded(&parts, 4, &QUALITY_CODES)?;
        let low_cloud_genus_code = coded(&parts, 5, &LOW_CLOUD_GENUS_CODES)?;
        let low_cloud_genus_quality_code = coded(&parts, 6, &QUALITY_CODES)?;
        let low_cloud_base_height = measure::<i32>(&parts, 7, "meters", 1)?;
        let low_cloud_base_height_quality_code = coded(&parts, 8, &QUALITY_CODES)?;
        let mid_cloud_genus_code = coded(&parts, 9, &MID_CLOUD_GENUS_CODES)?;
        let mid_cloud_genus_quality_code = coded(&parts, 10, &QUALITY_CODES)?;
        let high_cloud_genus_code = coded(&parts, 11, &HIGH_CLOUD_GENUS_CODES)?;
        Ok(
            GF1 {
                total_coverage_code,
                total_opaque_coverage_code,
                total_coverage_quality_code,
                low_total_coverage_code,
                low_total_coverage_quality_code,
                low_cloud_genus_code,
                low_cloud_genus_quality_code,
                low_cloud_base_height,
                low_cloud_base_height_quality_code,
                mid_cloud_genus_code,
                mid_cloud_genus_quality_code,
                high_cloud_genus_code,
            },
        )
    }
}

/// One cloud layer below the station (GG1 to GG6).
#[derive(Debug, PartialEq)]
pub struct GGX {
    pub coverage_code: CodeRecord,
    pub coverage_quality_code: CodeRecord,
    pub top_height: Option<RecordValue<i32>>,
    pub top_height_quality_code: CodeRecord,
    pub type_code: CodeRecord,
    pub type_quality_code: CodeRecord,
    pub top_code: CodeRecord,
    pub top_quality_code: CodeRecord,
}

impl View for GGX {
    type V = Seq<Cell>;

    open spec fn view(&self) -> Seq<Cell> {
        seq![
            code_cell(self.coverage_code),
            code_cell(self.coverage_quality_code),
            measure_cell(self.top_height),
            code_cell(self.top_height_quality_code),
            code_cell(self.type_code),
            code_cell(self.type_quality_code),
            code_cell(self.top_code),
            code_cell(self.top_quality_code),
        ]
    }
}

impl FieldGroup for GGX {
    open spec fn schema(parts: Seq<Seq<char>>) -> Seq<Outcome> {
        seq![
            code_at(parts, 0, COVERAGE_CODES@),
            code_at(parts, 1, QUALITY_CODES@),
            measure_at::<i32>(parts, 2, "meters"@, 1),
            code_at(parts, 3, QUALITY_CODES@),
            code_at(parts, 4, CLOUD_TYPE_CODES@),
            code_at(parts, 5, QUALITY_CODES@),
            code_at(parts, 6, TOP_CODES@),
            code_at(parts, 7, QUALITY_CODES@),
        ]
    }

    fn from_str(s: &str) -> (r: Result<GGX, FieldError>) {
        proof {
            reveal_with_fuel(first_failure, 9);
        }
        let parts = tokenize(s);
        let coverage_code = coded(&parts, 0, &COVERAGE_CODES)?;
        let coverage_quality_code = coded(&parts, 1, &QUALITY_CODES)?;
        let top_height = measure::<i32>(&parts, 2, "meters", 1)?;
        let top_height_quality_code = coded(&parts, 3, &QUALITY_CODES)?;
        let type_code = coded(&parts, 4, &CLOUD_TYPE_CODES)?;
        let type_quality_code = coded(&parts, 5, &QUALITY_CODES)?;
        let top_code = coded(&parts, 6, &TOP_CODES)?;
        let top_quality_code = coded(&parts, 7, &QUALITY_CODES)?;
        Ok(
            GGX {
                coverage_code,
                coverage_quality_code,
                top_height,
                top_height_quality_code,
                type_code,
                type_quality_code,
                top_code,
                top_quality_code,
            },
        )
    }
}

/// Solar radiation of the hour: average, minimum, maximum and deviation.
#[derive(Debug, PartialEq)]
pub struct GH1 {
    pub avg_solar_radiation: Option<RecordValue<i32>>,
    pub avg_solar_radiation_quality_code: CodeRecord,
    pub avg_solar_radiation_quality_flag: CodeRecord,
    pub min_solar_radiation: Option<RecordValue<i32>>,
    pub min_solar_radiation_quality_code: CodeRecord,
    pub min_solar_radiation_quality_flag: CodeRecord,
    pub max_solar_radiation: Option<RecordValue<i32>>,
    pub max_solar_radiation_quality_code: CodeRecord,
    pub max_solar_radiation_quality_flag: CodeRecord,
    pub std_solar_radiation: Option<RecordValue<i32>>,
    pub std_solar_radiation_quality_code: CodeRecord,
    pub std_solar_radiation_quality_flag: CodeRecord,
}

impl View for GH1 {
    type V = Seq<Cell>;

    open spec fn view(&self) -> Seq<Cell> {
        seq![
            measure_cell(self.avg_solar_radiation),
            code_cell(self.avg_solar_radiation_quality_code),
            code_cell(self.avg_solar_radiation_quality_flag),
            measure_cell(self.min_solar_radiation),
            code_cell(self.min_solar_radiation_quality_code),
            code_cell(self.min_solar_radiation_quality_flag),
            measure_cell(self.max_solar_radiation),
            code_cell(self.max_solar_radiation_quality_code),
            code_cell(self.max_solar_radiation_quality_flag),
            measure_cell(self.std_solar_radiation),
            code_cell(self.std_solar_radiation_quality_code),
            code_cell(self.std_solar_radiation_quality_flag),
        ]
    }
}

impl FieldGroup for GH1 {
    open spec fn schema(parts: Seq<Seq<char>>) -> Seq<Outcome> {
        seq![
            measure_at::<i32>(parts, 0, "W/m^2"@, 10),
            code_at(parts, 1, QUALITY_CODES@),
            code_at(parts, 2, QUALITY_FLAG_CODES@),
            measure_at::<i32>(parts, 3, "W/m^2"@, 10),
            code_at(parts, 4, QUALITY_CODES@),
            code_at(parts, 5, QUALITY_FLAG_CODES@),
            measure_at::<i32>(parts, 6, "W/m^2"@, 10),
            code_at(parts, 7, QUALITY_CODES@),
            code_at(parts, 8, QUALITY_FLAG_CODES@),
            measure_at::<i32>(parts, 9, "W/m^2"@, 10),
            code_at(parts, 10, QUALITY_CODES@),
            code_at(parts, 11, QUALITY_FLAG_CODES@),
        ]
    }

    fn from_str(s: &str) -> (r: Result<GH1, FieldError>) {
        proof {
            reveal_with_fuel(first_failure, 13);
        }
        let parts = tokenize(s);
        let avg_solar_radiation = measure::<i32>(&parts, 0, "W/m^2", 10)?;
        let avg_solar_radiation_quality_code = coded(&parts, 1, &QUALITY_CODES)?;
        let avg_solar_radiation_quality_flag = coded(&parts, 2, &QUALITY_FLAG_CODES)?;
        let min_solar_radiation = measure::<i32>(&parts, 3, "W/m^2", 10)?;
        let min_solar_radiation_quality_code = coded(&parts, 4, &QUALITY_CODES)?;
        let min_solar_radiation_quality_flag = coded(&parts, 5, &QUALITY_FLAG_CODES)?;
        let max_solar_radiation = measure::<i32>(&parts, 6, "W/m^2", 10)?;
        let max_solar_radiation_quality_code = coded(&parts, 7, &QUALITY_CODES)?;
        let max_solar_radiation_quality_flag = coded(&parts, 8, &QUALITY_FLAG_CODES)?;
        let std_solar_radiation = measure::<i32>(&parts, 9, "W/m^2", 10)?;
        let std_solar_radiation_quality_code = coded(&parts, 10, &QUALITY_CODES)?;
        let std_solar_radiation_quality_flag = coded(&parts, 11, &QUALITY_FLAG_CODES)?;
        Ok(
            GH1 {
                avg_solar_radiation,
                avg_solar_radiation_quality_code,
                avg_solar_radiation_quality_flag,
                min_solar_radiation,
                min_solar_radiation_quality_code,
                min_solar_radiation_quality_flag,
                max_solar_radiation,
                max_solar_radiation_quality_code,
                max_solar_radiation_quality_flag,
                std_solar_radiation,
                std_solar_radiation_quality_code,
                std_solar_radiation_quality_flag,
            },
        )
    }
}

/// The duration of sunshine.
#[derive(Debug, PartialEq)]
pub struct GJ1 {
    pub sunshine_duration: Option<RecordValue<i32>>,
    pub sunshine_duration_quality_code: CodeRecord,
}

impl View for GJ1 {
    type V = Seq<Cell>;

    open spec fn view(&self) -> Seq<Cell> {
        seq![
            measure_cell(self.sunshine_duration),
            code_cell(self.sunshine_duration_quality_code),
        ]
    }
}

impl FieldGroup for GJ1 {
    open spec fn schema(parts: Seq<Seq<char>>) -> Seq<Outcome> {
        seq![
            measure_at::<i32>(parts, 0, "minutes"@, 1),
            code_at(parts, 1, QUALITY_CODES@),
        ]
    }

    fn from_str(s: &str) -> (r: Result<GJ1, FieldError>) {
        proof {
            reveal_with_fuel(first_failure, 3);
        }
        let parts = tokenize(s);
        let sunshine_duration = measure::<i32>(&parts, 0, "minutes", 1)?;
        let sunshine_duration_quality_code = coded(&parts, 1, &QUALITY_CODES)?;
        Ok(GJ1 { sunshine_duration, sunshine_duration_quality_code })
    }
}

/// The share of sunshine in what was possible.
#[derive(Debug, PartialEq)]
pub struct GK1 {
    pub sunshine_quantity: Option<RecordValue<i32>>,
    pub sunshine_quantity_quality_code: CodeRecord,
}

impl View for GK1 {
    type V = Seq<Cell>;

    open spec fn view(&self) -> Seq<Cell> {
        seq![
            measure_cell(self.sunshine_quantity),
            code_cell(self.sunshine_quantity_quality_code),
        ]
    }
}

impl FieldGroup for GK1 {
    open spec fn schema(parts: Seq<Seq<char>>) -> Seq<Outcome> {
        seq![
            measure_at::<i32>(parts, 0, "%"@, 1),
            code_at(parts, 1, QUALITY_CODES@),
        ]
    }

    fn from_str(s: &str) -> (r: Result<GK1, FieldError>) {
        proof {
            reveal_with_fuel(first_failure, 3);
        }
        let parts = tokenize(s);
        let sunshine_quantity = measure::<i32>(&parts, 0, "%", 1)?;
        let sunshine_quantity_quality_code = coded(&parts, 1, &QUALITY_CODES)?;
        Ok(GK1 { sunshine_quantity, sunshine_quantity_quality_code })
    }
}

/// The duration of sunshine over the month.
#[derive(Debug, PartialEq)]
pub struct GL1 {
    pub sunshine_duration: Option<RecordValue<i32>>,
    pub sunshine_duration_quality_code: CodeRecord,
}

impl View for GL1 {
    type V = Seq<Cell>;

    open spec fn view(&self) -> Seq<Cell> {
        seq![
            measure_cell(self.sunshine_duration),
            code_cell(self.sunshine_duration_quality_code),
        ]
    }
}

impl FieldGroup for GL1 {
    open spec fn schema(parts: Seq<Seq<char>>) -> Seq<Outcome> {
        seq![
            measure_at::<i32>(parts, 0, "minutes"@, 1),
            code_at(parts, 1, QUALITY_CODES@),
        ]
    }

    fn from_str(s: &str) -> (r: Result<GL1, FieldError>) {
        proof {
            reveal_with_fuel(first_failure, 3);
        }
        let parts = tokenize(s);
        let sunshine_duration = measure::<i32>(&parts, 0, "minutes", 1)?;
        let sunshine_duration_quality_code = coded(&parts, 1, &QUALITY_CODES)?;
        Ok(GL1 { sunshine_duration, sunshine_duration_quality_code })
    }
}

/// Solar irradiance: global, direct beam, diffuse and UVB.
#[derive(Debug, PartialEq)]
pub struct GM1 {
    pub solar_irradiance_period: Option<RecordValue<i32>>,
    pub global_irradiance: Option<RecordValue<i32>>,
    pub global_irradiance_data_flag: CodeRecord,
    pub global_irradiance_quality_code: CodeRecord,
    pub direct_beam_irradiance: Option<RecordValue<i32>>,
    pub direct_beam_irradiance_data_flag: CodeRecord,
    pub direct_beam_irradiance_quality_code: CodeRecord,
    pub diffuse_irradiance: Option<RecordValue<i32>>,
    pub diffuse_irradiance_data_flag: CodeRecord,
    pub diffuse_irradiance_quality_code: CodeRecord,
    pub uvb_global_irradiance: Option<RecordValue<i32>>,
    pub uvb_global_irradiance_data_flag: CodeRecord,
    pub uvb_global_irradiance_quality_code: CodeRecord,
}

impl View for GM1 {
    type V = Seq<Cell>;

    open spec fn view(&self) -> Seq<Cell> {
        seq![
            measure_cell(self.solar_irradiance_period),
            measure_cell(self.global_irradiance),
            code_cell(self.global_irradiance_data_flag),
            code_cell(self.global_irradiance_quality_code),
            measure_cell(self.direct_beam_irradiance),
            code_cell(self.direct_beam_irradiance_data_flag),
            code_cell(self.direct_beam_irradiance_quality_code),
            measure_cell(self.diffuse_irradiance),
            code_cell(self.diffuse_irradiance_data_flag),
            code_cell(self.diffuse_irradiance_quality_code),
            measure_cell(self.uvb_global_irradiance),
            code_cell(self.uvb_global_irradiance_data_flag),
            code_cell(self.uvb_global_irradiance_quality_code),
        ]
    }
}

impl FieldGroup for GM1 {
    open spec fn schema(parts: Seq<Seq<char>>) -> Seq<Outcome> {
        seq![
            measure_at::<i32>(parts, 0, "minutes"@, 1),
            measure_at::<i32>(parts, 1, "W/m^2"@, 1),
            code_at(parts, 2, DATA_FLAG_CODES@),
            code_at(parts, 3, QUALITY_CODES@),
            measure_at::<i32>(parts, 4, "W/m^2"@, 1),
            code_at(parts, 5, DATA_FLAG_CODES@),
            code_at(parts, 6, QUALITY_CODES@),
            measure_at::<i32>(parts, 7, "W/m^2"@, 1),
            code_at(parts, 8, DATA_FLAG_CODES@),
            code_at(parts, 9, QUALITY_CODES@),
            measure_at::<i32>(parts, 10, "W/m^2"@, 1),
            code_at(parts, 11, DATA_FLAG_CODES@),
            code_at(parts, 12, QUALITY_CODES@),
        ]
    }

    fn from_str(s: &str) -> (r: Result<GM1, FieldError>) {
        proof {
            reveal_with_fuel(first_failure, 14);
        }
        let parts = tokenize(s);
        let solar_irradiance_period = measure::<i32>(&parts, 0, "minutes", 1)?;
        let global_irradiance = measure::<i32>(&parts, 1, "W/m^2", 1)?;
        let global_irradiance_data_flag = coded(&parts, 2, &DATA_FLAG_CODES)?;
        let global_irradiance_quality_code = coded(&parts, 3, &QUALITY_CODES)?;
        let direct_beam_irradiance = measure::<i32>(&parts, 4, "W/m^2", 1)?;
        let direct_beam_irradiance_data_flag = coded(&parts, 5, &DATA_FLAG_CODES)?;
        let direct_beam_irradiance_quality_code = coded(&parts, 6, &QUALITY_CODES)?;
        let diffuse_irradiance = measure::<i32>(&parts, 7, "W/m^2", 1)?;
        let diffuse_irradiance_data_flag = coded(&parts, 8, &DATA_FLAG_CODES)?;
        let diffuse_irradiance_quality_code = coded(&parts, 9, &QUALITY_CODES)?;
        let uvb_global_irradiance = measure::<i32>(&parts, 10, "W/m^2", 1)?;
        let uvb_global_irradiance_data_flag = coded(&parts, 11, &DATA_FLAG_CODES)?;
        let uvb_global_irradiance_quality_code = coded(&parts, 12, &QUALITY_CODES)?;
        Ok(
            GM1 {
                solar_irradiance_period,
                global_irradiance,
                global_irradiance_data_flag,
                global_irradiance_quality_code,
                direct_beam_irradiance,
                direct_beam_irradiance_data_flag,
                direct_beam_irradiance_quality_code,
                diffuse_irradiance,
                diffuse_irradiance_data_flag,
                diffuse_irradiance_quality_code,
                uvb_global_irradiance,
                uvb_global_irradiance_data_flag,
                uvb_global_irradiance_quality_code,
            },
        )
    }
}

/// Solar radiation: upwelling, downwelling and photosynthetically active.
#[derive(Debug, PartialEq)]
pub struct GN1 {
    pub solar_rad_period: Option<RecordValue<i32>>,
    pub upwell_solar_rad: Option<RecordValue<i32>>,
    pub upwell_solar_rad_quality_code: CodeRecord,
    pub downwell_thermal_if_rad: Option<RecordValue<i32>>,
    pub downwell_thermal_if_rad_quality_code: CodeRecord,
    pub upwell_thermal_if_rad: Option<RecordValue<i32>>,
    pub upwell_thermal_if_rad_quality_code: CodeRecord,
    pub photosynth_active_rad: Option<RecordValue<i32>>,
    pub photosynth_active_rad_quality_code: CodeRecord,
    pub solar_zenith_angle: Option<RecordValue<i32>>,
    pub solar_zenith_angle_quality_code: CodeRecord,
}

impl View for GN1 {
    type V = Seq<Cell>;

    open spec fn view(&self) -> Seq<Cell> {
        seq![
            measure_cell(self.solar_rad_period),
            measure_cell(self.upwell_solar_rad),
            code_cell(self.upwell_solar_rad_quality_code),
            measure_cell(self.downwell_thermal_if_rad),
            code_cell(self.downwell_thermal_if_rad_quality_code),
            measure_cell(self.upwell_thermal_if_rad),
            code_cell(self.upwell_thermal_if_rad_quality_code),
            measure_cell(self.photosynth_active_rad),
            code_cell(self.photosynth_active_rad_quality_code),
            measure_cell(self.solar_zenith_angle),
            code_cell(self.solar_zenith_angle_quality_code),
        ]
    }
}

impl FieldGroup for GN1 {
    open spec fn schema(parts: Seq<Seq<char>>) -> Seq<Outcome> {
        seq![
            measure_at::<i32>(parts, 0, "minutes"@, 1),
            measure_at::<i32>(parts, 1, "W/m^2"@, 1),
            code_at(parts, 2, QUALITY_CODES@),
            measure_at::<i32>(parts, 3, "W/m^2"@, 1),
            code_at(parts, 4, QUALITY_CODES@),
            measure_at::<i32>(parts, 5, "W/m^2"@, 1),
            code_at(parts, 6, QUALITY_CODES@),
            measure_at::<i32>(parts, 7, "W/m^2"@, 1),
            code_at(parts, 8, QUALITY_CODES@),
            measure_at::<i32>(parts, 9, "degrees"@, 1),
            code_at(parts, 10, QUALITY_CODES@),
        ]
    }

    fn from_str(s: &str) -> (r: Result<GN1, FieldError>) {
        proof {
            reveal_with_fuel(first_failure, 12);
        }
        let parts = tokenize(s);
        let solar_rad_period = measure::<i32>(&parts, 0, "minutes", 1)?;
        let upwell_solar_rad = measure::<i32>(&parts, 1, "W/m^2", 1)?;
        let upwell_solar_rad_quality_code = coded(&parts, 2, &QUALITY_CODES)?;
        let downwell_thermal_if_rad = measure::<i32>(&parts, 3, "W/m^2", 1)?;
        let downwell_thermal_if_rad_quality_code = coded(&parts, 4, &QUALITY_CODES)?;
        let upwell_thermal_if_rad = measure::<i32>(&parts, 5, "W/m^2", 1)?;
        let upwell_thermal_if_rad_quality_code = coded(&parts, 6, &QUALITY_CODES)?;
        let photosynth_active_rad = measure::<i32>(&parts, 7, "W/m^2", 1)?;
        let photosynth_active_rad_quality_code = coded(&parts, 8, &QUALITY_CODES)?;
        let solar_zenith_angle = measure::<i32>(&parts, 9, "degrees", 1)?;
        let solar_zenith_angle_quality_code = coded(&parts, 10, &QUALITY_CODES)?;
        Ok(
            GN1 {
                solar_rad_period,
                upwell_solar_rad,
                upwell_solar_rad_quality_code,
                downwell_thermal_if_rad,
                downwell_thermal_if_rad_quality_code,
                upwell_thermal_if_rad,
                upwell_thermal_if_rad_quality_code,
                photosynth_active_rad,
                photosynth_active_rad_quality_code,
                solar_zenith_angle,
                solar_zenith_angle_quality_code,
            },
        )
    }
}

/// Net solar and thermal radiation.
#[derive(Debug, PartialEq)]
pub struct GO1 {
    pub net_solar_rad_period: Option<RecordValue<i32>>,
    pub net_solar_rad: Option<RecordValue<i32>>,
    pub net_solar_rad_quality_code: CodeRecord,
    pub net_thermal_if_rad: Option<RecordValue<i32>>,
    pub net_rad: Option<RecordValue<i32>>,
    pub net_rad_quality_code: CodeRecord,
}

impl View for GO1 {
    type V = Seq<Cell>;

    open spec fn view(&self) -> Seq<Cell> {
        seq![
            measure_cell(self.net_solar_rad_period),
            measure_cell(self.net_solar_rad),
            code_cell(self.net_solar_rad_quality_code),
            measure_cell(self.net_thermal_if_rad),
            measure_cell(self.net_rad),
            code_cell(self.net_rad_quality_code),
        ]
    }
}

impl FieldGroup for GO1 {
    open spec fn schema(parts: Seq<Seq<char>>) -> Seq<Outcome> {
        seq![
            measure_at::<i32>(parts, 0, "minutes"@, 1),
            measure_at::<i32>(parts, 1, "W/m^2"@, 1),
            code_at(parts, 2, QUALITY_CODES@),
            measure_at::<i32>(parts, 3, "W/m^2"@, 1),
            measure_at::<i32>(parts, 4, "W/m^2"@, 1),
            code_at(parts, 5, QUALITY_CODES@),
        ]
    }

    fn from_str(s: &str) -> (r: Result<GO1, FieldError>) {
        proof {
            reveal_with_fuel(first_failure, 7);
        }
        let parts = tokenize(s);
        let net_solar_rad_period = measure::<i32>(&parts, 0, "minutes", 1)?;
        let net_solar_rad = measure::<i32>(&parts, 1, "W/m^2", 1)?;
        let net_solar_rad_quality_code = coded(&parts, 2, &QUALITY_CODES)?;
        let net_thermal_if_rad = measure::<i32>(&parts, 3, "W/m^2", 1)?;
        let net_rad = measure::<i32>(&parts, 4, "W/m^2", 1)?;
        let net_rad_quality_code = coded(&parts, 5, &QUALITY_CODES)?;
        Ok(
            GO1 {
                net_solar_rad_period,
                net_solar_rad,
                net_solar_rad_quality_code,
                net_thermal_if_rad,
                net_rad,
                net_rad_quality_code,
            },
        )
    }
}

/// Modeled solar irradiance with its sources and uncertainties.
#[derive(Debug, PartialEq)]
pub struct GP1 {
    pub mod_solar_irradiance_period: Option<RecordValue<i32>>,
    pub mod_global_horizontal: Option<RecordValue<i32>>,
    pub mod_global_horizontal_source: CodeRecord,
    pub mog_global_horizontal_uncertainty: Option<RecordValue<i32>>,
    pub mod_direct_normal: Option<RecordValue<i32>>,
    pub mod_direct_normal_source: CodeRecord,
    pub mod_direct_normal_uncertainty: Option<RecordValue<i32>>,
    pub mod_diffuse_horizontal: Option<RecordValue<i32>>,
    pub mod_diffuse_horizontal_source: CodeRecord,
    pub mod_diffuse_horizontal_uncertainty: Option<RecordValue<i32>>,
}

impl View for GP1 {
    type V = Seq<Cell>;

    open spec fn view(&self) -> Seq<Cell> {
        seq![
            measure_cell(self.mod_solar_irradiance_period),
            measure_cell(self.mod_global_horizontal),
            code_cell(self.mod_global_horizontal_source),
            measure_cell(self.mog_global_horizontal_uncertainty),
            measure_cell(self.mod_direct_normal),
            code_cell(self.mod_direct_normal_source),
            measure_cell(self.mod_direct_normal_uncertainty),
            measure_cell(self.mod_diffuse_horizontal),
            code_cell(self.mod_diffuse_horizontal_source),
            measure_cell(self.mod_diffuse_horizontal_uncertainty),
        ]
    }
}

impl FieldGroup for GP1 {
    open spec fn schema(parts: Seq<Seq<char>>) -> Seq<Outcome> {
        seq![
            measure_at::<i32>(parts, 0, "minutes"@, 1),
            measure_at::<i32>(parts, 1, "W/m^2"@, 1),
            code_at(parts, 2, MOD_GLOBAL_HORIZONTAL_SOURCE_FLAGS@),
            measure_at::<i32>(parts, 3, "%"@, 1),
            measure_at::<i32>(parts, 4, "W/m^2"@, 1),
            code_at(parts, 5, MOD_GLOBAL_HORIZONTAL_SOURCE_FLAGS@),
            measure_at::<i32>(parts, 6, "%"@, 1),
            measure_at::<i32>(parts, 7, "W/m^2"@, 1),
            code_at(parts, 8, MOD_GLOBAL_HORIZONTAL_SOURCE_FLAGS@),
            measure_at::<i32>(parts, 9, "%"@, 1),
        ]
    }

    fn from_str(s: &str) -> (r: Result<GP1, FieldError>) {
        proof {
            reveal_with_fuel(first_failure, 11);
        }
        let parts = tokenize(s);
        let mod_solar_irradiance_period = measure::<i32>(&parts, 0, "minutes", 1)?;
        let mod_global_horizontal = measure::<i32>(&parts, 1, "W/m^2", 1)?;
        let mod_global_horizontal_source = coded(&parts, 2, &MOD_GLOBAL_HORIZONTAL_SOURCE_FLAGS)?;
        let mog_global_horizontal_uncertainty = measure::<i32>(&parts, 3, "%", 1)?;
        let mod_direct_normal = measure::<i32>(&parts, 4, "W/m^2", 1)?;
        let mod_direct_normal_source = coded(&parts, 5, &MOD_GLOBAL_HORIZONTAL_SOURCE_FLAGS)?;
        let mod_direct_normal_uncertainty = measure::<i32>(&parts, 6, "%", 1)?;
        let mod_diffuse_horizontal = measure::<i32>(&parts, 7, "W/m^2", 1)?;
        let mod_diffuse_horizontal_source = coded(&parts, 8, &MOD_GLOBAL_HORIZONTAL_SOURCE_FLAGS)?;
        let mod_diffuse_horizontal_uncertainty = measure::<i32>(&parts, 9, "%", 1)?;
        Ok(
            GP1 {
                mod_solar_irradiance_period,
                mod_global_horizontal,
                mod_global_horizontal_source,
                mog_global_horizontal_uncertainty,
                mod_direct_normal,
                mod_direct_normal_source,
                mod_direct_normal_uncertainty,
                mod_diffuse_horizontal,
                mod_diffuse_horizontal_source,
                mod_diffuse_horizontal_uncertainty,
            },
        )
    }
}

/// The solar angles of the hour.
#[derive(Debug, PartialEq)]
pub struct GQ1 {
    pub solar_angle_time: Option<RecordValue<i32>>,
    pub mean_zenith_angle: Option<RecordValue<i32>>,
    pub mean_zenith_angle_quality: CodeRecord,
    pub mean_azimuth_angle: Option<RecordValue<i32>>,
    pub mean_azimuth_angle_quality: CodeRecord,
}

impl View for GQ1 {
    type V = Seq<Cell>;

    open spec fn view(&self) -> Seq<Cell> {
        seq![
            measure_cell(self.solar_angle_time),
            measure_cell(self.mean_zenith_angle),
            code_cell(self.mean_zenith_angle_quality),
            measure_cell(self.mean_azimuth_angle),
            code_cell(self.mean_azimuth_angle_quality),
        ]
    }
}

impl FieldGroup for GQ1 {
    open spec fn schema(parts: Seq<Seq<char>>) -> Seq<Outcome> {
        seq![
            measure_at::<i32>(parts, 0, "minutes"@, 1),
            measure_at::<i32>(parts, 1, "degrees"@, 10),
            code_at(parts, 2, QUALITY_CODES@),
            measure_at::<i32>(parts, 3, "degrees"@, 10),
            code_at(parts, 4, QUALITY_CODES@),
        ]
    }

    fn from_str(s: &str) -> (r: Result<GQ1, FieldError>) {
        proof {
            reveal_with_fuel(first_failure, 6);
        }
        let parts = tokenize(s);
        let solar_angle_time = measure::<i32>(&parts, 0, "minutes", 1)?;
        let mean_zenith_angle = measure::<i32>(&parts, 1, "degrees", 10)?;
        let mean_zenith_angle_quality = coded(&parts, 2, &QUALITY_CODES)?;
        let mean_azimuth_angle = measure::<i32>(&parts, 3, "degrees", 10)?;
        let mean_azimuth_angle_quality = coded(&parts, 4, &QUALITY_CODES)?;
        Ok(
            GQ1 {
                solar_angle_time,
                mean_zenith_angle,
                mean_zenith_angle_quality,
                mean_azimuth_angle,
                mean_azimuth_angle_quality,
            },
        )
    }
}

/// The extraterrestrial radiation of the hour.
#[derive(Debug, PartialEq)]
pub struct GR1 {
    pub et_rad_time: Option<RecordValue<i32>>,
    pub et_rad_horizontal_surface: Option<RecordValue<i32>>,
    pub et_rad_horizontal_surface_quality: CodeRecord,
    pub et_rad_direct_normal: Option<RecordValue<i32>>,
    pub et_rad_direct_normal_quality: CodeRecord,
}

impl View for GR1 {
    type V = Seq<Cell>;

    open spec fn view(&self) -> Seq<Cell> {
        seq![
            measure_cell(self.et_rad_time),
            measure_cell(self.et_rad_horizontal_surface),
            code_cell(self.et_rad_horizontal_surface_quality),
            measure_cell(self.et_rad_direct_normal),
            code_cell(self.et_rad_direct_normal_quality),
        ]
    }
}

impl FieldGroup for GR1 {
    open spec fn schema(parts: Seq<Seq<char>>) -> Seq<Outcome> {
        seq![
            measure_at::<i32>(parts, 0, "minutes"@, 1),
            measure_at::<i32>(parts, 1, "W/m^2"@, 1),
            code_at(parts, 2, QUALITY_CODES@),
            measure_at::<i32>(parts, 3, "W/m^2"@, 1),
            code_at(parts, 4, QUALITY_CODES@),
        ]
    }

    fn from_str(s: &str) -> (r: Result<GR1, FieldError>) {
        proof {
            reveal_with_fuel(first_failure, 6);
        }
        let parts = tokenize(s);
        let et_rad_time = measure::<i32>(&parts, 0, "minutes", 1)?;
        let et_rad_horizontal_surface = measure::<i32>(&parts, 1, "W/m^2", 1)?;
        let et_rad_horizontal_surface_quality = coded(&parts, 2, &QUALITY_CODES)?;
        let et_rad_direct_normal = measure::<i32>(&parts, 3, "W/m^2", 1)?;
        let et_rad_direct_normal_quality = coded(&parts, 4, &QUALITY_CODES)?;
        Ok(
            GR1 {
                et_rad_time,
                et_rad_horizontal_surface,
                et_rad_horizontal_surface_quality,
                et_rad_direct_normal,
                et_rad_direct_normal_quality,
            },
        )
    }
}

/// Every table of this module lists its sentinel code, the one of nines
/// only: looking it up gives its entry and never fails.
pub proof fn lemma_tables_list_their_sentinels()
    ensures
        CodeRecord::lookup("99"@, COVERAGE_CODES@) is Some,
        CodeRecord::lookup("9"@, COVERAGE_CODES@) is Some,
        CodeRecord::lookup("99"@, CLOUD_TYPE_CODES@) is Some,
        CodeRecord::lookup("9"@, CLOUD_ATTRIBURE_CODES@) is Some,
        CodeRecord::lookup("999999"@, VERTICAL_DATUM_ATTRIBUTE_CODES@) is Some,
        CodeRecord::lookup("99"@, LOW_CLOUD_GENUS_CODES@) is Some,
        CodeRecord::lookup("99"@, MID_CLOUD_GENUS_CODES@) is Some,
        CodeRecord::lookup("99"@, HIGH_CLOUD_GENUS_CODES@) is Some,
        CodeRecord::lookup("99"@, TOP_CODES@) is Some,
        CodeRecord::lookup("9"@, CHARACTERISTIC_CODES@) is Some,
        CodeRecord::lookup("9"@, QUALITY_FLAG_CODES@) is Some,
        CodeRecord::lookup("99"@, DATA_FLAG_CODES@) is Some,
        CodeRecord::lookup("99"@, MOD_GLOBAL_HORIZONTAL_SOURCE_FLAGS@) is Some,
{
    reveal_strlit("9");
    reveal_strlit("99");
    reveal_strlit("999999");
    assert(COVERAGE_CODES@[20].0@ == "99"@);
    lemma_sentinel_is_listed(COVERAGE_CODES@, 20, "99"@);
    assert(COVERAGE_CODES@[28].0@ == "9"@);
    lemma_sentinel_is_listed(COVERAGE_CODES@, 28, "9"@);
    assert(CLOUD_TYPE_CODES@[24].0@ == "99"@);
    lemma_sentinel_is_listed(CLOUD_TYPE_CODES@, 24, "99"@);
    assert(CLOUD_ATTRIBURE_CODES@[8].0@ == "9"@);
    lemma_sentinel_is_listed(CLOUD_ATTRIBURE_CODES@, 8, "9"@);
    assert(VERTICAL_DATUM_ATTRIBUTE_CODES@[44].0@ == "999999"@);
    lemma_sentinel_is_listed(VERTICAL_DATUM_ATTRIBUTE_CODES@, 44, "999999"@);
    assert(LOW_CLOUD_GENUS_CODES@[10].0@ == "99"@);
    lemma_sentinel_is_listed(LOW_CLOUD_GENUS_CODES@, 10, "99"@);
    assert(MID_CLOUD_GENUS_CODES@[10].0@ == "99"@);
    lemma_sentinel_is_listed(MID_CLOUD_GENUS_CODES@, 10, "99"@);
    assert(HIGH_CLOUD_GENUS_CODES@[10].0@ == "99"@);
    lemma_sentinel_is_listed(HIGH_CLOUD_GENUS_CODES@, 10, "99"@);
    assert(TOP_CODES@[10].0@ == "99"@);
    lemma_sentinel_is_listed(TOP_CODES@, 10, "99"@);
    assert(CHARACTERISTIC_CODES@[4].0@ == "9"@);
    lemma_sentinel_is_listed(CHARACTERISTIC_CODES@, 4, "9"@);
    assert(QUALITY_FLAG_CODES@[9].0@ == "9"@);
    lemma_sentinel_is_listed(QUALITY_FLAG_CODES@, 9, "9"@);
    assert(DATA_FLAG_CODES@[99].0@ == "99"@);
    lemma_sentinel_is_listed(DATA_FLAG_CODES@, 99, "99"@);
    assert(MOD_GLOBAL_HORIZONTAL_SOURCE_FLAGS@[3].0@ == "99"@);
    lemma_sentinel_is_listed(MOD_GLOBAL_HORIZONTAL_SOURCE_FLAGS@, 3, "99"@);
}

} // verus!
