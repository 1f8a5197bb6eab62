//! The field groups that a record keeps in its optional slots: which shape
//! each named column has, and the groups of all shapes as one type.

use crate::fields::optional::climate_reference_network::CBX;
use crate::fields::optional::climate_reference_network::CFX;
use crate::fields::optional::climate_reference_network::CGX;
use crate::fields::optional::climate_reference_network::CHX;
use crate::fields::optional::climate_reference_network::CI1;
use crate::fields::optional::climate_reference_network::CN1;
use crate::fields::optional::climate_reference_network::CN2;
use crate::fields::optional::climate_reference_network::CN3;
use crate::fields::optional::climate_reference_network::CN4;
use crate::fields::optional::cloud_solar::GAX;
use crate::fields::optional::cloud_solar::GDX;
use crate::fields::optional::cloud_solar::GE1;
use crate::fields::optional::cloud_solar::GF1;
use crate::fields::optional::cloud_solar::GGX;
use crate::fields::optional::cloud_solar::GH1;
use crate::fields::optional::cloud_solar::GJ1;
use crate::fields::optional::cloud_solar::GK1;
use crate::fields::optional::cloud_solar::GL1;
use crate::fields::optional::cloud_solar::GM1;
use crate::fields::optional::cloud_solar::GN1;
use crate::fields::optional::cloud_solar::GO1;
use crate::fields::optional::cloud_solar::GP1;
use crate::fields::optional::cloud_solar::GQ1;
use crate::fields::optional::cloud_solar::GR1;
use crate::fields::optional::network_metadata::CO1;
use crate::fields::optional::network_metadata::COX;
use crate::fields::optional::network_metadata::CR1;
use crate::fields::optional::network_metadata::CTX;
use crate::fields::optional::network_metadata::CUX;
use crate::fields::optional::network_metadata::CVX;
use crate::fields::optional::network_metadata::CW1;
use crate::fields::optional::network_metadata::CXX;
use crate::fields::optional::precipitation::AAX;
use crate::fields::optional::precipitation::AB1;
use crate::fields::optional::precipitation::AC1;
use crate::fields::optional::precipitation::AD1;
use crate::fields::optional::precipitation::AE1;
use crate::fields::optional::precipitation::AG1;
use crate::fields::optional::precipitation::AHX;
use crate::fields::optional::precipitation::AIX;
use crate::fields::optional::precipitation::AJ1;
use crate::fields::optional::precipitation::AK1;
use crate::fields::optional::precipitation::ALX;
use crate::fields::optional::precipitation::AM1;
use crate::fields::optional::precipitation::AN1;
use crate::fields::optional::precipitation::AOX;
use crate::fields::optional::runway_visual_range::ED1;
use crate::fields::optional::weather_occurrence::ATX;
use crate::fields::optional::weather_occurrence::AUX;
use crate::fields::optional::weather_occurrence::AWX;
use crate::fields::optional::weather_occurrence::AXX;
use crate::fields::optional::weather_occurrence::AYX;
use crate::fields::optional::weather_occurrence::AZX;
use crate::fields::optional::weather_occurrence::MWX;
use crate::fields::schema::yields;
use crate::fields::schema::Cell;
use crate::fields::schema::FieldError;
use crate::fields::schema::FieldGroup;
use crate::fields::schema::Outcome;
use crate::util::split_commas;
use vstd::prelude::*;

verus! {

/// The shapes that the optional columns of a row come in. Several columns
/// share one shape and differ only in their names.
#[derive(Clone, Copy, Debug, PartialEq, Eq)]
pub enum Shape {
    AAX,
    AB1,
    AC1,
    AD1,
    AE1,
    AG1,
    AHX,
    AIX,
    AJ1,
    AK1,
    ALX,
    AM1,
    AN1,
    AOX,
    ATX,
    AUX,
    AWX,
    AXX,
    AYX,
    AZX,
    MWX,
    CBX,
    CFX,
    CGX,
    CHX,
    CI1,
    CN1,
    CN2,
    CN3,
    CN4,
    CO1,
    COX,
    CR1,
    CTX,
    CUX,
    CVX,
    CW1,
    CXX,
    ED1,
    GAX,
    GDX,
    GE1,
    GF1,
    GGX,
    GH1,
    GJ1,
    GK1,
    GL1,
    GM1,
    GN1,
    GO1,
    GP1,
    GQ1,
    GR1,
}

/// A decoded field group of any of the optional shapes.
#[derive(Debug, PartialEq)]
pub enum OptionalGroup {
    AAX(AAX),
    AB1(AB1),
    AC1(AC1),
    AD1(AD1),
    AE1(AE1),
    AG1(AG1),
    AHX(AHX),
    AIX(AIX),
    AJ1(AJ1),
    AK1(AK1),
    ALX(ALX),
    AM1(AM1),
    AN1(AN1),
    AOX(AOX),
    ATX(ATX),
    AUX(AUX),
    AWX(AWX),
    AXX(AXX),
    AYX(AYX),
    AZX(AZX),
    MWX(MWX),
    CBX(CBX),
    CFX(CFX),
    CGX(CGX),
    CHX(CHX),
    CI1(CI1),
    CN1(CN1),
    CN2(CN2),
    CN3(CN3),
    CN4(CN4),
    CO1(CO1),
    COX(COX),
    CR1(CR1),
    CTX(CTX),
    CUX(CUX),
    CVX(CVX),
    CW1(CW1),
    CXX(CXX),
    ED1(ED1),
    GAX(GAX),
    GDX(GDX),
    GE1(GE1),
    GF1(GF1),
    GGX(GGX),
    GH1(GH1),
    GJ1(GJ1),
    GK1(GK1),
    GL1(GL1),
    GM1(GM1),
    GN1(GN1),
    GO1(GO1),
    GP1(GP1),
    GQ1(GQ1),
    GR1(GR1),
}

impl View for OptionalGroup {
    type V = Seq<Cell>;

    open spec fn view(&self) -> Seq<Cell> {
        match self {
            OptionalGroup::AAX(g) => g@,
            OptionalGroup::AB1(g) => g@,
            OptionalGroup::AC1(g) => g@,
            OptionalGroup::AD1(g) => g@,
            OptionalGroup::AE1(g) => g@,
            OptionalGroup::AG1(g) => g@,
            OptionalGroup::AHX(g) => g@,
            OptionalGroup::AIX(g) => g@,
            OptionalGroup::AJ1(g) => g@,
            OptionalGroup::AK1(g) => g@,
            OptionalGroup::ALX(g) => g@,
            OptionalGroup::AM1(g) => g@,
            OptionalGroup::AN1(g) => g@,
            OptionalGroup::AOX(g) => g@,
            OptionalGroup::ATX(g) => g@,
            OptionalGroup::AUX(g) => g@,
            OptionalGroup::AWX(g) => g@,
            OptionalGroup::AXX(g) => g@,
            OptionalGroup::AYX(g) => g@,
            OptionalGroup::AZX(g) => g@,
            OptionalGroup::MWX(g) => g@,
            OptionalGroup::CBX(g) => g@,
            OptionalGroup::CFX(g) => g@,
            OptionalGroup::CGX(g) => g@,
            OptionalGroup::CHX(g) => g@,
            OptionalGroup::CI1(g) => g@,
            OptionalGroup::CN1(g) => g@,
            OptionalGroup::CN2(g) => g@,
            OptionalGroup::CN3(g) => g@,
            OptionalGroup::CN4(g) => g@,
            OptionalGroup::CO1(g) => g@,
            OptionalGroup::COX(g) => g@,
            OptionalGroup::CR1(g) => g@,
            OptionalGroup::CTX(g) => g@,
            OptionalGroup::CUX(g) => g@,
            OptionalGroup::CVX(g) => g@,
            OptionalGroup::CW1(g) => g@,
            OptionalGroup::CXX(g) => g@,
            OptionalGroup::ED1(g) => g@,
            OptionalGroup::GAX(g) => g@,
            OptionalGroup::GDX(g) => g@,
            OptionalGroup::GE1(g) => g@,
            OptionalGroup::GF1(g) => g@,
            OptionalGroup::GGX(g) => g@,
            OptionalGroup::GH1(g) => g@,
            OptionalGroup::GJ1(g) => g@,
            OptionalGroup::GK1(g) => g@,
            OptionalGroup::GL1(g) => g@,
            OptionalGroup::GM1(g) => g@,
            OptionalGroup::GN1(g) => g@,
            OptionalGroup::GO1(g) => g@,
            OptionalGroup::GP1(g) => g@,
            OptionalGroup::GQ1(g) => g@,
            OptionalGroup::GR1(g) => g@,
        }
    }
}

impl OptionalGroup {
    /// The shape of the group.
    pub open spec fn shape(&self) -> Shape {
        match self {
            OptionalGroup::AAX(_) => Shape::AAX,
            OptionalGroup::AB1(_) => Shape::AB1,
            OptionalGroup::AC1(_) => Shape::AC1,
            OptionalGroup::AD1(_) => Shape::AD1,
            OptionalGroup::AE1(_) => Shape::AE1,
            OptionalGroup::AG1(_) => Shape::AG1,
            OptionalGroup::AHX(_) => Shape::AHX,
            OptionalGroup::AIX(_) => Shape::AIX,
            OptionalGroup::AJ1(_) => Shape::AJ1,
            OptionalGroup::AK1(_) => Shape::AK1,
            OptionalGroup::ALX(_) => Shape::ALX,
            OptionalGroup::AM1(_) => Shape::AM1,
            OptionalGroup::AN1(_) => Shape::AN1,
            OptionalGroup::AOX(_) => Shape::AOX,
            OptionalGroup::ATX(_) => Shape::ATX,
            OptionalGroup::AUX(_) => Shape::AUX,
            OptionalGroup::AWX(_) => Shape::AWX,
            OptionalGroup::AXX(_) => Shape::AXX,
            OptionalGroup::AYX(_) => Shape::AYX,
            OptionalGroup::AZX(_) => Shape::AZX,
            OptionalGroup::MWX(_) => Shape::MWX,
            OptionalGroup::CBX(_) => Shape::CBX,
            OptionalGroup::CFX(_) => Shape::CFX,
            OptionalGroup::CGX(_) => Shape::CGX,
            OptionalGroup::CHX(_) => Shape::CHX,
            OptionalGroup::CI1(_) => Shape::CI1,
            OptionalGroup::CN1(_) => Shape::CN1,
            OptionalGroup::CN2(_) => Shape::CN2,
            OptionalGroup::CN3(_) => Shape::CN3,
            OptionalGroup::CN4(_) => Shape::CN4,
            OptionalGroup::CO1(_) => Shape::CO1,
            OptionalGroup::COX(_) => Shape::COX,
            OptionalGroup::CR1(_) => Shape::CR1,
            OptionalGroup::CTX(_) => Shape::CTX,
            OptionalGroup::CUX(_) => Shape::CUX,
            OptionalGroup::CVX(_) => Shape::CVX,
            OptionalGroup::CW1(_) => Shape::CW1,
            OptionalGroup::CXX(_) => Shape::CXX,
            OptionalGroup::ED1(_) => Shape::ED1,
            OptionalGroup::GAX(_) => Shape::GAX,
            OptionalGroup::GDX(_) => Shape::GDX,
            OptionalGroup::GE1(_) => Shape::GE1,
            OptionalGroup::GF1(_) => Shape::GF1,
            OptionalGroup::GGX(_) => Shape::GGX,
            OptionalGroup::GH1(_) => Shape::GH1,
            OptionalGroup::GJ1(_) => Shape::GJ1,
            OptionalGroup::GK1(_) => Shape::GK1,
            OptionalGroup::GL1(_) => Shape::GL1,
            OptionalGroup::GM1(_) => Shape::GM1,
            OptionalGroup::GN1(_) => Shape::GN1,
            OptionalGroup::GO1(_) => Shape::GO1,
            OptionalGroup::GP1(_) => Shape::GP1,
            OptionalGroup::GQ1(_) => Shape::GQ1,
            OptionalGroup::GR1(_) => Shape::GR1,
        }
    }
}

/// The optional columns of a row, in the order of the record: the name of
/// each and the shape of the group that it holds.
pub const SLOTS: [(&'static str, Shape); 140] = [
    ("AA1", Shape::AAX),
    ("AA2", Shape::AAX),
    ("AA3", Shape::AAX),
    ("AA4", Shape::AAX),
    ("AB1", Shape::AB1),
    ("AC1", Shape::AC1),
    ("AD1", Shape::AD1),
    ("AE1", Shape::AE1),
    ("AG1", Shape::AG1),
    ("AH1", Shape::AHX),
    ("AH2", Shape::AHX),
    ("AH3", Shape::AHX),
    ("AH4", Shape::AHX),
    ("AH5", Shape::AHX),
    ("AH6", Shape::AHX),
    ("AI1", Shape::AIX),
    ("AI2", Shape::AIX),
    ("AI3", Shape::AIX),
    ("AI4", Shape::AIX),
    ("AI5", Shape::AIX),
    ("AI6", Shape::AIX),
    ("AJ1", Shape::AJ1),
    ("AK1", Shape::AK1),
    ("AL1", Shape::ALX),
    ("AL2", Shape::ALX),
    ("AL3", Shape::ALX),
    ("AL4", Shape::ALX),
    ("AM1", Shape::AM1),
    ("AN1", Shape::AN1),
    ("AO1", Shape::AOX),
    ("AO2", Shape::AOX),
    ("AO3", Shape::AOX),
    ("AO4", Shape::AOX),
    ("AT1", Shape::ATX),
    ("AT2", Shape::ATX),
    ("AT3", Shape::ATX),
    ("AT4", Shape::ATX),
    ("AT5", Shape::ATX),
    ("AT6", Shape::ATX),
    ("AT7", Shape::ATX),
    ("AT8", Shape::ATX),
    ("AU1", Shape::AUX),
    ("AU2", Shape::AUX),
    ("AU3", Shape::AUX),
    ("AU4", Shape::AUX),
    ("AU5", Shape::AUX),
    ("AU6", Shape::AUX),
    ("AU7", Shape::AUX),
    ("AU8", Shape::AUX),
    ("AU9", Shape::AUX),
    ("AW1", Shape::AWX),
    ("AW2", Shape::AWX),
    ("AW3", Shape::AWX),
    ("AW4", Shape::AWX),
    ("AX1", Shape::AXX),
    ("AX2", Shape::AXX),
    ("AX3", Shape::AXX),
    ("AX4", Shape::AXX),
    ("AX5", Shape::AXX),
    ("AX6", Shape::AXX),
    ("AY1", Shape::AYX),
    ("AY2", Shape::AYX),
    ("AZ1", Shape::AZX),
    ("AZ2", Shape::AZX),
    ("MW1", Shape::MWX),
    ("MW2", Shape::MWX),
    ("MW3", Shape::MWX),
    ("MW4", Shape::MWX),
    ("MW5", Shape::MWX),
    ("MW6", Shape::MWX),
    ("MW7", Shape::MWX),
    ("CB1", Shape::CBX),
    ("CB2", Shape::CBX),
    ("CF1", Shape::CFX),
    ("CF2", Shape::CFX),
    ("CF3", Shape::CFX),
    ("CG1", Shape::CGX),
    ("CG2", Shape::CGX),
    ("CG3", Shape::CGX),
    ("CH1", Shape::CHX),
    ("CH2", Shape::CHX),
    ("CI1", Shape::CI1),
    ("CN1", Shape::CN1),
    ("CN2", Shape::CN2),
    ("CN3", Shape::CN3),
    ("CN4", Shape::CN4),
    ("CO1", Shape::CO1),
    ("CO2", Shape::COX),
    ("CO3", Shape::COX),
    ("CO4", Shape::COX),
    ("CO5", Shape::COX),
    ("CO6", Shape::COX),
    ("CO7", Shape::COX),
    ("CO8", Shape::COX),
    ("CO9", Shape::COX),
    ("CR1", Shape::CR1),
    ("CT1", Shape::CTX),
    ("CT2", Shape::CTX),
    ("CT3", Shape::CTX),
    ("CU1", Shape::CUX),
    ("CU2", Shape::CUX),
    ("CU3", Shape::CUX),
    ("CV1", Shape::CVX),
    ("CV2", Shape::CVX),
    ("CV3", Shape::CVX),
    ("CW1", Shape::CW1),
    ("CX1", Shape::CXX),
    ("CX2", Shape::CXX),
    ("CX3", Shape::CXX),
    ("ED1", Shape::ED1),
    ("GA1", Shape::GAX),
    ("GA2", Shape::GAX),
    ("GA3", Shape::GAX),
    ("GA4", Shape::GAX),
    ("GA5", Shape::GAX),
    ("GA6", Shape::GAX),
    ("GD1", Shape::GDX),
    ("GD2", Shape::GDX),
    ("GD3", Shape::GDX),
    ("GD4", Shape::GDX),
    ("GD5", Shape::GDX),
    ("GD6", Shape::GDX),
    ("GE1", Shape::GE1),
    ("GF1", Shape::GF1),
    ("GG1", Shape::GGX),
    ("GG2", Shape::GGX),
    ("GG3", Shape::GGX),
    ("GG4", Shape::GGX),
    ("GG5", Shape::GGX),
    ("GG6", Shape::GGX),
    ("GH1", Shape::GH1),
    ("GJ1", Shape::GJ1),
    ("GK1", Shape::GK1),
    ("GL1", Shape::GL1),
    ("GM1", Shape::GM1),
    ("GN1", Shape::GN1),
    ("GO1", Shape::GO1),
    ("GP1", Shape::GP1),
    ("GQ1", Shape::GQ1),
    ("GR1", Shape::GR1),
];

/// What the sub-tokens of a group of the given shape decode to, member by
/// member.
pub open spec fn schema_of(shape: Shape, parts: Seq<Seq<char>>) -> Seq<Outcome> {
    match shape {
        Shape::AAX => AAX::schema(parts),
        Shape::AB1 => AB1::schema(parts),
        Shape::AC1 => AC1::schema(parts),
        Shape::AD1 => AD1::schema(parts),
        Shape::AE1 => AE1::schema(parts),
        Shape::AG1 => AG1::schema(parts),
        Shape::AHX => AHX::schema(parts),
        Shape::AIX => AIX::schema(parts),
        Shape::AJ1 => AJ1::schema(parts),
        Shape::AK1 => AK1::schema(parts),
        Shape::ALX => ALX::schema(parts),
        Shape::AM1 => AM1::schema(parts),
        Shape::AN1 => AN1::schema(parts),
        Shape::AOX => AOX::schema(parts),
        Shape::ATX => ATX::schema(parts),
        Shape::AUX => AUX::schema(parts),
        Shape::AWX => AWX::schema(parts),
        Shape::AXX => AXX::schema(parts),
        Shape::AYX => AYX::schema(parts),
        Shape::AZX => AZX::schema(parts),
        Shape::MWX => MWX::schema(parts),
        Shape::CBX => CBX::schema(parts),
        Shape::CFX => CFX::schema(parts),
        Shape::CGX => CGX::schema(parts),
        Shape::CHX => CHX::schema(parts),
        Shape::CI1 => CI1::schema(parts),
        Shape::CN1 => CN1::schema(parts),
        Shape::CN2 => CN2::schema(parts),
        Shape::CN3 => CN3::schema(parts),
        Shape::CN4 => CN4::schema(parts),
        Shape::CO1 => CO1::schema(parts),
        Shape::COX => COX::schema(parts),
        Shape::CR1 => CR1::schema(parts),
        Shape::CTX => CTX::schema(parts),
        Shape::CUX => CUX::schema(parts),
        Shape::CVX => CVX::schema(parts),
        Shape::CW1 => CW1::schema(parts),
        Shape::CXX => CXX::schema(parts),
        Shape::ED1 => ED1::schema(parts),
        Shape::GAX => GAX::schema(parts),
        Shape::GDX => GDX::schema(parts),
        Shape::GE1 => GE1::schema(parts),
        Shape::GF1 => GF1::schema(parts),
        Shape::GGX => GGX::schema(parts),
        Shape::GH1 => GH1::schema(parts),
        Shape::GJ1 => GJ1::schema(parts),
        Shape::GK1 => GK1::schema(parts),
        Shape::GL1 => GL1::schema(parts),
        Shape::GM1 => GM1::schema(parts),
        Shape::GN1 => GN1::schema(parts),
        Shape::GO1 => GO1::schema(parts),
        Shape::GP1 => GP1::schema(parts),
        Shape::GQ1 => GQ1::schema(parts),
        Shape::GR1 => GR1::schema(parts),
    }
}

/// Decodes a packed group under the schema of its shape. A failure holds the
/// raw text of the group.
pub fn decode_group(shape: Shape, s: &str) -> (r: Result<OptionalGroup, FieldError>)
    ensures
        yields(r, schema_of(shape, split_commas(s@))),
        r matches Ok(g) ==> g.shape() == shape,
        r matches Err(e) ==> e.text@ == s@,
{
    match shape {
        Shape::AAX => Ok(OptionalGroup::AAX(AAX::from_str(s)?)),
        Shape::AB1 => Ok(OptionalGroup::AB1(AB1::from_str(s)?)),
        Shape::AC1 => Ok(OptionalGroup::AC1(AC1::from_str(s)?)),
        Shape::AD1 => Ok(OptionalGroup::AD1(AD1::from_str(s)?)),
        Shape::AE1 => Ok(OptionalGroup::AE1(AE1::from_str(s)?)),
        Shape::AG1 => Ok(OptionalGroup::AG1(AG1::from_str(s)?)),
        Shape::AHX => Ok(OptionalGroup::AHX(AHX::from_str(s)?)),
        Shape::AIX => Ok(OptionalGroup::AIX(AIX::from_str(s)?)),
        Shape::AJ1 => Ok(OptionalGroup::AJ1(AJ1::from_str(s)?)),
        Shape::AK1 => Ok(OptionalGroup::AK1(AK1::from_str(s)?)),
        Shape::ALX => Ok(OptionalGroup::ALX(ALX::from_str(s)?)),
        Shape::AM1 => Ok(OptionalGroup::AM1(AM1::from_str(s)?)),
        Shape::AN1 => Ok(OptionalGroup::AN1(AN1::from_str(s)?)),
        Shape::AOX => Ok(OptionalGroup::AOX(AOX::from_str(s)?)),
        Shape::ATX => Ok(OptionalGroup::ATX(ATX::from_str(s)?)),
        Shape::AUX => Ok(OptionalGroup::AUX(AUX::from_str(s)?)),
        Shape::AWX => Ok(OptionalGroup::AWX(AWX::from_str(s)?)),
        Shape::AXX => Ok(OptionalGroup::AXX(AXX::from_str(s)?)),
        Shape::AYX => Ok(OptionalGroup::AYX(AYX::from_str(s)?)),
        Shape::AZX => Ok(OptionalGroup::AZX(AZX::from_str(s)?)),
        Shape::MWX => Ok(OptionalGroup::MWX(MWX::from_str(s)?)),
        Shape::CBX => Ok(OptionalGroup::CBX(CBX::from_str(s)?)),
        Shape::CFX => Ok(OptionalGroup::CFX(CFX::from_str(s)?)),
        Shape::CGX => Ok(OptionalGroup::CGX(CGX::from_str(s)?)),
        Shape::CHX => Ok(OptionalGroup::CHX(CHX::from_str(s)?)),
        Shape::CI1 => Ok(OptionalGroup::CI1(CI1::from_str(s)?)),
        Shape::CN1 => Ok(OptionalGroup::CN1(CN1::from_str(s)?)),
        Shape::CN2 => Ok(OptionalGroup::CN2(CN2::from_str(s)?)),
        Shape::CN3 => Ok(OptionalGroup::CN3(CN3::from_str(s)?)),
        Shape::CN4 => Ok(OptionalGroup::CN4(CN4::from_str(s)?)),
        Shape::CO1 => Ok(OptionalGroup::CO1(CO1::from_str(s)?)),
        Shape::COX => Ok(OptionalGroup::COX(COX::from_str(s)?)),
        Shape::CR1 => Ok(OptionalGroup::CR1(CR1::from_str(s)?)),
        Shape::CTX => Ok(OptionalGroup::CTX(CTX::from_str(s)?)),
        Shape::CUX => Ok(OptionalGroup::CUX(CUX::from_str(s)?)),
        Shape::CVX => Ok(OptionalGroup::CVX(CVX::from_str(s)?)),
        Shape::CW1 => Ok(OptionalGroup::CW1(CW1::from_str(s)?)),
        Shape::CXX => Ok(OptionalGroup::CXX(CXX::from_str(s)?)),
        Shape::ED1 => Ok(OptionalGroup::ED1(ED1::from_str(s)?)),
        Shape::GAX => Ok(OptionalGroup::GAX(GAX::from_str(s)?)),
        Shape::GDX => Ok(OptionalGroup::GDX(GDX::from_str(s)?)),
        Shape::GE1 => Ok(OptionalGroup::GE1(GE1::from_str(s)?)),
        Shape::GF1 => Ok(OptionalGroup::GF1(GF1::from_str(s)?)),
        Shape::GGX => Ok(OptionalGroup::GGX(GGX::from_str(s)?)),
        Shape::GH1 => Ok(OptionalGroup::GH1(GH1::from_str(s)?)),
        Shape::GJ1 => Ok(OptionalGroup::GJ1(GJ1::from_str(s)?)),
        Shape::GK1 => Ok(OptionalGroup::GK1(GK1::from_str(s)?)),
        Shape::GL1 => Ok(OptionalGroup::GL1(GL1::from_str(s)?)),
        Shape::GM1 => Ok(OptionalGroup::GM1(GM1::from_str(s)?)),
        Shape::GN1 => Ok(OptionalGroup::GN1(GN1::from_str(s)?)),
        Shape::GO1 => Ok(OptionalGroup::GO1(GO1::from_str(s)?)),
        Shape::GP1 => Ok(OptionalGroup::GP1(GP1::from_str(s)?)),
        Shape::GQ1 => Ok(OptionalGroup::GQ1(GQ1::from_str(s)?)),
        Shape::GR1 => Ok(OptionalGroup::GR1(GR1::from_str(s)?)),
    }
}

} // verus!
