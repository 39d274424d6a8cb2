//! Catalogs of construction materials and their thermal transmittance.
//!
//! Each material variant carries a fixed U-value, stored in thousandths of a
//! W/(m^2*K) so that it is an exact integer.

use vstd::prelude::*;

verus! {

/// Exterior wall constructions.
#[derive(Debug, PartialEq, Eq, Structural)]
pub enum WallMaterial {
    WoodFrameInsulated16Inch,
    WoodFrameInsulated24Inch,
    MasonryVeneer4InchFaceBrick,
    InsulatedConcreteMasonry8Inch,
    StructuralInsulatedPanel,
}

/// Roof constructions.
#[derive(Debug, PartialEq, Eq, Structural)]
pub enum RoofMaterial {
    AsphaltShingles,
    MetalRoof,
    TileRoof,
    BuiltUpRoofingInsulatedDeck,
    InsulatedStructuralPanel,
}

/// Window glazing assemblies.
#[derive(Debug, PartialEq, Eq, Structural)]
pub enum WindowMaterial {
    SinglePaneGlass,
    DoublePaneGlassAirFilled,
    DoublePaneGlassArgonFilled,
    TriplePaneGlassArgonFilled,
    LowEDoublePane,
}

impl WallMaterial {
    /// U-value of the wall construction, in thousandths of a W/(m^2*K).
    pub open spec fn spec_u_value(self) -> i64 {
        match self {
            WallMaterial::WoodFrameInsulated16Inch => 64,
            WallMaterial::WoodFrameInsulated24Inch => 45,
            WallMaterial::MasonryVeneer4InchFaceBrick => 78,
            WallMaterial::InsulatedConcreteMasonry8Inch => 51,
            WallMaterial::StructuralInsulatedPanel => 37,
        }
    }

    /// U-value of the wall construction, in thousandths of a W/(m^2*K).
    pub fn u_value(&self) -> (r: i64)
        ensures
            r == self.spec_u_value(),
    {
        match self {
            WallMaterial::WoodFrameInsulated16Inch => 64,
            WallMaterial::WoodFrameInsulated24Inch => 45,
            WallMaterial::MasonryVeneer4InchFaceBrick => 78,
            WallMaterial::InsulatedConcreteMasonry8Inch => 51,
            WallMaterial::StructuralInsulatedPanel => 37,
        }
    }
}

impl RoofMaterial {
    /// U-value of the roof construction, in thousandths of a W/(m^2*K).
    pub open spec fn spec_u_value(self) -> i64 {
        match self {
            RoofMaterial::AsphaltShingles => 35,
            RoofMaterial::MetalRoof => 28,
            RoofMaterial::TileRoof => 40,
            RoofMaterial::BuiltUpRoofingInsulatedDeck => 33,
            RoofMaterial::InsulatedStructuralPanel => 37,
        }
    }

    /// U-value of the roof construction, in thousandths of a W/(m^2*K).
    pub fn u_value(&self) -> (r: i64)
        ensures
            r == self.spec_u_value(),
    {
        match self {
            RoofMaterial::AsphaltShingles => 35,
            RoofMaterial::MetalRoof => 28,
            RoofMaterial::TileRoof => 40,
            RoofMaterial::BuiltUpRoofingInsulatedDeck => 33,
            RoofMaterial::InsulatedStructuralPanel => 37,
        }
    }
}

impl WindowMaterial {
    /// U-value of the glazing assembly, in thousandths of a W/(m^2*K).
    pub open spec fn spec_u_value(self) -> i64 {
        match self {
            WindowMaterial::SinglePaneGlass => 900,
            WindowMaterial::DoublePaneGlassAirFilled => 350,
            WindowMaterial::DoublePaneGlassArgonFilled => 300,
            WindowMaterial::TriplePaneGlassArgonFilled => 200,
            WindowMaterial::LowEDoublePane => 250,
        }
    }

    /// U-value of the glazing assembly, in thousandths of a W/(m^2*K).
    pub fn u_value(&self) -> (r: i64)
        ensures
            r == self.spec_u_value(),
    {
        match self {
            WindowMaterial::SinglePaneGlass => 900,
            WindowMaterial::DoublePaneGlassAirFilled => 350,
            WindowMaterial::DoublePaneGlassArgonFilled => 300,
            WindowMaterial::TriplePaneGlassArgonFilled => 200,
            WindowMaterial::LowEDoublePane => 250,
        }
    }
}

} // verus!
