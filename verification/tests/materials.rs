use hvacrux::materials::{RoofMaterial, WallMaterial, WindowMaterial};

#[test]
fn wall_material_u_values() {
    assert_eq!(WallMaterial::WoodFrameInsulated16Inch.u_value(), 64);
    assert_eq!(WallMaterial::WoodFrameInsulated24Inch.u_value(), 45);
    assert_eq!(WallMaterial::MasonryVeneer4InchFaceBrick.u_value(), 78);
    assert_eq!(WallMaterial::InsulatedConcreteMasonry8Inch.u_value(), 51);
    assert_eq!(WallMaterial::StructuralInsulatedPanel.u_value(), 37);
}

#[test]
fn roof_material_u_values() {
    assert_eq!(RoofMaterial::AsphaltShingles.u_value(), 35);
    assert_eq!(RoofMaterial::MetalRoof.u_value(), 28);
    assert_eq!(RoofMaterial::TileRoof.u_value(), 40);
    assert_eq!(RoofMaterial::BuiltUpRoofingInsulatedDeck.u_value(), 33);
    assert_eq!(RoofMaterial::InsulatedStructuralPanel.u_value(), 37);
}

#[test]
fn window_material_u_values() {
    assert_eq!(WindowMaterial::SinglePaneGlass.u_value(), 900);
    assert_eq!(WindowMaterial::DoublePaneGlassAirFilled.u_value(), 350);
    assert_eq!(WindowMaterial::DoublePaneGlassArgonFilled.u_value(), 300);
    assert_eq!(WindowMaterial::TriplePaneGlassArgonFilled.u_value(), 200);
    assert_eq!(WindowMaterial::LowEDoublePane.u_value(), 250);
}
