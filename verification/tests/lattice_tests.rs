use fluid_webgpu::lattice::{
    lattice_cell_defined, lattice_defined_everywhere, lattice_materials, setup_lattice, setup_open_geometry, BOUNCE_BACK_WALL, BULK_FLUID,
    INFLOW, LID_DRIVEN_WALL, OUTFLOW,
};
use fluid_webgpu::obstacle_row::f32_quotient_row;
use fluid_webgpu::FlowType;

#[test]
fn channel_walls_inflow_outflow() {
    let (nx, ny) = (200, 150);
    assert_eq!(setup_open_geometry(5, 0, nx, ny), BOUNCE_BACK_WALL);
    assert_eq!(setup_open_geometry(5, 149, nx, ny), BOUNCE_BACK_WALL);
    assert_eq!(setup_open_geometry(0, 0, nx, ny), BOUNCE_BACK_WALL);
    assert_eq!(setup_open_geometry(0, 10, nx, ny), INFLOW);
    assert_eq!(setup_open_geometry(199, 10, nx, ny), OUTFLOW);
    assert_eq!(setup_open_geometry(10, 10, nx, ny), BULK_FLUID);
}

#[test]
fn channel_obstacles_on_200_by_150() {
    let (nx, ny) = (200, 150);
    // first obstacle: columns 51..=61, rows 68..=82
    assert_eq!(setup_open_geometry(51, 68, nx, ny), BOUNCE_BACK_WALL);
    assert_eq!(setup_open_geometry(61, 82, nx, ny), BOUNCE_BACK_WALL);
    assert_eq!(setup_open_geometry(50, 75, nx, ny), BULK_FLUID);
    assert_eq!(setup_open_geometry(62, 75, nx, ny), BULK_FLUID);
    assert_eq!(setup_open_geometry(55, 67, nx, ny), BULK_FLUID);
    assert_eq!(setup_open_geometry(55, 83, nx, ny), BULK_FLUID);
    // second obstacle: columns 101..=111, rows 32..=42
    assert_eq!(setup_open_geometry(101, 32, nx, ny), BOUNCE_BACK_WALL);
    assert_eq!(setup_open_geometry(111, 42, nx, ny), BOUNCE_BACK_WALL);
    assert_eq!(setup_open_geometry(105, 31, nx, ny), BULK_FLUID);
    assert_eq!(setup_open_geometry(105, 43, nx, ny), BULK_FLUID);
    // third obstacle: rows 115..=125 around 150 / 1.25 = 120
    assert_eq!(setup_open_geometry(105, 115, nx, ny), BOUNCE_BACK_WALL);
    assert_eq!(setup_open_geometry(105, 125, nx, ny), BOUNCE_BACK_WALL);
    assert_eq!(setup_open_geometry(105, 114, nx, ny), BULK_FLUID);
    assert_eq!(setup_open_geometry(105, 126, nx, ny), BULK_FLUID);
    assert_eq!(setup_open_geometry(100, 120, nx, ny), BULK_FLUID);
    assert_eq!(setup_open_geometry(112, 120, nx, ny), BULK_FLUID);
}

/// Row counts to sample: every count up to 10 000, then sparser ones up to
/// the largest `u32`.
fn sampled_row_counts() -> Vec<u32> {
    let mut counts = vec![];
    let mut ny: u64 = 0;
    while ny <= u32::MAX as u64 {
        counts.push(ny as u32);
        ny += if ny < 10_000 {
            1
        } else if ny < 10_000_000 {
            997
        } else {
            1_000_003
        };
    }
    counts.push(u32::MAX);
    counts.push(5_242_880);
    counts.push(5_242_881);
    counts.push(16_777_216);
    counts.push(16_777_217);
    counts
}

#[test]
fn obstacle_row_is_the_float_quotient() {
    for ny in sampled_row_counts() {
        assert_eq!(f32_quotient_row(ny), (ny as f32 / 1.25) as u32, "ny = {}", ny);
    }
}

/// The third obstacle sits around the single-precision quotient `ny / 1.25`,
/// truncated, whatever the row count.
#[test]
fn third_obstacle_row_matches_float_quotient() {
    let nx: u32 = 200;
    for ny in sampled_row_counts() {
        if ny < 30 {
            continue;
        }
        let row = (ny as f32 / 1.25) as u32;
        let x = nx / 2 + 1;
        // just inside and just outside the third obstacle, away from the others
        if row + 6 < ny - 1 && row > ny / 4 + 12 {
            assert_eq!(setup_open_geometry(x, row + 5, nx, ny), BOUNCE_BACK_WALL, "ny = {}", ny);
            assert_eq!(setup_open_geometry(x, row - 5, nx, ny), BOUNCE_BACK_WALL, "ny = {}", ny);
            assert_eq!(setup_open_geometry(x, row + 6, nx, ny), BULK_FLUID, "ny = {}", ny);
            if row - 6 > ny / 4 + 6 {
                assert_eq!(setup_open_geometry(x, row - 6, nx, ny), BULK_FLUID, "ny = {}", ny);
            }
        }
    }
}

#[test]
fn tall_channel_is_classified() {
    // row 1 of a six-million-row channel, far from every obstacle
    assert_eq!(setup_open_geometry(101, 1, 200, 6_000_000), BULK_FLUID);
    assert_eq!(setup_lattice(101, 1, 200, 6_000_000, FlowType::Poiseuille), BULK_FLUID);
    // the third obstacle of the tallest channel
    let row = (u32::MAX as f32 / 1.25) as u32;
    assert_eq!(setup_open_geometry(101, row, 200, u32::MAX), BOUNCE_BACK_WALL);
    assert!(lattice_cell_defined(101, 1, 200, 6_000_000, FlowType::Poiseuille));
}

#[test]
fn lattice_poiseuille_is_the_channel() {
    for y in 0..75 {
        for x in 0..100 {
            assert_eq!(
                setup_lattice(x, y, 100, 75, FlowType::Poiseuille),
                setup_open_geometry(x, y, 100, 75)
            );
        }
    }
}

#[test]
fn lid_driven_cavity_cells() {
    let (nx, ny) = (100, 100);
    let f = FlowType::LidDrivenCavity;
    assert_eq!(setup_lattice(1, 0, nx, ny, f), LID_DRIVEN_WALL);
    assert_eq!(setup_lattice(98, 0, nx, ny, f), LID_DRIVEN_WALL);
    assert_eq!(setup_lattice(0, 0, nx, ny, f), BOUNCE_BACK_WALL);
    assert_eq!(setup_lattice(99, 0, nx, ny, f), BOUNCE_BACK_WALL);
    assert_eq!(setup_lattice(0, 50, nx, ny, f), BOUNCE_BACK_WALL);
    assert_eq!(setup_lattice(99, 50, nx, ny, f), BOUNCE_BACK_WALL);
    assert_eq!(setup_lattice(50, 99, nx, ny, f), BOUNCE_BACK_WALL);
    assert_eq!(setup_lattice(50, 50, nx, ny, f), BULK_FLUID);
}

#[test]
fn pigments_diffuse_cells() {
    let (nx, ny) = (200, 150);
    let f = FlowType::PigmentsDiffuse;
    // inflow over columns 91..=109 of the top row
    assert_eq!(setup_lattice(91, 0, nx, ny, f), INFLOW);
    assert_eq!(setup_lattice(109, 0, nx, ny, f), INFLOW);
    assert_eq!(setup_lattice(90, 0, nx, ny, f), BOUNCE_BACK_WALL);
    assert_eq!(setup_lattice(110, 0, nx, ny, f), BOUNCE_BACK_WALL);
    assert_eq!(setup_lattice(0, 5, nx, ny, f), BOUNCE_BACK_WALL);
    assert_eq!(setup_lattice(199, 5, nx, ny, f), BOUNCE_BACK_WALL);
    assert_eq!(setup_lattice(5, 149, nx, ny, f), BOUNCE_BACK_WALL);
    assert_eq!(setup_lattice(5, 5, nx, ny, f), BULK_FLUID);
}

#[test]
fn ink_box_cells() {
    let f = FlowType::Ink;
    assert_eq!(setup_lattice(0, 7, 200, 150, f), BOUNCE_BACK_WALL);
    assert_eq!(setup_lattice(100, 0, 200, 150, f), BOUNCE_BACK_WALL);
    assert_eq!(setup_lattice(199, 7, 200, 150, f), BOUNCE_BACK_WALL);
    assert_eq!(setup_lattice(100, 149, 200, 150, f), BOUNCE_BACK_WALL);
    assert_eq!(setup_lattice(100, 75, 200, 150, f), BULK_FLUID);
}

#[test]
fn degenerate_lattices_stay_defined() {
    // a single row: the bottom row is the top row
    assert_eq!(setup_open_geometry(3, 0, 10, 1), BOUNCE_BACK_WALL);
    // an empty lattice asked about its first cell
    assert_eq!(setup_lattice(0, 0, 0, 0, FlowType::Ink), BOUNCE_BACK_WALL);
    assert_eq!(setup_lattice(0, 3, 0, 0, FlowType::LidDrivenCavity), BOUNCE_BACK_WALL);
}

#[test]
fn materials_are_stored_row_by_row() {
    for flow in [FlowType::Poiseuille, FlowType::LidDrivenCavity, FlowType::PigmentsDiffuse, FlowType::Ink] {
        let (nx, ny) = (200u32, 150u32);
        let cells = lattice_materials(nx, ny, flow);
        assert_eq!(cells.len(), (nx * ny) as usize);
        for j in 0..ny {
            for i in 0..nx {
                assert_eq!(cells[(j * nx + i) as usize], setup_lattice(i, j, nx, ny, flow));
            }
        }
    }
}

#[test]
fn materials_of_empty_lattice() {
    assert!(lattice_materials(0, 0, FlowType::Ink).is_empty());
    assert!(lattice_materials(5, 0, FlowType::LidDrivenCavity).is_empty());
}

#[test]
fn material_census_of_lid_driven_cavity() {
    let cells = lattice_materials(100, 100, FlowType::LidDrivenCavity);
    let lid = cells.iter().filter(|&&c| c == LID_DRIVEN_WALL).count();
    let wall = cells.iter().filter(|&&c| c == BOUNCE_BACK_WALL).count();
    let fluid = cells.iter().filter(|&&c| c == BULK_FLUID).count();
    assert_eq!(lid, 98);
    assert_eq!(wall, 100 + 99 + 99);
    assert_eq!(fluid, 98 * 98);
}

#[test]
fn definedness_checks() {
    // a channel too low for its first obstacle
    assert!(!lattice_cell_defined(55, 5, 200, 10, FlowType::Poiseuille));
    assert!(lattice_cell_defined(55, 0, 200, 10, FlowType::Poiseuille));
    assert!(!lattice_defined_everywhere(200, 10, FlowType::Poiseuille));
    assert!(lattice_defined_everywhere(200, 150, FlowType::Poiseuille));
    assert!(lattice_defined_everywhere(100, 100, FlowType::LidDrivenCavity));
    // the pigment inflow needs twenty columns around the middle
    assert!(!lattice_defined_everywhere(10, 5, FlowType::PigmentsDiffuse));
    assert!(lattice_defined_everywhere(20, 5, FlowType::PigmentsDiffuse));
    assert!(lattice_defined_everywhere(0, 0, FlowType::Ink));
    assert!(!lattice_cell_defined(3, 3, 0, 0, FlowType::Ink));
    assert!(lattice_cell_defined(0, 3, 0, 0, FlowType::Ink));
    assert!(lattice_cell_defined(0, 3, 5, 0, FlowType::LidDrivenCavity));
    assert!(!lattice_cell_defined(2, 3, 5, 0, FlowType::LidDrivenCavity));
}

#[test]
fn rim_is_closed_for_every_flow() {
    for flow in [FlowType::Poiseuille, FlowType::LidDrivenCavity, FlowType::PigmentsDiffuse, FlowType::Ink] {
        let (nx, ny) = (60u32, 40u32);
        let cells = lattice_materials(nx, ny, flow);
        for j in 0..ny {
            for i in 0..nx {
                let rim = i == 0 || j == 0 || i == nx - 1 || j == ny - 1;
                let m = cells[(j * nx + i) as usize];
                if rim {
                    assert_ne!(m, BULK_FLUID, "({}, {}) of {:?}", i, j, flow);
                } else if flow != FlowType::Poiseuille {
                    assert_eq!(m, BULK_FLUID, "({}, {}) of {:?}", i, j, flow);
                }
            }
        }
    }
}

#[test]
fn smallest_classifiable_channel() {
    assert!(lattice_defined_everywhere(200, 24, FlowType::Poiseuille));
    assert!(!lattice_defined_everywhere(200, 23, FlowType::Poiseuille));
    assert!(lattice_defined_everywhere(20, 1, FlowType::PigmentsDiffuse));
    assert!(!lattice_defined_everywhere(19, 1, FlowType::PigmentsDiffuse));
    assert!(lattice_defined_everywhere(1, 1, FlowType::LidDrivenCavity));
}
