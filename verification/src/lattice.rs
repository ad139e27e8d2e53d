//! Lattice geometry: which material each lattice cell holds.
use vstd::prelude::*;

use crate::obstacle_row::{f32_quotient_by_one_and_a_quarter, f32_quotient_row};
use crate::FlowType;

verus! {

/// Cell code of bulk fluid.
pub const BULK_FLUID: u32 = 1;
/// Cell code of a bounce-back wall.
pub const BOUNCE_BACK_WALL: u32 = 2;
/// Cell code of the moving lid of a cavity.
pub const LID_DRIVEN_WALL: u32 = 3;
/// Cell code of an inflow cell.
pub const INFLOW: u32 = 5;
/// Cell code of an outflow cell.
pub const OUTFLOW: u32 = 6;

/// The cell codes the shaders read: 1 fluid, 2 bounce-back wall, 3 moving
/// lid, 5 inflow, 6 outflow.
pub proof fn lemma_material_codes()
    ensures
        BULK_FLUID == 1,
        BOUNCE_BACK_WALL == 2,
        LID_DRIVEN_WALL == 3,
        INFLOW == 5,
        OUTFLOW == 6,
{
}

/// Half of the height of the smaller channel obstacles.
pub const OBSTACLE_HALF_SIZE: u32 = 6;

/// Cell `(x, y)` lies strictly inside the box whose columns run from `left`
/// to `left + 12` and whose rows run from `row - half` to `row + half`.
pub open spec fn in_obstacle(x: int, y: int, left: int, row: int, half: int) -> bool {
    &&& left < x < left + 2 * OBSTACLE_HALF_SIZE
    &&& row - half < y < row + half
}

/// The row around which the third channel obstacle is centred: the row
/// count divided by 1.25 in single precision, truncated.
pub open spec fn third_obstacle_row(ny: int) -> int {
    f32_quotient_by_one_and_a_quarter(ny as nat) as int
}

/// The first channel obstacle, a quarter of the way along, around mid-height.
pub open spec fn in_first_obstacle(x: int, y: int, nx: int, ny: int) -> bool {
    in_obstacle(x, y, nx / 4, ny / 2, OBSTACLE_HALF_SIZE + 2)
}

/// The second channel obstacle, half way along, a quarter of the way up.
pub open spec fn in_second_obstacle(x: int, y: int, nx: int, ny: int) -> bool {
    in_obstacle(x, y, nx / 2, ny / 4, OBSTACLE_HALF_SIZE as int)
}

/// The third channel obstacle, half way along, four fifths of the way up.
pub open spec fn in_third_obstacle(x: int, y: int, nx: int, ny: int) -> bool {
    in_obstacle(x, y, nx / 2, third_obstacle_row(ny), OBSTACLE_HALF_SIZE as int)
}

/// Cell `(x, y)` lies in one of the three obstacles of the channel.
pub open spec fn in_channel_obstacle(x: int, y: int, nx: int, ny: int) -> bool {
    in_first_obstacle(x, y, nx, ny) || in_second_obstacle(x, y, nx, ny)
        || in_third_obstacle(x, y, nx, ny)
}

/// Cell `(x, y)` lies on the outer rim of an `nx` by `ny` lattice.
pub open spec fn on_rim(x: int, y: int, nx: int, ny: int) -> bool {
    x == 0 || x == nx - 1 || y == 0 || y == ny - 1
}

/// The material of a cell of the channel: walls at the top and bottom rows,
/// inflow at the left column, outflow at the right one, walls in the three
/// obstacles, fluid elsewhere.
pub open spec fn channel_material(x: int, y: int, nx: int, ny: int) -> u32 {
    if y == 0 || y == ny - 1 {
        BOUNCE_BACK_WALL
    } else if x == 0 {
        INFLOW
    } else if x == nx - 1 {
        OUTFLOW
    } else if in_channel_obstacle(x, y, nx, ny) {
        BOUNCE_BACK_WALL
    } else {
        BULK_FLUID
    }
}

/// The material of a cell of a lattice set up for `flow_type`.
pub open spec fn lattice_material(x: int, y: int, nx: int, ny: int, flow_type: FlowType) -> u32 {
    match flow_type {
        FlowType::Poiseuille => channel_material(x, y, nx, ny),
        FlowType::LidDrivenCavity => {
            if y == 0 && 0 < x < nx - 1 {
                LID_DRIVEN_WALL
            } else if x == 0 || x == nx - 1 || y == ny - 1 {
                BOUNCE_BACK_WALL
            } else {
                BULK_FLUID
            }
        },
        FlowType::PigmentsDiffuse => {
            if y == 0 && nx / 2 - 10 < x < nx / 2 + 10 {
                INFLOW
            } else if on_rim(x, y, nx, ny) {
                BOUNCE_BACK_WALL
            } else {
                BULK_FLUID
            }
        },
        FlowType::Ink => if on_rim(x, y, nx, ny) {
            BOUNCE_BACK_WALL
        } else {
            BULK_FLUID
        },
    }
}

/// The unsigned arithmetic of the channel classification stays in range:
/// `ny - 1` is formed once the bottom row is ruled out, `nx - 1` once the
/// left column is, and the lower edges of the two lower obstacles only for
/// columns that cross them. (The third obstacle's lower edge is formed only
/// after the second's, which needs at least 24 rows; the third obstacle's
/// row is then at least 19.)
pub open spec fn channel_defined(x: int, y: int, nx: int, ny: int) -> bool {
    &&& y != 0 ==> ny >= 1
    &&& (y != 0 && y != ny - 1 && x != 0) ==> nx >= 1
    &&& (y != 0 && y != ny - 1 && x != 0 && x != nx - 1) ==> {
        &&& nx / 4 < x < nx / 4 + 2 * OBSTACLE_HALF_SIZE ==> ny / 2 >= OBSTACLE_HALF_SIZE + 2
        &&& (!in_first_obstacle(x, y, nx, ny) && nx / 2 < x < nx / 2 + 2 * OBSTACLE_HALF_SIZE)
            ==> ny / 4 >= OBSTACLE_HALF_SIZE
    }
}

/// The inputs on which the classification of cell `(x, y)` is defined: those
/// on which none of its unsigned subtractions goes below zero.
pub open spec fn lattice_defined(x: int, y: int, nx: int, ny: int, flow_type: FlowType) -> bool {
    match flow_type {
        FlowType::Poiseuille => channel_defined(x, y, nx, ny),
        FlowType::LidDrivenCavity => {
            &&& x != 0 ==> nx >= 1
            &&& (!(y == 0 && 0 < x < nx - 1) && x != 0 && x != nx - 1) ==> ny >= 1
        },
        FlowType::PigmentsDiffuse => {
            &&& y == 0 ==> nx / 2 >= 10
            &&& x != 0 ==> nx >= 1
            &&& (x != 0 && x != nx - 1 && y != 0) ==> ny >= 1
        },
        FlowType::Ink => {
            &&& x != 0 ==> nx >= 1
            &&& (x != 0 && x != nx - 1 && y != 0) ==> ny >= 1
        },
    }
}

/// Classifies cell `(x, y)` of the channel with three obstacles.
pub fn setup_open_geometry(x: u32, y: u32, nx: u32, ny: u32) -> (material: u32)
    requires
        channel_defined(x as int, y as int, nx as int, ny as int),
    ensures
        material == channel_material(x as int, y as int, nx as int, ny as int),
{
    if y == 0 || y == ny - 1 {
        return BOUNCE_BACK_WALL;
    }
    if x == 0 {
        return INFLOW;
    } else if x == nx - 1 {
        return OUTFLOW;
    }
    let half_size: u32 = OBSTACLE_HALF_SIZE;
    let size: u32 = half_size * 2;
    let row: u32 = f32_quotient_row(ny);
    if (x > nx / 4 && x < nx / 4 + size && y > ny / 2 - (half_size + 2) && y < ny / 2 + (
    half_size + 2)) || (x > nx / 2 && x < nx / 2 + size && y > ny / 4 - half_size && y < ny / 4
        + half_size) || (x > nx / 2 && x < nx / 2 + size && y > row - half_size && y < row
        + half_size) {
        return BOUNCE_BACK_WALL;
    }
    BULK_FLUID
}

/// Classifies cell `(x, y)` of an `nx` by `ny` lattice set up for `flow_type`.
pub fn setup_lattice(x: u32, y: u32, nx: u32, ny: u32, flow_type: FlowType) -> (material: u32)
    requires
        lattice_defined(x as int, y as int, nx as int, ny as int, flow_type),
    ensures
        material == lattice_material(x as int, y as int, nx as int, ny as int, flow_type),
{
    match flow_type {
        FlowType::Poiseuille => {
            return setup_open_geometry(x, y, nx, ny);
        },
        FlowType::LidDrivenCavity => {
            if y == 0 && (x > 0 && x < nx - 1) {
                return LID_DRIVEN_WALL;
            } else if x == 0 || x == nx - 1 || y == ny - 1 {
                return BOUNCE_BACK_WALL;
            }
        },
        FlowType::PigmentsDiffuse => {
            if y == 0 && x > nx / 2 - 10 && x < nx / 2 + 10 {
                return INFLOW;
            } else if x == 0 || x == nx - 1 || y == 0 || y == ny - 1 {
                return BOUNCE_BACK_WALL;
            }
        },
        FlowType::Ink => {
            if x == 0 || x == nx - 1 || y == 0 || y == ny - 1 {
                return BOUNCE_BACK_WALL;
            }
        },
    }
    BULK_FLUID
}

/// The lattice is closed: no cell on its rim is bulk fluid, whatever the
/// flow (the rim holds walls, the lid, inflow or outflow). In the cavity, in
/// the pigment box and in the ink box every cell off the rim is bulk fluid.
pub proof fn lemma_rim_is_closed(x: int, y: int, nx: int, ny: int, flow_type: FlowType)
    requires
        0 <= x < nx,
        0 <= y < ny,
    ensures
        on_rim(x, y, nx, ny) ==> lattice_material(x, y, nx, ny, flow_type) != BULK_FLUID,
        flow_type != FlowType::Poiseuille && !on_rim(x, y, nx, ny) ==> lattice_material(
            x,
            y,
            nx,
            ny,
            flow_type,
        ) == BULK_FLUID,
{
}

/// The moving lid of the cavity is exactly the top row without its two
/// corners, and the pigment inflow lies in the top row.
pub proof fn lemma_lid_and_inflow_on_top_row(x: int, y: int, nx: int, ny: int)
    requires
        0 <= x < nx,
        0 <= y < ny,
    ensures
        lattice_material(x, y, nx, ny, FlowType::LidDrivenCavity) == LID_DRIVEN_WALL <==> (y == 0
            && 0 < x < nx - 1),
        lattice_material(x, y, nx, ny, FlowType::PigmentsDiffuse) == INFLOW ==> y == 0,
{
}

/// Whether `lattice_defined` holds: whether `setup_lattice` can classify
/// cell `(x, y)` without an unsigned subtraction going below zero.
pub fn lattice_cell_defined(x: u32, y: u32, nx: u32, ny: u32, flow_type: FlowType) -> (defined:
    bool)
    ensures
        defined == lattice_defined(x as int, y as int, nx as int, ny as int, flow_type),
{
    let (x, y, nx, ny) = (x as u64, y as u64, nx as u64, ny as u64);
    match flow_type {
        FlowType::Poiseuille => {
            if y != 0 && ny == 0 {
                return false;
            }
            if y == 0 || y + 1 == ny || x == 0 {
                return true;
            }
            if nx == 0 {
                return false;
            }
            if x + 1 == nx {
                return true;
            }
            let crosses_first = nx / 4 < x && x < nx / 4 + 12;
            if crosses_first && ny / 2 < 8 {
                return false;
            }
            let in_first = crosses_first && ny / 2 < y + 8 && y < ny / 2 + 8;
            let crosses_middle = nx / 2 < x && x < nx / 2 + 12;
            if !in_first && crosses_middle && ny / 4 < 6 {
                return false;
            }
            true
        },
        FlowType::LidDrivenCavity => {
            if x != 0 && nx == 0 {
                return false;
            }
            let on_lid = y == 0 && 0 < x && x + 1 < nx;
            !(!on_lid && x != 0 && x + 1 != nx && ny == 0)
        },
        FlowType::PigmentsDiffuse => {
            !((y == 0 && nx / 2 < 10) || (x != 0 && nx == 0) || (x != 0 && x + 1 != nx && y
                != 0 && ny == 0))
        },
        FlowType::Ink => { !((x != 0 && nx == 0) || (x != 0 && x + 1 != nx && y != 0 && ny == 0))
        },
    }
}

/// Whether every cell of an `nx` by `ny` lattice can be classified.
pub fn lattice_defined_everywhere(nx: u32, ny: u32, flow_type: FlowType) -> (defined: bool)
    ensures
        defined == grid_defined(nx as int, ny as int, flow_type),
{
    let mut j: u32 = 0;
    while j < ny
        invariant
            j <= ny,
            forall|a: int, b: int|
                0 <= a < nx && 0 <= b < j ==> #[trigger] lattice_defined(
                    a,
                    b,
                    nx as int,
                    ny as int,
                    flow_type,
                ),
        decreases ny - j,
    {
        let mut i: u32 = 0;
        while i < nx
            invariant
                i <= nx,
                j < ny,
                forall|a: int, b: int|
                    0 <= a < nx && 0 <= b < j ==> #[trigger] lattice_defined(
                        a,
                        b,
                        nx as int,
                        ny as int,
                        flow_type,
                    ),
                forall|a: int|
                    0 <= a < i ==> #[trigger] lattice_defined(
                        a,
                        j as int,
                        nx as int,
                        ny as int,
                        flow_type,
                    ),
            decreases nx - i,
        {
            if !lattice_cell_defined(i, j, nx, ny, flow_type) {
                return false;
            }
            i = i + 1;
        }
        j = j + 1;
    }
    true
}

/// The channel, cell by cell: the top and bottom rows are walls; off them
/// the left column is inflow and the right column outflow; inside, the cells
/// of three 11-column obstacles are walls: one just right of a quarter of
/// the width across the rows within 7 of mid-height, two just right of half
/// the width across the rows within 5 of a quarter of the height and within
/// 5 of the height divided by 1.25 in single precision; all other cells are
/// fluid. The channel classification and the channel case of the general
/// classification agree.
pub proof fn lemma_channel_cells(x: int, y: int, nx: int, ny: int)
    requires
        0 <= x < nx,
        0 <= y < ny,
    ensures
        channel_material(x, y, nx, ny) == lattice_material(x, y, nx, ny, FlowType::Poiseuille),
        (y == 0 || y == ny - 1) ==> lattice_material(x, y, nx, ny, FlowType::Poiseuille)
            == BOUNCE_BACK_WALL,
        (0 < y < ny - 1 && x == 0) ==> lattice_material(x, y, nx, ny, FlowType::Poiseuille)
            == INFLOW,
        (0 < y < ny - 1 && 0 < x && x == nx - 1) ==> lattice_material(
            x,
            y,
            nx,
            ny,
            FlowType::Poiseuille,
        ) == OUTFLOW,
        (0 < x < nx - 1 && 0 < y < ny - 1 && nx / 4 < x < nx / 4 + 12 && ny / 2 - 8 < y < ny / 2
            + 8) ==> lattice_material(x, y, nx, ny, FlowType::Poiseuille) == BOUNCE_BACK_WALL,
        (0 < x < nx - 1 && 0 < y < ny - 1 && nx / 2 < x < nx / 2 + 12 && ny / 4 - 6 < y < ny / 4
            + 6) ==> lattice_material(x, y, nx, ny, FlowType::Poiseuille) == BOUNCE_BACK_WALL,
        (0 < x < nx - 1 && 0 < y < ny - 1 && nx / 2 < x < nx / 2 + 12
            && f32_quotient_by_one_and_a_quarter(ny as nat) - 6 < y
            < f32_quotient_by_one_and_a_quarter(ny as nat) + 6) ==> lattice_material(
            x,
            y,
            nx,
            ny,
            FlowType::Poiseuille,
        ) == BOUNCE_BACK_WALL,
        (0 < x < nx - 1 && 0 < y < ny - 1 && !(nx / 4 < x < nx / 4 + 12 && ny / 2 - 8 < y < ny
            / 2 + 8) && !(nx / 2 < x < nx / 2 + 12 && ny / 4 - 6 < y < ny / 4 + 6) && !(nx / 2 < x
            < nx / 2 + 12 && f32_quotient_by_one_and_a_quarter(ny as nat) - 6 < y
            < f32_quotient_by_one_and_a_quarter(ny as nat) + 6)) ==> lattice_material(
            x,
            y,
            nx,
            ny,
            FlowType::Poiseuille,
        ) == BULK_FLUID,
{
}

/// Pigment diffusion, cell by cell: the top-row cells within 9 columns of
/// the middle column are inflow, the rest of the rim is wall, and every cell
/// off the rim is fluid.
pub proof fn lemma_pigment_cells(x: int, y: int, nx: int, ny: int)
    requires
        0 <= x < nx,
        0 <= y < ny,
    ensures
        y == 0 ==> (lattice_material(x, y, nx, ny, FlowType::PigmentsDiffuse) == INFLOW <==> nx
            / 2 - 10 < x < nx / 2 + 10),
        (y == 0 && !(nx / 2 - 10 < x < nx / 2 + 10)) ==> lattice_material(
            x,
            y,
            nx,
            ny,
            FlowType::PigmentsDiffuse,
        ) == BOUNCE_BACK_WALL,
        (0 < y && (x == 0 || x == nx - 1 || y == ny - 1)) ==> lattice_material(
            x,
            y,
            nx,
            ny,
            FlowType::PigmentsDiffuse,
        ) == BOUNCE_BACK_WALL,
        (0 < x < nx - 1 && 0 < y < ny - 1) ==> lattice_material(
            x,
            y,
            nx,
            ny,
            FlowType::PigmentsDiffuse,
        ) == BULK_FLUID,
{
}

/// The lid-driven cavity, cell by cell: the top row without its corners is
/// the moving lid, the rest of the rim is wall, every cell off the rim is
/// fluid.
pub proof fn lemma_cavity_cells(x: int, y: int, nx: int, ny: int)
    requires
        0 <= x < nx,
        0 <= y < ny,
    ensures
        (y == 0 && 0 < x < nx - 1) ==> lattice_material(x, y, nx, ny, FlowType::LidDrivenCavity)
            == LID_DRIVEN_WALL,
        (!(y == 0 && 0 < x < nx - 1) && (x == 0 || x == nx - 1 || y == 0 || y == ny - 1))
            ==> lattice_material(x, y, nx, ny, FlowType::LidDrivenCavity) == BOUNCE_BACK_WALL,
        (0 < x < nx - 1 && 0 < y < ny - 1) ==> lattice_material(
            x,
            y,
            nx,
            ny,
            FlowType::LidDrivenCavity,
        ) == BULK_FLUID,
{
}

/// The ink box, cell by cell: its rim is wall, every other cell fluid.
pub proof fn lemma_ink_cells(x: int, y: int, nx: int, ny: int)
    requires
        0 <= x < nx,
        0 <= y < ny,
    ensures
        (x == 0 || x == nx - 1 || y == 0 || y == ny - 1) ==> lattice_material(
            x,
            y,
            nx,
            ny,
            FlowType::Ink,
        ) == BOUNCE_BACK_WALL,
        (0 < x < nx - 1 && 0 < y < ny - 1) ==> lattice_material(x, y, nx, ny, FlowType::Ink)
            == BULK_FLUID,
{
}

/// Every cell of an `nx` by `ny` lattice can be classified.
pub open spec fn grid_defined(nx: int, ny: int, flow_type: FlowType) -> bool {
    forall|i: int, j: int|
        0 <= i < nx && 0 <= j < ny ==> #[trigger] lattice_defined(i, j, nx, ny, flow_type)
}

/// Which lattices can be classified everywhere: a channel needs at least 24
/// rows (for the two lower obstacles); the pigment box needs at least 20 columns
/// (for the inflow); the cavity and the ink box can be of any size.
pub proof fn lemma_grid_defined(nx: int, ny: int, flow_type: FlowType)
    requires
        0 <= nx,
        0 <= ny,
        flow_type == FlowType::Poiseuille ==> 24 <= ny,
        flow_type == FlowType::PigmentsDiffuse ==> 20 <= nx,
    ensures
        grid_defined(nx, ny, flow_type),
{
}

/// The materials of all cells of an `nx` by `ny` lattice, row by row: cell
/// `(i, j)` stands at index `j * nx + i`.
pub fn lattice_materials(nx: u32, ny: u32, flow_type: FlowType) -> (cells: Vec<u32>)
    requires
        nx * ny <= usize::MAX,
        grid_defined(nx as int, ny as int, flow_type),
    ensures
        cells.len() == nx * ny,
        forall|i: int, j: int|
            0 <= i < nx && 0 <= j < ny ==> #[trigger] cells@[j * nx + i] == lattice_material(
                i,
                j,
                nx as int,
                ny as int,
                flow_type,
            ),
{
    let mut cells: Vec<u32> = Vec::new();
    let mut j: u32 = 0;
    while j < ny
        invariant
            j <= ny,
            nx * ny <= usize::MAX,
            grid_defined(nx as int, ny as int, flow_type),
            cells.len() == j * nx,
            forall|a: int, b: int|
                0 <= a < nx && 0 <= b < j ==> #[trigger] cells@[b * nx + a] == lattice_material(
                    a,
                    b,
                    nx as int,
                    ny as int,
                    flow_type,
                ),
        decreases ny - j,
    {
        let mut i: u32 = 0;
        while i < nx
            invariant
                i <= nx,
                j < ny,
                nx * ny <= usize::MAX,
                grid_defined(nx as int, ny as int, flow_type),
                cells.len() == j * nx + i,
                forall|a: int, b: int|
                    0 <= a < nx && 0 <= b < j ==> #[trigger] cells@[b * nx + a]
                        == lattice_material(a, b, nx as int, ny as int, flow_type),
                forall|a: int|
                    0 <= a < i ==> #[trigger] cells@[j * nx + a] == lattice_material(
                        a,
                        j as int,
                        nx as int,
                        ny as int,
                        flow_type,
                    ),
            decreases nx - i,
        {
            assert(lattice_defined(i as int, j as int, nx as int, ny as int, flow_type));
            let material = setup_lattice(i, j, nx, ny, flow_type);
            proof {
                lemma_cell_index_bounds(i as int, j as int, nx as int, ny as int);
            }
            let ghost before = cells@;
            cells.push(material);
            proof {
                assert forall|a: int, b: int|
                    0 <= a < nx && 0 <= b < j implies #[trigger] cells@[b * nx + a]
                    == lattice_material(a, b, nx as int, ny as int, flow_type) by {
                    lemma_cell_index_bounds(a, b, nx as int, j as int);
                    assert(cells@[b * nx + a] == before[b * nx + a]);
                }
                assert forall|a: int|
                    0 <= a < i + 1 implies #[trigger] cells@[j * nx + a] == lattice_material(
                    a,
                    j as int,
                    nx as int,
                    ny as int,
                    flow_type,
                ) by {
                    if a < i {
                        assert(cells@[j * nx + a] == before[j * nx + a]);
                    }
                }
            }
            i = i + 1;
        }
        proof {
            assert((j + 1) * nx == j * nx + nx) by (nonlinear_arith);
            assert forall|a: int, b: int|
                0 <= a < nx && 0 <= b < j + 1 implies #[trigger] cells@[b * nx + a]
                == lattice_material(a, b, nx as int, ny as int, flow_type) by {
                if b == j {
                    assert(cells@[j * nx + a] == lattice_material(
                        a,
                        j as int,
                        nx as int,
                        ny as int,
                        flow_type,
                    ));
                }
            }
        }
        j = j + 1;
    }
    assert(ny * nx == nx * ny) by (nonlinear_arith);
    cells
}

/// Cell `(i, j)` of a lattice with `ny` rows of `nx` cells sits before the
/// end of its row and before the end of the lattice.
proof fn lemma_cell_index_bounds(i: int, j: int, nx: int, ny: int)
    requires
        0 <= i < nx,
        0 <= j < ny,
    ensures
        0 <= j * nx + i < j * nx + nx,
        j * nx + nx <= ny * nx,
        j * nx + nx <= nx * ny,
{
    assert(j * nx + nx == (j + 1) * nx) by (nonlinear_arith);
    assert((j + 1) * nx <= ny * nx) by (nonlinear_arith)
        requires
            j + 1 <= ny,
            nx > 0,
    ;
    assert(ny * nx == nx * ny) by (nonlinear_arith);
    assert(0 <= j * nx) by (nonlinear_arith)
        requires
            0 <= j,
            0 < nx,
    ;
}

} // verus!
