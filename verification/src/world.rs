use vstd::prelude::*;
use vstd::arithmetic::div_mod::{lemma_fundamental_div_mod, lemma_fundamental_div_mod_converse};
use vstd::arithmetic::mul::lemma_mul_inequality;

verus! {

/// The roof models available for the modular buildings, named by their
/// footprint in tile units (width x depth).
#[derive(PartialEq, Eq, Structural, Clone, Copy, Debug)]
pub enum RoofSize {
    R4x4,
    R4x6,
    R4x8,
    R6x4,
    R6x6,
    R6x8,
    R6x10,
    R6x12,
    R6x14,
    R8x8,
    R8x10,
    R8x12,
    R8x14,
}

/// The footprint `(width, depth)` that a roof's name gives.
pub open spec fn roof_footprint(roof: RoofSize) -> (nat, nat) {
    match roof {
        RoofSize::R4x4 => (4, 4),
        RoofSize::R4x6 => (4, 6),
        RoofSize::R4x8 => (4, 8),
        RoofSize::R6x4 => (6, 4),
        RoofSize::R6x6 => (6, 6),
        RoofSize::R6x8 => (6, 8),
        RoofSize::R6x10 => (6, 10),
        RoofSize::R6x12 => (6, 12),
        RoofSize::R6x14 => (6, 14),
        RoofSize::R8x8 => (8, 8),
        RoofSize::R8x10 => (8, 10),
        RoofSize::R8x12 => (8, 12),
        RoofSize::R8x14 => (8, 14),
    }
}

/// The asset each roof is loaded from.
pub open spec fn roof_asset(roof: RoofSize) -> Seq<char> {
    match roof {
        RoofSize::R4x4 => "medieval/Roof_RoundTiles_4x4.gltf#Scene0"@,
        RoofSize::R4x6 => "medieval/Roof_RoundTiles_4x6.gltf#Scene0"@,
        RoofSize::R4x8 => "medieval/Roof_RoundTiles_4x8.gltf#Scene0"@,
        RoofSize::R6x4 => "medieval/Roof_RoundTiles_6x4.gltf#Scene0"@,
        RoofSize::R6x6 => "medieval/Roof_RoundTiles_6x6.gltf#Scene0"@,
        RoofSize::R6x8 => "medieval/Roof_RoundTiles_6x8.gltf#Scene0"@,
        RoofSize::R6x10 => "medieval/Roof_RoundTiles_6x10.gltf#Scene0"@,
        RoofSize::R6x12 => "medieval/Roof_RoundTiles_6x12.gltf#Scene0"@,
        RoofSize::R6x14 => "medieval/Roof_RoundTiles_6x14.gltf#Scene0"@,
        RoofSize::R8x8 => "medieval/Roof_RoundTiles_8x8.gltf#Scene0"@,
        RoofSize::R8x10 => "medieval/Roof_RoundTiles_8x10.gltf#Scene0"@,
        RoofSize::R8x12 => "medieval/Roof_RoundTiles_8x12.gltf#Scene0"@,
        RoofSize::R8x14 => "medieval/Roof_RoundTiles_8x14.gltf#Scene0"@,
    }
}

impl RoofSize {
    /// The number of wall segments `(along the width, along the depth)`
    /// under this roof: each wall segment spans two tiles.
    pub fn wall_counts(&self) -> (c: (usize, usize))
        ensures
            c.0 == roof_footprint(*self).0 / 2,
            c.1 == roof_footprint(*self).1 / 2,
    {
        match self {
            RoofSize::R4x4 => (2, 2),
            RoofSize::R4x6 => (2, 3),
            RoofSize::R4x8 => (2, 4),
            RoofSize::R6x4 => (3, 2),
            RoofSize::R6x6 => (3, 3),
            RoofSize::R6x8 => (3, 4),
            RoofSize::R6x10 => (3, 5),
            RoofSize::R6x12 => (3, 6),
            RoofSize::R6x14 => (3, 7),
            RoofSize::R8x8 => (4, 4),
            RoofSize::R8x10 => (4, 5),
            RoofSize::R8x12 => (4, 6),
            RoofSize::R8x14 => (4, 7),
        }
    }

    /// The asset path of the roof model.
    pub fn asset_path(&self) -> (p: &'static str)
        ensures
            p@ == roof_asset(*self),
    {
        match self {
            RoofSize::R4x4 => "medieval/Roof_RoundTiles_4x4.gltf#Scene0",
            RoofSize::R4x6 => "medieval/Roof_RoundTiles_4x6.gltf#Scene0",
            RoofSize::R4x8 => "medieval/Roof_RoundTiles_4x8.gltf#Scene0",
            RoofSize::R6x4 => "medieval/Roof_RoundTiles_6x4.gltf#Scene0",
            RoofSize::R6x6 => "medieval/Roof_RoundTiles_6x6.gltf#Scene0",
            RoofSize::R6x8 => "medieval/Roof_RoundTiles_6x8.gltf#Scene0",
            RoofSize::R6x10 => "medieval/Roof_RoundTiles_6x10.gltf#Scene0",
            RoofSize::R6x12 => "medieval/Roof_RoundTiles_6x12.gltf#Scene0",
            RoofSize::R6x14 => "medieval/Roof_RoundTiles_6x14.gltf#Scene0",
            RoofSize::R8x8 => "medieval/Roof_RoundTiles_8x8.gltf#Scene0",
            RoofSize::R8x10 => "medieval/Roof_RoundTiles_8x10.gltf#Scene0",
            RoofSize::R8x12 => "medieval/Roof_RoundTiles_8x12.gltf#Scene0",
            RoofSize::R8x14 => "medieval/Roof_RoundTiles_8x14.gltf#Scene0",
        }
    }
}

/// The decimal digit character of `d < 10`.
pub open spec fn digit_char(d: nat) -> char {
    ((48 + d) as u32) as char
}

/// The decimal spelling of a natural number.
pub open spec fn decimal(n: nat) -> Seq<char>
    decreases n,
{
    if n < 10 {
        seq![digit_char(n)]
    } else {
        decimal(n / 10).push(digit_char(n % 10))
    }
}

/// A roof's asset is named after its footprint, so the asset name and the
/// wall counts agree: "medieval/Roof_RoundTiles_" + width + "x" + depth +
/// ".gltf#Scene0".
pub proof fn lemma_roof_asset_names_footprint(roof: RoofSize)
    ensures
        roof_asset(roof) == "medieval/Roof_RoundTiles_"@ + decimal(roof_footprint(roof).0) + "x"@
            + decimal(roof_footprint(roof).1) + ".gltf#Scene0"@,
{
    reveal_strlit("medieval/Roof_RoundTiles_");
    reveal_strlit("x");
    reveal_strlit(".gltf#Scene0");
    reveal_with_fuel(decimal, 2);
    match roof {
        RoofSize::R4x4 => { reveal_strlit("medieval/Roof_RoundTiles_4x4.gltf#Scene0"); },
        RoofSize::R4x6 => { reveal_strlit("medieval/Roof_RoundTiles_4x6.gltf#Scene0"); },
        RoofSize::R4x8 => { reveal_strlit("medieval/Roof_RoundTiles_4x8.gltf#Scene0"); },
        RoofSize::R6x4 => { reveal_strlit("medieval/Roof_RoundTiles_6x4.gltf#Scene0"); },
        RoofSize::R6x6 => { reveal_strlit("medieval/Roof_RoundTiles_6x6.gltf#Scene0"); },
        RoofSize::R6x8 => { reveal_strlit("medieval/Roof_RoundTiles_6x8.gltf#Scene0"); },
        RoofSize::R6x10 => { reveal_strlit("medieval/Roof_RoundTiles_6x10.gltf#Scene0"); },
        RoofSize::R6x12 => { reveal_strlit("medieval/Roof_RoundTiles_6x12.gltf#Scene0"); },
        RoofSize::R6x14 => { reveal_strlit("medieval/Roof_RoundTiles_6x14.gltf#Scene0"); },
        RoofSize::R8x8 => { reveal_strlit("medieval/Roof_RoundTiles_8x8.gltf#Scene0"); },
        RoofSize::R8x10 => { reveal_strlit("medieval/Roof_RoundTiles_8x10.gltf#Scene0"); },
        RoofSize::R8x12 => { reveal_strlit("medieval/Roof_RoundTiles_8x12.gltf#Scene0"); },
        RoofSize::R8x14 => { reveal_strlit("medieval/Roof_RoundTiles_8x14.gltf#Scene0"); },
    }
}

/// The four walls of a floor: the front row and the back row run along the
/// width, the left and right columns along the depth.
#[derive(PartialEq, Eq, Structural, Clone, Copy, Debug)]
pub enum WallFace {
    Front,
    Back,
    Left,
    Right,
}

/// One wall segment of a building: its floor, its face and its position
/// along that face.
#[derive(PartialEq, Eq, Structural, Clone, Copy, Debug)]
pub struct WallSlot {
    pub floor: usize,
    pub face: WallFace,
    pub index: usize,
}

/// The number of wall segments on one floor.
pub open spec fn walls_per_floor(width: nat, depth: nat) -> nat {
    2 * width + 2 * depth
}

/// The `r`-th segment placed on floor `floor`: first, for each position along
/// the width, the front and then the back segment; then, for each position
/// along the depth, the left and then the right segment.
pub open spec fn slot_in_floor(width: nat, depth: nat, floor: nat, r: nat) -> WallSlot {
    if r < 2 * width {
        WallSlot {
            floor: floor as usize,
            face: if r % 2 == 0 {
                WallFace::Front
            } else {
                WallFace::Back
            },
            index: (r / 2) as usize,
        }
    } else {
        let q = (r - 2 * width) as nat;
        WallSlot {
            floor: floor as usize,
            face: if q % 2 == 0 {
                WallFace::Left
            } else {
                WallFace::Right
            },
            index: (q / 2) as usize,
        }
    }
}

/// The `k`-th segment placed in a building, floor by floor from the ground up.
pub open spec fn wall_slot_at(width: nat, depth: nat, k: nat) -> WallSlot {
    let per = walls_per_floor(width, depth);
    slot_in_floor(width, depth, k / per, k % per)
}

/// Whether a segment belongs to a building of the given size.
pub open spec fn is_wall_of(width: nat, depth: nat, floors: nat, s: WallSlot) -> bool {
    &&& s.floor < floors
    &&& (s.face == WallFace::Front || s.face == WallFace::Back) ==> s.index < width
    &&& (s.face == WallFace::Left || s.face == WallFace::Right) ==> s.index < depth
}

/// Where a segment comes in the placing order.
pub open spec fn slot_position(width: nat, depth: nat, s: WallSlot) -> int {
    s.floor * walls_per_floor(width, depth) + match s.face {
        WallFace::Front => 2 * s.index,
        WallFace::Back => 2 * s.index + 1,
        WallFace::Left => 2 * width + 2 * s.index,
        WallFace::Right => 2 * width + 2 * s.index + 1,
    }
}

/// The storey after `floor` starts `per` segments later and still fits in
/// a building of `floors` storeys.
proof fn lemma_next_floor(floor: int, floors: int, per: int)
    requires
        0 <= floor < floors,
        per >= 0,
    ensures
        (floor + 1) * per == floor * per + per,
        floor * per + per <= floors * per,
{
    lemma_mul_inequality(floor + 1, floors, per);
    assert((floor + 1) * per == floor * per + per) by (nonlinear_arith);
}

proof fn lemma_slot_at_split(width: nat, depth: nat, floor: nat, r: nat)
    requires
        r < walls_per_floor(width, depth),
    ensures
        wall_slot_at(width, depth, floor * walls_per_floor(width, depth) + r) == slot_in_floor(
            width,
            depth,
            floor,
            r,
        ),
{
    let per = walls_per_floor(width, depth);
    let k = floor * per + r;
    lemma_fundamental_div_mod_converse(k as int, per as int, floor as int, r as int);
}

proof fn lemma_position_of_slot_at(width: nat, depth: nat, k: nat)
    requires
        walls_per_floor(width, depth) > 0,
        k <= usize::MAX,
    ensures
        slot_position(width, depth, wall_slot_at(width, depth, k)) == k,
        wall_slot_at(width, depth, k).floor == k / walls_per_floor(width, depth),
{
    let per = walls_per_floor(width, depth);
    lemma_fundamental_div_mod(k as int, per as int);
    assert(k as int == (k / per) * per + k % per) by (nonlinear_arith)
        requires
            k as int == per * (k / per) + k % per,
    ;
    assert(k / per <= k) by (nonlinear_arith)
        requires
            per > 0,
    ;
}

proof fn lemma_slot_at_position(width: nat, depth: nat, floors: nat, s: WallSlot)
    requires
        is_wall_of(width, depth, floors, s),
    ensures
        0 <= slot_position(width, depth, s) < floors * walls_per_floor(width, depth),
        wall_slot_at(width, depth, slot_position(width, depth, s) as nat) == s,
{
    let per = walls_per_floor(width, depth);
    let r: nat = match s.face {
        WallFace::Front => (2 * s.index) as nat,
        WallFace::Back => (2 * s.index + 1) as nat,
        WallFace::Left => (2 * width + 2 * s.index) as nat,
        WallFace::Right => (2 * width + 2 * s.index + 1) as nat,
    };
    assert(r < per);
    assert(slot_position(width, depth, s) == s.floor * per + r);
    lemma_slot_at_split(width, depth, s.floor as nat, r);
    lemma_next_floor(s.floor as int, floors as int, per as int);
}

/// Every segment of the building is placed exactly once: the first
/// `floors * walls_per_floor` placements are segments of the building, no
/// two of them are the same, and each segment of the building is among them.
pub proof fn lemma_each_wall_placed_once(width: nat, depth: nat, floors: nat)
    requires
        floors * walls_per_floor(width, depth) <= usize::MAX,
    ensures
        forall|k: nat|
            k < floors * walls_per_floor(width, depth) ==> is_wall_of(
                width,
                depth,
                floors,
                #[trigger] wall_slot_at(width, depth, k),
            ),
        forall|k1: nat, k2: nat|
            k1 < floors * walls_per_floor(width, depth) && k2 < floors * walls_per_floor(
                width,
                depth,
            ) && k1 != k2 ==> #[trigger] wall_slot_at(width, depth, k1) != #[trigger] wall_slot_at(
                width,
                depth,
                k2,
            ),
        forall|s: WallSlot|
            #[trigger] is_wall_of(width, depth, floors, s) ==> exists|k: nat|
                k < floors * walls_per_floor(width, depth) && #[trigger] wall_slot_at(width, depth, k)
                    == s,
{
    let per = walls_per_floor(width, depth);
    assert forall|k: nat| k < floors * per implies is_wall_of(
        width,
        depth,
        floors,
        #[trigger] wall_slot_at(width, depth, k),
    ) by {
        lemma_position_of_slot_at(width, depth, k);
        assert(k / per < floors) by (nonlinear_arith)
            requires
                k < floors * per,
                per > 0,
        ;
    }
    assert forall|k1: nat, k2: nat|
        k1 < floors * per && k2 < floors * per && k1 != k2 implies #[trigger] wall_slot_at(
        width,
        depth,
        k1,
    ) != #[trigger] wall_slot_at(width, depth, k2) by {
        lemma_position_of_slot_at(width, depth, k1);
        lemma_position_of_slot_at(width, depth, k2);
    }
    assert forall|s: WallSlot| #[trigger] is_wall_of(width, depth, floors, s) implies exists|k: nat|
        k < floors * per && #[trigger] wall_slot_at(width, depth, k) == s by {
        lemma_slot_at_position(width, depth, floors, s);
        let k = slot_position(width, depth, s) as nat;
        assert(wall_slot_at(width, depth, k) == s);
    }
}

/// The wall segments of a building with `width` segments along the width,
/// `depth` along the depth and `floors` storeys, in the order they are
/// placed: floor by floor, and on each floor the front and back segment for
/// each position along the width, then the left and right segment for each
/// position along the depth.
pub fn building_walls(width: usize, depth: usize, floors: usize) -> (walls: Vec<WallSlot>)
    requires
        floors * walls_per_floor(width as nat, depth as nat) <= usize::MAX,
    ensures
        walls.len() == floors * walls_per_floor(width as nat, depth as nat),
        forall|k: int|
            0 <= k < walls.len() ==> walls[k] == wall_slot_at(width as nat, depth as nat, k as nat),
{
    let ghost per = walls_per_floor(width as nat, depth as nat);
    let mut walls: Vec<WallSlot> = Vec::new();
    let mut floor: usize = 0;
    while floor < floors
        invariant
            floor <= floors,
            per == walls_per_floor(width as nat, depth as nat),
            floors * per <= usize::MAX,
            walls.len() == floor * per,
            forall|k: int|
                0 <= k < walls.len() ==> walls[k] == wall_slot_at(
                    width as nat,
                    depth as nat,
                    k as nat,
                ),
        decreases floors - floor,
    {
        proof {
            lemma_next_floor(floor as int, floors as int, per as int);
        }
        let ghost base = walls.len() as nat;
        let mut col: usize = 0;
        while col < width
            invariant
                col <= width,
                per == walls_per_floor(width as nat, depth as nat),
                base == floor * per,
                base + per <= usize::MAX,
                walls.len() == base + 2 * col,
                forall|k: int|
                    0 <= k < walls.len() ==> walls[k] == wall_slot_at(
                        width as nat,
                        depth as nat,
                        k as nat,
                    ),
            decreases width - col,
        {
            proof {
                lemma_slot_at_split(width as nat, depth as nat, floor as nat, (2 * col) as nat);
                lemma_slot_at_split(width as nat, depth as nat, floor as nat, (2 * col + 1) as nat);
            }
            walls.push(WallSlot { floor, face: WallFace::Front, index: col });
            walls.push(WallSlot { floor, face: WallFace::Back, index: col });
            col = col + 1;
        }
        let mut row: usize = 0;
        while row < depth
            invariant
                row <= depth,
                per == walls_per_floor(width as nat, depth as nat),
                base == floor * per,
                base + per <= usize::MAX,
                walls.len() == base + 2 * width + 2 * row,
                forall|k: int|
                    0 <= k < walls.len() ==> walls[k] == wall_slot_at(
                        width as nat,
                        depth as nat,
                        k as nat,
                    ),
            decreases depth - row,
        {
            proof {
                lemma_slot_at_split(
                    width as nat,
                    depth as nat,
                    floor as nat,
                    (2 * width + 2 * row) as nat,
                );
                lemma_slot_at_split(
                    width as nat,
                    depth as nat,
                    floor as nat,
                    (2 * width + 2 * row + 1) as nat,
                );
            }
            walls.push(WallSlot { floor, face: WallFace::Left, index: row });
            walls.push(WallSlot { floor, face: WallFace::Right, index: row });
            row = row + 1;
        }
        proof {
            lemma_next_floor(floor as int, floors as int, per as int);
        }
        floor = floor + 1;
    }
    walls
}

/// The number of wall segments of a building, when it fits in a `usize`.
pub fn building_wall_count(width: usize, depth: usize, floors: usize) -> (n: Option<usize>)
    ensures
        n is Some <==> floors * walls_per_floor(width as nat, depth as nat) <= usize::MAX,
        n is Some ==> n->0 == floors * walls_per_floor(width as nat, depth as nat),
{
    if floors == 0 {
        return Some(0);
    }
    let w2 = width.checked_add(width);
    let d2 = depth.checked_add(depth);
    let per = match (w2, d2) {
        (Some(a), Some(b)) => a.checked_add(b),
        _ => None,
    };
    match per {
        Some(p) => floors.checked_mul(p),
        None => {
            proof {
                let per_int = walls_per_floor(width as nat, depth as nat);
                assert(per_int > usize::MAX);
                assert(floors * per_int >= per_int) by (nonlinear_arith)
                    requires
                        floors >= 1,
                        per_int >= 0,
                ;
            }
            None
        },
    }
}

/// What to build for one building: the wall counts under its roof, the
/// wall segments in placing order, and the storey the roof sits on.
#[derive(Clone, Debug)]
pub struct BuildingPlan {
    pub width_walls: usize,
    pub depth_walls: usize,
    pub walls: Vec<WallSlot>,
    pub roof_floor: usize,
}

/// The plan of a building of `floors` storeys under the given roof; the roof
/// rests on top of the last storey.
pub fn plan_building(roof: RoofSize, floors: usize) -> (plan: BuildingPlan)
    requires
        floors * walls_per_floor(roof_footprint(roof).0 / 2, roof_footprint(roof).1 / 2)
            <= usize::MAX,
    ensures
        plan.width_walls == roof_footprint(roof).0 / 2,
        plan.depth_walls == roof_footprint(roof).1 / 2,
        plan.walls.len() == floors * walls_per_floor(
            plan.width_walls as nat,
            plan.depth_walls as nat,
        ),
        forall|k: int|
            0 <= k < plan.walls.len() ==> plan.walls[k] == wall_slot_at(
                plan.width_walls as nat,
                plan.depth_walls as nat,
                k as nat,
            ),
        plan.roof_floor == floors,
{
    let (width_walls, depth_walls) = roof.wall_counts();
    let walls = building_walls(width_walls, depth_walls, floors);
    BuildingPlan { width_walls, depth_walls, walls, roof_floor: floors }
}

/// What the loaded cube-map image looks like.
#[derive(Clone, Copy, Debug)]
pub struct SkyboxImage {
    pub layer_count: u32,
    pub width: u32,
    pub height: u32,
}

/// What one update does about the sky box.
#[derive(PartialEq, Eq, Structural, Clone, Copy, Debug)]
pub enum SkyboxStep {
    /// Nothing yet (or nothing any more): leave everything as it is.
    Wait,
    /// Finish the set-up: reinterpret the image as a stack of this many
    /// layers first when one is given, attach the sky box to the camera when
    /// `attach` holds, and record the sky box as loaded.
    Finish { stack_layers: Option<u32>, attach: bool },
}

/// The sky box set-up step: once the cube-map has loaded and its image is
/// available, a single-layer image (the faces stacked vertically) is turned
/// into `height / width` layers and the sky box goes to the camera. The set-up
/// counts as done only when the sky box was attached; without a camera it is
/// tried again on later updates (by then the image has its layers, so it is
/// not reshaped twice). Once done, nothing happens any more. The second
/// component is whether the sky box counts as loaded afterwards.
pub open spec fn spec_skybox_step(
    already_loaded: bool,
    asset_ready: bool,
    image: Option<SkyboxImage>,
    has_camera: bool,
) -> (SkyboxStep, bool) {
    if already_loaded || !asset_ready || image is None {
        (SkyboxStep::Wait, already_loaded)
    } else {
        let img = image->0;
        (
            SkyboxStep::Finish {
                stack_layers: if img.layer_count == 1 {
                    Some((img.height / img.width) as u32)
                } else {
                    None
                },
                attach: has_camera,
            },
            has_camera,
        )
    }
}

/// One update of the sky box set-up (see `spec_skybox_step`).
pub fn skybox_step(
    already_loaded: bool,
    asset_ready: bool,
    image: Option<SkyboxImage>,
    has_camera: bool,
) -> (r: (SkyboxStep, bool))
    requires
        !already_loaded && asset_ready && image is Some && image->0.layer_count == 1
            ==> image->0.width > 0,
    ensures
        r == spec_skybox_step(already_loaded, asset_ready, image, has_camera),
{
    if already_loaded || !asset_ready {
        return (SkyboxStep::Wait, already_loaded);
    }
    match image {
        None => (SkyboxStep::Wait, already_loaded),
        Some(img) => {
            let stack_layers = if img.layer_count == 1 {
                Some(img.height / img.width)
            } else {
                None
            };
            (SkyboxStep::Finish { stack_layers, attach: has_camera }, has_camera)
        },
    }
}

/// A single-layer image is cut into as many square layers as fit in its
/// height: the layer count `n` satisfies `n * width <= height < (n + 1) * width`,
/// and only single-layer images are reshaped.
pub proof fn lemma_skybox_layers_fill_height(
    already_loaded: bool,
    asset_ready: bool,
    image: Option<SkyboxImage>,
    has_camera: bool,
)
    requires
        image is Some ==> image->0.width > 0,
    ensures
        spec_skybox_step(already_loaded, asset_ready, image, has_camera).0 matches SkyboxStep::Finish {
            stack_layers: Some(n),
            ..
        } ==> image->0.layer_count == 1 && n * image->0.width <= image->0.height && image->0.height
            < (n + 1) * image->0.width,
{
    if let Some(img) = image {
        let w = img.width as int;
        let h = img.height as int;
        lemma_fundamental_div_mod(h, w);
        let q = h / w;
        assert(q * w <= h && h < (q + 1) * w) by (nonlinear_arith)
            requires
                h == w * q + h % w,
                0 <= h % w < w,
        ;
        assert(0 <= q <= h) by (nonlinear_arith)
            requires
                w > 0,
                h >= 0,
                q == h / w,
        ;
    }
}

/// Whether a step attaches the sky box to the camera.
pub open spec fn attaches(step: SkyboxStep) -> bool {
    match step {
        SkyboxStep::Finish { attach, .. } => attach,
        SkyboxStep::Wait => false,
    }
}

/// The sky box counts as loaded only once it has been attached to a camera:
/// a step that turns the flag on attaches the sky box; a loaded sky box
/// stays loaded, and every later step waits, whatever the inputs.
pub proof fn lemma_skybox_loaded_means_attached(
    already_loaded: bool,
    asset_ready: bool,
    image: Option<SkyboxImage>,
    has_camera: bool,
)
    ensures
        ({
            let r = spec_skybox_step(already_loaded, asset_ready, image, has_camera);
            &&& r.1 <==> (already_loaded || attaches(r.0))
            &&& already_loaded ==> r == (SkyboxStep::Wait, true)
        }),
{
}

} // verus!
