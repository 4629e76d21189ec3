//! The two scenes: a fixed arrangement of seven spheres, and a ground plane
//! strewn with small random spheres around three large ones.
use vstd::prelude::*;
use vstd::arithmetic::power2::{pow2, lemma_pow2_pos};
use crate::common::{is_draw_of, spec_kept_bits};
use crate::error::ConfigError;
use crate::hittable_list::{Entry, HittableList};
use crate::material::{Dielectric, Lambertian, Material, Metal};
use crate::scalar::{lemma_order_is_value_order, Scalar, FRACTION_RANGE, ONE_BITS};
use crate::vec3::Vec3;

verus! {

/// The pattern of `0.1`.
pub const TENTH: u64 = 0x3fb9_9999_9999_999a;

/// The pattern of `0.2`.
pub const FIFTH: u64 = 0x3fc9_9999_9999_999a;

/// The pattern of `0.4`.
pub const TWO_FIFTHS: u64 = 0x3fd9_9999_9999_999a;

/// The pattern of `0.5`.
pub const HALF: u64 = 0x3fe0_0000_0000_0000;

/// The pattern of `0.6`.
pub const THREE_FIFTHS: u64 = 0x3fe3_3333_3333_3333;

/// The pattern of `1.0 / 1.5`, the index of an air bubble in glass.
pub const TWO_THIRDS: u64 = 0x3fe5_5555_5555_5555;

/// The pattern of `0.7`.
pub const SEVEN_TENTHS: u64 = 0x3fe6_6666_6666_6666;

/// The pattern of the cosine of a quarter of pi.
pub const COS_QUARTER_PI: u64 = 0x3fe6_a09e_667f_3bcd;

/// The pattern of `0.8`.
pub const FOUR_FIFTHS: u64 = 0x3fe9_9999_9999_999a;

/// The pattern of `0.9`.
pub const NINE_TENTHS: u64 = 0x3fec_cccc_cccc_cccd;

/// The pattern of `0.95`.
pub const NINETEEN_TWENTIETHS: u64 = 0x3fee_6666_6666_6666;

/// The pattern of `1.5`, the refractive index of glass.
pub const GLASS: u64 = 0x3ff8_0000_0000_0000;

/// The pattern of `4.0`.
pub const FOUR: u64 = 0x4010_0000_0000_0000;

/// The pattern of `100.0`.
pub const HUNDRED: u64 = 0x4059_0000_0000_0000;

/// The pattern of `1000.0`.
pub const THOUSAND: u64 = 0x408f_4000_0000_0000;

/// The pattern of `-1.0`.
pub const MINUS_ONE: u64 = 0xbff0_0000_0000_0000;

/// The pattern of `-1.2`.
pub const MINUS_SIX_FIFTHS: u64 = 0xbff3_3333_3333_3333;

/// The pattern of `-4.0`.
pub const MINUS_FOUR: u64 = 0xc010_0000_0000_0000;

/// The pattern of `-100.5`.
pub const MINUS_HUNDRED_AND_HALF: u64 = 0xc059_2000_0000_0000;

/// The pattern of `-1000.0`.
pub const MINUS_THOUSAND: u64 = 0xc08f_4000_0000_0000;

/// The pattern of the opposite of the cosine of a quarter of pi.
pub const MINUS_COS_QUARTER_PI: u64 = 0xbfe6_a09e_667f_3bcd;

/// The number of cells along each side of the grid of small spheres.
pub const GRID_SIDE: u32 = 22;

/// The vector with the given three patterns.
pub open spec fn spec_triple(x: u64, y: u64, z: u64) -> Vec3 {
    Vec3 { e0: Scalar { bits: x }, e1: Scalar { bits: y }, e2: Scalar { bits: z } }
}

/// A sphere of the given centre and radius with a diffuse material.
pub open spec fn spec_diffuse(center: Vec3, radius: u64, albedo: Vec3) -> Entry {
    Entry {
        center,
        radius: Scalar { bits: radius },
        material: Material::Lambertian(Lambertian { albedo }),
    }
}

/// A sphere of the given centre and radius with a transparent material.
pub open spec fn spec_glassy(center: Vec3, radius: u64, index: u64) -> Entry {
    Entry {
        center,
        radius: Scalar { bits: radius },
        material: Material::Dielectric(Dielectric { refractive_index: Scalar { bits: index } }),
    }
}

/// A sphere of the given centre and radius with a reflective material.
pub open spec fn spec_shiny(center: Vec3, radius: u64, albedo: Vec3, fuzz: Scalar) -> Entry {
    Entry {
        center,
        radius: Scalar { bits: radius },
        material: Material::Metal(Metal { albedo, fuzz }),
    }
}

/// The fixed scene: a ground sphere, a diffuse centre, a hollow glass sphere
/// on the left (an outer shell and an inner bubble), a rough metal sphere on
/// the right, and two touching diffuse spheres, blue and red.
pub open spec fn spec_random_scene() -> Seq<Entry> {
    seq![
        spec_diffuse(
            spec_triple(0, MINUS_HUNDRED_AND_HALF, MINUS_ONE),
            HUNDRED,
            spec_triple(FOUR_FIFTHS, FOUR_FIFTHS, 0),
        ),
        spec_diffuse(spec_triple(0, 0, MINUS_SIX_FIFTHS), HALF, spec_triple(TENTH, FIFTH, HALF)),
        spec_glassy(spec_triple(MINUS_ONE, 0, MINUS_ONE), HALF, GLASS),
        spec_glassy(spec_triple(MINUS_ONE, 0, MINUS_ONE), TWO_FIFTHS, TWO_THIRDS),
        spec_shiny(
            spec_triple(ONE_BITS, 0, MINUS_ONE),
            HALF,
            spec_triple(FOUR_FIFTHS, THREE_FIFTHS, FIFTH),
            Scalar { bits: ONE_BITS },
        ),
        spec_diffuse(
            spec_triple(MINUS_COS_QUARTER_PI, 0, MINUS_ONE),
            COS_QUARTER_PI,
            spec_triple(0, 0, ONE_BITS),
        ),
        spec_diffuse(
            spec_triple(COS_QUARTER_PI, 0, MINUS_ONE),
            COS_QUARTER_PI,
            spec_triple(ONE_BITS, 0, 0),
        ),
    ]
}

/// The vector with the given three patterns.
fn triple(x: u64, y: u64, z: u64) -> (v: Vec3)
    ensures
        v == spec_triple(x, y, z),
{
    Vec3::new(Scalar::from_bits(x), Scalar::from_bits(y), Scalar::from_bits(z))
}

/// A diffuse material of the given albedo.
fn diffuse(albedo: Vec3) -> (m: Material)
    ensures
        m == Material::Lambertian(Lambertian { albedo }),
{
    Material::Lambertian(Lambertian::new(albedo))
}

/// A transparent material whose refractive index has the given pattern.
fn glassy(index: u64) -> (m: Material)
    ensures
        m == Material::Dielectric(Dielectric { refractive_index: Scalar { bits: index } }),
{
    Material::Dielectric(Dielectric { refractive_index: Scalar::from_bits(index) })
}

/// Appends a sphere whose radius is known to be positive.
fn place(world: &mut HittableList, center: Vec3, radius: u64, material: Material)
    requires
        old(world).wf(),
        0 < radius <= crate::scalar::INFINITY_BITS,
    ensures
        final(world).wf(),
        final(world).entries() == old(world).entries().push(
            Entry { center, radius: Scalar { bits: radius }, material },
        ),
{
    let _ = world.add_sphere(center, Scalar::from_bits(radius), material);
}

/// Builds the fixed scene.
pub fn random_scence() -> (world: HittableList)
    ensures
        world.wf(),
        world.entries() == spec_random_scene(),
{
    let mut world = HittableList::new();
    assert(world.entries() =~= Seq::<Entry>::empty());
    place(
        &mut world,
        triple(0, MINUS_HUNDRED_AND_HALF, MINUS_ONE),
        HUNDRED,
        diffuse(triple(FOUR_FIFTHS, FOUR_FIFTHS, 0)),
    );
    place(&mut world, triple(0, 0, MINUS_SIX_FIFTHS), HALF, diffuse(triple(TENTH, FIFTH, HALF)));
    place(&mut world, triple(MINUS_ONE, 0, MINUS_ONE), HALF, glassy(GLASS));
    place(&mut world, triple(MINUS_ONE, 0, MINUS_ONE), TWO_FIFTHS, glassy(TWO_THIRDS));
    place(
        &mut world,
        triple(ONE_BITS, 0, MINUS_ONE),
        HALF,
        Material::Metal(
            Metal { albedo: triple(FOUR_FIFTHS, THREE_FIFTHS, FIFTH), fuzz: Scalar::one() },
        ),
    );
    place(
        &mut world,
        triple(MINUS_COS_QUARTER_PI, 0, MINUS_ONE),
        COS_QUARTER_PI,
        diffuse(triple(0, 0, ONE_BITS)),
    );
    place(
        &mut world,
        triple(COS_QUARTER_PI, 0, MINUS_ONE),
        COS_QUARTER_PI,
        diffuse(triple(ONE_BITS, 0, 0)),
    );
    assert(world.entries() =~= spec_random_scene());
    world
}

/// Which material a small sphere gets.
#[derive(Clone, Copy, Debug, PartialEq, Eq, Structural)]
pub enum Kind {
    Diffuse,
    Metal,
    Glass,
}

/// What was drawn and evaluated for one cell of the grid of small spheres.
#[derive(Clone, Copy, Debug)]
pub struct CellSample {
    /// The uniform draw that picks the material.
    pub choose_mat: Scalar,
    /// The centre of the sphere, jittered within its cell.
    pub center: Vec3,
    /// The distance from the centre to the point `(4, 0.2, 0)`.
    pub clearance: Scalar,
    /// The albedo for a diffuse sphere.
    pub diffuse_albedo: Vec3,
    /// The albedo for a metal sphere.
    pub metal_albedo: Vec3,
    /// The roughness for a metal sphere.
    pub fuzz: Scalar,
}

/// The material picked by a uniform draw: diffuse below `0.8`, metal from
/// there to below `0.95`, glass from there on.
pub open spec fn spec_material_kind(choose_mat: Scalar) -> Kind {
    if choose_mat.spec_lt(Scalar { bits: FOUR_FIFTHS }) {
        Kind::Diffuse
    } else if choose_mat.spec_lt(Scalar { bits: NINETEEN_TWENTIETHS }) {
        Kind::Metal
    } else {
        Kind::Glass
    }
}

impl CellSample {
    /// A cell gets a sphere when its centre is farther than `0.9` from the
    /// point `(4, 0.2, 0)`, where a large sphere will rest.
    pub open spec fn kept(self) -> bool {
        self.clearance.spec_gt(Scalar { bits: NINE_TENTHS })
    }

    /// The material of the cell's sphere.
    pub open spec fn material(self) -> Material {
        match spec_material_kind(self.choose_mat) {
            Kind::Diffuse => Material::Lambertian(Lambertian { albedo: self.diffuse_albedo }),
            Kind::Metal => Material::Metal(Metal { albedo: self.metal_albedo, fuzz: self.fuzz }),
            Kind::Glass => Material::Dielectric(
                Dielectric { refractive_index: Scalar { bits: GLASS } },
            ),
        }
    }

    /// The cell's sphere: radius `0.2` at the jittered centre.
    pub open spec fn entry(self) -> Entry {
        Entry { center: self.center, radius: Scalar { bits: FIFTH }, material: self.material() }
    }

    /// A cell is refused when it gets a metal sphere whose roughness lies
    /// outside `[0, 1]`.
    pub open spec fn valid(self) -> bool {
        self.kept() && spec_material_kind(self.choose_mat) == Kind::Metal ==> Metal::valid_fuzz(
            self.fuzz,
        )
    }
}

/// The small spheres of the cells that get one, in the order of the cells.
pub open spec fn spec_small_spheres(samples: Seq<CellSample>) -> Seq<Entry>
    decreases samples.len(),
{
    if samples.len() == 0 {
        Seq::empty()
    } else if samples.last().kept() {
        spec_small_spheres(samples.drop_last()).push(samples.last().entry())
    } else {
        spec_small_spheres(samples.drop_last())
    }
}

/// The ground: a grey diffuse sphere of radius `1000` below the origin.
pub open spec fn spec_ground() -> Entry {
    spec_diffuse(spec_triple(0, MINUS_THOUSAND, 0), THOUSAND, spec_triple(HALF, HALF, HALF))
}

/// The three large spheres of radius `1`: glass at the origin, diffuse
/// brown behind it, and polished metal in front.
pub open spec fn spec_large_spheres() -> Seq<Entry> {
    seq![
        spec_glassy(spec_triple(0, ONE_BITS, 0), ONE_BITS, GLASS),
        spec_diffuse(
            spec_triple(MINUS_FOUR, ONE_BITS, 0),
            ONE_BITS,
            spec_triple(TWO_FIFTHS, FIFTH, TENTH),
        ),
        spec_shiny(
            spec_triple(FOUR, ONE_BITS, 0),
            ONE_BITS,
            spec_triple(SEVEN_TENTHS, THREE_FIFTHS, HALF),
            Scalar { bits: 0 },
        ),
    ]
}

/// The strewn scene: the ground, the small spheres, the large spheres.
pub open spec fn spec_final_scene(samples: Seq<CellSample>) -> Seq<Entry> {
    seq![spec_ground()] + spec_small_spheres(samples) + spec_large_spheres()
}

/// Every cell is valid.
pub open spec fn all_valid(samples: Seq<CellSample>) -> bool {
    forall|i: int| 0 <= i < samples.len() ==> (#[trigger] samples[i]).valid()
}

/// The number of draws, out of `2^53`, that give a diffuse sphere.
pub const DIFFUSE_DRAWS: u64 = 7205759403792794;

/// The number of draws, out of `2^53`, that give a diffuse or a metal sphere.
pub const OPAQUE_DRAWS: u64 = 8556839292003942;

/// The material of a uniform draw, told by the random bits it was made of:
/// the lowest `DIFFUSE_DRAWS` of the `2^53` equally likely values give a
/// diffuse sphere, those from there up to `OPAQUE_DRAWS` a metal one, and
/// the rest glass.
pub proof fn lemma_material_kind_of_draw(r: Scalar, word: u64)
    requires
        is_draw_of(r, word),
    ensures
        spec_material_kind(r) == if spec_kept_bits(word) < DIFFUSE_DRAWS {
            Kind::Diffuse
        } else if spec_kept_bits(word) < OPAQUE_DRAWS {
            Kind::Metal
        } else {
            Kind::Glass
        },
{
    let k = spec_kept_bits(word);
    let unit = pow2(1021) as int;
    let diffuse = Scalar { bits: FOUR_FIFTHS };
    let opaque = Scalar { bits: NINETEEN_TWENTIETHS };
    lemma_pow2_pos(1021);
    assert(diffuse.exponent_field() == 1022 && diffuse.fraction_field() == DIFFUSE_DRAWS
        - FRACTION_RANGE);
    assert(opaque.exponent_field() == 1022 && opaque.fraction_field() == OPAQUE_DRAWS
        - FRACTION_RANGE);
    assert(diffuse.value() == DIFFUSE_DRAWS * unit);
    assert(opaque.value() == OPAQUE_DRAWS * unit);
    lemma_order_is_value_order(r, diffuse);
    lemma_order_is_value_order(r, opaque);
    assert(k * unit < DIFFUSE_DRAWS * unit <==> k < DIFFUSE_DRAWS) by (nonlinear_arith)
        requires
            unit > 0,
    ;
    assert(k * unit < OPAQUE_DRAWS * unit <==> k < OPAQUE_DRAWS) by (nonlinear_arith)
        requires
            unit > 0,
    ;
}

/// Picks the material of a small sphere from a uniform draw.
pub fn material_kind(choose_mat: Scalar) -> (kind: Kind)
    ensures
        kind == spec_material_kind(choose_mat),
{
    if choose_mat.lt(&Scalar::from_bits(FOUR_FIFTHS)) {
        Kind::Diffuse
    } else if choose_mat.lt(&Scalar::from_bits(NINETEEN_TWENTIETHS)) {
        Kind::Metal
    } else {
        Kind::Glass
    }
}

/// The column and row, each from `-11` to `10`, of the grid cell at
/// position `k`, columns first; none beyond the last cell.
pub fn grid_cell(k: u32) -> (cell: Option<(i32, i32)>)
    ensures
        k < GRID_SIDE * GRID_SIDE ==> cell == Some(
            ((k / GRID_SIDE - 11) as i32, (k % GRID_SIDE - 11) as i32),
        ),
        k >= GRID_SIDE * GRID_SIDE ==> cell.is_none(),
{
    if k < GRID_SIDE * GRID_SIDE {
        Some(((k / GRID_SIDE) as i32 - 11, (k % GRID_SIDE) as i32 - 11))
    } else {
        None
    }
}

/// Builds the strewn scene from one sample per cell. A metal roughness
/// outside `[0, 1]` in a cell that gets a sphere is refused.
pub fn final_scence(samples: &Vec<CellSample>) -> (r: Result<HittableList, ConfigError>)
    ensures
        all_valid(samples@) ==> r.is_ok() && r.unwrap().wf() && r.unwrap().entries()
            == spec_final_scene(samples@),
        !all_valid(samples@) ==> r.is_err() && r.unwrap_err() == ConfigError::FuzzOutOfRange,
{
    let mut world = HittableList::new();
    assert(world.entries() =~= Seq::<Entry>::empty());
    place(&mut world, triple(0, MINUS_THOUSAND, 0), THOUSAND, diffuse(triple(HALF, HALF, HALF)));
    let mut k: usize = 0;
    while k < samples.len()
        invariant
            k <= samples@.len(),
            world.wf(),
            world.entries() == seq![spec_ground()] + spec_small_spheres(samples@.take(k as int)),
            all_valid(samples@.take(k as int)),
        decreases samples@.len() - k,
    {
        let sample = samples[k];
        proof {
            assert(samples@.take(k as int + 1).drop_last() =~= samples@.take(k as int));
            assert(samples@.take(k as int + 1).last() == samples@[k as int]);
        }
        if sample.clearance.gt(&Scalar::from_bits(NINE_TENTHS)) {
            let material = match material_kind(sample.choose_mat) {
                Kind::Diffuse => diffuse(sample.diffuse_albedo),
                Kind::Metal => match Metal::new(sample.metal_albedo, sample.fuzz) {
                    Ok(metal) => Material::Metal(metal),
                    Err(e) => {
                        assert(!samples@[k as int].valid());
                        return Err(e);
                    },
                },
                Kind::Glass => glassy(GLASS),
            };
            place(&mut world, sample.center, FIFTH, material);
            assert(world.entries() =~= seq![spec_ground()] + spec_small_spheres(
                samples@.take(k as int + 1),
            ));
        }
        assert forall|i: int| 0 <= i < k + 1 implies (#[trigger] samples@.take(
            k as int + 1,
        )[i]).valid() by {
            if i < k {
                assert(samples@.take(k as int)[i].valid());
            }
        }
        k += 1;
    }
    proof {
        assert(samples@.take(k as int) =~= samples@);
    }
    place(&mut world, triple(0, ONE_BITS, 0), ONE_BITS, glassy(GLASS));
    place(
        &mut world,
        triple(MINUS_FOUR, ONE_BITS, 0),
        ONE_BITS,
        diffuse(triple(TWO_FIFTHS, FIFTH, TENTH)),
    );
    place(
        &mut world,
        triple(FOUR, ONE_BITS, 0),
        ONE_BITS,
        Material::Metal(
            Metal { albedo: triple(SEVEN_TENTHS, THREE_FIFTHS, HALF), fuzz: Scalar::zero() },
        ),
    );
    assert(world.entries() =~= spec_final_scene(samples@));
    Ok(world)
}

} // verus!
