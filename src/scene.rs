use vstd::prelude::*;

verus! {

/// The kind of material a generated sphere gets.
#[derive(Clone, Copy, Debug, PartialEq, Eq, Structural)]
pub enum MaterialKind {
    Lambertian,
    Metal,
    Dielectric,
}

/// The material kind for a roll in `0..=100`: rolls up to `79` give a diffuse
/// sphere, `80` to `94` a metal one, and the rest glass.
pub fn material_for_roll(roll: u8) -> (k: MaterialKind)
    requires
        roll <= 100,
    ensures
        roll <= 79 ==> k == MaterialKind::Lambertian,
        80 <= roll <= 94 ==> k == MaterialKind::Metal,
        95 <= roll ==> k == MaterialKind::Dielectric,
{
    if roll <= 79 {
        MaterialKind::Lambertian
    } else if roll <= 94 {
        MaterialKind::Metal
    } else {
        MaterialKind::Dielectric
    }
}

/// The largest `k` with `k * k <= n`.
fn floor_sqrt(n: u32) -> (k: u32)
    ensures
        k * k <= n,
        n < (k + 1) * (k + 1),
{
    let mut k: u64 = 0;
    loop
        invariant
            k * k <= n,
            k < 65536,
        ensures
            k * k <= n < (k + 1) * (k + 1),
        decreases 65536 - k,
    {
        let next = k + 1;
        assert(next * next <= 65536 * 65536) by (nonlinear_arith)
            requires
                next <= 65536,
        ;
        if next * next > n as u64 {
            break;
        }
        assert(next < 65536) by (nonlinear_arith)
            requires
                next * next <= n,
                n <= u32::MAX,
        ;
        k = next;
    }
    k as u32
}

/// The range `from..to` of grid cells, along each of the two ground axes, in
/// which small spheres are placed when at most `max_spheres` are wanted: its
/// length is the largest `k` with `k * k <= max_spheres`, and it starts at
/// `-(k / 2)`, so that the grid is centred on the origin.
pub fn grid_range(max_spheres: u32) -> (r: (i32, i32))
    ensures
        ({
            let k = r.1 - r.0;
            &&& 0 <= k
            &&& k * k <= max_spheres < (k + 1) * (k + 1)
            &&& r.0 == -(k / 2)
        }),
{
    let k = floor_sqrt(max_spheres);
    assert(k < 65536) by (nonlinear_arith)
        requires
            k * k <= max_spheres,
            max_spheres <= u32::MAX,
    ;
    let len = k as i32;
    let from = 0 - len / 2;
    (from, from + len)
}

} // verus!
