use vstd::prelude::*;
use rand::rngs::StdRng;
use crate::random::draw_below;

verus! {

/// The terrain archetypes; each selects a synthesis pipeline and a grid size.
#[derive(Debug, Clone, Copy, PartialEq, Eq, Structural)]
pub enum Terrain {
    Mountains,
    Foothills,
    Coast,
    Fault,
}

/// The archetype that a draw `n` from `0..4` selects; draws past 3 select `Fault`.
pub open spec fn terrain_of_draw(n: u32) -> Terrain {
    if n == 0 {
        Terrain::Mountains
    } else if n == 1 {
        Terrain::Foothills
    } else if n == 2 {
        Terrain::Coast
    } else {
        Terrain::Fault
    }
}

impl Terrain {
    /// Side length, in cells, of the square grid that this archetype is synthesised on.
    pub open spec fn spec_cells(self) -> nat {
        match self {
            Terrain::Mountains => 33,
            Terrain::Foothills => 65,
            Terrain::Coast => 256,
            Terrain::Fault => 65,
        }
    }

    /// The archetype selected by a uniform draw `n` from `0..4`.
    pub fn from_draw(n: u32) -> (t: Terrain)
        ensures
            t == terrain_of_draw(n),
    {
        match n {
            0 => Terrain::Mountains,
            1 => Terrain::Foothills,
            2 => Terrain::Coast,
            _ => Terrain::Fault,
        }
    }

    /// Draws an archetype, each of the four with probability one quarter.
    pub fn sample(rng: &mut StdRng) -> (t: Terrain)
        ensures
            exists|n: u32| n < 4 && t == terrain_of_draw(n),
    {
        let n = draw_below(rng, 4);
        Terrain::from_draw(n)
    }

    /// Grid side length: `2^5 + 1`, `2^6 + 1`, `2^8` and `2^6 + 1`.
    pub fn cells(&self) -> (r: u32)
        ensures
            r == self.spec_cells(),
    {
        match self {
            Terrain::Mountains => 33,
            Terrain::Foothills => 65,
            Terrain::Coast => 256,
            Terrain::Fault => 65,
        }
    }
}

/// The four corner cells `(col, row)` of a square grid `cells` wide, in the order
/// in which their elevations are seeded.
pub open spec fn corners_of(cells: nat) -> Seq<(nat, nat)> {
    let e = (cells - 1) as nat;
    seq![(0, 0), (0, e), (e, 0), (e, e)]
}

/// The corner cells of a square grid `cells` wide.
pub fn corner_cells(cells: u32) -> (r: Vec<(u32, u32)>)
    requires
        cells >= 1,
    ensures
        r@.len() == 4,
        forall|k: int| 0 <= k < 4 ==> (#[trigger] r@[k].0 as nat, r@[k].1 as nat) == corners_of(
            cells as nat,
        )[k],
{
    let e = cells - 1;
    let r = vec![(0, 0), (0, e), (e, 0), (e, e)];
    r
}

} // verus!
