use vstd::prelude::*;

verus! {

/// A terrain tile, named by its grid coordinates `(x, z)`.
#[derive(Clone, Copy, Debug, PartialEq, Eq)]
pub struct TerrainTile {
    pub id: (u32, u32),
}

/// The tiles of a `size × size` terrain, row by row: tile `z * size + x` is `(x, z)`.
pub open spec fn terrain_grid(size: nat) -> Seq<TerrainTile> {
    Seq::new(
        size * size,
        |k: int| TerrainTile { id: ((k % size as int) as u32, (k / size as int) as u32) },
    )
}

/// Lays out the tiles of a `size × size` terrain, row by row.
pub fn generate_tiles(size: u32) -> (r: Vec<TerrainTile>)
    requires
        size as int * size as int <= usize::MAX,
    ensures
        r@ == terrain_grid(size as nat),
{
    let mut tiles: Vec<TerrainTile> = Vec::new();
    let mut z: u32 = 0;
    while z < size
        invariant
            z <= size,
            tiles@.len() == z as int * size as int,
            forall|k: int|
                0 <= k < tiles@.len() ==> #[trigger] tiles@[k] == terrain_grid(size as nat)[k],
        decreases size - z,
    {
        let mut x: u32 = 0;
        while x < size
            invariant
                z < size,
                x <= size,
                tiles@.len() == z as int * size as int + x,
                forall|k: int|
                    0 <= k < tiles@.len() ==> #[trigger] tiles@[k] == terrain_grid(size as nat)[k],
            decreases size - x,
        {
            let ghost k = tiles@.len() as int;
            proof {
                vstd::arithmetic::div_mod::lemma_fundamental_div_mod_converse(
                    k,
                    size as int,
                    z as int,
                    x as int,
                );
                assert(k < size as int * size as int) by (nonlinear_arith)
                    requires
                        k == z as int * size as int + x,
                        z < size,
                        x < size,
                ;
            }
            tiles.push(TerrainTile { id: (x, z) });
            x = x + 1;
        }
        assert(z as int * size as int + size as int == (z as int + 1) * size as int)
            by (nonlinear_arith);
        z = z + 1;
    }
    assert(tiles@ =~= terrain_grid(size as nat));
    tiles
}

/// The tiles whose coordinates both lie in `0..extent`, in their given order.
pub open spec fn window_filter(tiles: Seq<TerrainTile>, extent: u32) -> Seq<TerrainTile> {
    tiles.filter(|t: TerrainTile| t.id.0 < extent && t.id.1 < extent)
}

/// Picks the tiles to draw: those whose coordinates both lie in `0..extent`,
/// kept in their given order.
pub fn tiles_in_window(tiles: &Vec<TerrainTile>, extent: u32) -> (r: Vec<TerrainTile>)
    ensures
        r@ == window_filter(tiles@, extent),
{
    let mut picked: Vec<TerrainTile> = Vec::new();
    let mut i: usize = 0;
    while i < tiles.len()
        invariant
            i <= tiles@.len(),
            picked@ == window_filter(tiles@.subrange(0, i as int), extent),
        decreases tiles@.len() - i,
    {
        let t = tiles[i];
        proof {
            reveal(Seq::filter);
            assert(tiles@.subrange(0, i + 1).drop_last() =~= tiles@.subrange(0, i as int));
        }
        if t.id.0 < extent && t.id.1 < extent {
            picked.push(t);
        }
        i = i + 1;
    }
    assert(tiles@.subrange(0, tiles@.len() as int) =~= tiles@);
    picked
}

} // verus!
