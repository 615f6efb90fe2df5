//! Treat placement: pick a uniformly random grid cell among those not
//! occupied by the snake. The free cells are enumerated and one of them is
//! sampled by index, so the choice is uniform over the free cells and the
//! search terminates even on a crowded board; a fully occupied board is
//! reported instead of looping.

use vstd::prelude::*;
use rand::Rng;
use crate::grid::{cell_x, cell_y, index_to_coords, is_cell, MAX_SQUARES};
use crate::snake::Segment;

verus! {

/// Relies on rand::Rng::gen_range on rand::thread_rng: a sample from the
/// range `0..n` is below `n`. The call panics only on an empty range, which
/// `n > 0` rules out.
#[verifier::external_body]
fn random_below(n: u32) -> (r: u32)
    requires
        n > 0,
    ensures
        r < n,
{
    rand::thread_rng().gen_range(0..n)
}

/// Some segment of `occupied` sits at `(x, y)`.
pub open spec fn occupies(occupied: Seq<Segment>, x: int, y: int) -> bool {
    exists|i: int| 0 <= i < occupied.len() && #[trigger] occupied[i].x == x && occupied[i].y == y
}

/// Some grid cell is free of every segment in `occupied`.
pub open spec fn some_cell_free(occupied: Seq<Segment>) -> bool {
    exists|i: int| 0 <= i < MAX_SQUARES && !occupies(occupied, #[trigger] cell_x(i), cell_y(i))
}

/// True iff some segment of `occupied` sits at `(x, y)`.
fn contains_pos(occupied: &Vec<Segment>, x: i32, y: i32) -> (r: bool)
    ensures
        r == occupies(occupied@, x as int, y as int),
{
    let n = occupied.len();
    let mut i: usize = 0;
    while i < n
        invariant
            0 <= i <= n,
            n == occupied@.len(),
            forall|j: int| 0 <= j < i ==> !(#[trigger] occupied@[j].x == x && occupied@[j].y == y),
        decreases n - i,
    {
        if occupied[i].x == x && occupied[i].y == y {
            return true;
        }
        i = i + 1;
    }
    false
}

/// Picks a uniformly random grid cell not occupied by any of the given
/// segments, or `None` when every cell of the grid is occupied.
pub fn gen_treat_coords(occupied: &Vec<Segment>) -> (r: Option<(i32, i32)>)
    ensures
        r is Some <==> some_cell_free(occupied@),
        r matches Some(p) ==> is_cell(p.0 as int, p.1 as int) && !occupies(
            occupied@,
            p.0 as int,
            p.1 as int,
        ),
{
    let mut free: Vec<(i32, i32)> = Vec::new();
    let mut i: u32 = 0;
    while i < MAX_SQUARES
        invariant
            0 <= i <= MAX_SQUARES,
            free@.len() <= i,
            forall|j: int|
                0 <= j < free@.len() ==> is_cell(#[trigger] free@[j].0 as int, free@[j].1 as int)
                    && !occupies(occupied@, free@[j].0 as int, free@[j].1 as int),
            forall|k: int|
                0 <= k < i && !occupies(occupied@, #[trigger] cell_x(k), cell_y(k)) ==> exists|
                    j: int,
                |
                    0 <= j < free@.len() && #[trigger] free@[j].0 == cell_x(k) && free@[j].1
                        == cell_y(k),
        decreases MAX_SQUARES - i,
    {
        let ghost prev_free = free@;
        let (x, y) = index_to_coords(i);
        let taken = contains_pos(occupied, x, y);
        if !taken {
            free.push((x, y));
        }
        proof {
            assert forall|k: int|
                0 <= k < i + 1 && !occupies(occupied@, #[trigger] cell_x(k), cell_y(k)) implies exists|
                j: int,
            |
                0 <= j < free@.len() && #[trigger] free@[j].0 == cell_x(k) && free@[j].1 == cell_y(
                    k,
                ) by {
                if k == i {
                    let j = free@.len() - 1;
                    assert(free@[j].0 == cell_x(k) && free@[j].1 == cell_y(k));
                } else {
                    let j = choose|j: int|
                        0 <= j < prev_free.len() && #[trigger] prev_free[j].0 == cell_x(k)
                            && prev_free[j].1 == cell_y(k);
                    assert(free@[j].0 == cell_x(k) && free@[j].1 == cell_y(k));
                }
            }
        }
        i = i + 1;
    }
    if free.len() == 0 {
        assert(!some_cell_free(occupied@));
        None
    } else {
        let pick = random_below(free.len() as u32);
        let p = free[pick as usize];
        assert(some_cell_free(occupied@)) by {
            assert(is_cell(p.0 as int, p.1 as int));
            let w = choose|w: int|
                0 <= w < MAX_SQUARES && p.0 as int == cell_x(w) && p.1 as int == cell_y(w);
            assert(!occupies(occupied@, cell_x(w), cell_y(w)));
        }
        Some(p)
    }
}

} // verus!
