//! The static travel network: 48 cities and their declared adjacency lists.
//!
//! The table is the canonical board geography: each city's neighbor list is
//! fixed, ordered, and never changes after process start.

use vstd::prelude::*;
use crate::errors::Error;

verus! {

/// Total number of cities on the board; a fixed constant of the simulated
/// world, not configurable.
pub const CITY_COUNT: usize = 48;

/// The four disease-strain colors. Today a color serves only as a player's
/// affiliation tag; it is reserved for future per-city infection tracking.
#[derive(Debug, Clone, Copy, PartialEq, Eq, Structural)]
pub enum Virus {
    Blue,
    Red,
    Yellow,
    Black,
}

/// The adjacency list of city `i`, in declaration order. Rows outside
/// `[0, CITY_COUNT)` are empty. This is the mathematical form of the one
/// canonical adjacency table; every executable query is proved against it.
pub open spec fn grid_row(i: int) -> Seq<usize> {
    if i == 0 { seq![7usize, 25, 35, 14] }
    else if i == 1 { seq![47usize, 9, 28] }
    else if i == 2 { seq![36usize, 7, 45, 14, 17] }
    else if i == 3 { seq![8usize, 12, 13, 15, 20] }
    else if i == 4 { seq![40usize, 41] }
    else if i == 5 { seq![6usize, 39, 22, 27, 28] }
    else if i == 6 { seq![39usize, 5] }
    else if i == 7 { seq![0usize, 2, 36, 14, 18] }
    else if i == 8 { seq![32usize, 3, 10, 15, 20] }
    else if i == 9 { seq![1usize, 37, 24, 27, 30] }
    else if i == 10 { seq![32usize, 8, 45, 17, 20] }
    else if i == 11 { seq![23usize, 42, 35, 29] }
    else if i == 12 { seq![15usize, 26, 3, 13] }
    else if i == 13 { seq![3usize, 41, 12, 44, 20] }
    else if i == 14 { seq![31usize, 0, 2, 7, 42, 29] }
    else if i == 15 { seq![8usize, 3, 12, 43] }
    else if i == 16 { seq![18usize, 19] }
    else if i == 17 { seq![32usize, 2, 36, 10, 45] }
    else if i == 18 { seq![7usize, 16, 19, 21] }
    else if i == 19 { seq![16usize, 18, 21] }
    else if i == 20 { seq![8usize, 10, 3, 13] }
    else if i == 21 { seq![39usize, 18, 19] }
    else if i == 22 { seq![27usize, 5, 38] }
    else if i == 23 { seq![33usize, 25, 35, 11] }
    else if i == 24 { seq![9usize, 43, 27, 37] }
    else if i == 25 { seq![39usize, 0, 33, 23] }
    else if i == 26 { seq![12usize, 43, 44, 37] }
    else if i == 27 { seq![5usize, 9, 22, 24, 28] }
    else if i == 28 { seq![47usize, 1, 27, 5] }
    else if i == 29 { seq![35usize, 11, 14] }
    else if i == 30 { seq![47usize, 9, 33] }
    else if i == 31 { seq![42usize, 45, 14] }
    else if i == 32 { seq![8usize, 17, 10] }
    else if i == 33 { seq![47usize, 23, 25, 30] }
    else if i == 34 { seq![44usize, 46] }
    else if i == 35 { seq![23usize, 0, 11, 29] }
    else if i == 36 { seq![7usize, 17, 2] }
    else if i == 37 { seq![24usize, 9, 26, 46] }
    else if i == 38 { seq![22usize] }
    else if i == 39 { seq![25usize, 6, 21, 5] }
    else if i == 40 { seq![41usize, 4, 46] }
    else if i == 41 { seq![40usize, 4, 13, 46] }
    else if i == 42 { seq![31usize, 11, 14] }
    else if i == 43 { seq![15usize, 24, 26] }
    else if i == 44 { seq![26usize, 34, 13] }
    else if i == 45 { seq![31usize, 2, 17, 10] }
    else if i == 46 { seq![40usize, 41, 34, 37] }
    else if i == 47 { seq![1usize, 33, 28, 30] }
    else { seq![] }
}

pub(crate) fn city_row(city_id: usize) -> (r: Vec<usize>)
    requires
        city_id < CITY_COUNT,
    ensures
        r@ == grid_row(city_id as int),
{
    let r: Vec<usize> = match city_id {
        0 => vec![7, 25, 35, 14],
        1 => vec![47, 9, 28],
        2 => vec![36, 7, 45, 14, 17],
        3 => vec![8, 12, 13, 15, 20],
        4 => vec![40, 41],
        5 => vec![6, 39, 22, 27, 28],
        6 => vec![39, 5],
        7 => vec![0, 2, 36, 14, 18],
        8 => vec![32, 3, 10, 15, 20],
        9 => vec![1, 37, 24, 27, 30],
        10 => vec![32, 8, 45, 17, 20],
        11 => vec![23, 42, 35, 29],
        12 => vec![15, 26, 3, 13],
        13 => vec![3, 41, 12, 44, 20],
        14 => vec![31, 0, 2, 7, 42, 29],
        15 => vec![8, 3, 12, 43],
        16 => vec![18, 19],
        17 => vec![32, 2, 36, 10, 45],
        18 => vec![7, 16, 19, 21],
        19 => vec![16, 18, 21],
        20 => vec![8, 10, 3, 13],
        21 => vec![39, 18, 19],
        22 => vec![27, 5, 38],
        23 => vec![33, 25, 35, 11],
        24 => vec![9, 43, 27, 37],
        25 => vec![39, 0, 33, 23],
        26 => vec![12, 43, 44, 37],
        27 => vec![5, 9, 22, 24, 28],
        28 => vec![47, 1, 27, 5],
        29 => vec![35, 11, 14],
        30 => vec![47, 9, 33],
        31 => vec![42, 45, 14],
        32 => vec![8, 17, 10],
        33 => vec![47, 23, 25, 30],
        34 => vec![44, 46],
        35 => vec![23, 0, 11, 29],
        36 => vec![7, 17, 2],
        37 => vec![24, 9, 26, 46],
        38 => vec![22],
        39 => vec![25, 6, 21, 5],
        40 => vec![41, 4, 46],
        41 => vec![40, 4, 13, 46],
        42 => vec![31, 11, 14],
        43 => vec![15, 24, 26],
        44 => vec![26, 34, 13],
        45 => vec![31, 2, 17, 10],
        46 => vec![40, 41, 34, 37],
        47 => vec![1, 33, 28, 30],
        _ => Vec::new(),
    };
    proof {
        assert(r@ =~= grid_row(city_id as int));
    }
    r
}

/// The fixed, pre-declared adjacency list of `city_id`, in declaration
/// order, or `OutOfRange` when `city_id` is not a valid city index.
///
/// The table never changes, so the same id always yields the same list;
/// there are no other side effects.
pub fn city_neighbors(city_id: usize) -> (r: Result<Vec<usize>, Error>)
    ensures
        r is Ok <==> city_id < CITY_COUNT,
        r matches Ok(v) ==> v@ == grid_row(city_id as int),
        r matches Err(e) ==> e == Error::OutOfRange,
{
    if city_id < CITY_COUNT {
        Ok(city_row(city_id))
    } else {
        Err(Error::OutOfRange)
    }
}

/// Every id that appears in any adjacency list is itself a valid city
/// index: the travel network never points off the board.
pub proof fn lemma_grid_in_range(i: int, j: int)
    requires
        0 <= j < grid_row(i).len(),
    ensures
        grid_row(i)[j] < CITY_COUNT,
{
}

/// One node of the travel network: a city id together with its fixed,
/// ordered list of neighboring city ids.
#[derive(Debug)]
pub struct City {
    pub id: usize,
    pub neighbors: Vec<usize>,
}

impl City {
    /// A well-formed city has a valid id and carries exactly the canonical
    /// adjacency list declared for that id.
    pub open spec fn wf(self) -> bool {
        &&& self.id < CITY_COUNT
        &&& self.neighbors@ == grid_row(self.id as int)
    }

    /// Builds the city node for `id`, or `OutOfRange` when `id` is not a
    /// valid city index.
    pub fn new(id: usize) -> (r: Result<City, Error>)
        ensures
            r is Ok <==> id < CITY_COUNT,
            r matches Ok(c) ==> c.wf() && c.id == id,
            r matches Err(e) ==> e == Error::OutOfRange,
    {
        if id < CITY_COUNT {
            Ok(City { id, neighbors: city_row(id) })
        } else {
            Err(Error::OutOfRange)
        }
    }
}

} // verus!
