//! The catalog of noise functions that can be evaluated against a seed.
//!
//! Each entry binds one noise family, cell output mode and metric to a fixed
//! number of coordinate components. Perlin and cell noise come in two, three
//! and four dimensions; OpenSimplex noise in two and three.

use vstd::prelude::*;
use vstd::string::StringExecFns;

verus! {

/// What a cell (Voronoi-style) noise function returns.
#[derive(Clone, Copy, Debug, PartialEq, Eq, Structural)]
pub enum CellOutput {
    /// The value attached to the nearest feature point.
    Value,
    /// The distance to the nearest feature point.
    Range,
    /// The inverse of the distance range to the nearest feature point.
    RangeInv,
}

/// The distance function that decides which feature point is nearest.
#[derive(Clone, Copy, Debug, PartialEq, Eq, Structural)]
pub enum Metric {
    Euclidean,
    Manhattan,
}

/// A noise algorithm, independent of its dimensionality.
#[derive(Clone, Copy, Debug, PartialEq, Eq, Structural)]
pub enum Algorithm {
    Perlin,
    OpenSimplex,
    Cell(CellOutput, Metric),
}

/// Whether `algorithm` is offered with `dims` coordinate components.
pub open spec fn supported(algorithm: Algorithm, dims: nat) -> bool {
    &&& 2 <= dims <= 4
    &&& (algorithm == Algorithm::OpenSimplex ==> dims <= 3)
}

/// Position of a cell output mode within one metric's group of entries.
pub open spec fn output_rank(output: CellOutput) -> int {
    match output {
        CellOutput::Value => 0,
        CellOutput::Range => 1,
        CellOutput::RangeInv => 2,
    }
}

/// Position of a metric's group among the cell entries.
pub open spec fn metric_rank(metric: Metric) -> int {
    match metric {
        Metric::Euclidean => 0,
        Metric::Manhattan => 1,
    }
}

/// Where the entry for `algorithm` in `dims` dimensions stands in the
/// catalog: Perlin first, then OpenSimplex, then cell noise grouped by
/// metric and output mode, each group in increasing dimension.
pub open spec fn catalog_index(algorithm: Algorithm, dims: nat) -> int {
    match algorithm {
        Algorithm::Perlin => dims - 2,
        Algorithm::OpenSimplex => 3 + dims - 2,
        Algorithm::Cell(output, metric) => 5 + 3 * (3 * metric_rank(metric) + output_rank(output))
            + dims - 2,
    }
}

/// The digit that ends a symbol name for `dims` dimensions.
pub open spec fn dims_text(dims: nat) -> Seq<char> {
    if dims == 2 {
        "2"@
    } else if dims == 3 {
        "3"@
    } else {
        "4"@
    }
}

/// The part of a cell noise symbol name that names the metric; Euclidean is
/// the unmarked default.
pub open spec fn metric_text(metric: Metric) -> Seq<char> {
    match metric {
        Metric::Euclidean => ""@,
        Metric::Manhattan => "_manhattan"@,
    }
}

/// The part of a cell noise symbol name that names the output mode.
pub open spec fn output_text(output: CellOutput) -> Seq<char> {
    match output {
        CellOutput::Value => "_value"@,
        CellOutput::Range => "_range"@,
        CellOutput::RangeInv => "_range_inv"@,
    }
}

/// The exported symbol name of the entry for `algorithm` in `dims`
/// dimensions, such as `noise_perlin3` or `noise_cell2_manhattan_range_inv`.
pub open spec fn symbol_of(algorithm: Algorithm, dims: nat) -> Seq<char> {
    match algorithm {
        Algorithm::Perlin => "noise_perlin"@ + dims_text(dims),
        Algorithm::OpenSimplex => "noise_open_simplex"@ + dims_text(dims),
        Algorithm::Cell(output, metric) => "noise_cell"@ + dims_text(dims) + metric_text(metric)
            + output_text(output),
    }
}

/// The number of entries in the catalog.
pub const CATALOG_LEN: usize = 23;

/// One catalog entry: a noise algorithm at a fixed arity.
#[derive(Clone, Copy, Debug, PartialEq, Eq, Structural)]
pub struct Entry {
    algorithm: Algorithm,
    dims: usize,
}

impl Entry {
    /// The algorithm this entry evaluates.
    pub closed spec fn spec_algorithm(&self) -> Algorithm {
        self.algorithm
    }

    /// The exact number of coordinate components this entry takes.
    pub closed spec fn arity(&self) -> nat {
        self.dims as nat
    }

    /// Every entry names an algorithm at an arity it is offered with.
    pub open spec fn wf(&self) -> bool {
        supported(self.spec_algorithm(), self.arity())
    }

    /// The entry for `algorithm` in `dims` dimensions, if the catalog has one.
    pub fn new(algorithm: Algorithm, dims: usize) -> (r: Option<Entry>)
        ensures
            r is Some <==> supported(algorithm, dims as nat),
            r matches Some(e) ==> e.wf() && e.spec_algorithm() == algorithm && e.arity() == dims,
    {
        let fits = 2 <= dims && dims <= 4;
        let offered = match algorithm {
            Algorithm::OpenSimplex => dims <= 3,
            _ => true,
        };
        if fits && offered {
            Some(Entry { algorithm, dims })
        } else {
            None
        }
    }

    /// The algorithm this entry evaluates.
    pub fn algorithm(&self) -> (r: Algorithm)
        ensures
            r == self.spec_algorithm(),
    {
        self.algorithm
    }

    /// The exact number of coordinate components this entry takes.
    pub fn dims(&self) -> (r: usize)
        ensures
            r == self.arity(),
    {
        self.dims
    }

    /// The exported symbol name of this entry.
    pub fn symbol(&self) -> (r: String)
        requires
            self.wf(),
        ensures
            r@ == symbol_of(self.spec_algorithm(), self.arity()),
    {
        let digit: &str = if self.dims == 2 {
            "2"
        } else if self.dims == 3 {
            "3"
        } else {
            "4"
        };
        match self.algorithm {
            Algorithm::Perlin => String::from_str("noise_perlin").concat(digit),
            Algorithm::OpenSimplex => String::from_str("noise_open_simplex").concat(digit),
            Algorithm::Cell(output, metric) => {
                let metric_part: &str = match metric {
                    Metric::Euclidean => "",
                    Metric::Manhattan => "_manhattan",
                };
                let output_part: &str = match output {
                    CellOutput::Value => "_value",
                    CellOutput::Range => "_range",
                    CellOutput::RangeInv => "_range_inv",
                };
                String::from_str("noise_cell").concat(digit).concat(metric_part).concat(
                    output_part,
                )
            },
        }
    }
}

/// Appends the entries of `algorithm` for `low` through `high` dimensions.
fn push_dims(v: &mut Vec<Entry>, algorithm: Algorithm, low: usize, high: usize)
    requires
        2 <= low <= high <= 4,
        old(v)@.len() + 3 <= usize::MAX,
    ensures
        final(v)@.len() == old(v)@.len() + (high - low + 1),
        forall|i: int| 0 <= i < old(v)@.len() ==> #[trigger] final(v)@[i] == old(v)@[i],
        forall|i: int|
            old(v)@.len() <= i < final(v)@.len() ==> (#[trigger] final(v)@[i]).spec_algorithm()
                == algorithm && final(v)@[i].arity() == low + (i - old(v)@.len()),
{
    let mut d: usize = low;
    while d <= high
        invariant
            low <= d <= high + 1,
            high <= 4,
            v@.len() == old(v)@.len() + (d - low),
            forall|i: int| 0 <= i < old(v)@.len() ==> #[trigger] v@[i] == old(v)@[i],
            forall|i: int|
                old(v)@.len() <= i < v@.len() ==> (#[trigger] v@[i]).spec_algorithm() == algorithm
                    && v@[i].arity() == low + (i - old(v)@.len()),
        decreases high + 1 - d,
    {
        v.push(Entry { algorithm, dims: d });
        d = d + 1;
    }
}

/// Every entry of the catalog, in the order that `catalog_index` gives: one
/// per supported pair of algorithm and dimensionality, each exactly once.
pub fn catalog() -> (r: Vec<Entry>)
    ensures
        r@.len() == CATALOG_LEN,
        forall|i: int|
            0 <= i < r@.len() ==> (#[trigger] r@[i]).wf() && catalog_index(
                r@[i].spec_algorithm(),
                r@[i].arity(),
            ) == i,
        forall|a: Algorithm, d: nat|
            #[trigger] supported(a, d) ==> {
                let i = catalog_index(a, d);
                &&& 0 <= i < r@.len()
                &&& r@[i].spec_algorithm() == a
                &&& r@[i].arity() == d
            },
        forall|i: int, j: int|
            0 <= i < j < r@.len() ==> (#[trigger] r@[i]).spec_algorithm()
                != (#[trigger] r@[j]).spec_algorithm() || r@[i].arity() != r@[j].arity(),
{
    let mut r: Vec<Entry> = Vec::new();
    push_dims(&mut r, Algorithm::Perlin, 2, 4);
    push_dims(&mut r, Algorithm::OpenSimplex, 2, 3);
    push_dims(&mut r, Algorithm::Cell(CellOutput::Value, Metric::Euclidean), 2, 4);
    push_dims(&mut r, Algorithm::Cell(CellOutput::Range, Metric::Euclidean), 2, 4);
    push_dims(&mut r, Algorithm::Cell(CellOutput::RangeInv, Metric::Euclidean), 2, 4);
    push_dims(&mut r, Algorithm::Cell(CellOutput::Value, Metric::Manhattan), 2, 4);
    push_dims(&mut r, Algorithm::Cell(CellOutput::Range, Metric::Manhattan), 2, 4);
    push_dims(&mut r, Algorithm::Cell(CellOutput::RangeInv, Metric::Manhattan), 2, 4);
    r
}

} // verus!
