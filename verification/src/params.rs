use vstd::arithmetic::div_mod::{lemma_fundamental_div_mod, lemma_mod_bound};
use vstd::arithmetic::power2::{
    lemma2_to64, lemma_pow2_pos, lemma_pow2_strictly_increases, lemma_pow2_unfold, pow2,
};
use vstd::prelude::*;

verus! {

/// The shape of a finalized circuit.
pub struct CircuitParams {
    /// The circuit has `2^k` rows.
    pub k: usize,
    /// Advice columns, per phase.
    pub num_advice_per_phase: Vec<usize>,
    /// Fixed columns.
    pub num_fixed: usize,
    /// Advice columns with the range lookup enabled, per phase.
    pub num_lookup_advice_per_phase: Vec<usize>,
    /// The lookup table holds `2^lookup_bits` rows; `None` without a table.
    pub lookup_bits: Option<usize>,
    /// Public instance columns.
    pub num_instance_columns: usize,
}

/// A `CircuitParams` as a mathematical value.
#[verifier::ext_equal]
pub struct ParamsView {
    pub k: usize,
    pub num_advice_per_phase: Seq<usize>,
    pub num_fixed: usize,
    pub num_lookup_advice_per_phase: Seq<usize>,
    pub lookup_bits: Option<usize>,
    pub num_instance_columns: usize,
}

impl View for CircuitParams {
    type V = ParamsView;

    open spec fn view(&self) -> ParamsView {
        ParamsView {
            k: self.k,
            num_advice_per_phase: self.num_advice_per_phase@,
            num_fixed: self.num_fixed,
            num_lookup_advice_per_phase: self.num_lookup_advice_per_phase@,
            lookup_bits: self.lookup_bits,
            num_instance_columns: self.num_instance_columns,
        }
    }
}

impl ParamsView {
    /// The shape before anything was configured.
    pub open spec fn unset() -> ParamsView {
        ParamsView {
            k: 0,
            num_advice_per_phase: Seq::empty(),
            num_fixed: 0,
            num_lookup_advice_per_phase: Seq::empty(),
            lookup_bits: None,
            num_instance_columns: 0,
        }
    }
}

impl Clone for CircuitParams {
    fn clone(&self) -> (copy: Self)
        ensures
            copy@ == self@,
    {
        CircuitParams {
            k: self.k,
            num_advice_per_phase: self.num_advice_per_phase.clone(),
            num_fixed: self.num_fixed,
            num_lookup_advice_per_phase: self.num_lookup_advice_per_phase.clone(),
            lookup_bits: self.lookup_bits,
            num_instance_columns: self.num_instance_columns,
        }
    }
}

/// Whether a circuit of degree `k` has a row count that a `usize` can hold.
pub open spec fn degree_in_range(k: usize) -> bool {
    0 < k && pow2(k as nat) <= usize::MAX
}

/// The rows of a circuit of degree `k`: `Some(2^k)` where a `usize` holds it.
pub fn row_capacity(k: usize) -> (rows: Option<usize>)
    ensures
        rows == (if pow2(k as nat) <= usize::MAX {
            Some(pow2(k as nat) as usize)
        } else {
            None
        }),
{
    let mut rows: usize = 1;
    let mut done: usize = 0;
    proof {
        lemma2_to64();
    }
    while done < k
        invariant
            done <= k,
            rows == pow2(done as nat),
        decreases k - done,
    {
        proof {
            lemma_pow2_unfold((done + 1) as nat);
        }
        match rows.checked_mul(2) {
            Some(doubled) => {
                rows = doubled;
                done = done + 1;
            },
            None => {
                proof {
                    if done + 1 < k {
                        lemma_pow2_strictly_increases((done + 1) as nat, k as nat);
                    }
                }
                return None;
            },
        }
    }
    Some(rows)
}

/// Whether a recorded shape fits its own degree: the degree is set, its row
/// count is representable, and every recorded break point is a row of the circuit.
pub open spec fn shape_fits(params: ParamsView, break_points: Seq<Seq<usize>>) -> bool {
    &&& degree_in_range(params.k)
    &&& forall|phase: int, i: int|
        0 <= phase < break_points.len() && 0 <= i < break_points[phase].len()
            ==> (#[trigger] break_points[phase][i]) < pow2(params.k as nat)
}

/// Whether every entry of `rows` is below `bound`.
fn all_below(rows: &Vec<usize>, bound: usize) -> (below: bool)
    ensures
        below == (forall|i: int| 0 <= i < rows@.len() ==> (#[trigger] rows@[i]) < bound),
{
    let mut i: usize = 0;
    while i < rows.len()
        invariant
            i <= rows@.len(),
            forall|j: int| 0 <= j < i ==> (#[trigger] rows@[j]) < bound,
        decreases rows@.len() - i,
    {
        if rows[i] >= bound {
            return false;
        }
        i = i + 1;
    }
    true
}

/// Decides `shape_fits` for a recorded configuration and its break points.
pub fn check_shape(params: &CircuitParams, break_points: &Vec<Vec<usize>>) -> (fits: bool)
    ensures
        fits == shape_fits(params@, break_points.deep_view()),
{
    if params.k == 0 {
        return false;
    }
    let rows: usize = match row_capacity(params.k) {
        Some(rows) => rows,
        None => {
            return false;
        },
    };
    let ghost deep = break_points.deep_view();
    let mut phase: usize = 0;
    while phase < break_points.len()
        invariant
            phase <= break_points@.len(),
            deep == break_points.deep_view(),
            rows == pow2(params.k as nat),
            forall|p: int, i: int|
                0 <= p < phase && 0 <= i < deep[p].len() ==> (#[trigger] deep[p][i]) < rows,
        decreases break_points@.len() - phase,
    {
        assert(deep[phase as int] == break_points@[phase as int]@);
        if !all_below(&break_points[phase], rows) {
            return false;
        }
        phase = phase + 1;
    }
    true
}

/// The rows left for the circuit once `minimum_rows` are set aside for blinding.
pub open spec fn usable_rows(k: usize, minimum_rows: usize) -> int {
    pow2(k as nat) - minimum_rows
}

/// Whether blinding rows can be set aside in a circuit of degree `k` and leave a row to use.
pub open spec fn rows_reserved(k: usize, minimum_rows: usize) -> bool {
    degree_in_range(k) && minimum_rows < pow2(k as nat)
}

/// The columns that `cells` cells take where a column holds `usable` of them:
/// their quotient, rounded up.
pub open spec fn columns_needed(cells: int, usable: int) -> int {
    (cells + usable - 1) / usable
}

/// The rows that `cells` cells take in each of `columns` columns: their
/// quotient, rounded up, and none where there is no cell.
pub open spec fn rows_needed(cells: int, columns: int) -> int {
    if cells <= 0 {
        0
    } else {
        (cells + columns - 1) / columns
    }
}

/// Reserving blinding rows never takes the circuit beyond its `2^k` rows: the
/// usable rows and the blinding rows together are exactly the rows of the circuit.
pub proof fn lemma_reserved_rows_fit(k: usize, minimum_rows: usize)
    requires
        rows_reserved(k, minimum_rows),
    ensures
        0 < usable_rows(k, minimum_rows) <= pow2(k as nat),
        usable_rows(k, minimum_rows) + minimum_rows == pow2(k as nat),
        usable_rows(k, minimum_rows) <= usize::MAX,
{
    lemma_pow2_pos(k as nat);
}

/// With as many columns as the cells need, no column takes more rows than it
/// may use.
pub proof fn lemma_columns_leave_rows(cells: int, usable: int)
    requires
        0 <= cells,
        0 < usable,
    ensures
        cells > 0 ==> columns_needed(cells, usable) > 0,
        cells <= columns_needed(cells, usable) * usable,
        rows_needed(cells, columns_needed(cells, usable)) <= usable,
{
    let columns = columns_needed(cells, usable);
    lemma_fundamental_div_mod(cells + usable - 1, usable);
    lemma_mod_bound(cells + usable - 1, usable);
    assert(cells <= columns * usable) by (nonlinear_arith)
        requires
            cells + usable - 1 == usable * columns + (cells + usable - 1) % usable,
            0 <= (cells + usable - 1) % usable < usable,
    ;
    if cells > 0 {
        assert(columns > 0) by (nonlinear_arith)
            requires
                cells <= columns * usable,
                cells > 0,
                usable > 0,
        ;
        assert((cells + columns - 1) / columns <= usable) by (nonlinear_arith)
            requires
                columns > 0,
                cells <= columns * usable,
        ;
    }
}

/// A column takes no more than `usable` rows exactly where the columns,
/// filled to `usable` rows each, hold all the cells.
pub proof fn lemma_rows_needed_bound(cells: int, columns: int, usable: int)
    requires
        0 < cells,
        0 < columns,
        0 <= usable,
    ensures
        rows_needed(cells, columns) <= usable <==> cells <= columns * usable,
{
    if cells <= columns * usable {
        assert((cells + columns - 1) / columns <= usable) by (nonlinear_arith)
            requires
                columns > 0,
                cells <= columns * usable,
        ;
    } else {
        assert((cells + columns - 1) / columns > usable) by (nonlinear_arith)
            requires
                columns > 0,
                cells > columns * usable,
        ;
    }
}

/// Whether the columns of every phase hold the cells of the phase in
/// `usable` rows each: a phase with cells has an entry in `columns`, which
/// names at least one column, and no column takes more than `usable` rows.
pub open spec fn columns_hold(cells: Seq<usize>, columns: Seq<usize>, usable: int) -> bool {
    forall|phase: int|
        0 <= phase < cells.len() ==> (#[trigger] cells[phase]) == 0 || (phase < columns.len()
            && columns[phase] > 0 && rows_needed(cells[phase] as int, columns[phase] as int)
            <= usable)
}

/// Decides `columns_hold` for the cells recorded in each phase and the
/// advice columns that a configuration names for it.
pub fn check_columns(cells: &Vec<usize>, columns: &Vec<usize>, usable: usize) -> (hold: bool)
    ensures
        hold == columns_hold(cells@, columns@, usable as int),
{
    let mut phase: usize = 0;
    while phase < cells.len()
        invariant
            phase <= cells@.len(),
            forall|p: int|
                0 <= p < phase ==> (#[trigger] cells@[p]) == 0 || (p < columns@.len()
                    && columns@[p] > 0 && rows_needed(cells@[p] as int, columns@[p] as int)
                    <= usable),
        decreases cells@.len() - phase,
    {
        let recorded: usize = cells[phase];
        if recorded > 0 {
            if phase >= columns.len() {
                return false;
            }
            let count: usize = columns[phase];
            if count == 0 {
                return false;
            }
            proof {
                lemma_rows_needed_bound(recorded as int, count as int, usable as int);
            }
            match count.checked_mul(usable) {
                Some(room) => {
                    if recorded > room {
                        return false;
                    }
                },
                None => {},
            }
        }
        phase = phase + 1;
    }
    true
}

/// In a circuit sized for its cells, the rows that a column takes and the
/// blinding rows together stay within the `2^k` rows of the circuit.
pub proof fn lemma_sized_rows_fit(k: usize, minimum_rows: usize, cells: usize)
    requires
        rows_reserved(k, minimum_rows),
    ensures
        rows_needed(cells as int, columns_needed(cells as int, usable_rows(k, minimum_rows)))
            + minimum_rows <= pow2(k as nat),
{
    lemma_reserved_rows_fit(k, minimum_rows);
    lemma_columns_leave_rows(cells as int, usable_rows(k, minimum_rows));
}

} // verus!
