//! The bounds of the data: the least and the greatest coordinate on each axis
//! over the retained points of all series.

use vstd::prelude::*;
use crate::series::{Plot, Point};

verus! {

/// Point `j` of series `i` exists and is retained.
pub open spec fn retained_at(plots: Seq<Plot>, i: int, j: int) -> bool {
    0 <= i < plots.len() && 0 <= j < plots[i].points@.len() && plots[i].points@[j].retained()
}

/// The x coordinate of point `j` of series `i`.
pub open spec fn x_at(plots: Seq<Plot>, i: int, j: int) -> int {
    plots[i].points@[j].x->0 as int
}

/// The y coordinate of point `j` of series `i`.
pub open spec fn y_at(plots: Seq<Plot>, i: int, j: int) -> int {
    plots[i].points@[j].y->0 as int
}

/// No point of any series is retained.
pub open spec fn nothing_retained(plots: Seq<Plot>) -> bool {
    forall|i: int, j: int| !#[trigger] retained_at(plots, i, j)
}

/// `v` is the least x coordinate of a retained point.
pub open spec fn is_least_x(plots: Seq<Plot>, v: int) -> bool {
    &&& forall|i: int, j: int| #[trigger] retained_at(plots, i, j) ==> v <= x_at(plots, i, j)
    &&& exists|i: int, j: int| #[trigger] retained_at(plots, i, j) && x_at(plots, i, j) == v
}

/// `v` is the greatest x coordinate of a retained point.
pub open spec fn is_greatest_x(plots: Seq<Plot>, v: int) -> bool {
    &&& forall|i: int, j: int| #[trigger] retained_at(plots, i, j) ==> x_at(plots, i, j) <= v
    &&& exists|i: int, j: int| #[trigger] retained_at(plots, i, j) && x_at(plots, i, j) == v
}

/// `v` is the least y coordinate of a retained point.
pub open spec fn is_least_y(plots: Seq<Plot>, v: int) -> bool {
    &&& forall|i: int, j: int| #[trigger] retained_at(plots, i, j) ==> v <= y_at(plots, i, j)
    &&& exists|i: int, j: int| #[trigger] retained_at(plots, i, j) && y_at(plots, i, j) == v
}

/// `v` is the greatest y coordinate of a retained point.
pub open spec fn is_greatest_y(plots: Seq<Plot>, v: int) -> bool {
    &&& forall|i: int, j: int| #[trigger] retained_at(plots, i, j) ==> y_at(plots, i, j) <= v
    &&& exists|i: int, j: int| #[trigger] retained_at(plots, i, j) && y_at(plots, i, j) == v
}

/// `b` holds, in this order, the least x, the greatest x, the least y and the
/// greatest y over the retained points: each retained point lies within
/// them, and each of the four is the coordinate of a retained point.
pub open spec fn bounds_of(plots: Seq<Plot>, b: [i32; 4]) -> bool {
    &&& is_least_x(plots, b[0] as int)
    &&& is_greatest_x(plots, b[1] as int)
    &&& is_least_y(plots, b[2] as int)
    &&& is_greatest_y(plots, b[3] as int)
}

/// The least x coordinate of a retained point, where there is one.
pub open spec fn least_x(plots: Seq<Plot>) -> int {
    choose|v: int| is_least_x(plots, v)
}

/// The greatest x coordinate of a retained point, where there is one.
pub open spec fn greatest_x(plots: Seq<Plot>) -> int {
    choose|v: int| is_greatest_x(plots, v)
}

/// The least y coordinate of a retained point, where there is one.
pub open spec fn least_y(plots: Seq<Plot>) -> int {
    choose|v: int| is_least_y(plots, v)
}

/// The greatest y coordinate of a retained point, where there is one.
pub open spec fn greatest_y(plots: Seq<Plot>) -> int {
    choose|v: int| is_greatest_y(plots, v)
}

/// The bounds of the data are what they are: any four numbers that bound
/// every retained point and are each the coordinate of one are the least and
/// the greatest coordinates, and the least is not above the greatest.
pub proof fn lemma_bounds_determined(plots: Seq<Plot>, b: [i32; 4])
    requires
        bounds_of(plots, b),
    ensures
        b[0] == least_x(plots),
        b[1] == greatest_x(plots),
        b[2] == least_y(plots),
        b[3] == greatest_y(plots),
        b[0] <= b[1],
        b[2] <= b[3],
        !nothing_retained(plots),
{
    assert(is_least_x(plots, least_x(plots)));
    assert(is_greatest_x(plots, greatest_x(plots)));
    assert(is_least_y(plots, least_y(plots)));
    assert(is_greatest_y(plots, greatest_y(plots)));
}

/// The least number in a row of numbers and gaps, where it holds a number.
proof fn least_of_row(row: Seq<Option<int>>) -> (r: Option<int>)
    ensures
        r is None ==> forall|j: int| 0 <= j < row.len() ==> row[j] is None,
        r is Some ==> forall|j: int| 0 <= j < row.len() && row[j] is Some ==> r->0 <= row[j]->0,
        r is Some ==> exists|j: int| 0 <= j < row.len() && row[j] == r,
    decreases row.len(),
{
    if row.len() == 0 {
        None
    } else {
        let before = least_of_row(row.drop_last());
        let last = row.len() - 1;
        assert forall|j: int| 0 <= j < last implies row[j] == #[trigger] row.drop_last()[j] by {}
        let r = match (before, row[last]) {
            (None, here) => here,
            (Some(v), None) => Some(v),
            (Some(v), Some(u)) => if u < v {
                Some(u)
            } else {
                Some(v)
            },
        };
        if r is Some {
            if before is Some && r == before {
                let j = choose|j: int| 0 <= j < row.drop_last().len() && row.drop_last()[j] == r;
                assert(row[j] == r);
            } else {
                assert(row[last] == r);
            }
            assert forall|j: int| 0 <= j < row.len() && row[j] is Some implies r->0 <= row[j]->0 by {
                if j < last {
                    assert(row.drop_last()[j] is Some);
                }
            }
        } else {
            assert forall|j: int| 0 <= j < row.len() implies row[j] is None by {
                if j < last {
                    assert(row.drop_last()[j] is None);
                }
            }
        }
        r
    }
}

/// The least number in rows of numbers and gaps, where they hold a number.
proof fn least_of_rows(rows: Seq<Seq<Option<int>>>) -> (r: Option<int>)
    ensures
        r is None ==> forall|i: int, j: int|
            0 <= i < rows.len() && 0 <= j < rows[i].len() ==> (#[trigger] rows[i][j]) is None,
        r is Some ==> forall|i: int, j: int|
            0 <= i < rows.len() && 0 <= j < rows[i].len() && (#[trigger] rows[i][j]) is Some
                ==> r->0 <= rows[i][j]->0,
        r is Some ==> exists|i: int, j: int|
            0 <= i < rows.len() && 0 <= j < rows[i].len() && #[trigger] rows[i][j] == r,
    decreases rows.len(),
{
    if rows.len() == 0 {
        None
    } else {
        let before = least_of_rows(rows.drop_last());
        let last = rows.len() - 1;
        let here = least_of_row(rows[last]);
        assert forall|i: int| 0 <= i < last implies rows[i] == #[trigger] rows.drop_last()[i] by {}
        let r = match (before, here) {
            (None, here) => here,
            (Some(v), None) => Some(v),
            (Some(v), Some(u)) => if u < v {
                Some(u)
            } else {
                Some(v)
            },
        };
        if r is Some {
            if before is Some && r == before {
                let (i, j) = choose|i: int, j: int|
                    0 <= i < rows.drop_last().len() && 0 <= j < rows.drop_last()[i].len()
                        && #[trigger] rows.drop_last()[i][j] == r;
                assert(rows[i][j] == r);
            } else {
                let j = choose|j: int| 0 <= j < rows[last].len() && rows[last][j] == r;
                assert(rows[last][j] == r);
            }
            assert forall|i: int, j: int|
                0 <= i < rows.len() && 0 <= j < rows[i].len() && (#[trigger] rows[i][j]) is Some
                implies r->0 <= rows[i][j]->0 by {
                if i < last {
                    assert(rows.drop_last()[i][j] is Some);
                }
            }
        } else {
            assert forall|i: int, j: int|
                0 <= i < rows.len() && 0 <= j < rows[i].len() implies (#[trigger] rows[i][j])
                is None by {
                if i < last {
                    assert(rows.drop_last()[i][j] is None);
                }
            }
        }
        r
    }
}

/// The coordinates of the retained points on one axis, as rows of numbers
/// and gaps, with the sign turned where `turned` is set.
spec fn coordinate_rows(plots: Seq<Plot>, vertical: bool, turned: bool) -> Seq<Seq<Option<int>>> {
    Seq::new(
        plots.len(),
        |i: int|
            Seq::new(
                plots[i].points@.len(),
                |j: int|
                    if !plots[i].points@[j].retained() {
                        None
                    } else if vertical {
                        Some(
                            if turned {
                                -y_at(plots, i, j)
                            } else {
                                y_at(plots, i, j)
                            },
                        )
                    } else {
                        Some(
                            if turned {
                                -x_at(plots, i, j)
                            } else {
                                x_at(plots, i, j)
                            },
                        )
                    },
            ),
    )
}

/// Where a point is retained, the data have bounds: the least and the
/// greatest coordinate on each axis exist.
pub proof fn lemma_bounds_exist(plots: Seq<Plot>)
    requires
        !nothing_retained(plots),
    ensures
        is_least_x(plots, least_x(plots)),
        is_greatest_x(plots, greatest_x(plots)),
        is_least_y(plots, least_y(plots)),
        is_greatest_y(plots, greatest_y(plots)),
{
    let (a, b) = choose|a: int, b: int| retained_at(plots, a, b);
    let rows = coordinate_rows(plots, false, false);
    let r = least_of_rows(rows);
    assert(rows[a][b] is Some);
    let (i, j) = choose|i: int, j: int|
        0 <= i < rows.len() && 0 <= j < rows[i].len() && #[trigger] rows[i][j] == r;
    assert(retained_at(plots, i, j) && x_at(plots, i, j) == r->0);
    assert forall|i: int, j: int| #[trigger] retained_at(plots, i, j) implies r->0 <= x_at(
        plots,
        i,
        j,
    ) by {
        assert(rows[i][j] is Some);
    }
    assert(is_least_x(plots, r->0));

    let rows = coordinate_rows(plots, false, true);
    let r = least_of_rows(rows);
    assert(rows[a][b] is Some);
    let (i, j) = choose|i: int, j: int|
        0 <= i < rows.len() && 0 <= j < rows[i].len() && #[trigger] rows[i][j] == r;
    assert(retained_at(plots, i, j) && x_at(plots, i, j) == -(r->0));
    assert forall|i: int, j: int| #[trigger] retained_at(plots, i, j) implies x_at(plots, i, j)
        <= -(r->0) by {
        assert(rows[i][j] is Some);
    }
    assert(is_greatest_x(plots, -(r->0)));

    let rows = coordinate_rows(plots, true, false);
    let r = least_of_rows(rows);
    assert(rows[a][b] is Some);
    let (i, j) = choose|i: int, j: int|
        0 <= i < rows.len() && 0 <= j < rows[i].len() && #[trigger] rows[i][j] == r;
    assert(retained_at(plots, i, j) && y_at(plots, i, j) == r->0);
    assert forall|i: int, j: int| #[trigger] retained_at(plots, i, j) implies r->0 <= y_at(
        plots,
        i,
        j,
    ) by {
        assert(rows[i][j] is Some);
    }
    assert(is_least_y(plots, r->0));

    let rows = coordinate_rows(plots, true, true);
    let r = least_of_rows(rows);
    assert(rows[a][b] is Some);
    let (i, j) = choose|i: int, j: int|
        0 <= i < rows.len() && 0 <= j < rows[i].len() && #[trigger] rows[i][j] == r;
    assert(retained_at(plots, i, j) && y_at(plots, i, j) == -(r->0));
    assert forall|i: int, j: int| #[trigger] retained_at(plots, i, j) implies y_at(plots, i, j)
        <= -(r->0) by {
        assert(rows[i][j] is Some);
    }
    assert(is_greatest_y(plots, -(r->0)));
}

/// Point `b` of series `a` comes before point `j` of series `i`.
spec fn seen(a: int, b: int, i: int, j: int) -> bool {
    a < i || (a == i && b < j)
}

/// What the search knows before it looks at point `j` of series `i`: where
/// it has found a point, the least and the greatest coordinates of the
/// retained points before that one, each with a point that has it.
spec fn scanned(
    plots: Seq<Plot>,
    i: int,
    j: int,
    found: Option<[i32; 4]>,
    at: [(int, int); 4],
) -> bool {
    match found {
        None => forall|a: int, b: int| #[trigger] retained_at(plots, a, b) ==> !seen(a, b, i, j),
        Some(m) => {
            &&& m[0] <= m[1] && m[2] <= m[3]
            &&& forall|a: int, b: int| #[trigger]
                retained_at(plots, a, b) && seen(a, b, i, j) ==> m[0] <= x_at(plots, a, b) <= m[1]
                    && m[2] <= y_at(plots, a, b) <= m[3]
            &&& retained_at(plots, at[0].0, at[0].1) && x_at(plots, at[0].0, at[0].1) == m[0]
            &&& retained_at(plots, at[1].0, at[1].1) && x_at(plots, at[1].0, at[1].1) == m[1]
            &&& retained_at(plots, at[2].0, at[2].1) && y_at(plots, at[2].0, at[2].1) == m[2]
            &&& retained_at(plots, at[3].0, at[3].1) && y_at(plots, at[3].0, at[3].1) == m[3]
        },
    }
}

/// The bounds of the retained points of all series, in one pass over them:
/// `None` where no point is retained, otherwise the least x, the greatest x,
/// the least y and the greatest y.
pub fn find_bounds(plots: &Vec<Plot>) -> (r: Option<[i32; 4]>)
    ensures
        match r {
            None => nothing_retained(plots@),
            Some(b) => bounds_of(plots@, b) && b[0] <= b[1] && b[2] <= b[3],
        },
{
    let mut found: Option<[i32; 4]> = None;
    let ghost mut at: [(int, int); 4] = [(0, 0), (0, 0), (0, 0), (0, 0)];
    let mut i: usize = 0;
    while i < plots.len()
        invariant
            i <= plots.len(),
            scanned(plots@, i as int, 0, found, at),
        decreases plots.len() - i,
    {
        let points = &plots[i].points;
        let mut j: usize = 0;
        while j < points.len()
            invariant
                i < plots.len(),
                points@ == plots@[i as int].points@,
                j <= points.len(),
                scanned(plots@, i as int, j as int, found, at),
            decreases points.len() - j,
        {
            let p: Point = points[j];
            let ghost here = (i as int, j as int);
            match (p.x, p.y) {
                (Some(x), Some(y)) => {
                    match found {
                        None => {
                            found = Some([x, x, y, y]);
                            proof {
                                at = [here, here, here, here];
                            }
                        },
                        Some(mut m) => {
                            if x < m[0] {
                                m[0] = x;
                                proof {
                                    at = [here, at[1], at[2], at[3]];
                                }
                            } else if x > m[1] {
                                m[1] = x;
                                proof {
                                    at = [at[0], here, at[2], at[3]];
                                }
                            }
                            if y < m[2] {
                                m[2] = y;
                                proof {
                                    at = [at[0], at[1], here, at[3]];
                                }
                            } else if y > m[3] {
                                m[3] = y;
                                proof {
                                    at = [at[0], at[1], at[2], here];
                                }
                            }
                            found = Some(m);
                        },
                    }
                },
                _ => {},
            }
            j = j + 1;
        }
        i = i + 1;
    }
    proof {
        if let Some(m) = found {
            assert(retained_at(plots@, at[0].0, at[0].1));
            assert(retained_at(plots@, at[1].0, at[1].1));
            assert(retained_at(plots@, at[2].0, at[2].1));
            assert(retained_at(plots@, at[3].0, at[3].1));
            assert forall|a: int, c: int| #[trigger] retained_at(plots@, a, c) implies m[0]
                <= x_at(plots@, a, c) <= m[1] && m[2] <= y_at(plots@, a, c) <= m[3] by {
                assert(seen(a, c, i as int, 0));
            }
        }
    }
    found
}

} // verus!
