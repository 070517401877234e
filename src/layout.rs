use vstd::prelude::*;

verus! {

/// Lays a 4x4 matrix stored as four columns out as sixteen entries, column
/// after column: entry `4 * c + r` is row `r` of column `c`.
pub fn flatten_columns<T: Copy>(m: &[[T; 4]; 4]) -> (out: Vec<T>)
    ensures
        out@.len() == 16,
        forall|c: int, r: int|
            0 <= c < 4 && 0 <= r < 4 ==> #[trigger] out@[4 * c + r] == m@[c]@[r],
{
    let mut out: Vec<T> = Vec::new();
    let mut c: usize = 0;
    while c < 4
        invariant
            c <= 4,
            out@.len() == 4 * c,
            forall|i: int, r: int|
                0 <= i < c && 0 <= r < 4 ==> #[trigger] out@[4 * i + r] == m@[i]@[r],
        decreases 4 - c,
    {
        let column = m[c];
        let mut r: usize = 0;
        while r < 4
            invariant
                c < 4,
                r <= 4,
                column == m@[c as int],
                out@.len() == 4 * c + r,
                forall|i: int, k: int|
                    0 <= i < c && 0 <= k < 4 ==> #[trigger] out@[4 * i + k] == m@[i]@[k],
                forall|k: int| 0 <= k < r ==> #[trigger] out@[4 * c + k] == column@[k],
            decreases 4 - r,
        {
            out.push(column[r]);
            r = r + 1;
        }
        c = c + 1;
    }
    out
}

} // verus!
