use vstd::array::array_fill_for_copy_types;
use vstd::prelude::*;

verus! {

/// `COLUMN` columns of `ROW` elements each, stored column by column.
#[derive(Copy, Clone)]
pub struct Matrix<T, const ROW: usize, const COLUMN: usize>([[T; ROW]; COLUMN]);

/// A matrix with as many rows as columns.
pub type SquareMatrix<T, const SIZE: usize> = Matrix<T, SIZE, SIZE>;

impl<T, const ROW: usize, const COLUMN: usize> Matrix<T, ROW, COLUMN> {
    /// The element in column `c`, at position `r` of that column.
    pub closed spec fn at(&self, c: int, r: int) -> T {
        self.0@[c]@[r]
    }

    /// Every element equals `value`.
    pub open spec fn is_filled_with(&self, value: T) -> bool {
        forall|c: int, r: int| 0 <= c < COLUMN && 0 <= r < ROW ==> #[trigger] self.at(c, r) == value
    }

    /// Wraps the given columns, keeping their order.
    pub fn new(columns: [[T; ROW]; COLUMN]) -> (m: Self)
        ensures
            forall|c: int, r: int|
                0 <= c < COLUMN && 0 <= r < ROW ==> #[trigger] m.at(c, r) == columns@[c]@[r],
    {
        Matrix(columns)
    }

    /// Hands the columns back.
    pub fn columns(&self) -> (columns: &[[T; ROW]; COLUMN])
        ensures
            forall|c: int, r: int|
                0 <= c < COLUMN && 0 <= r < ROW ==> self.at(c, r) == #[trigger] columns@[c]@[r],
    {
        &self.0
    }
}

impl<T: Default + Copy, const ROW: usize, const COLUMN: usize> Default for Matrix<T, ROW, COLUMN> {
    /// The matrix whose every element is the element type's default value.
    fn default() -> (m: Self)
        ensures
            exists|d: T| call_ensures(T::default, (), d) && m.is_filled_with(d),
    {
        let d = T::default();
        let column: [T; ROW] = array_fill_for_copy_types(d);
        let m = Matrix(array_fill_for_copy_types(column));
        assert(m.is_filled_with(d));
        m
    }
}

impl<T: Default + Copy, const SIZE: usize> Matrix<T, SIZE, SIZE> {
    /// `m` has `one` on the diagonal and `zero` everywhere else.
    pub open spec fn is_identity_of(m: Self, one: T, zero: T) -> bool {
        forall|c: int, r: int|
            0 <= c < SIZE && 0 <= r < SIZE ==> #[trigger] m.at(c, r) == (if c == r {
                one
            } else {
                zero
            })
    }

    /// The matrix with `one` on the diagonal and the default value elsewhere.
    pub fn identity(one: T) -> (m: Self)
        ensures
            exists|zero: T|
                call_ensures(T::default, (), zero) && Self::is_identity_of(m, one, zero),
    {
        let zero = T::default();
        let column: [T; SIZE] = array_fill_for_copy_types(zero);
        let mut columns: [[T; SIZE]; SIZE] = array_fill_for_copy_types(column);
        let mut i: usize = 0;
        while i < SIZE
            invariant
                i <= SIZE,
                forall|c: int, r: int|
                    0 <= c < SIZE && 0 <= r < SIZE ==> #[trigger] columns@[c]@[r] == (if c == r && c
                        < i {
                        one
                    } else {
                        zero
                    }),
            decreases SIZE - i,
        {
            let mut column = columns[i];
            column[i] = one;
            columns[i] = column;
            i += 1;
        }
        let m = Matrix(columns);
        assert(Self::is_identity_of(m, one, zero));
        m
    }
}

} // verus!
