use vstd::prelude::*;

verus! {

/// Clamps the end of a half-open index range to `clamp`; the start is kept.
/// Ranged grid traversals use it to stay inside `[0, width) x [0, height)`.
pub fn clamp_usize_range(range: core::ops::Range<usize>, clamp: usize) -> (r: core::ops::Range<
    usize,
>)
    ensures
        r.start == range.start,
        r.end == (if range.end > clamp {
            clamp
        } else {
            range.end
        }),
{
    if range.end > clamp {
        range.start..clamp
    } else {
        range
    }
}

/// A dense row-major 2-D array of `width * height` cells. Coordinate `(i, j)`
/// lives at linear index `i + j * width`. The shape never changes after
/// construction; all indexed access is bounds-checked and out-of-range
/// lookups report absence instead of a value.
pub struct Array2D<T> {
    pub width: usize,
    pub height: usize,
    pub data: Vec<T>,
}

/// The length of an index range `[start, end)` once its end is clamped to
/// `limit`; empty when the clamped end does not exceed the start.
pub open spec fn sub_len(start: int, end: int, limit: int) -> int {
    let e = if end > limit {
        limit
    } else {
        end
    };
    if e > start {
        e - start
    } else {
        0
    }
}

/// Helps arithmetic on row-major linear indices: a coordinate inside the
/// rectangle maps to a linear index inside the backing storage.
pub proof fn lemma_row_major_index(w: int, h: int, i: int, j: int)
    requires
        0 <= i < w,
        0 <= j < h,
    ensures
        0 <= i + j * w < w * h,
{
    assert(0 <= i + j * w < w * h) by (nonlinear_arith)
        requires
            0 <= i < w,
            0 <= j < h,
    ;
}

/// Row-major linear indices order coordinates row by row: the index of
/// `(i1, j1)` precedes the index of `(i2, j2)` exactly when `(j1, i1)`
/// precedes `(j2, i2)` lexicographically. In particular distinct coordinates
/// have distinct linear indices.
pub proof fn lemma_row_major_order(w: int, i1: int, j1: int, i2: int, j2: int)
    requires
        0 <= i1 < w,
        0 <= i2 < w,
        0 <= j1,
        0 <= j2,
    ensures
        (i1 + j1 * w < i2 + j2 * w) <==> (j1 < j2 || (j1 == j2 && i1 < i2)),
{
    assert((i1 + j1 * w < i2 + j2 * w) <==> (j1 < j2 || (j1 == j2 && i1 < i2)))
        by (nonlinear_arith)
        requires
            0 <= i1 < w,
            0 <= i2 < w,
            0 <= j1,
            0 <= j2,
    ;
}

impl<T> Array2D<T> {
    /// The backing storage holds exactly one cell per coordinate.
    pub open spec fn wf(self) -> bool {
        self.data.len() == self.width * self.height
    }

    /// The cell at coordinate `(i, j)`.
    pub open spec fn cell(self, i: int, j: int) -> T {
        self.data[i + j * self.width]
    }

    /// Whether `(i, j)` lies inside the rectangle.
    pub open spec fn in_bounds(self, i: int, j: int) -> bool {
        0 <= i < self.width && 0 <= j < self.height
    }

    /// Whether `(i, j)` lies inside the sub-rectangle requested by the index
    /// ranges `[is, ie) x [js, je)` once those are clamped to the grid.
    pub open spec fn in_sub(self, is: int, ie: int, js: int, je: int, i: int, j: int) -> bool {
        is <= i < (if ie > self.width {
            self.width as int
        } else {
            ie
        }) && js <= j < (if je > self.height {
            self.height as int
        } else {
            je
        })
    }

    /// Builds a `width x height` array whose cell `(i, j)` is `ctor(i, j)`.
    pub fn from_closure(width: usize, height: usize, ctor: impl Fn(usize, usize) -> T) -> (r: Self)
        requires
            width * height <= usize::MAX,
            forall|i: usize, j: usize|
                i < width && j < height ==> call_requires(ctor, (i, j)),
        ensures
            r.width == width,
            r.height == height,
            r.wf(),
            forall|i: usize, j: usize|
                i < width && j < height ==> call_ensures(ctor, (i, j), #[trigger] r.cell(
                    i as int,
                    j as int,
                )),
    {
        let mut data: Vec<T> = Vec::new();
        let mut j: usize = 0;
        while j < height
            invariant
                j <= height,
                width * height <= usize::MAX,
                data.len() == j * width,
                forall|i: usize, j: usize|
                    i < width && j < height ==> call_requires(ctor, (i, j)),
                forall|ii: usize, jj: usize|
                    ii < width && jj < j ==> call_ensures(ctor, (ii, jj), #[trigger] data[
                        ii + jj * width
                    ]),
            decreases height - j,
        {
            let mut i: usize = 0;
            while i < width
                invariant
                    j < height,
                    i <= width,
                    width * height <= usize::MAX,
                    data.len() == j * width + i,
                    forall|i: usize, j: usize|
                        i < width && j < height ==> call_requires(ctor, (i, j)),
                    forall|ii: usize, jj: usize|
                        ii < width && jj < j ==> call_ensures(ctor, (ii, jj), #[trigger] data[
                            ii + jj * width
                        ]),
                    forall|ii: usize|
                        ii < i ==> call_ensures(ctor, (ii, j), #[trigger] data[ii + j * width]),
                decreases width - i,
            {
                proof {
                    lemma_row_major_index(width as int, height as int, i as int, j as int);
                    assert forall|ii: usize, jj: usize| ii < width && jj < j implies #[trigger] (ii
                        + jj * width) < j * width by {
                        assert(ii + jj * width < j * width) by (nonlinear_arith)
                            requires
                                ii < width,
                                jj < j,
                        ;
                    };
                }
                let value = ctor(i, j);
                data.push(value);
                i += 1;
            }
            j += 1;
            proof {
                assert(data.len() == j * width) by (nonlinear_arith)
                    requires
                        data.len() == (j - 1) * width + width,
                ;
            }
        }
        proof {
            assert(data.len() == width * height) by (nonlinear_arith)
                requires
                    data.len() == height * width,
            ;
        }
        Array2D { width, height, data }
    }

    /// Adopts a pre-built flat buffer as the backing storage. The buffer must
    /// hold exactly one cell per coordinate.
    pub fn from_box(width: usize, height: usize, data: Vec<T>) -> (r: Self)
        requires
            data.len() == width * height,
        ensures
            r.width == width,
            r.height == height,
            r.data == data,
            r.wf(),
    {
        Array2D { width, height, data }
    }

    /// The number of columns.
    pub fn get_width(&self) -> (r: usize)
        ensures
            r == self.width,
    {
        self.width
    }

    /// The number of rows.
    pub fn get_height(&self) -> (r: usize)
        ensures
            r == self.height,
    {
        self.height
    }

    /// The cell at linear `index`, or absence when the index is out of range.
    pub fn index_get(&self, index: usize) -> (r: Option<&T>)
        requires
            self.wf(),
        ensures
            index < self.width * self.height ==> (r matches Some(v) && *v == self.data[
                index as int
            ]),
            index >= self.width * self.height ==> r is None,
    {
        if index < self.data.len() {
            Some(&self.data[index])
        } else {
            None
        }
    }

    /// Overwrites the cell at linear `index` and reports whether the index
    /// was in range; an out-of-range index leaves the array unchanged.
    pub fn index_set(&mut self, index: usize, value: T) -> (r: bool)
        requires
            old(self).wf(),
        ensures
            final(self).width == old(self).width,
            final(self).height == old(self).height,
            final(self).wf(),
            r == (index < old(self).width * old(self).height),
            r ==> final(self).data@ == old(self).data@.update(index as int, value),
            !r ==> *final(self) == *old(self),
    {
        if index < self.data.len() {
            self.data[index] = value;
            true
        } else {
            false
        }
    }

    /// The cell at coordinate `(i, j)`, or absence when the coordinate is
    /// out of range.
    pub fn coord_get(&self, i: usize, j: usize) -> (r: Option<&T>)
        requires
            self.wf(),
        ensures
            i < self.width && j < self.height ==> (r matches Some(v) && *v == self.cell(
                i as int,
                j as int,
            )),
            !(i < self.width && j < self.height) ==> r is None,
    {
        if i < self.width && j < self.height {
            proof {
                lemma_row_major_index(self.width as int, self.height as int, i as int, j as int);
            }
            Some(&self.data[i + j * self.width])
        } else {
            None
        }
    }

    /// Overwrites the cell at coordinate `(i, j)` and reports whether the
    /// coordinate was in range; an out-of-range coordinate leaves the array
    /// unchanged.
    pub fn coord_set(&mut self, i: usize, j: usize, value: T) -> (r: bool)
        requires
            old(self).wf(),
        ensures
            final(self).width == old(self).width,
            final(self).height == old(self).height,
            final(self).wf(),
            r == (i < old(self).width && j < old(self).height),
            r ==> final(self).data@ == old(self).data@.update(
                i + j * old(self).width,
                value,
            ),
            !r ==> *final(self) == *old(self),
    {
        if i < self.width && j < self.height {
            proof {
                lemma_row_major_index(self.width as int, self.height as int, i as int, j as int);
            }
            self.data[i + j * self.width] = value;
            true
        } else {
            false
        }
    }

    /// For an in-range coordinate, the 2-D lookup and the linear lookup agree:
    /// the linear index `i + j * width` is in range and holds the cell that
    /// `coord_get(i, j)` returns, so `coord_get(i, j)` and
    /// `index_get(i + j * width)` return the same value.
    pub proof fn lemma_coord_get_is_index_get(self, i: usize, j: usize)
        requires
            self.wf(),
            i < self.width,
            j < self.height,
        ensures
            i + j * self.width < self.width * self.height,
            self.cell(i as int, j as int) == self.data[i + j * self.width],
    {
        lemma_row_major_index(self.width as int, self.height as int, i as int, j as int);
    }
}

impl<T: Copy> Array2D<T> {
    /// Visits every cell of the sub-rectangle `[is, ie) x [js, je)`, clamped
    /// to the grid bounds, in row-major order, handing the visitor the
    /// coordinate and the cell value.
    pub fn for_each_sub(
        &self,
        i_range: core::ops::Range<usize>,
        j_range: core::ops::Range<usize>,
        f: impl Fn(usize, usize, T),
    )
        requires
            self.wf(),
            forall|i: usize, j: usize|
                self.in_sub(
                    i_range.start as int,
                    i_range.end as int,
                    j_range.start as int,
                    j_range.end as int,
                    i as int,
                    j as int,
                ) ==> call_requires(f, (i, j, self.cell(i as int, j as int))),
    {
        let ghost is = i_range.start as int;
        let ghost ie0 = i_range.end as int;
        let ghost js = j_range.start as int;
        let ghost je0 = j_range.end as int;
        let i_range = clamp_usize_range(i_range, self.width);
        let j_range = clamp_usize_range(j_range, self.height);
        if j_range.start < j_range.end && i_range.start < i_range.end {
            let mut j = j_range.start;
            while j < j_range.end
                invariant
                    self.wf(),
                    i_range.start == is,
                    i_range.end == (if ie0 > self.width {
                        self.width as int
                    } else {
                        ie0
                    }),
                    j_range.start == js,
                    j_range.end == (if je0 > self.height {
                        self.height as int
                    } else {
                        je0
                    }),
                    j_range.start <= j <= j_range.end,
                    i_range.start < i_range.end <= self.width,
                    j_range.end <= self.height,
                    forall|ii: usize, jj: usize|
                        self.in_sub(is, ie0, js, je0, ii as int, jj as int) ==> call_requires(
                            f,
                            (ii, jj, self.cell(ii as int, jj as int)),
                        ),
                decreases j_range.end - j,
            {
                let mut i = i_range.start;
                while i < i_range.end
                    invariant
                        self.wf(),
                        i_range.start == is,
                        i_range.end == (if ie0 > self.width {
                            self.width as int
                        } else {
                            ie0
                        }),
                        j_range.start == js,
                        j_range.end == (if je0 > self.height {
                            self.height as int
                        } else {
                            je0
                        }),
                        i_range.start <= i <= i_range.end,
                        i_range.end <= self.width,
                        j_range.start <= j < j_range.end <= self.height,
                        forall|ii: usize, jj: usize|
                            self.in_sub(is, ie0, js, je0, ii as int, jj as int) ==> call_requires(
                                f,
                                (ii, jj, self.cell(ii as int, jj as int)),
                            ),
                    decreases i_range.end - i,
                {
                    proof {
                        lemma_row_major_index(
                            self.width as int,
                            self.height as int,
                            i as int,
                            j as int,
                        );
                    }
                    let cur = self.data[i + j * self.width];
                    proof {
                        assert(self.in_sub(is, ie0, js, je0, i as int, j as int));
                        assert(cur == self.cell(i as int, j as int));
                    }
                    f(i, j, cur);
                    i += 1;
                }
                j += 1;
            }
        }
    }

    /// Visits every cell of the grid in row-major order, handing the visitor
    /// the coordinate and the cell value.
    pub fn for_each(&self, f: impl Fn(usize, usize, T))
        requires
            self.wf(),
            forall|i: usize, j: usize|
                i < self.width && j < self.height ==> call_requires(
                    f,
                    (i, j, self.cell(i as int, j as int)),
                ),
    {
        self.for_each_sub(0..self.width, 0..self.height, f);
    }

    /// Rewrites every cell of the sub-rectangle `[is, ie) x [js, je)`,
    /// clamped to the grid bounds, in row-major order: each visited cell is
    /// replaced by the visitor's result for it. Cells outside the
    /// sub-rectangle are untouched.
    pub fn for_each_sub_mut(
        &mut self,
        i_range: core::ops::Range<usize>,
        j_range: core::ops::Range<usize>,
        f: impl Fn(usize, usize, T) -> T,
    )
        requires
            old(self).wf(),
            forall|i: usize, j: usize|
                old(self).in_sub(
                    i_range.start as int,
                    i_range.end as int,
                    j_range.start as int,
                    j_range.end as int,
                    i as int,
                    j as int,
                ) ==> call_requires(f, (i, j, old(self).cell(i as int, j as int))),
        ensures
            final(self).width == old(self).width,
            final(self).height == old(self).height,
            final(self).wf(),
            forall|i: usize, j: usize|
                old(self).in_sub(
                    i_range.start as int,
                    i_range.end as int,
                    j_range.start as int,
                    j_range.end as int,
                    i as int,
                    j as int,
                ) ==> call_ensures(
                    f,
                    (i, j, old(self).cell(i as int, j as int)),
                    #[trigger] final(self).cell(i as int, j as int),
                ),
            forall|i: int, j: int|
                old(self).in_bounds(i, j) && !old(self).in_sub(
                    i_range.start as int,
                    i_range.end as int,
                    j_range.start as int,
                    j_range.end as int,
                    i,
                    j,
                ) ==> final(self).cell(i, j) == old(self).cell(i, j),
    {
        let ghost is = i_range.start as int;
        let ghost ie0 = i_range.end as int;
        let ghost js = j_range.start as int;
        let ghost je0 = j_range.end as int;
        let i_range = clamp_usize_range(i_range, self.width);
        let j_range = clamp_usize_range(j_range, self.height);
        if j_range.start < j_range.end && i_range.start < i_range.end {
            let mut j = j_range.start;
            while j < j_range.end
                invariant
                    self.wf(),
                    self.width == old(self).width,
                    self.height == old(self).height,
                    i_range.start == is,
                    i_range.end == (if ie0 > self.width {
                        self.width as int
                    } else {
                        ie0
                    }),
                    j_range.start == js,
                    j_range.end == (if je0 > self.height {
                        self.height as int
                    } else {
                        je0
                    }),
                    j_range.start <= j <= j_range.end,
                    i_range.start < i_range.end <= self.width,
                    j_range.end <= self.height,
                    forall|ii: usize, jj: usize|
                        old(self).in_sub(is, ie0, js, je0, ii as int, jj as int) ==> call_requires(
                            f,
                            (ii, jj, old(self).cell(ii as int, jj as int)),
                        ),
                    forall|ii: usize, jj: usize|
                        old(self).in_sub(is, ie0, js, je0, ii as int, jj as int) && jj < j
                            ==> call_ensures(
                            f,
                            (ii, jj, old(self).cell(ii as int, jj as int)),
                            #[trigger] self.cell(ii as int, jj as int),
                        ),
                    forall|ii: int, jj: int|
                        old(self).in_bounds(ii, jj) && !(old(self).in_sub(is, ie0, js, je0, ii, jj)
                            && jj < j) ==> self.cell(ii, jj) == old(self).cell(ii, jj),
                decreases j_range.end - j,
            {
                let mut i = i_range.start;
                while i < i_range.end
                    invariant
                        self.wf(),
                        self.width == old(self).width,
                        self.height == old(self).height,
                        i_range.start == is,
                        i_range.end == (if ie0 > self.width {
                            self.width as int
                        } else {
                            ie0
                        }),
                        j_range.start == js,
                        j_range.end == (if je0 > self.height {
                            self.height as int
                        } else {
                            je0
                        }),
                        i_range.start <= i <= i_range.end,
                        i_range.end <= self.width,
                        j_range.start <= j < j_range.end <= self.height,
                        forall|ii: usize, jj: usize|
                            old(self).in_sub(is, ie0, js, je0, ii as int, jj as int)
                                ==> call_requires(
                                f,
                                (ii, jj, old(self).cell(ii as int, jj as int)),
                            ),
                        forall|ii: usize, jj: usize|
                            old(self).in_sub(is, ie0, js, je0, ii as int, jj as int) && (jj < j || (
                            jj == j && ii < i)) ==> call_ensures(
                                f,
                                (ii, jj, old(self).cell(ii as int, jj as int)),
                                #[trigger] self.cell(ii as int, jj as int),
                            ),
                        forall|ii: int, jj: int|
                            old(self).in_bounds(ii, jj) && !(old(self).in_sub(
                                is,
                                ie0,
                                js,
                                je0,
                                ii,
                                jj,
                            ) && (jj < j || (jj == j && ii < i))) ==> self.cell(ii, jj) == old(
                                self,
                            ).cell(ii, jj),
                    decreases i_range.end - i,
                {
                    proof {
                        lemma_row_major_index(
                            self.width as int,
                            self.height as int,
                            i as int,
                            j as int,
                        );
                    }
                    let cur = self.data[i + j * self.width];
                    proof {
                        assert(old(self).in_sub(is, ie0, js, je0, i as int, j as int));
                        assert(cur == self.cell(i as int, j as int));
                        assert(cur == old(self).cell(i as int, j as int));
                    }
                    let ghost self0 = *self;
                    let ghost prev_data = self.data@;
                    let nv = f(i, j, cur);
                    self.data[i + j * self.width] = nv;
                    proof {
                        assert(self.cell(i as int, j as int) == nv);
                        assert forall|ii: int, jj: int|
                            0 <= ii < self.width && 0 <= jj < self.height && !(ii == i && jj == j)
                                implies #[trigger] self.cell(ii, jj) == prev_data[ii + jj
                            * self.width] by {
                            lemma_row_major_order(self.width as int, ii, jj, i as int, j as int);
                            lemma_row_major_order(self.width as int, i as int, j as int, ii, jj);
                            lemma_row_major_index(self.width as int, self.height as int, ii, jj);
                        };
                        assert forall|ii: usize, jj: usize|
                            old(self).in_sub(is, ie0, js, je0, ii as int, jj as int) && (jj < j || (
                        jj == j && ii <= i)) implies call_ensures(
                            f,
                            (ii, jj, old(self).cell(ii as int, jj as int)),
                            #[trigger] self.cell(ii as int, jj as int),
                        ) by {
                            if !(ii == i && jj == j) {
                                assert(self0.cell(ii as int, jj as int) == prev_data[ii as int + jj
                                    as int * (self.width as int)]);
                                assert(self.cell(ii as int, jj as int) == self0.cell(
                                    ii as int,
                                    jj as int,
                                ));
                            }
                        };
                    }
                    i += 1;
                }
                j += 1;
            }
        }
    }

    /// Rewrites every cell of the grid in row-major order: each cell is
    /// replaced by the visitor's result for it.
    pub fn for_each_mut(&mut self, f: impl Fn(usize, usize, T) -> T)
        requires
            old(self).wf(),
            forall|i: usize, j: usize|
                i < old(self).width && j < old(self).height ==> call_requires(
                    f,
                    (i, j, old(self).cell(i as int, j as int)),
                ),
        ensures
            final(self).width == old(self).width,
            final(self).height == old(self).height,
            final(self).wf(),
            forall|i: usize, j: usize|
                i < old(self).width && j < old(self).height ==> call_ensures(
                    f,
                    (i, j, old(self).cell(i as int, j as int)),
                    #[trigger] final(self).cell(i as int, j as int),
                ),
    {
        let w = self.width;
        let h = self.height;
        self.for_each_sub_mut(0..w, 0..h, f);
    }

    /// An independent copy of the whole array.
    pub fn clone(&self) -> (r: Array2D<T>)
        requires
            self.wf(),
        ensures
            r.width == self.width,
            r.height == self.height,
            r.data@ == self.data@,
            r.wf(),
    {
        let mut data: Vec<T> = Vec::new();
        let mut k: usize = 0;
        while k < self.data.len()
            invariant
                k <= self.data.len(),
                data.len() == k,
                forall|m: int| 0 <= m < k ==> data[m] == self.data[m],
            decreases self.data.len() - k,
        {
            let v = self.data[k];
            data.push(v);
            k += 1;
        }
        proof {
            assert(data@ =~= self.data@);
        }
        Array2D { width: self.width, height: self.height, data }
    }

    /// An independent copy of the sub-rectangle `[is, ie) x [js, je)`,
    /// clamped to the grid bounds, re-based so that its coordinate origin is
    /// `(0, 0)`: cell `(i, j)` of the copy equals cell `(is + i, js + j)` of
    /// the source.
    pub fn clone_sub(
        &self,
        i_range: core::ops::Range<usize>,
        j_range: core::ops::Range<usize>,
    ) -> (r: Array2D<T>)
        requires
            self.wf(),
        ensures
            r.wf(),
            r.width == sub_len(i_range.start as int, i_range.end as int, self.width as int),
            r.height == sub_len(j_range.start as int, j_range.end as int, self.height as int),
            forall|i: int, j: int|
                0 <= i < r.width && 0 <= j < r.height ==> #[trigger] r.cell(i, j) == self.cell(
                    i_range.start + i,
                    j_range.start + j,
                ),
    {
        let i_range = clamp_usize_range(i_range, self.width);
        let j_range = clamp_usize_range(j_range, self.height);
        let is = i_range.start;
        let js = j_range.start;
        let nw = if i_range.end > is {
            i_range.end - is
        } else {
            0
        };
        let nh = if j_range.end > js {
            j_range.end - js
        } else {
            0
        };
        let mut data: Vec<T> = Vec::new();
        let mut j: usize = 0;
        while j < nh
            invariant
                self.wf(),
                j <= nh,
                nh > 0 ==> js + nh <= self.height,
                nw > 0 ==> is + nw <= self.width,
                data.len() == j * nw,
                forall|ii: usize, jj: usize|
                    ii < nw && jj < j ==> #[trigger] data[ii + jj * nw] == self.cell(
                        is + ii,
                        js + jj,
                    ),
            decreases nh - j,
        {
            let mut i: usize = 0;
            while i < nw
                invariant
                    self.wf(),
                    j < nh,
                    i <= nw,
                    nh > 0 ==> js + nh <= self.height,
                    nw > 0 ==> is + nw <= self.width,
                    data.len() == j * nw + i,
                    forall|ii: usize, jj: usize|
                        ii < nw && jj < j ==> #[trigger] data[ii + jj * nw] == self.cell(
                            is + ii,
                            js + jj,
                        ),
                    forall|ii: usize|
                        ii < i ==> #[trigger] data[ii + j * nw] == self.cell(is + ii, js + j),
                decreases nw - i,
            {
                proof {
                    lemma_row_major_index(self.width as int, self.height as int, (is + i) as int, (
                    js + j) as int);
                    lemma_row_major_index(nw as int, nh as int, i as int, j as int);
                    assert forall|ii: usize, jj: usize| ii < nw && jj < j implies #[trigger] (ii
                        + jj * nw) < j * nw by {
                        assert(ii + jj * nw < j * nw) by (nonlinear_arith)
                            requires
                                ii < nw,
                                jj < j,
                        ;
                    };
                }
                let v = self.data[(is + i) + (js + j) * self.width];
                data.push(v);
                i += 1;
            }
            j += 1;
            proof {
                assert(data.len() == j * nw) by (nonlinear_arith)
                    requires
                        data.len() == (j - 1) * nw + nw,
                ;
            }
        }
        proof {
            assert(data.len() == nw * nh) by (nonlinear_arith)
                requires
                    data.len() == nh * nw,
            ;
        }
        Array2D { width: nw, height: nh, data }
    }
}

} // verus!
