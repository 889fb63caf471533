//! A `width × height` grid of cells stored row by row in one flat vector.
use vstd::prelude::*;

verus! {

/// Position of the cell at row `i`, column `j` in the flat row-major store.
pub open spec fn flat_index(width: nat, i: nat, j: nat) -> nat {
    i * width + j
}

/// Distinct cells of a grid occupy distinct positions, all inside the store.
pub proof fn lemma_flat_index(width: nat, height: nat, i: nat, j: nat, i2: nat, j2: nat)
    requires
        i < height,
        j < width,
        i2 < height,
        j2 < width,
    ensures
        flat_index(width, i, j) < width * height,
        flat_index(width, i2, j2) < width * height,
        (i != i2 || j != j2) ==> flat_index(width, i, j) != flat_index(width, i2, j2),
{
    assert(i * width + j < width * height) by (nonlinear_arith)
        requires
            i < height,
            j < width,
    ;
    assert(i2 * width + j2 < width * height) by (nonlinear_arith)
        requires
            i2 < height,
            j2 < width,
    ;
    if i < i2 {
        assert(i * width + j < i2 * width + j2) by (nonlinear_arith)
            requires
                i < i2,
                j < width,
        ;
    } else if i2 < i {
        assert(i2 * width + j2 < i * width + j) by (nonlinear_arith)
            requires
                i2 < i,
                j2 < width,
        ;
    }
}

pub struct Framebuffer<T> {
    cells: Vec<T>,
    width: usize,
    height: usize,
}

impl<T: Copy> Framebuffer<T> {
    /// The store holds exactly one cell per pixel.
    pub open spec fn wf(&self) -> bool {
        &&& self@.len() == self.spec_width() * self.spec_height()
        &&& self.spec_width() * self.spec_height() <= usize::MAX
    }

    pub closed spec fn spec_width(&self) -> nat {
        self.width as nat
    }

    pub closed spec fn spec_height(&self) -> nat {
        self.height as nat
    }

    /// The cells in row-major order.
    pub closed spec fn view(&self) -> Seq<T> {
        self.cells@
    }

    /// The cell at row `i`, column `j`.
    pub open spec fn cell(&self, i: nat, j: nat) -> T {
        self@[flat_index(self.spec_width(), i, j) as int]
    }

    /// A grid with every cell set to `fill`.
    pub fn new(width: usize, height: usize, fill: T) -> (r: Self)
        requires
            width * height <= usize::MAX,
        ensures
            r.wf(),
            r.spec_width() == width,
            r.spec_height() == height,
            r@.len() == width * height,
            forall|k: int| 0 <= k < r@.len() ==> r@[k] == fill,
    {
        let n: usize = width * height;
        let mut cells: Vec<T> = Vec::new();
        while cells.len() < n
            invariant
                cells@.len() <= n,
                forall|k: int| 0 <= k < cells@.len() ==> cells@[k] == fill,
            decreases n - cells@.len(),
        {
            cells.push(fill);
        }
        Framebuffer { cells, width, height }
    }

    pub fn width(&self) -> (r: usize)
        ensures
            r == self.spec_width(),
    {
        self.width
    }

    pub fn height(&self) -> (r: usize)
        ensures
            r == self.spec_height(),
    {
        self.height
    }

    /// All cells, row after row.
    pub fn cells(&self) -> (r: &Vec<T>)
        ensures
            r@ == self@,
    {
        &self.cells
    }

    /// Position of the cell at row `i`, column `j` in the row-major store.
    pub fn index(&self, i: usize, j: usize) -> (r: usize)
        requires
            self.wf(),
            i < self.spec_height(),
            j < self.spec_width(),
        ensures
            r == flat_index(self.spec_width(), i as nat, j as nat),
            r < self@.len(),
    {
        proof {
            lemma_flat_index(self.width as nat, self.height as nat, i as nat, j as nat, i as nat, j as nat);
        }
        i * self.width + j
    }

    /// The cell at row `i`, column `j`.
    pub fn get(&self, i: usize, j: usize) -> (r: T)
        requires
            self.wf(),
            i < self.spec_height(),
            j < self.spec_width(),
        ensures
            r == self.cell(i as nat, j as nat),
    {
        let k = self.index(i, j);
        self.cells[k]
    }

    /// Overwrites the cell at row `i`, column `j`; every other cell keeps its value.
    pub fn set(&mut self, i: usize, j: usize, v: T)
        requires
            old(self).wf(),
            i < old(self).spec_height(),
            j < old(self).spec_width(),
        ensures
            final(self).wf(),
            final(self).spec_width() == old(self).spec_width(),
            final(self).spec_height() == old(self).spec_height(),
            final(self)@ == old(self)@.update(flat_index(old(self).spec_width(), i as nat, j as nat) as int, v),
            final(self).cell(i as nat, j as nat) == v,
            forall|i2: nat, j2: nat|
                i2 < old(self).spec_height() && j2 < old(self).spec_width() && (i2 != i || j2 != j)
                    ==> #[trigger] final(self).cell(i2, j2) == old(self).cell(i2, j2),
    {
        let k = self.index(i, j);
        self.cells.set(k, v);
        proof {
            assert forall|i2: nat, j2: nat|
                i2 < old(self).spec_height() && j2 < old(self).spec_width() && (i2 != i || j2 != j)
                    implies #[trigger] self.cell(i2, j2) == old(self).cell(i2, j2) by {
                lemma_flat_index(self.width as nat, self.height as nat, i as nat, j as nat, i2, j2);
            }
        }
    }

    /// A grid of the same shape whose every cell is `f` applied to the cell
    /// at the same place in `self`.
    pub fn map<U: Copy, F: Fn(T) -> U>(&self, f: F) -> (r: Framebuffer<U>)
        requires
            self.wf(),
            forall|k: int| 0 <= k < self@.len() ==> #[trigger] f.requires((self@[k],)),
        ensures
            r.wf(),
            r.spec_width() == self.spec_width(),
            r.spec_height() == self.spec_height(),
            r@.len() == self@.len(),
            forall|k: int| 0 <= k < self@.len() ==> f.ensures((self@[k],), #[trigger] r@[k]),
    {
        let n: usize = self.cells.len();
        let mut cells: Vec<U> = Vec::new();
        let mut k: usize = 0;
        while k < n
            invariant
                n == self@.len(),
                k <= n,
                cells@.len() == k,
                forall|k2: int| 0 <= k2 < self@.len() ==> #[trigger] f.requires((self@[k2],)),
                forall|k2: int| 0 <= k2 < k ==> f.ensures((self@[k2],), #[trigger] cells@[k2]),
            decreases n - k,
        {
            let c = f(self.cells[k]);
            cells.push(c);
            k = k + 1;
        }
        Framebuffer { cells, width: self.width, height: self.height }
    }
}

} // verus!
