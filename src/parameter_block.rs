//! Parameter blocks and their append-only storage.
//!
//! Each block owns its own heap buffer, and the storage never touches a
//! buffer once the block is stored: growing the storage moves the block
//! handles, never the values they point to, so an address handed to native
//! code stays valid for as long as the storage lives.

use crate::error::ParameterBlockStorageError;
use vstd::prelude::*;

verus! {

/// What a parameter block holds: its values and, optionally, a bound per
/// component (`None` for an unbounded component).
pub struct ParameterBlockView<T> {
    pub values: Seq<T>,
    pub lower_bounds: Option<Seq<Option<T>>>,
    pub upper_bounds: Option<Seq<Option<T>>>,
}

impl<T> ParameterBlockView<T> {
    /// A block is non-empty, and bounds, where given, have one entry per component.
    pub open spec fn wf(self) -> bool {
        &&& self.values.len() > 0
        &&& (self.lower_bounds matches Some(l) ==> l.len() == self.values.len())
        &&& (self.upper_bounds matches Some(u) ==> u.len() == self.values.len())
    }

    /// The per-component lower or upper bounds, empty where none were given.
    pub open spec fn bounds(self, upper: bool) -> Seq<Option<T>> {
        let b = if upper { self.upper_bounds } else { self.lower_bounds };
        match b {
            Some(s) => s,
            None => Seq::empty(),
        }
    }
}

pub open spec fn opt_vec_view<T>(o: Option<Vec<T>>) -> Option<Seq<T>> {
    match o {
        Some(v) => Some(v@),
        None => None,
    }
}

/// Parameter vector of a non-linear least squares problem.
pub struct ParameterBlock<T> {
    values: Vec<T>,
    lower_bounds: Option<Vec<Option<T>>>,
    upper_bounds: Option<Vec<Option<T>>>,
}

impl<T> View for ParameterBlock<T> {
    type V = ParameterBlockView<T>;

    closed spec fn view(&self) -> ParameterBlockView<T> {
        ParameterBlockView {
            values: self.values@,
            lower_bounds: opt_vec_view(self.lower_bounds),
            upper_bounds: opt_vec_view(self.upper_bounds),
        }
    }
}

impl<T> ParameterBlock<T> {
    /// Creates a new parameter vector with no bounds.
    pub fn new(values: Vec<T>) -> (r: Self)
        requires
            values.len() > 0,
        ensures
            r@ == (ParameterBlockView::<T> { values: values@, lower_bounds: None, upper_bounds: None }),
            r@.wf(),
    {
        ParameterBlock { values, lower_bounds: None, upper_bounds: None }
    }

    pub(crate) fn set_lower_bounds(&mut self, lower_bounds: Vec<Option<T>>)
        ensures
            final(self)@ == (ParameterBlockView::<T> { lower_bounds: Some(lower_bounds@), ..old(self)@ }),
    {
        self.lower_bounds = Some(lower_bounds);
    }

    pub(crate) fn set_upper_bounds(&mut self, upper_bounds: Vec<Option<T>>)
        ensures
            final(self)@ == (ParameterBlockView::<T> { upper_bounds: Some(upper_bounds@), ..old(self)@ }),
    {
        self.upper_bounds = Some(upper_bounds);
    }

    /// Sets lower bounds of the components, `None` meaning no lower bound.
    pub fn with_lower_bounds(&mut self, lower_bounds: Vec<Option<T>>) -> (r: &mut Self)
        requires
            lower_bounds.len() == old(self)@.values.len(),
        ensures
            (*r)@ == (ParameterBlockView::<T> { lower_bounds: Some(lower_bounds@), ..old(self)@ }),
            *final(self) == *final(r),
    {
        self.lower_bounds = Some(lower_bounds);
        self
    }

    /// Sets upper bounds of the components, `None` meaning no upper bound.
    pub fn with_upper_bounds(&mut self, upper_bounds: Vec<Option<T>>) -> (r: &mut Self)
        requires
            upper_bounds.len() == old(self)@.values.len(),
        ensures
            (*r)@ == (ParameterBlockView::<T> { upper_bounds: Some(upper_bounds@), ..old(self)@ }),
            *final(self) == *final(r),
    {
        self.upper_bounds = Some(upper_bounds);
        self
    }

    /// Number of components.
    pub fn len(&self) -> (r: usize)
        ensures
            r == self@.values.len(),
    {
        self.values.len()
    }

    /// Lower bounds of the components, if any were set.
    pub fn lower_bounds(&self) -> (r: Option<&[Option<T>]>)
        ensures
            self@.lower_bounds == (match r {
                Some(s) => Some(s@),
                None => None::<Seq<Option<T>>>,
            }),
    {
        match &self.lower_bounds {
            Some(l) => Some(l.as_slice()),
            None => None,
        }
    }

    /// Upper bounds of the components, if any were set.
    pub fn upper_bounds(&self) -> (r: Option<&[Option<T>]>)
        ensures
            self@.upper_bounds == (match r {
                Some(s) => Some(s@),
                None => None::<Seq<Option<T>>>,
            }),
    {
        match &self.upper_bounds {
            Some(u) => Some(u.as_slice()),
            None => None,
        }
    }

    /// Components of the parameter.
    pub fn values(&self) -> (r: &[T])
        ensures
            r@ == self@.values,
    {
        self.values.as_slice()
    }

    /// Gives back the components.
    pub fn to_values(self) -> (r: Vec<T>)
        ensures
            r@ == self@.values,
    {
        self.values
    }
}

/// Wraps every element of `v` in `Some`.
fn all_some<T: Copy>(v: &Vec<T>) -> (r: Vec<Option<T>>)
    ensures
        r@.len() == v@.len(),
        forall|i: int| 0 <= i < v@.len() ==> r@[i] == Some(v@[i]),
{
    let mut r: Vec<Option<T>> = Vec::new();
    let mut i: usize = 0;
    while i < v.len()
        invariant
            i <= v@.len(),
            r@.len() == i,
            forall|j: int| 0 <= j < i ==> r@[j] == Some(v@[j]),
        decreases v@.len() - i,
    {
        r.push(Some(v[i]));
        i += 1;
    }
    r
}

impl<T: Copy> ParameterBlock<T> {
    /// Sets a lower bound on every component.
    pub fn with_all_lower_bounds(&mut self, lower_bounds: Vec<T>) -> (r: &mut Self)
        requires
            lower_bounds.len() == old(self)@.values.len(),
        ensures
            (*r)@.values == old(self)@.values,
            (*r)@.upper_bounds == old(self)@.upper_bounds,
            (*r)@.lower_bounds == Some(lower_bounds@.map_values(|v: T| Some(v))),
            *final(self) == *final(r),
    {
        let bounds = all_some(&lower_bounds);
        assert(bounds@ =~= lower_bounds@.map_values(|v: T| Some(v)));
        self.with_lower_bounds(bounds)
    }

    /// Sets an upper bound on every component.
    pub fn with_all_upper_bounds(&mut self, upper_bounds: Vec<T>) -> (r: &mut Self)
        requires
            upper_bounds.len() == old(self)@.values.len(),
        ensures
            (*r)@.values == old(self)@.values,
            (*r)@.lower_bounds == old(self)@.lower_bounds,
            (*r)@.upper_bounds == Some(upper_bounds@.map_values(|v: T| Some(v))),
            *final(self) == *final(r),
    {
        let bounds = all_some(&upper_bounds);
        assert(bounds@ =~= upper_bounds@.map_values(|v: T| Some(v)));
        self.with_upper_bounds(bounds)
    }
}

/// A parameter of a residual block: a new block, or the index of one already stored.
pub enum ParameterBlockOrIndex<T> {
    Block(ParameterBlock<T>),
    Index(usize),
}

impl<T> From<ParameterBlock<T>> for ParameterBlockOrIndex<T> {
    fn from(block: ParameterBlock<T>) -> (r: Self) {
        ParameterBlockOrIndex::Block(block)
    }
}

impl<T> vstd::std_specs::convert::FromSpecImpl<ParameterBlock<T>> for ParameterBlockOrIndex<T> {
    open spec fn obeys_from_spec() -> bool {
        true
    }

    open spec fn from_spec(block: ParameterBlock<T>) -> Self {
        ParameterBlockOrIndex::Block(block)
    }
}

impl<T> From<usize> for ParameterBlockOrIndex<T> {
    fn from(index: usize) -> (r: Self) {
        ParameterBlockOrIndex::Index(index)
    }
}

impl<T> vstd::std_specs::convert::FromSpecImpl<usize> for ParameterBlockOrIndex<T> {
    open spec fn obeys_from_spec() -> bool {
        true
    }

    open spec fn from_spec(index: usize) -> Self {
        ParameterBlockOrIndex::Index(index)
    }
}

/// Every new block among `items` is well formed.
pub open spec fn items_wf<T>(items: Seq<ParameterBlockOrIndex<T>>) -> bool {
    forall|i: int|
        0 <= i < items.len() ==> (#[trigger] items[i] matches ParameterBlockOrIndex::Block(b) ==> b@.wf())
}

/// The new blocks among `items`, in order.
pub open spec fn new_blocks<T>(items: Seq<ParameterBlockOrIndex<T>>) -> Seq<ParameterBlockView<T>>
    decreases items.len(),
{
    if items.len() == 0 {
        Seq::empty()
    } else {
        new_blocks(items.drop_last()) + match items.last() {
            ParameterBlockOrIndex::Block(b) => seq![b@],
            ParameterBlockOrIndex::Index(_) => Seq::empty(),
        }
    }
}

/// Length of a storage of `len` blocks by the time it reaches `items[i]`.
pub open spec fn len_before<T>(len: nat, items: Seq<ParameterBlockOrIndex<T>>, i: int) -> nat {
    len + new_blocks(items.take(i)).len()
}

/// `items[i]` is a new block or the index of a block stored before it.
pub open spec fn item_resolves<T>(len: nat, items: Seq<ParameterBlockOrIndex<T>>, i: int) -> bool {
    match items[i] {
        ParameterBlockOrIndex::Block(_) => true,
        ParameterBlockOrIndex::Index(k) => k < len_before(len, items, i),
    }
}

/// Every item resolves against a storage of `len` blocks.
pub open spec fn all_resolve<T>(len: nat, items: Seq<ParameterBlockOrIndex<T>>) -> bool {
    forall|i: int| 0 <= i < items.len() ==> item_resolves(len, items, i)
}

/// The storage index that `items[i]` stands for.
pub open spec fn resolved_index<T>(len: nat, items: Seq<ParameterBlockOrIndex<T>>, i: int) -> int {
    match items[i] {
        ParameterBlockOrIndex::Block(_) => len_before(len, items, i) as int,
        ParameterBlockOrIndex::Index(k) => k as int,
    }
}

pub proof fn lemma_new_blocks_step<T>(items: Seq<ParameterBlockOrIndex<T>>, i: int)
    requires
        0 <= i < items.len(),
    ensures
        new_blocks(items.take(i + 1)) == new_blocks(items.take(i)) + match items[i] {
            ParameterBlockOrIndex::Block(b) => seq![b@],
            ParameterBlockOrIndex::Index(_) => Seq::<ParameterBlockView<T>>::empty(),
        },
{
    assert(items.take(i + 1).drop_last() =~= items.take(i));
}

/// `items[i]` is the first item that names no block stored by then.
pub open spec fn is_first_unresolved<T>(len: nat, items: Seq<ParameterBlockOrIndex<T>>, i: int) -> bool {
    &&& 0 <= i < items.len()
    &&& !item_resolves(len, items, i)
    &&& forall|j: int| 0 <= j < i ==> item_resolves(len, items, j)
}

/// The position of the first item that names no block stored by then.
pub open spec fn first_unresolved<T>(len: nat, items: Seq<ParameterBlockOrIndex<T>>) -> int {
    choose|i: int| is_first_unresolved(len, items, i)
}

/// At most one item is the first that names no stored block.
pub proof fn lemma_first_unresolved_unique<T>(len: nat, items: Seq<ParameterBlockOrIndex<T>>, i: int)
    requires
        is_first_unresolved(len, items, i),
    ensures
        first_unresolved(len, items) == i,
{
    let f = first_unresolved(len, items);
    assert(is_first_unresolved(len, items, f));
    if f < i {
        assert(item_resolves(len, items, f));
    } else if f > i {
        assert(item_resolves(len, items, i));
    }
}

/// Append-only collection of the parameter blocks of one problem.
pub struct ParameterBlockStorage<T> {
    storage: Vec<ParameterBlock<T>>,
}

impl<T> View for ParameterBlockStorage<T> {
    type V = Seq<ParameterBlockView<T>>;

    closed spec fn view(&self) -> Seq<ParameterBlockView<T>> {
        self.storage@.map_values(|b: ParameterBlock<T>| b@)
    }
}

impl<T> ParameterBlockStorage<T> {
    /// Every stored block is well formed.
    pub open spec fn wf(&self) -> bool {
        forall|i: int| 0 <= i < self@.len() ==> (#[trigger] self@[i]).wf()
    }

    /// An empty storage.
    pub fn new() -> (r: Self)
        ensures
            r@ == Seq::<ParameterBlockView<T>>::empty(),
            r.wf(),
    {
        let r = ParameterBlockStorage { storage: Vec::new() };
        assert(r@ =~= Seq::<ParameterBlockView<T>>::empty());
        r
    }

    /// Resolves `parameter_blocks` in order: a new block is appended and
    /// stands for the next index, an index must name a block stored before
    /// it. Returns the index each item stands for, or the first index that
    /// names no block, with the length of the storage at that point; the
    /// blocks met before it stay stored.
    pub fn extend(&mut self, parameter_blocks: Vec<ParameterBlockOrIndex<T>>) -> (r: Result<
        Vec<usize>,
        ParameterBlockStorageError,
    >)
        requires
            old(self).wf(),
            items_wf(parameter_blocks@),
        ensures
            final(self).wf(),
            r is Ok <==> all_resolve(old(self)@.len(), parameter_blocks@),
            match r {
                Ok(indices) => {
                    &&& indices@.len() == parameter_blocks@.len()
                    &&& forall|i: int|
                        0 <= i < parameter_blocks@.len() ==> indices@[i] as int == resolved_index(
                            old(self)@.len(),
                            parameter_blocks@,
                            i,
                        )
                    &&& final(self)@ == old(self)@ + new_blocks(parameter_blocks@)
                },
                Err(ParameterBlockStorageError::IndexOutOfBounds { index, len }) => {
                    let i = first_unresolved(old(self)@.len(), parameter_blocks@);
                    &&& is_first_unresolved(old(self)@.len(), parameter_blocks@, i)
                    &&& parameter_blocks@[i] == ParameterBlockOrIndex::<T>::Index(index)
                    &&& len == len_before(old(self)@.len(), parameter_blocks@, i)
                    &&& final(self)@ == old(self)@ + new_blocks(parameter_blocks@.take(i))
                },
            },
    {
        let ghost items = parameter_blocks@;
        let ghost start = self@;
        let n = parameter_blocks.len();
        let mut rest = parameter_blocks;
        let mut indices: Vec<usize> = Vec::new();
        let mut k: usize = 0;
        proof {
            assert(items.take(0) =~= Seq::<ParameterBlockOrIndex<T>>::empty());
            assert(self@ =~= start + new_blocks(items.take(0)));
        }
        while rest.len() > 0
            invariant
                k <= items.len(),
                items.len() == n,
                start == old(self)@,
                items == parameter_blocks@,
                rest@ == items.skip(k as int),
                items_wf(items),
                indices@.len() == k,
                forall|i: int| 0 <= i < k ==> item_resolves(start.len(), items, i),
                forall|i: int|
                    0 <= i < k ==> indices@[i] as int == resolved_index(start.len(), items, i),
                self@ == start + new_blocks(items.take(k as int)),
                self.wf(),
            decreases rest@.len(),
        {
            let item = rest.remove(0);
            assert(item == items[k as int]);
            proof {
                lemma_new_blocks_step(items, k as int);
            }
            let len = self.storage.len();
            assert(self@.len() == self.storage@.len());
            assert(len == len_before(start.len(), items, k as int));
            match item {
                ParameterBlockOrIndex::Block(block) => {
                    assert(block@.wf());
                    indices.push(len);
                    let ghost before = self@;
                    self.storage.push(block);
                    assert(self@ =~= before.push(block@));
                    assert(self@ =~= start + new_blocks(items.take(k + 1)));
                },
                ParameterBlockOrIndex::Index(index) => {
                    if index >= len {
                        proof {
                            assert(!item_resolves(start.len(), items, k as int));
                            assert(!all_resolve(start.len(), items));
                            assert(items[k as int] == ParameterBlockOrIndex::<T>::Index(index));
                            assert(is_first_unresolved(start.len(), items, k as int));
                            lemma_first_unresolved_unique(start.len(), items, k as int);
                        }
                        return Err(ParameterBlockStorageError::IndexOutOfBounds { index, len });
                    }
                    indices.push(index);
                    assert(self@ =~= start + new_blocks(items.take(k + 1)));
                },
            }
            k = k + 1;
            assert(rest@ =~= items.skip(k as int));
        }
        assert(items.take(k as int) =~= items);
        Ok(indices)
    }

    /// The stored blocks, in the order of their indices.
    pub fn blocks(&self) -> (r: &[ParameterBlock<T>])
        ensures
            r@.len() == self@.len(),
            forall|i: int| 0 <= i < r@.len() ==> (#[trigger] r@[i])@ == self@[i],
    {
        self.storage.as_slice()
    }

    /// The block at `index`, or an error naming the index and the length.
    pub fn get_block(&self, index: usize) -> (r: Result<&ParameterBlock<T>, ParameterBlockStorageError>)
        ensures
            match r {
                Ok(b) => index < self@.len() && b@ == self@[index as int],
                Err(e) => index >= self@.len() && e == ParameterBlockStorageError::IndexOutOfBounds {
                    index,
                    len: self@.len() as usize,
                },
            },
    {
        if index < self.storage.len() {
            Ok(&self.storage[index])
        } else {
            Err(ParameterBlockStorageError::IndexOutOfBounds { index, len: self.storage.len() })
        }
    }

    /// Gives back the values of every block, in the order of their indices.
    pub fn to_values(self) -> (r: Vec<Vec<T>>)
        ensures
            r@.len() == self@.len(),
            forall|i: int| 0 <= i < r@.len() ==> (#[trigger] r@[i])@ == self@[i].values,
    {
        let ghost start = self@;
        let mut rest = self.storage;
        let mut r: Vec<Vec<T>> = Vec::new();
        while rest.len() > 0
            invariant
                r@.len() + rest@.len() == start.len(),
                forall|i: int| 0 <= i < r@.len() ==> (#[trigger] r@[i])@ == start[i].values,
                forall|i: int| 0 <= i < rest@.len() ==> (#[trigger] rest@[i])@ == start[r@.len() + i],
            decreases rest@.len(),
        {
            let ghost before = rest@;
            let block = rest.remove(0);
            assert(block@ == start[r@.len() as int]);
            r.push(block.to_values());
            assert forall|i: int| 0 <= i < rest@.len() implies (#[trigger] rest@[i])@ == start[r@.len() + i] by {
                assert(rest@[i] == before[i + 1]);
            }
        }
        r
    }
}

impl<T> Default for ParameterBlockStorage<T> {
    fn default() -> (r: Self)
        ensures
            r@ == Seq::<ParameterBlockView<T>>::empty(),
    {
        Self::new()
    }
}

} // verus!
