//! A list of parameter vectors with their sizes.

use vstd::prelude::*;

verus! {

/// Parameter vectors, each a vector of components, with their sizes.
pub struct Parameters<T> {
    values: Vec<Vec<T>>,
    sizes: Vec<usize>,
}

impl<T> Parameters<T> {
    /// The parameter vectors, in order.
    pub closed spec fn spec_values(&self) -> Seq<Seq<T>> {
        self.values@.map_values(|v: Vec<T>| v@)
    }

    /// Size of each parameter vector.
    pub closed spec fn spec_sizes(&self) -> Seq<usize> {
        self.sizes@
    }

    /// Parameters from a non-empty list of vectors.
    pub fn new(values: Vec<Vec<T>>) -> (r: Self)
        requires
            values@.len() > 0,
        ensures
            r.spec_values() == values@.map_values(|v: Vec<T>| v@),
            r.spec_sizes() == values@.map_values(|v: Vec<T>| v@.len() as usize),
    {
        let mut sizes: Vec<usize> = Vec::new();
        let mut i: usize = 0;
        while i < values.len()
            invariant
                i <= values@.len(),
                sizes@ == values@.take(i as int).map_values(|v: Vec<T>| v@.len() as usize),
            decreases values@.len() - i,
        {
            sizes.push(values[i].len());
            i += 1;
            assert(sizes@ =~= values@.take(i as int).map_values(|v: Vec<T>| v@.len() as usize));
        }
        assert(values@.take(i as int) =~= values@);
        Parameters { values, sizes }
    }

    /// Number of parameter vectors.
    pub fn len(&self) -> (r: usize)
        ensures
            r == self.spec_values().len(),
    {
        self.values.len()
    }

    /// Size of each parameter vector.
    pub fn sizes(&self) -> (r: &[usize])
        ensures
            r@ == self.spec_sizes(),
    {
        self.sizes.as_slice()
    }

    /// Gives back the parameter vectors.
    pub fn to_values(self) -> (r: Vec<Vec<T>>)
        ensures
            r@.map_values(|v: Vec<T>| v@) == self.spec_values(),
    {
        self.values
    }
}

} // verus!
