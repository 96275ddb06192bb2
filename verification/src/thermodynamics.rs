//! Thermodynamics: shared vocabulary of the equation-of-state models.
//!
//! Holds the parameter wrappers and reference-state extension points every
//! equation-of-state package shares, and the group-contribution parameter
//! bookkeeping that decomposes molecules into functional groups. The models
//! themselves evaluate transcendental functions on measured quantities and
//! live with the desktop shell; what is kept and counted here — group
//! names, occurrence counts, and the per-component intergroup matrices — is
//! verified.

use vstd::prelude::*;

use std::sync::Arc;

use crate::stream::ComponentData;

verus! {

/// How an equation-of-state parameter was sourced and shaped.
#[derive(Clone, Copy)]
pub enum EOSParams<T> {
    /// A single-substance scalar.
    SingleParameter(T),
    /// A pairwise parameter.
    DoubleParameter(T),
    /// An associating-interaction parameter.
    AssociatingParameter(T),
}

/// The reference states an equation-of-state model can zero its enthalpy
/// and entropy against; no concrete basis is defined yet.
#[derive(Clone, Copy, Debug, PartialEq, Eq, Structural)]
pub enum ReferenceState {
    /// No reference basis chosen.
    Unspecified,
}

/// The parameters of each reference state; none are defined yet.
pub struct ReferenceStateParams {}

/// The kinds of functional group a group-contribution method can use; no
/// concrete group table is defined yet.
#[derive(Clone, Copy, Debug, PartialEq, Eq, Structural)]
pub enum EOSGroupContributionTypes {
    /// No group table chosen.
    Unspecified,
}

/// A dynamically sized integer matrix of the small-matrix library; opaque
/// here (the library's storage types cannot be declared to the verifier),
/// its contents are reached only through the wrappers below.
#[verifier::external_body]
pub struct IntergroupMatrix {
    inner: nalgebra::DMatrix<i64>,
}

/// The rows of an integer matrix, each row the sequence of its entries.
pub uninterp spec fn dmatrix_entries(m: IntergroupMatrix) -> Seq<Seq<i64>>;

/// The column count of an integer matrix (also defined when it has no
/// rows).
pub uninterp spec fn dmatrix_ncols(m: IntergroupMatrix) -> nat;

/// Relies on nalgebra's `Matrix::zeros`: a matrix of the given shape with
/// every entry zero.
#[verifier::external_body]
fn dmatrix_zeros(nrows: usize, ncols: usize) -> (m: IntergroupMatrix)
    ensures
        dmatrix_entries(m) == Seq::new(nrows as nat, |i: int| Seq::new(ncols as nat, |j: int| 0i64)),
        dmatrix_ncols(m) == ncols as nat,
{
    IntergroupMatrix { inner: nalgebra::DMatrix::<i64>::zeros(nrows, ncols) }
}

/// Relies on nalgebra's `Matrix::nrows`: the number of rows.
#[verifier::external_body]
fn dmatrix_nrows(m: &IntergroupMatrix) -> (r: usize)
    ensures
        r as nat == dmatrix_entries(*m).len(),
{
    m.inner.nrows()
}

/// Relies on nalgebra's `Matrix::ncols`: the number of columns.
#[verifier::external_body]
fn dmatrix_ncols_of(m: &IntergroupMatrix) -> (r: usize)
    ensures
        r as nat == dmatrix_ncols(*m),
{
    m.inner.ncols()
}

/// Will hold the chemical-potential equation of each equation of state;
/// a declared shape only so far.
pub struct EOSModel {}

/// Group-contribution parameters: the functional groups each component
/// decomposes into, their occurrence counts, and the intergroup-interaction
/// matrices, together with the data tables they were loaded from.
pub struct EOSGroupContributionParameters {
    /// The kind of group decomposition in use.
    pub group_type: Arc<EOSGroupContributionTypes>,
    /// The components the decomposition describes.
    pub components: Arc<Vec<ComponentData>>,
    /// The names of the groups.
    pub groups: Arc<Vec<String>>,
    /// How often each group occurs, in the same order as `groups`.
    pub n_groups: Arc<Vec<i64>>,
    /// One intergroup-interaction matrix per component.
    pub n_intergroups: Arc<Vec<IntergroupMatrix>>,
    /// Flattened cross-component group indices.
    pub i_groups: Arc<Vec<Vec<i64>>>,
    /// The flattened group names.
    pub flattened_groups: Arc<Vec<String>>,
    /// Occurrence counts of the flattened groups.
    pub n_flattened_groups: Arc<Vec<Vec<i64>>>,
    /// The source data tables the groups were loaded from.
    pub sourcecsvs: Arc<Vec<String>>,
}

impl EOSGroupContributionParameters {
    /// Derive the initial structures from a raw list of group names and
    /// counts: the names and counts are split into two parallel lists, each
    /// component gets an empty intergroup matrix, and the flattened
    /// structures start empty.
    pub fn new(
        group_type: Arc<EOSGroupContributionTypes>,
        components: Arc<Vec<ComponentData>>,
        raw_groups: &Vec<(String, i64)>,
        sourcecsvs: Arc<Vec<String>>,
    ) -> (r: Self)
        ensures
            r.group_type == group_type,
            r.components == components,
            r.sourcecsvs == sourcecsvs,
            r.groups@.len() == raw_groups@.len(),
            r.n_groups@.len() == raw_groups@.len(),
            forall|i: int|
                0 <= i < raw_groups@.len() ==> (#[trigger] r.groups@[i])@ == (raw_groups@[i].0)@
                    && r.n_groups@[i] == raw_groups@[i].1,
            r.n_intergroups@.len() == components@.len(),
            forall|i: int|
                0 <= i < components@.len() ==> dmatrix_entries(#[trigger] r.n_intergroups@[i])
                    =~= Seq::<Seq<i64>>::empty() && dmatrix_ncols(r.n_intergroups@[i]) == 0,
            r.i_groups@.len() == 0,
            r.flattened_groups@.len() == 0,
            r.n_flattened_groups@.len() == 0,
    {
        // Split the raw group map into its names and its counts.
        let mut str_group: Vec<String> = Vec::new();
        let mut group_amts: Vec<i64> = Vec::new();
        let mut i: usize = 0;
        while i < raw_groups.len()
            invariant
                i <= raw_groups@.len(),
                str_group@.len() == i,
                group_amts@.len() == i,
                forall|k: int|
                    0 <= k < i ==> (#[trigger] str_group@[k])@ == (raw_groups@[k].0)@
                        && group_amts@[k] == raw_groups@[k].1,
            decreases raw_groups@.len() - i,
        {
            let entry = &raw_groups[i];
            let name = entry.0.clone();
            proof {
                assert(*entry == raw_groups@[i as int]);
                assert(name@ == raw_groups@[i as int].0@);
            }
            str_group.push(name);
            group_amts.push(entry.1);
            i += 1;
        }

        let flattened_groups: Vec<String> = Vec::new();
        let i_groups: Vec<Vec<i64>> = Vec::new();
        let n_flattened_groups: Vec<Vec<i64>> = Vec::new();

        // Every component starts with an empty intergroup matrix.
        let mut n_intergroups: Vec<IntergroupMatrix> = Vec::new();
        let mut k: usize = 0;
        while k < components.len()
            invariant
                k <= components@.len(),
                n_intergroups@.len() == k,
                forall|j: int|
                    0 <= j < k ==> dmatrix_entries(#[trigger] n_intergroups@[j]) =~= Seq::<
                        Seq<i64>,
                    >::empty() && dmatrix_ncols(n_intergroups@[j]) == 0,
            decreases components@.len() - k,
        {
            let empty_intergroup = dmatrix_zeros(0, 0);
            proof {
                assert(dmatrix_entries(empty_intergroup) =~= Seq::<Seq<i64>>::empty());
            }
            n_intergroups.push(empty_intergroup);
            k += 1;
        }

        EOSGroupContributionParameters {
            group_type,
            components,
            groups: Arc::new(str_group),
            n_groups: Arc::new(group_amts),
            n_intergroups: Arc::new(n_intergroups),
            i_groups: Arc::new(i_groups),
            flattened_groups: Arc::new(flattened_groups),
            n_flattened_groups: Arc::new(n_flattened_groups),
            sourcecsvs,
        }
    }

    /// The shape (rows, columns) of one component's intergroup matrix.
    pub fn intergroup_shape(&self, index: usize) -> (r: (usize, usize))
        requires
            index < self.n_intergroups@.len(),
        ensures
            r.0 as nat == dmatrix_entries(self.n_intergroups@[index as int]).len(),
            r.1 as nat == dmatrix_ncols(self.n_intergroups@[index as int]),
    {
        let matrix = &(*self.n_intergroups)[index];
        (dmatrix_nrows(matrix), dmatrix_ncols_of(matrix))
    }
}

} // verus!
