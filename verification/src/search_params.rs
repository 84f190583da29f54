//! Typed search parameters, resolved once from the caller's loosely-typed
//! request mapping. A key that is absent from the request becomes an empty
//! list (or `None`), never an error.

use vstd::prelude::*;

verus! {

/// The request parameters the query builder consumes, already decoded into
/// typed optional lists and values.
#[derive(Debug)]
pub struct SearchParams {
    /// Companies to exclude, applied to both exclusion facets.
    pub company_id: Vec<i32>,
    pub work_roles: Vec<String>,
    pub work_languages: Vec<String>,
    pub work_experience: Vec<String>,
    pub work_locations: Vec<String>,
    pub work_authorization: Vec<String>,
    /// Talent IDs that bypass the standard visibility rule.
    pub presented_talents: Vec<i32>,
    /// Evaluation time for the batch window, UNIX seconds; `None` means "now".
    pub epoch: Option<i64>,
    /// A single index that overrides the caller-supplied default index set.
    pub index: Option<String>,
}

/// Mathematical view of `SearchParams`.
pub struct SpecParams {
    pub company_id: Seq<i32>,
    pub work_roles: Seq<Seq<char>>,
    pub work_languages: Seq<Seq<char>>,
    pub work_experience: Seq<Seq<char>>,
    pub work_locations: Seq<Seq<char>>,
    pub work_authorization: Seq<Seq<char>>,
    pub presented_talents: Seq<i32>,
    pub epoch: Option<i64>,
    pub index: Option<Seq<char>>,
}

impl View for SearchParams {
    type V = SpecParams;

    open spec fn view(&self) -> SpecParams {
        SpecParams {
            company_id: self.company_id@,
            work_roles: self.work_roles.deep_view(),
            work_languages: self.work_languages.deep_view(),
            work_experience: self.work_experience.deep_view(),
            work_locations: self.work_locations.deep_view(),
            work_authorization: self.work_authorization.deep_view(),
            presented_talents: self.presented_talents@,
            epoch: self.epoch,
            index: self.index.deep_view(),
        }
    }
}

/// The view of parameters with every key absent.
pub open spec fn spec_empty_params() -> SpecParams {
    SpecParams {
        company_id: Seq::empty(),
        work_roles: Seq::empty(),
        work_languages: Seq::empty(),
        work_experience: Seq::empty(),
        work_locations: Seq::empty(),
        work_authorization: Seq::empty(),
        presented_talents: Seq::empty(),
        epoch: None,
        index: None,
    }
}

impl Default for SearchParams {
    /// Parameters with every key absent: all facets empty, no epoch, no
    /// index override.
    fn default() -> (result: SearchParams)
        ensures
            result@ == spec_empty_params(),
    {
        let result = SearchParams {
            company_id: Vec::new(),
            work_roles: Vec::new(),
            work_languages: Vec::new(),
            work_experience: Vec::new(),
            work_locations: Vec::new(),
            work_authorization: Vec::new(),
            presented_talents: Vec::new(),
            epoch: None,
            index: None,
        };
        proof {
            assert(result@.company_id =~= spec_empty_params().company_id);
            assert(result@.work_roles =~= spec_empty_params().work_roles);
            assert(result@.work_languages =~= spec_empty_params().work_languages);
            assert(result@.work_experience =~= spec_empty_params().work_experience);
            assert(result@.work_locations =~= spec_empty_params().work_locations);
            assert(result@.work_authorization =~= spec_empty_params().work_authorization);
            assert(result@.presented_talents =~= spec_empty_params().presented_talents);
        }
        result
    }
}

} // verus!
