//! A query string that is being built.

use crate::http::query;
use crate::http::query::{push_query_param, QueryBuilder, QueryBuilderError, QueryParam};
use vstd::prelude::{old, verus, Seq, View};

verus! {

/// A string takes any number of parameters; they stand in it percent-encoded, with `&`
/// between them.
impl QueryBuilder for String {
    open spec fn params(&self) -> Seq<(Seq<char>, Seq<char>)> {
        if self@.len() == 0 {
            Seq::empty()
        } else {
            query::query_pairs(self@)
        }
    }

    open spec fn room(&self, more: Seq<(Seq<char>, Seq<char>)>) -> bool {
        true
    }

    fn append(&mut self, param: QueryParam) -> (r: Result<(), QueryBuilderError>)
        ensures
            r is Ok,
            final(self)@ == query::appended(old(self)@, param@),
    {
        if !self.as_str().is_empty() {
            self.push('&');
        }
        push_query_param(self, &param);
        proof {
            query::lemma_query_pairs_appended(old(self)@, param@);
            assert(self@ =~= query::appended(old(self)@, param@));
            assert(self@.len() != 0);
        }
        Ok(())
    }
}

} // verus!
