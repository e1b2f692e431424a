use vstd::prelude::*;

verus! {

/// The (universe, datastore, filter) triple that bounds one browsing session.
#[derive(Clone, Debug)]
pub struct ScopeKey {
    pub universe_id: u64,
    pub datastore_id: String,
    pub filter: Option<String>,
}

/// A scope as plain values.
pub struct ScopeView {
    pub universe_id: u64,
    pub datastore_id: Seq<char>,
    pub filter: Option<Seq<char>>,
}

pub open spec fn opt_view(o: Option<String>) -> Option<Seq<char>> {
    match o {
        Some(s) => Some(s@),
        None => None,
    }
}

impl View for ScopeKey {
    type V = ScopeView;

    open spec fn view(&self) -> ScopeView {
        ScopeView {
            universe_id: self.universe_id,
            datastore_id: self.datastore_id@,
            filter: opt_view(self.filter),
        }
    }
}

/// A copy of an optional string.
pub fn copy_opt(o: &Option<String>) -> (r: Option<String>)
    ensures
        r == *o,
{
    match o {
        Some(s) => Some(s.clone()),
        None => None,
    }
}

/// Whether two optional strings hold the same text.
pub fn same_opt(a: &Option<String>, b: &Option<String>) -> (r: bool)
    ensures
        r == (opt_view(*a) == opt_view(*b)),
{
    match a {
        Some(x) => match b {
            Some(y) => String::eq(x, y),
            None => false,
        },
        None => b.is_none(),
    }
}

impl ScopeKey {
    /// A copy of this key, field by field.
    pub fn copy(&self) -> (r: ScopeKey)
        ensures
            r == *self,
    {
        ScopeKey {
            universe_id: self.universe_id,
            datastore_id: self.datastore_id.clone(),
            filter: copy_opt(&self.filter),
        }
    }
}

/// Two scopes are the same when all three fields are: the key is compared as
/// one value, so that any difference is one invalidation event.
impl PartialEq for ScopeKey {
    fn eq(&self, other: &ScopeKey) -> (r: bool) {
        self.universe_id == other.universe_id && self.datastore_id == other.datastore_id
            && same_opt(&self.filter, &other.filter)
    }
}

impl vstd::std_specs::cmp::PartialEqSpecImpl for ScopeKey {
    open spec fn obeys_eq_spec() -> bool {
        true
    }

    open spec fn eq_spec(&self, other: &ScopeKey) -> bool {
        self@ == other@
    }
}

} // verus!
