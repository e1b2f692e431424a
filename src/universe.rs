use vstd::prelude::*;
use crate::error::Error;

verus! {

/// What the client learns at start-up: whether an access token is stored.
#[derive(Clone, Copy, Debug, PartialEq, Eq, Structural)]
pub struct InitInfo {
    pub token: bool,
}

/// A tracked universe with its display name.
#[derive(Clone, Debug, PartialEq, Eq)]
pub struct StoredUniverse {
    pub id: u64,
    pub name: String,
}

/// The (id, name) pairs of the universes whose lookup succeeded, in the
/// order they were tracked; a failed lookup skips its universe only.
pub open spec fn found_universes(lookups: Seq<(u64, Result<String, Error>)>) -> Seq<(u64, Seq<char>)>
    decreases lookups.len(),
{
    if lookups.len() == 0 {
        Seq::empty()
    } else {
        let rest = found_universes(lookups.drop_last());
        match lookups.last().1 {
            Ok(name) => rest.push((lookups.last().0, name@)),
            Err(_) => rest,
        }
    }
}

/// The (id, name) pairs of a list of universes.
pub open spec fn universe_pairs(universes: Seq<StoredUniverse>) -> Seq<(u64, Seq<char>)> {
    universes.map_values(|u: StoredUniverse| (u.id, u.name@))
}

/// The universes whose lookup succeeded, from the outcome of the lookup of
/// each tracked universe id.
pub fn collect_universes(lookups: &Vec<(u64, Result<String, Error>)>) -> (r: Vec<StoredUniverse>)
    ensures
        universe_pairs(r@) == found_universes(lookups@),
{
    let mut out: Vec<StoredUniverse> = Vec::new();
    let mut i: usize = 0;
    while i < lookups.len()
        invariant
            i <= lookups.len(),
            universe_pairs(out@) == found_universes(lookups@.subrange(0, i as int)),
        decreases lookups.len() - i,
    {
        let ghost next = lookups@.subrange(0, i as int + 1);
        assert(next.drop_last() =~= lookups@.subrange(0, i as int));
        let ghost prev = out@;
        let (id, lookup) = &lookups[i];
        match lookup {
            Ok(name) => {
                out.push(StoredUniverse { id: *id, name: name.clone() });
                assert(universe_pairs(out@) =~= universe_pairs(prev).push((*id, name@)));
            },
            Err(_) => {},
        }
        i += 1;
    }
    assert(lookups@.subrange(0, lookups.len() as int) =~= lookups@);
    out
}

} // verus!
