//! The route registry.
//!
//! A process-wide, append-only collection of [`RouteGroup`] contributions.
//! Contributions accumulate one by one during application startup; the
//! server builder then reads the whole collection exactly once. No entry is
//! ever removed or mutated, and the enumeration order is the contribution
//! order of one registry value — stable across reads, unspecified across
//! independently loaded declaration sites. The builder takes the registry
//! by value, so a contribution arriving after the drain has begun is ruled
//! out by ownership instead of being left as a race.

use vstd::prelude::*;
use crate::transform::Transformed;

verus! {

/// The unit of contribution: a batch of framework routes exposed together
/// under one mount prefix.
pub struct RouteGroup {
    /// Path prefix under which the group's routes are mounted. Groups
    /// produced by the declaration transform always use `"/"`: the prefix is
    /// a grouping label, and a route's authoritative path is the one carried
    /// by its native declaration.
    pub mount: String,
    /// The framework routes of the group, in declaration order. Route
    /// values are opaque to this crate: they are stored and forwarded, never
    /// inspected.
    pub routes: Vec<rocket::Route>,
}

/// The mathematical content of a [`RouteGroup`]: its mount prefix and the
/// identities of its routes, in order.
pub struct RouteGroupVal {
    pub mount: Seq<char>,
    pub routes: Seq<rocket::Route>,
}

impl View for RouteGroup {
    type V = RouteGroupVal;

    open spec fn view(&self) -> RouteGroupVal {
        RouteGroupVal { mount: self.mount@, routes: self.routes@ }
    }
}

/// The content of a sequence of groups.
pub open spec fn groups_view(groups: Seq<RouteGroup>) -> Seq<RouteGroupVal> {
    groups.map(|i: int, g: RouteGroup| g@)
}

/// The collection point for every [`RouteGroup`] contribution: an
/// append-only multiset of groups, viewed as the sequence of their contents
/// in contribution order.
pub struct Registry {
    groups: Vec<RouteGroup>,
}

impl View for Registry {
    type V = Seq<RouteGroupVal>;

    closed spec fn view(&self) -> Seq<RouteGroupVal> {
        groups_view(self.groups@)
    }
}

impl Registry {
    /// An empty registry: the state of the collection at process start.
    pub fn new() -> (r: Registry)
        ensures
            r@ == Seq::<RouteGroupVal>::empty(),
    {
        let r = Registry { groups: Vec::new() };
        proof {
            assert(r@ =~= Seq::<RouteGroupVal>::empty());
        }
        r
    }

    /// Appends one contribution. Cannot fail, never reorders or drops an
    /// earlier entry.
    pub fn contribute(&mut self, group: RouteGroup)
        ensures
            final(self)@ == old(self)@.push(group@),
    {
        let ghost prior = self.groups@;
        self.groups.push(group);
        proof {
            assert(groups_view(self.groups@) =~= groups_view(prior).push(self.groups@.last()@));
        }
    }

    /// Appends a batch of contributions, keeping their order.
    pub fn contribute_all(&mut self, groups: Vec<RouteGroup>)
        ensures
            final(self)@ == old(self)@ + groups_view(groups@),
    {
        let ghost orig = groups@;
        let mut rest = groups;
        proof {
            assert(orig.skip(0) =~= orig);
        }
        while rest.len() > 0
            invariant
                rest@.len() <= orig.len(),
                rest@ == orig.skip(orig.len() - rest@.len()),
                self@ == old(self)@ + groups_view(orig.take(orig.len() - rest@.len())),
            decreases rest@.len(),
        {
            let ghost k = orig.len() - rest@.len();
            let g = rest.remove(0);
            proof {
                assert(g == orig[k]);
                assert(rest@ =~= orig.skip(k + 1));
            }
            self.contribute(g);
            proof {
                assert(orig.take(k + 1).drop_last() =~= orig.take(k));
                assert(groups_view(orig.take(k + 1)) =~= groups_view(orig.take(k)).push(
                    orig[k]@,
                ));
            }
        }
        proof {
            assert(orig.take(orig.len() - rest@.len()) =~= orig);
            assert(self@ =~= old(self)@ + groups_view(orig));
        }
    }

    /// Performs the registration a declaration transform output prescribes:
    /// wraps the site's realized framework routes in a group at the
    /// transform's mount prefix and contributes it. With the native
    /// declaration handled by the framework, this is the whole effect of
    /// one annotated declaration site.
    pub fn register(&mut self, transformed: Transformed, routes: Vec<rocket::Route>)
        ensures
            final(self)@ == old(self)@.push(
                RouteGroupVal { mount: transformed.mount@, routes: routes@ },
            ),
    {
        let Transformed { decl: _, mount } = transformed;
        self.contribute(RouteGroup { mount, routes });
    }

    /// Reads every contribution made so far, in contribution order. Reading
    /// changes nothing: any two reads with no contribution in between see
    /// the same contents.
    pub fn enumerate(&self) -> (r: &Vec<RouteGroup>)
        ensures
            groups_view(r@) == self@,
    {
        &self.groups
    }

    /// Gives up the registry for the builder's one-time drain: every
    /// contribution, in contribution order, with nothing added or lost.
    pub fn into_groups(self) -> (v: Vec<RouteGroup>)
        ensures
            groups_view(v@) == self@,
    {
        self.groups
    }
}

/// Law: loading a batch of contributions loses none and duplicates none —
/// the collection afterwards holds exactly the earlier entries followed by
/// the contributed ones, whatever their relative order of arrival was
/// before the batch was assembled.
pub proof fn lemma_enumeration_complete(
    before: Seq<RouteGroupVal>,
    contributed: Seq<RouteGroupVal>,
    after: Seq<RouteGroupVal>,
)
    requires
        after == before + contributed,
    ensures
        after.len() == before.len() + contributed.len(),
        forall|i: int| 0 <= i < before.len() ==> after[i] == before[i],
        forall|i: int|
            0 <= i < contributed.len() ==> after[before.len() + i] == contributed[i],
{
}

/// Law: two enumerations of one registry with no contribution in between
/// return contents with identical mount prefixes and identical route
/// identities, pair for pair.
pub proof fn lemma_enumerate_stable(
    registry: Seq<RouteGroupVal>,
    first: Seq<RouteGroupVal>,
    second: Seq<RouteGroupVal>,
)
    requires
        first == registry,
        second == registry,
    ensures
        first.len() == second.len(),
        forall|i: int|
            0 <= i < first.len() ==> first[i].mount == second[i].mount && first[i].routes
                == second[i].routes,
{
}

} // verus!
