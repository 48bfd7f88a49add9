//! The server builder.
//!
//! Reads the registry once and, for each contributed group in enumeration
//! order, mounts the group's routes onto a Rocket instance under the
//! group's mount prefix. The Rocket calls themselves stand behind a small
//! trusted boundary; everything around them — the enumeration order, that
//! each group's routes are handed over exactly once, and what the final
//! route table holds — is verified.

use vstd::prelude::*;
use vstd::string::StrSliceExecFns;
use crate::registry::{Registry, RouteGroup, RouteGroupVal, groups_view};

verus! {

/// Declares Rocket's `Route` type: an opaque framework value this crate
/// stores and forwards but never inspects.
#[verifier::external_type_specification]
#[verifier::external_body]
pub struct ExRoute(rocket::Route);

/// A Rocket application in its build phase: configured, not yet started.
/// Verus cannot declare `rocket::Rocket`'s phase-trait generics, so the
/// framework value is held in a field it treats as opaque; the instance is
/// public so that the caller who starts the server can take it out.
#[verifier::external_body]
pub struct Server {
    pub instance: rocket::Rocket<rocket::Build>,
}

/// What a build-phase instance holds that this crate relies on: the routes
/// mounted so far, in mount order. Route values are opaque — the sequence
/// records their identities and order, nothing of their insides.
pub uninterp spec fn mounted_routes(server: Server) -> Seq<rocket::Route>;

/// The port recorded in a build-phase instance's configuration.
pub uninterp spec fn configured_port(server: Server) -> int;

/// Names what `rocket::Route::map_base` makes of a route when
/// `Rocket::mount` re-bases it under a mount point: a function of the mount
/// point and the route alone.
pub uninterp spec fn rebased(base: Seq<char>, route: rocket::Route) -> rocket::Route;

/// Each route of `routes` re-based under `base`, in order.
pub open spec fn rebased_all(base: Seq<char>, routes: Seq<rocket::Route>) -> Seq<rocket::Route> {
    Seq::new(routes.len(), |i: int| rebased(base, routes[i]))
}

/// A character this crate accepts in a mount prefix: the URI-unreserved
/// characters and the path separator.
pub open spec fn mount_char_ok(c: char) -> bool {
    ('a' <= c && c <= 'z') || ('A' <= c && c <= 'Z') || ('0' <= c && c <= '9') || c == '/' || c
        == '-' || c == '_' || c == '.' || c == '~'
}

/// A mount prefix this crate accepts: led by `/` and made of unreserved
/// characters. Every such string parses as an origin path, which is what
/// `Rocket::mount` demands of a mount point on pain of panicking.
pub open spec fn valid_mount(s: Seq<char>) -> bool {
    s.len() > 0 && s[0] == '/' && forall|i: int| 0 <= i < s.len() ==> mount_char_ok(#[trigger] s[i])
}

/// Decides [`valid_mount`] for a real string.
pub fn is_valid_mount(s: &str) -> (b: bool)
    ensures
        b == valid_mount(s@),
{
    let n = s.unicode_len();
    if n == 0 {
        return false;
    }
    if s.get_char(0) != '/' {
        return false;
    }
    let mut i: usize = 0;
    while i < n
        invariant
            i <= n,
            n == s@.len(),
            forall|j: int| 0 <= j < i ==> mount_char_ok(#[trigger] s@[j]),
        decreases n - i,
    {
        let c = s.get_char(i);
        let ok = ('a' <= c && c <= 'z') || ('A' <= c && c <= 'Z') || ('0' <= c && c <= '9') || c
            == '/' || c == '-' || c == '_' || c == '.' || c == '~';
        if !ok {
            return false;
        }
        i = i + 1;
    }
    true
}

/// Every contributed group's mount prefix is one the crate accepts.
pub open spec fn all_mounts_valid(groups: Seq<RouteGroupVal>) -> bool {
    forall|i: int| 0 <= i < groups.len() ==> valid_mount(#[trigger] groups[i].mount)
}

/// Decides [`all_mounts_valid`] for a registry, so a caller can establish
/// the builder's precondition before handing the registry over.
pub fn mounts_valid(registry: &Registry) -> (b: bool)
    ensures
        b == all_mounts_valid(registry@),
{
    let groups = registry.enumerate();
    let n = groups.len();
    let mut i: usize = 0;
    while i < n
        invariant
            i <= n,
            n == groups@.len(),
            groups_view(groups@) == registry@,
            forall|j: int| 0 <= j < i ==> valid_mount(#[trigger] registry@[j].mount),
        decreases n - i,
    {
        let group = &groups[i];
        if !is_valid_mount(group.mount.as_str()) {
            proof {
                assert(registry@[i as int] == groups@[i as int]@);
                assert(!valid_mount(registry@[i as int].mount));
            }
            return false;
        }
        proof {
            assert(registry@[i as int] == groups@[i as int]@);
        }
        i = i + 1;
    }
    true
}

/// Relies on `rocket::Rocket::mount`: it appends the given routes to the
/// instance's route table, each re-based under `base` (`Route::map_base`),
/// keeps every route already mounted, and leaves the configuration alone.
/// `mount` panics when the mount point does not parse as an origin path;
/// [`valid_mount`] admits only `/`-led strings of unreserved characters,
/// which always parse.
#[verifier::external_body]
fn rocket_mount(server: Server, base: &str, routes: Vec<rocket::Route>) -> (r: Server)
    requires
        valid_mount(base@),
    ensures
        mounted_routes(r) == mounted_routes(server) + rebased_all(base@, routes@),
        forall|i: int|
            0 <= i < routes@.len() ==> mounted_routes(r)[mounted_routes(server).len() + i]
                == rebased(base@, routes@[i]),
        configured_port(r) == configured_port(server),
{
    Server { instance: server.instance.mount(base, routes) }
}

/// Relies on `rocket::custom` with a figment provider built from Rocket's
/// defaults: the returned instance is in the build phase, no routes are
/// mounted on it yet, and its configuration records the given port and the
/// all-interfaces bind address.
#[verifier::external_body]
fn rocket_custom(port: u16) -> (r: Server)
    ensures
        mounted_routes(r) == Seq::<rocket::Route>::empty(),
        configured_port(r) == port as int,
{
    let provider = rocket::Config::figment().merge(("address", "0.0.0.0")).merge(("port", port));
    Server { instance: rocket::custom(provider) }
}

/// The routes that mounting `groups` in order appends to a server: each
/// group's routes re-based under its mount prefix, group after group.
pub open spec fn mount_plan(groups: Seq<RouteGroupVal>) -> Seq<rocket::Route>
    decreases groups.len(),
{
    if groups.len() == 0 {
        Seq::empty()
    } else {
        mount_plan(groups.drop_last()) + rebased_all(groups.last().mount, groups.last().routes)
    }
}

/// The number of routes the groups contribute in total.
pub open spec fn total_routes(groups: Seq<RouteGroupVal>) -> nat
    decreases groups.len(),
{
    if groups.len() == 0 {
        0
    } else {
        total_routes(groups.drop_last()) + groups.last().routes.len()
    }
}

/// Law: the builder loses no route and invents none — mounting a sequence
/// of groups puts exactly as many routes into the table as the groups hold
/// together.
pub proof fn lemma_mount_plan_complete(groups: Seq<RouteGroupVal>)
    ensures
        mount_plan(groups).len() == total_routes(groups),
    decreases groups.len(),
{
    if groups.len() > 0 {
        lemma_mount_plan_complete(groups.drop_last());
    }
}

/// Mounts every contributed group onto `server`, in enumeration order,
/// handing each group's routes to the framework exactly once. The routes
/// already mounted stay, the registry's contributions follow them in order,
/// and the configuration is untouched.
pub fn mount_routes(server: Server, registry: Registry) -> (r: Server)
    requires
        all_mounts_valid(registry@),
    ensures
        mounted_routes(r) == mounted_routes(server) + mount_plan(registry@),
        configured_port(r) == configured_port(server),
{
    let ghost contents = registry@;
    let ghost init_routes = mounted_routes(server);
    let ghost init_port = configured_port(server);
    let mut rest = registry.into_groups();
    let ghost orig = rest@;
    let mut built = server;
    proof {
        assert(orig.skip(0) =~= orig);
        assert(contents.take(0) =~= Seq::<RouteGroupVal>::empty());
        assert(init_routes + mount_plan(contents.take(0)) =~= init_routes);
    }
    while rest.len() > 0
        invariant
            rest@.len() <= orig.len(),
            orig.len() == contents.len(),
            groups_view(orig) == contents,
            rest@ == orig.skip(orig.len() - rest@.len()),
            mounted_routes(built) == init_routes + mount_plan(
                contents.take(contents.len() - rest@.len()),
            ),
            configured_port(built) == init_port,
            all_mounts_valid(contents),
        decreases rest@.len(),
    {
        let ghost k = contents.len() - rest@.len();
        let group = rest.remove(0);
        proof {
            assert(group == orig[k]);
            assert(rest@ =~= orig.skip(k + 1));
            assert(contents[k] == groups_view(orig)[k]);
            assert(groups_view(orig)[k] == orig[k]@);
            assert(group@ == contents[k]);
            assert(valid_mount(contents[k].mount));
        }
        let ghost before = mounted_routes(built);
        built = rocket_mount(built, group.mount.as_str(), group.routes);
        proof {
            assert(contents.take(k + 1).drop_last() =~= contents.take(k));
            assert(contents.take(k + 1).last() == contents[k]);
            assert(mount_plan(contents.take(k + 1)) == mount_plan(contents.take(k)) + rebased_all(
                contents[k].mount,
                contents[k].routes,
            ));
            assert(mounted_routes(built) == before + rebased_all(contents[k].mount, contents[k].routes));
            assert((init_routes + mount_plan(contents.take(k))) + rebased_all(
                contents[k].mount,
                contents[k].routes,
            ) =~= init_routes + mount_plan(contents.take(k + 1)));
        }
    }
    proof {
        assert(contents.take(contents.len() - rest@.len()) =~= contents);
    }
    built
}

/// Builds a Rocket instance configured for the given port on the
/// all-interfaces bind address, then mounts every contribution of the
/// registry onto it. The returned instance is configured but not started;
/// its route table holds exactly the registry's contributions, in
/// enumeration order.
pub fn build_rocket(port: u16, registry: Registry) -> (r: Server)
    requires
        all_mounts_valid(registry@),
    ensures
        mounted_routes(r) == mount_plan(registry@),
        configured_port(r) == port as int,
{
    let server = rocket_custom(port);
    proof {
        assert(Seq::<rocket::Route>::empty() + mount_plan(registry@) =~= mount_plan(registry@));
    }
    mount_routes(server, registry)
}

} // verus!
