//! The routes of the health listener and of the plugin surface, and what the
//! probe routes answer.

use crate::check::all_valid;
use crate::check::details_of;
use crate::check::read_from;
use crate::check::HealthCheck;
use crate::check::Reading;
use crate::names::NameMap;
use crate::text::str_eq;
use vstd::prelude::*;
use vstd::string::StrSliceExecFns;
use vstd::string::StringExecFns;

verus! {

/// The routes that the health listener serves under its base path.
#[derive(Clone, Copy, Debug, PartialEq, Eq, Structural)]
pub enum HealthRoute {
    /// The liveness check.
    Alive,
    /// The readiness check.
    Ready,
    /// The metrics in text format.
    Metrics,
    /// The administrative shutdown.
    Kill,
}

/// The port on which the health listener binds unless told otherwise.
pub const HEALTH_PORT: u16 = 7979;

/// The port on which a plugin surface binds unless told otherwise.
pub const SERVICE_PORT: u16 = 8080;

/// The status of a probe route whose check is healthy.
pub const STATUS_OK: u16 = 200;

/// The status of a probe route whose check has a stale probe.
pub const STATUS_REQUEST_TIMEOUT: u16 = 408;

/// The last segment of the path of `route`.
pub open spec fn leaf_of(route: HealthRoute) -> Seq<char> {
    match route {
        HealthRoute::Alive => "alive"@,
        HealthRoute::Ready => "ready"@,
        HealthRoute::Metrics => "metrics"@,
        HealthRoute::Kill => "kill"@,
    }
}

/// The path made of the segments `first` and `second`.
pub open spec fn path_of(first: Seq<char>, second: Seq<char>) -> Seq<char> {
    seq!['/'] + first + seq!['/'] + second
}

/// The path made of three segments.
pub open spec fn path_of_three(first: Seq<char>, second: Seq<char>, third: Seq<char>) -> Seq<
    char,
> {
    seq!['/'] + first + seq!['/'] + second + seq!['/'] + third
}

/// The route that a request with `method` for `path` reaches under the base
/// path `basepath`: a `GET` for the base path followed by a route's segment.
pub open spec fn routed(basepath: Seq<char>, method: Seq<char>, path: Seq<char>) -> Option<
    HealthRoute,
> {
    if method != "GET"@ {
        None
    } else if path == path_of(basepath, leaf_of(HealthRoute::Alive)) {
        Some(HealthRoute::Alive)
    } else if path == path_of(basepath, leaf_of(HealthRoute::Ready)) {
        Some(HealthRoute::Ready)
    } else if path == path_of(basepath, leaf_of(HealthRoute::Kill)) {
        Some(HealthRoute::Kill)
    } else if path == path_of(basepath, leaf_of(HealthRoute::Metrics)) {
        Some(HealthRoute::Metrics)
    } else {
        None
    }
}

/// The status with which a probe route answers.
pub open spec fn probe_status(overall: bool) -> u16 {
    if overall {
        STATUS_OK
    } else {
        STATUS_REQUEST_TIMEOUT
    }
}

/// The base path under which the health routes are served unless told
/// otherwise.
pub fn default_basepath() -> (basepath: &'static str)
    ensures
        basepath@ == "health"@,
{
    "health"
}

/// The last segment of the path of `route`.
pub fn leaf(route: HealthRoute) -> (leaf: &'static str)
    ensures
        leaf@ == leaf_of(route),
{
    match route {
        HealthRoute::Alive => "alive",
        HealthRoute::Ready => "ready",
        HealthRoute::Metrics => "metrics",
        HealthRoute::Kill => "kill",
    }
}

/// The path of `route` under `basepath`.
pub fn route_path(basepath: &str, route: HealthRoute) -> (path: String)
    ensures
        path@ == path_of(basepath@, leaf_of(route)),
{
    proof {
        reveal_strlit("/");
    }
    let mut path = String::from_str("/");
    path.append(basepath);
    path.append("/");
    path.append(leaf(route));
    assert(path@ =~= path_of(basepath@, leaf_of(route))) by {
        assert("/"@ =~= seq!['/']);
    }
    path
}

/// The route that a request reaches, if it reaches one.
pub fn health_route(basepath: &str, method: &str, path: &str) -> (route: Option<HealthRoute>)
    ensures
        route == routed(basepath@, method@, path@),
{
    if !str_eq(method, "GET") {
        None
    } else if str_eq(path, route_path(basepath, HealthRoute::Alive).as_str()) {
        Some(HealthRoute::Alive)
    } else if str_eq(path, route_path(basepath, HealthRoute::Ready).as_str()) {
        Some(HealthRoute::Ready)
    } else if str_eq(path, route_path(basepath, HealthRoute::Kill).as_str()) {
        Some(HealthRoute::Kill)
    } else if str_eq(path, route_path(basepath, HealthRoute::Metrics).as_str()) {
        Some(HealthRoute::Metrics)
    } else {
        None
    }
}

/// A `GET` for the path of a route reaches that route and no other.
pub proof fn lemma_each_route_is_reached(basepath: Seq<char>, route: HealthRoute)
    ensures
        routed(basepath, "GET"@, path_of(basepath, leaf_of(route))) == Some(route),
{
    reveal_strlit("alive");
    reveal_strlit("ready");
    reveal_strlit("metrics");
    reveal_strlit("kill");
    let head = seq!['/'] + basepath + seq!['/'];
    assert forall|a: HealthRoute, b: HealthRoute| a != b implies path_of(basepath, leaf_of(a))
        != path_of(basepath, leaf_of(b)) by {
        let pa = path_of(basepath, leaf_of(a));
        let pb = path_of(basepath, leaf_of(b));
        assert(pa =~= head + leaf_of(a));
        assert(pb =~= head + leaf_of(b));
        if pa == pb {
            assert(pa.len() == pb.len());
            assert(leaf_of(a).len() == leaf_of(b).len());
            assert(pa[head.len() as int] == leaf_of(a)[0]);
            assert(pb[head.len() as int] == leaf_of(b)[0]);
        }
    }
}

/// The status with which a probe route answers: 200 while every probe is
/// valid, 408 otherwise.
pub fn status_for(overall: bool) -> (status: u16)
    ensures
        status == probe_status(overall),
{
    if overall {
        STATUS_OK
    } else {
        STATUS_REQUEST_TIMEOUT
    }
}

/// The answer of a probe route: the status, and as body the reading of each
/// probe by name.
pub fn probe_reply(check: &HealthCheck) -> (reply: (u16, NameMap<bool>))
    ensures
        reply.1.wf(),
        exists|readings: Seq<Reading>|
            {
                &&& read_from(readings, check.probes())
                &&& reply.0 == probe_status(all_valid(readings))
                &&& reply.1@ == #[trigger] details_of(readings)
            },
        check.probes().len() == 0 ==> reply.0 == STATUS_OK && reply.1@ == Map::<
            Seq<char>,
            bool,
        >::empty(),
{
    let (happy, detail) = check.status();
    (status_for(happy), detail)
}

/// The body with which the kill route answers.
pub fn kill_reply() -> (reply: (u16, &'static str))
    ensures
        reply.0 == STATUS_OK,
        reply.1@ == "OK"@,
{
    (STATUS_OK, "OK")
}

/// Whether a request is for the plugin surface of the host `name` in version
/// `version`: a `GET` for `/name/version/pservice`.
pub fn is_service_request(name: &str, version: &str, method: &str, path: &str) -> (hit: bool)
    ensures
        hit == (method@ == "GET"@ && path@ == path_of_three(name@, version@, "pservice"@)),
{
    proof {
        reveal_strlit("/");
    }
    let mut wanted = String::from_str("/");
    wanted.append(name);
    wanted.append("/");
    wanted.append(version);
    wanted.append("/");
    wanted.append("pservice");
    assert(wanted@ =~= path_of_three(name@, version@, "pservice"@)) by {
        assert("/"@ =~= seq!['/']);
    }
    str_eq(method, "GET") && str_eq(path, wanted.as_str())
}

/// A path segment: a non-empty run of ASCII characters other than `/`.
pub open spec fn is_segment(s: Seq<char>) -> bool {
    &&& s.len() > 0
    &&& forall|i: int| 0 <= i < s.len() ==> '\0' <= #[trigger] s[i] <= '\u{7f}' && s[i] != '/'
}

/// Where the characters of a path of two segments lie.
pub proof fn lemma_path_shape(first: Seq<char>, second: Seq<char>)
    ensures
        path_of(first, second).len() == first.len() + second.len() + 2,
        path_of(first, second)[0] == '/',
        path_of(first, second)[first.len() as int + 1] == '/',
        forall|j: int|
            1 <= j <= first.len() ==> #[trigger] path_of(first, second)[j] == first[j - 1],
        forall|j: int|
            first.len() + 2 <= j < first.len() + second.len() + 2 ==> #[trigger] path_of(
                first,
                second,
            )[j] == second[j - first.len() - 2],
{
}

/// A path splits into two segments in one way only.
pub proof fn lemma_path_splits_one_way(
    first: Seq<char>,
    second: Seq<char>,
    other_first: Seq<char>,
    other_second: Seq<char>,
)
    requires
        is_segment(first),
        is_segment(second),
        is_segment(other_first),
        is_segment(other_second),
        path_of(first, second) == path_of(other_first, other_second),
    ensures
        first == other_first,
        second == other_second,
{
    let p = path_of(first, second);
    lemma_path_shape(first, second);
    lemma_path_shape(other_first, other_second);
    if first.len() < other_first.len() {
        assert(p[first.len() as int + 1] == other_first[first.len() as int]);
    } else if other_first.len() < first.len() {
        assert(p[other_first.len() as int + 1] == first[other_first.len() as int]);
    }
    assert(first =~= other_first) by {
        assert forall|j: int| 0 <= j < first.len() implies first[j] == other_first[j] by {
            assert(p[j + 1] == first[j]);
            assert(p[j + 1] == other_first[j]);
        }
    }
    assert(second =~= other_second) by {
        assert forall|j: int| 0 <= j < second.len() implies second[j] == other_second[j] by {
            assert(p[j + first.len() + 2] == second[j]);
            assert(p[j + first.len() + 2] == other_second[j]);
        }
    }
}

/// Among ASCII characters only `/` has the byte 47.
proof fn lemma_slash_byte(c: char)
    requires
        '\0' <= c <= '\u{7f}',
    ensures
        (c as u8 == 47u8) <==> c == '/',
{
    assert('/' as u32 == 47u32);
    assert(c as u32 <= 0x7f);
}

/// The place of the first `/` at or after `from`, or the length of `path` if
/// there is none.
fn next_slash(path: &str, from: usize) -> (at: usize)
    requires
        path.is_ascii(),
        from <= path@.len(),
    ensures
        from <= at <= path@.len(),
        forall|j: int| from <= j < at ==> path@[j] != '/',
        at < path@.len() ==> path@[at as int] == '/',
{
    let n = path.unicode_len();
    let mut i: usize = from;
    while i < n
        invariant
            path.is_ascii(),
            n == path@.len(),
            from <= i <= n,
            forall|j: int| from <= j < i ==> path@[j] != '/',
        decreases n - i,
    {
        proof {
            lemma_slash_byte(path@[i as int]);
        }
        if path.get_ascii(i) == 47 {
            return i;
        }
        i += 1;
    }
    i
}

/// `path` is a path of two segments.
pub open spec fn splits(path: Seq<char>) -> bool {
    exists|plugin: Seq<char>, route: Seq<char>|
        is_segment(plugin) && is_segment(route) && path == #[trigger] path_of(plugin, route)
}

/// `path` is ASCII and has a `/` at its start and at `slash`, nowhere else,
/// and `slash` has a character on either side.
pub open spec fn shaped_at(path: Seq<char>, slash: int) -> bool {
    &&& 2 <= slash <= path.len() - 2
    &&& forall|j: int|
        0 <= j < path.len() ==> '\0' <= #[trigger] path[j] <= '\u{7f}' && (path[j] == '/' <==> j
            == 0 || j == slash)
}

/// What a path of two segments looks like: it is ASCII, it begins with `/`,
/// and it has one more `/`, which has a character on either side.
pub open spec fn two_segment_shape(path: Seq<char>) -> bool {
    exists|slash: int| #[trigger] shaped_at(path, slash)
}

/// A path of two segments has the shape of one.
pub proof fn lemma_two_segments(first: Seq<char>, second: Seq<char>)
    requires
        is_segment(first),
        is_segment(second),
    ensures
        two_segment_shape(path_of(first, second)),
{
    let q = path_of(first, second);
    let slash = first.len() as int + 1;
    lemma_path_shape(first, second);
    assert forall|j: int| 0 <= j < q.len() implies '\0' <= #[trigger] q[j] <= '\u{7f}' && (q[j]
        == '/' <==> j == 0 || j == slash) by {
        if 1 <= j <= first.len() {
            assert(q[j] == first[j - 1]);
        } else if j >= first.len() + 2 {
            assert(q[j] == second[j - first.len() - 2]);
        }
    }
    assert(shaped_at(q, slash));
}

/// Whatever splits into two segments has the shape of such a path.
proof fn lemma_two_segments_everywhere(path: Seq<char>)
    ensures
        splits(path) ==> two_segment_shape(path),
{
    if splits(path) {
        let (first, second) = choose|first: Seq<char>, second: Seq<char>|
            is_segment(first) && is_segment(second) && path == #[trigger] path_of(first, second);
        lemma_two_segments(first, second);
    }
}

/// The plugin and the route that a request to the plugin surface names: a
/// `GET` for `/plugin/route`, each of the two a segment. Any other request
/// names none.
pub fn plugin_request(method: &str, path: &str) -> (hit: Option<(String, String)>)
    ensures
        match hit {
            Some((plugin, route)) => {
                &&& method@ == "GET"@
                &&& is_segment(plugin@)
                &&& is_segment(route@)
                &&& path@ == path_of(plugin@, route@)
            },
            None => method@ != "GET"@ || !splits(path@),
        },
{
    if !str_eq(method, "GET") {
        return None;
    }
    let ghost p = path@;
    proof {
        lemma_two_segments_everywhere(p);
    }
    if !path.is_ascii() {
        return None;
    }
    let n = path.unicode_len();
    if n == 0 {
        return None;
    }
    proof {
        lemma_slash_byte(p[0]);
    }
    if path.get_ascii(0) != 47 {
        return None;
    }
    let i = next_slash(path, 1);
    let ghost slash = choose|slash: int| shaped_at(p, slash);
    proof {
        if splits(p) {
            assert(p[slash] == '/');
            assert(i <= slash);
            assert(p[i as int] == '/');
        }
    }
    if i == 1 || i >= n - 1 {
        return None;
    }
    let k = next_slash(path, i + 1);
    proof {
        if splits(p) && k < n {
            assert(p[k as int] == '/');
        }
    }
    if k < n {
        return None;
    }
    let plugin = path.substring_ascii(1, i).to_owned();
    let route = path.substring_ascii(i + 1, n).to_owned();
    proof {
        assert(plugin@ == p.subrange(1, i as int));
        assert(route@ == p.subrange(i as int + 1, n as int));
        assert(p =~= path_of(plugin@, route@));
        assert(is_segment(plugin@)) by {
            assert forall|j: int| 0 <= j < plugin@.len() implies '\0' <= #[trigger] plugin@[j]
                <= '\u{7f}' && plugin@[j] != '/' by {
                assert(plugin@[j] == p[j + 1]);
            }
        }
        assert(is_segment(route@)) by {
            assert forall|j: int| 0 <= j < route@.len() implies '\0' <= #[trigger] route@[j]
                <= '\u{7f}' && route@[j] != '/' by {
                assert(route@[j] == p[j + i + 1]);
            }
        }
    }
    Some((plugin, route))
}

} // verus!
