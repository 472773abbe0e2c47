//! The HTTP API registry: routes keyed by path and method, kept in insertion
//! order, with a dispatcher tag per route. Lookup goes through an insertion
//! -ordered map of the `indexmap` crate behind trusted wrappers; everything
//! around it is verified.

use vstd::prelude::*;
use crate::json::{json_clean, spec_json_string};
use crate::strutil::str_eq;

verus! {

#[verifier::external_type_specification]
#[verifier::external_body]
#[verifier::reject_recursive_types(K)]
#[verifier::reject_recursive_types(V)]
#[verifier::reject_recursive_types(S)]
pub struct ExIndexMap<K, V, S>(indexmap::IndexMap<K, V, S>);

/// The entries an index map holds, in its insertion order.
pub uninterp spec fn index_map_entries(m: indexmap::IndexMap<String, usize>) -> Seq<
    (Seq<char>, usize),
>;

/// Relies on indexmap's `IndexMap::new`: an empty map.
#[verifier::external_body]
fn im_new() -> (m: indexmap::IndexMap<String, usize>)
    ensures
        index_map_entries(m) == Seq::<(Seq<char>, usize)>::empty(),
{
    indexmap::IndexMap::new()
}

/// Relies on indexmap's `IndexMap::contains_key`: true exactly when an
/// equivalent key is present.
#[verifier::external_body]
fn im_contains(m: &indexmap::IndexMap<String, usize>, k: &str) -> (r: bool)
    ensures
        r == (exists|i: int|
            0 <= i < index_map_entries(*m).len() && #[trigger] index_map_entries(*m)[i].0 == k@),
{
    m.contains_key(k)
}

/// Relies on indexmap's `IndexMap::insert`: a key not yet present is
/// inserted last in order.
#[verifier::external_body]
fn im_insert_new(m: &mut indexmap::IndexMap<String, usize>, k: String, v: usize)
    requires
        forall|i: int|
            0 <= i < index_map_entries(*old(m)).len() ==> #[trigger] index_map_entries(
                *old(m),
            )[i].0 != k@,
    ensures
        index_map_entries(*final(m)) == index_map_entries(*old(m)).push((k@, v)),
{
    m.insert(k, v);
}

/// Relies on indexmap's `IndexMap::get`: the value stored under an
/// equivalent key, if one is present.
#[verifier::external_body]
fn im_get(m: &indexmap::IndexMap<String, usize>, k: &str) -> (r: Option<usize>)
    ensures
        match r {
            Some(v) => exists|i: int|
                0 <= i < index_map_entries(*m).len() && #[trigger] index_map_entries(*m)[i] == (
                k@,
                v,
                ),
            None => forall|i: int|
                0 <= i < index_map_entries(*m).len() ==> #[trigger] index_map_entries(*m)[i].0
                    != k@,
        },
{
    m.get(k).copied()
}

/// One route of the HTTP control plane.
pub struct ApiRoute {
    /// The exact request path, such as `/screen0/info`.
    pub path: String,
    /// The request method, such as `GET`.
    pub method: String,
    /// A line for the `/apis` listing; not part of the route key.
    pub description: String,
}

/// The ghost image of a route.
pub struct ApiRouteV {
    pub path: Seq<char>,
    pub method: Seq<char>,
    pub description: Seq<char>,
}

impl View for ApiRoute {
    type V = ApiRouteV;

    open spec fn view(&self) -> ApiRouteV {
        ApiRouteV { path: self.path@, method: self.method@, description: self.description@ }
    }
}

/// The lookup key of a route: method and path; the description plays no
/// part.
pub open spec fn spec_route_key(method: Seq<char>, path: Seq<char>) -> Seq<char> {
    method + " "@ + path
}

/// Builds the lookup key of a method and path.
fn route_key(method: &str, path: &str) -> (r: String)
    ensures
        r@ == spec_route_key(method@, path@),
{
    let mut r = String::new();
    r.append(method);
    r.append(" ");
    r.append(path);
    proof {
        assert(r@ =~= spec_route_key(method@, path@));
    }
    r
}

/// What a route does when invoked; the holder of the device table carries
/// these out.
#[derive(Clone, Copy, Debug, PartialEq, Eq, Structural)]
pub enum ApiHandler {
    /// List every registered route.
    ListApis,
    /// List every registered device id.
    ListDevices,
    /// Serve one screen's info JSON.
    ScreenInfo(usize),
    /// Serve one IMU's info JSON.
    ImuInfo(usize),
    /// Serve one IMU's protobuf schema.
    ImuSchema(usize),
    /// Start one IMU's publisher.
    ImuStart(usize),
    /// Stop one IMU's publisher.
    ImuStop(usize),
    /// Serve one backlight's info JSON.
    BacklightInfo(usize),
    /// Serve one backlight's brightness.
    BacklightGet(usize),
    /// Set one backlight's brightness.
    BacklightSet(usize),
}

/// What a dispatch yields: a handler to carry out, or the not-found
/// response.
pub enum DispatchResult {
    /// The route exists; carry out its handler.
    Found(ApiHandler),
    /// No such route: the HTTP status and body to send.
    NotFound(u16, String),
}

/// A sequence of strings holds one equal to `x`.
pub open spec fn contains_string(s: Seq<Seq<char>>, x: Seq<char>) -> bool {
    exists|i: int| 0 <= i < s.len() && s[i] == x
}

/// Tests whether a string list holds `x`.
fn vec_contains_str(v: &Vec<String>, x: &str) -> (r: bool)
    ensures
        r == contains_string(v@.map_values(|s: String| s@), x@),
{
    let ghost sv = v@.map_values(|s: String| s@);
    let mut i: usize = 0;
    while i < v.len()
        invariant
            0 <= i <= v@.len(),
            sv == v@.map_values(|s: String| s@),
            forall|m: int| 0 <= m < i ==> sv[m] != x@,
        decreases v@.len() - i,
    {
        if str_eq(v[i].as_str(), x) {
            proof {
                assert(sv[i as int] == x@);
            }
            return true;
        }
        i = i + 1;
    }
    false
}

/// The process-wide API registry: the route table in insertion order, one
/// handler tag per route, and the device id list.
pub struct ApiRegister {
    /// The routes, in the order they were added.
    pub routes: Vec<ApiRoute>,
    /// The handler of each route, position for position.
    pub handlers: Vec<ApiHandler>,
    /// The lookup index from route key to position.
    pub index: indexmap::IndexMap<String, usize>,
    /// The registered device ids, in order.
    pub device_list: Vec<String>,
}

impl ApiRegister {
    /// The route views in order.
    pub open spec fn routes_v(&self) -> Seq<ApiRouteV> {
        self.routes@.map_values(|r: ApiRoute| r@)
    }

    /// The device id views in order.
    pub open spec fn devices_v(&self) -> Seq<Seq<char>> {
        self.device_list@.map_values(|s: String| s@)
    }

    /// The registry invariant: the index mirrors the route table position
    /// for position, route keys are distinct, and every listed text fits the
    /// JSON listings unescaped.
    pub open spec fn wf(&self) -> bool {
        &&& self.handlers@.len() == self.routes@.len()
        &&& index_map_entries(self.index) == Seq::new(
            self.routes@.len(),
            |i: int| (spec_route_key(self.routes_v()[i].method, self.routes_v()[i].path), i as usize),
        )
        &&& forall|i: int, j: int|
            0 <= i < j < self.routes@.len() ==> spec_route_key(
                self.routes_v()[i].method,
                self.routes_v()[i].path,
            ) != spec_route_key(self.routes_v()[j].method, self.routes_v()[j].path)
        &&& forall|i: int|
            0 <= i < self.routes@.len() ==> json_clean(#[trigger] self.routes_v()[i].path)
                && json_clean(self.routes_v()[i].method) && json_clean(
                self.routes_v()[i].description,
            )
        &&& forall|i: int| 0 <= i < self.devices_v().len() ==> json_clean(#[trigger] self.devices_v()[i])
    }

    /// A fresh registry, seeded with the built-in `/apis` and `/devices`
    /// routes.
    pub fn new() -> (r: Self)
        ensures
            r.wf(),
            r.routes_v().len() == 2,
            r.routes_v()[0].path == "/apis"@,
            r.routes_v()[0].method == "GET"@,
            r.routes_v()[1].path == "/devices"@,
            r.routes_v()[1].method == "GET"@,
            r.handlers@ == seq![ApiHandler::ListApis, ApiHandler::ListDevices],
            r.devices_v().len() == 0,
    {
        let mut reg = ApiRegister {
            routes: Vec::new(),
            handlers: Vec::new(),
            index: im_new(),
            device_list: Vec::new(),
        };
        proof {
            reveal_strlit("/apis");
            reveal_strlit("/devices");
            reveal_strlit("GET");
            reveal_strlit("List all available APIs");
            reveal_strlit("List all available devices");
            assert(index_map_entries(reg.index) =~= Seq::new(
                reg.routes@.len(),
                |i: int|
                    (spec_route_key(reg.routes_v()[i].method, reg.routes_v()[i].path), i as usize),
            ));
            assert(reg.wf());
        }
        let apis = ApiRoute {
            path: String::from_str("/apis"),
            method: String::from_str("GET"),
            description: String::from_str("List all available APIs"),
        };
        let res = reg.add_api(apis, ApiHandler::ListApis);
        let devices = ApiRoute {
            path: String::from_str("/devices"),
            method: String::from_str("GET"),
            description: String::from_str("List all available devices"),
        };
        let res2 = reg.add_api(devices, ApiHandler::ListDevices);
        proof {
            assert(res is Ok);
            assert(("/apis"@).len() == 5);
            assert(("/devices"@).len() == 8);
            assert(spec_route_key("GET"@, "/apis"@).len() != spec_route_key(
                "GET"@,
                "/devices"@,
            ).len());
            assert(res2 is Ok);
            assert(reg.handlers@ =~= seq![ApiHandler::ListApis, ApiHandler::ListDevices]);
        }
        reg
    }

    /// Adds a route: inserted when its key is new, refused when a route with
    /// the same path and method already exists. The listing order is the
    /// insertion order.
    pub fn add_api(&mut self, route: ApiRoute, handler: ApiHandler) -> (r: Result<(), String>)
        requires
            old(self).wf(),
            json_clean(route@.path),
            json_clean(route@.method),
            json_clean(route@.description),
        ensures
            final(self).wf(),
            match r {
                Ok(()) => {
                    &&& !exists|i: int|
                        0 <= i < old(self).routes_v().len() && spec_route_key(
                            #[trigger] old(self).routes_v()[i].method,
                            old(self).routes_v()[i].path,
                        ) == spec_route_key(route@.method, route@.path)
                    &&& final(self).routes_v() == old(self).routes_v().push(route@)
                    &&& final(self).handlers@ == old(self).handlers@.push(handler)
                },
                Err(_) => {
                    &&& exists|i: int|
                        0 <= i < old(self).routes_v().len() && spec_route_key(
                            #[trigger] old(self).routes_v()[i].method,
                            old(self).routes_v()[i].path,
                        ) == spec_route_key(route@.method, route@.path)
                    &&& final(self).routes_v() == old(self).routes_v()
                    &&& final(self).handlers@ == old(self).handlers@
                },
            },
            final(self).devices_v() == old(self).devices_v(),
    {
        let key = route_key(route.method.as_str(), route.path.as_str());
        if im_contains(&self.index, key.as_str()) {
            let mut e = String::new();
            e.append("api route already exists: ");
            e.append(key.as_str());
            return Err(e);
        }
        let idx = self.routes.len();
        let ghost old_entries = index_map_entries(self.index);
        im_insert_new(&mut self.index, key, idx);
        self.routes.push(route);
        self.handlers.push(handler);
        proof {
            let oldr = old(self).routes_v();
            let newr = self.routes_v();
            assert(newr =~= oldr.push(route@));
            assert forall|i: int| 0 <= i < oldr.len() implies spec_route_key(
                #[trigger] oldr[i].method,
                oldr[i].path,
            ) != spec_route_key(route@.method, route@.path) by {
                assert(old_entries[i].0 == spec_route_key(oldr[i].method, oldr[i].path));
            }
            assert(index_map_entries(self.index) =~= Seq::new(
                newr.len(),
                |i: int| (spec_route_key(newr[i].method, newr[i].path), i as usize),
            ));
            assert forall|i: int, j: int| 0 <= i < j < newr.len() implies spec_route_key(
                newr[i].method,
                newr[i].path,
            ) != spec_route_key(newr[j].method, newr[j].path) by {
                if j == newr.len() - 1 {
                    assert(newr[i] == oldr[i]);
                    assert(newr[j] == route@);
                } else {
                    assert(newr[i] == oldr[i]);
                    assert(newr[j] == oldr[j]);
                }
            }
            assert forall|i: int| 0 <= i < newr.len() implies json_clean(
                #[trigger] newr[i].path,
            ) && json_clean(newr[i].method) && json_clean(newr[i].description) by {
                if i < newr.len() - 1 {
                    assert(newr[i] == oldr[i]);
                }
            }
            assert(self.devices_v() == old(self).devices_v());
            assert(final(self).wf());
        }
        Ok(())
    }

    /// Appends a device id to the device list; a duplicate id is ignored.
    pub fn add_device(&mut self, device_id: String)
        requires
            old(self).wf(),
            json_clean(device_id@),
        ensures
            final(self).wf(),
            contains_string(old(self).devices_v(), device_id@) ==> final(self).devices_v() == old(
                self,
            ).devices_v(),
            !contains_string(old(self).devices_v(), device_id@) ==> final(self).devices_v() == old(
                self,
            ).devices_v().push(device_id@),
            final(self).routes_v() == old(self).routes_v(),
            final(self).handlers@ == old(self).handlers@,
    {
        if vec_contains_str(&self.device_list, device_id.as_str()) {
            return ;
        }
        self.device_list.push(device_id);
        proof {
            assert(final(self).devices_v() =~= old(self).devices_v().push(device_id@));
        }
    }

    /// Looks a request up by path and method: the route's handler when it is
    /// registered, else the 404 response with body `Not Found`.
    pub fn invoke_api(&self, path: &str, method: &str) -> (r: DispatchResult)
        requires
            self.wf(),
        ensures
            match r {
                DispatchResult::Found(h) => exists|i: int|
                    0 <= i < self.routes_v().len() && spec_route_key(
                        #[trigger] self.routes_v()[i].method,
                        self.routes_v()[i].path,
                    ) == spec_route_key(method@, path@) && h == self.handlers@[i],
                DispatchResult::NotFound(status, body) => status == 404 && body@ == "Not Found"@
                    && !exists|i: int|
                    0 <= i < self.routes_v().len() && spec_route_key(
                        #[trigger] self.routes_v()[i].method,
                        self.routes_v()[i].path,
                    ) == spec_route_key(method@, path@),
            },
            r is Found <==> exists|i: int|
                0 <= i < self.routes_v().len() && spec_route_key(
                    #[trigger] self.routes_v()[i].method,
                    self.routes_v()[i].path,
                ) == spec_route_key(method@, path@),
    {
        let key = route_key(method, path);
        match im_get(&self.index, key.as_str()) {
            Some(idx) => {
                let n = self.routes.len();
                proof {
                    let entries = index_map_entries(self.index);
                    assert(entries.len() == n);
                    let j = choose|i: int|
                        0 <= i < index_map_entries(self.index).len() && #[trigger] index_map_entries(
                            self.index,
                        )[i] == (key@, idx);
                    assert(0 <= j < entries.len() && entries[j] == (key@, idx));
                    assert(entries[j] == (
                        spec_route_key(self.routes_v()[j].method, self.routes_v()[j].path),
                        j as usize,
                    ));
                    assert(entries[j].1 == idx);
                    assert(entries[j].1 == j as usize);
                    assert(j == idx as int);
                    assert(spec_route_key(
                        self.routes_v()[idx as int].method,
                        self.routes_v()[idx as int].path,
                    ) == spec_route_key(method@, path@));
                }
                let h = self.handlers[idx];
                proof {
                    assert(h == self.handlers@[idx as int]);
                }
                DispatchResult::Found(h)
            },
            None => {
                let body = String::from_str("Not Found");
                proof {
                    reveal_strlit("Not Found");
                    assert forall|i: int|
                        0 <= i < self.routes_v().len() implies spec_route_key(
                        #[trigger] self.routes_v()[i].method,
                        self.routes_v()[i].path,
                    ) != spec_route_key(method@, path@) by {
                        assert(index_map_entries(self.index)[i].0 != key@);
                    }
                }
                DispatchResult::NotFound(404, body)
            },
        }
    }
    /// Every registered route, in insertion order.
    pub fn get_all_api_routes(&self) -> (r: &Vec<ApiRoute>)
        ensures
            r@ == self.routes@,
    {
        &self.routes
    }

    /// Every registered device id, in registration order.
    pub fn get_device_list(&self) -> (r: &Vec<String>)
        ensures
            r@ == self.device_list@,
    {
        &self.device_list
    }

    /// The `/apis` listing: every route as JSON, in insertion order.
    pub fn apis_json(&self) -> (r: String)
        requires
            self.wf(),
        ensures
            r@ == spec_apis_json(self.routes_v()),
    {
        let ghost rv = self.routes_v();
        let mut out = String::new();
        out.append("[");
        let mut i: usize = 0;
        while i < self.routes.len()
            invariant
                self.wf(),
                rv == self.routes_v(),
                0 <= i <= self.routes@.len(),
                out@ == "["@ + spec_apis_items(rv.take(i as int)),
            decreases self.routes@.len() - i,
        {
            if i > 0 {
                out.append(",");
            }
            proof {
                assert(json_clean(self.routes_v()[i as int].path) && json_clean(
                    self.routes_v()[i as int].method,
                ) && json_clean(self.routes_v()[i as int].description));
            }
            append_route_obj(&mut out, &self.routes[i]);
            proof {
                assert(rv.take(i + 1).drop_last() =~= rv.take(i as int));
                assert(rv.take(i + 1).last() == rv[i as int]);
                if i == 0 {
                    assert(rv.take(1).len() == 1);
                }
                assert(out@ =~= "["@ + spec_apis_items(rv.take(i + 1)));
            }
            i = i + 1;
        }
        out.append("]");
        proof {
            assert(rv.take(rv.len() as int) =~= rv);
            assert(out@ =~= spec_apis_json(rv));
        }
        out
    }

    /// The `/devices` listing: every device id, in registration order.
    pub fn devices_json(&self) -> (r: String)
        requires
            self.wf(),
        ensures
            r@ == spec_devices_json(self.devices_v()),
    {
        let ghost dv = self.devices_v();
        let mut out = String::new();
        out.append("[");
        let mut i: usize = 0;
        while i < self.device_list.len()
            invariant
                self.wf(),
                dv == self.devices_v(),
                0 <= i <= self.device_list@.len(),
                out@ == "["@ + spec_devices_items(dv.take(i as int)),
            decreases self.device_list@.len() - i,
        {
            if i > 0 {
                out.append(",");
            }
            proof {
                assert(json_clean(self.devices_v()[i as int]));
            }
            crate::json::append_json_string(&mut out, self.device_list[i].as_str());
            proof {
                assert(dv.take(i + 1).drop_last() =~= dv.take(i as int));
                assert(dv.take(i + 1).last() == dv[i as int]);
                if i == 0 {
                    assert(dv.take(1).len() == 1);
                }
                assert(out@ =~= "["@ + spec_devices_items(dv.take(i + 1)));
            }
            i = i + 1;
        }
        out.append("]");
        proof {
            assert(dv.take(dv.len() as int) =~= dv);
            assert(out@ =~= spec_devices_json(dv));
        }
        out
    }
}

/// One route as a JSON object of its path, method and description.
pub open spec fn spec_route_obj(r: ApiRouteV) -> Seq<char> {
    "{\"path\":\""@ + r.path + "\",\"method\":\""@ + r.method + "\",\"description\":\""@
        + r.description + "\"}"@
}

/// The comma-joined route objects, in order.
pub open spec fn spec_apis_items(s: Seq<ApiRouteV>) -> Seq<char>
    decreases s.len(),
{
    if s.len() == 0 {
        Seq::empty()
    } else if s.len() == 1 {
        spec_route_obj(s[0])
    } else {
        spec_apis_items(s.drop_last()) + ","@ + spec_route_obj(s.last())
    }
}

/// The `/apis` body: the route objects as one JSON array.
pub open spec fn spec_apis_json(s: Seq<ApiRouteV>) -> Seq<char> {
    "["@ + spec_apis_items(s) + "]"@
}

/// The comma-joined quoted device ids, in order.
pub open spec fn spec_devices_items(s: Seq<Seq<char>>) -> Seq<char>
    decreases s.len(),
{
    if s.len() == 0 {
        Seq::empty()
    } else if s.len() == 1 {
        spec_json_string(s[0])
    } else {
        spec_devices_items(s.drop_last()) + ","@ + spec_json_string(s.last())
    }
}

/// The `/devices` body: the device ids as one JSON array of strings.
pub open spec fn spec_devices_json(s: Seq<Seq<char>>) -> Seq<char> {
    "["@ + spec_devices_items(s) + "]"@
}

/// The listing is deterministic in insertion order: adding a route extends
/// the `/apis` items at the end and leaves every earlier entry in place.
pub proof fn lemma_apis_items_append(s: Seq<ApiRouteV>, r: ApiRouteV)
    ensures
        s.len() == 0 ==> spec_apis_items(s.push(r)) == spec_route_obj(r),
        s.len() > 0 ==> spec_apis_items(s.push(r)) == spec_apis_items(s) + ","@ + spec_route_obj(
            r,
        ),
{
    assert(s.push(r).drop_last() =~= s);
    assert(s.push(r).last() == r);
    if s.len() == 0 {
        assert(spec_apis_items(s.push(r)) =~= spec_route_obj(r));
    }
}

/// Appends one route as a JSON object.
fn append_route_obj(out: &mut String, route: &ApiRoute)
    requires
        json_clean(route@.path),
        json_clean(route@.method),
        json_clean(route@.description),
    ensures
        final(out)@ == old(out)@ + spec_route_obj(route@),
{
    out.append("{\"path\":\"");
    out.append(route.path.as_str());
    out.append("\",\"method\":\"");
    out.append(route.method.as_str());
    out.append("\",\"description\":\"");
    out.append(route.description.as_str());
    out.append("\"}");
    proof {
        assert(out@ =~= old(out)@ + spec_route_obj(route@));
    }
}

} // verus!
