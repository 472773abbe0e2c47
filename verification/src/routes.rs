//! Registration of each device's control surface in the API registry, and
//! the fixed texts of the backlight endpoints.

use vstd::prelude::*;
use crate::json::json_clean;
use crate::registry::{
    contains_string,
    spec_route_key,
    ApiHandler,
    ApiRegister,
    ApiRoute,
    ApiRouteV,
};
use crate::strutil::dec_chars;

verus! {

/// A route with this method and path is registered.
pub open spec fn key_present(routes: Seq<ApiRouteV>, method: Seq<char>, path: Seq<char>) -> bool {
    exists|i: int|
        0 <= i < routes.len() && spec_route_key(#[trigger] routes[i].method, routes[i].path)
            == spec_route_key(method, path)
}

/// `/<id><suffix>`, the path of one device endpoint.
pub open spec fn spec_device_path(id: Seq<char>, suffix: Seq<char>) -> Seq<char> {
    "/"@ + id + suffix
}

/// Builds the path of one device endpoint.
fn device_path(id: &str, suffix: &str) -> (r: String)
    ensures
        r@ == spec_device_path(id@, suffix@),
{
    let mut r = String::new();
    r.append("/");
    r.append(id);
    r.append(suffix);
    proof {
        assert(r@ =~= spec_device_path(id@, suffix@));
    }
    r
}

/// Builds one GET route.
fn get_route(id: &str, suffix: &str, description: &str) -> (r: ApiRoute)
    requires
        json_clean(id@),
        json_clean(suffix@),
        json_clean(description@),
    ensures
        r@.path == spec_device_path(id@, suffix@),
        r@.method == "GET"@,
        r@.description == description@,
        json_clean(r@.path),
        json_clean(r@.method),
        json_clean(r@.description),
{
    proof {
        reveal_strlit("/");
        reveal_strlit("GET");
        crate::json::lemma_json_clean_concat("/"@, id@);
        crate::json::lemma_json_clean_concat("/"@ + id@, suffix@);
    }
    ApiRoute {
        path: device_path(id, suffix),
        method: String::from_str("GET"),
        description: String::from_str(description),
    }
}

/// The route view registered under `/<id><suffix>`.
pub open spec fn spec_get_route(id: Seq<char>, suffix: Seq<char>, description: Seq<char>) -> ApiRouteV {
    ApiRouteV { path: spec_device_path(id, suffix), method: "GET"@, description: description }
}


/// Two endpoint paths of one device agree only when their suffixes do.
pub proof fn lemma_device_path_inj(id: Seq<char>, s1: Seq<char>, s2: Seq<char>)
    requires
        spec_device_path(id, s1) == spec_device_path(id, s2),
    ensures
        s1 == s2,
{
    reveal_strlit("/");
    let p1 = spec_device_path(id, s1);
    let p2 = spec_device_path(id, s2);
    assert(p1.len() == 1 + id.len() + s1.len());
    assert(p2.len() == 1 + id.len() + s2.len());
    assert(s1.len() == s2.len());
    assert forall|j: int| 0 <= j < s1.len() implies s1[j] == s2[j] by {
        assert(p1[1 + id.len() + j] == s1[j]);
        assert(p2[1 + id.len() + j] == s2[j]);
    }
    assert(s1 =~= s2);
}

/// Two route keys of one method agree only when their paths do.
pub proof fn lemma_route_key_inj(m: Seq<char>, p1: Seq<char>, p2: Seq<char>)
    requires
        spec_route_key(m, p1) == spec_route_key(m, p2),
    ensures
        p1 == p2,
{
    reveal_strlit(" ");
    let k1 = spec_route_key(m, p1);
    let k2 = spec_route_key(m, p2);
    assert(k1.len() == m.len() + 1 + p1.len());
    assert(k2.len() == m.len() + 1 + p2.len());
    assert(p1.len() == p2.len());
    assert forall|j: int| 0 <= j < p1.len() implies p1[j] == p2[j] by {
        assert(k1[m.len() + 1 + j] == p1[j]);
        assert(k2[m.len() + 1 + j] == p2[j]);
    }
    assert(p1 =~= p2);
}

/// One registration step: the route joins the table when its key is
/// fresh, else nothing changes. Each endpoint's step is independent of the
/// others, so a partly-taken surface still gains its missing routes.
pub open spec fn spec_register_route(
    routes: Seq<ApiRouteV>,
    handlers: Seq<ApiHandler>,
    id: Seq<char>,
    suffix: Seq<char>,
    description: Seq<char>,
    handler: ApiHandler,
) -> (Seq<ApiRouteV>, Seq<ApiHandler>) {
    if key_present(routes, "GET"@, spec_device_path(id, suffix)) {
        (routes, handlers)
    } else {
        (routes.push(spec_get_route(id, suffix, description)), handlers.push(handler))
    }
}

/// The device list after registering an id: appended when new, unchanged
/// when already listed.
pub open spec fn spec_register_device_id(devices: Seq<Seq<char>>, id: Seq<char>) -> Seq<Seq<char>> {
    if contains_string(devices, id) {
        devices
    } else {
        devices.push(id)
    }
}

/// The route table and handlers after registering a backlight's three
/// endpoints, in order.
pub open spec fn spec_register_backlight(
    routes: Seq<ApiRouteV>,
    handlers: Seq<ApiHandler>,
    id: Seq<char>,
    index: usize,
) -> (Seq<ApiRouteV>, Seq<ApiHandler>) {
    let s1 = spec_register_route(
        routes,
        handlers,
        id,
        "/info"@,
        "Get device info."@,
        ApiHandler::BacklightInfo(index),
    );
    let s2 = spec_register_route(
        s1.0,
        s1.1,
        id,
        "/get"@,
        "Get current brightness (0.0~1.0)."@,
        ApiHandler::BacklightGet(index),
    );
    spec_register_route(
        s2.0,
        s2.1,
        id,
        "/set"@,
        "Set brightness (0.0~1.0) via ?brightness=<f>."@,
        ApiHandler::BacklightSet(index),
    )
}

/// The route table and handlers after registering an IMU's four endpoints,
/// in order.
pub open spec fn spec_register_imu(
    routes: Seq<ApiRouteV>,
    handlers: Seq<ApiHandler>,
    id: Seq<char>,
    index: usize,
) -> (Seq<ApiRouteV>, Seq<ApiHandler>) {
    let s1 = spec_register_route(
        routes,
        handlers,
        id,
        "/info"@,
        "Get device info."@,
        ApiHandler::ImuInfo(index),
    );
    let s2 = spec_register_route(
        s1.0,
        s1.1,
        id,
        "/schema"@,
        "Get IMU data protobuf schema."@,
        ApiHandler::ImuSchema(index),
    );
    let s3 = spec_register_route(
        s2.0,
        s2.1,
        id,
        "/start"@,
        "Start publishing data."@,
        ApiHandler::ImuStart(index),
    );
    spec_register_route(
        s3.0,
        s3.1,
        id,
        "/stop"@,
        "Stop publishing data."@,
        ApiHandler::ImuStop(index),
    )
}

/// The route table and handlers after registering a screen's info
/// endpoint.
pub open spec fn spec_register_screen(
    routes: Seq<ApiRouteV>,
    handlers: Seq<ApiHandler>,
    id: Seq<char>,
    index: usize,
) -> (Seq<ApiRouteV>, Seq<ApiHandler>) {
    spec_register_route(
        routes,
        handlers,
        id,
        "/info"@,
        "Get device info."@,
        ApiHandler::ScreenInfo(index),
    )
}

/// Registers a backlight: the device id, then its `info`, `get` and `set`
/// endpoints, in that order. A route whose key is already taken is logged
/// over and skipped by `add_api`; the others still join, each step
/// independent, and the outcome is exactly the registration fold.
pub fn register_backlight_device(reg: &mut ApiRegister, id: &str, index: usize)
    requires
        old(reg).wf(),
        json_clean(id@),
    ensures
        final(reg).wf(),
        final(reg).devices_v() == spec_register_device_id(old(reg).devices_v(), id@),
        final(reg).routes_v() == spec_register_backlight(
            old(reg).routes_v(),
            old(reg).handlers@,
            id@,
            index,
        ).0,
        final(reg).handlers@ == spec_register_backlight(
            old(reg).routes_v(),
            old(reg).handlers@,
            id@,
            index,
        ).1,
    {
        proof {
            reveal_strlit("/info");
            reveal_strlit("/get");
            reveal_strlit("/set");
            reveal_strlit("Get device info.");
            reveal_strlit("Get current brightness (0.0~1.0).");
            reveal_strlit("Set brightness (0.0~1.0) via ?brightness=<f>.");
        }
        reg.add_device(String::from_str(id));
        let route1 = get_route(id, "/info", "Get device info.");
        proof {
            assert(route1@ == spec_get_route(id@, "/info"@, "Get device info."@));
        }
        let r1 = reg.add_api(route1, ApiHandler::BacklightInfo(index));
        let route2 = get_route(id, "/get", "Get current brightness (0.0~1.0).");
        proof {
            assert(route2@ == spec_get_route(id@, "/get"@, "Get current brightness (0.0~1.0)."@));
        }
        let r2 = reg.add_api(route2, ApiHandler::BacklightGet(index));
        let route3 = get_route(id, "/set", "Set brightness (0.0~1.0) via ?brightness=<f>.");
        proof {
            assert(route3@ == spec_get_route(
                id@,
                "/set"@,
                "Set brightness (0.0~1.0) via ?brightness=<f>."@,
            ));
        }
        let r3 = reg.add_api(route3, ApiHandler::BacklightSet(index));
    }

/// Registers an IMU: the device id, then its `info`, `schema`, `start` and
/// `stop` endpoints, in that order; each step independent, the outcome the
/// registration fold.
pub fn register_imu_device(reg: &mut ApiRegister, id: &str, index: usize)
    requires
        old(reg).wf(),
        json_clean(id@),
    ensures
        final(reg).wf(),
        final(reg).devices_v() == spec_register_device_id(old(reg).devices_v(), id@),
        final(reg).routes_v() == spec_register_imu(
            old(reg).routes_v(),
            old(reg).handlers@,
            id@,
            index,
        ).0,
        final(reg).handlers@ == spec_register_imu(
            old(reg).routes_v(),
            old(reg).handlers@,
            id@,
            index,
        ).1,
    {
        proof {
            reveal_strlit("/info");
            reveal_strlit("/schema");
            reveal_strlit("/start");
            reveal_strlit("/stop");
            reveal_strlit("Get device info.");
            reveal_strlit("Get IMU data protobuf schema.");
            reveal_strlit("Start publishing data.");
            reveal_strlit("Stop publishing data.");
        }
        reg.add_device(String::from_str(id));
        let route1 = get_route(id, "/info", "Get device info.");
        proof {
            assert(route1@ == spec_get_route(id@, "/info"@, "Get device info."@));
        }
        let r1 = reg.add_api(route1, ApiHandler::ImuInfo(index));
        let route2 = get_route(id, "/schema", "Get IMU data protobuf schema.");
        proof {
            assert(route2@ == spec_get_route(id@, "/schema"@, "Get IMU data protobuf schema."@));
        }
        let r2 = reg.add_api(route2, ApiHandler::ImuSchema(index));
        let route3 = get_route(id, "/start", "Start publishing data.");
        proof {
            assert(route3@ == spec_get_route(id@, "/start"@, "Start publishing data."@));
        }
        let r3 = reg.add_api(route3, ApiHandler::ImuStart(index));
        let route4 = get_route(id, "/stop", "Stop publishing data.");
        proof {
            assert(route4@ == spec_get_route(id@, "/stop"@, "Stop publishing data."@));
        }
        let r4 = reg.add_api(route4, ApiHandler::ImuStop(index));
    }

/// Registers a screen: the device id and its `info` endpoint; the outcome
/// is the registration fold.
pub fn register_screen_device(reg: &mut ApiRegister, id: &str, index: usize)
    requires
        old(reg).wf(),
        json_clean(id@),
    ensures
        final(reg).wf(),
        final(reg).devices_v() == spec_register_device_id(old(reg).devices_v(), id@),
        final(reg).routes_v() == spec_register_screen(
            old(reg).routes_v(),
            old(reg).handlers@,
            id@,
            index,
        ).0,
        final(reg).handlers@ == spec_register_screen(
            old(reg).routes_v(),
            old(reg).handlers@,
            id@,
            index,
        ).1,
    {
        proof {
            reveal_strlit("/info");
            reveal_strlit("Get device info.");
        }
        reg.add_device(String::from_str(id));
        let route1 = get_route(id, "/info", "Get device info.");
        proof {
            assert(route1@ == spec_get_route(id@, "/info"@, "Get device info."@));
        }
        let r1 = reg.add_api(route1, ApiHandler::ScreenInfo(index));
    }

/// The body answering a successful backlight or IMU action.
pub fn ok_text() -> (r: &'static str)
    ensures
        r@ == "ok"@,
{
    "ok"
}

/// The 400 body for a set request without the parameter.
pub fn missing_brightness_text() -> (r: &'static str)
    ensures
        r@ == "missing brightness parameter"@,
{
    "missing brightness parameter"
}

/// The 400 body for a set request whose parameter is not a number.
pub fn invalid_brightness_text() -> (r: &'static str)
    ensures
        r@ == "invalid brightness value, must be a number between 0.0 and 1.0"@,
{
    "invalid brightness value, must be a number between 0.0 and 1.0"
}

/// The backlight info JSON: keys in serialization order, the current
/// brightness as the number text the edge formatted, the device type
/// escaped into its string literal.
pub open spec fn spec_backlight_info_json(
    current_text: Seq<char>,
    device_type: Seq<char>,
    max: u32,
) -> Seq<char> {
    "{\"current_brightness\":"@ + current_text + ",\"description\":\""@
        + "Control backlight brightness (0.0~1.0)."@ + "\",\"device_type\":\""@
        + crate::json::spec_json_escaped(device_type) + "\",\"max_brightness\":"@ + dec_chars(
        max as nat,
    ) + "}"@
}

/// Builds the backlight info JSON.
pub fn backlight_info_json(current_text: &str, device_type: &str, max: u32) -> (r: String)
    requires
        json_clean(current_text@),
    ensures
        r@ == spec_backlight_info_json(current_text@, device_type@, max),
{
    let mut r = String::new();
    r.append("{\"current_brightness\":");
    r.append(current_text);
    r.append(",\"description\":\"");
    r.append("Control backlight brightness (0.0~1.0).");
    r.append("\",\"device_type\":\"");
    crate::json::append_json_escaped(&mut r, device_type);
    r.append("\",\"max_brightness\":");
    let m = crate::strutil::u64_to_string(max as u64);
    r.append(m.as_str());
    r.append("}");
    proof {
        assert(r@ =~= spec_backlight_info_json(current_text@, device_type@, max));
    }
    r
}

/// The get-brightness JSON: `{"brightness":<x>}`.
pub open spec fn spec_brightness_json(text: Seq<char>) -> Seq<char> {
    "{\"brightness\":"@ + text + "}"@
}

/// Builds the get-brightness JSON around the number text the edge
/// formatted.
pub fn brightness_json(text: &str) -> (r: String)
    ensures
        r@ == spec_brightness_json(text@),
{
    let mut r = String::new();
    r.append("{\"brightness\":");
    r.append(text);
    r.append("}");
    proof {
        assert(r@ =~= spec_brightness_json(text@));
    }
    r
}

} // verus!
