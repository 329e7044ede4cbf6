//! The front door: which requests are let in, and the bodies of the
//! responses that the bridge writes itself.

use crate::error::{AppError, Status};
use crate::json::{json_doc, members_of, object_value, text_value, JsonDoc};
use crate::strmap::{distinct_keys, has_key, lemma_position, Entry};
use crate::text::{chars_of, find_char, first_index, same_text, texts};
use serde_json::Value;
use vstd::prelude::*;
use vstd::string::StrSliceExecFns;

verus! {

/// The two groups of routes.
#[derive(Clone, Copy, Debug, PartialEq, Eq, Structural)]
pub enum Route {
    /// The liveness probe, which no check stands before.
    Health,
    /// Every other route: system information, shutdown and calls.
    Protected,
}

/// What the configuration says of the front door.
#[derive(Clone, Debug)]
pub struct SecurityConfig {
    /// Whether protected routes ask for the key.
    pub auth_enabled: bool,
    /// The hosts that requests may name.
    pub allowed_hosts: Vec<String>,
}

/// The host of a `Host` header without its port: what stands before the
/// first colon.
pub open spec fn host_only(host: Seq<char>) -> Seq<char> {
    host.take(first_index(host, ':'))
}

/// Whether a request that names `host` passes the allowlist. A request
/// that names no host passes.
pub open spec fn host_passes(host: Seq<char>, allowed: Seq<Seq<char>>) -> bool {
    host.len() == 0 || allowed.contains(host_only(host))
}

/// Whether a request that presents `key` passes the key check.
pub open spec fn key_passes(auth_enabled: bool, key: Seq<char>, secret: Seq<char>) -> bool {
    !auth_enabled || key == secret
}

/// The text of an optional header; a missing header counts as empty.
pub open spec fn header_text(header: Option<&str>) -> Seq<char> {
    match header {
        Some(h) => h@,
        None => Seq::<char>::empty(),
    }
}

/// Whether a request is let in. The liveness probe always is. Any other
/// request is checked against the allowlist first and then, where keys are
/// asked for, against the key.
pub open spec fn admission(
    route: Route,
    host: Seq<char>,
    key: Seq<char>,
    auth_enabled: bool,
    allowed: Seq<Seq<char>>,
    secret: Seq<char>,
) -> Result<(), (Status, Seq<char>)> {
    if route == Route::Health {
        Ok(())
    } else if !host_passes(host, allowed) {
        Err((Status::BadRequest, "Host not allowed"@))
    } else if !key_passes(auth_enabled, key, secret) {
        Err((Status::Forbidden, "Invalid API Key"@))
    } else {
        Ok(())
    }
}

/// The model of an admission.
pub open spec fn admission_model(r: Result<(), AppError>) -> Result<(), (Status, Seq<char>)> {
    match r {
        Ok(()) => Ok(()),
        Err(e) => Err(e@),
    }
}

/// The host of a `Host` header without its port.
pub fn strip_port(host: &str) -> (r: &str)
    ensures
        r@ == host_only(host@),
{
    let chars = chars_of(host);
    let end = find_char(&chars, 0, ':');
    assert(chars@.skip(0) =~= chars@);
    host.substring_char(0, end)
}

/// Whether `name` is among `hosts`.
fn listed(hosts: &Vec<String>, name: &str) -> (r: bool)
    ensures
        r == texts(hosts@).contains(name@),
{
    let mut i: usize = 0;
    while i < hosts.len()
        invariant
            i <= hosts@.len(),
            forall|j: int| 0 <= j < i ==> hosts@[j]@ != name@,
        decreases hosts@.len() - i,
    {
        if same_text(hosts[i].as_str(), name) {
            assert(texts(hosts@)[i as int] == name@);
            return true;
        }
        i = i + 1;
    }
    assert forall|j: int| 0 <= j < texts(hosts@).len() implies texts(hosts@)[j]
        != name@ by {
        assert(texts(hosts@)[j] == hosts@[j]@);
    }
    false
}

/// Whether a request that names `host` passes the allowlist.
pub fn host_allowed(host: &str, allowed: &Vec<String>) -> (r: bool)
    ensures
        r == host_passes(host@, texts(allowed@)),
{
    if host.unicode_len() == 0 {
        return true;
    }
    listed(allowed, strip_port(host))
}

/// Whether a request that presents `key` passes the key check.
pub fn key_accepted(auth_enabled: bool, key: &str, secret: &str) -> (r: bool)
    ensures
        r == key_passes(auth_enabled, key@, secret@),
{
    !auth_enabled || same_text(key, secret)
}

/// Lets a request in or says why not. `host` and `key` are the request's
/// `Host` header and key header, where it has them.
pub fn screen(
    route: Route,
    host: Option<&str>,
    key: Option<&str>,
    security: &SecurityConfig,
    secret: &str,
) -> (r: Result<(), AppError>)
    ensures
        admission_model(r) == admission(
            route,
            header_text(host),
            header_text(key),
            security.auth_enabled,
            texts(security.allowed_hosts@),
            secret@,
        ),
{
    match route {
        Route::Health => Ok(()),
        Route::Protected => {
            let host_text = match host {
                Some(h) => h,
                None => "",
            };
            let key_text = match key {
                Some(k) => k,
                None => "",
            };
            proof {
                reveal_strlit("");
                assert(""@ =~= Seq::<char>::empty());
            }
            if !host_allowed(host_text, &security.allowed_hosts) {
                Err(AppError::new(Status::BadRequest, "Host not allowed"))
            } else if !key_accepted(security.auth_enabled, key_text, secret) {
                Err(AppError::new(Status::Forbidden, "Invalid API Key"))
            } else {
                Ok(())
            }
        },
    }
}

/// A protected request that names a host which is not on the allowlist is
/// rejected as a bad request, whatever key it presents.
pub proof fn lemma_unlisted_host_is_rejected(
    host: Seq<char>,
    key: Seq<char>,
    auth_enabled: bool,
    allowed: Seq<Seq<char>>,
    secret: Seq<char>,
)
    requires
        host.len() > 0,
        !allowed.contains(host_only(host)),
    ensures
        admission(Route::Protected, host, key, auth_enabled, allowed, secret) == Err::<
            (),
            (Status, Seq<char>),
        >((Status::BadRequest, "Host not allowed"@)),
{
}

/// The liveness probe is let in whatever the request names or presents.
pub proof fn lemma_health_is_always_let_in(
    host: Seq<char>,
    key: Seq<char>,
    auth_enabled: bool,
    allowed: Seq<Seq<char>>,
    secret: Seq<char>,
)
    ensures
        admission(Route::Health, host, key, auth_enabled, allowed, secret) == Ok::<
            (),
            (Status, Seq<char>),
        >(()),
{
}

/// With keys not asked for, any key passes.
pub proof fn lemma_disabled_auth_lets_any_key_pass(key: Seq<char>, secret: Seq<char>)
    ensures
        key_passes(false, key, secret),
{
}

/// Why a server that is asked for TLS does not start.
pub open spec fn tls_refusal() -> Seq<char> {
    "SSL is enabled in config but not supported by lunu-bridge."@
}

/// Whether the server may start with this transport setting: TLS is not
/// supported, so a configuration that asks for it is refused with the
/// reason.
pub fn check_transport(ssl_enabled: bool) -> (r: Result<(), &'static str>)
    ensures
        match r {
            Ok(()) => !ssl_enabled,
            Err(reason) => ssl_enabled && reason@ == tls_refusal(),
        },
{
    if ssl_enabled {
        Err("SSL is enabled in config but not supported by lunu-bridge.")
    } else {
        Ok(())
    }
}

/// An object with the single member `key`.
pub open spec fn single_member(key: Seq<char>, value: JsonDoc) -> JsonDoc {
    JsonDoc::Object(Map::<Seq<char>, JsonDoc>::empty().insert(key, value))
}

/// Builds an object with one member.
fn single_object(key: &str, value: Value) -> (r: Value)
    ensures
        json_doc(r) == single_member(key@, json_doc(value)),
{
    let mut entries: Vec<Entry<Value>> = Vec::new();
    entries.push(Entry { key: key.to_owned(), value });
    proof {
        lemma_position(entries@, 0);
        assert forall|k: Seq<char>| has_key(entries@, k) implies k == key@ by {}
        assert(members_of(entries@) =~= Map::<Seq<char>, JsonDoc>::empty().insert(
            key@,
            json_doc(value),
        ));
    }
    object_value(entries)
}

/// The body that answers a call: the result as the member `result`.
pub fn result_body(result: Value) -> (r: Value)
    ensures
        json_doc(r) == single_member("result"@, json_doc(result)),
{
    single_object("result", result)
}

/// The body that acknowledges a shutdown.
pub fn shutdown_body() -> (r: Value)
    ensures
        json_doc(r) == single_member("result"@, JsonDoc::Text("shutting down"@)),
{
    single_object("result", text_value("shutting down".to_owned()))
}

/// The body of the liveness probe: the members `status` and `system`.
pub fn health_body() -> (r: Value)
    ensures
        json_doc(r) == JsonDoc::Object(
            Map::<Seq<char>, JsonDoc>::empty().insert("status"@, JsonDoc::Text("ok"@)).insert(
                "system"@,
                JsonDoc::Text("Lunu"@),
            ),
        ),
{
    let mut entries: Vec<Entry<Value>> = Vec::new();
    entries.push(Entry { key: "status".to_owned(), value: text_value("ok".to_owned()) });
    entries.push(Entry { key: "system".to_owned(), value: text_value("Lunu".to_owned()) });
    proof {
        reveal_strlit("status");
        reveal_strlit("system");
        assert("status"@[1] == 't' && "system"@[1] == 'y');
        assert(distinct_keys(entries@));
        lemma_position(entries@, 0);
        lemma_position(entries@, 1);
        assert forall|k: Seq<char>| has_key(entries@, k) implies k == "status"@ || k
            == "system"@ by {}
        assert(members_of(entries@) =~= Map::<Seq<char>, JsonDoc>::empty().insert(
            "status"@,
            JsonDoc::Text("ok"@),
        ).insert("system"@, JsonDoc::Text("Lunu"@)));
    }
    object_value(entries)
}

} // verus!
