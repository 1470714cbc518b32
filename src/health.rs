//! Readiness of the service and the replies of its health surface.
use vstd::prelude::*;
use crate::text::contains_seq;

verus! {

/// Snapshot of the three readiness gates of the service.
#[derive(Clone, Copy, Debug, PartialEq, Eq, Structural)]
pub struct ReadinessState {
    pub database_connected: bool,
    pub embedding_initialized: bool,
    pub auto_population_complete: bool,
}

impl ReadinessState {
    /// Nothing is initialised yet.
    pub fn new() -> (r: ReadinessState)
        ensures
            !r.database_connected,
            !r.embedding_initialized,
            !r.auto_population_complete,
    {
        ReadinessState {
            database_connected: false,
            embedding_initialized: false,
            auto_population_complete: false,
        }
    }

    /// Ready once the store and the embedding provider are both up;
    /// background auto-population does not gate readiness.
    pub open spec fn spec_is_ready(&self) -> bool {
        self.database_connected && self.embedding_initialized
    }

    pub fn is_ready(&self) -> (r: bool)
        ensures
            r == self.spec_is_ready(),
    {
        self.database_connected && self.embedding_initialized
    }
}

/// An HTTP reply of the health surface.
#[derive(Debug, Clone, PartialEq, Eq)]
pub struct HealthReply {
    pub status: u16,
    /// Whether the body is JSON.
    pub json: bool,
    pub body: String,
}

pub open spec fn bool_text(b: bool) -> Seq<char> {
    if b { "true"@ } else { "false"@ }
}

fn bool_string(b: bool) -> (r: String)
    ensures
        r@ == bool_text(b),
{
    if b { String::from_str("true") } else { String::from_str("false") }
}

/// A JSON object around the given members.
pub open spec fn object(members: Seq<char>) -> Seq<char> {
    "\u{7b}"@ + members + "\u{7d}"@
}

fn object_text(members: String) -> (r: String)
    ensures
        r@ == object(members@),
{
    String::from_str("\u{7b}").concat(members.as_str()).concat("\u{7d}")
}

pub open spec fn live_body() -> Seq<char> {
    object("\u{22}status\u{22}:\u{22}alive\u{22},\u{22}service\u{22}:\u{22}rustdocs-mcp-server\u{22}"@)
}

pub open spec fn ready_body(auto_population_complete: bool) -> Seq<char> {
    object(
        "\u{22}status\u{22}:\u{22}ready\u{22},\u{22}service\u{22}:\u{22}rustdocs-mcp-server\u{22},\u{22}auto_population_complete\u{22}:"@
            + bool_text(auto_population_complete),
    )
}

pub open spec fn not_ready_members(s: ReadinessState) -> Seq<char> {
    "\u{22}status\u{22}:\u{22}not_ready\u{22},\u{22}service\u{22}:\u{22}rustdocs-mcp-server\u{22},"@ + "\u{22}database_connected\u{22}:"@
        + bool_text(s.database_connected) + ",\u{22}embedding_initialized\u{22}:"@ + bool_text(
        s.embedding_initialized,
    ) + ",\u{22}auto_population_complete\u{22}:"@ + bool_text(s.auto_population_complete)
}

pub open spec fn legacy_body() -> Seq<char> {
    object(
        "\u{22}status\u{22}:\u{22}alive\u{22},\u{22}service\u{22}:\u{22}rustdocs-mcp-server\u{22},\u{22}note\u{22}:\u{22}Use /health/live or /health/ready for specific checks\u{22}"@,
    )
}

/// The reply of the health surface to a request: liveness always answers 200;
/// readiness answers 200 once ready and 503 with the three gates before; the
/// legacy path answers like liveness; anything else is 404.
pub open spec fn spec_health_reply(is_get: bool, path: Seq<char>, s: ReadinessState) -> (u16, bool, Seq<char>) {
    if is_get && path == "/health/live"@ {
        (200, true, live_body())
    } else if is_get && path == "/health/ready"@ {
        if s.spec_is_ready() {
            (200, true, ready_body(s.auto_population_complete))
        } else {
            (503, true, object(not_ready_members(s)))
        }
    } else if is_get && path == "/health"@ {
        (200, true, legacy_body())
    } else {
        (404, false, "Not Found"@)
    }
}

pub fn health_reply(is_get: bool, path: &str, s: &ReadinessState) -> (r: HealthReply)
    ensures
        (r.status, r.json, r.body@) == spec_health_reply(is_get, path@, *s),
{
    let p = path.to_owned();
    if is_get && p == String::from_str("/health/live") {
        let body = object_text(
            String::from_str("\u{22}status\u{22}:\u{22}alive\u{22},\u{22}service\u{22}:\u{22}rustdocs-mcp-server\u{22}"),
        );
        HealthReply { status: 200, json: true, body }
    } else if is_get && p == String::from_str("/health/ready") {
        if s.is_ready() {
            let members = String::from_str(
                "\u{22}status\u{22}:\u{22}ready\u{22},\u{22}service\u{22}:\u{22}rustdocs-mcp-server\u{22},\u{22}auto_population_complete\u{22}:",
            ).concat(bool_string(s.auto_population_complete).as_str());
            HealthReply { status: 200, json: true, body: object_text(members) }
        } else {
            let members = String::from_str("\u{22}status\u{22}:\u{22}not_ready\u{22},\u{22}service\u{22}:\u{22}rustdocs-mcp-server\u{22},")
                .concat("\u{22}database_connected\u{22}:").concat(bool_string(s.database_connected).as_str()).concat(
                ",\u{22}embedding_initialized\u{22}:",
            ).concat(bool_string(s.embedding_initialized).as_str()).concat(",\u{22}auto_population_complete\u{22}:")
                .concat(bool_string(s.auto_population_complete).as_str());
            HealthReply { status: 503, json: true, body: object_text(members) }
        }
    } else if is_get && p == String::from_str("/health") {
        let body = object_text(
            String::from_str(
                "\u{22}status\u{22}:\u{22}alive\u{22},\u{22}service\u{22}:\u{22}rustdocs-mcp-server\u{22},\u{22}note\u{22}:\u{22}Use /health/live or /health/ready for specific checks\u{22}",
            ),
        );
        HealthReply { status: 200, json: true, body }
    } else {
        HealthReply { status: 404, json: false, body: String::from_str("Not Found") }
    }
}

/// Readiness gating: before the store is connected the readiness probe answers
/// 503 and reports `database_connected` false; once store and embedding
/// provider are up it answers 200, whether or not auto-population finished.
/// Liveness answers 200 in every state.
pub proof fn readiness_gating(s: ReadinessState)
    ensures
        spec_health_reply(true, "/health/live"@, s).0 == 200,
        !s.database_connected ==> spec_health_reply(true, "/health/ready"@, s).0 == 503
            && contains_seq(
            spec_health_reply(true, "/health/ready"@, s).2,
            "\u{22}database_connected\u{22}:false"@,
        ),
        s.database_connected && s.embedding_initialized ==> spec_health_reply(
            true,
            "/health/ready"@,
            s,
        ).0 == 200,
{
    reveal_strlit("/health/live");
    reveal_strlit("/health/ready");
    if !s.database_connected {
        let body = object(not_ready_members(s));
        let head = "\u{7b}"@ + "\u{22}status\u{22}:\u{22}not_ready\u{22},\u{22}service\u{22}:\u{22}rustdocs-mcp-server\u{22},"@;
        let target = "\u{22}database_connected\u{22}:"@ + "false"@;
        reveal_strlit("\u{22}database_connected\u{22}:false");
        reveal_strlit("\u{22}database_connected\u{22}:");
        reveal_strlit("false");
        assert(target =~= "\u{22}database_connected\u{22}:false"@);
        assert(body.subrange(head.len() as int, (head.len() + target.len()) as int) =~= target);
        assert(crate::text::occurs_at(body, target, head.len() as int));
        assert("/health/ready"@.len() != "/health/live"@.len());
        assert(spec_health_reply(true, "/health/ready"@, s).2 == body);
        assert(contains_seq(body, target));
    }
}

} // verus!
