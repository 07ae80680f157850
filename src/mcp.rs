//! The protocol layer: the handshake, the envelope errors, and the routing
//! of a request to its handler.
use vstd::prelude::*;
use crate::json::{Json, field, has_keys, is_text, member};
use crate::args::{string_in, string_member};
use crate::calls::{CallError, ToolCall, parse_is, parse_tool_call};
use crate::registry::{get_all_tools, is_catalog, tools_list_json, tools_list_json_is};

verus! {

/// Code of a request whose parameters are malformed.
pub const INVALID_PARAMS: i64 = -32602;

/// Code of a request whose handler failed.
pub const INTERNAL_ERROR: i64 = -32603;

/// Code of a request for a method that does not exist.
pub const METHOD_NOT_FOUND: i64 = -32601;

/// A protocol-level error, as sent to the caller.
#[derive(Debug)]
pub struct RpcError {
    pub code: i64,
    pub message: String,
}

impl RpcError {
    /// Malformed parameters, with a message for the caller.
    pub fn invalid_params(message: &str) -> (r: RpcError)
        ensures
            r.code == INVALID_PARAMS,
            r.message@ == message@,
    {
        RpcError { code: INVALID_PARAMS, message: String::from_str(message) }
    }

    /// A handler failure; the cause is not disclosed.
    pub fn internal_error() -> (r: RpcError)
        ensures
            r.code == INTERNAL_ERROR,
            r.message@ == "Internal error"@,
    {
        RpcError { code: INTERNAL_ERROR, message: String::from_str("Internal error") }
    }

    /// An unknown method.
    pub fn method_not_found() -> (r: RpcError)
        ensures
            r.code == METHOD_NOT_FOUND,
            r.message@ == "Method not found"@,
    {
        RpcError { code: METHOD_NOT_FOUND, message: String::from_str("Method not found") }
    }
}

/// The caller's identity, as sent in the handshake.
#[derive(Debug)]
pub struct ClientInfo {
    pub name: String,
    pub version: Option<String>,
}

/// The handshake request in its one canonical shape.
#[derive(Debug)]
pub struct InitializeParams {
    pub protocol_version: String,
    pub capabilities: Option<Json>,
    pub client_info: Option<ClientInfo>,
}

/// The handshake response.
#[derive(Debug)]
pub struct InitializeResult {
    pub protocol_version: String,
    pub server_info: ServerInfo,
    pub capabilities: ServerCapabilities,
}

/// The server's identity.
#[derive(Debug)]
pub struct ServerInfo {
    pub name: String,
    pub version: String,
}

/// What the server offers.
#[derive(Debug)]
pub struct ServerCapabilities {
    pub tools: ToolsCapability,
}

/// How the tool list behaves.
#[derive(Debug)]
pub struct ToolsCapability {
    /// Always `false`: the tool list never changes.
    pub list_changed: bool,
}

/// A catalog entry, as listed to callers.
#[derive(Debug)]
pub struct Tool {
    pub name: String,
    pub description: String,
    pub input_schema: Json,
}

/// A tool call request in its canonical shape.
#[derive(Debug)]
pub struct ToolCallParams {
    pub name: String,
    pub arguments: Option<Json>,
}

/// The protocol version this server speaks.
pub open spec fn server_protocol() -> Seq<char> {
    "2024-11-05"@
}

/// The version of this server.
pub open spec fn server_version() -> Seq<char> {
    "0.1.0"@
}

/// The member `camel`, or else the member `snake`: the two spellings that
/// callers use for one field.
pub open spec fn either_field(p: Json, camel: Seq<char>, snake: Seq<char>) -> Option<Json> {
    match field(p, camel) {
        Some(v) => Some(v),
        None => field(p, snake),
    }
}

/// The protocol version member, under either spelling.
pub open spec fn version_field(p: Json) -> Option<Json> {
    either_field(p, "protocolVersion"@, "protocol_version"@)
}

/// The client identity member, under either spelling.
pub open spec fn client_field(p: Json) -> Option<Json> {
    either_field(p, "clientInfo"@, "client_info"@)
}

/// The client identity read from its member: present when it has a string
/// `name`; a `version` that is not a string is left out.
pub open spec fn client_info_is(r: Option<ClientInfo>, ci: Option<Json>) -> bool {
    match ci {
        Some(c) => match string_in(field(c, "name"@)) {
            Some(n) => r matches Some(info) && info.name == n && info.version == match field(
                c,
                "version"@,
            ) {
                Some(Json::Str(v)) => Some(v),
                _ => None,
            },
            None => r is None,
        },
        None => r is None,
    }
}

/// `r` is the canonical form of the handshake parameters `p`.
pub open spec fn initialize_params_are(r: InitializeParams, p: Json) -> bool {
    &&& string_in(version_field(p)) == Some(r.protocol_version)
    &&& r.capabilities == field(p, "capabilities"@)
    &&& client_info_is(r.client_info, client_field(p))
}

fn either_member<'a>(p: &'a Json, camel: &str, snake: &str) -> (r: Option<&'a Json>)
    ensures
        match r {
            Some(v) => either_field(*p, camel@, snake@) == Some(*v),
            None => either_field(*p, camel@, snake@) is None,
        },
{
    match p.get(camel) {
        Some(v) => Some(v),
        None => p.get(snake),
    }
}

/// Reads the handshake parameters under either naming convention. The
/// protocol version is required: a missing one, or one that is not a
/// string, is an invalid-parameters error.
pub fn normalize_initialize(params: Json) -> (r: Result<InitializeParams, RpcError>)
    ensures
        match r {
            Ok(ip) => initialize_params_are(ip, params),
            Err(e) => string_in(version_field(params)) is None && e.code == INVALID_PARAMS
                && e.message@ == "missing protocolVersion"@,
        },
{
    let version = match either_member(&params, "protocolVersion", "protocol_version") {
        Some(Json::Str(s)) => s.clone(),
        _ => {
            return Err(RpcError::invalid_params("missing protocolVersion"));
        },
    };
    let client_info = match either_member(&params, "clientInfo", "client_info") {
        Some(c) => match string_member(c, "name") {
            Some(name) => {
                let version = match c.get("version") {
                    Some(Json::Str(v)) => Some(v.clone()),
                    _ => None,
                };
                Some(ClientInfo { name, version })
            },
            None => None,
        },
        None => None,
    };
    let capabilities = params.into_field("capabilities");
    Ok(InitializeParams { protocol_version: version, capabilities, client_info })
}

/// The handshake response of the server named `name`.
pub open spec fn initialize_result_is(r: InitializeResult, name: Seq<char>) -> bool {
    &&& r.protocol_version@ == server_protocol()
    &&& r.server_info.name@ == name
    &&& r.server_info.version@ == server_version()
    &&& !r.capabilities.tools.list_changed
}

/// Answers the handshake: the fixed identity of this server, whatever the
/// caller sent, once a protocol version is present under either spelling.
pub fn initialize(params: Json, server_name: &str) -> (r: Result<InitializeResult, RpcError>)
    ensures
        r is Ok <==> string_in(version_field(params)) is Some,
        match r {
            Ok(res) => initialize_result_is(res, server_name@),
            Err(e) => e.code == INVALID_PARAMS && e.message@ == "missing protocolVersion"@,
        },
{
    match normalize_initialize(params) {
        Ok(_) => Ok(
            InitializeResult {
                protocol_version: String::from_str("2024-11-05"),
                server_info: ServerInfo {
                    name: String::from_str(server_name),
                    version: String::from_str("0.1.0"),
                },
                capabilities: ServerCapabilities { tools: ToolsCapability { list_changed: false } },
            },
        ),
        Err(e) => Err(e),
    }
}

/// `j` is the wire form of the handshake response `r`.
pub open spec fn initialize_json_is(j: Json, r: InitializeResult) -> bool {
    &&& has_keys(j, seq!["protocolVersion"@, "serverInfo"@, "capabilities"@])
    &&& is_text(member(j, 0), r.protocol_version@)
    &&& has_keys(member(j, 1), seq!["name"@, "version"@])
    &&& is_text(member(member(j, 1), 0), r.server_info.name@)
    &&& is_text(member(member(j, 1), 1), r.server_info.version@)
    &&& has_keys(member(j, 2), seq!["tools"@])
    &&& has_keys(member(member(j, 2), 0), seq!["listChanged"@])
    &&& member(member(member(j, 2), 0), 0) == Json::Bool(r.capabilities.tools.list_changed)
}

/// Wire form of the handshake response.
pub fn initialize_result_json(r: InitializeResult) -> (j: Json)
    ensures
        initialize_json_is(j, r),
{
    let server = Json::Object(
        vec![
            (String::from_str("name"), Json::Str(r.server_info.name)),
            (String::from_str("version"), Json::Str(r.server_info.version)),
        ],
    );
    let tools = Json::Object(
        vec![(String::from_str("listChanged"), Json::Bool(r.capabilities.tools.list_changed))],
    );
    let caps = Json::Object(vec![(String::from_str("tools"), tools)]);
    let j = Json::Object(
        vec![
            (String::from_str("protocolVersion"), Json::Str(r.protocol_version)),
            (String::from_str("serverInfo"), server),
            (String::from_str("capabilities"), caps),
        ],
    );
    j
}

/// The wire form of the handshake response of the server named `name`.
pub open spec fn init_reply_is(j: Json, name: Seq<char>) -> bool {
    &&& has_keys(j, seq!["protocolVersion"@, "serverInfo"@, "capabilities"@])
    &&& is_text(member(j, 0), server_protocol())
    &&& has_keys(member(j, 1), seq!["name"@, "version"@])
    &&& is_text(member(member(j, 1), 0), name)
    &&& is_text(member(member(j, 1), 1), server_version())
    &&& has_keys(member(j, 2), seq!["tools"@])
    &&& has_keys(member(member(j, 2), 0), seq!["listChanged"@])
    &&& member(member(member(j, 2), 0), 0) == Json::Bool(false)
}

/// What the handshake answers to `params`.
pub open spec fn init_response_is(r: Result<Json, RpcError>, params: Json, name: Seq<char>) -> bool {
    &&& r is Ok <==> string_in(version_field(params)) is Some
    &&& match r {
        Ok(j) => init_reply_is(j, name),
        Err(e) => e.code == INVALID_PARAMS && e.message@ == "missing protocolVersion"@,
    }
}

/// Answers the handshake in wire form.
pub fn handle_initialize(params: Json, server_name: &str) -> (r: Result<Json, RpcError>)
    ensures
        init_response_is(r, params, server_name@),
{
    match initialize(params, server_name) {
        Ok(res) => Ok(initialize_result_json(res)),
        Err(e) => Err(e),
    }
}

/// The methods this server answers.
#[derive(Clone, Copy, Debug, PartialEq, Eq, Structural)]
pub enum Method {
    Initialize,
    Initialized,
    ToolsList,
    ToolsCall,
    Unknown,
}

/// The method named `m`.
pub open spec fn method_named(m: Seq<char>) -> Method {
    if m == "initialize"@ {
        Method::Initialize
    } else if m == "initialized"@ {
        Method::Initialized
    } else if m == "tools/list"@ {
        Method::ToolsList
    } else if m == "tools/call"@ {
        Method::ToolsCall
    } else {
        Method::Unknown
    }
}

/// Routes a method name.
pub fn route_method(name: &str) -> (r: Method)
    ensures
        r == method_named(name@),
{
    let owned = String::from_str(name);
    if crate::json::text_eq(&owned, "initialize") {
        Method::Initialize
    } else if crate::json::text_eq(&owned, "initialized") {
        Method::Initialized
    } else if crate::json::text_eq(&owned, "tools/list") {
        Method::ToolsList
    } else if crate::json::text_eq(&owned, "tools/call") {
        Method::ToolsCall
    } else {
        Method::Unknown
    }
}

/// What the server does with one request.
#[derive(Debug)]
pub enum Step {
    /// Send this result.
    Reply(Json),
    /// Send this error.
    Fail(RpcError),
    /// The tool call could not start: record the cause, send
    /// [`CallError::to_rpc`] of it.
    Reject(CallError),
    /// Send nothing: the request was a notification.
    Silent,
    /// Perform the call's actions, then send what `complete_call` makes of
    /// their reports.
    Perform(ToolCall),
}

/// Handles one request of the method `method`. Nothing is kept between
/// requests: a failed request leaves the server as it was.
pub fn handle_request(method: &str, params: Json, server_name: &str) -> (r: Step)
    ensures
        match method_named(method@) {
            Method::Initialize => match r {
                Step::Reply(j) => string_in(version_field(params)) is Some && init_reply_is(
                    j,
                    server_name@,
                ),
                Step::Fail(e) => string_in(version_field(params)) is None && e.code
                    == INVALID_PARAMS,
                _ => false,
            },
            Method::Initialized => r is Silent,
            Method::ToolsList => r matches Step::Reply(j) && exists|t: Seq<Tool>|
                is_catalog(t) && tools_list_json_is(j, t),
            Method::ToolsCall => match r {
                Step::Perform(c) => parse_is(Ok(c), params),
                Step::Reject(ce) => parse_is(Err(ce), params),
                _ => false,
            },
            Method::Unknown => r matches Step::Fail(e) && e.code == METHOD_NOT_FOUND,
        },
{
    match route_method(method) {
        Method::Initialize => match handle_initialize(params, server_name) {
            Ok(j) => Step::Reply(j),
            Err(e) => Step::Fail(e),
        },
        Method::Initialized => Step::Silent,
        Method::ToolsList => {
            let tools = get_all_tools();
            let ghost t = tools@;
            let j = tools_list_json(tools);
            assert(is_catalog(t) && tools_list_json_is(j, t));
            Step::Reply(j)
        },
        Method::ToolsCall => match parse_tool_call(&params) {
            Ok(c) => Step::Perform(c),
            Err(ce) => Step::Reject(ce),
        },
        Method::Unknown => Step::Fail(RpcError::method_not_found()),
    }
}

/// The handshake does not care how the protocol version is spelled: a
/// request that names it `protocolVersion` and one that names it
/// `protocol_version`, with the same value, are both accepted or both
/// refused, and get the same answer.
pub proof fn lemma_initialize_spellings(
    camel: Json,
    snake: Json,
    name: Seq<char>,
    r1: Result<Json, RpcError>,
    r2: Result<Json, RpcError>,
)
    requires
        field(camel, "protocolVersion"@) is Some,
        field(camel, "protocolVersion"@) == field(snake, "protocol_version"@),
        field(snake, "protocolVersion"@) is None,
        init_response_is(r1, camel, name),
        init_response_is(r2, snake, name),
    ensures
        string_in(version_field(camel)) == string_in(version_field(snake)),
        r1 is Ok <==> r2 is Ok,
        r1 is Ok ==> init_reply_is(r1->Ok_0, name) && init_reply_is(r2->Ok_0, name),
        r1 is Err ==> r1->Err_0.code == r2->Err_0.code && r1->Err_0.message@
            == r2->Err_0.message@,
{
}

/// The client identity does not care how it is spelled either: `clientInfo`
/// and `client_info` with the same value read as the same identity.
pub proof fn lemma_client_info_spellings(
    camel: Json,
    snake: Json,
    a: InitializeParams,
    b: InitializeParams,
)
    requires
        field(camel, "clientInfo"@) is Some,
        field(camel, "clientInfo"@) == field(snake, "client_info"@),
        field(snake, "clientInfo"@) is None,
        initialize_params_are(a, camel),
        initialize_params_are(b, snake),
    ensures
        a.client_info == b.client_info,
{
}

} // verus!
