//! A tool call from request to reply. `parse_tool_call` resolves the tool and
//! decodes its arguments; `ToolCall::actions` lists the external actions it
//! needs, which the host performs (a batch all at once); `complete_call`
//! turns their reports, in the same order, into the reply.
use vstd::prelude::*;
use crate::json::{Json, entry, field, has_keys, is_text, member};
use crate::action::{Action, ActionStatus, batch_len, count_true, unsupported};
use crate::affinity::{
    ActiveDocumentInfo, ApplyFilterParams, ApplyFilterResult, BatchExportParams,
    BatchExportResult, BatchOpenFilesParams, BatchOpenFilesResult, CloseDocumentResult,
    CreateNewParams, CreateNewResult, DrawPikachuParams, DrawPikachuResult, ExportParams,
    ExportResult, OpenFileParams, OpenFileResult, app_name_of, apply_filter, apply_filter_action,
    batch_export, batch_export_actions, batch_item, batch_open_files, batch_open_actions,
    close_document, create_new, create_new_action, document_report, draw_pikachu,
    draw_pikachu_action, drawing_app, export, export_action, exported_flags, get_active_document,
    is_create_action, is_draw_action, is_export_action, is_filter_action, is_open_action,
    open_file, open_file_action, opened_flags, target_app,
};
use crate::args::{
    apply_filter_params_of, batch_export_params_are, batch_open_args_ok, batch_open_params_are,
    create_design_params_of, create_new_params_of, decode_apply_filter, decode_batch_export,
    decode_batch_open_files, decode_create_design, decode_create_new, decode_draw_pikachu,
    decode_export, decode_open_file, draw_pikachu_params_of, export_params_of, exports_in,
    open_params_of, string_in, string_member, app_in, app_member, format_in, format_member,
    opt_app_in, opt_app_member, opt_string_in, opt_string_member, opt_u32_in, opt_u32_member,
    opt_u8_in, opt_u8_member, strings_in, strings_member,
};
use crate::canva::{CreateDesignIn, CreateDesignOut, create_design, design_prefix};
use crate::mcp::{INTERNAL_ERROR, INVALID_PARAMS, RpcError};
use crate::registry::{ToolKind, resolve_tool, tool_kind_named};

verus! {

/// A resolved tool call with its decoded arguments.
#[derive(Debug)]
pub enum ToolCall {
    OpenFile(OpenFileParams),
    CreateNew(CreateNewParams),
    Export(ExportParams),
    ApplyFilter(ApplyFilterParams),
    GetActiveDocument,
    CloseDocument,
    BatchOpenFiles(BatchOpenFilesParams),
    BatchExport(BatchExportParams),
    DrawPikachu(DrawPikachuParams),
    CreateDesign(CreateDesignIn),
}

/// Why a tool call could not start.
#[derive(Debug)]
pub enum CallError {
    /// The request has no string `name`.
    MissingToolName,
    /// No tool has this name.
    UnknownTool(String),
    /// The arguments do not fit the tool named first; the second text names
    /// the first malformed member (`arguments` when they are not an object).
    InvalidArguments(String, String),
}

/// The tool name of a call request.
pub open spec fn call_name(p: Json) -> Option<String> {
    string_in(field(p, "name"@))
}

/// The arguments of a call request; `null` when absent.
pub open spec fn call_args(p: Json) -> Json {
    match field(p, "arguments"@) {
        Some(a) => a,
        None => Json::Null,
    }
}

/// The arguments `a` fit the tool `k`.
pub open spec fn args_fit(k: ToolKind, a: Json) -> bool {
    match k {
        ToolKind::OpenFile => open_params_of(a) is Some,
        ToolKind::CreateNew => create_new_params_of(a) is Some,
        ToolKind::Export => export_params_of(a) is Some,
        ToolKind::ApplyFilter => apply_filter_params_of(a) is Some,
        ToolKind::GetActiveDocument => true,
        ToolKind::CloseDocument => true,
        ToolKind::BatchOpenFiles => batch_open_args_ok(a),
        ToolKind::BatchExport => exports_in(field(a, "exports"@)) is Some,
        ToolKind::DrawPikachu => draw_pikachu_params_of(a) is Some,
        ToolKind::CreateDesign => create_design_params_of(a) is Some,
    }
}

/// The first member of `a`, in the order the tool declares them, that does
/// not fit the tool `k`; `arguments` when every member fits.
pub open spec fn bad_member(k: ToolKind, a: Json) -> Seq<char> {
    match k {
        ToolKind::OpenFile => if string_in(field(a, "path"@)) is None {
            "path"@
        } else if opt_app_in(field(a, "app"@)) is None {
            "app"@
        } else {
            "arguments"@
        },
        ToolKind::CreateNew => if opt_u32_in(field(a, "width"@)) is None {
            "width"@
        } else if opt_u32_in(field(a, "height"@)) is None {
            "height"@
        } else if app_in(field(a, "app"@)) is None {
            "app"@
        } else {
            "arguments"@
        },
        ToolKind::Export => if string_in(field(a, "path"@)) is None {
            "path"@
        } else if format_in(field(a, "format"@)) is None {
            "format"@
        } else if opt_u8_in(field(a, "quality"@)) is None {
            "quality"@
        } else {
            "arguments"@
        },
        ToolKind::ApplyFilter => if string_in(field(a, "filter_name"@)) is None {
            "filter_name"@
        } else if opt_u8_in(field(a, "intensity"@)) is None {
            "intensity"@
        } else {
            "arguments"@
        },
        ToolKind::BatchOpenFiles => if strings_in(field(a, "paths"@)) is None {
            "paths"@
        } else if opt_app_in(field(a, "app"@)) is None {
            "app"@
        } else {
            "arguments"@
        },
        ToolKind::BatchExport => if exports_in(field(a, "exports"@)) is None {
            "exports"@
        } else {
            "arguments"@
        },
        ToolKind::DrawPikachu => if opt_string_in(field(a, "output_path"@)) is None {
            "output_path"@
        } else if opt_u32_in(field(a, "width"@)) is None {
            "width"@
        } else if opt_u32_in(field(a, "height"@)) is None {
            "height"@
        } else {
            "arguments"@
        },
        ToolKind::CreateDesign => if string_in(field(a, "title"@)) is None {
            "title"@
        } else if opt_string_in(field(a, "template_id"@)) is None {
            "template_id"@
        } else if opt_u32_in(field(a, "width"@)) is None {
            "width"@
        } else if opt_u32_in(field(a, "height"@)) is None {
            "height"@
        } else {
            "arguments"@
        },
        _ => "arguments"@,
    }
}

/// The first member of `args` that does not fit the tool `kind`.
pub fn first_bad_member(kind: ToolKind, args: &Json) -> (r: &'static str)
    ensures
        r@ == bad_member(kind, *args),
{
    match kind {
        ToolKind::OpenFile => if string_member(args, "path").is_none() {
            "path"
        } else if opt_app_member(args, "app").is_none() {
            "app"
        } else {
            "arguments"
        },
        ToolKind::CreateNew => if opt_u32_member(args, "width").is_none() {
            "width"
        } else if opt_u32_member(args, "height").is_none() {
            "height"
        } else if app_member(args, "app").is_none() {
            "app"
        } else {
            "arguments"
        },
        ToolKind::Export => if string_member(args, "path").is_none() {
            "path"
        } else if format_member(args, "format").is_none() {
            "format"
        } else if opt_u8_member(args, "quality").is_none() {
            "quality"
        } else {
            "arguments"
        },
        ToolKind::ApplyFilter => if string_member(args, "filter_name").is_none() {
            "filter_name"
        } else if opt_u8_member(args, "intensity").is_none() {
            "intensity"
        } else {
            "arguments"
        },
        ToolKind::BatchOpenFiles => if strings_member(args, "paths").is_none() {
            "paths"
        } else if opt_app_member(args, "app").is_none() {
            "app"
        } else {
            "arguments"
        },
        ToolKind::BatchExport => if decode_batch_export(args).is_none() {
            "exports"
        } else {
            "arguments"
        },
        ToolKind::DrawPikachu => if opt_string_member(args, "output_path").is_none() {
            "output_path"
        } else if opt_u32_member(args, "width").is_none() {
            "width"
        } else if opt_u32_member(args, "height").is_none() {
            "height"
        } else {
            "arguments"
        },
        ToolKind::CreateDesign => if string_member(args, "title").is_none() {
            "title"
        } else if opt_string_member(args, "template_id").is_none() {
            "template_id"
        } else if opt_u32_member(args, "width").is_none() {
            "width"
        } else if opt_u32_member(args, "height").is_none() {
            "height"
        } else {
            "arguments"
        },
        _ => "arguments",
    }
}

/// `c` is the call of tool `k` with the arguments `a` decoded.
pub open spec fn call_is(c: ToolCall, k: ToolKind, a: Json) -> bool {
    match k {
        ToolKind::OpenFile => open_params_of(a) == Some(c->OpenFile_0) && c is OpenFile,
        ToolKind::CreateNew => create_new_params_of(a) == Some(c->CreateNew_0) && c is CreateNew,
        ToolKind::Export => export_params_of(a) == Some(c->Export_0) && c is Export,
        ToolKind::ApplyFilter => apply_filter_params_of(a) == Some(c->ApplyFilter_0)
            && c is ApplyFilter,
        ToolKind::GetActiveDocument => c is GetActiveDocument,
        ToolKind::CloseDocument => c is CloseDocument,
        ToolKind::BatchOpenFiles => c is BatchOpenFiles && batch_open_params_are(
            c->BatchOpenFiles_0,
            a,
        ),
        ToolKind::BatchExport => c is BatchExport && batch_export_params_are(c->BatchExport_0, a),
        ToolKind::DrawPikachu => draw_pikachu_params_of(a) == Some(c->DrawPikachu_0)
            && c is DrawPikachu,
        ToolKind::CreateDesign => create_design_params_of(a) == Some(c->CreateDesign_0)
            && c is CreateDesign,
    }
}

/// What parsing the call request `p` yields.
pub open spec fn parse_is(r: Result<ToolCall, CallError>, p: Json) -> bool {
    match call_name(p) {
        None => r matches Err(CallError::MissingToolName),
        Some(name) => match tool_kind_named(name@) {
            None => r matches Err(CallError::UnknownTool(n)) && n@ == name@,
            Some(k) => if args_fit(k, call_args(p)) {
                r matches Ok(c) && call_is(c, k, call_args(p))
            } else {
                r matches Err(CallError::InvalidArguments(n, m)) && n@ == name@ && m@
                    == bad_member(k, call_args(p))
            },
        },
    }
}

/// Resolves the tool of a call request and decodes its arguments.
pub fn parse_tool_call(params: &Json) -> (r: Result<ToolCall, CallError>)
    ensures
        parse_is(r, *params),
{
    let name = match string_member(params, "name") {
        Some(n) => n,
        None => {
            return Err(CallError::MissingToolName);
        },
    };
    let null = Json::Null;
    let args: &Json = match params.get("arguments") {
        Some(a) => a,
        None => &null,
    };
    let kind = match resolve_tool(&name) {
        Some(k) => k,
        None => {
            return Err(CallError::UnknownTool(name));
        },
    };
    let decoded = match kind {
        ToolKind::OpenFile => match decode_open_file(args) {
            Some(p) => Some(ToolCall::OpenFile(p)),
            None => None,
        },
        ToolKind::CreateNew => match decode_create_new(args) {
            Some(p) => Some(ToolCall::CreateNew(p)),
            None => None,
        },
        ToolKind::Export => match decode_export(args) {
            Some(p) => Some(ToolCall::Export(p)),
            None => None,
        },
        ToolKind::ApplyFilter => match decode_apply_filter(args) {
            Some(p) => Some(ToolCall::ApplyFilter(p)),
            None => None,
        },
        ToolKind::GetActiveDocument => Some(ToolCall::GetActiveDocument),
        ToolKind::CloseDocument => Some(ToolCall::CloseDocument),
        ToolKind::BatchOpenFiles => match decode_batch_open_files(args) {
            Some(p) => Some(ToolCall::BatchOpenFiles(p)),
            None => None,
        },
        ToolKind::BatchExport => match decode_batch_export(args) {
            Some(p) => Some(ToolCall::BatchExport(p)),
            None => None,
        },
        ToolKind::DrawPikachu => match decode_draw_pikachu(args) {
            Some(p) => Some(ToolCall::DrawPikachu(p)),
            None => None,
        },
        ToolKind::CreateDesign => match decode_create_design(args) {
            Some(p) => Some(ToolCall::CreateDesign(p)),
            None => None,
        },
    };
    match decoded {
        Some(c) => Ok(c),
        None => {
            let member = String::from_str(first_bad_member(kind, args));
            Err(CallError::InvalidArguments(name, member))
        },
    }
}

impl CallError {
    /// The error sent to the caller: a missing name is reported as such;
    /// an unknown tool or malformed arguments only as an internal error.
    pub fn to_rpc(&self) -> (r: RpcError)
        ensures
            *self is MissingToolName ==> r.code == INVALID_PARAMS && r.message@
                == "missing tool name"@,
            !(*self is MissingToolName) ==> r.code == INTERNAL_ERROR && r.message@
                == "Internal error"@,
    {
        match self {
            CallError::MissingToolName => RpcError::invalid_params("missing tool name"),
            _ => RpcError::internal_error(),
        }
    }
}

/// How many action reports the call needs.
pub open spec fn action_count(c: ToolCall) -> int {
    match c {
        ToolCall::BatchOpenFiles(b) => batch_len(b.paths@.len() as int),
        ToolCall::BatchExport(b) => batch_len(b.exports@.len() as int),
        ToolCall::CreateDesign(_) => 0,
        _ => 1,
    }
}

/// `acts` are the actions of the call `c`, in order.
pub open spec fn actions_are(acts: Seq<Action>, c: ToolCall) -> bool {
    &&& acts.len() == action_count(c)
    &&& match c {
        ToolCall::OpenFile(p) => is_open_action(acts[0], p),
        ToolCall::CreateNew(p) => is_create_action(acts[0], p),
        ToolCall::Export(p) => is_export_action(acts[0], p),
        ToolCall::ApplyFilter(p) => is_filter_action(acts[0], p),
        ToolCall::GetActiveDocument => acts[0] is ReadActiveDocument,
        ToolCall::CloseDocument => acts[0] is CloseDocument,
        ToolCall::BatchOpenFiles(b) => forall|i: int|
            0 <= i < acts.len() ==> is_open_action(#[trigger] acts[i], batch_item(b, i)),
        ToolCall::BatchExport(b) => forall|i: int|
            0 <= i < acts.len() ==> is_export_action(#[trigger] acts[i], b.exports@[i]),
        ToolCall::DrawPikachu(p) => is_draw_action(acts[0], p),
        ToolCall::CreateDesign(_) => true,
    }
}

impl ToolCall {
    /// The external actions this call needs, in the order in which their
    /// reports are handed to `complete_call`.
    pub fn actions(&self) -> (r: Vec<Action>)
        ensures
            actions_are(r@, *self),
    {
        match self {
            ToolCall::OpenFile(p) => vec![open_file_action(p)],
            ToolCall::CreateNew(p) => vec![create_new_action(p)],
            ToolCall::Export(p) => vec![export_action(p)],
            ToolCall::ApplyFilter(p) => vec![apply_filter_action(p)],
            ToolCall::GetActiveDocument => vec![Action::ReadActiveDocument],
            ToolCall::CloseDocument => vec![Action::CloseDocument],
            ToolCall::BatchOpenFiles(b) => batch_open_actions(b),
            ToolCall::BatchExport(b) => batch_export_actions(b),
            ToolCall::DrawPikachu(p) => vec![draw_pikachu_action(p)],
            ToolCall::CreateDesign(_) => Vec::new(),
        }
    }
}

/// `j` is `null` for an absent text and the text otherwise.
pub open spec fn is_opt_text(j: Json, t: Option<Seq<char>>) -> bool {
    match t {
        Some(s) => is_text(j, s),
        None => j is Null,
    }
}

/// Reply of the open-file tool.
pub open spec fn open_reply_is(j: Json, p: OpenFileParams, s: ActionStatus) -> bool {
    &&& has_keys(j, seq!["opened"@, "app"@, "path"@])
    &&& member(j, 0) == Json::Bool(s is Done)
    &&& is_text(member(j, 1), if s is Unavailable { unsupported() } else { target_app(p) })
    &&& is_text(member(j, 2), p.path@)
}

/// Reply of the create-document tool.
pub open spec fn create_reply_is(j: Json, p: CreateNewParams, s: ActionStatus) -> bool {
    &&& has_keys(j, seq!["created"@, "app"@])
    &&& member(j, 0) == Json::Bool(s is Done)
    &&& is_text(member(j, 1), if s is Unavailable { unsupported() } else { app_name_of(p.app) })
}

/// Reply of the export tool.
pub open spec fn export_reply_is(j: Json, p: ExportParams, s: ActionStatus) -> bool {
    &&& has_keys(j, seq!["exported"@, "path"@])
    &&& member(j, 0) == Json::Bool(s is Done)
    &&& is_text(member(j, 1), p.path@)
}

/// Reply of the filter tool.
pub open spec fn filter_reply_is(j: Json, p: ApplyFilterParams, s: ActionStatus) -> bool {
    &&& has_keys(j, seq!["applied"@, "filter_name"@])
    &&& member(j, 0) == Json::Bool(s is Done)
    &&& is_text(member(j, 1), p.filter_name@)
}

/// Reply of the active-document tool.
pub open spec fn document_reply_is(j: Json, s: ActionStatus) -> bool {
    let d = match s {
        ActionStatus::Done(out) => document_report(out@),
        _ => (false, None, None),
    };
    &&& has_keys(j, seq!["is_open"@, "name"@, "path"@])
    &&& member(j, 0) == Json::Bool(d.0)
    &&& is_opt_text(member(j, 1), d.1)
    &&& is_opt_text(member(j, 2), d.2)
}

/// Reply of the close-document tool.
pub open spec fn close_reply_is(j: Json, s: ActionStatus) -> bool {
    &&& has_keys(j, seq!["closed"@])
    &&& member(j, 0) == Json::Bool(s is Done)
}

/// Which reports are successes.
pub open spec fn done_flags(s: Seq<ActionStatus>) -> Seq<bool> {
    s.map_values(|x: ActionStatus| x is Done)
}

/// Reply of a batch: the counts, then one reply per item that ran.
pub open spec fn batch_counts_are(j: Json, statuses: Seq<ActionStatus>) -> bool {
    let ok = count_true(done_flags(statuses));
    &&& has_keys(j, seq!["success_count"@, "failure_count"@, "results"@])
    &&& member(j, 0) == Json::UInt(ok as u64)
    &&& member(j, 1) == Json::UInt((statuses.len() - ok) as u64)
}

/// Reply of the batch open tool.
pub open spec fn batch_open_reply_is(
    j: Json,
    b: BatchOpenFilesParams,
    statuses: Seq<ActionStatus>,
) -> bool {
    &&& batch_counts_are(j, statuses)
    &&& member(j, 2) matches Json::Array(items) && items@.len() == statuses.len() && forall|i: int|
        0 <= i < items@.len() ==> open_reply_is(
            #[trigger] items@[i],
            batch_item(b, i),
            statuses[i],
        )
}

/// Reply of the batch export tool.
pub open spec fn batch_export_reply_is(
    j: Json,
    b: BatchExportParams,
    statuses: Seq<ActionStatus>,
) -> bool {
    &&& batch_counts_are(j, statuses)
    &&& member(j, 2) matches Json::Array(items) && items@.len() == statuses.len() && forall|i: int|
        0 <= i < items@.len() ==> export_reply_is(
            #[trigger] items@[i],
            b.exports@[i],
            statuses[i],
        )
}

/// Reply of the drawing tool.
pub open spec fn draw_reply_is(j: Json, s: ActionStatus) -> bool {
    &&& has_keys(j, seq!["created"@, "file_path"@, "app"@])
    &&& member(j, 0) == Json::Bool(s is Done)
    &&& match s {
        ActionStatus::Done(p) => is_text(member(j, 1), p@) && is_text(member(j, 2), drawing_app()),
        ActionStatus::Failed(_) => is_text(member(j, 1), Seq::empty()) && is_text(
            member(j, 2),
            drawing_app(),
        ),
        ActionStatus::Unavailable => is_text(member(j, 1), Seq::empty()) && is_text(
            member(j, 2),
            unsupported(),
        ),
    }
}

/// Reply of the create-design tool: a fresh `demo-` identifier, no URL.
pub open spec fn design_reply_is(j: Json) -> bool {
    &&& has_keys(j, seq!["design_id"@, "url"@])
    &&& member(j, 0) matches Json::Str(id) && id@.len() == 41 && id@.subrange(0, 5)
        == design_prefix()
    &&& member(j, 1) is Null
}

/// The reply of the call `c` whose actions reported `st`.
pub open spec fn reply_is(j: Json, c: ToolCall, st: Seq<ActionStatus>) -> bool {
    match c {
        ToolCall::OpenFile(p) => open_reply_is(j, p, st[0]),
        ToolCall::CreateNew(p) => create_reply_is(j, p, st[0]),
        ToolCall::Export(p) => export_reply_is(j, p, st[0]),
        ToolCall::ApplyFilter(p) => filter_reply_is(j, p, st[0]),
        ToolCall::GetActiveDocument => document_reply_is(j, st[0]),
        ToolCall::CloseDocument => close_reply_is(j, st[0]),
        ToolCall::BatchOpenFiles(b) => batch_open_reply_is(j, b, st),
        ToolCall::BatchExport(b) => batch_export_reply_is(j, b, st),
        ToolCall::DrawPikachu(_) => draw_reply_is(j, st[0]),
        ToolCall::CreateDesign(_) => design_reply_is(j),
    }
}

fn opt_text(s: Option<String>) -> (j: Json)
    ensures
        match s {
            Some(t) => j == Json::Str(t),
            None => j is Null,
        },
{
    match s {
        Some(t) => Json::Str(t),
        None => Json::Null,
    }
}

/// Wire form of an open-file result.
pub fn open_file_json(r: OpenFileResult) -> (j: Json)
    ensures
        open_json_is(j, r),
{
    Json::Object(
        vec![
            entry("opened", Json::Bool(r.opened)),
            entry("app", Json::Str(r.app)),
            entry("path", Json::Str(r.path)),
        ],
    )
}

/// Wire form of a create-document result.
pub fn create_new_json(r: CreateNewResult) -> (j: Json)
    ensures
        has_keys(j, seq!["created"@, "app"@]),
        member(j, 0) == Json::Bool(r.created),
        member(j, 1) == Json::Str(r.app),
{
    Json::Object(vec![entry("created", Json::Bool(r.created)), entry("app", Json::Str(r.app))])
}

/// Wire form of an export result.
pub fn export_json(r: ExportResult) -> (j: Json)
    ensures
        export_json_is(j, r),
{
    Json::Object(vec![entry("exported", Json::Bool(r.exported)), entry("path", Json::Str(r.path))])
}

/// Wire form of a filter result.
pub fn apply_filter_json(r: ApplyFilterResult) -> (j: Json)
    ensures
        has_keys(j, seq!["applied"@, "filter_name"@]),
        member(j, 0) == Json::Bool(r.applied),
        member(j, 1) == Json::Str(r.filter_name),
{
    Json::Object(
        vec![entry("applied", Json::Bool(r.applied)), entry("filter_name", Json::Str(r.filter_name))],
    )
}

/// Wire form of a document description; absent parts are `null`.
pub fn active_document_json(r: ActiveDocumentInfo) -> (j: Json)
    ensures
        has_keys(j, seq!["is_open"@, "name"@, "path"@]),
        member(j, 0) == Json::Bool(r.is_open),
        is_opt_text(member(j, 1), crate::affinity::opt_view(r.name)),
        is_opt_text(member(j, 2), crate::affinity::opt_view(r.path)),
{
    Json::Object(
        vec![
            entry("is_open", Json::Bool(r.is_open)),
            entry("name", opt_text(r.name)),
            entry("path", opt_text(r.path)),
        ],
    )
}

/// Wire form of a close-document result.
pub fn close_document_json(r: CloseDocumentResult) -> (j: Json)
    ensures
        has_keys(j, seq!["closed"@]),
        member(j, 0) == Json::Bool(r.closed),
{
    Json::Object(vec![entry("closed", Json::Bool(r.closed))])
}

/// Wire form of a drawing result.
pub fn draw_pikachu_json(r: DrawPikachuResult) -> (j: Json)
    ensures
        has_keys(j, seq!["created"@, "file_path"@, "app"@]),
        member(j, 0) == Json::Bool(r.created),
        member(j, 1) == Json::Str(r.file_path),
        member(j, 2) == Json::Str(r.app),
{
    Json::Object(
        vec![
            entry("created", Json::Bool(r.created)),
            entry("file_path", Json::Str(r.file_path)),
            entry("app", Json::Str(r.app)),
        ],
    )
}

/// Wire form of a create-design result; an absent URL is `null`.
pub fn create_design_json(r: CreateDesignOut) -> (j: Json)
    ensures
        has_keys(j, seq!["design_id"@, "url"@]),
        member(j, 0) == Json::Str(r.design_id),
        is_opt_text(member(j, 1), crate::affinity::opt_view(r.url)),
{
    Json::Object(vec![entry("design_id", Json::Str(r.design_id)), entry("url", opt_text(r.url))])
}

proof fn lemma_flags_match(flags: Seq<bool>, statuses: Seq<ActionStatus>)
    requires
        flags.len() == statuses.len(),
        forall|i: int| 0 <= i < flags.len() ==> flags[i] == (#[trigger] statuses[i] is Done),
    ensures
        count_true(flags) == count_true(done_flags(statuses)),
{
    assert(flags =~= done_flags(statuses));
}

/// `j` is the wire form of the open-file result `r`.
pub open spec fn open_json_is(j: Json, r: OpenFileResult) -> bool {
    &&& has_keys(j, seq!["opened"@, "app"@, "path"@])
    &&& member(j, 0) == Json::Bool(r.opened)
    &&& member(j, 1) == Json::Str(r.app)
    &&& member(j, 2) == Json::Str(r.path)
}

/// `j` is the wire form of the export result `r`.
pub open spec fn export_json_is(j: Json, r: ExportResult) -> bool {
    &&& has_keys(j, seq!["exported"@, "path"@])
    &&& member(j, 0) == Json::Bool(r.exported)
    &&& member(j, 1) == Json::Str(r.path)
}

/// Wire form of a batch open result.
pub fn batch_open_json(r: BatchOpenFilesResult) -> (j: Json)
    ensures
        has_keys(j, seq!["success_count"@, "failure_count"@, "results"@]),
        member(j, 0) == Json::UInt(r.success_count as u64),
        member(j, 1) == Json::UInt(r.failure_count as u64),
        member(j, 2) matches Json::Array(items) && items@.len() == r.results@.len() && forall|
            i: int,
        | 0 <= i < items@.len() ==> open_json_is(#[trigger] items@[i], r.results@[i]),
{
    let ghost all = r.results@;
    let mut rest = r.results;
    let mut items: Vec<Json> = Vec::new();
    while rest.len() > 0
        invariant
            items@.len() + rest@.len() == all.len(),
            rest@ == all.subrange(items@.len() as int, all.len() as int),
            forall|k: int| 0 <= k < items@.len() ==> open_json_is(#[trigger] items@[k], all[k]),
        decreases rest@.len(),
    {
        let t = rest.remove(0);
        items.push(open_file_json(t));
    }
    Json::Object(
        vec![
            entry("success_count", Json::UInt(r.success_count as u64)),
            entry("failure_count", Json::UInt(r.failure_count as u64)),
            entry("results", Json::Array(items)),
        ],
    )
}

/// Wire form of a batch export result.
pub fn batch_export_json(r: BatchExportResult) -> (j: Json)
    ensures
        has_keys(j, seq!["success_count"@, "failure_count"@, "results"@]),
        member(j, 0) == Json::UInt(r.success_count as u64),
        member(j, 1) == Json::UInt(r.failure_count as u64),
        member(j, 2) matches Json::Array(items) && items@.len() == r.results@.len() && forall|
            i: int,
        | 0 <= i < items@.len() ==> export_json_is(#[trigger] items@[i], r.results@[i]),
{
    let ghost all = r.results@;
    let mut rest = r.results;
    let mut items: Vec<Json> = Vec::new();
    while rest.len() > 0
        invariant
            items@.len() + rest@.len() == all.len(),
            rest@ == all.subrange(items@.len() as int, all.len() as int),
            forall|k: int| 0 <= k < items@.len() ==> export_json_is(#[trigger] items@[k], all[k]),
        decreases rest@.len(),
    {
        let t = rest.remove(0);
        items.push(export_json(t));
    }
    Json::Object(
        vec![
            entry("success_count", Json::UInt(r.success_count as u64)),
            entry("failure_count", Json::UInt(r.failure_count as u64)),
            entry("results", Json::Array(items)),
        ],
    )
}

fn single(statuses: Vec<ActionStatus>) -> (r: ActionStatus)
    requires
        statuses@.len() == 1,
    ensures
        r == statuses@[0],
{
    let mut statuses = statuses;
    match statuses.pop() {
        Some(s) => s,
        None => ActionStatus::Unavailable,
    }
}

/// Completes a call from the reports of its actions, given in the order of
/// `actions`. A report count that does not match the call is an internal
/// error; otherwise the reply is the wire form of the tool's result.
pub fn complete_call(call: ToolCall, statuses: Vec<ActionStatus>) -> (r: Result<Json, RpcError>)
    ensures
        match r {
            Ok(j) => statuses@.len() == action_count(call) && reply_is(j, call, statuses@),
            Err(e) => statuses@.len() != action_count(call) && e.code == INTERNAL_ERROR,
        },
{
    let expected: usize = match &call {
        ToolCall::BatchOpenFiles(b) => crate::action::batch_size(b.paths.len()),
        ToolCall::BatchExport(b) => crate::action::batch_size(b.exports.len()),
        ToolCall::CreateDesign(_) => 0,
        _ => 1,
    };
    if statuses.len() != expected {
        return Err(RpcError::internal_error());
    }
    let ghost st = statuses@;
    match call {
        ToolCall::OpenFile(p) => {
            let ghost gp = p;
            let res = open_file(p, single(statuses));
            Ok(open_file_json(res))
        },
        ToolCall::CreateNew(p) => {
            let ghost gp = p;
            Ok(create_new_json(create_new(p, single(statuses))))
        },
        ToolCall::Export(p) => Ok(export_json(export(p, single(statuses)))),
        ToolCall::ApplyFilter(p) => Ok(apply_filter_json(apply_filter(p, single(statuses)))),
        ToolCall::GetActiveDocument => Ok(
            active_document_json(get_active_document(single(statuses))),
        ),
        ToolCall::CloseDocument => Ok(close_document_json(close_document(single(statuses)))),
        ToolCall::BatchOpenFiles(b) => {
            let ghost gb = b;
            let res = batch_open_files(b, statuses);
            proof {
                lemma_flags_match(opened_flags(res.results@), st);
            }
            let j = batch_open_json(res);
            proof {
                let items = member(j, 2)->Array_0@;
                assert forall|i: int| 0 <= i < items.len() implies open_reply_is(
                    #[trigger] items[i],
                    batch_item(gb, i),
                    st[i],
                ) by {
                    assert(open_json_is(items[i], res.results@[i]));
                }
            }
            Ok(j)
        },
        ToolCall::BatchExport(b) => {
            let ghost gb = b;
            let res = batch_export(b, statuses);
            proof {
                lemma_flags_match(exported_flags(res.results@), st);
            }
            let j = batch_export_json(res);
            proof {
                let items = member(j, 2)->Array_0@;
                assert forall|i: int| 0 <= i < items.len() implies export_reply_is(
                    #[trigger] items[i],
                    gb.exports@[i],
                    st[i],
                ) by {
                    assert(export_json_is(items[i], res.results@[i]));
                }
            }
            Ok(j)
        },
        ToolCall::DrawPikachu(_) => Ok(draw_pikachu_json(draw_pikachu(single(statuses)))),
        ToolCall::CreateDesign(p) => Ok(create_design_json(create_design(p))),
    }
}

/// A call that names a tool outside the registry fails with `UnknownTool`,
/// which reaches the caller as an internal error. Parsing keeps no state,
/// so the next request is handled as if this one had never come.
pub proof fn lemma_unknown_tool(p: Json, r: Result<ToolCall, CallError>)
    requires
        call_name(p) is Some,
        tool_kind_named(call_name(p)->0@) is None,
        parse_is(r, p),
    ensures
        r matches Err(CallError::UnknownTool(n)) && n@ == call_name(p)->0@,
{
}

} // verus!
