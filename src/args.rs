//! Decoding tool arguments into the typed requests of each tool. Members that
//! a tool does not know are ignored; an optional member may be absent or
//! `null`; a member of the wrong kind makes the whole request malformed.
use vstd::prelude::*;
use crate::json::{Json, field, text_eq};
use crate::affinity::{
    AffinityApp, ApplyFilterParams, BatchExportParams, BatchOpenFilesParams, CreateNewParams,
    DrawPikachuParams, ExportFormat, ExportParams, OpenFileParams,
};
use crate::canva::CreateDesignIn;

verus! {

/// A required string member.
pub open spec fn string_in(j: Option<Json>) -> Option<String> {
    match j {
        Some(Json::Str(s)) => Some(s),
        _ => None,
    }
}

/// An optional string member: `Some(None)` when absent or `null`, `None`
/// when malformed.
pub open spec fn opt_string_in(j: Option<Json>) -> Option<Option<String>> {
    match j {
        None => Some(None),
        Some(Json::Null) => Some(None),
        Some(Json::Str(s)) => Some(Some(s)),
        _ => None,
    }
}

/// A non-negative integer value.
pub open spec fn natural_in(j: Json) -> Option<u64> {
    match j {
        Json::UInt(n) => Some(n),
        Json::Int(n) => if n >= 0 {
            Some(n as u64)
        } else {
            None
        },
        _ => None,
    }
}

/// An optional `u32` member: `Some(None)` when absent or `null`, `None` when
/// malformed or out of range.
pub open spec fn opt_u32_in(j: Option<Json>) -> Option<Option<u32>> {
    match j {
        None => Some(None),
        Some(Json::Null) => Some(None),
        Some(v) => match natural_in(v) {
            Some(n) => if n <= u32::MAX {
                Some(Some(n as u32))
            } else {
                None
            },
            None => None,
        },
    }
}

/// An optional `u8` member: `Some(None)` when absent or `null`, `None` when
/// malformed or out of range.
pub open spec fn opt_u8_in(j: Option<Json>) -> Option<Option<u8>> {
    match j {
        None => Some(None),
        Some(Json::Null) => Some(None),
        Some(v) => match natural_in(v) {
            Some(n) => if n <= u8::MAX {
                Some(Some(n as u8))
            } else {
                None
            },
            None => None,
        },
    }
}

/// The application written as `Photo`, `Designer` or `Publisher`.
pub open spec fn app_named(s: Seq<char>) -> Option<AffinityApp> {
    if s == "Photo"@ {
        Some(AffinityApp::Photo)
    } else if s == "Designer"@ {
        Some(AffinityApp::Designer)
    } else if s == "Publisher"@ {
        Some(AffinityApp::Publisher)
    } else {
        None
    }
}

/// A required application member.
pub open spec fn app_in(j: Option<Json>) -> Option<AffinityApp> {
    match j {
        Some(Json::Str(s)) => app_named(s@),
        _ => None,
    }
}

/// An optional application member.
pub open spec fn opt_app_in(j: Option<Json>) -> Option<Option<AffinityApp>> {
    match j {
        None => Some(None),
        Some(Json::Null) => Some(None),
        Some(Json::Str(s)) => match app_named(s@) {
            Some(a) => Some(Some(a)),
            None => None,
        },
        _ => None,
    }
}

/// The export format written in lower case.
pub open spec fn format_named(s: Seq<char>) -> Option<ExportFormat> {
    if s == "pdf"@ {
        Some(ExportFormat::Pdf)
    } else if s == "png"@ {
        Some(ExportFormat::Png)
    } else if s == "jpg"@ {
        Some(ExportFormat::Jpg)
    } else if s == "tiff"@ {
        Some(ExportFormat::Tiff)
    } else if s == "svg"@ {
        Some(ExportFormat::Svg)
    } else {
        None
    }
}

/// A required export format member.
pub open spec fn format_in(j: Option<Json>) -> Option<ExportFormat> {
    match j {
        Some(Json::Str(s)) => format_named(s@),
        _ => None,
    }
}

/// A required array of strings.
pub open spec fn strings_in(j: Option<Json>) -> Option<Seq<String>> {
    match j {
        Some(Json::Array(items)) => if forall|i: int|
            0 <= i < items@.len() ==> #[trigger] items@[i] is Str {
            Some(items@.map_values(|x: Json| x->Str_0))
        } else {
            None
        },
        _ => None,
    }
}

/// Arguments of the open-file tool.
pub open spec fn open_params_of(a: Json) -> Option<OpenFileParams> {
    let path = string_in(field(a, "path"@));
    let app = opt_app_in(field(a, "app"@));
    if path is Some && app is Some {
        Some(OpenFileParams { path: path->0, app: app->0 })
    } else {
        None
    }
}

/// Arguments of the create-document tool.
pub open spec fn create_new_params_of(a: Json) -> Option<CreateNewParams> {
    let app = app_in(field(a, "app"@));
    let width = opt_u32_in(field(a, "width"@));
    let height = opt_u32_in(field(a, "height"@));
    if app is Some && width is Some && height is Some {
        Some(CreateNewParams { app: app->0, width: width->0, height: height->0 })
    } else {
        None
    }
}

/// Arguments of the export tool.
pub open spec fn export_params_of(a: Json) -> Option<ExportParams> {
    let path = string_in(field(a, "path"@));
    let format = format_in(field(a, "format"@));
    let quality = opt_u8_in(field(a, "quality"@));
    if path is Some && format is Some && quality is Some {
        Some(ExportParams { path: path->0, format: format->0, quality: quality->0 })
    } else {
        None
    }
}

/// Arguments of the filter tool.
pub open spec fn apply_filter_params_of(a: Json) -> Option<ApplyFilterParams> {
    let name = string_in(field(a, "filter_name"@));
    let intensity = opt_u8_in(field(a, "intensity"@));
    if name is Some && intensity is Some {
        Some(ApplyFilterParams { filter_name: name->0, intensity: intensity->0 })
    } else {
        None
    }
}

/// A required array of export requests.
pub open spec fn exports_in(j: Option<Json>) -> Option<Seq<ExportParams>> {
    match j {
        Some(Json::Array(items)) => if forall|i: int|
            0 <= i < items@.len() ==> #[trigger] export_params_of(items@[i]) is Some {
            Some(items@.map_values(|x: Json| export_params_of(x)->0))
        } else {
            None
        },
        _ => None,
    }
}

/// Arguments of the drawing tool; every member is optional, but the
/// arguments must be an object.
pub open spec fn draw_pikachu_params_of(a: Json) -> Option<DrawPikachuParams> {
    let output_path = opt_string_in(field(a, "output_path"@));
    let width = opt_u32_in(field(a, "width"@));
    let height = opt_u32_in(field(a, "height"@));
    if a is Object && output_path is Some && width is Some && height is Some {
        Some(DrawPikachuParams { output_path: output_path->0, width: width->0, height: height->0 })
    } else {
        None
    }
}

/// Arguments of the create-design tool.
pub open spec fn create_design_params_of(a: Json) -> Option<CreateDesignIn> {
    let title = string_in(field(a, "title"@));
    let template_id = opt_string_in(field(a, "template_id"@));
    let width = opt_u32_in(field(a, "width"@));
    let height = opt_u32_in(field(a, "height"@));
    if title is Some && template_id is Some && width is Some && height is Some {
        Some(
            CreateDesignIn {
                title: title->0,
                template_id: template_id->0,
                width: width->0,
                height: height->0,
            },
        )
    } else {
        None
    }
}

/// `r` holds the arguments of the batch open tool written in `a`.
pub open spec fn batch_open_params_are(r: BatchOpenFilesParams, a: Json) -> bool {
    &&& strings_in(field(a, "paths"@)) == Some(r.paths@)
    &&& opt_app_in(field(a, "app"@)) == Some(r.app)
}

/// The arguments of the batch open tool are well formed.
pub open spec fn batch_open_args_ok(a: Json) -> bool {
    strings_in(field(a, "paths"@)) is Some && opt_app_in(field(a, "app"@)) is Some
}

/// `r` holds the arguments of the batch export tool written in `a`.
pub open spec fn batch_export_params_are(r: BatchExportParams, a: Json) -> bool {
    exports_in(field(a, "exports"@)) == Some(r.exports@)
}

// ---- decoders ----

/// A required string member.
pub fn string_member(a: &Json, key: &str) -> (r: Option<String>)
    ensures
        r == string_in(field(*a, key@)),
{
    match a.get(key) {
        Some(Json::Str(s)) => Some(s.clone()),
        _ => None,
    }
}

/// An optional string member.
pub fn opt_string_member(a: &Json, key: &str) -> (r: Option<Option<String>>)
    ensures
        r == opt_string_in(field(*a, key@)),
{
    match a.get(key) {
        None => Some(None),
        Some(Json::Null) => Some(None),
        Some(Json::Str(s)) => Some(Some(s.clone())),
        _ => None,
    }
}

fn natural(j: &Json) -> (r: Option<u64>)
    ensures
        r == natural_in(*j),
{
    match j {
        Json::UInt(n) => Some(*n),
        Json::Int(n) => if *n >= 0 {
            Some(*n as u64)
        } else {
            None
        },
        _ => None,
    }
}

/// An optional `u32` member.
pub fn opt_u32_member(a: &Json, key: &str) -> (r: Option<Option<u32>>)
    ensures
        r == opt_u32_in(field(*a, key@)),
{
    match a.get(key) {
        None => Some(None),
        Some(Json::Null) => Some(None),
        Some(v) => match natural(v) {
            Some(n) => if n <= 0xffff_ffffu64 {
                Some(Some(n as u32))
            } else {
                None
            },
            None => None,
        },
    }
}

/// An optional `u8` member.
pub fn opt_u8_member(a: &Json, key: &str) -> (r: Option<Option<u8>>)
    ensures
        r == opt_u8_in(field(*a, key@)),
{
    match a.get(key) {
        None => Some(None),
        Some(Json::Null) => Some(None),
        Some(v) => match natural(v) {
            Some(n) => if n <= 255u64 {
                Some(Some(n as u8))
            } else {
                None
            },
            None => None,
        },
    }
}

/// The application named by `s`.
pub fn app_named_by(s: &String) -> (r: Option<AffinityApp>)
    ensures
        r == app_named(s@),
{
    if text_eq(s, "Photo") {
        Some(AffinityApp::Photo)
    } else if text_eq(s, "Designer") {
        Some(AffinityApp::Designer)
    } else if text_eq(s, "Publisher") {
        Some(AffinityApp::Publisher)
    } else {
        None
    }
}

/// A required application member.
pub fn app_member(a: &Json, key: &str) -> (r: Option<AffinityApp>)
    ensures
        r == app_in(field(*a, key@)),
{
    match a.get(key) {
        Some(Json::Str(s)) => app_named_by(s),
        _ => None,
    }
}

/// An optional application member.
pub fn opt_app_member(a: &Json, key: &str) -> (r: Option<Option<AffinityApp>>)
    ensures
        r == opt_app_in(field(*a, key@)),
{
    match a.get(key) {
        None => Some(None),
        Some(Json::Null) => Some(None),
        Some(Json::Str(s)) => match app_named_by(s) {
            Some(x) => Some(Some(x)),
            None => None,
        },
        _ => None,
    }
}

/// The export format named by `s`.
pub fn format_named_by(s: &String) -> (r: Option<ExportFormat>)
    ensures
        r == format_named(s@),
{
    if text_eq(s, "pdf") {
        Some(ExportFormat::Pdf)
    } else if text_eq(s, "png") {
        Some(ExportFormat::Png)
    } else if text_eq(s, "jpg") {
        Some(ExportFormat::Jpg)
    } else if text_eq(s, "tiff") {
        Some(ExportFormat::Tiff)
    } else if text_eq(s, "svg") {
        Some(ExportFormat::Svg)
    } else {
        None
    }
}

/// A required export format member.
pub fn format_member(a: &Json, key: &str) -> (r: Option<ExportFormat>)
    ensures
        r == format_in(field(*a, key@)),
{
    match a.get(key) {
        Some(Json::Str(s)) => format_named_by(s),
        _ => None,
    }
}

/// A required array-of-strings member.
pub fn strings_member(a: &Json, key: &str) -> (r: Option<Vec<String>>)
    ensures
        match r {
            Some(v) => strings_in(field(*a, key@)) == Some(v@),
            None => strings_in(field(*a, key@)) is None,
        },
{
    match a.get(key) {
        Some(Json::Array(items)) => {
            let mut out: Vec<String> = Vec::new();
            let mut i: usize = 0;
            while i < items.len()
                invariant
                    field(*a, key@) == Some(Json::Array(*items)),
                    i <= items@.len(),
                    forall|k: int| 0 <= k < i ==> #[trigger] items@[k] is Str,
                    out@ =~= items@.take(i as int).map_values(|x: Json| x->Str_0),
                decreases items@.len() - i,
            {
                match &items[i] {
                    Json::Str(s) => {
                        out.push(s.clone());
                    },
                    _ => {
                        assert(!(items@[i as int] is Str));
                        return None;
                    },
                }
                proof {
                    assert(items@.take(i + 1).drop_last() =~= items@.take(i as int));
                }
                i = i + 1;
                proof {
                    assert(out@ =~= items@.take(i as int).map_values(|x: Json| x->Str_0));
                }
            }
            proof {
                assert(items@.take(i as int) =~= items@);
            }
            Some(out)
        },
        _ => None,
    }
}

/// Decodes the arguments of the open-file tool.
pub fn decode_open_file(a: &Json) -> (r: Option<OpenFileParams>)
    ensures
        r == open_params_of(*a),
{
    match (string_member(a, "path"), opt_app_member(a, "app")) {
        (Some(path), Some(app)) => Some(OpenFileParams { path, app }),
        _ => None,
    }
}

/// Decodes the arguments of the create-document tool.
pub fn decode_create_new(a: &Json) -> (r: Option<CreateNewParams>)
    ensures
        r == create_new_params_of(*a),
{
    match (app_member(a, "app"), opt_u32_member(a, "width"), opt_u32_member(a, "height")) {
        (Some(app), Some(width), Some(height)) => Some(CreateNewParams { app, width, height }),
        _ => None,
    }
}

/// Decodes the arguments of the export tool.
pub fn decode_export(a: &Json) -> (r: Option<ExportParams>)
    ensures
        r == export_params_of(*a),
{
    match (string_member(a, "path"), format_member(a, "format"), opt_u8_member(a, "quality")) {
        (Some(path), Some(format), Some(quality)) => Some(ExportParams { path, format, quality }),
        _ => None,
    }
}

/// Decodes the arguments of the filter tool.
pub fn decode_apply_filter(a: &Json) -> (r: Option<ApplyFilterParams>)
    ensures
        r == apply_filter_params_of(*a),
{
    match (string_member(a, "filter_name"), opt_u8_member(a, "intensity")) {
        (Some(filter_name), Some(intensity)) => Some(ApplyFilterParams { filter_name, intensity }),
        _ => None,
    }
}

/// Decodes the arguments of the drawing tool.
pub fn decode_draw_pikachu(a: &Json) -> (r: Option<DrawPikachuParams>)
    ensures
        r == draw_pikachu_params_of(*a),
{
    let is_object = match a {
        Json::Object(_) => true,
        _ => false,
    };
    match (
        opt_string_member(a, "output_path"),
        opt_u32_member(a, "width"),
        opt_u32_member(a, "height"),
    ) {
        (Some(output_path), Some(width), Some(height)) => if is_object {
            Some(DrawPikachuParams { output_path, width, height })
        } else {
            None
        },
        _ => None,
    }
}

/// Decodes the arguments of the create-design tool.
pub fn decode_create_design(a: &Json) -> (r: Option<CreateDesignIn>)
    ensures
        r == create_design_params_of(*a),
{
    match (
        string_member(a, "title"),
        opt_string_member(a, "template_id"),
        opt_u32_member(a, "width"),
        opt_u32_member(a, "height"),
    ) {
        (Some(title), Some(template_id), Some(width), Some(height)) => Some(
            CreateDesignIn { title, template_id, width, height },
        ),
        _ => None,
    }
}

/// Decodes the arguments of the batch open tool.
pub fn decode_batch_open_files(a: &Json) -> (r: Option<BatchOpenFilesParams>)
    ensures
        r is Some <==> batch_open_args_ok(*a),
        r is Some ==> batch_open_params_are(r->0, *a),
{
    match (strings_member(a, "paths"), opt_app_member(a, "app")) {
        (Some(paths), Some(app)) => Some(BatchOpenFilesParams { paths, app }),
        _ => None,
    }
}

/// Decodes the arguments of the batch export tool.
pub fn decode_batch_export(a: &Json) -> (r: Option<BatchExportParams>)
    ensures
        r is Some <==> exports_in(field(*a, "exports"@)) is Some,
        r is Some ==> batch_export_params_are(r->0, *a),
{
    match a.get("exports") {
        Some(Json::Array(items)) => {
            let mut out: Vec<ExportParams> = Vec::new();
            let mut i: usize = 0;
            while i < items.len()
                invariant
                    field(*a, "exports"@) == Some(Json::Array(*items)),
                    i <= items@.len(),
                    forall|k: int|
                        0 <= k < i ==> #[trigger] export_params_of(items@[k]) is Some,
                    out@ =~= items@.take(i as int).map_values(
                        |x: Json| export_params_of(x)->0,
                    ),
                decreases items@.len() - i,
            {
                match decode_export(&items[i]) {
                    Some(e) => {
                        out.push(e);
                    },
                    None => {
                        assert(export_params_of(items@[i as int]) is None);
                        return None;
                    },
                }
                i = i + 1;
                proof {
                    assert(out@ =~= items@.take(i as int).map_values(
                        |x: Json| export_params_of(x)->0,
                    ));
                }
            }
            proof {
                assert(items@.take(i as int) =~= items@);
            }
            Some(BatchExportParams { exports: out })
        },
        _ => None,
    }
}

} // verus!
