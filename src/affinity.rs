//! The desktop-application tools: their arguments, their results, and how an
//! action report becomes a result.
use vstd::prelude::*;
use crate::json::text_eq;
use crate::text::{contains, contains_text, ends_with, has_suffix};
use crate::action::{
    Action, ActionStatus, batch_len, batch_size, count_true, unsupported, MAX_PARALLEL,
};

verus! {

/// The three applications that the tools drive.
#[derive(Clone, Copy, Debug, PartialEq, Eq, Structural)]
pub enum AffinityApp {
    Photo,
    Designer,
    Publisher,
}

/// Display name of an application.
pub open spec fn app_name_of(a: AffinityApp) -> Seq<char> {
    match a {
        AffinityApp::Photo => "Affinity Photo"@,
        AffinityApp::Designer => "Affinity Designer"@,
        AffinityApp::Publisher => "Affinity Publisher"@,
    }
}

impl AffinityApp {
    /// Display name of the application.
    pub fn app_name(&self) -> (r: &'static str)
        ensures
            r@ == app_name_of(*self),
    {
        match self {
            AffinityApp::Photo => "Affinity Photo",
            AffinityApp::Designer => "Affinity Designer",
            AffinityApp::Publisher => "Affinity Publisher",
        }
    }
}

/// What `str::to_lowercase` returns for `s`.
pub uninterp spec fn lower_of(s: Seq<char>) -> Seq<char>;

/// Relies on `str::to_lowercase`: the result depends on the characters of
/// `s` alone.
#[verifier::external_body]
fn lowercase(s: &str) -> (r: String)
    ensures
        r@ == lower_of(s@),
{
    s.to_lowercase()
}

/// Application for a lower-cased path: by its document extension, Photo when
/// the extension is not one of the three.
pub open spec fn app_for_lowered(p: Seq<char>) -> Seq<char> {
    if ends_with(p, ".afdesign"@) {
        "Affinity Designer"@
    } else if ends_with(p, ".afpub"@) {
        "Affinity Publisher"@
    } else {
        "Affinity Photo"@
    }
}

/// Application for a path that is already lower-cased.
pub fn app_from_lowered(p: &str) -> (r: &'static str)
    ensures
        r@ == app_for_lowered(p@),
{
    if has_suffix(p, ".afdesign") {
        "Affinity Designer"
    } else if has_suffix(p, ".afpub") {
        "Affinity Publisher"
    } else {
        "Affinity Photo"
    }
}

/// Application for a path, by its extension without regard to case; Photo
/// when the extension is unknown or absent.
pub fn detect_app_from_path(path: &str) -> (r: &'static str)
    ensures
        r@ == app_for_lowered(lower_of(path@)),
{
    let lowered = lowercase(path);
    app_from_lowered(lowered.as_str())
}

/// Arguments of the open-file tool.
#[derive(Debug)]
pub struct OpenFileParams {
    pub path: String,
    /// The application to use; inferred from the path when absent.
    pub app: Option<AffinityApp>,
}

/// The application an open-file call targets.
pub open spec fn target_app(p: OpenFileParams) -> Seq<char> {
    match p.app {
        Some(a) => app_name_of(a),
        None => app_for_lowered(lower_of(p.path@)),
    }
}

/// Result of the open-file tool.
#[derive(Debug)]
pub struct OpenFileResult {
    pub opened: bool,
    pub app: String,
    pub path: String,
}

/// What opening `p` yields when the action reported `s`: the path is echoed,
/// the application is the target (or `Unsupported`), and `opened` says
/// whether the action succeeded.
pub open spec fn open_result_is(r: OpenFileResult, p: OpenFileParams, s: ActionStatus) -> bool {
    &&& r.opened == (s is Done)
    &&& r.path@ == p.path@
    &&& r.app@ == if s is Unavailable {
        unsupported()
    } else {
        target_app(p)
    }
}

/// The application an open-file call targets.
pub fn open_target_app(params: &OpenFileParams) -> (r: &'static str)
    ensures
        r@ == target_app(*params),
{
    match params.app {
        Some(a) => a.app_name(),
        None => detect_app_from_path(params.path.as_str()),
    }
}

/// `a` opens the file of `p` in its target application.
pub open spec fn is_open_action(a: Action, p: OpenFileParams) -> bool {
    match a {
        Action::Open { app, path } => app@ == target_app(p) && path@ == p.path@,
        _ => false,
    }
}

/// The action that opens the file.
pub fn open_file_action(params: &OpenFileParams) -> (r: Action)
    ensures
        is_open_action(r, *params),
{
    Action::Open {
        app: String::from_str(open_target_app(params)),
        path: params.path.clone(),
    }
}

fn open_outcome(path: &String, app: Option<AffinityApp>, status: &ActionStatus) -> (r:
    OpenFileResult)
    ensures
        open_result_is(r, OpenFileParams { path: *path, app }, *status),
{
    let params = OpenFileParams { path: path.clone(), app };
    let name = if status.is_unavailable() {
        String::from_str("Unsupported")
    } else {
        String::from_str(open_target_app(&params))
    };
    OpenFileResult { opened: status.is_done(), app: name, path: params.path }
}

/// Result of opening a file, from the report of its action.
pub fn open_file(params: OpenFileParams, status: ActionStatus) -> (r: OpenFileResult)
    ensures
        open_result_is(r, params, status),
{
    open_outcome(&params.path, params.app, &status)
}

/// Arguments of the create-document tool.
#[derive(Debug)]
pub struct CreateNewParams {
    pub app: AffinityApp,
    /// Width in pixels; 1920 when absent.
    pub width: Option<u32>,
    /// Height in pixels; 1080 when absent.
    pub height: Option<u32>,
}

/// Result of the create-document tool.
#[derive(Debug)]
pub struct CreateNewResult {
    pub created: bool,
    pub app: String,
}

/// Export file formats.
#[derive(Clone, Copy, Debug, PartialEq, Eq, Structural)]
pub enum ExportFormat {
    Pdf,
    Png,
    Jpg,
    Tiff,
    Svg,
}

/// Arguments of the export tool.
#[derive(Debug)]
pub struct ExportParams {
    pub path: String,
    pub format: ExportFormat,
    /// Quality from 1 to 100 for image formats; 90 when absent.
    pub quality: Option<u8>,
}

/// Result of the export tool.
#[derive(Debug)]
pub struct ExportResult {
    pub exported: bool,
    pub path: String,
}

/// Arguments of the filter tool.
#[derive(Debug)]
pub struct ApplyFilterParams {
    pub filter_name: String,
    /// Strength from 0 to 100.
    pub intensity: Option<u8>,
}

/// Result of the filter tool.
#[derive(Debug)]
pub struct ApplyFilterResult {
    pub applied: bool,
    pub filter_name: String,
}

/// The front document, as far as it is known.
#[derive(Debug)]
pub struct ActiveDocumentInfo {
    pub is_open: bool,
    pub name: Option<String>,
    pub path: Option<String>,
}

/// Result of the close-document tool.
#[derive(Debug)]
pub struct CloseDocumentResult {
    pub closed: bool,
}

/// Arguments of the drawing tool.
#[derive(Debug)]
pub struct DrawPikachuParams {
    /// Where to write the drawing; a temporary file when absent.
    pub output_path: Option<String>,
    /// Canvas width; 800 when absent.
    pub width: Option<u32>,
    /// Canvas height; 800 when absent.
    pub height: Option<u32>,
}

/// Result of the drawing tool.
#[derive(Debug)]
pub struct DrawPikachuResult {
    pub created: bool,
    pub file_path: String,
    pub app: String,
}

/// Arguments of the batch open tool.
#[derive(Debug)]
pub struct BatchOpenFilesParams {
    /// Paths to open; only the first `MAX_PARALLEL` are used.
    pub paths: Vec<String>,
    pub app: Option<AffinityApp>,
}

/// Result of the batch open tool.
#[derive(Debug)]
pub struct BatchOpenFilesResult {
    pub success_count: usize,
    pub failure_count: usize,
    /// One result per path that ran, in the order of the paths.
    pub results: Vec<OpenFileResult>,
}

/// Arguments of the batch export tool.
#[derive(Debug)]
pub struct BatchExportParams {
    /// Exports to run; only the first `MAX_PARALLEL` are used.
    pub exports: Vec<ExportParams>,
}

/// Result of the batch export tool.
#[derive(Debug)]
pub struct BatchExportResult {
    pub success_count: usize,
    pub failure_count: usize,
    /// One result per export that ran, in the order of the exports.
    pub results: Vec<ExportResult>,
}

/// What exporting `p` yields when the action reported `s`.
pub open spec fn export_result_is(r: ExportResult, p: ExportParams, s: ActionStatus) -> bool {
    &&& r.exported == (s is Done)
    &&& r.path@ == p.path@
}

/// Quality used when none is given.
pub const DEFAULT_QUALITY: u8 = 90;

/// Text name of an export format.
pub open spec fn format_name(f: ExportFormat) -> Seq<char> {
    match f {
        ExportFormat::Pdf => "pdf"@,
        ExportFormat::Png => "png"@,
        ExportFormat::Jpg => "jpg"@,
        ExportFormat::Tiff => "tiff"@,
        ExportFormat::Svg => "svg"@,
    }
}

impl ExportFormat {
    /// Text name of the format.
    pub fn name(&self) -> (r: &'static str)
        ensures
            r@ == format_name(*self),
    {
        match self {
            ExportFormat::Pdf => "pdf",
            ExportFormat::Png => "png",
            ExportFormat::Jpg => "jpg",
            ExportFormat::Tiff => "tiff",
            ExportFormat::Svg => "svg",
        }
    }
}

/// `a` exports to the path of `p`, in its format, at its quality or the
/// default one.
pub open spec fn is_export_action(a: Action, p: ExportParams) -> bool {
    match a {
        Action::Export { path, format, quality } => path@ == p.path@ && format == p.format
            && quality == match p.quality {
            Some(q) => q,
            None => DEFAULT_QUALITY,
        },
        _ => false,
    }
}

/// The action that exports the front document.
pub fn export_action(params: &ExportParams) -> (r: Action)
    ensures
        is_export_action(r, *params),
{
    let quality = match params.quality {
        Some(q) => q,
        None => DEFAULT_QUALITY,
    };
    Action::Export { path: params.path.clone(), format: params.format, quality }
}

fn export_outcome(path: &String, status: &ActionStatus) -> (r: ExportResult)
    ensures
        r.exported == (*status is Done),
        r.path@ == path@,
{
    ExportResult { exported: status.is_done(), path: path.clone() }
}

/// Result of an export, from the report of its action.
pub fn export(params: ExportParams, status: ActionStatus) -> (r: ExportResult)
    ensures
        export_result_is(r, params, status),
{
    export_outcome(&params.path, &status)
}

/// The item of a batch open at position `i`.
pub open spec fn batch_item(params: BatchOpenFilesParams, i: int) -> OpenFileParams {
    OpenFileParams { path: params.paths@[i], app: params.app }
}

/// Whether each result was a success.
pub open spec fn opened_flags(results: Seq<OpenFileResult>) -> Seq<bool> {
    results.map_values(|x: OpenFileResult| x.opened)
}

/// Whether each result was a success.
pub open spec fn exported_flags(results: Seq<ExportResult>) -> Seq<bool> {
    results.map_values(|x: ExportResult| x.exported)
}

/// What a batch open yields when its actions reported `statuses`: the first
/// `MAX_PARALLEL` paths run, each result stands at its path's position and
/// is what opening that path alone yields, and the counts classify the
/// results by `opened`.
pub open spec fn batch_open_is(
    r: BatchOpenFilesResult,
    params: BatchOpenFilesParams,
    statuses: Seq<ActionStatus>,
) -> bool {
    &&& r.results@.len() == batch_len(params.paths@.len() as int)
    &&& forall|i: int|
        0 <= i < r.results@.len() ==> open_result_is(
            #[trigger] r.results@[i],
            batch_item(params, i),
            statuses[i],
        )
    &&& r.success_count == count_true(opened_flags(r.results@))
    &&& r.success_count + r.failure_count == r.results@.len()
}

/// What a batch export yields when its actions reported `statuses`.
pub open spec fn batch_export_is(
    r: BatchExportResult,
    params: BatchExportParams,
    statuses: Seq<ActionStatus>,
) -> bool {
    &&& r.results@.len() == batch_len(params.exports@.len() as int)
    &&& forall|i: int|
        0 <= i < r.results@.len() ==> export_result_is(
            #[trigger] r.results@[i],
            params.exports@[i],
            statuses[i],
        )
    &&& r.success_count == count_true(exported_flags(r.results@))
    &&& r.success_count + r.failure_count == r.results@.len()
}

/// The actions of a batch open: one per path that runs, in order.
pub fn batch_open_actions(params: &BatchOpenFilesParams) -> (r: Vec<Action>)
    ensures
        r@.len() == batch_len(params.paths@.len() as int),
        forall|i: int|
            0 <= i < r@.len() ==> is_open_action(#[trigger] r@[i], batch_item(*params, i)),
{
    let n = batch_size(params.paths.len());
    let mut actions: Vec<Action> = Vec::new();
    let mut i: usize = 0;
    while i < n
        invariant
            n == batch_len(params.paths@.len() as int),
            n <= params.paths@.len(),
            i <= n,
            actions@.len() == i,
            forall|k: int|
                0 <= k < i ==> is_open_action(#[trigger] actions@[k], batch_item(*params, k)),
        decreases n - i,
    {
        let item = OpenFileParams { path: params.paths[i].clone(), app: params.app };
        actions.push(open_file_action(&item));
        i = i + 1;
    }
    actions
}

/// Runs the result side of a batch open: pairs the first `MAX_PARALLEL`
/// paths with the reports of their actions, in order, and counts successes
/// and failures.
pub fn batch_open_files(params: BatchOpenFilesParams, statuses: Vec<ActionStatus>) -> (r:
    BatchOpenFilesResult)
    requires
        statuses@.len() == batch_len(params.paths@.len() as int),
    ensures
        batch_open_is(r, params, statuses@),
{
    let n = batch_size(params.paths.len());
    let mut results: Vec<OpenFileResult> = Vec::new();
    let mut success: usize = 0;
    let mut i: usize = 0;
    while i < n
        invariant
            n == batch_len(params.paths@.len() as int),
            n <= params.paths@.len(),
            statuses@.len() == n,
            i <= n,
            results@.len() == i,
            success <= i,
            forall|k: int|
                0 <= k < i ==> open_result_is(
                    #[trigger] results@[k],
                    batch_item(params, k),
                    statuses@[k],
                ),
            success == count_true(opened_flags(results@)),
        decreases n - i,
    {
        let r = open_outcome(&params.paths[i], params.app, &statuses[i]);
        let ghost before = results@;
        if r.opened {
            success = success + 1;
        }
        results.push(r);
        proof {
            assert(opened_flags(results@).drop_last() =~= opened_flags(before));
        }
        i = i + 1;
    }
    BatchOpenFilesResult { success_count: success, failure_count: n - success, results }
}

/// The actions of a batch export: one per export that runs, in order.
pub fn batch_export_actions(params: &BatchExportParams) -> (r: Vec<Action>)
    ensures
        r@.len() == batch_len(params.exports@.len() as int),
        forall|i: int|
            0 <= i < r@.len() ==> is_export_action(#[trigger] r@[i], params.exports@[i]),
{
    let n = batch_size(params.exports.len());
    let mut actions: Vec<Action> = Vec::new();
    let mut i: usize = 0;
    while i < n
        invariant
            n == batch_len(params.exports@.len() as int),
            n <= params.exports@.len(),
            i <= n,
            actions@.len() == i,
            forall|k: int|
                0 <= k < i ==> is_export_action(#[trigger] actions@[k], params.exports@[k]),
        decreases n - i,
    {
        actions.push(export_action(&params.exports[i]));
        i = i + 1;
    }
    actions
}

/// Runs the result side of a batch export: pairs the first `MAX_PARALLEL`
/// exports with the reports of their actions, in order, and counts
/// successes and failures.
pub fn batch_export(params: BatchExportParams, statuses: Vec<ActionStatus>) -> (r:
    BatchExportResult)
    requires
        statuses@.len() == batch_len(params.exports@.len() as int),
    ensures
        batch_export_is(r, params, statuses@),
{
    let n = batch_size(params.exports.len());
    let mut results: Vec<ExportResult> = Vec::new();
    let mut success: usize = 0;
    let mut i: usize = 0;
    while i < n
        invariant
            n == batch_len(params.exports@.len() as int),
            n <= params.exports@.len(),
            statuses@.len() == n,
            i <= n,
            results@.len() == i,
            success <= i,
            forall|k: int|
                0 <= k < i ==> export_result_is(
                    #[trigger] results@[k],
                    params.exports@[k],
                    statuses@[k],
                ),
            success == count_true(exported_flags(results@)),
        decreases n - i,
    {
        let r = export_outcome(&params.exports[i].path, &statuses[i]);
        let ghost before = results@;
        if r.exported {
            success = success + 1;
        }
        results.push(r);
        proof {
            assert(exported_flags(results@).drop_last() =~= exported_flags(before));
        }
        i = i + 1;
    }
    BatchExportResult { success_count: success, failure_count: n - success, results }
}

/// A batch open keeps its order: the `i`-th result is the outcome of the
/// `i`-th path, and a batch within the fan-out limit yields one result per
/// path.
pub proof fn lemma_batch_open_order(
    params: BatchOpenFilesParams,
    statuses: Seq<ActionStatus>,
    r: BatchOpenFilesResult,
    i: int,
)
    requires
        batch_open_is(r, params, statuses),
        0 <= i < r.results@.len(),
    ensures
        r.results@[i].path@ == params.paths@[i]@,
        params.paths@.len() <= MAX_PARALLEL ==> r.results@.len() == params.paths@.len(),
{
    assert(open_result_is(r.results@[i], batch_item(params, i), statuses[i]));
}

/// A batch export keeps its order: the `i`-th result is the outcome of the
/// `i`-th export, and a batch within the fan-out limit yields one result
/// per export.
pub proof fn lemma_batch_export_order(
    params: BatchExportParams,
    statuses: Seq<ActionStatus>,
    r: BatchExportResult,
    i: int,
)
    requires
        batch_export_is(r, params, statuses),
        0 <= i < r.results@.len(),
    ensures
        r.results@[i].path@ == params.exports@[i].path@,
        params.exports@.len() <= MAX_PARALLEL ==> r.results@.len() == params.exports@.len(),
{
    assert(export_result_is(r.results@[i], params.exports@[i], statuses[i]));
}

/// A batch open of `MAX_PARALLEL + k` paths (k > 0) is cut to its first
/// `MAX_PARALLEL` paths, silently: exactly that many actions are asked for,
/// each for the path at its position, and exactly that many results come
/// back.
pub proof fn lemma_batch_open_truncation(
    params: BatchOpenFilesParams,
    k: int,
    actions: Seq<Action>,
    statuses: Seq<ActionStatus>,
    r: BatchOpenFilesResult,
)
    requires
        k > 0,
        params.paths@.len() == MAX_PARALLEL + k,
        actions.len() == batch_len(params.paths@.len() as int),
        forall|i: int|
            0 <= i < actions.len() ==> is_open_action(#[trigger] actions[i], batch_item(params, i)),
        batch_open_is(r, params, statuses),
    ensures
        actions.len() == MAX_PARALLEL,
        r.results@.len() == MAX_PARALLEL,
        forall|i: int|
            0 <= i < MAX_PARALLEL ==> (#[trigger] actions[i] matches Action::Open { app, path }
                && path@ == params.paths@[i]@),
        forall|i: int|
            0 <= i < MAX_PARALLEL ==> #[trigger] r.results@[i].path@ == params.paths@[i]@,
{
    assert forall|i: int| 0 <= i < MAX_PARALLEL implies #[trigger] r.results@[i].path@
        == params.paths@[i]@ by {
        assert(open_result_is(r.results@[i], batch_item(params, i), statuses[i]));
    }
}

/// A batch export of `MAX_PARALLEL + k` exports (k > 0) is cut to its first
/// `MAX_PARALLEL` exports, silently.
pub proof fn lemma_batch_export_truncation(
    params: BatchExportParams,
    k: int,
    actions: Seq<Action>,
    statuses: Seq<ActionStatus>,
    r: BatchExportResult,
)
    requires
        k > 0,
        params.exports@.len() == MAX_PARALLEL + k,
        actions.len() == batch_len(params.exports@.len() as int),
        forall|i: int|
            0 <= i < actions.len() ==> is_export_action(#[trigger] actions[i], params.exports@[i]),
        batch_export_is(r, params, statuses),
    ensures
        actions.len() == MAX_PARALLEL,
        r.results@.len() == MAX_PARALLEL,
        forall|i: int|
            0 <= i < MAX_PARALLEL ==> (#[trigger] actions[i] matches Action::Export {
                path,
                format,
                quality,
            } && path@ == params.exports@[i].path@),
        forall|i: int|
            0 <= i < MAX_PARALLEL ==> #[trigger] r.results@[i].path@ == params.exports@[i].path@,
{
    assert forall|i: int| 0 <= i < MAX_PARALLEL implies #[trigger] r.results@[i].path@
        == params.exports@[i].path@ by {
        assert(export_result_is(r.results@[i], params.exports@[i], statuses[i]));
    }
}

/// Every result of a batch is counted once: successes and failures add up
/// to the number of results, and the successes are the results that
/// opened.
pub proof fn lemma_batch_open_counts(
    params: BatchOpenFilesParams,
    statuses: Seq<ActionStatus>,
    r: BatchOpenFilesResult,
)
    requires
        batch_open_is(r, params, statuses),
    ensures
        r.success_count + r.failure_count == r.results@.len(),
        r.success_count == count_true(opened_flags(r.results@)),
        r.failure_count == r.results@.len() - count_true(opened_flags(r.results@)),
{
}

/// Every result of a batch export is counted once.
pub proof fn lemma_batch_export_counts(
    params: BatchExportParams,
    statuses: Seq<ActionStatus>,
    r: BatchExportResult,
)
    requires
        batch_export_is(r, params, statuses),
    ensures
        r.success_count + r.failure_count == r.results@.len(),
        r.success_count == count_true(exported_flags(r.results@)),
{
}

/// An item of a batch open comes out as it does when opened alone: its
/// result matches, field for field, the result of `open_file` on the same
/// path and report, whatever the other items did.
pub proof fn lemma_batch_open_isolation(
    params: BatchOpenFilesParams,
    statuses: Seq<ActionStatus>,
    r: BatchOpenFilesResult,
    j: int,
    alone: OpenFileResult,
)
    requires
        batch_open_is(r, params, statuses),
        0 <= j < r.results@.len(),
        open_result_is(alone, batch_item(params, j), statuses[j]),
    ensures
        r.results@[j].opened == alone.opened,
        r.results@[j].app@ == alone.app@,
        r.results@[j].path@ == alone.path@,
{
    assert(open_result_is(r.results@[j], batch_item(params, j), statuses[j]));
}

/// A failing item does not disturb the others: two runs of one batch open
/// whose reports agree at position `j` agree on the result at `j`, however
/// their other items fared.
pub proof fn lemma_batch_open_independence(
    params: BatchOpenFilesParams,
    s1: Seq<ActionStatus>,
    s2: Seq<ActionStatus>,
    r1: BatchOpenFilesResult,
    r2: BatchOpenFilesResult,
    j: int,
)
    requires
        batch_open_is(r1, params, s1),
        batch_open_is(r2, params, s2),
        0 <= j < r1.results@.len(),
        s1[j] == s2[j],
    ensures
        r1.results@[j].opened == r2.results@[j].opened,
        r1.results@[j].app@ == r2.results@[j].app@,
        r1.results@[j].path@ == r2.results@[j].path@,
{
    assert(open_result_is(r1.results@[j], batch_item(params, j), s1[j]));
    assert(open_result_is(r2.results@[j], batch_item(params, j), s2[j]));
}

/// An item of a batch export comes out as it does when exported alone.
pub proof fn lemma_batch_export_isolation(
    params: BatchExportParams,
    statuses: Seq<ActionStatus>,
    r: BatchExportResult,
    j: int,
    alone: ExportResult,
)
    requires
        batch_export_is(r, params, statuses),
        0 <= j < r.results@.len(),
        export_result_is(alone, params.exports@[j], statuses[j]),
    ensures
        r.results@[j].exported == alone.exported,
        r.results@[j].path@ == alone.path@,
{
    assert(export_result_is(r.results@[j], params.exports@[j], statuses[j]));
}

/// Shapes of the shape tool.
#[derive(Clone, Copy, Debug, PartialEq, Eq, Structural)]
pub enum ShapeType {
    Circle,
    Rectangle,
    Ellipse,
    Line,
}

/// Result of the shape tool.
#[derive(Debug)]
pub struct DrawShapeResult {
    pub drawn: bool,
    pub shape_type: String,
}

/// Result of the text tool.
#[derive(Debug)]
pub struct AddTextResult {
    pub added: bool,
}

/// Arguments of the color tool.
#[derive(Debug)]
pub struct ChangeColorParams {
    /// The color, as hex text.
    pub color: String,
    pub fill_selection: Option<bool>,
}

/// Result of the color tool.
#[derive(Debug)]
pub struct ChangeColorResult {
    pub changed: bool,
}

/// Width used when none is given to the create-document tool.
pub const DEFAULT_WIDTH: u32 = 1920;

/// Height used when none is given to the create-document tool.
pub const DEFAULT_HEIGHT: u32 = 1080;

/// `a` creates a document in the application of `p`, at its size or the
/// default one.
pub open spec fn is_create_action(a: Action, p: CreateNewParams) -> bool {
    match a {
        Action::CreateDocument { app, width, height } => app@ == app_name_of(p.app) && width == (
        match p.width {
            Some(w) => w,
            None => DEFAULT_WIDTH,
        }) && height == (match p.height {
            Some(h) => h,
            None => DEFAULT_HEIGHT,
        }),
        _ => false,
    }
}

/// The action that creates a document.
pub fn create_new_action(params: &CreateNewParams) -> (r: Action)
    ensures
        is_create_action(r, *params),
{
    let width = match params.width {
        Some(w) => w,
        None => DEFAULT_WIDTH,
    };
    let height = match params.height {
        Some(h) => h,
        None => DEFAULT_HEIGHT,
    };
    Action::CreateDocument { app: String::from_str(params.app.app_name()), width, height }
}

/// Result of creating a document, from the report of its action.
pub fn create_new(params: CreateNewParams, status: ActionStatus) -> (r: CreateNewResult)
    ensures
        r.created == (status is Done),
        r.app@ == if status is Unavailable {
            unsupported()
        } else {
            app_name_of(params.app)
        },
{
    let app = if status.is_unavailable() {
        String::from_str("Unsupported")
    } else {
        String::from_str(params.app.app_name())
    };
    CreateNewResult { created: status.is_done(), app }
}

/// `a` applies the filter named in `p`.
pub open spec fn is_filter_action(a: Action, p: ApplyFilterParams) -> bool {
    match a {
        Action::ApplyFilter { filter_name } => filter_name@ == p.filter_name@,
        _ => false,
    }
}

/// The action that applies a filter.
pub fn apply_filter_action(params: &ApplyFilterParams) -> (r: Action)
    ensures
        is_filter_action(r, *params),
{
    Action::ApplyFilter { filter_name: params.filter_name.clone() }
}

/// Result of applying a filter, from the report of its action.
pub fn apply_filter(params: ApplyFilterParams, status: ActionStatus) -> (r: ApplyFilterResult)
    ensures
        r.applied == (status is Done),
        r.filter_name@ == params.filter_name@,
{
    ApplyFilterResult { applied: status.is_done(), filter_name: params.filter_name }
}

/// Index of the first `|` in `s` at or after `from`; the length of `s` when
/// there is none.
pub open spec fn bar_from(s: Seq<char>, from: int) -> int
    decreases s.len() - from,
{
    if from >= s.len() {
        s.len() as int
    } else if s[from] == '|' {
        from
    } else {
        bar_from(s, from + 1)
    }
}

proof fn lemma_bar_from_bounds(s: Seq<char>, from: int)
    requires
        0 <= from <= s.len(),
    ensures
        from <= bar_from(s, from) <= s.len(),
        bar_from(s, from) < s.len() ==> s[bar_from(s, from)] == '|',
    decreases s.len() - from,
{
    if from < s.len() && s[from] != '|' {
        lemma_bar_from_bounds(s, from + 1);
    }
}

/// Index of the first `|` in `s` at or after `from`.
fn find_bar(s: &str, from: usize) -> (r: usize)
    requires
        from <= s@.len(),
    ensures
        r == bar_from(s@, from as int),
{
    let n = s.unicode_len();
    let mut i = from;
    while i < n
        invariant
            from <= i <= n,
            n == s@.len(),
            bar_from(s@, from as int) == bar_from(s@, i as int),
        decreases n - i,
    {
        if s.get_char(i) == '|' {
            return i;
        }
        i = i + 1;
    }
    i
}

/// The front document as read from the report `name|path`, as (open, name,
/// path): no document when the report is `||`; otherwise the text before
/// the first `|` is the name and the text between the first and the second
/// `|` (or the end) is the path, absent when the report holds no `|`.
pub open spec fn document_report(out: Seq<char>) -> (bool, Option<Seq<char>>, Option<Seq<char>>) {
    if out == "||"@ {
        (false, None, None)
    } else {
        let b = bar_from(out, 0);
        (
            true,
            Some(out.subrange(0, b)),
            if b < out.len() {
                Some(out.subrange(b + 1, bar_from(out, b + 1)))
            } else {
                None
            },
        )
    }
}

/// The text of an optional string.
pub open spec fn opt_view(o: Option<String>) -> Option<Seq<char>> {
    match o {
        Some(s) => Some(s@),
        None => None,
    }
}

/// A document description as (open, name, path).
pub open spec fn document_of(r: ActiveDocumentInfo) -> (bool, Option<Seq<char>>, Option<Seq<char>>) {
    (r.is_open, opt_view(r.name), opt_view(r.path))
}

/// Reads the report of the active-document action.
pub fn parse_active_document(out: &str) -> (r: ActiveDocumentInfo)
    ensures
        document_of(r) == document_report(out@),
{
    let owned = String::from_str(out);
    if text_eq(&owned, "||") {
        return ActiveDocumentInfo { is_open: false, name: None, path: None };
    }
    let n = out.unicode_len();
    let b = find_bar(out, 0);
    proof {
        lemma_bar_from_bounds(out@, 0);
    }
    let name = String::from_str(out.substring_char(0, b));
    let path = if b < n {
        let e = find_bar(out, b + 1);
        proof {
            lemma_bar_from_bounds(out@, b + 1);
        }
        Some(String::from_str(out.substring_char(b + 1, e)))
    } else {
        None
    };
    ActiveDocumentInfo { is_open: true, name: Some(name), path }
}

/// The front document, from the report of its action: read from what the
/// action printed when it ran, no document otherwise.
pub fn get_active_document(status: ActionStatus) -> (r: ActiveDocumentInfo)
    ensures
        document_of(r) == match status {
            ActionStatus::Done(out) => document_report(out@),
            _ => (false, None, None),
        },
{
    match status {
        ActionStatus::Done(out) => parse_active_document(out.as_str()),
        _ => ActiveDocumentInfo { is_open: false, name: None, path: None },
    }
}

/// Result of closing the front document, from the report of its action.
pub fn close_document(status: ActionStatus) -> (r: CloseDocumentResult)
    ensures
        r.closed == (status is Done),
{
    CloseDocumentResult { closed: status.is_done() }
}

/// Canvas side used when none is given to the drawing tool.
pub const DEFAULT_CANVAS: u32 = 800;

/// The application named in the drawing tool's result.
pub open spec fn drawing_app() -> Seq<char> {
    "Affinity Photo/Designer"@
}

/// `a` draws at the size of `p` (or the default one) to its output path.
pub open spec fn is_draw_action(a: Action, p: DrawPikachuParams) -> bool {
    match a {
        Action::DrawPicture { output_path, width, height } => width == (match p.width {
            Some(w) => w,
            None => DEFAULT_CANVAS,
        }) && height == (match p.height {
            Some(h) => h,
            None => DEFAULT_CANVAS,
        }) && match p.output_path {
            Some(q) => output_path matches Some(o) && o@ == q@,
            None => output_path is None,
        },
        _ => false,
    }
}

/// The action that writes and opens the drawing.
pub fn draw_pikachu_action(params: &DrawPikachuParams) -> (r: Action)
    ensures
        is_draw_action(r, *params),
{
    let width = match params.width {
        Some(w) => w,
        None => DEFAULT_CANVAS,
    };
    let height = match params.height {
        Some(h) => h,
        None => DEFAULT_CANVAS,
    };
    let output_path = match &params.output_path {
        Some(p) => Some(p.clone()),
        None => None,
    };
    Action::DrawPicture { output_path, width, height }
}

/// Result of the drawing tool, from the report of its action: the path is
/// what the action reported as written, empty when it did not run.
pub fn draw_pikachu(status: ActionStatus) -> (r: DrawPikachuResult)
    ensures
        r.created == (status is Done),
        match status {
            ActionStatus::Done(p) => r.file_path@ == p@ && r.app@ == drawing_app(),
            ActionStatus::Failed(_) => r.file_path@ == Seq::<char>::empty() && r.app@ == drawing_app(),
            ActionStatus::Unavailable => r.file_path@ == Seq::<char>::empty() && r.app@ == unsupported(),
        },
{
    match status {
        ActionStatus::Done(p) => DrawPikachuResult {
            created: true,
            file_path: p,
            app: String::from_str("Affinity Photo/Designer"),
        },
        ActionStatus::Failed(_) => DrawPikachuResult {
            created: false,
            file_path: String::new(),
            app: String::from_str("Affinity Photo/Designer"),
        },
        ActionStatus::Unavailable => DrawPikachuResult {
            created: false,
            file_path: String::new(),
            app: String::from_str("Unsupported"),
        },
    }
}

/// Result of changing the color, from the report of its action.
pub fn change_color(status: ActionStatus) -> (r: ChangeColorResult)
    ensures
        r.changed == (status is Done),
{
    ChangeColorResult { changed: status.is_done() }
}

/// Name of a shape, as the shape tool reports it.
pub open spec fn shape_name_of(s: ShapeType) -> Seq<char> {
    match s {
        ShapeType::Circle => "Circle"@,
        ShapeType::Rectangle => "Rectangle"@,
        ShapeType::Ellipse => "Ellipse"@,
        ShapeType::Line => "Line"@,
    }
}

impl ShapeType {
    /// Name of the shape.
    pub fn name(&self) -> (r: &'static str)
        ensures
            r@ == shape_name_of(*self),
    {
        match self {
            ShapeType::Circle => "Circle",
            ShapeType::Rectangle => "Rectangle",
            ShapeType::Ellipse => "Ellipse",
            ShapeType::Line => "Line",
        }
    }
}

/// Result of the shape tool, from the report of its action.
pub fn draw_shape_result(shape_type: ShapeType, status: ActionStatus) -> (r: DrawShapeResult)
    ensures
        r.drawn == (status is Done),
        r.shape_type@ == shape_name_of(shape_type),
{
    DrawShapeResult { drawn: status.is_done(), shape_type: String::from_str(shape_type.name()) }
}

/// Result of the text tool, from the report of its action.
pub fn add_text_result(status: ActionStatus) -> (r: AddTextResult)
    ensures
        r.added == (status is Done),
{
    AddTextResult { added: status.is_done() }
}

/// A process probe found the application: it printed something, and not
/// `false` or an error.
pub open spec fn probe_ok(out: Seq<char>) -> bool {
    out.len() > 0 && out != "false"@ && !contains(out, "error"@)
}

/// Reads the (trimmed) output of a process probe.
pub fn probe_found(out: &str) -> (r: bool)
    ensures
        r == probe_ok(out@),
{
    if out.unicode_len() == 0 {
        return false;
    }
    let owned = String::from_str(out);
    if text_eq(&owned, "false") {
        return false;
    }
    !contains_text(out, "error")
}

} // verus!
