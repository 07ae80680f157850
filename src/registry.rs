//! The tool registry: a fixed catalog, listed in a stable order and resolved
//! by name.
use vstd::prelude::*;
use crate::json::{Json, entry, has_keys, is_text, member, text, text_eq};
use crate::mcp::Tool;

verus! {

/// The tools of the catalog.
#[derive(Clone, Copy, Debug, PartialEq, Eq, Structural)]
pub enum ToolKind {
    OpenFile,
    CreateNew,
    Export,
    ApplyFilter,
    GetActiveDocument,
    CloseDocument,
    BatchOpenFiles,
    BatchExport,
    DrawPikachu,
    CreateDesign,
}

/// Names of the catalog's tools, in listing order.
pub open spec fn catalog() -> Seq<Seq<char>> {
    seq![
        "affinity.open_file"@,
        "affinity.create_new"@,
        "affinity.export"@,
        "affinity.apply_filter"@,
        "affinity.get_active_document"@,
        "affinity.close_document"@,
        "affinity.batch_open_files"@,
        "affinity.batch_export"@,
        "affinity.draw_pikachu"@,
        "canva.create_design"@,
    ]
}

/// Tools of the catalog, in listing order.
pub open spec fn catalog_kinds() -> Seq<ToolKind> {
    seq![
        ToolKind::OpenFile,
        ToolKind::CreateNew,
        ToolKind::Export,
        ToolKind::ApplyFilter,
        ToolKind::GetActiveDocument,
        ToolKind::CloseDocument,
        ToolKind::BatchOpenFiles,
        ToolKind::BatchExport,
        ToolKind::DrawPikachu,
        ToolKind::CreateDesign,
    ]
}

/// The tool registered under `name`, if any.
pub open spec fn tool_kind_named(name: Seq<char>) -> Option<ToolKind> {
    if name == catalog()[0] {
        Some(ToolKind::OpenFile)
    } else if name == catalog()[1] {
        Some(ToolKind::CreateNew)
    } else if name == catalog()[2] {
        Some(ToolKind::Export)
    } else if name == catalog()[3] {
        Some(ToolKind::ApplyFilter)
    } else if name == catalog()[4] {
        Some(ToolKind::GetActiveDocument)
    } else if name == catalog()[5] {
        Some(ToolKind::CloseDocument)
    } else if name == catalog()[6] {
        Some(ToolKind::BatchOpenFiles)
    } else if name == catalog()[7] {
        Some(ToolKind::BatchExport)
    } else if name == catalog()[8] {
        Some(ToolKind::DrawPikachu)
    } else if name == catalog()[9] {
        Some(ToolKind::CreateDesign)
    } else {
        None
    }
}

/// Every listed name resolves, to the tool listed under it.
pub proof fn lemma_catalog_resolves(i: int)
    requires
        0 <= i < catalog().len(),
    ensures
        tool_kind_named(catalog()[i]) == Some(catalog_kinds()[i]),
{
    reveal_strlit("affinity.open_file");
    reveal_strlit("affinity.create_new");
    reveal_strlit("affinity.export");
    reveal_strlit("affinity.apply_filter");
    reveal_strlit("affinity.get_active_document");
    reveal_strlit("affinity.close_document");
    reveal_strlit("affinity.batch_open_files");
    reveal_strlit("affinity.batch_export");
    reveal_strlit("affinity.draw_pikachu");
    reveal_strlit("canva.create_design");
    let c = catalog();
    assert(c[0].len() == 18 && c[1].len() == 19 && c[2].len() == 15 && c[3].len() == 21);
    assert(c[4].len() == 28 && c[5].len() == 23 && c[6].len() == 25 && c[7].len() == 21);
    assert(c[8].len() == 21 && c[9].len() == 19);
    assert(c[1][0] != c[9][0]);
    assert(c[3][9] != c[7][9] && c[3][9] != c[8][9] && c[7][9] != c[8][9]);
}

/// Looks a tool up by name.
pub fn resolve_tool(name: &String) -> (r: Option<ToolKind>)
    ensures
        r == tool_kind_named(name@),
{
    if text_eq(name, "affinity.open_file") {
        Some(ToolKind::OpenFile)
    } else if text_eq(name, "affinity.create_new") {
        Some(ToolKind::CreateNew)
    } else if text_eq(name, "affinity.export") {
        Some(ToolKind::Export)
    } else if text_eq(name, "affinity.apply_filter") {
        Some(ToolKind::ApplyFilter)
    } else if text_eq(name, "affinity.get_active_document") {
        Some(ToolKind::GetActiveDocument)
    } else if text_eq(name, "affinity.close_document") {
        Some(ToolKind::CloseDocument)
    } else if text_eq(name, "affinity.batch_open_files") {
        Some(ToolKind::BatchOpenFiles)
    } else if text_eq(name, "affinity.batch_export") {
        Some(ToolKind::BatchExport)
    } else if text_eq(name, "affinity.draw_pikachu") {
        Some(ToolKind::DrawPikachu)
    } else if text_eq(name, "canva.create_design") {
        Some(ToolKind::CreateDesign)
    } else {
        None
    }
}

/// `j` is an object schema: its first member is `type`, set to `object`.
pub open spec fn is_object_schema(j: Json) -> bool {
    &&& j is Object
    &&& member_key(j, 0) == "type"@
    &&& is_text(member(j, 0), "object"@)
}

/// Name of the `i`-th member of an object.
pub open spec fn member_key(j: Json, i: int) -> Seq<char> {
    match j {
        Json::Object(entries) => if 0 <= i < entries@.len() {
            entries@[i].0@
        } else {
            Seq::empty()
        },
        _ => Seq::empty(),
    }
}

/// Names of the members of an object, in order.
pub open spec fn keys(j: Json) -> Seq<Seq<char>> {
    match j {
        Json::Object(entries) => entries@.map_values(|e: (String, Json)| e.0@),
        _ => Seq::empty(),
    }
}

/// The texts of an array of strings.
pub open spec fn texts_of(j: Json) -> Seq<Seq<char>> {
    match j {
        Json::Array(items) => items@.map_values(|x: Json| x->Str_0@),
        _ => Seq::empty(),
    }
}

/// The texts of a list of string slices.
pub open spec fn views(v: Seq<&str>) -> Seq<Seq<char>> {
    v.map_values(|s: &str| s@)
}

/// Names of the properties that a schema declares.
pub open spec fn schema_properties(j: Json) -> Seq<Seq<char>> {
    keys(member(j, 1))
}

/// Members that a schema requires; none when it has no `required` list.
pub open spec fn schema_required(j: Json) -> Seq<Seq<char>> {
    if member_key(j, 2) == "required"@ {
        texts_of(member(j, 2))
    } else {
        Seq::empty()
    }
}

fn texts(values: Vec<&str>) -> (r: Json)
    ensures
        texts_of(r) == views(values@),
{
    let mut items: Vec<Json> = Vec::new();
    let mut i: usize = 0;
    while i < values.len()
        invariant
            i <= values@.len(),
            items@.len() == i,
            items@.map_values(|x: Json| x->Str_0@) =~= views(values@.take(i as int)),
        decreases values@.len() - i,
    {
        let t = text(values[i]);
        let ghost before = items@;
        items.push(t);
        proof {
            assert(values@.take(i + 1).drop_last() =~= values@.take(i as int));
            assert(items@.map_values(|x: Json| x->Str_0@) =~= before.map_values(
                |x: Json| x->Str_0@,
            ).push(values@[i as int]@));
            assert(views(values@.take(i + 1)) =~= views(values@.take(i as int)).push(
                values@[i as int]@,
            ));
        }
        i = i + 1;
    }
    proof {
        assert(values@.take(i as int) =~= values@);
    }
    Json::Array(items)
}

fn typed(kind: &str, description: &str) -> (r: Json)
    ensures
        has_keys(r, seq!["type"@, "description"@]),
{
    Json::Object(vec![entry("type", text(kind)), entry("description", text(description))])
}

fn string_prop(description: &str) -> Json {
    typed("string", description)
}

fn number_prop(description: &str) -> Json {
    typed("number", description)
}

fn bounded_prop(minimum: u64, maximum: u64, description: &str) -> Json {
    Json::Object(
        vec![
            entry("type", text("number")),
            entry("minimum", Json::UInt(minimum)),
            entry("maximum", Json::UInt(maximum)),
            entry("description", text(description)),
        ],
    )
}

fn choice_prop(values: Vec<&str>, description: &str) -> Json {
    Json::Object(
        vec![
            entry("type", text("string")),
            entry("enum", texts(values)),
            entry("description", text(description)),
        ],
    )
}

fn app_prop(description: &str) -> Json {
    choice_prop(vec!["Photo", "Designer", "Publisher"], description)
}

fn format_prop() -> Json {
    choice_prop(vec!["pdf", "png", "jpg", "tiff", "svg"], "エクスポートフォーマット")
}

fn quality_prop() -> Json {
    bounded_prop(1, 100, "品質（1-100、画像形式の場合）")
}

fn list_prop(items: Json, description: &str) -> Json {
    Json::Object(
        vec![
            entry("type", text("array")),
            entry("items", items),
            entry("description", text(description)),
            entry("maxItems", Json::UInt(16)),
        ],
    )
}

fn object_schema(properties: Vec<(String, Json)>) -> (r: Json)
    ensures
        is_object_schema(r),
        schema_properties(r) == keys(Json::Object(properties)),
        schema_required(r) == Seq::<Seq<char>>::empty(),
{
    proof {
        reveal_strlit("required");
        assert("required"@.len() == 8);
    }
    Json::Object(vec![entry("type", text("object")), entry("properties", Json::Object(properties))])
}

fn object_schema_requiring(properties: Vec<(String, Json)>, required: Vec<&str>) -> (r: Json)
    ensures
        is_object_schema(r),
        schema_properties(r) == keys(Json::Object(properties)),
        schema_required(r) == views(required@),
{
    Json::Object(
        vec![
            entry("type", text("object")),
            entry("properties", Json::Object(properties)),
            entry("required", texts(required)),
        ],
    )
}

fn tool(name: &str, description: &str, input_schema: Json) -> (r: Tool)
    ensures
        r.name@ == name@,
        r.input_schema == input_schema,
{
    Tool { name: String::from_str(name), description: String::from_str(description), input_schema }
}

/// Properties of each tool's arguments, in listing order.
pub open spec fn catalog_properties() -> Seq<Seq<Seq<char>>> {
    seq![
        seq!["path"@, "app"@],
        seq!["width"@, "height"@, "app"@],
        seq!["path"@, "format"@, "quality"@],
        seq!["filter_name"@, "intensity"@],
        seq![],
        seq![],
        seq!["paths"@, "app"@],
        seq!["exports"@],
        seq!["output_path"@, "width"@, "height"@],
        seq!["title"@, "template_id"@, "width"@, "height"@],
    ]
}

/// Required arguments of each tool, in listing order.
pub open spec fn catalog_required() -> Seq<Seq<Seq<char>>> {
    seq![
        seq!["path"@],
        seq!["app"@],
        seq!["path"@, "format"@],
        seq!["filter_name"@],
        seq![],
        seq![],
        seq!["paths"@],
        seq!["exports"@],
        seq![],
        seq!["title"@],
    ]
}

/// `tools` is the catalog: one entry per name, in listing order, each with an
/// object schema that declares the tool's properties and required members.
pub open spec fn is_catalog(tools: Seq<Tool>) -> bool {
    &&& tools.len() == catalog().len()
    &&& forall|i: int|
        0 <= i < tools.len() ==> {
            &&& #[trigger] tools[i].name@ == catalog()[i]
            &&& is_object_schema(tools[i].input_schema)
            &&& schema_properties(tools[i].input_schema) == catalog_properties()[i]
            &&& schema_required(tools[i].input_schema) == catalog_required()[i]
        }
}

/// The catalog, in its stable listing order.
pub fn get_all_tools() -> (r: Vec<Tool>)
    ensures
        is_catalog(r@),
{
    let open_file = tool(
        "affinity.open_file",
        "Affinityアプリケーションでファイルを開く（自然言語で「ファイルを開いて」などの指示に対応）",
        object_schema_requiring(
            vec![
                entry("path", string_prop("開くファイルのパス（絶対パスまたは相対パス）")),
                entry("app", app_prop("使用するAffinityアプリ（省略時は自動判定）")),
            ],
            vec!["path"],
        ),
    );
    let create_new = tool(
        "affinity.create_new",
        "新しいAffinityドキュメントを作成（自然言語で「新しいドキュメントを作成して」などの指示に対応）",
        object_schema_requiring(
            vec![
                entry("width", number_prop("幅（ピクセル、省略時はデフォルト）")),
                entry("height", number_prop("高さ（ピクセル、省略時はデフォルト）")),
                entry("app", app_prop("使用するAffinityアプリ")),
            ],
            vec!["app"],
        ),
    );
    let export = tool(
        "affinity.export",
        "現在開いているAffinityドキュメントをエクスポート（自然言語で「PDFでエクスポートして」などの指示に対応）",
        object_schema_requiring(
            vec![
                entry("path", string_prop("エクスポート先のファイルパス")),
                entry("format", format_prop()),
                entry("quality", quality_prop()),
            ],
            vec!["path", "format"],
        ),
    );
    let apply_filter = tool(
        "affinity.apply_filter",
        "画像にフィルターを適用（自然言語で「ぼかしを適用して」などの指示に対応）",
        object_schema_requiring(
            vec![
                entry("filter_name", string_prop("フィルター名（例: blur, sharpen, desaturate）")),
                entry("intensity", bounded_prop(0, 100, "強度（0-100）")),
            ],
            vec!["filter_name"],
        ),
    );
    let get_active = tool(
        "affinity.get_active_document",
        "現在アクティブなドキュメントの情報を取得",
        object_schema(Vec::new()),
    );
    let close = tool(
        "affinity.close_document",
        "現在開いているドキュメントを閉じる",
        object_schema(Vec::new()),
    );
    let batch_open = tool(
        "affinity.batch_open_files",
        "複数のファイルを16並列で同時に開く（自然言語: 「複数のファイルを同時に開いて」など）",
        object_schema_requiring(
            vec![
                entry(
                    "paths",
                    list_prop(
                        Json::Object(vec![entry("type", text("string"))]),
                        "開くファイルのパスリスト（最大16個まで）",
                    ),
                ),
                entry("app", app_prop("使用するAffinityアプリ（省略時は自動判定）")),
            ],
            vec!["paths"],
        ),
    );
    let export_item = object_schema_requiring(
        vec![
            entry("path", string_prop("エクスポート先のファイルパス")),
            entry("format", format_prop()),
            entry("quality", quality_prop()),
        ],
        vec!["path", "format"],
    );
    let batch_export = tool(
        "affinity.batch_export",
        "複数のドキュメントを16並列で同時にエクスポート（自然言語: 「複数のファイルを同時にエクスポートして」など）",
        object_schema_requiring(
            vec![entry("exports", list_prop(export_item, "エクスポート設定のリスト（最大16個まで）"))],
            vec!["exports"],
        ),
    );
    let draw = tool(
        "affinity.draw_pikachu",
        "ピカチュウを描画してAffinityで開く（自然言語: 「ピカチュウを描いて」「ピカチュウを作って」など）",
        object_schema(
            vec![
                entry("output_path", string_prop("出力先のファイルパス（省略時は一時ファイル）")),
                entry("width", number_prop("キャンバスサイズ（幅、省略時は800）")),
                entry("height", number_prop("キャンバスサイズ（高さ、省略時は800）")),
            ],
        ),
    );
    let create_design = tool(
        "canva.create_design",
        "Canvaでデザインを作成",
        object_schema_requiring(
            vec![
                entry("title", Json::Object(vec![entry("type", text("string"))])),
                entry("template_id", Json::Object(vec![entry("type", text("string"))])),
                entry("width", Json::Object(vec![entry("type", text("number"))])),
                entry("height", Json::Object(vec![entry("type", text("number"))])),
            ],
            vec!["title"],
        ),
    );
    let tools = vec![
        open_file,
        create_new,
        export,
        apply_filter,
        get_active,
        close,
        batch_open,
        batch_export,
        draw,
        create_design,
    ];
    assert(is_catalog(tools@)) by {
        assert forall|i: int| 0 <= i < tools@.len() implies {
            &&& #[trigger] tools@[i].name@ == catalog()[i]
            &&& is_object_schema(tools@[i].input_schema)
            &&& schema_properties(tools@[i].input_schema) == catalog_properties()[i]
            &&& schema_required(tools@[i].input_schema) == catalog_required()[i]
        } by {
            let sch = tools@[i].input_schema;
            assert(schema_properties(sch) =~= catalog_properties()[i]);
            assert(schema_required(sch) =~= catalog_required()[i]);
            if i == 0 {
            } else if i == 1 {
            } else if i == 2 {
            } else if i == 3 {
            } else if i == 4 {
            } else if i == 5 {
            } else if i == 6 {
            } else if i == 7 {
            } else if i == 8 {
            } else {
            }
        }
    }
    tools
}

/// `j` is the wire form of the listing `tools`: an object whose `tools`
/// member holds one object per tool, in order, with its `name`,
/// `description` and `input_schema`.
pub open spec fn tools_list_json_is(j: Json, tools: Seq<Tool>) -> bool {
    &&& has_keys(j, seq!["tools"@])
    &&& member(j, 0) matches Json::Array(items) && items@.len() == tools.len() && forall|i: int|
        0 <= i < tools.len() ==> #[trigger] tool_json_is(items@[i], tools[i])
}

/// `j` is the wire form of the catalog entry `t`.
pub open spec fn tool_json_is(j: Json, t: Tool) -> bool {
    &&& has_keys(j, seq!["name"@, "description"@, "input_schema"@])
    &&& member(j, 0) == Json::Str(t.name)
    &&& member(j, 1) == Json::Str(t.description)
    &&& member(j, 2) == t.input_schema
}

fn tool_json(t: Tool) -> (j: Json)
    ensures
        tool_json_is(j, t),
{
    Json::Object(
        vec![
            entry("name", Json::Str(t.name)),
            entry("description", Json::Str(t.description)),
            entry("input_schema", t.input_schema),
        ],
    )
}

/// Wire form of a tool listing.
pub fn tools_list_json(tools: Vec<Tool>) -> (j: Json)
    ensures
        tools_list_json_is(j, tools@),
{
    let ghost all = tools@;
    let mut rest = tools;
    let mut items: Vec<Json> = Vec::new();
    while rest.len() > 0
        invariant
            items@.len() + rest@.len() == all.len(),
            rest@ == all.subrange(items@.len() as int, all.len() as int),
            forall|k: int| 0 <= k < items@.len() ==> #[trigger] tool_json_is(items@[k], all[k]),
        decreases rest@.len(),
    {
        let t = rest.remove(0);
        items.push(tool_json(t));
    }
    Json::Object(vec![entry("tools", Json::Array(items))])
}

} // verus!
