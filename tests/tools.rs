use affinity_mcp::action::{Action, ActionStatus};
use affinity_mcp::affinity::{
    apply_filter, close_document, create_new, create_new_action, detect_app_from_path,
    draw_pikachu, draw_pikachu_action, draw_shape_result, get_active_document,
    open_file, open_file_action, parse_active_document, probe_found, AffinityApp, ApplyFilterParams,
    CreateNewParams, DrawPikachuParams, OpenFileParams, ShapeType,
};
use affinity_mcp::args::{decode_create_new, decode_export, decode_open_file};
use affinity_mcp::canva::{create_design, design_id_for, CreateDesignIn};
use affinity_mcp::json::Json;
use affinity_mcp::text::{contains_text, has_suffix};
use affinity_mcp::picture::{decimal_text, fixed_text, generate_pikachu_svg, signed_text};

fn s(x: &str) -> Json {
    Json::Str(x.to_string())
}

fn obj(entries: Vec<(&str, Json)>) -> Json {
    Json::Object(entries.into_iter().map(|(k, v)| (k.to_string(), v)).collect())
}

#[test]
fn app_names() {
    assert_eq!(AffinityApp::Photo.app_name(), "Affinity Photo");
    assert_eq!(AffinityApp::Designer.app_name(), "Affinity Designer");
    assert_eq!(AffinityApp::Publisher.app_name(), "Affinity Publisher");
}

#[test]
fn detect_app_by_extension() {
    assert_eq!(detect_app_from_path("/x/a.afphoto"), "Affinity Photo");
    assert_eq!(detect_app_from_path("/x/a.afdesign"), "Affinity Designer");
    assert_eq!(detect_app_from_path("/x/a.afpub"), "Affinity Publisher");
    assert_eq!(detect_app_from_path("/x/a.png"), "Affinity Photo");
    assert_eq!(detect_app_from_path(""), "Affinity Photo");
}

#[test]
fn detect_app_ignores_case() {
    assert_eq!(detect_app_from_path("/X/Poster.AFDESIGN"), "Affinity Designer");
    assert_eq!(detect_app_from_path("Book.AfPub"), "Affinity Publisher");
}

#[test]
fn suffix_check() {
    assert!(has_suffix("abc.afpub", ".afpub"));
    assert!(!has_suffix("pub", ".afpub"));
    assert!(has_suffix("x", ""));
    assert!(contains_text("an error occurred", "error"));
    assert!(!contains_text("fine", "error"));
}

#[test]
fn open_file_targets_explicit_or_inferred_app() {
    let p = OpenFileParams { path: "/d/a.afpub".to_string(), app: None };
    match open_file_action(&p) {
        Action::Open { app, path } => {
            assert_eq!(app, "Affinity Publisher");
            assert_eq!(path, "/d/a.afpub");
        }
        other => panic!("unexpected {other:?}"),
    }
    let p = OpenFileParams { path: "/d/a.afpub".to_string(), app: Some(AffinityApp::Photo) };
    let r = open_file(p, ActionStatus::Done(String::new()));
    assert!(r.opened);
    assert_eq!(r.app, "Affinity Photo");
    assert_eq!(r.path, "/d/a.afpub");
}

#[test]
fn open_file_failure_keeps_path() {
    let p = OpenFileParams { path: "/d/b.afdesign".to_string(), app: None };
    let r = open_file(p, ActionStatus::Failed("no such file".to_string()));
    assert!(!r.opened);
    assert_eq!(r.app, "Affinity Designer");
    assert_eq!(r.path, "/d/b.afdesign");
}

#[test]
fn open_file_unavailable() {
    let p = OpenFileParams { path: "/d/c".to_string(), app: None };
    let r = open_file(p, ActionStatus::Unavailable);
    assert!(!r.opened);
    assert_eq!(r.app, "Unsupported");
    assert_eq!(r.path, "/d/c");
}

#[test]
fn create_new_defaults() {
    let p = CreateNewParams { app: AffinityApp::Designer, width: None, height: Some(600) };
    match create_new_action(&p) {
        Action::CreateDocument { app, width, height } => {
            assert_eq!(app, "Affinity Designer");
            assert_eq!(width, 1920);
            assert_eq!(height, 600);
        }
        other => panic!("unexpected {other:?}"),
    }
    let r = create_new(p, ActionStatus::Unavailable);
    assert!(!r.created);
    assert_eq!(r.app, "Unsupported");
}

#[test]
fn active_document_parsing() {
    let d = parse_active_document("||");
    assert!(!d.is_open && d.name.is_none() && d.path.is_none());
    let d = parse_active_document("Poster|/p/poster.afdesign");
    assert!(d.is_open);
    assert_eq!(d.name.as_deref(), Some("Poster"));
    assert_eq!(d.path.as_deref(), Some("/p/poster.afdesign"));
    let d = parse_active_document("Untitled");
    assert_eq!(d.name.as_deref(), Some("Untitled"));
    assert!(d.path.is_none());
    let d = parse_active_document("a|b|c");
    assert_eq!(d.name.as_deref(), Some("a"));
    assert_eq!(d.path.as_deref(), Some("b"));
    let d = get_active_document(ActionStatus::Failed("x".to_string()));
    assert!(!d.is_open);
}

#[test]
fn simple_results() {
    let r = apply_filter(
        ApplyFilterParams { filter_name: "blur".to_string(), intensity: Some(30) },
        ActionStatus::Done(String::new()),
    );
    assert!(r.applied);
    assert_eq!(r.filter_name, "blur");
    assert!(!close_document(ActionStatus::Unavailable).closed);
    let r = draw_shape_result(ShapeType::Ellipse, ActionStatus::Unavailable);
    assert!(!r.drawn);
    assert_eq!(r.shape_type, "Ellipse");
}

#[test]
fn draw_defaults_and_result() {
    let p = DrawPikachuParams { output_path: None, width: None, height: Some(400) };
    match draw_pikachu_action(&p) {
        Action::DrawPicture { output_path, width, height } => {
            assert!(output_path.is_none());
            assert_eq!(width, 800);
            assert_eq!(height, 400);
        }
        other => panic!("unexpected {other:?}"),
    }
    let r = draw_pikachu(ActionStatus::Done("/tmp/pikachu.svg".to_string()));
    assert!(r.created);
    assert_eq!(r.file_path, "/tmp/pikachu.svg");
    assert_eq!(r.app, "Affinity Photo/Designer");
    let r = draw_pikachu(ActionStatus::Unavailable);
    assert!(!r.created);
    assert_eq!(r.file_path, "");
    assert_eq!(r.app, "Unsupported");
}

#[test]
fn decode_rejects_malformed_members() {
    let bad_quality = obj(vec![("path", s("/o.png")), ("format", s("png")), ("quality", Json::UInt(300))]);
    assert!(decode_export(&bad_quality).is_none());
    let good = obj(vec![("path", s("/o.png")), ("format", s("tiff")), ("quality", Json::Null)]);
    let e = decode_export(&good).unwrap();
    assert_eq!(e.path, "/o.png");
    assert!(e.quality.is_none());
    let bad_app = obj(vec![("path", s("/a")), ("app", s("Photoshop"))]);
    assert!(decode_open_file(&bad_app).is_none());
    let missing_path = obj(vec![("app", s("Photo"))]);
    assert!(decode_open_file(&missing_path).is_none());
    let negative = obj(vec![("app", s("Photo")), ("width", Json::Int(-1))]);
    assert!(decode_create_new(&negative).is_none());
    let fractional = obj(vec![("app", s("Photo")), ("width", Json::Float("1.5".to_string()))]);
    assert!(decode_create_new(&fractional).is_none());
    let ok = obj(vec![("app", s("Publisher")), ("width", Json::UInt(640)), ("extra", Json::Bool(true))]);
    let c = decode_create_new(&ok).unwrap();
    assert_eq!(c.app, AffinityApp::Publisher);
    assert_eq!(c.width, Some(640));
    assert!(decode_open_file(&Json::Null).is_none());
}

#[test]
fn json_lookup_takes_first_member() {
    let j = obj(vec![("k", Json::UInt(1)), ("k", Json::UInt(2))]);
    assert!(matches!(j.get("k"), Some(Json::UInt(1))));
    assert!(j.get("missing").is_none());
    assert!(Json::Null.get("k").is_none());
}

#[test]
fn design_ids() {
    assert_eq!(design_id_for("abc"), "demo-abc");
    let a = create_design(CreateDesignIn { title: "t".to_string(), template_id: None, width: None, height: None });
    let b = create_design(CreateDesignIn { title: "t".to_string(), template_id: None, width: None, height: None });
    assert_eq!(a.design_id.len(), 41);
    assert!(a.design_id.starts_with("demo-"));
    assert!(a.url.is_none());
    assert_ne!(a.design_id, b.design_id);
}

#[test]
fn fixed_point_text() {
    assert_eq!(decimal_text(0), "0");
    assert_eq!(decimal_text(1920), "1920");
    assert_eq!(fixed_text(0), "0");
    assert_eq!(fixed_text(800), "1");
    assert_eq!(fixed_text(1), "0.00125");
    assert_eq!(fixed_text(400 * 800 + 400), "400.5");
    assert_eq!(signed_text(-1200), "-1.5");
}

#[test]
fn picture_follows_canvas_size() {
    let svg = generate_pikachu_svg(800, 800);
    assert!(svg.starts_with("<?xml version=\"1.0\" encoding=\"UTF-8\"?>\n<svg width=\"800\" height=\"800\""));
    assert!(svg.contains("<ellipse cx=\"400\" cy=\"450\" rx=\"180\" ry=\"200\" fill=\"#FFD700\" stroke=\"#000000\" stroke-width=\"3\"/>"));
    assert!(svg.ends_with("</svg>"));
    let small = generate_pikachu_svg(100, 100);
    assert!(small.contains("<ellipse cx=\"50\" cy=\"56.25\" rx=\"22.5\" ry=\"25\""));
    let wide = generate_pikachu_svg(1600, 800);
    assert!(wide.contains("<circle cx=\"800\" cy=\"320\" r=\"150\""));
}

#[test]
fn process_probe_reading() {
    assert!(probe_found("Affinity Photo"));
    assert!(!probe_found(""));
    assert!(!probe_found("false"));
    assert!(!probe_found("execution error: not allowed"));
}
