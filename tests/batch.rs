use affinity_mcp::action::{Action, ActionStatus, MAX_PARALLEL};
use affinity_mcp::affinity::{
    batch_export, batch_export_actions, batch_open_actions, batch_open_files, open_file,
    AffinityApp, BatchExportParams, BatchOpenFilesParams, ExportFormat, ExportParams,
    OpenFileParams,
};

fn paths(n: usize) -> Vec<String> {
    (0..n).map(|i| format!("/work/item{i}.afphoto")).collect()
}

fn done() -> ActionStatus {
    ActionStatus::Done(String::new())
}

fn failed() -> ActionStatus {
    ActionStatus::Failed("boom".to_string())
}

#[test]
fn batch_open_keeps_input_order() {
    let ps = paths(5);
    let params = BatchOpenFilesParams { paths: ps.clone(), app: None };
    let statuses = vec![failed(), done(), failed(), done(), done()];
    let r = batch_open_files(params, statuses);
    assert_eq!(r.results.len(), 5);
    for (i, res) in r.results.iter().enumerate() {
        assert_eq!(res.path, ps[i]);
        assert_eq!(res.opened, i % 2 == 1 || i == 4);
    }
}

#[test]
fn batch_open_truncates_to_limit() {
    let ps = paths(MAX_PARALLEL + 4);
    let params = BatchOpenFilesParams { paths: ps.clone(), app: Some(AffinityApp::Designer) };
    let actions = batch_open_actions(&params);
    assert_eq!(actions.len(), 16);
    for (i, a) in actions.iter().enumerate() {
        match a {
            Action::Open { app, path } => {
                assert_eq!(path, &ps[i]);
                assert_eq!(app, "Affinity Designer");
            }
            other => panic!("unexpected {other:?}"),
        }
    }
    let r = batch_open_files(params, (0..16).map(|_| done()).collect());
    assert_eq!(r.results.len(), 16);
    assert_eq!(r.success_count, 16);
    assert_eq!(r.failure_count, 0);
    assert_eq!(r.results[15].path, ps[15]);
}

#[test]
fn batch_of_exactly_limit_runs_whole() {
    let params = BatchOpenFilesParams { paths: paths(16), app: None };
    assert_eq!(batch_open_actions(&params).len(), 16);
}

#[test]
fn empty_batch_has_no_results() {
    let params = BatchOpenFilesParams { paths: vec![], app: None };
    assert_eq!(batch_open_actions(&params).len(), 0);
    let r = batch_open_files(params, vec![]);
    assert_eq!(r.results.len(), 0);
    assert_eq!(r.success_count, 0);
    assert_eq!(r.failure_count, 0);
}

#[test]
fn batch_counts_add_up() {
    let statuses = vec![done(), failed(), ActionStatus::Unavailable, done()];
    let r = batch_open_files(BatchOpenFilesParams { paths: paths(4), app: None }, statuses);
    assert_eq!(r.success_count, 2);
    assert_eq!(r.failure_count, 2);
    assert_eq!(r.success_count + r.failure_count, r.results.len());
}

#[test]
fn failing_item_does_not_change_others() {
    let ps = paths(3);
    let with_failure = batch_open_files(
        BatchOpenFilesParams { paths: ps.clone(), app: None },
        vec![done(), failed(), done()],
    );
    for i in [0usize, 2] {
        let alone = open_file(OpenFileParams { path: ps[i].clone(), app: None }, done());
        assert_eq!(with_failure.results[i].opened, alone.opened);
        assert_eq!(with_failure.results[i].app, alone.app);
        assert_eq!(with_failure.results[i].path, alone.path);
    }
    assert!(!with_failure.results[1].opened);
    assert_eq!(with_failure.results[1].path, ps[1]);
    assert_eq!(with_failure.results[1].app, "Affinity Photo");
}

#[test]
fn unavailable_actions_report_unsupported() {
    let r = batch_open_files(
        BatchOpenFilesParams { paths: paths(2), app: None },
        vec![ActionStatus::Unavailable, ActionStatus::Unavailable],
    );
    assert_eq!(r.failure_count, 2);
    assert_eq!(r.results[0].app, "Unsupported");
}

fn export_item(path: &str, quality: Option<u8>) -> ExportParams {
    ExportParams { path: path.to_string(), format: ExportFormat::Png, quality }
}

#[test]
fn batch_export_order_and_counts() {
    let params = BatchExportParams {
        exports: vec![export_item("/a.png", Some(50)), export_item("/b.png", None), export_item("/c.png", None)],
    };
    let actions = batch_export_actions(&params);
    assert_eq!(actions.len(), 3);
    match &actions[1] {
        Action::Export { path, format, quality } => {
            assert_eq!(path, "/b.png");
            assert_eq!(*format, ExportFormat::Png);
            assert_eq!(*quality, 90);
        }
        other => panic!("unexpected {other:?}"),
    }
    match &actions[0] {
        Action::Export { quality, .. } => assert_eq!(*quality, 50),
        other => panic!("unexpected {other:?}"),
    }
    let r = batch_export(params, vec![done(), failed(), done()]);
    assert_eq!(r.success_count, 2);
    assert_eq!(r.failure_count, 1);
    assert_eq!(r.results[1].path, "/b.png");
    assert!(!r.results[1].exported);
    assert!(r.results[2].exported);
}

#[test]
fn batch_export_truncates_to_limit() {
    let exports: Vec<ExportParams> = (0..18).map(|i| export_item(&format!("/o{i}.pdf"), None)).collect();
    let params = BatchExportParams { exports };
    assert_eq!(batch_export_actions(&params).len(), 16);
    let r = batch_export(params, (0..16).map(|_| failed()).collect());
    assert_eq!(r.results.len(), 16);
    assert_eq!(r.failure_count, 16);
    assert_eq!(r.results[15].path, "/o15.pdf");
}
