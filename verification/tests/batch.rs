use search_cli::batch::{
    decide_download, run_batch, DownloadOutcome, FetchEvent, Progress,
};
use search_cli::results::SearchResult;

fn result(title: &str) -> SearchResult {
    SearchResult {
        title: title.to_string(),
        link: format!("https://example.org/{}", title),
        description: format!("about {}", title),
    }
}

#[test]
fn accepted_item_gets_path_from_extension() {
    let o = decide_download(
        &"Photo".to_string(),
        &FetchEvent::Fetched {
            content_type: Some("image/png".to_string()),
        },
        false,
        &"out".to_string(),
    );
    match o {
        DownloadOutcome::Accepted { path, extension } => {
            assert_eq!(path, "out/Photo.png");
            assert_eq!(extension, "png");
        }
        _ => panic!("expected the png item to be accepted"),
    }
}

#[test]
fn jpeg_subtype_is_not_on_the_allow_list() {
    // The allow-list holds "jpg", so the "jpeg" token extracted from
    // image/jpeg is only accepted under the unsafe override.
    let event = FetchEvent::Fetched {
        content_type: Some("image/jpeg".to_string()),
    };
    let o = decide_download(&"Photo".to_string(), &event, false, &"out".to_string());
    assert!(matches!(o, DownloadOutcome::Rejected));
    let o = decide_download(&"Photo".to_string(), &event, true, &"out".to_string());
    assert!(matches!(
        o,
        DownloadOutcome::Accepted { path, .. } if path == "out/Photo.jpeg"
    ));
}

#[test]
fn disallowed_content_type_is_skipped_without_unsafe() {
    let o = decide_download(
        &"Page".to_string(),
        &FetchEvent::Fetched {
            content_type: Some("text/html".to_string()),
        },
        false,
        &"out".to_string(),
    );
    assert!(matches!(o, DownloadOutcome::Rejected));
}

#[test]
fn unsafe_mode_writes_html_despite_allow_list() {
    let o = decide_download(
        &"Page".to_string(),
        &FetchEvent::Fetched {
            content_type: Some("text/html".to_string()),
        },
        true,
        &"out".to_string(),
    );
    match o {
        DownloadOutcome::Accepted { path, extension } => {
            assert_eq!(path, "out/Page.html");
            assert_eq!(extension, "html");
        }
        _ => panic!("expected unsafe mode to accept the html item"),
    }
}

#[test]
fn failed_fetch_becomes_item_failure() {
    let o = decide_download(
        &"Gone".to_string(),
        &FetchEvent::Failed {
            message: "connection refused".to_string(),
        },
        false,
        &".".to_string(),
    );
    match o {
        DownloadOutcome::Failed { message } => assert_eq!(message, "connection refused"),
        _ => panic!("expected a failed fetch to record a failure"),
    }
}

#[test]
fn missing_content_type_is_item_failure_not_abort() {
    let o = decide_download(
        &"Odd".to_string(),
        &FetchEvent::Fetched { content_type: None },
        false,
        &".".to_string(),
    );
    match o {
        DownloadOutcome::Failed { message } => {
            assert_eq!(message, "missing content-type header")
        }
        _ => panic!("expected a missing header to record a failure"),
    }
}

#[test]
fn batch_records_one_outcome_per_result_despite_failures() {
    let results = vec![result("a"), result("b"), result("c"), result("d")];
    let events = vec![
        FetchEvent::Failed {
            message: "timeout".to_string(),
        },
        FetchEvent::Fetched {
            content_type: Some("application/pdf".to_string()),
        },
        FetchEvent::Failed {
            message: "dns error".to_string(),
        },
        FetchEvent::Fetched {
            content_type: Some("text/html".to_string()),
        },
    ];
    let report = run_batch(&results, &events, false, &"files".to_string());
    assert_eq!(report.outcomes.len(), 4);
    assert_eq!(report.progress.done, 4);
    assert_eq!(report.progress.total, 4);
    assert!(report.progress.is_finished());
    assert!(matches!(&report.outcomes[0], DownloadOutcome::Failed { message } if message == "timeout"));
    assert!(matches!(&report.outcomes[1], DownloadOutcome::Accepted { path, .. } if path == "files/b.pdf"));
    assert!(matches!(&report.outcomes[2], DownloadOutcome::Failed { message } if message == "dns error"));
    assert!(matches!(&report.outcomes[3], DownloadOutcome::Rejected));
}

#[test]
fn batch_of_nothing_is_finished_at_once() {
    let report = run_batch(&Vec::new(), &Vec::new(), false, &".".to_string());
    assert!(report.outcomes.is_empty());
    assert_eq!(report.progress.done, 0);
    assert!(report.progress.is_finished());
}

#[test]
fn progress_advances_once_per_item() {
    let mut p = Progress::new(2);
    assert_eq!(p.done, 0);
    assert!(!p.is_finished());
    p.inc();
    assert_eq!(p.done, 1);
    assert!(!p.is_finished());
    p.inc();
    assert_eq!(p.done, 2);
    assert!(p.is_finished());
}
