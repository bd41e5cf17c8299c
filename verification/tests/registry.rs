//! Registry of call statistics.
use std::collections::HashMap;

use graftx::obs::{CallStats, ObsRegistry};

#[test]
fn snapshot_reports_per_api_counts() {
    let mut registry = ObsRegistry::new();
    registry.record("NtCreateFile", 10, 20);
    registry.record("NtCreateFile", 5, 7);
    registry.record("NtClose", 1, 0);

    let snapshot: HashMap<&str, CallStats> = registry.snapshot().into_iter().collect();
    assert_eq!(snapshot.len(), 2);
    assert_eq!(
        snapshot["NtCreateFile"],
        CallStats {
            calls: 2,
            bytes_out: 15,
            bytes_in: 27,
        }
    );
    assert_eq!(
        snapshot["NtClose"],
        CallStats {
            calls: 1,
            bytes_out: 1,
            bytes_in: 0,
        }
    );
}

#[test]
fn total_merges_all_apis() {
    let mut registry = ObsRegistry::new();
    registry.record("NtCreateFile", 10, 20);
    registry.record("NtCreateFile", 5, 7);
    registry.record("NtClose", 1, 3);

    assert_eq!(
        registry.total(),
        CallStats {
            calls: 3,
            bytes_out: 16,
            bytes_in: 30,
        }
    );
}

#[test]
fn total_of_empty_registry_is_default() {
    let registry = ObsRegistry::new();
    assert_eq!(registry.total(), CallStats::default());
    assert!(registry.snapshot().is_empty());
}

#[test]
fn report_renders_sorted_table_with_total() {
    let mut registry = ObsRegistry::new();
    registry.record("NtCreateFile", 10, 20);
    registry.record("NtCreateFile", 5, 7);
    registry.record("NtClose", 1, 3);

    let report = registry.report();

    assert!(
        report.contains("| API | Calls | Bytes Out | Bytes In |"),
        "report is missing the header:\n{report}"
    );
    assert!(
        report.contains("| NtCreateFile | 2 | 15 | 27 |"),
        "report is missing the NtCreateFile row:\n{report}"
    );
    assert!(
        report.contains("| NtClose | 1 | 1 | 3 |"),
        "report is missing the NtClose row:\n{report}"
    );
    assert!(
        report.contains("| TOTAL | 3 | 16 | 30 |"),
        "report is missing the TOTAL row:\n{report}"
    );

    // Rows are sorted by API name and the TOTAL row comes last.
    let ntclose = report.find("| NtClose |").expect("NtClose row present");
    let ntcreate = report
        .find("| NtCreateFile |")
        .expect("NtCreateFile row present");
    let total = report.find("| TOTAL |").expect("TOTAL row present");
    assert!(
        ntclose < ntcreate,
        "rows are not sorted by API name:\n{report}"
    );
    assert!(ntcreate < total, "TOTAL row is not last:\n{report}");
}

#[test]
fn report_of_empty_registry_has_header_and_zero_total() {
    let registry = ObsRegistry::new();
    let report = registry.report();

    assert!(
        report.contains("| API | Calls | Bytes Out | Bytes In |"),
        "empty report is missing the header:\n{report}"
    );
    assert!(
        report.contains("| TOTAL | 0 | 0 | 0 |"),
        "empty report is missing a zeroed TOTAL row:\n{report}"
    );
}

#[test]
fn rows_stand_in_the_order_of_names_each_once() {
    let mut registry = ObsRegistry::new();
    for api in ["vulkan", "core", "amf", "core", "cuda", "vulkan"] {
        registry.record(api, 2, 3);
    }
    let names: Vec<&str> = registry.snapshot().into_iter().map(|row| row.0).collect();
    assert_eq!(names, vec!["amf", "core", "cuda", "vulkan"]);
    assert_eq!(
        registry.total(),
        CallStats { calls: 6, bytes_out: 12, bytes_in: 18 }
    );
}

#[test]
fn report_is_exact() {
    let mut registry = ObsRegistry::new();
    registry.record("vulkan", 10, 20);
    registry.record("core", 1, 2);
    registry.record("vulkan", 30, 40);
    assert_eq!(
        registry.report(),
        "| API | Calls | Bytes Out | Bytes In |\n\
         | --- | --- | --- | --- |\n\
         | core | 1 | 1 | 2 |\n\
         | vulkan | 2 | 40 | 60 |\n\
         | TOTAL | 3 | 41 | 62 |\n"
    );
}
