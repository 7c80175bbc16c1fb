use upload_ingest::naming::{artifact_name, destination_path};
use upload_ingest::sanitizer::{placeholder_name, sanitize};

fn assert_safe(s: &str) {
    assert!(!s.is_empty());
    assert!(!s.chars().all(|c| c == '.'));
    assert!(!s.contains('/'));
    assert!(!s.contains('\\'));
    assert!(!s.contains('\0'));
}

#[test]
fn sanitize_removes_parent_references_and_separators() {
    for raw in ["../../etc/passwd", "..\\..\\windows", "a/b\\c", "x\0y", "..", ".", "/", "./..", " .. "] {
        let s = sanitize(raw);
        assert_safe(&s);
        let joined = format!("./uploads/{}", s);
        assert_eq!(joined.matches('/').count(), 2);
    }
}

#[test]
fn sanitize_exact_values() {
    assert_eq!(sanitize("../../etc/passwd"), "....etcpasswd");
    assert_eq!(sanitize("a/b\\c"), "abc");
    assert_eq!(sanitize("x\0y"), "xy");
    assert_eq!(sanitize("report.PDF"), "report.PDF");
}

#[test]
fn sanitize_empty_and_dots_fall_back_to_placeholder() {
    assert_eq!(placeholder_name(), "unnamed_file");
    assert_eq!(sanitize(""), "unnamed_file");
    assert_eq!(sanitize(".."), "unnamed_file");
    assert_eq!(sanitize("/"), "unnamed_file");
    assert_eq!(sanitize(" .. "), "unnamed_file");
    assert_eq!(sanitize("   "), "unnamed_file");
}

#[test]
fn sanitize_trims_surrounding_spaces() {
    assert_eq!(sanitize("  my file.txt  "), "my file.txt");
}

#[test]
fn name_round_trip_example() {
    assert_eq!(artifact_name(Some("report.PDF"), "42", "final"), "report-42-final.PDF");
}

#[test]
fn name_without_extension() {
    assert_eq!(artifact_name(Some("README"), "7", "draft"), "README-7-draft");
    assert_eq!(artifact_name(Some(".bashrc"), "7", "draft"), ".bashrc-7-draft");
}

#[test]
fn name_splits_at_last_dot() {
    assert_eq!(artifact_name(Some("archive.tar.gz"), "1", "raw"), "archive.tar-1-raw.gz");
    assert_eq!(artifact_name(Some("notes."), "1", "raw"), "notes-1-raw.");
}

#[test]
fn name_without_declared_file_uses_placeholder() {
    assert_eq!(artifact_name(None, "42", "final"), "unnamed_file-42-final");
}

#[test]
fn name_sanitizes_each_part() {
    let n = artifact_name(Some("../../x.txt"), "../id", "a/b");
    assert_eq!(n, "....x-..id-ab.txt");
    assert_safe(&n);
    let m = artifact_name(Some("data.bin"), "", "..");
    assert_eq!(m, "data-unnamed_file-unnamed_file.bin");
}

#[test]
fn name_with_extension_ends_in_it_and_holds_both_ids() {
    let n = artifact_name(Some("photo.jpeg"), "user 9", "avatar");
    assert!(n.ends_with(".jpeg"));
    assert!(n.contains("-user 9-avatar."));
}

#[test]
fn destination_joins_root_and_name() {
    assert_eq!(destination_path("./uploads", "a-1-b.txt"), "./uploads/a-1-b.txt");
}
