use rcloc::aggregate::aggregate;
use rcloc::analyzer::analyze_lines;
use rcloc::profile::LanguageProfile;
use rcloc::stats::FileStats;

fn fs(files: u64, blank: u64, comment: u64, code: u64) -> FileStats {
    FileStats {
        files,
        blank_lines: blank,
        comment_lines: comment,
        code_lines: code,
    }
}

fn rust_like() -> LanguageProfile {
    LanguageProfile {
        name: "Rust".to_string(),
        extensions: vec![b"rs".to_vec()],
        line_comments: vec![b"//".to_vec()],
        block_starts: vec![b"/*".to_vec()],
        block_ends: vec![b"*/".to_vec()],
    }
}

#[test]
fn addition_is_commutative() {
    let a = fs(1, 2, 3, 4);
    let b = fs(5, 6, 7, 8);
    assert_eq!(a.add(b), b.add(a));
}

#[test]
fn addition_is_associative() {
    let a = fs(1, 2, 3, 4);
    let b = fs(5, 6, 7, 8);
    let c = fs(9, 10, 11, 12);
    assert_eq!(a.add(b).add(c), a.add(b.add(c)));
}

#[test]
fn zero_is_identity() {
    let a = fs(3, 1, 4, 1);
    assert_eq!(a.add(FileStats::zero()), a);
    assert_eq!(FileStats::zero().add(a), a);
}

#[test]
fn aggregate_groups_by_language() {
    let results = vec![
        (0usize, fs(1, 1, 0, 9)),
        (1usize, fs(1, 0, 2, 5)),
        (0usize, fs(1, 3, 1, 2)),
    ];
    let totals = aggregate(&results, 3);
    assert_eq!(totals.len(), 3);
    assert_eq!(totals[0], fs(2, 4, 1, 11));
    assert_eq!(totals[1], fs(1, 0, 2, 5));
    assert_eq!(totals[2], fs(0, 0, 0, 0));
}

#[test]
fn aggregate_is_order_independent() {
    let a = (0usize, fs(1, 1, 0, 9));
    let b = (1usize, fs(1, 0, 2, 5));
    let c = (0usize, fs(1, 3, 1, 2));
    let one = aggregate(&vec![a, b, c], 2);
    let two = aggregate(&vec![c, a, b], 2);
    let three = aggregate(&vec![b, c, a], 2);
    assert_eq!(one, two);
    assert_eq!(one, three);
}

#[test]
fn aggregate_of_split_parts_matches_whole() {
    let a = (0usize, fs(1, 1, 0, 9));
    let b = (1usize, fs(1, 0, 2, 5));
    let c = (0usize, fs(1, 3, 1, 2));
    let whole = aggregate(&vec![a, b, c], 2);
    let left = aggregate(&vec![a], 2);
    let right = aggregate(&vec![b, c], 2);
    let merged: Vec<FileStats> = left
        .iter()
        .zip(right.iter())
        .map(|(x, y)| x.add(*y))
        .collect();
    assert_eq!(whole, merged);
}

#[test]
fn dropped_file_contributes_nothing() {
    // A file whose analysis failed never enters the result list, so no
    // counter moves for it, not even the file count.
    let with_failure_dropped = vec![(0usize, fs(1, 1, 1, 1))];
    let totals = aggregate(&with_failure_dropped, 1);
    assert_eq!(totals[0], fs(1, 1, 1, 1));
    let none: Vec<(usize, FileStats)> = vec![];
    let empty = aggregate(&none, 1);
    assert_eq!(empty[0], FileStats::zero());
}

#[test]
fn line_coverage_adds_up() {
    let p = rust_like();
    let lines: Vec<Vec<u8>> = vec![
        b"fn main() {".to_vec(),
        b"".to_vec(),
        b"    // call".to_vec(),
        b"    go(); /* later".to_vec(),
        b"    more comment".to_vec(),
        b"    end */".to_vec(),
        b"}".to_vec(),
    ];
    let stats = analyze_lines(&p, &lines);
    assert_eq!(stats.files, 1);
    assert_eq!(
        stats.blank_lines + stats.comment_lines + stats.code_lines,
        lines.len() as u64
    );
}

#[test]
fn analyze_counts_each_category() {
    let p = rust_like();
    let lines: Vec<Vec<u8>> = vec![
        b"// header".to_vec(),
        b"".to_vec(),
        b"let x = 1;".to_vec(),
        b"let y = 2; // note".to_vec(),
    ];
    let stats = analyze_lines(&p, &lines);
    assert_eq!(stats, fs(1, 1, 1, 2));
}

#[test]
fn analyze_empty_file() {
    let p = rust_like();
    let stats = analyze_lines(&p, &vec![]);
    assert_eq!(stats, fs(1, 0, 0, 0));
}
