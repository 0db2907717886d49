use atranscoder::cleanup::{cleanup_directory, is_expired, DirEntry, SWEEP_INTERVAL};

const SEC: u128 = 1_000_000_000;
const NOW: u128 = 1_700_000_000 * SEC;

fn file(name: &str, age_nanos: u128) -> DirEntry {
    DirEntry { name: name.to_string(), is_file: true, modified: Some(NOW - age_nanos) }
}

fn sweep(entries: &Vec<DirEntry>, ttl: u64) -> Vec<DirEntry> {
    let doomed = cleanup_directory(entries, NOW, ttl);
    entries
        .iter()
        .enumerate()
        .filter(|(i, _)| !doomed.contains(i))
        .map(|(_, e)| e.clone())
        .collect()
}

#[test]
fn sweeps_come_every_minute() {
    assert_eq!(SWEEP_INTERVAL, 60);
}

#[test]
fn stale_staging_file_goes_and_its_sibling_stays() {
    let entries = vec![file("foo.atranscoder", 3 * SEC), file("bar.txt", 3 * SEC)];
    assert_eq!(cleanup_directory(&entries, NOW, 2), vec![0]);
}

#[test]
fn exactly_the_stale_staging_files_are_picked() {
    let entries = vec![
        file("a.in.atranscoder", 10 * SEC),
        file("b.out.atranscoder", SEC),
        file("c.txt", 10 * SEC),
        DirEntry { name: "d.atranscoder".to_string(), is_file: false, modified: Some(0) },
        file("e.ATRANSCODER", 10 * SEC),
        DirEntry { name: "f.atranscoder".to_string(), is_file: true, modified: None },
        DirEntry { name: "g.atranscoder".to_string(), is_file: true, modified: Some(NOW + SEC) },
        file("h.out.atranscoder", 5 * SEC + 1),
    ];
    assert_eq!(cleanup_directory(&entries, NOW, 5), vec![0, 4, 7]);
}

#[test]
fn file_of_exactly_the_allowed_age_stays() {
    assert!(!is_expired(&file("x.atranscoder", 2 * SEC), NOW, 2));
    assert!(is_expired(&file("x.atranscoder", 2 * SEC + 1), NOW, 2));
    assert!(!is_expired(&file("x.atranscoder", 0), NOW, 0));
    assert!(is_expired(&file("x.atranscoder", 1), NOW, 0));
}

#[test]
fn longest_time_to_live_does_not_overflow() {
    let old = DirEntry { name: "x.atranscoder".to_string(), is_file: true, modified: Some(0) };
    assert!(!is_expired(&old, NOW, u64::MAX));
    assert!(is_expired(&old, u128::MAX, u64::MAX));
}

#[test]
fn empty_directory_has_nothing_to_sweep() {
    assert_eq!(cleanup_directory(&Vec::new(), NOW, 0), Vec::<usize>::new());
}

#[test]
fn second_sweep_finds_nothing() {
    let entries = vec![
        file("a.atranscoder", 10 * SEC),
        file("b.atranscoder", SEC),
        file("c.txt", 10 * SEC),
        file("d.atranscoder", 7 * SEC),
    ];
    let once = sweep(&entries, 5);
    assert_eq!(once, vec![file("b.atranscoder", SEC), file("c.txt", 10 * SEC)]);
    assert_eq!(cleanup_directory(&once, NOW, 5), Vec::<usize>::new());
    assert_eq!(sweep(&once, 5), once);
}

#[test]
fn later_sweep_leaves_what_it_would_leave_alone() {
    let entries = vec![
        file("a.atranscoder", 10 * SEC),
        file("b.atranscoder", 4 * SEC),
        file("c.txt", 10 * SEC),
        file("d.atranscoder", SEC),
    ];
    let later = NOW + 2 * SEC;
    let keep = |entries: &Vec<DirEntry>, now: u128| -> Vec<DirEntry> {
        let doomed = cleanup_directory(entries, now, 5);
        entries
            .iter()
            .enumerate()
            .filter(|(i, _)| !doomed.contains(i))
            .map(|(_, e)| e.clone())
            .collect()
    };
    let twice = keep(&keep(&entries, NOW), later);
    assert_eq!(twice, keep(&entries, later));
    assert_eq!(twice, vec![file("c.txt", 10 * SEC), file("d.atranscoder", SEC)]);
}
