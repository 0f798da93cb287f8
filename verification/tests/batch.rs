use nr_data_downloader::batch::{artifact_path, conclude, plan, request_url, Progress};
use nr_data_downloader::cache::{get_age_of_file, is_downloaded, CacheError};
use nr_data_downloader::fetcher::{Fetch, Reply};
use nr_data_downloader::identifier::normalize_nr;

#[test]
fn request_url_appends_the_identifier() {
    assert_eq!(request_url("https://api.example/nr/", "12345"), "https://api.example/nr/12345");
    assert_eq!(request_url("", "7"), "7");
    assert_eq!(request_url("http://h/", ""), "http://h/");
}

#[test]
fn artifact_path_is_folder_identifier_extension() {
    assert_eq!(artifact_path("./downloads/", "12345"), "./downloads/12345.json");
    assert_eq!(artifact_path("", "1"), "1.json");
    assert_eq!(artifact_path("out/", ""), "out/.json");
}

#[test]
fn absent_artifact_is_fetched() {
    assert_eq!(plan("12345", false, Err(CacheError::NotFound), 30), Progress::Fetching);
    assert_eq!(plan("12345", false, Ok(0), 30), Progress::Fetching);
}

#[test]
fn present_artifact_is_skipped_until_it_is_old() {
    assert_eq!(plan("12345", true, Ok(0), 30), Progress::Skipped);
    assert_eq!(plan("12345", true, Ok(1), 30), Progress::Skipped);
    assert_eq!(plan("12345", true, Ok(30), 30), Progress::Skipped);
    assert_eq!(plan("12345", true, Ok(31), 30), Progress::Fetching);
    assert_eq!(plan("12345", true, Ok(-1), 30), Progress::Skipped);
    assert_eq!(plan("12345", true, Ok(1), 0), Progress::Fetching);
}

#[test]
fn match_without_artifact_is_fetched() {
    assert_eq!(plan("123", true, Err(CacheError::NotFound), 30), Progress::Fetching);
}

#[test]
fn empty_identifier_is_never_fetched() {
    assert_eq!(plan("", false, Err(CacheError::NotFound), 30), Progress::Skipped);
    assert_eq!(plan("", true, Err(CacheError::NotFound), 30), Progress::Skipped);
    assert_eq!(plan("", true, Ok(31), 30), Progress::Skipped);
    assert_eq!(plan(&normalize_nr("no numbers"), true, Ok(99), 30), Progress::Skipped);
}

#[test]
fn conclude_saves_what_is_not_empty() {
    assert_eq!(conclude("{}"), Progress::Saved);
    assert_eq!(conclude(" "), Progress::Saved);
    assert_eq!(conclude(""), Progress::FetchFailed);
}

/// One pass over the input on a disk kept in memory: the paths with their
/// modification times and contents. Returns the number of requests made.
fn run_batch(
    input: &[&str],
    disk: &mut Vec<(String, i64, String)>,
    now: i64,
    response: &str,
) -> usize {
    let folder = "./downloads/";
    let mut requests = 0;
    for line in input {
        let nr = normalize_nr(line);
        let path = artifact_path(folder, &nr);
        let mut paths = vec![folder.to_string()];
        paths.extend(disk.iter().map(|entry| entry.0.clone()));
        let downloaded = is_downloaded(&paths, &nr);
        let modified = disk.iter().find(|entry| entry.0 == path).map(|entry| entry.1);
        let age = get_age_of_file(now, modified);
        if plan(&nr, downloaded, age, 30) == Progress::Fetching {
            requests += 1;
            assert_eq!(request_url("http://api/", &nr), format!("http://api/{}", nr));
            let (fetch, _) =
                Fetch::start().advance(Reply::Answered { status: 200, elapsed: 10 }, 20_000);
            let body = fetch.result(response.to_string());
            if conclude(&body) == Progress::Saved {
                disk.retain(|entry| entry.0 != path);
                disk.push((path, now, body));
            }
        }
    }
    requests
}

#[test]
fn end_to_end_two_identifiers() {
    let input = ["123-45", "678.90"];
    let mut disk: Vec<(String, i64, String)> = Vec::new();
    let now: i64 = 1_700_000_000;
    let body = "{\"status\":\"ok\"}";

    assert_eq!(run_batch(&input, &mut disk, now, body), 2);
    let names: Vec<&str> = disk.iter().map(|entry| entry.0.as_str()).collect();
    assert_eq!(names, vec!["./downloads/12345.json", "./downloads/67890.json"]);
    assert!(disk.iter().all(|entry| entry.2 == body));

    assert_eq!(run_batch(&input, &mut disk, now, body), 0);
    assert_eq!(disk.len(), 2);
}

#[test]
fn end_to_end_refetches_old_artifacts_only() {
    let input = ["123-45", "678.90"];
    let mut disk: Vec<(String, i64, String)> = Vec::new();
    let day: i64 = 86400;
    let now: i64 = 1_700_000_000;
    assert_eq!(run_batch(&input[..1], &mut disk, now, "first"), 1);
    assert_eq!(run_batch(&input, &mut disk, now + 31 * day - 1, "second"), 1);
    assert_eq!(disk[0].2, "first");
    assert_eq!(disk[1].2, "second");
    assert_eq!(run_batch(&input, &mut disk, now + 31 * day, "third"), 1);
    let first = disk.iter().find(|entry| entry.0 == "./downloads/12345.json").unwrap();
    assert_eq!(first.2, "third");
    assert_eq!(first.1, now + 31 * day);
}

#[test]
fn end_to_end_empty_body_writes_nothing() {
    let mut disk: Vec<(String, i64, String)> = Vec::new();
    assert_eq!(run_batch(&["42"], &mut disk, 1_700_000_000, ""), 1);
    assert!(disk.is_empty());
    assert_eq!(run_batch(&["42", "", "none"], &mut disk, 1_700_000_000, ""), 1);
    assert!(disk.is_empty());
}
