use daymural::catalogue::ImageEntry;
use daymural::fetch::{
    replaced_file, select_downloads, usable_existing_file, Archive, ArchiveImage, BingImage,
    Downloads, FetchRun, Listed, RefreshBatch,
};
use daymural::schedule::download_horizon;
use std::path::PathBuf;

/// The dates of archive position `position`: newest first, position `i` dated
/// `2026-08-(07-i)`.
fn window_day(position: usize) -> (String, String) {
    let day = 7 - position;
    (format!("202608{day:02}"), format!("202608{day:02}0700"))
}

fn archive_image(position: usize, name: &str, wp: bool) -> ArchiveImage {
    let (startdate, fullstartdate) = window_day(position);
    ArchiveImage {
        position,
        image: BingImage {
            startdate,
            fullstartdate,
            urlbase: format!("/th?id=OHR.{name}"),
            copyright: "x (© y)".to_owned(),
            copyrightlink: "https://example.com".to_owned(),
            wp: Some(wp),
        },
    }
}

#[test]
fn select_downloads_takes_the_horizon_or_exactly_one_fallback() {
    let urlbases = |slots: &[&ArchiveImage]| -> Vec<String> {
        slots.iter().map(|s| s.image.urlbase.clone()).collect()
    };
    let all = |h: u8, fallback: bool| Downloads { horizon: h, fallback };

    // Newest eligible: the horizon is served, nothing beyond it.
    let eligible = vec![
        archive_image(0, "A", true),
        archive_image(1, "B", true),
        archive_image(5, "F", true),
    ];
    let sel = select_downloads(&eligible, all(2, true));
    assert_eq!(urlbases(&sel.in_window), ["/th?id=OHR.A", "/th?id=OHR.B"]);
    assert!(sel.fallback.is_none(), "a served horizon never falls back");

    // Several older eligible images beyond an empty horizon: only the newest
    // one of them is the fallback.
    let eligible = vec![
        archive_image(3, "D", true),
        archive_image(4, "E", true),
        archive_image(7, "H", true),
    ];
    let sel = select_downloads(&eligible, all(1, true));
    assert!(sel.in_window.is_empty());
    assert_eq!(sel.fallback.map(|s| s.position), Some(3));

    // Auto-apply suppressed (foreign wallpaper): no fallback at all.
    let sel = select_downloads(&eligible, all(1, false));
    assert!(sel.in_window.is_empty());
    assert!(sel.fallback.is_none());

    // Nothing eligible anywhere.
    let nothing: Vec<ArchiveImage> = Vec::new();
    let sel = select_downloads(&nothing, all(8, true));
    assert!(sel.in_window.is_empty() && sel.fallback.is_none());

    // Endless or long retention considers the whole window, so a position-7
    // image is in-window, not a fallback.
    let sel = select_downloads(&eligible, all(download_horizon(0), true));
    assert_eq!(sel.in_window.len(), 3);
    assert!(sel.fallback.is_none());
}

/// An eight-entry archive; `eligible` names the usable positions.
fn window(eligible: &[usize]) -> Archive {
    Archive {
        eligible: eligible
            .iter()
            .map(|i| archive_image(*i, &format!("Pos{i}_ROW{i}"), true))
            .collect(),
        ineligible: (0..8)
            .filter(|i| !eligible.contains(i))
            .map(|i| format!("/th?id=OHR.Pos{i}_ROW{i}"))
            .collect(),
        anchor: "202608070700".to_owned(),
    }
}

fn entry(image: &BingImage, path: &str) -> ImageEntry {
    ImageEntry {
        urlbase: image.urlbase.clone(),
        startdate: image.startdate.clone(),
        fullstartdate: image.fullstartdate.clone(),
        title: "x".to_owned(),
        copyright: "© y".to_owned(),
        copyrightlink: image.copyrightlink.clone(),
        filename: PathBuf::from(path),
    }
}

/// Runs a whole fetch. `held` lists the URL bases already on disk as usable
/// images. Returns the URL bases asked for, and the batch.
fn run(
    archive: Archive,
    downloads: Downloads,
    deferred: bool,
    held: &[&str],
) -> (Vec<String>, RefreshBatch) {
    let mut requests = Vec::new();
    let mut run = FetchRun::begin(archive, downloads, deferred);
    while let Some(place) = run.next_fetch() {
        let image = run.archive.eligible[place].image.clone();
        let existing = held
            .contains(&image.urlbase.as_str())
            .then_some(PathBuf::from(format!("/held{}", image.urlbase)));
        let usable = existing.is_some();
        let path = match usable_existing_file(existing, usable) {
            Ok(path) => path,
            Err(_) => {
                requests.push(image.urlbase.clone());
                PathBuf::from(format!("/fresh{}", image.urlbase))
            }
        };
        run.accept(entry(&image, path.to_str().unwrap()));
    }
    while let Some(place) = run.next_repair() {
        let image = run.archive.eligible[place].image.clone();
        let found = held
            .contains(&image.urlbase.as_str())
            .then(|| entry(&image, &format!("/held{}", image.urlbase)));
        run.repair(found);
    }
    (requests, run.finish())
}

fn within(horizon: u8) -> Downloads {
    Downloads { horizon, fallback: true }
}

#[test]
fn an_empty_horizon_fetches_only_the_newest_eligible_fallback() {
    let (requests, batch) = run(window(&[2, 5]), within(download_horizon(1)), false, &[]);
    assert_eq!(requests, ["/th?id=OHR.Pos2_ROW2"]);
    assert_eq!(batch.fallback, Some(PathBuf::from("/fresh/th?id=OHR.Pos2_ROW2")));
    assert_eq!(batch.fetched.len(), 1);
    assert_eq!(batch.ineligible.len(), 6, "every explicit false is carried");
    assert_eq!(batch.anchor, "202608070700");
}

#[test]
fn a_served_horizon_fetches_nothing_beyond_it() {
    let (requests, batch) = run(window(&[0, 2, 5]), within(download_horizon(3)), false, &[]);
    assert_eq!(requests, ["/th?id=OHR.Pos0_ROW0", "/th?id=OHR.Pos2_ROW2"]);
    assert!(batch.fallback.is_none());
    assert_eq!(batch.fetched.len(), 2);
}

#[test]
fn an_all_ineligible_archive_fetches_nothing_and_succeeds() {
    let (requests, batch) = run(window(&[]), within(1), false, &[]);
    assert!(requests.is_empty(), "no request at all");
    assert!(batch.fetched.is_empty());
    assert!(batch.fallback.is_none());
    assert_eq!(batch.ineligible.len(), 8);
    assert_eq!(batch.anchor, "202608070700");
}

#[test]
fn a_held_fallback_is_reused_without_a_request() {
    let (requests, batch) =
        run(window(&[1, 4]), within(download_horizon(1)), false, &["/th?id=OHR.Pos1_ROW1"]);
    assert!(requests.is_empty(), "held file: no request");
    assert_eq!(batch.fallback, Some(PathBuf::from("/held/th?id=OHR.Pos1_ROW1")));
    assert_eq!(batch.fetched.len(), 1);
}

#[test]
fn a_suppressed_fallback_is_not_fetched() {
    let suppressed = Downloads { horizon: download_horizon(1), fallback: false };
    let (requests, batch) = run(window(&[3]), suppressed, false, &[]);
    assert!(requests.is_empty());
    assert!(batch.fetched.is_empty());
    assert!(batch.fallback.is_none());
}

#[test]
fn images_on_disk_beyond_the_selection_are_repaired_without_requests() {
    let held = ["/th?id=OHR.Pos0_ROW0", "/th?id=OHR.Pos3_ROW3", "/th?id=OHR.Pos6_ROW6"];
    let (requests, batch) = run(window(&[0, 3, 5, 6]), within(1), true, &held);
    assert!(requests.is_empty());
    let urlbases: Vec<&str> = batch.fetched.iter().map(|e| e.urlbase.as_str()).collect();
    assert_eq!(urlbases, held);
    assert!(batch.thumbnails_deferred, "the selected image has no thumbnail of its own yet");
}

#[test]
fn a_deferred_fetch_of_nothing_owes_no_thumbnails() {
    let (_, batch) = run(window(&[]), within(8), true, &[]);
    assert!(!batch.thumbnails_deferred, "nothing fetched, nothing owed");
    let repaired_only = Downloads { horizon: 1, fallback: false };
    let (_, batch) = run(window(&[3]), repaired_only, true, &["/th?id=OHR.Pos3_ROW3"]);
    assert_eq!(batch.fetched.len(), 1);
    assert!(!batch.thumbnails_deferred, "a repair alone owes nothing");
}

#[test]
fn only_a_real_image_saves_a_download() {
    let path = PathBuf::from("/imgs/20260807-Foo_ROW1_1920x1080.jpg");
    let fresh = PathBuf::from("/imgs/20260807-Foo_ROW1_UHD.jpg");
    assert_eq!(usable_existing_file(Some(path.clone()), true), Ok(path.clone()));
    assert_eq!(usable_existing_file(Some(path.clone()), false), Err(Some(path.clone())));
    assert_eq!(usable_existing_file(None, false), Err(None));
    // What was no image is unlinked once its replacement landed elsewhere.
    assert_eq!(replaced_file(Some(path.clone()), &fresh), Some(path.clone()));
    assert_eq!(replaced_file(Some(fresh.clone()), &fresh), None);
    assert_eq!(replaced_file(None, &fresh), None);
}

#[test]
fn a_run_knows_the_files_and_images_it_handled() {
    let mut run = FetchRun::begin(window(&[0, 1]), within(2), false);
    let image = run.archive.eligible[0].image.clone();
    run.accept(entry(&image, "/imgs/a.jpg"));
    assert!(run.handled(&PathBuf::from("/imgs/a.jpg")));
    assert!(!run.handled(&PathBuf::from("/imgs/b.jpg")));
    assert!(run.fetched_image(&image.urlbase));
    assert!(!run.fetched_image(&"/th?id=OHR.Pos1_ROW1".to_owned()));
    assert_eq!(run.next_fetch(), Some(1));
}

#[test]
fn a_fetch_notes_what_became_of_every_listed_image() {
    let mut run = FetchRun::begin(window(&[0, 3, 5, 6]), within(1), true);
    assert!(!run.writes_thumbnails(), "a pass owns the cache");
    assert!(FetchRun::begin(window(&[0]), within(1), false).writes_thumbnails());
    let images: Vec<BingImage> = run.archive.eligible.iter().map(|e| e.image.clone()).collect();
    run.accept(entry(&images[0], "/imgs/a.jpg"));
    assert_eq!(run.next_repair(), Some(1), "what was fetched is passed over");
    assert_eq!(run.next_repair(), Some(1), "asking twice changes nothing");
    run.repair(None);
    assert_eq!(run.next_repair(), Some(2));
    run.repair(Some(entry(&images[2], "/imgs/c.jpg")));
    assert_eq!(run.next_repair(), Some(3));
    run.repair(None);
    assert_eq!(run.next_repair(), None);
    assert_eq!(
        run.listed,
        [Listed::Fetched, Listed::Missing, Listed::Repaired, Listed::Missing]
    );
    let batch = run.finish();
    let files: Vec<PathBuf> = batch.fetched.iter().map(|e| e.filename.clone()).collect();
    assert_eq!(files, [PathBuf::from("/imgs/a.jpg"), PathBuf::from("/imgs/c.jpg")]);
}
