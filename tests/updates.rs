use tanoshi::cache::should_evict;
use tanoshi::commands::ChapterUpdateCommand;
use tanoshi::events::ChapterUpdate;
use tanoshi::extensions::{extension_updates, update_available, InstalledSource, SourceInfo};
use tanoshi::reconcile::{new_since, stale_chapter_ids, stamp_chapters, Chapter, Manga};
use tanoshi::scheduler::{
    effective_period, poll_interval_secs, Action, Completion, Event, Pass, Scheduler, Scope,
    SeriesOutcome,
};
use tanoshi::version::{parse_tag, parse_version, server_update_available, Version, VersionError};

fn chapter(id: i64, path: &str, uploaded: i64) -> Chapter {
    Chapter {
        id,
        manga_id: 0,
        path: path.to_string(),
        title: format!("Chapter {path}"),
        uploaded,
    }
}

fn manga(last_uploaded_at: Option<i64>) -> Manga {
    Manga {
        id: 42,
        source_id: 3,
        title: "Series".to_string(),
        path: "/series".to_string(),
        last_uploaded_at,
    }
}

fn paths(chapters: &[Chapter]) -> Vec<String> {
    chapters.iter().map(|c| c.path.clone()).collect()
}

#[test]
fn release_tag_newer_than_running_version() {
    assert_eq!(server_update_available("v1.2.0", "1.1.9"), Ok(true));
}

#[test]
fn release_tag_equal_to_running_version() {
    assert_eq!(server_update_available("v1.1.9", "1.1.9"), Ok(false));
}

#[test]
fn version_order_is_numeric_not_textual() {
    assert_eq!(server_update_available("v1.10.0", "1.9.0"), Ok(true));
    assert_eq!(server_update_available("v1.9.9", "1.10.0"), Ok(false));
    assert_eq!(server_update_available("v2.0.0", "1.99.99"), Ok(true));
}

#[test]
fn release_check_errors() {
    assert_eq!(server_update_available("vnext", "1.1.9"), Err(VersionError::InvalidTag));
    assert_eq!(server_update_available("", "1.1.9"), Err(VersionError::InvalidTag));
    assert_eq!(server_update_available("v1.2.0", "dev"), Err(VersionError::InvalidCurrent));
}

#[test]
fn parse_versions() {
    assert_eq!(parse_version("1.2.3"), Some(Version::new(1, 2, 3)));
    assert_eq!(parse_version("0.0.0"), Some(Version::zero()));
    assert_eq!(parse_version("18446744073709551615.0.7"), Some(Version::new(u64::MAX, 0, 7)));
    assert_eq!(parse_version("18446744073709551616.0.7"), None);
    assert_eq!(parse_version("1.2"), None);
    assert_eq!(parse_version("1..3"), None);
    assert_eq!(parse_version("1.2.3.4"), None);
    assert_eq!(parse_version("1.2.x"), None);
    assert_eq!(parse_version(""), None);
}

#[test]
fn parse_tags() {
    assert_eq!(parse_tag("v0.30.1"), Some(Version::new(0, 30, 1)));
    assert_eq!(parse_tag("0.30.1"), Some(Version::new(0, 30, 1)));
    assert_eq!(parse_tag("vv0.30.1"), None);
}

#[test]
fn newer_version_comparison() {
    let a = Version::new(1, 2, 0);
    let b = Version::new(1, 1, 9);
    assert!(a.is_newer_than(&b));
    assert!(!b.is_newer_than(&a));
    assert!(!a.is_newer_than(&a));
}

#[test]
fn cache_file_eleven_days_old_is_removed() {
    assert!(should_evict(Some(11 * 86400)));
}

#[test]
fn cache_file_nine_days_old_is_kept() {
    assert!(!should_evict(Some(9 * 86400)));
}

#[test]
fn cache_eviction_edges() {
    assert!(should_evict(Some(10 * 86400)));
    assert!(!should_evict(Some(10 * 86400 - 1)));
    assert!(should_evict(Some(u64::MAX)));
    assert!(!should_evict(None));
}

#[test]
fn end_to_end_new_chapter() {
    let t0 = 1_600_000_000;
    let t1 = t0 + 3600;
    let series = manga(Some(t0));
    let persisted = vec![Chapter { manga_id: 42, ..chapter(1, "a", t0) }];
    let fetched = vec![chapter(0, "a", t0), chapter(0, "b", t1)];

    let stored = stamp_chapters(&fetched, series.id);
    assert_eq!(stored.len(), 2);
    assert!(stored.iter().all(|c| c.manga_id == 42));
    assert_eq!(paths(&stored), vec!["a".to_string(), "b".to_string()]);

    assert!(stale_chapter_ids(&persisted, &fetched).is_empty());

    let reread = vec![
        Chapter { manga_id: 42, ..chapter(1, "a", t0) },
        Chapter { manga_id: 42, ..chapter(2, "b", t1) },
    ];
    let fresh = new_since(&reread, series.last_uploaded_at);
    assert_eq!(fresh.len(), 1);
    assert_eq!(fresh[0].path, "b");
    assert_eq!(fresh[0].id, 2);

    let update = ChapterUpdate::new(&series, &fresh[0], &vec![7, 9, 7]);
    assert_eq!(update.users, vec![7, 9]);
    assert_eq!(update.manga.id, 42);
    assert_eq!(update.chapter.path, "b");
}

#[test]
fn empty_listing_changes_nothing() {
    let persisted = vec![chapter(1, "a", 100), chapter(2, "b", 200)];
    let fetched: Vec<Chapter> = Vec::new();
    assert!(stamp_chapters(&fetched, 42).is_empty());
    assert!(stale_chapter_ids(&persisted, &fetched).is_empty());
    assert!(new_since(&persisted, Some(200)).is_empty());
}

#[test]
fn dropped_chapter_is_deleted_and_not_new() {
    let persisted = vec![chapter(1, "a", 100), chapter(2, "gone", 900), chapter(3, "c", 300)];
    let fetched = vec![chapter(0, "a", 100), chapter(0, "c", 300)];
    assert_eq!(stale_chapter_ids(&persisted, &fetched), vec![2]);
    let reread = stamp_chapters(&fetched, 42);
    let fresh = new_since(&reread, Some(50));
    assert_eq!(paths(&fresh), vec!["a".to_string(), "c".to_string()]);
}

#[test]
fn second_pass_reports_nothing() {
    let fetched = vec![chapter(0, "a", 100), chapter(0, "b", 200)];
    let rows = stamp_chapters(&fetched, 42);
    assert_eq!(new_since(&rows, None).len(), 2);
    let newest = rows.iter().map(|c| c.uploaded).max();
    let again = stamp_chapters(&fetched, 42);
    assert!(stale_chapter_ids(&rows, &fetched).is_empty());
    assert!(new_since(&again, newest).is_empty());
}

#[test]
fn missing_last_upload_counts_from_epoch() {
    let rows = vec![chapter(1, "a", 0), chapter(2, "b", 1), chapter(3, "c", -5)];
    assert_eq!(paths(&new_since(&rows, None)), vec!["b".to_string()]);
}

#[test]
fn command_is_answered_once() {
    let mut s = Scheduler::new(0);
    assert!(s.is_idle());
    assert_eq!(s.on_event(Event::Command(Scope::Manga(3))), Action::Reconcile(Scope::Manga(3)));
    assert!(!s.is_idle());
    assert_eq!(s.on_pass_done(), Completion::Reply);
    assert!(s.is_idle());
}

#[test]
fn periodic_pass_is_only_logged() {
    let mut s = Scheduler::new(7200);
    assert_eq!(s.on_event(Event::ChapterTick), Action::Reconcile(Scope::All));
    assert!(!s.is_idle());
    assert_eq!(s.on_pass_done(), Completion::Log);
    assert!(s.is_idle());
}

#[test]
fn disabled_polling_skips_ticks_but_takes_commands() {
    let mut s = Scheduler::new(0);
    assert_eq!(s.on_event(Event::ChapterTick), Action::Skip);
    assert!(s.is_idle());
    assert_eq!(s.on_event(Event::Command(Scope::All)), Action::Reconcile(Scope::All));
    assert_eq!(s.on_pass_done(), Completion::Reply);
}

#[test]
fn housekeeping_ticks() {
    let mut s = Scheduler::new(3600);
    assert_eq!(s.on_event(Event::VersionTick), Action::CheckVersions);
    assert_eq!(s.on_event(Event::CacheTick), Action::ClearCache);
    assert!(s.is_idle());
}

#[test]
fn pacing_two_series() {
    let mut p = Pass::new();
    assert_eq!(p.series_done(SeriesOutcome::Reconciled), 1);
    assert_eq!(p.series_done(SeriesOutcome::FetchFailed), 1);
    assert_eq!(p.series, 2);
    assert!(p.paused_secs >= 2);
}

#[test]
fn period_configuration() {
    assert_eq!(effective_period(10, true), 3600);
    assert_eq!(effective_period(0, true), 0);
    assert_eq!(effective_period(7200, true), 7200);
    assert_eq!(effective_period(10, false), 10);
    assert_eq!(poll_interval_secs(0), 3600);
    assert_eq!(poll_interval_secs(60), 60);
}

fn source(id: i64, version: &str) -> SourceInfo {
    SourceInfo {
        id,
        name: format!("remote {id}"),
        url: String::new(),
        version: version.to_string(),
        icon: String::new(),
        nsfw: false,
    }
}

fn installed(id: i64, name: &str, version: &str) -> InstalledSource {
    InstalledSource { id, name: name.to_string(), version: version.to_string() }
}

#[test]
fn extension_update_selection() {
    let index = vec![source(1, "1.2.0"), source(2, "0.1.0"), source(4, "broken"), source(5, "0.0.1")];
    let local = vec![
        installed(1, "A", "1.1.0"),
        installed(2, "B", "0.1.0"),
        installed(3, "C", "0.0.1"),
        installed(4, "D", "0.0.1"),
        installed(5, "E", "unknown"),
    ];
    assert_eq!(extension_updates(&index, &local), vec!["A".to_string(), "E".to_string()]);
    assert!(update_available(&index, &local[0]));
    assert!(!update_available(&index, &local[2]));
}

#[test]
fn extension_index_first_record_wins() {
    let index = vec![source(1, "0.1.0"), source(1, "9.0.0")];
    assert!(!update_available(&index, &installed(1, "A", "0.1.0")));
}

#[test]
fn command_scopes() {
    let (tx, _rx) = tokio::sync::oneshot::channel();
    assert_eq!(ChapterUpdateCommand::Manga(5, tx).scope(), Scope::Manga(5));
    let (tx, _rx) = tokio::sync::oneshot::channel();
    assert_eq!(ChapterUpdateCommand::Library(8, tx).scope(), Scope::Library(8));
    let (tx, mut rx) = tokio::sync::oneshot::channel();
    let (scope, reply) = ChapterUpdateCommand::All(tx).into_parts();
    assert_eq!(scope, Scope::All);
    assert!(reply.send(Ok(())).is_ok());
    assert!(matches!(rx.try_recv(), Ok(Ok(()))));
}
