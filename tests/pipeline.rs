use unsplash_wallpaper::catalog::{ImageBody, Urls, User};
use unsplash_wallpaper::error::PipelineError;
use unsplash_wallpaper::pipeline::{Action, Event, RefreshPipeline, RefreshState};
use unsplash_wallpaper::store::WallpaperStore;

fn image(slug: &str) -> ImageBody {
    ImageBody {
        id: "id1".to_string(),
        slug: slug.to_string(),
        urls: Urls { full: "https://images.example/full".to_string() },
        user: User { name: "Ann".to_string() },
    }
}

fn pipeline() -> RefreshPipeline {
    RefreshPipeline::new(WallpaperStore::new("./wallpaper".to_string()))
}

/// Runs a pipeline up to the point where it asks for the download.
fn to_download(p: &mut RefreshPipeline, slug: &str) {
    assert!(matches!(p.trigger(), Action::FetchMetadata));
    assert!(matches!(p.handle(Event::MetadataFetched(Ok(image(slug)))), Action::ResetStore));
    match p.handle(Event::StoreReset(Ok(()))) {
        Action::Download { url, path } => {
            assert_eq!(url, "https://images.example/full");
            assert_eq!(path, format!("./wallpaper/{}.jpg", slug));
        }
        _ => panic!("expected a download"),
    }
}

#[test]
fn full_cycle_applies_downloaded_file() {
    let mut p = pipeline();
    assert!(!p.is_busy());
    to_download(&mut p, "sunset");
    assert!(p.is_busy());
    match p.handle(Event::Downloaded(Ok(5000))) {
        Action::Apply { path } => assert_eq!(path, "./wallpaper/sunset.jpg"),
        _ => panic!("expected an apply"),
    }
    assert!(matches!(p.handle(Event::Applied(Ok(()))), Action::Done));
    assert!(!p.is_busy());
    assert_eq!(p.last_error(), None);
    assert!(matches!(p.state(), RefreshState::Idle { last_error: None }));
}

#[test]
fn failed_download_discards_partial_file() {
    let mut p = pipeline();
    to_download(&mut p, "sunset");
    match p.handle(Event::Downloaded(Err(PipelineError::DownloadFailed))) {
        Action::DiscardPartial { path, error } => {
            assert_eq!(path, "./wallpaper/sunset.jpg");
            assert_eq!(error, PipelineError::DownloadFailed);
        }
        _ => panic!("expected the partial file to be discarded"),
    }
    assert_eq!(p.last_error(), Some(PipelineError::DownloadFailed));
    assert!(matches!(
        p.state(),
        RefreshState::Idle { last_error: Some(PipelineError::DownloadFailed) }
    ));
}

#[test]
fn empty_download_is_not_applied() {
    let mut p = pipeline();
    to_download(&mut p, "empty");
    match p.handle(Event::Downloaded(Ok(0))) {
        Action::DiscardPartial { path, error } => {
            assert_eq!(path, "./wallpaper/empty.jpg");
            assert_eq!(error, PipelineError::ApplyFailed);
        }
        _ => panic!("an empty file must not be applied"),
    }
    assert_eq!(p.last_error(), Some(PipelineError::ApplyFailed));
}

#[test]
fn second_trigger_is_turned_down() {
    let mut p = pipeline();
    assert!(matches!(p.trigger(), Action::FetchMetadata));
    assert!(matches!(p.trigger(), Action::Busy));
    assert!(matches!(p.state(), RefreshState::FetchingMetadata));
    assert!(matches!(p.handle(Event::MetadataFetched(Ok(image("a")))), Action::ResetStore));
    assert!(matches!(p.trigger(), Action::Busy));
    assert!(matches!(p.handle(Event::StoreReset(Ok(()))), Action::Download { .. }));
    assert!(matches!(p.trigger(), Action::Busy));
    assert!(matches!(p.handle(Event::Downloaded(Ok(1))), Action::Apply { .. }));
    assert!(matches!(p.trigger(), Action::Busy));
    assert!(matches!(p.handle(Event::Applied(Ok(()))), Action::Done));
    assert!(matches!(p.trigger(), Action::FetchMetadata));
}

#[test]
fn each_failure_ends_the_cycle_with_its_error() {
    let mut p = pipeline();
    p.trigger();
    assert!(matches!(
        p.handle(Event::MetadataFetched(Err(PipelineError::CatalogUnavailable))),
        Action::Fail(PipelineError::CatalogUnavailable)
    ));
    assert_eq!(p.last_error(), Some(PipelineError::CatalogUnavailable));

    p.trigger();
    p.handle(Event::MetadataFetched(Ok(image("b"))));
    assert!(matches!(
        p.handle(Event::StoreReset(Err(PipelineError::StorageFailed))),
        Action::Fail(PipelineError::StorageFailed)
    ));
    assert_eq!(p.last_error(), Some(PipelineError::StorageFailed));

    to_download(&mut p, "c");
    p.handle(Event::Downloaded(Ok(10)));
    assert!(matches!(
        p.handle(Event::Applied(Err(PipelineError::ApplyFailed))),
        Action::Fail(PipelineError::ApplyFailed)
    ));
    assert_eq!(p.last_error(), Some(PipelineError::ApplyFailed));
}

#[test]
fn stray_events_change_nothing() {
    let mut p = pipeline();
    assert!(matches!(p.handle(Event::StoreReset(Ok(()))), Action::Ignore));
    assert!(matches!(p.handle(Event::Applied(Ok(()))), Action::Ignore));
    assert!(!p.is_busy());
    p.trigger();
    assert!(matches!(p.handle(Event::Downloaded(Ok(3))), Action::Ignore));
    assert!(matches!(p.state(), RefreshState::FetchingMetadata));
    assert_eq!(p.last_error(), None);
}

#[test]
fn same_slug_resolves_to_same_download_path_each_cycle() {
    let mut p = pipeline();
    to_download(&mut p, "mountain-1");
    p.handle(Event::Downloaded(Err(PipelineError::DownloadFailed)));
    to_download(&mut p, "mountain-1");
    assert_eq!(p.store().resolve_path("mountain-1"), "./wallpaper/mountain-1.jpg");
}
