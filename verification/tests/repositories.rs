use video_streaming_api::domain::common::FilePath;
use video_streaming_api::domain::streaming::{
    ClientInfo, SessionId, SessionRepository, SessionState, StreamingSession,
};
use video_streaming_api::domain::video::{Video, VideoId, VideoMetadata, VideoRepository};
use video_streaming_api::domain::video_creation::{
    ImageSpec, VideoCreationJob, VideoCreationJobId, VideoCreationRepository,
    VideoCreationRequest, VideoCreationStatus,
};
use video_streaming_api::infrastructure::repositories::{
    InMemorySessionRepository, InMemoryVideoCreationRepository, InMemoryVideoRepository, Table,
};
use video_streaming_api::shared::clock::Timestamp;

fn job(id: &str, images: usize) -> VideoCreationJob {
    let names: Vec<FilePath> = (0..images).map(|i| FilePath::new(format!("{}.jpg", i))).collect();
    let request = VideoCreationRequest::with_presence(
        names,
        &vec![true; images],
        FilePath::new("out.mp4".to_string()),
        ImageSpec::default(),
        VideoId::new("v".to_string()),
    )
    .unwrap();
    VideoCreationJob::new_at(
        VideoCreationJobId::new(id.to_string()),
        request,
        Timestamp::new(1, 0).unwrap(),
    )
}

fn id(text: &str) -> VideoCreationJobId {
    VideoCreationJobId::new(text.to_string())
}

#[test]
fn job_repository_starts_empty() {
    let repo = InMemoryVideoCreationRepository::new();
    assert_eq!(repo.len(), 0);
    assert!(repo.find_job_by_id(&id("job_1")).unwrap().is_none());
    assert!(repo.find_jobs_by_status(&VideoCreationStatus::Pending).unwrap().is_empty());
}

#[test]
fn job_repository_finds_what_was_saved() {
    let mut repo = InMemoryVideoCreationRepository::new();
    repo.save_job(&job("job_1", 2)).unwrap();
    repo.save_job(&job("job_2", 3)).unwrap();
    assert_eq!(repo.len(), 2);
    let found = repo.find_job_by_id(&id("job_2")).unwrap().unwrap();
    assert_eq!(found.id.as_str(), "job_2");
    assert_eq!(found.request.frame_count(), 3);
    assert!(repo.find_job_by_id(&id("job_3")).unwrap().is_none());
}

#[test]
fn job_repository_replaces_by_identifier() {
    let mut repo = InMemoryVideoCreationRepository::new();
    let mut j = job("job_1", 2);
    repo.save_job(&j).unwrap();
    j.start().unwrap();
    repo.update_job(&j).unwrap();
    assert_eq!(repo.len(), 1);
    let found = repo.find_job_by_id(&id("job_1")).unwrap().unwrap();
    assert_eq!(found.status, VideoCreationStatus::InProgress);
    repo.save_job(&job("job_1", 5)).unwrap();
    assert_eq!(repo.len(), 1);
    let again = repo.find_job_by_id(&id("job_1")).unwrap().unwrap();
    assert_eq!(again.status, VideoCreationStatus::Pending);
    assert_eq!(again.request.frame_count(), 5);
}

#[test]
fn job_repository_update_stores_an_unknown_job() {
    let mut repo = InMemoryVideoCreationRepository::new();
    repo.update_job(&job("job_9", 1)).unwrap();
    assert!(repo.find_job_by_id(&id("job_9")).unwrap().is_some());
}

#[test]
fn job_repository_hands_out_copies() {
    let mut repo = InMemoryVideoCreationRepository::new();
    let mut handed_in = job("job_1", 2);
    repo.save_job(&handed_in).unwrap();
    handed_in.fail("changed after saving".to_string()).unwrap();
    let mut found = repo.find_job_by_id(&id("job_1")).unwrap().unwrap();
    assert_eq!(found.status, VideoCreationStatus::Pending);
    found.start().unwrap();
    let again = repo.find_job_by_id(&id("job_1")).unwrap().unwrap();
    assert_eq!(again.status, VideoCreationStatus::Pending);
    assert!(again.error_message.is_none());
}

#[test]
fn job_repository_filters_by_status() {
    let mut repo = InMemoryVideoCreationRepository::new();
    let mut a = job("a", 1);
    let mut b = job("b", 1);
    let c = job("c", 1);
    let mut d = job("d", 1);
    a.start().unwrap();
    b.start().unwrap();
    b.complete().unwrap();
    d.start().unwrap();
    for j in [&a, &b, &c, &d] {
        repo.save_job(j).unwrap();
    }
    let running = repo.find_jobs_by_status(&VideoCreationStatus::InProgress).unwrap();
    let mut ids: Vec<String> = running.iter().map(|j| j.id.as_str().to_string()).collect();
    ids.sort();
    assert_eq!(ids, vec!["a".to_string(), "d".to_string()]);
    let pending = repo.find_jobs_by_status(&VideoCreationStatus::Pending).unwrap();
    assert_eq!(pending.len(), 1);
    assert_eq!(pending[0].id.as_str(), "c");
    assert_eq!(repo.find_jobs_by_status(&VideoCreationStatus::Completed).unwrap().len(), 1);
    assert!(repo.find_jobs_by_status(&VideoCreationStatus::Failed).unwrap().is_empty());
}

#[test]
fn table_put_get_remove() {
    let mut table: Table<VideoCreationJob> = Table::new();
    assert_eq!(table.len(), 0);
    table.put(job("x", 1));
    table.put(job("y", 2));
    table.put(job("x", 3));
    assert_eq!(table.len(), 2);
    assert_eq!(table.get("x").unwrap().request.frame_count(), 3);
    assert_eq!(table.row(0).id.as_str(), "x");
    assert_eq!(table.row(1).id.as_str(), "y");
    table.remove("x");
    assert_eq!(table.len(), 1);
    assert!(table.get("x").is_none());
    assert!(table.get("y").is_some());
    table.remove("not there");
    assert_eq!(table.len(), 1);
}

fn session(id: &str) -> StreamingSession {
    StreamingSession::new_at(
        SessionId::new(id.to_string()),
        VideoId::new("v".to_string()),
        ClientInfo::new("agent".to_string(), "127.0.0.1".to_string()),
        Timestamp::new(5, 0).unwrap(),
    )
}

#[test]
fn session_repository_saves_finds_and_deletes() {
    let mut repo = InMemorySessionRepository::new();
    assert!(repo.find_by_id(&SessionId::new("s1".to_string())).unwrap().is_none());
    repo.save(&session("s1")).unwrap();
    repo.save(&session("s2")).unwrap();
    let found = repo.find_by_id(&SessionId::new("s1".to_string())).unwrap().unwrap();
    assert_eq!(found.id.as_str(), "s1");
    assert_eq!(found.state, SessionState::Created);
    assert_eq!(found.client_info.user_agent, "agent");
    repo.delete(&SessionId::new("s1".to_string())).unwrap();
    assert!(repo.find_by_id(&SessionId::new("s1".to_string())).unwrap().is_none());
    assert!(repo.find_by_id(&SessionId::new("s2".to_string())).unwrap().is_some());
    repo.delete(&SessionId::new("s1".to_string())).unwrap();
}

#[test]
fn session_repository_finds_the_active_sessions() {
    let mut repo = InMemorySessionRepository::new();
    let mut a = session("a");
    let mut b = session("b");
    let c = session("c");
    a.start().unwrap();
    b.start().unwrap();
    b.pause().unwrap();
    repo.save(&a).unwrap();
    repo.save(&b).unwrap();
    repo.save(&c).unwrap();
    let active = repo.find_active_sessions().unwrap();
    assert_eq!(active.len(), 1);
    assert_eq!(active[0].id.as_str(), "a");
    b.resume().unwrap();
    repo.save(&b).unwrap();
    assert_eq!(repo.find_active_sessions().unwrap().len(), 2);
}

#[test]
fn video_repository_saves_finds_and_deletes() {
    let mut repo = InMemoryVideoRepository::new();
    let path = FilePath::new("clip.mp4".to_string());
    let metadata = VideoMetadata::from_probe(&path, true, Ok(100)).unwrap();
    let video = Video::with_metadata(VideoId::new("v1".to_string()), path, metadata);
    repo.save(&video).unwrap();
    let found = repo.find_by_id(&VideoId::new("v1".to_string())).unwrap().unwrap();
    assert_eq!(found.metadata.total_size, 100);
    assert_eq!(found.metadata.content_type.as_str(), "video/mp4");
    assert!(repo.find_by_id(&VideoId::new("v2".to_string())).unwrap().is_none());
    repo.delete(&VideoId::new("v1".to_string())).unwrap();
    assert!(repo.find_by_id(&VideoId::new("v1".to_string())).unwrap().is_none());
}
