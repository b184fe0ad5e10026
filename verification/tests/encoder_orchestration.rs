use video_streaming_api::domain::common::{DomainError, FilePath};
use video_streaming_api::domain::video::VideoId;
use video_streaming_api::domain::video_creation::{
    ImageSpec, VideoCreationJobId, VideoCreationRepository, VideoCreationRequest,
    VideoCreationStatus,
};
use video_streaming_api::infrastructure::ffmpeg::{
    build_encoder_arguments, build_frame_list, interpret_outcome, locate_files,
    resolve_location, resolve_path, CreationAction, CreationEvent, CreationPhase, CreationRun,
    EncoderOutcome, FFmpegCommandBuilder, FFmpegVideoCreator, Locations,
};
use video_streaming_api::infrastructure::repositories::InMemoryVideoCreationRepository;

use video_streaming_api::domain::video_creation::VideoCreationStatus::{
    Completed, Failed, InProgress, Pending,
};

fn strings(items: &[&str]) -> Vec<String> {
    items.iter().map(|s| s.to_string()).collect()
}

fn request(images: &[&str], output: &str, spec: ImageSpec) -> VideoCreationRequest {
    let presence = vec![true; images.len()];
    VideoCreationRequest::with_presence(
        images.iter().map(|n| FilePath::new(n.to_string())).collect(),
        &presence,
        FilePath::new(output.to_string()),
        spec,
        VideoId::new("video_1".to_string()),
    )
    .unwrap()
}

fn creator() -> FFmpegVideoCreator<InMemoryVideoCreationRepository> {
    FFmpegVideoCreator::new(InMemoryVideoCreationRepository::new())
}

fn work_dir() -> Result<String, String> {
    Ok("/work".to_string())
}

fn begin(
    c: &mut FFmpegVideoCreator<InMemoryVideoCreationRepository>,
    images: &[&str],
) -> CreationRun {
    c.begin(&request(images, "/out/video.mp4", ImageSpec::default()), true, &work_dir()).unwrap()
}

fn stored_status(
    c: &FFmpegVideoCreator<InMemoryVideoCreationRepository>,
    run: &CreationRun,
) -> VideoCreationStatus {
    c.get_job_status(&run.job.id).unwrap().unwrap().status
}

#[test]
fn frame_list_names_each_image_with_its_duration_and_the_last_once_more() {
    let content = build_frame_list(&strings(&["/a/1.jpg", "/a/2.jpg", "/a/3.jpg"]), 1);
    assert_eq!(
        content,
        "file '/a/1.jpg'\nduration 1\nfile '/a/2.jpg'\nduration 1\nfile '/a/3.jpg'\nduration 1\nfile '/a/3.jpg'\n"
    );
}

#[test]
fn frame_list_of_one_image_repeats_it() {
    let content = build_frame_list(&strings(&["/img/only.png"]), 12);
    assert_eq!(content, "file '/img/only.png'\nduration 12\nfile '/img/only.png'\n");
}

#[test]
fn frame_list_of_no_images_is_empty() {
    assert_eq!(build_frame_list(&Vec::new(), 3), "");
}

#[test]
fn frame_list_keeps_the_order_of_the_images() {
    let content = build_frame_list(&strings(&["/z.jpg", "/a.jpg"]), 2);
    assert_eq!(content, "file '/z.jpg'\nduration 2\nfile '/a.jpg'\nduration 2\nfile '/a.jpg'\n");
}

#[test]
fn frame_list_final_entry_has_no_duration() {
    let content = build_frame_list(&strings(&["/1.jpg", "/2.jpg"]), 5);
    let lines: Vec<&str> = content.lines().collect();
    assert_eq!(lines.len(), 5);
    assert_eq!(lines[lines.len() - 1], "file '/2.jpg'");
    assert_eq!(lines[lines.len() - 2], "duration 5");
    assert_eq!(content.matches("duration").count(), 2);
    assert_eq!(content.matches("file '/2.jpg'").count(), 2);
}

#[test]
fn encoder_arguments_follow_the_fixed_template() {
    let args = build_encoder_arguments("/tmp/list.txt", 800, 600, "/out/video.mp4");
    assert_eq!(
        args,
        strings(&[
            "-f", "concat", "-safe", "0", "-i", "/tmp/list.txt", "-vf", "scale=800:600", "-c:v",
            "libx264", "-pix_fmt", "yuv420p", "-r", "1", "-y", "/out/video.mp4",
        ])
    );
}

#[test]
fn encoder_arguments_scale_to_the_image_spec() {
    let args = build_encoder_arguments("l", 1920, 1080, "o");
    assert_eq!(args[7], "scale=1920:1080");
    assert_eq!(args[5], "l");
    assert_eq!(args[15], "o");
    assert_eq!(args.len(), 16);
}

#[test]
fn command_builder_collects_arguments_in_order() {
    let args = FFmpegCommandBuilder::new()
        .overwrite()
        .framerate(25)
        .codec("vp9")
        .pixel_format("yuv444p")
        .scale(10, 20)
        .input_concat_file("in.txt")
        .output("out.webm")
        .into_arguments();
    assert_eq!(
        args,
        strings(&[
            "-y", "-r", "25", "-c:v", "vp9", "-pix_fmt", "yuv444p", "-vf", "scale=10:20", "-f",
            "concat", "-safe", "0", "-i", "in.txt", "out.webm",
        ])
    );
    assert!(FFmpegCommandBuilder::default().into_arguments().is_empty());
}

#[test]
fn outcome_of_a_successful_exit_is_success() {
    let r = interpret_outcome(&EncoderOutcome::Exited { success: true, stderr: "warnings".to_string() });
    assert!(r.is_ok());
}

#[test]
fn outcome_of_a_failed_exit_carries_the_standard_error_text() {
    let r = interpret_outcome(&EncoderOutcome::Exited {
        success: false,
        stderr: "No such file".to_string(),
    });
    assert!(matches!(r, Err(DomainError::IoError(m)) if m == "FFmpeg failed: No such file"));
}

#[test]
fn outcome_of_a_launch_failure_carries_its_cause() {
    let r = interpret_outcome(&EncoderOutcome::LaunchFailed("permission denied".to_string()));
    assert!(
        matches!(r, Err(DomainError::IoError(m)) if m == "Failed to execute FFmpeg: permission denied")
    );
}

#[test]
fn absolute_location_stands_for_itself() {
    assert_eq!(resolve_location("/a/b.jpg", true, &work_dir()).unwrap(), "/a/b.jpg");
    assert_eq!(resolve_location("/a/b.jpg", true, &Err("gone".to_string())).unwrap(), "/a/b.jpg");
}

#[test]
fn relative_location_needs_the_working_directory() {
    let r = resolve_location("b.jpg", false, &Err("gone".to_string()));
    assert!(matches!(r, Err(DomainError::IoError(m)) if m == "gone"));
    assert!(resolve_location("b.jpg", false, &work_dir()).is_ok());
}

#[test]
fn resolve_path_joins_relative_paths_to_the_working_directory() {
    assert_eq!(resolve_path("/abs/a.jpg", &work_dir()).unwrap(), "/abs/a.jpg");
    let joined = resolve_path("img/a.jpg", &work_dir()).unwrap();
    assert_eq!(
        std::path::Path::new(&joined),
        std::path::Path::new("/work").join("img/a.jpg").as_path()
    );
    assert!(joined.ends_with("a.jpg"));
    assert_ne!(joined, "img/a.jpg");
    assert!(matches!(
        resolve_path("img/a.jpg", &Err("no cwd".to_string())),
        Err(DomainError::IoError(m)) if m == "no cwd"
    ));
}

#[test]
fn files_are_located_against_the_working_directory() {
    let r = request(&["/abs/1.jpg", "rel/2.jpg"], "out.mp4", ImageSpec::default());
    let located = locate_files(&r, &work_dir()).unwrap();
    assert_eq!(located.images.len(), 2);
    assert_eq!(located.images[0], "/abs/1.jpg");
    assert_eq!(located.images[1], resolve_path("rel/2.jpg", &work_dir()).unwrap());
    assert_eq!(located.output, resolve_path("out.mp4", &work_dir()).unwrap());
    let absolute = request(&["/abs/1.jpg"], "/out.mp4", ImageSpec::default());
    let located = locate_files(&absolute, &Err("gone".to_string())).unwrap();
    assert_eq!(located.images, vec!["/abs/1.jpg".to_string()]);
    assert_eq!(located.output, "/out.mp4");
    assert!(matches!(
        locate_files(&r, &Err("gone".to_string())),
        Err(DomainError::IoError(m)) if m == "gone"
    ));
}

#[test]
fn beginning_with_located_files_names_them_in_the_frame_list() {
    let mut c = creator();
    let r = request(&["a.jpg", "b.jpg"], "out.mp4", ImageSpec::new(10, 20, 3).unwrap());
    let located = Locations {
        images: strings(&["/x/a.jpg", "/y/b.jpg"]),
        output: "/z/out.mp4".to_string(),
    };
    let run = c.begin_located(&r, true, Ok(located)).unwrap();
    assert_eq!(run.output_path, "/z/out.mp4");
    assert_eq!(run.history, vec![Pending, InProgress]);
    assert!(matches!(
        &run.pending,
        CreationAction::WriteFrameList(t)
            if t == "file '/x/a.jpg'\nduration 3\nfile '/y/b.jpg'\nduration 3\nfile '/y/b.jpg'\n"
    ));
    let names: Vec<&str> = run.job.request.image_paths.iter().map(|p| p.as_str()).collect();
    assert_eq!(names, vec!["a.jpg", "b.jpg"]);
}

#[test]
fn beginning_without_located_files_fails_the_job_with_the_cause() {
    let mut c = creator();
    let r = request(&["a.jpg"], "out.mp4", ImageSpec::default());
    let run = c
        .begin_located(&r, true, Err(DomainError::IoError("no working directory".to_string())))
        .unwrap();
    assert!(run.is_finished());
    assert_eq!(run.job.status, Failed);
    assert_eq!(run.job.error_message.as_deref(), Some("IO error: no working directory"));
    assert_eq!(run.history, vec![Pending, InProgress, Failed]);
    let none = c.begin_located(&r, false, Ok(Locations { images: Vec::new(), output: String::new() }));
    assert!(matches!(none, Err(DomainError::IoError(m)) if m == "FFmpeg not found on system"));
    assert_eq!(c.repository().len(), 1);
}

#[test]
fn jobs_begun_in_the_same_millisecond_get_different_identifiers() {
    let mut c = creator();
    let now = video_streaming_api::shared::clock::Timestamp::new(5, 0).unwrap();
    let r = request(&["/a.jpg"], "/out.mp4", ImageSpec::default());
    let located = || {
        Ok(Locations { images: strings(&["/a.jpg"]), output: "/out.mp4".to_string() })
    };
    let first = c.begin_located_at(&r, true, located(), now).unwrap();
    let second = c.begin_located_at(&r, true, located(), now).unwrap();
    let third = c.begin_located_at(&r, true, located(), now).unwrap();
    assert_eq!(first.job.id.as_str(), "job_5000");
    assert_eq!(second.job.id.as_str(), "job_5000_1");
    assert_eq!(third.job.id.as_str(), "job_5000_2");
    assert_eq!(first.job.created_at, now);
    assert_eq!(c.repository().len(), 3);
    let mut first = first;
    c.advance(&mut first, CreationEvent::FrameListFailed("x".to_string())).unwrap();
    assert_eq!(stored_status(&c, &first), Failed);
    assert_eq!(stored_status(&c, &second), InProgress);
    assert_eq!(stored_status(&c, &third), InProgress);
    let later = video_streaming_api::shared::clock::Timestamp::new(5, 1_000_000).unwrap();
    let fourth = c.begin_located_at(&r, true, located(), later).unwrap();
    assert_eq!(fourth.job.id.as_str(), "job_5001");
}

#[test]
fn jobs_begun_by_the_clock_never_replace_one_another() {
    let mut c = creator();
    let mut ids = std::collections::HashSet::new();
    for _ in 0..50 {
        let run = begin(&mut c, &["/a/1.jpg"]);
        assert!(run.job.id.as_str().starts_with("job_"));
        assert!(ids.insert(run.job.id.as_str().to_string()));
    }
    assert_eq!(c.repository().len(), 50);
}

#[test]
fn begin_without_the_encoder_fails_and_makes_no_job() {
    let mut c = creator();
    let r = c.begin(&request(&["/1.jpg"], "/o.mp4", ImageSpec::default()), false, &work_dir());
    assert!(matches!(r, Err(DomainError::IoError(m)) if m == "FFmpeg not found on system"));
    assert_eq!(c.repository().len(), 0);
}

#[test]
fn begin_stores_a_started_job_and_asks_for_the_frame_list() {
    let mut c = creator();
    let run = begin(&mut c, &["/a/1.jpg", "/a/2.jpg"]);
    assert_eq!(run.current_phase(), CreationPhase::AwaitingFrameList);
    assert!(!run.is_finished());
    assert_eq!(run.job.status, InProgress);
    assert_eq!(run.history, vec![Pending, InProgress]);
    assert!(run.failure.is_none());
    assert_eq!(run.output_path, "/out/video.mp4");
    let p = run.job.progress.unwrap();
    assert_eq!((p.current_frame, p.total_frames, p.percentage_basis_points), (0, 2, 0));
    match &run.pending {
        CreationAction::WriteFrameList(content) => assert_eq!(
            content,
            "file '/a/1.jpg'\nduration 1\nfile '/a/2.jpg'\nduration 1\nfile '/a/2.jpg'\n"
        ),
        other => panic!("unexpected action {:?}", other),
    }
    assert_eq!(c.repository().len(), 1);
    assert_eq!(stored_status(&c, &run), InProgress);
    assert!(run.job.id.as_str().starts_with("job_"));
}

#[test]
fn successful_run_goes_from_pending_to_in_progress_to_completed() {
    let mut c = creator();
    let mut run = begin(&mut c, &["/a/1.jpg", "/a/2.jpg", "/a/3.jpg", "/a/4.jpg", "/a/5.jpg"]);

    c.advance(&mut run, CreationEvent::FrameListWritten("/tmp/list_1.txt".to_string())).unwrap();
    assert_eq!(run.current_phase(), CreationPhase::AwaitingEncoder);
    match &run.pending {
        CreationAction::RunEncoder { arguments, list_file } => {
            assert_eq!(list_file, "/tmp/list_1.txt");
            assert_eq!(
                arguments,
                &strings(&[
                    "-f", "concat", "-safe", "0", "-i", "/tmp/list_1.txt", "-vf", "scale=800:600",
                    "-c:v", "libx264", "-pix_fmt", "yuv420p", "-r", "1", "-y", "/out/video.mp4",
                ])
            );
        }
        other => panic!("unexpected action {:?}", other),
    }
    assert_eq!(stored_status(&c, &run), InProgress);

    c.advance(
        &mut run,
        CreationEvent::EncoderFinished(EncoderOutcome::Exited {
            success: true,
            stderr: String::new(),
        }),
    )
    .unwrap();
    assert!(matches!(&run.pending, CreationAction::RemoveFrameList(f) if f == "/tmp/list_1.txt"));
    assert_eq!(run.job.status, Completed);
    assert_eq!(stored_status(&c, &run), Completed);

    c.advance(&mut run, CreationEvent::FrameListRemoved).unwrap();
    assert!(matches!(&run.pending, CreationAction::ProbeOutput(p) if p == "/out/video.mp4"));

    c.advance(&mut run, CreationEvent::OutputProbed(true)).unwrap();
    assert!(run.is_finished());
    assert_eq!(run.history, vec![Pending, InProgress, Completed]);

    let job = run.into_result().unwrap();
    assert_eq!(job.status, Completed);
    assert_eq!(job.progress.unwrap().percentage_basis_points, 10000);
    assert_eq!(job.progress.unwrap().current_frame, 5);
    assert!(job.completed_at.is_some());
    assert!(job.duration().is_some());
    assert!(job.error_message.is_none());
    let stored = c.get_job_status(&job.id).unwrap().unwrap();
    assert_eq!(stored.status, Completed);
    assert_eq!(stored.progress.unwrap().percentage_basis_points, 10000);
    assert_eq!(c.repository().len(), 1);
}

#[test]
fn failed_encoder_takes_the_job_from_in_progress_to_failed() {
    for output_present in [true, false] {
        let mut c = creator();
        let mut run = begin(&mut c, &["/a/1.jpg"]);
        c.advance(&mut run, CreationEvent::FrameListWritten("/tmp/l.txt".to_string())).unwrap();
        c.advance(
            &mut run,
            CreationEvent::EncoderFinished(EncoderOutcome::Exited {
                success: false,
                stderr: "boom".to_string(),
            }),
        )
        .unwrap();
        assert_eq!(run.job.status, Failed);
        assert_eq!(run.job.error_message.as_deref(), Some("IO error: FFmpeg failed: boom"));
        assert!(matches!(&run.pending, CreationAction::RemoveFrameList(f) if f == "/tmp/l.txt"));
        assert_eq!(stored_status(&c, &run), Failed);
        c.advance(&mut run, CreationEvent::FrameListRemoved).unwrap();
        c.advance(&mut run, CreationEvent::OutputProbed(output_present)).unwrap();
        assert!(run.is_finished());
        assert_eq!(run.history, vec![Pending, InProgress, Failed]);
        let job = run.into_result().unwrap();
        assert_eq!(job.status, Failed);
        if output_present {
            assert_eq!(job.error_message.as_deref(), Some("IO error: FFmpeg failed: boom"));
        } else {
            assert_eq!(job.error_message.as_deref(), Some("Output video file was not created"));
        }
        assert!(job.completed_at.is_some());
    }
}

#[test]
fn encoder_that_cannot_be_launched_fails_the_job_with_an_io_message() {
    let mut c = creator();
    let mut run = begin(&mut c, &["/a/1.jpg"]);
    c.advance(&mut run, CreationEvent::FrameListWritten("/tmp/l.txt".to_string())).unwrap();
    c.advance(
        &mut run,
        CreationEvent::EncoderFinished(EncoderOutcome::LaunchFailed("not found".to_string())),
    )
    .unwrap();
    assert_eq!(run.job.status, Failed);
    assert_eq!(
        run.job.error_message.as_deref(),
        Some("IO error: Failed to execute FFmpeg: not found")
    );
    assert_eq!(run.current_phase(), CreationPhase::AwaitingCleanup);
}

#[test]
fn success_without_an_output_file_is_overridden_to_failed() {
    let mut c = creator();
    let mut run = begin(&mut c, &["/a/1.jpg", "/a/2.jpg"]);
    c.advance(&mut run, CreationEvent::FrameListWritten("/tmp/l.txt".to_string())).unwrap();
    c.advance(
        &mut run,
        CreationEvent::EncoderFinished(EncoderOutcome::Exited {
            success: true,
            stderr: String::new(),
        }),
    )
    .unwrap();
    assert_eq!(run.job.status, Completed);
    c.advance(&mut run, CreationEvent::FrameListRemoved).unwrap();
    c.advance(&mut run, CreationEvent::OutputProbed(false)).unwrap();
    assert!(run.is_finished());
    assert_eq!(run.job.status, Failed);
    assert_eq!(run.job.error_message.as_deref(), Some("Output video file was not created"));
    assert_eq!(run.history, vec![Pending, InProgress, Completed, Failed]);
    assert_eq!(stored_status(&c, &run), Failed);
}

#[test]
fn frame_list_that_cannot_be_written_fails_the_job_without_running_the_encoder() {
    let mut c = creator();
    let mut run = begin(&mut c, &["/a/1.jpg"]);
    c.advance(&mut run, CreationEvent::FrameListFailed("disk full".to_string())).unwrap();
    assert!(run.is_finished());
    assert_eq!(run.job.status, Failed);
    assert_eq!(run.job.error_message.as_deref(), Some("IO error: disk full"));
    assert_eq!(run.history, vec![Pending, InProgress, Failed]);
    assert_eq!(stored_status(&c, &run), Failed);
    let job = run.into_result().unwrap();
    assert_eq!(job.status, Failed);
}

#[test]
fn cleanup_is_asked_for_after_every_encoder_outcome() {
    let outcomes = vec![
        EncoderOutcome::Exited { success: true, stderr: String::new() },
        EncoderOutcome::Exited { success: false, stderr: "x".to_string() },
        EncoderOutcome::LaunchFailed("y".to_string()),
    ];
    for outcome in outcomes {
        let mut c = creator();
        let mut run = begin(&mut c, &["/a/1.jpg"]);
        c.advance(&mut run, CreationEvent::FrameListWritten("/tmp/unique.txt".to_string()))
            .unwrap();
        c.advance(&mut run, CreationEvent::EncoderFinished(outcome)).unwrap();
        assert!(
            matches!(&run.pending, CreationAction::RemoveFrameList(f) if f == "/tmp/unique.txt")
        );
        assert!(!run.is_finished());
        assert!(c.advance(&mut run, CreationEvent::OutputProbed(true)).is_err());
        assert!(!run.is_finished());
    }
}

#[test]
fn unexpected_events_are_refused_and_change_nothing() {
    let mut c = creator();
    let mut run = begin(&mut c, &["/a/1.jpg"]);
    let r = c.advance(&mut run, CreationEvent::OutputProbed(true));
    assert!(matches!(r, Err(DomainError::InvalidState(m)) if m == "Unexpected event"));
    assert_eq!(run.current_phase(), CreationPhase::AwaitingFrameList);
    assert_eq!(run.job.status, InProgress);
    assert_eq!(run.history, vec![Pending, InProgress]);
    let r = c.advance(&mut run, CreationEvent::FrameListRemoved);
    assert!(r.is_err());
    let r = c.advance(
        &mut run,
        CreationEvent::EncoderFinished(EncoderOutcome::LaunchFailed("x".to_string())),
    );
    assert!(r.is_err());
    assert_eq!(run.job.status, InProgress);

    c.advance(&mut run, CreationEvent::FrameListFailed("x".to_string())).unwrap();
    assert!(run.is_finished());
    let r = c.advance(&mut run, CreationEvent::FrameListWritten("l".to_string()));
    assert!(matches!(r, Err(DomainError::InvalidState(_))));
    assert!(run.is_finished());
    assert_eq!(run.history, vec![Pending, InProgress, Failed]);
}

#[test]
fn relative_paths_are_resolved_against_the_working_directory() {
    let mut c = creator();
    let run = c
        .begin(&request(&["img/1.jpg", "/abs/2.jpg"], "out.mp4", ImageSpec::default()), true, &work_dir())
        .unwrap();
    let first = resolve_path("img/1.jpg", &work_dir()).unwrap();
    match &run.pending {
        CreationAction::WriteFrameList(content) => assert_eq!(
            content,
            &format!("file '{}'\nduration 1\nfile '/abs/2.jpg'\nduration 1\nfile '/abs/2.jpg'\n", first)
        ),
        other => panic!("unexpected action {:?}", other),
    }
    assert_eq!(run.output_path, resolve_path("out.mp4", &work_dir()).unwrap());
}

#[test]
fn without_a_working_directory_relative_paths_fail_the_job() {
    let mut c = creator();
    let run = c
        .begin(
            &request(&["img/1.jpg"], "/out.mp4", ImageSpec::default()),
            true,
            &Err("no working directory".to_string()),
        )
        .unwrap();
    assert!(run.is_finished());
    assert_eq!(run.job.status, Failed);
    assert_eq!(run.job.error_message.as_deref(), Some("IO error: no working directory"));
    assert_eq!(run.history, vec![Pending, InProgress, Failed]);
    assert_eq!(stored_status(&c, &run), Failed);
}

#[test]
fn without_a_working_directory_absolute_paths_still_work() {
    let mut c = creator();
    let run = c
        .begin(
            &request(&["/img/1.jpg"], "/out.mp4", ImageSpec::default()),
            true,
            &Err("no working directory".to_string()),
        )
        .unwrap();
    assert_eq!(run.current_phase(), CreationPhase::AwaitingFrameList);
}

#[test]
fn frame_list_uses_the_duration_of_the_request() {
    let mut c = creator();
    let spec = ImageSpec::new(320, 240, 7).unwrap();
    let mut run = c.begin(&request(&["/1.jpg"], "/o.mp4", spec), true, &work_dir()).unwrap();
    assert!(
        matches!(&run.pending, CreationAction::WriteFrameList(t) if t == "file '/1.jpg'\nduration 7\nfile '/1.jpg'\n")
    );
    c.advance(&mut run, CreationEvent::FrameListWritten("l".to_string())).unwrap();
    match &run.pending {
        CreationAction::RunEncoder { arguments, .. } => assert_eq!(arguments[7], "scale=320:240"),
        other => panic!("unexpected action {:?}", other),
    }
}

#[test]
fn get_job_status_of_an_unknown_job_is_none() {
    let c = creator();
    let r = c.get_job_status(&VideoCreationJobId::new("job_0".to_string())).unwrap();
    assert!(r.is_none());
}

#[test]
fn completing_a_job_that_is_not_in_progress_is_noted_as_a_failure() {
    let mut c = creator();
    let mut run = begin(&mut c, &["/a/1.jpg"]);
    c.advance(&mut run, CreationEvent::FrameListWritten("/tmp/l.txt".to_string())).unwrap();
    run.job.status = Pending;
    c.advance(
        &mut run,
        CreationEvent::EncoderFinished(EncoderOutcome::Exited {
            success: true,
            stderr: String::new(),
        }),
    )
    .unwrap();
    assert!(matches!(&run.pending, CreationAction::RemoveFrameList(f) if f == "/tmp/l.txt"));
    assert!(matches!(&run.failure, Some(DomainError::InvalidState(m)) if m == "Job not in progress"));
    c.advance(&mut run, CreationEvent::FrameListRemoved).unwrap();
    assert!(run.is_finished());
    assert!(matches!(run.into_result(), Err(DomainError::InvalidState(_))));
}

struct RefusingRepository {
    inner: InMemoryVideoCreationRepository,
    writes_left: usize,
}

impl VideoCreationRepository for RefusingRepository {
    fn jobs(
        &self,
    ) -> vstd::map::Map<
        vstd::seq::Seq<char>,
        video_streaming_api::domain::video_creation::JobView,
    > {
        unreachable!()
    }

    fn never_fails(&self) -> bool {
        false
    }

    fn written(
        &self,
    ) -> vstd::seq::Seq<video_streaming_api::domain::video_creation::JobView> {
        unreachable!()
    }

    fn save_job(
        &mut self,
        job: &video_streaming_api::domain::video_creation::VideoCreationJob,
    ) -> Result<(), DomainError> {
        if self.writes_left == 0 {
            return Err(DomainError::IoError("store down".to_string()));
        }
        self.writes_left -= 1;
        self.inner.save_job(job)
    }

    fn find_job_by_id(
        &self,
        id: &VideoCreationJobId,
    ) -> Result<Option<video_streaming_api::domain::video_creation::VideoCreationJob>, DomainError>
    {
        self.inner.find_job_by_id(id)
    }

    fn find_jobs_by_status(
        &self,
        status: &VideoCreationStatus,
    ) -> Result<Vec<video_streaming_api::domain::video_creation::VideoCreationJob>, DomainError>
    {
        self.inner.find_jobs_by_status(status)
    }

    fn update_job(
        &mut self,
        job: &video_streaming_api::domain::video_creation::VideoCreationJob,
    ) -> Result<(), DomainError> {
        self.save_job(job)
    }
}

#[test]
fn a_store_that_fails_midway_still_gets_the_frame_list_removed() {
    let repository = RefusingRepository { inner: InMemoryVideoCreationRepository::new(), writes_left: 2 };
    let mut c = FFmpegVideoCreator::new(repository);
    let mut run = c
        .begin(&request(&["/1.jpg"], "/o.mp4", ImageSpec::default()), true, &work_dir())
        .unwrap();
    c.advance(&mut run, CreationEvent::FrameListWritten("/tmp/l.txt".to_string())).unwrap();
    c.advance(
        &mut run,
        CreationEvent::EncoderFinished(EncoderOutcome::Exited {
            success: true,
            stderr: String::new(),
        }),
    )
    .unwrap();
    assert!(matches!(&run.failure, Some(DomainError::IoError(m)) if m == "store down"));
    assert!(matches!(&run.pending, CreationAction::RemoveFrameList(f) if f == "/tmp/l.txt"));
    c.advance(&mut run, CreationEvent::FrameListRemoved).unwrap();
    assert!(run.is_finished());
    assert!(matches!(run.into_result(), Err(DomainError::IoError(m)) if m == "store down"));
}

#[test]
fn a_store_that_fails_at_once_fails_the_beginning() {
    let repository = RefusingRepository { inner: InMemoryVideoCreationRepository::new(), writes_left: 0 };
    let mut c = FFmpegVideoCreator::new(repository);
    let r = c.begin(&request(&["/1.jpg"], "/o.mp4", ImageSpec::default()), true, &work_dir());
    assert!(matches!(r, Err(DomainError::IoError(m)) if m == "store down"));
}
