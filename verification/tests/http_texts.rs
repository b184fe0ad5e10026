use video_streaming_api::application::dto::CreateVideoResponse;
use video_streaming_api::infrastructure::http::{
    create_video_request_from_query, creation_failed_text, creation_started_text, health_report,
    image_paths_from_query, job_not_found_text, job_status_text, query_value,
    validation_failed_text, validation_passed_text,
};
use video_streaming_api::shared::config::Config;

fn params(pairs: &[(&str, &str)]) -> Vec<(String, String)> {
    pairs.iter().map(|(k, v)| (k.to_string(), v.to_string())).collect()
}

#[test]
fn query_value_finds_the_first_of_a_name() {
    let p = params(&[("a", "1"), ("b", "2"), ("a", "3")]);
    assert_eq!(query_value(&p, "a").map(|s| s.as_str()), Some("1"));
    assert_eq!(query_value(&p, "b").map(|s| s.as_str()), Some("2"));
    assert_eq!(query_value(&p, "c"), None);
    assert_eq!(query_value(&Vec::new(), "a"), None);
}

#[test]
fn image_paths_are_read_in_the_order_of_their_numbers() {
    let p = params(&[("image2", "b.jpg"), ("video_id", "v"), ("image1", "a.jpg"), ("image3", "c.jpg")]);
    assert_eq!(image_paths_from_query(&p), vec!["a.jpg", "b.jpg", "c.jpg"]);
}

#[test]
fn image_paths_stop_at_the_first_gap() {
    let p = params(&[("image1", "a.jpg"), ("image3", "c.jpg"), ("image4", "d.jpg")]);
    assert_eq!(image_paths_from_query(&p), vec!["a.jpg"]);
    let none = params(&[("image0", "z.jpg"), ("image2", "b.jpg"), ("image", "x"), ("image01", "y")]);
    assert!(image_paths_from_query(&none).is_empty());
    assert!(image_paths_from_query(&Vec::new()).is_empty());
}

#[test]
fn image_paths_past_nine_use_decimal_numbers() {
    let mut pairs: Vec<(String, String)> = Vec::new();
    for i in (1..=12).rev() {
        pairs.push((format!("image{}", i), format!("{}.png", i)));
    }
    let read = image_paths_from_query(&pairs);
    assert_eq!(read.len(), 12);
    assert_eq!(read[0], "1.png");
    assert_eq!(read[9], "10.png");
    assert_eq!(read[11], "12.png");
}

#[test]
fn create_video_query_is_read_into_a_request() {
    let p = params(&[
        ("video_id", "test"),
        ("output_path", "output.mp4"),
        ("image1", "img1.jpg"),
        ("image2", "img2.jpg"),
        ("width", "640"),
        ("height", "480"),
        ("duration", "2"),
    ]);
    let r = create_video_request_from_query(&p).unwrap();
    assert_eq!(r.video_id, "test");
    assert_eq!(r.output_path, "output.mp4");
    assert_eq!(r.image_paths, vec!["img1.jpg", "img2.jpg"]);
    assert_eq!((r.width, r.height, r.duration_per_image), (Some(640), Some(480), Some(2)));
}

#[test]
fn create_video_query_leaves_out_numbers_that_are_no_numerals() {
    let p = params(&[
        ("video_id", "test"),
        ("output_path", "output.mp4"),
        ("image1", "img1.jpg"),
        ("width", "wide"),
        ("height", "4294967296"),
    ]);
    let r = create_video_request_from_query(&p).unwrap();
    assert_eq!((r.width, r.height, r.duration_per_image), (None, None, None));
}

#[test]
fn create_video_query_says_what_is_missing() {
    let p = params(&[("output_path", "o.mp4"), ("image1", "a.jpg")]);
    assert_eq!(create_video_request_from_query(&p).unwrap_err(), "Missing video_id parameter");
    let p = params(&[("video_id", "v"), ("image1", "a.jpg")]);
    assert_eq!(create_video_request_from_query(&p).unwrap_err(), "Missing output_path parameter");
    let p = params(&[("video_id", "v"), ("output_path", "o.mp4"), ("image2", "b.jpg")]);
    assert_eq!(
        create_video_request_from_query(&p).unwrap_err(),
        "No image paths provided. Use image1, image2, etc. parameters"
    );
    assert_eq!(
        create_video_request_from_query(&Vec::new()).unwrap_err(),
        "Missing video_id parameter"
    );
}

#[test]
fn creation_text_lists_the_job() {
    let response = CreateVideoResponse {
        job_id: "job_17".to_string(),
        video_id: "v".to_string(),
        status: "Completed".to_string(),
        total_frames: 5,
        estimated_duration: 5,
        created_at: "0".to_string(),
    };
    assert_eq!(
        creation_started_text(&response),
        "Video creation job started.\nJob ID: job_17\nStatus: Completed\nTotal frames: 5\nEstimated duration: 5s"
    );
}

#[test]
fn job_status_text_lists_the_job() {
    assert_eq!(
        job_status_text("job_17", "video_1", "InProgress"),
        "Job ID: job_17\nVideo ID: video_1\nStatus: InProgress"
    );
}

#[test]
fn validation_and_failure_texts() {
    assert_eq!(validation_passed_text(3), "All 3 images are valid");
    assert_eq!(validation_passed_text(0), "All 0 images are valid");
    assert_eq!(validation_failed_text("File not found"), "Validation failed: File not found");
    assert_eq!(creation_failed_text("Invalid range request"), "Error creating video: Invalid range request");
    assert_eq!(job_not_found_text("File not found"), "Job not found: File not found");
}

#[test]
fn health_report_tells_encoder_config_and_default_spec() {
    let mut config = Config::new();
    assert_eq!(
        health_report(true, &config),
        "Video Streaming API - Health Check\nStatus: OK\nFFmpeg Available: true\nConfig Valid: true\nDefault Image Spec: 800x600 (1s per image)"
    );
    config.port = 0;
    config.default_image_width = 1024;
    assert_eq!(
        health_report(false, &config),
        "Video Streaming API - Health Check\nStatus: OK\nFFmpeg Available: false\nConfig Valid: false\nDefault Image Spec: 1024x600 (1s per image)"
    );
}
