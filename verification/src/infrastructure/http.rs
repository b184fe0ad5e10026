//! What goes over HTTP: the reading of query parameters into requests
//! and the texts of the responses.
use vstd::prelude::*;
use vstd::string::StringExecFns;
use crate::application::dto::{CreateVideoRequest, CreateVideoResponse};
use crate::shared::config::Config;
use crate::shared::text::{
    append_decimal,
    joined,
    decimal,
    parse_u64,
    parse_u64_spec,
    texts,
};

verus! {

/// The value of the first parameter named `name`, if there is one.
pub open spec fn lookup(params: Seq<(String, String)>, name: Seq<char>) -> Option<Seq<char>>
    decreases params.len(),
{
    if params.len() == 0 {
        None
    } else if params[0].0@ == name {
        Some(params[0].1@)
    } else {
        lookup(params.subrange(1, params.len() as int), name)
    }
}

/// The value of the first parameter named `name`, if there is one.
pub fn query_value<'a>(params: &'a Vec<(String, String)>, name: &str) -> (r: Option<&'a String>)
    ensures
        optional_ref_text(r) == lookup(params@, name@),
{
    let mut i: usize = 0;
    assert(params@.subrange(0, params@.len() as int) =~= params@);
    while i < params.len()
        invariant
            i <= params.len(),
            lookup(params@, name@) == lookup(
                params@.subrange(i as int, params@.len() as int),
                name@,
            ),
        decreases params.len() - i,
    {
        proof {
            let rest = params@.subrange(i as int, params@.len() as int);
            assert(rest.subrange(1, rest.len() as int) =~= params@.subrange(
                i + 1,
                params@.len() as int,
            ));
        }
        if params[i].0.as_str().eq(name) {
            return Some(&params[i].1);
        }
        i = i + 1;
    }
    None
}

/// The text of an optional reference to a string.
pub open spec fn optional_ref_text(text: Option<&String>) -> Option<Seq<char>> {
    match text {
        Some(t) => Some(t@),
        None => None,
    }
}

/// The name of the parameter that holds the `i`-th image path.
pub open spec fn image_key(i: nat) -> Seq<char> {
    "image"@ + decimal(i)
}

/// The image paths of a query: the values of `image1`, `image2` and so
/// on, in that order, up to the first number that is not a parameter.
/// No more are read than the query has parameters.
pub fn image_paths_from_query(params: &Vec<(String, String)>) -> (r: Vec<String>)
    ensures
        r@.len() <= params@.len(),
        forall|i: int|
            0 <= i < r@.len() ==> lookup(params@, #[trigger] image_key((i + 1) as nat)) == Some(
                r@[i]@,
            ),
        r@.len() < params@.len() ==> lookup(params@, image_key((r@.len() + 1) as nat)) is None,
{
    let mut image_paths: Vec<String> = Vec::new();
    let mut i: usize = 0;
    while i < params.len()
        invariant
            i <= params.len(),
            image_paths@.len() == i,
            forall|k: int|
                0 <= k < i ==> lookup(params@, #[trigger] image_key((k + 1) as nat)) == Some(
                    image_paths@[k]@,
                ),
        decreases params.len() - i,
    {
        let mut key = String::from_str("image");
        append_decimal(&mut key, (i as u128) + 1);
        match query_value(params, key.as_str()) {
            Some(path) => {
                image_paths.push(path.clone());
            },
            None => {
                return image_paths;
            },
        }
        i = i + 1;
    }
    image_paths
}

/// The number that a parameter holds, where it holds a decimal numeral
/// of 32 bits; `None` for a parameter that is absent or holds anything
/// else.
pub open spec fn number_of(value: Option<Seq<char>>) -> Option<u32> {
    match value {
        Some(text) => match parse_u64_spec(text) {
            Some(n) => if n <= u32::MAX {
                Some(n as u32)
            } else {
                None
            },
            None => None,
        },
        None => None,
    }
}

/// The number that the parameter named `name` holds; see `number_of`.
fn query_number(params: &Vec<(String, String)>, name: &str) -> (r: Option<u32>)
    ensures
        r == number_of(lookup(params@, name@)),
{
    match query_value(params, name) {
        Some(text) => match parse_u64(text.as_str()) {
            Some(n) => if n <= 0xffff_ffff {
                Some(n as u32)
            } else {
                None
            },
            None => None,
        },
        None => None,
    }
}

/// The message for a query that names no image.
pub open spec fn no_images_text() -> Seq<char> {
    "No image paths provided. Use image1, image2, etc. parameters"@
}

/// Reads the query of a request for a video. The video identifier and
/// the output path must be there, and at least `image1`; the message
/// says what is missing, the identifier first, then the output path,
/// then the images. The width, the height and the duration per image
/// are taken where they are numerals and left out where they are not.
pub fn create_video_request_from_query(params: &Vec<(String, String)>) -> (r: Result<
    CreateVideoRequest,
    String,
>)
    ensures
        lookup(params@, "video_id"@) is None ==> (r matches Err(msg) && msg@
            == "Missing video_id parameter"@),
        lookup(params@, "video_id"@) is Some && lookup(params@, "output_path"@) is None ==> (
        r matches Err(msg) && msg@ == "Missing output_path parameter"@),
        lookup(params@, "video_id"@) is Some && lookup(params@, "output_path"@) is Some && lookup(
            params@,
            image_key(1),
        ) is None ==> (r matches Err(msg) && msg@ == no_images_text()),
        lookup(params@, "video_id"@) is Some && lookup(params@, "output_path"@) is Some && lookup(
            params@,
            image_key(1),
        ) is Some ==> (r matches Ok(request) && {
            &&& Some(request.video_id@) == lookup(params@, "video_id"@)
            &&& Some(request.output_path@) == lookup(params@, "output_path"@)
            &&& request.width == number_of(lookup(params@, "width"@))
            &&& request.height == number_of(lookup(params@, "height"@))
            &&& request.duration_per_image == number_of(lookup(params@, "duration"@))
            &&& 0 < request.image_paths@.len() <= params@.len()
            &&& forall|i: int|
                0 <= i < request.image_paths@.len() ==> lookup(
                    params@,
                    #[trigger] image_key((i + 1) as nat),
                ) == Some(request.image_paths@[i]@)
            &&& request.image_paths@.len() < params@.len() ==> lookup(
                params@,
                image_key((request.image_paths@.len() + 1) as nat),
            ) is None
        }),
{
    let video_id = match query_value(params, "video_id") {
        Some(video_id) => video_id.clone(),
        None => {
            return Err(String::from_str("Missing video_id parameter"));
        },
    };
    let output_path = match query_value(params, "output_path") {
        Some(output_path) => output_path.clone(),
        None => {
            return Err(String::from_str("Missing output_path parameter"));
        },
    };
    let image_paths = image_paths_from_query(params);
    if image_paths.len() == 0 {
        return Err(
            String::from_str("No image paths provided. Use image1, image2, etc. parameters"),
        );
    }
    Ok(
        CreateVideoRequest {
            video_id,
            output_path,
            image_paths,
            width: query_number(params, "width"),
            height: query_number(params, "height"),
            duration_per_image: query_number(params, "duration"),
        },
    )
}

/// The text that answers a request for a video whose conversion has
/// ended.
pub open spec fn creation_text(
    job_id: Seq<char>,
    status: Seq<char>,
    total_frames: nat,
    estimated_duration: nat,
) -> Seq<char> {
    "Video creation job started.\nJob ID: "@ + job_id + "\nStatus: "@ + status
        + "\nTotal frames: "@ + decimal(total_frames) + "\nEstimated duration: "@ + decimal(
        estimated_duration,
    ) + "s"@
}

/// The text that answers a request for a video whose conversion has
/// ended.
pub fn creation_started_text(response: &CreateVideoResponse) -> (r: String)
    ensures
        r@ == creation_text(
            response.job_id@,
            response.status@,
            response.total_frames as nat,
            response.estimated_duration as nat,
        ),
{
    let mut out = String::from_str("Video creation job started.\nJob ID: ");
    out.append(response.job_id.as_str());
    out.append("\nStatus: ");
    out.append(response.status.as_str());
    out.append("\nTotal frames: ");
    append_decimal(&mut out, response.total_frames as u128);
    out.append("\nEstimated duration: ");
    append_decimal(&mut out, response.estimated_duration as u128);
    out.append("s");
    out
}

/// The head of the text that reports on a job: its identifier, its
/// video and its status.
pub fn job_status_text(job_id: &str, video_id: &str, status: &str) -> (r: String)
    ensures
        r@ == "Job ID: "@ + job_id@ + "\nVideo ID: "@ + video_id@ + "\nStatus: "@ + status@,
{
    let mut out = String::from_str("Job ID: ");
    out.append(job_id);
    out.append("\nVideo ID: ");
    out.append(video_id);
    out.append("\nStatus: ");
    out.append(status);
    out
}

/// The text that answers a validation in which all `count` images
/// passed.
pub fn validation_passed_text(count: usize) -> (r: String)
    ensures
        r@ == "All "@ + decimal(count as nat) + " images are valid"@,
{
    let mut out = String::from_str("All ");
    append_decimal(&mut out, count as u128);
    out.append(" images are valid");
    out
}

/// The text that answers a request for a video that failed.
pub fn creation_failed_text(cause: &str) -> (r: String)
    ensures
        r@ == "Error creating video: "@ + cause@,
{
    joined("Error creating video: ", cause)
}

/// The text that answers a query for a job that is not held.
pub fn job_not_found_text(cause: &str) -> (r: String)
    ensures
        r@ == "Job not found: "@ + cause@,
{
    joined("Job not found: ", cause)
}

/// The text that answers a validation that failed.
pub fn validation_failed_text(cause: &str) -> (r: String)
    ensures
        r@ == "Validation failed: "@ + cause@,
{
    joined("Validation failed: ", cause)
}

/// The text of a truth value.
pub open spec fn truth_text(value: bool) -> Seq<char> {
    if value {
        "true"@
    } else {
        "false"@
    }
}

/// The text of the health report, up to the time at which it is made.
pub open spec fn health_text(ffmpeg_available: bool, config: Config) -> Seq<char> {
    "Video Streaming API - Health Check\nStatus: OK\nFFmpeg Available: "@ + truth_text(
        ffmpeg_available,
    ) + "\nConfig Valid: "@ + truth_text(config.usable()) + "\nDefault Image Spec: "@ + decimal(
        config.default_image_width as nat,
    ) + "x"@ + decimal(config.default_image_height as nat) + " ("@ + decimal(
        config.default_duration_per_image as nat,
    ) + "s per image)"@
}

/// The health report, up to the time at which it is made: whether the
/// encoder was found, whether the configuration can be used, and the
/// default image specification.
pub fn health_report(ffmpeg_available: bool, config: &Config) -> (r: String)
    ensures
        r@ == health_text(ffmpeg_available, *config),
{
    let config_valid = config.validate().is_ok();
    let mut out = String::from_str(
        "Video Streaming API - Health Check\nStatus: OK\nFFmpeg Available: ",
    );
    out.append(if ffmpeg_available {
        "true"
    } else {
        "false"
    });
    out.append("\nConfig Valid: ");
    out.append(if config_valid {
        "true"
    } else {
        "false"
    });
    out.append("\nDefault Image Spec: ");
    append_decimal(&mut out, config.default_image_width as u128);
    out.append("x");
    append_decimal(&mut out, config.default_image_height as u128);
    out.append(" (");
    append_decimal(&mut out, config.default_duration_per_image as u128);
    out.append("s per image)");
    out
}

} // verus!
