//! The transcoding job: its parameters, read from the trigger payload, and
//! the job description built from them.
use vstd::prelude::*;
use crate::json::{Json, str_field, get_str};

verus! {

/// The output container of a job.
#[derive(Clone, Copy, Debug, PartialEq, Eq, Structural)]
pub enum ContainerKind {
    Mp4,
}

/// The video codec of a job.
#[derive(Clone, Copy, Debug, PartialEq, Eq, Structural)]
pub enum VideoCodecKind {
    H264,
}

/// The rate control of the video encoder.
#[derive(Clone, Copy, Debug, PartialEq, Eq, Structural)]
pub enum RateControlMode {
    /// Constant bitrate.
    Cbr,
}

/// The bitrate of every job, in bits per second.
pub const JOB_BITRATE: u32 = 5000000;

/// A transcoding job: one file input, one file-group output group with one
/// output.
#[derive(Clone, Debug, PartialEq, Eq)]
pub struct JobDescription {
    /// `s3://<bucket>/<key>` of the input file.
    pub input_path: String,
    /// `s3://<bucket>/<key>` that the output group writes to.
    pub destination: String,
    pub container: ContainerKind,
    pub codec: VideoCodecKind,
    pub rate_control: RateControlMode,
    pub bitrate: u32,
}

/// The location `s3://<bucket>/<key>`.
pub open spec fn object_url(bucket: Seq<char>, key: Seq<char>) -> Seq<char> {
    "s3://"@ + bucket + "/"@ + key
}

/// The key under which the converted video of `input_key` is written.
pub open spec fn converted_key(input_key: Seq<char>) -> Seq<char> {
    "converted_video/"@ + input_key
}

fn url_of(bucket: &str, key: &str) -> (r: String)
    ensures
        r@ == object_url(bucket@, key@),
{
    String::from_str("s3://").concat(bucket).concat("/").concat(key)
}

/// The output key for the converted video of `input_key`.
pub fn output_key_for(input_key: &str) -> (r: String)
    ensures
        r@ == converted_key(input_key@),
{
    String::from_str("converted_video/").concat(input_key)
}

/// Describes the job that converts `input_bucket`/`input_key` into
/// `output_bucket`/`output_key`, with the fixed encoding settings: MP4,
/// H.264, constant bitrate at `JOB_BITRATE`.
pub fn create_job_request(input_bucket: &str, input_key: &str, output_bucket: &str, output_key: &str) -> (r: JobDescription)
    ensures
        r.input_path@ == object_url(input_bucket@, input_key@),
        r.destination@ == object_url(output_bucket@, output_key@),
        r.container == ContainerKind::Mp4,
        r.codec == VideoCodecKind::H264,
        r.rate_control == RateControlMode::Cbr,
        r.bitrate == JOB_BITRATE,
{
    JobDescription {
        input_path: url_of(input_bucket, input_key),
        destination: url_of(output_bucket, output_key),
        container: ContainerKind::Mp4,
        codec: VideoCodecKind::H264,
        rate_control: RateControlMode::Cbr,
        bitrate: JOB_BITRATE,
    }
}

/// The description of the job that converts `input_bucket`/`input_key`
/// into `output_bucket` under `converted_video/<input_key>`.
pub fn build_job(input: &JobInput) -> (r: JobDescription)
    ensures
        r.input_path@ == object_url(input.input_bucket@, input.input_key@),
        r.destination@ == object_url(input.output_bucket@, converted_key(input.input_key@)),
        r.container == ContainerKind::Mp4,
        r.codec == VideoCodecKind::H264,
        r.rate_control == RateControlMode::Cbr,
        r.bitrate == JOB_BITRATE,
{
    let output_key = output_key_for(input.input_key.as_str());
    create_job_request(
        input.input_bucket.as_str(),
        input.input_key.as_str(),
        input.output_bucket.as_str(),
        output_key.as_str(),
    )
}

/// The parameters of a job-submission trigger.
#[derive(Clone, Debug, PartialEq, Eq)]
pub struct JobInput {
    pub input_bucket: String,
    pub input_key: String,
    pub output_bucket: String,
}

/// A required parameter that the payload lacks, or holds as a non-string.
#[derive(Clone, Copy, Debug, PartialEq, Eq, Structural)]
pub enum MissingField {
    InputBucket,
    InputKey,
    OutputBucket,
}

impl MissingField {
    /// The message that reports the missing field.
    pub fn message(&self) -> (r: String)
        ensures
            r@ == match *self {
                MissingField::InputBucket => "Input bucket not provided"@,
                MissingField::InputKey => "Input key not provided"@,
                MissingField::OutputBucket => "Output bucket not provided"@,
            },
    {
        match self {
            MissingField::InputBucket => String::from_str("Input bucket not provided"),
            MissingField::InputKey => String::from_str("Input key not provided"),
            MissingField::OutputBucket => String::from_str("Output bucket not provided"),
        }
    }
}

/// Reads the job parameters from the string members `input_bucket`,
/// `input_key` and `output_bucket` of the payload, in that order; the first
/// one that is absent or not a string is the error.
pub fn job_input_from_payload(payload: &Json) -> (r: Result<JobInput, MissingField>)
    ensures
        match r {
            Ok(input) => {
                &&& str_field(Some(*payload), "input_bucket"@) == Some(input.input_bucket@)
                &&& str_field(Some(*payload), "input_key"@) == Some(input.input_key@)
                &&& str_field(Some(*payload), "output_bucket"@) == Some(input.output_bucket@)
            },
            Err(MissingField::InputBucket) => str_field(Some(*payload), "input_bucket"@) is None,
            Err(MissingField::InputKey) => str_field(Some(*payload), "input_bucket"@) is Some
                && str_field(Some(*payload), "input_key"@) is None,
            Err(MissingField::OutputBucket) => str_field(Some(*payload), "input_bucket"@) is Some
                && str_field(Some(*payload), "input_key"@) is Some
                && str_field(Some(*payload), "output_bucket"@) is None,
        },
{
    let root = Some(payload);
    let input_bucket = match get_str(root, "input_bucket") { Some(s) => s, None => return Err(MissingField::InputBucket) };
    let input_key = match get_str(root, "input_key") { Some(s) => s, None => return Err(MissingField::InputKey) };
    let output_bucket = match get_str(root, "output_bucket") { Some(s) => s, None => return Err(MissingField::OutputBucket) };
    Ok(JobInput { input_bucket, input_key, output_bucket })
}

} // verus!
