use media_lambdas::job::{
    build_job, create_job_request, job_input_from_payload, output_key_for, ContainerKind,
    JobInput, MissingField, RateControlMode, VideoCodecKind, JOB_BITRATE,
};
use media_lambdas::json::parse_json;

#[test]
fn job_description_for_clip() {
    let input = JobInput {
        input_bucket: "b1".to_string(),
        input_key: "clip.mov".to_string(),
        output_bucket: "b2".to_string(),
    };
    let job = build_job(&input);
    assert_eq!(job.input_path, "s3://b1/clip.mov");
    assert_eq!(job.destination, "s3://b2/converted_video/clip.mov");
    assert_eq!(job.container, ContainerKind::Mp4);
    assert_eq!(job.codec, VideoCodecKind::H264);
    assert_eq!(job.rate_control, RateControlMode::Cbr);
    assert_eq!(job.bitrate, 5000000);
    assert_eq!(JOB_BITRATE, 5000000);
}

#[test]
fn create_job_request_uses_given_output_key() {
    let job = create_job_request("in", "a/b.mov", "out", "x/y.mp4");
    assert_eq!(job.input_path, "s3://in/a/b.mov");
    assert_eq!(job.destination, "s3://out/x/y.mp4");
}

#[test]
fn output_key_has_prefix() {
    assert_eq!(output_key_for("clip.mov"), "converted_video/clip.mov");
    assert_eq!(output_key_for(""), "converted_video/");
}

#[test]
fn payload_gives_job_input() {
    let payload =
        parse_json(r#"{"input_bucket":"b1","input_key":"clip.mov","output_bucket":"b2","extra":1}"#)
            .unwrap();
    assert_eq!(
        job_input_from_payload(&payload),
        Ok(JobInput {
            input_bucket: "b1".to_string(),
            input_key: "clip.mov".to_string(),
            output_bucket: "b2".to_string(),
        })
    );
}

#[test]
fn payload_missing_fields() {
    let p1 = parse_json(r#"{"input_key":"k","output_bucket":"o"}"#).unwrap();
    assert_eq!(job_input_from_payload(&p1), Err(MissingField::InputBucket));
    let p2 = parse_json(r#"{"input_bucket":"b","input_key":3,"output_bucket":"o"}"#).unwrap();
    assert_eq!(job_input_from_payload(&p2), Err(MissingField::InputKey));
    let p3 = parse_json(r#"{"input_bucket":"b","input_key":"k"}"#).unwrap();
    assert_eq!(job_input_from_payload(&p3), Err(MissingField::OutputBucket));
    let p4 = parse_json(r#"[1]"#).unwrap();
    assert_eq!(job_input_from_payload(&p4), Err(MissingField::InputBucket));
}

#[test]
fn missing_field_messages() {
    assert_eq!(MissingField::InputBucket.message(), "Input bucket not provided");
    assert_eq!(MissingField::InputKey.message(), "Input key not provided");
    assert_eq!(MissingField::OutputBucket.message(), "Output bucket not provided");
}
