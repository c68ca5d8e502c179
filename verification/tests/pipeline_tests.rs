use gpop::job_pipeline::{build_demucs_pipeline, build_transcode_pipeline, get_demucs_output_files, transcode_bitrates_fit};
use gpop::job_types::{DemucsModel, DemucsOptions, OutputFormat, TranscodeOptions};

#[test]
fn test_mp4_pipeline() {
    let input = "/tmp/input.mkv";
    let output = "/tmp/output.mp4";
    let options = TranscodeOptions::default();

    let pipeline = build_transcode_pipeline(input, output, &options);

    assert!(pipeline.contains("filesrc"));
    assert!(pipeline.contains("decodebin"));
    assert!(pipeline.contains("x264enc"));
    assert!(pipeline.contains("mp4mux"));
    assert!(pipeline.contains("filesink"));
}

#[test]
fn test_mp3_pipeline() {
    let input = "/tmp/input.wav";
    let output = "/tmp/output.mp3";
    let options = TranscodeOptions {
        output_format: OutputFormat::Mp3,
        audio_bitrate_kbps: Some(320),
        ..Default::default()
    };

    let pipeline = build_transcode_pipeline(input, output, &options);

    assert!(pipeline.contains("lamemp3enc"));
    assert!(pipeline.contains("bitrate=320"));
}

#[test]
fn test_demucs_pipeline_all_stems() {
    let input = "/tmp/input.mp3";
    let output_dir = "/tmp/output";
    let options = DemucsOptions::default();

    let pipeline = build_demucs_pipeline(input, output_dir, &options);

    assert!(pipeline.contains("demucs"));
    assert!(pipeline.contains("model=htdemucs"));
    assert!(pipeline.contains("src_vocals"));
    assert!(pipeline.contains("src_drums"));
    assert!(pipeline.contains("src_bass"));
    assert!(pipeline.contains("src_other"));
    assert!(pipeline.contains("wavenc"));
}

#[test]
fn test_demucs_pipeline_specific_stems() {
    let input = "/tmp/input.mp3";
    let output_dir = "/tmp/output";
    let options = DemucsOptions {
        model: DemucsModel::HtDemucs,
        stems: vec!["vocals".to_string(), "drums".to_string()],
        output_format: "flac".to_string(),
    };

    let pipeline = build_demucs_pipeline(input, output_dir, &options);

    assert!(pipeline.contains("demucs"));
    assert!(pipeline.contains("src_vocals"));
    assert!(pipeline.contains("src_drums"));
    assert!(pipeline.contains("flacenc"));
    assert!(pipeline.contains("src_bass ! fakesink"));
    assert!(pipeline.contains("src_other ! fakesink"));
}

#[test]
fn test_get_demucs_output_files() {
    let output_dir = "/tmp/output";
    let options = DemucsOptions {
        model: DemucsModel::HtDemucs,
        stems: vec!["vocals".to_string()],
        output_format: "wav".to_string(),
    };

    let files = get_demucs_output_files(output_dir, &options);

    assert_eq!(files.len(), 1);
    assert_eq!(files[0].0, "vocals");
    assert_eq!(files[0].1, "/tmp/output/vocals.wav");
}

#[test]
fn mp4_pipeline_exact() {
    let options = TranscodeOptions {
        video_bitrate_kbps: Some(1500),
        audio_bitrate_kbps: Some(96),
        width: Some(640),
        ..Default::default()
    };
    assert_eq!(
        build_transcode_pipeline("/in/a \"b\".mkv", "/out/c.mp4", &options),
        "filesrc location=\"/in/a \\\"b\\\".mkv\" ! decodebin name=dec \
         dec. ! queue ! videoconvert ! videoscale ! video/x-raw,width=640 ! x264enc tune=zerolatency bitrate=1500 ! h264parse ! queue ! mux. \
         dec. ! queue ! audioconvert ! audioresample ! fdkaacenc bitrate=96000 ! queue ! mux. \
         mp4mux name=mux ! filesink location=\"/out/c.mp4\""
    );
}

#[test]
fn webm_ogg_flac_mkv_pipelines_exact() {
    let webm = TranscodeOptions { output_format: OutputFormat::Webm, ..Default::default() };
    assert_eq!(
        build_transcode_pipeline("i", "o", &webm),
        "filesrc location=\"i\" ! decodebin name=dec \
         dec. ! queue ! videoconvert ! vp8enc target-bitrate=2000000 deadline=1 ! queue ! mux. \
         dec. ! queue ! audioconvert ! audioresample ! vorbisenc bitrate=128000 ! queue ! mux. \
         webmmux name=mux ! filesink location=\"o\""
    );
    let ogg = TranscodeOptions { output_format: OutputFormat::Ogg, audio_bitrate_kbps: Some(64), ..Default::default() };
    assert_eq!(
        build_transcode_pipeline("i", "o", &ogg),
        "filesrc location=\"i\" ! decodebin ! audioconvert ! audioresample ! vorbisenc bitrate=64000 ! oggmux ! filesink location=\"o\""
    );
    let flac = TranscodeOptions { output_format: OutputFormat::Flac, ..Default::default() };
    assert_eq!(
        build_transcode_pipeline("i", "o", &flac),
        "filesrc location=\"i\" ! decodebin ! audioconvert ! audioresample ! flacenc ! filesink location=\"o\""
    );
    let mkv = TranscodeOptions { output_format: OutputFormat::Mkv, height: Some(480), ..Default::default() };
    assert_eq!(
        build_transcode_pipeline("i", "o", &mkv),
        "filesrc location=\"i\" ! decodebin name=dec \
         dec. ! queue ! videoconvert ! videoscale ! video/x-raw,height=480 ! x264enc tune=zerolatency ! h264parse ! queue ! mux. \
         dec. ! queue ! audioconvert ! audioresample ! fdkaacenc bitrate=128000 ! queue ! mux. \
         matroskamux name=mux ! filesink location=\"o\""
    );
    let mp3 = TranscodeOptions { output_format: OutputFormat::Mp3, ..Default::default() };
    assert_eq!(
        build_transcode_pipeline("i", "o", &mp3),
        "filesrc location=\"i\" ! decodebin ! audioconvert ! audioresample ! lamemp3enc target=bitrate bitrate=192 ! id3v2mux ! filesink location=\"o\""
    );
}

#[test]
fn escaping_strips_nul_and_escapes_backslash() {
    let flac = TranscodeOptions { output_format: OutputFormat::Flac, ..Default::default() };
    assert_eq!(
        build_transcode_pipeline("a\0b\\c", "o", &flac),
        "filesrc location=\"ab\\\\c\" ! decodebin ! audioconvert ! audioresample ! flacenc ! filesink location=\"o\""
    );
}

#[test]
fn escaped_quote_after_backslash_stays_escaped() {
    let flac = TranscodeOptions { output_format: OutputFormat::Flac, ..Default::default() };
    // The path `a\"b\` becomes `a\\\"b\\`: the quote follows three backslashes and the text
    // ends after two, so the closing quote of the property is not escaped.
    assert_eq!(
        build_transcode_pipeline("a\\\"b\\", "o", &flac),
        "filesrc location=\"a\\\\\\\"b\\\\\" ! decodebin ! audioconvert ! audioresample ! flacenc ! filesink location=\"o\""
    );
}

#[test]
fn demucs_pipeline_exact_and_unknown_stems_dropped() {
    let options = DemucsOptions {
        model: DemucsModel::HtDemucs,
        stems: vec!["guitar".to_string(), "bass".to_string()],
        output_format: "wav".to_string(),
    };
    assert_eq!(
        build_demucs_pipeline("/in.mp3", "/out", &options),
        "filesrc location=\"/in.mp3\" ! decodebin ! audioconvert ! audioresample ! \
         audio/x-raw,format=F32LE,rate=44100,channels=2 ! \
         demucs model=htdemucs name=demucs \
         demucs.src_bass ! queue ! audioconvert ! wavenc ! filesink location=\"/out/bass.wav\" \
         demucs.src_vocals ! fakesink demucs.src_drums ! fakesink demucs.src_other ! fakesink"
    );
    let files = get_demucs_output_files("/out", &options);
    assert_eq!(files, vec![("bass".to_string(), "/out/bass.wav".to_string())]);
}

#[test]
fn six_stem_model_outputs() {
    let options = DemucsOptions { model: DemucsModel::HtDemucs6s, stems: Vec::new(), output_format: "flac".to_string() };
    let files = get_demucs_output_files("/o", &options);
    let names: Vec<&str> = files.iter().map(|f| f.0.as_str()).collect();
    assert_eq!(names, vec!["vocals", "drums", "bass", "guitar", "piano", "other"]);
    assert_eq!(files[3].1, "/o/guitar.flac");
}

#[test]
fn bitrate_limits() {
    assert!(transcode_bitrates_fit(&TranscodeOptions::default()));
    let huge = TranscodeOptions { output_format: OutputFormat::Webm, video_bitrate_kbps: Some(u32::MAX), ..Default::default() };
    assert!(!transcode_bitrates_fit(&huge));
}
