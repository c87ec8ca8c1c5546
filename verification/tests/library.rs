use gst_thumbnailers::error::location;
use gst_thumbnailers::frame::{seek_positions, strip_row_padding};
use gst_thumbnailers::picture::resize;
use gst_thumbnailers::pipeline::{
    audio_step, check_pause, check_seek, plan_source_link, require_cover,
    state_change_error_details, BusError, BusEvent, PauseOutcome, ProbeStep, SourceStream,
    VideoProbe,
};
use gst_thumbnailers::plugins::{
    check_plugins, decoder_threads, is_hardware_video_decoder, needed_plugins, DecoderThreads,
    FactoryKinds,
};
use gst_thumbnailers::tags::{select_cover, TagImage};
use gst_thumbnailers::text::{decimal, same_text, starts_with, strip_prefix};
use gst_thumbnailers::{Error, ErrorKind, ThumbnailSource};

fn other_message(kind: &ErrorKind) -> &str {
    match kind {
        ErrorKind::Other(m) => m.as_str(),
        _ => panic!("not an Other error: {kind:?}"),
    }
}

#[test]
fn front_cover_is_preferred() {
    let images = vec![
        TagImage { has_caps: true, image_type: Some(1) },
        TagImage { has_caps: true, image_type: Some(4) },
        TagImage { has_caps: true, image_type: Some(3) },
        TagImage { has_caps: true, image_type: Some(3) },
    ];
    assert_eq!(select_cover(&images), Some(2));
}

#[test]
fn first_undefined_picture_is_fallback() {
    let images = vec![
        TagImage { has_caps: true, image_type: Some(4) },
        TagImage { has_caps: false, image_type: Some(3) },
        TagImage { has_caps: true, image_type: None },
        TagImage { has_caps: true, image_type: Some(1) },
    ];
    assert_eq!(select_cover(&images), Some(2));
}

#[test]
fn no_usable_picture() {
    let images = vec![
        TagImage { has_caps: true, image_type: Some(4) },
        TagImage { has_caps: false, image_type: Some(3) },
        TagImage { has_caps: false, image_type: None },
    ];
    assert_eq!(select_cover(&images), None);
    assert_eq!(select_cover(&Vec::new()), None);
}

#[test]
fn seek_positions_of_short_video() {
    assert_eq!(seek_positions(1000), vec![100, 200, 300, 600, 900]);
    assert_eq!(seek_positions(0), vec![0, 0, 0, 0, 0]);
    // Rounded up: 10 % of 7 ns is 0.7 ns.
    assert_eq!(seek_positions(7), vec![1, 2, 3, 5, 7]);
}

#[test]
fn seek_positions_of_long_video() {
    let d = 200_000_000_000u64;
    assert_eq!(
        seek_positions(d),
        vec![20_000_000_000, 30_000_000_000, 40_000_000_000, 50_000_000_000, 60_000_000_000]
    );
    // Exactly three minutes is still short.
    let d = 180_000_000_000u64;
    assert_eq!(
        seek_positions(d),
        vec![18_000_000_000, 36_000_000_000, 54_000_000_000, 108_000_000_000, 162_000_000_000]
    );
}

#[test]
fn seek_positions_of_longest_video() {
    let d = u64::MAX - 1;
    let p = seek_positions(d);
    assert!(p.iter().all(|x| *x <= d));
    assert!(p.windows(2).all(|w| w[0] <= w[1]));
}

#[test]
fn row_padding_is_removed() {
    // Two pixels per row (6 bytes), stride 8, three rows.
    let data: Vec<u8> = (0..24).collect();
    let out = strip_row_padding(&data, 2, 3, 8);
    assert_eq!(
        out,
        vec![0, 1, 2, 3, 4, 5, 8, 9, 10, 11, 12, 13, 16, 17, 18, 19, 20, 21]
    );
}

#[test]
fn missing_rows_stay_black() {
    // Only one complete row of 8 bytes; the trailing partial row is ignored.
    let data: Vec<u8> = (1..=12).collect();
    let out = strip_row_padding(&data, 2, 2, 8);
    assert_eq!(out, vec![1, 2, 3, 4, 5, 6, 0, 0, 0, 0, 0, 0]);
}

#[test]
fn rows_without_padding_are_copied() {
    let data: Vec<u8> = (0..6).collect();
    assert_eq!(strip_row_padding(&data, 1, 2, 3), data);
}

#[test]
fn all_plugins_present() {
    assert!(check_plugins(&vec![true; 7]).is_ok());
    assert_eq!(
        needed_plugins(),
        vec![
            "coreelements",
            "playback",
            "videoconvertscale",
            "videofilter",
            "audioconvert",
            "audioresample",
            "autodetect"
        ]
    );
}

#[test]
fn missing_plugins_are_reported() {
    let present = vec![true, false, true, true, true, true, false];
    let err = check_plugins(&present).unwrap_err();
    assert_eq!(
        other_message(&err),
        "Missing GStreamer plugins: [\"playback\", \"autodetect\"]"
    );
    let err = check_plugins(&vec![false; 7]).unwrap_err();
    assert_eq!(
        other_message(&err),
        format!("Missing GStreamer plugins: {:?}", needed_plugins())
    );
}

#[test]
fn hardware_decoders_are_recognised() {
    let all = FactoryKinds { video: true, decoder: true, hardware: true };
    assert!(is_hardware_video_decoder(Some(all)));
    assert!(!is_hardware_video_decoder(Some(FactoryKinds { hardware: false, ..all })));
    assert!(!is_hardware_video_decoder(Some(FactoryKinds { video: false, ..all })));
    assert!(!is_hardware_video_decoder(Some(FactoryKinds { decoder: false, ..all })));
    assert!(!is_hardware_video_decoder(None));
}

#[test]
fn decoder_thread_settings() {
    assert_eq!(decoder_threads("avdec_h264"), DecoderThreads::MaxThreads);
    assert_eq!(decoder_threads("avdec_"), DecoderThreads::MaxThreads);
    assert_eq!(decoder_threads("dav1ddec"), DecoderThreads::NThreads);
    assert_eq!(decoder_threads("vp8dec"), DecoderThreads::Threads);
    assert_eq!(decoder_threads("vp9dec"), DecoderThreads::Threads);
    assert_eq!(decoder_threads("vp9dec2"), DecoderThreads::Unchanged);
    assert_eq!(decoder_threads("avdec"), DecoderThreads::Unchanged);
    assert_eq!(decoder_threads("queue"), DecoderThreads::Unchanged);
}

#[test]
fn error_text() {
    let e = Error::other("No tag image found".to_string(), "src/lib.rs:71:17".to_string());
    assert_eq!(e.message(), "gst-thumbnailers: src/lib.rs:71:17: No tag image found");
    assert_eq!(e.location(), "src/lib.rs:71:17");
    assert_eq!(other_message(e.kind()), "No tag image found");
    let e = Error::new(ErrorKind::StdIo("disk full".to_string()), "a.rs:1:2".to_string());
    assert_eq!(e.message(), "gst-thumbnailers: a.rs:1:2: disk full");
}

#[test]
fn error_location_is_relative() {
    assert_eq!(location("/pkg/src/lib.rs", "/pkg", 12, 5), "src/lib.rs:12:5");
    assert_eq!(location("src/lib.rs", "/pkg", 0, 4294967295), "src/lib.rs:0:4294967295");
    // Without a slash after the package directory the path is kept whole.
    assert_eq!(location("/pkgs/lib.rs", "/pkg", 3, 10), "/pkgs/lib.rs:3:10");
}

#[test]
fn text_helpers() {
    assert_eq!(decimal(0), "0");
    assert_eq!(decimal(907), "907");
    assert!(starts_with("avdec_aac", "avdec_"));
    assert!(!starts_with("av", "avdec_"));
    assert!(same_text("ä", "ä"));
    assert!(!same_text("ab", "a"));
    assert_eq!(strip_prefix("/a/b", "/a"), Some("/b"));
    assert_eq!(strip_prefix("/a/b", "/b"), None);
}

#[test]
fn state_change_details() {
    assert_eq!(
        state_change_error_details(&None),
        "Error: Failed setting pipeline to PAUSED"
    );
    let e = Some(BusError { message: "not found".to_string(), debug: None });
    assert_eq!(
        state_change_error_details(&e),
        "Error: Failed setting pipeline to PAUSED\nnot found"
    );
    let e = Some(BusError {
        message: "not found".to_string(),
        debug: Some("uridecodebin".to_string()),
    });
    assert_eq!(
        state_change_error_details(&e),
        "Error: Failed setting pipeline to PAUSED\nnot found\nuridecodebin"
    );
}

#[test]
fn pause_outcomes() {
    assert!(check_pause(&PauseOutcome::Prerolling).is_ok());
    let err = check_pause(&PauseOutcome::Live).unwrap_err();
    assert_eq!(
        other_message(&err),
        "Error: thumbnails of live streams make little sense"
    );
    let err = check_pause(&PauseOutcome::Failed(None)).unwrap_err();
    assert_eq!(other_message(&err), "Error: Failed setting pipeline to PAUSED");
}

#[test]
fn audio_steps() {
    assert!(matches!(audio_step(&BusEvent::AsyncDone), ProbeStep::Done));
    assert!(matches!(audio_step(&BusEvent::Other), ProbeStep::Continue));
    assert!(matches!(audio_step(&BusEvent::StreamsSelected), ProbeStep::Continue));
    match audio_step(&BusEvent::Error("boom".to_string())) {
        ProbeStep::Fail(k) => {
            assert_eq!(other_message(&k), "Error: Failed pre-rolling pipeline: boom")
        }
        s => panic!("{s:?}"),
    }
    let tags = vec![
        TagImage { has_caps: true, image_type: Some(0) },
        TagImage { has_caps: true, image_type: Some(3) },
    ];
    assert!(matches!(audio_step(&BusEvent::Tag(tags)), ProbeStep::Cover(1)));
    let tags = vec![TagImage { has_caps: true, image_type: Some(0) }];
    assert!(matches!(audio_step(&BusEvent::Tag(tags)), ProbeStep::Continue));
}

#[test]
fn missing_cover_is_an_error() {
    let err = require_cover(None).unwrap_err();
    assert_eq!(other_message(&err), "No tag image found");
    let cover = require_cover(Some(ThumbnailSource::CoverArt(vec![1, 2]))).unwrap();
    assert!(matches!(cover, ThumbnailSource::CoverArt(d) if d == vec![1, 2]));
}

#[test]
fn video_probe_without_pads_fails() {
    let mut probe = VideoProbe::new();
    match probe.step(&BusEvent::StreamsSelected) {
        ProbeStep::Fail(k) => assert_eq!(other_message(&k), "No pad added for source."),
        s => panic!("{s:?}"),
    }
    // The status is reset once taken.
    assert!(matches!(probe.step(&BusEvent::StreamsSelected), ProbeStep::Continue));
}

#[test]
fn video_probe_keeps_first_success() {
    let mut probe = VideoProbe::new();
    probe.record_link(Err(ErrorKind::Other("audio".to_string())));
    probe.record_link(Ok(()));
    probe.record_link(Err(ErrorKind::Other("subtitles".to_string())));
    assert!(matches!(probe.step(&BusEvent::StreamsSelected), ProbeStep::Continue));
}

#[test]
fn video_probe_reports_last_error() {
    let mut probe = VideoProbe::new();
    probe.record_link(Err(ErrorKind::Other("first".to_string())));
    probe.record_link(Err(ErrorKind::Other("second".to_string())));
    match probe.step(&BusEvent::StreamsSelected) {
        ProbeStep::Fail(k) => assert_eq!(other_message(&k), "second"),
        s => panic!("{s:?}"),
    }
}

#[test]
fn video_probe_messages() {
    let mut probe = VideoProbe::new();
    assert!(matches!(probe.step(&BusEvent::AsyncDone), ProbeStep::Done));
    assert!(matches!(probe.step(&BusEvent::Other), ProbeStep::Continue));
    match probe.step(&BusEvent::Error("bad".to_string())) {
        ProbeStep::Fail(k) => assert_eq!(other_message(&k), "Failed pre-rolling pipeline: bad"),
        s => panic!("{s:?}"),
    }
    let tags = vec![TagImage { has_caps: true, image_type: None }];
    assert!(matches!(probe.step(&BusEvent::Tag(tags)), ProbeStep::Cover(0)));
}

#[test]
fn seek_errors() {
    assert!(check_seek(&None).is_ok());
    let err = check_seek(&Some("eos".to_string())).unwrap_err();
    assert_eq!(
        other_message(&err),
        "Error: Failed pre-rolling pipeline after seek: eos"
    );
}

fn video_stream(pixel_aspect_ratio: Result<Option<(i32, i32)>, String>) -> SourceStream {
    SourceStream {
        is_video: true,
        stream_type: "video".to_string(),
        pixel_aspect_ratio,
    }
}

#[test]
fn audio_stream_is_refused() {
    let stream = SourceStream {
        is_video: false,
        stream_type: "audio".to_string(),
        pixel_aspect_ratio: Ok(None),
    };
    let err = plan_source_link(&stream).unwrap_err();
    assert_eq!(other_message(&err), "Stream is of type 'audio' instead of 'video'");
}

#[test]
fn video_stream_is_accepted() {
    assert_eq!(plan_source_link(&video_stream(Ok(None))).unwrap(), None);
    assert_eq!(
        plan_source_link(&video_stream(Ok(Some((4, 3))))).unwrap(),
        Some((4, 3))
    );
    let err = plan_source_link(&video_stream(Err("wrong type".to_string()))).unwrap_err();
    assert_eq!(other_message(&err), "wrong type");
}

#[test]
fn resize_changes_picture_size() {
    let pixels: Vec<u8> = (0..48).map(|x| (x * 5) as u8).collect();
    let out = resize(&pixels, 4, 4, 2, 2);
    assert_eq!(out.len(), 12);
    let out = resize(&pixels, 4, 4, 8, 2);
    assert_eq!(out.len(), 48);
    assert_ne!(out, pixels);
}

#[test]
fn resize_uniform_picture_keeps_colour() {
    let pixels: Vec<u8> = [10u8, 20, 30].repeat(16);
    let out = resize(&pixels, 4, 4, 3, 3);
    assert_eq!(out, [10u8, 20, 30].repeat(9));
}

#[test]
fn resize_of_empty_picture_is_black() {
    let out = resize(&[], 0, 0, 2, 1);
    assert_eq!(out, vec![0; 6]);
}

#[test]
fn cover_is_resized_to_thumbnail() {
    let pixels: Vec<u8> = [200u8, 100, 50].repeat(600 * 300);
    let data = resize(&pixels, 600, 300, 256, 128);
    assert_eq!(data, [200u8, 100, 50].repeat(256 * 128));
    let data = resize(&pixels[..3 * 20 * 10], 20, 10, 20, 10);
    assert_eq!(data.len(), 600);
}
