use block_modes::block_padding::Pkcs7;
use block_modes::{BlockMode, Cbc};
use hls_fetch::assembly::SegmentAssembly;
use hls_fetch::backend::{accel_from_encoders, choose_backend, encoder_args, AccelType, TranscoderKind};
use hls_fetch::error::FetchError;
use hls_fetch::keys::{decode_segment, finish_key, plan_key, DecryptionKey};
use hls_fetch::naming::{decimal_string, segment_file_name, zero_padded};
use hls_fetch::options::RunOptions;
use hls_fetch::playlist::{expect_media, resolve_playlist, select_variant, KeyRef, Resolved, Segment, Variant};
use hls_fetch::retry::{after_attempt, AttemptAction};
use hls_fetch::urls::{base_url, entry_url, find_last, key_url, referer_for};
use hls_fetch::window::DispatchWindow;
use hls_fetch::workdir::{after_probe, ProbeStep};

const MASTER: &str = "#EXTM3U\n\
#EXT-X-STREAM-INF:BANDWIDTH=500000,RESOLUTION=640x360\n\
low/index.m3u8\n\
#EXT-X-STREAM-INF:BANDWIDTH=1200000,RESOLUTION=1280x720\n\
high/index.m3u8\n";

const MEDIA: &str = "#EXTM3U\n\
#EXT-X-VERSION:3\n\
#EXT-X-TARGETDURATION:10\n\
#EXT-X-MEDIA-SEQUENCE:0\n\
#EXTINF:10.0,\n\
seg0.ts\n\
#EXTINF:10.0,\n\
seg1.ts\n\
#EXTINF:10.0,\n\
seg2.ts\n\
#EXT-X-ENDLIST\n";

const ENCRYPTED: &str = "#EXTM3U\n\
#EXT-X-VERSION:3\n\
#EXT-X-TARGETDURATION:10\n\
#EXT-X-KEY:METHOD=AES-128,URI=\"key.bin\",IV=0x000102030405060708090a0b0c0d0e0f\n\
#EXTINF:10.0,\n\
seg0.ts\n\
#EXT-X-ENDLIST\n";

fn variant(bandwidth: u64, resolution: Option<(u64, u64)>, uri: &str) -> Variant {
    Variant::new(bandwidth, resolution, uri.to_string())
}

fn encrypt(key: &[u8], iv: &[u8], plain: &[u8]) -> Vec<u8> {
    Cbc::<aes::Aes128, Pkcs7>::new_from_slices(key, iv).unwrap().encrypt_vec(plain)
}

#[test]
fn segment_names_are_zero_padded() {
    assert_eq!(segment_file_name(0), "seg_00000.ts");
    assert_eq!(segment_file_name(42), "seg_00042.ts");
    assert_eq!(segment_file_name(99999), "seg_99999.ts");
    assert_eq!(segment_file_name(123456), "seg_123456.ts");
}

#[test]
fn segment_names_repeat_and_never_collide() {
    let first: Vec<String> = (0..250).map(segment_file_name).collect();
    let second: Vec<String> = (0..250).rev().map(segment_file_name).collect();
    let mut reversed = second.clone();
    reversed.reverse();
    assert_eq!(first, reversed);
    let mut sorted = first.clone();
    sorted.sort();
    sorted.dedup();
    assert_eq!(sorted.len(), 250);
}

#[test]
fn decimal_and_padding() {
    assert_eq!(decimal_string(0), "0");
    assert_eq!(decimal_string(1200), "1200");
    assert_eq!(decimal_string(u64::MAX), "18446744073709551615");
    assert_eq!(zero_padded(7, 3), "007");
    assert_eq!(zero_padded(12345, 2), "12345");
}

#[test]
fn base_url_strips_query_and_last_segment() {
    assert_eq!(
        base_url("https://example.com/a/b/index.m3u8?token=1"),
        Ok(Some("https://example.com/a/b/".to_string()))
    );
    assert_eq!(base_url("http://example.com/x.m3u8"), Ok(Some("http://example.com/".to_string())));
    assert_eq!(base_url("videos/index.m3u8"), Ok(None));
    assert_eq!(base_url("http://[not a url"), Err(FetchError::InvalidUrl));
}

#[test]
fn find_last_slash() {
    assert_eq!(find_last("/a/b/c", '/'), Some(4));
    assert_eq!(find_last("abc", '/'), None);
    assert_eq!(find_last("", '/'), None);
}

#[test]
fn entries_resolve_against_the_base() {
    assert_eq!(
        entry_url(Some("https://example.com/a/b/"), "seg0.ts"),
        Ok("https://example.com/a/b/seg0.ts".to_string())
    );
    assert_eq!(
        entry_url(Some("https://example.com/a/b/"), "https://cdn.example.org/x.ts"),
        Ok("https://cdn.example.org/x.ts".to_string())
    );
    assert_eq!(entry_url(None, "local/seg0.ts"), Ok("local/seg0.ts".to_string()));
}

#[test]
fn key_urls_need_a_base_or_an_absolute_uri() {
    assert_eq!(
        key_url(Some("https://example.com/a/"), "../key.bin"),
        Ok("https://example.com/key.bin".to_string())
    );
    assert_eq!(key_url(None, "https://example.com/k"), Ok("https://example.com/k".to_string()));
    assert_eq!(key_url(None, "key.bin"), Err(FetchError::InvalidUrl));
}

#[test]
fn referer_names_the_site_root() {
    assert_eq!(referer_for("https://cdn.example.com/a/b.m3u8"), Some("https://cdn.example.com/".to_string()));
    assert_eq!(referer_for("http://127.0.0.1:8080/a.m3u8"), Some("https://127.0.0.1/".to_string()));
    assert_eq!(referer_for("not a url"), None);
}

#[test]
fn best_variant_is_largest_area_then_bandwidth() {
    let vs = vec![
        variant(500_000, Some((640, 360)), "low"),
        variant(1_200_000, Some((1280, 720)), "high"),
    ];
    assert_eq!(select_variant(&vs), Some(1));
    let vs = vec![
        variant(9_000_000, None, "audio"),
        variant(100, Some((2, 2)), "tiny"),
        variant(800, Some((4, 1)), "tie-high"),
        variant(700, Some((1, 4)), "tie-low"),
    ];
    assert_eq!(select_variant(&vs), Some(2));
    assert_eq!(select_variant(&vec![]), None);
}

#[test]
fn equal_variants_select_the_last() {
    let vs = vec![
        variant(500, Some((10, 10)), "a"),
        variant(500, Some((10, 10)), "b"),
        variant(400, Some((10, 10)), "c"),
    ];
    assert_eq!(select_variant(&vs), Some(1));
}

#[test]
fn huge_resolutions_do_not_overflow() {
    let vs = vec![variant(1, Some((u64::MAX, u64::MAX)), "a"), variant(2, Some((u64::MAX, 2)), "b")];
    assert_eq!(select_variant(&vs), Some(0));
}

#[test]
fn master_playlist_resolves_to_best_variant() {
    let r = resolve_playlist("https://example.com/vod/master.m3u8?sig=abc", MASTER.as_bytes());
    match r {
        Ok(Resolved::Variant { url, base_url }) => {
            assert_eq!(url, "https://example.com/vod/high/index.m3u8");
            assert_eq!(base_url, Some("https://example.com/vod/".to_string()));
        }
        other => panic!("unexpected {:?}", other),
    }
}

#[test]
fn local_master_playlist_keeps_the_variant_uri() {
    match resolve_playlist("master.m3u8", MASTER.as_bytes()) {
        Ok(Resolved::Variant { url, base_url }) => {
            assert_eq!(url, "high/index.m3u8");
            assert_eq!(base_url, None);
        }
        other => panic!("unexpected {:?}", other),
    }
}

#[test]
fn media_playlist_resolves_to_its_segments() {
    let r = resolve_playlist("https://example.com/v/index.m3u8", MEDIA.as_bytes());
    match r {
        Ok(Resolved::Media { segments, base }) => {
            let uris: Vec<&str> = segments.iter().map(|s| s.uri.as_str()).collect();
            assert_eq!(uris, vec!["seg0.ts", "seg1.ts", "seg2.ts"]);
            assert!(segments.iter().all(|s| s.key.is_none()));
            assert_eq!(base, Some("https://example.com/v/".to_string()));
        }
        other => panic!("unexpected {:?}", other),
    }
}

#[test]
fn malformed_playlist_is_a_parse_error() {
    let r = resolve_playlist("https://example.com/index.m3u8", b"<html>not a playlist</html>");
    assert!(matches!(r, Err(FetchError::Parse)));
    assert!(matches!(expect_media(b"garbage"), Err(FetchError::Parse)));
}

#[test]
fn variant_must_be_a_media_playlist() {
    assert!(matches!(expect_media(MASTER.as_bytes()), Err(FetchError::UnexpectedPlaylistType)));
    assert_eq!(expect_media(MEDIA.as_bytes()).unwrap().len(), 3);
}

#[test]
fn key_plan_follows_the_first_segment() {
    let plain = vec![Segment::new("a.ts".to_string(), None)];
    assert!(matches!(plan_key(&plain, None), Ok(None)));
    assert!(matches!(plan_key(&vec![], None), Err(FetchError::EmptyPlaylist)));
    let no_uri = vec![Segment::new("a.ts".to_string(), Some(KeyRef::new(None, Some("0x00".to_string()))))];
    assert!(matches!(plan_key(&no_uri, None), Err(FetchError::MissingKeyUri)));
    let segs = match resolve_playlist("https://example.com/v/index.m3u8", ENCRYPTED.as_bytes()) {
        Ok(Resolved::Media { segments, .. }) => segments,
        other => panic!("unexpected {:?}", other),
    };
    let req = plan_key(&segs, Some("https://example.com/v/")).unwrap().unwrap();
    assert_eq!(req.url, "https://example.com/v/key.bin");
    assert_eq!(req.iv, Some("0x000102030405060708090a0b0c0d0e0f".to_string()));
}

#[test]
fn iv_is_checked() {
    let short = "0x000102030405060708090a0b0c0d0e";
    assert!(matches!(finish_key(vec![0; 16], Some(short)), Err(FetchError::IvLength)));
    assert!(matches!(finish_key(vec![0; 16], None), Err(FetchError::MissingIv)));
    assert!(matches!(finish_key(vec![0; 16], Some("0xzz")), Err(FetchError::IvDecode)));
    assert!(matches!(finish_key(vec![0; 16], Some("abc")), Err(FetchError::IvDecode)));
    let k = finish_key(vec![7; 16], Some("0x000102030405060708090A0B0C0D0E0F")).unwrap();
    assert_eq!(k.iv, (0u8..16).collect::<Vec<u8>>());
    assert_eq!(k.key, vec![7; 16]);
    let k = finish_key(vec![7; 16], Some("ffffffffffffffffffffffffffffffff")).unwrap();
    assert_eq!(k.iv, vec![255; 16]);
}

#[test]
fn decryption_round_trip() {
    let key: Vec<u8> = (100u8..116).collect();
    let iv: Vec<u8> = (0u8..16).collect();
    let plain: Vec<u8> = (0..1000u32).map(|i| (i % 251) as u8).collect();
    let body = encrypt(&key, &iv, &plain);
    assert_ne!(body, plain);
    let k = DecryptionKey { key: key.clone(), iv: iv.clone() };
    assert_eq!(decode_segment(body, Some(&k)), Ok(plain));
}

#[test]
fn decryption_failures() {
    let k = DecryptionKey { key: vec![1; 16], iv: vec![2; 16] };
    assert_eq!(decode_segment(vec![0; 15], Some(&k)), Err(FetchError::Decryption));
    assert_eq!(decode_segment(vec![], Some(&k)), Err(FetchError::Decryption));
    let short_key = DecryptionKey { key: vec![1; 8], iv: vec![2; 16] };
    assert_eq!(decode_segment(vec![0; 16], Some(&short_key)), Err(FetchError::Decryption));
}

#[test]
fn unencrypted_payload_is_kept() {
    assert_eq!(decode_segment(vec![1, 2, 3], None), Ok(vec![1, 2, 3]));
}

#[test]
fn assembly_is_in_index_order_whatever_the_arrival_order() {
    let payloads: Vec<Vec<u8>> = vec![vec![1, 1], vec![2], vec![3, 3, 3], vec![]];
    let expected: Vec<u8> = payloads.concat();
    for order in [[0usize, 1, 2, 3], [3, 2, 1, 0], [2, 0, 3, 1]] {
        let mut a = SegmentAssembly::new(4);
        for &i in order.iter() {
            a.record(i, payloads[i].clone());
        }
        assert_eq!(a.count(), 4);
        assert_eq!(a.assemble(), Ok(expected.clone()));
    }
}

#[test]
fn assembly_reports_the_first_missing_segment() {
    let mut a = SegmentAssembly::new(3);
    a.record(0, vec![1]);
    a.record(2, vec![3]);
    assert!(a.has(0));
    assert!(!a.has(1));
    assert_eq!(a.assemble(), Err(FetchError::MissingSegmentFile { index: 1 }));
    assert_eq!(SegmentAssembly::new(0).assemble(), Ok(vec![]));
}

fn run_attempts(max_attempts: u32, failures: u32) -> Result<u32, ()> {
    let mut attempt = 1;
    loop {
        match after_attempt(attempt, max_attempts, attempt > failures) {
            AttemptAction::Done => return Ok(attempt),
            AttemptAction::WaitAndRetry => attempt += 1,
            AttemptAction::GiveUp => return Err(()),
        }
    }
}

#[test]
fn retry_budget() {
    assert_eq!(run_attempts(3, 2), Ok(3));
    assert_eq!(run_attempts(3, 3), Err(()));
    assert_eq!(run_attempts(1, 0), Ok(1));
    assert_eq!(run_attempts(1, 1), Err(()));
    assert_eq!(after_attempt(2, 3, false), AttemptAction::WaitAndRetry);
    assert_eq!(after_attempt(3, 3, false), AttemptAction::GiveUp);
    assert_eq!(after_attempt(3, 3, true), AttemptAction::Done);
}

#[test]
fn window_bounds_fetches_in_flight() {
    let mut w = DispatchWindow::new(7, 2);
    let mut started = vec![];
    let mut max_seen = 0;
    let mut step = 0;
    while !w.is_settled() {
        while let Some(i) = w.start_next() {
            started.push(i);
            max_seen = max_seen.max(w.in_flight());
        }
        if w.in_flight() > 0 && (step % 3 != 1 || w.in_flight() == 2) {
            w.finish_one(true);
        }
        step += 1;
    }
    assert_eq!(started, (0..7).collect::<Vec<usize>>());
    assert_eq!(max_seen, 2);
    let mut one = DispatchWindow::new(3, 0);
    assert_eq!(one.start_next(), Some(0));
    assert_eq!(one.start_next(), None);
}

#[test]
fn window_stops_starting_after_a_failure() {
    let mut w = DispatchWindow::new(5, 2);
    assert_eq!(w.start_next(), Some(0));
    assert_eq!(w.start_next(), Some(1));
    w.finish_one(false);
    assert!(w.halted());
    assert_eq!(w.start_next(), None);
    assert!(!w.is_settled());
    w.finish_one(true);
    assert!(w.is_settled());
}

#[test]
fn acceleration_from_encoder_listing() {
    assert_eq!(accel_from_encoders(b" V....D h264_nvenc NVIDIA\n V..... h264_amf AMD"), AccelType::Nvidia);
    assert_eq!(accel_from_encoders(b" V..... h264_amf AMD"), AccelType::Amd);
    assert_eq!(accel_from_encoders(b" V..... libx264"), AccelType::Cpu);
    assert_eq!(accel_from_encoders(b""), AccelType::Cpu);
}

#[test]
fn backend_choice() {
    assert_eq!(choose_backend(true, AccelType::Amd, true), Ok(TranscoderKind::Ffmpeg(AccelType::Amd)));
    assert_eq!(choose_backend(false, AccelType::Cpu, true), Ok(TranscoderKind::AndroidHardware));
    assert_eq!(choose_backend(false, AccelType::Cpu, false), Err(FetchError::NoBackend));
}

#[test]
fn encoder_arguments() {
    let args = encoder_args(AccelType::Cpu, "in.ts", "out.mp4", 0, 0);
    assert_eq!(
        args,
        vec![
            "-hide_banner", "-loglevel", "info", "-i", "in.ts", "-c:a", "aac", "-c:v", "libx264", "-preset",
            "medium", "out.mp4"
        ]
    );
    let args = encoder_args(AccelType::Amd, "in.ts", "out.mp4", 2500, 128);
    assert_eq!(
        args,
        vec![
            "-hide_banner", "-loglevel", "info", "-i", "in.ts", "-c:a", "aac", "-b:a", "320k", "-c:v", "h264_amf",
            "-rc", "vbr", "-b:v", "2500k", "-b:a", "128k", "out.mp4"
        ]
    );
    let args = encoder_args(AccelType::Nvidia, "a", "b", 0, 0);
    assert_eq!(args.len(), 3 + 18 + 1);
    assert_eq!(args[3], "-hwaccel");
}

#[test]
fn options_are_normalized() {
    let o = RunOptions::normalize(0, -3, -1, 192);
    assert_eq!(o, RunOptions { concurrency: 1, max_attempts: 1, video_kbps: 0, audio_kbps: 192 });
    let o = RunOptions::normalize(8, 5, 2000, 0);
    assert_eq!(o, RunOptions { concurrency: 8, max_attempts: 5, video_kbps: 2000, audio_kbps: 0 });
}

#[test]
fn end_to_end_master_to_merged_stream() {
    let (media_url, base) = match resolve_playlist("https://example.com/show/master.m3u8", MASTER.as_bytes()) {
        Ok(Resolved::Variant { url, base_url: Some(b) }) => (url, b),
        other => panic!("unexpected {:?}", other),
    };
    assert_eq!(media_url, "https://example.com/show/high/index.m3u8");
    assert_eq!(base, "https://example.com/show/");
    let segments = expect_media(MEDIA.as_bytes()).unwrap();
    assert_eq!(segments.len(), 3);
    assert!(plan_key(&segments, Some(&base)).unwrap().is_none());
    let urls: Vec<String> = segments.iter().map(|s| entry_url(Some(&base), &s.uri).unwrap()).collect();
    assert_eq!(urls[2], "https://example.com/show/seg2.ts");
    let bodies: Vec<Vec<u8>> = vec![vec![0xA0; 10], vec![0xB1; 20], vec![0xC2; 30]];
    let mut assembly = SegmentAssembly::new(3);
    for i in [2usize, 0, 1] {
        let payload = decode_segment(bodies[i].clone(), None).unwrap();
        assembly.record(i, payload);
    }
    let merged = assembly.assemble().unwrap();
    assert_eq!(merged.len(), 60);
    assert_eq!(merged, bodies.concat());
}

#[test]
fn temp_directory_probing_steps() {
    assert_eq!(after_probe(0, 3, true), ProbeStep::Accept);
    assert_eq!(after_probe(0, 3, false), ProbeStep::ProbeNext);
    assert_eq!(after_probe(1, 3, false), ProbeStep::ProbeNext);
    assert_eq!(after_probe(2, 3, false), ProbeStep::Fail);
    assert_eq!(after_probe(2, 3, true), ProbeStep::Accept);
}

#[test]
fn decryption_of_misshapen_bodies_fails() {
    let k = DecryptionKey { key: vec![3; 16], iv: vec![4; 16] };
    assert_eq!(decode_segment(vec![0; 33], Some(&k)), Err(FetchError::Decryption));
}
