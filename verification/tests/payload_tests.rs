use image_gen::payload::{
    beatsaver_url, classify_reply, file_data_url, mime_type_for, saved_bytes, scoresaber_url, video_bytes,
    video_text, ApiCheckResult, Reply, VideoFault,
};

fn reference_video_text(data: &str) -> Result<String, String> {
    let base64_data = if data.starts_with("data:") {
        if let Some(comma_pos) = data.find(',') {
            data[comma_pos + 1..].to_string()
        } else {
            return Err("Invalid video data URL format - no comma found".to_string());
        }
    } else {
        data.to_string()
    };
    let cleaned: String = base64_data
        .chars()
        .filter(|c| !c.is_whitespace())
        .map(|c| match c {
            '-' => '+',
            '_' => '/',
            other => other,
        })
        .collect();
    if cleaned.is_empty() {
        return Err("Base64 data is empty".to_string());
    }
    let remainder = cleaned.len() % 4;
    if remainder == 0 {
        Ok(cleaned)
    } else {
        Ok(format!("{}{}", cleaned, "=".repeat(4 - remainder)))
    }
}

#[test]
fn media_types() {
    assert_eq!(mime_type_for(Some("png")), "image/png");
    assert_eq!(mime_type_for(Some("PNG")), "image/png");
    assert_eq!(mime_type_for(Some("jpg")), "image/jpeg");
    assert_eq!(mime_type_for(Some("JPG")), "image/jpeg");
    assert_eq!(mime_type_for(Some("jpeg")), "image/jpeg");
    assert_eq!(mime_type_for(Some("JpEg")), "image/jpeg");
    assert_eq!(mime_type_for(Some("gif")), "image/gif");
    assert_eq!(mime_type_for(Some("GIF")), "image/gif");
    assert_eq!(mime_type_for(Some("webp")), "image/webp");
    assert_eq!(mime_type_for(Some("WebP")), "image/webp");
    assert_eq!(mime_type_for(Some("bmp")), "image/bmp");
    assert_eq!(mime_type_for(Some("tiff")), "image/png");
    assert_eq!(mime_type_for(Some("")), "image/png");
    assert_eq!(mime_type_for(Some("jp")), "image/png");
    assert_eq!(mime_type_for(Some("jpgx")), "image/png");
    assert_eq!(mime_type_for(None), "image/png");
}

#[test]
fn file_bytes_become_a_data_url() {
    assert_eq!(file_data_url("image/jpeg", b"hello"), "data:image/jpeg;base64,aGVsbG8=");
    assert_eq!(file_data_url("image/png", &[0u8, 1, 2, 3]), "data:image/png;base64,AAECAw==");
    assert_eq!(file_data_url("", &[]), "data:;base64,");
}

#[test]
fn what_is_saved() {
    assert_eq!(saved_bytes("aGVsbG8="), Ok(b"hello".to_vec()));
    assert_eq!(saved_bytes("data:image/png;base64,aGVsbG8="), Ok(b"hello".to_vec()));
    assert_eq!(saved_bytes("data:,,"), Err("Failed to decode base64: Invalid symbol 44, offset 0.".to_string()));
    assert_eq!(saved_bytes(""), Ok(Vec::new()));
    assert_eq!(saved_bytes("data:,"), Ok(Vec::new()));
    assert_eq!(saved_bytes("data:image/png;base64"), Err("Invalid data URL".to_string()));
    assert_eq!(saved_bytes("data"), Ok(vec![117, 171, 90]));
    assert_eq!(saved_bytes("dat"), Err("Failed to decode base64: Invalid padding".to_string()));
    let err = saved_bytes("x,aGVsbG8=").unwrap_err();
    assert!(err.starts_with("Failed to decode base64: "), "{}", err);
    let err = saved_bytes("@@@@").unwrap_err();
    assert!(err.starts_with("Failed to decode base64: "), "{}", err);
}

#[test]
fn video_text_is_tidied_and_filled() {
    assert_eq!(video_text("aGVs bG8"), Ok("aGVsbG8=".to_string()));
    assert_eq!(video_text("data:video/mp4;base64,aGVs\nbG8"), Ok("aGVsbG8=".to_string()));
    assert_eq!(video_text("a-_b"), Ok("a+/b".to_string()));
    assert_eq!(video_text("abcde"), Ok("abcde===".to_string()));
    assert_eq!(video_text("ab"), Ok("ab==".to_string()));
    assert_eq!(video_text("abc"), Ok("abc=".to_string()));
    assert_eq!(video_text("abcd"), Ok("abcd".to_string()));
    assert_eq!(video_text("\u{e9}"), Ok("\u{e9}==".to_string()));
    assert_eq!(video_text("a\u{a0}b\u{3000}c\u{2003}d\t\r\n"), Ok("abcd".to_string()));
    assert_eq!(video_text("data:a,b,c d"), Ok("b,cd".to_string()));
    assert_eq!(video_text("Data:a,bc"), Ok("Data:a,bc===".to_string()));
}

#[test]
fn video_faults() {
    assert_eq!(video_text(""), Err(VideoFault::Empty));
    assert_eq!(video_text("  \n\t"), Err(VideoFault::Empty));
    assert_eq!(video_text("data:,"), Err(VideoFault::Empty));
    assert_eq!(video_text("data:video/mp4;base64, \n"), Err(VideoFault::Empty));
    assert_eq!(video_text("data:video/mp4;base64"), Err(VideoFault::NoComma));
    assert_eq!(video_text("data:"), Err(VideoFault::NoComma));
    assert_eq!(VideoFault::NoComma.message(), "Invalid video data URL format - no comma found");
    assert_eq!(VideoFault::Empty.message(), "Base64 data is empty");
}

#[test]
fn video_text_agrees_with_the_plain_pipeline() {
    for data in ["", " ", "a", "ab", "abc", "abcd", "a b\nc", "data:x;base64,QUJD", "data:x", "data:,",
        "dat", "data", "-_-_", "\u{2028}x\u{2029}", "\u{200b}", "\u{1f600}", "e\u{301}", "=", "a=b ="]
    {
        let expected = reference_video_text(data);
        let got = video_text(data).map_err(|f| f.message());
        assert_eq!(got, expected, "{:?}", data);
    }
}

#[test]
fn video_is_decoded() {
    assert_eq!(video_bytes("aGVsbG8="), Ok(b"hello".to_vec()));
    let ready = video_text("data:video/mp4;base64,aGVs bG8").unwrap();
    assert_eq!(video_bytes(&ready), Ok(b"hello".to_vec()));
    let ready = video_text("_-8").unwrap();
    assert_eq!(video_bytes(&ready), Ok(vec![0xff, 0xef]));
    assert_eq!(video_bytes("****"), Err("Failed to decode video base64: Invalid symbol 42, offset 0.".to_string()));
}

#[test]
fn service_addresses() {
    assert_eq!(
        scoresaber_url("ABCDEF", "9"),
        "https://scoresaber.com/api/leaderboard/by-hash/ABCDEF/info?difficulty=9"
    );
    assert_eq!(scoresaber_url("", ""), "https://scoresaber.com/api/leaderboard/by-hash//info?difficulty=");
    assert_eq!(beatsaver_url("abc123"), "https://api.beatsaver.com/maps/hash/abc123");
}

#[test]
fn check_result_holds_its_fields() {
    let r = ApiCheckResult { available: true, message: "up".to_string() };
    let copy = r.clone();
    assert!(copy.available);
    assert_eq!(copy.message, "up");
}

#[test]
fn replies() {
    assert_eq!(classify_reply(200), Reply::Success);
    assert_eq!(classify_reply(204), Reply::Success);
    assert_eq!(classify_reply(299), Reply::Success);
    assert_eq!(classify_reply(199), Reply::Failure);
    assert_eq!(classify_reply(300), Reply::Failure);
    assert_eq!(classify_reply(404), Reply::NotFound);
    assert_eq!(classify_reply(403), Reply::Failure);
    assert_eq!(classify_reply(500), Reply::Failure);
    assert_eq!(classify_reply(0), Reply::Failure);
}
