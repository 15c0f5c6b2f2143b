use sptzx::access::{authorize, check_access, content_disposition, parse_signed_params, AccessError, ParamName};
use sptzx::capability::{compute_hmac, generate_signed_url, i64_to_text, verify_signature};
use sptzx::config::Config;
use sptzx::decimal::{parse_i64, parse_unsigned};
use sptzx::ingest::{expires_at, finish_upload, publish, storage_path_for, Upload, UploadError};
use sptzx::registry::{FileMetadata, Registry};
use sptzx::sanitize::{is_viewable_mime, sanitize_filename};

const NOW: i64 = 1_700_000_000;

fn config() -> Config {
    Config::from_settings(
        Some("test-secret".to_string()),
        Some("/tmp/store".to_string()),
        Some("100".to_string()),
        Some("300".to_string()),
        None,
        None,
        Some("http://files.example".to_string()),
        None,
    )
}

fn form_decode(s: &str) -> String {
    let b = s.as_bytes();
    let mut out = Vec::new();
    let mut i = 0;
    while i < b.len() {
        if b[i] == b'%' && i + 2 < b.len() {
            let hex = std::str::from_utf8(&b[i + 1..i + 3]).unwrap();
            out.push(u8::from_str_radix(hex, 16).unwrap());
            i += 3;
        } else if b[i] == b'+' {
            out.push(b' ');
            i += 1;
        } else {
            out.push(b[i]);
            i += 1;
        }
    }
    String::from_utf8(out).unwrap()
}

fn query_pairs(url: &str) -> Vec<(String, String)> {
    let query = url.split_once('?').unwrap().1;
    query
        .split('&')
        .map(|kv| {
            let (k, v) = kv.split_once('=').unwrap();
            (form_decode(k), form_decode(v))
        })
        .collect()
}

fn upload_of(id: &str, name: &str, size: usize, cfg: &Config) -> Upload {
    let mut u = Upload::new(id.to_string(), &cfg.upload_dir, cfg.max_file_size);
    assert!(u.on_field(Some(name)));
    u.accept_chunk(size).unwrap();
    u
}

fn published(reg: &mut Registry, cfg: &Config, id: &str) -> (String, String) {
    let u = upload_of(id, "photo.png", 10, cfg);
    let r = publish(reg, u, cfg, "image/png".to_string(), NOW, "20231114", "nonce-v", "nonce-d");
    (r.view, r.download)
}

#[test]
fn sanitize_strips_path_separators() {
    let name = sanitize_filename("../../etc/passwd.txt");
    assert_eq!(name, "....etcpasswd.txt");
    assert!(name.chars().all(|c| c.is_alphanumeric() || c == '.' || c == '-' || c == '_'));
    assert!(!name.contains('/'));
}

#[test]
fn sanitize_truncates_to_255() {
    let long = "a/".repeat(300);
    let name = sanitize_filename(&long);
    assert_eq!(name.chars().count(), 255);
    assert_eq!(sanitize_filename("my file (1).tar.gz"), "myfile1.tar.gz");
    assert_eq!(sanitize_filename(""), "");
}

#[test]
fn storage_path_ignores_name() {
    let cfg = config();
    let u = upload_of("abc", "../../etc/passwd.txt", 1, &cfg);
    assert_eq!(u.disk_path, "/tmp/store/abc.bin");
    assert_eq!(storage_path_for("dir", "x"), "dir/x.bin");
}

#[test]
fn viewable_mime_classes() {
    assert!(is_viewable_mime("image/png"));
    assert!(is_viewable_mime("video/mp4"));
    assert!(is_viewable_mime("audio/mpeg"));
    assert!(!is_viewable_mime("text/plain"));
    assert!(!is_viewable_mime("application/octet-stream"));
    assert!(!is_viewable_mime("image"));
}

#[test]
fn disposition_inline_only_when_viewable() {
    assert_eq!(content_disposition("inline", "image/png", "a.png"), "inline; filename=\"a.png\"");
    assert_eq!(content_disposition("attachment", "image/png", "a.png"), "attachment; filename=\"a.png\"");
    assert_eq!(content_disposition("inline", "text/plain", "a.txt"), "attachment; filename=\"a.txt\"");
}

#[test]
fn decimal_parsing() {
    assert_eq!(parse_i64("1700000300"), Some(1700000300));
    assert_eq!(parse_i64("-42"), Some(-42));
    assert_eq!(parse_i64("+7"), Some(7));
    assert_eq!(parse_i64("9223372036854775807"), Some(i64::MAX));
    assert_eq!(parse_i64("-9223372036854775808"), Some(i64::MIN));
    assert_eq!(parse_i64("9223372036854775808"), None);
    assert_eq!(parse_i64(""), None);
    assert_eq!(parse_i64("-"), None);
    assert_eq!(parse_i64("12a"), None);
    assert_eq!(parse_unsigned("+300", 1000), Some(300));
    assert_eq!(parse_unsigned("-1", 1000), None);
    assert_eq!(parse_unsigned("1001", 1000), None);
    assert_eq!(i64_to_text(-120), "-120");
    assert_eq!(i64_to_text(0), "0");
    assert_eq!(i64_to_text(i64::MIN), "-9223372036854775808");
}

#[test]
fn config_defaults_and_overrides() {
    let d = Config::from_settings(None, None, None, None, None, None, None, None);
    assert_eq!(d.secret_key, "sptzx-change-me-in-production");
    assert_eq!(d.upload_dir, "./uploads");
    assert_eq!(d.max_file_size, 536870912);
    assert_eq!(d.file_lifetime, 300);
    assert_eq!(d.buffer_size, 2097152);
    assert_eq!(d.bind_addr, "0.0.0.0:3000");
    assert_eq!(d.base_url, "http://localhost:3000");
    assert_eq!(d.workers, 16);
    let c = Config::from_settings(None, None, Some("x".to_string()), Some("60".to_string()), None, None, None, Some("4".to_string()));
    assert_eq!(c.max_file_size, 536870912);
    assert_eq!(c.file_lifetime, 60);
    assert_eq!(c.workers, 4);
}

#[test]
fn hmac_known_vector() {
    assert_eq!(
        compute_hmac("The quick brown fox jumps over the lazy dog", "key"),
        "f7bc83f430538424b13298e6aa6fb143ef4d59a14946175997479dbc2d1a3cd8"
    );
}

#[test]
fn generated_url_layout() {
    let cfg = config();
    let meta = FileMetadata {
        file_id: "id1".to_string(),
        original_name: "a.png".to_string(),
        disk_path: "/tmp/store/id1.bin".to_string(),
        mime_type: "image/png".to_string(),
        size: 3,
        uploaded_at: NOW,
        owner: "default".to_string(),
    };
    let url = generate_signed_url("id1", "inline", &meta, &cfg, NOW + 300, "20231114", "n1");
    let sig = compute_hmac("v1\ndefault\n20231114\n1700000300\nglobal\ninline\nimage/png\nid1\nn1", "test-secret");
    assert_eq!(
        url,
        format!("http://files.example/file/id1?sz-version=v1&sz-owner=default&sz-date=20231114&sz-expires=1700000300&sz-region=global&sz-mode=inline&sz-type=image%2Fpng&sz-id=id1&sz-nonce=n1&sz-signature={}", sig)
    );
}

#[test]
fn round_trip_then_expiry() {
    let cfg = config();
    let mut reg = Registry::new();
    let (view, _) = published(&mut reg, &cfg, "obj-1");
    let pairs = query_pairs(&view);
    let params = parse_signed_params(&pairs).unwrap();
    assert!(verify_signature(&params, &cfg));
    assert!(authorize("obj-1", &pairs, &cfg, NOW).is_ok());
    assert!(authorize("obj-1", &pairs, &cfg, NOW + 299).is_ok());
    assert_eq!(authorize("obj-1", &pairs, &cfg, NOW + 300).err(), Some(AccessError::Expired));
    assert_eq!(authorize("obj-1", &pairs, &cfg, NOW + 1000).err(), Some(AccessError::Expired));
    assert!(verify_signature(&params, &cfg));
}

#[test]
fn tampering_any_field_breaks_signature() {
    let cfg = config();
    let mut reg = Registry::new();
    let (view, _) = published(&mut reg, &cfg, "obj-2");
    let pairs = query_pairs(&view);
    for key in ["sz-owner", "sz-date", "sz-mode", "sz-type", "sz-id", "sz-nonce", "sz-expires"] {
        let mut t = pairs.clone();
        for (k, v) in t.iter_mut() {
            if k == key {
                let mut chars: Vec<char> = v.chars().collect();
                chars[0] = if chars[0] == 'x' { 'y' } else { 'x' };
                *v = chars.into_iter().collect();
            }
        }
        assert_eq!(authorize("obj-2", &t, &cfg, NOW).err(), Some(AccessError::InvalidSignature), "{}", key);
    }
}

#[test]
fn oversized_upload_is_refused() {
    let cfg = config();
    let mut reg = Registry::new();
    let mut u = Upload::new("big".to_string(), &cfg.upload_dir, cfg.max_file_size);
    assert!(u.accept_chunk(60).is_ok());
    let e = u.accept_chunk(41).unwrap_err();
    assert_eq!(e, UploadError::TooLarge);
    assert_eq!(e.status(), 413);
    assert_eq!(e.code(), "file_too_large");
    assert_eq!(u.total, 60);
    assert_eq!(reg.len(), 0);
    assert!(!reg.contains("big"));
    let mut exact = Upload::new("ok".to_string(), &cfg.upload_dir, cfg.max_file_size);
    assert!(exact.accept_chunk(100).is_ok());
    assert_eq!(exact.accept_chunk(1), Err(UploadError::TooLarge));
    assert!(reg.remove("big").is_none());
}

#[test]
fn ten_byte_upload_publishes() {
    let cfg = config();
    let mut reg = Registry::new();
    let u = upload_of("ten", "clip.png", 10, &cfg);
    let r = finish_upload(&mut reg, u, &cfg);
    assert_eq!(r.size, 10);
    assert_eq!(r.id, "ten");
    assert_eq!(r.name, "clip.png");
    assert_eq!(r.mime, "image/png");
    assert_eq!(r.ttl, 300);
    assert_eq!(reg.get("ten").unwrap().size, 10);
    let v = query_pairs(&r.view);
    let d = query_pairs(&r.download);
    let get = |p: &Vec<(String, String)>, k: &str| p.iter().find(|(a, _)| a == k).unwrap().1.clone();
    assert_eq!(get(&v, "sz-mode"), "inline");
    assert_eq!(get(&d, "sz-mode"), "attachment");
    assert_eq!(get(&v, "sz-id"), get(&d, "sz-id"));
    assert_eq!(get(&v, "sz-expires"), get(&d, "sz-expires"));
    assert_ne!(get(&v, "sz-nonce"), get(&d, "sz-nonce"));
}

#[test]
fn svg_url_round_trips() {
    let cfg = config();
    let mut reg = Registry::new();
    let u = upload_of("vec", "logo.svg", 4, &cfg);
    let r = finish_upload(&mut reg, u, &cfg);
    assert_eq!(r.mime, "image/svg+xml");
    assert!(r.view.contains("sz-type=image%2Fsvg%2Bxml"));
    let now = chrono::Utc::now().timestamp();
    let h = check_access(&reg, "vec", &query_pairs(&r.view), &cfg, now).ok().unwrap();
    assert_eq!(h.content_type, "image/svg+xml");
    assert_eq!(h.content_disposition, "inline; filename=\"logo.svg\"");
    assert!(check_access(&reg, "vec", &query_pairs(&r.download), &cfg, now).is_ok());
}

#[test]
fn hmac_is_64_hex_chars() {
    let sig = compute_hmac("", "");
    assert_eq!(sig.len(), 64);
    assert!(sig.chars().all(|c| c.is_ascii_digit() || ('a'..='f').contains(&c)));
}

#[test]
fn unknown_extension_is_octet_stream() {
    let cfg = config();
    let mut reg = Registry::new();
    let u = upload_of("blob", "data.zzzunknown", 1, &cfg);
    let r = finish_upload(&mut reg, u, &cfg);
    assert_eq!(r.mime, "application/octet-stream");
}

#[test]
fn id_mismatch_is_forbidden() {
    let cfg = config();
    let mut reg = Registry::new();
    published(&mut reg, &cfg, "A");
    let (view_b, _) = published(&mut reg, &cfg, "B");
    let pairs = query_pairs(&view_b);
    let e = check_access(&reg, "A", &pairs, &cfg, NOW).err().unwrap();
    assert_eq!(e, AccessError::IdMismatch);
    assert_eq!(e.status(), 403);
    assert_eq!(e.code(), "id_mismatch");
}

#[test]
fn access_serves_headers() {
    let cfg = config();
    let mut reg = Registry::new();
    let (view, download) = published(&mut reg, &cfg, "obj-3");
    let h = check_access(&reg, "obj-3", &query_pairs(&view), &cfg, NOW).ok().unwrap();
    assert_eq!(h.content_type, "image/png");
    assert_eq!(h.content_disposition, "inline; filename=\"photo.png\"");
    assert_eq!(h.content_length, 10);
    assert_eq!(h.cache_control, "public, max-age=300");
    assert_eq!(h.accept_ranges, "bytes");
    assert_eq!(h.disk_path, "/tmp/store/obj-3.bin");
    let h2 = check_access(&reg, "obj-3", &query_pairs(&download), &cfg, NOW).ok().unwrap();
    assert_eq!(h2.content_disposition, "attachment; filename=\"photo.png\"");
}

#[test]
fn deleted_object_is_not_found() {
    let cfg = config();
    let mut reg = Registry::new();
    let (view, _) = published(&mut reg, &cfg, "gone");
    assert!(reg.remove("gone").is_some());
    let e = check_access(&reg, "gone", &query_pairs(&view), &cfg, NOW).err().unwrap();
    assert_eq!(e, AccessError::NotFound);
    assert_eq!(e.status(), 404);
}

#[test]
fn missing_and_bad_parameters() {
    let cfg = config();
    let mut reg = Registry::new();
    let (view, _) = published(&mut reg, &cfg, "p");
    let mut pairs = query_pairs(&view);
    pairs.retain(|(k, _)| k != "sz-nonce");
    let e = authorize("p", &pairs, &cfg, NOW).err().unwrap();
    assert_eq!(e, AccessError::Missing(ParamName::Nonce));
    assert_eq!(e.status(), 400);
    assert_eq!(e.code(), "missing_sz-nonce");
    let e = authorize("p", &Vec::new(), &cfg, NOW).err().unwrap();
    assert_eq!(e.code(), "missing_sz-version");
    let mut bad = query_pairs(&view);
    bad.push(("sz-signature".to_string(), "00".to_string()));
    assert_eq!(authorize("p", &bad, &cfg, NOW).err(), Some(AccessError::InvalidSignature));
}

#[test]
fn non_numeric_expiry_is_invalid() {
    let cfg = config();
    let mut pairs: Vec<(String, String)> = Vec::new();
    let fields = [("sz-version", "v1"), ("sz-owner", "default"), ("sz-date", "20231114"), ("sz-expires", "soon"), ("sz-region", "global"), ("sz-mode", "inline"), ("sz-type", "image/png"), ("sz-id", "q"), ("sz-nonce", "n")];
    let mut msg = String::new();
    for (i, (k, v)) in fields.iter().enumerate() {
        pairs.push((k.to_string(), v.to_string()));
        if i > 0 {
            msg.push('\n');
        }
        msg.push_str(v);
    }
    pairs.push(("sz-signature".to_string(), compute_hmac(&msg, "test-secret")));
    let e = authorize("q", &pairs, &cfg, NOW).err().unwrap();
    assert_eq!(e, AccessError::InvalidExpires);
    assert_eq!(e.status(), 400);
}

#[test]
fn double_delete_is_harmless() {
    let cfg = config();
    let mut reg = Registry::new();
    published(&mut reg, &cfg, "d1");
    published(&mut reg, &cfg, "d2");
    let first = reg.remove("d1");
    assert_eq!(first.unwrap().file_id, "d1");
    assert!(reg.remove("d1").is_none());
    assert_eq!(reg.len(), 1);
    assert!(reg.contains("d2"));
}

#[test]
fn sweep_lists_only_expired() {
    let cfg = config();
    let mut reg = Registry::new();
    published(&mut reg, &cfg, "old");
    let u = upload_of("new", "n.txt", 1, &cfg);
    publish(&mut reg, u, &cfg, "text/plain".to_string(), NOW + 200, "d", "a", "b");
    assert_eq!(reg.expired(NOW + 300, 300), Vec::<String>::new());
    assert_eq!(reg.expired(NOW + 301, 300), vec!["old".to_string()]);
    assert_eq!(reg.expired(NOW + 1000, 300), vec!["old".to_string(), "new".to_string()]);
}

#[test]
fn republish_replaces_entry() {
    let cfg = config();
    let mut reg = Registry::new();
    published(&mut reg, &cfg, "r");
    let u = upload_of("r", "x.txt", 5, &cfg);
    publish(&mut reg, u, &cfg, "text/plain".to_string(), NOW, "d", "a", "b");
    assert_eq!(reg.len(), 1);
    assert_eq!(reg.get("r").unwrap().size, 5);
}

#[test]
fn expiry_saturates() {
    assert_eq!(expires_at(NOW, 300), NOW + 300);
    assert_eq!(expires_at(i64::MAX - 1, 300), i64::MAX);
}

#[test]
fn fresh_uploads_get_distinct_ids() {
    let a = Upload::begin("/tmp/store", 10);
    let b = Upload::begin("/tmp/store", 10);
    assert_ne!(a.file_id, b.file_id);
    assert_eq!(a.file_id.len(), 36);
    assert_eq!(a.disk_path, format!("/tmp/store/{}.bin", a.file_id));
    assert_eq!(a.original_name, "unknown");
}

#[test]
fn first_file_name_wins() {
    let cfg = config();
    let mut u = Upload::new("f".to_string(), &cfg.upload_dir, cfg.max_file_size);
    assert_eq!(u.original_name, "unknown");
    assert!(!u.on_field(None));
    assert!(u.on_field(Some("first.txt")));
    assert!(!u.on_field(Some("second.txt")));
    assert!(!u.on_field(None));
    assert_eq!(u.original_name, "first.txt");
}

#[test]
fn upload_error_codes() {
    assert_eq!(UploadError::InvalidMultipart.status(), 400);
    assert_eq!(UploadError::InvalidMultipart.code(), "invalid_multipart");
    assert_eq!(UploadError::ChunkReadFailed.code(), "chunk_read_failed");
    assert_eq!(UploadError::WriteFailed.status(), 500);
    assert_eq!(UploadError::FlushFailed.code(), "flush_failed");
    assert_eq!(UploadError::FileCreateFailed.code(), "file_create_failed");
}
