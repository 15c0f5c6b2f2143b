use vstd::prelude::*;
use crate::capability::{generate_signed_url, issued, url_text};
use crate::config::Config;
use crate::registry::{has_id, slot, FileMetadata, MetadataView, Registry};
use crate::sanitize::{sanitize_filename, sanitized};

verus! {

/// What `mime_guess` infers from the extension of `name`.
pub uninterp spec fn guessed_mime(name: Seq<char>) -> Seq<char>;

/// Relies on mime_guess::from_path and MimeGuess::first_or_octet_stream:
/// the first mime type registered for the extension of `name`, or
/// `application/octet-stream`.
#[verifier::external_body]
fn guess_mime(name: &str) -> (r: String)
    ensures
        r@ == guessed_mime(name@),
{
    mime_guess::from_path(name).first_or_octet_stream().to_string()
}

/// Relies on chrono::Utc::now: the current Unix time in seconds.
#[verifier::external_body]
fn now_timestamp() -> (r: i64) {
    chrono::Utc::now().timestamp()
}

/// Relies on chrono's `format`: today's date in UTC as `YYYYMMDD`.
#[verifier::external_body]
fn today_stamp() -> (r: String) {
    chrono::Utc::now().format("%Y%m%d").to_string()
}

/// Relies on uuid::Uuid::new_v4: a fresh random identifier in its
/// hyphenated text form.
#[verifier::external_body]
fn new_uuid() -> (r: String) {
    uuid::Uuid::new_v4().to_string()
}

/// Why an upload failed.
#[derive(Clone, Copy, PartialEq, Eq, Structural, Debug)]
pub enum UploadError {
    /// The multipart body is malformed.
    InvalidMultipart,
    /// A chunk of the body could not be read.
    ChunkReadFailed,
    /// The body exceeds the configured maximum.
    TooLarge,
    /// The storage target could not be created.
    FileCreateFailed,
    /// Writing to storage failed.
    WriteFailed,
    /// Flushing to storage failed.
    FlushFailed,
}

/// The HTTP status of an upload failure.
pub open spec fn upload_status_of(e: UploadError) -> u16 {
    match e {
        UploadError::InvalidMultipart => 400,
        UploadError::ChunkReadFailed => 400,
        UploadError::TooLarge => 413,
        UploadError::FileCreateFailed => 500,
        UploadError::WriteFailed => 500,
        UploadError::FlushFailed => 500,
    }
}

/// The error code reported for an upload failure.
pub open spec fn upload_code_of(e: UploadError) -> Seq<char> {
    match e {
        UploadError::InvalidMultipart => "invalid_multipart"@,
        UploadError::ChunkReadFailed => "chunk_read_failed"@,
        UploadError::TooLarge => "file_too_large"@,
        UploadError::FileCreateFailed => "file_create_failed"@,
        UploadError::WriteFailed => "write_failed"@,
        UploadError::FlushFailed => "flush_failed"@,
    }
}

impl UploadError {
    /// The HTTP status of this failure.
    pub fn status(&self) -> (r: u16)
        ensures
            r == upload_status_of(*self),
    {
        match self {
            UploadError::InvalidMultipart => 400,
            UploadError::ChunkReadFailed => 400,
            UploadError::TooLarge => 413,
            UploadError::FileCreateFailed => 500,
            UploadError::WriteFailed => 500,
            UploadError::FlushFailed => 500,
        }
    }

    /// The error code of this failure.
    pub fn code(&self) -> (r: String)
        ensures
            r@ == upload_code_of(*self),
    {
        match self {
            UploadError::InvalidMultipart => String::from_str("invalid_multipart"),
            UploadError::ChunkReadFailed => String::from_str("chunk_read_failed"),
            UploadError::TooLarge => String::from_str("file_too_large"),
            UploadError::FileCreateFailed => String::from_str("file_create_failed"),
            UploadError::WriteFailed => String::from_str("write_failed"),
            UploadError::FlushFailed => String::from_str("flush_failed"),
        }
    }
}

/// Where an object is stored: a file named after its identifier alone.
pub open spec fn storage_path(dir: Seq<char>, id: Seq<char>) -> Seq<char> {
    dir + "/"@ + id + ".bin"@
}

/// The storage path of object `file_id` under `dir`.
pub fn storage_path_for(dir: &str, file_id: &str) -> (r: String)
    ensures
        r@ == storage_path(dir@, file_id@),
{
    let mut p = String::from_str(dir);
    p.append("/");
    p.append(file_id);
    p.append(".bin");
    p
}

/// An upload in progress: its identifier, storage target, display name,
/// and the bytes accepted so far against the maximum.
pub struct Upload {
    /// Identifier of the object being uploaded.
    pub file_id: String,
    /// Storage target, derived from the identifier alone.
    pub disk_path: String,
    /// Sanitized display name, `unknown` until a field declares one.
    pub original_name: String,
    /// Whether a field has declared a file name yet.
    pub named: bool,
    /// Bytes accepted so far.
    pub total: u64,
    /// Largest accepted total.
    pub max: u64,
}

impl Upload {
    /// Starts an upload of object `file_id` into `upload_dir`, with no name
    /// yet and nothing accepted.
    pub fn new(file_id: String, upload_dir: &str, max_file_size: usize) -> (r: Upload)
        ensures
            r.file_id@ == file_id@,
            r.disk_path@ == storage_path(upload_dir@, file_id@),
            r.original_name@ == "unknown"@,
            !r.named,
            r.total == 0,
            r.max == max_file_size,
    {
        let disk_path = storage_path_for(upload_dir, file_id.as_str());
        Upload {
            file_id,
            disk_path,
            original_name: String::from_str("unknown"),
            named: false,
            total: 0,
            max: max_file_size as u64,
        }
    }

    /// Starts the upload of a new object under a fresh random identifier.
    pub fn begin(upload_dir: &str, max_file_size: usize) -> (r: Upload)
        ensures
            r.disk_path@ == storage_path(upload_dir@, r.file_id@),
            r.original_name@ == "unknown"@,
            !r.named,
            r.total == 0,
            r.max == max_file_size,
    {
        Upload::new(new_uuid(), upload_dir, max_file_size)
    }

    /// Decides whether a multipart field is consumed: only the first field
    /// that declares a file name is, and it gives the display name.
    pub fn on_field(&mut self, file_name: Option<&str>) -> (r: bool)
        ensures
            r == (!old(self).named && file_name is Some),
            final(self).file_id == old(self).file_id,
            final(self).disk_path == old(self).disk_path,
            final(self).total == old(self).total,
            final(self).max == old(self).max,
            final(self).named == (old(self).named || file_name is Some),
            r ==> final(self).original_name@ == sanitized(file_name->0@),
            !r ==> final(self).original_name == old(self).original_name,
    {
        if self.named {
            return false;
        }
        match file_name {
            Some(name) => {
                self.original_name = sanitize_filename(name);
                self.named = true;
                true
            },
            None => false,
        }
    }

    /// Accounts for a received chunk of `len` bytes. Fails, and accepts
    /// nothing, when the running total would exceed the maximum.
    pub fn accept_chunk(&mut self, len: usize) -> (r: Result<(), UploadError>)
        ensures
            final(self).file_id == old(self).file_id,
            final(self).disk_path == old(self).disk_path,
            final(self).original_name == old(self).original_name,
            final(self).named == old(self).named,
            final(self).max == old(self).max,
            old(self).total + len > old(self).max ==> r == Err::<(), UploadError>(
                UploadError::TooLarge,
            ) && final(self).total == old(self).total,
            old(self).total + len <= old(self).max ==> r is Ok && final(self).total == old(
                self,
            ).total + len,
    {
        let len = len as u64;
        if len > self.max || self.total > self.max - len {
            return Err(UploadError::TooLarge);
        }
        self.total = self.total + len;
        Ok(())
    }
}

/// The owner tag of every object.
pub open spec fn default_owner() -> Seq<char> {
    "default"@
}

/// The metadata that a completed upload publishes.
pub open spec fn finished(u: Upload, mime: Seq<char>, now: i64) -> MetadataView {
    MetadataView {
        file_id: u.file_id@,
        original_name: u.original_name@,
        disk_path: u.disk_path@,
        mime_type: mime,
        size: u.total,
        uploaded_at: now,
        owner: default_owner(),
    }
}

/// The expiry of a capability issued at `now`: `now + ttl`, saturated at
/// the largest timestamp.
pub open spec fn expiry_after(now: i64, ttl: u64) -> i64 {
    if now + ttl > i64::MAX {
        i64::MAX
    } else {
        (now + ttl) as i64
    }
}

/// The expiry of capabilities issued at `now`.
pub fn expires_at(now: i64, ttl: u64) -> (r: i64)
    ensures
        r == expiry_after(now, ttl),
{
    let sum: i128 = now as i128 + ttl as i128;
    if sum > i64::MAX as i128 {
        i64::MAX
    } else {
        sum as i64
    }
}

/// The two capabilities of one upload name the same object and expire
/// together, and differ in mode: one inline, one attachment.
pub proof fn lemma_upload_capabilities_agree(
    file_id: Seq<char>,
    file_type: Seq<char>,
    now: i64,
    ttl: u64,
    date: Seq<char>,
    view_nonce: Seq<char>,
    download_nonce: Seq<char>,
    secret: Seq<char>,
)
    ensures
        ({
            let v = issued(
                file_id,
                "inline"@,
                default_owner(),
                file_type,
                expiry_after(now, ttl),
                date,
                view_nonce,
                secret,
            );
            let d = issued(
                file_id,
                "attachment"@,
                default_owner(),
                file_type,
                expiry_after(now, ttl),
                date,
                download_nonce,
                secret,
            );
            v.id == d.id && v.id == file_id && v.expires == d.expires && v.mode == "inline"@
                && d.mode == "attachment"@ && v.mode != d.mode
        }),
{
    reveal_strlit("inline");
    reveal_strlit("attachment");
    assert("inline"@.len() != "attachment"@.len());
}

/// The reply to a successful upload.
pub struct UploadResponse {
    pub id: String,
    pub name: String,
    pub size: u64,
    pub mime: String,
    pub view: String,
    pub download: String,
    pub ttl: u64,
}

/// The outcome of publishing `upload` at `now` with mime type `mime`, issue
/// date `date` and nonces `view_nonce` and `download_nonce`: the registry
/// holds the finished entry in place of any with its identifier, and the
/// reply carries the two capability URLs.
pub open spec fn published(
    before: Seq<MetadataView>,
    after: Seq<MetadataView>,
    upload: Upload,
    config: Config,
    mime: Seq<char>,
    now: i64,
    date: Seq<char>,
    view_nonce: Seq<char>,
    download_nonce: Seq<char>,
    r: UploadResponse,
) -> bool {
    &&& has_id(before, upload.file_id@) ==> after == before.update(
        slot(before, upload.file_id@),
        finished(upload, mime, now),
    )
    &&& !has_id(before, upload.file_id@) ==> after == before.push(finished(upload, mime, now))
    &&& has_id(after, upload.file_id@)
    &&& after[slot(after, upload.file_id@)] == finished(upload, mime, now)
    &&& r.id@ == upload.file_id@
    &&& r.name@ == upload.original_name@
    &&& r.size == upload.total
    &&& r.mime@ == mime
    &&& r.ttl == config.file_lifetime
    &&& r.view@ == url_text(
        config.base_url@,
        issued(
            upload.file_id@,
            "inline"@,
            default_owner(),
            mime,
            expiry_after(now, config.file_lifetime),
            date,
            view_nonce,
            config.secret_key@,
        ),
    )
    &&& r.download@ == url_text(
        config.base_url@,
        issued(
            upload.file_id@,
            "attachment"@,
            default_owner(),
            mime,
            expiry_after(now, config.file_lifetime),
            date,
            download_nonce,
            config.secret_key@,
        ),
    )
}

/// Publishes a completed upload and mints its two capability URLs, which
/// differ only in mode and nonce and share one expiry.
pub fn publish(
    registry: &mut Registry,
    upload: Upload,
    config: &Config,
    mime_type: String,
    now: i64,
    date: &str,
    view_nonce: &str,
    download_nonce: &str,
) -> (r: UploadResponse)
    requires
        old(registry).wf(),
    ensures
        final(registry).wf(),
        published(
            old(registry)@,
            final(registry)@,
            upload,
            *config,
            mime_type@,
            now,
            date@,
            view_nonce@,
            download_nonce@,
            r,
        ),
{
    let meta = FileMetadata {
        file_id: upload.file_id.clone(),
        original_name: upload.original_name.clone(),
        disk_path: upload.disk_path,
        mime_type: mime_type.clone(),
        size: upload.total,
        uploaded_at: now,
        owner: String::from_str("default"),
    };
    let expires = expires_at(now, config.file_lifetime);
    let view = generate_signed_url(
        upload.file_id.as_str(),
        "inline",
        &meta,
        config,
        expires,
        date,
        view_nonce,
    );
    let download = generate_signed_url(
        upload.file_id.as_str(),
        "attachment",
        &meta,
        config,
        expires,
        date,
        download_nonce,
    );
    registry.insert(meta);
    UploadResponse {
        id: upload.file_id,
        name: upload.original_name,
        size: upload.total,
        mime: mime_type,
        view,
        download,
        ttl: config.file_lifetime,
    }
}

/// Completes an upload at the current time: infers the mime type from the
/// display name, publishes the entry and mints fresh capabilities.
pub fn finish_upload(registry: &mut Registry, upload: Upload, config: &Config) -> (r:
    UploadResponse)
    requires
        old(registry).wf(),
    ensures
        final(registry).wf(),
        exists|now: i64, date: Seq<char>, view_nonce: Seq<char>, download_nonce: Seq<char>|
            #[trigger] published(
                old(registry)@,
                final(registry)@,
                upload,
                *config,
                guessed_mime(upload.original_name@),
                now,
                date,
                view_nonce,
                download_nonce,
                r,
            ),
{
    let ghost u = upload;
    let mime_type = guess_mime(upload.original_name.as_str());
    let now = now_timestamp();
    let date = today_stamp();
    let view_nonce = new_uuid();
    let download_nonce = new_uuid();
    let r = publish(
        registry,
        upload,
        config,
        mime_type,
        now,
        date.as_str(),
        view_nonce.as_str(),
        download_nonce.as_str(),
    );
    assert(published(
        old(registry)@,
        registry@,
        u,
        *config,
        guessed_mime(u.original_name@),
        now,
        date@,
        view_nonce@,
        download_nonce@,
        r,
    ));
    r
}

} // verus!
