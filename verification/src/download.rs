//! Resumable downloads of build artifacts: file names, request headers,
//! which replies are accepted, the expected size, and progress.
use vstd::prelude::*;
use crate::http::status_display;
use crate::text::{dec_nat, last_segment, last_segment_spec, parse_u64, parse_u64_spec, u64_to_decimal};

verus! {

/// The counts that a download ends with: the size it is measured against,
/// the bytes on disk, and whether it was completed. The application keeps
/// them in a progress record that is shared between threads.
#[derive(Debug, Clone, Copy)]
pub struct ProgressCounts {
    pub total_bytes: u64,
    pub downloaded_bytes: u64,
    pub finished: bool,
}

/// The name a download is saved under: the given name, or else the last
/// `/`-separated piece of the URL.
pub open spec fn final_filename_spec(url: Seq<char>, filename: Option<Seq<char>>) -> Seq<char> {
    match filename {
        Some(n) => n,
        None => last_segment_spec(url, '/'),
    }
}

/// The name a download is saved under while it is incomplete.
pub open spec fn temp_filename_spec(name: Seq<char>) -> Seq<char> {
    name + ".tmp"@
}

/// The file names of one download.
#[derive(Debug)]
pub struct DownloadPlan {
    pub file_name: String,
    pub temp_name: String,
}

/// Chooses the final and the temporary file name of a download.
pub fn plan_download(url: &str, filename: Option<&str>) -> (r: DownloadPlan)
    ensures
        r.file_name@ == final_filename_spec(
            url@,
            match filename {
                Some(n) => Some(n@),
                None => None,
            },
        ),
        r.temp_name@ == temp_filename_spec(r.file_name@),
{
    let file_name = match filename {
        Some(n) => n.to_string(),
        None => last_segment(url, '/').to_string(),
    };
    let mut temp_name = file_name.clone();
    temp_name.append(".tmp");
    DownloadPlan { file_name, temp_name }
}

/// The headers of a download request: the user agent, the token when there
/// is one, and a range that resumes after `existing_size` bytes when some
/// are already on disk.
pub open spec fn download_headers_spec(token: Option<Seq<char>>, existing_size: u64) -> Seq<
    (Seq<char>, Seq<char>),
> {
    seq![("user-agent"@, "woGAer"@)] + match token {
        Some(t) => seq![("authorization"@, "Bearer "@ + t)],
        None => Seq::empty(),
    } + if existing_size > 0 {
        seq![("range"@, "bytes="@ + dec_nat(existing_size as nat) + "-"@)]
    } else {
        Seq::empty()
    }
}

/// Builds the headers of a download request.
pub fn download_headers(token: Option<&str>, existing_size: u64) -> (r: Vec<(String, String)>)
    ensures
        crate::http::headers_view(r@) == download_headers_spec(
            match token {
                Some(t) => Some(t@),
                None => None,
            },
            existing_size,
        ),
{
    let mut h: Vec<(String, String)> = Vec::new();
    h.push(("user-agent".to_string(), "woGAer".to_string()));
    match token {
        Some(t) => {
            let mut bearer = "Bearer ".to_string();
            bearer.append(t);
            h.push(("authorization".to_string(), bearer));
        },
        None => {},
    }
    if existing_size > 0 {
        let mut range = "bytes=".to_string();
        let n = u64_to_decimal(existing_size);
        range.append(n.as_str());
        range.append("-");
        h.push(("range".to_string(), range));
    }
    proof {
        let tv = match token {
            Some(t) => Some(t@),
            None => None,
        };
        assert(crate::http::headers_view(h@) =~= download_headers_spec(tv, existing_size));
    }
    h
}

/// A download reply is accepted when it succeeds or delivers part of the
/// file (206).
pub open spec fn download_accepted_spec(status: u16) -> bool {
    (200 <= status <= 299) || status == 206
}

/// Why a download failed.
#[derive(Debug)]
pub enum DownloadError {
    /// The request could not be sent.
    Request,
    /// The server answered with an unexpected status; holds the message.
    Status(String),
    /// The progress callback asked to stop.
    Cancelled,
}

/// A `DownloadError` with its text as characters.
pub enum DownloadErrorView {
    Request,
    Status(Seq<char>),
    Cancelled,
}

impl View for DownloadError {
    type V = DownloadErrorView;

    open spec fn view(&self) -> DownloadErrorView {
        match self {
            DownloadError::Request => DownloadErrorView::Request,
            DownloadError::Status(s) => DownloadErrorView::Status(s@),
            DownloadError::Cancelled => DownloadErrorView::Cancelled,
        }
    }
}

/// The text that reports a download error.
pub open spec fn download_error_message(e: DownloadErrorView) -> Seq<char> {
    match e {
        DownloadErrorView::Request => "Download request failed"@,
        DownloadErrorView::Status(s) => s,
        DownloadErrorView::Cancelled => "Download cancelled by callback"@,
    }
}

impl DownloadError {
    /// The text that reports this error.
    pub fn message(&self) -> (r: String)
        ensures
            r@ == download_error_message(self@),
    {
        match self {
            DownloadError::Request => "Download request failed".to_string(),
            DownloadError::Status(s) => s.clone(),
            DownloadError::Cancelled => "Download cancelled by callback".to_string(),
        }
    }
}

/// Accepts a download reply with a success or partial-content status;
/// any other becomes an error that shows the status and the body.
pub fn check_download_status(status: u16, text: &str) -> (r: Result<(), DownloadError>)
    requires
        100 <= status <= 999,
    ensures
        r is Ok <==> download_accepted_spec(status),
        r matches Err(e) ==> e@ == DownloadErrorView::Status(
            "Download failed: "@ + status_display(status) + " - "@ + text@,
        ),
{
    if (200 <= status && status <= 299) || status == 206 {
        Ok(())
    } else {
        let mut msg = "Download failed: ".to_string();
        let st = crate::http::status_text(status);
        msg.append(st.as_str());
        msg.append(" - ");
        msg.append(text);
        Err(DownloadError::Status(msg))
    }
}

/// The size announced by the reply headers: the number after the last `/`
/// of `Content-Range`, or else `Content-Length`, or else 0.
pub open spec fn announced_size_spec(
    content_range: Option<Seq<char>>,
    content_length: Option<Seq<char>>,
) -> u64 {
    let from_range = match content_range {
        Some(r) => parse_u64_spec(last_segment_spec(r, '/')),
        None => None,
    };
    match from_range {
        Some(n) => n,
        None => match content_length {
            Some(l) => match parse_u64_spec(l) {
                Some(n) => n,
                None => 0,
            },
            None => 0,
        },
    }
}

/// Reads the size that the reply headers announce.
pub fn announced_size(content_range: Option<&str>, content_length: Option<&str>) -> (r: u64)
    ensures
        r == announced_size_spec(
            match content_range {
                Some(s) => Some(s@),
                None => None,
            },
            match content_length {
                Some(s) => Some(s@),
                None => None,
            },
        ),
{
    let from_range = match content_range {
        Some(r) => parse_u64(last_segment(r, '/')),
        None => None,
    };
    match from_range {
        Some(n) => n,
        None => match content_length {
            Some(l) => match parse_u64(l) {
                Some(n) => n,
                None => 0,
            },
            None => 0,
        },
    }
}

/// The size a download is measured against: the announced size, or the
/// bytes already on disk when those are more.
pub fn expected_total(announced: u64, existing_size: u64) -> (r: u64)
    ensures
        r == if announced >= existing_size {
            announced
        } else {
            existing_size
        },
{
    if announced >= existing_size {
        announced
    } else {
        existing_size
    }
}

/// The counts once `received` bytes have been appended to the
/// `existing_size` bytes already on disk, the download being complete.
pub fn completed_progress(announced: u64, existing_size: u64, received: u64) -> (r: ProgressCounts)
    requires
        existing_size + received <= u64::MAX,
    ensures
        r.total_bytes == if announced >= existing_size {
            announced
        } else {
            existing_size
        },
        r.downloaded_bytes == existing_size + received,
        r.finished,
{
    ProgressCounts {
        total_bytes: expected_total(announced, existing_size),
        downloaded_bytes: existing_size + received,
        finished: true,
    }
}

/// Stops a download when the progress callback says so.
pub fn callback_verdict(should_continue: bool) -> (r: Result<(), DownloadError>)
    ensures
        r is Ok <==> should_continue,
        r matches Err(e) ==> e@ == DownloadErrorView::Cancelled,
{
    if should_continue {
        Ok(())
    } else {
        Err(DownloadError::Cancelled)
    }
}

/// A directory entry is a leftover temporary file when its extension is
/// `tmp`: its name ends in `.tmp` after at least one other character.
pub open spec fn is_temp_file_spec(name: Seq<char>) -> bool {
    name.len() > 4 && name.subrange(name.len() - 4, name.len() as int) == ".tmp"@
}

/// Whether a directory entry is a leftover temporary file.
pub fn is_temp_file(name: &str) -> (r: bool)
    ensures
        r == is_temp_file_spec(name@),
{
    let n: usize = name.unicode_len();
    if n <= 4 {
        return false;
    }
    let tail = name.substring_char(n - 4, n);
    crate::text::str_eq(tail, ".tmp")
}

/// What downloading several files one after another needs done next.
#[derive(Debug, PartialEq, Eq)]
pub enum BatchAction {
    /// Download the file at this position of the list.
    Download(usize),
    /// The names the files were saved under, or why the batch stopped.
    Finish(Result<Vec<String>, String>),
}

/// The next step of downloading `count` files in order, given what came of
/// the downloads so far (the saved name, or the failure); the first failure
/// ends the batch.
pub fn batch_next(count: usize, done: &Vec<Result<String, String>>) -> (r: BatchAction)
    requires
        done@.len() <= count,
        forall|i: int| 0 <= i < done@.len() - 1 ==> (#[trigger] done@[i]) is Ok,
    ensures
        done@.len() > 0 && (done@.last() is Err) ==> (r matches BatchAction::Finish(Err(m)) && (
        done@.last() matches Err(x) && m@ == x@)),
        !(done@.len() > 0 && (done@.last() is Err)) && done@.len() < count ==> r == BatchAction::Download(
            done@.len() as usize,
        ),
        !(done@.len() > 0 && (done@.last() is Err)) && done@.len() == count ==> (r matches BatchAction::Finish(
            Ok(names),
        ) && names@.len() == count && forall|i: int|
            0 <= i < count ==> (done@[i] matches Ok(n) && (#[trigger] names@[i])@ == n@)),
{
    let n = done.len();
    if n > 0 {
        match &done[n - 1] {
            Err(m) => {
                return BatchAction::Finish(Err(m.clone()));
            },
            Ok(_) => {},
        }
    }
    if n < count {
        return BatchAction::Download(n);
    }
    let mut names: Vec<String> = Vec::new();
    let mut i: usize = 0;
    while i < n
        invariant
            n == done@.len(),
            n == count,
            i <= n,
            forall|k: int| 0 <= k < n ==> (#[trigger] done@[k]) is Ok,
            names@.len() == i,
            forall|k: int| 0 <= k < i ==> (done@[k] matches Ok(x) && (#[trigger] names@[k])@ == x@),
        decreases n - i,
    {
        match &done[i] {
            Ok(name) => {
                names.push(name.clone());
            },
            Err(m) => {
                return BatchAction::Finish(Err(m.clone()));
            },
        }
        i = i + 1;
    }
    BatchAction::Finish(Ok(names))
}

} // verus!
