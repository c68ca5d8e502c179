//! Errors of the transcoding front end and how they are reported to HTTP clients.

use vstd::prelude::*;
use vstd::string::*;
use crate::text::{decimal, push_decimal, string_from};

verus! {

#[derive(Debug)]
pub enum AppError {
    /// Job not found.
    JobNotFound(String),
    /// File not found.
    FileNotFound(String),
    /// Invalid file type.
    InvalidFileType(String),
    /// File too large: size and maximum, in bytes.
    FileTooLarge(usize, usize),
    /// gpop connection error.
    GpopConnection(String),
    /// gpop protocol error.
    GpopProtocol(String),
    /// Pipeline creation failed.
    PipelineCreation(String),
    /// Storage error.
    Storage(String),
    /// Internal error.
    Internal(String),
}

/// The contents of an error.
pub enum AppErrorView {
    JobNotFound(Seq<char>),
    FileNotFound(Seq<char>),
    InvalidFileType(Seq<char>),
    FileTooLarge(usize, usize),
    GpopConnection(Seq<char>),
    GpopProtocol(Seq<char>),
    PipelineCreation(Seq<char>),
    Storage(Seq<char>),
    Internal(Seq<char>),
}

impl View for AppError {
    type V = AppErrorView;

    open spec fn view(&self) -> AppErrorView {
        match self {
            AppError::JobNotFound(s) => AppErrorView::JobNotFound(s@),
            AppError::FileNotFound(s) => AppErrorView::FileNotFound(s@),
            AppError::InvalidFileType(s) => AppErrorView::InvalidFileType(s@),
            AppError::FileTooLarge(a, b) => AppErrorView::FileTooLarge(*a, *b),
            AppError::GpopConnection(s) => AppErrorView::GpopConnection(s@),
            AppError::GpopProtocol(s) => AppErrorView::GpopProtocol(s@),
            AppError::PipelineCreation(s) => AppErrorView::PipelineCreation(s@),
            AppError::Storage(s) => AppErrorView::Storage(s@),
            AppError::Internal(s) => AppErrorView::Internal(s@),
        }
    }
}

impl AppErrorView {
    /// The full message of the error, as it is logged.
    pub open spec fn text(self) -> Seq<char> {
        match self {
            AppErrorView::JobNotFound(id) => "Job not found: "@ + id,
            AppErrorView::FileNotFound(path) => "File not found: "@ + path,
            AppErrorView::InvalidFileType(ext) => "Invalid file type: "@ + ext,
            AppErrorView::FileTooLarge(size, max) => "File too large: "@ + decimal(size as nat) + " bytes (max: "@
                + decimal(max as nat) + " bytes)"@,
            AppErrorView::GpopConnection(msg) => "gpop connection error: "@ + msg,
            AppErrorView::GpopProtocol(msg) => "gpop protocol error: "@ + msg,
            AppErrorView::PipelineCreation(msg) => "Pipeline creation failed: "@ + msg,
            AppErrorView::Storage(msg) => "Storage error: "@ + msg,
            AppErrorView::Internal(msg) => "Internal error: "@ + msg,
        }
    }

    /// The HTTP status of the error response.
    pub open spec fn status(self) -> u16 {
        match self {
            AppErrorView::JobNotFound(_) | AppErrorView::FileNotFound(_) => 404,
            AppErrorView::InvalidFileType(_) | AppErrorView::FileTooLarge(_, _) => 400,
            AppErrorView::GpopConnection(_) | AppErrorView::GpopProtocol(_) => 503,
            _ => 500,
        }
    }

    /// Errors about the client's own upload, whose full message the client may see.
    pub open spec fn is_upload_error(self) -> bool {
        self is InvalidFileType || self is FileTooLarge
    }

    /// The message in the body of the error response: generic, except for upload errors.
    pub open spec fn client_text(self) -> Seq<char> {
        match self {
            AppErrorView::JobNotFound(_) => "Job not found"@,
            AppErrorView::FileNotFound(_) => "Resource not found"@,
            AppErrorView::InvalidFileType(_) | AppErrorView::FileTooLarge(_, _) => self.text(),
            AppErrorView::GpopConnection(_) | AppErrorView::GpopProtocol(_) => "Backend service unavailable"@,
            _ => "Internal server error"@,
        }
    }
}

impl AppErrorView {
    /// The two errors are of the same variant.
    pub open spec fn same_kind(self, other: AppErrorView) -> bool {
        match (self, other) {
            (AppErrorView::JobNotFound(_), AppErrorView::JobNotFound(_)) => true,
            (AppErrorView::FileNotFound(_), AppErrorView::FileNotFound(_)) => true,
            (AppErrorView::InvalidFileType(_), AppErrorView::InvalidFileType(_)) => true,
            (AppErrorView::FileTooLarge(_, _), AppErrorView::FileTooLarge(_, _)) => true,
            (AppErrorView::GpopConnection(_), AppErrorView::GpopConnection(_)) => true,
            (AppErrorView::GpopProtocol(_), AppErrorView::GpopProtocol(_)) => true,
            (AppErrorView::PipelineCreation(_), AppErrorView::PipelineCreation(_)) => true,
            (AppErrorView::Storage(_), AppErrorView::Storage(_)) => true,
            (AppErrorView::Internal(_), AppErrorView::Internal(_)) => true,
            _ => false,
        }
    }
}

/// Apart from upload errors, the status and body of an error response depend only on the
/// kind of error: the details it carries never reach the client.
pub proof fn lemma_client_text_hides_details(a: AppErrorView, b: AppErrorView)
    requires
        !a.is_upload_error(),
        a.same_kind(b),
    ensures
        a.client_text() == b.client_text(),
        a.status() == b.status(),
{
}

impl AppError {
    /// The full message of the error.
    pub fn message(&self) -> (r: String)
        ensures
            r@ == self@.text(),
    {
        let (mut s, detail) = match self {
            AppError::JobNotFound(id) => (string_from("Job not found: "), id.as_str()),
            AppError::FileNotFound(path) => (string_from("File not found: "), path.as_str()),
            AppError::InvalidFileType(ext) => (string_from("Invalid file type: "), ext.as_str()),
            AppError::FileTooLarge(size, max) => {
                let mut s = string_from("File too large: ");
                push_decimal(&mut s, *size as u64);
                s.append(" bytes (max: ");
                push_decimal(&mut s, *max as u64);
                s.append(" bytes)");
                return s;
            },
            AppError::GpopConnection(msg) => (string_from("gpop connection error: "), msg.as_str()),
            AppError::GpopProtocol(msg) => (string_from("gpop protocol error: "), msg.as_str()),
            AppError::PipelineCreation(msg) => (string_from("Pipeline creation failed: "), msg.as_str()),
            AppError::Storage(msg) => (string_from("Storage error: "), msg.as_str()),
            AppError::Internal(msg) => (string_from("Internal error: "), msg.as_str()),
        };
        s.append(detail);
        s
    }

    /// The HTTP status code of the error response.
    pub fn status_code(&self) -> (r: u16)
        ensures
            r == self@.status(),
    {
        match self {
            AppError::JobNotFound(_) | AppError::FileNotFound(_) => 404,
            AppError::InvalidFileType(_) | AppError::FileTooLarge(_, _) => 400,
            AppError::GpopConnection(_) | AppError::GpopProtocol(_) => 503,
            _ => 500,
        }
    }

    /// The message for the body of the error response.
    pub fn client_message(&self) -> (r: String)
        ensures
            r@ == self@.client_text(),
    {
        match self {
            AppError::JobNotFound(_) => string_from("Job not found"),
            AppError::FileNotFound(_) => string_from("Resource not found"),
            AppError::InvalidFileType(_) | AppError::FileTooLarge(_, _) => self.message(),
            AppError::GpopConnection(_) | AppError::GpopProtocol(_) => string_from("Backend service unavailable"),
            _ => string_from("Internal server error"),
        }
    }
}

} // verus!
