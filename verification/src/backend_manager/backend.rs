use vstd::prelude::*;

use crate::message::backend::backend_type::BackendType;
use crate::message::backend::manager_to_backend::{BackendResponse, ManagerToBackendMessage, ResponseData};
use crate::message::common::{MessageEnvelope, PROTOCOL_VERSION};
use crate::text::concat;

verus! {

pub enum BackendError {
    ConnectionFailed(String),
    CommandFailed(String),
    InvalidConfiguration(String),
    NotFound(String),
    SendFailed(String),
}

/// The text of an error, as it is displayed.
pub open spec fn error_text(e: BackendError) -> Seq<char> {
    match e {
        BackendError::ConnectionFailed(m) => "Connection failed: "@ + m@,
        BackendError::CommandFailed(m) => "Command failed: "@ + m@,
        BackendError::InvalidConfiguration(m) => "Invalid configuration: "@ + m@,
        BackendError::NotFound(m) => "Backend not found: "@ + m@,
        BackendError::SendFailed(m) => "Send failed: "@ + m@,
    }
}

impl BackendError {
    /// The error's text, as it is displayed.
    pub fn to_string(&self) -> (r: String)
        ensures
            r@ == error_text(*self),
    {
        match self {
            BackendError::ConnectionFailed(m) => concat("Connection failed: ", m.as_str()),
            BackendError::CommandFailed(m) => concat("Command failed: ", m.as_str()),
            BackendError::InvalidConfiguration(m) => concat("Invalid configuration: ", m.as_str()),
            BackendError::NotFound(m) => concat("Backend not found: ", m.as_str()),
            BackendError::SendFailed(m) => concat("Send failed: ", m.as_str()),
        }
    }
}

/// A backend connected to the manager. Its TCP writer is held beside the
/// registry; `writer_attached` says whether it is there.
pub struct Backend {
    pub id: u64,
    pub backend_type: BackendType,
    /// Seconds since the Unix epoch at which the backend connected.
    pub created_at: u64,
    pub writer_attached: bool,
}

impl Clone for Backend {
    fn clone(&self) -> (r: Self)
        ensures
            r == *self,
    {
        Backend {
            id: self.id,
            backend_type: self.backend_type.duplicate(),
            created_at: self.created_at,
            writer_attached: self.writer_attached,
        }
    }
}

impl Backend {
    /// A backend whose writer is attached, connected at `created_at`.
    pub fn new_with_writer(id: u64, backend_type: BackendType, created_at: u64) -> (b: Self)
        ensures
            b.id == id,
            b.backend_type == backend_type,
            b.created_at == created_at,
            b.writer_attached,
    {
        Backend { id, backend_type, created_at, writer_attached: true }
    }

    pub fn is_connected(&self) -> (r: bool)
        ensures
            r == self.writer_attached,
    {
        self.writer_attached
    }

    /// Drops the writer (the stream is then shut down). Returns whether
    /// there was one.
    pub fn disconnect(&mut self) -> (had_writer: bool)
        ensures
            had_writer == old(self).writer_attached,
            *final(self) == (Backend { writer_attached: false, ..*old(self) }),
    {
        let had = self.writer_attached;
        self.writer_attached = false;
        had
    }

    /// The envelope in which a response is written to the backend, or the
    /// error when it has no writer.
    pub fn send_response(&mut self, response: BackendResponse) -> (r: Result<
        MessageEnvelope<ManagerToBackendMessage>,
        String,
    >)
        ensures
            *final(self) == *old(self),
            match r {
                Ok(e) => old(self).writer_attached && e.version == PROTOCOL_VERSION && e.message
                    == ManagerToBackendMessage::BackendResponse(response),
                Err(t) => !old(self).writer_attached && t@ == "No writer available"@,
            },
    {
        if !self.writer_attached {
            return Err("No writer available".to_owned());
        }
        Ok(MessageEnvelope::new(PROTOCOL_VERSION, ManagerToBackendMessage::BackendResponse(response)))
    }

    /// Sends a failure response.
    pub fn send_error(&mut self, error_msg: String) -> (r: Result<
        MessageEnvelope<ManagerToBackendMessage>,
        String,
    >)
        ensures
            *final(self) == *old(self),
            match r {
                Ok(e) => old(self).writer_attached && e.version == PROTOCOL_VERSION && e.message
                    == ManagerToBackendMessage::BackendResponse(BackendResponse::Failure(error_msg)),
                Err(t) => !old(self).writer_attached && t@ == "No writer available"@,
            },
    {
        self.send_response(BackendResponse::Failure(error_msg))
    }

    /// Sends a success response.
    pub fn send_success(&mut self, message: Option<String>, data: Option<ResponseData>) -> (r:
        Result<MessageEnvelope<ManagerToBackendMessage>, String>)
        ensures
            *final(self) == *old(self),
            match r {
                Ok(e) => old(self).writer_attached && e.version == PROTOCOL_VERSION && e.message
                    == ManagerToBackendMessage::BackendResponse(
                    BackendResponse::Success { message, data },
                ),
                Err(t) => !old(self).writer_attached && t@ == "No writer available"@,
            },
    {
        self.send_response(BackendResponse::Success { message, data })
    }
}

} // verus!
