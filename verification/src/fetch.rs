//! What a finished download amounts to.
//!
//! The download itself happens elsewhere. Its caller reports what came back
//! as a [`FetchReply`]; this module decides whether that is a picture or a
//! failure, and of which kind.

use vstd::prelude::*;
use crate::picture::decode;
use crate::picture::decoded;
use crate::picture::is_decoding;
use crate::picture::Encoding;
use crate::picture::Picture;

verus! {

/// Why a picture could not be had.
#[derive(Clone, Copy, Debug, PartialEq, Eq, Structural)]
pub enum FetchError {
    /// The request never got an answer.
    Transport,
    /// The server answered with a status outside the 2xx range.
    Status(u16),
    /// The body of the answer is not a picture.
    Decode,
    /// The download was given up without reporting anything.
    Abandoned,
}

/// The message a download leaves behind: the picture or the reason there is none.
pub type Fetched = Result<Picture, FetchError>;

/// What the transport reports of one request.
#[derive(Clone, Debug, PartialEq, Eq)]
pub enum FetchReply {
    /// No answer was received.
    Unreachable,
    /// The server answered with `status` and `body`.
    Response { status: u16, body: Vec<u8> },
}

/// A status in the 2xx range.
pub open spec fn is_success(status: u16) -> bool {
    200 <= status < 300
}

/// The message for an answer with `status` whose body decoded to `decoded`.
/// A refusal by the server outranks whatever the body holds.
pub open spec fn verdict(status: u16, decoded: Option<Picture>) -> Fetched {
    if !is_success(status) {
        Err(FetchError::Status(status))
    } else {
        match decoded {
            Some(picture) => Ok(picture),
            None => Err(FetchError::Decode),
        }
    }
}

/// Computes [`verdict`].
pub fn conclude(status: u16, decoded: Option<Picture>) -> (message: Fetched)
    ensures
        message == verdict(status, decoded),
{
    if status < 200 || status >= 300 {
        Err(FetchError::Status(status))
    } else {
        match decoded {
            Some(picture) => Ok(picture),
            None => Err(FetchError::Decode),
        }
    }
}

/// `message` is the verdict on `reply`: a lost request and a refusal by the
/// server are reported as such, and the body of a successful answer, read as
/// JPEG, either is the picture or is reported as not decoding.
pub open spec fn is_verdict_on(reply: FetchReply, message: Fetched) -> bool {
    match reply {
        FetchReply::Unreachable => message == Err::<Picture, FetchError>(FetchError::Transport),
        FetchReply::Response { status, body } => if is_success(status) {
            match message {
                Ok(picture) => is_decoding(body@, Encoding::Jpeg, Some(picture)),
                Err(cause) => cause == FetchError::Decode && is_decoding(
                    body@,
                    Encoding::Jpeg,
                    None,
                ),
            }
        } else {
            message == Err::<Picture, FetchError>(FetchError::Status(status))
        },
    }
}

/// What the verdict on `reply` comes to for whoever sends it: that a picture
/// goes out, or why none does.
pub open spec fn outcome(reply: FetchReply) -> Result<(), FetchError> {
    match reply {
        FetchReply::Unreachable => Err(FetchError::Transport),
        FetchReply::Response { status, body } => if !is_success(status) {
            Err(FetchError::Status(status))
        } else if decoded(body@, Encoding::Jpeg) is Some {
            Ok(())
        } else {
            Err(FetchError::Decode)
        },
    }
}

/// Turns a transport report into the message to leave behind. The body is
/// decoded, as JPEG, only when the status is a success.
pub fn resolve(reply: FetchReply) -> (message: Fetched)
    ensures
        is_verdict_on(reply, message),
{
    match reply {
        FetchReply::Unreachable => Err(FetchError::Transport),
        FetchReply::Response { status, body } => {
            if 200 <= status && status < 300 {
                conclude(status, decode(body.as_slice(), Encoding::Jpeg))
            } else {
                conclude(status, None)
            }
        },
    }
}

} // verus!
