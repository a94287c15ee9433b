//! The speech-to-text service: what to send it, and what its replies mean.

use vstd::prelude::*;
use crate::json::{parse_value, parsed, transcript_in, transcript_of};
use crate::status::{is_success, status_is_success, status_text, status_text_of};

verus! {

/// The endpoint that lists the account's projects; a cheap call that tells
/// whether a key is accepted.
pub const PROJECTS_URL: &'static str = "https://api.deepgram.com/v1/projects";

/// The endpoint that transcribes uploaded audio, with its model options.
pub const LISTEN_URL: &'static str = "https://api.deepgram.com/v1/listen?model=nova-2&smart_format=true";

/// The name of the multipart field that carries the audio.
pub const AUDIO_FIELD: &'static str = "audio";

/// The file name under which the audio is uploaded.
pub const AUDIO_FILE_NAME: &'static str = "audio.webm";

/// The media type of the uploaded audio.
pub const AUDIO_MIME_TYPE: &'static str = "audio/webm";

/// What came back from a request that was sent: its status, and its body or
/// the reason the body could not be read.
pub struct HttpReply {
    pub status: u16,
    pub body: Result<Vec<u8>, String>,
}

/// A textual result seen as character sequences.
pub open spec fn text_result<T: View<V = Seq<char>>>(r: Result<T, String>) -> Result<Seq<char>, Seq<char>> {
    match r {
        Ok(t) => Ok(t@),
        Err(e) => Err(e@),
    }
}

/// A result without a value, its error seen as a character sequence.
pub open spec fn unit_result(r: Result<(), String>) -> Result<(), Seq<char>> {
    match r {
        Ok(()) => Ok(()),
        Err(e) => Err(e@),
    }
}

/// The value of the Authorization header for `api_key`.
pub open spec fn authorization_of(api_key: Seq<char>) -> Seq<char> {
    "Token "@ + api_key
}

/// The failure reported for a key that the service does not accept.
pub open spec fn invalid_key_message() -> Seq<char> {
    "Invalid API key. Please check your Deepgram API key."@
}

/// What the connection check returns, given the status of the reply or the
/// reason the request could not be sent.
pub open spec fn connection_outcome(reply: Result<u16, Seq<char>>) -> Result<(), Seq<char>> {
    match reply {
        Err(e) => Err("Connection test failed: "@ + e),
        Ok(code) => if is_success(code) {
            Ok(())
        } else if code == 401 {
            Err(invalid_key_message())
        } else {
            Err("API connection failed: "@ + status_text_of(code))
        },
    }
}

/// The prefix of every failure to read the reply as JSON.
pub open spec fn parse_error_prefix() -> Seq<char> {
    "JSON parse error: "@
}

/// Whether `s` begins with `prefix`.
pub open spec fn starts_with(s: Seq<char>, prefix: Seq<char>) -> bool {
    prefix.len() <= s.len() && s.subrange(0, prefix.len() as int) == prefix
}

/// The value to send in the Authorization header with `api_key`.
pub fn authorization_header(api_key: &str) -> (r: String)
    ensures
        r@ == authorization_of(api_key@),
{
    let mut header = String::from_str("Token ");
    header.append(api_key);
    header
}

/// Decides the outcome of the connection check: success on a 2xx status, the
/// invalid-key failure on 401, a failure naming the status on any other, and
/// a failure naming the cause when the request could not be sent.
pub fn connection_result(reply: Result<u16, String>) -> (r: Result<(), String>)
    ensures
        unit_result(r) == connection_outcome(text_result_u16(reply)),
{
    match reply {
        Err(e) => {
            let mut message = String::from_str("Connection test failed: ");
            message.append(e.as_str());
            Err(message)
        },
        Ok(code) => if status_is_success(code) {
            Ok(())
        } else if code == 401 {
            Err(String::from_str("Invalid API key. Please check your Deepgram API key."))
        } else {
            let mut message = String::from_str("API connection failed: ");
            message.append(status_text(code).as_str());
            Err(message)
        },
    }
}

/// A status, or the reason a request could not be sent, with the reason seen
/// as a character sequence.
pub open spec fn text_result_u16(r: Result<u16, String>) -> Result<u16, Seq<char>> {
    match r {
        Ok(code) => Ok(code),
        Err(e) => Err(e@),
    }
}

/// Decides the outcome of a transcription request. A request that could not
/// be sent fails with its cause. Otherwise the body is looked at first,
/// whatever the status: a body that cannot be read, or is not JSON that
/// parses, fails with a parse error. A body that parses fails with the status
/// when that is not 2xx; on a 2xx status the result is the transcript the body
/// carries, or the empty text where it carries none.
pub fn transcription_result(reply: Result<HttpReply, String>) -> (r: Result<String, String>)
    ensures
        match reply {
            Err(e) => text_result(r) == Err::<Seq<char>, Seq<char>>("Request failed: "@ + e@),
            Ok(rep) => match rep.body {
                Err(d) => text_result(r) == Err::<Seq<char>, Seq<char>>(
                    parse_error_prefix() + d@,
                ),
                Ok(bytes) => match parsed(bytes@) {
                    None => r matches Err(m) && starts_with(m@, parse_error_prefix()),
                    Some(doc) => if !is_success(rep.status) {
                        text_result(r) == Err::<Seq<char>, Seq<char>>(
                            "API error: "@ + status_text_of(rep.status),
                        )
                    } else {
                        text_result(r) == Ok::<Seq<char>, Seq<char>>(transcript_in(doc))
                    },
                },
            },
        },
{
    match reply {
        Err(e) => {
            let mut message = String::from_str("Request failed: ");
            message.append(e.as_str());
            Err(message)
        },
        Ok(rep) => {
            let mut parse_error = String::from_str("JSON parse error: ");
            match rep.body {
                Err(d) => {
                    parse_error.append(d.as_str());
                    Err(parse_error)
                },
                Ok(bytes) => match parse_value(bytes.as_slice()) {
                    Err(e) => {
                        let ghost prefix = parse_error@;
                        parse_error.append(e.to_string().as_str());
                        assert(parse_error@.subrange(0, prefix.len() as int) =~= prefix);
                        Err(parse_error)
                    },
                    Ok(doc) => if status_is_success(rep.status) {
                        Ok(transcript_of(&doc))
                    } else {
                        let mut message = String::from_str("API error: ");
                        message.append(status_text(rep.status).as_str());
                        Err(message)
                    },
                },
            }
        },
    }
}

} // verus!
