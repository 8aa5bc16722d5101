//! What the probes make of what comes back: whether a status line means
//! that the target is up, and where in a response its serial number stands.
//! Sending the request is the caller's part; what was received is handed in.

use vstd::prelude::*;
use vstd::string::*;
use crate::actions::deploy_descriptor::{ParserFormat, Pinger, SerialGetter};
use crate::document::{Document, DocumentView};
use crate::json::json_reading;
use crate::text::{dotted_keys, split_dots, texts};

verus! {

/// The value that `keys` lead to from `doc`, each key looked up in the
/// object that the key before it led to. A key that is not there, or that
/// is looked up in what is no object, leads nowhere.
pub open spec fn descend(doc: DocumentView, keys: Seq<Seq<char>>) -> Option<DocumentView>
    decreases keys.len(),
{
    if keys.len() == 0 {
        Some(doc)
    } else {
        match doc.member(keys[0]) {
            None => None,
            Some(child) => descend(child, keys.drop_first()),
        }
    }
}

/// The serial number that the dotted path `path` finds in `doc`: the string
/// that its keys lead to, if they lead to one.
pub open spec fn serial_at(doc: DocumentView, path: Seq<char>) -> Option<Seq<char>> {
    match descend(doc, dotted_keys(path)) {
        Some(found) => found.text(),
        None => None,
    }
}

/// The serial number that the first of `paths` to find one finds in `doc`.
pub open spec fn first_serial(doc: DocumentView, paths: Seq<Seq<char>>) -> Option<Seq<char>>
    decreases paths.len(),
{
    if paths.len() == 0 {
        None
    } else {
        match serial_at(doc, paths[0]) {
            Some(serial) => Some(serial),
            None => first_serial(doc, paths.drop_first()),
        }
    }
}

/// What extraction comes to, given what reading the body as JSON came to:
/// the first serial number that a path finds, or why there is none.
pub open spec fn extraction(
    reading: Result<DocumentView, Seq<char>>,
    paths: Seq<Seq<char>>,
) -> Result<Seq<char>, Seq<char>> {
    match reading {
        Err(message) => Err("Failed to parse json: "@ + message),
        Ok(doc) => match first_serial(doc, paths) {
            Some(serial) => Ok(serial),
            None => Err("Failed to find serial in json"@),
        },
    }
}

/// Whether `outcome` holds the characters that `expected` holds.
pub open spec fn text_outcome_is(
    outcome: Result<String, String>,
    expected: Result<Seq<char>, Seq<char>>,
) -> bool {
    match expected {
        Ok(text) => outcome matches Ok(found) && found@ == text,
        Err(text) => outcome matches Err(found) && found@ == text,
    }
}

/// Follows `keys` from `doc`.
pub fn follow<'a>(doc: &'a Document, keys: &Vec<String>) -> (found: Option<&'a Document>)
    ensures
        match descend(doc@, texts(keys@)) {
            Some(value) => found matches Some(reached) && reached@ == value,
            None => found is None,
        },
{
    let mut current = doc;
    let mut i: usize = 0;
    assert(texts(keys@).skip(0) =~= texts(keys@));
    while i < keys.len()
        invariant
            i <= keys.len(),
            descend(doc@, texts(keys@)) == descend(current@, texts(keys@).skip(i as int)),
        decreases keys.len() - i,
    {
        let ghost rest = texts(keys@).skip(i as int);
        proof {
            assert(rest[0] == keys@[i as int]@);
            assert(rest.drop_first() =~= texts(keys@).skip(i as int + 1));
        }
        match current.get(keys[i].as_str()) {
            None => {
                return None;
            },
            Some(child) => {
                current = child;
            },
        }
        i += 1;
    }
    Some(current)
}

/// The serial number that the first of `paths` to find one finds in `doc`.
pub fn find_serial(doc: &Document, paths: &Vec<String>) -> (serial: Option<String>)
    ensures
        match first_serial(doc@, texts(paths@)) {
            Some(text) => serial matches Some(found) && found@ == text,
            None => serial is None,
        },
{
    let mut i: usize = 0;
    assert(texts(paths@).skip(0) =~= texts(paths@));
    while i < paths.len()
        invariant
            i <= paths.len(),
            first_serial(doc@, texts(paths@)) == first_serial(doc@, texts(paths@).skip(i as int)),
        decreases paths.len() - i,
    {
        let ghost rest = texts(paths@).skip(i as int);
        proof {
            assert(rest[0] == paths@[i as int]@);
            assert(rest.drop_first() =~= texts(paths@).skip(i as int + 1));
        }
        let keys = split_dots(paths[i].as_str());
        match follow(doc, &keys) {
            None => {},
            Some(value) => match value.as_str() {
                None => {},
                Some(serial) => {
                    return Some(serial.to_owned());
                },
            },
        }
        i += 1;
    }
    None
}

/// Extracts the serial number from a response body that was read as JSON
/// into `reading`; a reading that failed holds the message of the failure.
pub fn extract_serial(reading: &Result<Document, String>, paths: &Vec<String>) -> (outcome: Result<
    String,
    String,
>)
    ensures
        text_outcome_is(
            outcome,
            extraction(
                match *reading {
                    Ok(doc) => Ok(doc@),
                    Err(message) => Err(message@),
                },
                texts(paths@),
            ),
        ),
{
    match reading {
        Err(message) => {
            let mut failure = String::from_str("Failed to parse json: ");
            failure.append(message.as_str());
            Err(failure)
        },
        Ok(doc) => match find_serial(doc, paths) {
            Some(serial) => Ok(serial),
            None => Err(String::from_str("Failed to find serial in json")),
        },
    }
}

/// The status line of a response: the number of the status, and the line
/// as it is shown, such as `404 Not Found`.
#[derive(Debug)]
pub struct StatusLine {
    pub code: u16,
    pub text: String,
}

/// Whether a status tells of success: it is one of 200 to 299.
pub open spec fn is_success(code: u16) -> bool {
    200 <= code <= 299
}

/// What a ping comes to, given what sending it came to: success for a
/// status of success, else a failure that shows the status, or the failure
/// of the transport.
pub open spec fn ping_outcome(sent: Result<StatusLine, String>) -> Result<(), Seq<char>> {
    match sent {
        Err(failure) => Err("Failed to ping: "@ + failure@),
        Ok(status) => if is_success(status.code) {
            Ok(())
        } else {
            Err("Failed to ping: "@ + status.text@)
        },
    }
}

/// Why the serial probe stops once its request was sent, if it does: the
/// transport has failed, the status is none of success, or the format of
/// the response is not JSON. `None` where the body is to be read.
pub open spec fn stops_after_send(format: ParserFormat, sent: Result<StatusLine, String>) -> Option<
    Seq<char>,
> {
    match sent {
        Err(failure) => Some("Failed to get body: "@ + failure@),
        Ok(status) => if !is_success(status.code) {
            Some("Failed to get body: "@ + status.text@)
        } else if format != ParserFormat::JSON {
            Some("Unsupported format: "@ + format.label())
        } else {
            None
        },
    }
}

/// What the serial probe makes of the body that was read, or of the failure
/// to read it.
pub open spec fn body_outcome(
    format: ParserFormat,
    paths: Seq<Seq<char>>,
    body: Result<Seq<char>, Seq<char>>,
) -> Result<Seq<char>, Seq<char>> {
    if format != ParserFormat::JSON {
        Err("Unsupported format: "@ + format.label())
    } else {
        match body {
            Err(failure) => Err("Failed to get body: "@ + failure),
            Ok(text) => extraction(json_reading(text), paths),
        }
    }
}

/// What a call of the serial probe comes to, given what sending the request
/// came to and, where the body is read, what reading it came to.
pub open spec fn serial_call_outcome(
    format: ParserFormat,
    paths: Seq<Seq<char>>,
    sent: Result<StatusLine, String>,
    body: Result<Seq<char>, Seq<char>>,
) -> Result<Seq<char>, Seq<char>> {
    match stops_after_send(format, sent) {
        Some(failure) => Err(failure),
        None => body_outcome(format, paths, body),
    }
}

/// A probe whose format is not JSON never gives a serial number, whatever
/// is sent back: once a status of success is in, it fails with the name of
/// the format, and the body plays no part.
pub proof fn lemma_only_json_is_extracted(
    format: ParserFormat,
    paths: Seq<Seq<char>>,
    sent: Result<StatusLine, String>,
    body: Result<Seq<char>, Seq<char>>,
)
    requires
        format != ParserFormat::JSON,
    ensures
        serial_call_outcome(format, paths, sent, body) is Err,
        body_outcome(format, paths, body) == Err::<Seq<char>, Seq<char>>(
            "Unsupported format: "@ + format.label(),
        ),
        sent matches Ok(status) && is_success(status.code) ==> serial_call_outcome(
            format,
            paths,
            sent,
            body,
        ) == Err::<Seq<char>, Seq<char>>("Unsupported format: "@ + format.label()),
{
}

/// The first path that finds a serial number decides, whatever the paths
/// behind it would find.
pub proof fn lemma_first_path_wins(doc: DocumentView, paths: Seq<Seq<char>>, serial: Seq<char>)
    requires
        paths.len() > 0,
        serial_at(doc, paths[0]) == Some(serial),
    ensures
        first_serial(doc, paths) == Some(serial),
{
}

/// The serial number that is found is the one that some path finds, and no
/// path before that one finds any.
pub proof fn lemma_found_by_first_finder(doc: DocumentView, paths: Seq<Seq<char>>)
    requires
        first_serial(doc, paths) is Some,
    ensures
        exists|i: int|
            0 <= i < paths.len() && serial_at(doc, #[trigger] paths[i]) == first_serial(doc, paths)
                && forall|j: int| 0 <= j < i ==> serial_at(doc, #[trigger] paths[j]) is None,
    decreases paths.len(),
{
    if serial_at(doc, paths[0]) is Some {
        assert(serial_at(doc, paths[0]) == first_serial(doc, paths));
    } else {
        let rest = paths.drop_first();
        lemma_found_by_first_finder(doc, rest);
        let k = choose|i: int|
            0 <= i < rest.len() && serial_at(doc, #[trigger] rest[i]) == first_serial(doc, rest)
                && forall|j: int| 0 <= j < i ==> serial_at(doc, #[trigger] rest[j]) is None;
        assert(paths[k + 1] == rest[k]);
        assert forall|j: int| 0 <= j < k + 1 implies serial_at(doc, #[trigger] paths[j])
            is None by {
            if j > 0 {
                assert(paths[j] == rest[j - 1]);
            }
        }
    }
}

/// Where no path finds a serial number, none is found.
pub proof fn lemma_no_path_finds(doc: DocumentView, paths: Seq<Seq<char>>)
    requires
        forall|i: int| 0 <= i < paths.len() ==> serial_at(doc, #[trigger] paths[i]) is None,
    ensures
        first_serial(doc, paths) is None,
    decreases paths.len(),
{
    if paths.len() > 0 {
        let rest = paths.drop_first();
        assert forall|i: int| 0 <= i < rest.len() implies serial_at(doc, #[trigger] rest[i])
            is None by {
            assert(rest[i] == paths[i + 1]);
        }
        lemma_no_path_finds(doc, rest);
    }
}

impl Pinger {
    /// Judges what sending the ping came to: `Ok(status)` with the status
    /// line of the response, or `Err` with what the transport reported. The
    /// body of the response plays no part.
    pub fn judge(&self, sent: &Result<StatusLine, String>) -> (outcome: Result<(), String>)
        ensures
            match ping_outcome(*sent) {
                Ok(()) => outcome is Ok,
                Err(failure) => outcome matches Err(found) && found@ == failure,
            },
    {
        match sent {
            Err(failure) => {
                let mut message = String::from_str("Failed to ping: ");
                message.append(failure.as_str());
                Err(message)
            },
            Ok(status) => {
                if 200 <= status.code && status.code <= 299 {
                    Ok(())
                } else {
                    let mut message = String::from_str("Failed to ping: ");
                    message.append(status.text.as_str());
                    Err(message)
                }
            },
        }
    }
}

impl SerialGetter {
    /// Judges what sending the request came to: `Ok(())` where the body is
    /// to be read next, else the failure that ends the call.
    pub fn judge(&self, sent: &Result<StatusLine, String>) -> (go_on: Result<(), String>)
        ensures
            match stops_after_send(self.format, *sent) {
                None => go_on is Ok,
                Some(failure) => go_on matches Err(found) && found@ == failure,
            },
    {
        match sent {
            Err(failure) => {
                let mut message = String::from_str("Failed to get body: ");
                message.append(failure.as_str());
                Err(message)
            },
            Ok(status) => {
                if !(200 <= status.code && status.code <= 299) {
                    let mut message = String::from_str("Failed to get body: ");
                    message.append(status.text.as_str());
                    Err(message)
                } else {
                    match self.format {
                        ParserFormat::JSON => Ok(()),
                        _ => Err(self.unsupported()),
                    }
                }
            },
        }
    }

    /// The failure for a format that is not extracted from.
    pub fn unsupported(&self) -> (message: String)
        ensures
            message@ == "Unsupported format: "@ + self.format.label(),
    {
        let mut message = String::from_str("Unsupported format: ");
        message.append(self.format.variant_name());
        message
    }

    /// Makes the serial number of the body that was read, or reports why
    /// there is none; `Err` in `body` holds what the transport reported.
    pub fn read_body(&self, body: Result<String, String>) -> (outcome: Result<String, String>)
        ensures
            text_outcome_is(
                outcome,
                body_outcome(
                    self.format,
                    texts(self.paths@),
                    match body {
                        Ok(text) => Ok(text@),
                        Err(failure) => Err(failure@),
                    },
                ),
            ),
    {
        match self.format {
            ParserFormat::JSON => match body {
                Err(failure) => {
                    let mut message = String::from_str("Failed to get body: ");
                    message.append(failure.as_str());
                    Err(message)
                },
                Ok(text) => self.extract_json(text),
            },
            _ => Err(self.unsupported()),
        }
    }

    /// Reads `body` as JSON and extracts the serial number: the string that
    /// the first path to find one leads to.
    pub fn extract_json(&self, body: String) -> (outcome: Result<String, String>)
        ensures
            text_outcome_is(outcome, extraction(json_reading(body@), texts(self.paths@))),
    {
        let reading = Document::parse_json(body.as_str());
        extract_serial(&reading, &self.paths)
    }
}

} // verus!
