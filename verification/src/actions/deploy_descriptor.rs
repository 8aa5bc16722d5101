//! The deploy descriptor: how to reach a target, how to log in, how to stop
//! and start the robot code on it, and the two probes that find out which
//! target it is and whether it is up.

use reqwest::header::HeaderMap;
use vstd::prelude::*;
use vstd::string::*;
use crate::actions::http::{
    empty_headers, header_count, header_entries, is_absolute_url, is_header_name, is_header_value,
    lowercase, no_headers, parse_url, parsed_url, try_append_header, with_header, HEADER_ROOM,
};
use crate::document::{entry_views, item_views, Document, DocumentView};
use crate::text::{optional_text, same_text, texts};
use vstd::utf8::encode_utf8;

verus! {

/// Why a descriptor could not be read: an attribute is not there, or it is
/// not what `hint` says it should be. Both name the file the descriptor came
/// from.
#[derive(Debug, Clone, Copy)]
pub enum DescriptorParseError {
    MissingAttribute { name: &'static str, file_name: &'static str },
    ParseAttribute { name: &'static str, hint: &'static str, file_name: &'static str },
}

/// A `DescriptorParseError` by the characters of its texts.
pub enum DescriptorParseErrorView {
    MissingAttribute { name: Seq<char>, file_name: Seq<char> },
    ParseAttribute { name: Seq<char>, hint: Seq<char>, file_name: Seq<char> },
}

impl View for DescriptorParseError {
    type V = DescriptorParseErrorView;

    open spec fn view(&self) -> DescriptorParseErrorView {
        match *self {
            DescriptorParseError::MissingAttribute { name, file_name } => {
                DescriptorParseErrorView::MissingAttribute { name: name@, file_name: file_name@ }
            },
            DescriptorParseError::ParseAttribute { name, hint, file_name } => {
                DescriptorParseErrorView::ParseAttribute {
                    name: name@,
                    hint: hint@,
                    file_name: file_name@,
                }
            },
        }
    }
}

impl DescriptorParseErrorView {
    /// The sentence that reports the failure.
    pub open spec fn message(self) -> Seq<char> {
        match self {
            DescriptorParseErrorView::MissingAttribute { name, file_name } => {
                "Failed to get attribute "@ + name + " from "@ + file_name
            },
            DescriptorParseErrorView::ParseAttribute { name, hint, file_name } => {
                "Failed to parse attribute "@ + name + " from "@ + file_name + ", should be "@
                    + hint
            },
        }
    }
}

impl DescriptorParseError {
    /// The sentence that reports the failure.
    pub fn message(&self) -> (sentence: String)
        ensures
            sentence@ == self@.message(),
    {
        match *self {
            DescriptorParseError::MissingAttribute { name, file_name } => {
                let mut sentence = String::from_str("Failed to get attribute ");
                sentence.append(name);
                sentence.append(" from ");
                sentence.append(file_name);
                sentence
            },
            DescriptorParseError::ParseAttribute { name, hint, file_name } => {
                let mut sentence = String::from_str("Failed to parse attribute ");
                sentence.append(name);
                sentence.append(" from ");
                sentence.append(file_name);
                sentence.append(", should be ");
                sentence.append(hint);
                sentence
            },
        }
    }
}

/// How the response of the serial probe is written.
#[derive(Debug, Clone, Copy, PartialEq, Eq, Structural)]
pub enum ParserFormat {
    JSON,
    XML,
    REGEX,
}

impl ParserFormat {
    /// The word that a descriptor names the format by.
    pub open spec fn word(self) -> Seq<char> {
        match self {
            ParserFormat::JSON => "json"@,
            ParserFormat::XML => "xml"@,
            ParserFormat::REGEX => "regex"@,
        }
    }

    /// The format that `word` names: one of `json`, `xml`, `regex`, in
    /// exactly these letters.
    pub open spec fn of_word(word: Seq<char>) -> Option<ParserFormat> {
        if word == "json"@ {
            Some(ParserFormat::JSON)
        } else if word == "xml"@ {
            Some(ParserFormat::XML)
        } else if word == "regex"@ {
            Some(ParserFormat::REGEX)
        } else {
            None
        }
    }

    /// The name of the variant, as a failure reports it.
    pub open spec fn label(self) -> Seq<char> {
        match self {
            ParserFormat::JSON => "JSON"@,
            ParserFormat::XML => "XML"@,
            ParserFormat::REGEX => "REGEX"@,
        }
    }

    /// The format that `word` names.
    pub fn from_word(word: &str) -> (format: Option<ParserFormat>)
        ensures
            format == Self::of_word(word@),
    {
        if same_text(word, "json") {
            Some(ParserFormat::JSON)
        } else if same_text(word, "xml") {
            Some(ParserFormat::XML)
        } else if same_text(word, "regex") {
            Some(ParserFormat::REGEX)
        } else {
            None
        }
    }

    /// The word that a descriptor names the format by.
    pub fn as_str(&self) -> (word: &'static str)
        ensures
            word@ == self.word(),
    {
        match self {
            ParserFormat::JSON => "json",
            ParserFormat::XML => "xml",
            ParserFormat::REGEX => "regex",
        }
    }

    /// The name of the variant.
    pub fn variant_name(&self) -> (label: &'static str)
        ensures
            label@ == self.label(),
    {
        match self {
            ParserFormat::JSON => "JSON",
            ParserFormat::XML => "XML",
            ParserFormat::REGEX => "REGEX",
        }
    }
}

/// The verb of an HTTP request.
#[derive(Debug, Clone, Copy, PartialEq, Eq, Structural)]
pub enum HttpMethod {
    Get,
    Post,
    Put,
    Delete,
    Head,
    Options,
    Connect,
    Patch,
}

impl HttpMethod {
    /// The verb in capitals, as it goes over the wire.
    pub open spec fn word(self) -> Seq<char> {
        match self {
            HttpMethod::Get => "GET"@,
            HttpMethod::Post => "POST"@,
            HttpMethod::Put => "PUT"@,
            HttpMethod::Delete => "DELETE"@,
            HttpMethod::Head => "HEAD"@,
            HttpMethod::Options => "OPTIONS"@,
            HttpMethod::Connect => "CONNECT"@,
            HttpMethod::Patch => "PATCH"@,
        }
    }

    /// The verb that `word` names: one of the eight, in capitals.
    pub open spec fn of_word(word: Seq<char>) -> Option<HttpMethod> {
        if word == "GET"@ {
            Some(HttpMethod::Get)
        } else if word == "POST"@ {
            Some(HttpMethod::Post)
        } else if word == "PUT"@ {
            Some(HttpMethod::Put)
        } else if word == "DELETE"@ {
            Some(HttpMethod::Delete)
        } else if word == "HEAD"@ {
            Some(HttpMethod::Head)
        } else if word == "OPTIONS"@ {
            Some(HttpMethod::Options)
        } else if word == "CONNECT"@ {
            Some(HttpMethod::Connect)
        } else if word == "PATCH"@ {
            Some(HttpMethod::Patch)
        } else {
            None
        }
    }

    /// The verb that `word` names.
    pub fn from_word(word: &str) -> (method: Option<HttpMethod>)
        ensures
            method == Self::of_word(word@),
    {
        if same_text(word, "GET") {
            Some(HttpMethod::Get)
        } else if same_text(word, "POST") {
            Some(HttpMethod::Post)
        } else if same_text(word, "PUT") {
            Some(HttpMethod::Put)
        } else if same_text(word, "DELETE") {
            Some(HttpMethod::Delete)
        } else if same_text(word, "HEAD") {
            Some(HttpMethod::Head)
        } else if same_text(word, "OPTIONS") {
            Some(HttpMethod::Options)
        } else if same_text(word, "CONNECT") {
            Some(HttpMethod::Connect)
        } else if same_text(word, "PATCH") {
            Some(HttpMethod::Patch)
        } else {
            None
        }
    }

    /// The verb in capitals.
    pub fn as_str(&self) -> (word: &'static str)
        ensures
            word@ == self.word(),
    {
        match self {
            HttpMethod::Get => "GET",
            HttpMethod::Post => "POST",
            HttpMethod::Put => "PUT",
            HttpMethod::Delete => "DELETE",
            HttpMethod::Head => "HEAD",
            HttpMethod::Options => "OPTIONS",
            HttpMethod::Connect => "CONNECT",
            HttpMethod::Patch => "PATCH",
        }
    }
}

/// The words of the eight verbs are eight different texts.
pub proof fn lemma_method_words_differ()
    ensures
        forall|a: HttpMethod, b: HttpMethod| a != b ==> #[trigger] a.word() != #[trigger] b.word(),
{
    reveal_strlit("GET");
    reveal_strlit("POST");
    reveal_strlit("PUT");
    reveal_strlit("DELETE");
    reveal_strlit("HEAD");
    reveal_strlit("OPTIONS");
    reveal_strlit("CONNECT");
    reveal_strlit("PATCH");
    assert forall|a: HttpMethod, b: HttpMethod| a != b implies #[trigger] a.word()
        != #[trigger] b.word() by {
        let x = a.word();
        let y = b.word();
        if x.len() == y.len() {
            assert(x[0] != y[0] || x[1] != y[1]);
        }
    }
}

/// A verb, written as its word and read again, is the same verb: `POST`
/// comes back as `Post` and as no other.
pub proof fn lemma_method_round_trip(method: HttpMethod)
    ensures
        HttpMethod::of_word(method.word()) == Some(method),
{
    lemma_method_words_differ();
    assert(HttpMethod::Get.word() == "GET"@);
    assert(HttpMethod::Post.word() == "POST"@);
    assert(HttpMethod::Put.word() == "PUT"@);
    assert(HttpMethod::Delete.word() == "DELETE"@);
    assert(HttpMethod::Head.word() == "HEAD"@);
    assert(HttpMethod::Options.word() == "OPTIONS"@);
    assert(HttpMethod::Connect.word() == "CONNECT"@);
    assert(HttpMethod::Patch.word() == "PATCH"@);
}

/// A word is read as a verb only where it is that verb's own word.
pub proof fn lemma_method_of_word(word: Seq<char>)
    ensures
        HttpMethod::of_word(word) matches Some(method) ==> method.word() == word,
{
}

/// A format, written as its word and read again, is the same format.
pub proof fn lemma_format_round_trip(format: ParserFormat)
    ensures
        ParserFormat::of_word(format.word()) == Some(format),
{
    reveal_strlit("json");
    reveal_strlit("xml");
    reveal_strlit("regex");
    assert("json"@.len() == 4 && "xml"@.len() == 3 && "regex"@.len() == 5);
}

/// A word is read as a format only where it is that format's own word.
pub proof fn lemma_format_of_word(word: Seq<char>)
    ensures
        ParserFormat::of_word(word) matches Some(format) ==> format.word() == word,
{
}

/// What the `root_user` attribute should be.
pub const ROOT_USER_HINT: &'static str = "the username of the root user on the target";

/// What the `root_pass` attribute should be.
pub const ROOT_PASS_HINT: &'static str = "the password of the root user on the target";

/// What the `path` attribute should be.
pub const PATH_HINT: &'static str = "the unix path to the deploy directory on the target";

/// What the `start_cmd` attribute should be.
pub const START_CMD_HINT: &'static str = "the command to start the robot-code on the target";

/// What the `stop_cmd` attribute should be.
pub const STOP_CMD_HINT: &'static str = "the command to stop the robot-code on the target";

/// What the `dep_lib_path` attribute should be.
pub const DEP_LIB_PATH_HINT: &'static str =
    "the path to the deploy libraries relative to the deploy directory on the target";

/// What the `url` attribute of the serial probe should be.
pub const SERIAL_URL_HINT: &'static str =
    "the url to get the serial number from, will interpolate $ADDR$ with the address of the target";

/// What the `url` attribute of the ping probe should be.
pub const PING_URL_HINT: &'static str =
    "the url to use, will interpolate $ADDR$ with the address of the target";

/// What the text of a `url` attribute should be.
pub const URL_TEXT_HINT: &'static str = "a string that can be parsed as a url";

/// What the `method` attribute of the serial probe should be.
pub const SERIAL_METHOD_HINT: &'static str =
    "the method to use to get the serial number from the target";

/// What the `method` attribute of the ping probe should be.
pub const PING_METHOD_HINT: &'static str = "the method to use to ping the target";

/// What the text of a `method` attribute should be.
pub const METHOD_WORD_HINT: &'static str = "a string that can be parsed as a method";

/// What the `format` attribute should be.
pub const FORMAT_HINT: &'static str = "the format of the keys";

/// What the text of the `format` attribute should be.
pub const FORMAT_WORD_HINT: &'static str =
    "a string that can be parsed as a format [json, xml, regex]";

/// What the `paths` attribute should be.
pub const PATHS_HINT: &'static str = "The keys to the serial number in the response";

/// What the items of the `paths` attribute should be.
pub const PATH_ITEMS_HINT: &'static str = "an array of strings";

/// What the `headers` attribute should be.
pub const HEADERS_HINT: &'static str = "Additional headers to send with the request";

/// What the entries of the `headers` attribute should be.
pub const HEADER_ITEMS_HINT: &'static str = "an object of strings";

/// The failure for an attribute that is not there.
pub open spec fn missing(name: Seq<char>, file: Seq<char>) -> DescriptorParseErrorView {
    DescriptorParseErrorView::MissingAttribute { name, file_name: file }
}

/// The failure for an attribute that is not what `hint` asks for.
pub open spec fn malformed(name: Seq<char>, hint: Seq<char>, file: Seq<char>)
    -> DescriptorParseErrorView {
    DescriptorParseErrorView::ParseAttribute { name, hint, file_name: file }
}

/// Whether `rule` gives the failure `failure`.
pub open spec fn fails_with<T>(
    rule: Result<T, DescriptorParseErrorView>,
    failure: DescriptorParseErrorView,
) -> bool {
    rule matches Err(found) && found == failure
}

/// Whether `rule` gives the value `value`.
pub open spec fn gives<T>(rule: Result<T, DescriptorParseErrorView>, value: T) -> bool {
    rule matches Ok(found) && found == value
}

/// The rule for an attribute that must be there and must be a string.
pub open spec fn required_text(doc: DocumentView, name: Seq<char>, hint: Seq<char>, file: Seq<char>)
    -> Result<Seq<char>, DescriptorParseErrorView> {
    match doc.member(name) {
        None => Err(missing(name, file)),
        Some(value) => match value.text() {
            Some(text) => Ok(text),
            None => Err(malformed(name, hint, file)),
        },
    }
}

/// The rule for a string attribute that stands for `default` where it is
/// left out.
pub open spec fn defaulted_text(
    doc: DocumentView,
    name: Seq<char>,
    hint: Seq<char>,
    file: Seq<char>,
    default: Seq<char>,
) -> Result<Seq<char>, DescriptorParseErrorView> {
    match doc.member(name) {
        None => Ok(default),
        Some(value) => match value.text() {
            Some(text) => Ok(text),
            None => Err(malformed(name, hint, file)),
        },
    }
}

/// The rule for an attribute that must be there, whatever it is.
pub open spec fn required_member(doc: DocumentView, name: Seq<char>, file: Seq<char>) -> Result<
    DocumentView,
    DescriptorParseErrorView,
> {
    match doc.member(name) {
        None => Err(missing(name, file)),
        Some(value) => Ok(value),
    }
}

/// Whether a text that was read agrees with what its rule gives.
pub open spec fn text_read_as(
    read: Result<&str, DescriptorParseError>,
    rule: Result<Seq<char>, DescriptorParseErrorView>,
) -> bool {
    match rule {
        Ok(text) => read matches Ok(s) && s@ == text,
        Err(failure) => read matches Err(e) && e@ == failure,
    }
}

/// Reads an attribute that must be there and must be a string.
pub fn required_str<'a>(
    doc: &'a Document,
    name: &'static str,
    hint: &'static str,
    file: &'static str,
) -> (read: Result<&'a str, DescriptorParseError>)
    ensures
        text_read_as(read, required_text(doc@, name@, hint@, file@)),
{
    match doc.get(name) {
        None => Err(DescriptorParseError::MissingAttribute { name, file_name: file }),
        Some(value) => match value.as_str() {
            Some(text) => Ok(text),
            None => Err(DescriptorParseError::ParseAttribute { name, hint, file_name: file }),
        },
    }
}

/// Reads a string attribute that stands for `default` where it is left out.
pub fn defaulted_str<'a>(
    doc: &'a Document,
    name: &'static str,
    hint: &'static str,
    file: &'static str,
    default: &'static str,
) -> (read: Result<&'a str, DescriptorParseError>)
    ensures
        text_read_as(read, defaulted_text(doc@, name@, hint@, file@, default@)),
{
    match doc.get(name) {
        None => Ok(default),
        Some(value) => match value.as_str() {
            Some(text) => Ok(text),
            None => Err(DescriptorParseError::ParseAttribute { name, hint, file_name: file }),
        },
    }
}

/// Reads an attribute that must be there, whatever it is.
pub fn required_value<'a>(doc: &'a Document, name: &'static str, file: &'static str) -> (read:
    Result<&'a Document, DescriptorParseError>)
    ensures
        match required_member(doc@, name@, file@) {
            Ok(value) => read matches Ok(found) && found@ == value,
            Err(failure) => read matches Err(e) && e@ == failure,
        },
{
    match doc.get(name) {
        None => Err(DescriptorParseError::MissingAttribute { name, file_name: file }),
        Some(value) => Ok(value),
    }
}

/// The rule for the `method` attribute: the verb that it names, or the one
/// that `default` names where it is left out.
pub open spec fn method_rule(
    doc: DocumentView,
    hint: Seq<char>,
    file: Seq<char>,
    default: Seq<char>,
) -> Result<HttpMethod, DescriptorParseErrorView> {
    match defaulted_text(doc, "method"@, hint, file, default) {
        Err(failure) => Err(failure),
        Ok(word) => match HttpMethod::of_word(word) {
            Some(method) => Ok(method),
            None => Err(malformed("method"@, METHOD_WORD_HINT@, file)),
        },
    }
}

/// The rule for the `format` attribute: it must be there and name a format.
pub open spec fn format_rule(doc: DocumentView, file: Seq<char>) -> Result<
    ParserFormat,
    DescriptorParseErrorView,
> {
    match required_text(doc, "format"@, FORMAT_HINT@, file) {
        Err(failure) => Err(failure),
        Ok(word) => match ParserFormat::of_word(word) {
            Some(format) => Ok(format),
            None => Err(malformed("format"@, FORMAT_WORD_HINT@, file)),
        },
    }
}

/// Whether every one of `items` is a string.
pub open spec fn all_text(items: Seq<DocumentView>) -> bool {
    forall|i: int| 0 <= i < items.len() ==> (#[trigger] items[i]).text() is Some
}

/// The characters of each of `items`, where all of them are strings.
pub open spec fn item_texts(items: Seq<DocumentView>) -> Seq<Seq<char>> {
    Seq::new(items.len(), |i: int| items[i].text()->0)
}

/// The rule for the `paths` attribute: an array of strings that must be
/// there, and that may not be empty where the format is `json`.
pub open spec fn paths_rule(doc: DocumentView, format: ParserFormat, file: Seq<char>) -> Result<
    Seq<Seq<char>>,
    DescriptorParseErrorView,
> {
    match doc.member("paths"@) {
        None => Err(missing("paths"@, file)),
        Some(value) => match value.items() {
            None => Err(malformed("paths"@, PATHS_HINT@, file)),
            Some(items) => if !all_text(items) {
                Err(malformed("paths"@, PATH_ITEMS_HINT@, file))
            } else if format == ParserFormat::JSON && items.len() == 0 {
                Err(malformed("paths"@, PATHS_HINT@, file))
            } else {
                Ok(item_texts(items))
            },
        },
    }
}

/// Whether an entry of a `headers` object can be sent: its value is a
/// string, and name and value are what HTTP takes.
pub open spec fn sendable(entry: (Seq<char>, DocumentView)) -> bool {
    &&& entry.1.text() is Some
    &&& is_header_name(entry.0)
    &&& is_header_value(entry.1.text()->0)
}

/// Whether every one of `entries` can be sent.
pub open spec fn all_sendable(entries: Seq<(Seq<char>, DocumentView)>) -> bool {
    forall|i: int| 0 <= i < entries.len() ==> sendable(#[trigger] entries[i])
}

/// The header map that holds `entries`, added in their order.
pub open spec fn headers_of(entries: Seq<(Seq<char>, DocumentView)>) -> Map<
    Seq<char>,
    Seq<Seq<u8>>,
>
    decreases entries.len(),
{
    if entries.len() == 0 {
        no_headers()
    } else {
        with_header(
            headers_of(entries.drop_last()),
            lowercase(entries.last().0),
            encode_utf8(entries.last().1.text()->0),
        )
    }
}

/// The failure for a `headers` object with an entry that cannot be sent.
pub open spec fn unsendable(file: Seq<char>) -> DescriptorParseErrorView {
    malformed("headers"@, HEADER_ITEMS_HINT@, file)
}

/// The rule for the `headers` attribute: an object whose entries can all be
/// sent; no entries where it is left out.
pub open spec fn headers_rule(doc: DocumentView, file: Seq<char>) -> Result<
    Seq<(Seq<char>, DocumentView)>,
    DescriptorParseErrorView,
> {
    match doc.member("headers"@) {
        None => Ok(Seq::empty()),
        Some(value) => match value.entries() {
            None => Err(malformed("headers"@, HEADERS_HINT@, file)),
            Some(entries) => if all_sendable(entries) {
                Ok(entries)
            } else {
                Err(unsendable(file))
            },
        },
    }
}

/// Whether the `headers` attribute of `doc` has no more entries than a
/// header map is known to take.
pub open spec fn has_header_room(doc: DocumentView) -> bool {
    match doc.member("headers"@) {
        Some(DocumentView::Object(entries)) => entries.len() <= HEADER_ROOM,
        _ => true,
    }
}

/// Whether what was read is what the rules give.
pub open spec fn agrees<T: View>(
    read: Result<T, DescriptorParseError>,
    rule: Result<T::V, DescriptorParseErrorView>,
) -> bool {
    match rule {
        Err(failure) => read matches Err(e) && e@ == failure,
        Ok(view) => read matches Ok(value) && value@ == view,
    }
}

/// Whether what was read fits what the rules give. It is what they give,
/// but for one case: where a `headers` object has more entries than a header
/// map is known to take (`roomy` is false), the map may have refused one,
/// and the reading may have failed on the headers.
pub open spec fn read_as<T: View>(
    read: Result<T, DescriptorParseError>,
    rule: Result<T::V, DescriptorParseErrorView>,
    roomy: bool,
    file: Seq<char>,
) -> bool {
    ||| agrees(read, rule)
    ||| !roomy && (read matches Err(e) && e@ == unsendable(file))
}

/// Reads the `method` attribute.
pub fn read_method(doc: &Document, hint: &'static str, file: &'static str, default: &'static str)
    -> (read: Result<HttpMethod, DescriptorParseError>)
    ensures
        match method_rule(doc@, hint@, file@, default@) {
            Ok(method) => read == Ok::<HttpMethod, DescriptorParseError>(method),
            Err(failure) => read matches Err(e) && e@ == failure,
        },
{
    match defaulted_str(doc, "method", hint, file, default) {
        Err(failure) => Err(failure),
        Ok(word) => match HttpMethod::from_word(word) {
            Some(method) => Ok(method),
            None => Err(
                DescriptorParseError::ParseAttribute {
                    name: "method",
                    hint: METHOD_WORD_HINT,
                    file_name: file,
                },
            ),
        },
    }
}

/// Reads the `format` attribute.
pub fn read_format(doc: &Document, file: &'static str) -> (read: Result<
    ParserFormat,
    DescriptorParseError,
>)
    ensures
        match format_rule(doc@, file@) {
            Ok(format) => read == Ok::<ParserFormat, DescriptorParseError>(format),
            Err(failure) => read matches Err(e) && e@ == failure,
        },
{
    match required_str(doc, "format", FORMAT_HINT, file) {
        Err(failure) => Err(failure),
        Ok(word) => match ParserFormat::from_word(word) {
            Some(format) => Ok(format),
            None => Err(
                DescriptorParseError::ParseAttribute {
                    name: "format",
                    hint: FORMAT_WORD_HINT,
                    file_name: file,
                },
            ),
        },
    }
}

/// Reads the `paths` attribute.
pub fn read_paths(doc: &Document, format: ParserFormat, file: &'static str) -> (read: Result<
    Vec<String>,
    DescriptorParseError,
>)
    ensures
        match paths_rule(doc@, format, file@) {
            Ok(paths) => read matches Ok(found) && texts(found@) == paths,
            Err(failure) => read matches Err(e) && e@ == failure,
        },
{
    let value = match doc.get("paths") {
        None => {
            return Err(DescriptorParseError::MissingAttribute { name: "paths", file_name: file });
        },
        Some(value) => value,
    };
    let items = match value.as_array() {
        None => {
            return Err(
                DescriptorParseError::ParseAttribute {
                    name: "paths",
                    hint: PATHS_HINT,
                    file_name: file,
                },
            );
        },
        Some(items) => items,
    };
    let mut paths: Vec<String> = Vec::new();
    let mut i: usize = 0;
    while i < items.len()
        invariant
            i <= items.len(),
            paths.len() == i,
            doc@.member("paths"@) == Some(value@),
            value@.items() == Some(item_views(items@)),
            forall|k: int| 0 <= k < i ==> (#[trigger] items@[k])@.text() == Some(paths@[k]@),
        decreases items.len() - i,
    {
        match items[i].as_str() {
            None => {
                assert(item_views(items@)[i as int].text() is None);
                return Err(
                    DescriptorParseError::ParseAttribute {
                        name: "paths",
                        hint: PATH_ITEMS_HINT,
                        file_name: file,
                    },
                );
            },
            Some(text) => {
                paths.push(String::from_str(text));
            },
        }
        i += 1;
    }
    assert forall|k: int| 0 <= k < items.len() implies (#[trigger] item_views(items@)[k]).text()
        == Some(paths@[k]@) by {
        assert(items@[k]@.text() == Some(paths@[k]@));
    }
    assert(texts(paths@) =~= item_texts(item_views(items@)));
    if format == ParserFormat::JSON && paths.len() == 0 {
        return Err(
            DescriptorParseError::ParseAttribute {
                name: "paths",
                hint: PATHS_HINT,
                file_name: file,
            },
        );
    }
    Ok(paths)
}

/// Builds the header map of `entries`, adding them in their order: `None`
/// where one of them cannot be sent, or where the map refuses one, which it
/// does not while it holds `HEADER_ROOM` values or fewer.
pub fn headers_from(entries: &Vec<(String, Document)>) -> (headers: Option<HeaderMap>)
    ensures
        headers matches Some(map) ==> all_sendable(entry_views(entries@)) && header_entries(map)
            == headers_of(entry_views(entries@)),
        !all_sendable(entry_views(entries@)) ==> headers is None,
        all_sendable(entry_views(entries@)) && entries.len() <= HEADER_ROOM ==> headers is Some,
{
    let ghost all = entry_views(entries@);
    let mut map = empty_headers();
    let mut i: usize = 0;
    assert(all.take(0) =~= Seq::empty());
    while i < entries.len()
        invariant
            i <= entries.len(),
            all == entry_views(entries@),
            all_sendable(all.take(i as int)),
            header_entries(map) == headers_of(all.take(i as int)),
            header_count(map) == i,
        decreases entries.len() - i,
    {
        let ghost before = all.take(i as int);
        let ghost after = all.take(i as int + 1);
        proof {
            assert(after.drop_last() =~= before);
            assert(after.last() == all[i as int]);
            assert(all[i as int] == (entries@[i as int].0@, entries@[i as int].1@));
        }
        let added = match entries[i].1.as_str() {
            None => false,
            Some(value) => try_append_header(&mut map, entries[i].0.as_str(), value),
        };
        if !added {
            proof {
                if all_sendable(all) {
                    assert(sendable(all[i as int]));
                }
            }
            return None;
        }
        proof {
            assert(sendable(all[i as int]));
            assert forall|k: int| 0 <= k < after.len() implies sendable(#[trigger] after[k]) by {
                if k < i {
                    assert(after[k] == before[k]);
                }
            }
        }
        i += 1;
    }
    assert(all.take(entries.len() as int) =~= all);
    Some(map)
}

/// Reads the `headers` attribute.
pub fn read_headers(doc: &Document, file: &'static str) -> (read: Result<
    HeaderMap,
    DescriptorParseError,
>)
    ensures
        match headers_rule(doc@, file@) {
            Err(failure) => read matches Err(e) && e@ == failure,
            Ok(entries) => {
                ||| read matches Ok(map) && header_entries(map) == headers_of(entries)
                ||| !has_header_room(doc@) && (read matches Err(e) && e@ == unsendable(file@))
            },
        },
{
    match doc.get("headers") {
        None => {
            let map = empty_headers();
            assert(headers_of(Seq::empty()) == no_headers());
            Ok(map)
        },
        Some(value) => match value.as_object() {
            None => Err(
                DescriptorParseError::ParseAttribute {
                    name: "headers",
                    hint: HEADERS_HINT,
                    file_name: file,
                },
            ),
            Some(entries) => match headers_from(entries) {
                Some(map) => Ok(map),
                None => Err(
                    DescriptorParseError::ParseAttribute {
                        name: "headers",
                        hint: HEADER_ITEMS_HINT,
                        file_name: file,
                    },
                ),
            },
        },
    }
}

/// The probe that asks a target for its serial number: the request to
/// send, and where in the response the serial number may stand.
#[derive(Debug)]
pub struct SerialGetter {
    /// The absolute URL to ask, in the form that parsing gives. It may hold
    /// a placeholder for the address of the target, which the caller fills
    /// in.
    pub url: String,
    pub method: HttpMethod,
    pub format: ParserFormat,
    /// Dotted key paths into the response, tried in their order.
    pub paths: Vec<String>,
    pub headers: HeaderMap,
}

/// A `SerialGetter` by what it holds.
pub struct SerialGetterView {
    pub url: Seq<char>,
    pub method: HttpMethod,
    pub format: ParserFormat,
    pub paths: Seq<Seq<char>>,
    pub headers: Map<Seq<char>, Seq<Seq<u8>>>,
}

impl View for SerialGetter {
    type V = SerialGetterView;

    open spec fn view(&self) -> SerialGetterView {
        SerialGetterView {
            url: self.url@,
            method: self.method,
            format: self.format,
            paths: texts(self.paths@),
            headers: header_entries(self.headers),
        }
    }
}

impl SerialGetterView {
    /// What holds of every serial probe that was read from a descriptor:
    /// its URL is absolute, and it has a path to try where the response is
    /// JSON.
    pub open spec fn well_formed(self) -> bool {
        &&& is_absolute_url(self.url)
        &&& self.format == ParserFormat::JSON ==> self.paths.len() > 0
    }
}

/// The probe that asks a target whether it is up.
#[derive(Debug)]
pub struct Pinger {
    /// The absolute URL to ask, in the form that parsing gives.
    pub url: String,
    pub method: HttpMethod,
    pub headers: HeaderMap,
}

/// A `Pinger` by what it holds.
pub struct PingerView {
    pub url: Seq<char>,
    pub method: HttpMethod,
    pub headers: Map<Seq<char>, Seq<Seq<u8>>>,
}

impl View for Pinger {
    type V = PingerView;

    open spec fn view(&self) -> PingerView {
        PingerView {
            url: self.url@,
            method: self.method,
            headers: header_entries(self.headers),
        }
    }
}

impl PingerView {
    /// What holds of every ping probe that was read from a descriptor: its
    /// URL is absolute.
    pub open spec fn well_formed(self) -> bool {
        is_absolute_url(self.url)
    }
}

/// How to deploy to one kind of target.
#[derive(Debug)]
pub struct Descriptor {
    pub root_user: String,
    /// The password of `root_user`; it may be empty.
    pub root_password: String,
    /// The directory on the target to deploy into.
    pub path: String,
    pub start_cmd: String,
    pub stop_cmd: String,
    /// Where the libraries go, relative to `path`.
    pub dep_lib_path: String,
    pub serial_getter: SerialGetter,
    pub pinger: Pinger,
}

/// A `Descriptor` by what it holds.
pub struct DescriptorView {
    pub root_user: Seq<char>,
    pub root_password: Seq<char>,
    pub path: Seq<char>,
    pub start_cmd: Seq<char>,
    pub stop_cmd: Seq<char>,
    pub dep_lib_path: Seq<char>,
    pub serial_getter: SerialGetterView,
    pub pinger: PingerView,
}

impl View for Descriptor {
    type V = DescriptorView;

    open spec fn view(&self) -> DescriptorView {
        DescriptorView {
            root_user: self.root_user@,
            root_password: self.root_password@,
            path: self.path@,
            start_cmd: self.start_cmd@,
            stop_cmd: self.stop_cmd@,
            dep_lib_path: self.dep_lib_path@,
            serial_getter: self.serial_getter@,
            pinger: self.pinger@,
        }
    }
}

impl DescriptorView {
    /// What holds of every descriptor that was read: both probes are well
    /// formed.
    pub open spec fn well_formed(self) -> bool {
        self.serial_getter.well_formed() && self.pinger.well_formed()
    }
}

/// The serial probe that the rules give for `doc`, once the text of its
/// `url` attribute was parsed into `url`.
pub open spec fn serial_getter_rule_with_url(
    doc: DocumentView,
    file: Seq<char>,
    url: Option<Seq<char>>,
) -> Result<SerialGetterView, DescriptorParseErrorView> {
    match url {
        None => Err(malformed("url"@, URL_TEXT_HINT@, file)),
        Some(url) => match method_rule(doc, SERIAL_METHOD_HINT@, file, "POST"@) {
            Err(failure) => Err(failure),
            Ok(method) => match format_rule(doc, file) {
                Err(failure) => Err(failure),
                Ok(format) => match paths_rule(doc, format, file) {
                    Err(failure) => Err(failure),
                    Ok(paths) => match headers_rule(doc, file) {
                        Err(failure) => Err(failure),
                        Ok(entries) => Ok(
                            SerialGetterView {
                                url,
                                method,
                                format,
                                paths,
                                headers: headers_of(entries),
                            },
                        ),
                    },
                },
            },
        },
    }
}

/// The serial probe that the rules give for `doc`: its attributes are read
/// in the order `url`, `method`, `format`, `paths`, `headers`, and the first
/// that fails decides.
pub open spec fn serial_getter_rule(doc: DocumentView, file: Seq<char>) -> Result<
    SerialGetterView,
    DescriptorParseErrorView,
> {
    match required_text(doc, "url"@, SERIAL_URL_HINT@, file) {
        Err(failure) => Err(failure),
        Ok(raw) => serial_getter_rule_with_url(doc, file, parsed_url(raw)),
    }
}

/// The ping probe that the rules give for `doc`, once the text of its `url`
/// attribute was parsed into `url`.
pub open spec fn pinger_rule_with_url(doc: DocumentView, file: Seq<char>, url: Option<Seq<char>>)
    -> Result<PingerView, DescriptorParseErrorView> {
    match url {
        None => Err(malformed("url"@, URL_TEXT_HINT@, file)),
        Some(url) => match method_rule(doc, PING_METHOD_HINT@, file, "GET"@) {
            Err(failure) => Err(failure),
            Ok(method) => match headers_rule(doc, file) {
                Err(failure) => Err(failure),
                Ok(entries) => Ok(PingerView { url, method, headers: headers_of(entries) }),
            },
        },
    }
}

/// The ping probe that the rules give for `doc`: its attributes are read in
/// the order `url`, `method`, `headers`, and the first that fails decides.
pub open spec fn pinger_rule(doc: DocumentView, file: Seq<char>) -> Result<
    PingerView,
    DescriptorParseErrorView,
> {
    match required_text(doc, "url"@, PING_URL_HINT@, file) {
        Err(failure) => Err(failure),
        Ok(raw) => pinger_rule_with_url(doc, file, parsed_url(raw)),
    }
}

/// Reads the serial probe of `jval`, of which the text of the `url`
/// attribute was parsed into `url` already.
pub fn serial_getter_with_url(jval: &Document, file: &'static str, url: Option<String>) -> (read:
    Result<SerialGetter, DescriptorParseError>)
    ensures
        read_as(
            read,
            serial_getter_rule_with_url(jval@, file@, optional_text(url)),
            has_header_room(jval@),
            file@,
        ),
        serial_getter_rule_with_url(jval@, file@, optional_text(url)) is Err ==> agrees(
            read,
            serial_getter_rule_with_url(jval@, file@, optional_text(url)),
        ),
{
    let url = match url {
        None => {
            return Err(
                DescriptorParseError::ParseAttribute {
                    name: "url",
                    hint: URL_TEXT_HINT,
                    file_name: file,
                },
            );
        },
        Some(url) => url,
    };
    let method = match read_method(jval, SERIAL_METHOD_HINT, file, "POST") {
        Err(failure) => {
            return Err(failure);
        },
        Ok(method) => method,
    };
    let format = match read_format(jval, file) {
        Err(failure) => {
            return Err(failure);
        },
        Ok(format) => format,
    };
    let paths = match read_paths(jval, format, file) {
        Err(failure) => {
            return Err(failure);
        },
        Ok(paths) => paths,
    };
    let headers = match read_headers(jval, file) {
        Err(failure) => {
            return Err(failure);
        },
        Ok(headers) => headers,
    };
    Ok(SerialGetter { url, method, format, paths, headers })
}

/// Reads the serial probe of a descriptor from its sub-document `jval`.
pub fn parse_serial_getter(jval: &Document, file: &'static str) -> (read: Result<
    SerialGetter,
    DescriptorParseError,
>)
    ensures
        read_as(read, serial_getter_rule(jval@, file@), has_header_room(jval@), file@),
        serial_getter_rule(jval@, file@) is Err ==> agrees(read, serial_getter_rule(jval@, file@)),
        read matches Ok(probe) ==> probe@.well_formed(),
{
    let raw = match required_str(jval, "url", SERIAL_URL_HINT, file) {
        Err(failure) => {
            return Err(failure);
        },
        Ok(raw) => raw,
    };
    let url = parse_url(raw);
    let read = serial_getter_with_url(jval, file, url);
    proof {
        if read is Ok {
            assert(parsed_url(raw@) == Some(read->Ok_0.url@));
        }
    }
    read
}

/// Reads the ping probe of `jval`, of which the text of the `url` attribute
/// was parsed into `url` already.
pub fn pinger_with_url(jval: &Document, file: &'static str, url: Option<String>) -> (read: Result<
    Pinger,
    DescriptorParseError,
>)
    ensures
        read_as(
            read,
            pinger_rule_with_url(jval@, file@, optional_text(url)),
            has_header_room(jval@),
            file@,
        ),
        pinger_rule_with_url(jval@, file@, optional_text(url)) is Err ==> agrees(
            read,
            pinger_rule_with_url(jval@, file@, optional_text(url)),
        ),
{
    let url = match url {
        None => {
            return Err(
                DescriptorParseError::ParseAttribute {
                    name: "url",
                    hint: URL_TEXT_HINT,
                    file_name: file,
                },
            );
        },
        Some(url) => url,
    };
    let method = match read_method(jval, PING_METHOD_HINT, file, "GET") {
        Err(failure) => {
            return Err(failure);
        },
        Ok(method) => method,
    };
    let headers = match read_headers(jval, file) {
        Err(failure) => {
            return Err(failure);
        },
        Ok(headers) => headers,
    };
    Ok(Pinger { url, method, headers })
}

/// Reads the ping probe of a descriptor from its sub-document `jval`.
pub fn parse_pinger(jval: &Document, file: &'static str) -> (read: Result<
    Pinger,
    DescriptorParseError,
>)
    ensures
        read_as(read, pinger_rule(jval@, file@), has_header_room(jval@), file@),
        pinger_rule(jval@, file@) is Err ==> agrees(read, pinger_rule(jval@, file@)),
        read matches Ok(probe) ==> probe@.well_formed(),
{
    let raw = match required_str(jval, "url", PING_URL_HINT, file) {
        Err(failure) => {
            return Err(failure);
        },
        Ok(raw) => raw,
    };
    let url = parse_url(raw);
    let read = pinger_with_url(jval, file, url);
    proof {
        if read is Ok {
            assert(parsed_url(raw@) == Some(read->Ok_0.url@));
        }
    }
    read
}

/// The descriptor that the rules give for `doc`. The attributes are read in
/// the order `root_user`, `root_pass`, `path`, `start_cmd`, `stop_cmd`,
/// `dep_lib_path`, `serial_getter`, `pinger`, and the first that fails
/// decides. Left out, `root_pass` is empty, `path` is `~` and `dep_lib_path`
/// is `./lib`.
pub open spec fn descriptor_rule(doc: DocumentView, file: Seq<char>) -> Result<
    DescriptorView,
    DescriptorParseErrorView,
> {
    match required_text(doc, "root_user"@, ROOT_USER_HINT@, file) {
        Err(failure) => Err(failure),
        Ok(root_user) => match defaulted_text(doc, "root_pass"@, ROOT_PASS_HINT@, file, ""@) {
            Err(failure) => Err(failure),
            Ok(root_password) => match defaulted_text(doc, "path"@, PATH_HINT@, file, "~"@) {
                Err(failure) => Err(failure),
                Ok(path) => match required_text(doc, "start_cmd"@, START_CMD_HINT@, file) {
                    Err(failure) => Err(failure),
                    Ok(start_cmd) => match required_text(doc, "stop_cmd"@, STOP_CMD_HINT@, file) {
                        Err(failure) => Err(failure),
                        Ok(stop_cmd) => match defaulted_text(
                            doc,
                            "dep_lib_path"@,
                            DEP_LIB_PATH_HINT@,
                            file,
                            "./lib"@,
                        ) {
                            Err(failure) => Err(failure),
                            Ok(dep_lib_path) => match probes_rule(doc, file) {
                                Err(failure) => Err(failure),
                                Ok((serial_getter, pinger)) => Ok(
                                    DescriptorView {
                                        root_user,
                                        root_password,
                                        path,
                                        start_cmd,
                                        stop_cmd,
                                        dep_lib_path,
                                        serial_getter,
                                        pinger,
                                    },
                                ),
                            },
                        },
                    },
                },
            },
        },
    }
}

/// The two probes that the rules give for the descriptor `doc`: the serial
/// probe is read before the ping probe is looked for.
pub open spec fn probes_rule(doc: DocumentView, file: Seq<char>) -> Result<
    (SerialGetterView, PingerView),
    DescriptorParseErrorView,
> {
    match required_member(doc, "serial_getter"@, file) {
        Err(failure) => Err(failure),
        Ok(serial_doc) => match serial_getter_rule(serial_doc, file) {
            Err(failure) => Err(failure),
            Ok(serial_getter) => match required_member(doc, "pinger"@, file) {
                Err(failure) => Err(failure),
                Ok(ping_doc) => match pinger_rule(ping_doc, file) {
                    Err(failure) => Err(failure),
                    Ok(pinger) => Ok((serial_getter, pinger)),
                },
            },
        },
    }
}

/// Whether neither probe of the descriptor `doc` has more headers than a
/// header map is known to take.
pub open spec fn probes_have_header_room(doc: DocumentView) -> bool {
    &&& doc.member("serial_getter"@) matches Some(probe) ==> has_header_room(probe)
    &&& doc.member("pinger"@) matches Some(probe) ==> has_header_room(probe)
}

/// Reads a descriptor from the document `jval`, which came from `file`.
pub fn parse_descriptor(jval: &Document, file: &'static str) -> (read: Result<
    Descriptor,
    DescriptorParseError,
>)
    ensures
        read_as(read, descriptor_rule(jval@, file@), probes_have_header_room(jval@), file@),
        read matches Ok(descriptor) ==> descriptor@.well_formed(),
{
    let root_user = match required_str(jval, "root_user", ROOT_USER_HINT, file) {
        Err(failure) => {
            return Err(failure);
        },
        Ok(text) => text,
    };
    let root_password = match defaulted_str(jval, "root_pass", ROOT_PASS_HINT, file, "") {
        Err(failure) => {
            return Err(failure);
        },
        Ok(text) => text,
    };
    let path = match defaulted_str(jval, "path", PATH_HINT, file, "~") {
        Err(failure) => {
            return Err(failure);
        },
        Ok(text) => text,
    };
    let start_cmd = match required_str(jval, "start_cmd", START_CMD_HINT, file) {
        Err(failure) => {
            return Err(failure);
        },
        Ok(text) => text,
    };
    let stop_cmd = match required_str(jval, "stop_cmd", STOP_CMD_HINT, file) {
        Err(failure) => {
            return Err(failure);
        },
        Ok(text) => text,
    };
    let dep_lib_path = match defaulted_str(jval, "dep_lib_path", DEP_LIB_PATH_HINT, file, "./lib") {
        Err(failure) => {
            return Err(failure);
        },
        Ok(text) => text,
    };
    let serial_doc = match required_value(jval, "serial_getter", file) {
        Err(failure) => {
            return Err(failure);
        },
        Ok(value) => value,
    };
    let serial_getter = match parse_serial_getter(serial_doc, file) {
        Err(failure) => {
            return Err(failure);
        },
        Ok(probe) => probe,
    };
    let ping_doc = match required_value(jval, "pinger", file) {
        Err(failure) => {
            return Err(failure);
        },
        Ok(value) => value,
    };
    let pinger = match parse_pinger(ping_doc, file) {
        Err(failure) => {
            return Err(failure);
        },
        Ok(probe) => probe,
    };
    Ok(
        Descriptor {
            root_user: root_user.to_owned(),
            root_password: root_password.to_owned(),
            path: path.to_owned(),
            start_cmd: start_cmd.to_owned(),
            stop_cmd: stop_cmd.to_owned(),
            dep_lib_path: dep_lib_path.to_owned(),
            serial_getter,
            pinger,
        },
    )
}

} // verus!
