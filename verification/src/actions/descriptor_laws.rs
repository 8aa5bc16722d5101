//! What holds of every descriptor that is read: which failure a missing or
//! a malformed attribute gives, what stands in for an attribute that is left
//! out, and that the words of a descriptor come back from what was read.

use vstd::prelude::*;
use crate::actions::deploy_descriptor::{
    defaulted_text, descriptor_rule, fails_with, format_rule, gives, headers_of, headers_rule,
    lemma_format_of_word, lemma_format_round_trip, lemma_method_of_word, lemma_method_round_trip,
    malformed, method_rule, missing, paths_rule, pinger_rule, pinger_rule_with_url, probes_rule,
    required_text, serial_getter_rule, serial_getter_rule_with_url, DescriptorParseErrorView,
    HttpMethod, ParserFormat, DEP_LIB_PATH_HINT, FORMAT_WORD_HINT, METHOD_WORD_HINT, PATH_HINT,
    PING_METHOD_HINT, ROOT_PASS_HINT, ROOT_USER_HINT, SERIAL_METHOD_HINT, START_CMD_HINT,
    STOP_CMD_HINT,
};
use crate::actions::http::{no_headers, parsed_url};
use crate::document::DocumentView;

verus! {

/// Whether the text attributes of a descriptor that are read before
/// `start_cmd` are read without failure.
pub open spec fn reads_up_to_start_cmd(doc: DocumentView, file: Seq<char>) -> bool {
    &&& required_text(doc, "root_user"@, ROOT_USER_HINT@, file) is Ok
    &&& defaulted_text(doc, "root_pass"@, ROOT_PASS_HINT@, file, ""@) is Ok
    &&& defaulted_text(doc, "path"@, PATH_HINT@, file, "~"@) is Ok
}

/// Whether the text attributes of a descriptor that are read before
/// `stop_cmd` are read without failure.
pub open spec fn reads_up_to_stop_cmd(doc: DocumentView, file: Seq<char>) -> bool {
    &&& reads_up_to_start_cmd(doc, file)
    &&& required_text(doc, "start_cmd"@, START_CMD_HINT@, file) is Ok
}

/// Whether all text attributes of a descriptor, which are read before its
/// probes, are read without failure.
pub open spec fn reads_up_to_probes(doc: DocumentView, file: Seq<char>) -> bool {
    &&& reads_up_to_stop_cmd(doc, file)
    &&& required_text(doc, "stop_cmd"@, STOP_CMD_HINT@, file) is Ok
    &&& defaulted_text(doc, "dep_lib_path"@, DEP_LIB_PATH_HINT@, file, "./lib"@) is Ok
}

/// A descriptor is read only where `root_user`, `start_cmd`, `stop_cmd`,
/// `serial_getter` and `pinger` are all there.
pub proof fn lemma_read_descriptor_has_required(doc: DocumentView, file: Seq<char>)
    requires
        descriptor_rule(doc, file) is Ok,
    ensures
        doc.member("root_user"@) is Some,
        doc.member("start_cmd"@) is Some,
        doc.member("stop_cmd"@) is Some,
        doc.member("serial_getter"@) is Some,
        doc.member("pinger"@) is Some,
{
}

/// Without `root_user`, reading fails with `MissingAttribute` for
/// `root_user`.
pub proof fn lemma_missing_root_user(doc: DocumentView, file: Seq<char>)
    requires
        doc.member("root_user"@) is None,
    ensures
        fails_with(descriptor_rule(doc, file), missing("root_user"@, file)),
{
}

/// Without `start_cmd`, reading fails with `MissingAttribute` for
/// `start_cmd`, where no attribute before it has failed.
pub proof fn lemma_missing_start_cmd(doc: DocumentView, file: Seq<char>)
    requires
        doc.member("start_cmd"@) is None,
        reads_up_to_start_cmd(doc, file),
    ensures
        fails_with(descriptor_rule(doc, file), missing("start_cmd"@, file)),
{
}

/// Without `stop_cmd`, reading fails with `MissingAttribute` for `stop_cmd`,
/// where no attribute before it has failed.
pub proof fn lemma_missing_stop_cmd(doc: DocumentView, file: Seq<char>)
    requires
        doc.member("stop_cmd"@) is None,
        reads_up_to_stop_cmd(doc, file),
    ensures
        fails_with(descriptor_rule(doc, file), missing("stop_cmd"@, file)),
{
}

/// Without `serial_getter`, reading fails with `MissingAttribute` for
/// `serial_getter`, where no attribute before it has failed.
pub proof fn lemma_missing_serial_getter(doc: DocumentView, file: Seq<char>)
    requires
        doc.member("serial_getter"@) is None,
        reads_up_to_probes(doc, file),
    ensures
        fails_with(descriptor_rule(doc, file), missing("serial_getter"@, file)),
{
}

/// Without `pinger`, reading fails with `MissingAttribute` for `pinger`,
/// where no attribute before it has failed and the serial probe was read.
pub proof fn lemma_missing_pinger(doc: DocumentView, file: Seq<char>)
    requires
        doc.member("pinger"@) is None,
        reads_up_to_probes(doc, file),
        doc.member("serial_getter"@) matches Some(probe) && serial_getter_rule(probe, file) is Ok,
    ensures
        fails_with(descriptor_rule(doc, file), missing("pinger"@, file)),
{
}

/// An attribute with a default that is left out does not fail, and the
/// default stands in for it: an empty `root_pass`, `~` for `path`, `./lib`
/// for `dep_lib_path`.
pub proof fn lemma_omitted_texts(doc: DocumentView, file: Seq<char>)
    ensures
        doc.member("root_pass"@) is None ==> gives(
            defaulted_text(doc, "root_pass"@, ROOT_PASS_HINT@, file, ""@),
            ""@,
        ),
        doc.member("path"@) is None ==> gives(
            defaulted_text(doc, "path"@, PATH_HINT@, file, "~"@),
            "~"@,
        ),
        doc.member("dep_lib_path"@) is None ==> gives(
            defaulted_text(doc, "dep_lib_path"@, DEP_LIB_PATH_HINT@, file, "./lib"@),
            "./lib"@,
        ),
        descriptor_rule(doc, file) matches Ok(read) ==> {
            &&& doc.member("root_pass"@) is None ==> read.root_password == ""@
            &&& doc.member("path"@) is None ==> read.path == "~"@
            &&& doc.member("dep_lib_path"@) is None ==> read.dep_lib_path == "./lib"@
        },
{
}

/// A descriptor that leaves out `root_pass`, `path` and `dep_lib_path` and
/// is in order otherwise is read, with the defaults in their places.
pub proof fn lemma_omitted_texts_are_read(doc: DocumentView, file: Seq<char>)
    requires
        doc.member("root_pass"@) is None,
        doc.member("path"@) is None,
        doc.member("dep_lib_path"@) is None,
        required_text(doc, "root_user"@, ROOT_USER_HINT@, file) is Ok,
        required_text(doc, "start_cmd"@, START_CMD_HINT@, file) is Ok,
        required_text(doc, "stop_cmd"@, STOP_CMD_HINT@, file) is Ok,
        probes_rule(doc, file) is Ok,
    ensures
        descriptor_rule(doc, file) matches Ok(read) && read.root_password == ""@ && read.path
            == "~"@ && read.dep_lib_path == "./lib"@,
{
}

/// A probe that leaves out `method` asks with its default verb, `POST` for
/// the serial number and `GET` for a ping; one that leaves out `headers`
/// sends none. Neither omission fails.
pub proof fn lemma_omitted_probe_attributes(doc: DocumentView, file: Seq<char>, url: Seq<char>)
    ensures
        doc.member("method"@) is None ==> gives(
            method_rule(doc, SERIAL_METHOD_HINT@, file, "POST"@),
            HttpMethod::Post,
        ),
        doc.member("method"@) is None ==> gives(
            method_rule(doc, PING_METHOD_HINT@, file, "GET"@),
            HttpMethod::Get,
        ),
        doc.member("headers"@) is None ==> (headers_rule(doc, file) matches Ok(entries)
            && headers_of(entries) == no_headers()),
        serial_getter_rule_with_url(doc, file, Some(url)) matches Ok(probe) ==> {
            &&& doc.member("method"@) is None ==> probe.method == HttpMethod::Post
            &&& doc.member("headers"@) is None ==> probe.headers == no_headers()
        },
        pinger_rule_with_url(doc, file, Some(url)) matches Ok(probe) ==> {
            &&& doc.member("method"@) is None ==> probe.method == HttpMethod::Get
            &&& doc.member("headers"@) is None ==> probe.headers == no_headers()
        },
{
    lemma_method_round_trip(HttpMethod::Post);
    lemma_method_round_trip(HttpMethod::Get);
}

/// A ping probe that names its URL and nothing else is read: it asks that
/// URL with `GET` and without headers.
pub proof fn lemma_bare_pinger_is_read(doc: DocumentView, file: Seq<char>, url: Seq<char>)
    requires
        doc.member("method"@) is None,
        doc.member("headers"@) is None,
    ensures
        pinger_rule_with_url(doc, file, Some(url)) matches Ok(probe) && probe.url == url
            && probe.method == HttpMethod::Get && probe.headers == no_headers(),
{
    lemma_omitted_probe_attributes(doc, file, url);
}

/// A serial probe that leaves out `method` and `headers` and is in order
/// otherwise is read: it asks with `POST` and without headers.
pub proof fn lemma_bare_serial_getter_is_read(doc: DocumentView, file: Seq<char>, url: Seq<char>)
    requires
        doc.member("method"@) is None,
        doc.member("headers"@) is None,
        format_rule(doc, file) matches Ok(format) && paths_rule(doc, format, file) is Ok,
    ensures
        serial_getter_rule_with_url(doc, file, Some(url)) matches Ok(probe) && probe.url == url
            && probe.method == HttpMethod::Post && probe.headers == no_headers(),
{
    lemma_omitted_probe_attributes(doc, file, url);
}

/// A `method` that is a string but none of the eight verbs fails with
/// `ParseAttribute` for `method`, in either probe, once the URL is read.
pub proof fn lemma_unknown_method(doc: DocumentView, file: Seq<char>, url: Seq<char>)
    requires
        doc.member("method"@) matches Some(value) && value.text() matches Some(word)
            && HttpMethod::of_word(word) is None,
    ensures
        fails_with(
            serial_getter_rule_with_url(doc, file, Some(url)),
            malformed("method"@, METHOD_WORD_HINT@, file),
        ),
        fails_with(
            pinger_rule_with_url(doc, file, Some(url)),
            malformed("method"@, METHOD_WORD_HINT@, file),
        ),
{
}

/// A `format` that is a string but none of `json`, `xml`, `regex` fails
/// with `ParseAttribute` for `format`, once URL and verb are read.
pub proof fn lemma_unknown_format(doc: DocumentView, file: Seq<char>, url: Seq<char>)
    requires
        method_rule(doc, SERIAL_METHOD_HINT@, file, "POST"@) is Ok,
        doc.member("format"@) matches Some(value) && value.text() matches Some(word)
            && ParserFormat::of_word(word) is None,
    ensures
        fails_with(
            serial_getter_rule_with_url(doc, file, Some(url)),
            malformed("format"@, FORMAT_WORD_HINT@, file),
        ),
{
}

/// What is read for a serial probe gives back the words it was read from:
/// its verb is written as the `method` of the document, or is `POST` where
/// there is none; its format is written as the `format` of the document;
/// its URL is what the `url` of the document parses to. Read again, the
/// words give the same verb and format.
pub proof fn lemma_serial_getter_round_trip(doc: DocumentView, file: Seq<char>)
    requires
        serial_getter_rule(doc, file) is Ok,
    ensures
        ({
            let probe = serial_getter_rule(doc, file)->Ok_0;
            &&& doc.member("url"@) matches Some(value) && value.text() matches Some(raw)
                && parsed_url(raw) == Some(probe.url)
            &&& doc.member("method"@) matches Some(value) ==> value.text() == Some(
                probe.method.word(),
            )
            &&& doc.member("method"@) is None ==> probe.method == HttpMethod::Post
            &&& doc.member("format"@) matches Some(value) && value.text() == Some(
                probe.format.word(),
            )
            &&& HttpMethod::of_word(probe.method.word()) == Some(probe.method)
            &&& ParserFormat::of_word(probe.format.word()) == Some(probe.format)
        }),
{
    let probe = serial_getter_rule(doc, file)->Ok_0;
    lemma_method_round_trip(probe.method);
    lemma_format_round_trip(probe.format);
    lemma_omitted_probe_attributes(doc, file, probe.url);
    if doc.member("method"@) is Some {
        lemma_method_of_word(doc.member("method"@)->0.text()->0);
    }
    lemma_format_of_word(doc.member("format"@)->0.text()->0);
}

/// What is read for a ping probe gives back the words it was read from: its
/// verb is written as the `method` of the document, or is `GET` where there
/// is none; its URL is what the `url` of the document parses to.
pub proof fn lemma_pinger_round_trip(doc: DocumentView, file: Seq<char>)
    requires
        pinger_rule(doc, file) is Ok,
    ensures
        ({
            let probe = pinger_rule(doc, file)->Ok_0;
            &&& doc.member("url"@) matches Some(value) && value.text() matches Some(raw)
                && parsed_url(raw) == Some(probe.url)
            &&& doc.member("method"@) matches Some(value) ==> value.text() == Some(
                probe.method.word(),
            )
            &&& doc.member("method"@) is None ==> probe.method == HttpMethod::Get
            &&& HttpMethod::of_word(probe.method.word()) == Some(probe.method)
        }),
{
    let probe = pinger_rule(doc, file)->Ok_0;
    lemma_method_round_trip(probe.method);
    lemma_omitted_probe_attributes(doc, file, probe.url);
    if doc.member("method"@) is Some {
        lemma_method_of_word(doc.member("method"@)->0.text()->0);
    }
}

/// The file that a failure names.
pub open spec fn file_of(failure: DescriptorParseErrorView) -> Seq<char> {
    match failure {
        DescriptorParseErrorView::MissingAttribute { file_name, .. } => file_name,
        DescriptorParseErrorView::ParseAttribute { file_name, .. } => file_name,
    }
}

/// Every failure of a descriptor names the file that the document came
/// from.
pub proof fn lemma_failure_names_the_file(doc: DocumentView, file: Seq<char>)
    ensures
        descriptor_rule(doc, file) matches Err(failure) ==> file_of(failure) == file,
{
    if doc.member("serial_getter"@) is Some {
        lemma_probe_failure_names_the_file(doc.member("serial_getter"@)->0, file);
    }
    if doc.member("pinger"@) is Some {
        lemma_probe_failure_names_the_file(doc.member("pinger"@)->0, file);
    }
}

/// Every failure of a probe names the file that the document came from.
pub proof fn lemma_probe_failure_names_the_file(doc: DocumentView, file: Seq<char>)
    ensures
        serial_getter_rule(doc, file) matches Err(failure) ==> file_of(failure) == file,
        pinger_rule(doc, file) matches Err(failure) ==> file_of(failure) == file,
{
}

/// An attribute is reported as missing only where it is missing: a failure
/// of a probe with `MissingAttribute` names `url`, `format` or `paths`, and
/// the probe has no such attribute.
pub proof fn lemma_missing_is_missing(doc: DocumentView, file: Seq<char>)
    ensures
        serial_getter_rule(doc, file) matches Err(
            DescriptorParseErrorView::MissingAttribute { name, .. },
        ) ==> (name == "url"@ || name == "format"@ || name == "paths"@) && doc.member(name)
            is None,
        pinger_rule(doc, file) matches Err(DescriptorParseErrorView::MissingAttribute { name, .. })
            ==> name == "url"@ && doc.member(name) is None,
{
}

} // verus!
