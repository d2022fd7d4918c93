//! Canonical layout of an XML document: the same events, written again with
//! indentation that follows the nesting.
//!
//! The text begins with the declaration `<?xml version="1.0"
//! encoding="UTF-8"?>`. Every element starts a line of its own, indented by
//! two spaces for each element around it; an element that holds only text
//! stays on one line, and one that holds nothing has its end tag on the next
//! line. Lines end in a line feed, and none follows the last.

use crate::error::{stage_result, ErrorKind, PipelineError};
use vstd::prelude::*;
use xml::reader::{Events, ParserConfig, XmlEvent};
use xml::writer::{EmitterConfig, EventWriter};

verus! {

/// The text of a run over `src`: what `xml`'s writer has written once it has
/// taken, one by one, the events that `xml`'s reader finds in `src`. The
/// reader is set up with `trim_whitespace` and `ignore_comments`, the writer
/// with `perform_indent`, `normalize_empty_elements` and `autopad_comments`.
/// `None` where the reader refuses `src`, the writer an event, or what was
/// written is not UTF-8.
pub uninterp spec fn xml_layout(
    src: Seq<u8>,
    trim_whitespace: bool,
    ignore_comments: bool,
    perform_indent: bool,
    normalize_empty_elements: bool,
    autopad_comments: bool,
) -> Option<Seq<char>>;

/// The canonical text of the document `src`: whitespace-only text dropped and
/// comments kept on reading; on writing, indentation by depth, empty elements
/// with both their tags, and comments unpadded.
pub open spec fn xml_canonical(src: Seq<u8>) -> Option<Seq<char>> {
    xml_layout(src, true, false, true, false, false)
}

/// What `canonicalize` owes for the document `src`.
pub open spec fn layout_spec(src: Seq<u8>) -> Result<Seq<char>, ErrorKind> {
    match xml_canonical(src) {
        None => Err(ErrorKind::MalformedXml),
        Some(text) => Ok(text),
    }
}

/// `xml::reader::XmlEvent`, one event of a document as the reader hands it out.
#[verifier::external_type_specification]
#[verifier::external_body]
pub struct ExXmlEvent(XmlEvent);

/// A run of the layout: the events of a document that are still to come, in
/// an `xml::reader::Events`, and the `xml::writer::EventWriter` that has taken
/// those before them. Verus cannot be told of `Events`, whose declaration is
/// bound by `std::io::Read`, so the two are kept out of its sight here.
#[verifier::external_body]
pub struct Relay<'a> {
    events: Events<&'a [u8]>,
    writer: EventWriter<Vec<u8>>,
}

/// The text that the run gives from here: what the writer holds once it has
/// taken every event that is still to come. `None` where the reader refuses
/// the rest of the document, the writer one of the events, or what was written
/// is not UTF-8.
pub uninterp spec fn relay_text(relay: Relay) -> Option<Seq<char>>;

/// The text that the run gives from here once `event` has gone to the writer
/// first. An event without a form for the writer goes by without a trace.
pub uninterp spec fn relay_text_after(relay: Relay, event: XmlEvent) -> Option<Seq<char>>;

/// How many events the reader has still to hand out, its last one or its
/// error counted.
pub uninterp spec fn relay_left(relay: Relay) -> nat;

/// Makes an `xml::EventReader` over `src` with `ParserConfig::create_reader`
/// and turns it into its iterator, and an `xml::EventWriter` over an empty
/// `Vec` with `EmitterConfig::create_writer`, each set up as the flags say.
/// Claimed of it: the text that the run gives is a function of `src` and the
/// flags alone.
#[verifier::external_body]
fn relay_start<'a>(
    src: &'a [u8],
    trim_whitespace: bool,
    ignore_comments: bool,
    perform_indent: bool,
    normalize_empty_elements: bool,
    autopad_comments: bool,
) -> (relay: Relay<'a>)
    ensures
        relay_text(relay) == xml_layout(
            src@,
            trim_whitespace,
            ignore_comments,
            perform_indent,
            normalize_empty_elements,
            autopad_comments,
        ),
{
    let reader = ParserConfig::new()
        .trim_whitespace(trim_whitespace)
        .ignore_comments(ignore_comments)
        .create_reader(src);
    let writer = EmitterConfig::new()
        .perform_indent(perform_indent)
        .normalize_empty_elements(normalize_empty_elements)
        .autopad_comments(autopad_comments)
        .create_writer(Vec::new());
    Relay { events: reader.into_iter(), writer }
}

/// Calls `Iterator::next` on `xml::reader::Events`; an error comes back as its
/// message. Claimed of it: every event handed out is one less to come, and
/// none is handed out only when none is left; the text of the run from before
/// the call is the text from after it once the event has gone to the writer;
/// and where the reader fails, the run has no text.
#[verifier::external_body]
fn relay_next(relay: &mut Relay) -> (event: Option<Result<XmlEvent, String>>)
    ensures
        event is Some ==> relay_left(*final(relay)) < relay_left(*old(relay)),
        event is None ==> relay_left(*final(relay)) == 0,
        event is None ==> relay_text(*final(relay)) == relay_text(*old(relay)),
        event matches Some(Ok(e)) ==> relay_text_after(*final(relay), e) == relay_text(
            *old(relay),
        ),
        event matches Some(Err(_)) ==> relay_text(*old(relay)) is None,
{
    match relay.events.next() {
        Some(Ok(event)) => Some(Ok(event)),
        Some(Err(e)) => Some(Err(e.to_string())),
        None => None,
    }
}

/// Calls `XmlEvent::as_writer_event` on `event` and hands the form it gives to
/// `EventWriter::write`; the writer's error comes back as its message. `None`
/// says that the event has no form for the writer, and that nothing was
/// written. Claimed of it: the reader is left alone; where the writer fails,
/// the run has no text; else the text of the run from after the call is the
/// text from before it once `event` has gone to the writer.
#[verifier::external_body]
fn relay_write(relay: &mut Relay, event: &XmlEvent) -> (r: Option<Result<(), String>>)
    ensures
        relay_left(*final(relay)) == relay_left(*old(relay)),
        r matches Some(Err(_)) ==> relay_text_after(*old(relay), *event) is None,
        !(r matches Some(Err(_))) ==> relay_text(*final(relay)) == relay_text_after(
            *old(relay),
            *event,
        ),
{
    match event.as_writer_event() {
        Some(form) => Some(relay.writer.write(form).map_err(|e| e.to_string())),
        None => None,
    }
}

/// Takes the bytes out of the writer with `EventWriter::into_inner` and reads
/// them as text with `String::from_utf8`, whose error comes back as its
/// message. Claimed of it: with no event left to come, the text is the text of
/// the run, and there is none where the bytes are not UTF-8.
#[verifier::external_body]
fn relay_finish(relay: Relay) -> (r: Result<String, String>)
    requires
        relay_left(relay) == 0,
    ensures
        r matches Ok(text) ==> relay_text(relay) == Some(text@),
        r is Err ==> relay_text(relay) is None,
{
    String::from_utf8(relay.writer.into_inner()).map_err(|e| e.to_string())
}

/// Hands the events of `src` to the writer one by one, in the reader's order,
/// and returns the text that was written. The run ends at the first failure,
/// of the reader or of the writer, with its message and without any text. An
/// event that has no form for the writer is passed over.
fn reformat(
    src: &[u8],
    trim_whitespace: bool,
    ignore_comments: bool,
    perform_indent: bool,
    normalize_empty_elements: bool,
    autopad_comments: bool,
) -> (r: Result<String, String>)
    ensures
        r matches Ok(text) ==> xml_layout(
            src@,
            trim_whitespace,
            ignore_comments,
            perform_indent,
            normalize_empty_elements,
            autopad_comments,
        ) == Some(text@),
        r is Err ==> xml_layout(
            src@,
            trim_whitespace,
            ignore_comments,
            perform_indent,
            normalize_empty_elements,
            autopad_comments,
        ) is None,
{
    let mut relay = relay_start(
        src,
        trim_whitespace,
        ignore_comments,
        perform_indent,
        normalize_empty_elements,
        autopad_comments,
    );
    let mut more: bool = true;
    while more
        invariant
            relay_text(relay) == xml_layout(
                src@,
                trim_whitespace,
                ignore_comments,
                perform_indent,
                normalize_empty_elements,
                autopad_comments,
            ),
            !more ==> relay_left(relay) == 0,
        decreases relay_left(relay) + (if more { 1nat } else { 0nat }),
    {
        match relay_next(&mut relay) {
            None => {
                more = false;
            },
            Some(Err(detail)) => {
                return Err(detail);
            },
            Some(Ok(event)) => {
                match relay_write(&mut relay, &event) {
                    Some(Err(detail)) => {
                        return Err(detail);
                    },
                    Some(Ok(_)) => {},
                    None => {},
                }
            },
        }
    }
    relay_finish(relay)
}

/// Lays the XML document `src` out canonically, or fails with `MalformedXml`.
pub fn canonicalize(src: &[u8]) -> (r: Result<String, PipelineError>)
    ensures
        match r {
            Ok(text) => layout_spec(src@) == Ok::<Seq<char>, ErrorKind>(text@),
            Err(e) => layout_spec(src@) == Err::<Seq<char>, ErrorKind>(e.kind),
        },
{
    stage_result(reformat(src, true, false, true, false, false), ErrorKind::MalformedXml)
}

} // verus!
