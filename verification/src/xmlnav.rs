//! Navigation over the event stream of a markup document.
//!
//! The external calibration file is a tree of named elements whose leaves
//! hold character data.  Whoever tokenises the file hands its events to an
//! [`XmlStream`]; the functions here consume them in the fixed order the
//! calibration layout prescribes: an element opens under an expected name,
//! its value is read, the element closes.  A mismatched event is consumed
//! and reported, exactly as a pull parser would.

use vstd::prelude::*;

verus! {

/// One event of a markup document.
#[derive(Debug)]
pub enum XmlEvent {
    /// An element opens, with its local name.
    StartElement(String),
    /// Character data inside an element.
    Characters(String),
    /// An element closes, with its local name.
    EndElement(String),
    /// The document ends.
    EndDocument,
}

/// What the navigation can find wrong with a document.
#[derive(Copy, Clone, Debug, PartialEq, Eq, Structural)]
pub enum XmlError {
    /// The next event was not the expected element start.
    ExpectedStart,
    /// The next event was not the expected element end.
    ExpectedEnd,
    /// The next event was not character data.
    ExpectedCharacters,
}

/// Whether `e` opens an element of the given name.
pub open spec fn spec_is_start(e: XmlEvent, name: Seq<char>) -> bool {
    e matches XmlEvent::StartElement(n) && n@ == name
}

/// Whether `e` closes an element of the given name.
pub open spec fn spec_is_end(e: XmlEvent, name: Seq<char>) -> bool {
    e matches XmlEvent::EndElement(n) && n@ == name
}

/// A cursor over the events of one document.
pub struct XmlStream {
    events: Vec<XmlEvent>,
    pos: usize,
}

impl XmlStream {
    /// The events of the document.
    pub closed spec fn events_view(&self) -> Seq<XmlEvent> {
        self.events@
    }

    /// How many events have been consumed.
    pub closed spec fn position(&self) -> int {
        self.pos as int
    }

    /// A cursor at the first event.
    pub fn new(events: Vec<XmlEvent>) -> (r: XmlStream)
        ensures
            r.events_view() == events@,
            r.position() == 0,
    {
        XmlStream { events, pos: 0 }
    }
}

/// Consume one event, which must open an element named `node_name`.
pub fn consume_start(stream: &mut XmlStream, node_name: &String) -> (r: Result<(), XmlError>)
    ensures
        final (stream).events_view() == old(stream).events_view(),
        ({
            let pos = old(stream).position();
            let evs = old(stream).events_view();
            match r {
                Ok(()) => pos < evs.len() && spec_is_start(evs[pos], node_name@) && final (
                stream).position() == pos + 1,
                Err(e) => {
                    &&& e == XmlError::ExpectedStart
                    &&& !(pos < evs.len() && spec_is_start(evs[pos], node_name@))
                    &&& final (stream).position() == (if pos < evs.len() {
                        pos + 1
                    } else {
                        pos
                    })
                },
            }
        }),
{
    if stream.pos >= stream.events.len() {
        return Err(XmlError::ExpectedStart);
    }
    let ev = &stream.events[stream.pos];
    stream.pos = stream.pos + 1;
    match ev {
        XmlEvent::StartElement(n) => {
            if n.eq(node_name) {
                Ok(())
            } else {
                Err(XmlError::ExpectedStart)
            }
        },
        _ => Err(XmlError::ExpectedStart),
    }
}

/// Consume one event, which must close an element named `node_name`.
pub fn consume_end(stream: &mut XmlStream, node_name: &String) -> (r: Result<(), XmlError>)
    ensures
        final (stream).events_view() == old(stream).events_view(),
        ({
            let pos = old(stream).position();
            let evs = old(stream).events_view();
            match r {
                Ok(()) => pos < evs.len() && spec_is_end(evs[pos], node_name@) && final (
                stream).position() == pos + 1,
                Err(e) => {
                    &&& e == XmlError::ExpectedEnd
                    &&& !(pos < evs.len() && spec_is_end(evs[pos], node_name@))
                    &&& final (stream).position() == (if pos < evs.len() {
                        pos + 1
                    } else {
                        pos
                    })
                },
            }
        }),
{
    if stream.pos >= stream.events.len() {
        return Err(XmlError::ExpectedEnd);
    }
    let ev = &stream.events[stream.pos];
    stream.pos = stream.pos + 1;
    match ev {
        XmlEvent::EndElement(n) => {
            if n.eq(node_name) {
                Ok(())
            } else {
                Err(XmlError::ExpectedEnd)
            }
        },
        _ => Err(XmlError::ExpectedEnd),
    }
}

/// Consume three events — the start of an element named `node_name`, its
/// character data, its end — and return the character data.  The call
/// succeeds exactly when the next three events are that start, characters,
/// and that end; a mismatch reports the first expectation that failed, and
/// the cursor stands past every event consumed, as a pull parser's would.
pub fn get_node_val(stream: &mut XmlStream, node_name: &String) -> (r: Result<String, XmlError>)
    ensures
        final (stream).events_view() == old(stream).events_view(),
        ({
            let pos = old(stream).position();
            let evs = old(stream).events_view();
            match r {
                Ok(v) => {
                    &&& pos + 3 <= evs.len()
                    &&& spec_is_start(evs[pos], node_name@)
                    &&& evs[pos + 1] matches XmlEvent::Characters(c) && c@ == v@
                    &&& spec_is_end(evs[pos + 2], node_name@)
                    &&& final (stream).position() == pos + 3
                },
                Err(e) => if !(pos < evs.len() && spec_is_start(evs[pos], node_name@)) {
                    &&& e == XmlError::ExpectedStart
                    &&& final (stream).position() == (if pos < evs.len() {
                        pos + 1
                    } else {
                        pos
                    })
                } else if !(pos + 1 < evs.len() && evs[pos + 1] matches XmlEvent::Characters(_)) {
                    &&& e == XmlError::ExpectedCharacters
                    &&& final (stream).position() == (if pos + 1 < evs.len() {
                        pos + 2
                    } else {
                        pos + 1
                    })
                } else {
                    &&& e == XmlError::ExpectedEnd
                    &&& !(pos + 2 < evs.len() && spec_is_end(evs[pos + 2], node_name@))
                    &&& final (stream).position() == (if pos + 2 < evs.len() {
                        pos + 3
                    } else {
                        pos + 2
                    })
                },
            }
        }),
{
    match consume_start(stream, node_name) {
        Ok(()) => {},
        Err(e) => {
            return Err(e);
        },
    }
    if stream.pos >= stream.events.len() {
        return Err(XmlError::ExpectedCharacters);
    }
    let ev = &stream.events[stream.pos];
    let val_opt: Option<String> = match ev {
        XmlEvent::Characters(v) => Some(v.clone()),
        _ => None,
    };
    stream.pos = stream.pos + 1;
    let val = match val_opt {
        Some(v) => v,
        None => {
            return Err(XmlError::ExpectedCharacters);
        },
    };
    match consume_end(stream, node_name) {
        Ok(()) => {},
        Err(e) => {
            return Err(e);
        },
    }
    Ok(val)
}

} // verus!
