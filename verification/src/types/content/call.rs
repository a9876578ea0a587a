//! Content types for `m.call.*` events.

use vstd::prelude::*;
use vstd::string::*;
use crate::codec::{required, required_spec, FromJson, ObjectWriter, ToJson};
use crate::json::{Json, JsonView};

pub mod types;

verus! {

/// `m.call.invite`
///
/// This event is sent by the caller when they wish to establish a call.
#[derive(Debug, PartialEq)]
pub struct Invite {
    /// A unique identifer for the call.
    pub call_id: String,
    /// The session description object
    pub offer: types::Offer,
    /// The version of the VoIP protocol this message adheres to: 0.
    pub version: i32,
    /// The time in milliseconds that the invite is valid for. Once the
    /// invite age exceeds this value, clients should discard it. They
    /// should also no longer show the call as awaiting an answer in the UI.
    pub lifetime: i32,
}

/// The mathematical value of [`Invite`].
pub ghost struct InviteView {
    pub call_id: Seq<char>,
    pub offer: types::OfferView,
    pub version: i32,
    pub lifetime: i32,
}

impl DeepView for Invite {
    type V = InviteView;

    open spec fn deep_view(&self) -> InviteView {
        InviteView {
            call_id: self.call_id.deep_view(),
            offer: self.offer.deep_view(),
            version: self.version.deep_view(),
            lifetime: self.lifetime.deep_view(),
        }
    }
}

impl FromJson for Invite {
    open spec fn decoded(j: JsonView) -> Option<InviteView> {
        if j is Object {
            match (
                required_spec::<String>(j, "call_id"@),
                required_spec::<types::Offer>(j, "offer"@),
                required_spec::<i32>(j, "version"@),
                required_spec::<i32>(j, "lifetime"@),
            ) {
                (Some(call_id), Some(offer), Some(version), Some(lifetime)) => Some(
                    InviteView { call_id, offer, version, lifetime },
                ),
                _ => None,
            }
        } else {
            None
        }
    }

    fn from_json(j: &Json) -> (r: Option<Invite>) {
        if !j.is_object() {
            return None;
        }
        let call_id = match required::<String>(j, "call_id") {
            Some(x) => x,
            None => {
                return None;
            },
        };
        let offer = match required::<types::Offer>(j, "offer") {
            Some(x) => x,
            None => {
                return None;
            },
        };
        let version = match required::<i32>(j, "version") {
            Some(x) => x,
            None => {
                return None;
            },
        };
        let lifetime = match required::<i32>(j, "lifetime") {
            Some(x) => x,
            None => {
                return None;
            },
        };
        Some(Invite { call_id, offer, version, lifetime })
    }
}

impl ToJson for Invite {
    open spec fn encoded(v: InviteView) -> JsonView {
        let m1 = Seq::<(Seq<char>, JsonView)>::empty().push(
            ("call_id"@, <String>::encoded(v.call_id)),
        );
        let m2 = m1.push(("offer"@, <types::Offer>::encoded(v.offer)));
        let m3 = m2.push(("version"@, <i32>::encoded(v.version)));
        let m4 = m3.push(("lifetime"@, <i32>::encoded(v.lifetime)));
        JsonView::Object(m4)
    }

    fn to_json(&self) -> (j: Json) {
        let mut w = ObjectWriter::new();
        w.put("call_id", &self.call_id);
        w.put("offer", &self.offer);
        w.put("version", &self.version);
        w.put("lifetime", &self.lifetime);
        w.finish()
    }
}

/// `m.call.candidates`
///
/// This event is sent by callers after sending an invite and by the callee
/// after answering. Its purpose is to give the other party additional ICE
/// candidates to try using to communicate.
#[derive(Debug, PartialEq)]
pub struct Candidates {
    /// The ID of the call this event relates to.
    pub call_id: String,
    /// Array of objects describing the candidates.
    pub candidates: Vec<types::Candidate>,
    /// The version of the VoIP protocol this message adheres to: 0.
    pub version: i32,
}

/// The mathematical value of [`Candidates`].
pub ghost struct CandidatesView {
    pub call_id: Seq<char>,
    pub candidates: Seq<types::CandidateView>,
    pub version: i32,
}

impl DeepView for Candidates {
    type V = CandidatesView;

    open spec fn deep_view(&self) -> CandidatesView {
        CandidatesView {
            call_id: self.call_id.deep_view(),
            candidates: self.candidates.deep_view(),
            version: self.version.deep_view(),
        }
    }
}

impl FromJson for Candidates {
    open spec fn decoded(j: JsonView) -> Option<CandidatesView> {
        if j is Object {
            match (
                required_spec::<String>(j, "call_id"@),
                required_spec::<Vec<types::Candidate>>(j, "candidates"@),
                required_spec::<i32>(j, "version"@),
            ) {
                (Some(call_id), Some(candidates), Some(version)) => Some(
                    CandidatesView { call_id, candidates, version },
                ),
                _ => None,
            }
        } else {
            None
        }
    }

    fn from_json(j: &Json) -> (r: Option<Candidates>) {
        if !j.is_object() {
            return None;
        }
        let call_id = match required::<String>(j, "call_id") {
            Some(x) => x,
            None => {
                return None;
            },
        };
        let candidates = match required::<Vec<types::Candidate>>(j, "candidates") {
            Some(x) => x,
            None => {
                return None;
            },
        };
        let version = match required::<i32>(j, "version") {
            Some(x) => x,
            None => {
                return None;
            },
        };
        Some(Candidates { call_id, candidates, version })
    }
}

impl ToJson for Candidates {
    open spec fn encoded(v: CandidatesView) -> JsonView {
        let m1 = Seq::<(Seq<char>, JsonView)>::empty().push(
            ("call_id"@, <String>::encoded(v.call_id)),
        );
        let m2 = m1.push(("candidates"@, <Vec<types::Candidate>>::encoded(v.candidates)));
        let m3 = m2.push(("version"@, <i32>::encoded(v.version)));
        JsonView::Object(m3)
    }

    fn to_json(&self) -> (j: Json) {
        let mut w = ObjectWriter::new();
        w.put("call_id", &self.call_id);
        w.put("candidates", &self.candidates);
        w.put("version", &self.version);
        w.finish()
    }
}

/// `m.call.answer`
///
/// This event is sent by the callee when they wish to answer the call.
#[derive(Debug, PartialEq)]
pub struct Answer {
    /// The ID of the call this event relates to.
    pub call_id: String,
    /// The session description object
    pub answer: types::Answer,
    /// The version of the VoIP protocol this message adheres to: 0.
    pub version: i32,
}

/// The mathematical value of [`Answer`].
pub ghost struct AnswerView {
    pub call_id: Seq<char>,
    pub answer: types::AnswerView,
    pub version: i32,
}

impl DeepView for Answer {
    type V = AnswerView;

    open spec fn deep_view(&self) -> AnswerView {
        AnswerView {
            call_id: self.call_id.deep_view(),
            answer: self.answer.deep_view(),
            version: self.version.deep_view(),
        }
    }
}

impl FromJson for Answer {
    open spec fn decoded(j: JsonView) -> Option<AnswerView> {
        if j is Object {
            match (
                required_spec::<String>(j, "call_id"@),
                required_spec::<types::Answer>(j, "answer"@),
                required_spec::<i32>(j, "version"@),
            ) {
                (Some(call_id), Some(answer), Some(version)) => Some(
                    AnswerView { call_id, answer, version },
                ),
                _ => None,
            }
        } else {
            None
        }
    }

    fn from_json(j: &Json) -> (r: Option<Answer>) {
        if !j.is_object() {
            return None;
        }
        let call_id = match required::<String>(j, "call_id") {
            Some(x) => x,
            None => {
                return None;
            },
        };
        let answer = match required::<types::Answer>(j, "answer") {
            Some(x) => x,
            None => {
                return None;
            },
        };
        let version = match required::<i32>(j, "version") {
            Some(x) => x,
            None => {
                return None;
            },
        };
        Some(Answer { call_id, answer, version })
    }
}

impl ToJson for Answer {
    open spec fn encoded(v: AnswerView) -> JsonView {
        let m1 = Seq::<(Seq<char>, JsonView)>::empty().push(
            ("call_id"@, <String>::encoded(v.call_id)),
        );
        let m2 = m1.push(("answer"@, <types::Answer>::encoded(v.answer)));
        let m3 = m2.push(("version"@, <i32>::encoded(v.version)));
        JsonView::Object(m3)
    }

    fn to_json(&self) -> (j: Json) {
        let mut w = ObjectWriter::new();
        w.put("call_id", &self.call_id);
        w.put("answer", &self.answer);
        w.put("version", &self.version);
        w.finish()
    }
}

/// `m.call.hangup`
///
/// Sent by either party to signal their termination of the call. This can be
/// sent either once the call has has been established or before to abort the
/// call.
#[derive(Debug, PartialEq)]
pub struct Hangup {
    /// The ID of the call this event relates to.
    pub call_id: String,
    /// The version of the VoIP protocol this message adheres to: 0.
    pub version: i32,
}

/// The mathematical value of [`Hangup`].
pub ghost struct HangupView {
    pub call_id: Seq<char>,
    pub version: i32,
}

impl DeepView for Hangup {
    type V = HangupView;

    open spec fn deep_view(&self) -> HangupView {
        HangupView {
            call_id: self.call_id.deep_view(),
            version: self.version.deep_view(),
        }
    }
}

impl FromJson for Hangup {
    open spec fn decoded(j: JsonView) -> Option<HangupView> {
        if j is Object {
            match (
                required_spec::<String>(j, "call_id"@),
                required_spec::<i32>(j, "version"@),
            ) {
                (Some(call_id), Some(version)) => Some(
                    HangupView { call_id, version },
                ),
                _ => None,
            }
        } else {
            None
        }
    }

    fn from_json(j: &Json) -> (r: Option<Hangup>) {
        if !j.is_object() {
            return None;
        }
        let call_id = match required::<String>(j, "call_id") {
            Some(x) => x,
            None => {
                return None;
            },
        };
        let version = match required::<i32>(j, "version") {
            Some(x) => x,
            None => {
                return None;
            },
        };
        Some(Hangup { call_id, version })
    }
}

impl ToJson for Hangup {
    open spec fn encoded(v: HangupView) -> JsonView {
        let m1 = Seq::<(Seq<char>, JsonView)>::empty().push(
            ("call_id"@, <String>::encoded(v.call_id)),
        );
        let m2 = m1.push(("version"@, <i32>::encoded(v.version)));
        JsonView::Object(m2)
    }

    fn to_json(&self) -> (j: Json) {
        let mut w = ObjectWriter::new();
        w.put("call_id", &self.call_id);
        w.put("version", &self.version);
        w.finish()
    }
}

} // verus!
