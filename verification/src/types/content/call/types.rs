//! The parts that `m.call.*` content is made of.

use vstd::prelude::*;
use vstd::string::*;
use crate::codec::{required, required_spec, FromJson, ObjectWriter, ToJson};
use crate::json::{Json, JsonView};

verus! {

/// The session description that a caller offers.
#[derive(Debug, PartialEq)]
pub struct Offer {
    /// The type of session description. Must be 'offer'.
    pub session_type: String,
    /// The SDP text of the session description.
    pub sdp: String,
}

/// The mathematical value of [`Offer`].
pub ghost struct OfferView {
    pub session_type: Seq<char>,
    pub sdp: Seq<char>,
}

impl DeepView for Offer {
    type V = OfferView;

    open spec fn deep_view(&self) -> OfferView {
        OfferView {
            session_type: self.session_type.deep_view(),
            sdp: self.sdp.deep_view(),
        }
    }
}

impl FromJson for Offer {
    open spec fn decoded(j: JsonView) -> Option<OfferView> {
        if j is Object {
            match (
                required_spec::<String>(j, "type"@),
                required_spec::<String>(j, "sdp"@),
            ) {
                (Some(session_type), Some(sdp)) => Some(
                    OfferView { session_type, sdp },
                ),
                _ => None,
            }
        } else {
            None
        }
    }

    fn from_json(j: &Json) -> (r: Option<Offer>) {
        if !j.is_object() {
            return None;
        }
        let session_type = match required::<String>(j, "type") {
            Some(x) => x,
            None => {
                return None;
            },
        };
        let sdp = match required::<String>(j, "sdp") {
            Some(x) => x,
            None => {
                return None;
            },
        };
        Some(Offer { session_type, sdp })
    }
}

impl ToJson for Offer {
    open spec fn encoded(v: OfferView) -> JsonView {
        let m1 = Seq::<(Seq<char>, JsonView)>::empty().push(
            ("type"@, <String>::encoded(v.session_type)),
        );
        let m2 = m1.push(("sdp"@, <String>::encoded(v.sdp)));
        JsonView::Object(m2)
    }

    fn to_json(&self) -> (j: Json) {
        let mut w = ObjectWriter::new();
        w.put("type", &self.session_type);
        w.put("sdp", &self.sdp);
        w.finish()
    }
}

/// One ICE candidate.
#[derive(Debug, PartialEq)]
pub struct Candidate {
    /// The SDP media type this candidate is intended for.
    pub sdp_m_id: String,
    /// The index of the SDP 'm' line this candidate is intended for.
    pub sdp_m_line_index: i32,
    /// The SDP 'a' line of the candidate.
    pub candidate: String,
}

/// The mathematical value of [`Candidate`].
pub ghost struct CandidateView {
    pub sdp_m_id: Seq<char>,
    pub sdp_m_line_index: i32,
    pub candidate: Seq<char>,
}

impl DeepView for Candidate {
    type V = CandidateView;

    open spec fn deep_view(&self) -> CandidateView {
        CandidateView {
            sdp_m_id: self.sdp_m_id.deep_view(),
            sdp_m_line_index: self.sdp_m_line_index.deep_view(),
            candidate: self.candidate.deep_view(),
        }
    }
}

impl FromJson for Candidate {
    open spec fn decoded(j: JsonView) -> Option<CandidateView> {
        if j is Object {
            match (
                required_spec::<String>(j, "sdpMid"@),
                required_spec::<i32>(j, "sdpMLineIndex"@),
                required_spec::<String>(j, "candidate"@),
            ) {
                (Some(sdp_m_id), Some(sdp_m_line_index), Some(candidate)) => Some(
                    CandidateView { sdp_m_id, sdp_m_line_index, candidate },
                ),
                _ => None,
            }
        } else {
            None
        }
    }

    fn from_json(j: &Json) -> (r: Option<Candidate>) {
        if !j.is_object() {
            return None;
        }
        let sdp_m_id = match required::<String>(j, "sdpMid") {
            Some(x) => x,
            None => {
                return None;
            },
        };
        let sdp_m_line_index = match required::<i32>(j, "sdpMLineIndex") {
            Some(x) => x,
            None => {
                return None;
            },
        };
        let candidate = match required::<String>(j, "candidate") {
            Some(x) => x,
            None => {
                return None;
            },
        };
        Some(Candidate { sdp_m_id, sdp_m_line_index, candidate })
    }
}

impl ToJson for Candidate {
    open spec fn encoded(v: CandidateView) -> JsonView {
        let m1 = Seq::<(Seq<char>, JsonView)>::empty().push(
            ("sdpMid"@, <String>::encoded(v.sdp_m_id)),
        );
        let m2 = m1.push(("sdpMLineIndex"@, <i32>::encoded(v.sdp_m_line_index)));
        let m3 = m2.push(("candidate"@, <String>::encoded(v.candidate)));
        JsonView::Object(m3)
    }

    fn to_json(&self) -> (j: Json) {
        let mut w = ObjectWriter::new();
        w.put("sdpMid", &self.sdp_m_id);
        w.put("sdpMLineIndex", &self.sdp_m_line_index);
        w.put("candidate", &self.candidate);
        w.finish()
    }
}

/// The session description that a callee answers with.
#[derive(Debug, PartialEq)]
pub struct Answer {
    /// The type of session description. Must be 'answer'.
    pub session_type: String,
    /// The SDP text of the session description.
    pub sdp: String,
}

/// The mathematical value of [`Answer`].
pub ghost struct AnswerView {
    pub session_type: Seq<char>,
    pub sdp: Seq<char>,
}

impl DeepView for Answer {
    type V = AnswerView;

    open spec fn deep_view(&self) -> AnswerView {
        AnswerView {
            session_type: self.session_type.deep_view(),
            sdp: self.sdp.deep_view(),
        }
    }
}

impl FromJson for Answer {
    open spec fn decoded(j: JsonView) -> Option<AnswerView> {
        if j is Object {
            match (
                required_spec::<String>(j, "type"@),
                required_spec::<String>(j, "sdp"@),
            ) {
                (Some(session_type), Some(sdp)) => Some(
                    AnswerView { session_type, sdp },
                ),
                _ => None,
            }
        } else {
            None
        }
    }

    fn from_json(j: &Json) -> (r: Option<Answer>) {
        if !j.is_object() {
            return None;
        }
        let session_type = match required::<String>(j, "type") {
            Some(x) => x,
            None => {
                return None;
            },
        };
        let sdp = match required::<String>(j, "sdp") {
            Some(x) => x,
            None => {
                return None;
            },
        };
        Some(Answer { session_type, sdp })
    }
}

impl ToJson for Answer {
    open spec fn encoded(v: AnswerView) -> JsonView {
        let m1 = Seq::<(Seq<char>, JsonView)>::empty().push(
            ("type"@, <String>::encoded(v.session_type)),
        );
        let m2 = m1.push(("sdp"@, <String>::encoded(v.sdp)));
        JsonView::Object(m2)
    }

    fn to_json(&self) -> (j: Json) {
        let mut w = ObjectWriter::new();
        w.put("type", &self.session_type);
        w.put("sdp", &self.sdp);
        w.finish()
    }
}

} // verus!
