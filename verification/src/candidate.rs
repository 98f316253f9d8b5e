//! Connectivity candidates and their transport form.

use vstd::prelude::*;

verus! {

/// The transport form of a candidate: descriptor, media id, media line index.
pub type IceCandidate = (String, Option<String>, Option<u16>);

/// The mathematical value of a transport tuple.
pub type IceCandidateModel = (Seq<char>, Option<Seq<char>>, Option<u16>);

/// A connectivity hint as the engine knows it.
#[derive(Debug, PartialEq, Eq)]
pub struct Candidate {
    pub descriptor: String,
    pub media_id: Option<String>,
    pub media_line_index: Option<u16>,
}

/// The mathematical value of a [`Candidate`].
pub struct CandidateModel {
    pub descriptor: Seq<char>,
    pub media_id: Option<Seq<char>>,
    pub media_line_index: Option<u16>,
}

impl DeepView for Candidate {
    type V = CandidateModel;

    open spec fn deep_view(&self) -> CandidateModel {
        CandidateModel {
            descriptor: self.descriptor@,
            media_id: self.media_id.deep_view(),
            media_line_index: self.media_line_index,
        }
    }
}

/// The transport tuple that stands for `c`.
pub open spec fn encode(c: CandidateModel) -> IceCandidateModel {
    (c.descriptor, c.media_id, c.media_line_index)
}

/// The candidate that the transport tuple `t` stands for.
pub open spec fn decode(t: IceCandidateModel) -> CandidateModel {
    CandidateModel { descriptor: t.0, media_id: t.1, media_line_index: t.2 }
}

fn clone_text(text: &Option<String>) -> (copy: Option<String>)
    ensures
        copy.deep_view() == text.deep_view(),
{
    match text {
        Some(s) => Some(s.clone()),
        None => None,
    }
}

impl Clone for Candidate {
    fn clone(&self) -> (copy: Candidate)
        ensures
            copy.deep_view() == self.deep_view(),
    {
        Candidate {
            descriptor: self.descriptor.clone(),
            media_id: clone_text(&self.media_id),
            media_line_index: self.media_line_index,
        }
    }
}

/// Writes a candidate in its transport form.
pub fn ser_candidate(candidate: &Candidate) -> (tuple: IceCandidate)
    ensures
        tuple.deep_view() == encode(candidate.deep_view()),
{
    (
        candidate.descriptor.clone(),
        clone_text(&candidate.media_id),
        candidate.media_line_index,
    )
}

/// Reads a candidate back from its transport form.
pub fn de_candidate(candidate: &IceCandidate) -> (decoded: Candidate)
    ensures
        decoded.deep_view() == decode(candidate.deep_view()),
{
    Candidate {
        descriptor: candidate.0.clone(),
        media_id: clone_text(&candidate.1),
        media_line_index: candidate.2,
    }
}

/// Reads every candidate of a batch back from its transport form.
pub fn decode_all(batch: &Vec<IceCandidate>) -> (decoded: Vec<Candidate>)
    ensures
        decoded.deep_view() == batch.deep_view().map_values(|t: IceCandidateModel| decode(t)),
{
    let mut decoded: Vec<Candidate> = Vec::new();
    let mut i: usize = 0;
    while i < batch.len()
        invariant
            i <= batch.len(),
            decoded.len() == i,
            forall|k: int| 0 <= k < i ==> decoded[k].deep_view() == decode(batch[k].deep_view()),
        decreases batch.len() - i,
    {
        decoded.push(de_candidate(&batch[i]));
        i += 1;
    }
    decoded
}

/// Writes every candidate of a list in its transport form.
pub fn encode_all(candidates: &Vec<Candidate>) -> (encoded: Vec<IceCandidate>)
    ensures
        encoded.deep_view() == candidates.deep_view().map_values(|m: CandidateModel| encode(m)),
{
    let mut encoded: Vec<IceCandidate> = Vec::new();
    let mut i: usize = 0;
    while i < candidates.len()
        invariant
            i <= candidates.len(),
            encoded.len() == i,
            forall|k: int|
                0 <= k < i ==> encoded[k].deep_view() == encode(candidates[k].deep_view()),
        decreases candidates.len() - i,
    {
        encoded.push(ser_candidate(&candidates[i]));
        i += 1;
    }
    encoded
}

/// Copies a list of candidates.
pub fn clone_all(candidates: &Vec<Candidate>) -> (copy: Vec<Candidate>)
    ensures
        copy.deep_view() == candidates.deep_view(),
{
    let mut copy: Vec<Candidate> = Vec::new();
    let mut i: usize = 0;
    while i < candidates.len()
        invariant
            i <= candidates.len(),
            copy.len() == i,
            forall|k: int| 0 <= k < i ==> copy[k].deep_view() == candidates[k].deep_view(),
        decreases candidates.len() - i,
    {
        copy.push(candidates[i].clone());
        i += 1;
    }
    copy
}

/// Decoding undoes encoding, and encoding undoes decoding: the two forms
/// carry the same information.
pub proof fn lemma_codec_round_trip(c: CandidateModel, t: IceCandidateModel)
    ensures
        decode(encode(c)) == c,
        encode(decode(t)) == t,
{
}

} // verus!
