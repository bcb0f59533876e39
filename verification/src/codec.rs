//! The wire format of the two signaling messages: a session description is
//! the JSON object `{"type": "offer" | "answer", "sdp": text}`, an ICE
//! candidate the JSON object `{"candidate": text, "sdpMid"?: text,
//! "sdpMLineIndex"?: number, "usernameFragment"?: text}`.

use vstd::prelude::*;
use vstd::string::StringExecFns;
use crate::error::SignalError;
use crate::json::{
    json_members, json_text, members_view, read_object, writable, write_object, JsonField,
    JsonFieldView, JsonMember, JsonMemberView,
};
use crate::session::{
    optional_text, IceCandidate, IceCandidateView, SdpKind, SessionDescription,
    SessionDescriptionView,
};
use crate::text::same_text;

verus! {

/// The value of the first member with the given name.
pub open spec fn member_value(members: Seq<JsonMemberView>, name: Seq<char>) -> Option<
    JsonFieldView,
>
    decreases members.len(),
{
    if members.len() == 0 {
        None
    } else if members[0].name == name {
        Some(members[0].value)
    } else {
        member_value(members.drop_first(), name)
    }
}

/// The text a description kind is written as.
pub open spec fn kind_text(kind: SdpKind) -> Seq<char> {
    match kind {
        SdpKind::Offer => "offer"@,
        SdpKind::Answer => "answer"@,
    }
}

/// The description kind a `type` member stands for: the text `offer` or
/// `answer`; nothing else is accepted.
pub open spec fn kind_of(field: Option<JsonFieldView>) -> Option<SdpKind> {
    match field {
        Some(JsonFieldView::Text(t)) => if t == "offer"@ {
            Some(SdpKind::Offer)
        } else if t == "answer"@ {
            Some(SdpKind::Answer)
        } else {
            None
        },
        _ => None,
    }
}

/// A member that has to be present and a text.
pub open spec fn required_text(field: Option<JsonFieldView>) -> Option<Seq<char>> {
    match field {
        Some(JsonFieldView::Text(t)) => Some(t),
        _ => None,
    }
}

/// A member that may be absent or null, and otherwise has to be a text.
/// The outer `None` stands for a malformed member.
pub open spec fn optional_text_member(field: Option<JsonFieldView>) -> Option<Option<Seq<char>>> {
    match field {
        None => Some(None),
        Some(JsonFieldView::Null) => Some(None),
        Some(JsonFieldView::Text(t)) => Some(Some(t)),
        _ => None,
    }
}

/// A member that may be absent or null, and otherwise has to be an integer
/// from 0 to 65535. The outer `None` stands for a malformed member.
pub open spec fn optional_index_member(field: Option<JsonFieldView>) -> Option<Option<u16>> {
    match field {
        None => Some(None),
        Some(JsonFieldView::Null) => Some(None),
        Some(JsonFieldView::Number(Some(n))) => if n <= 0xffff {
            Some(Some(n as u16))
        } else {
            None
        },
        _ => None,
    }
}

/// The session description that a JSON object stands for, if it stands for
/// one.
pub open spec fn decoded_description(members: Seq<JsonMemberView>) -> Option<
    SessionDescriptionView,
> {
    match (
        kind_of(member_value(members, "type"@)),
        required_text(member_value(members, "sdp"@)),
    ) {
        (Some(kind), Some(sdp)) => Some(SessionDescriptionView { kind, sdp }),
        _ => None,
    }
}

/// The ICE candidate that a JSON object stands for, if it stands for one.
pub open spec fn decoded_candidate(members: Seq<JsonMemberView>) -> Option<IceCandidateView> {
    match (
        required_text(member_value(members, "candidate"@)),
        optional_text_member(member_value(members, "sdpMid"@)),
        optional_index_member(member_value(members, "sdpMLineIndex"@)),
        optional_text_member(member_value(members, "usernameFragment"@)),
    ) {
        (Some(candidate), Some(sdp_mid), Some(sdp_mline_index), Some(username_fragment)) => Some(
            IceCandidateView { candidate, sdp_mid, sdp_mline_index, username_fragment },
        ),
        _ => None,
    }
}

/// The session description that a message body holds, if it holds one.
pub open spec fn description_in(body: Seq<char>) -> Option<SessionDescriptionView> {
    match json_members(body) {
        Some(members) => decoded_description(members),
        None => None,
    }
}

/// The ICE candidate that a message body holds, if it holds one.
pub open spec fn candidate_in(body: Seq<char>) -> Option<IceCandidateView> {
    match json_members(body) {
        Some(members) => decoded_candidate(members),
        None => None,
    }
}

/// The member written for an optional text: the text, or null.
pub open spec fn text_or_null(text: Option<Seq<char>>) -> JsonFieldView {
    match text {
        Some(t) => JsonFieldView::Text(t),
        None => JsonFieldView::Null,
    }
}

/// The member written for an optional index: the number, or null.
pub open spec fn index_or_null(index: Option<u16>) -> JsonFieldView {
    match index {
        Some(n) => JsonFieldView::Number(Some(n as u64)),
        None => JsonFieldView::Null,
    }
}

/// The members a session description is written with.
pub open spec fn description_members(description: SessionDescriptionView) -> Seq<JsonMemberView> {
    seq![
        JsonMemberView { name: "type"@, value: JsonFieldView::Text(kind_text(description.kind)) },
        JsonMemberView { name: "sdp"@, value: JsonFieldView::Text(description.sdp) },
    ]
}

/// The members an ICE candidate is written with.
pub open spec fn candidate_members(candidate: IceCandidateView) -> Seq<JsonMemberView> {
    seq![
        JsonMemberView { name: "candidate"@, value: JsonFieldView::Text(candidate.candidate) },
        JsonMemberView { name: "sdpMid"@, value: text_or_null(candidate.sdp_mid) },
        JsonMemberView { name: "sdpMLineIndex"@, value: index_or_null(candidate.sdp_mline_index) },
        JsonMemberView {
            name: "usernameFragment"@,
            value: text_or_null(candidate.username_fragment),
        },
    ]
}

/// The message body a session description is sent as, where it can be
/// written.
pub open spec fn description_body(description: SessionDescriptionView) -> Option<Seq<char>> {
    json_text(description_members(description))
}

/// The message body an ICE candidate is sent as, where it can be written.
pub open spec fn candidate_body(candidate: IceCandidateView) -> Option<Seq<char>> {
    json_text(candidate_members(candidate))
}

/// Mathematical value of an optional reference to a field.
pub open spec fn optional_field(field: Option<&JsonField>) -> Option<JsonFieldView> {
    match field {
        Some(f) => Some(f@),
        None => None,
    }
}

/// Looks up the first member with the given name.
pub fn find_member<'a>(members: &'a Vec<JsonMember>, name: &str) -> (r: Option<&'a JsonField>)
    ensures
        optional_field(r) == member_value(members_view(members@), name@),
{
    let ghost all = members_view(members@);
    let mut i: usize = 0;
    assert(all.skip(0) =~= all);
    while i < members.len()
        invariant
            i <= members.len(),
            all == members_view(members@),
            member_value(all, name@) == member_value(all.skip(i as int), name@),
        decreases members.len() - i,
    {
        if same_text(members[i].name.as_str(), name) {
            return Some(&members[i].value);
        }
        proof {
            assert(all.skip(i as int).drop_first() =~= all.skip(i + 1));
        }
        i += 1;
    }
    None
}

fn read_kind(field: Option<&JsonField>) -> (r: Option<SdpKind>)
    ensures
        r == kind_of(optional_field(field)),
{
    match field {
        Some(JsonField::Text(t)) => {
            if same_text(t.as_str(), "offer") {
                Some(SdpKind::Offer)
            } else if same_text(t.as_str(), "answer") {
                Some(SdpKind::Answer)
            } else {
                None
            }
        },
        _ => None,
    }
}

fn read_required_text(field: Option<&JsonField>) -> (r: Option<String>)
    ensures
        optional_text(r) == required_text(optional_field(field)),
{
    match field {
        Some(JsonField::Text(t)) => Some(t.clone()),
        _ => None,
    }
}

/// Mathematical value of the outcome of reading an optional text member.
pub open spec fn optional_text_outcome(r: Option<Option<String>>) -> Option<Option<Seq<char>>> {
    match r {
        Some(t) => Some(optional_text(t)),
        None => None,
    }
}

fn read_optional_text(field: Option<&JsonField>) -> (r: Option<Option<String>>)
    ensures
        optional_text_outcome(r) == optional_text_member(optional_field(field)),
{
    match field {
        None => Some(None),
        Some(JsonField::Null) => Some(None),
        Some(JsonField::Text(t)) => Some(Some(t.clone())),
        _ => None,
    }
}

fn read_optional_index(field: Option<&JsonField>) -> (r: Option<Option<u16>>)
    ensures
        r == optional_index_member(optional_field(field)),
{
    match field {
        None => Some(None),
        Some(JsonField::Null) => Some(None),
        Some(JsonField::Number(Some(n))) => {
            if *n <= 0xffff {
                Some(Some(*n as u16))
            } else {
                None
            }
        },
        _ => None,
    }
}

/// Mathematical value of a decoding outcome for a session description.
pub open spec fn description_outcome(r: Result<SessionDescription, SignalError>) -> Option<
    SessionDescriptionView,
> {
    match r {
        Ok(description) => Some(description@),
        Err(_) => None,
    }
}

/// Mathematical value of a decoding outcome for an ICE candidate.
pub open spec fn candidate_outcome(r: Result<IceCandidate, SignalError>) -> Option<
    IceCandidateView,
> {
    match r {
        Ok(candidate) => Some(candidate@),
        Err(_) => None,
    }
}

/// Reads a session description from the members of a JSON object. Fails
/// with `Decode` exactly where the object does not stand for one.
pub fn decode_session_description(members: &Vec<JsonMember>) -> (r: Result<
    SessionDescription,
    SignalError,
>)
    ensures
        description_outcome(r) == decoded_description(members_view(members@)),
        r is Err ==> r == Err::<SessionDescription, SignalError>(SignalError::Decode),
{
    let kind = read_kind(find_member(members, "type"));
    let sdp = read_required_text(find_member(members, "sdp"));
    match (kind, sdp) {
        (Some(kind), Some(sdp)) => Ok(SessionDescription { kind, sdp }),
        _ => Err(SignalError::Decode),
    }
}

/// Reads an ICE candidate from the members of a JSON object. Fails with
/// `Decode` exactly where the object does not stand for one.
pub fn decode_candidate(members: &Vec<JsonMember>) -> (r: Result<IceCandidate, SignalError>)
    ensures
        candidate_outcome(r) == decoded_candidate(members_view(members@)),
        r is Err ==> r == Err::<IceCandidate, SignalError>(SignalError::Decode),
{
    let candidate = read_required_text(find_member(members, "candidate"));
    let sdp_mid = read_optional_text(find_member(members, "sdpMid"));
    let sdp_mline_index = read_optional_index(find_member(members, "sdpMLineIndex"));
    let username_fragment = read_optional_text(find_member(members, "usernameFragment"));
    match (candidate, sdp_mid, sdp_mline_index, username_fragment) {
        (Some(candidate), Some(sdp_mid), Some(sdp_mline_index), Some(username_fragment)) => Ok(
            IceCandidate { candidate, sdp_mid, sdp_mline_index, username_fragment },
        ),
        _ => Err(SignalError::Decode),
    }
}

/// Reads a session description from a message body. Fails with `Decode`
/// exactly where the body does not hold one.
pub fn parse_session_description(body: &str) -> (r: Result<SessionDescription, SignalError>)
    ensures
        description_outcome(r) == description_in(body@),
        r is Err ==> r == Err::<SessionDescription, SignalError>(SignalError::Decode),
{
    match read_object(body) {
        Some(members) => decode_session_description(&members),
        None => Err(SignalError::Decode),
    }
}

/// Reads an ICE candidate from a message body. Fails with `Decode` exactly
/// where the body does not hold one.
pub fn parse_candidate(body: &str) -> (r: Result<IceCandidate, SignalError>)
    ensures
        candidate_outcome(r) == candidate_in(body@),
        r is Err ==> r == Err::<IceCandidate, SignalError>(SignalError::Decode),
{
    match read_object(body) {
        Some(members) => decode_candidate(&members),
        None => Err(SignalError::Decode),
    }
}

/// Mathematical value of an encoding outcome.
pub open spec fn body_outcome(r: Result<String, SignalError>) -> Option<Seq<char>> {
    match r {
        Ok(body) => Some(body@),
        Err(_) => None,
    }
}

fn text_member(name: &str, text: &String) -> (member: JsonMember)
    ensures
        member@ == (JsonMemberView { name: name@, value: JsonFieldView::Text(text@) }),
{
    JsonMember { name: String::from_str(name), value: JsonField::Text(text.clone()) }
}

fn optional_text_field(name: &str, text: &Option<String>) -> (member: JsonMember)
    ensures
        member@ == (JsonMemberView { name: name@, value: text_or_null(optional_text(*text)) }),
{
    match text {
        Some(t) => text_member(name, t),
        None => JsonMember { name: String::from_str(name), value: JsonField::Null },
    }
}

fn optional_index_field(name: &str, index: Option<u16>) -> (member: JsonMember)
    ensures
        member@ == (JsonMemberView { name: name@, value: index_or_null(index) }),
{
    match index {
        Some(n) => JsonMember {
            name: String::from_str(name),
            value: JsonField::Number(Some(n as u64)),
        },
        None => JsonMember { name: String::from_str(name), value: JsonField::Null },
    }
}

/// The members a session description is written with.
pub fn session_description_members(description: &SessionDescription) -> (members: Vec<JsonMember>)
    ensures
        members_view(members@) == description_members(description@),
        forall|i: int| 0 <= i < members.len() ==> writable(#[trigger] members[i]@),
{
    let kind = match description.kind {
        SdpKind::Offer => String::from_str("offer"),
        SdpKind::Answer => String::from_str("answer"),
    };
    let mut members: Vec<JsonMember> = Vec::new();
    members.push(text_member("type", &kind));
    members.push(text_member("sdp", &description.sdp));
    members
}

/// The members an ICE candidate is written with.
pub fn ice_candidate_members(candidate: &IceCandidate) -> (members: Vec<JsonMember>)
    ensures
        members_view(members@) == candidate_members(candidate@),
        forall|i: int| 0 <= i < members.len() ==> writable(#[trigger] members[i]@),
{
    let mut members: Vec<JsonMember> = Vec::new();
    members.push(text_member("candidate", &candidate.candidate));
    members.push(optional_text_field("sdpMid", &candidate.sdp_mid));
    members.push(optional_index_field("sdpMLineIndex", candidate.sdp_mline_index));
    members.push(optional_text_field("usernameFragment", &candidate.username_fragment));
    members
}

/// Settles what writing a message body gave: the body, or `Encode` where
/// none was written.
pub fn written_body(written: Option<String>) -> (r: Result<String, SignalError>)
    ensures
        body_outcome(r) == optional_text(written),
        r is Err ==> r == Err::<String, SignalError>(SignalError::Encode),
{
    match written {
        Some(body) => Ok(body),
        None => Err(SignalError::Encode),
    }
}

/// Writes the message body for a session description. Fails with `Encode`
/// exactly where the body cannot be written.
pub fn encode_session_description(description: &SessionDescription) -> (r: Result<
    String,
    SignalError,
>)
    ensures
        body_outcome(r) == description_body(description@),
        r is Err ==> r == Err::<String, SignalError>(SignalError::Encode),
{
    let members = session_description_members(description);
    written_body(write_object(&members))
}

/// Writes the message body for an ICE candidate. Fails with `Encode`
/// exactly where the body cannot be written.
pub fn encode_candidate(candidate: &IceCandidate) -> (r: Result<String, SignalError>)
    ensures
        body_outcome(r) == candidate_body(candidate@),
        r is Err ==> r == Err::<String, SignalError>(SignalError::Encode),
{
    let members = ice_candidate_members(candidate);
    written_body(write_object(&members))
}

/// The members written for a session description stand for that
/// description again.
pub proof fn lemma_description_members_decode(description: SessionDescriptionView)
    ensures
        decoded_description(description_members(description)) == Some(description),
{
    reveal_strlit("type");
    reveal_strlit("sdp");
    reveal_strlit("offer");
    reveal_strlit("answer");
    reveal_with_fuel(member_value, 3);
    let members = description_members(description);
    assert(members[0].name == "type"@ && members[1].name == "sdp"@);
    assert("type"@ != "sdp"@) by {
        assert("type"@.len() == 4 && "sdp"@.len() == 3);
    }
    assert("offer"@ != "answer"@) by {
        assert("offer"@.len() == 5 && "answer"@.len() == 6);
    }
}

/// The members written for an ICE candidate stand for that candidate
/// again.
pub proof fn lemma_candidate_members_decode(candidate: IceCandidateView)
    ensures
        decoded_candidate(candidate_members(candidate)) == Some(candidate),
{
    reveal_strlit("candidate");
    reveal_strlit("sdpMid");
    reveal_strlit("sdpMLineIndex");
    reveal_strlit("usernameFragment");
    reveal_with_fuel(member_value, 5);
    let members = candidate_members(candidate);
    let rest1 = members.drop_first();
    let rest2 = rest1.drop_first();
    let rest3 = rest2.drop_first();
    assert(rest1[0] == members[1] && rest2[0] == members[2] && rest3[0] == members[3]);
    assert("candidate"@.len() == 9);
    assert("sdpMid"@.len() == 6);
    assert("sdpMLineIndex"@.len() == 13);
    assert("usernameFragment"@.len() == 16);
}

} // verus!
