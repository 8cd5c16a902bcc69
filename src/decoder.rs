//! Classifies one chunk of the stream: an obstacle record first, then a scan
//! record, and otherwise the bytes as diagnostic text.
use vstd::prelude::*;
use crate::json::{find_member, member, members_view, object_members, parse_object, Member, MemberView};
use crate::message::{CybotScanData, Message, MessageView, ObstacleData, ObstacleView, ScanView};

verus! {

/// The text that lossy UTF-8 decoding makes of the bytes.
pub uninterp spec fn lossy_utf8(b: Seq<u8>) -> Seq<char>;

/// Relies on `String::from_utf8_lossy`: the bytes decoded as UTF-8, each
/// invalid sequence replaced by U+FFFD. Bytes that are all ASCII are valid
/// UTF-8 and come back as the same characters.
#[verifier::external_body]
fn lossy_text(b: &[u8]) -> (r: String)
    ensures
        r@ == lossy_utf8(b@),
        (forall|i: int| 0 <= i < b@.len() ==> b@[i] < 128) ==> r@ == b@.map_values(|c: u8| c as char),
{
    String::from_utf8_lossy(b).into_owned()
}

/// The value of an `i64` as an `i32`, where it fits.
pub open spec fn as_i32(x: Option<i64>) -> Option<i32> {
    match x {
        Some(v) => if i32::MIN <= v <= i32::MAX { Some(v as i32) } else { None },
        None => None,
    }
}

/// The value of an `i64` as a `u32`, where it fits.
pub open spec fn as_u32(x: Option<i64>) -> Option<u32> {
    match x {
        Some(v) => if 0 <= v <= u32::MAX { Some(v as u32) } else { None },
        None => None,
    }
}

/// The number text of the member named `k`, where there is one and it holds a number.
pub open spec fn number_at(ms: Seq<MemberView>, k: Seq<char>) -> Option<Seq<char>> {
    match member(ms, k) {
        Some(m) => m.number,
        None => None,
    }
}

/// The integer of the member named `k`, where there is one and it holds an integer.
pub open spec fn integer_at(ms: Seq<MemberView>, k: Seq<char>) -> Option<i64> {
    match member(ms, k) {
        Some(m) => m.integer,
        None => None,
    }
}

/// The obstacle record that the members make: `distance` and `size` numbers,
/// `angle_middle` an integer that fits an `i32`. Other members are ignored.
pub open spec fn obstacle_of(ms: Seq<MemberView>) -> Option<ObstacleView> {
    let d = number_at(ms, "distance"@);
    let a = as_i32(integer_at(ms, "angle_middle"@));
    let s = number_at(ms, "size"@);
    if d is Some && a is Some && s is Some {
        Some(ObstacleView { distance: d->0, angle_middle: a->0, size: s->0 })
    } else {
        None
    }
}

/// The scan record that the members make: `angle` an integer that fits an
/// `i32`, `sound` a number, `ir` an integer that fits a `u32`. Other members
/// are ignored.
pub open spec fn scan_of(ms: Seq<MemberView>) -> Option<ScanView> {
    let a = as_i32(integer_at(ms, "angle"@));
    let s = number_at(ms, "sound"@);
    let i = as_u32(integer_at(ms, "ir"@));
    if a is Some && s is Some && i is Some {
        Some(ScanView { angle: a->0, sound: s->0, ir: i->0 })
    } else {
        None
    }
}

/// The record that the members make, an obstacle taking precedence over a scan.
pub open spec fn record_of(ms: Seq<MemberView>) -> Option<MessageView> {
    match obstacle_of(ms) {
        Some(o) => Some(MessageView::Obstacle(o)),
        None => match scan_of(ms) {
            Some(s) => Some(MessageView::Scan(s)),
            None => None,
        },
    }
}

/// What a chunk of bytes decodes to.
pub open spec fn decoded(b: Seq<u8>) -> MessageView {
    match object_members(b) {
        Some(ms) => match record_of(ms) {
            Some(m) => m,
            None => MessageView::Diagnostic(lossy_utf8(b)),
        },
        None => MessageView::Diagnostic(lossy_utf8(b)),
    }
}

/// The number text of the member named `k`.
fn number_from(ms: &[Member], k: &String) -> (r: Option<String>)
    ensures
        match r {
            Some(t) => number_at(members_view(ms@), k@) == Some(t@),
            None => number_at(members_view(ms@), k@) is None,
        },
{
    match find_member(ms, k) {
        Some(m) => match &m.number {
            Some(t) => Some(t.clone()),
            None => None,
        },
        None => None,
    }
}

/// The integer of the member named `k`.
fn integer_from(ms: &[Member], k: &String) -> (r: Option<i64>)
    ensures
        r == integer_at(members_view(ms@), k@),
{
    match find_member(ms, k) {
        Some(m) => m.integer,
        None => None,
    }
}

/// Reads an obstacle record from the members of a JSON object.
pub fn obstacle_from(ms: &[Member]) -> (r: Option<ObstacleData>)
    ensures
        match r {
            Some(o) => obstacle_of(members_view(ms@)) == Some(o@),
            None => obstacle_of(members_view(ms@)) is None,
        },
{
    let distance = number_from(ms, &"distance".to_owned());
    let angle = integer_from(ms, &"angle_middle".to_owned());
    let size = number_from(ms, &"size".to_owned());
    match (distance, angle, size) {
        (Some(distance), Some(a), Some(size)) => {
            if i32::MIN as i64 <= a && a <= i32::MAX as i64 {
                Some(ObstacleData { distance, angle_middle: a as i32, size })
            } else {
                None
            }
        },
        _ => None,
    }
}

/// Reads a scan record from the members of a JSON object.
pub fn scan_from(ms: &[Member]) -> (r: Option<CybotScanData>)
    ensures
        match r {
            Some(s) => scan_of(members_view(ms@)) == Some(s@),
            None => scan_of(members_view(ms@)) is None,
        },
{
    let angle = integer_from(ms, &"angle".to_owned());
    let sound = number_from(ms, &"sound".to_owned());
    let ir = integer_from(ms, &"ir".to_owned());
    match (angle, sound, ir) {
        (Some(a), Some(sound), Some(ir)) => {
            if i32::MIN as i64 <= a && a <= i32::MAX as i64 && 0 <= ir && ir <= u32::MAX as i64 {
                Some(CybotScanData { angle: a as i32, sound, ir: ir as u32 })
            } else {
                None
            }
        },
        _ => None,
    }
}

/// Reads a record from the members of a JSON object: an obstacle when they
/// make one, else a scan when they make one, else nothing.
pub fn classify(ms: &[Member]) -> (r: Option<Message>)
    ensures
        match r {
            Some(m) => record_of(members_view(ms@)) == Some(m@),
            None => record_of(members_view(ms@)) is None,
        },
        obstacle_of(members_view(ms@)) is Some ==> r matches Some(Message::Obstacle(_)),
{
    match obstacle_from(ms) {
        Some(o) => Some(Message::Obstacle(o)),
        None => match scan_from(ms) {
            Some(s) => Some(Message::Scan(s)),
            None => None,
        },
    }
}

/// Decodes one chunk of the stream. Never fails: bytes that hold neither
/// record come back as their lossy UTF-8 text.
pub fn decode(b: &[u8]) -> (r: Message)
    ensures
        r@ == decoded(b@),
        object_members(b@) matches Some(ms) && obstacle_of(ms) is Some ==> r is Obstacle,
        !(object_members(b@) matches Some(ms) && record_of(ms) is Some) ==> r@ == MessageView::Diagnostic(lossy_utf8(b@)),
{
    let record = match parse_object(b) {
        Some(ms) => classify(ms.as_slice()),
        None => None,
    };
    match record {
        Some(m) => m,
        None => Message::Diagnostic(lossy_text(b)),
    }
}

} // verus!
