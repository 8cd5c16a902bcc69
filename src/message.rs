//! The two record kinds that the robot sends, and the decoder's tagged outcome.
use vstd::prelude::*;

verus! {

/// The robot's current directional sweep.
///
/// `angle` is in degrees, robot-relative: 90 is straight ahead, 180 full left,
/// 0 full right. `sound` is the acoustic distance, kept as the decimal text of
/// the JSON number that carried it; `ir` is the infrared distance.
#[derive(Clone, Debug, PartialEq)]
pub struct CybotScanData {
    pub angle: i32,
    pub sound: String,
    pub ir: u32,
}

/// One obstacle as sighted: its radial distance, the bearing of its middle in
/// degrees (same frame as a scan) and its arc length. The two real values are
/// kept as the decimal text of the JSON numbers that carried them.
#[derive(Clone, Debug, PartialEq)]
pub struct ObstacleData {
    pub distance: String,
    pub angle_middle: i32,
    pub size: String,
}

/// What one chunk of the stream decodes to.
#[derive(Clone, Debug, PartialEq)]
pub enum Message {
    Obstacle(ObstacleData),
    Scan(CybotScanData),
    Diagnostic(String),
}

/// A scan reading seen as plain values.
pub struct ScanView {
    pub angle: i32,
    pub sound: Seq<char>,
    pub ir: u32,
}

/// An obstacle sighting seen as plain values.
pub struct ObstacleView {
    pub distance: Seq<char>,
    pub angle_middle: i32,
    pub size: Seq<char>,
}

/// A decoded message seen as plain values.
pub enum MessageView {
    Obstacle(ObstacleView),
    Scan(ScanView),
    Diagnostic(Seq<char>),
}

impl View for CybotScanData {
    type V = ScanView;

    open spec fn view(&self) -> ScanView {
        ScanView { angle: self.angle, sound: self.sound@, ir: self.ir }
    }
}

impl View for ObstacleData {
    type V = ObstacleView;

    open spec fn view(&self) -> ObstacleView {
        ObstacleView { distance: self.distance@, angle_middle: self.angle_middle, size: self.size@ }
    }
}

impl View for Message {
    type V = MessageView;

    open spec fn view(&self) -> MessageView {
        match self {
            Message::Obstacle(o) => MessageView::Obstacle(o@),
            Message::Scan(s) => MessageView::Scan(s@),
            Message::Diagnostic(t) => MessageView::Diagnostic(t@),
        }
    }
}

} // verus!
