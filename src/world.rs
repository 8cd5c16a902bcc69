//! The session's world: the current scan and the append-only obstacle history.
use vstd::prelude::*;
use crate::decoder::{decode, decoded};
use crate::message::{CybotScanData, Message, ObstacleData};

verus! {

/// The world seen as plain values.
pub struct WorldView {
    pub scan: Option<CybotScanData>,
    pub obstacles: Seq<ObstacleData>,
}

/// The world before any message.
pub open spec fn empty_world() -> WorldView {
    WorldView { scan: None, obstacles: Seq::empty() }
}

/// The world after one message: a scan replaces the current one, an obstacle
/// is appended to the history, a diagnostic changes nothing.
pub open spec fn step(w: WorldView, m: Message) -> WorldView {
    match m {
        Message::Scan(s) => WorldView { scan: Some(s), obstacles: w.obstacles },
        Message::Obstacle(o) => WorldView { scan: w.scan, obstacles: w.obstacles.push(o) },
        Message::Diagnostic(_) => w,
    }
}

/// The world after messages handled in order.
pub open spec fn run(w: WorldView, ms: Seq<Message>) -> WorldView
    decreases ms.len(),
{
    if ms.len() == 0 {
        w
    } else {
        step(run(w, ms.drop_last()), ms.last())
    }
}

/// The current scan reading and every obstacle sighted so far, in the order
/// of their arrival.
pub struct World {
    scan: Option<CybotScanData>,
    obstacles: Vec<ObstacleData>,
}

impl View for World {
    type V = WorldView;

    closed spec fn view(&self) -> WorldView {
        WorldView { scan: self.scan, obstacles: self.obstacles@ }
    }
}

impl World {
    /// A world with no scan and no obstacle.
    pub fn new() -> (r: World)
        ensures
            r@ == empty_world(),
    {
        World { scan: None, obstacles: Vec::new() }
    }

    /// Makes `reading` the current scan; the history is unchanged.
    pub fn update_scan(&mut self, reading: CybotScanData)
        ensures
            final(self)@ == (WorldView { scan: Some(reading), obstacles: old(self)@.obstacles }),
    {
        self.scan = Some(reading);
    }

    /// Appends `sighting` to the history; the current scan is unchanged.
    pub fn record_obstacle(&mut self, sighting: ObstacleData)
        ensures
            final(self)@ == (WorldView { scan: old(self)@.scan, obstacles: old(self)@.obstacles.push(sighting) }),
    {
        self.obstacles.push(sighting);
    }

    /// Folds one decoded message into the world.
    pub fn apply(&mut self, msg: &Message)
        ensures
            final(self)@ == step(old(self)@, *msg),
    {
        match msg {
            Message::Scan(s) => {
                self.update_scan(CybotScanData { angle: s.angle, sound: s.sound.clone(), ir: s.ir });
            },
            Message::Obstacle(o) => {
                self.record_obstacle(
                    ObstacleData { distance: o.distance.clone(), angle_middle: o.angle_middle, size: o.size.clone() },
                );
            },
            Message::Diagnostic(_) => {},
        }
    }

    /// Decodes one chunk of the stream and folds the outcome into the world;
    /// returns what the chunk decoded to.
    pub fn ingest(&mut self, chunk: &[u8]) -> (r: Message)
        ensures
            r@ == decoded(chunk@),
            final(self)@ == step(old(self)@, r),
    {
        let msg = decode(chunk);
        self.apply(&msg);
        msg
    }

    /// The current scan, if one has arrived.
    pub fn current_scan(&self) -> (r: Option<&CybotScanData>)
        ensures
            match r {
                Some(s) => self@.scan == Some(*s),
                None => self@.scan is None,
            },
    {
        match &self.scan {
            Some(s) => Some(s),
            None => None,
        }
    }

    /// Every obstacle recorded so far, in the order of arrival.
    pub fn obstacles(&self) -> (r: &[ObstacleData])
        ensures
            r@ == self@.obstacles,
    {
        self.obstacles.as_slice()
    }
}

/// Obstacle messages handled one after another are appended to the history
/// in their order, each as it was decoded, and leave the current scan alone.
pub proof fn lemma_obstacles_append(w: WorldView, obs: Seq<ObstacleData>)
    ensures
        run(w, obs.map_values(|o: ObstacleData| Message::Obstacle(o))).obstacles == w.obstacles + obs,
        run(w, obs.map_values(|o: ObstacleData| Message::Obstacle(o))).scan == w.scan,
    decreases obs.len(),
{
    let ms = obs.map_values(|o: ObstacleData| Message::Obstacle(o));
    if obs.len() == 0 {
        assert(w.obstacles + obs =~= w.obstacles);
    } else {
        let init = obs.drop_last();
        lemma_obstacles_append(w, init);
        assert(ms.drop_last() =~= init.map_values(|o: ObstacleData| Message::Obstacle(o)));
        assert(w.obstacles + obs =~= (w.obstacles + init).push(obs.last()));
    }
}

/// From an empty world, `n` obstacle messages leave exactly those `n`
/// obstacles, in arrival order.
pub proof fn lemma_obstacle_history(obs: Seq<ObstacleData>)
    ensures
        run(empty_world(), obs.map_values(|o: ObstacleData| Message::Obstacle(o))).obstacles == obs,
        run(empty_world(), obs.map_values(|o: ObstacleData| Message::Obstacle(o))).obstacles.len() == obs.len(),
{
    lemma_obstacles_append(empty_world(), obs);
    assert(Seq::<ObstacleData>::empty() + obs =~= obs);
}

/// After a scan `s1` and then a scan `s2`, the current scan is `s2`, whatever
/// came before; the history is untouched. Handling the same scan twice is the
/// same as handling it once.
pub proof fn lemma_scan_replaced(w: WorldView, s1: CybotScanData, s2: CybotScanData)
    ensures
        run(w, seq![Message::Scan(s1), Message::Scan(s2)]).scan == Some(s2),
        run(w, seq![Message::Scan(s1), Message::Scan(s2)]).obstacles == w.obstacles,
        step(step(w, Message::Scan(s2)), Message::Scan(s2)) == step(w, Message::Scan(s2)),
{
    let ms = seq![Message::Scan(s1), Message::Scan(s2)];
    assert(ms.drop_last() =~= seq![Message::Scan(s1)]);
    assert(ms.drop_last().drop_last() =~= Seq::<Message>::empty());
    assert(run(w, ms.drop_last().drop_last()) == w);
    assert(run(w, ms.drop_last()) == step(w, Message::Scan(s1)));
}

} // verus!
