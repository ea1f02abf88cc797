use vstd::prelude::*;
use crate::geometry::{ScreenPos, touches, line_hovered_spec, point_touched, line_hovered};

verus! {

/// Position of one waypoint in the track hierarchy.
#[derive(Clone, Copy, Debug, PartialEq, Eq, Structural)]
pub struct GpxIndex {
    pub track: usize,
    pub segment: usize,
    pub waypoint: usize,
}

/// What to draw for one waypoint.
#[derive(Clone, Copy, Debug, PartialEq, Eq, Structural)]
pub struct PointMark {
    pub index: GpxIndex,
    pub pos: ScreenPos,
    pub hovered: bool,
}

/// What to draw between two consecutive waypoints of a segment.
#[derive(Clone, Copy, Debug, PartialEq, Eq, Structural)]
pub struct LineMark {
    pub from: ScreenPos,
    pub to: ScreenPos,
    pub hovered: bool,
}

/// Draw list of one segment: a mark per waypoint and a line per consecutive
/// pair.
pub struct SegmentFrame {
    pub points: Vec<PointMark>,
    pub lines: Vec<LineMark>,
}

/// Outcome of the commit check that opens a frame.
#[derive(Clone, Copy, Debug, PartialEq, Eq, Structural)]
pub struct FrameStart {
    /// The waypoint whose drag is committed at the click, if any.
    pub commit: Option<GpxIndex>,
    /// The click that is still to be handled by the walk.
    pub click: Option<ScreenPos>,
}

/// Selection state of the overlay: at most one waypoint is selected and
/// follows the pointer.
pub struct Overlay {
    pub select: Option<GpxIndex>,
}

pub open spec fn index_of(t: int, s: int, w: int) -> GpxIndex {
    GpxIndex { track: t as usize, segment: s as usize, waypoint: w as usize }
}

/// Where a waypoint is shown: at the pointer while it is the selected one and
/// a pointer exists, else at its stored position.
pub open spec fn displayed(
    stored: ScreenPos,
    idx: GpxIndex,
    select: Option<GpxIndex>,
    drag: Option<ScreenPos>,
) -> ScreenPos {
    if select == Some(idx) && drag is Some {
        drag->Some_0
    } else {
        stored
    }
}

pub open spec fn point_mark(
    stored: ScreenPos,
    idx: GpxIndex,
    select: Option<GpxIndex>,
    drag: Option<ScreenPos>,
    hover: Option<ScreenPos>,
    radius: u32,
) -> PointMark {
    let pos = displayed(stored, idx, select, drag);
    PointMark { index: idx, pos, hovered: touches(hover, pos, radius) }
}

/// The draw list of segment `s` of track `t` holds the marks of its
/// waypoints in order and the lines between consecutive ones.
pub open spec fn segment_frame_ok(
    seg: Seq<ScreenPos>,
    t: int,
    s: int,
    select: Option<GpxIndex>,
    drag: Option<ScreenPos>,
    hover: Option<ScreenPos>,
    radius: u32,
    f: SegmentFrame,
) -> bool {
    &&& f.points@.len() == seg.len()
    &&& forall|w: int|
        0 <= w < seg.len() ==> #[trigger] f.points@[w] == point_mark(
            seg[w],
            index_of(t, s, w),
            select,
            drag,
            hover,
            radius,
        )
    &&& f.lines@.len() == if seg.len() == 0 {
        0
    } else {
        seg.len() - 1
    }
    &&& forall|w: int|
        0 <= w < f.lines@.len() ==> #[trigger] f.lines@[w] == (LineMark {
            from: f.points@[w].pos,
            to: f.points@[w + 1].pos,
            hovered: line_hovered_spec(hover, f.points@[w].pos, f.points@[w + 1].pos),
        })
}

/// The click lands on the waypoint at `idx` of the segment `seg`.
pub open spec fn segment_hit(
    seg: Seq<ScreenPos>,
    idx: GpxIndex,
    select: Option<GpxIndex>,
    drag: Option<ScreenPos>,
    click: Option<ScreenPos>,
    radius: u32,
) -> bool {
    &&& idx.waypoint < seg.len()
    &&& touches(click, displayed(seg[idx.waypoint as int], idx, select, drag), radius)
}

/// The click lands on the waypoint at `idx` of the hierarchy.
pub open spec fn hit_at(
    tracks: Seq<Vec<Vec<ScreenPos>>>,
    idx: GpxIndex,
    select: Option<GpxIndex>,
    drag: Option<ScreenPos>,
    click: Option<ScreenPos>,
    radius: u32,
) -> bool {
    &&& idx.track < tracks.len()
    &&& idx.segment < tracks[idx.track as int]@.len()
    &&& segment_hit(tracks[idx.track as int]@[idx.segment as int]@, idx, select, drag, click, radius)
}

/// Walk order: `a` comes before `b`.
pub open spec fn walks_before(a: GpxIndex, b: GpxIndex) -> bool {
    a.track < b.track || (a.track == b.track && (a.segment < b.segment || (a.segment == b.segment
        && a.waypoint < b.waypoint)))
}

/// The selection after a walk: the last waypoint in walk order that the
/// click lands on, or the selection unchanged where it lands on none.
pub open spec fn selection_after(
    tracks: Seq<Vec<Vec<ScreenPos>>>,
    select: Option<GpxIndex>,
    drag: Option<ScreenPos>,
    click: Option<ScreenPos>,
    radius: u32,
    after: Option<GpxIndex>,
) -> bool {
    if exists|i: GpxIndex| #[trigger] hit_at(tracks, i, select, drag, click, radius) {
        &&& after is Some
        &&& hit_at(tracks, after->Some_0, select, drag, click, radius)
        &&& forall|j: GpxIndex|
            #[trigger] hit_at(tracks, j, select, drag, click, radius) ==> !walks_before(
                after->Some_0,
                j,
            )
    } else {
        after == select
    }
}

/// The commit check: a click while a waypoint is selected commits that
/// waypoint, clears the selection and is consumed; otherwise nothing changes
/// and the click goes on to the walk.
pub open spec fn frame_start(select: Option<GpxIndex>, click: Option<ScreenPos>) -> (
    FrameStart,
    Option<GpxIndex>,
) {
    if select is Some && click is Some {
        (FrameStart { commit: select, click: None }, None)
    } else {
        (FrameStart { commit: None, click }, select)
    }
}

/// Draw list of one segment, and the last of its waypoints that the click
/// lands on.
fn walk_segment(
    seg: &Vec<ScreenPos>,
    t: usize,
    s: usize,
    select: Option<GpxIndex>,
    drag: Option<ScreenPos>,
    hover: Option<ScreenPos>,
    click: Option<ScreenPos>,
    radius: u32,
) -> (r: (SegmentFrame, Option<usize>))
    ensures
        segment_frame_ok(seg@, t as int, s as int, select, drag, hover, radius, r.0),
        match r.1 {
            None => forall|w: int|
                0 <= w < seg@.len() ==> !#[trigger] segment_hit(
                    seg@,
                    index_of(t as int, s as int, w),
                    select,
                    drag,
                    click,
                    radius,
                ),
            Some(w) => {
                &&& segment_hit(seg@, index_of(t as int, s as int, w as int), select, drag, click, radius)
                &&& forall|w2: int|
                    w < w2 < seg@.len() ==> !#[trigger] segment_hit(
                        seg@,
                        index_of(t as int, s as int, w2),
                        select,
                        drag,
                        click,
                        radius,
                    )
            },
        },
{
    let mut points: Vec<PointMark> = Vec::new();
    let mut lines: Vec<LineMark> = Vec::new();
    let mut hit: Option<usize> = None;
    let mut w: usize = 0;
    while w < seg.len()
        invariant
            w <= seg@.len(),
            points@.len() == w,
            forall|k: int|
                0 <= k < w ==> #[trigger] points@[k] == point_mark(
                    seg@[k],
                    index_of(t as int, s as int, k),
                    select,
                    drag,
                    hover,
                    radius,
                ),
            lines@.len() == if w == 0 {
                0
            } else {
                w - 1
            },
            forall|k: int|
                0 <= k < lines@.len() ==> #[trigger] lines@[k] == (LineMark {
                    from: points@[k].pos,
                    to: points@[k + 1].pos,
                    hovered: line_hovered_spec(hover, points@[k].pos, points@[k + 1].pos),
                }),
            match hit {
                None => forall|k: int|
                    0 <= k < w ==> !#[trigger] segment_hit(
                        seg@,
                        index_of(t as int, s as int, k),
                        select,
                        drag,
                        click,
                        radius,
                    ),
                Some(h) => {
                    &&& h < w
                    &&& segment_hit(seg@, index_of(t as int, s as int, h as int), select, drag, click, radius)
                    &&& forall|k: int|
                        h < k < w ==> !#[trigger] segment_hit(
                            seg@,
                            index_of(t as int, s as int, k),
                            select,
                            drag,
                            click,
                            radius,
                        )
                },
            },
        decreases seg@.len() - w,
    {
        let idx = GpxIndex { track: t, segment: s, waypoint: w };
        let pos = match (select, drag) {
            (Some(sel), Some(d)) => if sel == idx {
                d
            } else {
                seg[w]
            },
            _ => seg[w],
        };
        let hovered = point_touched(hover, pos, radius);
        if point_touched(click, pos, radius) {
            hit = Some(w);
        }
        if w > 0 {
            let prev = points[w - 1].pos;
            lines.push(LineMark { from: prev, to: pos, hovered: line_hovered(hover, prev, pos) });
        }
        points.push(PointMark { index: idx, pos, hovered });
        proof {
            assert(idx == index_of(t as int, s as int, w as int));
        }
        w = w + 1;
    }
    (SegmentFrame { points, lines }, hit)
}


/// Segment `s`, waypoint `w` of track `t` comes after segment `s0`, waypoint
/// `w0` of the same track.
pub open spec fn later_in_track(s: int, w: int, s0: int, w0: int) -> bool {
    s > s0 || (s == s0 && w > w0)
}

/// Draw lists of the segments of track `t`, and the last of its waypoints
/// (segment, waypoint) that the click lands on.
fn walk_track(
    track: &Vec<Vec<ScreenPos>>,
    t: usize,
    select: Option<GpxIndex>,
    drag: Option<ScreenPos>,
    hover: Option<ScreenPos>,
    click: Option<ScreenPos>,
    radius: u32,
) -> (r: (Vec<SegmentFrame>, Option<(usize, usize)>))
    ensures
        r.0@.len() == track@.len(),
        forall|s: int|
            0 <= s < track@.len() ==> segment_frame_ok(
                track@[s]@,
                t as int,
                s,
                select,
                drag,
                hover,
                radius,
                #[trigger] r.0@[s],
            ),
        match r.1 {
            None => forall|s: int, w: int|
                0 <= s < track@.len() && 0 <= w < track@[s]@.len() ==> !#[trigger] segment_hit(
                    track@[s]@,
                    index_of(t as int, s, w),
                    select,
                    drag,
                    click,
                    radius,
                ),
            Some((s0, w0)) => {
                &&& s0 < track@.len()
                &&& segment_hit(track@[s0 as int]@, index_of(t as int, s0 as int, w0 as int), select, drag, click, radius)
                &&& forall|s: int, w: int|
                    s < track@.len() && 0 <= w < track@[s]@.len() && later_in_track(s, w, s0 as int, w0 as int)
                        ==> !#[trigger] segment_hit(
                        track@[s]@,
                        index_of(t as int, s, w),
                        select,
                        drag,
                        click,
                        radius,
                    )
            },
        },
{
    let mut frames: Vec<SegmentFrame> = Vec::new();
    let mut hit: Option<(usize, usize)> = None;
    let mut s: usize = 0;
    while s < track.len()
        invariant
            s <= track@.len(),
            frames@.len() == s,
            forall|k: int|
                0 <= k < s ==> segment_frame_ok(
                    track@[k]@,
                    t as int,
                    k,
                    select,
                    drag,
                    hover,
                    radius,
                    #[trigger] frames@[k],
                ),
            match hit {
                None => forall|k: int, w: int|
                    0 <= k < s && 0 <= w < track@[k]@.len() ==> !#[trigger] segment_hit(
                        track@[k]@,
                        index_of(t as int, k, w),
                        select,
                        drag,
                        click,
                        radius,
                    ),
                Some((s0, w0)) => {
                    &&& s0 < s
                    &&& segment_hit(track@[s0 as int]@, index_of(t as int, s0 as int, w0 as int), select, drag, click, radius)
                    &&& forall|k: int, w: int|
                        k < s && 0 <= w < track@[k]@.len() && later_in_track(k, w, s0 as int, w0 as int)
                            ==> !#[trigger] segment_hit(
                            track@[k]@,
                            index_of(t as int, k, w),
                            select,
                            drag,
                            click,
                            radius,
                        )
                },
            },
        decreases track@.len() - s,
    {
        let (frame, seg_hit) = walk_segment(&track[s], t, s, select, drag, hover, click, radius);
        match seg_hit {
            Some(w) => {
                hit = Some((s, w));
            },
            None => {},
        }
        frames.push(frame);
        s = s + 1;
    }
    (frames, hit)
}


/// A waypoint that is not the selected one is shown at its stored position.
pub proof fn lemma_unselected_shows_stored(
    stored: ScreenPos,
    idx: GpxIndex,
    select: Option<GpxIndex>,
    drag: Option<ScreenPos>,
)
    requires
        select != Some(idx),
    ensures
        displayed(stored, idx, select, drag) == stored,
{
}

/// The selected waypoint is shown where the pointer is, while a pointer
/// exists.
pub proof fn lemma_selected_follows_pointer(
    stored: ScreenPos,
    idx: GpxIndex,
    drag: ScreenPos,
)
    ensures
        displayed(stored, idx, Some(idx), Some(drag)) == drag,
{
}

/// With nothing selected, a click is handed on untouched and commits
/// nothing; where it lands on waypoint `w` and on no waypoint after it, the
/// walk selects `w`.
pub proof fn lemma_click_selects(
    tracks: Seq<Vec<Vec<ScreenPos>>>,
    w: GpxIndex,
    drag: Option<ScreenPos>,
    click: ScreenPos,
    radius: u32,
    after: Option<GpxIndex>,
)
    requires
        hit_at(tracks, w, None, drag, Some(click), radius),
        forall|j: GpxIndex|
            #[trigger] hit_at(tracks, j, None, drag, Some(click), radius) ==> !walks_before(w, j),
        selection_after(tracks, None, drag, Some(click), radius, after),
    ensures
        frame_start(None, Some(click)) == (FrameStart { commit: None, click: Some(click) }, None::<
            GpxIndex,
        >),
        after == Some(w),
{
    let a = after->Some_0;
    assert(!walks_before(w, a));
    assert(!walks_before(a, w));
}

/// A click while `w` is selected commits `w` wherever it lands, and clears
/// the selection.
pub proof fn lemma_click_commits(w: GpxIndex, click: ScreenPos)
    ensures
        frame_start(Some(w), Some(click)) == (FrameStart { commit: Some(w), click: None }, None::<
            GpxIndex,
        >),
{
}

/// The click that commits is consumed: the walk of the same frame sees no
/// click and leaves the cleared selection empty.
pub proof fn lemma_commit_consumes_click(
    tracks: Seq<Vec<Vec<ScreenPos>>>,
    w: GpxIndex,
    drag: Option<ScreenPos>,
    click: ScreenPos,
    radius: u32,
    after: Option<GpxIndex>,
)
    requires
        selection_after(
            tracks,
            frame_start(Some(w), Some(click)).1,
            drag,
            frame_start(Some(w), Some(click)).0.click,
            radius,
            after,
        ),
    ensures
        after is None,
{
    assert(forall|j: GpxIndex| !#[trigger] hit_at(tracks, j, None, drag, None, radius));
}

impl Overlay {
    /// An overlay with nothing selected.
    pub fn new() -> (r: Overlay)
        ensures
            r.select is None,
    {
        Overlay { select: None }
    }

    /// Opens a frame with the click of this frame, if any. A click while a
    /// waypoint is selected commits that waypoint at the click: it is
    /// returned in `commit`, the selection is cleared and the click is
    /// consumed. Otherwise the selection stays and the click is handed on.
    pub fn commit_click(&mut self, click: Option<ScreenPos>) -> (r: FrameStart)
        ensures
            (r, final(self).select) == frame_start(old(self).select, click),
    {
        if self.select.is_some() && click.is_some() {
            let commit = self.select;
            self.select = None;
            FrameStart { commit, click: None }
        } else {
            FrameStart { commit: None, click }
        }
    }

    /// One pass over the hierarchy of projected stored positions `tracks`.
    /// `drag` is where the selected waypoint follows the pointer, `hover`
    /// the hover position and `click` the click that the commit check handed
    /// on, all in screen units; `radius` is the point hit radius.
    ///
    /// Returns the draw list of each segment; the selection moves to the last
    /// waypoint in walk order that the click lands on, and stays where it
    /// lands on none.
    pub fn walk(
        &mut self,
        tracks: &Vec<Vec<Vec<ScreenPos>>>,
        drag: Option<ScreenPos>,
        hover: Option<ScreenPos>,
        click: Option<ScreenPos>,
        radius: u32,
    ) -> (r: Vec<Vec<SegmentFrame>>)
        ensures
            r@.len() == tracks@.len(),
            forall|t: int| 0 <= t < tracks@.len() ==> (#[trigger] r@[t])@.len() == tracks@[t]@.len(),
            forall|t: int, s: int|
                0 <= t < tracks@.len() && 0 <= s < tracks@[t]@.len() ==> segment_frame_ok(
                    tracks@[t]@[s]@,
                    t,
                    s,
                    old(self).select,
                    drag,
                    hover,
                    radius,
                    #[trigger] r@[t]@[s],
                ),
            selection_after(tracks@, old(self).select, drag, click, radius, final(self).select),
    {
        let select = self.select;
        let mut frames: Vec<Vec<SegmentFrame>> = Vec::new();
        let mut best: Option<GpxIndex> = None;
        let mut t: usize = 0;
        while t < tracks.len()
            invariant
                select == old(self).select,
                *self == *old(self),
                t <= tracks@.len(),
                frames@.len() == t,
                forall|k: int| 0 <= k < t ==> (#[trigger] frames@[k])@.len() == tracks@[k]@.len(),
                forall|k: int, s: int|
                    0 <= k < t && 0 <= s < tracks@[k]@.len() ==> segment_frame_ok(
                        tracks@[k]@[s]@,
                        k,
                        s,
                        select,
                        drag,
                        hover,
                        radius,
                        #[trigger] frames@[k]@[s],
                    ),
                match best {
                    None => forall|i: GpxIndex|
                        #[trigger] hit_at(tracks@, i, select, drag, click, radius) ==> i.track >= t,
                    Some(b) => {
                        &&& b.track < t
                        &&& hit_at(tracks@, b, select, drag, click, radius)
                        &&& forall|i: GpxIndex|
                            #[trigger] hit_at(tracks@, i, select, drag, click, radius) && i.track < t
                                ==> !walks_before(b, i)
                    },
                },
            decreases tracks@.len() - t,
        {
            let (track_frames, track_hit) = walk_track(&tracks[t], t, select, drag, hover, click, radius);
            proof {
                assert forall|i: GpxIndex| #[trigger]
                    hit_at(tracks@, i, select, drag, click, radius) && i.track == t implies segment_hit(
                    tracks@[t as int]@[i.segment as int]@,
                    index_of(t as int, i.segment as int, i.waypoint as int),
                    select,
                    drag,
                    click,
                    radius,
                ) by {
                    assert(i == index_of(t as int, i.segment as int, i.waypoint as int));
                }
            }
            match track_hit {
                Some((s0, w0)) => {
                    best = Some(GpxIndex { track: t, segment: s0, waypoint: w0 });
                    proof {
                        assert(GpxIndex { track: t, segment: s0, waypoint: w0 } == index_of(
                            t as int,
                            s0 as int,
                            w0 as int,
                        ));
                    }
                },
                None => {},
            }
            frames.push(track_frames);
            proof {
                assert forall|k: int| 0 <= k < t + 1 implies (#[trigger] frames@[k])@.len()
                    == tracks@[k]@.len() by {}
                assert forall|k: int, s: int|
                    0 <= k < t + 1 && 0 <= s < tracks@[k]@.len() implies segment_frame_ok(
                    tracks@[k]@[s]@,
                    k,
                    s,
                    select,
                    drag,
                    hover,
                    radius,
                    #[trigger] frames@[k]@[s],
                ) by {}
            }
            t = t + 1;
        }
        if best.is_some() {
            self.select = best;
        }
        frames
    }
}

} // verus!
