use vstd::prelude::*;

verus! {

/// An axis-aligned bounding rectangle in page coordinates, with both edges
/// inclusive: a point lying exactly on the minimum or maximum edge counts
/// as contained.
#[derive(Debug, PartialEq, Eq, Copy, Clone, Structural)]
pub struct Rect {
    pub min_x: u32,
    pub min_y: u32,
    pub max_x: u32,
    pub max_y: u32,
}

impl Rect {
    /// A rectangle is well-formed when its minimum corner lies at or
    /// before its maximum corner on both axes. An ill-formed rectangle is
    /// harmless: it contains no point at all.
    pub open spec fn wf(self) -> bool {
        self.min_x <= self.max_x && self.min_y <= self.max_y
    }

    /// Containment, with both the minimum and the maximum edge inclusive.
    pub open spec fn spec_contains_point(self, point: (u32, u32)) -> bool {
        &&& self.min_x <= point.0 <= self.max_x
        &&& self.min_y <= point.1 <= self.max_y
    }

    /// The page position relative to this rectangle's origin. Meaningful
    /// only for a contained point, which can never lie before the origin.
    pub open spec fn spec_offset_from_page(self, point: (u32, u32)) -> (u32, u32)
        recommends
            self.spec_contains_point(point),
    {
        ((point.0 - self.min_x) as u32, (point.1 - self.min_y) as u32)
    }

    /// Builds a rectangle from its two corners.
    pub fn new(min_x: u32, min_y: u32, max_x: u32, max_y: u32) -> (r: Rect)
        requires
            min_x <= max_x,
            min_y <= max_y,
        ensures
            r == (Rect { min_x, min_y, max_x, max_y }),
            r.wf(),
    {
        Rect { min_x, min_y, max_x, max_y }
    }

    /// Hit test: whether the page position falls within this rectangle,
    /// counting both edges as inside.
    pub fn contains_point(&self, point: (u32, u32)) -> (r: bool)
        ensures
            r == self.spec_contains_point(point),
    {
        self.min_x <= point.0 && point.0 <= self.max_x && self.min_y <= point.1 && point.1
            <= self.max_y
    }

    /// Converts a contained page position to a target-relative position.
    pub fn offset_from_page(&self, point: (u32, u32)) -> (r: (u32, u32))
        requires
            self.spec_contains_point(point),
        ensures
            r == self.spec_offset_from_page(point),
    {
        (point.0 - self.min_x, point.1 - self.min_y)
    }
}

/// The bounding rectangle recorded for one node of the surrounding tree.
#[derive(Debug, PartialEq, Eq, Copy, Clone, Structural)]
pub struct NodeGeometry {
    pub node_id: u64,
    pub rect: Rect,
}

/// The page position `a` pulled back by the origin coordinate `b`,
/// clamped at zero when the position lies before the origin.
pub open spec fn spec_pull_back(a: u32, b: u32) -> u32 {
    if a >= b {
        (a - b) as u32
    } else {
        0
    }
}

/// The rectangle recorded for `node_id` in `nodes`: the first entry under
/// that identifier, or `None` when the snapshot knows no such node.
pub open spec fn spec_rect_for(nodes: Seq<NodeGeometry>, node_id: u64) -> Option<Rect>
    decreases nodes.len(),
{
    if nodes.len() == 0 {
        None
    } else if nodes[0].node_id == node_id {
        Some(nodes[0].rect)
    } else {
        spec_rect_for(nodes.drop_first(), node_id)
    }
}

/// A plain-value snapshot of what the dispatch engine asks the
/// surrounding tree: the viewport origin in page coordinates (the scroll
/// offset) and, per node, a bounding rectangle in page coordinates. The
/// host queries its real tree once, fills a snapshot, and hands it to a
/// dispatch pass; the engine never walks the tree itself.
#[derive(Debug)]
pub struct TreeGeometry {
    pub viewport_x: u32,
    pub viewport_y: u32,
    pub nodes: Vec<NodeGeometry>,
}

impl TreeGeometry {
    /// The rectangle this snapshot records for `node_id`.
    pub open spec fn spec_rect_for(self, node_id: u64) -> Option<Rect> {
        spec_rect_for(self.nodes@, node_id)
    }

    /// The page position relative to the viewport origin, clamped at the
    /// origin on each axis: a position before the viewport origin maps to
    /// coordinate zero there.
    pub open spec fn spec_client_from_page(self, point: (u32, u32)) -> (u32, u32) {
        (spec_pull_back(point.0, self.viewport_x), spec_pull_back(point.1, self.viewport_y))
    }

    /// An empty snapshot with the given viewport origin.
    pub fn new(viewport_x: u32, viewport_y: u32) -> (r: TreeGeometry)
        ensures
            r.viewport_x == viewport_x,
            r.viewport_y == viewport_y,
            r.nodes@ == Seq::<NodeGeometry>::empty(),
    {
        TreeGeometry { viewport_x, viewport_y, nodes: Vec::new() }
    }

    /// Records a node's bounding rectangle, after any earlier records.
    pub fn push_node(&mut self, node_id: u64, rect: Rect)
        ensures
            final(self).viewport_x == old(self).viewport_x,
            final(self).viewport_y == old(self).viewport_y,
            final(self).nodes@ == old(self).nodes@.push(NodeGeometry { node_id, rect }),
    {
        self.nodes.push(NodeGeometry { node_id, rect });
    }

    /// Looks the bounding rectangle of a node up: the first record under
    /// that identifier, or `None` when the node is unknown here.
    pub fn get_bounding_rectangle(&self, node_id: u64) -> (r: Option<Rect>)
        ensures
            r == self.spec_rect_for(node_id),
    {
        let n = self.nodes.len();
        let mut i: usize = 0;
        proof {
            assert(self.nodes@.skip(0) =~= self.nodes@);
        }
        while i < n
            invariant
                0 <= i <= n,
                n == self.nodes@.len(),
                spec_rect_for(self.nodes@, node_id) == spec_rect_for(
                    self.nodes@.skip(i as int),
                    node_id,
                ),
            decreases n - i,
        {
            let entry = self.nodes[i];
            proof {
                assert(self.nodes@.skip(i as int)[0] == self.nodes@[i as int]);
                assert(self.nodes@.skip(i as int).drop_first() =~= self.nodes@.skip(i + 1 as int));
            }
            if entry.node_id == node_id {
                return Some(entry.rect);
            }
            i = i + 1;
        }
        proof {
            assert(self.nodes@.skip(n as int) =~= Seq::<NodeGeometry>::empty());
        }
        None
    }

    /// Converts an absolute page position to a viewport-relative one,
    /// clamping at the viewport origin.
    pub fn client_from_page(&self, point: (u32, u32)) -> (r: (u32, u32))
        ensures
            r == self.spec_client_from_page(point),
    {
        let x = if point.0 >= self.viewport_x {
            point.0 - self.viewport_x
        } else {
            0
        };
        let y = if point.1 >= self.viewport_y {
            point.1 - self.viewport_y
        } else {
            0
        };
        (x, y)
    }
}

} // verus!
