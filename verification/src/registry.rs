//! The registry of live windows a connection owns.
//!
//! Windows are stored in an arena owned by the connection and referenced by
//! numeric id from everywhere else. Ids are unique; removal is idempotent, so
//! a late native event addressing an already-removed id resolves to nothing
//! instead of failing.

use vstd::prelude::*;

use crate::event::WindowState;

verus! {

/// The portable per-window state every backend tracks.
#[derive(Clone, Copy, Debug, PartialEq, Eq, Structural)]
pub struct WindowRecord {
    /// Stable identifier used for event correlation.
    pub id: u64,
    /// Client-area width in pixels.
    pub width: u32,
    /// Client-area height in pixels.
    pub height: u32,
    /// Width of the presentation buffer.
    pub buf_width: u32,
    /// Height of the presentation buffer, client area plus any client-drawn
    /// title bar.
    pub buf_height: u32,
    /// Last state-change notification recorded for this window.
    pub state: WindowState,
    /// Height of the client-drawn title bar, 0 where the system decorates.
    pub titlebar: u32,
}

impl WindowRecord {
    /// The presentation buffer always matches the last acknowledged client
    /// size, title bar included.
    pub open spec fn wf(self) -> bool {
        &&& self.buf_width == self.width
        &&& self.buf_height == self.height as int + self.titlebar as int
    }

    /// A fresh window record with its initial buffer allocated to the
    /// requested client area.
    pub fn new(id: u64, width: u32, height: u32, titlebar: u32) -> (res: WindowRecord)
        requires
            height as int + titlebar as int <= u32::MAX as int,
        ensures
            res.wf(),
            res.id == id,
            res.width == width,
            res.height == height,
            res.titlebar == titlebar,
            res.state == WindowState::Suspended,
    {
        WindowRecord {
            id,
            width,
            height,
            buf_width: width,
            buf_height: height + titlebar,
            state: WindowState::Suspended,
            titlebar,
        }
    }

    /// Applies an acknowledged resize and reallocates the buffer to match.
    /// A request with a zero width or height is ignored: native transports
    /// send such values transiently, and the buffer must stay unchanged.
    pub fn resize(&mut self, width: u32, height: u32)
        requires
            old(self).wf(),
            width != 0 && height != 0 ==> height as int + old(self).titlebar as int <= u32::MAX
                as int,
        ensures
            final(self).wf(),
            width == 0 || height == 0 ==> *final(self) == *old(self),
            width != 0 && height != 0 ==> *final(self) == (WindowRecord {
                width,
                height,
                buf_width: width,
                buf_height: (height + old(self).titlebar) as u32,
                ..*old(self)
            }),
    {
        if width == 0 || height == 0 {
            return ;
        }
        self.width = width;
        self.height = height;
        self.buf_width = width;
        self.buf_height = height + self.titlebar;
    }
}

/// Index of the first record at or after `i` with the given id, or -1.
pub open spec fn find_window(s: Seq<WindowRecord>, id: u64, i: int) -> int
    decreases s.len() - i,
{
    if i < 0 || i >= s.len() {
        -1
    } else if s[i].id == id {
        i
    } else {
        find_window(s, id, i + 1)
    }
}

proof fn lemma_find_window_hit(s: Seq<WindowRecord>, id: u64, lo: int, i: int)
    requires
        0 <= lo <= i < s.len(),
        forall|j: int| lo <= j < i ==> s[j].id != id,
        s[i].id == id,
    ensures
        find_window(s, id, lo) == i,
    decreases i - lo,
{
    if lo < i {
        lemma_find_window_hit(s, id, lo + 1, i);
    }
}

proof fn lemma_find_window_miss(s: Seq<WindowRecord>, id: u64, lo: int)
    requires
        0 <= lo,
        forall|j: int| lo <= j < s.len() ==> s[j].id != id,
    ensures
        find_window(s, id, lo) == -1,
    decreases s.len() - lo,
{
    if lo < s.len() {
        lemma_find_window_miss(s, id, lo + 1);
    }
}

/// The arena of live windows, keyed by id.
pub struct Registry {
    pub windows: Vec<WindowRecord>,
}

impl Registry {
    /// Ids are unique and every record is well formed.
    pub open spec fn wf(self) -> bool {
        &&& forall|i: int, j: int|
            0 <= i < j < self.windows@.len() ==> self.windows@[i].id != self.windows@[j].id
        &&& forall|i: int| 0 <= i < self.windows@.len() ==> (#[trigger] self.windows@[i]).wf()
    }

    /// Index of the record with the given id, or -1.
    pub open spec fn index_of(self, id: u64) -> int {
        find_window(self.windows@, id, 0)
    }

    /// Whether a live window has this id.
    pub open spec fn has_window(self, id: u64) -> bool {
        self.index_of(id) >= 0
    }

    /// The record of the window with this id.
    pub open spec fn record_of(self, id: u64) -> WindowRecord {
        self.windows@[self.index_of(id)]
    }

    /// Every id is below the largest representable id, so a fresh id exists.
    pub open spec fn ids_below_max(self) -> bool {
        forall|i: int| 0 <= i < self.windows@.len() ==> (#[trigger] self.windows@[i]).id
            < u64::MAX
    }

    pub fn new() -> (res: Registry)
        ensures
            res.wf(),
            res.windows@.len() == 0,
    {
        Registry { windows: Vec::new() }
    }

    pub fn len(&self) -> (res: usize)
        ensures
            res == self.windows@.len(),
    {
        self.windows.len()
    }

    /// The dispatch loop terminates once this holds.
    pub fn is_empty(&self) -> (res: bool)
        ensures
            res == (self.windows@.len() == 0),
    {
        self.windows.len() == 0
    }

    /// Looks an id up; `None` exactly when no live window has it.
    pub fn find(&self, id: u64) -> (res: Option<usize>)
        ensures
            res matches Some(i) ==> self.index_of(id) == i as int && i < self.windows@.len()
                && self.windows@[i as int].id == id,
            res is None <==> !self.has_window(id),
    {
        let n = self.windows.len();
        let mut i: usize = 0;
        while i < n
            invariant
                n == self.windows@.len(),
                i <= n,
                forall|j: int| 0 <= j < i as int ==> self.windows@[j].id != id,
            decreases n - i,
        {
            if self.windows[i].id == id {
                proof {
                    lemma_find_window_hit(self.windows@, id, 0, i as int);
                }
                return Some(i);
            }
            i = i + 1;
        }
        proof {
            lemma_find_window_miss(self.windows@, id, 0);
        }
        None
    }

    /// Binds a new window under a fresh id (one above the largest id in use)
    /// and returns that id.
    pub fn insert_new(&mut self, width: u32, height: u32, titlebar: u32) -> (id: u64)
        requires
            old(self).wf(),
            old(self).ids_below_max(),
            height as int + titlebar as int <= u32::MAX as int,
        ensures
            final(self).wf(),
            !old(self).has_window(id),
            final(self).windows@ == old(self).windows@.push(
                (WindowRecord {
                    id,
                    width,
                    height,
                    buf_width: width,
                    buf_height: (height + titlebar) as u32,
                    state: WindowState::Suspended,
                    titlebar,
                }),
            ),
            final(self).has_window(id),
            final(self).record_of(id) == (WindowRecord {
                id,
                width,
                height,
                buf_width: width,
                buf_height: (height + titlebar) as u32,
                state: WindowState::Suspended,
                titlebar,
            }),
    {
        let n = self.windows.len();
        let mut max: u64 = 0;
        let mut i: usize = 0;
        while i < n
            invariant
                n == self.windows@.len(),
                i <= n,
                old(self).ids_below_max(),
                self.windows@ == old(self).windows@,
                max < u64::MAX,
                forall|j: int| 0 <= j < i as int ==> (#[trigger] self.windows@[j]).id <= max,
            decreases n - i,
        {
            if self.windows[i].id > max {
                max = self.windows[i].id;
            }
            i = i + 1;
        }
        let id = max + 1;
        let rec = WindowRecord::new(id, width, height, titlebar);
        proof {
            assert(forall|j: int|
                0 <= j < self.windows@.len() ==> (#[trigger] self.windows@[j]).id != id);
            lemma_find_window_miss(self.windows@, id, 0);
        }
        self.windows.push(rec);
        proof {
            lemma_find_window_hit(self.windows@, id, 0, self.windows@.len() - 1);
        }
        id
    }

    /// Replaces the record at a known index; the id must stay what it was.
    pub fn update_at(&mut self, i: usize, rec: WindowRecord)
        requires
            old(self).wf(),
            i < old(self).windows@.len(),
            rec.id == old(self).windows@[i as int].id,
            rec.wf(),
        ensures
            final(self).wf(),
            final(self).windows@ == old(self).windows@.update(i as int, rec),
    {
        self.windows[i] = rec;
    }

    /// Removes the window with this id; removal is idempotent, an id no live
    /// window has resolves to nothing and nothing changes.
    pub fn remove(&mut self, id: u64)
        requires
            old(self).wf(),
        ensures
            final(self).wf(),
            !final(self).has_window(id),
            !old(self).has_window(id) ==> final(self).windows@ == old(self).windows@,
            old(self).has_window(id) ==> final(self).windows@ == old(self).windows@.remove(
                old(self).index_of(id),
            ),
            forall|other: u64|
                other != id ==> (final(self).has_window(other) <==> old(self).has_window(other)),
            forall|other: u64|
                other != id && old(self).has_window(other) ==> final(self).record_of(other) == old(
                    self,
                ).record_of(other),
    {
        match self.find(id) {
            Some(i) => {
                self.windows.remove(i);
                proof {
                    lemma_remove_keeps_others(old(self).windows@, self.windows@, i as int, id);
                }
            },
            None => {},
        }
    }
}

/// After removing the one record with the removed id, every other id resolves
/// to the record it resolved to before.
proof fn lemma_remove_keeps_others(pre: Seq<WindowRecord>, post: Seq<WindowRecord>, i: int, id: u64)
    requires
        0 <= i < pre.len(),
        pre[i].id == id,
        forall|a: int, b: int| 0 <= a < b < pre.len() ==> pre[a].id != pre[b].id,
        post == pre.remove(i),
    ensures
        find_window(post, id, 0) == -1,
        forall|other: u64|
            other != id ==> ((find_window(post, other, 0) >= 0) <==> (find_window(pre, other, 0)
                >= 0)),
        forall|other: u64|
            other != id && find_window(pre, other, 0) >= 0 ==> post[find_window(post, other, 0)]
                == pre[find_window(pre, other, 0)],
{
    assert forall|j: int| 0 <= j < post.len() implies post[j].id != id by {
        if j < i {
        } else {
            assert(post[j] == pre[j + 1]);
        }
    }
    lemma_find_window_miss(post, id, 0);
    assert forall|other: u64| other != id implies ((find_window(post, other, 0) >= 0) <==> (
    find_window(pre, other, 0) >= 0)) && (find_window(pre, other, 0) >= 0 ==> post[find_window(
        post,
        other,
        0,
    )] == pre[find_window(pre, other, 0)]) by {
        lemma_find_window_complete(pre, other, 0);
        lemma_find_window_complete(post, other, 0);
        if find_window(pre, other, 0) >= 0 {
            let k = find_window(pre, other, 0);
            lemma_find_window_found(pre, other, 0);
            let k2: int = if k < i {
                k
            } else {
                k - 1
            };
            assert(post[k2] == pre[k]);
            assert(find_window(post, other, 0) >= 0) by {
                lemma_find_window_complete(post, other, 0);
                assert(post[k2].id == other);
            }
            let m = find_window(post, other, 0);
            lemma_find_window_found(post, other, 0);
            let pre_m: int = if m < i {
                m
            } else {
                m + 1
            };
            assert(post[m] == pre[pre_m]);
            assert(pre[pre_m].id == other);
            assert(pre_m == k);
        } else {
            if find_window(post, other, 0) >= 0 {
                let m = find_window(post, other, 0);
                lemma_find_window_found(post, other, 0);
                let pre_m: int = if m < i {
                    m
                } else {
                    m + 1
                };
                assert(post[m] == pre[pre_m]);
                lemma_find_window_complete(pre, other, 0);
                assert(false);
            }
        }
    }
}

/// Every record keeps its title-bar height when one record is removed: a
/// backend's per-window invariants survive a removal.
pub proof fn lemma_titlebar_after_remove(
    pre: Seq<WindowRecord>,
    post: Seq<WindowRecord>,
    idx: int,
    titlebar: u32,
)
    requires
        0 <= idx < pre.len(),
        post == pre.remove(idx),
        forall|i: int| 0 <= i < pre.len() ==> (#[trigger] pre[i]).titlebar == titlebar,
    ensures
        forall|i: int| 0 <= i < post.len() ==> (#[trigger] post[i]).titlebar == titlebar,
{
    assert forall|i: int| 0 <= i < post.len() implies (#[trigger] post[i]).titlebar
        == titlebar by {
        if i < idx {
            assert(post[i] == pre[i]);
        } else {
            assert(post[i] == pre[i + 1]);
        }
    }
}

/// If some record at or after `lo` carries the id, the search finds one.
proof fn lemma_find_window_complete(s: Seq<WindowRecord>, id: u64, lo: int)
    requires
        0 <= lo,
    ensures
        (exists|j: int| lo <= j < s.len() && s[j].id == id) ==> find_window(s, id, lo) >= 0,
        find_window(s, id, lo) == -1 ==> (forall|j: int| lo <= j < s.len() ==> s[j].id != id),
    decreases s.len() - lo,
{
    if lo < s.len() {
        lemma_find_window_complete(s, id, lo + 1);
    }
}

/// What the search returns, when it returns an index: the first hit.
pub proof fn lemma_find_window_found(s: Seq<WindowRecord>, id: u64, lo: int)
    requires
        0 <= lo,
        find_window(s, id, lo) >= 0,
    ensures
        lo <= find_window(s, id, lo) < s.len(),
        s[find_window(s, id, lo)].id == id,
        forall|j: int| lo <= j < find_window(s, id, lo) ==> s[j].id != id,
    decreases s.len() - lo,
{
    if lo < s.len() && s[lo].id != id {
        lemma_find_window_found(s, id, lo + 1);
    }
}

} // verus!
