//! The navigator: three panes side by side, and what each key does to them.
//!
//! The middle pane shows the current directory and carries the selection.
//! The left pane shows the directory above it, the right pane what is
//! selected. A key that moves the selection needs something read from the
//! disk first. The navigator says what (`State::request`), the caller reads
//! it, and the navigator then makes the move with what was read
//! (`State::update`). A move whose load did not arrive leaves everything as
//! it was.

use crate::error::SiuError;
use crate::files::{SiuDir, SiuDirView, SiuFileInfo, SiuFileInfoView};
use crate::path::{parent, path_parent};
use crate::pos::Pos;
use crate::ui::{
    cmd_views, pane_at, pane_cmds, DrawCmd, DrawCmdView, SiuWin, SiuWinView, PAIR_PLAIN,
};
use vstd::prelude::*;

verus! {

/// The key that moves to the directory above: `h`.
pub const KEY_LEFT: i32 = 104;

/// The key that moves the selection down: `j`.
pub const KEY_DOWN: i32 = 106;

/// The key that moves the selection up: `k`.
pub const KEY_UP: i32 = 107;

/// The key that moves into the selected directory: `l`.
pub const KEY_RIGHT: i32 = 108;

/// The key that ends the session: `q`.
pub const KEY_QUIT: i32 = 113;

/// The screen row in which the panes begin; the row above holds the header.
pub const START_TOP: i32 = 1;

/// The screen column in which the left pane begins.
pub const START_LEFT: i32 = 1;

/// The width of the left pane on a screen `w` columns wide: a fifth of it,
/// rounded towards zero.
pub open spec fn narrow_width(w: int) -> int {
    if w >= 0 {
        (w * 2) / 10
    } else {
        -((-w * 2) / 10)
    }
}

/// The width of the middle and of the right pane on a screen `w` columns
/// wide: two fifths of it, rounded towards zero.
pub open spec fn wide_width(w: int) -> int {
    if w >= 0 {
        (w * 4) / 10
    } else {
        -((-w * 4) / 10)
    }
}

/// Where the three panes stand on the screen: the corner and the size of
/// each.
#[derive(Clone, Copy, Debug)]
pub struct Layout {
    pub left_coord: Pos<i32>,
    pub left_dim: Pos<i32>,
    pub middle_coord: Pos<i32>,
    pub middle_dim: Pos<i32>,
    pub right_coord: Pos<i32>,
    pub right_dim: Pos<i32>,
}

/// The layout of a screen of `w` columns and `h` rows. The first row is the
/// header and the first column stays free. From there the left pane takes a
/// fifth of the columns, the middle pane and the right pane two fifths
/// each, and every pane takes all rows but the header.
pub open spec fn layout_of(w: i32, h: i32) -> Layout {
    let n = narrow_width(w as int);
    let m = wide_width(w as int);
    let rows = (h - START_TOP) as i32;
    Layout {
        left_coord: Pos { x: START_LEFT, y: START_TOP },
        left_dim: Pos { x: n as i32, y: rows },
        middle_coord: Pos { x: (START_LEFT + n) as i32, y: START_TOP },
        middle_dim: Pos { x: m as i32, y: rows },
        right_coord: Pos { x: (START_LEFT + n + m) as i32, y: START_TOP },
        right_dim: Pos { x: m as i32, y: rows },
    }
}

/// A fifth of `w`, rounded towards zero.
fn narrow(w: i32) -> (r: i32)
    ensures
        r == narrow_width(w as int),
        -0x2000_0000 <= r <= 0x2000_0000,
{
    let wide: i64 = w as i64;
    if wide >= 0 {
        ((wide * 2) / 10) as i32
    } else {
        (-((-wide * 2) / 10)) as i32
    }
}

/// Two fifths of `w`, rounded towards zero.
fn wide(w: i32) -> (r: i32)
    ensures
        r == wide_width(w as int),
        -0x3800_0000 <= r <= 0x3800_0000,
{
    let wide: i64 = w as i64;
    if wide >= 0 {
        ((wide * 4) / 10) as i32
    } else {
        (-((-wide * 4) / 10)) as i32
    }
}

/// The layout of a screen of `w` columns and `h` rows, see [`layout_of`].
pub fn layout(w: i32, h: i32) -> (places: Layout)
    requires
        h > i32::MIN,
    ensures
        places == layout_of(w, h),
        places.left_dim.x == narrow_width(w as int),
        places.middle_dim.x == wide_width(w as int),
        places.right_dim.x == wide_width(w as int),
        places.left_dim.y == h - 1,
{
    let n = narrow(w);
    let m = wide(w);
    let rows = h - START_TOP;
    Layout {
        left_coord: Pos::new(START_LEFT, START_TOP),
        left_dim: Pos::new(n, rows),
        middle_coord: Pos::new(START_LEFT + n, START_TOP),
        middle_dim: Pos::new(m, rows),
        right_coord: Pos::new(START_LEFT + n + m, START_TOP),
        right_dim: Pos::new(m, rows),
    }
}

/// What the navigator asks its caller to read: a directory's entries, or
/// with `preview` the beginning of a file.
#[derive(Debug)]
pub struct LoadRequest {
    pub path: String,
    pub preview: bool,
}

/// A request as a mathematical value.
pub struct LoadRequestView {
    pub path: Seq<char>,
    pub preview: bool,
}

impl View for LoadRequest {
    type V = LoadRequestView;

    open spec fn view(&self) -> LoadRequestView {
        LoadRequestView { path: self.path@, preview: self.preview }
    }
}

/// An optional request as a mathematical value.
pub open spec fn request_view(r: Option<LoadRequest>) -> Option<LoadRequestView> {
    match r {
        Some(r) => Some(r@),
        None => None,
    }
}

/// An optional listing as a mathematical value.
pub open spec fn dir_view(d: Option<SiuDir>) -> Option<SiuDirView> {
    match d {
        Some(d) => Some(d@),
        None => None,
    }
}

/// What has to be read to show the entry `e`: its directory, or its preview
/// where it is a file.
pub open spec fn entry_request(e: SiuFileInfoView) -> LoadRequestView {
    LoadRequestView { path: e.path, preview: e.is_file }
}

/// Whether what was loaded answers the request: something was read, for the
/// path asked, of the kind asked.
pub open spec fn fits(r: LoadRequestView, loaded: Option<SiuDirView>) -> bool {
    loaded matches Some(d) && d.path == r.path && d.is_preview() == r.preview
}

/// The listing of a pane that shows nothing: no entries, no path.
pub open spec fn cleared() -> SiuDirView {
    SiuDirView { dirs: Seq::empty(), path: Seq::empty(), content: None }
}

/// One picture of the navigator: the header above the panes, and what
/// each pane draws inside itself.
#[derive(Debug)]
pub struct Frame {
    pub header: DrawCmd,
    pub left: Vec<DrawCmd>,
    pub middle: Vec<DrawCmd>,
    pub right: Vec<DrawCmd>,
}

/// A picture as a mathematical value.
pub struct FrameView {
    pub header: DrawCmdView,
    pub left: Seq<DrawCmdView>,
    pub middle: Seq<DrawCmdView>,
    pub right: Seq<DrawCmdView>,
}

impl View for Frame {
    type V = FrameView;

    open spec fn view(&self) -> FrameView {
        FrameView {
            header: self.header@,
            left: cmd_views(self.left@),
            middle: cmd_views(self.middle@),
            right: cmd_views(self.right@),
        }
    }
}

/// What a pane draws, see [`pane_cmds`].
pub open spec fn drawn(pane: SiuWinView, preview: bool, sizes: bool) -> Seq<DrawCmdView> {
    pane_cmds(pane.dir, pane.idx.x as int, pane.dim.x as int, pane.dim.y as int, preview, sizes)
}

/// The navigator: its three panes and the size of the screen they were
/// laid out for.
#[derive(Debug)]
pub struct State {
    pub right_pane: SiuWin,
    pub middle_pane: SiuWin,
    pub left_pane: SiuWin,
    pub dim: Pos<i32>,
}

/// The navigator as a mathematical value.
pub struct StateView {
    pub right: SiuWinView,
    pub middle: SiuWinView,
    pub left: SiuWinView,
    pub dim: Pos<i32>,
}

impl View for State {
    type V = StateView;

    open spec fn view(&self) -> StateView {
        StateView {
            right: self.right_pane@,
            middle: self.middle_pane@,
            left: self.left_pane@,
            dim: self.dim,
        }
    }
}

impl StateView {
    /// Where the panes stand.
    pub open spec fn places(self) -> Layout {
        Layout {
            left_coord: self.left.coord,
            left_dim: self.left.dim,
            middle_coord: self.middle.coord,
            middle_dim: self.middle.dim,
            right_coord: self.right.coord,
            right_dim: self.right.dim,
        }
    }

    /// The navigator is well formed where each pane is, the left and the
    /// middle pane show directories, only the middle pane has its selection
    /// off the first entry, and the panes stand where the layout of the
    /// screen puts them.
    pub open spec fn wf(self) -> bool {
        &&& self.left.wf()
        &&& self.middle.wf()
        &&& self.right.wf()
        &&& !self.left.dir.is_preview()
        &&& !self.middle.dir.is_preview()
        &&& self.left.idx.x == 0
        &&& self.right.idx.x == 0
        &&& self.dim.y > i32::MIN
        &&& self.places() == layout_of(self.dim.x, self.dim.y)
    }

    /// The entries of the current directory.
    pub open spec fn entries(self) -> Seq<SiuFileInfoView> {
        self.middle.dir.dirs
    }

    /// The index of the selected entry.
    pub open spec fn cursor(self) -> int {
        self.middle.idx.x as int
    }

    /// The selected entry, where the current directory has entries.
    pub open spec fn selected(self) -> Option<SiuFileInfoView> {
        if self.cursor() < self.entries().len() {
            Some(self.entries()[self.cursor()])
        } else {
            None
        }
    }

    /// The right pane follows the selection: it shows the selected entry,
    /// as a preview where that is a file, or the current directory itself
    /// where that has no entries.
    pub open spec fn synced(self) -> bool {
        match self.selected() {
            Some(e) => fits(entry_request(e), Some(self.right.dir)),
            None => self.right.dir.path == self.middle.path && !self.right.dir.is_preview(),
        }
    }

    /// The left pane is the directory above: it shows the parent of the
    /// current directory, or nothing where there is no parent.
    pub open spec fn anchored(self) -> bool {
        match path_parent(self.middle.path) {
            Some(p) => self.left.path == p,
            None => self.left.dir.dirs.len() == 0,
        }
    }

    /// The selection can move down: an entry follows it.
    pub open spec fn can_down(self) -> bool {
        self.cursor() + 1 < self.entries().len()
    }

    /// The selection can move up: an entry precedes it.
    pub open spec fn can_up(self) -> bool {
        0 < self.cursor() < self.entries().len()
    }

    /// The navigator can move into the selection: a directory is selected
    /// and the right pane has entries.
    pub open spec fn can_right(self) -> bool {
        &&& self.selected() matches Some(e)
        &&& !e.is_file
        &&& self.right.dir.dirs.len() > 0
    }

    /// The navigator can move to the directory above: there is one.
    pub open spec fn can_left(self) -> bool {
        path_parent(self.middle.path) is Some
    }

    /// What has to be read before the key `ch` can do its work; `None`
    /// where the key needs nothing.
    pub open spec fn target(self, ch: int) -> Option<LoadRequestView> {
        if ch == KEY_DOWN && self.can_down() {
            Some(entry_request(self.entries()[self.cursor() + 1]))
        } else if ch == KEY_UP && self.can_up() {
            Some(entry_request(self.entries()[self.cursor() - 1]))
        } else if ch == KEY_RIGHT && self.can_right() {
            Some(entry_request(self.right.dir.dirs[0]))
        } else if ch == KEY_LEFT && self.can_left() {
            match path_parent(self.left.path) {
                Some(p) => Some(LoadRequestView { path: p, preview: false }),
                None => None,
            }
        } else {
            None
        }
    }

    /// The key `ch` is refused: it needs a load, and what was loaded does
    /// not answer it.
    pub open spec fn refused(self, ch: int, loaded: Option<SiuDirView>) -> bool {
        self.target(ch) matches Some(r) && !fits(r, loaded)
    }

    /// The selection on the entry `to`, the right pane showing `shown`.
    pub open spec fn stepped(self, to: usize, shown: SiuDirView) -> StateView {
        StateView {
            middle: self.middle.with_selection(to),
            right: self.right.with_dir(shown),
            ..self
        }
    }

    /// Every selection on the first entry.
    pub open spec fn rewound(self) -> StateView {
        StateView {
            left: self.left.with_selection(0),
            middle: self.middle.with_selection(0),
            right: self.right.with_selection(0),
            ..self
        }
    }

    /// One step into the selection: the left pane takes what the middle
    /// pane showed, the middle pane what the right pane showed, the right
    /// pane shows `shown`, and every selection is on the first entry.
    pub open spec fn turned_right(self, shown: SiuDirView) -> StateView {
        StateView {
            left: self.left.showing(self.middle).with_selection(0),
            middle: self.middle.showing(self.right).with_selection(0),
            right: self.right.with_dir(shown).with_selection(0),
            ..self
        }
    }

    /// One step to the directory above: the right pane takes what the
    /// middle pane showed, the middle pane what the left pane showed, the
    /// left pane shows `above`, and every selection is on the first entry.
    pub open spec fn turned_left(self, above: SiuDirView) -> StateView {
        StateView {
            left: self.left.with_dir(above).with_selection(0),
            middle: self.middle.showing(self.left).with_selection(0),
            right: self.right.showing(self.middle).with_selection(0),
            ..self
        }
    }

    /// The navigator after the key `ch`, where `loaded` is what the caller
    /// read for it.
    ///
    /// A key that is refused changes nothing, and so does a key that has
    /// nowhere to go, with one exception: the key to the left, where there
    /// is no directory above, still puts every selection on the first entry.
    pub open spec fn after(self, ch: int, loaded: Option<SiuDirView>) -> StateView {
        if self.refused(ch, loaded) {
            self
        } else if ch == KEY_DOWN && self.can_down() {
            self.stepped((self.cursor() + 1) as usize, loaded->0)
        } else if ch == KEY_UP && self.can_up() {
            self.stepped((self.cursor() - 1) as usize, loaded->0)
        } else if ch == KEY_RIGHT && self.can_right() {
            self.turned_right(loaded->0)
        } else if ch == KEY_LEFT {
            if !self.can_left() {
                self.rewound()
            } else if path_parent(self.left.path) is Some {
                self.turned_left(loaded->0)
            } else {
                self.turned_left(cleared())
            }
        } else {
            self
        }
    }

    /// The picture of the navigator: the path of the right pane in the
    /// header row, the left and the middle pane as listings with sizes, the
    /// right pane as the view of the selected entry.
    pub open spec fn frame(self) -> FrameView {
        FrameView {
            header: DrawCmdView {
                row: 0,
                col: START_LEFT as int,
                text: self.right.path,
                pair: PAIR_PLAIN as int,
            },
            left: drawn(self.left, false, true),
            middle: drawn(self.middle, false, true),
            right: drawn(self.right, self.selected() matches Some(e) && e.is_file, false),
        }
    }

    /// The panes at the places that a screen of `w` columns and `h` rows
    /// gives them. What they show stays.
    pub open spec fn resized(self, w: i32, h: i32) -> StateView {
        let l = layout_of(w, h);
        StateView {
            left: SiuWinView { coord: l.left_coord, dim: l.left_dim, ..self.left },
            middle: SiuWinView { coord: l.middle_coord, dim: l.middle_dim, ..self.middle },
            right: SiuWinView { coord: l.right_coord, dim: l.right_dim, ..self.right },
            dim: Pos { x: w, y: h },
        }
    }
}

/// What the right pane has to show when the navigator opens on `middle`:
/// the first entry, or the directory itself where it has no entries. It is
/// always asked for as a directory.
pub open spec fn opening_target(middle: SiuDirView) -> LoadRequestView {
    LoadRequestView {
        path: if middle.dirs.len() > 0 {
            middle.dirs[0].path
        } else {
            middle.path
        },
        preview: false,
    }
}

/// Whether the three loads let the navigator open: the current directory
/// was read; where it has a parent, the parent was read; and what the right
/// pane has to show was read. A first entry that is a file cannot be shown
/// as a directory, so no load answers for it.
pub open spec fn opens(
    left: Option<SiuDirView>,
    middle: Option<SiuDirView>,
    right: Option<SiuDirView>,
) -> bool {
    &&& middle matches Some(m)
    &&& !m.is_preview()
    &&& fits(opening_target(m), right)
    &&& m.dirs.len() > 0 ==> !m.dirs[0].is_file
    &&& path_parent(m.path) matches Some(p) ==> fits(
        LoadRequestView { path: p, preview: false },
        left,
    )
}

/// The navigator as it opens on a screen of `w` columns and `h` rows:
/// the panes at their places, the current directory in the middle, what
/// was loaded for its first entry on the right and its parent on the left,
/// or nothing on the left where it has no parent.
pub open spec fn opened(
    w: i32,
    h: i32,
    left: Option<SiuDirView>,
    middle: SiuDirView,
    right: SiuDirView,
) -> StateView {
    let l = layout_of(w, h);
    StateView {
        left: pane_at(
            l.left_coord,
            l.left_dim,
            if path_parent(middle.path) is Some {
                left->0
            } else {
                cleared()
            },
        ),
        middle: pane_at(l.middle_coord, l.middle_dim, middle),
        right: pane_at(l.right_coord, l.right_dim, right),
        dim: Pos { x: w, y: h },
    }
}

/// Whether each of the three loads is well formed, where there is one.
pub open spec fn all_wf(left: Option<SiuDir>, middle: Option<SiuDir>, right: Option<SiuDir>) -> bool {
    &&& left matches Some(d) ==> d.wf()
    &&& middle matches Some(d) ==> d.wf()
    &&& right matches Some(d) ==> d.wf()
}

/// Whether what was loaded is well formed, where something was.
pub open spec fn load_wf(loaded: Option<SiuDir>) -> bool {
    loaded matches Some(d) ==> d.wf()
}

/// Whether what was loaded answers a request for `path`.
fn answers(path: &String, preview: bool, loaded: &Option<SiuDir>) -> (r: bool)
    ensures
        r == fits(LoadRequestView { path: path@, preview }, dir_view(*loaded)),
{
    match loaded {
        Some(d) => d.path == *path && d.content.is_some() == preview,
        None => false,
    }
}

/// The request for what shows the entry `e`.
fn request_for(e: &SiuFileInfo) -> (r: LoadRequest)
    ensures
        r@ == entry_request(e@),
{
    LoadRequest { path: e.path.clone(), preview: e.is_file }
}

/// A listing without entries and without a path.
fn nothing() -> (d: SiuDir)
    ensures
        d@ == cleared(),
        d.wf(),
{
    let d = SiuDir { dirs: Vec::new(), path: String::new(), content: None };
    assert(d@.dirs =~= Seq::empty());
    d
}

impl State {
    /// Well-formedness of the navigator, see [`StateView::wf`].
    pub open spec fn wf(&self) -> bool {
        self@.wf()
    }

    /// What the left pane has to show when the navigator opens on the
    /// directory `path`: the parent of `path`. A path without a parent gives
    /// `NoParent`; the left pane then shows nothing.
    pub fn opening_parent(path: &str) -> (r: Result<LoadRequest, SiuError>)
        ensures
            match path_parent(path@) {
                Some(p) => r matches Ok(req) && req@ == (LoadRequestView {
                    path: p,
                    preview: false,
                }),
                None => r matches Err(e) && e == SiuError::NoParent,
            },
    {
        match parent(path) {
            Some(p) => Ok(LoadRequest { path: p, preview: false }),
            None => Err(SiuError::NoParent),
        }
    }

    /// What the right pane has to show when the navigator opens on the
    /// directory `middle`, see [`opening_target`].
    pub fn opening_child(middle: &SiuDir) -> (r: LoadRequest)
        ensures
            r@ == opening_target(middle@),
    {
        if middle.dirs.len() > 0 {
            LoadRequest { path: middle.dirs[0].path.clone(), preview: false }
        } else {
            LoadRequest { path: middle.path.clone(), preview: false }
        }
    }

    /// The navigator on a screen of `w` columns and `h` rows, from the three
    /// loads it opens with: the current directory `middle`, its parent
    /// `left` and its first entry `right`.
    ///
    /// It opens exactly where the loads are the ones it needs, see
    /// [`opens`]; the answer is `NotReadable` otherwise. Once open, the
    /// right pane follows the selection and the left pane is the directory
    /// above.
    pub fn new(
        w: i32,
        h: i32,
        left: Option<SiuDir>,
        middle: Option<SiuDir>,
        right: Option<SiuDir>,
    ) -> (made: Result<Self, SiuError>)
        requires
            h > i32::MIN,
        ensures
            made is Ok == opens(dir_view(left), dir_view(middle), dir_view(right)),
            made matches Ok(s) ==> {
                &&& s@ == opened(w, h, dir_view(left), middle->0@, right->0@)
                &&& s@.synced()
                &&& s@.anchored()
                &&& all_wf(left, middle, right) ==> s.wf()
            },
            made matches Err(e) ==> e == SiuError::NotReadable,
    {
        let places = layout(w, h);
        let current = match middle {
            Some(m) => m,
            None => {
                return Err(SiuError::NotReadable);
            },
        };
        if current.content.is_some() {
            return Err(SiuError::NotReadable);
        }
        let child = Self::opening_child(&current);
        if !answers(&child.path, false, &right) {
            return Err(SiuError::NotReadable);
        }
        if current.dirs.len() > 0 && current.dirs[0].is_file {
            return Err(SiuError::NotReadable);
        }
        let above = match parent(current.path.as_str()) {
            Some(p) => {
                if !answers(&p, false, &left) {
                    return Err(SiuError::NotReadable);
                }
                left
            },
            None => Some(nothing()),
        };
        let left_pane = match SiuWin::new(places.left_coord, places.left_dim, above) {
            Ok(pane) => pane,
            Err(e) => {
                return Err(e);
            },
        };
        let middle_pane = match SiuWin::new(places.middle_coord, places.middle_dim, Some(current)) {
            Ok(pane) => pane,
            Err(e) => {
                return Err(e);
            },
        };
        let right_pane = match SiuWin::new(places.right_coord, places.right_dim, right) {
            Ok(pane) => pane,
            Err(e) => {
                return Err(e);
            },
        };
        Ok(State { dim: Pos::new(w, h), right_pane, middle_pane, left_pane })
    }

    /// What the caller has to read before the key `ch` can do its work, see
    /// [`StateView::target`]; `None` where the key needs nothing read.
    pub fn request(&self, ch: i32) -> (r: Option<LoadRequest>)
        ensures
            request_view(r) == self@.target(ch as int),
    {
        let len = self.middle_pane.dir.dirs.len();
        let at = self.middle_pane.idx.x;
        if ch == KEY_DOWN {
            if at < len && at + 1 < len {
                Some(request_for(&self.middle_pane.dir.dirs[at + 1]))
            } else {
                None
            }
        } else if ch == KEY_UP {
            if 0 < at && at < len {
                Some(request_for(&self.middle_pane.dir.dirs[at - 1]))
            } else {
                None
            }
        } else if ch == KEY_RIGHT {
            if at < len && !self.middle_pane.dir.dirs[at].is_file
                && self.right_pane.dir.dirs.len() > 0 {
                Some(request_for(&self.right_pane.dir.dirs[0]))
            } else {
                None
            }
        } else if ch == KEY_LEFT {
            match parent(self.middle_pane.path.as_str()) {
                Some(_) => match parent(self.left_pane.path.as_str()) {
                    Some(p) => Some(LoadRequest { path: p, preview: false }),
                    None => None,
                },
                None => None,
            }
        } else {
            None
        }
    }

    /// Puts every selection on the first entry.
    fn rewind(&mut self)
        ensures
            final(self)@ == old(self)@.rewound(),
    {
        self.middle_pane.idx.x = 0;
        self.left_pane.idx.x = 0;
        self.right_pane.idx.x = 0;
    }

    /// Moves the selection one entry down and shows what was loaded for
    /// that entry in the right pane.
    ///
    /// On the last entry, and in an empty directory, nothing happens. Where
    /// the load does not answer the request, nothing changes and the
    /// answer is `NotReadable`.
    pub fn handle_movment_down(&mut self, loaded: Option<SiuDir>) -> (done: Result<(), SiuError>)
        ensures
            final(self)@ == old(self)@.after(KEY_DOWN as int, dir_view(loaded)),
            done is Err == old(self)@.refused(KEY_DOWN as int, dir_view(loaded)),
            done matches Err(e) ==> e == SiuError::NotReadable,
            old(self).wf() && load_wf(loaded) ==> final(self).wf(),
            done is Ok && old(self)@.can_down() ==> final(self)@.synced(),
    {
        let len = self.middle_pane.dir.dirs.len();
        let at = self.middle_pane.idx.x;
        if at < len && at + 1 < len {
            let next = &self.middle_pane.dir.dirs[at + 1];
            if !answers(&next.path, next.is_file, &loaded) {
                return Err(SiuError::NotReadable);
            }
            match loaded {
                Some(dir) => {
                    self.right_pane.show(dir);
                    self.middle_pane.idx.x = at + 1;
                },
                None => {},
            }
        }
        Ok(())
    }

    /// Moves the selection one entry up and shows what was loaded for that
    /// entry in the right pane.
    ///
    /// On the first entry nothing happens. Where the load does not answer
    /// the request, nothing changes and the answer is `NotReadable`.
    pub fn handle_movment_up(&mut self, loaded: Option<SiuDir>) -> (done: Result<(), SiuError>)
        ensures
            final(self)@ == old(self)@.after(KEY_UP as int, dir_view(loaded)),
            done is Err == old(self)@.refused(KEY_UP as int, dir_view(loaded)),
            done matches Err(e) ==> e == SiuError::NotReadable,
            old(self).wf() && load_wf(loaded) ==> final(self).wf(),
            done is Ok && old(self)@.can_up() ==> final(self)@.synced(),
    {
        let len = self.middle_pane.dir.dirs.len();
        let at = self.middle_pane.idx.x;
        if 0 < at && at < len {
            let previous = &self.middle_pane.dir.dirs[at - 1];
            if !answers(&previous.path, previous.is_file, &loaded) {
                return Err(SiuError::NotReadable);
            }
            match loaded {
                Some(dir) => {
                    self.right_pane.show(dir);
                    self.middle_pane.idx.x = at - 1;
                },
                None => {},
            }
        }
        Ok(())
    }

    /// Moves into the selected directory: the panes hand their listings
    /// one place to the left, and the right pane shows what was loaded for
    /// the first entry of the new current directory.
    ///
    /// Where a file is selected, or the selected directory is empty,
    /// nothing happens. Where the load does not answer the request, nothing
    /// changes and the answer is `NotReadable`.
    pub fn handle_movment_right(&mut self, loaded: Option<SiuDir>) -> (done: Result<(), SiuError>)
        ensures
            final(self)@ == old(self)@.after(KEY_RIGHT as int, dir_view(loaded)),
            done is Err == old(self)@.refused(KEY_RIGHT as int, dir_view(loaded)),
            done matches Err(e) ==> e == SiuError::NotReadable,
            old(self).wf() && load_wf(loaded) ==> final(self).wf(),
            done is Ok && old(self)@.can_right() ==> final(self)@.synced(),
            !old(self)@.can_right() ==> done is Ok && final(self)@ == old(self)@,
    {
        let len = self.middle_pane.dir.dirs.len();
        let at = self.middle_pane.idx.x;
        if at < len && !self.middle_pane.dir.dirs[at].is_file && self.right_pane.dir.dirs.len()
            > 0 {
            let first = &self.right_pane.dir.dirs[0];
            if !answers(&first.path, first.is_file, &loaded) {
                return Err(SiuError::NotReadable);
            }
            match loaded {
                Some(dir) => {
                    self.rewind();
                    std::mem::swap(&mut self.middle_pane.dir, &mut self.right_pane.dir);
                    std::mem::swap(&mut self.middle_pane.path, &mut self.right_pane.path);
                    std::mem::swap(&mut self.right_pane.dir, &mut self.left_pane.dir);
                    std::mem::swap(&mut self.right_pane.path, &mut self.left_pane.path);
                    self.right_pane.show(dir);
                },
                None => {},
            }
        }
        Ok(())
    }

    /// Moves to the directory above: the panes hand their listings one
    /// place to the right, and the left pane shows what was loaded for the
    /// parent of the new current directory, or nothing where that has no
    /// parent.
    ///
    /// Where the current directory has no parent, only the selections go
    /// back to the first entry. Where the load does not answer the request,
    /// nothing changes and the answer is `NotReadable`.
    pub fn handle_movment_left(&mut self, loaded: Option<SiuDir>) -> (done: Result<(), SiuError>)
        ensures
            final(self)@ == old(self)@.after(KEY_LEFT as int, dir_view(loaded)),
            done is Err == old(self)@.refused(KEY_LEFT as int, dir_view(loaded)),
            done matches Err(e) ==> e == SiuError::NotReadable,
            old(self).wf() && load_wf(loaded) ==> final(self).wf(),
            done is Ok && old(self)@.can_left() ==> final(self)@.anchored(),
    {
        if parent(self.middle_pane.path.as_str()).is_none() {
            self.rewind();
            return Ok(());
        }
        let above = match parent(self.left_pane.path.as_str()) {
            Some(p) => {
                if !answers(&p, false, &loaded) {
                    return Err(SiuError::NotReadable);
                }
                match loaded {
                    Some(dir) => dir,
                    None => nothing(),
                }
            },
            None => nothing(),
        };
        self.rewind();
        std::mem::swap(&mut self.middle_pane.dir, &mut self.left_pane.dir);
        std::mem::swap(&mut self.middle_pane.path, &mut self.left_pane.path);
        std::mem::swap(&mut self.right_pane.dir, &mut self.left_pane.dir);
        std::mem::swap(&mut self.right_pane.path, &mut self.left_pane.path);
        self.left_pane.show(above);
        Ok(())
    }

    /// Takes the key `ch`, with what the caller read for it, see
    /// [`State::request`].
    ///
    /// The four movement keys move as their handlers say, `q` and every
    /// other key leave the navigator as it is. The answer is `Ok(false)`
    /// after `q`, when the session is over, and `Ok(true)` after every other
    /// key; or `NotReadable` where a movement key was refused, and then
    /// nothing has changed and the session goes on.
    pub fn update(&mut self, ch: i32, loaded: Option<SiuDir>) -> (done: Result<bool, SiuError>)
        ensures
            final(self)@ == old(self)@.after(ch as int, dir_view(loaded)),
            done is Err == old(self)@.refused(ch as int, dir_view(loaded)),
            done matches Ok(go) ==> go == (ch != KEY_QUIT),
            done matches Err(e) ==> e == SiuError::NotReadable,
            old(self).wf() && load_wf(loaded) ==> final(self).wf(),
    {
        let moved = if ch == KEY_LEFT {
            self.handle_movment_left(loaded)
        } else if ch == KEY_DOWN {
            self.handle_movment_down(loaded)
        } else if ch == KEY_UP {
            self.handle_movment_up(loaded)
        } else if ch == KEY_RIGHT {
            self.handle_movment_right(loaded)
        } else {
            Ok(())
        };
        match moved {
            Ok(()) => Ok(ch != KEY_QUIT),
            Err(e) => Err(e),
        }
    }

    /// Lays the panes out anew where the screen is no longer `w` columns by
    /// `h` rows, and says whether it did. What the panes show and what is
    /// selected stay as they are: nothing has to be read.
    pub fn resize(&mut self, w: i32, h: i32) -> (changed: bool)
        requires
            h > i32::MIN,
        ensures
            changed == (w != old(self).dim.x || h != old(self).dim.y),
            changed ==> final(self)@ == old(self)@.resized(w, h),
            !changed ==> final(self)@ == old(self)@,
            old(self).wf() ==> final(self).wf(),
    {
        if w != self.dim.x || h != self.dim.y {
            let places = layout(w, h);
            self.left_pane.change_dim(places.left_coord, places.left_dim);
            self.middle_pane.change_dim(places.middle_coord, places.middle_dim);
            self.right_pane.change_dim(places.right_coord, places.right_dim);
            self.dim = Pos::new(w, h);
            true
        } else {
            false
        }
    }

    /// What the navigator draws: the path of the right pane as the header,
    /// the left and the middle pane as listings, and the right pane as the
    /// view of the selected entry, a preview where that is a file.
    pub fn display(&self) -> (frame: Frame)
        ensures
            frame@ == self@.frame(),
    {
        let at = self.middle_pane.idx.x;
        let is_file = at < self.middle_pane.dir.dirs.len() && self.middle_pane.dir.dirs[at].is_file;
        Frame {
            header: DrawCmd {
                row: 0,
                col: START_LEFT,
                text: self.right_pane.path.clone(),
                pair: PAIR_PLAIN,
            },
            left: self.left_pane.display(),
            middle: self.middle_pane.display(),
            right: self.right_pane.display_right(is_file),
        }
    }
}

/// A key keeps a well-formed navigator well formed, whatever was loaded
/// for it.
pub proof fn lemma_after_keeps_wf(s: StateView, ch: int, loaded: Option<SiuDirView>)
    requires
        s.wf(),
        loaded matches Some(d) ==> d.wf(),
    ensures
        s.after(ch, loaded).wf(),
{
    assert(cleared().dirs.len() == 0);
}

/// A key that is refused changes nothing, and neither does a key that is
/// none of the four movement keys.
pub proof fn lemma_refused_changes_nothing(s: StateView, ch: int, loaded: Option<SiuDirView>)
    requires
        s.refused(ch, loaded) || (ch != KEY_LEFT && ch != KEY_DOWN && ch != KEY_UP && ch
            != KEY_RIGHT),
    ensures
        s.after(ch, loaded) == s,
{
}

/// At the ends of the listing the selection stays: down on the last entry
/// and up on the first one change nothing and ask for nothing.
pub proof fn lemma_ends_stay(s: StateView, loaded: Option<SiuDirView>)
    requires
        s.wf(),
    ensures
        s.cursor() + 1 >= s.entries().len() ==> s.after(KEY_DOWN as int, loaded) == s && s.target(
            KEY_DOWN as int,
        ) is None,
        s.cursor() == 0 ==> s.after(KEY_UP as int, loaded) == s && s.target(KEY_UP as int)
            is None,
{
}

/// After a move of the selection that took place, down, up or into a
/// directory, the right pane follows the selection.
pub proof fn lemma_move_syncs(s: StateView, ch: int, loaded: Option<SiuDirView>)
    requires
        s.wf(),
        ch == KEY_DOWN || ch == KEY_UP || ch == KEY_RIGHT,
        s.target(ch) matches Some(r) && fits(r, loaded),
    ensures
        s.after(ch, loaded).synced(),
{
}

/// After a move to the directory above that took place, the left pane is
/// the directory above the new current directory; and moving the selection
/// up or down does not change what is above.
pub proof fn lemma_left_anchors(s: StateView, ch: int, loaded: Option<SiuDirView>)
    requires
        s.wf(),
    ensures
        ch == KEY_LEFT && s.can_left() && !s.refused(ch, loaded) ==> s.after(ch, loaded).anchored(),
        (ch == KEY_DOWN || ch == KEY_UP) && s.anchored() ==> s.after(ch, loaded).anchored(),
{
    assert(cleared().dirs.len() == 0);
}

/// After a move into the selection that took place, the left pane is the
/// directory above the new current directory, provided that the right pane
/// followed the selection and that the selected entry lies in the current
/// directory, as the entries of a directory read from a disk do.
pub proof fn lemma_right_anchors(s: StateView, loaded: Option<SiuDirView>)
    requires
        s.wf(),
        s.synced(),
        s.can_right(),
        !s.refused(KEY_RIGHT as int, loaded),
        path_parent(s.selected()->0.path) == Some(s.middle.path),
    ensures
        s.after(KEY_RIGHT as int, loaded).anchored(),
{
}

/// Down and then up again leads back: where both moves took place, the
/// selection and the current directory are as before, and the right pane
/// was asked to show, and shows, the entry that was selected before. Where
/// the right pane followed the selection before, it has the same path and
/// is of the same kind as before; and where the second load brought what
/// the right pane showed before, the navigator is as a whole what it was.
pub proof fn lemma_down_up_round_trip(
    s: StateView,
    down: Option<SiuDirView>,
    up: Option<SiuDirView>,
)
    requires
        s.wf(),
        s.can_down(),
        !s.refused(KEY_DOWN as int, down),
        !s.after(KEY_DOWN as int, down).refused(KEY_UP as int, up),
    ensures
        ({
            let there = s.after(KEY_DOWN as int, down);
            let back = there.after(KEY_UP as int, up);
            &&& there.cursor() == s.cursor() + 1
            &&& there.target(KEY_UP as int) == Some(entry_request(s.entries()[s.cursor()]))
            &&& back.middle == s.middle
            &&& back.left == s.left
            &&& back.synced()
            &&& s.synced() ==> back.right.path == s.right.path && back.right.dir.is_preview()
                == s.right.dir.is_preview()
            &&& up == Some(s.right.dir) ==> back == s
        }),
{
    let there = s.after(KEY_DOWN as int, down);
    assert(there == s.stepped((s.cursor() + 1) as usize, down->0));
    assert(there.can_up());
    let back = there.after(KEY_UP as int, up);
    assert(back == there.stepped(s.cursor() as usize, up->0));
    assert(back.middle.idx == s.middle.idx);
}

/// To move into the selection changes nothing, and is no failure, where a
/// file is selected, where the directory that the right pane shows is
/// empty, and where nothing is selected at all.
pub proof fn lemma_right_stays(s: StateView, loaded: Option<SiuDirView>)
    requires
        (s.selected() matches Some(e) ==> e.is_file) || s.right.dir.dirs.len() == 0,
    ensures
        s.after(KEY_RIGHT as int, loaded) == s,
        !s.refused(KEY_RIGHT as int, loaded),
{
}

/// To move to the directory above never fails for want of a parent. Where
/// the current directory has none, the left pane keeps its listing, which
/// is empty if the left pane was the directory above. Where the directory
/// above has none, the move takes place and the left pane shows nothing.
pub proof fn lemma_left_without_parent(s: StateView, loaded: Option<SiuDirView>)
    requires
        s.wf(),
        path_parent(s.middle.path) is None || path_parent(s.left.path) is None,
    ensures
        !s.refused(KEY_LEFT as int, loaded),
        path_parent(s.middle.path) is None ==> s.after(KEY_LEFT as int, loaded).left.dir
            == s.left.dir,
        path_parent(s.middle.path) is None && s.anchored() ==> s.after(
            KEY_LEFT as int,
            loaded,
        ).left.dir.dirs.len() == 0,
        path_parent(s.middle.path) is Some ==> s.after(KEY_LEFT as int, loaded).left.dir
            == cleared(),
        path_parent(s.middle.path) is Some ==> s.after(KEY_LEFT as int, loaded).middle.dir
            == s.left.dir,
{
    assert(cleared().dirs.len() == 0);
}

/// A new size of the screen moves the panes and nothing else: every pane
/// shows what it showed, with the selection where it was.
pub proof fn lemma_resize_keeps_content(s: StateView, w: i32, h: i32)
    ensures
        s.resized(w, h).left.dir == s.left.dir,
        s.resized(w, h).middle.dir == s.middle.dir,
        s.resized(w, h).right.dir == s.right.dir,
        s.resized(w, h).left.idx == s.left.idx,
        s.resized(w, h).middle.idx == s.middle.idx,
        s.resized(w, h).right.idx == s.right.idx,
        s.resized(w, h).places() == layout_of(w, h),
{
}

} // verus!
