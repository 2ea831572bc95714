//! A pane: a listing, a selection in it and a place on the screen, together
//! with what the pane draws.

use crate::error::SiuError;
use crate::files::{SiuDir, SiuDirView, SiuFileInfo, SiuFileInfoView, views};
use crate::pos::Pos;
use crate::text::{decimal, push_char, push_decimal};
use vstd::prelude::*;
use vstd::string::StrSliceExecFns;

verus! {

/// No colour pair: the terminal's own colours.
pub const PAIR_PLAIN: i16 = 0;

/// The colour pair of a file that is not selected.
pub const PAIR_FILE: i16 = 1;

/// The colour pair of the selected entry where it is a directory.
pub const PAIR_DIR_SELECTED: i16 = 2;

/// The colour pair of a directory that is not selected.
pub const PAIR_DIR: i16 = 3;

/// The colour pair of the selected entry where it is a file.
pub const PAIR_FILE_SELECTED: i16 = 4;

/// The colour pair of a warning.
pub const PAIR_WARNING: i16 = 5;

/// The column at which names and previews start.
pub const NAME_COLUMN: i32 = 2;

/// One piece of text to draw: where in the pane, what, and in which colours.
#[derive(Debug)]
pub struct DrawCmd {
    pub row: i32,
    pub col: i32,
    pub text: String,
    pub pair: i16,
}

/// A piece of text to draw, as a mathematical value.
pub struct DrawCmdView {
    pub row: int,
    pub col: int,
    pub text: Seq<char>,
    pub pair: int,
}

impl View for DrawCmd {
    type V = DrawCmdView;

    open spec fn view(&self) -> DrawCmdView {
        DrawCmdView {
            row: self.row as int,
            col: self.col as int,
            text: self.text@,
            pair: self.pair as int,
        }
    }
}

/// The commands of a vector as mathematical values.
pub open spec fn cmd_views(s: Seq<DrawCmd>) -> Seq<DrawCmdView> {
    s.map_values(|c: DrawCmd| c@)
}

/// How many entries of a listing a pane of `height` rows draws, counted
/// from the first. The two bottom rows stay free, except that the selected
/// entry is still drawn in the first of them. A pane without rows draws
/// nothing.
pub open spec fn rows_shown(len: nat, height: int, selected: int) -> nat {
    if height <= 0 {
        0
    } else {
        let full = if height >= 2 {
            height - 2
        } else {
            0
        };
        let stop = if selected == full {
            full + 1
        } else {
            full
        };
        if len <= stop {
            len
        } else {
            stop as nat
        }
    }
}

/// The colour pair of an entry.
pub open spec fn entry_pair(e: SiuFileInfoView, selected: bool) -> int {
    if selected {
        if e.is_file {
            PAIR_FILE_SELECTED as int
        } else {
            PAIR_DIR_SELECTED as int
        }
    } else {
        if e.is_file {
            PAIR_FILE as int
        } else {
            PAIR_DIR as int
        }
    }
}

/// The size of an entry as shown: the number of bytes, followed by ` B` for
/// a file. An entry without metadata shows none.
pub open spec fn size_text(e: SiuFileInfoView) -> Option<Seq<char>> {
    match e.meta {
        Some(m) => Some(
            if e.is_file {
                decimal(m.size as nat) + seq![' ', 'B']
            } else {
                decimal(m.size as nat)
            },
        ),
        None => None,
    }
}

/// What one entry draws in row `row` of a pane `width` columns wide: its
/// name, and with `sizes` its size, flush with the right edge, where the
/// pane is wide enough for it.
pub open spec fn row_cmds(
    e: SiuFileInfoView,
    row: int,
    selected: bool,
    width: int,
    sizes: bool,
) -> Seq<DrawCmdView> {
    let pair = entry_pair(e, selected);
    let name = DrawCmdView { row, col: NAME_COLUMN as int, text: e.name, pair };
    match size_text(e) {
        Some(t) => if sizes && t.len() <= width {
            seq![name, DrawCmdView { row, col: width - t.len(), text: t, pair }]
        } else {
            seq![name]
        },
        None => seq![name],
    }
}

/// What the first `n` entries of a listing draw, one row each.
pub open spec fn list_cmds(
    entries: Seq<SiuFileInfoView>,
    n: nat,
    selected: int,
    width: int,
    sizes: bool,
) -> Seq<DrawCmdView>
    decreases n,
{
    if n == 0 {
        Seq::empty()
    } else {
        list_cmds(entries, (n - 1) as nat, selected, width, sizes) + row_cmds(
            entries[n - 1],
            n - 1,
            selected == n - 1,
            width,
            sizes,
        )
    }
}

/// The one command that says that a directory holds nothing.
pub open spec fn empty_cmds() -> Seq<DrawCmdView> {
    seq![DrawCmdView { row: 0, col: 0, text: "Dir empty"@, pair: PAIR_WARNING as int }]
}

/// What a pane that holds `dir` draws: nothing where it has no rows; the
/// text where it shows a preview; a warning where the directory is empty;
/// else its entries, as many as `rows_shown` says.
pub open spec fn pane_cmds(
    dir: SiuDirView,
    selected: int,
    width: int,
    height: int,
    preview: bool,
    sizes: bool,
) -> Seq<DrawCmdView> {
    if height <= 0 {
        Seq::empty()
    } else if preview && dir.content is Some {
        seq![
            DrawCmdView {
                row: 0,
                col: NAME_COLUMN as int,
                text: dir.content->0,
                pair: PAIR_PLAIN as int,
            },
        ]
    } else if dir.dirs.len() == 0 {
        empty_cmds()
    } else {
        list_cmds(dir.dirs, rows_shown(dir.dirs.len(), height, selected), selected, width, sizes)
    }
}

/// Every command of a listing stays in the rows before `n`.
pub proof fn lemma_list_cmds_rows(
    entries: Seq<SiuFileInfoView>,
    n: nat,
    selected: int,
    width: int,
    sizes: bool,
)
    ensures
        forall|k: int|
            0 <= k < list_cmds(entries, n, selected, width, sizes).len() ==> 0 <= (
            #[trigger] list_cmds(entries, n, selected, width, sizes)[k]).row < n,
    decreases n,
{
    if n > 0 {
        lemma_list_cmds_rows(entries, (n - 1) as nat, selected, width, sizes);
        let head = list_cmds(entries, (n - 1) as nat, selected, width, sizes);
        let last = row_cmds(entries[n - 1], n - 1, selected == n - 1, width, sizes);
        let all = list_cmds(entries, n, selected, width, sizes);
        assert(all == head + last);
        assert forall|k: int| 0 <= k < all.len() implies 0 <= (#[trigger] all[k]).row < n by {
            if k < head.len() {
                assert(all[k] == head[k]);
            } else {
                assert(all[k] == last[k - head.len()]);
            }
        }
    }
}

/// Whatever a pane draws, it draws inside its rows.
pub proof fn lemma_pane_cmds_inside(
    dir: SiuDirView,
    selected: int,
    width: int,
    height: int,
    preview: bool,
    sizes: bool,
)
    ensures
        forall|k: int|
            0 <= k < pane_cmds(dir, selected, width, height, preview, sizes).len() ==> 0 <= (
            #[trigger] pane_cmds(dir, selected, width, height, preview, sizes)[k]).row < height,
{
    lemma_list_cmds_rows(
        dir.dirs,
        rows_shown(dir.dirs.len(), height, selected),
        selected,
        width,
        sizes,
    );
}

/// A pane of the navigator.
#[derive(Debug)]
pub struct SiuWin {
    /// The selection: `x` is the index of the selected entry.
    pub idx: Pos<usize>,
    /// The column and the row of the pane's top left corner.
    pub coord: Pos<i32>,
    /// The width and the height of the pane.
    pub dim: Pos<i32>,
    /// The cursor inside the pane.
    pub my_pos: Pos<i32>,
    /// The path that the pane shows.
    pub path: String,
    /// What the pane shows of it.
    pub dir: SiuDir,
}

/// A pane as a mathematical value.
pub struct SiuWinView {
    pub idx: Pos<usize>,
    pub coord: Pos<i32>,
    pub dim: Pos<i32>,
    pub my_pos: Pos<i32>,
    pub path: Seq<char>,
    pub dir: SiuDirView,
}

impl View for SiuWin {
    type V = SiuWinView;

    open spec fn view(&self) -> SiuWinView {
        SiuWinView {
            idx: self.idx,
            coord: self.coord,
            dim: self.dim,
            my_pos: self.my_pos,
            path: self.path@,
            dir: self.dir@,
        }
    }
}

impl SiuWinView {
    /// A pane is well formed where its listing is, its path is that of the
    /// listing, and its selection is an entry of the listing, or 0 where
    /// the listing has none.
    pub open spec fn wf(self) -> bool {
        &&& self.dir.wf()
        &&& self.path == self.dir.path
        &&& (self.idx.x == 0 || self.idx.x < self.dir.dirs.len())
    }

    /// The pane with another listing, and the path of that listing.
    pub open spec fn with_dir(self, dir: SiuDirView) -> SiuWinView {
        SiuWinView { path: dir.path, dir, ..self }
    }

    /// The pane with the path and the listing of the pane `other`.
    pub open spec fn showing(self, other: SiuWinView) -> SiuWinView {
        SiuWinView { path: other.path, dir: other.dir, ..self }
    }

    /// The pane with the selection on the entry `x`.
    pub open spec fn with_selection(self, x: usize) -> SiuWinView {
        SiuWinView { idx: Pos { x, y: self.idx.y }, ..self }
    }
}

/// The pane at `coord` of size `dim` that shows `dir`, with the selection
/// on the first entry.
pub open spec fn pane_at(coord: Pos<i32>, dim: Pos<i32>, dir: SiuDirView) -> SiuWinView {
    SiuWinView {
        idx: Pos { x: 0, y: 0 },
        coord,
        dim,
        my_pos: Pos { x: 0, y: 0 },
        path: dir.path,
        dir,
    }
}

/// Whether a load is one that a pane takes: something was read, and it is
/// a preview where a preview was asked for and a directory where not.
pub open spec fn accepted(loaded: Option<SiuDir>, preview: bool) -> bool {
    loaded matches Some(d) && d@.is_preview() == preview
}

/// The colour pair of an entry.
fn pair_of(is_file: bool, selected: bool) -> (pair: i16)
    ensures
        forall|e: SiuFileInfoView| e.is_file == is_file ==> pair == #[trigger] entry_pair(e, selected),
{
    if selected {
        if is_file {
            PAIR_FILE_SELECTED
        } else {
            PAIR_DIR_SELECTED
        }
    } else {
        if is_file {
            PAIR_FILE
        } else {
            PAIR_DIR
        }
    }
}

/// How many entries a pane draws, see [`rows_shown`].
fn shown(len: usize, height: i32, selected: usize) -> (n: usize)
    ensures
        n == rows_shown(len as nat, height as int, selected as int),
        n <= len,
        height > 0 ==> n <= height,
        height <= 0 ==> n == 0,
{
    if height <= 0 {
        return 0;
    }
    let full: usize = if height >= 2 {
        (height - 2) as usize
    } else {
        0
    };
    let stop: usize = if selected == full {
        full + 1
    } else {
        full
    };
    if len <= stop {
        len
    } else {
        stop
    }
}

/// The size of an entry as shown, see [`size_text`].
fn size_label(e: &SiuFileInfo) -> (label: Option<String>)
    ensures
        crate::files::text_of(label) == size_text(e@),
{
    match e.meta {
        Some(m) => {
            let mut t = String::new();
            push_decimal(&mut t, m.size);
            if e.is_file {
                push_char(&mut t, ' ');
                push_char(&mut t, 'B');
            }
            assert(t@ =~= size_text(e@)->0);
            Some(t)
        },
        None => None,
    }
}

impl SiuWin {
    /// Well-formedness of the pane, see [`SiuWinView::wf`].
    pub open spec fn wf(&self) -> bool {
        self@.wf()
    }

    /// A pane at `coord` of size `dim` that shows the directory that was
    /// loaded for it, with the selection on the first entry.
    ///
    /// There is no pane without a directory: where nothing was loaded, or a
    /// file's preview was, the answer is `NotReadable`.
    pub fn new(coord: Pos<i32>, dim: Pos<i32>, loaded: Option<SiuDir>) -> (made: Result<
        Self,
        SiuError,
    >)
        ensures
            made is Ok == accepted(loaded, false),
            made matches Ok(win) ==> win@ == pane_at(coord, dim, loaded->0@),
            made matches Ok(win) ==> (win.wf() <==> loaded->0.wf()),
            made matches Err(e) ==> e == SiuError::NotReadable,
    {
        match loaded {
            Some(dir) => {
                if dir.content.is_some() {
                    return Err(SiuError::NotReadable);
                }
                let path = dir.path.clone();
                Ok(
                    SiuWin {
                        idx: Pos::new(0, 0),
                        my_pos: Pos::new(0, 0),
                        dir,
                        coord,
                        dim,
                        path,
                    },
                )
            },
            None => Err(SiuError::NotReadable),
        }
    }

    /// Shows `dir` in place of what the pane showed. The selection stays.
    pub(crate) fn show(&mut self, dir: SiuDir)
        ensures
            final(self)@ == old(self)@.with_dir(dir@),
    {
        self.path = dir.path.clone();
        self.dir = dir;
    }

    /// Puts what was loaded into the pane if it is of the kind asked for.
    fn reload(&mut self, loaded: Option<SiuDir>, preview: bool) -> (done: Result<(), SiuError>)
        ensures
            done is Ok == accepted(loaded, preview),
            done is Ok ==> final(self)@ == old(self)@.with_dir(loaded->0@),
            done is Err ==> *final(self) == *old(self),
            done matches Err(e) ==> e == SiuError::NotReadable,
    {
        match loaded {
            Some(dir) => {
                if dir.content.is_some() != preview {
                    return Err(SiuError::NotReadable);
                }
                self.show(dir);
                Ok(())
            },
            None => Err(SiuError::NotReadable),
        }
    }

    /// Shows the directory that was loaded in place of what the pane showed.
    /// The selection stays where it was: to move it is the caller's part.
    ///
    /// Where nothing was loaded, or a file's preview was, the pane stays as
    /// it was and the answer is `NotReadable`.
    pub fn update_dir(&mut self, loaded: Option<SiuDir>) -> (done: Result<(), SiuError>)
        ensures
            done is Ok == accepted(loaded, false),
            done is Ok ==> final(self)@ == old(self)@.with_dir(loaded->0@),
            done is Err ==> *final(self) == *old(self),
            done matches Err(e) ==> e == SiuError::NotReadable,
    {
        self.reload(loaded, false)
    }

    /// Shows the preview that was loaded in place of what the pane showed.
    /// The selection stays where it was.
    ///
    /// Where nothing was loaded, or a directory was, the pane stays as it
    /// was and the answer is `NotReadable`.
    pub fn update_preview(&mut self, loaded: Option<SiuDir>) -> (done: Result<(), SiuError>)
        ensures
            done is Ok == accepted(loaded, true),
            done is Ok ==> final(self)@ == old(self)@.with_dir(loaded->0@),
            done is Err ==> *final(self) == *old(self),
            done matches Err(e) ==> e == SiuError::NotReadable,
    {
        self.reload(loaded, true)
    }

    /// What the pane draws, see [`pane_cmds`].
    fn draw(&self, preview: bool, sizes: bool) -> (cmds: Vec<DrawCmd>)
        ensures
            cmd_views(cmds@) == pane_cmds(
                self@.dir,
                self.idx.x as int,
                self.dim.x as int,
                self.dim.y as int,
                preview,
                sizes,
            ),
    {
        let mut cmds: Vec<DrawCmd> = Vec::new();
        if self.dim.y <= 0 {
            assert(cmd_views(cmds@) =~= Seq::empty());
            return cmds;
        }
        if preview {
            if let Some(text) = &self.dir.content {
                cmds.push(
                    DrawCmd { row: 0, col: NAME_COLUMN, text: text.clone(), pair: PAIR_PLAIN },
                );
                assert(cmd_views(cmds@) =~= seq![cmds@[0]@]);
                return cmds;
            }
        }
        if self.dir.dirs.len() == 0 {
            cmds.push(DrawCmd { row: 0, col: 0, text: "Dir empty".to_owned(), pair: PAIR_WARNING });
            assert(cmd_views(cmds@) =~= seq![cmds@[0]@]);
            assert(views(self.dir.dirs@).len() == 0);
            return cmds;
        }
        let n = shown(self.dir.dirs.len(), self.dim.y, self.idx.x);
        let ghost entries = views(self.dir.dirs@);
        let ghost selected = self.idx.x as int;
        let ghost width = self.dim.x as int;
        let mut i: usize = 0;
        assert(cmd_views(cmds@) =~= Seq::empty());
        while i < n
            invariant
                i <= n <= self.dir.dirs.len(),
                n <= self.dim.y,
                entries == views(self.dir.dirs@),
                selected == self.idx.x as int,
                width == self.dim.x as int,
                cmd_views(cmds@) == list_cmds(entries, i as nat, selected, width, sizes),
            decreases n - i,
        {
            let e = &self.dir.dirs[i];
            assert(entries[i as int] == e@);
            let ghost before = cmd_views(cmds@);
            let pair = pair_of(e.is_file, i == self.idx.x);
            let row: i32 = i as i32;
            cmds.push(DrawCmd { row, col: NAME_COLUMN, text: e.name.clone(), pair });
            assert(cmd_views(cmds@) =~= before.push(cmds@[cmds@.len() - 1]@));
            if sizes {
                if let Some(label) = size_label(e) {
                    let len = label.as_str().unicode_len();
                    if self.dim.x >= 0 && len <= self.dim.x as usize {
                        let ghost named = cmd_views(cmds@);
                        cmds.push(DrawCmd { row, col: self.dim.x - len as i32, text: label, pair });
                        assert(cmd_views(cmds@) =~= named.push(cmds@[cmds@.len() - 1]@));
                    }
                }
            }
            assert(cmd_views(cmds@) =~= before + row_cmds(
                e@,
                i as int,
                selected == i as int,
                width,
                sizes,
            ));
            i += 1;
        }
        assert(views(self.dir.dirs@).len() == self.dir.dirs.len());
        cmds
    }

    /// What the pane draws as the listing of a directory: the entries that
    /// fit, each with its size at the right edge, the selected one in the
    /// colours of the selection; or a warning where the directory is empty.
    /// Every command stays inside the rows of the pane.
    pub fn display(&self) -> (cmds: Vec<DrawCmd>)
        ensures
            cmd_views(cmds@) == pane_cmds(
                self@.dir,
                self.idx.x as int,
                self.dim.x as int,
                self.dim.y as int,
                false,
                true,
            ),
            forall|k: int| 0 <= k < cmds.len() ==> 0 <= (#[trigger] cmds[k]).row < self.dim.y,
    {
        let cmds = self.draw(false, true);
        proof {
            lemma_pane_cmds_inside(
                self@.dir,
                self.idx.x as int,
                self.dim.x as int,
                self.dim.y as int,
                false,
                true,
            );
            assert forall|k: int| 0 <= k < cmds.len() implies 0 <= (#[trigger] cmds[k]).row
                < self.dim.y by {
                assert(cmd_views(cmds@)[k] == cmds[k]@);
            }
        }
        cmds
    }

    /// What the pane draws as the view of the selected entry: with
    /// `is_file` the text of the preview that the pane holds; else, and
    /// where it holds none, the entries that fit, without sizes, or a
    /// warning where the directory is empty. Every command stays inside the
    /// rows of the pane.
    pub fn display_right(&self, is_file: bool) -> (cmds: Vec<DrawCmd>)
        ensures
            cmd_views(cmds@) == pane_cmds(
                self@.dir,
                self.idx.x as int,
                self.dim.x as int,
                self.dim.y as int,
                is_file,
                false,
            ),
            forall|k: int| 0 <= k < cmds.len() ==> 0 <= (#[trigger] cmds[k]).row < self.dim.y,
    {
        let cmds = self.draw(is_file, false);
        proof {
            lemma_pane_cmds_inside(
                self@.dir,
                self.idx.x as int,
                self.dim.x as int,
                self.dim.y as int,
                is_file,
                false,
            );
            assert forall|k: int| 0 <= k < cmds.len() implies 0 <= (#[trigger] cmds[k]).row
                < self.dim.y by {
                assert(cmd_views(cmds@)[k] == cmds[k]@);
            }
        }
        cmds
    }

    /// Moves the pane to `coord` and gives it the size `dim`. What it shows
    /// and what is selected stay.
    pub fn change_dim(&mut self, coord: Pos<i32>, dim: Pos<i32>)
        ensures
            final(self)@ == (SiuWinView { coord, dim, ..old(self)@ }),
    {
        self.dim = dim;
        self.coord = coord;
    }
}

} // verus!
