//! Where windows reopen. Each window remembers, per screen, its frame on
//! that screen, and its home screen: the screen it was last on while its
//! previous home was plugged in. A window reopens on its home screen when
//! that screen is connected and has a frame, else on the first connected
//! screen that has one, else centered on the primary screen.
//!
//! The frames themselves (offsets and sizes, in points) are carried as `F`
//! and never read here; the app computes positions from them and reads and
//! writes the file.

use vstd::prelude::*;

use crate::text::owned;

verus! {

broadcast use vstd::string::group_string_axioms;

/// A frame saved for a screen.
#[derive(Debug)]
pub struct SavedFrame<F> {
    pub screen_id: String,
    pub frame: F,
}

/// What is saved of one window.
#[derive(Debug)]
pub struct SavedWindow<F> {
    pub id: u64,
    pub home_screen: String,
    pub frames: Vec<SavedFrame<F>>,
}

/// What is saved of all windows.
#[derive(Debug)]
pub struct WindowFrames<F> {
    pub windows: Vec<SavedWindow<F>>,
}

/// A connected screen, as far as placement reads it.
#[derive(Debug)]
pub struct ConnectedScreen {
    pub id: String,
    pub primary: bool,
}

/// Where one window reopens: with its saved frame on the connected screen
/// at `screen`, or centered at the default size on it.
#[derive(Debug)]
pub enum Placement<F> {
    Placed { window_id: u64, screen: usize, frame: F },
    Centered { window_id: u64, screen: usize },
}

/// A saved frame, the screen id as characters.
pub struct FrameView<F> {
    pub screen_id: Seq<char>,
    pub frame: F,
}

/// A saved window, strings as characters.
pub struct WindowView<F> {
    pub id: u64,
    pub home_screen: Seq<char>,
    pub frames: Seq<FrameView<F>>,
}

pub open spec fn frame_views<F>(frames: Seq<SavedFrame<F>>) -> Seq<FrameView<F>> {
    frames.map_values(|f: SavedFrame<F>| FrameView { screen_id: f.screen_id@, frame: f.frame })
}

pub open spec fn window_view<F>(w: SavedWindow<F>) -> WindowView<F> {
    WindowView { id: w.id, home_screen: w.home_screen@, frames: frame_views(w.frames@) }
}

pub open spec fn window_views<F>(ws: Seq<SavedWindow<F>>) -> Seq<WindowView<F>> {
    ws.map_values(|w: SavedWindow<F>| window_view(w))
}

/// The index of the first frame at or after `i` saved for `screen_id`.
pub open spec fn frame_from<F>(frames: Seq<FrameView<F>>, screen_id: Seq<char>, i: int) -> Option<int>
    decreases frames.len() - i,
{
    if i < 0 || i >= frames.len() {
        None
    } else if frames[i].screen_id == screen_id {
        Some(i)
    } else {
        frame_from(frames, screen_id, i + 1)
    }
}

/// The first frame saved for `screen_id`.
pub open spec fn frame_on<F>(frames: Seq<FrameView<F>>, screen_id: Seq<char>) -> Option<int> {
    frame_from(frames, screen_id, 0)
}

/// The index of the first window at or after `i` with id `id`.
pub open spec fn window_from<F>(ws: Seq<WindowView<F>>, id: u64, i: int) -> Option<int>
    decreases ws.len() - i,
{
    if i < 0 || i >= ws.len() {
        None
    } else if ws[i].id == id {
        Some(i)
    } else {
        window_from(ws, id, i + 1)
    }
}

/// The screen ids as characters.
pub open spec fn ids(v: Seq<String>) -> Seq<Seq<char>> {
    v.map_values(|s: String| s@)
}

/// The windows after `window_id` was seen on `screen_id` with `frame`: a new
/// window starts with that frame and that screen as home; a known one gets
/// the frame for that screen (replacing the one it had there, else added
/// last), and that screen becomes its home when its previous home is among
/// the connected screens. When the home is unplugged, it stays, so that the
/// window goes back there once the screen returns.
pub open spec fn remembered<F>(
    ws: Seq<WindowView<F>>,
    window_id: u64,
    screen_id: Seq<char>,
    frame: F,
    connected: Seq<Seq<char>>,
) -> Seq<WindowView<F>> {
    let saved = FrameView { screen_id, frame };
    match window_from(ws, window_id, 0) {
        None => ws.push(WindowView { id: window_id, home_screen: screen_id, frames: seq![saved] }),
        Some(i) => {
            let w = ws[i];
            let frames = match frame_on(w.frames, screen_id) {
                Some(k) => w.frames.update(k, saved),
                None => w.frames.push(saved),
            };
            let home = if connected.contains(w.home_screen) {
                screen_id
            } else {
                w.home_screen
            };
            ws.update(i, WindowView { id: w.id, home_screen: home, frames })
        },
    }
}

/// The index of the first screen at or after `i` with id `id`.
pub open spec fn screen_from(screens: Seq<ConnectedScreen>, id: Seq<char>, i: int) -> Option<int>
    decreases screens.len() - i,
{
    if i < 0 || i >= screens.len() {
        None
    } else if screens[i].id@ == id {
        Some(i)
    } else {
        screen_from(screens, id, i + 1)
    }
}

/// The index of the first screen at or after `i` on which the window has a
/// frame.
pub open spec fn framed_screen_from<F>(screens: Seq<ConnectedScreen>, frames: Seq<FrameView<F>>, i: int) -> Option<
    int,
>
    decreases screens.len() - i,
{
    if i < 0 || i >= screens.len() {
        None
    } else if frame_on(frames, screens[i].id@) is Some {
        Some(i)
    } else {
        framed_screen_from(screens, frames, i + 1)
    }
}

/// The index of the first primary screen at or after `i`.
pub open spec fn primary_from(screens: Seq<ConnectedScreen>, i: int) -> Option<int>
    decreases screens.len() - i,
{
    if i < 0 || i >= screens.len() {
        None
    } else if screens[i].primary {
        Some(i)
    } else {
        primary_from(screens, i + 1)
    }
}

/// The screen that centered windows open on: the primary one, else the
/// first; none without screens.
pub open spec fn main_screen(screens: Seq<ConnectedScreen>) -> Option<int> {
    match primary_from(screens, 0) {
        Some(p) => Some(p),
        None => if screens.len() > 0 {
            Some(0)
        } else {
            None
        },
    }
}

/// A placement, strings dropped.
pub open spec fn placement_of<F>(w: WindowView<F>, screens: Seq<ConnectedScreen>, main: int) -> Placement<F> {
    let home = screen_from(screens, w.home_screen, 0);
    if home is Some && frame_on(w.frames, screens[home->0].id@) is Some {
        Placement::Placed {
            window_id: w.id,
            screen: home->0 as usize,
            frame: w.frames[frame_on(w.frames, screens[home->0].id@)->0].frame,
        }
    } else {
        match framed_screen_from(screens, w.frames, 0) {
            Some(s) => Placement::Placed {
                window_id: w.id,
                screen: s as usize,
                frame: w.frames[frame_on(w.frames, screens[s].id@)->0].frame,
            },
            None => Placement::Centered { window_id: w.id, screen: main as usize },
        }
    }
}

/// Where the windows reopen: nowhere without screens; one window, id 1,
/// centered on the main screen when none is saved; else each saved window as
/// `placement_of` says, in order.
pub open spec fn restored<F>(ws: Seq<WindowView<F>>, screens: Seq<ConnectedScreen>) -> Seq<Placement<F>> {
    match main_screen(screens) {
        None => Seq::empty(),
        Some(main) => if ws.len() == 0 {
            seq![Placement::Centered { window_id: 1, screen: main as usize }]
        } else {
            ws.map_values(|w: WindowView<F>| placement_of(w, screens, main))
        },
    }
}

proof fn lemma_frame_from_found<F>(frames: Seq<FrameView<F>>, id: Seq<char>, i: int, k: int)
    requires
        0 <= i <= k < frames.len(),
        frames[k].screen_id == id,
        forall|j: int| i <= j < k ==> frames[j].screen_id != id,
    ensures
        frame_from(frames, id, i) == Some(k),
    decreases k - i,
{
    if i < k {
        lemma_frame_from_found(frames, id, i + 1, k);
    }
}

proof fn lemma_frame_from_none<F>(frames: Seq<FrameView<F>>, id: Seq<char>, i: int)
    requires
        0 <= i <= frames.len(),
        forall|j: int| i <= j < frames.len() ==> frames[j].screen_id != id,
    ensures
        frame_from(frames, id, i) is None,
    decreases frames.len() - i,
{
    if i < frames.len() {
        lemma_frame_from_none(frames, id, i + 1);
    }
}

fn find_frame<F>(frames: &Vec<SavedFrame<F>>, screen_id: &str) -> (r: Option<usize>)
    ensures
        match r {
            Some(k) => k < frames@.len() && frame_on(frame_views(frames@), screen_id@) == Some(k as int),
            None => frame_on(frame_views(frames@), screen_id@) is None,
        },
{
    let ghost v = frame_views(frames@);
    let target = owned(screen_id);
    let mut k: usize = 0;
    while k < frames.len()
        invariant
            k <= frames.len(),
            v == frame_views(frames@),
            target@ == screen_id@,
            forall|j: int| 0 <= j < k ==> v[j].screen_id != screen_id@,
        decreases frames.len() - k,
    {
        if frames[k].screen_id == target {
            proof {
                lemma_frame_from_found(v, screen_id@, 0, k as int);
            }
            return Some(k);
        }
        k = k + 1;
    }
    proof {
        lemma_frame_from_none(v, screen_id@, 0);
    }
    None
}

proof fn lemma_window_from_found<F>(ws: Seq<WindowView<F>>, id: u64, i: int, k: int)
    requires
        0 <= i <= k < ws.len(),
        ws[k].id == id,
        forall|j: int| i <= j < k ==> ws[j].id != id,
    ensures
        window_from(ws, id, i) == Some(k),
    decreases k - i,
{
    if i < k {
        lemma_window_from_found(ws, id, i + 1, k);
    }
}

proof fn lemma_window_from_none<F>(ws: Seq<WindowView<F>>, id: u64, i: int)
    requires
        0 <= i <= ws.len(),
        forall|j: int| i <= j < ws.len() ==> ws[j].id != id,
    ensures
        window_from(ws, id, i) is None,
    decreases ws.len() - i,
{
    if i < ws.len() {
        lemma_window_from_none(ws, id, i + 1);
    }
}

fn contains_id(connected: &[String], id: &String) -> (b: bool)
    ensures
        b == ids(connected@).contains(id@),
{
    let mut i: usize = 0;
    while i < connected.len()
        invariant
            i <= connected.len(),
            forall|j: int| 0 <= j < i ==> connected@[j]@ != id@,
        decreases connected.len() - i,
    {
        if connected[i] == *id {
            assert(ids(connected@)[i as int] == id@);
            return true;
        }
        i = i + 1;
    }
    assert forall|j: int| 0 <= j < ids(connected@).len() implies ids(connected@)[j] != id@ by {
        assert(ids(connected@)[j] == connected@[j]@);
    }
    false
}

impl<F: Copy> WindowFrames<F> {
    pub open spec fn view(&self) -> Seq<WindowView<F>> {
        window_views(self.windows@)
    }

    /// Nothing saved.
    pub fn new() -> (f: Self)
        ensures
            f@.len() == 0,
    {
        WindowFrames { windows: Vec::new() }
    }

    /// Records that window `window_id` is on `screen_id` with `frame` while
    /// `connected` are plugged in; see `remembered`.
    pub fn remember(&mut self, window_id: u64, screen_id: &str, frame: F, connected: &[String])
        ensures
            final(self)@ == remembered(old(self)@, window_id, screen_id@, frame, ids(connected@)),
    {
        let ghost before = self@;
        let saved = SavedFrame { screen_id: owned(screen_id), frame };
        let mut i: usize = 0;
        while i < self.windows.len()
            invariant
                i <= self.windows.len(),
                self@ == before,
                forall|j: int| 0 <= j < i ==> before[j].id != window_id,
            ensures
                i < self.windows.len() ==> before[i as int].id == window_id,
            decreases self.windows.len() - i,
        {
            if self.windows[i].id == window_id {
                assert(before[i as int] == window_view(self.windows@[i as int]));
                break;
            }
            assert(before[i as int] == window_view(self.windows@[i as int]));
            i = i + 1;
        }
        if i == self.windows.len() {
            proof {
                lemma_window_from_none(before, window_id, 0);
            }
            let mut frames = Vec::new();
            frames.push(saved);
            assert(frame_views(frames@) =~= seq![FrameView { screen_id: screen_id@, frame }]);
            self.windows.push(SavedWindow { id: window_id, home_screen: owned(screen_id), frames });
            proof {
                assert(self@ =~= remembered(before, window_id, screen_id@, frame, ids(connected@)));
            }
            return;
        }
        proof {
            assert(before[i as int].id == window_id);
            lemma_window_from_found(before, window_id, 0, i as int);
        }
        let mut window = SavedWindow { id: 0, home_screen: String::new(), frames: Vec::new() };
        std::mem::swap(&mut window, &mut self.windows[i]);
        let ghost w = window_view(window);
        assert(w == before[i as int]);
        let found = find_frame(&window.frames, screen_id);
        let ghost old_frames = window.frames@;
        let ghost sv = FrameView { screen_id: screen_id@, frame };
        match found {
            Some(k) => {
                window.frames.set(k, saved);
                assert(frame_views(window.frames@) =~= frame_views(old_frames).update(k as int, sv));
            },
            None => {
                window.frames.push(saved);
                assert(frame_views(window.frames@) =~= frame_views(old_frames).push(sv));
            },
        }
        let home_connected = contains_id(connected, &window.home_screen);
        if home_connected {
            window.home_screen = owned(screen_id);
        }
        proof {
            let expected = remembered(before, window_id, screen_id@, frame, ids(connected@))[i as int];
            assert(frame_views(window.frames@) =~= expected.frames);
            assert(window_view(window) == expected);
        }
        self.windows.set(i, window);
        proof {
            assert(self@ =~= remembered(before, window_id, screen_id@, frame, ids(connected@)));
        }
    }
}

proof fn lemma_screen_from_found(screens: Seq<ConnectedScreen>, id: Seq<char>, i: int, k: int)
    requires
        0 <= i <= k < screens.len(),
        screens[k].id@ == id,
        forall|j: int| i <= j < k ==> screens[j].id@ != id,
    ensures
        screen_from(screens, id, i) == Some(k),
    decreases k - i,
{
    if i < k {
        lemma_screen_from_found(screens, id, i + 1, k);
    }
}

proof fn lemma_screen_from_none(screens: Seq<ConnectedScreen>, id: Seq<char>, i: int)
    requires
        0 <= i <= screens.len(),
        forall|j: int| i <= j < screens.len() ==> screens[j].id@ != id,
    ensures
        screen_from(screens, id, i) is None,
    decreases screens.len() - i,
{
    if i < screens.len() {
        lemma_screen_from_none(screens, id, i + 1);
    }
}

fn find_screen(screens: &[ConnectedScreen], id: &String) -> (r: Option<usize>)
    ensures
        match r {
            Some(k) => k < screens@.len() && screen_from(screens@, id@, 0) == Some(k as int),
            None => screen_from(screens@, id@, 0) is None,
        },
{
    let mut k: usize = 0;
    while k < screens.len()
        invariant
            k <= screens.len(),
            forall|j: int| 0 <= j < k ==> screens@[j].id@ != id@,
        decreases screens.len() - k,
    {
        if screens[k].id == *id {
            proof {
                lemma_screen_from_found(screens@, id@, 0, k as int);
            }
            return Some(k);
        }
        k = k + 1;
    }
    proof {
        lemma_screen_from_none(screens@, id@, 0);
    }
    None
}

proof fn lemma_framed_from_found<F>(screens: Seq<ConnectedScreen>, frames: Seq<FrameView<F>>, i: int, k: int)
    requires
        0 <= i <= k < screens.len(),
        frame_on(frames, screens[k].id@) is Some,
        forall|j: int| i <= j < k ==> frame_on(frames, #[trigger] screens[j].id@) is None,
    ensures
        framed_screen_from(screens, frames, i) == Some(k),
    decreases k - i,
{
    if i < k {
        lemma_framed_from_found(screens, frames, i + 1, k);
    }
}

proof fn lemma_framed_from_none<F>(screens: Seq<ConnectedScreen>, frames: Seq<FrameView<F>>, i: int)
    requires
        0 <= i <= screens.len(),
        forall|j: int| i <= j < screens.len() ==> frame_on(frames, #[trigger] screens[j].id@) is None,
    ensures
        framed_screen_from(screens, frames, i) is None,
    decreases screens.len() - i,
{
    if i < screens.len() {
        lemma_framed_from_none(screens, frames, i + 1);
    }
}

proof fn lemma_primary_from_found(screens: Seq<ConnectedScreen>, i: int, k: int)
    requires
        0 <= i <= k < screens.len(),
        screens[k].primary,
        forall|j: int| i <= j < k ==> !screens[j].primary,
    ensures
        primary_from(screens, i) == Some(k),
    decreases k - i,
{
    if i < k {
        lemma_primary_from_found(screens, i + 1, k);
    }
}

proof fn lemma_primary_from_none(screens: Seq<ConnectedScreen>, i: int)
    requires
        0 <= i <= screens.len(),
        forall|j: int| i <= j < screens.len() ==> !screens[j].primary,
    ensures
        primary_from(screens, i) is None,
    decreases screens.len() - i,
{
    if i < screens.len() {
        lemma_primary_from_none(screens, i + 1);
    }
}

fn find_main_screen(screens: &[ConnectedScreen]) -> (r: Option<usize>)
    ensures
        match r {
            Some(k) => k < screens@.len() && main_screen(screens@) == Some(k as int),
            None => main_screen(screens@) is None,
        },
{
    let mut k: usize = 0;
    while k < screens.len()
        invariant
            k <= screens.len(),
            forall|j: int| 0 <= j < k ==> !screens@[j].primary,
        decreases screens.len() - k,
    {
        if screens[k].primary {
            proof {
                lemma_primary_from_found(screens@, 0, k as int);
            }
            return Some(k);
        }
        k = k + 1;
    }
    proof {
        lemma_primary_from_none(screens@, 0);
    }
    if screens.len() > 0 {
        Some(0)
    } else {
        None
    }
}

fn place<F: Copy>(w: &SavedWindow<F>, screens: &[ConnectedScreen], main: usize) -> (p: Placement<F>)
    ensures
        p == placement_of(window_view(*w), screens@, main as int),
{
    let ghost wv = window_view(*w);
    if let Some(h) = find_screen(screens, &w.home_screen) {
        if let Some(f) = find_frame(&w.frames, screens[h].id.as_str()) {
            assert(wv.frames[f as int].frame == w.frames@[f as int].frame);
            return Placement::Placed { window_id: w.id, screen: h, frame: w.frames[f].frame };
        }
    }
    let ghost home = screen_from(screens@, wv.home_screen, 0);
    assert(!(home is Some && frame_on(wv.frames, screens@[home->0].id@) is Some));
    let mut k: usize = 0;
    while k < screens.len()
        invariant
            k <= screens.len(),
            wv == window_view(*w),
            home == screen_from(screens@, wv.home_screen, 0),
            !(home is Some && frame_on(wv.frames, screens@[home->0].id@) is Some),
            forall|j: int| 0 <= j < k ==> frame_on(wv.frames, #[trigger] screens@[j].id@) is None,
        decreases screens.len() - k,
    {
        if let Some(f) = find_frame(&w.frames, screens[k].id.as_str()) {
            proof {
                lemma_framed_from_found(screens@, wv.frames, 0, k as int);
            }
            assert(wv.frames[f as int].frame == w.frames@[f as int].frame);
            return Placement::Placed { window_id: w.id, screen: k, frame: w.frames[f].frame };
        }
        k = k + 1;
    }
    proof {
        lemma_framed_from_none(screens@, wv.frames, 0);
    }
    Placement::Centered { window_id: w.id, screen: main }
}

impl<F: Copy> WindowFrames<F> {
    /// Where the saved windows reopen on the `connected` screens; see
    /// `restored`.
    pub fn restore(&self, connected: &[ConnectedScreen]) -> (r: Vec<Placement<F>>)
        ensures
            r@ == restored(self@, connected@),
    {
        let main = match find_main_screen(connected) {
            Some(m) => m,
            None => {
                return Vec::new();
            },
        };
        let mut out: Vec<Placement<F>> = Vec::new();
        if self.windows.len() == 0 {
            out.push(Placement::Centered { window_id: 1, screen: main });
            assert(out@ =~= restored(self@, connected@));
            return out;
        }
        let mut i: usize = 0;
        while i < self.windows.len()
            invariant
                i <= self.windows.len(),
                main_screen(connected@) == Some(main as int),
                out@.len() == i,
                forall|j: int| 0 <= j < i ==> #[trigger] out@[j] == placement_of(self@[j], connected@, main as int),
            decreases self.windows.len() - i,
        {
            let p = place(&self.windows[i], connected, main);
            out.push(p);
            i = i + 1;
        }
        assert(out@ =~= restored(self@, connected@));
        out
    }
}

proof fn lemma_frame_from_some<F>(frames: Seq<FrameView<F>>, id: Seq<char>, i: int)
    requires
        0 <= i,
        frame_from(frames, id, i) is Some,
    ensures
        i <= frame_from(frames, id, i)->0 < frames.len(),
        frames[frame_from(frames, id, i)->0].screen_id == id,
        forall|j: int| i <= j < frame_from(frames, id, i)->0 ==> frames[j].screen_id != id,
    decreases frames.len() - i,
{
    if frames[i].screen_id != id {
        lemma_frame_from_some(frames, id, i + 1);
    }
}

proof fn lemma_frame_from_is_none<F>(frames: Seq<FrameView<F>>, id: Seq<char>, i: int)
    requires
        0 <= i,
        frame_from(frames, id, i) is None,
    ensures
        forall|j: int| i <= j < frames.len() ==> frames[j].screen_id != id,
    decreases frames.len() - i,
{
    if i < frames.len() {
        lemma_frame_from_is_none(frames, id, i + 1);
    }
}

proof fn lemma_window_from_some<F>(ws: Seq<WindowView<F>>, id: u64, i: int)
    requires
        0 <= i,
        window_from(ws, id, i) is Some,
    ensures
        i <= window_from(ws, id, i)->0 < ws.len(),
        ws[window_from(ws, id, i)->0].id == id,
        forall|j: int| i <= j < window_from(ws, id, i)->0 ==> ws[j].id != id,
    decreases ws.len() - i,
{
    if ws[i].id != id {
        lemma_window_from_some(ws, id, i + 1);
    }
}

proof fn lemma_window_from_is_none<F>(ws: Seq<WindowView<F>>, id: u64, i: int)
    requires
        0 <= i,
        window_from(ws, id, i) is None,
    ensures
        forall|j: int| i <= j < ws.len() ==> ws[j].id != id,
    decreases ws.len() - i,
{
    if i < ws.len() {
        lemma_window_from_is_none(ws, id, i + 1);
    }
}

proof fn lemma_screen_from_some(screens: Seq<ConnectedScreen>, id: Seq<char>, i: int)
    requires
        0 <= i,
        screen_from(screens, id, i) is Some,
    ensures
        i <= screen_from(screens, id, i)->0 < screens.len(),
        screens[screen_from(screens, id, i)->0].id@ == id,
    decreases screens.len() - i,
{
    if screens[i].id@ != id {
        lemma_screen_from_some(screens, id, i + 1);
    }
}

proof fn lemma_framed_from_is_none<F>(screens: Seq<ConnectedScreen>, frames: Seq<FrameView<F>>, i: int)
    requires
        0 <= i,
        framed_screen_from(screens, frames, i) is None,
    ensures
        forall|j: int| i <= j < screens.len() ==> frame_on(frames, #[trigger] screens[j].id@) is None,
    decreases screens.len() - i,
{
    if i < screens.len() {
        lemma_framed_from_is_none(screens, frames, i + 1);
    }
}

/// A window whose home screen is connected and has a saved frame reopens
/// there with that frame: when screen `h` is the first connected screen
/// with the home id and `k` the first frame saved for it.
pub proof fn law_home_screen_first<F>(ws: Seq<WindowView<F>>, screens: Seq<ConnectedScreen>, i: int, h: int, k: int)
    requires
        0 <= i < ws.len(),
        0 <= h < screens.len(),
        screens[h].id@ == ws[i].home_screen,
        forall|t: int| 0 <= t < h ==> (#[trigger] screens[t]).id@ != ws[i].home_screen,
        0 <= k < ws[i].frames.len(),
        ws[i].frames[k].screen_id == ws[i].home_screen,
        forall|m: int| 0 <= m < k ==> (#[trigger] ws[i].frames[m]).screen_id != ws[i].home_screen,
    ensures
        restored(ws, screens)[i] == (Placement::Placed {
            window_id: ws[i].id,
            screen: h as usize,
            frame: ws[i].frames[k].frame,
        }),
{
    let w = ws[i];
    let main = main_screen(screens)->0;
    assert(restored(ws, screens)[i] == placement_of(w, screens, main));
    lemma_screen_from_found(screens, w.home_screen, 0, h);
    assert forall|m: int| 0 <= m < k implies w.frames[m].screen_id != screens[h].id@ by {
        assert(w.frames[m] == ws[i].frames[m]);
    }
    lemma_frame_from_found(w.frames, screens[h].id@, 0, k);
}

/// A window whose home screen is unplugged, or has no saved frame, reopens
/// with its saved frame on the first connected screen it has one for: when
/// screen `j` is the first connected screen with a frame saved for it, and
/// `k` is the first such frame, the window is placed there with that frame.
pub proof fn law_falls_back_to_the_first_framed_screen<F>(
    ws: Seq<WindowView<F>>,
    screens: Seq<ConnectedScreen>,
    i: int,
    j: int,
    k: int,
)
    requires
        0 <= i < ws.len(),
        0 <= j < screens.len(),
        0 <= k < ws[i].frames.len(),
        ws[i].frames[k].screen_id == screens[j].id@,
        forall|m: int| 0 <= m < k ==> ws[i].frames[m].screen_id != screens[j].id@,
        forall|t: int, m: int|
            #![trigger ws[i].frames[m], screens[t]]
            0 <= t < j && 0 <= m < ws[i].frames.len() ==> ws[i].frames[m].screen_id != screens[t].id@,
        forall|t: int, m: int|
            #![trigger ws[i].frames[m], screens[t]]
            0 <= t < screens.len() && screens[t].id@ == ws[i].home_screen && 0 <= m < ws[i].frames.len()
                ==> ws[i].frames[m].screen_id != screens[t].id@,
    ensures
        restored(ws, screens)[i] == (Placement::Placed {
            window_id: ws[i].id,
            screen: j as usize,
            frame: ws[i].frames[k].frame,
        }),
{
    let w = ws[i];
    assert(primary_from(screens, 0) is Some || screens.len() > 0);
    let main = main_screen(screens)->0;
    assert(restored(ws, screens)[i] == placement_of(w, screens, main));
    let home = screen_from(screens, w.home_screen, 0);
    if home is Some {
        lemma_screen_from_some(screens, w.home_screen, 0);
        let h = home->0;
        assert forall|m: int| 0 <= m < w.frames.len() implies w.frames[m].screen_id != screens[h].id@ by {
            assert(w.frames[m] == ws[i].frames[m]);
        }
        lemma_frame_from_none(w.frames, screens[h].id@, 0);
    }
    lemma_frame_from_found(w.frames, screens[j].id@, 0, k);
    assert forall|t: int| 0 <= t < j implies frame_on(w.frames, #[trigger] screens[t].id@) is None by {
        assert forall|m: int| 0 <= m < w.frames.len() implies w.frames[m].screen_id != screens[t].id@ by {
            assert(w.frames[m] == ws[i].frames[m]);
        }
        lemma_frame_from_none(w.frames, screens[t].id@, 0);
    }
    lemma_framed_from_found(screens, w.frames, 0, j);
}

/// A saved window reopens centered exactly when no connected screen has a
/// frame saved for it; as long as one does, it reopens placed with a saved
/// frame.
pub proof fn law_centered_only_without_a_framed_screen<F>(
    ws: Seq<WindowView<F>>,
    screens: Seq<ConnectedScreen>,
    i: int,
)
    requires
        0 <= i < ws.len(),
        screens.len() > 0,
    ensures
        ((restored(ws, screens)[i] is Centered) <==> (forall|t: int, m: int|
            #![trigger ws[i].frames[m], screens[t]]
            0 <= t < screens.len() && 0 <= m < ws[i].frames.len() ==> ws[i].frames[m].screen_id
                != screens[t].id@)),
{
    let w = ws[i];
    let main = main_screen(screens)->0;
    assert(restored(ws, screens)[i] == placement_of(w, screens, main));
    let home = screen_from(screens, w.home_screen, 0);
    if forall|t: int, m: int|
        #![trigger ws[i].frames[m], screens[t]]
        0 <= t < screens.len() && 0 <= m < ws[i].frames.len() ==> ws[i].frames[m].screen_id != screens[t].id@ {
        assert forall|t: int| 0 <= t < screens.len() implies frame_on(w.frames, #[trigger] screens[t].id@) is None by {
            assert forall|m: int| 0 <= m < w.frames.len() implies w.frames[m].screen_id != screens[t].id@ by {
                assert(w.frames[m] == ws[i].frames[m]);
            }
            lemma_frame_from_none(w.frames, screens[t].id@, 0);
        }
        if home is Some {
            lemma_screen_from_some(screens, w.home_screen, 0);
            assert(frame_on(w.frames, screens[home->0].id@) is None);
        }
        lemma_framed_from_none(screens, w.frames, 0);
    } else {
        let (t, m) = choose|t: int, m: int|
            0 <= t < screens.len() && 0 <= m < ws[i].frames.len() && ws[i].frames[m].screen_id == screens[t].id@;
        if frame_on(w.frames, screens[t].id@) is None {
            lemma_frame_from_is_none(w.frames, screens[t].id@, 0);
            assert(w.frames[m].screen_id != screens[t].id@);
        }
        if framed_screen_from(screens, w.frames, 0) is None {
            lemma_framed_from_is_none(screens, w.frames, 0);
            assert(frame_on(w.frames, screens[t].id@) is None);
        }
    }
}

/// A window reopens where it was left: once window `window_id` was seen on
/// screen `screen_id` with `frame` (while it was new, or while its home
/// screen was plugged in), restoring on screens that include `screen_id`
/// puts it there, with that frame.
pub proof fn law_window_reopens_where_it_was_left<F>(
    ws: Seq<WindowView<F>>,
    window_id: u64,
    screen_id: Seq<char>,
    frame: F,
    connected: Seq<Seq<char>>,
    screens: Seq<ConnectedScreen>,
)
    requires
        window_from(ws, window_id, 0) is Some ==> connected.contains(
            ws[window_from(ws, window_id, 0)->0].home_screen,
        ),
        screen_from(screens, screen_id, 0) is Some,
    ensures
        ({
            let after = remembered(ws, window_id, screen_id, frame, connected);
            &&& window_from(after, window_id, 0) is Some
            &&& restored(after, screens)[window_from(after, window_id, 0)->0] == Placement::Placed {
                window_id,
                screen: screen_from(screens, screen_id, 0)->0 as usize,
                frame,
            }
        }),
{
    let after = remembered(ws, window_id, screen_id, frame, connected);
    let saved = FrameView { screen_id, frame };
    lemma_screen_from_some(screens, screen_id, 0);
    let h = screen_from(screens, screen_id, 0)->0;
    let i: int = match window_from(ws, window_id, 0) {
        None => {
            lemma_window_from_is_none(ws, window_id, 0);
            let n = ws.len() as int;
            lemma_window_from_found(after, window_id, 0, n);
            lemma_frame_from_found(after[n].frames, screen_id, 0, 0);
            n
        },
        Some(i) => {
            lemma_window_from_some(ws, window_id, 0);
            lemma_window_from_found(after, window_id, 0, i);
            let w = ws[i];
            match frame_on(w.frames, screen_id) {
                Some(k) => {
                    lemma_frame_from_some(w.frames, screen_id, 0);
                    lemma_frame_from_found(w.frames.update(k, saved), screen_id, 0, k);
                },
                None => {
                    lemma_frame_from_is_none(w.frames, screen_id, 0);
                    lemma_frame_from_found(w.frames.push(saved), screen_id, 0, w.frames.len() as int);
                },
            }
            i
        },
    };
    assert(after[i].home_screen == screen_id);
    assert(after[i].id == window_id);
    assert(main_screen(screens) is Some);
    assert(restored(after, screens)[i] == placement_of(after[i], screens, main_screen(screens)->0));
}

} // verus!
