//! The lock session: its surfaces, its input and its password state machine.

pub mod auth;
pub mod env;
pub mod input;
pub mod output;
pub mod pool;
pub mod surface;

use vstd::prelude::*;
use vstd::string::StringExecFns;
use crate::lock::input::LockInput;
use crate::lock::pool::{drawable, painted};
use crate::lock::surface::{LayerEvent, LockSurface, SurfaceView};
use crate::options::{Options, OptionsView};
use crate::text::{copy_text, str_view, string_view};

verus! {

/// Keysym of the backspace key.
pub const KEY_BACKSPACE: u32 = 0xff08;

/// Keysym of the return key.
pub const KEY_RETURN: u32 = 0xff0d;

/// Keysym of the escape key.
pub const KEY_ESCAPE: u32 = 0xff1b;

/// Keysym of the enter key of the keypad.
pub const KEY_KP_ENTER: u32 = 0xff8d;

/// Keysym of the delete key.
pub const KEY_DELETE: u32 = 0xffff;

/// `String::pop` of the standard library: takes the last character off the
/// string and returns it; an empty string stays empty and gives `None`.
pub assume_specification[ String::pop ](s: &mut String) -> (last: Option<char>)
    ensures
        old(s)@.len() == 0 ==> last is None && final(s)@ == old(s)@,
        old(s)@.len() > 0 ==> last == Some(old(s)@.last()) && final(s)@ == old(s)@.drop_last(),
;

/// `String::clear` of the standard library: removes all characters.
pub assume_specification[ String::clear ](s: &mut String)
    ensures
        final(s)@ == Seq::<char>::empty(),
;

/// What the screen tells of the session.
#[derive(Debug, Clone, Copy, PartialEq, Eq)]
pub enum LockState {
    /// Nothing has been typed.
    Init,
    /// A password is being typed.
    Input,
    /// The last password was wrong.
    Fail,
}

/// What a key means to the session.
#[derive(Debug, Clone, Copy, PartialEq, Eq)]
pub enum Key {
    /// Return or keypad enter: the password is put to the test.
    Enter,
    /// Delete or backspace: the last character goes.
    Erase,
    /// Escape: the whole password goes.
    Escape,
    /// Any other key: its text, if it has one, is added.
    Other,
}

/// What the driver of the session has to do next.
#[derive(Debug, Clone, Copy, PartialEq, Eq)]
pub enum KeyAction {
    /// Nothing: go on.
    Continue,
    /// Put the password to the test and hand the verdict back.
    Authenticate,
}

/// What the driver of the session has to do after a verdict.
#[derive(Debug, Clone)]
pub enum AuthAction {
    /// The password was right: end the session.
    Unlock,
    /// The password was wrong: run the command, if there is one, with
    /// `sh -c`, and go on whether or not that works.
    Deny { command: Option<String> },
}

/// A frame that a surface has drawn and that is to be shown: the buffer of
/// the slot is to be attached at the origin, the whole surface marked as
/// damaged, and the surface committed.
#[derive(Debug, Clone, Copy, PartialEq, Eq)]
pub struct Frame {
    /// The output whose surface has drawn.
    pub output: u32,
    /// The slot of the pool that holds the frame.
    pub slot: usize,
    pub width: u32,
    pub height: u32,
}

/// What a round of event handling on all surfaces leaves to do.
#[derive(Debug, Clone, PartialEq, Eq)]
pub struct Sweep {
    /// The frames to show, in the order of the surfaces.
    pub frames: Vec<Frame>,
    /// The outputs whose surfaces have closed and are dropped: the layer
    /// surface is to be destroyed, then the surface below it.
    pub closed: Vec<u32>,
}

/// What the driver of the session has to do after one iteration.
#[derive(Debug, Clone, PartialEq, Eq)]
pub enum Iteration {
    /// Put the password to the test, hand the verdict back, and iterate
    /// again at once: keystrokes may still wait.
    Authenticate,
    /// Do what the round of event handling has left to do, flush the
    /// requests to the compositor, and wait for events.
    Flush(Sweep),
}

/// What the key with the keysym `keysym` means.
pub open spec fn spec_classify(keysym: u32) -> Key {
    if keysym == KEY_KP_ENTER || keysym == KEY_RETURN {
        Key::Enter
    } else if keysym == KEY_DELETE || keysym == KEY_BACKSPACE {
        Key::Erase
    } else if keysym == KEY_ESCAPE {
        Key::Escape
    } else {
        Key::Other
    }
}

/// The password after a key that is not enter.
pub open spec fn spec_edited(password: Seq<char>, keysym: u32, utf8: Option<Seq<char>>) -> Seq<
    char,
> {
    match spec_classify(keysym) {
        Key::Enter => password,
        Key::Erase => if password.len() > 0 {
            password.drop_last()
        } else {
            password
        },
        Key::Escape => Seq::empty(),
        Key::Other => match utf8 {
            Some(text) => password + text,
            None => password,
        },
    }
}

/// The surfaces, each with `color` set.
pub open spec fn spec_painted(surfaces: Seq<SurfaceView>, color: u32) -> Seq<SurfaceView> {
    surfaces.map_values(|surface: SurfaceView| surface.colored(color))
}

/// The surfaces after a round of event handling: those that close are
/// gone, the others have handled their events, in the order they had.
pub open spec fn spec_swept(surfaces: Seq<SurfaceView>) -> Seq<SurfaceView>
    decreases surfaces.len(),
{
    if surfaces.len() == 0 {
        Seq::empty()
    } else {
        let rest = spec_swept(surfaces.drop_last());
        if surfaces.last().closes() {
            rest
        } else {
            rest.push(surfaces.last().handled())
        }
    }
}

/// The frame that a surface draws in a round of event handling, if it
/// draws one: it goes to the slot that is free, at the size that the
/// surface has once its event is taken in.
pub open spec fn spec_frame(surface: SurfaceView) -> Option<Frame> {
    if !surface.closes() && surface.received().draws() {
        Some(
            Frame {
                output: surface.output,
                slot: surface.pool.free_slot()->0 as usize,
                width: surface.received().dimensions.0,
                height: surface.received().dimensions.1,
            },
        )
    } else {
        None
    }
}

/// The frames that the surfaces draw in a round of event handling, in the
/// order of the surfaces.
pub open spec fn spec_frames(surfaces: Seq<SurfaceView>) -> Seq<Frame>
    decreases surfaces.len(),
{
    if surfaces.len() == 0 {
        Seq::empty()
    } else {
        let rest = spec_frames(surfaces.drop_last());
        match spec_frame(surfaces.last()) {
            Some(frame) => rest.push(frame),
            None => rest,
        }
    }
}

/// The outputs of the surfaces that close in a round of event handling, in
/// the order of the surfaces.
pub open spec fn spec_closed(surfaces: Seq<SurfaceView>) -> Seq<u32>
    decreases surfaces.len(),
{
    if surfaces.len() == 0 {
        Seq::empty()
    } else {
        let rest = spec_closed(surfaces.drop_last());
        if surfaces.last().closes() {
            rest.push(surfaces.last().output)
        } else {
            rest
        }
    }
}

/// The position of the surface of output `id`, if there is one.
pub open spec fn surface_of(surfaces: Seq<SurfaceView>, id: u32) -> Option<int> {
    if exists|i: int| 0 <= i < surfaces.len() && (#[trigger] surfaces[i]).output == id {
        Some(choose|i: int| 0 <= i < surfaces.len() && (#[trigger] surfaces[i]).output == id)
    } else {
        None
    }
}

/// Every surface shows `color`.
pub open spec fn all_colored(surfaces: Seq<SurfaceView>, color: u32) -> bool {
    forall|i: int| 0 <= i < surfaces.len() ==> (#[trigger] surfaces[i]).color == color
}

/// The state of a lock session.
pub struct SessionView {
    pub options: OptionsView,
    pub state: LockState,
    /// The password as far as it is typed.
    pub password: Seq<char>,
    /// The surfaces of the outputs that are there, in the order the outputs came.
    pub surfaces: Seq<SurfaceView>,
}

impl SessionView {
    /// Every surface is well formed, and no output has two surfaces.
    pub open spec fn wf(self) -> bool {
        &&& forall|i: int| 0 <= i < self.surfaces.len() ==> (#[trigger] self.surfaces[i]).wf()
        &&& forall|i: int, j: int|
            0 <= i < self.surfaces.len() && 0 <= j < self.surfaces.len() && i != j ==> (
            #[trigger] self.surfaces[i]).output != (#[trigger] self.surfaces[j]).output
    }

    /// A session that has just begun.
    pub open spec fn started(options: OptionsView) -> SessionView {
        SessionView {
            options,
            state: LockState::Init,
            password: Seq::empty(),
            surfaces: Seq::empty(),
        }
    }

    /// The session with `color` set on every surface.
    pub open spec fn painted(self, color: u32) -> SessionView {
        SessionView { surfaces: spec_painted(self.surfaces, color), ..self }
    }

    /// The session after the rule on an empty password was applied: a
    /// session at rest with something typed goes to input; a session with
    /// nothing typed goes to rest, unless it never reverts.
    pub open spec fn settled(self) -> SessionView {
        if self.state is Init && self.password.len() > 0 {
            SessionView { state: LockState::Input, ..self.painted(self.options.input_color) }
        } else if self.password.len() == 0 && !self.options.one_way {
            SessionView { state: LockState::Init, ..self.painted(self.options.init_color) }
        } else {
            self
        }
    }

    /// The session after a key. Enter changes nothing by itself: the
    /// verdict does.
    pub open spec fn typed(self, keysym: u32, utf8: Option<Seq<char>>) -> SessionView {
        if spec_classify(keysym) is Enter {
            self
        } else {
            SessionView { password: spec_edited(self.password, keysym, utf8), ..self }.settled()
        }
    }

    /// The session after the keys of `keys` were typed, one after the other.
    pub open spec fn typed_all(self, keys: Seq<(u32, Option<Seq<char>>)>) -> SessionView
        decreases keys.len(),
    {
        if keys.len() == 0 {
            self
        } else {
            self.typed_all(keys.drop_last()).typed(keys.last().0, keys.last().1)
        }
    }

    /// The session after a wrong password: every surface shows the colour
    /// of failure, the password is kept, and the rule on an empty password
    /// is applied.
    pub open spec fn denied(self) -> SessionView {
        SessionView { state: LockState::Fail, ..self.painted(self.options.fail_color) }.settled()
    }

    /// The session after the output `id` came: it has a surface in the
    /// colour of rest, unless it had a surface already.
    pub open spec fn output_created(self, id: u32) -> SessionView {
        if surface_of(self.surfaces, id) is Some {
            self
        } else {
            SessionView {
                surfaces: self.surfaces.push(SurfaceView::created(id, self.options.init_color)),
                ..self
            }
        }
    }

    /// The session after the output `id` went: its surface is gone.
    pub open spec fn output_removed(self, id: u32) -> SessionView {
        match surface_of(self.surfaces, id) {
            Some(i) => SessionView { surfaces: self.surfaces.remove(i), ..self },
            None => self,
        }
    }

    /// The session after the layer surface of output `id` sent `event`.
    pub open spec fn notified(self, id: u32, event: LayerEvent) -> SessionView {
        match surface_of(self.surfaces, id) {
            Some(i) => SessionView {
                surfaces: self.surfaces.update(i, self.surfaces[i].notified(event)),
                ..self
            },
            None => self,
        }
    }

    /// The serial to acknowledge after the layer surface of output `id`
    /// sent `event`.
    pub open spec fn acknowledged(self, id: u32, event: LayerEvent) -> Option<u32> {
        match surface_of(self.surfaces, id) {
            Some(i) => self.surfaces[i].acknowledged(event),
            None => None,
        }
    }

    /// The session after the compositor released the buffer of slot
    /// `index` of the surface of output `id`.
    pub open spec fn released(self, id: u32, index: int) -> SessionView {
        match surface_of(self.surfaces, id) {
            Some(i) => SessionView {
                surfaces: self.surfaces.update(i, self.surfaces[i].released(index)),
                ..self
            },
            None => self,
        }
    }

    /// The session after a round of event handling on every surface.
    pub open spec fn swept(self) -> SessionView {
        SessionView { surfaces: spec_swept(self.surfaces), ..self }
    }
}

/// The session and the queue after the keystrokes of the queue were taken
/// in, one after the other, up to and including the first enter. The action
/// says whether an enter was met.
pub open spec fn spec_drained(session: SessionView, queue: Seq<(u32, Option<String>)>) -> (
    SessionView,
    Seq<(u32, Option<String>)>,
    KeyAction,
)
    decreases queue.len(),
{
    if queue.len() == 0 {
        (session, queue, KeyAction::Continue)
    } else if spec_classify(queue[0].0) is Enter {
        (session, queue.skip(1), KeyAction::Authenticate)
    } else {
        spec_drained(session.typed(queue[0].0, string_view(queue[0].1)), queue.skip(1))
    }
}

/// Setting a colour keeps a session well formed.
pub proof fn lemma_painted_wf(session: SessionView, color: u32)
    requires
        session.wf(),
    ensures
        session.painted(color).wf(),
{
    let painted = session.painted(color);
    assert forall|i: int| 0 <= i < painted.surfaces.len() implies (
    #[trigger] painted.surfaces[i]).wf() && painted.surfaces[i].output
        == session.surfaces[i].output by {
        assert(session.surfaces[i].wf());
    }
}

/// A wrong password is seen on every screen: after the verdict the session
/// has failed, every surface shows the colour of failure, and the password
/// is kept for correction. This holds of a session that never reverts, and
/// of one with something typed; a session that reverts and has nothing
/// typed goes back to rest at once.
pub proof fn wrong_password_shows_failure(session: SessionView)
    requires
        session.wf(),
    ensures
        session.denied().password == session.password,
        session.denied().wf(),
        session.password.len() > 0 || session.options.one_way ==> {
            &&& session.denied().state is Fail
            &&& all_colored(session.denied().surfaces, session.options.fail_color)
        },
        session.password.len() == 0 && !session.options.one_way ==> {
            &&& session.denied().state is Init
            &&& all_colored(session.denied().surfaces, session.options.init_color)
        },
{
    let failed = SessionView {
        state: LockState::Fail,
        ..session.painted(session.options.fail_color)
    };
    lemma_painted_wf(session, session.options.fail_color);
    lemma_painted_wf(failed, session.options.init_color);
}

/// Whatever was typed before, a wrong password is seen on every screen:
/// after any keys and a verdict against the password, the session has
/// failed and every surface shows the colour of failure, if only something
/// is typed by then or the session never reverts.
pub proof fn wrong_password_after_any_keys(
    session: SessionView,
    keys: Seq<(u32, Option<Seq<char>>)>,
)
    requires
        session.wf(),
    ensures
        session.typed_all(keys).wf(),
        session.typed_all(keys).options == session.options,
        session.typed_all(keys).password.len() > 0 || session.options.one_way ==> {
            &&& session.typed_all(keys).denied().state is Fail
            &&& session.typed_all(keys).denied().password == session.typed_all(keys).password
            &&& all_colored(session.typed_all(keys).denied().surfaces, session.options.fail_color)
        },
    decreases keys.len(),
{
    if keys.len() > 0 {
        wrong_password_after_any_keys(session, keys.drop_last());
        password_changes_by_editing(
            session.typed_all(keys.drop_last()),
            keys.last().0,
            keys.last().1,
        );
    }
    wrong_password_shows_failure(session.typed_all(keys));
}

/// Escape clears the password wherever the session stands. A session that
/// may revert is then at rest and shows the colour of rest on every
/// surface; one that never reverts keeps its state and its colours.
pub proof fn escape_clears_password(session: SessionView, utf8: Option<Seq<char>>)
    requires
        session.wf(),
    ensures
        session.typed(KEY_ESCAPE, utf8).password == Seq::<char>::empty(),
        !session.options.one_way ==> {
            &&& session.typed(KEY_ESCAPE, utf8).state is Init
            &&& all_colored(session.typed(KEY_ESCAPE, utf8).surfaces, session.options.init_color)
        },
        session.options.one_way ==> {
            &&& session.typed(KEY_ESCAPE, utf8).state == session.state
            &&& session.typed(KEY_ESCAPE, utf8).surfaces == session.surfaces
        },
{
}

/// A session that never reverts and has left rest stays as it is whatever
/// is typed: neither its state nor any colour changes.
pub proof fn one_way_never_reverts(session: SessionView, keysym: u32, utf8: Option<Seq<char>>)
    requires
        session.wf(),
        session.options.one_way,
        !(session.state is Init),
    ensures
        session.typed(keysym, utf8).state == session.state,
        session.typed(keysym, utf8).surfaces == session.surfaces,
{
}

/// The password changes by editing only: a key adds its text at the end,
/// takes one character off the end, or clears it, and nothing else touches
/// it; in particular no key but escape, and delete on a single character,
/// empties a password.
pub proof fn password_changes_by_editing(session: SessionView, keysym: u32, utf8: Option<Seq<char>>)
    requires
        session.wf(),
    ensures
        session.typed(keysym, utf8).wf(),
        session.typed(keysym, utf8).password == spec_edited(session.password, keysym, utf8),
        session.typed(keysym, utf8).options == session.options,
        session.typed(keysym, utf8).password.len() == 0 && session.password.len() > 0 ==> {
            ||| spec_classify(keysym) is Escape
            ||| spec_classify(keysym) is Erase && session.password.len() == 1
        },
{
    let edited = SessionView {
        password: spec_edited(session.password, keysym, utf8),
        ..session
    };
    lemma_painted_wf(edited, session.options.input_color);
    lemma_painted_wf(edited, session.options.init_color);
}

/// A frame that is handed out to be shown is what its surface should show:
/// the slot was free and is now held by the compositor, it holds at least
/// the pixels of the frame, every one of them in the colour of the surface,
/// and the frame has the size of the surface.
pub proof fn frames_show_the_color(surface: SurfaceView)
    requires
        surface.wf(),
        spec_frame(surface) is Some,
    ensures
        ({
            let frame = spec_frame(surface)->0;
            let after = surface.handled();
            &&& frame.output == surface.output
            &&& frame.slot < 2
            &&& !surface.pool.slot(frame.slot as int).busy
            &&& after.pool.slot(frame.slot as int).busy
            &&& (frame.width, frame.height) == after.dimensions
            &&& drawable(frame.width, frame.height)
            &&& after.pool.slot(frame.slot as int).pixels.len() >= frame.width * frame.height
            &&& painted(after.pool.slot(frame.slot as int).pixels, after.color)
            &&& !after.redraw
        }),
{
}

/// A surface that never got a size is dropped with its output without
/// having drawn: the session is then as if the output had never come.
pub proof fn unconfigured_output_leaves_no_trace(session: SessionView, id: u32)
    requires
        session.wf(),
        surface_of(session.surfaces, id) is None,
    ensures
        session.output_created(id).wf(),
        session.output_created(id).swept().output_removed(id) == session.swept(),
        session.output_created(id).output_removed(id) == session,
{
    let created = session.output_created(id);
    let surface = SurfaceView::created(id, session.options.init_color);
    assert(created.surfaces.drop_last() =~= session.surfaces);
    assert(created.surfaces.last() == surface);
    assert(created.wf()) by {
        assert forall|i: int| 0 <= i < session.surfaces.len() implies (
        #[trigger] session.surfaces[i]).output != id by {}
    }
    lemma_swept_outputs(session.surfaces, id);
    let swept = created.swept().surfaces;
    assert(swept == spec_swept(session.surfaces).push(surface.handled()));
    let n = spec_swept(session.surfaces).len() as int;
    assert(swept[n].output == id);
    assert forall|i: int| 0 <= i < swept.len() && (#[trigger] swept[i]).output == id implies i
        == n by {
        if i < n {
            assert(swept[i] == spec_swept(session.surfaces)[i]);
        }
    }
    assert(surface_of(swept, id) == Some(n));
    assert(swept.remove(n) =~= spec_swept(session.surfaces));
    let m = session.surfaces.len() as int;
    assert(created.surfaces[m].output == id);
    assert forall|i: int| 0 <= i < created.surfaces.len() && (
    #[trigger] created.surfaces[i]).output == id implies i == m by {
        if i < m {
            assert(created.surfaces[i] == session.surfaces[i]);
        }
    }
    assert(surface_of(created.surfaces, id) == Some(m));
    assert(created.surfaces.remove(m) =~= session.surfaces);
}

/// A round of event handling brings no surface for an output that had none.
pub proof fn lemma_swept_outputs(surfaces: Seq<SurfaceView>, id: u32)
    requires
        forall|i: int| 0 <= i < surfaces.len() ==> (#[trigger] surfaces[i]).output != id,
    ensures
        forall|i: int|
            0 <= i < spec_swept(surfaces).len() ==> (#[trigger] spec_swept(surfaces)[i]).output
                != id,
    decreases surfaces.len(),
{
    if surfaces.len() > 0 {
        let init = surfaces.drop_last();
        assert forall|i: int| 0 <= i < init.len() implies (#[trigger] init[i]).output != id by {
            assert(init[i] == surfaces[i]);
        }
        lemma_swept_outputs(init, id);
        assert(surfaces.last() == surfaces[surfaces.len() - 1]);
    }
}

/// What the key with the keysym `keysym` means.
pub fn classify(keysym: u32) -> (key: Key)
    ensures
        key == spec_classify(keysym),
{
    if keysym == KEY_KP_ENTER || keysym == KEY_RETURN {
        Key::Enter
    } else if keysym == KEY_DELETE || keysym == KEY_BACKSPACE {
        Key::Erase
    } else if keysym == KEY_ESCAPE {
        Key::Escape
    } else {
        Key::Other
    }
}

/// A lock session: the options it runs with, the password as far as it is
/// typed, what the screen tells, and one surface for every output.
pub struct LockSession {
    options: Options,
    lock_state: LockState,
    current_password: String,
    lock_surfaces: Vec<LockSurface>,
}

impl View for LockSession {
    type V = SessionView;

    closed spec fn view(&self) -> SessionView {
        SessionView {
            options: self.options@,
            state: self.lock_state,
            password: self.current_password@,
            surfaces: self.lock_surfaces@.map_values(|surface: LockSurface| surface@),
        }
    }
}

impl LockSession {
    /// What holds of every session.
    pub open spec fn wf(&self) -> bool {
        self@.wf()
    }

    /// A session that has just begun: at rest, nothing typed, no outputs.
    pub fn new(options: Options) -> (session: LockSession)
        ensures
            session.wf(),
            session@ == SessionView::started(options@),
    {
        let session = LockSession {
            options,
            lock_state: LockState::Init,
            current_password: String::new(),
            lock_surfaces: Vec::new(),
        };
        assert(session@.surfaces =~= Seq::<SurfaceView>::empty());
        session
    }

    /// The options of the session.
    pub fn options(&self) -> (options: &Options)
        ensures
            options@ == self@.options,
    {
        &self.options
    }

    /// What the screen tells.
    pub fn state(&self) -> (state: LockState)
        ensures
            state == self@.state,
    {
        self.lock_state
    }

    /// The password as far as it is typed.
    pub fn password(&self) -> (password: &str)
        ensures
            password@ == self@.password,
    {
        self.current_password.as_str()
    }

    /// Number of surfaces.
    pub fn surface_count(&self) -> (n: usize)
        ensures
            n == self@.surfaces.len(),
    {
        self.lock_surfaces.len()
    }

    /// The surface at position `index`.
    pub fn surface(&self, index: usize) -> (surface: &LockSurface)
        requires
            index < self@.surfaces.len(),
        ensures
            surface@ == self@.surfaces[index as int],
    {
        &self.lock_surfaces[index]
    }

    /// The position of the surface of output `id`, if there is one.
    pub fn find_surface(&self, id: u32) -> (position: Option<usize>)
        requires
            self.wf(),
        ensures
            position is Some <==> surface_of(self@.surfaces, id) is Some,
            position matches Some(i) ==> surface_of(self@.surfaces, id) == Some(i as int) && i
                < self@.surfaces.len() && self@.surfaces[i as int].output == id,
    {
        let mut i: usize = 0;
        while i < self.lock_surfaces.len()
            invariant
                i <= self.lock_surfaces.len(),
                self.wf(),
                forall|j: int| 0 <= j < i ==> (#[trigger] self@.surfaces[j]).output != id,
            decreases self.lock_surfaces.len() - i,
        {
            if self.lock_surfaces[i].output() == id {
                assert(self@.surfaces[i as int].output == id);
                return Some(i);
            }
            i += 1;
        }
        None
    }

    /// Sets the colour of every surface.
    pub fn set_color(&mut self, color: u32)
        requires
            old(self).wf(),
        ensures
            final(self).wf(),
            final(self)@ == old(self)@.painted(color),
    {
        let n = self.lock_surfaces.len();
        let mut i: usize = 0;
        while i < n
            invariant
                i <= n,
                n == self.lock_surfaces.len(),
                n == old(self).lock_surfaces.len(),
                self.options == old(self).options,
                self.lock_state == old(self).lock_state,
                self.current_password == old(self).current_password,
                forall|j: int| 0 <= j < i ==> (#[trigger] self.lock_surfaces@[j])@ == old(self).lock_surfaces@[j]@.colored(color),
                forall|j: int| i <= j < n ==> (#[trigger] self.lock_surfaces@[j])@ == old(self).lock_surfaces@[j]@,
            decreases n - i,
        {
            self.lock_surfaces[i].set_color(color);
            i += 1;
        }
        assert(self@.surfaces =~= old(self)@.painted(color).surfaces);
        proof {
            lemma_painted_wf(old(self)@, color);
        }
    }

    /// Applies the rule on an empty password.
    fn settle(&mut self)
        requires
            old(self).wf(),
        ensures
            final(self).wf(),
            final(self)@ == old(self)@.settled(),
    {
        let empty = self.current_password.as_str().is_empty();
        match self.lock_state {
            LockState::Init => {
                if !empty {
                    self.set_color(self.options.input_color);
                    self.lock_state = LockState::Input;
                    return ;
                }
            },
            _ => {},
        }
        if empty && !self.options.one_way {
            self.set_color(self.options.init_color);
            self.lock_state = LockState::Init;
        }
    }

    /// Takes a key. Enter changes nothing and asks for the password to be
    /// put to the test. Every other key edits the password: delete and
    /// backspace drop the last character, escape drops all, any other key
    /// adds its text. Then the session goes to input if it was at rest and
    /// something is typed, and to rest if nothing is typed and it may revert.
    pub fn handle_key(&mut self, keysym: u32, utf8: Option<&str>) -> (action: KeyAction)
        requires
            old(self).wf(),
        ensures
            final(self).wf(),
            final(self)@ == old(self)@.typed(keysym, str_view(utf8)),
            action == if spec_classify(keysym) is Enter {
                KeyAction::Authenticate
            } else {
                KeyAction::Continue
            },
    {
        match classify(keysym) {
            Key::Enter => {
                return KeyAction::Authenticate;
            },
            Key::Erase => {
                let _ = self.current_password.pop();
            },
            Key::Escape => {
                self.current_password.clear();
            },
            Key::Other => {
                match utf8 {
                    Some(text) => {
                        self.current_password.append(text);
                    },
                    None => {},
                }
            },
        }
        self.settle();
        KeyAction::Continue
    }

    /// Takes the verdict on the password. Only a right password unlocks. A
    /// wrong one turns every surface to the colour of failure and keeps the
    /// password for correction; the command to run is handed back.
    pub fn handle_verdict(&mut self, success: bool) -> (action: AuthAction)
        requires
            old(self).wf(),
        ensures
            final(self).wf(),
            success <==> action is Unlock,
            success ==> final(self)@ == old(self)@,
            !success ==> final(self)@ == old(self)@.denied(),
            action matches AuthAction::Deny { command } ==> string_view(command) == old(self)@.options.fail_command,
    {
        if success {
            return AuthAction::Unlock;
        }
        self.set_color(self.options.fail_color);
        self.lock_state = LockState::Fail;
        self.settle();
        AuthAction::Deny { command: copy_text(&self.options.fail_command) }
    }

    /// Takes in the keystrokes that wait in `input`, the oldest first, and
    /// stops after the first enter.
    pub fn handle_input(&mut self, input: &mut LockInput) -> (action: KeyAction)
        requires
            old(self).wf(),
        ensures
            final(self).wf(),
            (final(self)@, final(input)@.queue, action) == spec_drained(
                old(self)@,
                old(input)@.queue,
            ),
            final(input)@.seats == old(input)@.seats,
    {
        while input.pending() > 0
            invariant
                self.wf(),
                input@.seats == old(input)@.seats,
                spec_drained(self@, input@.queue) == spec_drained(old(self)@, old(input)@.queue),
            decreases input@.queue.len(),
        {
            let ghost queue = input@.queue;
            match input.pop() {
                Some((keysym, utf8)) => {
                    let text = match &utf8 {
                        Some(text) => Some(text.as_str()),
                        None => None,
                    };
                    match self.handle_key(keysym, text) {
                        KeyAction::Authenticate => {
                            return KeyAction::Authenticate;
                        },
                        KeyAction::Continue => {},
                    }
                },
                None => {},
            }
        }
        KeyAction::Continue
    }

    /// Takes note that the output `id` came: it gets a surface in the
    /// colour of rest. An output that has a surface keeps it.
    pub fn output_created(&mut self, id: u32)
        requires
            old(self).wf(),
        ensures
            final(self).wf(),
            final(self)@ == old(self)@.output_created(id),
    {
        if self.find_surface(id).is_none() {
            let surface = LockSurface::new(id, self.options.init_color);
            self.lock_surfaces.push(surface);
            assert(self@.surfaces =~= old(self)@.output_created(id).surfaces);
        }
    }

    /// Takes note that the output `id` went: its surface is dropped,
    /// whatever it was about to do.
    pub fn output_removed(&mut self, id: u32)
        requires
            old(self).wf(),
        ensures
            final(self).wf(),
            final(self)@ == old(self)@.output_removed(id),
    {
        match self.find_surface(id) {
            Some(i) => {
                let _ = self.lock_surfaces.remove(i);
                assert(self@.surfaces =~= old(self)@.output_removed(id).surfaces);
            },
            None => {},
        }
    }

    /// Hands an event of the layer surface of output `id` to its surface.
    /// Returns the serial to acknowledge, if there is one.
    pub fn surface_event(&mut self, id: u32, event: LayerEvent) -> (ack: Option<u32>)
        requires
            old(self).wf(),
        ensures
            final(self).wf(),
            final(self)@ == old(self)@.notified(id, event),
            ack == old(self)@.acknowledged(id, event),
    {
        match self.find_surface(id) {
            Some(i) => {
                let ack = self.lock_surfaces[i].notify(event);
                assert(self@.surfaces =~= old(self)@.notified(id, event).surfaces);
                ack
            },
            None => None,
        }
    }

    /// Takes note that the compositor released the buffer of slot `index`
    /// of the surface of output `id`.
    pub fn buffer_released(&mut self, id: u32, index: usize)
        requires
            old(self).wf(),
        ensures
            final(self).wf(),
            final(self)@ == old(self)@.released(id, index as int),
    {
        match self.find_surface(id) {
            Some(i) => {
                self.lock_surfaces[i].buffer_released(index);
                assert(self@.surfaces =~= old(self)@.released(id, index as int).surfaces);
            },
            None => {},
        }
    }

    /// Lets every surface handle its events and draw if it has to, and
    /// drops the surfaces that have closed. Returns the frames that were
    /// drawn and the outputs whose surfaces were dropped.
    pub fn handle_surfaces(&mut self) -> (sweep: Sweep)
        requires
            old(self).wf(),
        ensures
            final(self).wf(),
            final(self)@ == old(self)@.swept(),
            sweep.frames@ == spec_frames(old(self)@.surfaces),
            sweep.closed@ == spec_closed(old(self)@.surfaces),
    {
        let ghost before = self@.surfaces;
        let ghost mut done: int = 0;
        let mut frames: Vec<Frame> = Vec::new();
        let mut gone: Vec<u32> = Vec::new();
        let mut i: usize = 0;
        while i != self.lock_surfaces.len()
            invariant
                self.wf(),
                self.options == old(self).options,
                self.lock_state == old(self).lock_state,
                self.current_password == old(self).current_password,
                before == old(self)@.surfaces,
                0 <= done <= before.len(),
                i <= self.lock_surfaces.len(),
                self.lock_surfaces.len() - i == before.len() - done,
                i == spec_swept(before.take(done)).len(),
                self@.surfaces == spec_swept(before.take(done)) + before.skip(done),
                frames@ == spec_frames(before.take(done)),
                gone@ == spec_closed(before.take(done)),
            decreases self.lock_surfaces.len() - i,
        {
            let ghost current = self@.surfaces;
            let ghost kept = spec_swept(before.take(done));
            assert(current[i as int] == before[done]);
            assert(before.take(done + 1).drop_last() =~= before.take(done));
            assert(before.take(done + 1).last() == before[done]);
            let output = self.lock_surfaces[i].output();
            let slot = self.lock_surfaces[i].pool().free_slot();
            let closed = self.lock_surfaces[i].handle_events();
            let ghost handled = self@.surfaces;
            assert(handled =~= current.update(i as int, before[done].handled()));
            assert(self.wf()) by {
                assert forall|a: int| 0 <= a < handled.len() implies (#[trigger] handled[a]).output
                    == current[a].output by {}
            }
            if closed {
                let _ = self.lock_surfaces.remove(i);
                gone.push(output);
                assert(self@.surfaces =~= handled.remove(i as int));
                assert(handled.remove(i as int) =~= kept + before.skip(done + 1));
                assert(self.wf()) by {
                    let swept = self@.surfaces;
                    assert forall|a: int| 0 <= a < swept.len() implies #[trigger] swept[a]
                        == handled[if a < i { a } else { a + 1 }] by {}
                }
            } else {
                match slot {
                    Some(slot) => {
                        if self.lock_surfaces[i].pool().slot(slot).is_busy() {
                            let (width, height) = self.lock_surfaces[i].dimensions();
                            frames.push(Frame { output, slot, width, height });
                        }
                    },
                    None => {},
                }
                i += 1;
                assert(handled =~= kept.push(before[done].handled()) + before.skip(done + 1));
            }
            proof {
                done = done + 1;
            }
        }
        assert(before.take(done) =~= before);
        assert(self@.surfaces =~= spec_swept(before));
        Sweep { frames, closed: gone }
    }

    /// One iteration of the session: the keystrokes that wait are taken in;
    /// if an enter is among them, the iteration stops there and asks for
    /// the verdict; else every surface handles its events, and what that
    /// leaves to do is handed back.
    pub fn iterate(&mut self, input: &mut LockInput) -> (next: Iteration)
        requires
            old(self).wf(),
        ensures
            final(self).wf(),
            final(input)@.seats == old(input)@.seats,
            final(input)@.queue == spec_drained(old(self)@, old(input)@.queue).1,
            spec_drained(old(self)@, old(input)@.queue).2 is Authenticate ==> next is Authenticate
                && final(self)@ == spec_drained(old(self)@, old(input)@.queue).0,
            spec_drained(old(self)@, old(input)@.queue).2 is Continue ==> {
                let drained = spec_drained(old(self)@, old(input)@.queue).0;
                &&& final(self)@ == drained.swept()
                &&& next matches Iteration::Flush(sweep)
                &&& sweep.frames@ == spec_frames(drained.surfaces)
                &&& sweep.closed@ == spec_closed(drained.surfaces)
            },
    {
        match self.handle_input(input) {
            KeyAction::Authenticate => Iteration::Authenticate,
            KeyAction::Continue => Iteration::Flush(self.handle_surfaces()),
        }
    }
}

} // verus!
