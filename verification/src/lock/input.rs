//! The seats of the session, their keyboards and pointers, and the queue of
//! keystrokes that the keyboards feed.

use std::collections::VecDeque;
use vstd::prelude::*;

verus! {

/// Whether a key went down or up.
#[derive(Debug, Clone, Copy, PartialEq, Eq)]
pub enum KeyState {
    Released,
    Pressed,
}

/// An event of a keyboard, after the keymap was applied.
#[derive(Debug, Clone)]
pub enum KeyEvent {
    /// The keyboard focus has entered a surface.
    Enter,
    /// The keyboard focus has left a surface.
    Leave,
    /// The modifiers have changed; the keymap state has taken note.
    Modifiers,
    /// A key went down or up.
    Key { keysym: u32, state: KeyState, utf8: Option<String> },
    /// A key is held down and repeats.
    Repeat { keysym: u32, utf8: Option<String> },
}

/// An event of a pointer, as far as the locker looks at it.
#[derive(Debug, Clone, Copy, PartialEq, Eq)]
pub enum PointerEvent {
    /// The pointer has come onto a surface.
    Enter { serial: u32 },
    /// Anything else.
    Other,
}

/// What a seat offers at the moment.
#[derive(Debug, Clone)]
pub struct SeatData {
    /// The name of the seat, which stays the same as long as the seat lives.
    pub name: String,
    pub has_keyboard: bool,
    pub has_pointer: bool,
    /// The seat has been removed.
    pub defunct: bool,
}

/// What to do with a device of a seat.
#[derive(Debug, Clone, Copy, PartialEq, Eq)]
pub enum DeviceAction {
    /// Nothing: the device is mapped and stays, or is neither mapped nor offered.
    Keep,
    /// Map the device: the seat offers it and it is not mapped.
    Bind,
    /// Release the device, and with a keyboard its repeat timer: it is
    /// mapped, and the seat has lost it or is gone.
    Release,
}

/// What to do with the devices of a seat after it has changed.
#[derive(Debug, Clone, Copy, PartialEq, Eq)]
pub struct SeatPlan {
    pub keyboard: DeviceAction,
    pub pointer: DeviceAction,
}

/// A seat as the session tracks it.
pub struct SeatView {
    pub name: Seq<char>,
    /// A keyboard of the seat is mapped.
    pub keyboard: bool,
    /// A pointer of the seat is mapped.
    pub pointer: bool,
}

/// What to do with a device that is `mapped` or not and `offered` or not.
pub open spec fn spec_device_action(mapped: bool, offered: bool) -> DeviceAction {
    if offered && !mapped {
        DeviceAction::Bind
    } else if !offered && mapped {
        DeviceAction::Release
    } else {
        DeviceAction::Keep
    }
}

/// The position of the first seat called `name`, or the number of seats if
/// there is none.
pub open spec fn index_of(seats: Seq<SeatView>, name: Seq<char>) -> int
    decreases seats.len(),
{
    if seats.len() == 0 {
        0
    } else if seats[0].name == name {
        0
    } else {
        1 + index_of(seats.skip(1), name)
    }
}

/// No two seats have the same name.
pub open spec fn distinct_names(seats: Seq<SeatView>) -> bool {
    forall|i: int, j: int|
        0 <= i < seats.len() && 0 <= j < seats.len() && i != j ==> #[trigger] seats[i].name
            != #[trigger] seats[j].name
}

/// Number of seats called `name` that have a keyboard mapped.
pub open spec fn mapped_keyboards(seats: Seq<SeatView>, name: Seq<char>) -> nat
    decreases seats.len(),
{
    if seats.len() == 0 {
        0
    } else {
        let rest = mapped_keyboards(seats.drop_last(), name);
        if seats.last().name == name && seats.last().keyboard {
            rest + 1
        } else {
            rest
        }
    }
}

/// The seats and the queue of keystrokes.
pub struct InputView {
    /// The keystrokes that wait, the oldest first.
    pub queue: Seq<(u32, Option<String>)>,
    pub seats: Seq<SeatView>,
}

impl InputView {
    /// No two seats have the same name.
    pub open spec fn wf(self) -> bool {
        distinct_names(self.seats)
    }

    /// Whether a seat offers a keyboard, and whether it offers a pointer: a
    /// seat that is gone offers neither.
    pub open spec fn offers(data: SeatData) -> (bool, bool) {
        (data.has_keyboard && !data.defunct, data.has_pointer && !data.defunct)
    }

    /// The seat called `name` as it is tracked; a seat that is not tracked
    /// yet has nothing mapped.
    pub open spec fn seat(self, name: Seq<char>) -> SeatView {
        let i = index_of(self.seats, name);
        if i < self.seats.len() {
            self.seats[i]
        } else {
            SeatView { name, keyboard: false, pointer: false }
        }
    }

    /// What to do with the devices of a seat that has changed to `data`.
    pub open spec fn plan(self, data: SeatData) -> SeatPlan {
        let seat = self.seat(data.name@);
        SeatPlan {
            keyboard: spec_device_action(seat.keyboard, Self::offers(data).0),
            pointer: spec_device_action(seat.pointer, Self::offers(data).1),
        }
    }

    /// The seats after the plan for `data` was carried out: the seat is
    /// tracked, and has mapped exactly what it offers.
    pub open spec fn seat_changed(self, data: SeatData) -> InputView {
        let i = index_of(self.seats, data.name@);
        let seat = SeatView {
            name: data.name@,
            keyboard: Self::offers(data).0,
            pointer: Self::offers(data).1,
        };
        if i < self.seats.len() {
            InputView { seats: self.seats.update(i, seat), ..self }
        } else {
            InputView { seats: self.seats.push(seat), ..self }
        }
    }

    /// The seats after the keyboard of the seat called `name` turned out
    /// not to be mapped.
    pub open spec fn keyboard_lost(self, name: Seq<char>) -> InputView {
        let i = index_of(self.seats, name);
        if i < self.seats.len() {
            InputView {
                seats: self.seats.update(i, SeatView { keyboard: false, ..self.seats[i] }),
                ..self
            }
        } else {
            self
        }
    }

    /// The queue after a keyboard reported `event`: a key that went down
    /// and a key that repeats are queued, nothing else is.
    pub open spec fn key_event(self, event: KeyEvent) -> InputView {
        match event {
            KeyEvent::Key { keysym, state: KeyState::Pressed, utf8 } => InputView {
                queue: self.queue.push((keysym, utf8)),
                ..self
            },
            KeyEvent::Repeat { keysym, utf8 } => InputView {
                queue: self.queue.push((keysym, utf8)),
                ..self
            },
            _ => self,
        }
    }

    /// The queue without its oldest keystroke.
    pub open spec fn popped(self) -> InputView {
        if self.queue.len() > 0 {
            InputView { queue: self.queue.skip(1), ..self }
        } else {
            self
        }
    }
}

/// The serial for which the cursor is hidden: that of a pointer that comes
/// onto a surface.
pub open spec fn spec_hide_cursor(event: PointerEvent) -> Option<u32> {
    match event {
        PointerEvent::Enter { serial } => Some(serial),
        PointerEvent::Other => None,
    }
}

/// The only thing that the pointer of a seat does: when it comes onto a
/// surface, the cursor is set to nothing, with the serial that is returned.
pub fn hide_cursor(event: PointerEvent) -> (serial: Option<u32>)
    ensures
        serial == spec_hide_cursor(event),
{
    match event {
        PointerEvent::Enter { serial } => Some(serial),
        PointerEvent::Other => None,
    }
}

/// `index_of` finds the first seat of the name.
pub proof fn lemma_index_of(seats: Seq<SeatView>, name: Seq<char>, i: int)
    requires
        0 <= i <= seats.len(),
        forall|j: int| 0 <= j < i ==> (#[trigger] seats[j]).name != name,
        i < seats.len() ==> seats[i].name == name,
    ensures
        index_of(seats, name) == i,
    decreases i,
{
    if i > 0 {
        let rest = seats.skip(1);
        assert forall|j: int| 0 <= j < i - 1 implies (#[trigger] rest[j]).name != name by {
            assert(rest[j] == seats[j + 1]);
        }
        assert(seats[0].name != name);
        lemma_index_of(rest, name, i - 1);
    }
}

/// What `index_of` returns is in range, names the seat if in range, and no
/// seat before it has the name.
pub proof fn lemma_index_of_is_first(seats: Seq<SeatView>, name: Seq<char>)
    ensures
        0 <= index_of(seats, name) <= seats.len(),
        index_of(seats, name) < seats.len() ==> seats[index_of(seats, name)].name == name,
        forall|j: int| 0 <= j < index_of(seats, name) ==> (#[trigger] seats[j]).name != name,
    decreases seats.len(),
{
    if seats.len() > 0 && seats[0].name != name {
        let rest = seats.skip(1);
        lemma_index_of_is_first(rest, name);
        let k = index_of(rest, name);
        assert forall|j: int| 0 <= j < k + 1 implies (#[trigger] seats[j]).name != name by {
            if j > 0 {
                assert(rest[j - 1] == seats[j]);
            }
        }
        if k < rest.len() {
            assert(rest[k] == seats[k + 1]);
        }
    }
}

/// Keystrokes leave the queue in the order they came in: a key that goes
/// down is put behind all that wait, and what is taken is the oldest. A key
/// that goes up is not queued.
pub proof fn keystrokes_keep_their_order(input: InputView, keysym: u32, utf8: Option<String>)
    ensures
        ({
            let down = KeyEvent::Key { keysym, state: KeyState::Pressed, utf8 };
            let up = KeyEvent::Key { keysym, state: KeyState::Released, utf8 };
            &&& input.key_event(up) == input
            &&& input.key_event(down).queue == input.queue.push((keysym, utf8))
            &&& input.queue.len() > 0 ==> input.key_event(down).queue[0] == input.queue[0]
            &&& input.queue.len() > 0 ==> input.key_event(down).popped().queue
                == input.popped().queue.push((keysym, utf8))
            &&& input.queue.len() == 0 ==> input.key_event(down).popped().queue == input.queue
        }),
{
    let down = KeyEvent::Key { keysym, state: KeyState::Pressed, utf8 };
    if input.queue.len() > 0 {
        assert(input.key_event(down).popped().queue =~= input.popped().queue.push((keysym, utf8)));
    } else {
        assert(input.key_event(down).popped().queue =~= input.queue);
    }
}

/// Among seats with distinct names, the number of keyboards mapped under a
/// name is one if the seat of that name has a keyboard mapped, else none.
pub proof fn lemma_mapped_keyboards(seats: Seq<SeatView>, name: Seq<char>)
    requires
        distinct_names(seats),
    ensures
        mapped_keyboards(seats, name) == if index_of(seats, name) < seats.len()
            && seats[index_of(seats, name)].keyboard {
            1nat
        } else {
            0nat
        },
    decreases seats.len(),
{
    lemma_index_of_is_first(seats, name);
    if seats.len() > 0 {
        let init = seats.drop_last();
        let k = index_of(seats, name);
        let last = seats.len() - 1;
        assert forall|i: int, j: int|
            0 <= i < init.len() && 0 <= j < init.len() && i != j implies (#[trigger] init[i]).name
            != (#[trigger] init[j]).name by {
            assert(init[i] == seats[i]);
            assert(init[j] == seats[j]);
        }
        lemma_mapped_keyboards(init, name);
        if k < last {
            assert forall|j: int| 0 <= j < k implies (#[trigger] init[j]).name != name by {
                assert(init[j] == seats[j]);
            }
            assert(init[k] == seats[k]);
            lemma_index_of(init, name, k);
            assert(seats[last].name != seats[k].name);
        } else {
            assert forall|j: int| 0 <= j < init.len() implies (#[trigger] init[j]).name != name by {
                assert(init[j] == seats[j]);
            }
            lemma_index_of(init, name, init.len() as int);
        }
    }
}

/// The plan for a seat is carried out on seats with distinct names: the
/// names stay distinct, the seat is tracked under its name, and it has
/// mapped what it offers.
pub proof fn lemma_seat_changed(input: InputView, data: SeatData)
    requires
        input.wf(),
    ensures
        input.seat_changed(data).wf(),
        input.seat_changed(data).seat(data.name@) == (SeatView {
            name: data.name@,
            keyboard: InputView::offers(data).0,
            pointer: InputView::offers(data).1,
        }),
        input.seat_changed(data).queue == input.queue,
{
    let name = data.name@;
    let i = index_of(input.seats, name);
    let after = input.seat_changed(data).seats;
    lemma_index_of_is_first(input.seats, name);
    assert forall|a: int, b: int|
        0 <= a < after.len() && 0 <= b < after.len() && a != b implies (#[trigger] after[a]).name
        != (#[trigger] after[b]).name by {
        if a < input.seats.len() && a != i {
            assert(after[a] == input.seats[a]);
        }
        if b < input.seats.len() && b != i {
            assert(after[b] == input.seats[b]);
        }
    }
    assert forall|j: int| 0 <= j < i implies (#[trigger] after[j]).name != name by {
        assert(after[j] == input.seats[j]);
    }
    lemma_index_of(after, name, i);
}

/// What happens to one seat leaves every other seat alone: a change of a
/// seat, and a keyboard that could not be mapped, touch nothing that is
/// tracked under another name.
pub proof fn seats_leave_each_other_alone(input: InputView, data: SeatData, other: Seq<char>)
    requires
        input.wf(),
        other != data.name@,
    ensures
        input.seat_changed(data).seat(other) == input.seat(other),
        input.keyboard_lost(data.name@).seat(other) == input.seat(other),
{
    let j = index_of(input.seats, other);
    lemma_index_of_is_first(input.seats, other);
    lemma_index_of_is_first(input.seats, data.name@);
    let changed = input.seat_changed(data).seats;
    let lost = input.keyboard_lost(data.name@).seats;
    if j < input.seats.len() {
        assert forall|k: int| 0 <= k < j implies (#[trigger] changed[k]).name != other by {
            assert(changed[k].name == input.seats[k].name);
        }
        lemma_index_of(changed, other, j);
        assert forall|k: int| 0 <= k < j implies (#[trigger] lost[k]).name != other by {
            assert(lost[k].name == input.seats[k].name);
        }
        lemma_index_of(lost, other, j);
    } else {
        assert forall|k: int| 0 <= k < changed.len() implies (#[trigger] changed[k]).name
            != other by {
            if k < input.seats.len() {
                assert(changed[k].name == input.seats[k].name);
            }
        }
        lemma_index_of(changed, other, changed.len() as int);
        assert forall|k: int| 0 <= k < lost.len() implies (#[trigger] lost[k]).name != other by {
            assert(lost[k].name == input.seats[k].name);
        }
        lemma_index_of(lost, other, lost.len() as int);
    }
}

/// A seat that goes and comes back under its name has one keyboard, not
/// two. When the seat loses its keyboard or is removed, its keyboard is
/// released, with its repeat timer, if and only if one was mapped; no
/// keyboard is then mapped under the name. When the seat comes back with a
/// keyboard, one is mapped, and exactly one is mapped under the name from
/// then on: a further report of the same seat maps nothing. The queue of
/// keystrokes is not touched by any of this.
pub proof fn replugged_seat_has_one_keyboard(input: InputView, gone: SeatData, back: SeatData)
    requires
        input.wf(),
        gone.name@ == back.name@,
        !gone.has_keyboard || gone.defunct,
        back.has_keyboard && !back.defunct,
    ensures
        ({
            let name = back.name@;
            let released = input.seat_changed(gone);
            let replugged = released.seat_changed(back);
            &&& input.plan(gone).keyboard == if input.seat(name).keyboard {
                DeviceAction::Release
            } else {
                DeviceAction::Keep
            }
            &&& mapped_keyboards(released.seats, name) == 0
            &&& released.plan(back).keyboard == DeviceAction::Bind
            &&& replugged.wf()
            &&& mapped_keyboards(replugged.seats, name) == 1
            &&& replugged.plan(back).keyboard == DeviceAction::Keep
            &&& replugged.queue == input.queue
        }),
{
    let name = back.name@;
    let released = input.seat_changed(gone);
    let replugged = released.seat_changed(back);
    lemma_seat_changed(input, gone);
    lemma_seat_changed(released, back);
    lemma_index_of_is_first(released.seats, name);
    lemma_index_of_is_first(replugged.seats, name);
    lemma_mapped_keyboards(released.seats, name);
    lemma_mapped_keyboards(replugged.seats, name);
}

/// A seat as the session tracks it.
pub struct LockSeat {
    name: String,
    keyboard: bool,
    pointer: bool,
}

impl View for LockSeat {
    type V = SeatView;

    closed spec fn view(&self) -> SeatView {
        SeatView { name: self.name@, keyboard: self.keyboard, pointer: self.pointer }
    }
}

impl LockSeat {
    /// A seat called `name` with nothing mapped.
    pub fn new(name: &str) -> (seat: LockSeat)
        ensures
            seat@ == (SeatView { name: name@, keyboard: false, pointer: false }),
    {
        LockSeat { name: name.to_owned(), keyboard: false, pointer: false }
    }

    /// The name of the seat.
    pub fn name(&self) -> (name: &str)
        ensures
            name@ == self@.name,
    {
        self.name.as_str()
    }

    /// Whether a keyboard of the seat is mapped.
    pub fn has_keyboard(&self) -> (mapped: bool)
        ensures
            mapped == self@.keyboard,
    {
        self.keyboard
    }

    /// Whether a pointer of the seat is mapped.
    pub fn has_pointer(&self) -> (mapped: bool)
        ensures
            mapped == self@.pointer,
    {
        self.pointer
    }
}

/// What to do with a device that is `mapped` or not and `offered` or not.
pub fn device_action(mapped: bool, offered: bool) -> (action: DeviceAction)
    ensures
        action == spec_device_action(mapped, offered),
{
    if offered && !mapped {
        DeviceAction::Bind
    } else if !offered && mapped {
        DeviceAction::Release
    } else {
        DeviceAction::Keep
    }
}

/// The seats of the session and the queue of keystrokes that their
/// keyboards feed.
pub struct LockInput {
    input_queue: VecDeque<(u32, Option<String>)>,
    seats: Vec<LockSeat>,
}

impl View for LockInput {
    type V = InputView;

    closed spec fn view(&self) -> InputView {
        InputView {
            queue: self.input_queue@,
            seats: self.seats@.map_values(|seat: LockSeat| seat@),
        }
    }
}

impl LockInput {
    /// No two seats have the same name.
    pub open spec fn wf(&self) -> bool {
        self@.wf()
    }

    /// No seats and no keystrokes.
    pub fn new() -> (input: LockInput)
        ensures
            input.wf(),
            input@.queue == Seq::<(u32, Option<String>)>::empty(),
            input@.seats == Seq::<SeatView>::empty(),
    {
        let input = LockInput { input_queue: VecDeque::new(), seats: Vec::new() };
        assert(input@.seats =~= Seq::<SeatView>::empty());
        input
    }

    /// The position of the seat called `name`, or the number of seats if
    /// there is none.
    fn find(&self, name: &str) -> (i: usize)
        ensures
            i == index_of(self@.seats, name@),
            i <= self@.seats.len(),
            i < self@.seats.len() ==> self@.seats[i as int].name == name@,
    {
        let wanted = name.to_owned();
        let mut i: usize = 0;
        while i < self.seats.len()
            invariant
                i <= self.seats.len(),
                wanted@ == name@,
                forall|j: int| 0 <= j < i ==> (#[trigger] self@.seats[j]).name != name@,
            ensures
                i < self.seats.len() ==> self@.seats[i as int].name == name@,
            decreases self.seats.len() - i,
        {
            assert(self@.seats[i as int] == self.seats@[i as int]@);
            if self.seats[i].name == wanted {
                break;
            }
            i += 1;
        }
        proof {
            if i < self.seats.len() {
                assert(self@.seats[i as int] == self.seats@[i as int]@);
            }
            lemma_index_of(self@.seats, name@, i as int);
        }
        i
    }

    /// Number of seats that are tracked.
    pub fn seat_count(&self) -> (n: usize)
        ensures
            n == self@.seats.len(),
    {
        self.seats.len()
    }

    /// Whether a keyboard of the seat called `name` is mapped.
    pub fn keyboard_mapped(&self, name: &str) -> (mapped: bool)
        ensures
            mapped == self@.seat(name@).keyboard,
    {
        let i = self.find(name);
        if i < self.seats.len() {
            assert(self@.seats[i as int] == self.seats@[i as int]@);
            self.seats[i].keyboard
        } else {
            false
        }
    }

    /// Whether a pointer of the seat called `name` is mapped.
    pub fn pointer_mapped(&self, name: &str) -> (mapped: bool)
        ensures
            mapped == self@.seat(name@).pointer,
    {
        let i = self.find(name);
        if i < self.seats.len() {
            assert(self@.seats[i as int] == self.seats@[i as int]@);
            self.seats[i].pointer
        } else {
            false
        }
    }

    /// Takes note that a seat was discovered or has changed, and says what
    /// to do with its devices: a keyboard or pointer that the seat offers
    /// and that is not mapped is to be mapped, one that is mapped and that
    /// the seat has lost, or whose seat is gone, is to be released. The seat
    /// is tracked with what it has mapped once that is done.
    pub fn seat_changed(&mut self, data: &SeatData) -> (plan: SeatPlan)
        requires
            old(self).wf(),
        ensures
            final(self).wf(),
            plan == old(self)@.plan(*data),
            final(self)@ == old(self)@.seat_changed(*data),
    {
        let i = self.find(data.name.as_str());
        let keyboard = data.has_keyboard && !data.defunct;
        let pointer = data.has_pointer && !data.defunct;
        let ghost before = self@;
        if i < self.seats.len() {
            assert(self@.seats[i as int] == self.seats@[i as int]@);
            let plan = SeatPlan {
                keyboard: device_action(self.seats[i].keyboard, keyboard),
                pointer: device_action(self.seats[i].pointer, pointer),
            };
            self.seats[i].keyboard = keyboard;
            self.seats[i].pointer = pointer;
            proof {
                assert(self@.seats =~= before.seat_changed(*data).seats);
                assert forall|a: int, b: int|
                    0 <= a < self@.seats.len() && 0 <= b < self@.seats.len() && a != b implies (
                #[trigger] self@.seats[a]).name != (#[trigger] self@.seats[b]).name by {
                    assert(self@.seats[a].name == before.seats[a].name);
                    assert(self@.seats[b].name == before.seats[b].name);
                }
            }
            plan
        } else {
            let plan = SeatPlan {
                keyboard: device_action(false, keyboard),
                pointer: device_action(false, pointer),
            };
            let mut seat = LockSeat::new(data.name.as_str());
            seat.keyboard = keyboard;
            seat.pointer = pointer;
            self.seats.push(seat);
            proof {
                assert(self@.seats =~= before.seat_changed(*data).seats);
                lemma_index_of_is_first(before.seats, data.name@);
                assert forall|a: int, b: int|
                    0 <= a < self@.seats.len() && 0 <= b < self@.seats.len() && a != b implies (
                #[trigger] self@.seats[a]).name != (#[trigger] self@.seats[b]).name by {
                    if a < before.seats.len() {
                        assert(self@.seats[a] == before.seats[a]);
                    }
                    if b < before.seats.len() {
                        assert(self@.seats[b] == before.seats[b]);
                    }
                }
            }
            plan
        }
    }

    /// Takes note that the keyboard of the seat called `name` could not be
    /// mapped: the seat is left without a keyboard, and the next change of
    /// the seat asks for one again.
    pub fn keyboard_failed(&mut self, name: &str)
        requires
            old(self).wf(),
        ensures
            final(self).wf(),
            final(self)@ == old(self)@.keyboard_lost(name@),
    {
        let i = self.find(name);
        let ghost before = self@;
        if i < self.seats.len() {
            assert(self@.seats[i as int] == self.seats@[i as int]@);
            self.seats[i].keyboard = false;
            proof {
                assert(self@.seats =~= before.keyboard_lost(name@).seats);
                assert forall|a: int, b: int|
                    0 <= a < self@.seats.len() && 0 <= b < self@.seats.len() && a != b implies (
                #[trigger] self@.seats[a]).name != (#[trigger] self@.seats[b]).name by {
                    assert(self@.seats[a].name == before.seats[a].name);
                    assert(self@.seats[b].name == before.seats[b].name);
                }
            }
        }
    }

    /// Takes an event of a keyboard: a key that went down and a key that
    /// repeats are queued with their text, everything else is dropped.
    pub fn handle_keyboard_event(&mut self, event: KeyEvent)
        ensures
            final(self)@ == old(self)@.key_event(event),
    {
        match event {
            KeyEvent::Key { keysym, state: KeyState::Pressed, utf8 } => {
                self.input_queue.push_back((keysym, utf8));
            },
            KeyEvent::Repeat { keysym, utf8 } => {
                self.input_queue.push_back((keysym, utf8));
            },
            _ => {},
        }
    }

    /// Number of keystrokes that wait.
    pub fn pending(&self) -> (n: usize)
        ensures
            n == self@.queue.len(),
    {
        self.input_queue.len()
    }

    /// Takes the oldest keystroke from the queue, if there is one.
    pub fn pop(&mut self) -> (keystroke: Option<(u32, Option<String>)>)
        ensures
            final(self)@ == old(self)@.popped(),
            old(self)@.queue.len() == 0 ==> keystroke is None,
            old(self)@.queue.len() > 0 ==> keystroke == Some(old(self)@.queue[0]),
    {
        let keystroke = self.input_queue.pop_front();
        proof {
            if old(self)@.queue.len() > 0 {
                assert(self@.queue =~= old(self)@.queue.skip(1));
            }
        }
        keystroke
    }
}

} // verus!
