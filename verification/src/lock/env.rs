//! The protocol environment: the handshake with the compositor, and the
//! globals that the compositor advertises.

use vstd::prelude::*;
use crate::lock::output::{
    copy_ids, remove_id, spec_without, LockOutputHandler, OutputHandling, OutputsView,
};

verus! {

/// The globals of which the locker needs exactly one.
#[derive(Debug, Clone, Copy, PartialEq, Eq)]
pub enum Global {
    Compositor,
    LayerShell,
    InhibitManager,
    Shm,
}

/// What an advertised interface is to the locker.
#[derive(Debug, Clone, Copy, PartialEq, Eq)]
pub enum Interface {
    /// One of the globals that are bound once.
    Single(Global),
    /// An output: there may be many, and they come and go.
    Output,
    /// A seat: there may be many, and they come and go.
    Seat,
}

/// How far the handshake has come.
#[derive(Debug, Clone, Copy, PartialEq, Eq)]
pub enum Handshake {
    /// The registry is requested; no round trip is done.
    Pending,
    /// One round trip is done. Globals that came up during it may not be
    /// bound yet.
    Half,
    /// Two round trips are done: every global that was advertised is bound.
    Ready,
    /// A round trip failed. Nothing of the environment can be used.
    Failed,
}

/// What the interface called `name` is to the locker, if anything.
pub open spec fn spec_interface(name: Seq<char>) -> Option<Interface> {
    if name == "wl_compositor"@ {
        Some(Interface::Single(Global::Compositor))
    } else if name == "zwlr_layer_shell_v1"@ {
        Some(Interface::Single(Global::LayerShell))
    } else if name == "zwlr_input_inhibit_manager_v1"@ {
        Some(Interface::Single(Global::InhibitManager))
    } else if name == "wl_shm"@ {
        Some(Interface::Single(Global::Shm))
    } else if name == "wl_output"@ {
        Some(Interface::Output)
    } else if name == "wl_seat"@ {
        Some(Interface::Seat)
    } else {
        None
    }
}

/// The handshake after a round trip that went well or not. Two round trips
/// that went well make the environment ready; one that failed makes it
/// fail for good.
pub open spec fn spec_roundtrip(handshake: Handshake, ok: bool) -> Handshake {
    match handshake {
        Handshake::Failed => Handshake::Failed,
        Handshake::Ready => Handshake::Ready,
        Handshake::Pending => if ok {
            Handshake::Half
        } else {
            Handshake::Failed
        },
        Handshake::Half => if ok {
            Handshake::Ready
        } else {
            Handshake::Failed
        },
    }
}

/// The state of the protocol environment.
pub struct EnvView {
    pub handshake: Handshake,
    /// The server-assigned name of each single global that is bound.
    pub compositor: Option<u32>,
    pub layer_shell: Option<u32>,
    pub inhibitor_manager: Option<u32>,
    pub shm: Option<u32>,
    pub outputs: OutputsView,
    /// The server-assigned names of the seats, in the order they came.
    pub seats: Seq<u32>,
    /// The input inhibitor is held.
    pub inhibitor: bool,
}

impl EnvView {
    /// The environment right after the registry was requested.
    pub open spec fn pending() -> EnvView {
        EnvView {
            handshake: Handshake::Pending,
            compositor: None,
            layer_shell: None,
            inhibitor_manager: None,
            shm: None,
            outputs: OutputsView::empty(),
            seats: Seq::empty(),
            inhibitor: false,
        }
    }

    /// The name under which the single global `global` is bound, whether
    /// or not the environment is ready.
    pub open spec fn bound(self, global: Global) -> Option<u32> {
        match global {
            Global::Compositor => self.compositor,
            Global::LayerShell => self.layer_shell,
            Global::InhibitManager => self.inhibitor_manager,
            Global::Shm => self.shm,
        }
    }

    /// The single global `global` as the users of the environment see it:
    /// bound, in an environment that is ready.
    pub open spec fn global(self, global: Global) -> Option<u32> {
        if self.handshake is Ready {
            self.bound(global)
        } else {
            None
        }
    }

    /// The environment with the single global `global` bound under `id`.
    pub open spec fn bind(self, global: Global, id: u32) -> EnvView {
        match global {
            Global::Compositor => EnvView { compositor: Some(id), ..self },
            Global::LayerShell => EnvView { layer_shell: Some(id), ..self },
            Global::InhibitManager => EnvView { inhibitor_manager: Some(id), ..self },
            Global::Shm => EnvView { shm: Some(id), ..self },
        }
    }

    /// The environment after the compositor advertised the global `id`
    /// with the interface called `name`.
    pub open spec fn advertised(self, id: u32, name: Seq<char>) -> EnvView {
        match spec_interface(name) {
            Some(Interface::Single(global)) => self.bind(global, id),
            Some(Interface::Output) => EnvView { outputs: self.outputs.created(id), ..self },
            Some(Interface::Seat) => EnvView { seats: self.seats.push(id), ..self },
            None => self,
        }
    }

    /// The environment after the compositor withdrew the global `id` with
    /// the interface called `name`: outputs and seats go, a single global
    /// stays bound.
    pub open spec fn withdrawn(self, id: u32, name: Seq<char>) -> EnvView {
        match spec_interface(name) {
            Some(Interface::Output) => EnvView { outputs: self.outputs.removed(id), ..self },
            Some(Interface::Seat) => EnvView { seats: spec_without(self.seats, id), ..self },
            _ => self,
        }
    }

    /// The output to tell the listener of after the compositor advertised
    /// the global `id` with the interface called `name`.
    pub open spec fn told_of_advertised(self, id: u32, name: Seq<char>) -> Option<u32> {
        if spec_interface(name) == Some(Interface::Output) {
            self.outputs.told_of_created(id)
        } else {
            None
        }
    }

    /// The output to tell the listener of after the compositor withdrew
    /// the global `id` with the interface called `name`.
    pub open spec fn told_of_withdrawn(self, id: u32, name: Seq<char>) -> Option<u32> {
        if spec_interface(name) == Some(Interface::Output) {
            self.outputs.told_of_removed(id)
        } else {
            None
        }
    }
}

/// The input inhibitor is held from the moment it is acquired: whatever the
/// compositor advertises or withdraws, and however round trips go, it
/// stays held.
pub proof fn inhibitor_stays_held(env: EnvView, id: u32, name: Seq<char>, ok: bool)
    requires
        env.inhibitor,
    ensures
        env.advertised(id, name).inhibitor,
        env.withdrawn(id, name).inhibitor,
        (EnvView { handshake: spec_roundtrip(env.handshake, ok), ..env }).inhibitor,
{
}

/// An environment whose handshake has failed shows none of its globals,
/// and no round trip brings it back.
pub proof fn failed_handshake_is_final(env: EnvView, global: Global, ok: bool)
    requires
        env.handshake is Failed,
    ensures
        env.global(global) is None,
        spec_roundtrip(env.handshake, ok) is Failed,
{
}

/// It takes two round trips that went well to make an environment ready,
/// and no global is seen before.
pub proof fn ready_after_two_round_trips(first: bool, second: bool, env: EnvView, global: Global)
    requires
        env.handshake is Pending,
    ensures
        spec_roundtrip(spec_roundtrip(env.handshake, first), second) is Ready <==> first && second,
        env.global(global) is None,
        (EnvView { handshake: spec_roundtrip(env.handshake, first), ..env }).global(global) is None,
{
}

/// What the interface called `name` is to the locker, if anything.
pub fn interface(name: &str) -> (interface: Option<Interface>)
    ensures
        interface == spec_interface(name@),
{
    let name = name.to_owned();
    if name == "wl_compositor".to_owned() {
        Some(Interface::Single(Global::Compositor))
    } else if name == "zwlr_layer_shell_v1".to_owned() {
        Some(Interface::Single(Global::LayerShell))
    } else if name == "zwlr_input_inhibit_manager_v1".to_owned() {
        Some(Interface::Single(Global::InhibitManager))
    } else if name == "wl_shm".to_owned() {
        Some(Interface::Single(Global::Shm))
    } else if name == "wl_output".to_owned() {
        Some(Interface::Output)
    } else if name == "wl_seat".to_owned() {
        Some(Interface::Seat)
    } else {
        None
    }
}

/// The protocol environment of the locker: four globals of which it needs
/// one each, and the outputs and seats that come and go.
pub struct LockEnv {
    handshake: Handshake,
    compositor: Option<u32>,
    layer_shell: Option<u32>,
    inhibitor_manager: Option<u32>,
    shm: Option<u32>,
    outputs: LockOutputHandler,
    seats: Vec<u32>,
    inhibitor: bool,
}

impl View for LockEnv {
    type V = EnvView;

    closed spec fn view(&self) -> EnvView {
        EnvView {
            handshake: self.handshake,
            compositor: self.compositor,
            layer_shell: self.layer_shell,
            inhibitor_manager: self.inhibitor_manager,
            shm: self.shm,
            outputs: self.outputs@,
            seats: self.seats@,
            inhibitor: self.inhibitor,
        }
    }
}

impl LockEnv {
    /// The environment right after the connection was made and the
    /// registry requested. It is of use after two round trips.
    pub fn init_environment() -> (env: LockEnv)
        ensures
            env@ == EnvView::pending(),
    {
        LockEnv {
            handshake: Handshake::Pending,
            compositor: None,
            layer_shell: None,
            inhibitor_manager: None,
            shm: None,
            outputs: LockOutputHandler::new(),
            seats: Vec::new(),
            inhibitor: false,
        }
    }

    /// Takes note that a round trip was made, and how it went. Returns how
    /// far the handshake has come: the caller makes round trips until it is
    /// ready, and gives up when it has failed.
    pub fn roundtrip(&mut self, ok: bool) -> (handshake: Handshake)
        ensures
            handshake == spec_roundtrip(old(self)@.handshake, ok),
            final(self)@ == (EnvView { handshake, ..old(self)@ }),
    {
        let next = match self.handshake {
            Handshake::Failed => Handshake::Failed,
            Handshake::Ready => Handshake::Ready,
            Handshake::Pending => if ok {
                Handshake::Half
            } else {
                Handshake::Failed
            },
            Handshake::Half => if ok {
                Handshake::Ready
            } else {
                Handshake::Failed
            },
        };
        self.handshake = next;
        next
    }

    /// How far the handshake has come.
    pub fn handshake(&self) -> (handshake: Handshake)
        ensures
            handshake == self@.handshake,
    {
        self.handshake
    }

    /// Takes note that the compositor advertised the global `id` with the
    /// interface called `name`. Returns the id if it is an output that a
    /// listener has to be told of.
    pub fn global_created(&mut self, id: u32, name: &str) -> (told: Option<u32>)
        ensures
            final(self)@ == old(self)@.advertised(id, name@),
            told == old(self)@.told_of_advertised(id, name@),
    {
        match interface(name) {
            Some(Interface::Single(Global::Compositor)) => {
                self.compositor = Some(id);
                None
            },
            Some(Interface::Single(Global::LayerShell)) => {
                self.layer_shell = Some(id);
                None
            },
            Some(Interface::Single(Global::InhibitManager)) => {
                self.inhibitor_manager = Some(id);
                None
            },
            Some(Interface::Single(Global::Shm)) => {
                self.shm = Some(id);
                None
            },
            Some(Interface::Output) => self.outputs.created(id),
            Some(Interface::Seat) => {
                self.seats.push(id);
                None
            },
            None => None,
        }
    }

    /// Takes note that the compositor withdrew the global `id` with the
    /// interface called `name`. Returns the id if it is an output that a
    /// listener has to be told of.
    pub fn global_removed(&mut self, id: u32, name: &str) -> (told: Option<u32>)
        ensures
            final(self)@ == old(self)@.withdrawn(id, name@),
            told == old(self)@.told_of_withdrawn(id, name@),
    {
        match interface(name) {
            Some(Interface::Output) => self.outputs.removed(id),
            Some(Interface::Seat) => {
                remove_id(&mut self.seats, id);
                None
            },
            _ => None,
        }
    }

    /// The name under which the single global `global` is bound, if the
    /// environment is ready and the compositor advertised the global.
    pub fn get_global(&self, global: Global) -> (id: Option<u32>)
        ensures
            id == self@.global(global),
    {
        match self.handshake {
            Handshake::Ready => match global {
                Global::Compositor => self.compositor,
                Global::LayerShell => self.layer_shell,
                Global::InhibitManager => self.inhibitor_manager,
                Global::Shm => self.shm,
            },
            _ => None,
        }
    }

    /// The name under which the single global `global` is bound. To ask
    /// before the environment is ready, or for a global that the
    /// compositor never advertised, is a breach of the protocol.
    pub fn require_global(&self, global: Global) -> (id: u32)
        requires
            self@.global(global) is Some,
        ensures
            Some(id) == self@.global(global),
    {
        self.get_global(global).unwrap()
    }

    /// Acquires the input inhibitor, once. Returns true if this call has
    /// acquired it, so that the request is to be sent, and false if it is
    /// held already. It is held from then on.
    pub fn get_inhibitor(&mut self) -> (acquired: bool)
        requires
            old(self)@.global(Global::InhibitManager) is Some,
        ensures
            acquired == !old(self)@.inhibitor,
            final(self)@ == (EnvView { inhibitor: true, ..old(self)@ }),
    {
        let acquired = !self.inhibitor;
        self.inhibitor = true;
        acquired
    }

    /// Whether the input inhibitor is held.
    pub fn holds_inhibitor(&self) -> (held: bool)
        ensures
            held == self@.inhibitor,
    {
        self.inhibitor
    }

    /// The ids of all outputs, in the order they came.
    pub fn get_all_outputs(&self) -> (all: Vec<u32>)
        ensures
            all@ == self@.outputs.outputs,
    {
        self.outputs.get_all()
    }

    /// The ids of all seats, in the order they came.
    pub fn get_all_seats(&self) -> (all: Vec<u32>)
        ensures
            all@ == self@.seats,
    {
        copy_ids(&self.seats)
    }

    /// Sets or removes the listener for outputs that come. A listener that
    /// is set has to be told at once of every output that is there: their
    /// ids are returned, in the order the outputs came.
    pub fn set_output_created_listener(&mut self, listener: bool) -> (replay: Vec<u32>)
        ensures
            final(self)@ == (EnvView {
                outputs: OutputsView { created_listener: listener, ..old(self)@.outputs },
                ..old(self)@
            }),
            replay@ == old(self)@.outputs.replayed(listener),
    {
        self.outputs.set_created_listener(listener)
    }

    /// Sets or removes the listener for outputs that go.
    pub fn set_output_removed_listener(&mut self, listener: bool)
        ensures
            final(self)@ == (EnvView {
                outputs: OutputsView { removed_listener: listener, ..old(self)@.outputs },
                ..old(self)@
            }),
    {
        self.outputs.set_removed_listener(listener)
    }
}

impl OutputHandling for LockEnv {
    open spec fn outputs(&self) -> OutputsView {
        self@.outputs
    }

    fn set_output_created_listener(&mut self, listener: bool) -> (replay: Vec<u32>) {
        LockEnv::set_output_created_listener(self, listener)
    }

    fn set_output_removed_listener(&mut self, listener: bool) {
        LockEnv::set_output_removed_listener(self, listener)
    }
}

} // verus!
