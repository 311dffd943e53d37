//! The levels at which the engine initializes an extension.
//!
//! The engine brings an extension up level by level and takes it down in the
//! reverse order. An [`InitHandle`] records for which levels the extension
//! has registered a layer; the layers themselves stay with the caller.

use vstd::prelude::*;

verus! {

/// A stage of the engine's startup.
#[derive(Copy, Clone, Debug, PartialEq, Eq, Hash, Structural)]
pub enum InitLevel {
    Core,
    Servers,
    Scene,
    Editor,
}

impl InitLevel {
    /// The number under which the engine knows the level; lower levels come
    /// up first.
    pub open spec fn ord(self) -> int {
        match self {
            InitLevel::Core => 0,
            InitLevel::Servers => 1,
            InitLevel::Scene => 2,
            InitLevel::Editor => 3,
        }
    }

    /// The level that the engine knows as `level`; a number that the engine
    /// does not define counts as `Scene`.
    pub open spec fn from_sys_spec(level: u32) -> InitLevel {
        if level == 0 {
            InitLevel::Core
        } else if level == 1 {
            InitLevel::Servers
        } else if level == 3 {
            InitLevel::Editor
        } else {
            InitLevel::Scene
        }
    }

    /// The level that the engine knows as `level`.
    pub fn from_sys(level: u32) -> (init_level: Self)
        ensures
            init_level == Self::from_sys_spec(level),
            level < 4 ==> init_level.ord() == level,
    {
        match level {
            0 => InitLevel::Core,
            1 => InitLevel::Servers,
            2 => InitLevel::Scene,
            3 => InitLevel::Editor,
            _ => InitLevel::Scene,
        }
    }

    /// Whether the engine defines a level with the number `level`.
    pub fn is_known(level: u32) -> (known: bool)
        ensures
            known == (level < 4),
    {
        level < 4
    }

    /// The number under which the engine knows the level.
    pub fn to_sys(self) -> (level: u32)
        ensures
            level == self.ord(),
            Self::from_sys_spec(level) == self,
    {
        match self {
            InitLevel::Core => 0,
            InitLevel::Servers => 1,
            InitLevel::Scene => 2,
            InitLevel::Editor => 3,
        }
    }
}

/// Records the levels for which the extension has registered a layer.
#[derive(Copy, Clone, Debug, PartialEq, Eq, Structural)]
pub struct InitHandle {
    core: bool,
    servers: bool,
    scene: bool,
    editor: bool,
}

impl InitHandle {
    /// Whether a layer is registered for `level`.
    pub closed spec fn registered(self, level: InitLevel) -> bool {
        match level {
            InitLevel::Core => self.core,
            InitLevel::Servers => self.servers,
            InitLevel::Scene => self.scene,
            InitLevel::Editor => self.editor,
        }
    }

    /// The lowest level with a layer; `Scene` where there is none.
    pub open spec fn lowest(self) -> InitLevel {
        if self.registered(InitLevel::Core) {
            InitLevel::Core
        } else if self.registered(InitLevel::Servers) {
            InitLevel::Servers
        } else if self.registered(InitLevel::Scene) {
            InitLevel::Scene
        } else if self.registered(InitLevel::Editor) {
            InitLevel::Editor
        } else {
            InitLevel::Scene
        }
    }

    /// A handle without layers.
    pub fn new() -> (handle: Self)
        ensures
            forall|level: InitLevel| !handle.registered(level),
    {
        InitHandle { core: false, servers: false, scene: false, editor: false }
    }

    /// Records a layer for `level`. A layer registered earlier for the same
    /// level is replaced.
    pub fn register_layer(&mut self, level: InitLevel)
        ensures
            final(self).registered(level),
            forall|other: InitLevel|
                other != level ==> final(self).registered(other) == old(self).registered(other),
    {
        match level {
            InitLevel::Core => {
                self.core = true;
            },
            InitLevel::Servers => {
                self.servers = true;
            },
            InitLevel::Scene => {
                self.scene = true;
            },
            InitLevel::Editor => {
                self.editor = true;
            },
        }
    }

    /// Whether a layer is registered for `level`: whether anything is to be
    /// run when the engine brings that level up or takes it down.
    pub fn has_layer(&self, level: InitLevel) -> (yes: bool)
        ensures
            yes == self.registered(level),
    {
        match level {
            InitLevel::Core => self.core,
            InitLevel::Servers => self.servers,
            InitLevel::Scene => self.scene,
            InitLevel::Editor => self.editor,
        }
    }

    /// The level from which the engine has to call the extension: the lowest
    /// one with a layer, `Scene` where there is none.
    pub fn lowest_init_level(&self) -> (level: InitLevel)
        ensures
            level == self.lowest(),
    {
        if self.core {
            InitLevel::Core
        } else if self.servers {
            InitLevel::Servers
        } else if self.scene {
            InitLevel::Scene
        } else if self.editor {
            InitLevel::Editor
        } else {
            InitLevel::Scene
        }
    }
}

/// No layer is registered below the lowest level, and where any layer is
/// registered the lowest level has one.
pub proof fn lemma_lowest_level(handle: InitHandle, level: InitLevel)
    ensures
        handle.registered(level) ==> handle.lowest().ord() <= level.ord(),
        handle.registered(level) ==> handle.registered(handle.lowest()),
{
}

} // verus!
