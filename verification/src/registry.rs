//! The registration manager: a two-state machine that owns the decision of
//! when the hook adapter occupies the host runtime's single trace-hook slot.
//!
//! The slot itself lives in the host runtime; the embedding glue reads it,
//! asks this state machine what the slot should become, and writes the
//! answer back. Keeping the decision pure makes the lifecycle rules —
//! idempotent enable and disable, restoration of a previously installed
//! hook, never clobbering a hook installed after ours — provable.

use vstd::prelude::*;

verus! {

/// Whether installation takes the slot for itself or composes with a hook
/// already present by chaining to it.
#[derive(Clone, Copy, PartialEq, Eq, Structural, Debug)]
pub enum InstallMode {
    /// Refuse to install over a foreign hook; own the slot fully.
    Exclusive,
    /// Install over a foreign hook and keep calling it first.
    Chained,
}

/// What the host's trace-hook slot holds.
#[derive(Clone, Copy, PartialEq, Eq, Structural, Debug)]
pub enum SlotContent {
    /// No hook installed.
    Vacant,
    /// A hook installed by someone else, under an opaque identity.
    Foreign(u64),
    /// This library's hook adapter.
    Adapter,
}

/// Why `enable` reported failure.
#[derive(Clone, Copy, PartialEq, Eq, Structural, Debug)]
pub enum RegistrationError {
    /// Exclusive installation was asked for while a foreign hook held the
    /// slot.
    SlotOccupied,
}

/// The lifecycle state.
#[derive(Clone, Copy, PartialEq, Eq, Structural, Debug)]
pub enum RegState {
    Uninstalled,
    Installed,
}

/// The registration manager. While installed it remembers what the slot
/// held before, both to chain to it and to restore it on disable.
#[derive(Clone, Copy, PartialEq, Eq, Structural, Debug)]
pub struct RegistrationManager {
    /// Lifecycle state.
    pub state: RegState,
    /// Installation mode chosen at construction.
    pub mode: InstallMode,
    /// What the slot held before our adapter was installed; meaningful
    /// only while installed.
    pub saved_previous: SlotContent,
}

/// The outcome of `spec_enable`: the manager afterwards, the slot
/// afterwards, and whether installation was accepted.
pub open spec fn spec_enable(m: RegistrationManager, slot: SlotContent) -> (
    RegistrationManager,
    SlotContent,
    bool,
) {
    if m.state == RegState::Installed {
        (m, slot, true)
    } else if m.mode == InstallMode::Exclusive && (slot matches SlotContent::Foreign(_)) {
        (m, slot, false)
    } else {
        (
            RegistrationManager { state: RegState::Installed, mode: m.mode, saved_previous: slot },
            SlotContent::Adapter,
            true,
        )
    }
}

/// The outcome of `spec_disable`: the manager afterwards and the slot
/// afterwards. The saved previous content is restored only when the slot
/// still holds our adapter; a hook someone installed over ours is left
/// alone.
pub open spec fn spec_disable(m: RegistrationManager, slot: SlotContent) -> (
    RegistrationManager,
    SlotContent,
) {
    if m.state != RegState::Installed {
        (m, slot)
    } else {
        let restored = if slot == SlotContent::Adapter {
            m.saved_previous
        } else {
            slot
        };
        (
            RegistrationManager {
                state: RegState::Uninstalled,
                mode: m.mode,
                saved_previous: SlotContent::Vacant,
            },
            restored,
        )
    }
}

impl RegistrationManager {
    pub open spec fn spec_state(&self) -> RegState {
        self.state
    }

    pub open spec fn spec_mode(&self) -> InstallMode {
        self.mode
    }

    pub open spec fn spec_saved_previous(&self) -> SlotContent {
        self.saved_previous
    }

    /// A fresh manager: uninstalled, in the given installation mode.
    pub fn new(mode: InstallMode) -> (m: RegistrationManager)
        ensures
            m == (RegistrationManager {
                state: RegState::Uninstalled,
                mode,
                saved_previous: SlotContent::Vacant,
            }),
    {
        RegistrationManager { state: RegState::Uninstalled, mode, saved_previous: SlotContent::Vacant }
    }

    /// Whether the hook adapter is currently installed.
    pub fn is_installed(&self) -> (b: bool)
        ensures
            b == (self.spec_state() == RegState::Installed),
    {
        matches!(self.state, RegState::Installed)
    }

    /// Asks to install the hook adapter, given what the slot holds now.
    /// Returns what the slot must become; installing while already
    /// installed is a no-op, and exclusive installation over a foreign
    /// hook is refused and changes nothing.
    pub fn enable(&mut self, slot: SlotContent) -> (r: Result<SlotContent, RegistrationError>)
        ensures
            ({
                let (m1, s1, ok) = spec_enable(*old(self), slot);
                &&& *final(self) == m1
                &&& (r is Ok <==> ok)
                &&& (r matches Ok(s) ==> s == s1)
                &&& (r is Err ==> r == Result::<SlotContent, RegistrationError>::Err(
                    RegistrationError::SlotOccupied,
                ) && s1 == slot)
            }),
    {
        if matches!(self.state, RegState::Installed) {
            Result::Ok(slot)
        } else if matches!(self.mode, InstallMode::Exclusive) && matches!(
            slot,
            SlotContent::Foreign(_),
        ) {
            Result::Err(RegistrationError::SlotOccupied)
        } else {
            self.saved_previous = slot;
            self.state = RegState::Installed;
            Result::Ok(SlotContent::Adapter)
        }
    }

    /// Asks to remove the hook adapter, given what the slot holds now.
    /// Returns what the slot must become: the content saved at enable time
    /// when the slot still holds our adapter, the slot unchanged otherwise.
    /// Disabling while uninstalled is a no-op.
    pub fn disable(&mut self, slot: SlotContent) -> (new_slot: SlotContent)
        ensures
            (*final(self), new_slot) == spec_disable(*old(self), slot),
    {
        if matches!(self.state, RegState::Installed) {
            let restored: SlotContent = if matches!(slot, SlotContent::Adapter) {
                self.saved_previous
            } else {
                slot
            };
            self.state = RegState::Uninstalled;
            self.saved_previous = SlotContent::Vacant;
            restored
        } else {
            slot
        }
    }

    /// The previous hook of a chained installation: present exactly when
    /// installed in chained mode over a foreign hook.
    pub open spec fn spec_chain_target(&self) -> Option<u64> {
        if self.state == RegState::Installed && self.mode == InstallMode::Chained {
            match self.saved_previous {
                SlotContent::Foreign(h) => Option::Some(h),
                _ => Option::None,
            }
        } else {
            Option::None
        }
    }

    /// The hook the adapter must invoke before its own work: present
    /// exactly when installed in chained mode over a foreign hook.
    pub fn chain_target(&self) -> (t: Option<u64>)
        ensures
            t == self.spec_chain_target(),
    {
        if matches!(self.state, RegState::Installed) && matches!(self.mode, InstallMode::Chained) {
            match self.saved_previous {
                SlotContent::Foreign(h) => Option::Some(h),
                _ => Option::None,
            }
        } else {
            Option::None
        }
    }
}

/// Law: `enable` followed immediately by `disable` leaves the slot exactly
/// as it was, in both installation modes, whether or not the installation
/// was accepted.
pub proof fn lemma_enable_disable_round_trip(m: RegistrationManager, slot: SlotContent)
    requires
        m.spec_state() == RegState::Uninstalled,
    ensures
        ({
            let (m1, s1, _ok) = spec_enable(m, slot);
            let (m2, s2) = spec_disable(m1, s1);
            s2 == slot && m2.spec_state() == RegState::Uninstalled
        }),
{
}

/// Law: `enable` is idempotent — a second enable changes neither the
/// manager nor the slot — and so is `disable`.
pub proof fn lemma_enable_disable_idempotent(m: RegistrationManager, slot: SlotContent)
    ensures
        ({
            let (m1, s1, _ok) = spec_enable(m, slot);
            m1.spec_state() == RegState::Installed ==> spec_enable(m1, s1) == (m1, s1, true)
        }),
        ({
            let (m1, s1) = spec_disable(m, slot);
            spec_disable(m1, s1) == (m1, s1)
        }),
{
}

} // verus!
