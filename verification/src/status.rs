//! The two independent status axes of a machine: whether its container
//! exists and runs, and whether its configuration is built and current.

use crate::text::same;
use vstd::prelude::*;
use vstd::string::*;

verus! {

/// Run-state of a container, as the backend reports it.
#[derive(Debug, PartialEq, Eq, Clone, Copy, Structural)]
pub enum PlatformStatus {
    /// No container is registered under the name.
    NotInstalled,
    /// The container is registered but not active.
    Stopped,
    /// The container is registered and active.
    Running,
}

/// Build-state of a machine's configuration.
#[derive(Debug, PartialEq, Eq, Clone, Copy, Structural)]
pub enum ConfigStatus {
    /// The machine was added, but not built and installed.
    NotInstalled,
    /// Built and installed, but the build recipe has changed since.
    Modified,
    /// Built and installed, but the dependency lock has changed since.
    UpdatesAvailable,
    /// Built, installed and up to date.
    UpToDate,
}

/// What a command substitution of a shell keeps of an output is non-empty:
/// some byte of it is not a line feed.
pub open spec fn shows_change(out: Seq<u8>) -> bool {
    exists|i: int| 0 <= i < out.len() && out[i] != 10u8
}

/// The build-state that follows from which tracked files differ from their
/// recorded version.
pub open spec fn status_of_diff(recipe_changed: bool, lock_changed: bool) -> ConfigStatus {
    if recipe_changed {
        ConfigStatus::Modified
    } else if lock_changed {
        ConfigStatus::UpdatesAvailable
    } else {
        ConfigStatus::UpToDate
    }
}

/// The build-state of a machine, from the run-state of its container, the
/// presence of its built-system marker and the two diff results.
pub open spec fn derived_status(
    platform: PlatformStatus,
    marker_present: bool,
    recipe_changed: bool,
    lock_changed: bool,
) -> ConfigStatus {
    if platform == PlatformStatus::NotInstalled || !marker_present {
        ConfigStatus::NotInstalled
    } else {
        status_of_diff(recipe_changed, lock_changed)
    }
}

/// Whether the output of a diff command reports a change.
pub fn output_changed(out: &Vec<u8>) -> (changed: bool)
    ensures
        changed == shows_change(out@),
{
    let mut i: usize = 0;
    while i < out.len()
        invariant
            i <= out.len(),
            forall|j: int| 0 <= j < i ==> out@[j] == 10u8,
        decreases out.len() - i,
    {
        if out[i] != 10u8 {
            return true;
        }
        i = i + 1;
    }
    false
}

impl ConfigStatus {
    /// The name under which a status is printed and read.
    pub open spec fn name_of(self) -> Seq<char> {
        match self {
            ConfigStatus::NotInstalled => "NotInstalled"@,
            ConfigStatus::Modified => "Modified"@,
            ConfigStatus::UpdatesAvailable => "UpdatesAvailable"@,
            ConfigStatus::UpToDate => "UpToDate"@,
        }
    }

    /// The status that a text names, if it names one.
    pub open spec fn named_by(s: Seq<char>) -> Option<ConfigStatus> {
        if s == "NotInstalled"@ {
            Some(ConfigStatus::NotInstalled)
        } else if s == "Modified"@ {
            Some(ConfigStatus::Modified)
        } else if s == "UpdatesAvailable"@ {
            Some(ConfigStatus::UpdatesAvailable)
        } else if s == "UpToDate"@ {
            Some(ConfigStatus::UpToDate)
        } else {
            None
        }
    }

    /// The variant's name.
    pub fn name(&self) -> (r: &'static str)
        ensures
            r@ == self.name_of(),
    {
        match self {
            ConfigStatus::NotInstalled => "NotInstalled",
            ConfigStatus::Modified => "Modified",
            ConfigStatus::UpdatesAvailable => "UpdatesAvailable",
            ConfigStatus::UpToDate => "UpToDate",
        }
    }

    /// The variant's name as an owned string.
    pub fn to_string(&self) -> (r: String)
        ensures
            r@ == self.name_of(),
    {
        String::from_str(self.name())
    }

    /// Reads a status from its exact, case-sensitive name.
    pub fn parse(s: &str) -> (r: Option<ConfigStatus>)
        ensures
            r == Self::named_by(s@),
    {
        if same(s, "NotInstalled") {
            Some(ConfigStatus::NotInstalled)
        } else if same(s, "Modified") {
            Some(ConfigStatus::Modified)
        } else if same(s, "UpdatesAvailable") {
            Some(ConfigStatus::UpdatesAvailable)
        } else if same(s, "UpToDate") {
            Some(ConfigStatus::UpToDate)
        } else {
            None
        }
    }

    /// A changed recipe gives `Modified` whatever the lock; otherwise a changed
    /// lock gives `UpdatesAvailable`; otherwise the configuration is `UpToDate`.
    pub fn from_diff(recipe_changed: bool, lock_changed: bool) -> (r: ConfigStatus)
        ensures
            r == status_of_diff(recipe_changed, lock_changed),
            recipe_changed ==> r == ConfigStatus::Modified,
            !recipe_changed && lock_changed ==> r == ConfigStatus::UpdatesAvailable,
            !recipe_changed && !lock_changed ==> r == ConfigStatus::UpToDate,
    {
        if recipe_changed {
            ConfigStatus::Modified
        } else if lock_changed {
            ConfigStatus::UpdatesAvailable
        } else {
            ConfigStatus::UpToDate
        }
    }

    /// The build-state of a machine whose container is in state `platform`.
    /// Without a container, or without the built-system marker, nothing is
    /// installed and the diff results are not looked at.
    pub fn derive(
        platform: PlatformStatus,
        marker_present: bool,
        recipe_changed: bool,
        lock_changed: bool,
    ) -> (r: ConfigStatus)
        ensures
            r == derived_status(platform, marker_present, recipe_changed, lock_changed),
    {
        if platform == PlatformStatus::NotInstalled || !marker_present {
            ConfigStatus::NotInstalled
        } else {
            Self::from_diff(recipe_changed, lock_changed)
        }
    }
}

/// Printing a status and reading the text back gives the status again.
pub proof fn lemma_parse_name(status: ConfigStatus)
    ensures
        ConfigStatus::named_by(status.name_of()) == Some(status),
{
    reveal_strlit("NotInstalled");
    reveal_strlit("Modified");
    reveal_strlit("UpdatesAvailable");
    reveal_strlit("UpToDate");
    assert("NotInstalled"@.len() == 12);
    assert("UpdatesAvailable"@.len() == 16);
    assert("Modified"@[0] == 'M');
}

/// A text is read as a status only if it is that status's name.
pub proof fn lemma_parse_exact(s: Seq<char>, status: ConfigStatus)
    requires
        ConfigStatus::named_by(s) == Some(status),
    ensures
        s == status.name_of(),
{
}

} // verus!
