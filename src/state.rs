use vstd::prelude::*;

verus! {

/// The engine's numbering of the repository states it reports.
pub const STATE_NONE: i32 = 0;
pub const STATE_MERGE: i32 = 1;
pub const STATE_REVERT: i32 = 2;
pub const STATE_CHERRYPICK: i32 = 4;
pub const STATE_BISECT: i32 = 6;
pub const STATE_REBASE: i32 = 7;
pub const STATE_REBASE_INTERACTIVE: i32 = 8;
pub const STATE_REBASE_MERGE: i32 = 9;
pub const STATE_APPLY_MAILBOX: i32 = 10;
pub const STATE_APPLY_MAILBOX_OR_REBASE: i32 = 11;

/// The operation in progress in a repository, if any.
#[derive(Debug, Clone, Copy, PartialEq, Eq, Structural)]
pub enum RepositoryState {
    Clean,
    Merge,
    Revert,
    CherryPick,
    Bisect,
    Rebase,
    RebaseInteractive,
    RebaseMerge,
    ApplyMailbox,
    ApplyMailboxOrRebase,
}

/// The state that the engine's value `code` stands for, `None` for any value
/// that is not one of the ten states above.
pub open spec fn state_of(code: int) -> Option<RepositoryState> {
    if code == STATE_NONE { Some(RepositoryState::Clean) }
    else if code == STATE_MERGE { Some(RepositoryState::Merge) }
    else if code == STATE_REVERT { Some(RepositoryState::Revert) }
    else if code == STATE_CHERRYPICK { Some(RepositoryState::CherryPick) }
    else if code == STATE_BISECT { Some(RepositoryState::Bisect) }
    else if code == STATE_REBASE { Some(RepositoryState::Rebase) }
    else if code == STATE_REBASE_INTERACTIVE { Some(RepositoryState::RebaseInteractive) }
    else if code == STATE_REBASE_MERGE { Some(RepositoryState::RebaseMerge) }
    else if code == STATE_APPLY_MAILBOX { Some(RepositoryState::ApplyMailbox) }
    else if code == STATE_APPLY_MAILBOX_OR_REBASE { Some(RepositoryState::ApplyMailboxOrRebase) }
    else { None }
}

/// The engine's value for each state.
pub open spec fn code_of(s: RepositoryState) -> int {
    match s {
        RepositoryState::Clean => STATE_NONE as int,
        RepositoryState::Merge => STATE_MERGE as int,
        RepositoryState::Revert => STATE_REVERT as int,
        RepositoryState::CherryPick => STATE_CHERRYPICK as int,
        RepositoryState::Bisect => STATE_BISECT as int,
        RepositoryState::Rebase => STATE_REBASE as int,
        RepositoryState::RebaseInteractive => STATE_REBASE_INTERACTIVE as int,
        RepositoryState::RebaseMerge => STATE_REBASE_MERGE as int,
        RepositoryState::ApplyMailbox => STATE_APPLY_MAILBOX as int,
        RepositoryState::ApplyMailboxOrRebase => STATE_APPLY_MAILBOX_OR_REBASE as int,
    }
}

impl RepositoryState {
    /// Decodes the engine's value. `None` means the engine reported a state
    /// this layer does not know, which callers treat as a fatal mismatch.
    pub fn from_raw(code: i32) -> (r: Option<RepositoryState>)
        ensures
            r == state_of(code as int),
    {
        match code {
            STATE_NONE => Some(RepositoryState::Clean),
            STATE_MERGE => Some(RepositoryState::Merge),
            STATE_REVERT => Some(RepositoryState::Revert),
            STATE_CHERRYPICK => Some(RepositoryState::CherryPick),
            STATE_BISECT => Some(RepositoryState::Bisect),
            STATE_REBASE => Some(RepositoryState::Rebase),
            STATE_REBASE_INTERACTIVE => Some(RepositoryState::RebaseInteractive),
            STATE_REBASE_MERGE => Some(RepositoryState::RebaseMerge),
            STATE_APPLY_MAILBOX => Some(RepositoryState::ApplyMailbox),
            STATE_APPLY_MAILBOX_OR_REBASE => Some(RepositoryState::ApplyMailboxOrRebase),
            _ => None,
        }
    }

    /// The engine's value for this state.
    pub fn raw(&self) -> (r: i32)
        ensures
            r as int == code_of(*self),
    {
        match self {
            RepositoryState::Clean => STATE_NONE,
            RepositoryState::Merge => STATE_MERGE,
            RepositoryState::Revert => STATE_REVERT,
            RepositoryState::CherryPick => STATE_CHERRYPICK,
            RepositoryState::Bisect => STATE_BISECT,
            RepositoryState::Rebase => STATE_REBASE,
            RepositoryState::RebaseInteractive => STATE_REBASE_INTERACTIVE,
            RepositoryState::RebaseMerge => STATE_REBASE_MERGE,
            RepositoryState::ApplyMailbox => STATE_APPLY_MAILBOX,
            RepositoryState::ApplyMailboxOrRebase => STATE_APPLY_MAILBOX_OR_REBASE,
        }
    }

    /// True for a repository with no operation in progress.
    pub fn is_clean(&self) -> (r: bool)
        ensures
            r == (*self == RepositoryState::Clean),
    {
        match self {
            RepositoryState::Clean => true,
            _ => false,
        }
    }
}

/// Every state decodes from its own engine value, so the decoding misses none.
pub proof fn lemma_state_round_trip(s: RepositoryState)
    ensures
        state_of(code_of(s)) == Some(s),
{
}

/// Exactly the ten states' own values decode; every other value is refused
/// rather than mapped onto some state.
pub proof fn lemma_state_known_values(code: int)
    ensures
        state_of(code) is Some <==> exists|s: RepositoryState| code_of(s) == code,
{
    if state_of(code) is Some {
        assert(code_of(state_of(code)->0) == code);
    }
}

} // verus!
