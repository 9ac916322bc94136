use vstd::prelude::*;

verus! {

/// Identifier of the button, in a session's welcome message, that starts the
/// rename workflow.
pub const RENAME_BUTTON_ID: &'static str = "rename_button";

/// Identifier of the rename dialog.
pub const RENAME_MODAL_ID: &'static str = "rename_title";

/// Identifier of the dialog's text field that holds the new name.
pub const RENAME_TEXT_ID: &'static str = "rename_text";

/// The bit of the channel-management permission in a permission set.
pub const MANAGE_CHANNELS_BIT: u64 = 16;

/// Relies on serenity's `Permissions::manage_channels`, which tests the
/// `MANAGE_CHANNELS` flag (`1 << 4`) of the set; `from_bits_truncate` keeps
/// that flag as it is.
#[verifier::external_body]
fn manages_channels(permissions: u64) -> (r: bool)
    ensures
        r == (permissions & MANAGE_CHANNELS_BIT != 0),
{
    serenity::model::Permissions::from_bits_truncate(permissions).manage_channels()
}

/// Whether a permission set allows renaming the voice channel.
pub open spec fn may_manage(permissions: Option<u64>) -> bool {
    match permissions {
        Some(bits) => bits & MANAGE_CHANNELS_BIT != 0,
        None => false,
    }
}

/// The kinds of interaction the bot receives.
#[derive(Clone, Copy, Debug, PartialEq, Eq, Structural)]
pub enum InteractionKind {
    MessageComponent,
    ModalSubmit,
    Other,
}

/// Where an interaction goes.
#[derive(Clone, Copy, Debug, PartialEq, Eq, Structural)]
pub enum Route {
    /// The rename button was pressed.
    RenameButton,
    /// The rename dialog was submitted.
    RenameModal,
    /// Not for this bot.
    Ignore,
}

/// Sends an interaction to its step of the rename workflow by its kind and
/// custom identifier.
pub fn route_interaction(kind: InteractionKind, custom_id: &String) -> (r: Route)
    ensures
        r == (if kind == InteractionKind::MessageComponent && custom_id@ == RENAME_BUTTON_ID@ {
            Route::RenameButton
        } else if kind == InteractionKind::ModalSubmit && custom_id@ == RENAME_MODAL_ID@ {
            Route::RenameModal
        } else {
            Route::Ignore
        }),
{
    match kind {
        InteractionKind::MessageComponent => {
            if *custom_id == RENAME_BUTTON_ID.to_owned() {
                Route::RenameButton
            } else {
                Route::Ignore
            }
        },
        InteractionKind::ModalSubmit => {
            if *custom_id == RENAME_MODAL_ID.to_owned() {
                Route::RenameModal
            } else {
                Route::Ignore
            }
        },
        InteractionKind::Other => Route::Ignore,
    }
}

/// The outcome of the permission check of both rename steps.
#[derive(Clone, Copy, Debug, PartialEq, Eq, Structural)]
pub enum RenameGate {
    /// The thread's voice channel is gone: reply "already dissolved".
    Dissolved,
    /// The user may not manage the voice channel: reply "owner only".
    OwnerOnly,
    /// The step may go on.
    Allowed,
}

pub open spec fn gate_spec(resolved: bool, permissions: Option<u64>) -> RenameGate {
    if !resolved {
        RenameGate::Dissolved
    } else if !may_manage(permissions) {
        RenameGate::OwnerOnly
    } else {
        RenameGate::Allowed
    }
}

/// The permission check of a rename step. `resolved` tells whether the thread's voice
/// channel could be found now; `permissions` is the user's permission set on
/// it as fetched now, `None` where that failed.
pub fn rename_gate(resolved: bool, permissions: Option<u64>) -> (r: RenameGate)
    ensures
        r == gate_spec(resolved, permissions),
{
    if !resolved {
        return RenameGate::Dissolved;
    }
    match permissions {
        Some(bits) => if manages_channels(bits) {
            RenameGate::Allowed
        } else {
            RenameGate::OwnerOnly
        },
        None => RenameGate::OwnerOnly,
    }
}

/// The rename button was pressed: the dialog opens only when the check allows.
pub fn button_pressed(resolved: bool, permissions: Option<u64>) -> (r: RenameGate)
    ensures
        r == gate_spec(resolved, permissions),
{
    rename_gate(resolved, permissions)
}

/// A text field of a submitted dialog.
pub struct TextField {
    pub custom_id: String,
    pub value: String,
}

/// The value of the first field of `fields` whose identifier is the rename
/// field's, if any.
pub open spec fn rename_text_spec(fields: Seq<TextField>) -> Option<Seq<char>>
    decreases fields.len(),
{
    if fields.len() == 0 {
        None
    } else if fields[0].custom_id@ == RENAME_TEXT_ID@ {
        Some(fields[0].value@)
    } else {
        rename_text_spec(fields.drop_first())
    }
}

/// Finds the new name among the fields of a submitted dialog.
pub fn find_rename_text(fields: &Vec<TextField>) -> (r: Option<String>)
    ensures
        match r {
            Some(s) => rename_text_spec(fields@) == Some(s@),
            None => rename_text_spec(fields@) is None,
        },
{
    let wanted = RENAME_TEXT_ID.to_owned();
    let mut i: usize = 0;
    assert(fields@.subrange(0, fields@.len() as int) =~= fields@);
    while i < fields.len()
        invariant
            i <= fields@.len(),
            wanted@ == RENAME_TEXT_ID@,
            rename_text_spec(fields@) == rename_text_spec(fields@.subrange(i as int, fields@.len() as int)),
        decreases fields@.len() - i,
    {
        proof {
            let rest = fields@.subrange(i as int, fields@.len() as int);
            assert(rest.drop_first() =~= fields@.subrange(i + 1, fields@.len() as int));
        }
        if fields[i].custom_id == wanted {
            return Some(fields[i].value.clone());
        }
        i = i + 1;
    }
    None
}

/// The outcome of a submitted rename dialog.
#[derive(Debug)]
pub enum RenameCommit {
    /// The thread's voice channel is gone: reply "already dissolved".
    Dissolved,
    /// The user may not manage the voice channel: reply "owner only".
    OwnerOnly,
    /// The dialog holds no rename field.
    MissingField,
    /// Rename the voice channel to `name` and confirm publicly.
    Rename { name: String },
}

/// The rename dialog was submitted. The check is made again on what holds
/// now: nothing is kept from the moment the dialog was opened.
pub fn rename_vc(resolved: bool, permissions: Option<u64>, fields: &Vec<TextField>) -> (r:
    RenameCommit)
    ensures
        gate_spec(resolved, permissions) == RenameGate::Dissolved <==> r is Dissolved,
        gate_spec(resolved, permissions) == RenameGate::OwnerOnly <==> r is OwnerOnly,
        gate_spec(resolved, permissions) == RenameGate::Allowed ==> match r {
            RenameCommit::Rename { name } => rename_text_spec(fields@) == Some(name@),
            RenameCommit::MissingField => rename_text_spec(fields@) is None,
            _ => false,
        },
{
    match rename_gate(resolved, permissions) {
        RenameGate::Dissolved => RenameCommit::Dissolved,
        RenameGate::OwnerOnly => RenameCommit::OwnerOnly,
        RenameGate::Allowed => match find_rename_text(fields) {
            Some(name) => RenameCommit::Rename { name },
            None => RenameCommit::MissingField,
        },
    }
}

/// The permission is checked again when the dialog is submitted: a user who
/// could open the dialog but may no longer manage the voice channel is turned
/// away at commit, whatever the dialog holds.
pub proof fn lemma_commit_rechecks_permission(
    opened_with: Option<u64>,
    submitted_with: Option<u64>,
)
    requires
        gate_spec(true, opened_with) == RenameGate::Allowed,
        !may_manage(submitted_with),
    ensures
        gate_spec(true, submitted_with) == RenameGate::OwnerOnly,
{
}

} // verus!
