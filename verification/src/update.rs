//! The launcher's own update, and the keys that it listens to.

use crate::payload::outcome_told;
use crate::platform::Platform;
use vstd::prelude::*;

verus! {

/// How far the launcher's own update has come.
pub enum SelfUpdate {
    /// It is to be seen whether there is a newer launcher.
    Check,
    /// The newer launcher is to be downloaded and put in place.
    Install,
    /// The launcher is to start again.
    Restart,
    Done(Result<(), String>),
}

pub enum SelfUpdateFacts {
    Check,
    Install,
    Restart,
    Done(Result<(), Seq<char>>),
}

impl View for SelfUpdate {
    type V = SelfUpdateFacts;

    open spec fn view(&self) -> SelfUpdateFacts {
        match *self {
            SelfUpdate::Check => SelfUpdateFacts::Check,
            SelfUpdate::Install => SelfUpdateFacts::Install,
            SelfUpdate::Restart => SelfUpdateFacts::Restart,
            SelfUpdate::Done(r) => SelfUpdateFacts::Done(outcome_told(r)),
        }
    }
}

/// What came of it.
pub enum UpdateReply {
    /// Whether there is a newer launcher.
    Found(bool),
    /// It was done.
    Done,
    /// It failed.
    Failed(String),
}

pub enum UpdateReplyFacts {
    Found(bool),
    Done,
    Failed(Seq<char>),
}

impl View for UpdateReply {
    type V = UpdateReplyFacts;

    open spec fn view(&self) -> UpdateReplyFacts {
        match *self {
            UpdateReply::Found(b) => UpdateReplyFacts::Found(b),
            UpdateReply::Done => UpdateReplyFacts::Done,
            UpdateReply::Failed(e) => UpdateReplyFacts::Failed(e@),
        }
    }
}

impl SelfUpdateFacts {
    /// The update once `reply` has come. A reply that does not belong to what was
    /// to be done changes nothing.
    pub open spec fn after(self, reply: UpdateReplyFacts) -> SelfUpdateFacts {
        match (self, reply) {
            (SelfUpdateFacts::Check, UpdateReplyFacts::Found(newer)) => if newer {
                SelfUpdateFacts::Install
            } else {
                SelfUpdateFacts::Done(Ok(()))
            },
            (SelfUpdateFacts::Install, UpdateReplyFacts::Done) => SelfUpdateFacts::Restart,
            (SelfUpdateFacts::Check, UpdateReplyFacts::Failed(e))
            | (SelfUpdateFacts::Install, UpdateReplyFacts::Failed(e)) => {
                SelfUpdateFacts::Done(Err(e))
            },
            _ => self,
        }
    }
}

/// Starts the launcher's own update.
pub fn self_update_install() -> (update: SelfUpdate)
    ensures
        update@ == SelfUpdateFacts::Check,
{
    SelfUpdate::Check
}

impl SelfUpdate {
    /// The update once `reply` has come.
    pub fn next(self, reply: UpdateReply) -> (update: SelfUpdate)
        ensures
            update@ == self@.after(reply@),
    {
        match (self, reply) {
            (SelfUpdate::Check, UpdateReply::Found(newer)) => {
                if newer {
                    SelfUpdate::Install
                } else {
                    SelfUpdate::Done(Ok(()))
                }
            },
            (SelfUpdate::Install, UpdateReply::Done) => SelfUpdate::Restart,
            (SelfUpdate::Check, UpdateReply::Failed(e))
            | (SelfUpdate::Install, UpdateReply::Failed(e)) => SelfUpdate::Done(Err(e)),
            (update, _) => update,
        }
    }
}

/// The launcher starts again only once a newer one is in place.
pub proof fn law_restart_after_install(update: SelfUpdateFacts, reply: UpdateReplyFacts)
    requires
        update !is Restart,
    ensures
        update.after(reply) is Restart <==> update is Install && reply is Done,
{
}

/// A key that makes the window fullscreen, and back.
#[derive(Clone, Copy, Debug, PartialEq, Eq, Structural)]
pub enum Hotkey {
    F11,
    CommandControlF,
}

/// The keys that a platform listens to: F11 everywhere, and one more on a Mac,
/// which keeps F11 for itself.
pub open spec fn hotkeys(platform: Platform) -> Seq<Hotkey> {
    if platform == Platform::Mac {
        seq![Hotkey::F11, Hotkey::CommandControlF]
    } else {
        seq![Hotkey::F11]
    }
}

/// The keys that a platform listens to.
pub fn fs_shortcuts(platform: Platform) -> (keys: Vec<Hotkey>)
    ensures
        keys@ == hotkeys(platform),
{
    let mut keys: Vec<Hotkey> = Vec::new();
    keys.push(Hotkey::F11);
    match platform {
        Platform::Mac => {
            keys.push(Hotkey::CommandControlF);
        },
        _ => {},
    }
    assert(platform == Platform::Mac ==> keys@ =~= seq![Hotkey::F11, Hotkey::CommandControlF]);
    assert(platform != Platform::Mac ==> keys@ =~= seq![Hotkey::F11]);
    keys
}

/// F11 is listened to on every platform, and the other key on a Mac alone; each once.
pub proof fn law_hotkeys(platform: Platform)
    ensures
        hotkeys(platform)[0] == Hotkey::F11,
        hotkeys(platform).len() == (if platform == Platform::Mac {
            2nat
        } else {
            1nat
        }),
        platform == Platform::Mac ==> hotkeys(platform)[1] == Hotkey::CommandControlF,
{
}

/// The launcher's update step by step: nothing is installed where there is nothing
/// newer, what fails is told as it failed, and any other reply changes nothing.
pub proof fn law_update_step_by_step(update: SelfUpdateFacts, reply: UpdateReplyFacts)
    ensures
        match (update, reply) {
            (SelfUpdateFacts::Check, UpdateReplyFacts::Found(true)) => update.after(reply)
                is Install,
            (SelfUpdateFacts::Check, UpdateReplyFacts::Found(false)) => update.after(reply)
                == SelfUpdateFacts::Done(Ok(())),
            (SelfUpdateFacts::Check, UpdateReplyFacts::Failed(e)) => update.after(reply)
                == SelfUpdateFacts::Done(Err(e)),
            (SelfUpdateFacts::Install, UpdateReplyFacts::Done) => update.after(reply) is Restart,
            (SelfUpdateFacts::Install, UpdateReplyFacts::Failed(e)) => update.after(reply)
                == SelfUpdateFacts::Done(Err(e)),
            _ => update.after(reply) == update,
        },
{
}

/// What is to be done and what came of it is taken as it is given.
pub proof fn law_update_words(text: String, newer: bool)
    ensures
        SelfUpdate::Check@ == SelfUpdateFacts::Check,
        SelfUpdate::Install@ == SelfUpdateFacts::Install,
        SelfUpdate::Restart@ == SelfUpdateFacts::Restart,
        SelfUpdate::Done(Ok(()))@ == SelfUpdateFacts::Done(Ok(())),
        SelfUpdate::Done(Err(text))@ == SelfUpdateFacts::Done(Err(text@)),
        UpdateReply::Found(newer)@ == UpdateReplyFacts::Found(newer),
        UpdateReply::Done@ == UpdateReplyFacts::Done,
        UpdateReply::Failed(text)@ == UpdateReplyFacts::Failed(text@),
{
}

} // verus!
