//! Raise the server-lost modal while the link is down and a server
//! was lost; close it once the link is back.

use vstd::prelude::*;
use crate::execute::ref_view;
use crate::state::link::LinkPhase;
use crate::state::sources::Sources;
use crate::state::ui::Screen;

verus! {

pub struct LinkPhaseInput {
    pub connected: bool,
}

pub struct LostServerInput<'a> {
    pub lost_server: Option<&'a String>,
}

pub struct ScreenKindInput {
    pub on_lost_modal: bool,
}

/// Whether the modal should be up, and for which server.
pub enum DesiredLostModal {
    Hide,
    Show { server: String },
}

pub enum LostModalAction {
    Noop,
    Open { server: String },
    Close,
}

pub fn desired_lost_modal(link: LinkPhaseInput, session: LostServerInput) -> (r: DesiredLostModal)
    ensures
        link.connected ==> r is Hide,
        !link.connected ==> match session.lost_server {
            Some(n) => r matches DesiredLostModal::Show { server } && server@ == n@,
            None => r is Hide,
        },
{
    if link.connected {
        return DesiredLostModal::Hide;
    }
    match session.lost_server {
        Some(name) => DesiredLostModal::Show { server: name.clone() },
        None => DesiredLostModal::Hide,
    }
}

pub fn lost_modal_action(desired: DesiredLostModal, screen: ScreenKindInput) -> (r: LostModalAction)
    ensures
        match desired {
            DesiredLostModal::Show { server } => if screen.on_lost_modal {
                r is Noop
            } else {
                r matches LostModalAction::Open { server: s } && s@ == server@
            },
            DesiredLostModal::Hide => if screen.on_lost_modal {
                r is Close
            } else {
                r is Noop
            },
        },
{
    match desired {
        DesiredLostModal::Show { server } => if screen.on_lost_modal {
            LostModalAction::Noop
        } else {
            LostModalAction::Open { server }
        },
        DesiredLostModal::Hide => if screen.on_lost_modal {
            LostModalAction::Close
        } else {
            LostModalAction::Noop
        },
    }
}

/// Whether the lost modal should be shown on `s`, and for whom.
pub open spec fn spec_lost_wanted(s: Sources) -> Option<Seq<char>> {
    if s.link.phase == LinkPhase::Connected {
        None
    } else {
        crate::text::opt_view(s.session.lost_server)
    }
}

/// What `apply_lost_modal` does to the sources.
pub open spec fn apply_lost_modal_effect(pre: Sources, post: Sources) -> bool {
    &&& (match spec_lost_wanted(pre) {
        Some(n) => if pre.screen is ServerLostModal {
            post == pre
        } else {
            (post.screen matches Screen::ServerLostModal { server } && server@ == n)
                && post == Sources { screen: post.screen, ..pre }
        },
        None => if pre.screen is ServerLostModal {
            post.screen is NowPlaying && post == Sources { screen: post.screen, ..pre }
        } else {
            post == pre
        },
    })
}

pub fn apply_lost_modal(sources: &mut Sources)
    ensures
        apply_lost_modal_effect(*old(sources), *final(sources)),
{
    let on_lost = match &sources.screen {
        Screen::ServerLostModal { .. } => true,
        _ => false,
    };
    let desired = desired_lost_modal(
        LinkPhaseInput { connected: sources.link.phase == LinkPhase::Connected },
        LostServerInput { lost_server: sources.session.lost_server.as_ref() },
    );
    match lost_modal_action(desired, ScreenKindInput { on_lost_modal: on_lost }) {
        LostModalAction::Noop => {},
        LostModalAction::Open { server } => {
            sources.screen = Screen::ServerLostModal { server };
        },
        LostModalAction::Close => {
            sources.screen = Screen::NowPlaying;
        },
    }
}

} // verus!
