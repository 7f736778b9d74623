//! The server choice: the pre-connect picker list, the picker modal
//! opened from the connected server's row, and giving up on a lost
//! server.

use vstd::prelude::*;
use crate::dispatch::{connect_to, disconnect, fresh_attempt};
use crate::link_driver::LinkCmd;
use crate::state::link::{sat_add, LinkPhase};
use crate::state::sources::Sources;
use crate::state::ui::{Cursor, Screen};
use crate::tls::push_str;

verus! {

/// How long the "connecting to" notice stays up.
pub const CONNECTING_TOAST_MS: u64 = 3000;

/// One row up in a list of `n` rows, wrapping from the top to the
/// bottom.
pub open spec fn wrap_up(sel: usize, n: usize) -> usize {
    if sel == 0 { (n - 1) as usize } else { (sel - 1) as usize }
}

/// One row down in a list of `n` rows, wrapping from the bottom to
/// the top.
pub open spec fn wrap_down(sel: usize, n: usize) -> usize {
    ((sel + 1) % (n as int)) as usize
}

pub fn wrap_down_row(sel: usize, n: usize) -> (r: usize)
    requires
        n > 0,
    ensures
        r == wrap_down(sel, n),
        r < n,
{
    let m = sel % n;
    proof {
        vstd::arithmetic::div_mod::lemma_add_mod_noop(sel as int, 1, n as int);
        if n > 1 {
            vstd::arithmetic::div_mod::lemma_small_mod(1, n as nat);
        } else {
            assert((sel as int + 1) % 1 == 0);
            assert((sel as int) % 1 == 0);
        }
    }
    if m + 1 == n {
        proof {
            vstd::arithmetic::div_mod::lemma_mod_self_0(n as int);
        }
        0
    } else {
        proof {
            vstd::arithmetic::div_mod::lemma_small_mod((m + 1) as nat, n as nat);
        }
        m + 1
    }
}

/// `s` with the pre-connect picker cursor at `row`.
pub open spec fn with_picker(s: Sources, row: usize) -> Sources {
    Sources { cursor: Cursor { server_picker: row, ..s.cursor }, ..s }
}

/// What `picker_cursor_up` does to the sources.
pub open spec fn picker_cursor_up_effect(pre: Sources, post: Sources) -> bool {
    &&& (pre.discovery.servers@.len() == 0 ==> post == pre)
    &&& (pre.discovery.servers@.len() > 0 ==> post == with_picker(
        pre,
        wrap_up(pre.cursor.server_picker, pre.discovery.servers@.len() as usize),
    ))
}

pub fn picker_cursor_up(sources: &mut Sources)
    ensures
        picker_cursor_up_effect(*old(sources), *final(sources)),
{
    let n = sources.discovery.servers.len();
    if n == 0 {
        return;
    }
    let sel = sources.cursor.server_picker;
    sources.cursor.server_picker = if sel == 0 { n - 1 } else { sel - 1 };
}

/// What `picker_cursor_down` does to the sources.
pub open spec fn picker_cursor_down_effect(pre: Sources, post: Sources) -> bool {
    &&& (pre.discovery.servers@.len() == 0 ==> post == pre)
    &&& (pre.discovery.servers@.len() > 0 ==> post == with_picker(
        pre,
        wrap_down(pre.cursor.server_picker, pre.discovery.servers@.len() as usize),
    ))
}

pub fn picker_cursor_down(sources: &mut Sources)
    ensures
        picker_cursor_down_effect(*old(sources), *final(sources)),
{
    let n = sources.discovery.servers.len();
    if n == 0 {
        return;
    }
    sources.cursor.server_picker = wrap_down_row(sources.cursor.server_picker, n);
}

/// The notice shown while dialing `name`.
pub open spec fn connecting_text(name: Seq<char>) -> Seq<char> {
    "connecting to "@ + name + "\u{2026}"@
}

/// What `picker_connect` does to the sources.
pub open spec fn picker_connect_effect(pre: Sources, post: Sources) -> bool {
    &&& (({
        let pre = pre;
        let post = post;
        let sel = pre.cursor.server_picker as int;
        if sel < pre.discovery.servers@.len() {
            let name = pre.discovery.servers@[sel].name;
            &&& post.session.lost_server is None
            &&& !post.session.auto_connect
            &&& post.session == (crate::state::session::UiSession {
                lost_server: None,
                auto_connect: false,
                ..pre.session
            })
            &&& fresh_attempt(pre, post)
            &&& post.intent == (crate::state::intent::Intent { target: Some(name), pair_target: None })
            &&& post.toast.message matches Some(m) && m@ == connecting_text(name@)
            &&& post.toast.expires_at == Some(sat_add(pre.now, CONNECTING_TOAST_MS))
            &&& post == (Sources {
                session: post.session,
                pairing: post.pairing,
                intent: post.intent,
                link: post.link,
                probes: post.probes,
                toast: post.toast,
                ..pre
            })
        } else {
            post == pre
        }
    }))
}

/// Enter on the pre-connect picker: dial the highlighted server as a
/// user choice (no lost-server wait, no auto-connect) and say so.
pub fn picker_connect(sources: &mut Sources)
    ensures
        picker_connect_effect(*old(sources), *final(sources)),
{
    let sel = sources.cursor.server_picker;
    if sel >= sources.discovery.servers.len() {
        return;
    }
    let name = sources.discovery.servers[sel].name.clone();
    sources.session.lost_server = None;
    sources.session.auto_connect = false;
    let mut text = "connecting to ".to_owned();
    push_str(&mut text, name.as_str());
    push_str(&mut text, "\u{2026}");
    connect_to(sources, name);
    let until = sources.now.saturating_add(CONNECTING_TOAST_MS);
    sources.toast.show(text, until);
}

/// What `server_picker_modal_cursor_up` does to the sources.
pub open spec fn server_picker_modal_cursor_up_effect(pre: Sources, post: Sources) -> bool {
    &&& ((pre.discovery.servers@.len() > 0 && pre.screen is ServerPicker) ==> post == (Sources {
        screen: Screen::ServerPicker {
            selected: crate::panes::row_up(pre.screen->ServerPicker_selected),
        },
        ..pre
    }))
    &&& (!(pre.discovery.servers@.len() > 0 && pre.screen is ServerPicker) ==> post
        == pre)
}

pub fn server_picker_modal_cursor_up(sources: &mut Sources)
    ensures
        server_picker_modal_cursor_up_effect(*old(sources), *final(sources)),
{
    if sources.discovery.servers.len() == 0 {
        return;
    }
    if let Screen::ServerPicker { selected } = sources.screen {
        sources.screen = Screen::ServerPicker { selected: selected.saturating_sub(1) };
    }
}

/// What `server_picker_modal_cursor_down` does to the sources.
pub open spec fn server_picker_modal_cursor_down_effect(pre: Sources, post: Sources) -> bool {
    &&& ((pre.discovery.servers@.len() > 0 && pre.screen is ServerPicker) ==> post == (Sources {
        screen: Screen::ServerPicker {
            selected: crate::panes::row_down(
                pre.screen->ServerPicker_selected,
                pre.discovery.servers@.len() as int,
            ),
        },
        ..pre
    }))
    &&& (!(pre.discovery.servers@.len() > 0 && pre.screen is ServerPicker) ==> post
        == pre)
}

pub fn server_picker_modal_cursor_down(sources: &mut Sources)
    ensures
        server_picker_modal_cursor_down_effect(*old(sources), *final(sources)),
{
    let n = sources.discovery.servers.len();
    if n == 0 {
        return;
    }
    if let Screen::ServerPicker { selected } = sources.screen {
        let next = if selected < n - 1 { selected + 1 } else { selected };
        sources.screen = Screen::ServerPicker { selected: next };
    }
}

/// The link is up or coming up.
pub open spec fn link_live(s: Sources) -> bool {
    s.link.phase == LinkPhase::Connected || s.link.phase == LinkPhase::Connecting
}

/// What `server_picker_modal_select` does to the sources.
pub open spec fn server_picker_modal_select_effect(pre: Sources, post: Sources, cmd: Option<LinkCmd>) -> bool {
    &&& (!(pre.screen is ServerPicker) ==> post == pre && cmd is None)
    &&& (pre.screen is ServerPicker ==> {
        let pre = pre;
        let post = post;
        let sel = pre.screen->ServerPicker_selected as int;
        &&& post.screen is NowPlaying
        &&& if sel >= pre.discovery.servers@.len() {
            post == (Sources { screen: post.screen, ..pre }) && cmd is None
        } else {
            let name = pre.discovery.servers@[sel].name;
            if pre.session.backend_name matches Some(b) && b@ == name@ {
                post == (Sources { screen: post.screen, ..pre }) && cmd is None
            } else {
                &&& post.session == (crate::state::session::UiSession {
                    preferred_server: Some(name),
                    auto_connect: true,
                    lost_server: None,
                    ..pre.session
                })
                &&& fresh_attempt(pre, post)
                &&& post.intent == (crate::state::intent::Intent { target: Some(name), pair_target: None })
                &&& (link_live(pre) <==> cmd is Some)
                &&& cmd matches Some(c) ==> c is Disconnect
                &&& post == (Sources {
                    session: post.session,
                    pairing: post.pairing,
                    intent: post.intent,
                    link: post.link,
                    probes: post.probes,
                    screen: post.screen,
                    ..pre
                })
            }
        }
    })
}

/// Enter on the server picker modal: the connected server just closes
/// it; another server becomes the preferred auto-connect target, is
/// dialed, and a live link to the old one is told to disconnect.
pub fn server_picker_modal_select(sources: &mut Sources) -> (cmd: Option<LinkCmd>)
    ensures
        server_picker_modal_select_effect(*old(sources), *final(sources), cmd),
{
    let selected = match sources.screen {
        Screen::ServerPicker { selected } => selected,
        _ => return None,
    };
    if selected >= sources.discovery.servers.len() {
        sources.screen = Screen::NowPlaying;
        return None;
    }
    let name = sources.discovery.servers[selected].name.clone();
    let same = match &sources.session.backend_name {
        Some(b) => crate::text::text_eq(b, &name),
        None => false,
    };
    if same {
        sources.screen = Screen::NowPlaying;
        return None;
    }
    sources.session.preferred_server = Some(name.clone());
    sources.session.auto_connect = true;
    sources.session.lost_server = None;
    connect_to(sources, name);
    let cmd = match sources.link.phase {
        LinkPhase::Connected | LinkPhase::Connecting => Some(LinkCmd::Disconnect),
        _ => None,
    };
    sources.screen = Screen::NowPlaying;
    cmd
}

/// What `server_lost_give_up` does to the sources.
pub open spec fn server_lost_give_up_effect(pre: Sources, post: Sources, cmd: Option<LinkCmd>) -> bool {
    &&& (({
        let pre = pre;
        let post = post;
        &&& post.session == (crate::state::session::UiSession {
            lost_server: None,
            preferred_server: None,
            auto_connect: false,
            ..pre.session
        })
        &&& post.queue.is_reset()
        &&& post.playlists.is_reset()
        &&& post.playlist_tracks.is_reset()
        &&& post.search.task_id is None
        &&& post.search.songs@.len() == 0 && post.search.albums@.len() == 0 && post.search.artists@.len() == 0
        &&& !post.search.first_page_received
        &&& post.search.stale == (pre.search.task_id is Some || pre.search.stale)
        &&& post.search.term@ == pre.search.term@
        &&& post.search.search_type == pre.search.search_type
        &&& post.search.empty_reopen_done == pre.search.empty_reopen_done
        &&& post.artist_extras.entries@.len() == 0
        &&& post.server.is_reset()
        &&& post.link == (crate::state::link::Link { retry_at: None, retry_attempts: 0, ..pre.link })
        &&& post.screen is NowPlaying
        &&& post.intent == (crate::state::intent::Intent { target: None, pair_target: None })
        &&& (link_live(pre) <==> cmd is Some)
        &&& cmd matches Some(c) ==> c is Disconnect
        &&& post == (Sources {
            session: post.session,
            queue: post.queue,
            playlists: post.playlists,
            playlist_tracks: post.playlist_tracks,
            search: post.search,
            artist_extras: post.artist_extras,
            server: post.server,
            link: post.link,
            screen: post.screen,
            intent: post.intent,
            ..pre
        })
    }))
}

/// Enter on the lost-server modal: stop waiting for that server. The
/// retained view is dropped, nothing is dialed any more, auto-connect
/// is off, and a live link is told to disconnect.
pub fn server_lost_give_up(sources: &mut Sources) -> (cmd: Option<LinkCmd>)
    ensures
        server_lost_give_up_effect(*old(sources), *final(sources), cmd),
{
    sources.session.lost_server = None;
    sources.session.preferred_server = None;
    sources.session.auto_connect = false;
    sources.queue = crate::state::server::Queue::new();
    sources.playlists = crate::state::playlists::Playlists::new();
    sources.playlist_tracks.clear();
    sources.search.clear();
    sources.artist_extras.clear();
    sources.server = crate::state::server::ServerState::new();
    sources.link.clear_retry();
    sources.screen = Screen::NowPlaying;
    sources.intent.target = None;
    sources.intent.pair_target = None;
    disconnect(sources)
}

} // verus!
