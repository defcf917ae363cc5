//! What holds of the progress bar and of moving between pages.

use vstd::prelude::*;
use crate::navigation::{
    page_behind, trail_after, trail_behind, NavigationRequest, Pages, Router,
};
use crate::window::{AppWindow, ProgressPanel};

verus! {

/// What is said of the bar is what its fields then hold, and nothing else in the window
/// changes.
pub proof fn law_bar_shows_the_task(before: AppWindow, after: AppWindow, text: Seq<char>)
    ensures
        before.names_task(after, text) ==> after == (AppWindow {
            progress: (ProgressPanel { task_name: after.progress.task_name, ..before.progress }),
            ..before
        }) && after.progress.task_name@ == text,
        before.announces_task(after, text) ==> after == (AppWindow {
            progress: (ProgressPanel {
                task_name: after.progress.task_name,
                visible: true,
                ..before.progress
            }),
            ..before
        }) && after.progress.task_name@ == text,
        before.starts_task(after, text) ==> after == (AppWindow {
            progress: (ProgressPanel {
                task_name: after.progress.task_name,
                visible: true,
                percent: 0,
            }),
            ..before
        }) && after.progress.task_name@ == text,
        before.ends_task(after, text) ==> after == (AppWindow {
            progress: (ProgressPanel {
                task_name: after.progress.task_name,
                visible: false,
                ..before.progress
            }),
            ..before
        }) && after.progress.task_name@ == text,
        before.completes_task(after, text) ==> after == (AppWindow {
            progress: (ProgressPanel {
                task_name: after.progress.task_name,
                visible: false,
                percent: 100,
            }),
            ..before
        }) && after.progress.task_name@ == text,
{
}

/// Each way of asking for a page leads to that page.
pub proof fn law_requests_lead_to_their_pages(pages: Pages)
    ensures
        NavigationRequest::ManageInstances.target(pages) == Some(pages.dir_manage),
        NavigationRequest::OpenDownload.target(pages) == Some(pages.game_download),
        NavigationRequest::OpenSettings.target(pages) == Some(pages.settings),
        NavigationRequest::OpenLogin.target(pages) == Some(pages.login),
        NavigationRequest::OpenMicrosoftLogin.target(pages) == Some(pages.microsoft_login),
        NavigationRequest::GoBack.target(pages) is None,
{
}

/// Going to another page leaves the page before it as the latest of the trail; going
/// back leads to the latest page of the trail and takes it off; without a trail it leads
/// to the first page.
pub proof fn law_trail_is_a_stack(trail: Seq<i32>, from: i32, to: i32, pages: Pages)
    ensures
        from != to ==> trail_after(trail, from, to) == trail.push(from),
        from == to ==> trail_after(trail, from, to) == trail,
        page_behind(trail.push(from), pages) == from,
        trail_behind(trail.push(from)) == trail,
        page_behind(seq![], pages) == pages.launcher,
        trail_behind(Seq::<i32>::empty()) == Seq::<i32>::empty(),
{
    assert(trail.push(from).drop_last() =~= trail);
}

/// The trail of a router is all that it holds.
pub proof fn law_router_holds_the_trail(router: Router)
    ensures
        router@ == router.stack@,
{
}

/// Turning a page changes nothing else.
pub proof fn law_turning_a_page_changes_only_the_page(
    before: AppWindow,
    after: AppWindow,
    page: i32,
)
    requires
        before.turns_to(after, page),
    ensures
        after == (AppWindow { page_index: page, ..before }),
{
}

} // verus!
