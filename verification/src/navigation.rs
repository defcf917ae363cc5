//! Moving between the pages of the window.

use vstd::prelude::*;
use crate::window::AppWindow;

verus! {

/// The indices that the window gives to its pages.
#[derive(Clone, Copy, Debug, PartialEq, Eq, Structural)]
pub struct Pages {
    pub launcher: i32,
    pub dir_manage: i32,
    pub game_download: i32,
    pub settings: i32,
    pub login: i32,
    pub microsoft_login: i32,
    pub version_choose: i32,
    pub mod_detail: i32,
}

/// The pages that the user came through, the latest last.
#[derive(Debug, PartialEq, Eq)]
pub struct Router {
    pub stack: Vec<i32>,
}

impl View for Router {
    type V = Seq<i32>;

    open spec fn view(&self) -> Seq<i32> {
        self.stack@
    }
}

impl Router {
    /// A router that has seen no page yet.
    pub fn new() -> (router: Router)
        ensures
            router@ == Seq::<i32>::empty(),
    {
        Router { stack: Vec::new() }
    }
}

impl AppWindow {
    /// Whether `after` is this window with the given page in view, and nothing else
    /// changed.
    pub open spec fn turns_to(self, after: AppWindow, page: i32) -> bool {
        after == (AppWindow { page_index: page, ..self })
    }
}

/// The pages behind the user after going from one page to another.
pub open spec fn trail_after(trail: Seq<i32>, from: i32, to: i32) -> Seq<i32> {
    if from == to {
        trail
    } else {
        trail.push(from)
    }
}

/// The page that going back leads to: the one that the user came from, or else the
/// first page.
pub open spec fn page_behind(trail: Seq<i32>, pages: Pages) -> i32 {
    if trail.len() > 0 {
        trail.last()
    } else {
        pages.launcher
    }
}

/// The pages behind the user after going back.
pub open spec fn trail_behind(trail: Seq<i32>) -> Seq<i32> {
    if trail.len() > 0 {
        trail.drop_last()
    } else {
        trail
    }
}

/// Turns to another page, and remembers the one that the user leaves.
pub fn navigate_to(to: i32, router: &mut Router, ui: &mut AppWindow)
    ensures
        final(router)@ == trail_after(old(router)@, old(ui).page_index, to),
        old(ui).turns_to(*final(ui), to),
{
    let current: i32 = ui.page_index;
    if current == to {
        return;
    }
    router.stack.push(current);
    ui.page_index = to;
}

/// Turns back to the page that the user came from; where there is none, to the
/// first page.
pub fn navigate_back(pages: &Pages, router: &mut Router, ui: &mut AppWindow)
    ensures
        final(router)@ == trail_behind(old(router)@),
        old(ui).turns_to(*final(ui), page_behind(old(router)@, *pages)),
{
    match router.stack.pop() {
        Some(back) => {
            ui.page_index = back;
        },
        None => {
            ui.page_index = pages.launcher;
        },
    }
}

/// The ways in which the user asks for another page.
#[derive(Clone, Copy, Debug, PartialEq, Eq, Structural)]
pub enum NavigationRequest {
    ManageInstances,
    OpenDownload,
    OpenSettings,
    OpenLogin,
    OpenMicrosoftLogin,
    GoBack,
}

impl NavigationRequest {
    /// The page that is asked for, unless it is the one before.
    pub open spec fn target(self, pages: Pages) -> Option<i32> {
        match self {
            NavigationRequest::ManageInstances => Some(pages.dir_manage),
            NavigationRequest::OpenDownload => Some(pages.game_download),
            NavigationRequest::OpenSettings => Some(pages.settings),
            NavigationRequest::OpenLogin => Some(pages.login),
            NavigationRequest::OpenMicrosoftLogin => Some(pages.microsoft_login),
            NavigationRequest::GoBack => None,
        }
    }
}

/// Follows a request for another page.
pub fn navigate(
    request: NavigationRequest,
    pages: &Pages,
    router: &mut Router,
    ui: &mut AppWindow,
)
    ensures
        match request.target(*pages) {
            Some(page) => {
                &&& final(router)@ == trail_after(old(router)@, old(ui).page_index, page)
                &&& old(ui).turns_to(*final(ui), page)
            },
            None => {
                &&& final(router)@ == trail_behind(old(router)@)
                &&& old(ui).turns_to(*final(ui), page_behind(old(router)@, *pages))
            },
        },
{
    match request {
        NavigationRequest::ManageInstances => navigate_to(pages.dir_manage, router, ui),
        NavigationRequest::OpenDownload => navigate_to(pages.game_download, router, ui),
        NavigationRequest::OpenSettings => navigate_to(pages.settings, router, ui),
        NavigationRequest::OpenLogin => navigate_to(pages.login, router, ui),
        NavigationRequest::OpenMicrosoftLogin => navigate_to(pages.microsoft_login, router, ui),
        NavigationRequest::GoBack => navigate_back(pages, router, ui),
    }
}

/// Going to another page and back leaves the window and the trail as they were.
pub proof fn law_back_undoes_to(
    pages: Pages,
    trail: Seq<i32>,
    to: i32,
    before: AppWindow,
    there: AppWindow,
    back: AppWindow,
)
    requires
        before.page_index != to,
        before.turns_to(there, to),
        there.turns_to(back, page_behind(trail_after(trail, before.page_index, to), pages)),
    ensures
        back == before,
        trail_behind(trail_after(trail, before.page_index, to)) == trail,
{
    assert(trail_behind(trail_after(trail, before.page_index, to)) =~= trail);
}

/// The pages in view, and the trail behind them, after going to each of the given
/// pages in turn.
pub open spec fn walk(trail: Seq<i32>, page: i32, pages: Seq<i32>) -> (Seq<i32>, i32)
    decreases pages.len(),
{
    if pages.len() == 0 {
        (trail, page)
    } else {
        walk(trail_after(trail, page, pages[0]), pages[0], pages.drop_first())
    }
}

/// The trail and the page in view after going back `steps` times.
pub open spec fn walk_back(trail: Seq<i32>, page: i32, steps: nat, pages: Pages) -> (Seq<i32>, i32)
    decreases steps,
{
    if steps == 0 {
        (trail, page)
    } else {
        walk_back(trail_behind(trail), page_behind(trail, pages), (steps - 1) as nat, pages)
    }
}

/// However far the user went, going back as often as the page changed leads to
/// where they started, and never further.
pub proof fn law_way_back(pages: Pages, trail: Seq<i32>, page: i32, visited: Seq<i32>)
    ensures
        ({
            let (far_trail, far_page) = walk(trail, page, visited);
            &&& trail.len() <= far_trail.len() <= trail.len() + visited.len()
            &&& walk_back(far_trail, far_page, (far_trail.len() - trail.len()) as nat, pages) == (
                trail,
                page,
            )
        }),
    decreases visited.len(),
{
    if visited.len() > 0 {
        let next_trail = trail_after(trail, page, visited[0]);
        law_way_back(pages, next_trail, visited[0], visited.drop_first());
        let (far_trail, far_page) = walk(trail, page, visited);
        if page != visited[0] {
            lemma_walk_back_splits(
                far_trail,
                far_page,
                (far_trail.len() - next_trail.len()) as nat,
                1,
                pages,
            );
            assert(trail_behind(next_trail) =~= trail);
            assert(walk_back(trail, page, 0, pages) == (trail, page));
            assert(walk_back(next_trail, visited[0], 1, pages) == (trail, page));
        }
    }
}

/// The trail and the page in view after moving to each of the given pages in turn, or
/// back where none is given.
pub open spec fn roam(trail: Seq<i32>, page: i32, moves: Seq<Option<i32>>, pages: Pages) -> (
    Seq<i32>,
    i32,
)
    decreases moves.len(),
{
    if moves.len() == 0 {
        (trail, page)
    } else {
        match moves[0] {
            Some(to) => roam(trail_after(trail, page, to), to, moves.drop_first(), pages),
            None => roam(
                trail_behind(trail),
                page_behind(trail, pages),
                moves.drop_first(),
                pages,
            ),
        }
    }
}

/// Whether no page follows itself.
pub open spec fn no_page_repeats(way: Seq<i32>) -> bool {
    forall|i: int| #![trigger way[i]] 0 < i < way.len() ==> way[i - 1] != way[i]
}

/// However the user moves to pages and back, a page that is left behind is another than
/// the one after it: on the way that ends with the page in view, no page follows itself.
pub proof fn law_back_leads_elsewhere(page: i32, moves: Seq<Option<i32>>, pages: Pages)
    ensures
        ({
            let (trail, last) = roam(seq![], page, moves, pages);
            no_page_repeats(trail.push(last))
        }),
{
    lemma_roaming_repeats_no_page(seq![], page, moves, pages);
}

/// Moving to a page or back keeps a way on which no page follows itself.
proof fn lemma_roaming_repeats_no_page(
    trail: Seq<i32>,
    page: i32,
    moves: Seq<Option<i32>>,
    pages: Pages,
)
    requires
        no_page_repeats(trail.push(page)),
    ensures
        ({
            let (far, last) = roam(trail, page, moves, pages);
            no_page_repeats(far.push(last))
        }),
    decreases moves.len(),
{
    if moves.len() > 0 {
        let way = trail.push(page);
        match moves[0] {
            Some(to) => {
                let next = trail_after(trail, page, to);
                assert forall|i: int| #![trigger next.push(to)[i]] 0 < i < next.push(
                    to,
                ).len() implies next.push(to)[i - 1] != next.push(to)[i] by {
                    if i < way.len() {
                        assert(way[i - 1] != way[i]);
                    }
                }
                lemma_roaming_repeats_no_page(next, to, moves.drop_first(), pages);
            },
            None => {
                let next = trail_behind(trail);
                let back = page_behind(trail, pages);
                assert forall|i: int| #![trigger next.push(back)[i]] 0 < i < next.push(
                    back,
                ).len() implies next.push(back)[i - 1] != next.push(back)[i] by {
                    assert(way[i - 1] != way[i]);
                }
                lemma_roaming_repeats_no_page(next, back, moves.drop_first(), pages);
            },
        }
    }
}

/// Going back some steps and then some more is going back all of them.
proof fn lemma_walk_back_splits(trail: Seq<i32>, page: i32, first: nat, more: nat, pages: Pages)
    ensures
        walk_back(trail, page, first + more, pages) == ({
            let (mid_trail, mid_page) = walk_back(trail, page, first, pages);
            walk_back(mid_trail, mid_page, more, pages)
        }),
    decreases first,
{
    if first > 0 {
        lemma_walk_back_splits(
            trail_behind(trail),
            page_behind(trail, pages),
            (first - 1) as nat,
            more,
            pages,
        );
    }
}

} // verus!
