use scl3::navigation::{navigate, navigate_back, navigate_to, NavigationRequest, Pages, Router};
use scl3::window::AppWindow;

fn pages() -> Pages {
    Pages {
        launcher: 0,
        dir_manage: 1,
        game_download: 2,
        settings: 3,
        login: 4,
        microsoft_login: 5,
        version_choose: 6,
        mod_detail: 7,
    }
}

#[test]
fn back_returns_to_the_page_before() {
    let (mut router, mut ui) = (Router::new(), AppWindow::default());
    navigate_to(4, &mut router, &mut ui);
    assert_eq!((ui.page_index, router.stack.clone()), (4, vec![0]));
    navigate_to(5, &mut router, &mut ui);
    navigate_back(&pages(), &mut router, &mut ui);
    assert_eq!((ui.page_index, router.stack.clone()), (4, vec![0]));
    navigate_back(&pages(), &mut router, &mut ui);
    assert_eq!((ui, router), (AppWindow::default(), Router::new()));
}

#[test]
fn going_to_the_page_in_view_leaves_no_trail() {
    let (mut router, mut ui) = (Router::new(), AppWindow::default());
    navigate_to(3, &mut router, &mut ui);
    navigate_to(3, &mut router, &mut ui);
    assert_eq!(router.stack, vec![0]);
}

#[test]
fn back_without_a_trail_leads_to_the_launcher() {
    let mut router = Router::new();
    let mut ui = AppWindow { page_index: 9, ..Default::default() };
    let mut table = pages();
    table.launcher = 11;
    navigate_back(&table, &mut router, &mut ui);
    assert_eq!(ui, AppWindow { page_index: 11, ..Default::default() });
}

#[test]
fn requests_lead_to_their_pages() {
    let requests = [
        (NavigationRequest::ManageInstances, 1),
        (NavigationRequest::OpenDownload, 2),
        (NavigationRequest::OpenSettings, 3),
        (NavigationRequest::OpenLogin, 4),
        (NavigationRequest::OpenMicrosoftLogin, 5),
    ];
    for (request, page) in requests {
        let (mut router, mut ui) = (Router::new(), AppWindow::default());
        navigate(request, &pages(), &mut router, &mut ui);
        assert_eq!((ui.page_index, router.stack.clone()), (page, vec![0]));
        navigate(NavigationRequest::GoBack, &pages(), &mut router, &mut ui);
        assert_eq!((ui.page_index, router.stack.len()), (0, 0));
    }
}

#[test]
fn a_long_walk_leads_back_to_its_start() {
    let (mut router, mut ui) = (Router::new(), AppWindow::default());
    for page in [2, 6, 6, 2, 7, 0] {
        navigate_to(page, &mut router, &mut ui);
    }
    let steps = router.stack.len();
    assert_eq!(steps, 5);
    for _ in 0..steps {
        navigate_back(&pages(), &mut router, &mut ui);
    }
    assert_eq!((ui, router), (AppWindow::default(), Router::new()));
}

#[test]
fn going_back_leads_to_another_page() {
    let (mut ui, mut router) = (AppWindow::default(), Router::new());
    for to in [Some(3), Some(3), Some(4), None, Some(3), Some(0), None, None, None, None, Some(0), Some(5)] {
        match to {
            Some(page) => navigate_to(page, &mut router, &mut ui),
            None => navigate_back(&pages(), &mut router, &mut ui),
        }
        let mut way = router.stack.clone();
        way.push(ui.page_index);
        assert!(way.windows(2).all(|pair| pair[0] != pair[1]), "{:?}", way);
    }
}
