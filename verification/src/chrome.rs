//! Window chrome of the example application: where the close, minimise
//! and zoom buttons sit, and whether the window is transparent.
//!
//! The host reports what happened to its windows; the library answers with
//! the adjustments to make. The host makes them as best it can and does
//! not report back: they are cosmetic.

use vstd::prelude::*;

verus! {

/// The label of the one window that is adjusted.
pub const MAIN_WINDOW_LABEL: &'static str = "main";

/// Horizontal offset of the button cluster from the window's corner.
pub const TRAFFIC_LIGHT_INSET_X: u32 = 15;

/// Vertical offset of the button cluster from the window's corner.
pub const TRAFFIC_LIGHT_INSET_Y: u32 = 18;

/// An offset of the button cluster from the window's corner, in points.
#[derive(Clone, Copy, Debug, PartialEq, Eq, Structural)]
pub struct Inset {
    pub x: u32,
    pub y: u32,
}

/// What the host saw happen.
#[derive(Clone, Copy, Debug, PartialEq, Eq, Structural)]
pub enum ChromeEvent {
    /// The application has set up its windows.
    WindowReady,
    /// The system switched between its light and dark theme, which puts
    /// the button cluster back where the system wants it.
    ThemeChanged,
    /// Anything else.
    Other,
}

/// One adjustment of the main window.
#[derive(Clone, Copy, Debug, PartialEq, Eq, Structural)]
pub enum ChromeAction {
    MakeTransparent,
    SetTrafficLightsInset(Inset),
}

/// The inset that the button cluster is to have.
pub open spec fn traffic_light_inset() -> Inset {
    Inset { x: TRAFFIC_LIGHT_INSET_X, y: TRAFFIC_LIGHT_INSET_Y }
}

/// The adjustments that `event` calls for, in order. Without a main
/// window there is nothing to adjust.
pub open spec fn chrome_plan(event: ChromeEvent, has_main_window: bool) -> Seq<ChromeAction> {
    if !has_main_window {
        seq![]
    } else {
        match event {
            ChromeEvent::WindowReady => seq![
                ChromeAction::MakeTransparent,
                ChromeAction::SetTrafficLightsInset(traffic_light_inset()),
            ],
            ChromeEvent::ThemeChanged => seq![
                ChromeAction::SetTrafficLightsInset(traffic_light_inset()),
            ],
            ChromeEvent::Other => seq![],
        }
    }
}

/// The adjustments to make after `event`, given whether a window with
/// the label `MAIN_WINDOW_LABEL` exists.
pub fn chrome_actions(event: ChromeEvent, has_main_window: bool) -> (r: Vec<ChromeAction>)
    ensures
        r@ == chrome_plan(event, has_main_window),
{
    let mut actions: Vec<ChromeAction> = Vec::new();
    if has_main_window {
        let inset = Inset { x: TRAFFIC_LIGHT_INSET_X, y: TRAFFIC_LIGHT_INSET_Y };
        match event {
            ChromeEvent::WindowReady => {
                actions.push(ChromeAction::MakeTransparent);
                actions.push(ChromeAction::SetTrafficLightsInset(inset));
            },
            ChromeEvent::ThemeChanged => {
                actions.push(ChromeAction::SetTrafficLightsInset(inset));
            },
            ChromeEvent::Other => {},
        }
    }
    actions
}

/// What of a window the adjustments change.
pub ghost struct WindowChrome {
    pub transparent: bool,
    /// Where the button cluster sits, if it was ever moved.
    pub inset: Option<Inset>,
}

/// The window after one adjustment.
pub open spec fn adjusted(chrome: WindowChrome, action: ChromeAction) -> WindowChrome {
    match action {
        ChromeAction::MakeTransparent => WindowChrome { transparent: true, ..chrome },
        ChromeAction::SetTrafficLightsInset(inset) => WindowChrome { inset: Some(inset), ..chrome },
    }
}

/// The window after the adjustments `actions`, made in order.
pub open spec fn adjusted_by(chrome: WindowChrome, actions: Seq<ChromeAction>) -> WindowChrome
    decreases actions.len(),
{
    if actions.len() == 0 {
        chrome
    } else {
        adjusted(adjusted_by(chrome, actions.drop_last()), actions.last())
    }
}

/// The window after the host has handled `event`.
pub open spec fn handled(chrome: WindowChrome, event: ChromeEvent, has_main_window: bool) -> WindowChrome {
    adjusted_by(chrome, chrome_plan(event, has_main_window))
}

/// Handling one event twice in a row leaves the window as handling it
/// once does. After a theme change the button cluster of the main window
/// sits at the fixed inset, however often the change is handled.
pub proof fn lemma_handling_is_idempotent(
    chrome: WindowChrome,
    event: ChromeEvent,
    has_main_window: bool,
)
    ensures
        handled(handled(chrome, event, has_main_window), event, has_main_window) == handled(
            chrome,
            event,
            has_main_window,
        ),
        has_main_window ==> handled(chrome, ChromeEvent::ThemeChanged, true).inset == Some(
            traffic_light_inset(),
        ),
        has_main_window ==> handled(
            handled(chrome, ChromeEvent::ThemeChanged, true),
            ChromeEvent::ThemeChanged,
            true,
        ).inset == Some(traffic_light_inset()),
{
    reveal_with_fuel(adjusted_by, 3);
    let plan = chrome_plan(event, has_main_window);
    if plan.len() == 2 {
        assert(plan.drop_last() == seq![plan[0]]);
        assert(plan.drop_last().drop_last() == Seq::<ChromeAction>::empty());
    } else if plan.len() == 1 {
        assert(plan.drop_last() == Seq::<ChromeAction>::empty());
    }
    let theme = chrome_plan(ChromeEvent::ThemeChanged, true);
    assert(theme.drop_last() == Seq::<ChromeAction>::empty());
}

} // verus!
