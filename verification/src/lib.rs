//! A navigation-stack widget core: a state machine that decides, frame by
//! frame, whether a stacked view is at rest, being dragged, navigating
//! forward or returning backward; a drag interpreter that classifies pointer
//! motion into directional intents and arbitrates gesture ownership between
//! nested surfaces; spring math driving the transition animation; and the
//! per-frame layering decisions (clip, translation, fade) for the background
//! and foreground passes. All geometry is carried as integral pixels.

pub mod drag;
pub mod drawer;
pub mod geom;
pub mod nav;
pub mod popup_sheet;
pub mod router;
pub mod spring;
pub mod state;
pub mod ui;
pub mod util;

pub use drag::{Drag, DragAction, DragAngle, DragDirection, DragEffects, DragInput, DragState};
pub use drawer::{DrawerFrameInput, DrawerResponse, NavDrawer};
pub use geom::{Pos, Rect};
pub use nav::{Nav, NavFrameInput, NavRenderPlan, NavResponse, RouteResponse};
pub use popup_sheet::{Percent, PopupFrameInput, PopupResponse, PopupSheet};
pub use router::{AsRoutes, HasRouter, Router};
pub use spring::{spring_animate, springy};
pub use state::{NavAction, ReturnType, State};
pub use ui::{DefaultTitleResponse, NavUiType};
pub use util::arr_top_n;
