use vstd::prelude::*;

pub mod geometry;
pub mod plot_buffer;
pub mod dimensions;
pub mod sums;
pub mod row;
pub mod ui;
pub mod common;
pub mod input_box;
pub mod bulletin_board;
pub mod border;

pub use geometry::{Point, Rect, Size};
pub use dimensions::{Axis, LayoutHacks, WidgetDimensions};
pub use row::{Plots, RowState, compute_plots_desired, compute_plots_practical};
pub use ui::{Selection, UI};
pub use common::{WidgetCommon, WidgetHandle, Widgetlike};
pub use input_box::{EditKey, InputBoxState};
pub use bulletin_board::BulletinBoardState;
pub use border::{BorderSlot, BorderState};

verus! {

} // verus!
