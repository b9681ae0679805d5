pub mod connecting_widget;
pub mod control_widget;
pub mod curve_widget;
pub mod float_input_widget;
pub mod footer_widget;
pub mod graph_widget;
pub mod header_widget;
